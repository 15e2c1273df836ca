use vault_core::error::AppError;
use vault_core::folders::{
    create_folder, create_folder_as, delete_folder, new_folder, new_folder_as, rename_folder,
    rename_folder_at, update_folder, update_folder_at, Folder, FolderTable,
};

const T0: &str = "2024-01-01T00:00:00.000Z";
const T1: &str = "2024-01-02T00:00:00.000Z";

fn folder_not_found() -> AppError {
    AppError::NotFound("Folder not found".to_string())
}

#[test]
fn create_folder_fills_every_field() {
    let mut table = FolderTable::new();
    let folder = create_folder_as(&mut table, "alice", "Work".to_string(), "f-1".to_string(), T0.to_string())
        .unwrap();
    let expected = Folder {
        id: "f-1".to_string(),
        user_id: "alice".to_string(),
        name: "Work".to_string(),
        created_at: T0.to_string(),
        updated_at: T0.to_string(),
    };
    assert_eq!(folder, expected);
    assert_eq!(table.select("f-1", "alice"), Some(expected));
    assert_eq!(table.select("f-1", "bob"), None);
}

#[test]
fn create_folder_under_a_taken_id_is_refused() {
    let mut table = FolderTable::new();
    create_folder_as(&mut table, "alice", "Work".to_string(), "f-1".to_string(), T0.to_string())
        .unwrap();
    let r = create_folder_as(&mut table, "bob", "Home".to_string(), "f-1".to_string(), T1.to_string());
    assert_eq!(r, Err(AppError::Database));
    assert_eq!(table.select("f-1", "alice").unwrap().name, "Work");
}

#[test]
fn create_folder_draws_id_and_time() {
    let mut table = FolderTable::new();
    let a = create_folder(&mut table, "alice", "Work".to_string()).unwrap();
    let b = create_folder(&mut table, "alice", "Work".to_string()).unwrap();
    assert_eq!(a.id.len(), 36);
    assert_ne!(a.id, b.id);
    assert_eq!(a.created_at, a.updated_at);
    assert_eq!(a.created_at.len(), 24);
}

#[test]
fn update_folder_renames_and_refreshes() {
    let mut table = FolderTable::new();
    create_folder_as(&mut table, "alice", "Work".to_string(), "f-1".to_string(), T0.to_string())
        .unwrap();
    let folder = update_folder_at(&mut table, "alice", "f-1", "Office".to_string(), T1.to_string())
        .unwrap();
    assert_eq!(folder.name, "Office");
    assert_eq!(folder.created_at, T0);
    assert_eq!(folder.updated_at, T1);
    assert_eq!(folder.user_id, "alice");
    assert_eq!(table.select("f-1", "alice"), Some(folder));
}

#[test]
fn update_folder_of_another_owner_is_not_found() {
    let mut table = FolderTable::new();
    create_folder_as(&mut table, "alice", "Work".to_string(), "f-1".to_string(), T0.to_string())
        .unwrap();
    let r = update_folder_at(&mut table, "bob", "f-1", "Mine".to_string(), T1.to_string());
    assert_eq!(r, Err(folder_not_found()));
    assert_eq!(update_folder(&mut table, "bob", "f-2", "Mine".to_string()), Err(folder_not_found()));
    assert_eq!(table.select("f-1", "alice").unwrap().name, "Work");
}

#[test]
fn delete_folder_is_permanent_and_filtered() {
    let mut table = FolderTable::new();
    create_folder_as(&mut table, "alice", "Work".to_string(), "f-1".to_string(), T0.to_string())
        .unwrap();
    assert_eq!(delete_folder(&mut table, "bob", "f-1"), Ok(()));
    assert!(table.select("f-1", "alice").is_some());
    assert_eq!(delete_folder(&mut table, "alice", "f-1"), Ok(()));
    assert_eq!(table.select("f-1", "alice"), None);
    assert_eq!(delete_folder(&mut table, "alice", "f-1"), Ok(()));
}

#[test]
fn latest_folder_update() {
    let mut table = FolderTable::new();
    create_folder_as(&mut table, "alice", "A".to_string(), "f-1".to_string(), T1.to_string()).unwrap();
    create_folder_as(&mut table, "alice", "B".to_string(), "f-2".to_string(), T0.to_string()).unwrap();
    assert_eq!(table.latest_update("alice"), Some(T1.to_string()));
    assert_eq!(table.latest_update("bob"), None);
}

#[test]
fn new_folder_without_a_table() {
    let folder = new_folder_as("alice", "Work".to_string(), "f-1".to_string(), T0.to_string());
    assert_eq!(folder.user_id, "alice");
    assert_eq!(folder.created_at, T0);
    assert_eq!(folder.updated_at, T0);
    let drawn = new_folder("alice", "Work".to_string());
    assert_eq!(drawn.id.len(), 36);
    assert_eq!(drawn.name, "Work");
    assert_eq!(drawn.created_at, drawn.updated_at);
}

#[test]
fn rename_folder_without_a_table() {
    let folder = new_folder_as("alice", "Work".to_string(), "f-1".to_string(), T0.to_string());
    let renamed = rename_folder_at(Some(folder.clone()), "Office".to_string(), T1.to_string()).unwrap();
    assert_eq!(renamed, Folder { name: "Office".to_string(), updated_at: T1.to_string(), ..folder.clone() });
    assert_eq!(rename_folder_at(None, "Office".to_string(), T1.to_string()), Err(folder_not_found()));
    let now = rename_folder(Some(folder), "Office".to_string()).unwrap();
    assert_eq!(now.created_at, T0);
    assert!(now.updated_at.as_str() > T0);
    assert_eq!(rename_folder(None, "Office".to_string()), Err(folder_not_found()));
}
