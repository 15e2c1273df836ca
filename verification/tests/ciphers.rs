use vault_core::cipher::{Cipher, CipherRequestData, CipherRow, CreateCipherRequest, PartialCipherUpdate};
use vault_core::ciphers::{
    build_cipher, cipher_or_not_found, create_cipher, create_cipher_as, create_cipher_standard,
    get_cipher, hard_delete_cipher, replace_cipher, restore_cipher, restore_cipher_at,
    soft_delete_cipher, soft_delete_cipher_at, update_cipher, update_cipher_at,
    update_cipher_partial, update_cipher_partial_at,
};
use vault_core::error::AppError;
use vault_core::table::CipherTable;

const T0: &str = "2024-01-01T00:00:00.000Z";
const T1: &str = "2024-01-02T00:00:00.000Z";
const T2: &str = "2024-01-03T00:00:00.000Z";

fn login_request() -> CipherRequestData {
    CipherRequestData {
        cipher_type: 1,
        organization_id: None,
        folder_id: None,
        favorite: false,
        data: Some("{\"name\":\"2.abc|def\",\"login\":{\"username\":\"2.u\"}}".to_string()),
        collection_ids: None,
    }
}

fn not_found() -> AppError {
    AppError::NotFound("Cipher not found".to_string())
}

fn seeded() -> (CipherTable, Cipher) {
    let mut table = CipherTable::new();
    let cipher = create_cipher_as(
        &mut table,
        "alice",
        login_request(),
        None,
        "c-1".to_string(),
        T0.to_string(),
    )
    .unwrap();
    (table, cipher)
}

#[test]
fn create_fills_every_field() {
    let (_, cipher) = seeded();
    let expected = Cipher {
        id: "c-1".to_string(),
        user_id: Some("alice".to_string()),
        organization_id: None,
        cipher_type: 1,
        data: "{\"name\":\"2.abc|def\",\"login\":{\"username\":\"2.u\"}}".to_string(),
        favorite: false,
        folder_id: None,
        deleted_at: None,
        created_at: T0.to_string(),
        updated_at: T0.to_string(),
        object: "cipher".to_string(),
        organization_use_totp: false,
        edit: true,
        view_password: true,
        collection_ids: None,
        attachments: None,
        key: None,
    };
    assert_eq!(cipher, expected);
}

#[test]
fn create_stores_what_it_answers() {
    let (table, cipher) = seeded();
    assert_eq!(get_cipher(&table, "alice", "c-1"), Ok(cipher));
}

#[test]
fn create_keeps_the_payload_byte_for_byte() {
    let mut table = CipherTable::new();
    let mut request = login_request();
    let payload = "{\"notes\":\"2.\u{00e9}\u{4e2d} \\\" \\n \"}".to_string();
    request.data = Some(payload.clone());
    create_cipher_as(&mut table, "alice", request, None, "c-9".to_string(), T0.to_string())
        .unwrap();
    assert_eq!(get_cipher(&table, "alice", "c-9").unwrap().data, payload);
}

#[test]
fn create_without_encoded_payload_is_internal() {
    let mut table = CipherTable::new();
    let mut request = login_request();
    request.data = None;
    let r = create_cipher_as(&mut table, "alice", request, None, "c-1".to_string(), T0.to_string());
    assert_eq!(r, Err(AppError::Internal));
    assert_eq!(get_cipher(&table, "alice", "c-1"), Err(not_found()));
}

#[test]
fn create_under_a_taken_id_is_refused() {
    let (mut table, first) = seeded();
    let mut request = login_request();
    request.favorite = true;
    let r = create_cipher_as(&mut table, "bob", request, None, "c-1".to_string(), T1.to_string());
    assert_eq!(r, Err(AppError::Database));
    assert_eq!(get_cipher(&table, "alice", "c-1"), Ok(first));
    assert_eq!(get_cipher(&table, "bob", "c-1"), Err(not_found()));
}

#[test]
fn create_standard_draws_id_and_time() {
    let mut table = CipherTable::new();
    let mut request = login_request();
    request.collection_ids = Some(vec!["col-1".to_string()]);
    let cipher = create_cipher_standard(&mut table, "alice", request).unwrap();
    assert_eq!(cipher.id.len(), 36);
    assert_eq!(cipher.user_id, Some("alice".to_string()));
    assert_eq!(cipher.created_at, cipher.updated_at);
    assert_eq!(cipher.created_at.len(), 24);
    assert!(cipher.created_at.ends_with('Z'));
    assert_eq!(&cipher.created_at[10..11], "T");
    assert_eq!(cipher.collection_ids, Some(vec!["col-1".to_string()]));
    assert_eq!(cipher.deleted_at, None);
    let stored = get_cipher(&table, "alice", &cipher.id).unwrap();
    assert_eq!(stored.created_at, cipher.created_at);
    assert_eq!(stored.data, cipher.data);
}

#[test]
fn create_twice_gives_two_ciphers() {
    let mut table = CipherTable::new();
    let a = create_cipher_standard(&mut table, "alice", login_request()).unwrap();
    let b = create_cipher_standard(&mut table, "alice", login_request()).unwrap();
    assert_ne!(a.id, b.id);
    assert!(get_cipher(&table, "alice", &a.id).is_ok());
    assert!(get_cipher(&table, "alice", &b.id).is_ok());
}

#[test]
fn envelope_with_no_collections_answers_none() {
    let mut table = CipherTable::new();
    let payload = CreateCipherRequest { cipher: login_request(), collection_ids: vec![] };
    let cipher = create_cipher(&mut table, "alice", payload).unwrap();
    assert_eq!(cipher.collection_ids, None);
}

#[test]
fn envelope_collections_win_over_the_request() {
    let mut table = CipherTable::new();
    let mut request = login_request();
    request.collection_ids = Some(vec!["inner".to_string()]);
    let payload = CreateCipherRequest {
        cipher: request,
        collection_ids: vec!["outer-1".to_string(), "outer-2".to_string()],
    };
    let cipher = create_cipher(&mut table, "alice", payload).unwrap();
    assert_eq!(cipher.collection_ids, Some(vec!["outer-1".to_string(), "outer-2".to_string()]));
}

#[test]
fn both_entry_shapes_store_the_same_row() {
    let flat = build_cipher("alice", login_request(), None, "c-1".to_string(), T0.to_string())
        .unwrap();
    let enveloped = build_cipher(
        "alice",
        login_request(),
        Some(vec!["col".to_string()]),
        "c-1".to_string(),
        T0.to_string(),
    )
    .unwrap();
    assert_eq!(flat.to_row("alice"), enveloped.to_row("alice"));
}

#[test]
fn get_of_absent_cipher_is_not_found() {
    let table = CipherTable::new();
    assert_eq!(get_cipher(&table, "alice", "nope"), Err(not_found()));
}

#[test]
fn row_becomes_cipher_with_fixed_defaults() {
    let row = CipherRow {
        id: "c-7".to_string(),
        user_id: "alice".to_string(),
        organization_id: Some("org".to_string()),
        cipher_type: 3,
        data: "{}".to_string(),
        favorite: true,
        folder_id: Some("f-1".to_string()),
        deleted_at: Some(T1.to_string()),
        created_at: T0.to_string(),
        updated_at: T1.to_string(),
    };
    let cipher = cipher_or_not_found(Some(row.clone())).unwrap();
    assert_eq!(cipher.user_id, Some("alice".to_string()));
    assert_eq!(cipher.object, "cipher");
    assert!(cipher.edit && cipher.view_password && !cipher.organization_use_totp);
    assert_eq!(cipher.collection_ids, None);
    assert_eq!(cipher.to_row("alice"), row);
    assert_eq!(cipher_or_not_found(None), Err(not_found()));
}

#[test]
fn update_preserves_identity_and_refreshes_time() {
    let (mut table, created) = seeded();
    let request = CipherRequestData {
        cipher_type: 2,
        organization_id: Some("org-1".to_string()),
        folder_id: Some("f-1".to_string()),
        favorite: true,
        data: Some("{\"card\":{}}".to_string()),
        collection_ids: Some(vec!["ignored".to_string()]),
    };
    let updated = update_cipher_at(&mut table, "alice", "c-1", request, T1.to_string()).unwrap();
    assert_eq!(updated.id, created.id);
    assert_eq!(updated.user_id, created.user_id);
    assert_eq!(updated.created_at, created.created_at);
    assert_eq!(updated.updated_at, T1);
    assert_eq!(updated.cipher_type, 2);
    assert_eq!(updated.organization_id, Some("org-1".to_string()));
    assert_eq!(updated.folder_id, Some("f-1".to_string()));
    assert!(updated.favorite);
    assert_eq!(updated.data, "{\"card\":{}}");
    assert_eq!(updated.collection_ids, None);
    assert_eq!(get_cipher(&table, "alice", "c-1"), Ok(updated));
}

#[test]
fn update_of_absent_cipher_is_not_found() {
    let mut table = CipherTable::new();
    let r = update_cipher_at(&mut table, "alice", "c-1", login_request(), T1.to_string());
    assert_eq!(r, Err(not_found()));
    assert_eq!(update_cipher(&mut table, "alice", "c-1", login_request()), Err(not_found()));
}

#[test]
fn update_reports_absence_before_a_bad_payload() {
    let (mut table, created) = seeded();
    let mut request = login_request();
    request.data = None;
    let mut other = login_request();
    other.data = None;
    assert_eq!(
        update_cipher_at(&mut table, "alice", "absent", request, T1.to_string()),
        Err(not_found())
    );
    assert_eq!(
        update_cipher_at(&mut table, "alice", "c-1", other, T1.to_string()),
        Err(AppError::Internal)
    );
    assert_eq!(get_cipher(&table, "alice", "c-1"), Ok(created));
}

#[test]
fn update_answers_active_but_leaves_the_tombstone() {
    let (mut table, _) = seeded();
    soft_delete_cipher_at(&mut table, "alice", "c-1", T1).unwrap();
    let updated = update_cipher_at(&mut table, "alice", "c-1", login_request(), T2.to_string())
        .unwrap();
    assert_eq!(updated.deleted_at, None);
    let stored = get_cipher(&table, "alice", "c-1").unwrap();
    assert_eq!(stored.deleted_at, Some(T1.to_string()));
    assert_eq!(stored.updated_at, T2);
}

#[test]
fn update_with_the_clock_refreshes_updated_at() {
    let (mut table, created) = seeded();
    let updated = update_cipher(&mut table, "alice", "c-1", login_request()).unwrap();
    assert_eq!(updated.created_at, created.created_at);
    assert_eq!(updated.updated_at.len(), 24);
    assert!(updated.updated_at.as_str() > T0);
}

#[test]
fn replace_cipher_decides_from_the_row() {
    let (table, _) = seeded();
    let row = table.select("c-1", "alice");
    let cipher = replace_cipher(row, login_request(), T1.to_string()).unwrap();
    assert_eq!(cipher.created_at, T0);
    assert_eq!(cipher.updated_at, T1);
    assert_eq!(replace_cipher(None, login_request(), T1.to_string()), Err(not_found()));
}

#[test]
fn partial_update_with_favorite_only_keeps_the_folder() {
    let (mut table, _) = seeded();
    table.set_folder("c-1", "alice", "f-1".to_string(), T0);
    let before = get_cipher(&table, "alice", "c-1").unwrap();
    let patch = PartialCipherUpdate { folder_id: None, favorite: Some(true) };
    let after = update_cipher_partial_at(&mut table, "alice", "c-1", patch, T1).unwrap();
    assert_eq!(after.folder_id, Some("f-1".to_string()));
    assert!(after.favorite);
    assert_eq!(after.updated_at, T1);
    assert_eq!(Cipher { favorite: false, updated_at: T0.to_string(), ..after.clone() }, before);
    assert_eq!(get_cipher(&table, "alice", "c-1"), Ok(after));
}

#[test]
fn partial_update_with_folder_only_keeps_the_favorite() {
    let (mut table, _) = seeded();
    table.set_favorite("c-1", "alice", true, T0);
    let patch = PartialCipherUpdate { folder_id: Some("f-2".to_string()), favorite: None };
    let after = update_cipher_partial_at(&mut table, "alice", "c-1", patch, T1).unwrap();
    assert!(after.favorite);
    assert_eq!(after.folder_id, Some("f-2".to_string()));
    assert_eq!(after.updated_at, T1);
    assert_eq!(after.created_at, T0);
}

#[test]
fn partial_update_with_both_fields() {
    let (mut table, _) = seeded();
    let patch = PartialCipherUpdate { folder_id: Some("f-2".to_string()), favorite: Some(true) };
    let after = update_cipher_partial_at(&mut table, "alice", "c-1", patch, T1).unwrap();
    assert!(after.favorite);
    assert_eq!(after.folder_id, Some("f-2".to_string()));
    assert_eq!(after.updated_at, T1);
}

#[test]
fn partial_update_with_neither_field_changes_nothing() {
    let (mut table, created) = seeded();
    let patch = PartialCipherUpdate { folder_id: None, favorite: None };
    let after = update_cipher_partial_at(&mut table, "alice", "c-1", patch, T1).unwrap();
    assert_eq!(after, created);
    assert_eq!(after.updated_at, T0);
}

#[test]
fn partial_update_of_absent_cipher_is_not_found() {
    let mut table = CipherTable::new();
    let patch = PartialCipherUpdate { folder_id: None, favorite: Some(true) };
    assert_eq!(update_cipher_partial_at(&mut table, "alice", "c-1", patch.clone(), T1), Err(not_found()));
    assert_eq!(update_cipher_partial(&mut table, "alice", "c-1", patch), Err(not_found()));
}

#[test]
fn soft_delete_sets_both_timestamps() {
    let (mut table, created) = seeded();
    assert_eq!(soft_delete_cipher_at(&mut table, "alice", "c-1", T1), Ok(()));
    let stored = get_cipher(&table, "alice", "c-1").unwrap();
    assert_eq!(stored.deleted_at, Some(T1.to_string()));
    assert_eq!(stored.updated_at, T1);
    assert_eq!(Cipher { deleted_at: None, updated_at: T0.to_string(), ..stored }, created);
}

#[test]
fn soft_delete_of_absent_cipher_reports_success() {
    let mut table = CipherTable::new();
    assert_eq!(soft_delete_cipher_at(&mut table, "alice", "nope", T1), Ok(()));
    assert_eq!(soft_delete_cipher(&mut table, "alice", "nope"), Ok(()));
    assert_eq!(table.mark_deleted("nope", "alice", T1), 0);
}

#[test]
fn soft_delete_then_restore_round_trips() {
    let (mut table, created) = seeded();
    soft_delete_cipher_at(&mut table, "alice", "c-1", T1).unwrap();
    let restored = restore_cipher_at(&mut table, "alice", "c-1", T2).unwrap();
    assert_eq!(restored.deleted_at, None);
    assert_eq!(restored.updated_at, T2);
    assert_eq!(Cipher { updated_at: T0.to_string(), ..restored.clone() }, created);
    assert_eq!(get_cipher(&table, "alice", "c-1"), Ok(restored));
}

#[test]
fn restore_with_the_clock() {
    let (mut table, _) = seeded();
    soft_delete_cipher(&mut table, "alice", "c-1").unwrap();
    assert!(get_cipher(&table, "alice", "c-1").unwrap().deleted_at.is_some());
    let restored = restore_cipher(&mut table, "alice", "c-1").unwrap();
    assert_eq!(restored.deleted_at, None);
    assert_eq!(restored.created_at, T0);
}

#[test]
fn restore_of_absent_cipher_is_not_found() {
    let mut table = CipherTable::new();
    assert_eq!(restore_cipher_at(&mut table, "alice", "c-1", T1), Err(not_found()));
}

#[test]
fn hard_delete_then_get_is_not_found() {
    let (mut table, _) = seeded();
    assert_eq!(hard_delete_cipher(&mut table, "alice", "c-1"), Ok(()));
    assert_eq!(get_cipher(&table, "alice", "c-1"), Err(not_found()));
    assert_eq!(hard_delete_cipher(&mut table, "alice", "c-1"), Ok(()));
    assert_eq!(table.delete("c-1", "alice"), 0);
}

#[test]
fn hard_delete_leaves_other_ciphers() {
    let (mut table, _) = seeded();
    let other = create_cipher_as(&mut table, "alice", login_request(), None, "c-2".to_string(), T0.to_string())
        .unwrap();
    hard_delete_cipher(&mut table, "alice", "c-1").unwrap();
    assert_eq!(get_cipher(&table, "alice", "c-2"), Ok(other));
}

#[test]
fn another_owner_sees_nothing_and_changes_nothing() {
    let (mut table, created) = seeded();
    assert_eq!(get_cipher(&table, "bob", "c-1"), Err(not_found()));
    assert_eq!(
        update_cipher_at(&mut table, "bob", "c-1", login_request(), T1.to_string()),
        Err(not_found())
    );
    let patch = PartialCipherUpdate { folder_id: Some("f".to_string()), favorite: Some(true) };
    assert_eq!(update_cipher_partial_at(&mut table, "bob", "c-1", patch, T1), Err(not_found()));
    assert_eq!(restore_cipher_at(&mut table, "bob", "c-1", T1), Err(not_found()));
    assert_eq!(soft_delete_cipher_at(&mut table, "bob", "c-1", T1), Ok(()));
    assert_eq!(hard_delete_cipher(&mut table, "bob", "c-1"), Ok(()));
    assert_eq!(get_cipher(&table, "alice", "c-1"), Ok(created));
}

#[test]
fn statements_report_the_rows_they_touched() {
    let (mut table, _) = seeded();
    assert_eq!(table.set_favorite("c-1", "alice", true, T1), 1);
    assert_eq!(table.set_favorite("c-1", "bob", true, T1), 0);
    assert_eq!(table.mark_deleted("c-1", "alice", T1), 1);
    assert_eq!(table.clear_deleted("c-1", "alice", T2), 1);
    assert_eq!(table.delete("c-1", "bob"), 0);
    assert_eq!(table.delete("c-1", "alice"), 1);
    assert_eq!(table.clear_deleted("c-1", "alice", T2), 0);
}

#[test]
fn end_to_end_favorite() {
    let mut table = CipherTable::new();
    let created = create_cipher_standard(&mut table, "alice", login_request()).unwrap();
    assert_eq!(created.cipher_type, 1);
    assert!(!created.favorite);
    let patch = PartialCipherUpdate { folder_id: None, favorite: Some(true) };
    update_cipher_partial(&mut table, "alice", &created.id, patch).unwrap();
    let read = get_cipher(&table, "alice", &created.id).unwrap();
    assert!(read.favorite);
    assert_eq!(read.folder_id, None);
    assert_eq!(read.id, created.id);
    assert_eq!(read.created_at, created.created_at);
}
