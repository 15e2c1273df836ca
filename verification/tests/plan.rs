use vault_core::cipher::{CipherRequestData, CipherRow, PartialCipherUpdate};
use vault_core::ciphers::{create_cipher_as, get_cipher};
use vault_core::error::AppError;
use vault_core::plan::{
    begin_create, begin_get, begin_hard_delete, begin_partial_update, begin_restore,
    begin_soft_delete, begin_update, perform, proceed, Next, Stage,
};
use vault_core::statement::{Reply, Statement};
use vault_core::table::CipherTable;

const T0: &str = "2024-01-01T00:00:00.000Z";
const T1: &str = "2024-01-02T00:00:00.000Z";

fn request() -> CipherRequestData {
    CipherRequestData {
        cipher_type: 1,
        organization_id: None,
        folder_id: None,
        favorite: false,
        data: Some("{}".to_string()),
        collection_ids: None,
    }
}

fn stored_row() -> CipherRow {
    CipherRow {
        id: "c-1".to_string(),
        user_id: "alice".to_string(),
        organization_id: None,
        cipher_type: 1,
        data: "{}".to_string(),
        favorite: false,
        folder_id: None,
        deleted_at: None,
        created_at: T0.to_string(),
        updated_at: T0.to_string(),
    }
}

fn select() -> Statement {
    Statement::Select { id: "c-1".to_string(), owner: "alice".to_string() }
}

fn not_found() -> Next {
    Next::Done { answer: Err(AppError::NotFound("Cipher not found".to_string())) }
}

fn store_failed() -> Next {
    Next::Done { answer: Err(AppError::Database) }
}

fn statements_of(first: Next, replies: Vec<Reply>) -> (Vec<Statement>, Next) {
    let mut seen = Vec::new();
    let mut next = first;
    for reply in replies {
        match next {
            Next::Run { statement, then } => {
                seen.push(statement);
                next = proceed(then, reply);
            }
            done => return (seen, done),
        }
    }
    (seen, next)
}

#[test]
fn create_plan_is_one_insert() {
    let first = begin_create("alice", request(), None, "c-1".to_string(), T0.to_string());
    let (seen, last) = statements_of(first, vec![Reply::Affected(1)]);
    assert_eq!(seen, vec![Statement::Insert { row: stored_row() }]);
    match last {
        Next::Done { answer: Ok(Some(cipher)) } => assert_eq!(cipher.to_row("alice"), stored_row()),
        other => panic!("unexpected {:?}", other),
    }
}

#[test]
fn create_plan_without_payload_runs_nothing() {
    let mut bad = request();
    bad.data = None;
    let first = begin_create("alice", bad, None, "c-1".to_string(), T0.to_string());
    assert_eq!(first, Next::Done { answer: Err(AppError::Internal) });
}

#[test]
fn create_plan_refused_insert_is_a_database_failure() {
    let first = begin_create("alice", request(), None, "c-1".to_string(), T0.to_string());
    let (_, last) = statements_of(first, vec![Reply::Refused]);
    assert_eq!(last, store_failed());
}

#[test]
fn get_plan_is_one_select() {
    let (seen, last) = statements_of(begin_get("alice", "c-1"), vec![Reply::Row(None)]);
    assert_eq!(seen, vec![select()]);
    assert_eq!(last, not_found());
}

#[test]
fn update_plan_reads_then_writes() {
    let mut wanted = request();
    wanted.favorite = true;
    wanted.folder_id = Some("f-1".to_string());
    let first = begin_update("alice", "c-1", wanted, T1.to_string());
    let (seen, last) =
        statements_of(first, vec![Reply::Row(Some(stored_row())), Reply::Affected(1)]);
    assert_eq!(
        seen,
        vec![
            select(),
            Statement::ReplaceContents {
                id: "c-1".to_string(),
                owner: "alice".to_string(),
                organization_id: None,
                cipher_type: 1,
                data: "{}".to_string(),
                favorite: true,
                folder_id: Some("f-1".to_string()),
                now: T1.to_string(),
            },
        ]
    );
    match last {
        Next::Done { answer: Ok(Some(cipher)) } => {
            assert_eq!(cipher.created_at, T0);
            assert_eq!(cipher.updated_at, T1);
            assert!(cipher.favorite);
        }
        other => panic!("unexpected {:?}", other),
    }
}

#[test]
fn update_plan_stops_when_the_row_is_missing() {
    let first = begin_update("alice", "c-1", request(), T1.to_string());
    let (seen, last) = statements_of(first, vec![Reply::Row(None), Reply::Affected(1)]);
    assert_eq!(seen, vec![select()]);
    assert_eq!(last, not_found());
}

#[test]
fn partial_plan_writes_the_folder_first() {
    let patch = PartialCipherUpdate { folder_id: Some("f-1".to_string()), favorite: Some(true) };
    let first = begin_partial_update("alice", "c-1", patch, T1.to_string());
    let mut changed = stored_row();
    changed.favorite = true;
    changed.folder_id = Some("f-1".to_string());
    changed.updated_at = T1.to_string();
    let (seen, last) = statements_of(
        first,
        vec![
            Reply::Row(Some(stored_row())),
            Reply::Affected(1),
            Reply::Affected(1),
            Reply::Row(Some(changed.clone())),
        ],
    );
    assert_eq!(
        seen,
        vec![
            select(),
            Statement::SetFolder {
                id: "c-1".to_string(),
                owner: "alice".to_string(),
                folder: "f-1".to_string(),
                now: T1.to_string(),
            },
            Statement::SetFavorite {
                id: "c-1".to_string(),
                owner: "alice".to_string(),
                favorite: true,
                now: T1.to_string(),
            },
            select(),
        ]
    );
    match last {
        Next::Done { answer: Ok(Some(cipher)) } => assert_eq!(cipher.to_row("alice"), changed),
        other => panic!("unexpected {:?}", other),
    }
}

#[test]
fn partial_plan_with_nothing_supplied_only_reads() {
    let patch = PartialCipherUpdate { folder_id: None, favorite: None };
    let first = begin_partial_update("alice", "c-1", patch, T1.to_string());
    let (seen, _) = statements_of(
        first,
        vec![Reply::Row(Some(stored_row())), Reply::Row(Some(stored_row()))],
    );
    assert_eq!(seen, vec![select(), select()]);
}

#[test]
fn partial_plan_with_favorite_only() {
    let patch = PartialCipherUpdate { folder_id: None, favorite: Some(false) };
    let first = begin_partial_update("alice", "c-1", patch, T1.to_string());
    let (seen, _) = statements_of(
        first,
        vec![Reply::Row(Some(stored_row())), Reply::Affected(1), Reply::Row(Some(stored_row()))],
    );
    assert_eq!(
        seen,
        vec![
            select(),
            Statement::SetFavorite {
                id: "c-1".to_string(),
                owner: "alice".to_string(),
                favorite: false,
                now: T1.to_string(),
            },
            select(),
        ]
    );
}

#[test]
fn partial_plan_stops_when_the_row_is_missing() {
    let patch = PartialCipherUpdate { folder_id: Some("f".to_string()), favorite: Some(true) };
    let first = begin_partial_update("alice", "c-1", patch, T1.to_string());
    let (seen, last) = statements_of(first, vec![Reply::Row(None), Reply::Affected(0)]);
    assert_eq!(seen, vec![select()]);
    assert_eq!(last, not_found());
}

#[test]
fn soft_delete_plan_is_one_write() {
    let first = begin_soft_delete("alice", "c-1", T1.to_string());
    let (seen, last) = statements_of(first, vec![Reply::Affected(0)]);
    assert_eq!(
        seen,
        vec![Statement::MarkDeleted {
            id: "c-1".to_string(),
            owner: "alice".to_string(),
            now: T1.to_string(),
        }]
    );
    assert_eq!(last, Next::Done { answer: Ok(None) });
}

#[test]
fn restore_plan_writes_then_reads() {
    let first = begin_restore("alice", "c-1", T1.to_string());
    let (seen, last) = statements_of(first, vec![Reply::Affected(0), Reply::Row(None)]);
    assert_eq!(
        seen,
        vec![
            Statement::ClearDeleted {
                id: "c-1".to_string(),
                owner: "alice".to_string(),
                now: T1.to_string(),
            },
            select(),
        ]
    );
    assert_eq!(last, not_found());
}

#[test]
fn hard_delete_plan_is_one_write() {
    let (seen, last) = statements_of(begin_hard_delete("alice", "c-1"), vec![Reply::Affected(1)]);
    assert_eq!(
        seen,
        vec![Statement::Delete { id: "c-1".to_string(), owner: "alice".to_string() }]
    );
    assert_eq!(last, Next::Done { answer: Ok(None) });
}

#[test]
fn a_reply_of_the_wrong_kind_ends_the_plan() {
    assert_eq!(proceed(Stage::AnswerRow, Reply::Affected(1)), store_failed());
    assert_eq!(proceed(Stage::AnswerNothing, Reply::Row(None)), store_failed());
    assert_eq!(proceed(Stage::AnswerNothing, Reply::Refused), store_failed());
    assert_eq!(
        proceed(
            Stage::ThenRead { id: "c-1".to_string(), owner: "alice".to_string() },
            Reply::Refused
        ),
        store_failed()
    );
}

#[test]
fn table_runs_statements() {
    let mut table = CipherTable::new();
    assert_eq!(table.run(Statement::Insert { row: stored_row() }), Reply::Affected(1));
    assert_eq!(table.run(Statement::Insert { row: stored_row() }), Reply::Refused);
    assert_eq!(table.run(select()), Reply::Row(Some(stored_row())));
    assert_eq!(
        table.run(Statement::Select { id: "c-1".to_string(), owner: "bob".to_string() }),
        Reply::Row(None)
    );
    assert_eq!(
        table.run(Statement::Delete { id: "c-1".to_string(), owner: "bob".to_string() }),
        Reply::Affected(0)
    );
    assert_eq!(
        table.run(Statement::Delete { id: "c-1".to_string(), owner: "alice".to_string() }),
        Reply::Affected(1)
    );
    assert_eq!(table.run(select()), Reply::Row(None));
}

#[test]
fn perform_runs_a_plan_against_the_table() {
    let mut table = CipherTable::new();
    let created = create_cipher_as(&mut table, "alice", request(), None, "c-1".to_string(), T0.to_string())
        .unwrap();
    let read = perform(&mut table, begin_get("alice", "c-1"));
    assert_eq!(read, Ok(Some(created)));
    assert_eq!(perform(&mut table, begin_soft_delete("alice", "c-1", T1.to_string())), Ok(None));
    assert_eq!(get_cipher(&table, "alice", "c-1").unwrap().deleted_at, Some(T1.to_string()));
}
