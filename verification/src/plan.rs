//! Each operation on a cipher as a plan: which statement to run first, and,
//! given what the store handed back, which to run next or what to answer.
//!
//! A plan never touches a store itself. Whoever holds one runs the
//! statements it asks for, against the table in memory or against a
//! database, and hands the replies back. [`run`] says what a plan comes to
//! when the statements are run against the table, and the lemmas at the end
//! show that this is the operation's outcome as `ciphers` states it.

use vstd::prelude::*;
use crate::cipher::{
    row_of_cipher, Cipher, CipherRequestData, CipherRequestDataView, CipherRowView, CipherView,
    PartialCipherUpdate, PartialCipherUpdateView,
};
use crate::ciphers::{
    build_cipher, cipher_not_found, cipher_or_not_found, create_outcome, created, found,
    get_outcome, partial_update_outcome, replace_cipher, replaced, restore_outcome,
    update_outcome,
};
use crate::error::{AppError, AppErrorView};
use crate::statement::{effect, Reply, ReplyView, Statement, StatementView};
use crate::table::{with_tombstone, without_row, CipherTable};
use crate::text::{copy_opt_text, opt_texts};

verus! {

/// What remains to be done once the statement that is out has been
/// answered.
#[derive(Debug, Clone, PartialEq, Eq)]
pub enum Stage {
    /// A write is out: answer with this cipher.
    Answer { cipher: Cipher },
    /// A write is out: answer with nothing.
    AnswerNothing,
    /// A read is out: answer with the row's cipher, or `NotFound`.
    AnswerRow,
    /// A write is out: read the row back and answer with it.
    ThenRead { id: String, owner: String },
    /// The read before a full update is out.
    Replace { id: String, owner: String, request: CipherRequestData, now: String },
    /// The read before a partial update is out.
    Patch { id: String, owner: String, patch: PartialCipherUpdate, now: String },
    /// The folder of a partial update is being written; the favorite mark,
    /// if one was supplied, comes next.
    PatchFavorite { id: String, owner: String, favorite: Option<bool>, now: String },
}

/// The mathematical value of a [`Stage`].
pub enum StageView {
    Answer { cipher: CipherView },
    AnswerNothing,
    AnswerRow,
    ThenRead { id: Seq<char>, owner: Seq<char> },
    Replace { id: Seq<char>, owner: Seq<char>, request: CipherRequestDataView, now: Seq<char> },
    Patch { id: Seq<char>, owner: Seq<char>, patch: PartialCipherUpdateView, now: Seq<char> },
    PatchFavorite { id: Seq<char>, owner: Seq<char>, favorite: Option<bool>, now: Seq<char> },
}

impl View for Stage {
    type V = StageView;

    open spec fn view(&self) -> StageView {
        match self {
            Stage::Answer { cipher } => StageView::Answer { cipher: cipher@ },
            Stage::AnswerNothing => StageView::AnswerNothing,
            Stage::AnswerRow => StageView::AnswerRow,
            Stage::ThenRead { id, owner } => StageView::ThenRead { id: id@, owner: owner@ },
            Stage::Replace { id, owner, request, now } => StageView::Replace {
                id: id@,
                owner: owner@,
                request: request@,
                now: now@,
            },
            Stage::Patch { id, owner, patch, now } => StageView::Patch {
                id: id@,
                owner: owner@,
                patch: patch@,
                now: now@,
            },
            Stage::PatchFavorite { id, owner, favorite, now } => StageView::PatchFavorite {
                id: id@,
                owner: owner@,
                favorite: *favorite,
                now: now@,
            },
        }
    }
}

/// The value of what an operation answers: a cipher, nothing, or a failure.
pub open spec fn answer_of(answer: Result<Option<Cipher>, AppError>) -> Result<
    Option<CipherView>,
    AppErrorView,
> {
    match answer {
        Ok(Some(cipher)) => Ok(Some(cipher@)),
        Ok(None) => Ok(None),
        Err(e) => Err(e@),
    }
}

/// An answer that carries a cipher on success, among the answers of all
/// operations.
pub open spec fn with_cipher(answer: Result<CipherView, AppErrorView>) -> Result<
    Option<CipherView>,
    AppErrorView,
> {
    match answer {
        Ok(cipher) => Ok(Some(cipher)),
        Err(e) => Err(e),
    }
}

/// The next move of an operation.
#[derive(Debug, PartialEq, Eq)]
pub enum Next {
    /// Run `statement` and come back with the reply.
    Run { statement: Statement, then: Stage },
    /// The operation is over.
    Done { answer: Result<Option<Cipher>, AppError> },
}

/// The mathematical value of a [`Next`].
pub enum NextView {
    Run { statement: StatementView, then: StageView },
    Done { answer: Result<Option<CipherView>, AppErrorView> },
}

impl View for Next {
    type V = NextView;

    open spec fn view(&self) -> NextView {
        match self {
            Next::Run { statement, then } => NextView::Run { statement: statement@, then: then@ },
            Next::Done { answer } => NextView::Done { answer: answer_of(*answer) },
        }
    }
}

/// The move that ends an operation because the store refused a statement or
/// answered another than the one that was out.
pub open spec fn store_failed() -> NextView {
    NextView::Done { answer: Err(AppErrorView::Database) }
}

/// The read of the row, answered with what it finds.
pub open spec fn read_back(id: Seq<char>, owner: Seq<char>) -> NextView {
    NextView::Run { statement: StatementView::Select { id, owner }, then: StageView::AnswerRow }
}

/// The write of the favorite mark where one was supplied, then the read.
pub open spec fn favorite_then_read(
    id: Seq<char>,
    owner: Seq<char>,
    favorite: Option<bool>,
    now: Seq<char>,
) -> NextView {
    match favorite {
        Some(mark) => NextView::Run {
            statement: StatementView::SetFavorite { id, owner, favorite: mark, now },
            then: StageView::ThenRead { id, owner },
        },
        None => read_back(id, owner),
    }
}

/// The writes of a partial update, the folder first, then the read.
pub open spec fn patch_then_read(
    id: Seq<char>,
    owner: Seq<char>,
    patch: PartialCipherUpdateView,
    now: Seq<char>,
) -> NextView {
    match patch.folder_id {
        Some(folder) => NextView::Run {
            statement: StatementView::SetFolder { id, owner, folder, now },
            then: StageView::PatchFavorite { id, owner, favorite: patch.favorite, now },
        },
        None => favorite_then_read(id, owner, patch.favorite, now),
    }
}

/// The write of a full update and its answer.
pub open spec fn write_replacement(
    id: Seq<char>,
    owner: Seq<char>,
    cipher: CipherView,
) -> NextView {
    NextView::Run {
        statement: StatementView::ReplaceContents {
            id,
            owner,
            organization_id: cipher.organization_id,
            cipher_type: cipher.cipher_type,
            data: cipher.data,
            favorite: cipher.favorite,
            folder_id: cipher.folder_id,
            now: cipher.updated_at,
        },
        then: StageView::Answer { cipher },
    }
}

/// The move that follows when `reply` comes back at `stage`.
pub open spec fn after(stage: StageView, reply: ReplyView) -> NextView {
    match stage {
        StageView::Answer { cipher } => match reply {
            ReplyView::Affected(_) => NextView::Done { answer: Ok(Some(cipher)) },
            _ => store_failed(),
        },
        StageView::AnswerNothing => match reply {
            ReplyView::Affected(_) => NextView::Done { answer: Ok(None) },
            _ => store_failed(),
        },
        StageView::AnswerRow => match reply {
            ReplyView::Row(row) => NextView::Done { answer: with_cipher(found(row)) },
            _ => store_failed(),
        },
        StageView::ThenRead { id, owner } => match reply {
            ReplyView::Affected(_) => read_back(id, owner),
            _ => store_failed(),
        },
        StageView::Replace { id, owner, request, now } => match reply {
            ReplyView::Row(row) => match replaced(row, request, now) {
                Ok(cipher) => write_replacement(id, owner, cipher),
                Err(e) => NextView::Done { answer: Err(e) },
            },
            _ => store_failed(),
        },
        StageView::Patch { id, owner, patch, now } => match reply {
            ReplyView::Row(Some(_)) => patch_then_read(id, owner, patch, now),
            ReplyView::Row(None) => NextView::Done { answer: Err(cipher_not_found()) },
            _ => store_failed(),
        },
        StageView::PatchFavorite { id, owner, favorite, now } => match reply {
            ReplyView::Affected(_) => favorite_then_read(id, owner, favorite, now),
            _ => store_failed(),
        },
    }
}

/// How a creation starts: with the write of the new row, unless the payload
/// could not be encoded.
pub open spec fn plan_create(
    owner: Seq<char>,
    request: CipherRequestDataView,
    collection_ids: Option<Seq<Seq<char>>>,
    id: Seq<char>,
    now: Seq<char>,
) -> NextView {
    match created(owner, request, collection_ids, id, now) {
        Ok(cipher) => NextView::Run {
            statement: StatementView::Insert { row: row_of_cipher(cipher, owner) },
            then: StageView::Answer { cipher },
        },
        Err(e) => NextView::Done { answer: Err(e) },
    }
}

/// How a read starts.
pub open spec fn plan_get(owner: Seq<char>, id: Seq<char>) -> NextView {
    read_back(id, owner)
}

/// How a full update starts: with the read that confirms the row.
pub open spec fn plan_update(
    owner: Seq<char>,
    id: Seq<char>,
    request: CipherRequestDataView,
    now: Seq<char>,
) -> NextView {
    NextView::Run {
        statement: StatementView::Select { id, owner },
        then: StageView::Replace { id, owner, request, now },
    }
}

/// How a partial update starts: with the read that confirms the row.
pub open spec fn plan_partial_update(
    owner: Seq<char>,
    id: Seq<char>,
    patch: PartialCipherUpdateView,
    now: Seq<char>,
) -> NextView {
    NextView::Run {
        statement: StatementView::Select { id, owner },
        then: StageView::Patch { id, owner, patch, now },
    }
}

/// How tombstoning starts: with the write, unconditionally.
pub open spec fn plan_soft_delete(owner: Seq<char>, id: Seq<char>, now: Seq<char>) -> NextView {
    NextView::Run {
        statement: StatementView::MarkDeleted { id, owner, now },
        then: StageView::AnswerNothing,
    }
}

/// How restoring starts: with the write, unconditionally.
pub open spec fn plan_restore(owner: Seq<char>, id: Seq<char>, now: Seq<char>) -> NextView {
    NextView::Run {
        statement: StatementView::ClearDeleted { id, owner, now },
        then: StageView::ThenRead { id, owner },
    }
}

/// How removal starts: with the write, unconditionally.
pub open spec fn plan_hard_delete(owner: Seq<char>, id: Seq<char>) -> NextView {
    NextView::Run { statement: StatementView::Delete { id, owner }, then: StageView::AnswerNothing }
}

/// The greatest number of statements that can still follow the one that is
/// out at `stage`.
pub open spec fn rank(stage: StageView) -> nat {
    match stage {
        StageView::Answer { .. } => 0,
        StageView::AnswerNothing => 0,
        StageView::AnswerRow => 0,
        StageView::ThenRead { .. } => 1,
        StageView::Replace { .. } => 1,
        StageView::PatchFavorite { .. } => 2,
        StageView::Patch { .. } => 3,
    }
}

/// The greatest number of statements that a move can still lead to.
pub open spec fn steps(next: NextView) -> nat {
    match next {
        NextView::Run { then, .. } => rank(then) + 1,
        NextView::Done { .. } => 0,
    }
}

/// Each reply brings an operation closer to its end.
pub proof fn lemma_after_descends(stage: StageView, reply: ReplyView)
    ensures
        steps(after(stage, reply)) <= rank(stage),
{
}

/// What a move comes to when its statements are run against the table `t`:
/// the table afterwards, and the answer.
pub open spec fn run(t: Map<Seq<char>, CipherRowView>, next: NextView) -> (
    Map<Seq<char>, CipherRowView>,
    Result<Option<CipherView>, AppErrorView>,
)
    decreases steps(next),
{
    match next {
        NextView::Done { answer } => (t, answer),
        NextView::Run { statement, then } => {
            let (t1, reply) = effect(t, statement);
            let following = after(then, reply);
            if steps(following) < steps(next) {
                run(t1, following)
            } else {
                (t1, Err(AppErrorView::Database))
            }
        },
    }
}

fn read_back_of(id: String, owner: String) -> (next: Next)
    ensures
        next@ == read_back(id@, owner@),
{
    Next::Run { statement: Statement::Select { id, owner }, then: Stage::AnswerRow }
}

fn favorite_then_read_of(id: String, owner: String, favorite: Option<bool>, now: String) -> (next:
    Next)
    ensures
        next@ == favorite_then_read(id@, owner@, favorite, now@),
{
    match favorite {
        Some(mark) => Next::Run {
            statement: Statement::SetFavorite {
                id: id.clone(),
                owner: owner.clone(),
                favorite: mark,
                now,
            },
            then: Stage::ThenRead { id, owner },
        },
        None => read_back_of(id, owner),
    }
}

fn store_failed_of() -> (next: Next)
    ensures
        next@ == store_failed(),
{
    Next::Done { answer: Err(AppError::Database) }
}

fn with_cipher_of(answer: Result<Cipher, AppError>) -> (r: Result<Option<Cipher>, AppError>)
    ensures
        answer_of(r) == with_cipher(crate::ciphers::answer(answer)),
{
    match answer {
        Ok(cipher) => Ok(Some(cipher)),
        Err(e) => Err(e),
    }
}

/// The move that follows when `reply` comes back at `stage`.
pub fn proceed(stage: Stage, reply: Reply) -> (next: Next)
    ensures
        next@ == after(stage@, reply@),
{
    match stage {
        Stage::Answer { cipher } => match reply {
            Reply::Affected(_) => Next::Done { answer: Ok(Some(cipher)) },
            _ => store_failed_of(),
        },
        Stage::AnswerNothing => match reply {
            Reply::Affected(_) => Next::Done { answer: Ok(None) },
            _ => store_failed_of(),
        },
        Stage::AnswerRow => match reply {
            Reply::Row(row) => Next::Done { answer: with_cipher_of(cipher_or_not_found(row)) },
            _ => store_failed_of(),
        },
        Stage::ThenRead { id, owner } => match reply {
            Reply::Affected(_) => read_back_of(id, owner),
            _ => store_failed_of(),
        },
        Stage::Replace { id, owner, request, now } => match reply {
            Reply::Row(row) => match replace_cipher(row, request, now) {
                Ok(cipher) => Next::Run {
                    statement: Statement::ReplaceContents {
                        id,
                        owner,
                        organization_id: copy_opt_text(&cipher.organization_id),
                        cipher_type: cipher.cipher_type,
                        data: cipher.data.clone(),
                        favorite: cipher.favorite,
                        folder_id: copy_opt_text(&cipher.folder_id),
                        now: cipher.updated_at.clone(),
                    },
                    then: Stage::Answer { cipher },
                },
                Err(e) => Next::Done { answer: Err(e) },
            },
            _ => store_failed_of(),
        },
        Stage::Patch { id, owner, patch, now } => match reply {
            Reply::Row(Some(_)) => match patch.folder_id {
                Some(folder) => Next::Run {
                    statement: Statement::SetFolder {
                        id: id.clone(),
                        owner: owner.clone(),
                        folder,
                        now: now.clone(),
                    },
                    then: Stage::PatchFavorite { id, owner, favorite: patch.favorite, now },
                },
                None => favorite_then_read_of(id, owner, patch.favorite, now),
            },
            Reply::Row(None) => Next::Done { answer: Err(AppError::not_found("Cipher not found")) },
            _ => store_failed_of(),
        },
        Stage::PatchFavorite { id, owner, favorite, now } => match reply {
            Reply::Affected(_) => favorite_then_read_of(id, owner, favorite, now),
            _ => store_failed_of(),
        },
    }
}

/// Starts a creation under a given `id` at a given `now`.
pub fn begin_create(
    owner: &str,
    request: CipherRequestData,
    collection_ids: Option<Vec<String>>,
    id: String,
    now: String,
) -> (next: Next)
    ensures
        next@ == plan_create(owner@, request@, opt_texts(collection_ids), id@, now@),
{
    match build_cipher(owner, request, collection_ids, id, now) {
        Ok(cipher) => Next::Run {
            statement: Statement::Insert { row: cipher.to_row(owner) },
            then: Stage::Answer { cipher },
        },
        Err(e) => Next::Done { answer: Err(e) },
    }
}

/// Starts a read.
pub fn begin_get(owner: &str, id: &str) -> (next: Next)
    ensures
        next@ == plan_get(owner@, id@),
{
    read_back_of(String::from_str(id), String::from_str(owner))
}

/// Starts a full update at a given `now`.
pub fn begin_update(owner: &str, id: &str, request: CipherRequestData, now: String) -> (next: Next)
    ensures
        next@ == plan_update(owner@, id@, request@, now@),
{
    Next::Run {
        statement: Statement::Select { id: String::from_str(id), owner: String::from_str(owner) },
        then: Stage::Replace {
            id: String::from_str(id),
            owner: String::from_str(owner),
            request,
            now,
        },
    }
}

/// Starts a partial update at a given `now`.
pub fn begin_partial_update(owner: &str, id: &str, patch: PartialCipherUpdate, now: String) -> (next:
    Next)
    ensures
        next@ == plan_partial_update(owner@, id@, patch@, now@),
{
    Next::Run {
        statement: Statement::Select { id: String::from_str(id), owner: String::from_str(owner) },
        then: Stage::Patch { id: String::from_str(id), owner: String::from_str(owner), patch, now },
    }
}

/// Starts tombstoning at a given `now`.
pub fn begin_soft_delete(owner: &str, id: &str, now: String) -> (next: Next)
    ensures
        next@ == plan_soft_delete(owner@, id@, now@),
{
    Next::Run {
        statement: Statement::MarkDeleted {
            id: String::from_str(id),
            owner: String::from_str(owner),
            now,
        },
        then: Stage::AnswerNothing,
    }
}

/// Starts restoring at a given `now`.
pub fn begin_restore(owner: &str, id: &str, now: String) -> (next: Next)
    ensures
        next@ == plan_restore(owner@, id@, now@),
{
    Next::Run {
        statement: Statement::ClearDeleted {
            id: String::from_str(id),
            owner: String::from_str(owner),
            now,
        },
        then: Stage::ThenRead { id: String::from_str(id), owner: String::from_str(owner) },
    }
}

/// Starts removal.
pub fn begin_hard_delete(owner: &str, id: &str) -> (next: Next)
    ensures
        next@ == plan_hard_delete(owner@, id@),
{
    Next::Run {
        statement: Statement::Delete { id: String::from_str(id), owner: String::from_str(owner) },
        then: Stage::AnswerNothing,
    }
}

/// Carries an operation out against the table: runs each statement the plan
/// asks for and hands the reply back, until the plan is over.
pub fn perform(table: &mut CipherTable, first: Next) -> (answer: Result<Option<Cipher>, AppError>)
    ensures
        (final(table)@, answer_of(answer)) == run(old(table)@, first@),
{
    let ghost goal = run(table@, first@);
    let mut next = first;
    loop
        invariant
            goal == run(old(table)@, first@),
            run(table@, next@) == goal,
        decreases steps(next@),
    {
        match next {
            Next::Done { answer } => {
                return answer;
            },
            Next::Run { statement, then } => {
                proof {
                    lemma_after_descends(then@, effect(table@, statement@).1);
                }
                let reply = table.run(statement);
                next = proceed(then, reply);
            },
        }
    }
}

/// A creation's plan comes to the creation's outcome.
pub proof fn lemma_create_plan(
    t: Map<Seq<char>, CipherRowView>,
    owner: Seq<char>,
    request: CipherRequestDataView,
    collection_ids: Option<Seq<Seq<char>>>,
    id: Seq<char>,
    now: Seq<char>,
)
    ensures
        run(t, plan_create(owner, request, collection_ids, id, now)) == (
            create_outcome(t, owner, request, collection_ids, id, now).0,
            with_cipher(create_outcome(t, owner, request, collection_ids, id, now).1),
        ),
{
    reveal_with_fuel(run, 3);
}

/// A read's plan comes to the read's outcome and leaves the table alone.
pub proof fn lemma_get_plan(t: Map<Seq<char>, CipherRowView>, owner: Seq<char>, id: Seq<char>)
    ensures
        run(t, plan_get(owner, id)) == (t, with_cipher(get_outcome(t, owner, id))),
{
    reveal_with_fuel(run, 3);
}

/// A full update's plan comes to the update's outcome.
pub proof fn lemma_update_plan(
    t: Map<Seq<char>, CipherRowView>,
    owner: Seq<char>,
    id: Seq<char>,
    request: CipherRequestDataView,
    now: Seq<char>,
)
    ensures
        run(t, plan_update(owner, id, request, now)) == (
            update_outcome(t, owner, id, request, now).0,
            with_cipher(update_outcome(t, owner, id, request, now).1),
        ),
{
    reveal_with_fuel(run, 4);
}

/// A partial update's plan comes to the partial update's outcome.
pub proof fn lemma_partial_update_plan(
    t: Map<Seq<char>, CipherRowView>,
    owner: Seq<char>,
    id: Seq<char>,
    patch: PartialCipherUpdateView,
    now: Seq<char>,
)
    ensures
        run(t, plan_partial_update(owner, id, patch, now)) == (
            partial_update_outcome(t, owner, id, patch, now).0,
            with_cipher(partial_update_outcome(t, owner, id, patch, now).1),
        ),
{
    reveal_with_fuel(run, 6);
}

/// The plan of tombstoning comes to the tombstoned table and to success.
pub proof fn lemma_soft_delete_plan(
    t: Map<Seq<char>, CipherRowView>,
    owner: Seq<char>,
    id: Seq<char>,
    now: Seq<char>,
)
    ensures
        run(t, plan_soft_delete(owner, id, now)) == (
            with_tombstone(t, id, owner, now),
            Ok::<Option<CipherView>, AppErrorView>(None),
        ),
{
    reveal_with_fuel(run, 3);
}

/// The plan of restoring comes to the outcome of restoring.
pub proof fn lemma_restore_plan(
    t: Map<Seq<char>, CipherRowView>,
    owner: Seq<char>,
    id: Seq<char>,
    now: Seq<char>,
)
    ensures
        run(t, plan_restore(owner, id, now)) == (
            restore_outcome(t, owner, id, now).0,
            with_cipher(restore_outcome(t, owner, id, now).1),
        ),
{
    reveal_with_fuel(run, 4);
}

/// The plan of removal comes to the table without the row and to success.
pub proof fn lemma_hard_delete_plan(
    t: Map<Seq<char>, CipherRowView>,
    owner: Seq<char>,
    id: Seq<char>,
)
    ensures
        run(t, plan_hard_delete(owner, id)) == (
            without_row(t, id, owner),
            Ok::<Option<CipherView>, AppErrorView>(None),
        ),
{
    reveal_with_fuel(run, 3);
}

} // verus!
