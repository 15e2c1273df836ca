//! The life of a cipher: creation, reading, full and partial update,
//! tombstoning, restoring and removal, each on behalf of an owner.
//!
//! Every operation is given twice. The spec function `*_outcome` says, on the
//! table as a map, what the operation leaves behind and what it answers;
//! the executable function carries the operation's plan out against the
//! table and is proved to arrive at exactly that. Where an operation reads
//! the clock or draws an identifier, a second executable function takes
//! those as arguments, so that its result is fixed by its inputs.

use vstd::prelude::*;
use crate::cipher::{
    cipher_of_row, opt_row, row_of_cipher, Cipher, CipherRequestData, CipherRequestDataView,
    CipherRow, CipherRowView, CipherView, CreateCipherRequest, PartialCipherUpdate,
    PartialCipherUpdateView,
};
use crate::clock::row_timestamp;
use crate::error::{AppError, AppErrorView};
use crate::ident::fresh_id;
use crate::plan::{
    answer_of, begin_create, begin_hard_delete, begin_partial_update, begin_restore,
    begin_soft_delete, begin_update, lemma_create_plan, lemma_hard_delete_plan,
    lemma_partial_update_plan, lemma_restore_plan, lemma_soft_delete_plan, lemma_update_plan,
    perform, plan_create, plan_partial_update, plan_restore, plan_soft_delete, plan_update,
    with_cipher, Next,
};
use crate::table::{
    owned_by, selected, with_contents, with_favorite, with_folder, with_tombstone, without_row,
    without_tombstone, CipherTable,
};
use crate::text::{copy_opt_texts, copy_texts, opt_texts};

verus! {

/// The value of an operation's answer.
pub open spec fn answer(r: Result<Cipher, AppError>) -> Result<CipherView, AppErrorView> {
    match r {
        Ok(cipher) => Ok(cipher@),
        Err(e) => Err(e@),
    }
}

/// The failure that stands for a cipher that is absent or another's.
pub open spec fn cipher_not_found() -> AppErrorView {
    AppErrorView::NotFound("Cipher not found"@)
}

/// The collections named beside an enveloped request: none when the list is
/// empty.
pub open spec fn envelope_collections(ids: Seq<Seq<char>>) -> Option<Seq<Seq<char>>> {
    if ids.len() == 0 {
        None
    } else {
        Some(ids)
    }
}

/// The cipher that a request with an encoded payload creates for `owner`
/// under `id` at `now`.
pub open spec fn new_cipher(
    owner: Seq<char>,
    request: CipherRequestDataView,
    collection_ids: Option<Seq<Seq<char>>>,
    id: Seq<char>,
    now: Seq<char>,
) -> CipherView
    recommends
        request.data is Some,
{
    CipherView {
        id,
        user_id: Some(owner),
        organization_id: request.organization_id,
        cipher_type: request.cipher_type,
        data: request.data->0,
        favorite: request.favorite,
        folder_id: request.folder_id,
        deleted_at: None,
        created_at: now,
        updated_at: now,
        object: "cipher"@,
        organization_use_totp: false,
        edit: true,
        view_password: true,
        collection_ids,
        attachments: None,
        key: None,
    }
}

/// The cipher answered when `existing` is given the contents of `request`
/// at `now`. It keeps the row's `id`, owner and `created_at`. It is shown
/// as active whether or not the row carries a tombstone, which the update
/// leaves in place.
pub open spec fn replacement(
    existing: CipherRowView,
    request: CipherRequestDataView,
    now: Seq<char>,
) -> CipherView
    recommends
        request.data is Some,
{
    CipherView {
        id: existing.id,
        user_id: Some(existing.user_id),
        organization_id: request.organization_id,
        cipher_type: request.cipher_type,
        data: request.data->0,
        favorite: request.favorite,
        folder_id: request.folder_id,
        deleted_at: None,
        created_at: existing.created_at,
        updated_at: now,
        object: "cipher"@,
        organization_use_totp: false,
        edit: true,
        view_password: true,
        collection_ids: None,
        attachments: None,
        key: None,
    }
}

/// What a creation answers, before anything is written: the new cipher, or
/// `Internal` where the payload could not be encoded.
pub open spec fn created(
    owner: Seq<char>,
    request: CipherRequestDataView,
    collection_ids: Option<Seq<Seq<char>>>,
    id: Seq<char>,
    now: Seq<char>,
) -> Result<CipherView, AppErrorView> {
    if request.data is None {
        Err(AppErrorView::Internal)
    } else {
        Ok(new_cipher(owner, request, collection_ids, id, now))
    }
}

/// What a read of one row answers: the row's cipher, or `NotFound`.
pub open spec fn found(row: Option<CipherRowView>) -> Result<CipherView, AppErrorView> {
    match row {
        Some(r) => Ok(cipher_of_row(r)),
        None => Err(cipher_not_found()),
    }
}

/// What a full update answers once the row was looked for: `NotFound` where
/// there is none, `Internal` where the payload could not be encoded, else
/// the replacement.
pub open spec fn replaced(
    existing: Option<CipherRowView>,
    request: CipherRequestDataView,
    now: Seq<char>,
) -> Result<CipherView, AppErrorView> {
    match existing {
        None => Err(cipher_not_found()),
        Some(row) => if request.data is None {
            Err(AppErrorView::Internal)
        } else {
            Ok(replacement(row, request, now))
        },
    }
}

/// Creation: the table afterwards, and the answer.
///
/// The new row is written under `id`, owned by `owner`, with both
/// timestamps at `now`. A payload that could not be encoded ends in
/// `Internal`, an `id` that is taken in `Database`, and neither writes.
pub open spec fn create_outcome(
    t: Map<Seq<char>, CipherRowView>,
    owner: Seq<char>,
    request: CipherRequestDataView,
    collection_ids: Option<Seq<Seq<char>>>,
    id: Seq<char>,
    now: Seq<char>,
) -> (Map<Seq<char>, CipherRowView>, Result<CipherView, AppErrorView>) {
    if request.data is None {
        (t, Err(AppErrorView::Internal))
    } else if t.contains_key(id) {
        (t, Err(AppErrorView::Database))
    } else {
        let cipher = new_cipher(owner, request, collection_ids, id, now);
        (t.insert(id, row_of_cipher(cipher, owner)), Ok(cipher))
    }
}

/// Reading: the answer. The table is left as it is.
pub open spec fn get_outcome(
    t: Map<Seq<char>, CipherRowView>,
    owner: Seq<char>,
    id: Seq<char>,
) -> Result<CipherView, AppErrorView> {
    found(selected(t, id, owner))
}

/// Full update: the table afterwards, and the answer.
pub open spec fn update_outcome(
    t: Map<Seq<char>, CipherRowView>,
    owner: Seq<char>,
    id: Seq<char>,
    request: CipherRequestDataView,
    now: Seq<char>,
) -> (Map<Seq<char>, CipherRowView>, Result<CipherView, AppErrorView>) {
    let answer = replaced(selected(t, id, owner), request, now);
    if answer is Ok {
        (
            with_contents(
                t,
                id,
                owner,
                request.organization_id,
                request.cipher_type,
                request.data->0,
                request.favorite,
                request.folder_id,
                now,
            ),
            answer,
        )
    } else {
        (t, answer)
    }
}

/// The table after the supplied fields of a partial update were committed,
/// the folder first.
pub open spec fn patched(
    t: Map<Seq<char>, CipherRowView>,
    owner: Seq<char>,
    id: Seq<char>,
    patch: PartialCipherUpdateView,
    now: Seq<char>,
) -> Map<Seq<char>, CipherRowView> {
    let moved = match patch.folder_id {
        Some(folder_id) => with_folder(t, id, owner, folder_id, now),
        None => t,
    };
    match patch.favorite {
        Some(favorite) => with_favorite(moved, id, owner, favorite, now),
        None => moved,
    }
}

/// Partial update: the table afterwards, and the answer.
pub open spec fn partial_update_outcome(
    t: Map<Seq<char>, CipherRowView>,
    owner: Seq<char>,
    id: Seq<char>,
    patch: PartialCipherUpdateView,
    now: Seq<char>,
) -> (Map<Seq<char>, CipherRowView>, Result<CipherView, AppErrorView>) {
    if owned_by(t, id, owner) {
        let after = patched(t, owner, id, patch, now);
        (after, get_outcome(after, owner, id))
    } else {
        (t, Err(cipher_not_found()))
    }
}

/// Restoring: the table afterwards, and the answer.
pub open spec fn restore_outcome(
    t: Map<Seq<char>, CipherRowView>,
    owner: Seq<char>,
    id: Seq<char>,
    now: Seq<char>,
) -> (Map<Seq<char>, CipherRowView>, Result<CipherView, AppErrorView>) {
    let after = without_tombstone(t, id, owner, now);
    (after, get_outcome(after, owner, id))
}

/// Builds the cipher that a creation request asks for.
pub fn build_cipher(
    owner: &str,
    request: CipherRequestData,
    collection_ids: Option<Vec<String>>,
    id: String,
    now: String,
) -> (r: Result<Cipher, AppError>)
    ensures
        answer(r) == created(owner@, request@, opt_texts(collection_ids), id@, now@),
{
    match request.data {
        None => Err(AppError::Internal),
        Some(data) => Ok(
            Cipher {
                id,
                user_id: Some(String::from_str(owner)),
                organization_id: request.organization_id,
                cipher_type: request.cipher_type,
                data,
                favorite: request.favorite,
                folder_id: request.folder_id,
                deleted_at: None,
                created_at: now.clone(),
                updated_at: now,
                object: String::from_str("cipher"),
                organization_use_totp: false,
                edit: true,
                view_password: true,
                collection_ids,
                attachments: None,
                key: None,
            },
        ),
    }
}

/// Turns the outcome of a filtered read into the answer of the operation.
pub fn cipher_or_not_found(row: Option<CipherRow>) -> (r: Result<Cipher, AppError>)
    ensures
        answer(r) == found(opt_row(row)),
{
    match row {
        Some(row) => Ok(Cipher::from_row(row)),
        None => Err(AppError::not_found("Cipher not found")),
    }
}

/// Decides a full update once the row was looked for.
pub fn replace_cipher(existing: Option<CipherRow>, request: CipherRequestData, now: String) -> (r:
    Result<Cipher, AppError>)
    ensures
        answer(r) == replaced(opt_row(existing), request@, now@),
{
    match existing {
        None => Err(AppError::not_found("Cipher not found")),
        Some(row) => match request.data {
            None => Err(AppError::Internal),
            Some(data) => Ok(
                Cipher {
                    id: row.id,
                    user_id: Some(row.user_id),
                    organization_id: request.organization_id,
                    cipher_type: request.cipher_type,
                    data,
                    favorite: request.favorite,
                    folder_id: request.folder_id,
                    deleted_at: None,
                    created_at: row.created_at,
                    updated_at: now,
                    object: String::from_str("cipher"),
                    organization_use_totp: false,
                    edit: true,
                    view_password: true,
                    collection_ids: None,
                    attachments: None,
                    key: None,
                },
            ),
        },
    }
}

/// The cipher of an answer that carries one on success.
fn cipher_answer(a: Result<Option<Cipher>, AppError>) -> (r: Result<Cipher, AppError>)
    requires
        !(a matches Ok(None)),
    ensures
        with_cipher(answer(r)) == answer_of(a),
{
    match a {
        Ok(Some(cipher)) => Ok(cipher),
        Ok(None) => Err(AppError::Internal),
        Err(e) => Err(e),
    }
}

/// The answer of an operation that carries nothing on success.
fn no_answer(a: Result<Option<Cipher>, AppError>) -> (r: Result<(), AppError>)
    ensures
        r is Ok <==> a is Ok,
        r matches Err(e) ==> a matches Err(f) && e@ == f@,
{
    match a {
        Ok(_) => Ok(()),
        Err(e) => Err(e),
    }
}

/// The plan of a creation from a flat request, with a fresh identifier and
/// the current time.
pub fn start_create_standard(owner: &str, request: CipherRequestData) -> (next: Next)
    ensures
        exists|id: Seq<char>, now: Seq<char>|
            id.len() == 36 && next@ == #[trigger] plan_create(owner@, request@, request@.collection_ids, id, now),
{
    let now = row_timestamp();
    let id = fresh_id();
    let collection_ids = copy_opt_texts(&request.collection_ids);
    let ghost id_text = id@;
    let ghost now_text = now@;
    let next = begin_create(owner, request, collection_ids, id, now);
    assert(next@ == plan_create(owner@, request@, request@.collection_ids, id_text, now_text));
    next
}

/// The plan of a creation from a request in its envelope, with a fresh
/// identifier and the current time. The collections come from the
/// envelope.
pub fn start_create(owner: &str, payload: CreateCipherRequest) -> (next: Next)
    ensures
        exists|id: Seq<char>, now: Seq<char>|
            id.len() == 36 && next@ == #[trigger] plan_create(
                owner@,
                payload@.cipher,
                envelope_collections(payload@.collection_ids),
                id,
                now,
            ),
{
    let now = row_timestamp();
    let id = fresh_id();
    let collection_ids = if payload.collection_ids.len() == 0 {
        None
    } else {
        Some(copy_texts(&payload.collection_ids))
    };
    let ghost id_text = id@;
    let ghost now_text = now@;
    let next = begin_create(owner, payload.cipher, collection_ids, id, now);
    assert(next@ == plan_create(
        owner@,
        payload@.cipher,
        envelope_collections(payload@.collection_ids),
        id_text,
        now_text,
    ));
    next
}

/// The plan of a full update at the current time.
pub fn start_update(owner: &str, id: &str, payload: CipherRequestData) -> (next: Next)
    ensures
        exists|now: Seq<char>| next@ == #[trigger] plan_update(owner@, id@, payload@, now),
{
    let now = row_timestamp();
    let ghost now_text = now@;
    let next = begin_update(owner, id, payload, now);
    assert(next@ == plan_update(owner@, id@, payload@, now_text));
    next
}

/// The plan of a partial update at the current time.
pub fn start_partial_update(owner: &str, id: &str, payload: PartialCipherUpdate) -> (next: Next)
    ensures
        exists|now: Seq<char>| next@ == #[trigger] plan_partial_update(owner@, id@, payload@, now),
{
    let now = row_timestamp();
    let ghost now_text = now@;
    let next = begin_partial_update(owner, id, payload, now);
    assert(next@ == plan_partial_update(owner@, id@, payload@, now_text));
    next
}

/// The plan of tombstoning at the current time.
pub fn start_soft_delete(owner: &str, id: &str) -> (next: Next)
    ensures
        exists|now: Seq<char>| next@ == #[trigger] plan_soft_delete(owner@, id@, now),
{
    let now = row_timestamp();
    let ghost now_text = now@;
    let next = begin_soft_delete(owner, id, now);
    assert(next@ == plan_soft_delete(owner@, id@, now_text));
    next
}

/// The plan of restoring at the current time.
pub fn start_restore(owner: &str, id: &str) -> (next: Next)
    ensures
        exists|now: Seq<char>| next@ == #[trigger] plan_restore(owner@, id@, now),
{
    let now = row_timestamp();
    let ghost now_text = now@;
    let next = begin_restore(owner, id, now);
    assert(next@ == plan_restore(owner@, id@, now_text));
    next
}

/// Creates a cipher under a given `id` at a given `now`.
pub fn create_cipher_as(
    table: &mut CipherTable,
    owner: &str,
    request: CipherRequestData,
    collection_ids: Option<Vec<String>>,
    id: String,
    now: String,
) -> (r: Result<Cipher, AppError>)
    ensures
        (final(table)@, answer(r)) == create_outcome(
            old(table)@,
            owner@,
            request@,
            opt_texts(collection_ids),
            id@,
            now@,
        ),
{
    proof {
        lemma_create_plan(table@, owner@, request@, opt_texts(collection_ids), id@, now@);
    }
    cipher_answer(perform(table, begin_create(owner, request, collection_ids, id, now)))
}

/// Creates a cipher from a flat request. The cipher gets a fresh
/// identifier, of 36 characters, and the current time as both timestamps.
pub fn create_cipher_standard(table: &mut CipherTable, owner: &str, request: CipherRequestData) -> (r:
    Result<Cipher, AppError>)
    ensures
        exists|id: Seq<char>, now: Seq<char>|
            id.len() == 36 && (final(table)@, answer(r)) == #[trigger] create_outcome(
                old(table)@,
                owner@,
                request@,
                request@.collection_ids,
                id,
                now,
            ),
{
    let ghost before = table@;
    let ghost asked = request@;
    let next = start_create_standard(owner, request);
    let ghost (id, now) = choose|id: Seq<char>, now: Seq<char>|
        id.len() == 36 && next@ == #[trigger] plan_create(owner@, asked, asked.collection_ids, id, now);
    proof {
        lemma_create_plan(before, owner@, asked, asked.collection_ids, id, now);
    }
    let r = cipher_answer(perform(table, next));
    assert((table@, answer(r)) == create_outcome(
        before,
        owner@,
        asked,
        asked.collection_ids,
        id,
        now,
    ));
    r
}

/// Creates a cipher from a request in its envelope. The stored row is the
/// one that the flat request would have stored; the collections come from
/// the envelope.
pub fn create_cipher(table: &mut CipherTable, owner: &str, payload: CreateCipherRequest) -> (r:
    Result<Cipher, AppError>)
    ensures
        exists|id: Seq<char>, now: Seq<char>|
            id.len() == 36 && (final(table)@, answer(r)) == #[trigger] create_outcome(
                old(table)@,
                owner@,
                payload@.cipher,
                envelope_collections(payload@.collection_ids),
                id,
                now,
            ),
{
    let ghost before = table@;
    let ghost asked = payload@;
    let next = start_create(owner, payload);
    let ghost (id, now) = choose|id: Seq<char>, now: Seq<char>|
        id.len() == 36 && next@ == #[trigger] plan_create(
            owner@,
            asked.cipher,
            envelope_collections(asked.collection_ids),
            id,
            now,
        );
    proof {
        lemma_create_plan(
            before,
            owner@,
            asked.cipher,
            envelope_collections(asked.collection_ids),
            id,
            now,
        );
    }
    let r = cipher_answer(perform(table, next));
    assert((table@, answer(r)) == create_outcome(
        before,
        owner@,
        asked.cipher,
        envelope_collections(asked.collection_ids),
        id,
        now,
    ));
    r
}

/// Reads `owner`'s cipher `id`.
pub fn get_cipher(table: &CipherTable, owner: &str, id: &str) -> (r: Result<Cipher, AppError>)
    ensures
        answer(r) == get_outcome(table@, owner@, id@),
{
    cipher_or_not_found(table.select(id, owner))
}

/// Replaces the contents of `owner`'s cipher `id` at a given `now`.
pub fn update_cipher_at(
    table: &mut CipherTable,
    owner: &str,
    id: &str,
    payload: CipherRequestData,
    now: String,
) -> (r: Result<Cipher, AppError>)
    ensures
        (final(table)@, answer(r)) == update_outcome(old(table)@, owner@, id@, payload@, now@),
{
    proof {
        lemma_update_plan(table@, owner@, id@, payload@, now@);
    }
    cipher_answer(perform(table, begin_update(owner, id, payload, now)))
}

/// Replaces the contents of `owner`'s cipher `id`, with the current time as
/// its `updated_at`.
pub fn update_cipher(table: &mut CipherTable, owner: &str, id: &str, payload: CipherRequestData) -> (r:
    Result<Cipher, AppError>)
    ensures
        exists|now: Seq<char>|
            (final(table)@, answer(r)) == #[trigger] update_outcome(
                old(table)@,
                owner@,
                id@,
                payload@,
                now,
            ),
{
    let ghost before = table@;
    let ghost asked = payload@;
    let next = start_update(owner, id, payload);
    let ghost now = choose|now: Seq<char>| next@ == #[trigger] plan_update(owner@, id@, asked, now);
    proof {
        lemma_update_plan(before, owner@, id@, asked, now);
    }
    let r = cipher_answer(perform(table, next));
    assert((table@, answer(r)) == update_outcome(before, owner@, id@, asked, now));
    r
}

/// Tombstones `owner`'s cipher `id` at a given `now`. Where there is no such
/// cipher nothing changes, and the answer is success all the same.
pub fn soft_delete_cipher_at(table: &mut CipherTable, owner: &str, id: &str, now: &str) -> (r:
    Result<(), AppError>)
    ensures
        r is Ok,
        final(table)@ == with_tombstone(old(table)@, id@, owner@, now@),
{
    proof {
        lemma_soft_delete_plan(table@, owner@, id@, now@);
    }
    no_answer(perform(table, begin_soft_delete(owner, id, String::from_str(now))))
}

/// Tombstones `owner`'s cipher `id` at the current time.
pub fn soft_delete_cipher(table: &mut CipherTable, owner: &str, id: &str) -> (r: Result<
    (),
    AppError,
>)
    ensures
        r is Ok,
        exists|now: Seq<char>|
            final(table)@ == #[trigger] with_tombstone(old(table)@, id@, owner@, now),
{
    let ghost before = table@;
    let next = start_soft_delete(owner, id);
    let ghost now = choose|now: Seq<char>| next@ == #[trigger] plan_soft_delete(owner@, id@, now);
    proof {
        lemma_soft_delete_plan(before, owner@, id@, now);
    }
    let r = no_answer(perform(table, next));
    assert(table@ == with_tombstone(before, id@, owner@, now));
    r
}

/// Removes `owner`'s cipher `id` for good. Where there is no such cipher
/// nothing changes, and the answer is success all the same.
pub fn hard_delete_cipher(table: &mut CipherTable, owner: &str, id: &str) -> (r: Result<
    (),
    AppError,
>)
    ensures
        r is Ok,
        final(table)@ == without_row(old(table)@, id@, owner@),
{
    proof {
        lemma_hard_delete_plan(table@, owner@, id@);
    }
    no_answer(perform(table, begin_hard_delete(owner, id)))
}

/// Lifts the tombstone of `owner`'s cipher `id` at a given `now` and reads
/// the cipher back.
pub fn restore_cipher_at(table: &mut CipherTable, owner: &str, id: &str, now: &str) -> (r: Result<
    Cipher,
    AppError,
>)
    ensures
        (final(table)@, answer(r)) == restore_outcome(old(table)@, owner@, id@, now@),
{
    proof {
        lemma_restore_plan(table@, owner@, id@, now@);
    }
    cipher_answer(perform(table, begin_restore(owner, id, String::from_str(now))))
}

/// Lifts the tombstone of `owner`'s cipher `id` at the current time and
/// reads the cipher back.
pub fn restore_cipher(table: &mut CipherTable, owner: &str, id: &str) -> (r: Result<
    Cipher,
    AppError,
>)
    ensures
        exists|now: Seq<char>|
            (final(table)@, answer(r)) == #[trigger] restore_outcome(old(table)@, owner@, id@, now),
{
    let ghost before = table@;
    let next = start_restore(owner, id);
    let ghost now = choose|now: Seq<char>| next@ == #[trigger] plan_restore(owner@, id@, now);
    proof {
        lemma_restore_plan(before, owner@, id@, now);
    }
    let r = cipher_answer(perform(table, next));
    assert((table@, answer(r)) == restore_outcome(before, owner@, id@, now));
    r
}

/// Commits the supplied fields of `payload` to `owner`'s cipher `id` at a
/// given `now` and reads the cipher back.
pub fn update_cipher_partial_at(
    table: &mut CipherTable,
    owner: &str,
    id: &str,
    payload: PartialCipherUpdate,
    now: &str,
) -> (r: Result<Cipher, AppError>)
    ensures
        (final(table)@, answer(r)) == partial_update_outcome(
            old(table)@,
            owner@,
            id@,
            payload@,
            now@,
        ),
{
    proof {
        lemma_partial_update_plan(table@, owner@, id@, payload@, now@);
    }
    cipher_answer(perform(table, begin_partial_update(owner, id, payload, String::from_str(now))))
}

/// Commits the supplied fields of `payload` to `owner`'s cipher `id` at the
/// current time and reads the cipher back.
pub fn update_cipher_partial(
    table: &mut CipherTable,
    owner: &str,
    id: &str,
    payload: PartialCipherUpdate,
) -> (r: Result<Cipher, AppError>)
    ensures
        exists|now: Seq<char>|
            (final(table)@, answer(r)) == #[trigger] partial_update_outcome(
                old(table)@,
                owner@,
                id@,
                payload@,
                now,
            ),
{
    let ghost before = table@;
    let ghost asked = payload@;
    let next = start_partial_update(owner, id, payload);
    let ghost now = choose|now: Seq<char>|
        next@ == #[trigger] plan_partial_update(owner@, id@, asked, now);
    proof {
        lemma_partial_update_plan(before, owner@, id@, asked, now);
    }
    let r = cipher_answer(perform(table, next));
    assert((table@, answer(r)) == partial_update_outcome(before, owner@, id@, asked, now));
    r
}

} // verus!
