//! What holds of the life of a cipher and of a folder, whatever the table and
//! the request.
//!
//! The laws speak of the table as a map and of the operations' outcomes.
//! Their only demand on the table is that each row is filed under its own
//! `id`, which every [`CipherTable`](crate::table::CipherTable) and every
//! [`FolderTable`](crate::folders::FolderTable) meets.

use vstd::prelude::*;
use crate::cipher::{cipher_of_row, row_of_cipher, CipherRequestDataView, CipherRowView, CipherView, PartialCipherUpdateView};
use crate::ciphers::{
    cipher_not_found, create_outcome, envelope_collections, get_outcome, new_cipher,
    partial_update_outcome, restore_outcome, update_outcome,
};
use crate::error::AppErrorView;
use crate::folders::{
    folder_not_found, folder_owned_by, folder_selected, folders_keyed, update_folder_outcome,
    without_folder, FolderView,
};
use crate::table::{keyed, owned_by, with_tombstone, without_row};
use crate::text::{lemma_text_le_reflexive, text_le};

verus! {

/// Whether two tables hold the same rows but for the row `id`.
pub open spec fn same_elsewhere(
    before: Map<Seq<char>, CipherRowView>,
    after: Map<Seq<char>, CipherRowView>,
    id: Seq<char>,
) -> bool {
    forall|k: Seq<char>|
        k != id ==> (#[trigger] after.contains_key(k) <==> before.contains_key(k)) && (
        before.contains_key(k) ==> after[k] == before[k])
}

/// A creation that succeeds hands out an `id` that no row had, files the
/// new row under it for the calling principal, answers with that
/// principal as the cipher's owner, and touches no other row.
pub proof fn law_create_is_fresh_and_owned(
    t: Map<Seq<char>, CipherRowView>,
    owner: Seq<char>,
    request: CipherRequestDataView,
    collection_ids: Option<Seq<Seq<char>>>,
    id: Seq<char>,
    now: Seq<char>,
)
    requires
        keyed(t),
    ensures
        ({
            let (after, answer) = create_outcome(t, owner, request, collection_ids, id, now);
            &&& keyed(after)
            &&& answer is Ok <==> request.data is Some && !t.contains_key(id)
            &&& answer is Ok ==> {
                &&& answer->Ok_0.id == id
                &&& answer->Ok_0.user_id == Some(owner)
                &&& answer->Ok_0.created_at == now
                &&& answer->Ok_0.updated_at == now
                &&& !t.contains_key(id)
                &&& owned_by(after, id, owner)
                &&& get_outcome(after, owner, id) == Ok::<CipherView, AppErrorView>(
                    CipherView { collection_ids: None, ..answer->Ok_0 },
                )
                &&& same_elsewhere(t, after, id)
            }
            &&& answer is Err ==> after == t
        }),
{
}

/// The flat request and the request in its envelope store the same row.
pub proof fn law_create_shapes_agree(
    t: Map<Seq<char>, CipherRowView>,
    owner: Seq<char>,
    request: CipherRequestDataView,
    envelope_ids: Seq<Seq<char>>,
    id: Seq<char>,
    now: Seq<char>,
)
    ensures
        create_outcome(t, owner, request, request.collection_ids, id, now).0 == create_outcome(
            t,
            owner,
            request,
            envelope_collections(envelope_ids),
            id,
            now,
        ).0,
        row_of_cipher(new_cipher(owner, request, request.collection_ids, id, now), owner)
            == row_of_cipher(
            new_cipher(owner, request, envelope_collections(envelope_ids), id, now),
            owner,
        ),
{
}

/// A full update that succeeds keeps the row's `id`, owner and `created_at`,
/// in the answer and in the table, and sets `updated_at` to the time of the
/// update. No other row changes. It succeeds exactly on a row of the caller
/// with an encoded payload.
pub proof fn law_update_preserves_identity(
    t: Map<Seq<char>, CipherRowView>,
    owner: Seq<char>,
    id: Seq<char>,
    request: CipherRequestDataView,
    now: Seq<char>,
)
    requires
        keyed(t),
    ensures
        ({
            let (after, answer) = update_outcome(t, owner, id, request, now);
            &&& keyed(after)
            &&& answer is Ok <==> owned_by(t, id, owner) && request.data is Some
            &&& answer is Ok ==> {
                &&& answer->Ok_0.id == id
                &&& answer->Ok_0.user_id == Some(owner)
                &&& answer->Ok_0.created_at == t[id].created_at
                &&& answer->Ok_0.updated_at == now
                &&& after.contains_key(id)
                &&& after[id].id == t[id].id
                &&& after[id].user_id == t[id].user_id
                &&& after[id].created_at == t[id].created_at
                &&& after[id].deleted_at == t[id].deleted_at
                &&& after[id].updated_at == now
                &&& same_elsewhere(t, after, id)
            }
            &&& answer is Err ==> after == t
        }),
{
}

/// Where the clock has not gone back behind the row's last change, a full
/// update does not move `updated_at` backwards.
pub proof fn law_update_never_ages(
    t: Map<Seq<char>, CipherRowView>,
    owner: Seq<char>,
    id: Seq<char>,
    request: CipherRequestDataView,
    now: Seq<char>,
)
    requires
        keyed(t),
        owned_by(t, id, owner),
        text_le(t[id].updated_at, now),
    ensures
        ({
            let (after, answer) = update_outcome(t, owner, id, request, now);
            &&& text_le(t[id].updated_at, after[id].updated_at)
            &&& answer is Ok ==> text_le(t[id].updated_at, answer->Ok_0.updated_at)
        }),
{
    lemma_text_le_reflexive(t[id].updated_at);
}

/// A partial update that supplies only the favorite mark leaves the folder
/// as it was, and changes nothing but the mark and `updated_at`.
pub proof fn law_partial_favorite_only(
    t: Map<Seq<char>, CipherRowView>,
    owner: Seq<char>,
    id: Seq<char>,
    favorite: bool,
    now: Seq<char>,
)
    requires
        keyed(t),
        owned_by(t, id, owner),
    ensures
        ({
            let patch = PartialCipherUpdateView { folder_id: None, favorite: Some(favorite) };
            let (after, answer) = partial_update_outcome(t, owner, id, patch, now);
            &&& after.contains_key(id)
            &&& after[id] == (CipherRowView { favorite, updated_at: now, ..t[id] })
            &&& after[id].folder_id == t[id].folder_id
            &&& answer == Ok::<CipherView, AppErrorView>(cipher_of_row(after[id]))
            &&& same_elsewhere(t, after, id)
        }),
{
}

/// A partial update that supplies only the folder leaves the favorite mark
/// as it was, and changes nothing but the folder and `updated_at`.
pub proof fn law_partial_folder_only(
    t: Map<Seq<char>, CipherRowView>,
    owner: Seq<char>,
    id: Seq<char>,
    folder_id: Seq<char>,
    now: Seq<char>,
)
    requires
        keyed(t),
        owned_by(t, id, owner),
    ensures
        ({
            let patch = PartialCipherUpdateView { folder_id: Some(folder_id), favorite: None };
            let (after, answer) = partial_update_outcome(t, owner, id, patch, now);
            &&& after.contains_key(id)
            &&& after[id] == (CipherRowView {
                folder_id: Some(folder_id),
                updated_at: now,
                ..t[id]
            })
            &&& after[id].favorite == t[id].favorite
            &&& answer == Ok::<CipherView, AppErrorView>(cipher_of_row(after[id]))
            &&& same_elsewhere(t, after, id)
        }),
{
}

/// A partial update that supplies neither field runs no statement: the
/// table, `updated_at` included, stays as it was, and the answer is the
/// cipher as it stands.
pub proof fn law_partial_nothing_supplied(
    t: Map<Seq<char>, CipherRowView>,
    owner: Seq<char>,
    id: Seq<char>,
    now: Seq<char>,
)
    ensures
        ({
            let patch = PartialCipherUpdateView { folder_id: None, favorite: None };
            let (after, answer) = partial_update_outcome(t, owner, id, patch, now);
            &&& after == t
            &&& answer == get_outcome(t, owner, id)
        }),
{
}

/// A partial update that supplies a field refreshes `updated_at`.
pub proof fn law_partial_refreshes(
    t: Map<Seq<char>, CipherRowView>,
    owner: Seq<char>,
    id: Seq<char>,
    patch: PartialCipherUpdateView,
    now: Seq<char>,
)
    requires
        keyed(t),
        owned_by(t, id, owner),
        patch.folder_id is Some || patch.favorite is Some,
    ensures
        ({
            let (after, answer) = partial_update_outcome(t, owner, id, patch, now);
            &&& answer is Ok
            &&& answer->Ok_0.updated_at == now
            &&& after[id].updated_at == now
            &&& answer->Ok_0.id == id
            &&& answer->Ok_0.created_at == t[id].created_at
        }),
{
}

/// Tombstoning a cipher and restoring it leaves an active cipher: a read
/// finds `deleted_at` empty, `updated_at` at the time of the restore, and
/// every other field as it was before the cipher was tombstoned. No other
/// row changes.
pub proof fn law_soft_delete_then_restore(
    t: Map<Seq<char>, CipherRowView>,
    owner: Seq<char>,
    id: Seq<char>,
    deleted_at: Seq<char>,
    restored_at: Seq<char>,
)
    requires
        keyed(t),
        owned_by(t, id, owner),
    ensures
        ({
            let tombstoned = with_tombstone(t, id, owner, deleted_at);
            let (after, answer) = restore_outcome(tombstoned, owner, id, restored_at);
            &&& get_outcome(tombstoned, owner, id) == Ok::<CipherView, AppErrorView>(
                cipher_of_row(
                    CipherRowView { deleted_at: Some(deleted_at), updated_at: deleted_at, ..t[id] },
                ),
            )
            &&& after.contains_key(id)
            &&& after[id] == (CipherRowView { deleted_at: None, updated_at: restored_at, ..t[id] })
            &&& answer == get_outcome(after, owner, id)
            &&& answer == Ok::<CipherView, AppErrorView>(cipher_of_row(after[id]))
            &&& answer->Ok_0.deleted_at is None
            &&& same_elsewhere(t, after, id)
        }),
{
}

/// Restoring a cipher that is absent or another's is how absence shows:
/// nothing changes and the answer is `NotFound`.
pub proof fn law_restore_absent(
    t: Map<Seq<char>, CipherRowView>,
    owner: Seq<char>,
    id: Seq<char>,
    now: Seq<char>,
)
    requires
        !owned_by(t, id, owner),
    ensures
        restore_outcome(t, owner, id, now) == (
            t,
            Err::<CipherView, AppErrorView>(cipher_not_found()),
        ),
{
}

/// After a cipher was removed for good, a read of it fails with `NotFound`,
/// for its owner and for everyone else, and the other rows are as before.
pub proof fn law_hard_delete_then_get(
    t: Map<Seq<char>, CipherRowView>,
    owner: Seq<char>,
    id: Seq<char>,
    reader: Seq<char>,
)
    requires
        keyed(t),
        owned_by(t, id, owner),
    ensures
        get_outcome(without_row(t, id, owner), reader, id) == Err::<CipherView, AppErrorView>(
            cipher_not_found(),
        ),
        !without_row(t, id, owner).contains_key(id),
        same_elsewhere(t, without_row(t, id, owner), id),
{
}

/// A principal cannot reach another's cipher. Reading, updating, partially
/// updating and restoring it all fail with the same `NotFound` that an
/// absent cipher gives, and neither they nor the two ways of deleting
/// change the table.
pub proof fn law_cross_owner_isolation(
    t: Map<Seq<char>, CipherRowView>,
    owner: Seq<char>,
    other: Seq<char>,
    id: Seq<char>,
    request: CipherRequestDataView,
    patch: PartialCipherUpdateView,
    now: Seq<char>,
)
    requires
        owned_by(t, id, owner),
        other != owner,
    ensures
        get_outcome(t, other, id) == Err::<CipherView, AppErrorView>(cipher_not_found()),
        update_outcome(t, other, id, request, now) == (
            t,
            Err::<CipherView, AppErrorView>(cipher_not_found()),
        ),
        partial_update_outcome(t, other, id, patch, now) == (
            t,
            Err::<CipherView, AppErrorView>(cipher_not_found()),
        ),
        restore_outcome(t, other, id, now) == (
            t,
            Err::<CipherView, AppErrorView>(cipher_not_found()),
        ),
        with_tombstone(t, id, other, now) == t,
        without_row(t, id, other) == t,
{
}

/// Renaming a folder keeps its `id`, owner and `created_at`, sets the name
/// and `updated_at`, and touches no other folder. It succeeds exactly on a
/// folder of the caller.
pub proof fn law_folder_rename_preserves_identity(
    t: Map<Seq<char>, FolderView>,
    owner: Seq<char>,
    id: Seq<char>,
    name: Seq<char>,
    now: Seq<char>,
)
    requires
        folders_keyed(t),
    ensures
        ({
            let (after, answer) = update_folder_outcome(t, owner, id, name, now);
            &&& folders_keyed(after)
            &&& answer is Ok <==> folder_owned_by(t, id, owner)
            &&& answer is Ok ==> {
                &&& answer->Ok_0 == (FolderView { name, updated_at: now, ..t[id] })
                &&& answer->Ok_0.id == id
                &&& answer->Ok_0.user_id == owner
                &&& after.contains_key(id)
                &&& after[id] == answer->Ok_0
                &&& forall|k: Seq<char>|
                    k != id ==> (#[trigger] after.contains_key(k) <==> t.contains_key(k)) && (
                    t.contains_key(k) ==> after[k] == t[k])
            }
            &&& answer is Err ==> after == t && answer == Err::<FolderView, AppErrorView>(
                folder_not_found(),
            )
        }),
{
}

/// A principal cannot reach another's folder: renaming it fails with the
/// `NotFound` that an absent folder gives, and neither renaming nor
/// deleting changes the table.
pub proof fn law_folder_isolation(
    t: Map<Seq<char>, FolderView>,
    owner: Seq<char>,
    other: Seq<char>,
    id: Seq<char>,
    name: Seq<char>,
    now: Seq<char>,
)
    requires
        folder_owned_by(t, id, owner),
        other != owner,
    ensures
        update_folder_outcome(t, other, id, name, now) == (
            t,
            Err::<FolderView, AppErrorView>(folder_not_found()),
        ),
        without_folder(t, id, other) == t,
{
}

/// A deleted folder is gone for good: no read finds it, whoever asks.
pub proof fn law_folder_delete_is_permanent(
    t: Map<Seq<char>, FolderView>,
    owner: Seq<char>,
    id: Seq<char>,
    reader: Seq<char>,
)
    requires
        folder_owned_by(t, id, owner),
    ensures
        folder_selected(without_folder(t, id, owner), id, reader) is None,
        !without_folder(t, id, owner).contains_key(id),
{
}

} // verus!
