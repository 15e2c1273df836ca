//! Folders: the `folders` table and the life of a folder. A folder has no
//! tombstone: deleting it removes it for good.

use vstd::prelude::*;
use crate::clock::row_timestamp;
use crate::error::{AppError, AppErrorView};
use crate::ident::fresh_id;
use crate::rows::{is_latest, lemma_keyed, Record, Rows, Stamped};
use crate::text::opt_text;

verus! {

/// One row of the `folders` table, which is also the folder as callers see
/// it.
#[derive(Debug, Clone, PartialEq, Eq)]
pub struct Folder {
    pub id: String,
    pub user_id: String,
    pub name: String,
    pub created_at: String,
    pub updated_at: String,
}

/// The mathematical value of a [`Folder`].
pub struct FolderView {
    pub id: Seq<char>,
    pub user_id: Seq<char>,
    pub name: Seq<char>,
    pub created_at: Seq<char>,
    pub updated_at: Seq<char>,
}

impl View for Folder {
    type V = FolderView;

    open spec fn view(&self) -> FolderView {
        FolderView {
            id: self.id@,
            user_id: self.user_id@,
            name: self.name@,
            created_at: self.created_at@,
            updated_at: self.updated_at@,
        }
    }
}

impl Folder {
    /// A copy of the folder, field for field.
    pub fn copy(&self) -> (r: Folder)
        ensures
            r@ == self@,
    {
        Folder {
            id: self.id.clone(),
            user_id: self.user_id.clone(),
            name: self.name.clone(),
            created_at: self.created_at.clone(),
            updated_at: self.updated_at.clone(),
        }
    }
}

impl Record for Folder {
    open spec fn key_of(row: FolderView) -> Seq<char> {
        row.id
    }

    fn key(&self) -> (k: &String) {
        &self.id
    }
}

impl Stamped for Folder {
    open spec fn owner_of(row: FolderView) -> Seq<char> {
        row.user_id
    }

    open spec fn stamp_of(row: FolderView) -> Seq<char> {
        row.updated_at
    }

    fn owner(&self) -> (o: &String) {
        &self.user_id
    }

    fn stamp(&self) -> (s: &String) {
        &self.updated_at
    }
}

/// The value of an operation's answer.
pub open spec fn folder_answer(r: Result<Folder, AppError>) -> Result<FolderView, AppErrorView> {
    match r {
        Ok(folder) => Ok(folder@),
        Err(e) => Err(e@),
    }
}

/// The failure that stands for a folder that is absent or another's.
pub open spec fn folder_not_found() -> AppErrorView {
    AppErrorView::NotFound("Folder not found"@)
}

/// Whether each folder of `t` is filed under its own `id`.
pub open spec fn folders_keyed(t: Map<Seq<char>, FolderView>) -> bool {
    forall|k: Seq<char>| #[trigger] t.contains_key(k) ==> t[k].id == k
}

/// Whether `t` has a folder `id` that belongs to `owner`.
pub open spec fn folder_owned_by(t: Map<Seq<char>, FolderView>, id: Seq<char>, owner: Seq<char>) -> bool {
    t.contains_key(id) && t[id].user_id == owner
}

/// The folder that a read filtered by `(id, owner)` finds.
pub open spec fn folder_selected(
    t: Map<Seq<char>, FolderView>,
    id: Seq<char>,
    owner: Seq<char>,
) -> Option<FolderView> {
    if folder_owned_by(t, id, owner) {
        Some(t[id])
    } else {
        None
    }
}

/// Creating a folder: the table afterwards, and the answer. An `id` that is
/// taken ends in `Database` and writes nothing.
pub open spec fn create_folder_outcome(
    t: Map<Seq<char>, FolderView>,
    owner: Seq<char>,
    name: Seq<char>,
    id: Seq<char>,
    now: Seq<char>,
) -> (Map<Seq<char>, FolderView>, Result<FolderView, AppErrorView>) {
    if t.contains_key(id) {
        (t, Err(AppErrorView::Database))
    } else {
        let folder = created_folder(owner, name, id, now);
        (t.insert(id, folder), Ok(folder))
    }
}

/// Renaming a folder: the table afterwards, and the answer.
pub open spec fn update_folder_outcome(
    t: Map<Seq<char>, FolderView>,
    owner: Seq<char>,
    id: Seq<char>,
    name: Seq<char>,
    now: Seq<char>,
) -> (Map<Seq<char>, FolderView>, Result<FolderView, AppErrorView>) {
    match renamed(folder_selected(t, id, owner), name, now) {
        Ok(folder) => (t.insert(id, folder), Ok(folder)),
        Err(e) => (t, Err(e)),
    }
}

/// The table after `owner`'s folder `id` was removed.
pub open spec fn without_folder(t: Map<Seq<char>, FolderView>, id: Seq<char>, owner: Seq<char>) -> Map<
    Seq<char>,
    FolderView,
> {
    if folder_owned_by(t, id, owner) {
        t.remove(id)
    } else {
        t
    }
}

/// The `folders` table.
pub struct FolderTable {
    rows: Rows<Folder>,
}

impl View for FolderTable {
    type V = Map<Seq<char>, FolderView>;

    closed spec fn view(&self) -> Map<Seq<char>, FolderView> {
        self.rows@
    }
}

impl FolderTable {
    /// Every table files each folder under the folder's own `id`.
    pub proof fn lemma_keyed(&self)
        ensures
            folders_keyed(self@),
    {
        lemma_keyed::<Folder>(self.rows.listing());
    }

    /// The empty table.
    pub fn new() -> (table: FolderTable)
        ensures
            table@ == Map::<Seq<char>, FolderView>::empty(),
    {
        FolderTable { rows: Rows::new() }
    }

    /// Reads the folder `id` of `owner`.
    pub fn select(&self, id: &str, owner: &str) -> (row: Option<Folder>)
        ensures
            opt_folder(row) == folder_selected(self@, id@, owner@),
    {
        let key = String::from_str(id);
        let owner = String::from_str(owner);
        match self.rows.get(&key) {
            Some(row) => {
                if row.user_id == owner {
                    Some(row.copy())
                } else {
                    None
                }
            },
            None => None,
        }
    }

    /// The greatest `updated_at` among `owner`'s folders, in the order of
    /// the column.
    pub fn latest_update(&self, owner: &str) -> (latest: Option<String>)
        ensures
            is_latest::<Folder>(self@, owner@, opt_text(latest)),
    {
        self.rows.latest_stamp(owner)
    }
}

/// The value of a folder that may be absent.
pub open spec fn opt_folder(folder: Option<Folder>) -> Option<FolderView> {
    match folder {
        Some(f) => Some(f@),
        None => None,
    }
}

/// What renaming answers once the folder was looked for: `NotFound` where
/// there is none, else the folder under its new name, changed at `now`.
pub open spec fn renamed(existing: Option<FolderView>, name: Seq<char>, now: Seq<char>) -> Result<
    FolderView,
    AppErrorView,
> {
    match existing {
        Some(folder) => Ok(FolderView { name, updated_at: now, ..folder }),
        None => Err(folder_not_found()),
    }
}

/// The folder that `owner` creates under `id` at `now`.
pub open spec fn created_folder(
    owner: Seq<char>,
    name: Seq<char>,
    id: Seq<char>,
    now: Seq<char>,
) -> FolderView {
    FolderView { id, user_id: owner, name, created_at: now, updated_at: now }
}

/// A new folder of `owner` under a given `id`, created at a given `now`.
pub fn new_folder_as(owner: &str, name: String, id: String, now: String) -> (folder: Folder)
    ensures
        folder@ == created_folder(owner@, name@, id@, now@),
{
    Folder { id, user_id: String::from_str(owner), name, created_at: now.clone(), updated_at: now }
}

/// A new folder of `owner` with a fresh identifier, created at the current
/// time.
pub fn new_folder(owner: &str, name: String) -> (folder: Folder)
    ensures
        exists|id: Seq<char>, now: Seq<char>|
            id.len() == 36 && folder@ == #[trigger] created_folder(owner@, name@, id, now),
{
    let now = row_timestamp();
    let id = fresh_id();
    let ghost id_text = id@;
    let ghost now_text = now@;
    let folder = new_folder_as(owner, name, id, now);
    assert(folder@ == created_folder(owner@, name@, id_text, now_text));
    folder
}

/// Decides a renaming at a given `now`, once the folder was looked for.
pub fn rename_folder_at(existing: Option<Folder>, name: String, now: String) -> (r: Result<
    Folder,
    AppError,
>)
    ensures
        folder_answer(r) == renamed(opt_folder(existing), name@, now@),
{
    match existing {
        Some(mut folder) => {
            folder.name = name;
            folder.updated_at = now;
            Ok(folder)
        },
        None => Err(AppError::not_found("Folder not found")),
    }
}

/// Decides a renaming at the current time, once the folder was looked for.
pub fn rename_folder(existing: Option<Folder>, name: String) -> (r: Result<Folder, AppError>)
    ensures
        exists|now: Seq<char>| folder_answer(r) == #[trigger] renamed(opt_folder(existing), name@, now),
{
    let now = row_timestamp();
    let ghost now_text = now@;
    let r = rename_folder_at(existing, name, now);
    assert(folder_answer(r) == renamed(opt_folder(existing), name@, now_text));
    r
}

/// Creates a folder of `owner` under a given `id` at a given `now`.
pub fn create_folder_as(table: &mut FolderTable, owner: &str, name: String, id: String, now: String) -> (r:
    Result<Folder, AppError>)
    ensures
        (final(table)@, folder_answer(r)) == create_folder_outcome(
            old(table)@,
            owner@,
            name@,
            id@,
            now@,
        ),
{
    let folder = new_folder_as(owner, name, id, now);
    if table.rows.contains(&folder.id) {
        Err(AppError::Database)
    } else {
        table.rows.put(folder.copy());
        Ok(folder)
    }
}

/// Creates a folder of `owner` with a fresh identifier and the current time
/// as both timestamps.
pub fn create_folder(table: &mut FolderTable, owner: &str, name: String) -> (r: Result<
    Folder,
    AppError,
>)
    ensures
        exists|id: Seq<char>, now: Seq<char>|
            id.len() == 36 && (final(table)@, folder_answer(r)) == #[trigger] create_folder_outcome(
                old(table)@,
                owner@,
                name@,
                id,
                now,
            ),
{
    let now = row_timestamp();
    let id = fresh_id();
    let ghost before = table@;
    let ghost id_text = id@;
    let ghost now_text = now@;
    let r = create_folder_as(table, owner, name, id, now);
    assert((table@, folder_answer(r)) == create_folder_outcome(
        before,
        owner@,
        name@,
        id_text,
        now_text,
    ));
    r
}

/// Renames `owner`'s folder `id` at a given `now`.
pub fn update_folder_at(table: &mut FolderTable, owner: &str, id: &str, name: String, now: String) -> (r:
    Result<Folder, AppError>)
    ensures
        (final(table)@, folder_answer(r)) == update_folder_outcome(
            old(table)@,
            owner@,
            id@,
            name@,
            now@,
        ),
{
    proof {
        table.lemma_keyed();
    }
    match rename_folder_at(table.select(id, owner), name, now) {
        Err(e) => Err(e),
        Ok(folder) => {
            table.rows.put(folder.copy());
            Ok(folder)
        },
    }
}

/// Renames `owner`'s folder `id`, with the current time as its `updated_at`.
pub fn update_folder(table: &mut FolderTable, owner: &str, id: &str, name: String) -> (r: Result<
    Folder,
    AppError,
>)
    ensures
        exists|now: Seq<char>|
            (final(table)@, folder_answer(r)) == #[trigger] update_folder_outcome(
                old(table)@,
                owner@,
                id@,
                name@,
                now,
            ),
{
    let now = row_timestamp();
    let ghost before = table@;
    let ghost now_text = now@;
    let r = update_folder_at(table, owner, id, name, now);
    assert((table@, folder_answer(r)) == update_folder_outcome(before, owner@, id@, name@, now_text));
    r
}

/// Removes `owner`'s folder `id` for good. Where there is no such folder
/// nothing changes, and the answer is success all the same.
pub fn delete_folder(table: &mut FolderTable, owner: &str, id: &str) -> (r: Result<(), AppError>)
    ensures
        r is Ok,
        final(table)@ == without_folder(old(table)@, id@, owner@),
{
    match table.select(id, owner) {
        Some(folder) => {
            proof {
                table.lemma_keyed();
            }
            table.rows.remove(&folder.id);
        },
        None => {},
    }
    Ok(())
}

} // verus!
