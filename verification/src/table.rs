//! The `ciphers` table and the statements that run against it.
//!
//! Each statement is one atomic step of the store. A statement that changes
//! rows names the row by `(id, owner)` jointly: a row of another owner is
//! treated exactly like a row that is not there. It reports how many rows
//! it changed, which is 0 or 1, since `id` is the primary key.

use vstd::prelude::*;
use crate::cipher::{CipherRow, CipherRowView};
use crate::rows::{is_latest, lemma_keyed, Record, Rows, Stamped};
use crate::text::opt_text;

verus! {

impl Record for CipherRow {
    open spec fn key_of(row: CipherRowView) -> Seq<char> {
        row.id
    }

    fn key(&self) -> (k: &String) {
        &self.id
    }
}

impl Stamped for CipherRow {
    open spec fn owner_of(row: CipherRowView) -> Seq<char> {
        row.user_id
    }

    open spec fn stamp_of(row: CipherRowView) -> Seq<char> {
        row.updated_at
    }

    fn owner(&self) -> (o: &String) {
        &self.user_id
    }

    fn stamp(&self) -> (s: &String) {
        &self.updated_at
    }
}

/// Whether each row of `t` is filed under its own `id`.
pub open spec fn keyed(t: Map<Seq<char>, CipherRowView>) -> bool {
    forall|k: Seq<char>| #[trigger] t.contains_key(k) ==> t[k].id == k
}

/// Whether `t` has a row `id` that belongs to `owner`.
pub open spec fn owned_by(t: Map<Seq<char>, CipherRowView>, id: Seq<char>, owner: Seq<char>) -> bool {
    t.contains_key(id) && t[id].user_id == owner
}

/// The row that a read filtered by `(id, owner)` finds.
pub open spec fn selected(
    t: Map<Seq<char>, CipherRowView>,
    id: Seq<char>,
    owner: Seq<char>,
) -> Option<CipherRowView> {
    if owned_by(t, id, owner) {
        Some(t[id])
    } else {
        None
    }
}

/// The table after a new row was written, where its key was free.
pub open spec fn with_row(t: Map<Seq<char>, CipherRowView>, row: CipherRowView) -> Map<
    Seq<char>,
    CipherRowView,
> {
    if t.contains_key(row.id) {
        t
    } else {
        t.insert(row.id, row)
    }
}

/// The table after the contents of `owner`'s row `id` were replaced.
pub open spec fn with_contents(
    t: Map<Seq<char>, CipherRowView>,
    id: Seq<char>,
    owner: Seq<char>,
    organization_id: Option<Seq<char>>,
    cipher_type: i32,
    data: Seq<char>,
    favorite: bool,
    folder_id: Option<Seq<char>>,
    now: Seq<char>,
) -> Map<Seq<char>, CipherRowView> {
    if owned_by(t, id, owner) {
        t.insert(
            id,
            CipherRowView {
                organization_id,
                cipher_type,
                data,
                favorite,
                folder_id,
                updated_at: now,
                ..t[id]
            },
        )
    } else {
        t
    }
}

/// The table after `owner`'s row `id` was tombstoned at `now`.
pub open spec fn with_tombstone(
    t: Map<Seq<char>, CipherRowView>,
    id: Seq<char>,
    owner: Seq<char>,
    now: Seq<char>,
) -> Map<Seq<char>, CipherRowView> {
    if owned_by(t, id, owner) {
        t.insert(id, CipherRowView { deleted_at: Some(now), updated_at: now, ..t[id] })
    } else {
        t
    }
}

/// The table after the tombstone of `owner`'s row `id` was lifted at `now`.
pub open spec fn without_tombstone(
    t: Map<Seq<char>, CipherRowView>,
    id: Seq<char>,
    owner: Seq<char>,
    now: Seq<char>,
) -> Map<Seq<char>, CipherRowView> {
    if owned_by(t, id, owner) {
        t.insert(id, CipherRowView { deleted_at: None, updated_at: now, ..t[id] })
    } else {
        t
    }
}

/// The table after `owner`'s row `id` was moved to `folder_id` at `now`.
pub open spec fn with_folder(
    t: Map<Seq<char>, CipherRowView>,
    id: Seq<char>,
    owner: Seq<char>,
    folder_id: Seq<char>,
    now: Seq<char>,
) -> Map<Seq<char>, CipherRowView> {
    if owned_by(t, id, owner) {
        t.insert(id, CipherRowView { folder_id: Some(folder_id), updated_at: now, ..t[id] })
    } else {
        t
    }
}

/// The table after the favorite mark of `owner`'s row `id` was set at `now`.
pub open spec fn with_favorite(
    t: Map<Seq<char>, CipherRowView>,
    id: Seq<char>,
    owner: Seq<char>,
    favorite: bool,
    now: Seq<char>,
) -> Map<Seq<char>, CipherRowView> {
    if owned_by(t, id, owner) {
        t.insert(id, CipherRowView { favorite, updated_at: now, ..t[id] })
    } else {
        t
    }
}

/// The table after `owner`'s row `id` was removed for good.
pub open spec fn without_row(
    t: Map<Seq<char>, CipherRowView>,
    id: Seq<char>,
    owner: Seq<char>,
) -> Map<Seq<char>, CipherRowView> {
    if owned_by(t, id, owner) {
        t.remove(id)
    } else {
        t
    }
}

/// The number of rows that a statement filtered by `(id, owner)` touches.
pub open spec fn matched(t: Map<Seq<char>, CipherRowView>, id: Seq<char>, owner: Seq<char>) -> usize {
    if owned_by(t, id, owner) {
        1
    } else {
        0
    }
}

/// The `ciphers` table.
pub struct CipherTable {
    rows: Rows<CipherRow>,
}

impl View for CipherTable {
    type V = Map<Seq<char>, CipherRowView>;

    closed spec fn view(&self) -> Map<Seq<char>, CipherRowView> {
        self.rows@
    }
}

impl CipherTable {
    /// Every table files each row under the row's own `id`.
    pub proof fn lemma_keyed(&self)
        ensures
            keyed(self@),
    {
        lemma_keyed::<CipherRow>(self.rows.listing());
    }

    /// The empty table.
    pub fn new() -> (table: CipherTable)
        ensures
            table@ == Map::<Seq<char>, CipherRowView>::empty(),
    {
        CipherTable { rows: Rows::new() }
    }

    /// Reads the row `id` of `owner`.
    pub fn select(&self, id: &str, owner: &str) -> (row: Option<CipherRow>)
        ensures
            crate::cipher::opt_row(row) == selected(self@, id@, owner@),
    {
        let key = String::from_str(id);
        let owner = String::from_str(owner);
        match self.rows.get(&key) {
            Some(row) => {
                if row.user_id == owner {
                    Some(row.copy())
                } else {
                    None
                }
            },
            None => None,
        }
    }

    /// Writes a new row. A row whose `id` is taken is refused: nothing is
    /// written and the result is `false`.
    pub fn insert(&mut self, row: CipherRow) -> (written: bool)
        ensures
            written == !old(self)@.contains_key(row@.id),
            final(self)@ == with_row(old(self)@, row@),
    {
        if self.rows.contains(&row.id) {
            false
        } else {
            self.rows.put(row);
            true
        }
    }

    /// Replaces the contents of `owner`'s row `id` and refreshes its
    /// `updated_at`.
    pub fn replace_contents(
        &mut self,
        id: &str,
        owner: &str,
        organization_id: Option<String>,
        cipher_type: i32,
        data: String,
        favorite: bool,
        folder_id: Option<String>,
        now: &str,
    ) -> (affected: usize)
        ensures
            affected == matched(old(self)@, id@, owner@),
            final(self)@ == with_contents(
                old(self)@,
                id@,
                owner@,
                opt_text(organization_id),
                cipher_type,
                data@,
                favorite,
                opt_text(folder_id),
                now@,
            ),
    {
        match self.select(id, owner) {
            Some(mut row) => {
                row.organization_id = organization_id;
                row.cipher_type = cipher_type;
                row.data = data;
                row.favorite = favorite;
                row.folder_id = folder_id;
                row.updated_at = String::from_str(now);
                self.rows.put(row);
                1
            },
            None => 0,
        }
    }

    /// Tombstones `owner`'s row `id`: sets `deleted_at` and `updated_at` to
    /// `now`.
    pub fn mark_deleted(&mut self, id: &str, owner: &str, now: &str) -> (affected: usize)
        ensures
            affected == matched(old(self)@, id@, owner@),
            final(self)@ == with_tombstone(old(self)@, id@, owner@, now@),
    {
        match self.select(id, owner) {
            Some(mut row) => {
                row.deleted_at = Some(String::from_str(now));
                row.updated_at = String::from_str(now);
                self.rows.put(row);
                1
            },
            None => 0,
        }
    }

    /// Lifts the tombstone of `owner`'s row `id` and refreshes its
    /// `updated_at`.
    pub fn clear_deleted(&mut self, id: &str, owner: &str, now: &str) -> (affected: usize)
        ensures
            affected == matched(old(self)@, id@, owner@),
            final(self)@ == without_tombstone(old(self)@, id@, owner@, now@),
    {
        match self.select(id, owner) {
            Some(mut row) => {
                row.deleted_at = None;
                row.updated_at = String::from_str(now);
                self.rows.put(row);
                1
            },
            None => 0,
        }
    }

    /// Moves `owner`'s row `id` to a folder and refreshes its `updated_at`.
    pub fn set_folder(&mut self, id: &str, owner: &str, folder_id: String, now: &str) -> (affected:
        usize)
        ensures
            affected == matched(old(self)@, id@, owner@),
            final(self)@ == with_folder(old(self)@, id@, owner@, folder_id@, now@),
    {
        match self.select(id, owner) {
            Some(mut row) => {
                row.folder_id = Some(folder_id);
                row.updated_at = String::from_str(now);
                self.rows.put(row);
                1
            },
            None => 0,
        }
    }

    /// Sets the favorite mark of `owner`'s row `id` and refreshes its
    /// `updated_at`.
    pub fn set_favorite(&mut self, id: &str, owner: &str, favorite: bool, now: &str) -> (affected:
        usize)
        ensures
            affected == matched(old(self)@, id@, owner@),
            final(self)@ == with_favorite(old(self)@, id@, owner@, favorite, now@),
    {
        match self.select(id, owner) {
            Some(mut row) => {
                row.favorite = favorite;
                row.updated_at = String::from_str(now);
                self.rows.put(row);
                1
            },
            None => 0,
        }
    }

    /// Removes `owner`'s row `id` for good.
    pub fn delete(&mut self, id: &str, owner: &str) -> (affected: usize)
        ensures
            affected == matched(old(self)@, id@, owner@),
            final(self)@ == without_row(old(self)@, id@, owner@),
    {
        match self.select(id, owner) {
            Some(row) => {
                self.rows.remove(&row.id);
                1
            },
            None => 0,
        }
    }

    /// The greatest `updated_at` among `owner`'s rows, tombstoned ones
    /// included, in the order of the column.
    pub fn latest_update(&self, owner: &str) -> (latest: Option<String>)
        ensures
            is_latest::<CipherRow>(self@, owner@, opt_text(latest)),
    {
        self.rows.latest_stamp(owner)
    }
}

} // verus!
