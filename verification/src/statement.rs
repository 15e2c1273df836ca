//! The statements of the `ciphers` table as values, so that an operation can
//! say which statement it wants run next and be told what came back,
//! whichever store runs it.

use vstd::prelude::*;
use crate::cipher::{opt_row, CipherRow, CipherRowView};
use crate::table::{
    matched, selected, with_contents, with_favorite, with_folder, with_tombstone, without_row,
    without_tombstone, CipherTable,
};
use crate::text::opt_text;

verus! {

/// One statement against the `ciphers` table. All but `Insert` are filtered
/// by `(id, owner)`.
#[derive(Debug, Clone, PartialEq, Eq)]
pub enum Statement {
    /// Read the row.
    Select { id: String, owner: String },
    /// Write a new row.
    Insert { row: CipherRow },
    /// Replace the row's contents and refresh `updated_at`.
    ReplaceContents {
        id: String,
        owner: String,
        organization_id: Option<String>,
        cipher_type: i32,
        data: String,
        favorite: bool,
        folder_id: Option<String>,
        now: String,
    },
    /// Set `deleted_at` and `updated_at` to `now`.
    MarkDeleted { id: String, owner: String, now: String },
    /// Clear `deleted_at` and refresh `updated_at`.
    ClearDeleted { id: String, owner: String, now: String },
    /// Set the folder and refresh `updated_at`.
    SetFolder { id: String, owner: String, folder: String, now: String },
    /// Set the favorite mark and refresh `updated_at`.
    SetFavorite { id: String, owner: String, favorite: bool, now: String },
    /// Remove the row.
    Delete { id: String, owner: String },
}

/// The mathematical value of a [`Statement`].
pub enum StatementView {
    Select { id: Seq<char>, owner: Seq<char> },
    Insert { row: CipherRowView },
    ReplaceContents {
        id: Seq<char>,
        owner: Seq<char>,
        organization_id: Option<Seq<char>>,
        cipher_type: i32,
        data: Seq<char>,
        favorite: bool,
        folder_id: Option<Seq<char>>,
        now: Seq<char>,
    },
    MarkDeleted { id: Seq<char>, owner: Seq<char>, now: Seq<char> },
    ClearDeleted { id: Seq<char>, owner: Seq<char>, now: Seq<char> },
    SetFolder { id: Seq<char>, owner: Seq<char>, folder: Seq<char>, now: Seq<char> },
    SetFavorite { id: Seq<char>, owner: Seq<char>, favorite: bool, now: Seq<char> },
    Delete { id: Seq<char>, owner: Seq<char> },
}

impl View for Statement {
    type V = StatementView;

    open spec fn view(&self) -> StatementView {
        match self {
            Statement::Select { id, owner } => StatementView::Select { id: id@, owner: owner@ },
            Statement::Insert { row } => StatementView::Insert { row: row@ },
            Statement::ReplaceContents {
                id,
                owner,
                organization_id,
                cipher_type,
                data,
                favorite,
                folder_id,
                now,
            } => StatementView::ReplaceContents {
                id: id@,
                owner: owner@,
                organization_id: opt_text(*organization_id),
                cipher_type: *cipher_type,
                data: data@,
                favorite: *favorite,
                folder_id: opt_text(*folder_id),
                now: now@,
            },
            Statement::MarkDeleted { id, owner, now } => StatementView::MarkDeleted {
                id: id@,
                owner: owner@,
                now: now@,
            },
            Statement::ClearDeleted { id, owner, now } => StatementView::ClearDeleted {
                id: id@,
                owner: owner@,
                now: now@,
            },
            Statement::SetFolder { id, owner, folder, now } => StatementView::SetFolder {
                id: id@,
                owner: owner@,
                folder: folder@,
                now: now@,
            },
            Statement::SetFavorite { id, owner, favorite, now } => StatementView::SetFavorite {
                id: id@,
                owner: owner@,
                favorite: *favorite,
                now: now@,
            },
            Statement::Delete { id, owner } => StatementView::Delete { id: id@, owner: owner@ },
        }
    }
}

/// What the store hands back for a statement.
#[derive(Debug, Clone, PartialEq, Eq)]
pub enum Reply {
    /// The row that a `Select` found, if any.
    Row(Option<CipherRow>),
    /// The number of rows that a write touched.
    Affected(usize),
    /// The store did not carry the statement out.
    Refused,
}

/// The mathematical value of a [`Reply`].
pub enum ReplyView {
    Row(Option<CipherRowView>),
    Affected(usize),
    Refused,
}

impl View for Reply {
    type V = ReplyView;

    open spec fn view(&self) -> ReplyView {
        match self {
            Reply::Row(row) => ReplyView::Row(opt_row(*row)),
            Reply::Affected(n) => ReplyView::Affected(*n),
            Reply::Refused => ReplyView::Refused,
        }
    }
}

/// What a statement does to the table, and what the store hands back.
///
/// An `Insert` under a key that is taken is refused. Every other statement
/// is carried out, on one row or on none.
pub open spec fn effect(t: Map<Seq<char>, CipherRowView>, statement: StatementView) -> (
    Map<Seq<char>, CipherRowView>,
    ReplyView,
) {
    match statement {
        StatementView::Select { id, owner } => (t, ReplyView::Row(selected(t, id, owner))),
        StatementView::Insert { row } => if t.contains_key(row.id) {
            (t, ReplyView::Refused)
        } else {
            (t.insert(row.id, row), ReplyView::Affected(1))
        },
        StatementView::ReplaceContents {
            id,
            owner,
            organization_id,
            cipher_type,
            data,
            favorite,
            folder_id,
            now,
        } => (
            with_contents(t, id, owner, organization_id, cipher_type, data, favorite, folder_id, now),
            ReplyView::Affected(matched(t, id, owner)),
        ),
        StatementView::MarkDeleted { id, owner, now } => (
            with_tombstone(t, id, owner, now),
            ReplyView::Affected(matched(t, id, owner)),
        ),
        StatementView::ClearDeleted { id, owner, now } => (
            without_tombstone(t, id, owner, now),
            ReplyView::Affected(matched(t, id, owner)),
        ),
        StatementView::SetFolder { id, owner, folder, now } => (
            with_folder(t, id, owner, folder, now),
            ReplyView::Affected(matched(t, id, owner)),
        ),
        StatementView::SetFavorite { id, owner, favorite, now } => (
            with_favorite(t, id, owner, favorite, now),
            ReplyView::Affected(matched(t, id, owner)),
        ),
        StatementView::Delete { id, owner } => (
            without_row(t, id, owner),
            ReplyView::Affected(matched(t, id, owner)),
        ),
    }
}

impl CipherTable {
    /// Runs one statement.
    pub fn run(&mut self, statement: Statement) -> (reply: Reply)
        ensures
            (final(self)@, reply@) == effect(old(self)@, statement@),
    {
        match statement {
            Statement::Select { id, owner } => Reply::Row(self.select(id.as_str(), owner.as_str())),
            Statement::Insert { row } => {
                if self.insert(row) {
                    Reply::Affected(1)
                } else {
                    Reply::Refused
                }
            },
            Statement::ReplaceContents {
                id,
                owner,
                organization_id,
                cipher_type,
                data,
                favorite,
                folder_id,
                now,
            } => Reply::Affected(
                self.replace_contents(
                    id.as_str(),
                    owner.as_str(),
                    organization_id,
                    cipher_type,
                    data,
                    favorite,
                    folder_id,
                    now.as_str(),
                ),
            ),
            Statement::MarkDeleted { id, owner, now } => Reply::Affected(
                self.mark_deleted(id.as_str(), owner.as_str(), now.as_str()),
            ),
            Statement::ClearDeleted { id, owner, now } => Reply::Affected(
                self.clear_deleted(id.as_str(), owner.as_str(), now.as_str()),
            ),
            Statement::SetFolder { id, owner, folder, now } => Reply::Affected(
                self.set_folder(id.as_str(), owner.as_str(), folder, now.as_str()),
            ),
            Statement::SetFavorite { id, owner, favorite, now } => Reply::Affected(
                self.set_favorite(id.as_str(), owner.as_str(), favorite, now.as_str()),
            ),
            Statement::Delete { id, owner } => Reply::Affected(
                self.delete(id.as_str(), owner.as_str()),
            ),
        }
    }
}

} // verus!
