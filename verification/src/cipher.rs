//! Ciphers: the stored row, the entity handed to callers, and the requests
//! that create and change them.
//!
//! A cipher's payload is opaque here. It arrives as encoded text, is stored
//! as that text and is handed back unchanged.

use vstd::prelude::*;
use crate::text::{copy_opt_text, opt_text, opt_texts, texts};

verus! {

/// One row of the `ciphers` table.
#[derive(Debug, Clone, PartialEq, Eq)]
pub struct CipherRow {
    pub id: String,
    pub user_id: String,
    pub organization_id: Option<String>,
    pub cipher_type: i32,
    pub data: String,
    pub favorite: bool,
    pub folder_id: Option<String>,
    pub deleted_at: Option<String>,
    pub created_at: String,
    pub updated_at: String,
}

/// The mathematical value of a [`CipherRow`].
pub struct CipherRowView {
    pub id: Seq<char>,
    pub user_id: Seq<char>,
    pub organization_id: Option<Seq<char>>,
    pub cipher_type: i32,
    pub data: Seq<char>,
    pub favorite: bool,
    pub folder_id: Option<Seq<char>>,
    pub deleted_at: Option<Seq<char>>,
    pub created_at: Seq<char>,
    pub updated_at: Seq<char>,
}

impl View for CipherRow {
    type V = CipherRowView;

    open spec fn view(&self) -> CipherRowView {
        CipherRowView {
            id: self.id@,
            user_id: self.user_id@,
            organization_id: opt_text(self.organization_id),
            cipher_type: self.cipher_type,
            data: self.data@,
            favorite: self.favorite,
            folder_id: opt_text(self.folder_id),
            deleted_at: opt_text(self.deleted_at),
            created_at: self.created_at@,
            updated_at: self.updated_at@,
        }
    }
}

impl CipherRow {
    /// A copy of the row, field for field.
    pub fn copy(&self) -> (r: CipherRow)
        ensures
            r@ == self@,
    {
        CipherRow {
            id: self.id.clone(),
            user_id: self.user_id.clone(),
            organization_id: copy_opt_text(&self.organization_id),
            cipher_type: self.cipher_type,
            data: self.data.clone(),
            favorite: self.favorite,
            folder_id: copy_opt_text(&self.folder_id),
            deleted_at: copy_opt_text(&self.deleted_at),
            created_at: self.created_at.clone(),
            updated_at: self.updated_at.clone(),
        }
    }
}

/// The value of a row that may be absent.
pub open spec fn opt_row(row: Option<CipherRow>) -> Option<CipherRowView> {
    match row {
        Some(r) => Some(r@),
        None => None,
    }
}

/// A cipher as callers see it.
#[derive(Debug, Clone, PartialEq, Eq)]
pub struct Cipher {
    pub id: String,
    pub user_id: Option<String>,
    pub organization_id: Option<String>,
    pub cipher_type: i32,
    pub data: String,
    pub favorite: bool,
    pub folder_id: Option<String>,
    pub deleted_at: Option<String>,
    pub created_at: String,
    pub updated_at: String,
    pub object: String,
    pub organization_use_totp: bool,
    pub edit: bool,
    pub view_password: bool,
    pub collection_ids: Option<Vec<String>>,
    pub attachments: Option<Vec<String>>,
    pub key: Option<String>,
}

/// The mathematical value of a [`Cipher`].
pub struct CipherView {
    pub id: Seq<char>,
    pub user_id: Option<Seq<char>>,
    pub organization_id: Option<Seq<char>>,
    pub cipher_type: i32,
    pub data: Seq<char>,
    pub favorite: bool,
    pub folder_id: Option<Seq<char>>,
    pub deleted_at: Option<Seq<char>>,
    pub created_at: Seq<char>,
    pub updated_at: Seq<char>,
    pub object: Seq<char>,
    pub organization_use_totp: bool,
    pub edit: bool,
    pub view_password: bool,
    pub collection_ids: Option<Seq<Seq<char>>>,
    pub attachments: Option<Seq<Seq<char>>>,
    pub key: Option<Seq<char>>,
}

impl View for Cipher {
    type V = CipherView;

    open spec fn view(&self) -> CipherView {
        CipherView {
            id: self.id@,
            user_id: opt_text(self.user_id),
            organization_id: opt_text(self.organization_id),
            cipher_type: self.cipher_type,
            data: self.data@,
            favorite: self.favorite,
            folder_id: opt_text(self.folder_id),
            deleted_at: opt_text(self.deleted_at),
            created_at: self.created_at@,
            updated_at: self.updated_at@,
            object: self.object@,
            organization_use_totp: self.organization_use_totp,
            edit: self.edit,
            view_password: self.view_password,
            collection_ids: opt_texts(self.collection_ids),
            attachments: opt_texts(self.attachments),
            key: opt_text(self.key),
        }
    }
}

/// The cipher that a stored row stands for: the row's columns, and the
/// fixed values of what the table does not store.
pub open spec fn cipher_of_row(row: CipherRowView) -> CipherView {
    CipherView {
        id: row.id,
        user_id: Some(row.user_id),
        organization_id: row.organization_id,
        cipher_type: row.cipher_type,
        data: row.data,
        favorite: row.favorite,
        folder_id: row.folder_id,
        deleted_at: row.deleted_at,
        created_at: row.created_at,
        updated_at: row.updated_at,
        object: "cipher"@,
        organization_use_totp: false,
        edit: true,
        view_password: true,
        collection_ids: None,
        attachments: None,
        key: None,
    }
}

/// The row under which a cipher of `owner` is stored.
pub open spec fn row_of_cipher(cipher: CipherView, owner: Seq<char>) -> CipherRowView {
    CipherRowView {
        id: cipher.id,
        user_id: owner,
        organization_id: cipher.organization_id,
        cipher_type: cipher.cipher_type,
        data: cipher.data,
        favorite: cipher.favorite,
        folder_id: cipher.folder_id,
        deleted_at: cipher.deleted_at,
        created_at: cipher.created_at,
        updated_at: cipher.updated_at,
    }
}

impl Cipher {
    /// The cipher that `row` stands for.
    pub fn from_row(row: CipherRow) -> (cipher: Cipher)
        ensures
            cipher@ == cipher_of_row(row@),
    {
        Cipher {
            id: row.id,
            user_id: Some(row.user_id),
            organization_id: row.organization_id,
            cipher_type: row.cipher_type,
            data: row.data,
            favorite: row.favorite,
            folder_id: row.folder_id,
            deleted_at: row.deleted_at,
            created_at: row.created_at,
            updated_at: row.updated_at,
            object: String::from_str("cipher"),
            organization_use_totp: false,
            edit: true,
            view_password: true,
            collection_ids: None,
            attachments: None,
            key: None,
        }
    }

    /// The row under which this cipher is stored for `owner`.
    pub fn to_row(&self, owner: &str) -> (row: CipherRow)
        ensures
            row@ == row_of_cipher(self@, owner@),
    {
        CipherRow {
            id: self.id.clone(),
            user_id: String::from_str(owner),
            organization_id: copy_opt_text(&self.organization_id),
            cipher_type: self.cipher_type,
            data: self.data.clone(),
            favorite: self.favorite,
            folder_id: copy_opt_text(&self.folder_id),
            deleted_at: copy_opt_text(&self.deleted_at),
            created_at: self.created_at.clone(),
            updated_at: self.updated_at.clone(),
        }
    }
}

/// What a caller supplies to create a cipher or to replace its contents.
#[derive(Debug, Clone, PartialEq, Eq)]
pub struct CipherRequestData {
    pub cipher_type: i32,
    pub organization_id: Option<String>,
    pub folder_id: Option<String>,
    pub favorite: bool,
    /// The encoded payload; `None` when the payload could not be encoded.
    pub data: Option<String>,
    pub collection_ids: Option<Vec<String>>,
}

/// The mathematical value of a [`CipherRequestData`].
pub struct CipherRequestDataView {
    pub cipher_type: i32,
    pub organization_id: Option<Seq<char>>,
    pub folder_id: Option<Seq<char>>,
    pub favorite: bool,
    pub data: Option<Seq<char>>,
    pub collection_ids: Option<Seq<Seq<char>>>,
}

impl View for CipherRequestData {
    type V = CipherRequestDataView;

    open spec fn view(&self) -> CipherRequestDataView {
        CipherRequestDataView {
            cipher_type: self.cipher_type,
            organization_id: opt_text(self.organization_id),
            folder_id: opt_text(self.folder_id),
            favorite: self.favorite,
            data: opt_text(self.data),
            collection_ids: opt_texts(self.collection_ids),
        }
    }
}

/// A creation request in its envelope: the cipher, and beside it the
/// collections to share it with.
#[derive(Debug, Clone, PartialEq, Eq)]
pub struct CreateCipherRequest {
    pub cipher: CipherRequestData,
    pub collection_ids: Vec<String>,
}

/// The mathematical value of a [`CreateCipherRequest`].
pub struct CreateCipherRequestView {
    pub cipher: CipherRequestDataView,
    pub collection_ids: Seq<Seq<char>>,
}

impl View for CreateCipherRequest {
    type V = CreateCipherRequestView;

    open spec fn view(&self) -> CreateCipherRequestView {
        CreateCipherRequestView { cipher: self.cipher@, collection_ids: texts(self.collection_ids@) }
    }
}

/// A change to the folder, the favorite mark, or both. A field left `None`
/// is left alone.
#[derive(Debug, Clone, PartialEq, Eq)]
pub struct PartialCipherUpdate {
    pub folder_id: Option<String>,
    pub favorite: Option<bool>,
}

/// The mathematical value of a [`PartialCipherUpdate`].
pub struct PartialCipherUpdateView {
    pub folder_id: Option<Seq<char>>,
    pub favorite: Option<bool>,
}

impl View for PartialCipherUpdate {
    type V = PartialCipherUpdateView;

    open spec fn view(&self) -> PartialCipherUpdateView {
        PartialCipherUpdateView { folder_id: opt_text(self.folder_id), favorite: self.favorite }
    }
}

} // verus!
