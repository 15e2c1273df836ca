//! A vault of encrypted secret items.
//!
//! The crate keeps the rules by which ciphers and folders are created,
//! changed, tombstoned, restored and removed on behalf of an owning
//! principal, and derives from their timestamps the single revision date
//! that clients poll to learn whether they have to synchronise.
//!
//! Every operation is stated against a mathematical model of the tables, a
//! map from primary key to row, and proved to follow it.
//!
//! - [`cipher`], [`folders`], [`users`]: the rows and what callers see of
//!   them.
//! - [`rows`], [`table`], [`statement`]: tables in memory and the statements
//!   that run against them.
//! - [`plan`], [`ciphers`]: the life of a cipher, as plans that any store can
//!   carry out and as operations on the table in memory.
//! - [`laws`]: what holds of that life whatever the table.
//! - [`revision`], [`accounts`], [`allowlist`]: the revision date, prelogin
//!   and sign-up.
//! - [`clock`], [`ident`], [`unicode`]: what is taken on trust from `chrono`,
//!   `uuid` and the standard library.

pub mod accounts;
pub mod allowlist;
pub mod cipher;
pub mod ciphers;
pub mod clock;
pub mod error;
pub mod folders;
pub mod ident;
pub mod laws;
pub mod plan;
pub mod revision;
pub mod rows;
pub mod statement;
pub mod table;
pub mod text;
pub mod unicode;
pub mod users;
