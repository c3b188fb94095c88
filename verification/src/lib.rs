//! Clipboard history: captured clipboard texts in one SQLite database, found
//! again by id, by recency, by label or by a full-text search.
//!
//! - [`models`]: content types, entries and errors.
//! - [`db`]: the operations of the store.
//! - [`commands`]: the rules of the commands and how entries are shown.
//! - [`clipboard`]: what is made of a read of the platform's clipboard.
//! - [`sql`], [`rows`], [`schema`]: the statements handed to the store, the
//!   meaning of the rows it hands back, and its schema.
//! - [`sqlite`], [`clock`]: the SQLite database and the calendar, which other
//!   crates supply.
//! - [`text`]: numbers as text, trimming and the order of texts.

pub mod models;
pub mod text;
pub mod sql;
pub mod clock;
pub mod sqlite;
pub mod schema;
pub mod rows;
pub mod db;
pub mod clipboard;
pub mod commands;
