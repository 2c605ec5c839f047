//! A catalogue of video cassettes kept in an SQLite table, with a list that
//! can be searched as the user types.
//!
//! - [`tape`]: the record, and the list of records with the newest first;
//! - [`text`]: upper case and the search for a run of characters;
//! - [`filter`]: which records a search term lets through;
//! - [`store`]: the table behind its connection, and the SQL;
//! - [`write`]: how a scan of the table is held against the write before it;
//! - [`catalog`]: the repository that the front end talks to;
//! - [`error`]: what can go wrong.

pub mod catalog;
pub mod error;
pub mod filter;
pub mod store;
pub mod tape;
pub mod text;
pub mod write;
