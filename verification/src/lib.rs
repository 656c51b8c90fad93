//! A schema-driven data-access layer for the tables of an SQLite database.
//!
//! Given a table's name, the library describes the table from the
//! backend's catalog, converts between the caller's dynamic values and the
//! values the backend binds and reports, plans single-row inserts and
//! deletes against the table's columns, decodes the backend's constraint
//! diagnostics, and streams a statement's rows one pull at a time.
//!
//! The library itself never talks to a database. It says what to ask
//! ([`flow`]) and pulls from a cursor that the owner of the connection
//! provides ([`prep`], [`stream`]).

pub mod backend;
pub mod codec;
pub mod error;
pub mod flow;
pub mod plan;
pub mod prep;
pub mod schema;
pub mod stream;
pub mod text;
pub mod value;
