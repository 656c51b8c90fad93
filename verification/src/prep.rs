//! What the library asks of a backend in order to stream rows from it.
//!
//! A connection may be owned outright, shared under a reference count, or
//! leased from a pool. Whoever owns it in one of these ways implements
//! [`PrepareAndFetch`] once: the connection moves into a cursor that keeps
//! it alive for as long as the statement lives, and gives it up (or back to
//! the pool) when the cursor is dropped. The streaming logic itself is
//! written once, in [`crate::stream`], over any such cursor.

use vstd::prelude::*;
use crate::codec::RawRow;
use crate::error::DataError;

verus! {

/// What one step of a backend cursor gave.
#[derive(Debug, Clone, PartialEq, Eq)]
pub enum Fetched {
    /// The next row of the result.
    Row(RawRow),
    /// The step failed.
    Failed(DataError),
    /// The result has no more rows.
    Done,
}

/// A backend cursor over the rows of one executed statement.
///
/// The cursor owns its statement and whatever keeps the statement's
/// connection alive. Nothing is promised of what a step gives: that is the
/// backend's to decide.
pub trait RowSource {
    /// Advances the cursor by one row.
    fn fetch(&mut self) -> Fetched;
}

/// A connection, in whatever way it is owned, that can be turned into a
/// cursor over the rows of a statement.
pub trait PrepareAndFetch: Sized {
    /// The cursor that takes the connection over.
    type Cursor: RowSource;

    /// Prepares `sql` against the connection and executes it with no
    /// parameters bound. The connection moves into the cursor.
    fn prepare_and_fetch(self, sql: &str) -> Result<Self::Cursor, DataError>;
}

} // verus!
