//! Where the library leans on code that is not its own.
//!
//! The outside types declared here and the three functions that call into
//! outside code are taken on trust: the verifier reads their contracts and
//! not what stands behind them. The rest of the library is proved from
//! these contracts. The functions themselves stay within the crate; what a
//! call of one returned is spoken of outside through [`read_as`] and
//! [`printed_as`].

use vstd::prelude::*;
use crate::error::BackendFailure;
use crate::text::{is_prefix, joined};

verus! {

/// `rusqlite::Error`, the error of the SQLite binding. The library cannot
/// look into it.
#[verifier::external_type_specification]
#[verifier::external_body]
pub struct ExSqliteError(rusqlite::Error);

/// `r2d2::Error`, the error of the connection pool. The library cannot
/// look into it.
#[verifier::external_type_specification]
#[verifier::external_body]
pub struct ExPoolError(r2d2::Error);

/// Takes a `rusqlite::Error` apart. A `SqliteFailure` whose code is
/// `ConstraintViolation` gives `Constraint` with the message it carried;
/// every other error gives `Other` with what its `Display` prints. Nothing
/// is claimed of the result: it is read off a value that this library
/// cannot look into.
#[verifier::external_body]
pub(crate) fn read_sqlite_error(e: rusqlite::Error) -> (f: BackendFailure) {
    match e {
        rusqlite::Error::SqliteFailure(
            rusqlite::ffi::Error { code: rusqlite::ffi::ErrorCode::ConstraintViolation, .. },
            message,
        ) => BackendFailure::Constraint(message),
        other => BackendFailure::Other(other.to_string()),
    }
}

/// `f` is what taking the error `e` of the SQLite binding apart gave.
pub closed spec fn read_as(e: rusqlite::Error, f: BackendFailure) -> bool {
    call_ensures(read_sqlite_error, (e,), f)
}

/// What [`read_sqlite_error`] returned for `e` is a reading of `e`.
pub(crate) proof fn lemma_read_as(e: rusqlite::Error, f: BackendFailure)
    requires
        call_ensures(read_sqlite_error, (e,), f),
    ensures
        read_as(e, f),
{
}

/// The words with which every error of the connection pool begins when it
/// is printed.
pub open spec fn pool_description() -> Seq<char> {
    "timed out waiting for connection"@
}

/// What the `Display` of an `r2d2::Error` prints: the pool's fixed
/// description, "timed out waiting for connection", followed, where the
/// error carries a message, by a colon, a blank and that message. The
/// error cannot be looked into, so of the text only its beginning is
/// claimed.
#[verifier::external_body]
pub(crate) fn pool_error_text(e: &r2d2::Error) -> (text: String)
    ensures
        is_prefix(pool_description(), text@),
{
    e.to_string()
}

/// `text` is what printing the error `e` of the connection pool gave.
pub closed spec fn printed_as(e: r2d2::Error, text: String) -> bool {
    call_ensures(pool_error_text, (&e,), text)
}

/// What [`pool_error_text`] returned for `e` is a printing of `e`.
pub(crate) proof fn lemma_printed_as(e: r2d2::Error, text: String)
    requires
        call_ensures(pool_error_text, (&e,), text),
    ensures
        printed_as(e, text),
{
}

/// `itertools::Itertools::intersperse` over `count` copies of `item`, with
/// `sep` as the element put between, gathered into one string. The adaptor
/// hands out the items of the iterator it adapts with the element between
/// each two neighbours: here `count` copies of `item` with `sep` between
/// them, and nothing for a count of zero.
#[verifier::external_body]
pub(crate) fn interspersed(item: &str, sep: &str, count: usize) -> (out: String)
    ensures
        out@ == joined(Seq::new(count as nat, |i: int| item@), sep@),
{
    itertools::Itertools::intersperse(std::iter::repeat(item).take(count), sep).collect()
}

} // verus!
