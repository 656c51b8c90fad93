//! The failures an operation can end in, and how backend diagnostics are
//! decoded into them.

use vstd::prelude::*;
use vstd::string::StringExecFns;
use crate::backend::{
    lemma_printed_as, lemma_read_as, pool_description, pool_error_text, printed_as, read_as,
    read_sqlite_error,
};
use crate::text::{chars_of, find_from, is_prefix, lemma_position_of, position_of, starts_with};

verus! {

/// Why an operation failed. Every failure ends the operation in progress.
#[derive(Debug, Clone, PartialEq, Eq)]
pub enum DataError {
    /// The backend failed; holds the failure as the backend prints it.
    Db(String),
    /// No connection could be had from the pool.
    DbPool(String),
    /// A write broke a uniqueness or integrity rule; holds the column when
    /// the diagnostic named one.
    ConstraintViolation(Option<String>),
    /// The named table does not exist.
    TableNotFound(String),
    /// The named table has no primary key column.
    NoPrimaryKey(String),
    /// The named table has more than one primary key column.
    CompositePrimaryKey(String),
    /// The payload lacks a value for the named column, which has no default.
    MissingValue(String),
    /// The payload is not an object.
    ExpectingObject,
    /// An array or an object was given where a column value is needed.
    UnsupportedValue,
}

/// The mathematical value of an [`DataError`].
pub enum DataErrorView {
    Db(Seq<char>),
    DbPool(Seq<char>),
    ConstraintViolation(Option<Seq<char>>),
    TableNotFound(Seq<char>),
    NoPrimaryKey(Seq<char>),
    CompositePrimaryKey(Seq<char>),
    MissingValue(Seq<char>),
    ExpectingObject,
    UnsupportedValue,
}

/// The view of an optional text.
pub open spec fn opt_text(t: Option<String>) -> Option<Seq<char>> {
    match t {
        Some(s) => Some(s@),
        None => None,
    }
}

impl View for DataError {
    type V = DataErrorView;

    open spec fn view(&self) -> DataErrorView {
        match self {
            DataError::Db(t) => DataErrorView::Db(t@),
            DataError::DbPool(t) => DataErrorView::DbPool(t@),
            DataError::ConstraintViolation(f) => DataErrorView::ConstraintViolation(opt_text(*f)),
            DataError::TableNotFound(t) => DataErrorView::TableNotFound(t@),
            DataError::NoPrimaryKey(t) => DataErrorView::NoPrimaryKey(t@),
            DataError::CompositePrimaryKey(t) => DataErrorView::CompositePrimaryKey(t@),
            DataError::MissingValue(f) => DataErrorView::MissingValue(f@),
            DataError::ExpectingObject => DataErrorView::ExpectingObject,
            DataError::UnsupportedValue => DataErrorView::UnsupportedValue,
        }
    }
}

/// What a failed backend call reported, as plain values.
#[derive(Debug, Clone, PartialEq, Eq)]
pub enum BackendFailure {
    /// The backend's result code was "constraint violation"; holds the
    /// diagnostic message when one came with it.
    Constraint(Option<String>),
    /// Any other failure, as the backend prints it.
    Other(String),
}

/// The mathematical value of a [`BackendFailure`].
pub enum BackendFailureView {
    Constraint(Option<Seq<char>>),
    Other(Seq<char>),
}

impl View for BackendFailure {
    type V = BackendFailureView;

    open spec fn view(&self) -> BackendFailureView {
        match self {
            BackendFailure::Constraint(m) => BackendFailureView::Constraint(opt_text(*m)),
            BackendFailure::Other(t) => BackendFailureView::Other(t@),
        }
    }
}

/// What a failure says to the caller: a message and, for a constraint
/// violation, the column at fault when it is known.
#[derive(Debug, Clone, PartialEq, Eq)]
pub struct ErrorBody {
    pub error: String,
    pub field: Option<String>,
}

/// The words every uniqueness diagnostic of the backend begins with.
pub const UNIQUE_PREFIX: &'static str = "UNIQUE constraint failed: ";

/// The column that a uniqueness diagnostic names.
///
/// A diagnostic reads `UNIQUE constraint failed: <table>.<column>`. The
/// column is what stands between the first dot after the prefix and the
/// next dot, or the end. A message without the prefix, or without a dot
/// after it, names no column.
pub open spec fn constraint_field(msg: Seq<char>) -> Option<Seq<char>> {
    if is_prefix(UNIQUE_PREFIX@, msg) {
        let rest = msg.skip(UNIQUE_PREFIX@.len() as int);
        let dot = position_of(rest, '.');
        if dot < rest.len() {
            let tail = rest.skip(dot + 1);
            Some(tail.take(position_of(tail, '.')))
        } else {
            None
        }
    } else {
        None
    }
}

/// The [`DataError`] that a backend failure becomes: a constraint violation
/// with the column its diagnostic names, or an opaque backend failure.
pub open spec fn classified(f: BackendFailureView) -> DataErrorView {
    match f {
        BackendFailureView::Constraint(Some(msg)) => DataErrorView::ConstraintViolation(
            constraint_field(msg),
        ),
        BackendFailureView::Constraint(None) => DataErrorView::ConstraintViolation(None),
        BackendFailureView::Other(text) => DataErrorView::Db(text),
    }
}

/// The message that a failure shows to the caller.
pub open spec fn message_of(e: DataErrorView) -> Seq<char> {
    match e {
        DataErrorView::Db(text) => text,
        DataErrorView::DbPool(text) => text,
        DataErrorView::ConstraintViolation(_) => "Constraint violation"@,
        DataErrorView::TableNotFound(t) => "Table \""@ + t + "\" not found"@,
        DataErrorView::MissingValue(f) => "Value for field \""@ + f + "\" is missing"@,
        DataErrorView::NoPrimaryKey(t) => "Table \""@ + t
            + "\" does not have a primary key column"@,
        DataErrorView::CompositePrimaryKey(t) => "Table \""@ + t
            + "\" has composite primary key, which is not supported"@,
        DataErrorView::ExpectingObject => "Input format should be a Json object"@,
        DataErrorView::UnsupportedValue => "Structured values cannot be stored in a column"@,
    }
}

/// The column that a failure points at.
pub open spec fn field_of(e: DataErrorView) -> Option<Seq<char>> {
    match e {
        DataErrorView::ConstraintViolation(f) => f,
        _ => None,
    }
}

/// Whether the caller's input caused the failure, rather than the backend
/// or the environment.
pub open spec fn caller_fault(e: DataErrorView) -> bool {
    !(e is Db) && !(e is DbPool)
}

/// Extracts the column from a uniqueness diagnostic of the backend.
pub fn get_fieldname_from_constraint_violation_message(msg: String) -> (field: Option<String>)
    ensures
        opt_text(field) == constraint_field(msg@),
{
    let chars = chars_of(msg.as_str());
    let prefix = chars_of(UNIQUE_PREFIX);
    if !starts_with(&chars, &prefix) {
        return None;
    }
    let start = prefix.len();
    let dot = find_from(&chars, '.', start);
    if dot == chars.len() {
        return None;
    }
    let begin = dot + 1;
    let end = find_from(&chars, '.', begin);
    proof {
        let rest = msg@.skip(start as int);
        assert(rest.skip(dot - start + 1) =~= msg@.skip(begin as int));
        lemma_position_of(msg@.skip(begin as int), '.');
        assert(msg@.skip(begin as int).take(end - begin) =~= msg@.subrange(
            begin as int,
            end as int,
        ));
    }
    Some(msg.as_str().substring_char(begin, end).to_owned())
}

/// A copy of an optional text.
fn copy_opt(t: &Option<String>) -> (c: Option<String>)
    ensures
        opt_text(c) == opt_text(*t),
{
    match t {
        Some(s) => Some(s.clone()),
        None => None,
    }
}

impl DataError {
    /// Decodes a backend failure.
    pub fn classify(failure: BackendFailure) -> (e: DataError)
        ensures
            e@ == classified(failure@),
    {
        match failure {
            BackendFailure::Constraint(Some(msg)) => DataError::ConstraintViolation(
                get_fieldname_from_constraint_violation_message(msg),
            ),
            BackendFailure::Constraint(None) => DataError::ConstraintViolation(None),
            BackendFailure::Other(text) => DataError::Db(text),
        }
    }

    /// The failure that an error of the SQLite binding stands for: the
    /// binding's error is taken apart, and what that reading of it becomes
    /// is what [`DataError::classify`] says.
    pub fn from_sqlite(e: rusqlite::Error) -> (r: DataError)
        ensures
            exists|f: BackendFailure| #[trigger] read_as(e, f) && r@ == classified(f@),
            r@ is ConstraintViolation || r@ is Db,
    {
        let failure = read_sqlite_error(e);
        proof {
            lemma_read_as(e, failure);
        }
        DataError::classify(failure)
    }

    /// The failure that an error of the connection pool stands for: a pool
    /// failure that holds what the pool's error prints, which begins with
    /// the pool's fixed description.
    pub fn from_pool(e: r2d2::Error) -> (r: DataError)
        ensures
            r matches DataError::DbPool(text) && printed_as(e, text) && is_prefix(
                pool_description(),
                text@,
            ),
    {
        let text = pool_error_text(&e);
        proof {
            lemma_printed_as(e, text);
        }
        DataError::DbPool(text)
    }

    /// Whether the caller's input caused the failure.
    pub fn is_caller_fault(&self) -> (b: bool)
        ensures
            b == caller_fault(self@),
    {
        match self {
            DataError::Db(_) => false,
            DataError::DbPool(_) => false,
            _ => true,
        }
    }

    /// The message and column to show to the caller.
    pub fn body(&self) -> (b: ErrorBody)
        ensures
            b.error@ == message_of(self@),
            opt_text(b.field) == field_of(self@),
    {
        match self {
            DataError::Db(text) => ErrorBody { error: text.clone(), field: None },
            DataError::DbPool(text) => ErrorBody { error: text.clone(), field: None },
            DataError::ConstraintViolation(field) => ErrorBody {
                error: String::from_str("Constraint violation"),
                field: copy_opt(field),
            },
            DataError::TableNotFound(t) => ErrorBody {
                error: String::from_str("Table \"").concat(t.as_str()).concat("\" not found"),
                field: None,
            },
            DataError::MissingValue(f) => ErrorBody {
                error: String::from_str("Value for field \"").concat(f.as_str()).concat(
                    "\" is missing",
                ),
                field: None,
            },
            DataError::NoPrimaryKey(t) => ErrorBody {
                error: String::from_str("Table \"").concat(t.as_str()).concat(
                    "\" does not have a primary key column",
                ),
                field: None,
            },
            DataError::CompositePrimaryKey(t) => ErrorBody {
                error: String::from_str("Table \"").concat(t.as_str()).concat(
                    "\" has composite primary key, which is not supported",
                ),
                field: None,
            },
            DataError::ExpectingObject => ErrorBody {
                error: String::from_str("Input format should be a Json object"),
                field: None,
            },
            DataError::UnsupportedValue => ErrorBody {
                error: String::from_str("Structured values cannot be stored in a column"),
                field: None,
            },
        }
    }
}

} // verus!
