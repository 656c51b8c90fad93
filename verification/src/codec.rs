//! Conversion between the caller's dynamic values and the values that the
//! backend binds as parameters and reports in columns.

use vstd::prelude::*;
use vstd::string::StringExecFns;
use crate::error::{DataError, DataErrorView};
use crate::value::{
    distinct_names, find_member, member, members_view, real_is_finite, Number, Value, ValueView,
};

verus! {

/// A value as the backend binds and reports it.
#[derive(Debug, Clone, PartialEq, Eq)]
pub enum SqlValue {
    Null,
    Integer(i64),
    /// A double, by its IEEE 754 bit pattern.
    Real(u64),
    Text(String),
    Blob(Vec<u8>),
}

/// The mathematical value of a [`SqlValue`].
pub enum SqlValueView {
    Null,
    Integer(i64),
    Real(u64),
    Text(Seq<char>),
    Blob(Seq<u8>),
}

impl View for SqlValue {
    type V = SqlValueView;

    open spec fn view(&self) -> SqlValueView {
        match self {
            SqlValue::Null => SqlValueView::Null,
            SqlValue::Integer(i) => SqlValueView::Integer(*i),
            SqlValue::Real(bits) => SqlValueView::Real(*bits),
            SqlValue::Text(s) => SqlValueView::Text(s@),
            SqlValue::Blob(b) => SqlValueView::Blob(b@),
        }
    }
}

/// One row as the backend reports it: each column's name with its value, in
/// the backend's order.
#[derive(Debug, Clone, PartialEq, Eq)]
pub struct RawRow {
    pub cells: Vec<(String, SqlValue)>,
}

impl View for RawRow {
    type V = Seq<(Seq<char>, SqlValueView)>;

    open spec fn view(&self) -> Seq<(Seq<char>, SqlValueView)> {
        self.cells@.map_values(|c: (String, SqlValue)| (c.0@, c.1@))
    }
}

/// The signed integer with the same 64 bits as `u`.
pub open spec fn wrapped(u: u64) -> i64 {
    if u <= i64::MAX {
        u as i64
    } else {
        (u - 0x1_0000_0000_0000_0000) as i64
    }
}

/// The parameter that a value is bound as.
///
/// A number has exactly one form: a double stays a double, and an integer of
/// either sign becomes a signed 64-bit integer (an unsigned one above the
/// signed range keeps its bits). A truth value becomes 0 or 1. Arrays and
/// objects cannot be bound.
pub open spec fn parameter_of(v: ValueView) -> Result<SqlValueView, DataErrorView> {
    match v {
        ValueView::Null => Ok(SqlValueView::Null),
        ValueView::Bool(b) => Ok(
            SqlValueView::Integer(
                if b {
                    1
                } else {
                    0
                },
            ),
        ),
        ValueView::Number(Number::PosInt(u)) => Ok(SqlValueView::Integer(wrapped(u))),
        ValueView::Number(Number::NegInt(i)) => Ok(SqlValueView::Integer(i)),
        ValueView::Number(Number::Float(bits)) => Ok(SqlValueView::Real(bits)),
        ValueView::String(s) => Ok(SqlValueView::Text(s)),
        ValueView::Array(_) => Err(DataErrorView::UnsupportedValue),
        ValueView::Object(_) => Err(DataErrorView::UnsupportedValue),
    }
}

/// The placeholder that stands for the bytes of a blob column.
pub open spec fn blob_placeholder() -> Seq<char> {
    "<blob>"@
}

/// The value that a column's content is reported as.
///
/// A double that is infinite or not a number has no place among the
/// caller's numbers and is reported as null. A blob is reported as a fixed
/// placeholder, not by its bytes.
pub open spec fn value_of(c: SqlValueView) -> ValueView {
    match c {
        SqlValueView::Null => ValueView::Null,
        SqlValueView::Integer(i) => ValueView::Number(Number::of_int(i)),
        SqlValueView::Real(bits) => if real_is_finite(bits) {
            ValueView::Number(Number::Float(bits))
        } else {
            ValueView::Null
        },
        SqlValueView::Text(s) => ValueView::String(s),
        SqlValueView::Blob(_) => ValueView::String(blob_placeholder()),
    }
}

/// The members of the object that a row is reported as: one per column, in
/// the row's order.
pub open spec fn row_members(row: Seq<(Seq<char>, SqlValueView)>) -> Seq<(Seq<char>, ValueView)> {
    row.map_values(|c: (Seq<char>, SqlValueView)| (c.0, value_of(c.1)))
}

/// No two columns of the row bear the same name.
pub open spec fn distinct_columns(row: Seq<(Seq<char>, SqlValueView)>) -> bool {
    forall|i: int, j: int| 0 <= i < j < row.len() ==> (#[trigger] row[i]).0 != (#[trigger] row[j]).0
}

/// A row is reported under the names of its columns, in their order, so a
/// row whose columns have distinct names is reported as a mapping.
pub proof fn lemma_row_stays_a_mapping(row: Seq<(Seq<char>, SqlValueView)>)
    ensures
        row_members(row).len() == row.len(),
        forall|i: int| 0 <= i < row.len() ==> (#[trigger] row_members(row)[i]).0 == row[i].0,
        distinct_columns(row) ==> distinct_names(row_members(row)),
{
    let members = row_members(row);
    if distinct_columns(row) {
        assert forall|i: int, j: int| 0 <= i < j < members.len() implies (#[trigger] members[i]).0
            != (#[trigger] members[j]).0 by {
            assert(members[i].0 == row[i].0);
            assert(members[j].0 == row[j].0);
        }
    }
}

/// The parameter bound for the column `name` out of the members of a
/// payload.
pub open spec fn bound(members: Seq<(Seq<char>, ValueView)>, name: Seq<char>) -> Result<
    SqlValueView,
    DataErrorView,
> {
    match member(members, name) {
        Some(v) => parameter_of(v),
        None => Err(DataErrorView::MissingValue(name)),
    }
}

/// The parameters bound for `columns`, in order; the first column that
/// cannot be bound decides the failure.
pub open spec fn bound_all(members: Seq<(Seq<char>, ValueView)>, columns: Seq<Seq<char>>) -> Result<
    Seq<SqlValueView>,
    DataErrorView,
>
    decreases columns.len(),
{
    if columns.len() == 0 {
        Ok(Seq::empty())
    } else {
        match bound_all(members, columns.drop_last()) {
            Err(e) => Err(e),
            Ok(done) => match bound(members, columns.last()) {
                Err(e) => Err(e),
                Ok(p) => Ok(done.push(p)),
            },
        }
    }
}

/// What a value means once stored: the backend keeps no truth values and
/// does not tell an unsigned integer from a signed one.
pub enum Scalar {
    Null,
    Integer(int),
    Real(u64),
    Text(Seq<char>),
}

/// The meaning of a scalar value; arrays and objects have none here.
pub open spec fn meaning(v: ValueView) -> Option<Scalar> {
    match v {
        ValueView::Null => Some(Scalar::Null),
        ValueView::Bool(b) => Some(
            Scalar::Integer(
                if b {
                    1
                } else {
                    0
                },
            ),
        ),
        ValueView::Number(Number::PosInt(u)) => Some(Scalar::Integer(u as int)),
        ValueView::Number(Number::NegInt(i)) => Some(Scalar::Integer(i as int)),
        ValueView::Number(Number::Float(bits)) => Some(Scalar::Real(bits)),
        ValueView::String(s) => Some(Scalar::Text(s)),
        ValueView::Array(_) => None,
        ValueView::Object(_) => None,
    }
}

/// The views of a sequence of parameters.
pub open spec fn parameters_view(ps: Seq<SqlValue>) -> Seq<SqlValueView> {
    ps.map_values(|p: SqlValue| p@)
}

/// A scalar that is bound and then read back means what it meant before:
/// null stays null, a text keeps its characters, an integer stays that
/// integer and a double stays that double. All but truth values come back
/// as the very same value.
///
/// This holds of well-formed numbers, and of unsigned integers only up to
/// the largest signed one.
pub proof fn law_scalar_round_trip(v: ValueView)
    requires
        v.is_scalar(),
        v matches ValueView::Number(n) ==> n.wf(),
        v matches ValueView::Number(Number::PosInt(u)) ==> u <= i64::MAX,
    ensures
        parameter_of(v) is Ok,
        meaning(value_of(parameter_of(v)->Ok_0)) == meaning(v),
        !(v is Bool) ==> value_of(parameter_of(v)->Ok_0) == v,
{
}

/// The parameter that `v` is bound as.
pub fn to_parameter(v: &Value) -> (r: Result<SqlValue, DataError>)
    ensures
        match r {
            Ok(p) => parameter_of(v@) == Ok::<SqlValueView, DataErrorView>(p@),
            Err(e) => parameter_of(v@) == Err::<SqlValueView, DataErrorView>(e@),
        },
{
    match v {
        Value::Null => Ok(SqlValue::Null),
        Value::Bool(b) => Ok(
            SqlValue::Integer(
                if *b {
                    1
                } else {
                    0
                },
            ),
        ),
        Value::Number(Number::PosInt(u)) => {
            if *u <= 0x7fff_ffff_ffff_ffff {
                Ok(SqlValue::Integer(*u as i64))
            } else {
                let low: i64 = (*u - 0x8000_0000_0000_0000) as i64;
                Ok(SqlValue::Integer(low + i64::MIN))
            }
        },
        Value::Number(Number::NegInt(i)) => Ok(SqlValue::Integer(*i)),
        Value::Number(Number::Float(bits)) => Ok(SqlValue::Real(*bits)),
        Value::String(s) => Ok(SqlValue::Text(s.clone())),
        Value::Array(_) => Err(DataError::UnsupportedValue),
        Value::Object(_) => Err(DataError::UnsupportedValue),
    }
}

/// The value that the column content `c` is reported as.
pub fn from_column(c: SqlValue) -> (v: Value)
    ensures
        v@ == value_of(c@),
{
    match c {
        SqlValue::Null => Value::Null,
        SqlValue::Integer(i) => Value::Number(Number::from_i64(i)),
        SqlValue::Real(bits) => match Number::from_real_bits(bits) {
            Some(n) => Value::Number(n),
            None => Value::Null,
        },
        SqlValue::Text(s) => Value::String(s),
        SqlValue::Blob(_) => Value::String(String::from_str("<blob>")),
    }
}

/// The object that a row is reported as: one member per column, in the
/// row's order, each column's content converted by [`from_column`].
pub fn sql_to_json(row: RawRow) -> (v: Value)
    ensures
        v@ == ValueView::Object(row_members(row@)),
        distinct_columns(row@) ==> distinct_names(row_members(row@)),
{
    proof {
        lemma_row_stays_a_mapping(row@);
    }
    let ghost whole = row@;
    let mut cells = row.cells;
    let mut members: Vec<(String, Value)> = Vec::new();
    let mut rest: Vec<(String, SqlValue)> = Vec::new();
    // Taken from the back so that each cell is moved, not copied.
    while cells.len() > 0
        invariant
            rest@.len() + cells@.len() == whole.len(),
            forall|i: int|
                0 <= i < cells@.len() ==> (#[trigger] cells@[i]).0@ == whole[i].0 && cells@[i].1@
                    == whole[i].1,
            forall|j: int|
                0 <= j < rest@.len() ==> (#[trigger] rest@[j]).0@ == whole[whole.len() - 1 - j].0
                    && rest@[j].1@ == whole[whole.len() - 1 - j].1,
        decreases cells@.len(),
    {
        let cell = cells.pop().unwrap();
        rest.push(cell);
    }
    while rest.len() > 0
        invariant
            members@.len() + rest@.len() == whole.len(),
            forall|j: int|
                0 <= j < rest@.len() ==> (#[trigger] rest@[j]).0@ == whole[whole.len() - 1 - j].0
                    && rest@[j].1@ == whole[whole.len() - 1 - j].1,
            forall|i: int|
                0 <= i < members@.len() ==> (#[trigger] members@[i]).0@ == whole[i].0
                    && members@[i].1@ == value_of(whole[i].1),
        decreases rest@.len(),
    {
        let (name, content) = rest.pop().unwrap();
        members.push((name, from_column(content)));
    }
    proof {
        crate::value::lemma_object_view(members);
        assert(members_view(members@) =~= row_members(whole));
    }
    Value::Object(members)
}

/// Walks the columns of an insert and hands out, one per call, the parameter
/// bound for each column from the members of the payload.
pub struct ToSqlIter<'a> {
    columns: &'a Vec<String>,
    values: &'a Vec<(String, Value)>,
    at: usize,
}

impl<'a> ToSqlIter<'a> {
    /// The names of the columns walked.
    pub closed spec fn columns(&self) -> Seq<Seq<char>> {
        crate::text::texts(self.columns@)
    }

    /// The members that the parameters are taken from.
    pub closed spec fn members(&self) -> Seq<(Seq<char>, ValueView)> {
        members_view(self.values@)
    }

    /// How many columns have been handed out.
    pub closed spec fn position(&self) -> nat {
        self.at as nat
    }

    /// A walk over `columns` that takes its parameters from `values`,
    /// starting at the first column.
    pub fn new(columns: &'a Vec<String>, values: &'a Vec<(String, Value)>) -> (it: Self)
        ensures
            it.columns() == crate::text::texts(columns@),
            it.members() == members_view(values@),
            it.position() == 0,
    {
        ToSqlIter { columns, values, at: 0 }
    }

    /// The parameter for the next column, or `None` after the last one. A
    /// column without a member fails with `MissingValue`, a member that is an
    /// array or an object with `UnsupportedValue`; the walk goes on either
    /// way.
    pub fn next(&mut self) -> (r: Option<Result<SqlValue, DataError>>)
        ensures
            final(self).columns() == old(self).columns(),
            final(self).members() == old(self).members(),
            old(self).position() >= old(self).columns().len() ==> {
                &&& r is None
                &&& final(self).position() == old(self).position()
            },
            old(self).position() < old(self).columns().len() ==> {
                let name = old(self).columns()[old(self).position() as int];
                &&& final(self).position() == old(self).position() + 1
                &&& match r {
                    Some(Ok(p)) => bound(old(self).members(), name) == Ok::<
                        SqlValueView,
                        DataErrorView,
                    >(p@),
                    Some(Err(e)) => bound(old(self).members(), name) == Err::<
                        SqlValueView,
                        DataErrorView,
                    >(e@),
                    None => false,
                }
            },
    {
        if self.at >= self.columns.len() {
            return None;
        }
        let name = &self.columns[self.at];
        self.at = self.at + 1;
        match find_member(self.values, name.as_str()) {
            Some(i) => Some(to_parameter(&self.values[i].1)),
            None => Some(Err(DataError::MissingValue(name.clone()))),
        }
    }
}

/// The parameters for `columns` out of the members `values`, in order.
pub fn bind_all(columns: &Vec<String>, values: &Vec<(String, Value)>) -> (r: Result<
    Vec<SqlValue>,
    DataError,
>)
    ensures
        match r {
            Ok(ps) => bound_all(members_view(values@), crate::text::texts(columns@)) == Ok::<
                Seq<SqlValueView>,
                DataErrorView,
            >(parameters_view(ps@)),
            Err(e) => bound_all(members_view(values@), crate::text::texts(columns@)) == Err::<
                Seq<SqlValueView>,
                DataErrorView,
            >(e@),
        },
{
    let ghost names = crate::text::texts(columns@);
    let ghost members = members_view(values@);
    let mut it = ToSqlIter::new(columns, values);
    let mut out: Vec<SqlValue> = Vec::new();
    assert(parameters_view(out@) =~= Seq::empty());
    assert(names.take(0) =~= Seq::empty());
    loop
        invariant
            names == crate::text::texts(columns@),
            members == members_view(values@),
            it.columns() == names,
            it.members() == members,
            it.position() == out@.len(),
            it.position() <= names.len(),
            bound_all(members, names.take(out@.len() as int)) == Ok::<
                Seq<SqlValueView>,
                DataErrorView,
            >(parameters_view(out@)),
        decreases names.len() - it.position(),
    {
        let ghost k = out@.len() as int;
        let ghost before = parameters_view(out@);
        match it.next() {
            None => {
                assert(names.take(k) =~= names);
                return Ok(out);
            },
            Some(Ok(p)) => {
                out.push(p);
                proof {
                    assert(names.take(k + 1).drop_last() =~= names.take(k));
                    assert(names.take(k + 1).last() == names[k]);
                    assert(parameters_view(out@) =~= before.push(p@));
                }
            },
            Some(Err(e)) => {
                proof {
                    assert(names.take(k + 1).drop_last() =~= names.take(k));
                    assert(names.take(k + 1).last() == names[k]);
                    lemma_bound_all_fails(members, names, k + 1);
                }
                return Err(e);
            },
        }
    }
}

/// Once a prefix of the columns fails to bind, the whole list fails in the
/// same way.
pub proof fn lemma_bound_all_fails(
    members: Seq<(Seq<char>, ValueView)>,
    columns: Seq<Seq<char>>,
    k: int,
)
    requires
        0 <= k <= columns.len(),
        bound_all(members, columns.take(k)) is Err,
    ensures
        bound_all(members, columns) == bound_all(members, columns.take(k)),
    decreases columns.len() - k,
{
    if k == columns.len() {
        assert(columns.take(k) =~= columns);
    } else {
        assert(columns.take(k + 1).drop_last() =~= columns.take(k));
        lemma_bound_all_fails(members, columns, k + 1);
    }
}

} // verus!
