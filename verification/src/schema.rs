//! The columns of a table, as the backend's catalog describes them.
//!
//! The catalog is asked afresh for every operation: nothing here is kept
//! from one call to the next.

use vstd::prelude::*;
use vstd::string::StringExecFns;
use crate::error::opt_text;

verus! {

/// One line of the backend's column listing for a table, as it was read.
#[derive(Debug, Clone, PartialEq, Eq)]
pub struct RawColumn {
    pub name: String,
    /// The type the column was declared with.
    pub ty: String,
    /// 1 when the column was declared `NOT NULL`.
    pub not_null: i32,
    /// The default's expression, when the column has one.
    pub dflt_value: Option<String>,
    /// 0 for a column outside the primary key, else the column's place in
    /// the key, counted from 1.
    pub pk: i32,
}

/// The mathematical value of a [`RawColumn`].
pub struct RawColumnView {
    pub name: Seq<char>,
    pub ty: Seq<char>,
    pub not_null: i32,
    pub dflt_value: Option<Seq<char>>,
    pub pk: i32,
}

impl View for RawColumn {
    type V = RawColumnView;

    open spec fn view(&self) -> RawColumnView {
        RawColumnView {
            name: self.name@,
            ty: self.ty@,
            not_null: self.not_null,
            dflt_value: opt_text(self.dflt_value),
            pk: self.pk,
        }
    }
}

/// What the library knows of one column.
#[derive(Debug, Clone, PartialEq, Eq)]
pub struct ColumnDesc {
    pub name: String,
    pub ty: String,
    pub not_null: bool,
    pub has_dflt_value: bool,
    pub pk: bool,
}

/// The mathematical value of a [`ColumnDesc`].
pub struct ColumnView {
    pub name: Seq<char>,
    pub ty: Seq<char>,
    pub not_null: bool,
    pub has_dflt_value: bool,
    pub pk: bool,
}

impl View for ColumnDesc {
    type V = ColumnView;

    open spec fn view(&self) -> ColumnView {
        ColumnView {
            name: self.name@,
            ty: self.ty@,
            not_null: self.not_null,
            has_dflt_value: self.has_dflt_value,
            pk: self.pk,
        }
    }
}

/// The views of a table's columns.
pub open spec fn columns_view(cols: Seq<ColumnDesc>) -> Seq<ColumnView> {
    cols.map_values(|c: ColumnDesc| c@)
}

/// The views of a column listing.
pub open spec fn listing_view(raw: Seq<RawColumn>) -> Seq<RawColumnView> {
    raw.map_values(|c: RawColumn| c@)
}

/// The views of an optional schema.
pub open spec fn schema_view(schema: Option<Vec<ColumnDesc>>) -> Option<Seq<ColumnView>> {
    match schema {
        Some(cols) => Some(columns_view(cols@)),
        None => None,
    }
}

/// The column that one line of the listing describes. Every column of a
/// primary key is marked, whatever its place in the key.
pub open spec fn described(raw: RawColumnView) -> ColumnView {
    ColumnView {
        name: raw.name,
        ty: raw.ty,
        not_null: raw.not_null == 1,
        has_dflt_value: raw.dflt_value is Some,
        pk: raw.pk >= 1,
    }
}

/// The columns that a listing describes, in the listing's order.
pub open spec fn described_all(raw: Seq<RawColumnView>) -> Seq<ColumnView> {
    raw.map_values(|c: RawColumnView| described(c))
}

/// The names of the primary key columns, in the table's order.
pub open spec fn key_names(cols: Seq<ColumnView>) -> Seq<Seq<char>>
    decreases cols.len(),
{
    if cols.len() == 0 {
        Seq::empty()
    } else {
        let before = key_names(cols.drop_last());
        if cols.last().pk {
            before.push(cols.last().name)
        } else {
            before
        }
    }
}

/// The query whose single number says how many tables bear the name bound
/// to its one parameter.
pub open spec fn table_count_query() -> Seq<char> {
    "SELECT count(*) FROM sqlite_master WHERE type = 'table' AND name = ?"@
}

/// The query that lists the columns of `table`.
pub open spec fn table_info_query(table: Seq<char>) -> Seq<char> {
    "PRAGMA table_info("@ + table + ")"@
}

/// What the primary key of a table looks like.
#[derive(Debug, Clone, PartialEq, Eq)]
pub enum PrimaryKey {
    /// No column belongs to a primary key.
    Absent,
    /// Exactly one column is the primary key; holds its name.
    Single(String),
    /// The primary key spans more than one column.
    Composite,
}

impl ColumnDesc {
    /// The column that the line `raw` of the listing describes.
    pub fn from_raw(raw: RawColumn) -> (c: ColumnDesc)
        ensures
            c@ == described(raw@),
    {
        let has_dflt_value = raw.dflt_value.is_some();
        ColumnDesc {
            name: raw.name,
            ty: raw.ty,
            not_null: raw.not_null == 1,
            has_dflt_value,
            pk: raw.pk >= 1,
        }
    }
}

/// The text of [`table_count_query`].
pub fn table_count_sql() -> (sql: String)
    ensures
        sql@ == table_count_query(),
{
    String::from_str("SELECT count(*) FROM sqlite_master WHERE type = 'table' AND name = ?")
}

/// The text of [`table_info_query`] for `table`.
pub fn table_info_sql(table: &str) -> (sql: String)
    ensures
        sql@ == table_info_query(table@),
{
    String::from_str("PRAGMA table_info(").concat(table).concat(")")
}

/// Whether a table exists, given the number that [`table_count_query`]
/// returned for its name. A table that does not exist is an ordinary
/// answer, not a failure.
pub fn table_exists(count: i64) -> (exists: bool)
    ensures
        exists == (count != 0),
{
    count != 0
}

/// The columns that a listing describes, in the listing's order.
pub fn describe_columns(listing: Vec<RawColumn>) -> (cols: Vec<ColumnDesc>)
    ensures
        columns_view(cols@) == described_all(listing_view(listing@)),
{
    let ghost whole = listing_view(listing@);
    let mut listing = listing;
    let mut reversed: Vec<RawColumn> = Vec::new();
    // Taken from the back so that each line is moved, not copied.
    while listing.len() > 0
        invariant
            reversed@.len() + listing@.len() == whole.len(),
            forall|i: int| 0 <= i < listing@.len() ==> (#[trigger] listing@[i])@ == whole[i],
            forall|j: int|
                0 <= j < reversed@.len() ==> (#[trigger] reversed@[j])@ == whole[whole.len() - 1
                    - j],
        decreases listing@.len(),
    {
        let line = listing.pop().unwrap();
        reversed.push(line);
    }
    let mut cols: Vec<ColumnDesc> = Vec::new();
    while reversed.len() > 0
        invariant
            cols@.len() + reversed@.len() == whole.len(),
            forall|j: int|
                0 <= j < reversed@.len() ==> (#[trigger] reversed@[j])@ == whole[whole.len() - 1
                    - j],
            forall|i: int| 0 <= i < cols@.len() ==> (#[trigger] cols@[i])@ == described(whole[i]),
        decreases reversed@.len(),
    {
        let line = reversed.pop().unwrap();
        cols.push(ColumnDesc::from_raw(line));
    }
    assert(columns_view(cols@) =~= described_all(whole));
    cols
}

/// The schema of a table from what the catalog returned for it: `None`
/// when no table bears the name, else the listed columns in the listing's
/// order.
pub fn table_columns(count: i64, listing: Vec<RawColumn>) -> (schema: Option<Vec<ColumnDesc>>)
    ensures
        schema_view(schema) == if count == 0 {
            None
        } else {
            Some(described_all(listing_view(listing@)))
        },
{
    if table_exists(count) {
        Some(describe_columns(listing))
    } else {
        None
    }
}

/// Adding a column to a table adds its name to the key names exactly when
/// the column belongs to the key.
pub proof fn lemma_key_names_push(cols: Seq<ColumnView>, c: ColumnView)
    ensures
        key_names(cols.push(c)) == if c.pk {
            key_names(cols).push(c.name)
        } else {
            key_names(cols)
        },
{
    assert(cols.push(c).drop_last() =~= cols);
}

/// The shape of the primary key of the table with columns `cols`.
pub fn primary_key(cols: &Vec<ColumnDesc>) -> (key: PrimaryKey)
    ensures
        match key {
            PrimaryKey::Absent => key_names(columns_view(cols@)).len() == 0,
            PrimaryKey::Single(name) => key_names(columns_view(cols@)) == seq![name@],
            PrimaryKey::Composite => key_names(columns_view(cols@)).len() >= 2,
        },
{
    let ghost all = columns_view(cols@);
    let mut found: Option<usize> = None;
    let mut i: usize = 0;
    assert(all.take(0) =~= Seq::empty());
    while i < cols.len()
        invariant
            i <= cols.len(),
            all == columns_view(cols@),
            match found {
                None => key_names(all.take(i as int)).len() == 0,
                Some(at) => at < i && key_names(all.take(i as int)) == seq![cols@[at as int].name@],
            },
        decreases cols.len() - i,
    {
        proof {
            lemma_key_names_push(all.take(i as int), all[i as int]);
            assert(all.take(i as int).push(all[i as int]) =~= all.take(i + 1));
        }
        if cols[i].pk {
            if found.is_some() {
                proof {
                    lemma_key_names_grow(all, i + 1);
                }
                return PrimaryKey::Composite;
            }
            found = Some(i);
        }
        i += 1;
    }
    assert(all.take(cols@.len() as int) =~= all);
    match found {
        None => PrimaryKey::Absent,
        Some(at) => PrimaryKey::Single(cols[at].name.clone()),
    }
}

/// A table has at least as many key columns as any of its prefixes.
pub proof fn lemma_key_names_grow(cols: Seq<ColumnView>, k: int)
    requires
        0 <= k <= cols.len(),
    ensures
        key_names(cols.take(k)).len() <= key_names(cols).len(),
    decreases cols.len() - k,
{
    if k == cols.len() {
        assert(cols.take(k) =~= cols);
    } else {
        lemma_key_names_push(cols.take(k), cols[k]);
        assert(cols.take(k).push(cols[k]) =~= cols.take(k + 1));
        lemma_key_names_grow(cols, k + 1);
    }
}

} // verus!
