//! Planning of single-row inserts and deletes against a table's schema.
//!
//! A plan is everything the backend needs to carry an operation out: the
//! statement's text and the parameters to bind, in the statement's order.
//! Planning touches no backend.

use vstd::prelude::*;
use vstd::string::StringExecFns;
use crate::backend::interspersed;
use crate::codec::{bind_all, bound_all, parameters_view, SqlValue, SqlValueView};
use crate::error::{DataError, DataErrorView};
use crate::schema::{
    columns_view, key_names, primary_key, schema_view, ColumnDesc, ColumnView, PrimaryKey,
};
use crate::text::{join, joined, texts};
use crate::value::{find_member, has_member, member, members_view, Value, ValueView};

verus! {

/// An insert of one row, ready to be carried out.
#[derive(Debug, Clone, PartialEq, Eq)]
pub struct InsertPlan {
    pub table: String,
    /// The insert statement, with one placeholder per column.
    pub sql: String,
    /// The columns that the statement sets, in the table's order.
    pub columns: Vec<String>,
    /// The parameters to bind, one per column and in the same order.
    pub parameters: Vec<SqlValue>,
    /// The table's single primary key column, by which the new row is read
    /// back.
    pub primary_key: String,
}

/// The mathematical value of an [`InsertPlan`].
pub struct InsertPlanView {
    pub table: Seq<char>,
    pub sql: Seq<char>,
    pub columns: Seq<Seq<char>>,
    pub parameters: Seq<SqlValueView>,
    pub primary_key: Seq<char>,
}

impl View for InsertPlan {
    type V = InsertPlanView;

    open spec fn view(&self) -> InsertPlanView {
        InsertPlanView {
            table: self.table@,
            sql: self.sql@,
            columns: texts(self.columns@),
            parameters: parameters_view(self.parameters@),
            primary_key: self.primary_key@,
        }
    }
}

/// A delete of one row by its key, ready to be carried out with the row's
/// identifier as the only parameter.
#[derive(Debug, Clone, PartialEq, Eq)]
pub struct DeletePlan {
    /// The delete statement, with one placeholder for the identifier.
    pub sql: String,
    /// The table's single primary key column.
    pub primary_key: String,
}

/// The mathematical value of a [`DeletePlan`].
pub struct DeletePlanView {
    pub sql: Seq<char>,
    pub primary_key: Seq<char>,
}

impl View for DeletePlan {
    type V = DeletePlanView;

    open spec fn view(&self) -> DeletePlanView {
        DeletePlanView { sql: self.sql@, primary_key: self.primary_key@ }
    }
}

/// A column that an insert must be given a value for: the backend has
/// neither a default nor a key to assign.
pub open spec fn required(c: ColumnView) -> bool {
    !c.has_dflt_value && !c.pk
}

/// The columns that an insert sets: those the payload has a member for, in
/// the table's order. A column without a member is left to the backend when
/// it has a default or is the key; the first column that is neither decides
/// the failure.
pub open spec fn insert_columns(cols: Seq<ColumnView>, members: Seq<(Seq<char>, ValueView)>) -> Result<
    Seq<Seq<char>>,
    DataErrorView,
>
    decreases cols.len(),
{
    if cols.len() == 0 {
        Ok(Seq::empty())
    } else {
        match insert_columns(cols.drop_last(), members) {
            Err(e) => Err(e),
            Ok(names) => {
                let c = cols.last();
                if has_member(members, c.name) {
                    Ok(names.push(c.name))
                } else if required(c) {
                    Err(DataErrorView::MissingValue(c.name))
                } else {
                    Ok(names)
                }
            },
        }
    }
}

/// `count` placeholders with a comma between neighbours.
pub open spec fn placeholder_list(count: nat) -> Seq<char> {
    joined(Seq::new(count, |i: int| "?"@), ", "@)
}

/// The statement that inserts one row into `table`, setting `columns`.
/// With no column to set, the row is made of defaults alone.
pub open spec fn insert_statement(table: Seq<char>, columns: Seq<Seq<char>>) -> Seq<char> {
    if columns.len() == 0 {
        "INSERT INTO "@ + table + " DEFAULT VALUES"@
    } else {
        "INSERT INTO "@ + table + " ("@ + joined(columns, ", "@) + ") VALUES ("@ + placeholder_list(
            columns.len(),
        ) + ")"@
    }
}

/// The query for the row of `table` whose column `key` equals the one
/// parameter.
pub open spec fn select_by_key_query(table: Seq<char>, key: Seq<char>) -> Seq<char> {
    "SELECT * FROM "@ + table + " WHERE "@ + key + " = ?"@
}

/// The statement that deletes from `table` the row whose column `key`
/// equals the one parameter.
pub open spec fn delete_statement(table: Seq<char>, key: Seq<char>) -> Seq<char> {
    "DELETE FROM "@ + table + " WHERE "@ + key + " = ?"@
}

/// The query for every row of `table`.
pub open spec fn select_all_query(table: Seq<char>) -> Seq<char> {
    "SELECT * FROM "@ + table
}

/// The plan for inserting `payload` into `table`, or why there is none.
///
/// The checks come in this order: the payload is an object; the table
/// exists; no required column lacks a member; the table has exactly one
/// primary key column; every member to be bound is a scalar.
pub open spec fn insert_plan(
    table: Seq<char>,
    schema: Option<Seq<ColumnView>>,
    payload: ValueView,
) -> Result<InsertPlanView, DataErrorView> {
    match payload {
        ValueView::Object(members) => match schema {
            None => Err(DataErrorView::TableNotFound(table)),
            Some(cols) => match insert_columns(cols, members) {
                Err(e) => Err(e),
                Ok(names) => {
                    let keys = key_names(cols);
                    if keys.len() == 0 {
                        Err(DataErrorView::NoPrimaryKey(table))
                    } else if keys.len() >= 2 {
                        Err(DataErrorView::CompositePrimaryKey(table))
                    } else {
                        match bound_all(members, names) {
                            Err(e) => Err(e),
                            Ok(parameters) => Ok(
                                InsertPlanView {
                                    table,
                                    sql: insert_statement(table, names),
                                    columns: names,
                                    parameters,
                                    primary_key: keys[0],
                                },
                            ),
                        }
                    }
                },
            },
        },
        _ => Err(DataErrorView::ExpectingObject),
    }
}

/// The plan for deleting a row of `table` by its key, or why there is
/// none.
pub open spec fn delete_plan(table: Seq<char>, schema: Option<Seq<ColumnView>>) -> Result<
    DeletePlanView,
    DataErrorView,
> {
    match schema {
        None => Err(DataErrorView::TableNotFound(table)),
        Some(cols) => {
            let keys = key_names(cols);
            if keys.len() == 0 {
                Err(DataErrorView::NoPrimaryKey(table))
            } else if keys.len() >= 2 {
                Err(DataErrorView::CompositePrimaryKey(table))
            } else {
                Ok(
                    DeletePlanView {
                        sql: delete_statement(table, keys[0]),
                        primary_key: keys[0],
                    },
                )
            }
        },
    }
}

/// Once a prefix of the columns lacks a required member, the whole table
/// fails in the same way.
pub proof fn lemma_insert_columns_fails(
    cols: Seq<ColumnView>,
    members: Seq<(Seq<char>, ValueView)>,
    k: int,
)
    requires
        0 <= k <= cols.len(),
        insert_columns(cols.take(k), members) is Err,
    ensures
        insert_columns(cols, members) == insert_columns(cols.take(k), members),
    decreases cols.len() - k,
{
    if k == cols.len() {
        assert(cols.take(k) =~= cols);
    } else {
        assert(cols.take(k + 1).drop_last() =~= cols.take(k));
        lemma_insert_columns_fails(cols, members, k + 1);
    }
}

/// Column `i` is the first column, in the table's order, that is required
/// and that `members` has no member for.
pub open spec fn first_missing(
    cols: Seq<ColumnView>,
    members: Seq<(Seq<char>, ValueView)>,
    i: int,
) -> bool {
    &&& 0 <= i < cols.len()
    &&& required(cols[i])
    &&& !has_member(members, cols[i].name)
    &&& forall|j: int|
        0 <= j < i && required(#[trigger] cols[j]) ==> has_member(members, cols[j].name)
}

/// A column of the table bears the name.
pub open spec fn is_column(cols: Seq<ColumnView>, name: Seq<char>) -> bool {
    exists|j: int| 0 <= j < cols.len() && (#[trigger] cols[j]).name == name
}

/// What [`insert_columns`] says of a table, column by column: it fails
/// exactly when some required column lacks a member, and then names the
/// first such column; else it lists exactly the columns that have one.
pub proof fn lemma_insert_columns(cols: Seq<ColumnView>, members: Seq<(Seq<char>, ValueView)>)
    ensures
        match insert_columns(cols, members) {
            Ok(names) => {
                &&& forall|j: int|
                    0 <= j < cols.len() && required(#[trigger] cols[j]) ==> has_member(
                        members,
                        cols[j].name,
                    )
                &&& forall|name: Seq<char>| #[trigger]
                    names.contains(name) <==> has_member(members, name) && is_column(cols, name)
            },
            Err(e) => exists|i: int| #[trigger]
                first_missing(cols, members, i) && e == DataErrorView::MissingValue(cols[i].name),
        },
    decreases cols.len(),
{
    if cols.len() == 0 {
        let names = insert_columns(cols, members)->Ok_0;
        assert forall|name: Seq<char>| #[trigger]
            names.contains(name) <==> has_member(members, name) && is_column(cols, name) by {}
    } else {
        let before = cols.drop_last();
        let c = cols.last();
        lemma_insert_columns(before, members);
        match insert_columns(before, members) {
            Err(e) => {
                let i = choose|i: int| #[trigger]
                    first_missing(before, members, i) && e == DataErrorView::MissingValue(
                        before[i].name,
                    );
                assert(cols[i] == before[i]);
                assert forall|j: int| 0 <= j < i && required(#[trigger] cols[j]) implies has_member(
                    members,
                    cols[j].name,
                ) by {
                    assert(cols[j] == before[j]);
                }
                assert(first_missing(cols, members, i));
            },
            Ok(prior) => {
                assert forall|j: int|
                    0 <= j < cols.len() - 1 && required(#[trigger] cols[j]) implies has_member(
                    members,
                    cols[j].name,
                ) by {
                    assert(cols[j] == before[j]);
                }
                if has_member(members, c.name) || !required(c) {
                    let names = insert_columns(cols, members)->Ok_0;
                    assert forall|name: Seq<char>| #[trigger]
                        names.contains(name) <==> has_member(members, name) && is_column(
                            cols,
                            name,
                        ) by {
                        if names.contains(name) {
                            let at = choose|at: int| 0 <= at < names.len() && names[at] == name;
                            if at < prior.len() {
                                assert(prior[at] == name);
                                assert(prior.contains(name));
                                let j = choose|j: int|
                                    0 <= j < before.len() && (#[trigger] before[j]).name == name;
                                assert(cols[j] == before[j]);
                            } else {
                                assert(cols[cols.len() - 1].name == name);
                            }
                        }
                        if has_member(members, name) && is_column(cols, name) {
                            let j = choose|j: int|
                                0 <= j < cols.len() && (#[trigger] cols[j]).name == name;
                            if j < before.len() {
                                assert(cols[j] == before[j]);
                                assert(is_column(before, name));
                                assert(prior.contains(name));
                                let at = choose|at: int| 0 <= at < prior.len() && prior[at] == name;
                                assert(names[at] == name);
                            } else {
                                assert(names[names.len() - 1] == name);
                            }
                        }
                    }
                } else {
                    assert(cols[cols.len() - 1] == c);
                    assert(first_missing(cols, members, cols.len() - 1));
                }
            },
        }
    }
}

/// An insert that leaves out a required column fails, and names exactly
/// that column: whenever a column with neither default nor key is the first
/// that the payload has no member for, the plan is `MissingValue` with that
/// column's name, whatever else the payload holds.
pub proof fn law_missing_value_names_the_column(
    table: Seq<char>,
    cols: Seq<ColumnView>,
    members: Seq<(Seq<char>, ValueView)>,
    i: int,
)
    requires
        first_missing(cols, members, i),
    ensures
        insert_plan(table, Some(cols), ValueView::Object(members)) == Err::<
            InsertPlanView,
            DataErrorView,
        >(DataErrorView::MissingValue(cols[i].name)),
{
    lemma_insert_columns(cols, members);
    match insert_columns(cols, members) {
        Ok(_) => {
            assert(required(cols[i]));
        },
        Err(e) => {
            let k = choose|k: int| #[trigger]
                first_missing(cols, members, k) && e == DataErrorView::MissingValue(cols[k].name);
            if k < i {
                assert(required(cols[k]));
            } else if i < k {
                assert(required(cols[i]));
            }
        },
    }
}

/// An insert that leaves out only columns with a default or the key has a
/// plan, and the plan sets exactly the columns that the payload names: the
/// others are the backend's to fill.
///
/// This holds where the table has exactly one primary key column and the
/// members to be bound are scalars.
pub proof fn law_defaulted_columns_are_left_out(
    table: Seq<char>,
    cols: Seq<ColumnView>,
    members: Seq<(Seq<char>, ValueView)>,
)
    requires
        key_names(cols).len() == 1,
        forall|j: int|
            0 <= j < cols.len() && !has_member(members, (#[trigger] cols[j]).name) ==> !required(
                cols[j],
            ),
        forall|j: int|
            0 <= j < cols.len() && has_member(members, (#[trigger] cols[j]).name) ==> member(
                members,
                cols[j].name,
            )->Some_0.is_scalar(),
    ensures
        insert_plan(table, Some(cols), ValueView::Object(members)) matches Ok(plan) && forall|
            name: Seq<char>,
        | #[trigger]
            plan.columns.contains(name) <==> has_member(members, name) && is_column(cols, name),
{
    lemma_insert_columns(cols, members);
    match insert_columns(cols, members) {
        Err(e) => {
            let k = choose|k: int| #[trigger]
                first_missing(cols, members, k) && e == DataErrorView::MissingValue(cols[k].name);
            assert(required(cols[k]));
        },
        Ok(names) => {
            assert forall|k: int| 0 <= k < names.len() implies has_member(
                members,
                #[trigger] names[k],
            ) && member(members, names[k])->Some_0.is_scalar() by {
                assert(names.contains(names[k]));
                let j = choose|j: int|
                    0 <= j < cols.len() && (#[trigger] cols[j]).name == names[k];
                assert(has_member(members, cols[j].name));
            }
            lemma_scalars_bind(members, names);
        },
    }
}

/// Columns whose members are all scalars can all be bound.
pub proof fn lemma_scalars_bind(members: Seq<(Seq<char>, ValueView)>, names: Seq<Seq<char>>)
    requires
        forall|k: int|
            0 <= k < names.len() ==> has_member(members, #[trigger] names[k]) && member(
                members,
                names[k],
            )->Some_0.is_scalar(),
    ensures
        bound_all(members, names) is Ok,
    decreases names.len(),
{
    if names.len() > 0 {
        lemma_scalars_bind(members, names.drop_last());
        let last = names[names.len() - 1];
        assert(has_member(members, last));
        crate::value::lemma_member_present(members, last);
    }
}

/// The column names with a comma between neighbours.
pub fn columns_of(names: &Vec<String>) -> (list: String)
    ensures
        list@ == joined(texts(names@), ", "@),
{
    join(names, ", ")
}

/// `count` placeholders with a comma between neighbours.
pub fn placeholders(count: usize) -> (list: String)
    ensures
        list@ == placeholder_list(count as nat),
{
    interspersed("?", ", ", count)
}

/// The text of [`insert_statement`].
pub fn insert_sql(table: &str, columns: &Vec<String>) -> (sql: String)
    ensures
        sql@ == insert_statement(table@, texts(columns@)),
{
    if columns.len() == 0 {
        String::from_str("INSERT INTO ").concat(table).concat(" DEFAULT VALUES")
    } else {
        let names = columns_of(columns);
        let marks = placeholders(columns.len());
        String::from_str("INSERT INTO ").concat(table).concat(" (").concat(names.as_str()).concat(
            ") VALUES (",
        ).concat(marks.as_str()).concat(")")
    }
}

/// The text of [`select_by_key_query`].
pub fn select_by_key_sql(table: &str, key: &str) -> (sql: String)
    ensures
        sql@ == select_by_key_query(table@, key@),
{
    String::from_str("SELECT * FROM ").concat(table).concat(" WHERE ").concat(key).concat(" = ?")
}

/// The text of [`delete_statement`].
pub fn delete_sql(table: &str, key: &str) -> (sql: String)
    ensures
        sql@ == delete_statement(table@, key@),
{
    String::from_str("DELETE FROM ").concat(table).concat(" WHERE ").concat(key).concat(" = ?")
}

/// The text of [`select_all_query`].
pub fn select_all_sql(table: &str) -> (sql: String)
    ensures
        sql@ == select_all_query(table@),
{
    String::from_str("SELECT * FROM ").concat(table)
}

/// The columns that an insert of `members` into a table with columns `cols`
/// sets.
pub fn columns_to_insert(cols: &Vec<ColumnDesc>, members: &Vec<(String, Value)>) -> (r: Result<
    Vec<String>,
    DataError,
>)
    ensures
        match r {
            Ok(names) => insert_columns(columns_view(cols@), members_view(members@)) == Ok::<
                Seq<Seq<char>>,
                DataErrorView,
            >(texts(names@)),
            Err(e) => insert_columns(columns_view(cols@), members_view(members@)) == Err::<
                Seq<Seq<char>>,
                DataErrorView,
            >(e@),
        },
{
    let ghost all = columns_view(cols@);
    let ghost given = members_view(members@);
    let mut names: Vec<String> = Vec::new();
    let mut i: usize = 0;
    assert(all.take(0) =~= Seq::empty());
    assert(texts(names@) =~= Seq::empty());
    while i < cols.len()
        invariant
            i <= cols.len(),
            all == columns_view(cols@),
            given == members_view(members@),
            insert_columns(all.take(i as int), given) == Ok::<Seq<Seq<char>>, DataErrorView>(
                texts(names@),
            ),
        decreases cols.len() - i,
    {
        let col = &cols[i];
        let ghost before = texts(names@);
        proof {
            assert(all.take(i + 1).drop_last() =~= all.take(i as int));
            assert(all.take(i + 1).last() == col@);
        }
        if find_member(members, col.name.as_str()).is_some() {
            names.push(col.name.clone());
            assert(texts(names@) =~= before.push(col.name@));
        } else if !col.has_dflt_value && !col.pk {
            proof {
                lemma_insert_columns_fails(all, given, i + 1);
            }
            return Err(DataError::MissingValue(col.name.clone()));
        }
        i += 1;
    }
    assert(all.take(cols@.len() as int) =~= all);
    Ok(names)
}

/// Plans the insert of `payload` as one row of `table`, whose schema is
/// `schema` (`None` when the table does not exist).
pub fn plan_insert(table: &str, schema: &Option<Vec<ColumnDesc>>, payload: &Value) -> (r: Result<
    InsertPlan,
    DataError,
>)
    ensures
        match r {
            Ok(plan) => insert_plan(table@, schema_view(*schema), payload@) == Ok::<
                InsertPlanView,
                DataErrorView,
            >(plan@),
            Err(e) => insert_plan(table@, schema_view(*schema), payload@) == Err::<
                InsertPlanView,
                DataErrorView,
            >(e@),
        },
{
    let members = match payload.as_object() {
        Some(members) => members,
        None => {
            return Err(DataError::ExpectingObject);
        },
    };
    let cols = match schema {
        Some(cols) => cols,
        None => {
            return Err(DataError::TableNotFound(String::from_str(table)));
        },
    };
    let columns = match columns_to_insert(cols, members) {
        Ok(columns) => columns,
        Err(e) => {
            return Err(e);
        },
    };
    let key = match primary_key(cols) {
        PrimaryKey::Absent => {
            return Err(DataError::NoPrimaryKey(String::from_str(table)));
        },
        PrimaryKey::Composite => {
            return Err(DataError::CompositePrimaryKey(String::from_str(table)));
        },
        PrimaryKey::Single(name) => name,
    };
    let parameters = match bind_all(&columns, members) {
        Ok(parameters) => parameters,
        Err(e) => {
            return Err(e);
        },
    };
    let sql = insert_sql(table, &columns);
    Ok(InsertPlan { table: String::from_str(table), sql, columns, parameters, primary_key: key })
}

/// Plans the delete of one row of `table` by its key, given the table's
/// schema (`None` when the table does not exist). A table without a
/// primary key fails with `NoPrimaryKey`, one whose key spans several
/// columns with `CompositePrimaryKey`; with exactly one key column there
/// is a plan.
pub fn plan_delete(table: &str, schema: &Option<Vec<ColumnDesc>>) -> (r: Result<
    DeletePlan,
    DataError,
>)
    ensures
        match r {
            Ok(plan) => delete_plan(table@, schema_view(*schema)) == Ok::<
                DeletePlanView,
                DataErrorView,
            >(plan@),
            Err(e) => delete_plan(table@, schema_view(*schema)) == Err::<
                DeletePlanView,
                DataErrorView,
            >(e@),
        },
        schema matches Some(cols) ==> {
            &&& key_names(columns_view(cols@)).len() == 0 <==> (r matches Err(
                DataError::NoPrimaryKey(_),
            ))
            &&& key_names(columns_view(cols@)).len() >= 2 <==> (r matches Err(
                DataError::CompositePrimaryKey(_),
            ))
            &&& key_names(columns_view(cols@)).len() == 1 <==> r is Ok
        },
{
    let cols = match schema {
        Some(cols) => cols,
        None => {
            return Err(DataError::TableNotFound(String::from_str(table)));
        },
    };
    match primary_key(cols) {
        PrimaryKey::Absent => Err(DataError::NoPrimaryKey(String::from_str(table))),
        PrimaryKey::Composite => Err(DataError::CompositePrimaryKey(String::from_str(table))),
        PrimaryKey::Single(name) => {
            let sql = delete_sql(table, name.as_str());
            Ok(DeletePlan { sql, primary_key: name })
        },
    }
}

impl InsertPlan {
    /// The query that reads the inserted row back, with the identifier that
    /// the backend assigned as its one parameter.
    pub fn read_back_sql(&self) -> (sql: String)
        ensures
            sql@ == select_by_key_query(self.table@, self.primary_key@),
    {
        select_by_key_sql(self.table.as_str(), self.primary_key.as_str())
    }
}

} // verus!
