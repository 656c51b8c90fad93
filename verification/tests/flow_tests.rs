use rowstream::codec::{RawRow, SqlValue};
use rowstream::error::DataError;
use rowstream::flow::{Answer, Flow, Outcome, Request, Step, Task};
use rowstream::schema::{ColumnDesc, RawColumn};
use rowstream::value::{Number, Value};

fn raw(name: &str, not_null: i32, dflt: Option<&str>, pk: i32) -> RawColumn {
    RawColumn {
        name: name.to_string(),
        ty: "TEXT".to_string(),
        not_null,
        dflt_value: dflt.map(|d| d.to_string()),
        pk,
    }
}

/// users(id INTEGER PRIMARY KEY, name TEXT NOT NULL, age INTEGER DEFAULT 0)
fn users() -> Vec<RawColumn> {
    vec![raw("id", 0, None, 1), raw("name", 1, None, 0), raw("age", 0, Some("0"), 0)]
}

fn object(members: Vec<(&str, Value)>) -> Value {
    Value::Object(members.into_iter().map(|(k, v)| (k.to_string(), v)).collect())
}

fn text(s: &str) -> Value {
    Value::String(s.to_string())
}

fn posint(u: u64) -> Value {
    Value::Number(Number::PosInt(u))
}

fn out_of_turn() -> Step {
    Step::Finish(Err(DataError::Db("The backend answered out of turn".to_string())))
}

/// The flow of a step that asks, and what it asks.
fn asked(step: Step) -> (Request, Flow) {
    match step {
        Step::Ask(request, flow) => (request, flow),
        Step::Finish(result) => panic!("the operation ended: {:?}", result),
    }
}

/// Begins an operation on `users` and answers the first two requests.
fn listed(task: Task) -> Step {
    let (_, flow) = asked(Flow::begin("users".to_string(), task));
    let (_, flow) = asked(flow.resume(Answer::Count(1)));
    flow.resume(Answer::Columns(users()))
}

#[test]
fn every_operation_begins_by_counting_the_table() {
    for task in [
        Task::Describe,
        Task::Insert(object(vec![("name", text("Ann"))])),
        Task::Insert(object(vec![])),
        Task::Delete(7),
    ] {
        let (request, _) = asked(Flow::begin("users".to_string(), task));
        assert_eq!(
            request,
            Request::CountTables {
                sql: "SELECT count(*) FROM sqlite_master WHERE type = 'table' AND name = ?"
                    .to_string(),
                table: "users".to_string(),
            }
        );
    }
}

#[test]
fn an_insert_of_no_object_ends_at_once() {
    for payload in [Value::Null, Value::Bool(false), posint(1), text("x"), Value::Array(vec![])] {
        assert_eq!(
            Flow::begin("users".to_string(), Task::Insert(payload)),
            Step::Finish(Err(DataError::ExpectingObject))
        );
    }
}

#[test]
fn a_table_counted_zero_times_does_not_exist() {
    let (_, flow) = asked(Flow::begin("nope".to_string(), Task::Describe));
    assert_eq!(flow.resume(Answer::Count(0)), Step::Finish(Ok(Outcome::Schema(None))));
    let (_, flow) = asked(Flow::begin("nope".to_string(), Task::Insert(object(vec![]))));
    assert_eq!(
        flow.resume(Answer::Count(0)),
        Step::Finish(Err(DataError::TableNotFound("nope".to_string())))
    );
    let (_, flow) = asked(Flow::begin("nope".to_string(), Task::Delete(1)));
    assert_eq!(
        flow.resume(Answer::Count(0)),
        Step::Finish(Err(DataError::TableNotFound("nope".to_string())))
    );
}

#[test]
fn a_table_that_exists_has_its_columns_listed() {
    for task in [Task::Describe, Task::Insert(object(vec![])), Task::Delete(1)] {
        let (_, flow) = asked(Flow::begin("users".to_string(), task));
        let (request, _) = asked(flow.resume(Answer::Count(1)));
        assert_eq!(request, Request::ListColumns { sql: "PRAGMA table_info(users)".to_string() });
    }
}

#[test]
fn describing_reports_the_listed_columns() {
    let col = |name: &str, not_null, has_dflt_value, pk| ColumnDesc {
        name: name.to_string(),
        ty: "TEXT".to_string(),
        not_null,
        has_dflt_value,
        pk,
    };
    assert_eq!(
        listed(Task::Describe),
        Step::Finish(Ok(Outcome::Schema(Some(vec![
            col("id", false, false, true),
            col("name", true, false, false),
            col("age", false, true, false),
        ]))))
    );
}

#[test]
fn an_insert_asks_for_its_statement_then_for_the_row() {
    let (request, flow) = asked(listed(Task::Insert(object(vec![("name", text("Ann"))]))));
    assert_eq!(
        request,
        Request::Insert {
            sql: "INSERT INTO users (name) VALUES (?)".to_string(),
            parameters: vec![SqlValue::Text("Ann".to_string())],
        }
    );
    let (request, flow) = asked(flow.resume(Answer::RowId(41)));
    assert_eq!(
        request,
        Request::FetchRow { sql: "SELECT * FROM users WHERE id = ?".to_string(), id: 41 }
    );
    let row = RawRow {
        cells: vec![
            ("id".to_string(), SqlValue::Integer(41)),
            ("name".to_string(), SqlValue::Text("Ann".to_string())),
            ("age".to_string(), SqlValue::Integer(0)),
        ],
    };
    assert_eq!(
        flow.resume(Answer::Row(row)),
        Step::Finish(Ok(Outcome::Row(object(vec![
            ("id", posint(41)),
            ("name", text("Ann")),
            ("age", posint(0)),
        ]))))
    );
}

#[test]
fn an_insert_that_cannot_be_planned_asks_for_nothing_more() {
    assert_eq!(
        listed(Task::Insert(object(vec![("age", posint(5))]))),
        Step::Finish(Err(DataError::MissingValue("name".to_string())))
    );
    assert_eq!(
        listed(Task::Insert(object(vec![("name", Value::Array(vec![]))]))),
        Step::Finish(Err(DataError::UnsupportedValue))
    );
}

#[test]
fn a_delete_asks_for_its_statement_with_the_identifier() {
    let (request, flow) = asked(listed(Task::Delete(7)));
    assert_eq!(
        request,
        Request::Delete { sql: "DELETE FROM users WHERE id = ?".to_string(), id: 7 }
    );
    assert_eq!(flow.resume(Answer::Done), Step::Finish(Ok(Outcome::Deleted)));
}

#[test]
fn a_delete_without_a_single_key_column_asks_for_nothing_more() {
    let keyless = vec![raw("body", 0, None, 0)];
    let composite = vec![raw("a", 0, None, 1), raw("b", 0, None, 2)];
    let (_, flow) = asked(Flow::begin("notes".to_string(), Task::Delete(1)));
    let (_, flow) = asked(flow.resume(Answer::Count(1)));
    assert_eq!(
        flow.resume(Answer::Columns(keyless)),
        Step::Finish(Err(DataError::NoPrimaryKey("notes".to_string())))
    );
    let (_, flow) = asked(Flow::begin("pairs".to_string(), Task::Delete(1)));
    let (_, flow) = asked(flow.resume(Answer::Count(1)));
    assert_eq!(
        flow.resume(Answer::Columns(composite)),
        Step::Finish(Err(DataError::CompositePrimaryKey("pairs".to_string())))
    );
}

#[test]
fn a_failed_call_ends_the_operation_with_its_failure() {
    let failure = || DataError::ConstraintViolation(Some("name".to_string()));
    let (_, counting) = asked(Flow::begin("users".to_string(), Task::Describe));
    assert_eq!(counting.resume(Answer::Failed(failure())), Step::Finish(Err(failure())));
    let (_, counting) = asked(Flow::begin("users".to_string(), Task::Delete(1)));
    let (_, listing) = asked(counting.resume(Answer::Count(1)));
    assert_eq!(listing.resume(Answer::Failed(failure())), Step::Finish(Err(failure())));
    let (_, inserting) = asked(listed(Task::Insert(object(vec![("name", text("Ann"))]))));
    assert_eq!(inserting.clone().resume(Answer::Failed(failure())), Step::Finish(Err(failure())));
    let (_, fetching) = asked(inserting.resume(Answer::RowId(1)));
    assert_eq!(fetching.resume(Answer::Failed(failure())), Step::Finish(Err(failure())));
    let (_, deleting) = asked(listed(Task::Delete(1)));
    assert_eq!(deleting.resume(Answer::Failed(failure())), Step::Finish(Err(failure())));
}

#[test]
fn an_answer_out_of_turn_ends_the_operation() {
    let (_, counting) = asked(Flow::begin("users".to_string(), Task::Describe));
    for answer in [
        Answer::Columns(users()),
        Answer::RowId(1),
        Answer::Row(RawRow { cells: vec![] }),
        Answer::Done,
    ] {
        assert_eq!(counting.clone().resume(answer), out_of_turn());
    }
    let (_, listing) = asked(counting.resume(Answer::Count(1)));
    for answer in [Answer::Count(1), Answer::RowId(1), Answer::Done] {
        assert_eq!(listing.clone().resume(answer), out_of_turn());
    }
    let (_, inserting) = asked(listed(Task::Insert(object(vec![("name", text("Ann"))]))));
    for answer in [Answer::Count(1), Answer::Columns(users()), Answer::Done] {
        assert_eq!(inserting.clone().resume(answer), out_of_turn());
    }
    let (_, fetching) = asked(inserting.resume(Answer::RowId(1)));
    for answer in [Answer::Count(1), Answer::RowId(2), Answer::Done] {
        assert_eq!(fetching.clone().resume(answer), out_of_turn());
    }
    let (_, deleting) = asked(listed(Task::Delete(1)));
    for answer in [Answer::Count(0), Answer::RowId(2), Answer::Row(RawRow { cells: vec![] })] {
        assert_eq!(deleting.clone().resume(answer), out_of_turn());
    }
}
