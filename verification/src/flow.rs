//! The order of an operation's dealings with the backend.
//!
//! Describing a table, inserting a row and deleting a row each take
//! several calls to the backend, and what is asked next depends on what
//! was answered last. A [`Flow`] holds that order. It never touches a
//! backend itself: it says what to ask, takes the answer in, and says what
//! to ask next or how the operation ended. Whoever owns the connection
//! carries the requests out.
//!
//! Nothing is kept between operations: every flow asks the catalog anew.

use vstd::prelude::*;
use vstd::string::StringExecFns;
use crate::codec::{
    parameters_view, row_members, sql_to_json, RawRow, SqlValue, SqlValueView,
};
use crate::error::{DataError, DataErrorView};
use crate::plan::{delete_plan, insert_plan, plan_delete, plan_insert, select_by_key_query};
use crate::schema::{
    columns_view, describe_columns, described_all, listing_view, schema_view,
    table_count_query, table_count_sql, table_info_query, table_info_sql, ColumnDesc, ColumnView,
    RawColumn, RawColumnView,
};
use crate::value::{Value, ValueView};

verus! {

/// What an operation is to do with its table.
#[derive(Debug, Clone, PartialEq, Eq)]
pub enum Task {
    /// Report the table's columns.
    Describe,
    /// Insert the payload as one row and report the row as stored.
    Insert(Value),
    /// Delete the row with this identifier.
    Delete(i64),
}

/// The mathematical value of a [`Task`].
pub enum TaskView {
    Describe,
    Insert(ValueView),
    Delete(i64),
}

impl View for Task {
    type V = TaskView;

    open spec fn view(&self) -> TaskView {
        match self {
            Task::Describe => TaskView::Describe,
            Task::Insert(payload) => TaskView::Insert(payload@),
            Task::Delete(id) => TaskView::Delete(*id),
        }
    }
}

/// One call to the backend.
#[derive(Debug, Clone, PartialEq, Eq)]
pub enum Request {
    /// Run `sql` with `table` bound to its one parameter; answer with the
    /// single number it returns, as [`Answer::Count`].
    CountTables { sql: String, table: String },
    /// Run `sql`; answer with every line it returns, as
    /// [`Answer::Columns`].
    ListColumns { sql: String },
    /// Execute `sql` with `parameters` bound in order; answer with the
    /// identifier of the row it made, as [`Answer::RowId`].
    Insert { sql: String, parameters: Vec<SqlValue> },
    /// Run `sql` with `id` bound to its one parameter; answer with the
    /// single row it returns, as [`Answer::Row`].
    FetchRow { sql: String, id: i64 },
    /// Execute `sql` with `id` bound to its one parameter; answer with
    /// [`Answer::Done`].
    Delete { sql: String, id: i64 },
}

/// The mathematical value of a [`Request`].
pub enum RequestView {
    CountTables { sql: Seq<char>, table: Seq<char> },
    ListColumns { sql: Seq<char> },
    Insert { sql: Seq<char>, parameters: Seq<SqlValueView> },
    FetchRow { sql: Seq<char>, id: i64 },
    Delete { sql: Seq<char>, id: i64 },
}

impl View for Request {
    type V = RequestView;

    open spec fn view(&self) -> RequestView {
        match self {
            Request::CountTables { sql, table } => RequestView::CountTables {
                sql: sql@,
                table: table@,
            },
            Request::ListColumns { sql } => RequestView::ListColumns { sql: sql@ },
            Request::Insert { sql, parameters } => RequestView::Insert {
                sql: sql@,
                parameters: parameters_view(parameters@),
            },
            Request::FetchRow { sql, id } => RequestView::FetchRow { sql: sql@, id: *id },
            Request::Delete { sql, id } => RequestView::Delete { sql: sql@, id: *id },
        }
    }
}

/// What the backend answered to a request.
#[derive(Debug, Clone, PartialEq, Eq)]
pub enum Answer {
    Count(i64),
    Columns(Vec<RawColumn>),
    RowId(i64),
    Row(RawRow),
    Done,
    /// The call failed.
    Failed(DataError),
}

/// The mathematical value of an [`Answer`].
pub enum AnswerView {
    Count(i64),
    Columns(Seq<RawColumnView>),
    RowId(i64),
    Row(Seq<(Seq<char>, SqlValueView)>),
    Done,
    Failed(DataErrorView),
}

impl View for Answer {
    type V = AnswerView;

    open spec fn view(&self) -> AnswerView {
        match self {
            Answer::Count(n) => AnswerView::Count(*n),
            Answer::Columns(listing) => AnswerView::Columns(listing_view(listing@)),
            Answer::RowId(id) => AnswerView::RowId(*id),
            Answer::Row(row) => AnswerView::Row(row@),
            Answer::Done => AnswerView::Done,
            Answer::Failed(e) => AnswerView::Failed(e@),
        }
    }
}

/// What an operation achieved.
#[derive(Debug, Clone, PartialEq, Eq)]
pub enum Outcome {
    /// The table's columns; `None` when the table does not exist.
    Schema(Option<Vec<ColumnDesc>>),
    /// The inserted row as the backend holds it.
    Row(Value),
    /// The delete was carried out.
    Deleted,
}

/// The mathematical value of an [`Outcome`].
pub enum OutcomeView {
    Schema(Option<Seq<ColumnView>>),
    Row(ValueView),
    Deleted,
}

impl View for Outcome {
    type V = OutcomeView;

    open spec fn view(&self) -> OutcomeView {
        match self {
            Outcome::Schema(schema) => OutcomeView::Schema(schema_view(*schema)),
            Outcome::Row(row) => OutcomeView::Row(row@),
            Outcome::Deleted => OutcomeView::Deleted,
        }
    }
}

/// Which answer a flow waits for.
#[derive(Debug, Clone, PartialEq, Eq)]
enum Stage {
    Counting,
    Listing,
    Inserting { read_back: String },
    Fetching,
    Deleting,
}

/// Which answer a flow waits for.
pub enum StageView {
    /// How many tables bear the name.
    Counting,
    /// The table's column listing.
    Listing,
    /// The identifier of the inserted row, to read the row back with
    /// `read_back`.
    Inserting { read_back: Seq<char> },
    /// The inserted row.
    Fetching,
    /// That the delete was carried out.
    Deleting,
}

/// An operation on one table that waits for an answer of the backend.
#[derive(Debug, Clone, PartialEq, Eq)]
pub struct Flow {
    table: String,
    task: Task,
    stage: Stage,
}

/// The mathematical value of a [`Flow`].
pub struct FlowView {
    pub table: Seq<char>,
    pub task: TaskView,
    pub stage: StageView,
}

impl View for Flow {
    type V = FlowView;

    closed spec fn view(&self) -> FlowView {
        FlowView {
            table: self.table@,
            task: self.task@,
            stage: match self.stage {
                Stage::Counting => StageView::Counting,
                Stage::Listing => StageView::Listing,
                Stage::Inserting { read_back } => StageView::Inserting { read_back: read_back@ },
                Stage::Fetching => StageView::Fetching,
                Stage::Deleting => StageView::Deleting,
            },
        }
    }
}

/// What comes next in an operation.
#[derive(Debug, PartialEq, Eq)]
pub enum Step {
    /// Put the request to the backend and resume the flow with the answer.
    Ask(Request, Flow),
    /// The operation is over.
    Finish(Result<Outcome, DataError>),
}

/// The mathematical value of a [`Step`].
pub enum StepView {
    Ask(RequestView, FlowView),
    Finish(Result<OutcomeView, DataErrorView>),
}

impl View for Step {
    type V = StepView;

    open spec fn view(&self) -> StepView {
        match self {
            Step::Ask(request, flow) => StepView::Ask(request@, flow@),
            Step::Finish(Ok(outcome)) => StepView::Finish(Ok(outcome@)),
            Step::Finish(Err(e)) => StepView::Finish(Err(e@)),
        }
    }
}

/// What a flow reports when an answer is not the one it waits for.
pub open spec fn out_of_turn() -> DataErrorView {
    DataErrorView::Db("The backend answered out of turn"@)
}

/// The first step of an operation. A payload that is no object ends an
/// insert before anything is asked; every other operation begins by asking
/// whether the table exists.
pub open spec fn begun(table: Seq<char>, task: TaskView) -> StepView {
    if task matches TaskView::Insert(payload) && !(payload is Object) {
        StepView::Finish(Err(DataErrorView::ExpectingObject))
    } else {
        StepView::Ask(
            RequestView::CountTables { sql: table_count_query(), table },
            FlowView { table, task, stage: StageView::Counting },
        )
    }
}

/// The step after the catalog has said that the table does not exist:
/// describing reports the absence, and a write fails.
pub open spec fn on_absent(table: Seq<char>, task: TaskView) -> StepView {
    match task {
        TaskView::Describe => StepView::Finish(Ok(OutcomeView::Schema(None))),
        _ => StepView::Finish(Err(DataErrorView::TableNotFound(table))),
    }
}

/// The step after the catalog has listed the table's columns: describing
/// reports them; a write is planned against them and, if there is a plan,
/// its statement is asked for.
pub open spec fn on_schema(table: Seq<char>, task: TaskView, cols: Seq<ColumnView>) -> StepView {
    match task {
        TaskView::Describe => StepView::Finish(Ok(OutcomeView::Schema(Some(cols)))),
        TaskView::Insert(payload) => match insert_plan(table, Some(cols), payload) {
            Err(e) => StepView::Finish(Err(e)),
            Ok(plan) => StepView::Ask(
                RequestView::Insert { sql: plan.sql, parameters: plan.parameters },
                FlowView {
                    table,
                    task,
                    stage: StageView::Inserting {
                        read_back: select_by_key_query(table, plan.primary_key),
                    },
                },
            ),
        },
        TaskView::Delete(id) => match delete_plan(table, Some(cols)) {
            Err(e) => StepView::Finish(Err(e)),
            Ok(plan) => StepView::Ask(
                RequestView::Delete { sql: plan.sql, id },
                FlowView { table, task, stage: StageView::Deleting },
            ),
        },
    }
}

/// The step after `answer` has come in.
///
/// A failed call ends the operation with that failure. A table that is
/// counted zero times does not exist; one that is counted has its columns
/// listed. The listing decides what a write asks for. The identifier of an
/// inserted row is used to read the row back, and the row that comes back
/// is reported as an object. An answer that the flow does not wait for ends
/// the operation as a backend failure.
pub open spec fn resumed(flow: FlowView, answer: AnswerView) -> StepView {
    match answer {
        AnswerView::Failed(e) => StepView::Finish(Err(e)),
        AnswerView::Count(count) => if flow.stage is Counting {
            if count == 0 {
                on_absent(flow.table, flow.task)
            } else {
                StepView::Ask(
                    RequestView::ListColumns { sql: table_info_query(flow.table) },
                    FlowView { table: flow.table, task: flow.task, stage: StageView::Listing },
                )
            }
        } else {
            StepView::Finish(Err(out_of_turn()))
        },
        AnswerView::Columns(listing) => if flow.stage is Listing {
            on_schema(flow.table, flow.task, described_all(listing))
        } else {
            StepView::Finish(Err(out_of_turn()))
        },
        AnswerView::RowId(id) => match flow.stage {
            StageView::Inserting { read_back } => StepView::Ask(
                RequestView::FetchRow { sql: read_back, id },
                FlowView { table: flow.table, task: flow.task, stage: StageView::Fetching },
            ),
            _ => StepView::Finish(Err(out_of_turn())),
        },
        AnswerView::Row(row) => if flow.stage is Fetching {
            StepView::Finish(Ok(OutcomeView::Row(ValueView::Object(row_members(row)))))
        } else {
            StepView::Finish(Err(out_of_turn()))
        },
        AnswerView::Done => if flow.stage is Deleting {
            StepView::Finish(Ok(OutcomeView::Deleted))
        } else {
            StepView::Finish(Err(out_of_turn()))
        },
    }
}

/// The failure of an answer that came out of turn.
fn answered_out_of_turn() -> (step: Step)
    ensures
        step@ == StepView::Finish(Err(out_of_turn())),
{
    Step::Finish(Err(DataError::Db(String::from_str("The backend answered out of turn"))))
}

impl Flow {
    /// Begins the operation `task` on `table`.
    pub fn begin(table: String, task: Task) -> (step: Step)
        ensures
            step@ == begun(table@, task@),
    {
        let shaped = match &task {
            Task::Insert(payload) => payload.is_object(),
            _ => true,
        };
        if !shaped {
            return Step::Finish(Err(DataError::ExpectingObject));
        }
        let request = Request::CountTables { sql: table_count_sql(), table: table.clone() };
        Step::Ask(request, Flow { table, task, stage: Stage::Counting })
    }

    /// Takes the backend's answer in and says what comes next.
    pub fn resume(self, answer: Answer) -> (step: Step)
        ensures
            step@ == resumed(self@, answer@),
    {
        let Flow { table, task, stage } = self;
        match answer {
            Answer::Failed(e) => Step::Finish(Err(e)),
            Answer::Count(count) => match stage {
                Stage::Counting => {
                    if count == 0 {
                        match task {
                            Task::Describe => Step::Finish(Ok(Outcome::Schema(None))),
                            _ => Step::Finish(Err(DataError::TableNotFound(table))),
                        }
                    } else {
                        let sql = table_info_sql(table.as_str());
                        Step::Ask(
                            Request::ListColumns { sql },
                            Flow { table, task, stage: Stage::Listing },
                        )
                    }
                },
                _ => answered_out_of_turn(),
            },
            Answer::Columns(listing) => match stage {
                Stage::Listing => Flow::planned(table, task, describe_columns(listing)),
                _ => answered_out_of_turn(),
            },
            Answer::RowId(id) => match stage {
                Stage::Inserting { read_back } => Step::Ask(
                    Request::FetchRow { sql: read_back, id },
                    Flow { table, task, stage: Stage::Fetching },
                ),
                _ => answered_out_of_turn(),
            },
            Answer::Row(row) => match stage {
                Stage::Fetching => Step::Finish(Ok(Outcome::Row(sql_to_json(row)))),
                _ => answered_out_of_turn(),
            },
            Answer::Done => match stage {
                Stage::Deleting => Step::Finish(Ok(Outcome::Deleted)),
                _ => answered_out_of_turn(),
            },
        }
    }

    /// The step once the table's columns are known.
    fn planned(table: String, task: Task, cols: Vec<ColumnDesc>) -> (step: Step)
        ensures
            step@ == on_schema(table@, task@, columns_view(cols@)),
    {
        let schema = Some(cols);
        match task {
            Task::Describe => Step::Finish(Ok(Outcome::Schema(schema))),
            Task::Insert(payload) => match plan_insert(table.as_str(), &schema, &payload) {
                Err(e) => Step::Finish(Err(e)),
                Ok(plan) => {
                    let read_back = plan.read_back_sql();
                    Step::Ask(
                        Request::Insert { sql: plan.sql, parameters: plan.parameters },
                        Flow {
                            table,
                            task: Task::Insert(payload),
                            stage: Stage::Inserting { read_back },
                        },
                    )
                },
            },
            Task::Delete(id) => match plan_delete(table.as_str(), &schema) {
                Err(e) => Step::Finish(Err(e)),
                Ok(plan) => Step::Ask(
                    Request::Delete { sql: plan.sql, id },
                    Flow { table, task: Task::Delete(id), stage: Stage::Deleting },
                ),
            },
        }
    }
}

/// An upper bound on the requests that a flow at this stage still makes.
pub open spec fn asks_left(stage: StageView) -> nat {
    match stage {
        StageView::Counting => 4,
        StageView::Listing => 3,
        StageView::Inserting { .. } => 2,
        StageView::Fetching => 1,
        StageView::Deleting => 1,
    }
}

/// Each answer brings a flow strictly closer to its end: an operation asks
/// the backend at most four times, twice of the catalog and, for an insert,
/// twice of the table, whatever the backend answers.
pub proof fn law_flow_comes_to_an_end(flow: FlowView, answer: AnswerView)
    ensures
        resumed(flow, answer) matches StepView::Ask(_, next) ==> asks_left(next.stage) < asks_left(
            flow.stage,
        ),
{
}

/// A failed call ends the operation with that very failure, at whatever
/// stage it comes: nothing is retried and nothing is swallowed.
pub proof fn law_failures_end_the_flow(flow: FlowView, e: DataErrorView)
    ensures
        resumed(flow, AnswerView::Failed(e)) == StepView::Finish(Err(e)),
{
}

/// A flow that waits at a stage which its own task can have led to: only
/// an insert waits for a row's identifier or for the row, only a delete
/// waits for a delete, and an insert's payload is an object.
pub open spec fn in_order(flow: FlowView) -> bool {
    &&& flow.task matches TaskView::Insert(payload) ==> payload is Object
    &&& flow.stage is Inserting || flow.stage is Fetching ==> flow.task is Insert
    &&& flow.stage is Deleting ==> flow.task is Delete
}

/// Whether `outcome` is what `task` asks for.
pub open spec fn fits(task: TaskView, outcome: OutcomeView) -> bool {
    match task {
        TaskView::Describe => outcome is Schema,
        TaskView::Insert(_) => outcome is Row,
        TaskView::Delete(_) => outcome is Deleted,
    }
}

/// An operation begins in order; and from a flow in order, whatever the
/// backend answers, the next flow is in order too and is about the same
/// table and task, and an operation that ends well ends with what its task
/// asks for.
pub proof fn law_flows_stay_in_order(table: Seq<char>, task: TaskView, flow: FlowView, answer: AnswerView)
    requires
        in_order(flow),
    ensures
        begun(table, task) matches StepView::Ask(_, first) ==> in_order(first) && first.table
            == table && first.task == task,
        resumed(flow, answer) matches StepView::Ask(_, next) ==> in_order(next) && next.table
            == flow.table && next.task == flow.task,
        resumed(flow, answer) matches StepView::Finish(Ok(outcome)) ==> fits(flow.task, outcome),
{
}

/// Nothing is written to a table before its columns have been listed in
/// this very operation: a write is only ever asked for in answer to a
/// column listing, and then it is the planned one.
pub proof fn law_writes_follow_the_listing(flow: FlowView, answer: AnswerView)
    ensures
        resumed(flow, answer) matches StepView::Ask(RequestView::Insert { sql, parameters }, _)
            ==> {
            &&& flow.stage is Listing
            &&& answer matches AnswerView::Columns(listing)
            &&& flow.task matches TaskView::Insert(payload)
            &&& insert_plan(flow.table, Some(described_all(listing)), payload) matches Ok(plan)
            &&& plan.sql == sql
            &&& plan.parameters == parameters
        },
        resumed(flow, answer) matches StepView::Ask(RequestView::Delete { sql, id }, _) ==> {
            &&& flow.stage is Listing
            &&& answer matches AnswerView::Columns(listing)
            &&& flow.task == TaskView::Delete(id)
            &&& delete_plan(flow.table, Some(described_all(listing))) matches Ok(plan)
            &&& plan.sql == sql
        },
{
}

} // verus!
