//! The lazily pulled sequence of rows of one statement.
//!
//! A [`RowStream`] is a one-way cursor: each pull asks the backend for at
//! most one row, hands that row to the caller's mapper and yields what the
//! mapper made of it. Once the backend reports the end, or fails, the
//! stream is finished for good: it yields nothing more and leaves the
//! backend alone. To read again, a new stream is opened.

use vstd::prelude::*;
use crate::codec::{row_members, sql_to_json, RawRow};
use crate::error::DataError;
use crate::plan::{select_all_query, select_all_sql};
use crate::prep::{Fetched, PrepareAndFetch, RowSource};
use crate::value::{Value, ValueView};

verus! {

/// Where a stream stands.
pub struct StreamState {
    /// The stream has ended and will yield nothing more.
    pub finished: bool,
    /// How many steps the stream has asked of its backend cursor.
    pub steps: nat,
    /// How many rows the stream has handed to its mapper.
    pub rows: nat,
}

/// The kind of thing a backend step gave.
pub enum Event {
    Row,
    Failed,
    Done,
}

/// The kind of `fetched`.
pub open spec fn kind_of(fetched: Fetched) -> Event {
    match fetched {
        Fetched::Row(_) => Event::Row,
        Fetched::Failed(_) => Event::Failed,
        Fetched::Done => Event::Done,
    }
}

/// A stream that has not been pulled yet.
pub open spec fn fresh() -> StreamState {
    StreamState { finished: false, steps: 0, rows: 0 }
}

/// Where a stream stands after one pull, given what the backend would
/// give. A finished stream takes no step. An unfinished one takes exactly
/// one; a row is handed on, and anything else ends the stream.
pub open spec fn after_pull(s: StreamState, e: Event) -> StreamState {
    if s.finished {
        s
    } else {
        match e {
            Event::Row => StreamState { finished: false, steps: s.steps + 1, rows: s.rows + 1 },
            Event::Failed => StreamState { finished: true, steps: s.steps + 1, rows: s.rows },
            Event::Done => StreamState { finished: true, steps: s.steps + 1, rows: s.rows },
        }
    }
}

/// Where a stream stands after one pull for each of `events`, in order.
pub open spec fn after_pulls(s: StreamState, events: Seq<Event>) -> StreamState
    decreases events.len(),
{
    if events.len() == 0 {
        s
    } else {
        after_pull(after_pulls(s, events.drop_last()), events.last())
    }
}

/// What a pull of an unfinished stream yields for what the backend gave:
/// a row goes through the mapper, a failure is yielded as it is, and the
/// end yields nothing.
pub open spec fn yields<R, F: Fn(RawRow) -> Result<R, DataError>>(
    mapper: F,
    fetched: Fetched,
    out: Option<Result<R, DataError>>,
) -> bool {
    match fetched {
        Fetched::Row(raw) => out matches Some(item) && call_ensures(mapper, (raw,), item),
        Fetched::Failed(e) => out == Some(Err::<R, DataError>(e)),
        Fetched::Done => out is None,
    }
}

/// Pulling never runs ahead of the caller: after any number of pulls the
/// backend has been asked for at most that many steps, and no more rows
/// have reached the mapper than steps were taken. As long as every pull
/// found a row, exactly one step was taken and exactly one row mapped per
/// pull, so the rows beyond the last pull were never asked for. A finished
/// stream stays as it is, whatever the backend would still give.
pub proof fn law_pulls_bound_backend_steps(s: StreamState, events: Seq<Event>)
    requires
        s.rows <= s.steps,
    ensures
        after_pulls(s, events).steps <= s.steps + events.len(),
        after_pulls(s, events).rows <= after_pulls(s, events).steps,
        after_pulls(s, events).rows - s.rows <= events.len(),
        s.finished ==> after_pulls(s, events) == s,
        !s.finished && (forall|i: int| 0 <= i < events.len() ==> events[i] is Row) ==> after_pulls(
            s,
            events,
        ) == (StreamState {
            finished: false,
            steps: s.steps + events.len(),
            rows: s.rows + events.len(),
        }),
    decreases events.len(),
{
    if events.len() > 0 {
        law_pulls_bound_backend_steps(s, events.drop_last());
    }
}

/// Once the backend has reported the end or failed, every later pull
/// leaves the stream finished where it stood.
pub proof fn law_finished_is_final(s: StreamState, e: Event, later: Seq<Event>)
    requires
        !s.finished,
        !(e is Row),
    ensures
        after_pulls(after_pull(s, e), later) == after_pull(s, e),
        after_pull(s, e).finished,
{
    lemma_finished_stays(after_pull(s, e), later);
}

/// A finished stream is not changed by pulls.
pub proof fn lemma_finished_stays(s: StreamState, events: Seq<Event>)
    requires
        s.finished,
    ensures
        after_pulls(s, events) == s,
    decreases events.len(),
{
    if events.len() > 0 {
        lemma_finished_stays(s, events.drop_last());
    }
}

/// A lazily pulled sequence of mapped rows over a backend cursor.
pub struct RowStream<S, F> {
    source: S,
    mapper: F,
    finished: bool,
    steps: Ghost<nat>,
    rows: Ghost<nat>,
}

impl<S: RowSource, R, F: Fn(RawRow) -> Result<R, DataError>> RowStream<S, F> {
    /// Where the stream stands.
    pub closed spec fn state(&self) -> StreamState {
        StreamState { finished: self.finished, steps: self.steps@, rows: self.rows@ }
    }

    /// The backend cursor that the stream pulls from.
    pub closed spec fn source(&self) -> S {
        self.source
    }

    /// The mapper that each row goes through.
    pub closed spec fn mapper(&self) -> F {
        self.mapper
    }

    /// The mapper accepts every row.
    pub closed spec fn wf(&self) -> bool {
        forall|row: RawRow| call_requires(self.mapper, (row,))
    }

    /// A stream over `source` that has not been pulled yet.
    pub fn new(source: S, mapper: F) -> (stream: Self)
        requires
            forall|row: RawRow| call_requires(mapper, (row,)),
        ensures
            stream.wf(),
            stream.state() == fresh(),
            stream.source() == source,
            stream.mapper() == mapper,
    {
        RowStream { source, mapper, finished: false, steps: Ghost(0), rows: Ghost(0) }
    }

    /// What opening a stream gives for what the connection answered when it
    /// was asked to prepare the statement: a cursor becomes a fresh stream
    /// over that cursor with the caller's mapper, and a failure is passed on
    /// as it is.
    pub open spec fn opened(prepared: Result<S, DataError>, mapper: F, r: Result<Self, DataError>) -> bool {
        match prepared {
            Ok(source) => {
                &&& r matches Ok(stream)
                &&& stream.wf()
                &&& stream.state() == fresh()
                &&& stream.source() == source
                &&& stream.mapper() == mapper
            },
            Err(e) => r == Err::<Self, DataError>(e),
        }
    }

    /// Opens a stream over the rows of `sql`: the connection moves into a
    /// cursor, and the cursor into the stream.
    ///
    /// The connection is asked to prepare exactly `sql`. Whether it can is
    /// the connection's to say; what it answers decides the result as
    /// [`RowStream::opened`] says.
    pub fn open<C: PrepareAndFetch<Cursor = S>>(conn: C, sql: &str, mapper: F) -> (r: Result<
        Self,
        DataError,
    >)
        requires
            forall|row: RawRow| call_requires(mapper, (row,)),
        ensures
            exists|prepared: Result<S, DataError>|
                {
                    &&& #[trigger] call_ensures(C::prepare_and_fetch, (conn, sql), prepared)
                    &&& Self::opened(prepared, mapper, r)
                },
    {
        let prepared = conn.prepare_and_fetch(sql);
        let ghost answered = prepared;
        let r = match prepared {
            Ok(source) => Ok(RowStream::new(source, mapper)),
            Err(e) => Err(e),
        };
        assert(Self::opened(answered, mapper, r));
        r
    }

    /// Whether the stream has ended.
    pub fn is_finished(&self) -> (b: bool)
        ensures
            b == self.state().finished,
    {
        self.finished
    }

    /// Takes in what one backend step gave and yields what the caller gets
    /// for it. A finished stream ignores what it is given.
    pub fn settle(&mut self, fetched: Fetched) -> (out: Option<Result<R, DataError>>)
        requires
            old(self).wf(),
        ensures
            final(self).wf(),
            final(self).mapper() == old(self).mapper(),
            final(self).source() == old(self).source(),
            final(self).state() == after_pull(old(self).state(), kind_of(fetched)),
            old(self).state().finished ==> out is None,
            !old(self).state().finished ==> yields(old(self).mapper(), fetched, out),
    {
        if self.finished {
            return None;
        }
        proof {
            self.steps = Ghost(self.steps@ + 1);
        }
        match fetched {
            Fetched::Row(raw) => {
                proof {
                    self.rows = Ghost(self.rows@ + 1);
                }
                Some((self.mapper)(raw))
            },
            Fetched::Failed(e) => {
                self.finished = true;
                Some(Err(e))
            },
            Fetched::Done => {
                self.finished = true;
                None
            },
        }
    }

    /// Pulls the next mapped row.
    ///
    /// A finished stream yields `None` and leaves its backend cursor
    /// untouched. Otherwise the stream's own cursor is advanced by one step,
    /// and what that step gave decides, as [`RowStream::settle`] says, what
    /// is yielded and where the stream stands afterwards.
    pub fn next(&mut self) -> (out: Option<Result<R, DataError>>)
        requires
            old(self).wf(),
        ensures
            final(self).wf(),
            final(self).mapper() == old(self).mapper(),
            old(self).state().finished ==> {
                &&& out is None
                &&& final(self).state() == old(self).state()
                &&& final(self).source() == old(self).source()
            },
            !old(self).state().finished ==> exists|cursor: &mut S, fetched: Fetched|
                {
                    &&& *cursor == old(self).source()
                    &&& *final(cursor) == final(self).source()
                    &&& #[trigger] call_ensures(S::fetch, (cursor,), fetched)
                    &&& yields(old(self).mapper(), fetched, out)
                    &&& final(self).state() == after_pull(old(self).state(), kind_of(fetched))
                },
    {
        if self.finished {
            return None;
        }
        let fetched = self.source.fetch();
        let ghost given = fetched;
        let out = self.settle(fetched);
        assert(yields(old(self).mapper(), given, out));
        out
    }
}

/// Reports a row as an object, one member per column.
pub fn decode_row(row: RawRow) -> (r: Result<Value, DataError>)
    ensures
        r matches Ok(v) && v@ == ValueView::Object(row_members(row@)),
{
    Ok(sql_to_json(row))
}

/// What a stream over a table's rows makes of a row: the object that
/// [`decode_row`] reports.
pub open spec fn decodes<F: Fn(RawRow) -> Result<Value, DataError>>(mapper: F) -> bool {
    forall|row: RawRow, item: Result<Value, DataError>|
        call_ensures(mapper, (row,), item) ==> (item matches Ok(v) && v@ == ValueView::Object(
            row_members(row@),
        ))
}

/// Opens a stream over every row of `table`, each reported as an object.
///
/// The connection is asked to prepare exactly the query for every row of
/// `table`. Whether it can is the connection's to say: a cursor becomes a
/// fresh stream over that cursor which maps each row as [`decode_row`]
/// does, and a failure is passed on as it is.
pub fn stream_table<C: PrepareAndFetch>(conn: C, table: &str) -> (r: Result<
    RowStream<C::Cursor, impl Fn(RawRow) -> Result<Value, DataError>>,
    DataError,
>)
    ensures
        exists|sql: &str, prepared: Result<C::Cursor, DataError>|
            {
                &&& sql@ == select_all_query(table@)
                &&& #[trigger] call_ensures(C::prepare_and_fetch, (conn, sql), prepared)
                &&& match prepared {
                    Ok(source) => {
                        &&& r matches Ok(stream)
                        &&& stream.wf()
                        &&& stream.state() == fresh()
                        &&& stream.source() == source
                        &&& decodes(stream.mapper())
                    },
                    Err(e) => r matches Err(passed) && passed == e,
                }
            },
{
    let sql = select_all_sql(table);
    RowStream::open(conn, sql.as_str(), decode_row)
}

} // verus!
