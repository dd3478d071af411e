//! The course of one query, as a state machine.
//!
//! A driver loop starts in `QueryState::Connecting`, performs the action that
//! `step` names, reports what came of it as a `DriverEvent`, and goes on
//! until the state is `Finished`. A connection that was opened is closed
//! before the query finishes, whatever happened in between.

use vstd::prelude::*;
use crate::repository::{
    acceptable, decode_records, decoded_all, fault_of, first_fault, flat,
    lemma_decoded_all_concat, lemma_first_fault_concat, DbRepository, RepositoryError,
};
use crate::value::{GraphValue, Record};

verus! {

/// Where a query stands.
#[derive(Debug, PartialEq)]
pub enum QueryState<T> {
    /// No connection yet.
    Connecting,
    /// Connected; the query has not run yet.
    Executing,
    /// The query ran; the entities collected so far.
    Streaming(Vec<T>),
    /// The outcome is known and the connection is still open.
    Closing(Result<Vec<T>, RepositoryError>),
    /// The connection is gone, or never was; the outcome of the query.
    Finished(Result<Vec<T>, RepositoryError>),
}

/// What the driver reports after an action.
#[derive(Debug, PartialEq)]
pub enum DriverEvent {
    /// A connection is open and ready.
    Connected,
    /// No connection could be opened, or it was not ready.
    ConnectFailed,
    /// The query was accepted.
    Executed,
    /// The query was refused, with the driver's message.
    ExecuteFailed(String),
    /// The next records of the result.
    Records(Vec<Record>),
    /// The result has no more records.
    EndOfStream,
    /// The driver failed while it fetched, with its message.
    FetchFailed(String),
    /// The connection was closed.
    Closed,
}

/// What the driver loop does next.
#[derive(Clone, Copy, Debug, PartialEq, Eq)]
pub enum DriverAction {
    Connect,
    Execute,
    Fetch,
    Close,
    Finish,
}

/// The action that a state waits for.
pub open spec fn pending<T>(state: QueryState<T>) -> DriverAction {
    match state {
        QueryState::Connecting => DriverAction::Connect,
        QueryState::Executing => DriverAction::Execute,
        QueryState::Streaming(_) => DriverAction::Fetch,
        QueryState::Closing(_) => DriverAction::Close,
        QueryState::Finished(_) => DriverAction::Finish,
    }
}

/// A connection is open in this state.
pub open spec fn holds_connection<T>(state: QueryState<T>) -> bool {
    state is Executing || state is Streaming || state is Closing
}

/// `post` follows a batch of records whose values are `values`, after
/// `before` had been collected: either the new entities stand behind the old
/// ones, in the order of the values, or the first bad value ends the query
/// with its error and nothing of what was collected.
pub open spec fn absorbs<T, R: DbRepository<T>>(
    before: Seq<T>,
    values: Seq<GraphValue>,
    post: QueryState<T>,
) -> bool {
    match post {
        QueryState::Streaming(all) => {
            &&& all@.len() == before.len() + values.len()
            &&& all@.subrange(0, before.len() as int) == before
            &&& decoded_all::<T, R>(values, all@.subrange(before.len() as int, all@.len() as int))
        },
        QueryState::Closing(Err(e)) => exists|at: int| #[trigger]
            first_fault::<T, R>(values, at) && e == fault_of(values[at]),
        _ => false,
    }
}

/// The state that follows `pre` on `event`. An event that does not answer
/// the pending action changes nothing.
pub open spec fn steps<T, R: DbRepository<T>>(
    pre: QueryState<T>,
    event: DriverEvent,
    post: QueryState<T>,
) -> bool {
    match (pre, event) {
        (QueryState::Connecting, DriverEvent::Connected) => post is Executing,
        (QueryState::Connecting, DriverEvent::ConnectFailed) => post == QueryState::<T>::Finished(
            Err(RepositoryError::ConnectionFailed),
        ),
        (QueryState::Executing, DriverEvent::Executed) => post matches QueryState::Streaming(v)
            && v@.len() == 0,
        (QueryState::Executing, DriverEvent::ExecuteFailed(message)) => post
            == QueryState::<T>::Closing(Err(RepositoryError::QueryFailed(message))),
        (QueryState::Streaming(collected), DriverEvent::Records(records)) => absorbs::<T, R>(
            collected@,
            flat(records@),
            post,
        ),
        (QueryState::Streaming(collected), DriverEvent::EndOfStream) => post
            == QueryState::Closing(Ok(collected)),
        (QueryState::Streaming(_), DriverEvent::FetchFailed(message)) => post
            == QueryState::<T>::Closing(Err(RepositoryError::QueryFailed(message))),
        (QueryState::Closing(outcome), DriverEvent::Closed) => post == QueryState::Finished(
            outcome,
        ),
        _ => post == pre,
    }
}

/// The state in which every query starts, and the first action.
pub fn start<T>() -> (r: (QueryState<T>, DriverAction))
    ensures
        r.0 is Connecting,
        r.1 == DriverAction::Connect,
{
    (QueryState::Connecting, DriverAction::Connect)
}

fn action_for<T>(state: &QueryState<T>) -> (r: DriverAction)
    ensures
        r == pending(*state),
{
    match state {
        QueryState::Connecting => DriverAction::Connect,
        QueryState::Executing => DriverAction::Execute,
        QueryState::Streaming(_) => DriverAction::Fetch,
        QueryState::Closing(_) => DriverAction::Close,
        QueryState::Finished(_) => DriverAction::Finish,
    }
}

fn absorb<T, R: DbRepository<T>>(repo: &R, collected: Vec<T>, records: &Vec<Record>) -> (r:
    QueryState<T>)
    ensures
        absorbs::<T, R>(collected@, flat(records@), r),
{
    let mut all = collected;
    match decode_records::<T, R>(repo, records) {
        Ok(mut more) => {
            let ghost added = more@;
            all.append(&mut more);
            proof {
                assert(all@.subrange(0, collected@.len() as int) =~= collected@);
                assert(all@.subrange(collected@.len() as int, all@.len() as int) =~= added);
            }
            QueryState::Streaming(all)
        },
        Err(e) => {
            QueryState::Closing(Err(e))
        },
    }
}

/// Takes the query one step on: the state after `event`, and the action to
/// perform next.
pub fn step<T, R: DbRepository<T>>(repo: &R, state: QueryState<T>, event: DriverEvent) -> (r: (
    QueryState<T>,
    DriverAction,
))
    ensures
        steps::<T, R>(state, event, r.0),
        r.1 == pending(r.0),
{
    let next = match (state, event) {
        (QueryState::Connecting, DriverEvent::Connected) => QueryState::Executing,
        (QueryState::Connecting, DriverEvent::ConnectFailed) => QueryState::Finished(
            Err(RepositoryError::ConnectionFailed),
        ),
        (QueryState::Executing, DriverEvent::Executed) => QueryState::Streaming(Vec::new()),
        (QueryState::Executing, DriverEvent::ExecuteFailed(message)) => QueryState::Closing(
            Err(RepositoryError::QueryFailed(message)),
        ),
        (QueryState::Streaming(collected), DriverEvent::Records(records)) => absorb::<T, R>(
            repo,
            collected,
            &records,
        ),
        (QueryState::Streaming(collected), DriverEvent::EndOfStream) => QueryState::Closing(
            Ok(collected),
        ),
        (QueryState::Streaming(_), DriverEvent::FetchFailed(message)) => QueryState::Closing(
            Err(RepositoryError::QueryFailed(message)),
        ),
        (QueryState::Closing(outcome), DriverEvent::Closed) => QueryState::Finished(outcome),
        (unchanged, _) => unchanged,
    };
    let action = action_for(&next);
    (next, action)
}

/// The outcome of a finished query; `None` while the query is under way.
pub fn outcome<T>(state: QueryState<T>) -> (r: Option<Result<Vec<T>, RepositoryError>>)
    ensures
        r == match state {
            QueryState::Finished(o) => Some(o),
            _ => None,
        },
{
    match state {
        QueryState::Finished(o) => Some(o),
        _ => None,
    }
}

/// A query finishes in two ways only: no connection could be opened, or the
/// connection that was open has been closed. So no query ends while it holds
/// a connection.
pub proof fn lemma_connection_released<T, R: DbRepository<T>>(
    pre: QueryState<T>,
    event: DriverEvent,
    post: QueryState<T>,
)
    requires
        steps::<T, R>(pre, event, post),
        post is Finished,
    ensures
        pre is Finished && post == pre || pre is Connecting && event is ConnectFailed && post
            == QueryState::<T>::Finished(Err(RepositoryError::ConnectionFailed)) || pre is Closing
            && event is Closed && post == QueryState::Finished(pre->Closing_0),
        holds_connection(pre) ==> pre is Closing && event is Closed,
{
}

/// Once a connection is open it stays open until it is closed: from a state
/// that holds a connection every step leads to another such state, or, on
/// `Closed` while closing, to the end.
pub proof fn lemma_connection_kept<T, R: DbRepository<T>>(
    pre: QueryState<T>,
    event: DriverEvent,
    post: QueryState<T>,
)
    requires
        steps::<T, R>(pre, event, post),
        holds_connection(pre),
    ensures
        holds_connection(post) || (pre is Closing && event is Closed && post is Finished),
        !(post is Connecting),
{
}

/// The policy is strict. A batch is taken in exactly where every one of its
/// values is a node that the decoder accepts; any other batch ends the query
/// with `UnexpectedValue` or `DecodeRejected`, and the entities collected
/// before it are not part of the outcome.
pub proof fn lemma_strict_policy<T, R: DbRepository<T>>(
    collected: Vec<T>,
    records: Vec<Record>,
    post: QueryState<T>,
)
    requires
        steps::<T, R>(QueryState::Streaming(collected), DriverEvent::Records(records), post),
    ensures
        post is Streaming <==> forall|i: int|
            0 <= i < flat(records@).len() ==> acceptable::<T, R>(#[trigger] flat(records@)[i]),
        !(post is Streaming) ==> post == QueryState::<T>::Closing(
            Err(RepositoryError::UnexpectedValue),
        ) || post == QueryState::<T>::Closing(Err(RepositoryError::DecodeRejected)),
{
}

/// Entities stand in the order in which their values came. Two batches
/// taken in one after the other leave what a single batch with the values
/// of both would leave: the same entities in the same order, or the error of
/// the first bad value.
pub proof fn lemma_batches_in_order<T, R: DbRepository<T>>(
    before: Seq<T>,
    first: Seq<GraphValue>,
    between: QueryState<T>,
    second: Seq<GraphValue>,
    post: QueryState<T>,
)
    requires
        absorbs::<T, R>(before, first, between),
        between matches QueryState::Streaming(m) && absorbs::<T, R>(m@, second, post),
    ensures
        absorbs::<T, R>(before, first + second, post),
{
    let m = between->Streaming_0@;
    let start = before.len() as int;
    let taken = m.subrange(start, m.len() as int);
    match post {
        QueryState::Streaming(all) => {
            let added = all@.subrange(m.len() as int, all@.len() as int);
            assert(all@.subrange(0, start) =~= all@.subrange(0, m.len() as int).subrange(0, start));
            lemma_decoded_all_concat::<T, R>(first, taken, second, added);
            assert(all@.subrange(start, all@.len() as int) =~= taken + added) by {
                assert forall|i: int| 0 <= i < taken.len() implies all@[start + i] == taken[i] by {
                    assert(all@.subrange(0, m.len() as int)[start + i] == m[start + i]);
                }
            }
        },
        QueryState::Closing(Err(e)) => {
            let at = choose|at: int| #[trigger]
                first_fault::<T, R>(second, at) && e == fault_of(second[at]);
            lemma_first_fault_concat::<T, R>(first, taken, second, at);
        },
        _ => {},
    }
}

} // verus!
