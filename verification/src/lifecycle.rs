//! The course of one request, from its arrival to its answer.
//!
//! A request is handled by a small machine that never blocks. It is started
//! with [`begin`], which says what to do first. Whoever runs it carries out
//! that action, reports the outcome as an [`Event`] to [`step`], and goes on
//! so until the action is [`Action::Respond`]. The machine waits in two places
//! only: for a connection from the pool, and for the store to answer the one
//! statement of the request. The connection is held from the first to the
//! second, and is given back when the answer is sent, whatever the answer is.

use crate::errors::ApiError;
use crate::pool::LeaseFailure;
use crate::requests::{Draft, DraftView};
use crate::routes::{Entity, Operation};
use crate::store::{Record, RecordView, Rows, RowsView, Statement, StatementView, LIST_LIMIT};
use vstd::prelude::*;

verus! {

/// A request as it arrives: the operation that its route names, and its
/// payload. The payload is `None` where the request has no body, or has one
/// that did not deserialize into the shape of any entity.
#[derive(Debug, PartialEq)]
pub struct Request {
    pub operation: Operation,
    pub payload: Option<Draft>,
}

/// A request as a value of the model.
pub struct RequestView {
    pub operation: Operation,
    pub payload: Option<DraftView>,
}

impl View for Request {
    type V = RequestView;

    open spec fn view(&self) -> RequestView {
        RequestView {
            operation: self.operation,
            payload: match self.payload {
                Some(draft) => Some(draft@),
                None => None,
            },
        }
    }
}

/// The answer to a request.
#[derive(Debug, PartialEq)]
pub enum Response {
    /// The answer to the liveness probe.
    Greeting,
    /// The fixed acknowledgement of a create.
    Acknowledged,
    /// The records of a list, in the order of the store.
    Listing(Rows),
    /// The request failed.
    Failure(ApiError),
}

/// An answer as a value of the model.
pub enum ResponseView {
    Greeting,
    Acknowledged,
    Listing(RowsView),
    Failure(ApiError),
}

impl ResponseView {
    /// The status of the answer: 200 unless the request failed.
    pub open spec fn status(self) -> u16 {
        match self {
            ResponseView::Failure(error) => error.spec_status(),
            _ => 200,
        }
    }

    /// The fixed text of the answer, where it has one.
    pub open spec fn text(self) -> Option<Seq<char>> {
        match self {
            ResponseView::Greeting => Some("Hello world!"@),
            ResponseView::Acknowledged => Some("ok"@),
            _ => None,
        }
    }
}

impl View for Response {
    type V = ResponseView;

    open spec fn view(&self) -> ResponseView {
        match self {
            Response::Greeting => ResponseView::Greeting,
            Response::Acknowledged => ResponseView::Acknowledged,
            Response::Listing(rows) => ResponseView::Listing(rows@),
            Response::Failure(error) => ResponseView::Failure(*error),
        }
    }
}

impl Response {
    /// The status of the answer: 200 unless the request failed, and then the
    /// status of the failure.
    pub fn status(&self) -> (status: u16)
        ensures
            status == self@.status(),
    {
        match self {
            Response::Failure(error) => error.status(),
            _ => 200,
        }
    }

    /// The fixed text of the answer: the greeting of the liveness probe, the
    /// acknowledgement of a create, and `None` for a listing or a failure,
    /// whose bodies are built from their contents.
    pub fn text(&self) -> (text: Option<&'static str>)
        ensures
            match text {
                Some(text) => self@.text() == Some(text@),
                None => self@.text() is None,
            },
    {
        match self {
            Response::Greeting => Some("Hello world!"),
            Response::Acknowledged => Some("ok"),
            _ => None,
        }
    }
}

/// What the machine asks its runner to do next.
#[derive(Debug, PartialEq)]
pub enum Action {
    /// Take a validated connection from the pool, waiting for one if need be.
    Checkout,
    /// Run the statement on the connection that was taken.
    Execute(Statement),
    /// Give the connection back, if one was taken, and send the answer.
    Respond(Response),
}

/// An action as a value of the model.
pub enum ActionView {
    Checkout,
    Execute(StatementView),
    Respond(ResponseView),
}

impl View for Action {
    type V = ActionView;

    open spec fn view(&self) -> ActionView {
        match self {
            Action::Checkout => ActionView::Checkout,
            Action::Execute(statement) => ActionView::Execute(statement@),
            Action::Respond(response) => ActionView::Respond(response@),
        }
    }
}

/// What the runner reports back.
#[derive(Debug, PartialEq)]
pub enum Event {
    /// The pool handed out a connection.
    Leased,
    /// The pool handed out none.
    LeaseFailed(LeaseFailure),
    /// The select returned these rows.
    Selected(Rows),
    /// The insert returned this row.
    Inserted(Record),
    /// The store reported an error for the statement.
    StatementFailed,
}

/// An event as a value of the model.
pub enum EventView {
    Leased,
    LeaseFailed(LeaseFailure),
    Selected(RowsView),
    Inserted(RecordView),
    StatementFailed,
}

impl View for Event {
    type V = EventView;

    open spec fn view(&self) -> EventView {
        match self {
            Event::Leased => EventView::Leased,
            Event::LeaseFailed(failure) => EventView::LeaseFailed(*failure),
            Event::Selected(rows) => EventView::Selected(rows@),
            Event::Inserted(record) => EventView::Inserted(record@),
            Event::StatementFailed => EventView::StatementFailed,
        }
    }
}

/// Where a request stands.
#[derive(Debug, PartialEq)]
pub enum State {
    /// Waiting for the pool, with the statement that is to be run.
    AwaitingConnection(Statement),
    /// Waiting for the rows of a select on this entity's table.
    AwaitingRows(Entity),
    /// Waiting for the row of an insert into this entity's table.
    AwaitingRecord(Entity),
    /// The answer has been decided.
    Finished,
}

/// A state as a value of the model.
pub enum StateView {
    AwaitingConnection(StatementView),
    AwaitingRows(Entity),
    AwaitingRecord(Entity),
    Finished,
}

impl View for State {
    type V = StateView;

    open spec fn view(&self) -> StateView {
        match self {
            State::AwaitingConnection(statement) => StateView::AwaitingConnection(statement@),
            State::AwaitingRows(entity) => StateView::AwaitingRows(*entity),
            State::AwaitingRecord(entity) => StateView::AwaitingRecord(*entity),
            State::Finished => StateView::Finished,
        }
    }
}

/// One move of the machine: where the request stands now, and what is to be
/// done next.
#[derive(Debug, PartialEq)]
pub struct Transition {
    pub next: State,
    pub action: Action,
}

/// A move as a value of the model.
pub struct TransitionView {
    pub next: StateView,
    pub action: ActionView,
}

impl View for Transition {
    type V = TransitionView;

    open spec fn view(&self) -> TransitionView {
        TransitionView { next: self.next@, action: self.action@ }
    }
}

/// The move that ends a request with `response`.
pub open spec fn finish(response: ResponseView) -> TransitionView {
    TransitionView { next: StateView::Finished, action: ActionView::Respond(response) }
}

/// The move that asks the pool for a connection on which to run `statement`.
pub open spec fn lease_for(statement: StatementView) -> TransitionView {
    TransitionView {
        next: StateView::AwaitingConnection(statement),
        action: ActionView::Checkout,
    }
}

/// The state in which the outcome of `statement` is awaited.
pub open spec fn awaiting(statement: StatementView) -> StateView {
    match statement {
        StatementView::Select { table, limit } => StateView::AwaitingRows(table),
        StatementView::Insert(draft) => StateView::AwaitingRecord(draft.entity()),
    }
}

/// The first move for a request.
///
/// The liveness probe is answered at once. A list asks for a connection, to
/// select the first [`LIST_LIMIT`] rows of the entity's table. A create whose
/// payload has the shape of its entity asks for a connection, to insert that
/// payload; any other create is refused before the pool or the store is
/// touched.
pub open spec fn start(request: RequestView) -> TransitionView {
    match request.operation {
        Operation::Liveness => finish(ResponseView::Greeting),
        Operation::List(entity) => lease_for(
            StatementView::Select { table: entity, limit: LIST_LIMIT },
        ),
        Operation::Create(entity) => match request.payload {
            Some(draft) if draft.entity() == entity => lease_for(StatementView::Insert(draft)),
            _ => finish(ResponseView::Failure(ApiError::BadRequest)),
        },
    }
}

/// The move that `event` causes in `state`, or `None` where the event is not
/// an outcome of what the state waits for.
///
/// While a connection is awaited, a lease lets the statement run, and a failed
/// lease ends the request with the error of that failure. While rows are
/// awaited, rows of the awaited entity end the request with the first
/// [`LIST_LIMIT`] of them, and a failed statement ends it with
/// `QueryFailed`. While a record is awaited, a record of the awaited entity
/// ends the request with the acknowledgement, and a failed statement ends it
/// with `InsertFailed`. A finished request takes no event.
pub open spec fn advance(state: StateView, event: EventView) -> Option<TransitionView> {
    match state {
        StateView::AwaitingConnection(statement) => match event {
            EventView::Leased => Some(
                TransitionView {
                    next: awaiting(statement),
                    action: ActionView::Execute(statement),
                },
            ),
            EventView::LeaseFailed(failure) => Some(
                finish(ResponseView::Failure(failure.spec_error())),
            ),
            _ => None,
        },
        StateView::AwaitingRows(entity) => match event {
            EventView::Selected(rows) if rows.entity() == entity => Some(
                finish(ResponseView::Listing(rows.first(LIST_LIMIT as nat))),
            ),
            EventView::StatementFailed => Some(
                finish(ResponseView::Failure(ApiError::QueryFailed)),
            ),
            _ => None,
        },
        StateView::AwaitingRecord(entity) => match event {
            EventView::Inserted(record) if record.entity() == entity => Some(
                finish(ResponseView::Acknowledged),
            ),
            EventView::StatementFailed => Some(
                finish(ResponseView::Failure(ApiError::InsertFailed)),
            ),
            _ => None,
        },
        StateView::Finished => None,
    }
}

/// The move that ends a request with `response`.
fn finished(response: Response) -> (transition: Transition)
    ensures
        transition@ == finish(response@),
{
    Transition { next: State::Finished, action: Action::Respond(response) }
}

/// Starts the handling of `request`: the state it is in, and what to do first.
pub fn begin(request: Request) -> (transition: Transition)
    ensures
        transition@ == start(request@),
{
    match request.operation {
        Operation::Liveness => finished(Response::Greeting),
        Operation::List(entity) => Transition {
            next: State::AwaitingConnection(Statement::Select { table: entity, limit: LIST_LIMIT }),
            action: Action::Checkout,
        },
        Operation::Create(entity) => match request.payload {
            Some(draft) => {
                if draft.entity() == entity {
                    Transition {
                        next: State::AwaitingConnection(Statement::Insert(draft)),
                        action: Action::Checkout,
                    }
                } else {
                    finished(Response::Failure(ApiError::BadRequest))
                }
            },
            None => finished(Response::Failure(ApiError::BadRequest)),
        },
    }
}

/// Takes the machine one move on: `Some` exactly when `event` is an outcome of
/// what `state` waits for, and then the move that [`advance`] describes.
pub fn step(state: State, event: Event) -> (transition: Option<Transition>)
    ensures
        match transition {
            Some(transition) => advance(state@, event@) == Some(transition@),
            None => advance(state@, event@) is None,
        },
{
    match state {
        State::AwaitingConnection(statement) => match event {
            Event::Leased => {
                let next = match &statement {
                    Statement::Select { table, limit } => State::AwaitingRows(*table),
                    Statement::Insert(draft) => State::AwaitingRecord(draft.entity()),
                };
                Some(Transition { next, action: Action::Execute(statement) })
            },
            Event::LeaseFailed(failure) => Some(finished(Response::Failure(failure.error()))),
            _ => None,
        },
        State::AwaitingRows(entity) => match event {
            Event::Selected(rows) => {
                if rows.entity() == entity {
                    Some(finished(Response::Listing(rows.first(LIST_LIMIT))))
                } else {
                    None
                }
            },
            Event::StatementFailed => Some(finished(Response::Failure(ApiError::QueryFailed))),
            _ => None,
        },
        State::AwaitingRecord(entity) => match event {
            Event::Inserted(record) => {
                if record.entity() == entity {
                    Some(finished(Response::Acknowledged))
                } else {
                    None
                }
            },
            Event::StatementFailed => Some(finished(Response::Failure(ApiError::InsertFailed))),
            _ => None,
        },
        State::Finished => None,
    }
}

} // verus!
