//! What holds of every request, whatever the pool and the store report.
//!
//! The statements here are about [`start`] and [`advance`], which the
//! functions `begin` and `step` compute, and about whole runs of the machine.

use crate::errors::ApiError;
use crate::lifecycle::{
    advance, awaiting, finish, lease_for, start, ActionView, EventView, RequestView,
    ResponseView, StateView,
};
use crate::pool::LeaseFailure;
use crate::requests::DraftView;
use crate::routes::{Entity, Operation};
use crate::store::{RecordView, RowsView, StatementView, LIST_LIMIT};
use vstd::prelude::*;

verus! {

/// The actions that the machine asks for, one after the other, when it is in
/// `state` and the runner reports `events` in turn. An event that the machine
/// does not take ends the run.
pub open spec fn run(state: StateView, events: Seq<EventView>) -> Seq<ActionView>
    decreases events.len(),
{
    if events.len() == 0 {
        Seq::empty()
    } else {
        match advance(state, events[0]) {
            Some(transition) => seq![transition.action] + run(
                transition.next,
                events.drop_first(),
            ),
            None => Seq::empty(),
        }
    }
}

/// All the actions of one request: its first, then those that `events` cause.
pub open spec fn handling(request: RequestView, events: Seq<EventView>) -> Seq<ActionView> {
    seq![start(request).action] + run(start(request).next, events)
}

/// How many more events a request in `state` can take.
pub open spec fn remaining(state: StateView) -> nat {
    match state {
        StateView::AwaitingConnection(_) => 2,
        StateView::AwaitingRows(_) => 1,
        StateView::AwaitingRecord(_) => 1,
        StateView::Finished => 0,
    }
}

/// A list never answers with more than ten records, however many rows the
/// store yields: whenever a move answers with a listing, the listing holds at
/// most [`LIST_LIMIT`] records, and they are the first rows that were
/// reported, unchanged and in their order.
pub proof fn law_listing_is_bounded(state: StateView, event: EventView, listed: RowsView)
    requires
        advance(state, event) matches Some(transition) && transition.action
            == ActionView::Respond(ResponseView::Listing(listed)),
    ensures
        listed.len() <= LIST_LIMIT,
        LIST_LIMIT == 10,
        event matches EventView::Selected(rows) && listed == rows.first(LIST_LIMIT as nat)
            && listed.len() <= rows.len() && (rows.len() <= LIST_LIMIT ==> listed == rows),
{
}

/// No request starts with a listing: one is only ever the answer to rows that
/// the store reported.
pub proof fn law_listing_needs_rows(request: RequestView)
    ensures
        !(start(request).action matches ActionView::Respond(ResponseView::Listing(_))),
{
}

/// A create whose payload is missing, or has not the shape of its entity,
/// fails as a bad request, which is the client's fault, and does so before
/// anything is asked of the pool or the store: the request is finished at
/// once and takes no event.
pub proof fn law_refused_payload_touches_nothing(request: RequestView, events: Seq<EventView>)
    requires
        request.operation matches Operation::Create(entity) && !(request.payload matches Some(
            draft,
        ) && draft.entity() == entity),
    ensures
        start(request) == finish(ResponseView::Failure(ApiError::BadRequest)),
        ApiError::BadRequest.is_client_fault(),
        handling(request, events) == seq![
            ActionView::Respond(ResponseView::Failure(ApiError::BadRequest)),
        ],
{
    if events.len() > 0 {
        assert(advance(StateView::Finished, events[0]) is None);
    }
    assert(run(StateView::Finished, events) =~= Seq::empty());
}

/// A create whose payload has the shape of its entity hands exactly that
/// payload to the store, once a connection is there, and is acknowledged when
/// the store returns the record.
pub proof fn law_create_stores_the_payload(entity: Entity, draft: DraftView, record: RecordView)
    requires
        draft.entity() == entity,
        record.entity() == entity,
    ensures
        handling(
            RequestView { operation: Operation::Create(entity), payload: Some(draft) },
            seq![EventView::Leased, EventView::Inserted(record)],
        ) == seq![
            ActionView::Checkout,
            ActionView::Execute(StatementView::Insert(draft)),
            ActionView::Respond(ResponseView::Acknowledged),
        ],
{
    let request = RequestView { operation: Operation::Create(entity), payload: Some(draft) };
    let events = seq![EventView::Leased, EventView::Inserted(record)];
    let statement = StatementView::Insert(draft);
    assert(start(request) == lease_for(statement));
    assert(events.drop_first() =~= seq![EventView::Inserted(record)]);
    assert(events.drop_first().drop_first() =~= Seq::<EventView>::empty());
    assert(run(StateView::Finished, Seq::<EventView>::empty()) =~= Seq::empty());
    assert(run(awaiting(statement), events.drop_first()) =~= seq![
        ActionView::Respond(ResponseView::Acknowledged),
    ]);
    assert(run(StateView::AwaitingConnection(statement), events) =~= seq![
        ActionView::Execute(statement),
        ActionView::Respond(ResponseView::Acknowledged),
    ]);
}

/// A list selects the first ten rows of its entity's table, once a connection
/// is there, and answers with the rows that the store returns, cut to ten.
pub proof fn law_list_returns_the_rows(entity: Entity, payload: Option<DraftView>, rows: RowsView)
    requires
        rows.entity() == entity,
    ensures
        handling(
            RequestView { operation: Operation::List(entity), payload },
            seq![EventView::Leased, EventView::Selected(rows)],
        ) == seq![
            ActionView::Checkout,
            ActionView::Execute(StatementView::Select { table: entity, limit: LIST_LIMIT }),
            ActionView::Respond(ResponseView::Listing(rows.first(LIST_LIMIT as nat))),
        ],
{
    let request = RequestView { operation: Operation::List(entity), payload };
    let events = seq![EventView::Leased, EventView::Selected(rows)];
    let statement = StatementView::Select { table: entity, limit: LIST_LIMIT };
    assert(start(request) == lease_for(statement));
    assert(events.drop_first() =~= seq![EventView::Selected(rows)]);
    assert(events.drop_first().drop_first() =~= Seq::<EventView>::empty());
    assert(run(StateView::Finished, Seq::<EventView>::empty()) =~= Seq::empty());
    assert(run(awaiting(statement), events.drop_first()) =~= seq![
        ActionView::Respond(ResponseView::Listing(rows.first(LIST_LIMIT as nat))),
    ]);
    assert(run(StateView::AwaitingConnection(statement), events) =~= seq![
        ActionView::Execute(statement),
        ActionView::Respond(ResponseView::Listing(rows.first(LIST_LIMIT as nat))),
    ]);
}

/// What a client creates, it finds again in a later list, as the store
/// returned it, wherever the store yields the record among the first ten rows
/// of that list. The store is taken to have kept what the client wrote: the
/// record that it returns for the insert holds the fields of the payload. Its
/// identity and its creation time are the store's own, and reach the client
/// untouched.
pub proof fn law_created_record_is_listed(
    entity: Entity,
    draft: DraftView,
    record: RecordView,
    rows: RowsView,
    at: int,
)
    requires
        draft.entity() == entity,
        record.entity() == entity,
        record.fields() == draft,
        rows.entity() == entity,
        0 <= at < rows.len(),
        at < LIST_LIMIT,
        rows.get(at) == record,
    ensures
        handling(
            RequestView { operation: Operation::Create(entity), payload: Some(draft) },
            seq![EventView::Leased, EventView::Inserted(record)],
        ).last() == ActionView::Respond(ResponseView::Acknowledged),
        handling(
            RequestView { operation: Operation::List(entity), payload: None },
            seq![EventView::Leased, EventView::Selected(rows)],
        ).last() == ActionView::Respond(ResponseView::Listing(rows.first(LIST_LIMIT as nat))),
        at < rows.first(LIST_LIMIT as nat).len(),
        rows.first(LIST_LIMIT as nat).get(at) == record,
        rows.first(LIST_LIMIT as nat).get(at).fields() == draft,
{
    law_create_stores_the_payload(entity, draft, record);
    law_list_returns_the_rows(entity, None, rows);
}

/// Each failure has its own trigger. A move fails a request with
/// `PoolExhausted` or `ConnectionInvalid` exactly when the awaited checkout
/// failed so, with `QueryFailed` exactly when the awaited select failed, with
/// `InsertFailed` exactly when the awaited insert failed, and never with
/// `BadRequest`, which only the start of a request decides.
pub proof fn law_failures_have_their_triggers(state: StateView, event: EventView, error: ApiError)
    ensures
        (advance(state, event) matches Some(transition) && transition.action
            == ActionView::Respond(ResponseView::Failure(error))) <==> match error {
            ApiError::PoolExhausted => state is AwaitingConnection && event
                == EventView::LeaseFailed(LeaseFailure::Exhausted),
            ApiError::ConnectionInvalid => state is AwaitingConnection && event
                == EventView::LeaseFailed(LeaseFailure::Invalid),
            ApiError::QueryFailed => state is AwaitingRows && event is StatementFailed,
            ApiError::InsertFailed => state is AwaitingRecord && event is StatementFailed,
            ApiError::BadRequest => false,
        },
{
}

/// Every move brings the request nearer to its answer, and the request is
/// finished exactly when the move is the answer. After the start, the pool is
/// never asked again, and a statement is run exactly on the move that follows
/// the lease.
pub proof fn law_moves_make_progress(state: StateView, event: EventView)
    requires
        advance(state, event) is Some,
    ensures
        remaining(advance(state, event)->0.next) < remaining(state),
        advance(state, event)->0.next is Finished <==> advance(state, event)->0.action is Respond,
        !(advance(state, event)->0.action is Checkout),
        advance(state, event)->0.action is Execute <==> state is AwaitingConnection && event
            is Leased,
{
}

/// A run from `state` asks for no more actions than the state has events
/// left, never asks the pool for a connection, and runs a statement only as
/// its first action, and then only while a connection is awaited.
pub proof fn lemma_run_is_short(state: StateView, events: Seq<EventView>)
    ensures
        run(state, events).len() <= remaining(state),
        run(state, events).len() <= events.len(),
        forall|i: int|
            0 <= i < run(state, events).len() ==> !(#[trigger] run(state, events)[i]
                is Checkout),
        forall|i: int|
            0 <= i < run(state, events).len() && #[trigger] run(state, events)[i] is Execute
                ==> i == 0 && state is AwaitingConnection,
        forall|i: int|
            0 <= i < run(state, events).len() && #[trigger] run(state, events)[i] is Respond
                ==> i == run(state, events).len() - 1,
    decreases events.len(),
{
    if events.len() > 0 {
        match advance(state, events[0]) {
            Some(transition) => {
                law_moves_make_progress(state, events[0]);
                let rest = run(transition.next, events.drop_first());
                lemma_run_is_short(transition.next, events.drop_first());
                assert(run(state, events) == seq![transition.action] + rest);
                assert forall|i: int| 0 < i < run(state, events).len() implies run(
                    state,
                    events,
                )[i] == rest[i - 1] by {}
                if transition.action is Respond {
                    assert(rest.len() == 0);
                }
            },
            None => {},
        }
    }
}

/// A request makes at most one round trip to the store, on a connection that
/// it took from the pool just before, and takes no more than that one
/// connection. Whatever the runner reports, the actions of a request are at
/// most three; only the first can be a checkout, only the second can be a
/// statement, and then the first was the checkout; and an answer is the last
/// action.
pub proof fn law_one_round_trip(request: RequestView, events: Seq<EventView>)
    ensures
        1 <= handling(request, events).len() <= 3,
        forall|i: int|
            0 <= i < handling(request, events).len() && #[trigger] handling(request, events)[i]
                is Checkout ==> i == 0,
        forall|i: int|
            0 <= i < handling(request, events).len() && #[trigger] handling(request, events)[i]
                is Execute ==> i == 1 && handling(request, events)[0] is Checkout,
        forall|i: int|
            0 <= i < handling(request, events).len() && #[trigger] handling(request, events)[i]
                is Respond ==> i == handling(request, events).len() - 1,
{
    let first = start(request);
    let rest = run(first.next, events);
    lemma_run_is_short(first.next, events);
    assert(first.next is Finished <==> first.action is Respond);
    assert(first.next is AwaitingConnection <==> first.action is Checkout);
    assert(!(first.action is Execute));
    assert forall|i: int| 0 < i < handling(request, events).len() implies handling(
        request,
        events,
    )[i] == rest[i - 1] by {}
}

/// Only a finished request takes no event. While a connection is awaited,
/// a lease and a failed lease are both taken; while the store is awaited, its
/// rows or its record are taken where they are of the awaited entity, and so
/// is a failed statement.
pub proof fn law_awaited_outcomes_are_taken(state: StateView)
    ensures
        state is Finished <==> forall|event: EventView| advance(state, event) is None,
        state is AwaitingConnection ==> advance(state, EventView::Leased) is Some && forall|
            failure: LeaseFailure,
        | #[trigger] advance(state, EventView::LeaseFailed(failure)) is Some,
        state matches StateView::AwaitingRows(entity) ==> advance(
            state,
            EventView::StatementFailed,
        ) is Some && forall|rows: RowsView|
            rows.entity() == entity ==> #[trigger] advance(state, EventView::Selected(rows))
                is Some,
        state matches StateView::AwaitingRecord(entity) ==> advance(
            state,
            EventView::StatementFailed,
        ) is Some && forall|record: RecordView|
            record.entity() == entity ==> #[trigger] advance(
                state,
                EventView::Inserted(record),
            ) is Some,
{
    if !(state is Finished) {
        if state is AwaitingConnection {
            assert(advance(state, EventView::Leased) is Some);
        } else {
            assert(advance(state, EventView::StatementFailed) is Some);
        }
    }
}

} // verus!
