//! What the engine guarantees across several steps, stated over the views
//! that the contracts of the operations speak of, and proved.

use crate::error::JaError;
use crate::jaconnection::{ConnectionView, Discard, Dispatch, Failed, Step};
use crate::japrotocol::JaResponse;
use crate::nsp_registry::{
    lemma_position, lemma_register, lemma_requeue, lemma_unregister, Received, RegistryView,
};
use crate::tmanager::{lemma_insert, lemma_remove};
use vstd::prelude::*;

verus! {

/// The test that picks the frames addressed to (`session_id`, `handle_id`).
pub open spec fn addressed_to(session_id: u64, handle_id: u64) -> spec_fn(JaResponse) -> bool {
    |m: JaResponse| m.address() == Some((session_id, handle_id))
}

/// Those of `messages` that are addressed to (`session_id`, `handle_id`), in order.
pub open spec fn events_for(messages: Seq<JaResponse>, session_id: u64, handle_id: u64) -> Seq<
    JaResponse,
> {
    messages.filter(addressed_to(session_id, handle_id))
}

/// Closing the registry keeps it well-formed and changes neither who is
/// subscribed nor what waits in any mailbox.
pub proof fn lemma_registry_close(registry: RegistryView)
    requires
        registry.wf(),
    ensures
        registry.close().wf(),
        forall|s: u64, h: u64| #[trigger]
            registry.close().contains(s, h) == registry.contains(s, h),
        forall|s: u64, h: u64| #[trigger] registry.close().mailbox(s, h) == registry.mailbox(s, h),
{
    let after = registry.close();
    assert forall|i: int, s: u64, h: u64| after.at(i, s, h) == registry.at(i, s, h) by {}
    assert forall|s: u64, h: u64| #[trigger] after.contains(s, h) == registry.contains(s, h) by {
        if registry.contains(s, h) {
            assert(after.at(registry.index_of(s, h), s, h));
        }
        if after.contains(s, h) {
            assert(registry.at(after.index_of(s, h), s, h));
        }
    }
    assert(after.wf()) by {
        assert forall|i: int, j: int| 0 <= i < j < after.subscriptions.len() implies !(
        after.subscriptions[i].session_id == after.subscriptions[j].session_id
            && after.subscriptions[i].handle_id == after.subscriptions[j].handle_id) by {
            assert(!(registry.subscriptions[i].session_id == registry.subscriptions[j].session_id
                && registry.subscriptions[i].handle_id == registry.subscriptions[j].handle_id));
        }
    }
    assert forall|s: u64, h: u64| #[trigger] after.mailbox(s, h) == registry.mailbox(s, h) by {
        assert(after.contains(s, h) == registry.contains(s, h));
        if registry.contains(s, h) {
            let p = registry.index_of(s, h);
            assert(registry.at(p, s, h));
            assert(after.at(p, s, h));
            lemma_position(after, p);
        }
    }
}

/// One dispatch step keeps a connection well-formed and in its state. It
/// adds no request: whatever is in flight afterwards was in flight before,
/// with the same sink. A request that the step settled is no longer in
/// flight. Nobody subscribes or unsubscribes by it.
pub proof fn lemma_dispatch_step<S>(c: ConnectionView<S>, message: JaResponse)
    requires
        c.wf(),
    ensures
        c.dispatch(message).wf(),
        c.dispatch(message).state == c.state,
        c.dispatch(message).registry.closed == c.registry.closed,
        forall|id: Seq<char>| #[trigger]
            c.dispatch(message).pending.contains(id) ==> c.pending.contains(id) && c.dispatch(
                message,
            ).pending.sink(id) == c.pending.sink(id),
        c.dispatched(message) is Resolved ==> !c.dispatch(message).pending.contains(
            message.transaction->0@,
        ),
        forall|s: u64, h: u64| #[trigger]
            c.dispatch(message).registry.contains(s, h) == c.registry.contains(s, h),
{
    if c.state is Open {
        if c.pending.answers(message) {
            lemma_remove(c.pending, message.transaction->0@);
        } else {
            match message.address() {
                Some((s, h)) => {
                    if c.registry.accepts(s, h) {
                        let k = c.registry.index_of(s, h);
                        assert(c.registry.at(k, s, h));
                        lemma_requeue(
                            c.registry,
                            k,
                            c.registry.subscriptions[k].queue.push(message),
                        );
                    }
                },
                None => {},
            }
        }
    }
}

/// Any run of the dispatch loop keeps a connection well-formed and in its
/// state, adds no request, and changes nobody's subscription.
pub proof fn lemma_run<S>(c: ConnectionView<S>, messages: Seq<JaResponse>)
    requires
        c.wf(),
    ensures
        c.run(messages).wf(),
        c.run(messages).state == c.state,
        c.run(messages).registry.closed == c.registry.closed,
        c.outcomes(messages).len() == messages.len(),
        forall|id: Seq<char>| #[trigger]
            c.run(messages).pending.contains(id) ==> c.pending.contains(id) && c.run(
                messages,
            ).pending.sink(id) == c.pending.sink(id),
        forall|s: u64, h: u64| #[trigger]
            c.run(messages).registry.contains(s, h) == c.registry.contains(s, h),
    decreases messages.len(),
{
    if messages.len() > 0 {
        lemma_run(c, messages.drop_last());
        lemma_dispatch_step(c.run(messages.drop_last()), messages.last());
    }
}

/// The answer to the `i`-th message of a run is the answer of one dispatch
/// step, taken in the state the messages before it left behind.
pub proof fn lemma_outcome_at<S>(c: ConnectionView<S>, messages: Seq<JaResponse>, i: int)
    requires
        0 <= i < messages.len(),
    ensures
        c.outcomes(messages).len() == messages.len(),
        c.outcomes(messages)[i] == c.run(messages.take(i)).dispatched(messages[i]),
    decreases messages.len(),
{
    lemma_outcomes_len(c, messages);
    lemma_outcomes_len(c, messages.drop_last());
    if i == messages.len() - 1 {
        assert(messages.take(i) =~= messages.drop_last());
    } else {
        lemma_outcome_at(c, messages.drop_last(), i);
        assert(messages.drop_last().take(i) =~= messages.take(i));
    }
}

/// A run answers every message once.
pub proof fn lemma_outcomes_len<S>(c: ConnectionView<S>, messages: Seq<JaResponse>)
    ensures
        c.outcomes(messages).len() == messages.len(),
    decreases messages.len(),
{
    if messages.len() > 0 {
        lemma_outcomes_len(c, messages.drop_last());
    }
}

/// A request that is not in flight after some messages is not in flight
/// after more of them: a run never brings a request back.
pub proof fn lemma_settled_stays_settled<S>(
    c: ConnectionView<S>,
    messages: Seq<JaResponse>,
    i: int,
    id: Seq<char>,
)
    requires
        c.wf(),
        0 <= i <= messages.len(),
        !c.run(messages.take(i)).pending.contains(id),
    ensures
        !c.run(messages).pending.contains(id),
    decreases messages.len() - i,
{
    if i < messages.len() {
        lemma_run(c, messages.take(i));
        lemma_dispatch_step(c.run(messages.take(i)), messages[i]);
        assert(messages.take(i + 1).drop_last() =~= messages.take(i));
        assert(messages.take(i + 1).last() == messages[i]);
        lemma_settled_stays_settled(c, messages, i + 1, id);
    } else {
        assert(messages.take(i) =~= messages);
    }
}

/// No cross-delivery. Whatever frames arrive, in whatever order, a frame is
/// owed to a sink only if it carries the transaction identifier of a
/// request that was in flight, and then to the sink that this very request
/// was enrolled with. No request is answered twice.
pub proof fn no_cross_delivery<S>(c: ConnectionView<S>, messages: Seq<JaResponse>, i: int)
    requires
        c.wf(),
        0 <= i < messages.len(),
        c.outcomes(messages)[i] is Resolved,
    ensures
        messages[i].transaction is Some,
        c.pending.contains(messages[i].transaction->0@),
        c.outcomes(messages)[i] == (Dispatch::Resolved {
            sink: c.pending.sink(messages[i].transaction->0@)->0,
            message: messages[i],
        }),
        forall|j: int|
            0 <= j < messages.len() && j != i && (#[trigger] c.outcomes(messages)[j]) is Resolved
                ==> messages[j].transaction->0@ != messages[i].transaction->0@,
{
    lemma_outcome_at(c, messages, i);
    let before = c.run(messages.take(i));
    lemma_run(c, messages.take(i));
    let id = messages[i].transaction->0@;
    assert(before.pending.answers(messages[i]));
    assert(before.pending.contains(id));
    assert forall|j: int|
        0 <= j < messages.len() && j != i && (#[trigger] c.outcomes(messages)[j]) is Resolved implies messages[j].transaction->0@
        != id by {
        lemma_outcome_at(c, messages, j);
        let (first, second) = if j < i {
            (j, i)
        } else {
            (i, j)
        };
        let at_first = c.run(messages.take(first));
        lemma_run(c, messages.take(first));
        lemma_dispatch_step(at_first, messages[first]);
        let first_id = messages[first].transaction->0@;
        assert(messages.take(first + 1).drop_last() =~= messages.take(first));
        assert(messages.take(first + 1).last() == messages[first]);
        assert(!c.run(messages.take(first + 1)).pending.contains(first_id));
        let upto = messages.take(second);
        assert(upto.take(first + 1) =~= messages.take(first + 1));
        lemma_settled_stays_settled(c, upto, first + 1, first_id);
        assert(c.run(upto).pending.answers(messages[second]));
    }
}

/// Those of `messages` that the dispatch loop, starting from `c`, takes for
/// events of (`session_id`, `handle_id`): the frames addressed to the pair
/// that answer no request in flight at the moment they arrive. They stand
/// in the order of their arrival.
pub open spec fn events_taken<S>(
    c: ConnectionView<S>,
    messages: Seq<JaResponse>,
    session_id: u64,
    handle_id: u64,
) -> Seq<JaResponse>
    decreases messages.len(),
{
    if messages.len() == 0 {
        Seq::empty()
    } else {
        let earlier = events_taken(c, messages.drop_last(), session_id, handle_id);
        if !c.run(messages.drop_last()).pending.answers(messages.last())
            && messages.last().address() == Some((session_id, handle_id)) {
            earlier.push(messages.last())
        } else {
            earlier
        }
    }
}

/// Per-handle order. Whatever frames arrive, the mailbox of a subscribed
/// handle grows by exactly the frames that are events for it, in the order
/// in which the dispatch loop took them.
pub proof fn per_handle_fifo<S>(
    c: ConnectionView<S>,
    messages: Seq<JaResponse>,
    session_id: u64,
    handle_id: u64,
)
    requires
        c.wf(),
        c.state is Open,
        c.registry.contains(session_id, handle_id),
    ensures
        c.run(messages).registry.mailbox(session_id, handle_id) == c.registry.mailbox(
            session_id,
            handle_id,
        ) + events_taken(c, messages, session_id, handle_id),
    decreases messages.len(),
{
    if messages.len() == 0 {
        assert(c.registry.mailbox(session_id, handle_id) + Seq::<JaResponse>::empty()
            =~= c.registry.mailbox(session_id, handle_id));
    } else {
        let earlier = messages.drop_last();
        let last = messages.last();
        let before = c.run(earlier);
        per_handle_fifo(c, earlier, session_id, handle_id);
        lemma_run(c, earlier);
        let old_box = before.registry.mailbox(session_id, handle_id);
        let grown = before.dispatch(last).registry.mailbox(session_id, handle_id);
        if before.pending.answers(last) {
            assert(grown == old_box);
        } else {
            match last.address() {
                Some((s, h)) => {
                    if before.registry.accepts(s, h) {
                        let k = before.registry.index_of(s, h);
                        assert(before.registry.at(k, s, h));
                        lemma_requeue(
                            before.registry,
                            k,
                            before.registry.subscriptions[k].queue.push(last),
                        );
                        if s == session_id && h == handle_id {
                            assert(grown == old_box.push(last));
                        } else {
                            assert(!before.registry.at(k, session_id, handle_id));
                            assert(grown == old_box);
                        }
                    } else {
                        assert(!(s == session_id && h == handle_id));
                    }
                },
                None => {},
            }
        }
        if !before.pending.answers(last) && last.address() == Some((session_id, handle_id)) {
            assert(grown =~= c.registry.mailbox(session_id, handle_id) + events_taken(
                c,
                messages,
                session_id,
                handle_id,
            ));
        }
    }
}

/// Where none of the frames that arrive answers a request in flight, the
/// events of a handle are simply the frames addressed to it.
pub proof fn events_are_the_frames_addressed<S>(
    c: ConnectionView<S>,
    messages: Seq<JaResponse>,
    session_id: u64,
    handle_id: u64,
)
    requires
        c.wf(),
        forall|i: int| 0 <= i < messages.len() ==> !c.pending.answers(#[trigger] messages[i]),
    ensures
        events_taken(c, messages, session_id, handle_id) == events_for(
            messages,
            session_id,
            handle_id,
        ),
    decreases messages.len(),
{
    reveal(Seq::filter);
    if messages.len() > 0 {
        let earlier = messages.drop_last();
        assert forall|i: int| 0 <= i < earlier.len() implies !c.pending.answers(
            #[trigger] earlier[i],
        ) by {
            assert(earlier[i] == messages[i]);
        }
        events_are_the_frames_addressed(c, earlier, session_id, handle_id);
        lemma_run(c, earlier);
        assert(!c.pending.answers(messages.last()));
        assert(!c.run(earlier).pending.answers(messages.last()));
        let pred = addressed_to(session_id, handle_id);
        assert(messages.filter(pred) == if pred(messages.last()) {
            earlier.filter(pred).push(messages.last())
        } else {
            earlier.filter(pred)
        });
    }
}

/// What is filed is received in the order it was filed: the receiver of a
/// mailbox gets its oldest event, and the rest stays, in order.
pub proof fn receive_in_order(registry: RegistryView, session_id: u64, handle_id: u64)
    requires
        registry.wf(),
        registry.mailbox(session_id, handle_id).len() > 0,
    ensures
        registry.received(session_id, handle_id) == Received::Event(
            registry.mailbox(session_id, handle_id).first(),
        ),
        registry.after_recv(session_id, handle_id).mailbox(session_id, handle_id)
            == registry.mailbox(session_id, handle_id).drop_first(),
        registry.after_recv(session_id, handle_id).wf(),
{
    let k = registry.index_of(session_id, handle_id);
    assert(registry.at(k, session_id, handle_id));
    lemma_requeue(registry, k, registry.subscriptions[k].queue.drop_first());
}

/// A deadline is final. When the deadline of a request elapses while the
/// request is in flight, its sink is owed a timeout and the request is
/// taken out. A response that arrives late is then owed to nobody and
/// brings no request back.
pub proof fn timeout_is_final<S>(c: ConnectionView<S>, id: Seq<char>, late: JaResponse)
    requires
        c.wf(),
        late.transaction_view() == Some(id),
    ensures
        c.timeout(id).wf(),
        c.pending.contains(id) ==> c.timed_out(id) == Some(
            Failed { error: JaError::RequestTimeout, sink: c.pending.sink(id)->0 },
        ),
        !c.pending.contains(id) ==> c.timed_out(id) is None && c.timeout(id) == c,
        !c.timeout(id).pending.contains(id),
        !(c.timeout(id).dispatched(late) is Resolved),
        c.timeout(id).dispatch(late).pending == c.timeout(id).pending,
        forall|other: Seq<char>|
            other != id ==> c.timeout(id).pending.contains(other) == c.pending.contains(other)
                && c.timeout(id).pending.sink(other) == c.pending.sink(other),
{
    lemma_remove(c.pending, id);
    let after = c.timeout(id);
    assert(!after.pending.answers(late));
    lemma_dispatch_step(after, late);
}

/// Never both. A request that a response has settled is not reported as
/// timed out afterwards.
pub proof fn settled_is_not_timed_out<S>(c: ConnectionView<S>, response: JaResponse)
    requires
        c.wf(),
        c.dispatched(response) is Resolved,
    ensures
        c.dispatch(response).timed_out(response.transaction->0@) is None,
{
    lemma_dispatch_step(c, response);
}

/// Detaching a handle touches no request in flight, and an event that
/// arrives for the handle afterwards is dropped, not filed.
pub proof fn detached_handle_gets_nothing<S>(
    c: ConnectionView<S>,
    session_id: u64,
    handle_id: u64,
    event: JaResponse,
)
    requires
        c.wf(),
        event.address() == Some((session_id, handle_id)),
        !c.pending.answers(event),
    ensures
        c.unsubscribe(session_id, handle_id).wf(),
        c.unsubscribe(session_id, handle_id).pending == c.pending,
        c.unsubscribe(session_id, handle_id).state == c.state,
        c.unsubscribe(session_id, handle_id).dispatched(event) is Discarded,
        c.unsubscribe(session_id, handle_id).dispatch(event) == c.unsubscribe(
            session_id,
            handle_id,
        ),
        forall|s: u64, h: u64|
            !(s == session_id && h == handle_id) ==> #[trigger] c.unsubscribe(
                session_id,
                handle_id,
            ).registry.mailbox(s, h) == c.registry.mailbox(s, h),
{
    lemma_unregister(c.registry, session_id, handle_id);
}

/// Closing settles everything. Every request in flight is owed a
/// connection-closed error, each exactly once and oldest first; afterwards
/// nothing is in flight, and no receiver waits in vain: it gets what was
/// filed for it and then the end of the stream.
pub proof fn close_settles_everything<S>(c: ConnectionView<S>)
    requires
        c.wf(),
    ensures
        c.close().wf(),
        c.close().state is Closed,
        c.failures().len() == c.pending.entries.len(),
        forall|i: int|
            0 <= i < c.pending.entries.len() ==> #[trigger] c.failures()[i] == (Failed {
                error: JaError::ConnectionClosed,
                sink: c.pending.entries[i].sink,
            }),
        forall|id: Seq<char>|
            c.pending.contains(id) ==> c.failures()[c.pending.index_of(id)].sink == c.pending.sink(
                id,
            )->0,
        c.close().pending.entries.len() == 0,
        forall|id: Seq<char>| !c.close().pending.contains(id),
        forall|s: u64, h: u64| #[trigger]
            c.close().registry.mailbox(s, h) == c.registry.mailbox(s, h),
        forall|s: u64, h: u64| !(#[trigger] c.close().registry.received(s, h) is Empty),
        forall|s: u64, h: u64|
            c.close().registry.mailbox(s, h).len() == 0 ==> #[trigger] c.close().registry.received(
                s,
                h,
            ) == Received::Closed,
        forall|s: u64, h: u64| !(#[trigger] c.close().registry.accepts(s, h)),
{
    lemma_registry_close(c.registry);
}

/// Once closed, always closed: no step of the engine reopens a connection,
/// enrolls a request or admits a subscriber.
pub proof fn closed_is_final<S>(
    c: ConnectionView<S>,
    id: Seq<char>,
    sink: S,
    now: u64,
    message: JaResponse,
    session_id: u64,
    handle_id: u64,
)
    requires
        c.wf(),
        c.state is Closed,
    ensures
        c.open() == c,
        c.close() == c,
        c.failures().len() == 0,
        c.rejection(id) == Some(JaError::ConnectionClosed),
        c.enroll(id, sink, now) == c,
        c.dispatch(message) == c,
        c.dispatched(message) == (Dispatch::<S>::Discarded { message, reason: Discard::NotOpen }),
        c.subscribe(session_id, handle_id) == c,
{
    assert(c.pending.entries =~= Seq::empty());
}

/// The invariant. Whatever step a connection takes, no transaction
/// identifier labels two requests in flight, no (session, handle) pair has
/// two subscribers, and requests are in flight only while it is open.
pub proof fn every_step_keeps_well_formed<S>(c: ConnectionView<S>, step: Step<S>)
    requires
        c.wf(),
    ensures
        c.step(step).wf(),
{
    match step {
        Step::Open => {},
        Step::Enroll { id, sink, now } => {
            if c.rejection(id) is None {
                lemma_insert(c.pending, id, sink, now);
            }
        },
        Step::Dispatch { message } => {
            lemma_dispatch_step(c, message);
        },
        Step::Timeout { id } => {
            lemma_remove(c.pending, id);
            if c.state !is Open {
                assert(!c.pending.contains(id));
            }
        },
        Step::Subscribe { session_id, handle_id } => {
            if c.admits(session_id, handle_id) {
                lemma_register(c.registry, session_id, handle_id);
            }
        },
        Step::Unsubscribe { session_id, handle_id } => {
            lemma_unregister(c.registry, session_id, handle_id);
            if c.state is Connecting {
                assert(!c.registry.contains(session_id, handle_id));
            }
        },
        Step::Recv { session_id, handle_id } => {
            if c.registry.mailbox(session_id, handle_id).len() > 0 {
                let k = c.registry.index_of(session_id, handle_id);
                assert(c.registry.at(k, session_id, handle_id));
                lemma_requeue(c.registry, k, c.registry.subscriptions[k].queue.drop_first());
            }
        },
        Step::Close => {
            lemma_registry_close(c.registry);
        },
    }
}

/// The invariant holds along every trace.
pub proof fn every_trace_keeps_well_formed<S>(c: ConnectionView<S>, steps: Seq<Step<S>>)
    requires
        c.wf(),
    ensures
        c.trace(steps).wf(),
    decreases steps.len(),
{
    if steps.len() > 0 {
        every_trace_keeps_well_formed(c, steps.drop_last());
        every_step_keeps_well_formed(c.trace(steps.drop_last()), steps.last());
    }
}

/// A request stays enrolled, with its own sink, through every step that
/// does not settle it: through other requests being enrolled, answered or
/// timed out, through a second attempt to enroll under its identifier, and
/// through handles coming and going.
pub proof fn enrolled_until_settled<S>(
    c: ConnectionView<S>,
    id: Seq<char>,
    steps: Seq<Step<S>>,
)
    requires
        c.wf(),
        c.pending.contains(id),
        forall|i: int| 0 <= i < steps.len() ==> !(#[trigger] steps[i]).settles(id),
    ensures
        c.trace(steps).wf(),
        c.trace(steps).state is Open,
        c.trace(steps).pending.contains(id),
        c.trace(steps).pending.sink(id) == c.pending.sink(id),
    decreases steps.len(),
{
    if steps.len() == 0 {
        assert(c.pending.entries.len() > 0);
    } else {
        let earlier = steps.drop_last();
        let step = steps.last();
        assert forall|i: int| 0 <= i < earlier.len() implies !(#[trigger] earlier[i]).settles(
            id,
        ) by {
            assert(earlier[i] == steps[i]);
        }
        enrolled_until_settled(c, id, earlier);
        let before = c.trace(earlier);
        every_step_keeps_well_formed(before, step);
        assert(!step.settles(id));
        match step {
            Step::Enroll { id: other, sink, now } => {
                if before.rejection(other) is None {
                    lemma_insert(before.pending, other, sink, now);
                }
            },
            Step::Dispatch { message } => {
                if before.pending.answers(message) {
                    lemma_remove(before.pending, message.transaction->0@);
                }
            },
            Step::Timeout { id: other } => {
                lemma_remove(before.pending, other);
            },
            _ => {},
        }
    }
}

/// No cross-delivery among concurrent callers. Once a request is enrolled
/// under an identifier, then whatever the other callers and the server do
/// in between, short of settling this very request, the response that
/// carries the identifier is owed to the sink the request was enrolled
/// with, and to no other.
pub proof fn delivered_to_the_enrolling_caller<S>(
    c: ConnectionView<S>,
    id: Seq<char>,
    sink: S,
    now: u64,
    steps: Seq<Step<S>>,
    response: JaResponse,
)
    requires
        c.wf(),
        c.rejection(id) is None,
        forall|i: int| 0 <= i < steps.len() ==> !(#[trigger] steps[i]).settles(id),
        response.transaction_view() == Some(id),
    ensures
        c.enroll(id, sink, now).trace(steps).dispatched(response) == (Dispatch::Resolved {
            sink,
            message: response,
        }),
        !c.enroll(id, sink, now).trace(steps).dispatch(response).pending.contains(id),
{
    lemma_insert(c.pending, id, sink, now);
    let enrolled = c.enroll(id, sink, now);
    enrolled_until_settled(enrolled, id, steps);
    let before = enrolled.trace(steps);
    assert(before.pending.answers(response));
    lemma_remove(before.pending, id);
}

} // verus!
