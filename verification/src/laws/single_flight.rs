//! One exchange at a time for each connection, and one request at a time with
//! the server.

use crate::event::{ActionView, EventView};
use crate::laws::law_run_keeps_wf;
use crate::model::{ignore, report, run, step, ClientModel};
use crate::types::{DescriptionView, Error, NotificationView, PeerRole};
use vstd::prelude::*;

verus! {

/// Whether an action asks the engine of `role` for an offer or an answer.
pub open spec fn creates(action: ActionView, role: PeerRole) -> bool {
    action == ActionView::CreateOffer(role) || action == ActionView::CreateAnswer(role)
}

/// How many offers and answers a list of actions asks of the engine of `role`.
pub open spec fn creations(actions: Seq<ActionView>, role: PeerRole) -> nat
    decreases actions.len(),
{
    if actions.len() == 0 {
        0
    } else {
        creations(actions.drop_last(), role) + if creates(actions.last(), role) {
            1nat
        } else {
            0nat
        }
    }
}

/// One if an exchange of this connection is under way in which the engine was
/// asked for an offer or an answer, zero if not.
pub open spec fn outstanding(c: ClientModel, role: PeerRole) -> nat {
    if c.role(role).state.creating() {
        1
    } else {
        0
    }
}

/// How many such exchanges of `role` come to their end along a run.
pub open spec fn completions(c: ClientModel, events: Seq<EventView>, role: PeerRole) -> nat
    decreases events.len(),
{
    if events.len() == 0 {
        0
    } else {
        let before = run(c, events.drop_last()).next;
        let after = step(before, events.last()).next;
        completions(c, events.drop_last(), role) + if outstanding(before, role) == 1
            && outstanding(after, role) == 0 {
            1nat
        } else {
            0nat
        }
    }
}

proof fn lemma_creations_none(actions: Seq<ActionView>, role: PeerRole)
    requires
        forall|i: int| 0 <= i < actions.len() ==> !creates(#[trigger] actions[i], role),
    ensures
        creations(actions, role) == 0,
    decreases actions.len(),
{
    if actions.len() > 0 {
        lemma_creations_none(actions.drop_last(), role);
    }
}

proof fn lemma_creations_concat(a: Seq<ActionView>, b: Seq<ActionView>, role: PeerRole)
    ensures
        creations(a + b, role) == creations(a, role) + creations(b, role),
    decreases b.len(),
{
    if b.len() == 0 {
        assert(a + b =~= a);
    } else {
        lemma_creations_concat(a, b.drop_last(), role);
        assert((a + b).drop_last() =~= a + b.drop_last());
        assert((a + b).last() == b.last());
    }
}

/// A step asks for an offer or an answer exactly when it begins an exchange.
proof fn lemma_step_creations(c: ClientModel, event: EventView, role: PeerRole)
    requires
        c.wf(),
    ensures
        creations(step(c, event).actions, role) == if outstanding(c, role) == 0 && outstanding(
            step(c, event).next,
            role,
        ) == 1 {
            1nat
        } else {
            0nat
        },
{
    let o = step(c, event);
    if outstanding(c, role) == 0 && outstanding(o.next, role) == 1 {
        let head = o.actions.drop_last();
        assert(o.actions =~= head + seq![o.actions.last()]);
        lemma_creations_none(head, role);
        assert(creates(o.actions.last(), role));
    } else {
        lemma_creations_none(o.actions, role);
    }
}

/// Single-flight negotiation: of each connection, at most one exchange is ever
/// outstanding.
///
/// Along any run, the offers and answers asked of an engine are as many as the
/// exchanges that came to their end, and one more exactly while an exchange is
/// under way: no offer or answer is asked for before the exchange of the last
/// one has ended.
pub proof fn law_single_flight(c: ClientModel, events: Seq<EventView>, role: PeerRole)
    requires
        c.wf(),
    ensures
        outstanding(c, role) + creations(run(c, events).actions, role) == completions(
            c,
            events,
            role,
        ) + outstanding(run(c, events).next, role),
        outstanding(run(c, events).next, role) <= 1,
    decreases events.len(),
{
    if events.len() > 0 {
        let before = run(c, events.drop_last());
        let last = step(before.next, events.last());
        law_single_flight(c, events.drop_last(), role);
        law_run_keeps_wf(c, events.drop_last());
        lemma_step_creations(before.next, events.last(), role);
        lemma_creations_concat(before.actions, last.actions, role);
    }
}

/// Single-flight negotiation: a renegotiation request that finds the publisher
/// in an exchange, or not yet joined, is ignored and changes nothing.
pub proof fn law_negotiation_needed_mid_exchange_is_ignored(c: ClientModel)
    requires
        !(c.publisher.state is Stable),
    ensures
        step(c, EventView::NegotiationNeeded) == ignore(c),
{
}

/// Single-flight negotiation: an offer of the server that finds the subscriber
/// in an exchange is dropped as a protocol violation and changes nothing.
pub proof fn law_offer_mid_exchange_is_dropped(c: ClientModel, offer: DescriptionView)
    requires
        !(c.phase is Closed),
        !c.subscriber.state.at_rest(),
    ensures
        step(c, EventView::Notification(NotificationView::Negotiate { offer })) == report(
            c,
            Error::ProtocolViolation,
        ),
{
}

/// Whether an action sends a request that the server answers for the publisher.
pub open spec fn requests(action: ActionView) -> bool {
    action is SendJoin || action is SendOffer
}

/// How many `join` and `offer` requests a list of actions sends.
pub open spec fn requests_sent(actions: Seq<ActionView>) -> nat
    decreases actions.len(),
{
    if actions.len() == 0 {
        0
    } else {
        requests_sent(actions.drop_last()) + if requests(actions.last()) {
            1nat
        } else {
            0nat
        }
    }
}

/// One if the publisher waits for the server's answer to a request, zero if not.
pub open spec fn awaited(c: ClientModel) -> nat {
    if c.publisher.state is LocalDescriptionSet {
        1
    } else {
        0
    }
}

/// How many requests get their answer, or fail, along a run.
pub open spec fn requests_settled(c: ClientModel, events: Seq<EventView>) -> nat
    decreases events.len(),
{
    if events.len() == 0 {
        0
    } else {
        let before = run(c, events.drop_last()).next;
        let after = step(before, events.last()).next;
        requests_settled(c, events.drop_last()) + if awaited(before) == 1 && awaited(after) == 0 {
            1nat
        } else {
            0nat
        }
    }
}

proof fn lemma_requests_none(actions: Seq<ActionView>)
    requires
        forall|i: int| 0 <= i < actions.len() ==> !requests(#[trigger] actions[i]),
    ensures
        requests_sent(actions) == 0,
    decreases actions.len(),
{
    if actions.len() > 0 {
        lemma_requests_none(actions.drop_last());
    }
}

proof fn lemma_requests_concat(a: Seq<ActionView>, b: Seq<ActionView>)
    ensures
        requests_sent(a + b) == requests_sent(a) + requests_sent(b),
    decreases b.len(),
{
    if b.len() == 0 {
        assert(a + b =~= a);
    } else {
        lemma_requests_concat(a, b.drop_last());
        assert((a + b).drop_last() =~= a + b.drop_last());
        assert((a + b).last() == b.last());
    }
}

/// A step sends a request exactly when it begins to wait for the answer.
proof fn lemma_step_requests(c: ClientModel, event: EventView)
    ensures
        requests_sent(step(c, event).actions) == if awaited(c) == 0 && awaited(
            step(c, event).next,
        ) == 1 {
            1nat
        } else {
            0nat
        },
{
    let o = step(c, event);
    if awaited(c) == 0 && awaited(o.next) == 1 {
        lemma_requests_none(o.actions.drop_last());
        assert(requests(o.actions.last()));
    } else {
        lemma_requests_none(o.actions);
    }
}

/// Requests do not overlap: the session has at most one `join` or `offer`
/// request with the server at any time.
///
/// Along any run, the requests sent are as many as those that were answered or
/// failed, and one more exactly while the publisher waits for an answer.
pub proof fn law_requests_do_not_overlap(c: ClientModel, events: Seq<EventView>)
    ensures
        awaited(c) + requests_sent(run(c, events).actions) == requests_settled(c, events)
            + awaited(run(c, events).next),
        awaited(run(c, events).next) <= 1,
    decreases events.len(),
{
    if events.len() > 0 {
        let before = run(c, events.drop_last());
        let last = step(before.next, events.last());
        law_requests_do_not_overlap(c, events.drop_last());
        lemma_step_requests(before.next, events.last());
        lemma_requests_concat(before.actions, last.actions);
    }
}

} // verus!
