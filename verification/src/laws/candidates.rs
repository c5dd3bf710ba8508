//! Remote candidates: applied in the order of arrival, and only to an engine
//! that has its remote description.

use crate::event::{ActionView, EventView};
use crate::laws::law_run_keeps_wf;
use crate::model::{drain, run, step, ClientModel};
use crate::types::{CandidateView, NotificationView, PeerRole};
use vstd::prelude::*;

verus! {

/// The remote candidates that a list of actions hands to the engine of `role`, in order.
pub open spec fn applied(actions: Seq<ActionView>, role: PeerRole) -> Seq<CandidateView>
    decreases actions.len(),
{
    if actions.len() == 0 {
        Seq::empty()
    } else {
        let before = applied(actions.drop_last(), role);
        match actions.last() {
            ActionView::AddIceCandidate(to, candidate) => if to == role {
                before.push(candidate)
            } else {
                before
            },
            _ => before,
        }
    }
}

/// The remote candidates that a list of events brings for `role`, in order.
pub open spec fn received(events: Seq<EventView>, role: PeerRole) -> Seq<CandidateView>
    decreases events.len(),
{
    if events.len() == 0 {
        Seq::empty()
    } else {
        let before = received(events.drop_last(), role);
        match events.last() {
            EventView::Notification(NotificationView::Trickle { target, candidate }) => if target
                == role {
                before.push(candidate)
            } else {
                before
            },
            _ => before,
        }
    }
}

/// Whether an action hands a remote candidate to the engine of `role`.
pub open spec fn applies_to(action: ActionView, role: PeerRole) -> bool {
    action matches ActionView::AddIceCandidate(to, _) && to == role
}

proof fn lemma_applied_none(actions: Seq<ActionView>, role: PeerRole)
    requires
        forall|i: int| 0 <= i < actions.len() ==> !applies_to(#[trigger] actions[i], role),
    ensures
        applied(actions, role) == Seq::<CandidateView>::empty(),
    decreases actions.len(),
{
    if actions.len() > 0 {
        lemma_applied_none(actions.drop_last(), role);
    }
}

proof fn lemma_applied_concat(a: Seq<ActionView>, b: Seq<ActionView>, role: PeerRole)
    ensures
        applied(a + b, role) == applied(a, role) + applied(b, role),
    decreases b.len(),
{
    if b.len() == 0 {
        assert(a + b =~= a);
        assert(applied(a, role) + applied(b, role) =~= applied(a, role));
    } else {
        lemma_applied_concat(a, b.drop_last(), role);
        assert((a + b).drop_last() =~= a + b.drop_last());
        assert((a + b).last() == b.last());
        assert(applied(a + b, role) =~= applied(a, role) + applied(b, role));
    }
}

proof fn lemma_applied_drain(to: PeerRole, pending: Seq<CandidateView>, role: PeerRole)
    ensures
        applied(drain(to, pending), role) == if to == role {
            pending
        } else {
            Seq::empty()
        },
    decreases pending.len(),
{
    if pending.len() == 0 {
        assert(drain(to, pending) =~= Seq::empty());
        assert(pending =~= Seq::empty());
    } else {
        lemma_applied_drain(to, pending.drop_last(), role);
        assert(drain(to, pending).drop_last() =~= drain(to, pending.drop_last()));
        assert(drain(to, pending).last() == ActionView::AddIceCandidate(to, pending.last()));
        if to == role {
            assert(applied(drain(to, pending), role) =~= pending);
        }
    }
}

/// The candidate that an event brings for `role`, as a list of one or none.
pub open spec fn brought(event: EventView, role: PeerRole) -> Seq<CandidateView> {
    match event {
        EventView::Notification(NotificationView::Trickle { target, candidate }) => if target
            == role {
            seq![candidate]
        } else {
            Seq::empty()
        },
        _ => Seq::empty(),
    }
}

/// What one step does with the remote candidates of `role`.
proof fn lemma_step_candidates(c: ClientModel, event: EventView, role: PeerRole)
    requires
        c.wf(),
        !(c.phase is Closed),
    ensures
        applied(step(c, event).actions, role) + step(c, event).next.role(role).pending
            == c.role(role).pending + brought(event, role),
        !step(c, event).next.role(role).remote_set ==> applied(step(c, event).actions, role)
            == Seq::<CandidateView>::empty(),
        c.role(role).remote_set ==> step(c, event).next.role(role).remote_set,
{
    let o = step(c, event);
    let pending = c.role(role).pending;
    match event {
        EventView::RemoteDescriptionApplied(to) => {
            let waiting = drain(to, c.role(to).pending);
            if o.actions.len() == 0 {
                lemma_applied_none(o.actions, role);
            } else {
                let tail = o.actions.subrange(waiting.len() as int, o.actions.len() as int);
                assert(o.actions =~= waiting + tail);
                lemma_applied_concat(waiting, tail, role);
                lemma_applied_drain(to, c.role(to).pending, role);
                lemma_applied_none(tail, role);
            }
            assert(applied(o.actions, role) + o.next.role(role).pending =~= pending + brought(
                event,
                role,
            ));
        },
        EventView::Notification(NotificationView::Trickle { target, candidate }) => {
            if target == role && c.role(role).remote_set {
                assert(o.actions =~= drain(role, seq![candidate]));
                lemma_applied_drain(role, seq![candidate], role);
            } else {
                lemma_applied_none(o.actions, role);
            }
            assert(applied(o.actions, role) + o.next.role(role).pending =~= pending + brought(
                event,
                role,
            ));
        },
        _ => {
            lemma_applied_none(o.actions, role);
            assert(applied(o.actions, role) + o.next.role(role).pending =~= pending + brought(
                event,
                role,
            ));
        },
    }
}

/// Candidate ordering: nothing is lost, repeated or reordered.
///
/// Along any run, the candidates handed to the engine of a role, followed by
/// those still waiting, are the candidates that waited at the start followed
/// by those that the server trickled for that role, in the order of arrival.
pub proof fn law_candidates_keep_arrival_order(
    c: ClientModel,
    events: Seq<EventView>,
    role: PeerRole,
)
    requires
        c.wf(),
        !(c.phase is Closed),
    ensures
        applied(run(c, events).actions, role) + run(c, events).next.role(role).pending
            == c.role(role).pending + received(events, role),
    decreases events.len(),
{
    if events.len() == 0 {
        assert(applied(run(c, events).actions, role) + run(c, events).next.role(role).pending
            =~= c.role(role).pending + received(events, role));
    } else {
        let before = run(c, events.drop_last());
        let last = step(before.next, events.last());
        law_candidates_keep_arrival_order(c, events.drop_last(), role);
        law_run_keeps_wf(c, events.drop_last());
        lemma_step_candidates(before.next, events.last(), role);
        lemma_applied_concat(before.actions, last.actions, role);
        assert(received(events, role) =~= received(events.drop_last(), role) + brought(
            events.last(),
            role,
        ));
        assert(applied(run(c, events).actions, role) + run(c, events).next.role(role).pending
            =~= applied(before.actions, role) + (applied(last.actions, role) + last.next.role(
            role,
        ).pending));
        assert(c.role(role).pending + received(events, role) =~= (c.role(role).pending
            + received(events.drop_last(), role)) + brought(events.last(), role));
    }
}

/// Candidate ordering: no candidate reaches an engine that has no remote
/// description.
///
/// Along any run from a state in which the engine of a role has no remote
/// description, as long as it has none at the end, it was handed no candidate.
pub proof fn law_no_candidate_before_remote_description(
    c: ClientModel,
    events: Seq<EventView>,
    role: PeerRole,
)
    requires
        c.wf(),
        !(c.phase is Closed),
        !run(c, events).next.role(role).remote_set,
    ensures
        applied(run(c, events).actions, role) == Seq::<CandidateView>::empty(),
        !c.role(role).remote_set,
    decreases events.len(),
{
    if events.len() > 0 {
        let before = run(c, events.drop_last());
        let last = step(before.next, events.last());
        law_run_keeps_wf(c, events.drop_last());
        lemma_step_candidates(before.next, events.last(), role);
        law_no_candidate_before_remote_description(c, events.drop_last(), role);
        lemma_applied_concat(before.actions, last.actions, role);
    }
}

/// Whether the engine of `role` is being handed the remote description that
/// `RemoteDescriptionApplied` confirms.
pub open spec fn awaits_remote_description(c: ClientModel, role: PeerRole) -> bool {
    &&& !(c.phase is Closed)
    &&& match role {
        PeerRole::Publisher => c.publisher.state is AwaitingRemoteAnswer,
        PeerRole::Subscriber => c.subscriber.state is RemoteOfferReceived,
    }
}

/// Candidate ordering: the waiting candidates follow the remote description at once.
///
/// The step in which an engine confirms its remote description asks first of
/// all for the candidates that waited, oldest first, and leaves none waiting.
pub proof fn law_waiting_candidates_follow_remote_description(c: ClientModel, role: PeerRole)
    requires
        awaits_remote_description(c, role),
    ensures
        ({
            let o = step(c, EventView::RemoteDescriptionApplied(role));
            let waiting = c.role(role).pending;
            &&& o.next.role(role).remote_set
            &&& o.next.role(role).pending == Seq::<CandidateView>::empty()
            &&& waiting.len() <= o.actions.len()
            &&& o.actions.take(waiting.len() as int) == drain(role, waiting)
            &&& applied(o.actions, role) == waiting
        }),
{
    let o = step(c, EventView::RemoteDescriptionApplied(role));
    let waiting = drain(role, c.role(role).pending);
    let tail = o.actions.subrange(waiting.len() as int, o.actions.len() as int);
    assert(o.actions =~= waiting + tail);
    assert(o.actions.take(waiting.len() as int) =~= waiting);
    lemma_applied_concat(waiting, tail, role);
    lemma_applied_drain(role, c.role(role).pending, role);
    lemma_applied_none(tail, role);
    assert(applied(o.actions, role) =~= c.role(role).pending);
}

} // verus!
