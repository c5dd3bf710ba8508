//! The two connections negotiate independently, and an exchange in which
//! nothing fails ends stable.

use crate::event::{ActionView, EventView};
use crate::laws::{law_run_keeps_wf, lemma_run_concat, lemma_run_push};
use crate::model::{run, step, ClientModel};
use crate::negotiation::{NegotiationState, Phase};
use crate::types::{DescriptionView, NotificationView, PeerRole};
use vstd::prelude::*;

verus! {

/// Whether an event is part of the exchange of `role`: a step of its
/// negotiation, as opposed to a candidate or to the other connection's business.
pub open spec fn concerns(event: EventView, role: PeerRole) -> bool {
    match event {
        EventView::Connected
        | EventView::ConnectFailed
        | EventView::OfferCreated(_)
        | EventView::OfferFailed
        | EventView::AnswerReceived(_)
        | EventView::RequestFailed(_)
        | EventView::NegotiationNeeded => role is Publisher,
        EventView::AnswerCreated(_)
        | EventView::AnswerFailed
        | EventView::AnswerDelivered
        | EventView::AnswerUndelivered
        | EventView::Notification(NotificationView::Negotiate { .. }) => role is Subscriber,
        EventView::LocalDescriptionApplied(of)
        | EventView::LocalDescriptionRejected(of)
        | EventView::RemoteDescriptionApplied(of)
        | EventView::RemoteDescriptionRejected(of) => of == role,
        EventView::Notification(NotificationView::Trickle { .. })
        | EventView::IceCandidate(_, _)
        | EventView::CandidateRejected(_)
        | EventView::TrickleUndelivered => false,
    }
}

/// Those of a list of events that are part of the exchange of `role`, in order.
pub open spec fn own_events(events: Seq<EventView>, role: PeerRole) -> Seq<EventView>
    decreases events.len(),
{
    if events.len() == 0 {
        Seq::empty()
    } else if concerns(events.last(), role) {
        own_events(events.drop_last(), role).push(events.last())
    } else {
        own_events(events.drop_last(), role)
    }
}

/// What the negotiation of one connection depends on.
pub struct Exchange {
    /// Whether the session was closed.
    pub closed: bool,
    /// How far `join` has come; of the publisher only, whose first exchange it is.
    pub phase: Option<Phase>,
    /// The session identifier; of the publisher only, which sends it.
    pub session: Seq<char>,
    pub state: NegotiationState,
    pub description: Option<DescriptionView>,
}

/// What the negotiation of `role` depends on, in the state `c`.
pub open spec fn exchange(c: ClientModel, role: PeerRole) -> Exchange {
    match role {
        PeerRole::Publisher => Exchange {
            closed: c.phase is Closed,
            phase: Some(c.phase),
            session: c.session,
            state: c.publisher.state,
            description: c.publisher.description,
        },
        PeerRole::Subscriber => Exchange {
            closed: c.phase is Closed,
            phase: None,
            session: Seq::empty(),
            state: c.subscriber.state,
            description: c.subscriber.description,
        },
    }
}

/// A step moves the exchange of a connection by that exchange and the event
/// alone, and not at all if the event is no part of it.
proof fn lemma_step_exchange(a: ClientModel, b: ClientModel, event: EventView, role: PeerRole)
    requires
        exchange(a, role) == exchange(b, role),
    ensures
        exchange(step(a, event).next, role) == exchange(step(b, event).next, role),
        !concerns(event, role) ==> exchange(step(a, event).next, role) == exchange(a, role),
{
    if concerns(event, role) {
        match role {
            PeerRole::Publisher => lemma_step_publisher(a, b, event),
            PeerRole::Subscriber => lemma_step_subscriber(a, b, event),
        }
    } else {
        lemma_step_beside(a, event, role);
        lemma_step_beside(b, event, role);
    }
}

proof fn lemma_step_beside(c: ClientModel, event: EventView, role: PeerRole)
    requires
        !concerns(event, role),
    ensures
        exchange(step(c, event).next, role) == exchange(c, role),
{
    match event {
        EventView::Notification(_) => {},
        EventView::LocalDescriptionApplied(_) => {},
        EventView::LocalDescriptionRejected(_) => {},
        EventView::RemoteDescriptionApplied(_) => {},
        EventView::RemoteDescriptionRejected(_) => {},
        _ => {},
    }
}

proof fn lemma_step_publisher(a: ClientModel, b: ClientModel, event: EventView)
    requires
        exchange(a, PeerRole::Publisher) == exchange(b, PeerRole::Publisher),
        concerns(event, PeerRole::Publisher),
    ensures
        exchange(step(a, event).next, PeerRole::Publisher) == exchange(
            step(b, event).next,
            PeerRole::Publisher,
        ),
{
    match event {
        EventView::Connected => {},
        EventView::ConnectFailed => {},
        EventView::OfferCreated(_) => {},
        EventView::OfferFailed => {},
        EventView::AnswerReceived(_) => {},
        EventView::RequestFailed(_) => {},
        EventView::NegotiationNeeded => {},
        EventView::LocalDescriptionApplied(_) => {},
        EventView::LocalDescriptionRejected(_) => {},
        EventView::RemoteDescriptionApplied(_) => {},
        EventView::RemoteDescriptionRejected(_) => {},
        _ => {},
    }
}

proof fn lemma_step_subscriber(a: ClientModel, b: ClientModel, event: EventView)
    requires
        exchange(a, PeerRole::Subscriber) == exchange(b, PeerRole::Subscriber),
        concerns(event, PeerRole::Subscriber),
    ensures
        exchange(step(a, event).next, PeerRole::Subscriber) == exchange(
            step(b, event).next,
            PeerRole::Subscriber,
        ),
{
    match event {
        EventView::AnswerCreated(_) => {},
        EventView::AnswerFailed => {},
        EventView::AnswerDelivered => {},
        EventView::AnswerUndelivered => {},
        EventView::Notification(_) => {},
        EventView::LocalDescriptionApplied(_) => {},
        EventView::LocalDescriptionRejected(_) => {},
        EventView::RemoteDescriptionApplied(_) => {},
        EventView::RemoteDescriptionRejected(_) => {},
        _ => {},
    }
}

/// Isolation: the negotiation of a connection goes by its own events alone.
///
/// Where a run leaves the exchange of a connection is where the run of just
/// the events of that exchange leaves it: neither candidates nor anything that
/// happens to the other connection, failures included, move it.
pub proof fn law_exchanges_are_independent(c: ClientModel, events: Seq<EventView>, role: PeerRole)
    ensures
        exchange(run(c, events).next, role) == exchange(
            run(c, own_events(events, role)).next,
            role,
        ),
    decreases events.len(),
{
    if events.len() > 0 {
        let rest = events.drop_last();
        law_exchanges_are_independent(c, rest, role);
        lemma_step_exchange(
            run(c, rest).next,
            run(c, own_events(rest, role)).next,
            events.last(),
            role,
        );
        if concerns(events.last(), role) {
            lemma_run_push(c, own_events(rest, role), events.last());
        }
    }
}

/// The events of a publisher's exchange in which nothing fails.
pub open spec fn publisher_succeeds(offer: DescriptionView, answer: DescriptionView) -> Seq<
    EventView,
> {
    seq![
        EventView::OfferCreated(offer),
        EventView::LocalDescriptionApplied(PeerRole::Publisher),
        EventView::AnswerReceived(answer),
        EventView::RemoteDescriptionApplied(PeerRole::Publisher),
    ]
}

/// The events of a subscriber's exchange in which nothing fails.
pub open spec fn subscriber_succeeds(offer: DescriptionView, answer: DescriptionView) -> Seq<
    EventView,
> {
    seq![
        EventView::Notification(NotificationView::Negotiate { offer }),
        EventView::RemoteDescriptionApplied(PeerRole::Subscriber),
        EventView::AnswerCreated(answer),
        EventView::LocalDescriptionApplied(PeerRole::Subscriber),
        EventView::AnswerDelivered,
    ]
}

proof fn lemma_publisher_succeeds(c: ClientModel, offer: DescriptionView, answer: DescriptionView)
    requires
        c.publisher.state is OfferPending,
        c.publisher.description is None,
        !(c.phase is Closed),
    ensures
        run(c, publisher_succeeds(offer, answer)).next.publisher.state is Stable,
        run(c, publisher_succeeds(offer, answer)).next.phase == if c.phase is Joining {
            Phase::Joined
        } else {
            c.phase
        },
{
    let e1 = EventView::OfferCreated(offer);
    let e2 = EventView::LocalDescriptionApplied(PeerRole::Publisher);
    let e3 = EventView::AnswerReceived(answer);
    let e4 = EventView::RemoteDescriptionApplied(PeerRole::Publisher);
    let s1 = Seq::<EventView>::empty().push(e1);
    let s2 = s1.push(e2);
    let s3 = s2.push(e3);
    let s4 = s3.push(e4);

    lemma_run_push(c, Seq::<EventView>::empty(), e1);
    let c1 = run(c, s1).next;
    assert(c1 == step(c, e1).next);
    assert(c1.publisher.state is OfferPending && c1.publisher.description is Some && c1.phase
        == c.phase);

    lemma_run_push(c, s1, e2);
    let c2 = run(c, s2).next;
    assert(c2 == step(c1, e2).next);
    assert(c2.publisher.state is LocalDescriptionSet && c2.phase == c.phase);

    lemma_run_push(c, s2, e3);
    let c3 = run(c, s3).next;
    assert(c3 == step(c2, e3).next);
    assert(c3.publisher.state is AwaitingRemoteAnswer && c3.phase == c.phase);

    lemma_run_push(c, s3, e4);
    let c4 = run(c, s4).next;
    assert(c4 == step(c3, e4).next);
    assert(s4 =~= publisher_succeeds(offer, answer));
}

proof fn lemma_subscriber_succeeds(c: ClientModel, offer: DescriptionView, answer: DescriptionView)
    requires
        c.subscriber.state.at_rest(),
        c.subscriber.description is None,
        !(c.phase is Closed),
    ensures
        run(c, subscriber_succeeds(offer, answer)).next.subscriber.state is Stable,
{
    let e1 = EventView::Notification(NotificationView::Negotiate { offer });
    let e2 = EventView::RemoteDescriptionApplied(PeerRole::Subscriber);
    let e3 = EventView::AnswerCreated(answer);
    let e4 = EventView::LocalDescriptionApplied(PeerRole::Subscriber);
    let e5 = EventView::AnswerDelivered;
    let s1 = Seq::<EventView>::empty().push(e1);
    let s2 = s1.push(e2);
    let s3 = s2.push(e3);
    let s4 = s3.push(e4);
    let s5 = s4.push(e5);

    lemma_run_push(c, Seq::<EventView>::empty(), e1);
    let c1 = run(c, s1).next;
    assert(c1 == step(c, e1).next);
    assert(c1.subscriber.state is RemoteOfferReceived && c1.subscriber.description is None
        && !(c1.phase is Closed));

    lemma_run_push(c, s1, e2);
    let c2 = run(c, s2).next;
    assert(c2 == step(c1, e2).next);
    assert(c2.subscriber.state is AnswerPending && c2.subscriber.description is None && !(c2.phase
        is Closed));

    lemma_run_push(c, s2, e3);
    let c3 = run(c, s3).next;
    assert(c3 == step(c2, e3).next);
    assert(c3.subscriber.state is AnswerPending && c3.subscriber.description is Some && !(c3.phase
        is Closed));

    lemma_run_push(c, s3, e4);
    let c4 = run(c, s4).next;
    assert(c4 == step(c3, e4).next);
    assert(c4.subscriber.state is LocalDescriptionSet && !(c4.phase is Closed));

    lemma_run_push(c, s4, e5);
    let c5 = run(c, s5).next;
    assert(c5 == step(c4, e5).next);
    assert(s5 =~= subscriber_succeeds(offer, answer));
}

/// Stability convergence: a `join` in which nothing fails leaves the publisher stable.
///
/// Take a session on which `join` was just called. If, whatever else happens
/// meanwhile, the publisher's own events are that the transport opens, the
/// engine creates an offer and takes it, the server answers and the engine
/// takes the answer, then the session is joined and its publisher is stable.
pub proof fn law_join_converges(
    c: ClientModel,
    offer: DescriptionView,
    answer: DescriptionView,
    events: Seq<EventView>,
)
    requires
        c.wf(),
        c.phase is Opening,
        own_events(events, PeerRole::Publisher) == seq![EventView::Connected] + publisher_succeeds(
            offer,
            answer,
        ),
    ensures
        run(c, events).next.phase is Joined,
        run(c, events).next.publisher.state is Stable,
{
    let own = own_events(events, PeerRole::Publisher);
    let opening = Seq::<EventView>::empty().push(EventView::Connected);
    let rest = publisher_succeeds(offer, answer);
    law_exchanges_are_independent(c, events, PeerRole::Publisher);
    lemma_run_push(c, Seq::<EventView>::empty(), EventView::Connected);
    let joining = run(c, opening).next;
    lemma_run_concat(c, opening, rest);
    lemma_publisher_succeeds(joining, offer, answer);
    assert(own =~= opening + rest);
}

/// Stability convergence: a renegotiation in which nothing fails leaves the
/// publisher stable.
///
/// Take a joined session whose publisher is stable. If, whatever else happens
/// meanwhile, the publisher's own events are that its engine asks for
/// renegotiation, creates an offer and takes it, the server answers and the
/// engine takes the answer, then the publisher is stable again.
pub proof fn law_renegotiation_converges(
    c: ClientModel,
    offer: DescriptionView,
    answer: DescriptionView,
    events: Seq<EventView>,
)
    requires
        c.wf(),
        !(c.phase is Closed),
        c.publisher.state is Stable,
        own_events(events, PeerRole::Publisher) == seq![EventView::NegotiationNeeded]
            + publisher_succeeds(offer, answer),
    ensures
        run(c, events).next.phase == c.phase,
        run(c, events).next.publisher.state is Stable,
{
    let own = own_events(events, PeerRole::Publisher);
    let asking = Seq::<EventView>::empty().push(EventView::NegotiationNeeded);
    let rest = publisher_succeeds(offer, answer);
    law_exchanges_are_independent(c, events, PeerRole::Publisher);
    lemma_run_push(c, Seq::<EventView>::empty(), EventView::NegotiationNeeded);
    let offering = run(c, asking).next;
    lemma_run_concat(c, asking, rest);
    lemma_publisher_succeeds(offering, offer, answer);
    assert(own =~= asking + rest);
}

/// Stability convergence: an offer of the server that is answered without
/// failure leaves the subscriber stable.
///
/// Take an open session whose subscriber is at rest. If, whatever else happens
/// meanwhile, the subscriber's own events are that the server offers, the
/// engine takes the offer, creates an answer and takes it, and the answer is
/// sent, then the subscriber is stable.
pub proof fn law_offer_converges(
    c: ClientModel,
    offer: DescriptionView,
    answer: DescriptionView,
    events: Seq<EventView>,
)
    requires
        c.wf(),
        !(c.phase is Closed),
        c.subscriber.state.at_rest(),
        own_events(events, PeerRole::Subscriber) == subscriber_succeeds(offer, answer),
    ensures
        run(c, events).next.subscriber.state is Stable,
{
    law_exchanges_are_independent(c, events, PeerRole::Subscriber);
    lemma_subscriber_succeeds(c, offer, answer);
}

/// Stability convergence: `join` succeeds in the step that makes the publisher
/// stable for the first time, and in no other.
pub proof fn law_join_succeeds_when_publisher_is_stable(c: ClientModel, event: EventView)
    requires
        c.wf(),
    ensures
        step(c, event).actions.contains(ActionView::JoinSucceeded) <==> (c.phase is Joining
            && step(c, event).next.phase is Joined),
        step(c, event).next.phase is Joined ==> !(step(c, event).next.publisher.state is Idle),
        c.phase is Joining && step(c, event).next.phase is Joined ==> step(
            c,
            event,
        ).next.publisher.state is Stable,
{
    let o = step(c, event);
    if c.phase is Joining && o.next.phase is Joined {
        assert(o.actions.last() == ActionView::JoinSucceeded);
    } else {
        assert forall|i: int| 0 <= i < o.actions.len() implies o.actions[i]
            != ActionView::JoinSucceeded by {}
    }
}

/// Whether an action tells the caller of `join` how it ended.
pub open spec fn settles_join(action: ActionView) -> bool {
    action is JoinSucceeded || action is JoinFailed
}

/// How many times a list of actions tells the caller of `join` how it ended.
pub open spec fn join_outcomes(actions: Seq<ActionView>) -> nat
    decreases actions.len(),
{
    if actions.len() == 0 {
        0
    } else {
        join_outcomes(actions.drop_last()) + if settles_join(actions.last()) {
            1nat
        } else {
            0nat
        }
    }
}

/// One if `join` was called and has not ended, zero if not.
pub open spec fn joining(c: ClientModel) -> nat {
    if c.phase is Opening || c.phase is Joining {
        1
    } else {
        0
    }
}

proof fn lemma_join_outcomes_none(actions: Seq<ActionView>)
    requires
        forall|i: int| 0 <= i < actions.len() ==> !settles_join(#[trigger] actions[i]),
    ensures
        join_outcomes(actions) == 0,
    decreases actions.len(),
{
    if actions.len() > 0 {
        lemma_join_outcomes_none(actions.drop_last());
    }
}

proof fn lemma_join_outcomes_concat(a: Seq<ActionView>, b: Seq<ActionView>)
    ensures
        join_outcomes(a + b) == join_outcomes(a) + join_outcomes(b),
    decreases b.len(),
{
    if b.len() == 0 {
        assert(a + b =~= a);
    } else {
        lemma_join_outcomes_concat(a, b.drop_last());
        assert((a + b).drop_last() =~= a + b.drop_last());
        assert((a + b).last() == b.last());
    }
}

/// A step tells how `join` ended exactly when it ends it.
proof fn lemma_step_join_outcomes(c: ClientModel, event: EventView)
    requires
        c.wf(),
    ensures
        joining(c) == join_outcomes(step(c, event).actions) + joining(step(c, event).next),
{
    let o = step(c, event);
    if joining(c) == 1 && joining(o.next) == 0 {
        lemma_join_outcomes_none(o.actions.drop_last());
        assert(settles_join(o.actions.last()));
    } else {
        lemma_join_outcomes_none(o.actions);
    }
}

/// `join` ends once: its caller is told that it succeeded or that it failed
/// exactly when it ends, and is told nothing before or after.
///
/// Along any run, a `join` under way at the start is either still under way at
/// the end or was settled by exactly one `JoinSucceeded` or `JoinFailed`; with
/// no `join` under way there is no such action at all.
pub proof fn law_join_ends_once(c: ClientModel, events: Seq<EventView>)
    requires
        c.wf(),
    ensures
        joining(c) == join_outcomes(run(c, events).actions) + joining(run(c, events).next),
    decreases events.len(),
{
    if events.len() > 0 {
        let before = run(c, events.drop_last());
        let last = step(before.next, events.last());
        law_join_ends_once(c, events.drop_last());
        law_run_keeps_wf(c, events.drop_last());
        lemma_step_join_outcomes(before.next, events.last());
        lemma_join_outcomes_concat(before.actions, last.actions);
    }
}

} // verus!
