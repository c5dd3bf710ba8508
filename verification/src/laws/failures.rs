//! What a failure costs: the session during `join`, one exchange after it.

use crate::event::{ActionView, EventView};
use crate::model::{ignore, run, step, ClientModel, Outcome};
use crate::negotiation::{NegotiationState, Phase, RoleModel};
use crate::types::{Error, PeerRole};
use vstd::prelude::*;

verus! {

/// The error that an event reports of the exchange of `role`, if it reports one.
pub open spec fn failure(event: EventView, role: PeerRole) -> Option<Error> {
    match event {
        EventView::OfferFailed => if role is Publisher {
            Some(Error::NegotiationError)
        } else {
            None
        },
        EventView::RequestFailed(error) => if role is Publisher {
            Some(error)
        } else {
            None
        },
        EventView::AnswerFailed => if role is Subscriber {
            Some(Error::NegotiationError)
        } else {
            None
        },
        EventView::AnswerUndelivered => if role is Subscriber {
            Some(Error::RpcError)
        } else {
            None
        },
        EventView::LocalDescriptionRejected(of) | EventView::RemoteDescriptionRejected(of) => if of
            == role {
            Some(Error::EngineError)
        } else {
            None
        },
        _ => None,
    }
}

/// The session with the exchange of `role` given up: the connection back in
/// `state`, the description it held dropped, and all else as it was.
pub open spec fn given_up(c: ClientModel, role: PeerRole, state: NegotiationState) -> ClientModel {
    c.with_role(role, RoleModel { state, description: None, ..c.role(role) })
}

/// During `join` a failure of the publisher is fatal: unless nothing was
/// waiting for the event, `join` fails with the error reported, the session
/// has failed and the publisher is idle again.
pub proof fn law_failure_during_join_is_fatal(c: ClientModel, event: EventView)
    requires
        c.phase is Joining,
        failure(event, PeerRole::Publisher) is Some,
    ensures
        step(c, event) == ignore(c) || step(c, event) == (Outcome {
            next: ClientModel {
                phase: Phase::Failed,
                ..given_up(c, PeerRole::Publisher, NegotiationState::Idle)
            },
            actions: seq![ActionView::JoinFailed(failure(event, PeerRole::Publisher)->0)],
        }),
{
}

/// After `join` a failure of the publisher is survived: unless nothing was
/// waiting for the event, the error is logged, the publisher is stable as it
/// was before the exchange, and nothing else has changed.
pub proof fn law_failure_after_join_is_survived(c: ClientModel, event: EventView)
    requires
        c.phase is Joined,
        failure(event, PeerRole::Publisher) is Some,
    ensures
        step(c, event) == ignore(c) || step(c, event) == (Outcome {
            next: given_up(c, PeerRole::Publisher, NegotiationState::Stable),
            actions: seq![ActionView::Report(failure(event, PeerRole::Publisher)->0)],
        }),
{
}

/// A failure of the subscriber is survived: unless nothing was waiting for the
/// event, the error is logged, the subscriber is idle, and nothing else has
/// changed.
pub proof fn law_subscriber_failure_is_survived(c: ClientModel, event: EventView)
    requires
        !(c.phase is Closed),
        failure(event, PeerRole::Subscriber) is Some,
    ensures
        step(c, event) == ignore(c) || step(c, event) == (Outcome {
            next: given_up(c, PeerRole::Subscriber, NegotiationState::Idle),
            actions: seq![ActionView::Report(failure(event, PeerRole::Subscriber)->0)],
        }),
{
}

/// Once joined, always joined: whatever happens, no event takes an
/// established session back or ends it.
pub proof fn law_joined_stays_joined(c: ClientModel, events: Seq<EventView>)
    requires
        c.phase is Joined,
    ensures
        run(c, events).next.phase is Joined,
    decreases events.len(),
{
    if events.len() > 0 {
        law_joined_stays_joined(c, events.drop_last());
    }
}

/// A closed session is over: whatever it is told, it does not change and asks
/// for nothing.
pub proof fn law_closed_session_does_nothing(c: ClientModel, events: Seq<EventView>)
    requires
        c.phase is Closed,
    ensures
        run(c, events) == ignore(c),
    decreases events.len(),
{
    if events.len() > 0 {
        law_closed_session_does_nothing(c, events.drop_last());
        assert(run(c, events).actions =~= Seq::<ActionView>::empty());
    }
}

} // verus!
