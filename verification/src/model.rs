//! The session as a mathematical state machine.
//!
//! [`step`] says, for every state and every event, what the next state is and
//! which actions the driver is handed. The executable session in
//! [`crate::client`] is proved to compute exactly this function.

use crate::event::{ActionView, EventView};
use crate::negotiation::{NegotiationState, Phase, RoleModel};
use crate::types::{CandidateView, DescriptionView, Error, NotificationView, PeerRole};
use vstd::prelude::*;

verus! {

/// The mathematical state of a session.
pub struct ClientModel {
    pub phase: Phase,
    /// The session identifier given to `join`; empty before.
    pub session: Seq<char>,
    pub publisher: RoleModel,
    pub subscriber: RoleModel,
}

/// What one step of the session yields.
pub struct Outcome {
    /// The state after the step.
    pub next: ClientModel,
    /// What the driver is asked to do, in order.
    pub actions: Seq<ActionView>,
}

impl ClientModel {
    /// A session on which `join` has not been called.
    pub open spec fn fresh() -> ClientModel {
        ClientModel {
            phase: Phase::Fresh,
            session: Seq::empty(),
            publisher: RoleModel::fresh(),
            subscriber: RoleModel::fresh(),
        }
    }

    /// The state of one of the two connections.
    pub open spec fn role(self, role: PeerRole) -> RoleModel {
        match role {
            PeerRole::Publisher => self.publisher,
            PeerRole::Subscriber => self.subscriber,
        }
    }

    /// This session with one of its two connections replaced.
    pub open spec fn with_role(self, role: PeerRole, state: RoleModel) -> ClientModel {
        match role {
            PeerRole::Publisher => ClientModel { publisher: state, ..self },
            PeerRole::Subscriber => ClientModel { subscriber: state, ..self },
        }
    }

    /// What holds of every state that a session can be in.
    ///
    /// Candidates wait only while there is no remote description; a publisher
    /// never answers and a subscriber never offers; a created description is
    /// held only until the engine has taken it; and the publisher is idle
    /// before `join`, in its first exchange during `join`, and past it after.
    pub open spec fn wf(self) -> bool {
        &&& self.publisher.wf()
        &&& self.subscriber.wf()
        &&& !(self.publisher.state is RemoteOfferReceived)
        &&& !(self.publisher.state is AnswerPending)
        &&& !(self.subscriber.state is OfferPending)
        &&& !(self.subscriber.state is AwaitingRemoteAnswer)
        &&& (self.publisher.description is Some ==> self.publisher.state is OfferPending)
        &&& (self.subscriber.description is Some ==> self.subscriber.state is AnswerPending)
        &&& match self.phase {
            Phase::Fresh | Phase::Opening | Phase::Failed => {
                &&& self.publisher.state is Idle
                &&& !self.publisher.remote_set
            },
            Phase::Joining => {
                &&& self.publisher.state.creating()
                &&& !self.publisher.remote_set
            },
            Phase::Joined => {
                &&& !(self.publisher.state is Idle)
                &&& self.publisher.remote_set
            },
            Phase::Closed => true,
        }
    }
}

/// The step that changes nothing and asks for nothing.
pub open spec fn ignore(c: ClientModel) -> Outcome {
    Outcome { next: c, actions: Seq::empty() }
}

/// The step that changes nothing and has an error logged.
pub open spec fn report(c: ClientModel, error: Error) -> Outcome {
    Outcome { next: c, actions: seq![ActionView::Report(error)] }
}

/// The waiting candidates of a connection as engine calls, oldest first.
pub open spec fn drain(role: PeerRole, pending: Seq<CandidateView>) -> Seq<ActionView> {
    Seq::new(pending.len(), |i: int| ActionView::AddIceCandidate(role, pending[i]))
}

/// `join` on a fresh session opens the signaling transport.
pub open spec fn start_join(c: ClientModel, sid: Seq<char>) -> ClientModel {
    ClientModel { phase: Phase::Opening, session: sid, ..c }
}

/// What is asked of the driver when the signaling transport is lost in this
/// phase: a `join` under way fails, an established or unstarted session has the
/// loss logged, and the transport is released; a closed session asks nothing.
pub open spec fn lost(phase: Phase) -> Seq<ActionView> {
    match phase {
        Phase::Closed => Seq::empty(),
        Phase::Opening | Phase::Joining => seq![
            ActionView::JoinFailed(Error::ConnectionError),
            ActionView::CloseSignal,
        ],
        _ => seq![ActionView::Report(Error::ConnectionError), ActionView::CloseSignal],
    }
}

/// The publisher's exchange ends in failure: fatal during `join`, survived after.
pub open spec fn publisher_failed(c: ClientModel, error: Error) -> Outcome {
    if c.phase is Joining {
        Outcome {
            next: ClientModel {
                phase: Phase::Failed,
                publisher: RoleModel {
                    state: NegotiationState::Idle,
                    description: None,
                    ..c.publisher
                },
                ..c
            },
            actions: seq![ActionView::JoinFailed(error)],
        }
    } else {
        Outcome {
            next: ClientModel {
                publisher: RoleModel {
                    state: NegotiationState::Stable,
                    description: None,
                    ..c.publisher
                },
                ..c
            },
            actions: seq![ActionView::Report(error)],
        }
    }
}

/// The subscriber's exchange ends in failure: it is logged and the subscriber is idle.
pub open spec fn subscriber_failed(c: ClientModel, error: Error) -> Outcome {
    Outcome {
        next: ClientModel {
            subscriber: RoleModel {
                state: NegotiationState::Idle,
                description: None,
                ..c.subscriber
            },
            ..c
        },
        actions: seq![ActionView::Report(error)],
    }
}

/// The signaling transport is open: the publisher's first exchange begins.
pub open spec fn on_connected(c: ClientModel) -> Outcome {
    if c.phase is Opening {
        Outcome {
            next: ClientModel {
                phase: Phase::Joining,
                publisher: RoleModel { state: NegotiationState::OfferPending, ..c.publisher },
                ..c
            },
            actions: seq![ActionView::CreateOffer(PeerRole::Publisher)],
        }
    } else {
        ignore(c)
    }
}

/// The signaling transport could not be opened: `join` fails.
pub open spec fn on_connect_failed(c: ClientModel) -> Outcome {
    if c.phase is Opening {
        Outcome {
            next: ClientModel { phase: Phase::Failed, ..c },
            actions: seq![ActionView::JoinFailed(Error::ConnectionError)],
        }
    } else {
        ignore(c)
    }
}

/// The engine created the publisher's offer: it becomes the local description.
pub open spec fn on_offer_created(c: ClientModel, offer: DescriptionView) -> Outcome {
    if c.publisher.state is OfferPending && c.publisher.description is None {
        Outcome {
            next: ClientModel {
                publisher: RoleModel { description: Some(offer), ..c.publisher },
                ..c
            },
            actions: seq![ActionView::SetLocalDescription(PeerRole::Publisher, offer)],
        }
    } else {
        ignore(c)
    }
}

/// The engine created no offer.
pub open spec fn on_offer_failed(c: ClientModel) -> Outcome {
    if c.publisher.state is OfferPending && c.publisher.description is None {
        publisher_failed(c, Error::NegotiationError)
    } else {
        ignore(c)
    }
}

/// The engine created the subscriber's answer: it becomes the local description.
pub open spec fn on_answer_created(c: ClientModel, answer: DescriptionView) -> Outcome {
    if c.subscriber.state is AnswerPending && c.subscriber.description is None {
        Outcome {
            next: ClientModel {
                subscriber: RoleModel { description: Some(answer), ..c.subscriber },
                ..c
            },
            actions: seq![ActionView::SetLocalDescription(PeerRole::Subscriber, answer)],
        }
    } else {
        ignore(c)
    }
}

/// The engine created no answer.
pub open spec fn on_answer_failed(c: ClientModel) -> Outcome {
    if c.subscriber.state is AnswerPending && c.subscriber.description is None {
        subscriber_failed(c, Error::NegotiationError)
    } else {
        ignore(c)
    }
}

/// An engine took its local description: the description goes to the server.
pub open spec fn on_local_applied(c: ClientModel, role: PeerRole) -> Outcome {
    match role {
        PeerRole::Publisher => {
            if c.publisher.state is OfferPending && c.publisher.description is Some {
                let offer = c.publisher.description->0;
                Outcome {
                    next: ClientModel {
                        publisher: RoleModel {
                            state: NegotiationState::LocalDescriptionSet,
                            description: None,
                            ..c.publisher
                        },
                        ..c
                    },
                    actions: if c.phase is Joining {
                        seq![ActionView::SendJoin { sid: c.session, offer }]
                    } else {
                        seq![ActionView::SendOffer(offer)]
                    },
                }
            } else {
                ignore(c)
            }
        },
        PeerRole::Subscriber => {
            if c.subscriber.state is AnswerPending && c.subscriber.description is Some {
                let answer = c.subscriber.description->0;
                Outcome {
                    next: ClientModel {
                        subscriber: RoleModel {
                            state: NegotiationState::LocalDescriptionSet,
                            description: None,
                            ..c.subscriber
                        },
                        ..c
                    },
                    actions: seq![ActionView::SendAnswer(answer)],
                }
            } else {
                ignore(c)
            }
        },
    }
}

/// An engine refused its local description.
pub open spec fn on_local_rejected(c: ClientModel, role: PeerRole) -> Outcome {
    match role {
        PeerRole::Publisher => {
            if c.publisher.state is OfferPending && c.publisher.description is Some {
                publisher_failed(c, Error::EngineError)
            } else {
                ignore(c)
            }
        },
        PeerRole::Subscriber => {
            if c.subscriber.state is AnswerPending && c.subscriber.description is Some {
                subscriber_failed(c, Error::EngineError)
            } else {
                ignore(c)
            }
        },
    }
}

/// The server answered the publisher's request: the answer goes to the engine.
pub open spec fn on_answer_received(c: ClientModel, answer: DescriptionView) -> Outcome {
    if c.publisher.state is LocalDescriptionSet {
        Outcome {
            next: ClientModel {
                publisher: RoleModel {
                    state: NegotiationState::AwaitingRemoteAnswer,
                    ..c.publisher
                },
                ..c
            },
            actions: seq![ActionView::SetRemoteDescription(PeerRole::Publisher, answer)],
        }
    } else {
        ignore(c)
    }
}

/// The publisher's request failed.
pub open spec fn on_request_failed(c: ClientModel, error: Error) -> Outcome {
    if c.publisher.state is LocalDescriptionSet {
        publisher_failed(c, error)
    } else {
        ignore(c)
    }
}

/// An engine took its remote description: waiting candidates follow at once.
///
/// For the publisher this completes the exchange, and `join` with it if this was
/// the first. For the subscriber an answer is asked of the engine next.
pub open spec fn on_remote_applied(c: ClientModel, role: PeerRole) -> Outcome {
    match role {
        PeerRole::Publisher => {
            if c.publisher.state is AwaitingRemoteAnswer {
                let publisher = RoleModel {
                    state: NegotiationState::Stable,
                    remote_set: true,
                    pending: Seq::empty(),
                    ..c.publisher
                };
                if c.phase is Joining {
                    Outcome {
                        next: ClientModel { phase: Phase::Joined, publisher, ..c },
                        actions: drain(role, c.publisher.pending) + seq![
                            ActionView::WatchEngine(PeerRole::Publisher),
                            ActionView::JoinSucceeded,
                        ],
                    }
                } else {
                    Outcome {
                        next: ClientModel { publisher, ..c },
                        actions: drain(role, c.publisher.pending),
                    }
                }
            } else {
                ignore(c)
            }
        },
        PeerRole::Subscriber => {
            if c.subscriber.state is RemoteOfferReceived {
                Outcome {
                    next: ClientModel {
                        subscriber: RoleModel {
                            state: NegotiationState::AnswerPending,
                            remote_set: true,
                            pending: Seq::empty(),
                            ..c.subscriber
                        },
                        ..c
                    },
                    actions: drain(role, c.subscriber.pending) + seq![
                        ActionView::CreateAnswer(PeerRole::Subscriber),
                    ],
                }
            } else {
                ignore(c)
            }
        },
    }
}

/// An engine refused its remote description.
pub open spec fn on_remote_rejected(c: ClientModel, role: PeerRole) -> Outcome {
    match role {
        PeerRole::Publisher => {
            if c.publisher.state is AwaitingRemoteAnswer {
                publisher_failed(c, Error::EngineError)
            } else {
                ignore(c)
            }
        },
        PeerRole::Subscriber => {
            if c.subscriber.state is RemoteOfferReceived {
                subscriber_failed(c, Error::EngineError)
            } else {
                ignore(c)
            }
        },
    }
}

/// The subscriber's answer is on its way: its exchange is complete.
pub open spec fn on_answer_delivered(c: ClientModel) -> Outcome {
    if c.subscriber.state is LocalDescriptionSet {
        Outcome {
            next: ClientModel {
                subscriber: RoleModel { state: NegotiationState::Stable, ..c.subscriber },
                ..c
            },
            actions: Seq::empty(),
        }
    } else {
        ignore(c)
    }
}

/// The subscriber's answer could not be sent.
pub open spec fn on_answer_undelivered(c: ClientModel) -> Outcome {
    if c.subscriber.state is LocalDescriptionSet {
        subscriber_failed(c, Error::RpcError)
    } else {
        ignore(c)
    }
}

/// The server offers: taken up if the subscriber is at rest, else dropped as a violation.
pub open spec fn on_negotiate(c: ClientModel, offer: DescriptionView) -> Outcome {
    if c.subscriber.state.at_rest() {
        Outcome {
            next: ClientModel {
                subscriber: RoleModel {
                    state: NegotiationState::RemoteOfferReceived,
                    ..c.subscriber
                },
                ..c
            },
            actions: seq![ActionView::SetRemoteDescription(PeerRole::Subscriber, offer)],
        }
    } else {
        report(c, Error::ProtocolViolation)
    }
}

/// The server trickles a candidate: applied if the connection has a remote
/// description, else put behind those already waiting.
pub open spec fn on_trickle(c: ClientModel, target: PeerRole, candidate: CandidateView) -> Outcome {
    let role = c.role(target);
    if role.remote_set {
        Outcome { next: c, actions: seq![ActionView::AddIceCandidate(target, candidate)] }
    } else {
        Outcome {
            next: c.with_role(target, RoleModel { pending: role.pending.push(candidate), ..role }),
            actions: Seq::empty(),
        }
    }
}

/// The publisher's engine asks for renegotiation: begun if the publisher is
/// stable, else ignored.
pub open spec fn on_negotiation_needed(c: ClientModel) -> Outcome {
    if c.publisher.state is Stable {
        Outcome {
            next: ClientModel {
                publisher: RoleModel { state: NegotiationState::OfferPending, ..c.publisher },
                ..c
            },
            actions: seq![ActionView::CreateOffer(PeerRole::Publisher)],
        }
    } else {
        ignore(c)
    }
}

/// What the session does with one event.
///
/// A closed session does nothing; an event that nothing was waiting for is
/// ignored.
pub open spec fn step(c: ClientModel, event: EventView) -> Outcome {
    if c.phase is Closed {
        ignore(c)
    } else {
        match event {
            EventView::Connected => on_connected(c),
            EventView::ConnectFailed => on_connect_failed(c),
            EventView::OfferCreated(offer) => on_offer_created(c, offer),
            EventView::OfferFailed => on_offer_failed(c),
            EventView::AnswerCreated(answer) => on_answer_created(c, answer),
            EventView::AnswerFailed => on_answer_failed(c),
            EventView::LocalDescriptionApplied(role) => on_local_applied(c, role),
            EventView::LocalDescriptionRejected(role) => on_local_rejected(c, role),
            EventView::RemoteDescriptionApplied(role) => on_remote_applied(c, role),
            EventView::RemoteDescriptionRejected(role) => on_remote_rejected(c, role),
            EventView::AnswerReceived(answer) => on_answer_received(c, answer),
            EventView::RequestFailed(error) => on_request_failed(c, error),
            EventView::AnswerDelivered => on_answer_delivered(c),
            EventView::AnswerUndelivered => on_answer_undelivered(c),
            EventView::Notification(NotificationView::Negotiate { offer }) => on_negotiate(
                c,
                offer,
            ),
            EventView::Notification(NotificationView::Trickle { target, candidate }) => on_trickle(
                c,
                target,
                candidate,
            ),
            EventView::NegotiationNeeded => on_negotiation_needed(c),
            EventView::IceCandidate(role, candidate) => Outcome {
                next: c,
                actions: seq![ActionView::SendTrickle(role, candidate)],
            },
            EventView::CandidateRejected(_) => report(c, Error::EngineError),
            EventView::TrickleUndelivered => report(c, Error::RpcError),
        }
    }
}

/// What the session does with a sequence of events: the state after the last
/// of them and all actions asked for on the way, in order.
pub open spec fn run(c: ClientModel, events: Seq<EventView>) -> Outcome
    decreases events.len(),
{
    if events.len() == 0 {
        ignore(c)
    } else {
        let before = run(c, events.drop_last());
        let last = step(before.next, events.last());
        Outcome { next: last.next, actions: before.actions + last.actions }
    }
}

} // verus!
