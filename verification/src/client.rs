//! The executable session.
//!
//! [`Client`] holds the state of both connections and turns each [`Event`] into
//! the [`Action`]s that follow from it. It computes [`crate::model::step`]:
//! every contract here is an equation between what the code returns and what
//! the model says.

use crate::event::{action_views, candidate_views, Action, ActionView, Event, EventView};
use crate::laws::law_step_keeps_wf;
use crate::model::{
    drain, lost, on_answer_created, on_answer_delivered, on_answer_failed, on_answer_received,
    on_answer_undelivered, on_connect_failed, on_connected, on_local_applied, on_local_rejected,
    on_negotiate, on_negotiation_needed, on_offer_created, on_offer_failed, on_remote_applied,
    on_remote_rejected, on_request_failed, on_trickle, publisher_failed, start_join, step,
    subscriber_failed, ClientModel,
};
use crate::negotiation::{NegotiationState, Phase, RoleModel};
use crate::types::{
    DescriptionView, Error, PeerRole, SessionDescription, SignalNotification, TrickleCandidate,
};
use vstd::prelude::*;

verus! {

/// The value of an optional description, if there is one.
pub open spec fn description_view(d: Option<SessionDescription>) -> Option<DescriptionView> {
    match d {
        Some(d) => Some(d@),
        None => None,
    }
}

/// The state of one connection.
struct RoleState {
    state: NegotiationState,
    remote_set: bool,
    pending: Vec<TrickleCandidate>,
    description: Option<SessionDescription>,
}

impl View for RoleState {
    type V = RoleModel;

    closed spec fn view(&self) -> RoleModel {
        RoleModel {
            state: self.state,
            remote_set: self.remote_set,
            pending: candidate_views(self.pending@),
            description: description_view(self.description),
        }
    }
}

impl RoleState {
    fn new() -> (role: RoleState)
        ensures
            role@ == RoleModel::fresh(),
    {
        let role = RoleState {
            state: NegotiationState::Idle,
            remote_set: false,
            pending: Vec::new(),
            description: None,
        };
        assert(candidate_views(role.pending@) =~= Seq::empty());
        role
    }

    /// Empties the waiting list into engine calls, oldest candidate first.
    fn drain(&mut self, role: PeerRole) -> (actions: Vec<Action>)
        ensures
            action_views(actions@) == drain(role, old(self)@.pending),
            final(self)@ == (RoleModel { pending: Seq::empty(), ..old(self)@ }),
    {
        let mut actions: Vec<Action> = Vec::new();
        let mut i: usize = 0;
        while i < self.pending.len()
            invariant
                i <= self.pending.len(),
                *self == *old(self),
                actions.len() == i,
                forall|j: int|
                    0 <= j < i ==> (#[trigger] actions[j])@ == ActionView::AddIceCandidate(
                        role,
                        self.pending[j]@,
                    ),
            decreases self.pending.len() - i,
        {
            let candidate = self.pending[i].clone();
            actions.push(Action::AddIceCandidate(role, candidate));
            i += 1;
        }
        self.pending.clear();
        assert(action_views(actions@) =~= drain(role, old(self)@.pending));
        assert(candidate_views(self.pending@) =~= Seq::empty());
        actions
    }
}

/// A session: the negotiation state of its publisher and subscriber.
pub struct Client {
    phase: Phase,
    session: String,
    publisher: RoleState,
    subscriber: RoleState,
}

impl View for Client {
    type V = ClientModel;

    closed spec fn view(&self) -> ClientModel {
        ClientModel {
            phase: self.phase,
            session: self.session@,
            publisher: self.publisher@,
            subscriber: self.subscriber@,
        }
    }
}

/// No actions.
fn nothing() -> (actions: Vec<Action>)
    ensures
        action_views(actions@) == Seq::<ActionView>::empty(),
{
    let actions: Vec<Action> = Vec::new();
    assert(action_views(actions@) =~= Seq::<ActionView>::empty());
    actions
}

/// One action.
fn just(action: Action) -> (actions: Vec<Action>)
    ensures
        action_views(actions@) == seq![action@],
{
    let mut actions: Vec<Action> = Vec::new();
    actions.push(action);
    assert(action_views(actions@) =~= seq![action@]);
    actions
}

/// One more action behind those already there.
fn then_also(actions: &mut Vec<Action>, action: Action)
    ensures
        action_views(final(actions)@) == action_views(old(actions)@) + seq![action@],
{
    actions.push(action);
    assert(action_views(actions@) =~= action_views(old(actions)@) + seq![action@]);
}

impl Client {
    /// A session on which `join` has not been called: both connections idle,
    /// no candidate waiting.
    pub fn new() -> (client: Client)
        ensures
            client@ == ClientModel::fresh(),
            client@.wf(),
    {
        Client {
            phase: Phase::Fresh,
            session: String::new(),
            publisher: RoleState::new(),
            subscriber: RoleState::new(),
        }
    }

    /// How far the session has come.
    pub fn phase(&self) -> (phase: Phase)
        ensures
            phase == self@.phase,
    {
        self.phase
    }

    /// Where the connection of this role stands in its exchange.
    pub fn state(&self, role: PeerRole) -> (state: NegotiationState)
        ensures
            state == self@.role(role).state,
    {
        match role {
            PeerRole::Publisher => self.publisher.state,
            PeerRole::Subscriber => self.subscriber.state,
        }
    }

    /// Whether the engine of this role has taken a remote description.
    pub fn has_remote_description(&self, role: PeerRole) -> (set: bool)
        ensures
            set == self@.role(role).remote_set,
    {
        match role {
            PeerRole::Publisher => self.publisher.remote_set,
            PeerRole::Subscriber => self.subscriber.remote_set,
        }
    }

    /// How many remote candidates of this role wait for a remote description.
    pub fn pending_candidates(&self, role: PeerRole) -> (count: usize)
        ensures
            count == self@.role(role).pending.len(),
    {
        match role {
            PeerRole::Publisher => self.publisher.pending.len(),
            PeerRole::Subscriber => self.subscriber.pending.len(),
        }
    }

    /// Begins to join the session `sid`.
    ///
    /// On a fresh session the signaling transport is to be opened; the caller
    /// learns the result by a later `JoinSucceeded` or `JoinFailed` action. On
    /// any other session nothing changes and the call fails.
    pub fn join(&mut self, sid: String) -> (result: Result<Vec<Action>, Error>)
        ensures
            old(self)@.phase is Fresh ==> {
                &&& result is Ok
                &&& action_views(result->Ok_0@) == seq![ActionView::OpenSignal]
                &&& final(self)@ == start_join(old(self)@, sid@)
            },
            !(old(self)@.phase is Fresh) ==> {
                &&& result == Err::<Vec<Action>, Error>(Error::NegotiationError)
                &&& final(self)@ == old(self)@
            },
            old(self)@.wf() ==> final(self)@.wf(),
    {
        match self.phase {
            Phase::Fresh => {
                self.phase = Phase::Opening;
                self.session = sid;
                Ok(just(Action::OpenSignal))
            },
            _ => Err(Error::NegotiationError),
        }
    }

    /// Asks for a liveness probe of the signaling transport. Changes nothing.
    pub fn ping(&self) -> (action: Action)
        ensures
            action@ == ActionView::SendPing,
    {
        Action::SendPing
    }

    /// Ends the session: the transport is to be released, and whatever is
    /// reported afterwards is discarded. Closing twice is closing once.
    pub fn close(&mut self) -> (actions: Vec<Action>)
        ensures
            final(self)@ == (ClientModel { phase: Phase::Closed, ..old(self)@ }),
            action_views(actions@) == if old(self)@.phase is Closed {
                Seq::<ActionView>::empty()
            } else {
                seq![ActionView::CloseSignal]
            },
            old(self)@.wf() ==> final(self)@.wf(),
    {
        match self.phase {
            Phase::Closed => nothing(),
            _ => {
                self.phase = Phase::Closed;
                just(Action::CloseSignal)
            },
        }
    }

    /// Ends the session because the signaling transport was lost. A `join`
    /// under way fails; otherwise the loss is reported. Either way the
    /// session is closed.
    pub fn disconnected(&mut self) -> (actions: Vec<Action>)
        ensures
            final(self)@ == (ClientModel { phase: Phase::Closed, ..old(self)@ }),
            action_views(actions@) == lost(old(self)@.phase),
            old(self)@.wf() ==> final(self)@.wf(),
    {
        let actions = match self.phase {
            Phase::Closed => nothing(),
            Phase::Opening | Phase::Joining => {
                let mut actions = just(Action::JoinFailed(Error::ConnectionError));
                then_also(&mut actions, Action::CloseSignal);
                actions
            },
            _ => {
                let mut actions = just(Action::Report(Error::ConnectionError));
                then_also(&mut actions, Action::CloseSignal);
                actions
            },
        };
        self.phase = Phase::Closed;
        actions
    }

    /// Takes one event and says what to do about it: the state moves as
    /// [`step`] says and the actions returned are the ones it lists.
    pub fn handle(&mut self, event: Event) -> (actions: Vec<Action>)
        ensures
            final(self)@ == step(old(self)@, event@).next,
            action_views(actions@) == step(old(self)@, event@).actions,
            old(self)@.wf() ==> final(self)@.wf(),
    {
        proof {
            if self@.wf() {
                law_step_keeps_wf(self@, event@);
            }
        }
        match self.phase {
            Phase::Closed => nothing(),
            _ => self.dispatch(event),
        }
    }

    /// What an open session does with one event.
    fn dispatch(&mut self, event: Event) -> (actions: Vec<Action>)
        requires
            !(old(self)@.phase is Closed),
        ensures
            final(self)@ == step(old(self)@, event@).next,
            action_views(actions@) == step(old(self)@, event@).actions,
    {
        match event {
            Event::Notification(notification) => self.notified(notification),
            Event::IceCandidate(role, candidate) => just(Action::SendTrickle(role, candidate)),
            Event::CandidateRejected(_) => just(Action::Report(Error::EngineError)),
            Event::TrickleUndelivered => just(Action::Report(Error::RpcError)),
            Event::NegotiationNeeded => self.negotiation_needed(),
            Event::Connected => self.connected(),
            Event::ConnectFailed => self.connect_failed(),
            Event::AnswerReceived(answer) => self.answer_received(answer),
            Event::RequestFailed(error) => self.request_failed(error),
            Event::AnswerDelivered => self.answer_delivered(),
            Event::AnswerUndelivered => self.answer_undelivered(),
            engine => self.engine_reported(engine),
        }
    }

    /// What an open session does with a notification from the server.
    fn notified(&mut self, notification: SignalNotification) -> (actions: Vec<Action>)
        requires
            !(old(self)@.phase is Closed),
        ensures
            final(self)@ == step(old(self)@, EventView::Notification(notification@)).next,
            action_views(actions@) == step(
                old(self)@,
                EventView::Notification(notification@),
            ).actions,
    {
        match notification {
            SignalNotification::Negotiate { offer } => self.negotiate(offer),
            SignalNotification::Trickle { target, candidate } => self.trickle(target, candidate),
        }
    }

    /// What an open session does with the result of an engine call.
    fn engine_reported(&mut self, event: Event) -> (actions: Vec<Action>)
        requires
            !(old(self)@.phase is Closed),
            event is OfferCreated || event is OfferFailed || event is AnswerCreated
                || event is AnswerFailed || event is LocalDescriptionApplied
                || event is LocalDescriptionRejected || event is RemoteDescriptionApplied
                || event is RemoteDescriptionRejected,
        ensures
            final(self)@ == step(old(self)@, event@).next,
            action_views(actions@) == step(old(self)@, event@).actions,
    {
        match event {
            Event::OfferCreated(offer) => self.offer_created(offer),
            Event::OfferFailed => self.offer_failed(),
            Event::AnswerCreated(answer) => self.answer_created(answer),
            Event::AnswerFailed => self.answer_failed(),
            Event::LocalDescriptionApplied(role) => self.local_applied(role),
            Event::LocalDescriptionRejected(role) => self.local_rejected(role),
            Event::RemoteDescriptionApplied(role) => self.remote_applied(role),
            Event::RemoteDescriptionRejected(role) => self.remote_rejected(role),
            _ => nothing(),
        }
    }

    fn publisher_failed(&mut self, error: Error) -> (actions: Vec<Action>)
        ensures
            final(self)@ == publisher_failed(old(self)@, error).next,
            action_views(actions@) == publisher_failed(old(self)@, error).actions,
    {
        self.publisher.description = None;
        match self.phase {
            Phase::Joining => {
                self.phase = Phase::Failed;
                self.publisher.state = NegotiationState::Idle;
                just(Action::JoinFailed(error))
            },
            _ => {
                self.publisher.state = NegotiationState::Stable;
                just(Action::Report(error))
            },
        }
    }

    fn subscriber_failed(&mut self, error: Error) -> (actions: Vec<Action>)
        ensures
            final(self)@ == subscriber_failed(old(self)@, error).next,
            action_views(actions@) == subscriber_failed(old(self)@, error).actions,
    {
        self.subscriber.description = None;
        self.subscriber.state = NegotiationState::Idle;
        just(Action::Report(error))
    }

    fn connected(&mut self) -> (actions: Vec<Action>)
        ensures
            final(self)@ == on_connected(old(self)@).next,
            action_views(actions@) == on_connected(old(self)@).actions,
    {
        match self.phase {
            Phase::Opening => {
                self.phase = Phase::Joining;
                self.publisher.state = NegotiationState::OfferPending;
                just(Action::CreateOffer(PeerRole::Publisher))
            },
            _ => nothing(),
        }
    }

    fn connect_failed(&mut self) -> (actions: Vec<Action>)
        ensures
            final(self)@ == on_connect_failed(old(self)@).next,
            action_views(actions@) == on_connect_failed(old(self)@).actions,
    {
        match self.phase {
            Phase::Opening => {
                self.phase = Phase::Failed;
                just(Action::JoinFailed(Error::ConnectionError))
            },
            _ => nothing(),
        }
    }

    /// Whether the publisher waits for the engine's offer.
    fn awaits_offer(&self) -> (waits: bool)
        ensures
            waits == (self@.publisher.state is OfferPending && self@.publisher.description is None),
    {
        match (self.publisher.state, &self.publisher.description) {
            (NegotiationState::OfferPending, None) => true,
            _ => false,
        }
    }

    /// Whether the publisher waits for the engine to take its offer.
    fn offer_in_hand(&self) -> (held: bool)
        ensures
            held == (self@.publisher.state is OfferPending && self@.publisher.description is Some),
    {
        match (self.publisher.state, &self.publisher.description) {
            (NegotiationState::OfferPending, Some(_)) => true,
            _ => false,
        }
    }

    /// Whether the subscriber waits for the engine's answer.
    fn awaits_answer(&self) -> (waits: bool)
        ensures
            waits == (self@.subscriber.state is AnswerPending
                && self@.subscriber.description is None),
    {
        match (self.subscriber.state, &self.subscriber.description) {
            (NegotiationState::AnswerPending, None) => true,
            _ => false,
        }
    }

    /// Whether the subscriber waits for the engine to take its answer.
    fn answer_in_hand(&self) -> (held: bool)
        ensures
            held == (self@.subscriber.state is AnswerPending
                && self@.subscriber.description is Some),
    {
        match (self.subscriber.state, &self.subscriber.description) {
            (NegotiationState::AnswerPending, Some(_)) => true,
            _ => false,
        }
    }

    fn offer_created(&mut self, offer: SessionDescription) -> (actions: Vec<Action>)
        ensures
            final(self)@ == on_offer_created(old(self)@, offer@).next,
            action_views(actions@) == on_offer_created(old(self)@, offer@).actions,
    {
        if self.awaits_offer() {
            let copy = offer.clone();
            self.publisher.description = Some(offer);
            just(Action::SetLocalDescription(PeerRole::Publisher, copy))
        } else {
            nothing()
        }
    }

    fn offer_failed(&mut self) -> (actions: Vec<Action>)
        ensures
            final(self)@ == on_offer_failed(old(self)@).next,
            action_views(actions@) == on_offer_failed(old(self)@).actions,
    {
        if self.awaits_offer() {
            self.publisher_failed(Error::NegotiationError)
        } else {
            nothing()
        }
    }

    fn answer_created(&mut self, answer: SessionDescription) -> (actions: Vec<Action>)
        ensures
            final(self)@ == on_answer_created(old(self)@, answer@).next,
            action_views(actions@) == on_answer_created(old(self)@, answer@).actions,
    {
        if self.awaits_answer() {
            let copy = answer.clone();
            self.subscriber.description = Some(answer);
            just(Action::SetLocalDescription(PeerRole::Subscriber, copy))
        } else {
            nothing()
        }
    }

    fn answer_failed(&mut self) -> (actions: Vec<Action>)
        ensures
            final(self)@ == on_answer_failed(old(self)@).next,
            action_views(actions@) == on_answer_failed(old(self)@).actions,
    {
        if self.awaits_answer() {
            self.subscriber_failed(Error::NegotiationError)
        } else {
            nothing()
        }
    }

    fn local_applied(&mut self, role: PeerRole) -> (actions: Vec<Action>)
        ensures
            final(self)@ == on_local_applied(old(self)@, role).next,
            action_views(actions@) == on_local_applied(old(self)@, role).actions,
    {
        match role {
            PeerRole::Publisher => {
                if self.offer_in_hand() {
                    let offer = self.publisher.description.take().unwrap();
                    self.publisher.state = NegotiationState::LocalDescriptionSet;
                    match self.phase {
                        Phase::Joining => just(
                            Action::SendJoin { sid: self.session.clone(), offer },
                        ),
                        _ => just(Action::SendOffer(offer)),
                    }
                } else {
                    nothing()
                }
            },
            PeerRole::Subscriber => {
                if self.answer_in_hand() {
                    let answer = self.subscriber.description.take().unwrap();
                    self.subscriber.state = NegotiationState::LocalDescriptionSet;
                    just(Action::SendAnswer(answer))
                } else {
                    nothing()
                }
            },
        }
    }

    fn local_rejected(&mut self, role: PeerRole) -> (actions: Vec<Action>)
        ensures
            final(self)@ == on_local_rejected(old(self)@, role).next,
            action_views(actions@) == on_local_rejected(old(self)@, role).actions,
    {
        match role {
            PeerRole::Publisher => {
                if self.offer_in_hand() {
                    self.publisher_failed(Error::EngineError)
                } else {
                    nothing()
                }
            },
            PeerRole::Subscriber => {
                if self.answer_in_hand() {
                    self.subscriber_failed(Error::EngineError)
                } else {
                    nothing()
                }
            },
        }
    }

    fn answer_received(&mut self, answer: SessionDescription) -> (actions: Vec<Action>)
        ensures
            final(self)@ == on_answer_received(old(self)@, answer@).next,
            action_views(actions@) == on_answer_received(old(self)@, answer@).actions,
    {
        match self.publisher.state {
            NegotiationState::LocalDescriptionSet => {
                self.publisher.state = NegotiationState::AwaitingRemoteAnswer;
                just(Action::SetRemoteDescription(PeerRole::Publisher, answer))
            },
            _ => nothing(),
        }
    }

    fn request_failed(&mut self, error: Error) -> (actions: Vec<Action>)
        ensures
            final(self)@ == on_request_failed(old(self)@, error).next,
            action_views(actions@) == on_request_failed(old(self)@, error).actions,
    {
        match self.publisher.state {
            NegotiationState::LocalDescriptionSet => self.publisher_failed(error),
            _ => nothing(),
        }
    }

    fn remote_applied(&mut self, role: PeerRole) -> (actions: Vec<Action>)
        ensures
            final(self)@ == on_remote_applied(old(self)@, role).next,
            action_views(actions@) == on_remote_applied(old(self)@, role).actions,
    {
        match (role, self.publisher.state, self.subscriber.state) {
            (PeerRole::Publisher, NegotiationState::AwaitingRemoteAnswer, _) => {
                let mut actions = self.publisher.drain(role);
                self.publisher.state = NegotiationState::Stable;
                self.publisher.remote_set = true;
                match self.phase {
                    Phase::Joining => {
                        self.phase = Phase::Joined;
                        then_also(&mut actions, Action::WatchEngine(PeerRole::Publisher));
                        then_also(&mut actions, Action::JoinSucceeded);
                        assert(action_views(actions@) =~= on_remote_applied(
                            old(self)@,
                            role,
                        ).actions);
                    },
                    _ => {},
                }
                actions
            },
            (PeerRole::Subscriber, _, NegotiationState::RemoteOfferReceived) => {
                let mut actions = self.subscriber.drain(role);
                self.subscriber.state = NegotiationState::AnswerPending;
                self.subscriber.remote_set = true;
                then_also(&mut actions, Action::CreateAnswer(PeerRole::Subscriber));
                actions
            },
            _ => nothing(),
        }
    }

    fn remote_rejected(&mut self, role: PeerRole) -> (actions: Vec<Action>)
        ensures
            final(self)@ == on_remote_rejected(old(self)@, role).next,
            action_views(actions@) == on_remote_rejected(old(self)@, role).actions,
    {
        match (role, self.publisher.state, self.subscriber.state) {
            (PeerRole::Publisher, NegotiationState::AwaitingRemoteAnswer, _) => {
                self.publisher_failed(Error::EngineError)
            },
            (PeerRole::Subscriber, _, NegotiationState::RemoteOfferReceived) => {
                self.subscriber_failed(Error::EngineError)
            },
            _ => nothing(),
        }
    }

    fn answer_delivered(&mut self) -> (actions: Vec<Action>)
        ensures
            final(self)@ == on_answer_delivered(old(self)@).next,
            action_views(actions@) == on_answer_delivered(old(self)@).actions,
    {
        match self.subscriber.state {
            NegotiationState::LocalDescriptionSet => {
                self.subscriber.state = NegotiationState::Stable;
            },
            _ => {},
        }
        nothing()
    }

    fn answer_undelivered(&mut self) -> (actions: Vec<Action>)
        ensures
            final(self)@ == on_answer_undelivered(old(self)@).next,
            action_views(actions@) == on_answer_undelivered(old(self)@).actions,
    {
        match self.subscriber.state {
            NegotiationState::LocalDescriptionSet => self.subscriber_failed(Error::RpcError),
            _ => nothing(),
        }
    }

    fn negotiate(&mut self, offer: SessionDescription) -> (actions: Vec<Action>)
        ensures
            final(self)@ == on_negotiate(old(self)@, offer@).next,
            action_views(actions@) == on_negotiate(old(self)@, offer@).actions,
    {
        if self.subscriber.state.is_at_rest() {
            self.subscriber.state = NegotiationState::RemoteOfferReceived;
            just(Action::SetRemoteDescription(PeerRole::Subscriber, offer))
        } else {
            just(Action::Report(Error::ProtocolViolation))
        }
    }

    fn trickle(&mut self, target: PeerRole, candidate: TrickleCandidate) -> (actions: Vec<Action>)
        ensures
            final(self)@ == on_trickle(old(self)@, target, candidate@).next,
            action_views(actions@) == on_trickle(old(self)@, target, candidate@).actions,
    {
        let set = self.has_remote_description(target);
        if set {
            just(Action::AddIceCandidate(target, candidate))
        } else {
            match target {
                PeerRole::Publisher => {
                    self.publisher.pending.push(candidate);
                    assert(candidate_views(self.publisher.pending@) =~= candidate_views(
                        old(self).publisher.pending@,
                    ).push(candidate@));
                },
                PeerRole::Subscriber => {
                    self.subscriber.pending.push(candidate);
                    assert(candidate_views(self.subscriber.pending@) =~= candidate_views(
                        old(self).subscriber.pending@,
                    ).push(candidate@));
                },
            }
            nothing()
        }
    }

    fn negotiation_needed(&mut self) -> (actions: Vec<Action>)
        ensures
            final(self)@ == on_negotiation_needed(old(self)@).next,
            action_views(actions@) == on_negotiation_needed(old(self)@).actions,
    {
        match self.publisher.state {
            NegotiationState::Stable => {
                self.publisher.state = NegotiationState::OfferPending;
                just(Action::CreateOffer(PeerRole::Publisher))
            },
            _ => nothing(),
        }
    }
}

} // verus!
