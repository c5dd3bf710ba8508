//! What a session is told, and what it asks its driver to do.
//!
//! The session performs no call itself. Its driver hands it an [`Event`] for
//! everything that happens outside (a notification from the server, a result
//! from the engine) and carries out the [`Action`]s that come back, in order.

use crate::types::{
    CandidateView, DescriptionView, Error, NotificationView, PeerRole, SessionDescription,
    SignalNotification, TrickleCandidate,
};
use vstd::prelude::*;

verus! {

/// Something that happened outside the session.
#[derive(Debug, PartialEq, Eq)]
pub enum Event {
    /// The signaling transport is open.
    Connected,
    /// The signaling transport could not be opened.
    ConnectFailed,
    /// The publisher's engine resolved `create_offer`.
    OfferCreated(SessionDescription),
    /// The publisher's engine gave no offer, or an error in its place.
    OfferFailed,
    /// The subscriber's engine resolved `create_answer`.
    AnswerCreated(SessionDescription),
    /// The subscriber's engine gave no answer, or an error in its place.
    AnswerFailed,
    /// The engine of this role took the local description it was handed.
    LocalDescriptionApplied(PeerRole),
    /// The engine of this role refused the local description it was handed.
    LocalDescriptionRejected(PeerRole),
    /// The engine of this role took the remote description it was handed.
    RemoteDescriptionApplied(PeerRole),
    /// The engine of this role refused the remote description it was handed.
    RemoteDescriptionRejected(PeerRole),
    /// The server answered the publisher's `join` or `offer` request.
    AnswerReceived(SessionDescription),
    /// The publisher's `join` or `offer` request failed with this error.
    RequestFailed(Error),
    /// The subscriber's answer was handed to the transport.
    AnswerDelivered,
    /// The subscriber's answer could not be handed to the transport.
    AnswerUndelivered,
    /// The server pushed a notification.
    Notification(SignalNotification),
    /// The publisher's engine asks for renegotiation.
    NegotiationNeeded,
    /// The engine of this role found a local candidate.
    IceCandidate(PeerRole, TrickleCandidate),
    /// The engine of this role refused a remote candidate.
    CandidateRejected(PeerRole),
    /// A local candidate could not be handed to the transport.
    TrickleUndelivered,
}

/// The mathematical value of an [`Event`].
pub enum EventView {
    Connected,
    ConnectFailed,
    OfferCreated(DescriptionView),
    OfferFailed,
    AnswerCreated(DescriptionView),
    AnswerFailed,
    LocalDescriptionApplied(PeerRole),
    LocalDescriptionRejected(PeerRole),
    RemoteDescriptionApplied(PeerRole),
    RemoteDescriptionRejected(PeerRole),
    AnswerReceived(DescriptionView),
    RequestFailed(Error),
    AnswerDelivered,
    AnswerUndelivered,
    Notification(NotificationView),
    NegotiationNeeded,
    IceCandidate(PeerRole, CandidateView),
    CandidateRejected(PeerRole),
    TrickleUndelivered,
}

impl View for Event {
    type V = EventView;

    open spec fn view(&self) -> EventView {
        match self {
            Event::Connected => EventView::Connected,
            Event::ConnectFailed => EventView::ConnectFailed,
            Event::OfferCreated(d) => EventView::OfferCreated(d@),
            Event::OfferFailed => EventView::OfferFailed,
            Event::AnswerCreated(d) => EventView::AnswerCreated(d@),
            Event::AnswerFailed => EventView::AnswerFailed,
            Event::LocalDescriptionApplied(r) => EventView::LocalDescriptionApplied(*r),
            Event::LocalDescriptionRejected(r) => EventView::LocalDescriptionRejected(*r),
            Event::RemoteDescriptionApplied(r) => EventView::RemoteDescriptionApplied(*r),
            Event::RemoteDescriptionRejected(r) => EventView::RemoteDescriptionRejected(*r),
            Event::AnswerReceived(d) => EventView::AnswerReceived(d@),
            Event::RequestFailed(e) => EventView::RequestFailed(*e),
            Event::AnswerDelivered => EventView::AnswerDelivered,
            Event::AnswerUndelivered => EventView::AnswerUndelivered,
            Event::Notification(n) => EventView::Notification(n@),
            Event::NegotiationNeeded => EventView::NegotiationNeeded,
            Event::IceCandidate(r, c) => EventView::IceCandidate(*r, c@),
            Event::CandidateRejected(r) => EventView::CandidateRejected(*r),
            Event::TrickleUndelivered => EventView::TrickleUndelivered,
        }
    }
}

/// One call that the driver makes on the session's behalf.
#[derive(Debug, PartialEq, Eq)]
pub enum Action {
    /// Open the signaling transport and start reading its notifications.
    OpenSignal,
    /// Release the signaling transport and stop reading events.
    CloseSignal,
    /// Ask the engine of this role for an offer.
    CreateOffer(PeerRole),
    /// Ask the engine of this role for an answer.
    CreateAnswer(PeerRole),
    /// Hand the engine of this role its local description.
    SetLocalDescription(PeerRole, SessionDescription),
    /// Hand the engine of this role its remote description.
    SetRemoteDescription(PeerRole, SessionDescription),
    /// Hand the engine of this role a remote candidate.
    AddIceCandidate(PeerRole, TrickleCandidate),
    /// Send the `join` request and wait for the server's answer.
    SendJoin { sid: String, offer: SessionDescription },
    /// Send the `offer` request and wait for the server's answer.
    SendOffer(SessionDescription),
    /// Send the `answer` notification.
    SendAnswer(SessionDescription),
    /// Send the `trickle` notification with a local candidate of this role.
    SendTrickle(PeerRole, TrickleCandidate),
    /// Send the `ping` request.
    SendPing,
    /// Start reporting `negotiation_needed` and local candidates of this role's engine.
    WatchEngine(PeerRole),
    /// Tell the caller of `join` that the session is established.
    JoinSucceeded,
    /// Tell the caller of `join` that the session could not be established.
    JoinFailed(Error),
    /// Log an error that the session has recovered from.
    Report(Error),
}

/// The mathematical value of an [`Action`].
pub enum ActionView {
    OpenSignal,
    CloseSignal,
    CreateOffer(PeerRole),
    CreateAnswer(PeerRole),
    SetLocalDescription(PeerRole, DescriptionView),
    SetRemoteDescription(PeerRole, DescriptionView),
    AddIceCandidate(PeerRole, CandidateView),
    SendJoin { sid: Seq<char>, offer: DescriptionView },
    SendOffer(DescriptionView),
    SendAnswer(DescriptionView),
    SendTrickle(PeerRole, CandidateView),
    SendPing,
    WatchEngine(PeerRole),
    JoinSucceeded,
    JoinFailed(Error),
    Report(Error),
}

impl View for Action {
    type V = ActionView;

    open spec fn view(&self) -> ActionView {
        match self {
            Action::OpenSignal => ActionView::OpenSignal,
            Action::CloseSignal => ActionView::CloseSignal,
            Action::CreateOffer(r) => ActionView::CreateOffer(*r),
            Action::CreateAnswer(r) => ActionView::CreateAnswer(*r),
            Action::SetLocalDescription(r, d) => ActionView::SetLocalDescription(*r, d@),
            Action::SetRemoteDescription(r, d) => ActionView::SetRemoteDescription(*r, d@),
            Action::AddIceCandidate(r, c) => ActionView::AddIceCandidate(*r, c@),
            Action::SendJoin { sid, offer } => ActionView::SendJoin { sid: sid@, offer: offer@ },
            Action::SendOffer(d) => ActionView::SendOffer(d@),
            Action::SendAnswer(d) => ActionView::SendAnswer(d@),
            Action::SendTrickle(r, c) => ActionView::SendTrickle(*r, c@),
            Action::SendPing => ActionView::SendPing,
            Action::WatchEngine(r) => ActionView::WatchEngine(*r),
            Action::JoinSucceeded => ActionView::JoinSucceeded,
            Action::JoinFailed(e) => ActionView::JoinFailed(*e),
            Action::Report(e) => ActionView::Report(*e),
        }
    }
}

/// The values of a list of actions, in order.
pub open spec fn action_views(actions: Seq<Action>) -> Seq<ActionView> {
    Seq::new(actions.len(), |i: int| actions[i]@)
}

/// The values of a list of candidates, in order.
pub open spec fn candidate_views(candidates: Seq<TrickleCandidate>) -> Seq<CandidateView> {
    Seq::new(candidates.len(), |i: int| candidates[i]@)
}

} // verus!
