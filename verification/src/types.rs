//! The values that travel between the engine, the session and the server.

use vstd::prelude::*;

verus! {

/// The two logical connections of a session.
#[derive(Clone, Copy, Debug, PartialEq, Eq, Structural)]
pub enum PeerRole {
    /// Carries outbound media; negotiates by sending offers.
    Publisher,
    /// Carries inbound media; negotiates by answering the server's offers.
    Subscriber,
}

/// Which half of an offer/answer exchange a description is.
#[derive(Clone, Copy, Debug, PartialEq, Eq, Structural)]
pub enum SdpKind {
    Offer,
    Answer,
}

/// What can go wrong in a session.
#[derive(Clone, Copy, Debug, PartialEq, Eq, Structural)]
pub enum Error {
    /// The signaling transport could not be established or was lost.
    ConnectionError,
    /// A signaling call was made while the transport was not open.
    NotConnected,
    /// The server's reply to a request was malformed, or the request was refused.
    RpcError,
    /// The media engine rejected a description or a candidate.
    EngineError,
    /// The media engine produced no offer or answer, or negotiation was begun twice.
    NegotiationError,
    /// The server sent an offer while an earlier one was still being answered.
    ProtocolViolation,
}

/// A session description: SDP text together with its role in the exchange.
#[derive(Debug, PartialEq, Eq)]
pub struct SessionDescription {
    pub kind: SdpKind,
    pub sdp: String,
}

/// The mathematical value of a [`SessionDescription`].
pub struct DescriptionView {
    pub kind: SdpKind,
    pub sdp: Seq<char>,
}

impl View for SessionDescription {
    type V = DescriptionView;

    open spec fn view(&self) -> DescriptionView {
        DescriptionView { kind: self.kind, sdp: self.sdp@ }
    }
}

impl Clone for SessionDescription {
    fn clone(&self) -> (copy: Self)
        ensures
            copy@ == self@,
    {
        SessionDescription { kind: self.kind, sdp: self.sdp.clone() }
    }
}

/// An ICE candidate as it is trickled between the engine and the server.
#[derive(Debug, PartialEq, Eq)]
pub struct TrickleCandidate {
    pub candidate: String,
    pub sdp_mid: Option<String>,
    pub sdp_mline_index: u32,
}

/// The mathematical value of a [`TrickleCandidate`].
pub struct CandidateView {
    pub candidate: Seq<char>,
    pub sdp_mid: Option<Seq<char>>,
    pub sdp_mline_index: u32,
}

/// The text of an optional string, if there is one.
pub open spec fn text_of(s: Option<String>) -> Option<Seq<char>> {
    match s {
        Some(t) => Some(t@),
        None => None,
    }
}

impl View for TrickleCandidate {
    type V = CandidateView;

    open spec fn view(&self) -> CandidateView {
        CandidateView {
            candidate: self.candidate@,
            sdp_mid: text_of(self.sdp_mid),
            sdp_mline_index: self.sdp_mline_index,
        }
    }
}

impl Clone for TrickleCandidate {
    fn clone(&self) -> (copy: Self)
        ensures
            copy@ == self@,
    {
        let sdp_mid = match &self.sdp_mid {
            Some(mid) => Some(mid.clone()),
            None => None,
        };
        TrickleCandidate {
            candidate: self.candidate.clone(),
            sdp_mid,
            sdp_mline_index: self.sdp_mline_index,
        }
    }
}

/// What the server can push to a session, whatever its encoding on the wire.
#[derive(Debug, PartialEq, Eq)]
pub enum SignalNotification {
    /// The server offers a new description for the subscriber connection.
    Negotiate { offer: SessionDescription },
    /// The server trickles a remote candidate for one of the two connections.
    Trickle { target: PeerRole, candidate: TrickleCandidate },
}

/// The mathematical value of a [`SignalNotification`].
pub enum NotificationView {
    Negotiate { offer: DescriptionView },
    Trickle { target: PeerRole, candidate: CandidateView },
}

impl View for SignalNotification {
    type V = NotificationView;

    open spec fn view(&self) -> NotificationView {
        match self {
            SignalNotification::Negotiate { offer } => NotificationView::Negotiate { offer: offer@ },
            SignalNotification::Trickle { target, candidate } => NotificationView::Trickle {
                target: *target,
                candidate: candidate@,
            },
        }
    }
}

} // verus!
