//! The negotiation state of one connection.

use crate::types::{CandidateView, DescriptionView};
use vstd::prelude::*;

verus! {

/// Where one connection stands in its offer/answer exchange.
///
/// A publisher goes from `Idle` through `OfferPending`, `LocalDescriptionSet`
/// and `AwaitingRemoteAnswer` to `Stable`; a subscriber goes through
/// `RemoteOfferReceived`, `AnswerPending` and `LocalDescriptionSet` to
/// `Stable`. From `Stable` either sets out again when negotiation is renewed.
/// A publisher that fails falls back to where it set out from; a subscriber
/// that fails falls back to `Idle`.
#[derive(Clone, Copy, Debug, PartialEq, Eq, Structural)]
pub enum NegotiationState {
    /// Nothing has been negotiated, or the last exchange was given up.
    Idle,
    /// An offer was asked of the engine and is not yet its local description.
    OfferPending,
    /// The local description is in place. A publisher's offer is with the
    /// server, whose answer has not come; a subscriber's answer is being sent.
    LocalDescriptionSet,
    /// The server's answer has come and the engine is being handed it: the
    /// publisher awaits the answer as its remote description.
    AwaitingRemoteAnswer,
    /// The server's offer has come and the engine is being handed it.
    RemoteOfferReceived,
    /// An answer was asked of the engine and is not yet its local description.
    AnswerPending,
    /// The last exchange is complete.
    Stable,
}

impl NegotiationState {
    /// No exchange is under way.
    pub open spec fn at_rest(self) -> bool {
        self is Idle || self is Stable
    }

    /// No exchange is under way.
    pub fn is_at_rest(self) -> (rest: bool)
        ensures
            rest == self.at_rest(),
    {
        match self {
            NegotiationState::Idle => true,
            NegotiationState::Stable => true,
            _ => false,
        }
    }

    /// An exchange is under way for which the engine was asked to create an
    /// offer or an answer.
    pub open spec fn creating(self) -> bool {
        self is OfferPending || self is AnswerPending || self is LocalDescriptionSet
            || self is AwaitingRemoteAnswer
    }
}

/// How far the session as a whole has come.
#[derive(Clone, Copy, Debug, PartialEq, Eq, Structural)]
pub enum Phase {
    /// `join` has not been called.
    Fresh,
    /// `join` was called and the signaling transport is being opened.
    Opening,
    /// The publisher's first exchange is under way; any failure ends the session.
    Joining,
    /// `join` succeeded; failures are reported and survived.
    Joined,
    /// `join` failed.
    Failed,
    /// The session was closed.
    Closed,
}

/// The mathematical state of one connection.
pub struct RoleModel {
    /// Where the connection stands in its exchange.
    pub state: NegotiationState,
    /// Whether the engine has ever taken a remote description.
    pub remote_set: bool,
    /// Remote candidates that arrived before the first remote description, oldest first.
    pub pending: Seq<CandidateView>,
    /// The offer or answer that the engine created and has not yet taken as local description.
    pub description: Option<DescriptionView>,
}

impl RoleModel {
    /// A connection on which nothing has happened.
    pub open spec fn fresh() -> RoleModel {
        RoleModel {
            state: NegotiationState::Idle,
            remote_set: false,
            pending: Seq::empty(),
            description: None,
        }
    }

    /// Candidates wait only as long as there is no remote description.
    pub open spec fn wf(self) -> bool {
        self.remote_set ==> self.pending.len() == 0
    }
}

} // verus!
