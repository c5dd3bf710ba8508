//! Signaling and negotiation core for a two-connection real-time media session.
//!
//! A session keeps two peer connections towards a selective forwarding unit:
//! a publisher for outbound media and a subscriber for inbound media. This crate
//! holds the decisions of such a session and none of its transport: which engine
//! call and which signaling message follows which event, and what state the two
//! connections are in. A driver performs the calls and reports what came back.
//!
//! - [`Client`] is the session: feed it [`Event`]s, carry out its [`Action`]s.
//! - [`jsonrpc::JsonRPCSignaler`] is the signaling client: it turns the
//!   protocol's operations into requests and reads replies and pushed messages.
//! - [`model`] is the session as a mathematical state machine, and [`laws`]
//!   is what is proved of it.

pub mod client;
pub mod event;
pub mod jsonrpc;
pub mod laws;
pub mod model;
pub mod negotiation;
pub mod types;
pub mod wire;

pub use client::Client;
pub use event::{Action, Event};
pub use negotiation::{NegotiationState, Phase};
pub use types::{Error, PeerRole, SdpKind, SessionDescription, SignalNotification, TrickleCandidate};
pub use wire::{TrickleNotification, WireDescription};
