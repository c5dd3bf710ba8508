//! The words and numbers by which the session's values go over the wire.
//!
//! A description travels as a pair of texts, its kind spelled out; a role
//! travels as a small integer. This module holds both spellings and their
//! readings, and proves that reading undoes spelling.

use crate::types::{
    CandidateView, DescriptionView, Error, NotificationView, PeerRole, SdpKind,
    SessionDescription, SignalNotification, TrickleCandidate,
};
use vstd::prelude::*;

verus! {

/// Whether two strings hold the same text.
pub fn same_text(a: &str, b: &str) -> (same: bool)
    ensures
        same == (a@ == b@),
{
    a.to_owned() == b.to_owned()
}

impl SdpKind {
    /// The word for this kind on the wire: `offer` or `answer`.
    pub open spec fn wire_name(self) -> Seq<char> {
        match self {
            SdpKind::Offer => "offer"@,
            SdpKind::Answer => "answer"@,
        }
    }

    /// The kind that a word on the wire stands for, if it is one of the two.
    pub open spec fn named(name: Seq<char>) -> Option<SdpKind> {
        if name == "offer"@ {
            Some(SdpKind::Offer)
        } else if name == "answer"@ {
            Some(SdpKind::Answer)
        } else {
            None
        }
    }

    /// The word for this kind on the wire.
    pub fn name(self) -> (name: &'static str)
        ensures
            name@ == self.wire_name(),
    {
        match self {
            SdpKind::Offer => "offer",
            SdpKind::Answer => "answer",
        }
    }

    /// Reads a kind from its word on the wire.
    pub fn from_name(name: &str) -> (kind: Option<SdpKind>)
        ensures
            kind == SdpKind::named(name@),
    {
        if same_text(name, "offer") {
            Some(SdpKind::Offer)
        } else if same_text(name, "answer") {
            Some(SdpKind::Answer)
        } else {
            None
        }
    }
}

impl PeerRole {
    /// The integer that names this role on the wire: 0 for the publisher, 1
    /// for the subscriber.
    pub open spec fn wire_target(self) -> u32 {
        match self {
            PeerRole::Publisher => 0,
            PeerRole::Subscriber => 1,
        }
    }

    /// The role that an integer on the wire names, if it names one.
    pub open spec fn targeted(target: u32) -> Option<PeerRole> {
        if target == 0 {
            Some(PeerRole::Publisher)
        } else if target == 1 {
            Some(PeerRole::Subscriber)
        } else {
            None
        }
    }

    /// The integer that names this role on the wire.
    pub fn target(self) -> (target: u32)
        ensures
            target == self.wire_target(),
    {
        match self {
            PeerRole::Publisher => 0,
            PeerRole::Subscriber => 1,
        }
    }

    /// Reads a role from its integer on the wire.
    pub fn from_target(target: u32) -> (role: Option<PeerRole>)
        ensures
            role == PeerRole::targeted(target),
    {
        if target == 0 {
            Some(PeerRole::Publisher)
        } else if target == 1 {
            Some(PeerRole::Subscriber)
        } else {
            None
        }
    }
}

/// A description as it goes over the wire: the word for its kind, sent under
/// the key `type`, and its SDP text, sent under the key `sdp`.
#[derive(Debug, PartialEq, Eq)]
pub struct WireDescription {
    pub kind: String,
    pub sdp: String,
}

/// The mathematical value of a [`WireDescription`].
pub struct WireDescriptionView {
    pub kind: Seq<char>,
    pub sdp: Seq<char>,
}

impl View for WireDescription {
    type V = WireDescriptionView;

    open spec fn view(&self) -> WireDescriptionView {
        WireDescriptionView { kind: self.kind@, sdp: self.sdp@ }
    }
}

/// The wire form of a description.
pub open spec fn encode_description(d: DescriptionView) -> WireDescriptionView {
    WireDescriptionView { kind: d.kind.wire_name(), sdp: d.sdp }
}

/// The description that a wire form stands for, if its kind is a known word.
pub open spec fn decode_description(w: WireDescriptionView) -> Option<DescriptionView> {
    match SdpKind::named(w.kind) {
        Some(kind) => Some(DescriptionView { kind, sdp: w.sdp }),
        None => None,
    }
}

impl SessionDescription {
    /// Puts this description into its wire form.
    pub fn to_wire(self) -> (wire: WireDescription)
        ensures
            wire@ == encode_description(self@),
    {
        WireDescription { kind: self.kind.name().to_owned(), sdp: self.sdp }
    }

    /// Reads a description from its wire form. The SDP text is taken as it
    /// is; a kind that is neither `offer` nor `answer` makes the message
    /// malformed.
    pub fn from_wire(wire: WireDescription) -> (result: Result<SessionDescription, Error>)
        ensures
            match decode_description(wire@) {
                Some(d) => result is Ok && result->Ok_0@ == d,
                None => result == Err::<SessionDescription, Error>(Error::RpcError),
            },
    {
        match SdpKind::from_name(wire.kind.as_str()) {
            Some(kind) => Ok(SessionDescription { kind, sdp: wire.sdp }),
            None => Err(Error::RpcError),
        }
    }
}

/// A trickled candidate as it goes over the wire: the integer of the role it
/// is for, and the candidate.
#[derive(Debug, PartialEq, Eq)]
pub struct TrickleNotification {
    pub target: u32,
    pub candidate: TrickleCandidate,
}

/// The mathematical value of a [`TrickleNotification`].
pub struct TrickleNotificationView {
    pub target: u32,
    pub candidate: CandidateView,
}

impl View for TrickleNotification {
    type V = TrickleNotificationView;

    open spec fn view(&self) -> TrickleNotificationView {
        TrickleNotificationView { target: self.target, candidate: self.candidate@ }
    }
}

/// The wire form of a candidate for `role`.
pub open spec fn encode_trickle(role: PeerRole, candidate: CandidateView) -> TrickleNotificationView {
    TrickleNotificationView { target: role.wire_target(), candidate }
}

/// The notification that a trickle message stands for, if its target names a role.
pub open spec fn decode_trickle(message: TrickleNotificationView) -> Option<NotificationView> {
    match PeerRole::targeted(message.target) {
        Some(target) => Some(NotificationView::Trickle { target, candidate: message.candidate }),
        None => None,
    }
}

/// The notification that a pushed description stands for, if it is an offer.
pub open spec fn decode_offer(message: WireDescriptionView) -> Option<NotificationView> {
    match decode_description(message) {
        Some(offer) => if offer.kind is Offer {
            Some(NotificationView::Negotiate { offer })
        } else {
            None
        },
        None => None,
    }
}

impl TrickleNotification {
    /// Puts a candidate for `role` into its wire form.
    pub fn new(role: PeerRole, candidate: TrickleCandidate) -> (message: TrickleNotification)
        ensures
            message@ == encode_trickle(role, candidate@),
    {
        TrickleNotification { target: role.target(), candidate }
    }
}

impl SignalNotification {
    /// Reads a pushed candidate. A target other than 0 and 1 makes the
    /// message malformed.
    pub fn from_trickle(message: TrickleNotification) -> (result: Result<
        SignalNotification,
        Error,
    >)
        ensures
            match decode_trickle(message@) {
                Some(n) => result is Ok && result->Ok_0@ == n,
                None => result == Err::<SignalNotification, Error>(Error::RpcError),
            },
    {
        match PeerRole::from_target(message.target) {
            Some(target) => Ok(
                SignalNotification::Trickle { target, candidate: message.candidate },
            ),
            None => Err(Error::RpcError),
        }
    }

    /// Reads a pushed description. Anything but an offer makes the message
    /// malformed.
    pub fn from_offer(message: WireDescription) -> (result: Result<SignalNotification, Error>)
        ensures
            match decode_offer(message@) {
                Some(n) => result is Ok && result->Ok_0@ == n,
                None => result == Err::<SignalNotification, Error>(Error::RpcError),
            },
    {
        match SessionDescription::from_wire(message) {
            Ok(offer) => match offer.kind {
                SdpKind::Offer => Ok(SignalNotification::Negotiate { offer }),
                SdpKind::Answer => Err(Error::RpcError),
            },
            Err(error) => Err(error),
        }
    }
}

/// The two words for a kind are different words.
pub proof fn law_kind_names_differ()
    ensures
        "offer"@ != "answer"@,
{
    reveal_strlit("offer");
    reveal_strlit("answer");
    assert("offer"@.len() == 5);
    assert("answer"@.len() == 6);
}

/// Round trip: a kind is read back from its word.
pub proof fn law_kind_round_trip(kind: SdpKind)
    ensures
        SdpKind::named(kind.wire_name()) == Some(kind),
{
    law_kind_names_differ();
}

/// Round trip: a description put into its wire form and read back is the
/// description it was, kind and SDP text, whatever the text.
pub proof fn law_description_round_trip(d: DescriptionView)
    ensures
        decode_description(encode_description(d)) == Some(d),
{
    law_kind_round_trip(d.kind);
}

/// Reading is the only way back: a wire form is read as `d` only if it is the
/// wire form of `d`.
pub proof fn law_description_decoding_is_exact(w: WireDescriptionView, d: DescriptionView)
    requires
        decode_description(w) == Some(d),
    ensures
        encode_description(d) == w,
{
}

/// Round trip: a role is read back from its integer, and the integers of the
/// two roles differ.
pub proof fn law_role_round_trip(role: PeerRole)
    ensures
        PeerRole::targeted(role.wire_target()) == Some(role),
        PeerRole::Publisher.wire_target() != PeerRole::Subscriber.wire_target(),
{
}

/// Round trip: a candidate put into its wire form for a role is read back as
/// a trickle of that candidate for that role.
pub proof fn law_trickle_round_trip(role: PeerRole, candidate: CandidateView)
    ensures
        decode_trickle(encode_trickle(role, candidate)) == Some(
            NotificationView::Trickle { target: role, candidate },
        ),
{
}

} // verus!
