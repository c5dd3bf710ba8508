//! The signaling client: the session's protocol, spoken as JSON-RPC requests.
//!
//! [`JsonRPCSignaler`] knows whether the transport is open, which request each
//! operation of the protocol makes, and how a reply or a pushed message is to
//! be read. It sends nothing itself: it hands out [`Request`]s for a transport
//! to carry and reads what the transport brings back.

use crate::types::{
    text_of, DescriptionView, Error, NotificationView, PeerRole, SdpKind, SessionDescription,
    SignalNotification, TrickleCandidate,
};
use crate::wire::{
    decode_description, decode_offer, decode_trickle, encode_description, encode_trickle,
    TrickleNotification, TrickleNotificationView, WireDescription, WireDescriptionView,
};
use vstd::prelude::*;

verus! {

/// The parameters of `join`: the session identifier and the publisher's offer.
#[derive(Debug, PartialEq, Eq)]
pub struct JoinMsg {
    pub sid: String,
    pub offer: WireDescription,
}

/// The mathematical value of a [`JoinMsg`].
pub struct JoinMsgView {
    pub sid: Seq<char>,
    pub offer: WireDescriptionView,
}

impl View for JoinMsg {
    type V = JoinMsgView;

    open spec fn view(&self) -> JoinMsgView {
        JoinMsgView { sid: self.sid@, offer: self.offer@ }
    }
}

/// The parameters of `offer` and of `answer`: a description.
#[derive(Debug, PartialEq, Eq)]
pub struct NegotiateMsg {
    pub desc: WireDescription,
}

/// The mathematical value of a [`NegotiateMsg`].
pub struct NegotiateMsgView {
    pub desc: WireDescriptionView,
}

impl View for NegotiateMsg {
    type V = NegotiateMsgView;

    open spec fn view(&self) -> NegotiateMsgView {
        NegotiateMsgView { desc: self.desc@ }
    }
}

/// The server's reply to `join` or `offer`, once it has been found to be an answer.
#[derive(Debug, PartialEq, Eq)]
pub struct JoinResponse {
    pub answer: SessionDescription,
}

/// The mathematical value of a [`JoinResponse`].
pub struct JoinResponseView {
    pub answer: DescriptionView,
}

impl View for JoinResponse {
    type V = JoinResponseView;

    open spec fn view(&self) -> JoinResponseView {
        JoinResponseView { answer: self.answer@ }
    }
}

/// One message from the client to the server.
#[derive(Debug, PartialEq, Eq)]
pub enum Request {
    /// Enter a session with the publisher's first offer; the server answers.
    Join(JoinMsg),
    /// Renegotiate the publisher; the server answers.
    Offer(NegotiateMsg),
    /// Answer the server's offer for the subscriber; nothing comes back.
    Answer(NegotiateMsg),
    /// Hand over a local candidate; nothing comes back.
    Trickle(TrickleNotification),
    /// Ask whether the server is there; it acknowledges.
    Ping,
}

/// The mathematical value of a [`Request`].
pub enum RequestView {
    Join(JoinMsgView),
    Offer(NegotiateMsgView),
    Answer(NegotiateMsgView),
    Trickle(TrickleNotificationView),
    Ping,
}

impl View for Request {
    type V = RequestView;

    open spec fn view(&self) -> RequestView {
        match self {
            Request::Join(m) => RequestView::Join(m@),
            Request::Offer(m) => RequestView::Offer(m@),
            Request::Answer(m) => RequestView::Answer(m@),
            Request::Trickle(m) => RequestView::Trickle(m@),
            Request::Ping => RequestView::Ping,
        }
    }
}

impl RequestView {
    /// The JSON-RPC method of this message.
    pub open spec fn method(self) -> Seq<char> {
        match self {
            RequestView::Join(_) => "join"@,
            RequestView::Offer(_) => "offer"@,
            RequestView::Answer(_) => "answer"@,
            RequestView::Trickle(_) => "trickle"@,
            RequestView::Ping => "ping"@,
        }
    }

    /// Whether the server replies to this message: to `join`, `offer` and
    /// `ping` it does; `answer` and `trickle` are sent and forgotten.
    pub open spec fn awaits_response(self) -> bool {
        self is Join || self is Offer || self is Ping
    }
}

impl Request {
    /// The JSON-RPC method of this message.
    pub fn method(&self) -> (name: &'static str)
        ensures
            name@ == self@.method(),
    {
        match self {
            Request::Join(_) => "join",
            Request::Offer(_) => "offer",
            Request::Answer(_) => "answer",
            Request::Trickle(_) => "trickle",
            Request::Ping => "ping",
        }
    }

    /// Whether the server replies to this message.
    pub fn awaits_response(&self) -> (awaited: bool)
        ensures
            awaited == self@.awaits_response(),
    {
        match self {
            Request::Join(_) => true,
            Request::Offer(_) => true,
            Request::Ping => true,
            Request::Answer(_) => false,
            Request::Trickle(_) => false,
        }
    }
}

/// The two kinds of message that the server pushes.
#[derive(Clone, Copy, Debug, PartialEq, Eq, Structural)]
pub enum Push {
    /// An offer for the subscriber.
    Offer,
    /// A remote candidate.
    Trickle,
}

impl Push {
    /// The JSON-RPC method under which the server pushes this kind.
    pub open spec fn wire_method(self) -> Seq<char> {
        match self {
            Push::Offer => "offer"@,
            Push::Trickle => "trickle"@,
        }
    }

    /// The name of the channel on which this kind is delivered to the session.
    pub open spec fn channel_name(self) -> Seq<char> {
        match self {
            Push::Offer => "offer-received"@,
            Push::Trickle => "candidate-trickled"@,
        }
    }

    /// The JSON-RPC method under which the server pushes this kind.
    pub fn method(self) -> (name: &'static str)
        ensures
            name@ == self.wire_method(),
    {
        match self {
            Push::Offer => "offer",
            Push::Trickle => "trickle",
        }
    }

    /// The name of the channel on which this kind is delivered to the session.
    pub fn channel(self) -> (name: &'static str)
        ensures
            name@ == self.channel_name(),
    {
        match self {
            Push::Offer => "offer-received",
            Push::Trickle => "candidate-trickled",
        }
    }
}

/// The path component of a URL, or `None` for a text that is no absolute URL.
///
/// This is what `url::Url::parse` followed by `url::Url::path` gives; the
/// crate `url` computes it and nothing here says what it is.
pub uninterp spec fn url_path(url: Seq<char>) -> Option<Seq<char>>;

/// Calls `url::Url::parse` on the text and, if that succeeds, `url::Url::path`
/// on the result. Trusted: the result is the path that the crate `url` finds in
/// the text, and there is none exactly if the crate rejects the text.
#[verifier::external_body]
fn parse_path(url: &str) -> (path: Option<String>)
    ensures
        text_of(path) == url_path(url@),
{
    match url::Url::parse(url) {
        Ok(parsed) => Some(parsed.path().to_owned()),
        Err(_) => None,
    }
}

/// The state of the signaling transport.
#[derive(Clone, Copy, Debug, PartialEq, Eq, Structural)]
pub enum Link {
    /// No transport: never opened, closed, or failed to open.
    Closed,
    /// The transport is being established.
    Connecting,
    /// The transport is open: requests can be made.
    Open,
}

/// Where to connect, with what handshake, and what to listen for.
#[derive(Debug, PartialEq, Eq)]
pub struct Handshake {
    /// The URL of the server.
    pub url: String,
    /// The path of that URL, which the handshake asks for.
    pub path: String,
    /// The kinds of pushed message to subscribe to, once connected.
    pub pushes: Vec<Push>,
}

/// The mathematical value of a [`Handshake`].
pub struct HandshakeView {
    pub url: Seq<char>,
    pub path: Seq<char>,
    pub pushes: Seq<Push>,
}

impl View for Handshake {
    type V = HandshakeView;

    open spec fn view(&self) -> HandshakeView {
        HandshakeView { url: self.url@, path: self.path@, pushes: self.pushes@ }
    }
}

/// Why a request got no usable reply.
#[derive(Clone, Copy, Debug, PartialEq, Eq, Structural)]
pub enum Failure {
    /// No reply came in time.
    TimedOut,
    /// The reply could not be read.
    Malformed,
    /// The server refused the request.
    Rejected,
    /// The transport went away.
    TransportLost,
}

/// The signaling client of one session.
pub struct JsonRPCSignaler {
    url: String,
    link: Link,
}

/// The mathematical value of a [`JsonRPCSignaler`].
pub struct SignalerView {
    pub url: Seq<char>,
    pub link: Link,
}

impl View for JsonRPCSignaler {
    type V = SignalerView;

    closed spec fn view(&self) -> SignalerView {
        SignalerView { url: self.url@, link: self.link }
    }
}

/// What `open` does, given the path that was found in the URL.
pub open spec fn opening(s: SignalerView, path: Option<Seq<char>>) -> (SignalerView, Result<
    HandshakeView,
    Error,
>) {
    match path {
        Some(path) => (
            SignalerView { link: Link::Connecting, ..s },
            Ok(HandshakeView { url: s.url, path, pushes: seq![Push::Offer, Push::Trickle] }),
        ),
        None => (SignalerView { link: Link::Closed, ..s }, Err(Error::ConnectionError)),
    }
}

/// What the end of an attempt to connect does to a signaler.
pub open spec fn connecting(s: SignalerView, established: bool) -> (SignalerView, Result<(), Error>) {
    if !(s.link is Connecting) {
        (s, Err(Error::NotConnected))
    } else if established {
        (SignalerView { link: Link::Open, ..s }, Ok(()))
    } else {
        (SignalerView { link: Link::Closed, ..s }, Err(Error::ConnectionError))
    }
}

/// What a request without a usable reply does to a signaler, and the error it
/// is: a lost transport is a connection error and closes the signaler; a
/// timeout, an unreadable reply and a refusal are RPC errors.
pub open spec fn failing(s: SignalerView, failure: Failure) -> (SignalerView, Error) {
    if failure is TransportLost {
        (SignalerView { link: Link::Closed, ..s }, Error::ConnectionError)
    } else {
        (s, Error::RpcError)
    }
}

/// The value of the result of `open`.
pub open spec fn handshake_view(result: Result<Handshake, Error>) -> Result<HandshakeView, Error> {
    match result {
        Ok(h) => Ok(h@),
        Err(e) => Err(e),
    }
}

/// The value of a request that was made or refused.
pub open spec fn request_view(result: Result<Request, Error>) -> Result<RequestView, Error> {
    match result {
        Ok(r) => Ok(r@),
        Err(e) => Err(e),
    }
}

/// What a signaler makes of an operation: the request, if the transport is open.
pub open spec fn requested(s: SignalerView, request: RequestView) -> Result<RequestView, Error> {
    if s.link is Open {
        Ok(request)
    } else {
        Err(Error::NotConnected)
    }
}

/// How a reply to `join` or `offer` is read: as the answer it carries, if the
/// transport is open and the reply is an answer.
pub open spec fn reply_read(s: SignalerView, reply: WireDescriptionView) -> Result<
    JoinResponseView,
    Error,
> {
    if !(s.link is Open) {
        Err(Error::NotConnected)
    } else {
        match decode_description(reply) {
            Some(answer) => if answer.kind is Answer {
                Ok(JoinResponseView { answer })
            } else {
                Err(Error::RpcError)
            },
            None => Err(Error::RpcError),
        }
    }
}

/// How a pushed message is read: as what it decodes to, if the transport is open.
pub open spec fn push_read(s: SignalerView, decoded: Option<NotificationView>) -> Result<
    NotificationView,
    Error,
> {
    if !(s.link is Open) {
        Err(Error::NotConnected)
    } else {
        match decoded {
            Some(notification) => Ok(notification),
            None => Err(Error::RpcError),
        }
    }
}

/// The value of a reply that was read or refused.
pub open spec fn response_view(result: Result<JoinResponse, Error>) -> Result<
    JoinResponseView,
    Error,
> {
    match result {
        Ok(r) => Ok(r@),
        Err(e) => Err(e),
    }
}

/// The value of a pushed message that was read or refused.
pub open spec fn notification_view(result: Result<SignalNotification, Error>) -> Result<
    NotificationView,
    Error,
> {
    match result {
        Ok(n) => Ok(n@),
        Err(e) => Err(e),
    }
}

impl JsonRPCSignaler {
    /// A signaler for the server at `url`, with no transport yet.
    pub fn new(url: &str) -> (signaler: JsonRPCSignaler)
        ensures
            signaler@ == (SignalerView { url: url@, link: Link::Closed }),
    {
        JsonRPCSignaler { url: url.to_owned(), link: Link::Closed }
    }

    /// The state of the transport.
    pub fn link(&self) -> (link: Link)
        ensures
            link == self@.link,
    {
        self.link
    }

    /// Begins to open the transport: says where to connect. If the URL is no
    /// absolute URL there is nowhere to connect, and the transport stays closed.
    pub fn open(&mut self) -> (result: Result<Handshake, Error>)
        ensures
            final(self)@ == opening(old(self)@, url_path(old(self)@.url)).0,
            handshake_view(result) == opening(old(self)@, url_path(old(self)@.url)).1,
    {
        let path = parse_path(self.url.as_str());
        self.open_at(path)
    }

    /// Begins to open the transport, given the path that was found in the URL,
    /// or that none was found.
    pub fn open_at(&mut self, path: Option<String>) -> (result: Result<Handshake, Error>)
        ensures
            final(self)@ == opening(old(self)@, text_of(path)).0,
            handshake_view(result) == opening(old(self)@, text_of(path)).1,
    {
        match path {
            Some(path) => {
                self.link = Link::Connecting;
                let mut pushes: Vec<Push> = Vec::new();
                pushes.push(Push::Offer);
                pushes.push(Push::Trickle);
                assert(pushes@ =~= seq![Push::Offer, Push::Trickle]);
                Ok(Handshake { url: self.url.clone(), path, pushes })
            },
            None => {
                self.link = Link::Closed;
                Err(Error::ConnectionError)
            },
        }
    }

    /// Takes note of how the attempt to establish the transport ended. If it
    /// failed the transport is closed; if none was under way nothing changes.
    pub fn connected(&mut self, established: bool) -> (result: Result<(), Error>)
        ensures
            final(self)@ == connecting(old(self)@, established).0,
            result == connecting(old(self)@, established).1,
    {
        match self.link {
            Link::Connecting => {
                if established {
                    self.link = Link::Open;
                    Ok(())
                } else {
                    self.link = Link::Closed;
                    Err(Error::ConnectionError)
                }
            },
            _ => Err(Error::NotConnected),
        }
    }

    /// Takes note that a request got no usable reply, and says what error that
    /// is. A lost transport is closed.
    pub fn failed(&mut self, failure: Failure) -> (error: Error)
        ensures
            final(self)@ == failing(old(self)@, failure).0,
            error == failing(old(self)@, failure).1,
    {
        match failure {
            Failure::TransportLost => {
                self.link = Link::Closed;
                Error::ConnectionError
            },
            _ => Error::RpcError,
        }
    }

    /// Gives up the transport. Closing a closed signaler changes nothing.
    pub fn close(&mut self)
        ensures
            final(self)@ == (SignalerView { link: Link::Closed, ..old(self)@ }),
    {
        self.link = Link::Closed;
    }

    /// Whether the transport is open.
    fn is_open(&self) -> (open: bool)
        ensures
            open == self@.link is Open,
    {
        match self.link {
            Link::Open => true,
            _ => false,
        }
    }

    /// The liveness probe.
    pub fn ping(&self) -> (result: Result<Request, Error>)
        ensures
            request_view(result) == requested(self@, RequestView::Ping),
    {
        if self.is_open() {
            Ok(Request::Ping)
        } else {
            Err(Error::NotConnected)
        }
    }

    /// The request to enter the session `sid` with the publisher's offer.
    pub fn join(&self, sid: String, offer: SessionDescription) -> (result: Result<Request, Error>)
        ensures
            request_view(result) == requested(
                self@,
                RequestView::Join(JoinMsgView { sid: sid@, offer: encode_description(offer@) }),
            ),
    {
        if self.is_open() {
            Ok(Request::Join(JoinMsg { sid, offer: offer.to_wire() }))
        } else {
            Err(Error::NotConnected)
        }
    }

    /// The request to renegotiate the publisher with a new offer.
    pub fn offer(&self, offer: SessionDescription) -> (result: Result<Request, Error>)
        ensures
            request_view(result) == requested(
                self@,
                RequestView::Offer(NegotiateMsgView { desc: encode_description(offer@) }),
            ),
    {
        if self.is_open() {
            Ok(Request::Offer(NegotiateMsg { desc: offer.to_wire() }))
        } else {
            Err(Error::NotConnected)
        }
    }

    /// The message that answers the server's offer for the subscriber.
    pub fn answer(&self, answer: SessionDescription) -> (result: Result<Request, Error>)
        ensures
            request_view(result) == requested(
                self@,
                RequestView::Answer(NegotiateMsgView { desc: encode_description(answer@) }),
            ),
    {
        if self.is_open() {
            Ok(Request::Answer(NegotiateMsg { desc: answer.to_wire() }))
        } else {
            Err(Error::NotConnected)
        }
    }

    /// The message that hands the server a local candidate of `target`.
    pub fn trickle(&self, target: PeerRole, candidate: TrickleCandidate) -> (result: Result<
        Request,
        Error,
    >)
        ensures
            request_view(result) == requested(
                self@,
                RequestView::Trickle(encode_trickle(target, candidate@)),
            ),
    {
        if self.is_open() {
            Ok(Request::Trickle(TrickleNotification::new(target, candidate)))
        } else {
            Err(Error::NotConnected)
        }
    }

    /// Reads the server's reply to `join` or `offer`. A reply that comes when
    /// the transport is no longer open is discarded; one that is no answer is
    /// malformed.
    pub fn reply(&self, reply: WireDescription) -> (result: Result<JoinResponse, Error>)
        ensures
            response_view(result) == reply_read(self@, reply@),
    {
        if !self.is_open() {
            return Err(Error::NotConnected);
        }
        match SessionDescription::from_wire(reply) {
            Ok(answer) => match answer.kind {
                SdpKind::Answer => Ok(JoinResponse { answer }),
                SdpKind::Offer => Err(Error::RpcError),
            },
            Err(error) => Err(error),
        }
    }

    /// Reads a description that the server pushed under the method `offer`.
    pub fn offer_pushed(&self, message: WireDescription) -> (result: Result<
        SignalNotification,
        Error,
    >)
        ensures
            notification_view(result) == push_read(self@, decode_offer(message@)),
    {
        if !self.is_open() {
            return Err(Error::NotConnected);
        }
        SignalNotification::from_offer(message)
    }

    /// Reads a candidate that the server pushed under the method `trickle`.
    pub fn trickle_pushed(&self, message: TrickleNotification) -> (result: Result<
        SignalNotification,
        Error,
    >)
        ensures
            notification_view(result) == push_read(self@, decode_trickle(message@)),
    {
        if !self.is_open() {
            return Err(Error::NotConnected);
        }
        SignalNotification::from_trickle(message)
    }
}

} // verus!
