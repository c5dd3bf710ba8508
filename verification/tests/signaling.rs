use ion_gst_rs::jsonrpc::{
    Failure, Handshake, JoinMsg, JoinResponse, JsonRPCSignaler, Link, NegotiateMsg, Push, Request,
};
use ion_gst_rs::{
    Error, PeerRole, SdpKind, SessionDescription, SignalNotification, TrickleCandidate,
    TrickleNotification, WireDescription,
};

fn offer(sdp: &str) -> SessionDescription {
    SessionDescription { kind: SdpKind::Offer, sdp: sdp.to_string() }
}

fn answer(sdp: &str) -> SessionDescription {
    SessionDescription { kind: SdpKind::Answer, sdp: sdp.to_string() }
}

fn wire(kind: &str, sdp: &str) -> WireDescription {
    WireDescription { kind: kind.to_string(), sdp: sdp.to_string() }
}

fn candidate() -> TrickleCandidate {
    TrickleCandidate {
        candidate: "candidate:1 1 UDP 2122252543 10.0.0.1 50000 typ host".to_string(),
        sdp_mid: Some("0".to_string()),
        sdp_mline_index: 0,
    }
}

fn open(url: &str) -> JsonRPCSignaler {
    let mut signaler = JsonRPCSignaler::new(url);
    signaler.open().unwrap();
    assert_eq!(signaler.connected(true), Ok(()));
    assert_eq!(signaler.link(), Link::Open);
    signaler
}

#[test]
fn open_says_where_to_connect() {
    let mut signaler = JsonRPCSignaler::new("ws://localhost:7000/session/test");
    assert_eq!(signaler.link(), Link::Closed);
    assert_eq!(
        signaler.open(),
        Ok(Handshake {
            url: "ws://localhost:7000/session/test".to_string(),
            path: "/session/test".to_string(),
            pushes: vec![Push::Offer, Push::Trickle],
        })
    );
    assert_eq!(signaler.link(), Link::Connecting);
    assert_eq!(signaler.connected(true), Ok(()));
    assert_eq!(signaler.link(), Link::Open);
}

#[test]
fn open_finds_the_path_without_query_and_fragment() {
    let mut signaler = JsonRPCSignaler::new("wss://sfu.example.org/ws?room=1#top");
    assert_eq!(signaler.open().unwrap().path, "/ws");
    let mut signaler = JsonRPCSignaler::new("ws://sfu.example.org");
    assert_eq!(signaler.open().unwrap().path, "/");
}

#[test]
fn open_fails_on_what_is_no_url() {
    for text in ["", "not a url", "/session/test", "//localhost:7000/session", "ws://"] {
        let mut signaler = JsonRPCSignaler::new(text);
        assert_eq!(signaler.open(), Err(Error::ConnectionError));
        assert_eq!(signaler.link(), Link::Closed);
        assert_eq!(signaler.ping(), Err(Error::NotConnected));
    }
}

#[test]
fn open_takes_any_absolute_url() {
    // A scheme and an opaque path make an absolute URL too.
    let mut signaler = JsonRPCSignaler::new("localhost:7000/session");
    assert_eq!(signaler.open().unwrap().path, "7000/session");
    assert_eq!(signaler.link(), Link::Connecting);
}

#[test]
fn open_at_goes_by_the_path_it_is_given() {
    let mut signaler = JsonRPCSignaler::new("ws://localhost:7000/a");
    assert_eq!(
        signaler.open_at(Some("/b".to_string())),
        Ok(Handshake {
            url: "ws://localhost:7000/a".to_string(),
            path: "/b".to_string(),
            pushes: vec![Push::Offer, Push::Trickle],
        })
    );
    assert_eq!(signaler.link(), Link::Connecting);
    assert_eq!(signaler.open_at(None), Err(Error::ConnectionError));
    assert_eq!(signaler.link(), Link::Closed);
}

#[test]
fn connected_without_open_changes_nothing() {
    let mut signaler = JsonRPCSignaler::new("ws://localhost:7000/session/test");
    assert_eq!(signaler.connected(true), Err(Error::NotConnected));
    assert_eq!(signaler.link(), Link::Closed);
    assert_eq!(signaler.connected(false), Err(Error::NotConnected));
    assert_eq!(signaler.link(), Link::Closed);

    let mut signaler = open("ws://localhost:7000/session/test");
    assert_eq!(signaler.connected(false), Err(Error::NotConnected));
    assert_eq!(signaler.link(), Link::Open);
}

#[test]
fn a_refused_connection_leaves_the_signaler_closed() {
    let mut signaler = JsonRPCSignaler::new("ws://localhost:7000/session/test");
    signaler.open().unwrap();
    assert_eq!(signaler.connected(false), Err(Error::ConnectionError));
    assert_eq!(signaler.link(), Link::Closed);
    assert_eq!(signaler.ping(), Err(Error::NotConnected));
}

#[test]
fn failed_requests_are_rpc_errors_unless_the_transport_is_lost() {
    let mut signaler = open("ws://localhost:7000/session/test");
    for failure in [Failure::TimedOut, Failure::Malformed, Failure::Rejected] {
        assert_eq!(signaler.failed(failure), Error::RpcError);
        assert_eq!(signaler.link(), Link::Open);
    }
    assert_eq!(signaler.failed(Failure::TransportLost), Error::ConnectionError);
    assert_eq!(signaler.link(), Link::Closed);
    assert_eq!(signaler.ping(), Err(Error::NotConnected));
}

#[test]
fn requests_before_open_are_refused() {
    let mut signaler = JsonRPCSignaler::new("ws://localhost:7000/session/test");
    assert_eq!(signaler.ping(), Err(Error::NotConnected));
    assert_eq!(signaler.join("room-1".to_string(), offer("v=0")), Err(Error::NotConnected));
    assert_eq!(signaler.offer(offer("v=0")), Err(Error::NotConnected));
    assert_eq!(signaler.answer(answer("v=0")), Err(Error::NotConnected));
    assert_eq!(signaler.trickle(PeerRole::Publisher, candidate()), Err(Error::NotConnected));
    // Not while the transport is being established either.
    signaler.open().unwrap();
    assert_eq!(signaler.ping(), Err(Error::NotConnected));
    assert_eq!(signaler.join("room-1".to_string(), offer("v=0")), Err(Error::NotConnected));
}

#[test]
fn requests_carry_the_protocol_vocabulary() {
    let signaler = open("ws://localhost:7000/session/test");

    let join = signaler.join("room-1".to_string(), offer("v=0 a")).unwrap();
    assert_eq!(
        join,
        Request::Join(JoinMsg { sid: "room-1".to_string(), offer: wire("offer", "v=0 a") })
    );
    assert_eq!(join.method(), "join");
    assert!(join.awaits_response());

    let renegotiate = signaler.offer(offer("v=0 b")).unwrap();
    assert_eq!(renegotiate, Request::Offer(NegotiateMsg { desc: wire("offer", "v=0 b") }));
    assert_eq!(renegotiate.method(), "offer");
    assert!(renegotiate.awaits_response());

    let reply = signaler.answer(answer("v=0 c")).unwrap();
    assert_eq!(reply, Request::Answer(NegotiateMsg { desc: wire("answer", "v=0 c") }));
    assert_eq!(reply.method(), "answer");
    assert!(!reply.awaits_response());

    let trickle = signaler.trickle(PeerRole::Subscriber, candidate()).unwrap();
    assert_eq!(
        trickle,
        Request::Trickle(TrickleNotification { target: 1, candidate: candidate() })
    );
    assert_eq!(trickle.method(), "trickle");
    assert!(!trickle.awaits_response());
    assert_eq!(
        signaler.trickle(PeerRole::Publisher, candidate()).unwrap(),
        Request::Trickle(TrickleNotification { target: 0, candidate: candidate() })
    );

    let ping = signaler.ping().unwrap();
    assert_eq!(ping, Request::Ping);
    assert_eq!(ping.method(), "ping");
    assert!(ping.awaits_response());
}

#[test]
fn replies_must_be_answers() {
    let signaler = open("ws://localhost:7000/session/test");
    assert_eq!(
        signaler.reply(wire("answer", "v=0 sfu")),
        Ok(JoinResponse { answer: answer("v=0 sfu") })
    );
    assert_eq!(signaler.reply(wire("offer", "v=0 sfu")), Err(Error::RpcError));
    assert_eq!(signaler.reply(wire("pranswer", "v=0 sfu")), Err(Error::RpcError));
    assert_eq!(signaler.reply(wire("", "")), Err(Error::RpcError));
    assert_eq!(signaler.reply(wire("Answer", "v=0 sfu")), Err(Error::RpcError));
}

#[test]
fn pushed_messages_become_notifications() {
    let signaler = open("ws://localhost:7000/session/test");
    assert_eq!(
        signaler.offer_pushed(wire("offer", "v=0 sfu")),
        Ok(SignalNotification::Negotiate { offer: offer("v=0 sfu") })
    );
    assert_eq!(signaler.offer_pushed(wire("answer", "v=0 sfu")), Err(Error::RpcError));
    assert_eq!(signaler.offer_pushed(wire("rollback", "")), Err(Error::RpcError));
    assert_eq!(
        signaler.trickle_pushed(TrickleNotification { target: 0, candidate: candidate() }),
        Ok(SignalNotification::Trickle { target: PeerRole::Publisher, candidate: candidate() })
    );
    assert_eq!(
        signaler.trickle_pushed(TrickleNotification { target: 1, candidate: candidate() }),
        Ok(SignalNotification::Trickle { target: PeerRole::Subscriber, candidate: candidate() })
    );
    assert_eq!(
        signaler.trickle_pushed(TrickleNotification { target: 2, candidate: candidate() }),
        Err(Error::RpcError)
    );
    assert_eq!(
        signaler.trickle_pushed(TrickleNotification { target: u32::MAX, candidate: candidate() }),
        Err(Error::RpcError)
    );
}

#[test]
fn close_is_idempotent_and_discards_late_messages() {
    let mut signaler = open("ws://localhost:7000/session/test");
    signaler.close();
    assert_eq!(signaler.link(), Link::Closed);
    signaler.close();
    assert_eq!(signaler.link(), Link::Closed);
    assert_eq!(signaler.ping(), Err(Error::NotConnected));
    assert_eq!(signaler.reply(wire("answer", "v=0 late")), Err(Error::NotConnected));
    assert_eq!(signaler.offer_pushed(wire("offer", "v=0 late")), Err(Error::NotConnected));
    assert_eq!(
        signaler.trickle_pushed(TrickleNotification { target: 0, candidate: candidate() }),
        Err(Error::NotConnected)
    );
    // It can be opened again.
    assert!(signaler.open().is_ok());
    assert_eq!(signaler.connected(true), Ok(()));
    assert_eq!(signaler.ping(), Ok(Request::Ping));
}

#[test]
fn push_channels_have_their_names() {
    assert_eq!(Push::Offer.method(), "offer");
    assert_eq!(Push::Trickle.method(), "trickle");
    assert_eq!(Push::Offer.channel(), "offer-received");
    assert_eq!(Push::Trickle.channel(), "candidate-trickled");
}
