use ion_gst_rs::wire::same_text;
use ion_gst_rs::{
    Error, PeerRole, SdpKind, SessionDescription, SignalNotification, TrickleCandidate,
    TrickleNotification, WireDescription,
};

fn description(kind: SdpKind, sdp: &str) -> SessionDescription {
    SessionDescription { kind, sdp: sdp.to_string() }
}

#[test]
fn kinds_are_spelled_offer_and_answer() {
    assert_eq!(SdpKind::Offer.name(), "offer");
    assert_eq!(SdpKind::Answer.name(), "answer");
    assert_eq!(SdpKind::from_name("offer"), Some(SdpKind::Offer));
    assert_eq!(SdpKind::from_name("answer"), Some(SdpKind::Answer));
    assert_eq!(SdpKind::from_name("Offer"), None);
    assert_eq!(SdpKind::from_name("offer "), None);
    assert_eq!(SdpKind::from_name(""), None);
    assert_eq!(SdpKind::from_name("pranswer"), None);
}

#[test]
fn roles_are_numbered_zero_and_one() {
    assert_eq!(PeerRole::Publisher.target(), 0);
    assert_eq!(PeerRole::Subscriber.target(), 1);
    assert_eq!(PeerRole::from_target(0), Some(PeerRole::Publisher));
    assert_eq!(PeerRole::from_target(1), Some(PeerRole::Subscriber));
    assert_eq!(PeerRole::from_target(2), None);
    assert_eq!(PeerRole::from_target(u32::MAX), None);
}

#[test]
fn descriptions_round_trip_through_their_wire_form() {
    let texts = [
        "",
        "v=0",
        "v=0\r\no=- 4215775240449105457 2 IN IP4 127.0.0.1\r\ns=-\r\nt=0 0\r\n",
        "a=ice-ufrag:\"quoted\" \\ back\\slash {braces} ~!@#$%^&*()",
        "offer",
        "h\u{e9}llo \u{4e16}\u{754c}",
    ];
    for kind in [SdpKind::Offer, SdpKind::Answer] {
        for text in texts {
            let wire = description(kind, text).to_wire();
            assert_eq!(wire.kind, kind.name());
            assert_eq!(wire.sdp, text);
            assert_eq!(SessionDescription::from_wire(wire), Ok(description(kind, text)));
        }
    }
}

#[test]
fn descriptions_round_trip_through_json_text() {
    let sdp = "v=0\r\no=- 1 2 IN IP4 127.0.0.1\r\na=mid:\"0\"\r\n";
    for kind in [SdpKind::Offer, SdpKind::Answer] {
        let wire = description(kind, sdp).to_wire();
        let mut object = serde_json::Map::new();
        object.insert("type".to_string(), serde_json::Value::String(wire.kind));
        object.insert("sdp".to_string(), serde_json::Value::String(wire.sdp));
        let text = serde_json::to_string(&serde_json::Value::Object(object)).unwrap();

        let read: serde_json::Value = serde_json::from_str(&text).unwrap();
        let back = WireDescription {
            kind: read["type"].as_str().unwrap().to_string(),
            sdp: read["sdp"].as_str().unwrap().to_string(),
        };
        assert_eq!(SessionDescription::from_wire(back), Ok(description(kind, sdp)));
    }
}

#[test]
fn unknown_kinds_are_malformed() {
    for kind in ["", "Offer", "ANSWER", "pranswer", "rollback", "offer\n"] {
        let wire = WireDescription { kind: kind.to_string(), sdp: "v=0".to_string() };
        assert_eq!(SessionDescription::from_wire(wire), Err(Error::RpcError));
    }
}

#[test]
fn trickles_round_trip_through_their_wire_form() {
    for role in [PeerRole::Publisher, PeerRole::Subscriber] {
        let candidate = || TrickleCandidate {
            candidate: "candidate:1 1 UDP 1 192.0.2.7 9 typ host".to_string(),
            sdp_mid: None,
            sdp_mline_index: 3,
        };
        let message = TrickleNotification::new(role, candidate());
        assert_eq!(message.target, role.target());
        assert_eq!(message.candidate, candidate());
        assert_eq!(
            SignalNotification::from_trickle(message),
            Ok(SignalNotification::Trickle { target: role, candidate: candidate() })
        );
    }
}

#[test]
fn pushed_descriptions_must_be_offers() {
    let offer = WireDescription { kind: "offer".to_string(), sdp: "v=0".to_string() };
    assert_eq!(
        SignalNotification::from_offer(offer),
        Ok(SignalNotification::Negotiate { offer: description(SdpKind::Offer, "v=0") })
    );
    let answer = WireDescription { kind: "answer".to_string(), sdp: "v=0".to_string() };
    assert_eq!(SignalNotification::from_offer(answer), Err(Error::RpcError));
}

#[test]
fn same_text_compares_contents() {
    assert!(same_text("offer", "offer"));
    assert!(same_text("", ""));
    assert!(!same_text("offer", "answer"));
    assert!(!same_text("offer", "offe"));
    assert!(!same_text("offer", "Offer"));
}

#[test]
fn copies_are_equal_to_their_originals() {
    let d = description(SdpKind::Answer, "v=0 copy");
    assert_eq!(d.clone(), d);
    let c = TrickleCandidate {
        candidate: "candidate:2".to_string(),
        sdp_mid: Some("audio".to_string()),
        sdp_mline_index: 1,
    };
    assert_eq!(c.clone(), c);
    let c = TrickleCandidate { candidate: String::new(), sdp_mid: None, sdp_mline_index: 0 };
    assert_eq!(c.clone(), c);
}
