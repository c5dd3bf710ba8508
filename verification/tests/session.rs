use ion_gst_rs::{
    Action, Client, Error, Event, NegotiationState, PeerRole, Phase, SdpKind, SessionDescription,
    SignalNotification, TrickleCandidate,
};

fn offer(sdp: &str) -> SessionDescription {
    SessionDescription { kind: SdpKind::Offer, sdp: sdp.to_string() }
}

fn answer(sdp: &str) -> SessionDescription {
    SessionDescription { kind: SdpKind::Answer, sdp: sdp.to_string() }
}

fn candidate(text: &str, index: u32) -> TrickleCandidate {
    TrickleCandidate { candidate: text.to_string(), sdp_mid: None, sdp_mline_index: index }
}

fn negotiate(sdp: &str) -> Event {
    Event::Notification(SignalNotification::Negotiate { offer: offer(sdp) })
}

fn trickle(target: PeerRole, text: &str, index: u32) -> Event {
    Event::Notification(SignalNotification::Trickle { target, candidate: candidate(text, index) })
}

/// A session that has joined "room-1" without incident.
fn joined() -> Client {
    let mut client = Client::new();
    client.join("room-1".to_string()).unwrap();
    client.handle(Event::Connected);
    client.handle(Event::OfferCreated(offer("v=0 pub")));
    client.handle(Event::LocalDescriptionApplied(PeerRole::Publisher));
    client.handle(Event::AnswerReceived(answer("v=0 sfu")));
    client.handle(Event::RemoteDescriptionApplied(PeerRole::Publisher));
    assert_eq!(client.phase(), Phase::Joined);
    client
}

/// An engine and a server that grant whatever they are asked, at once.
struct Obliging {
    local_descriptions: Vec<(PeerRole, SessionDescription)>,
    remote_descriptions: Vec<(PeerRole, SessionDescription)>,
    candidates: Vec<(PeerRole, TrickleCandidate)>,
    requests: Vec<Action>,
    watched: Vec<PeerRole>,
    reports: Vec<Error>,
    join_result: Option<Result<(), Error>>,
    publisher_states: Vec<NegotiationState>,
    offer_request_fails: bool,
}

impl Obliging {
    fn new() -> Obliging {
        Obliging {
            local_descriptions: Vec::new(),
            remote_descriptions: Vec::new(),
            candidates: Vec::new(),
            requests: Vec::new(),
            watched: Vec::new(),
            reports: Vec::new(),
            join_result: None,
            publisher_states: vec![NegotiationState::Idle],
            offer_request_fails: false,
        }
    }

    /// Carries out one action and says what came of it.
    fn perform(&mut self, action: Action) -> Option<Event> {
        match action {
            Action::OpenSignal => Some(Event::Connected),
            Action::CloseSignal => None,
            Action::CreateOffer(_) => Some(Event::OfferCreated(offer("v=0..."))),
            Action::CreateAnswer(_) => Some(Event::AnswerCreated(answer("v=0..."))),
            Action::SetLocalDescription(role, description) => {
                self.local_descriptions.push((role, description));
                Some(Event::LocalDescriptionApplied(role))
            }
            Action::SetRemoteDescription(role, description) => {
                self.remote_descriptions.push((role, description));
                Some(Event::RemoteDescriptionApplied(role))
            }
            Action::AddIceCandidate(role, candidate) => {
                self.candidates.push((role, candidate));
                None
            }
            Action::SendJoin { sid, offer } => {
                self.requests.push(Action::SendJoin { sid, offer });
                Some(Event::AnswerReceived(answer("v=0...")))
            }
            Action::SendOffer(offer) => {
                self.requests.push(Action::SendOffer(offer));
                if self.offer_request_fails {
                    Some(Event::RequestFailed(Error::RpcError))
                } else {
                    Some(Event::AnswerReceived(answer("v=0...")))
                }
            }
            Action::SendAnswer(answer) => {
                self.requests.push(Action::SendAnswer(answer));
                Some(Event::AnswerDelivered)
            }
            Action::SendTrickle(role, candidate) => {
                self.requests.push(Action::SendTrickle(role, candidate));
                None
            }
            Action::SendPing => None,
            Action::WatchEngine(role) => {
                self.watched.push(role);
                None
            }
            Action::JoinSucceeded => {
                self.join_result = Some(Ok(()));
                None
            }
            Action::JoinFailed(error) => {
                self.join_result = Some(Err(error));
                None
            }
            Action::Report(error) => {
                self.reports.push(error);
                None
            }
        }
    }

    /// Carries out actions, and those that follow from their results, until
    /// nothing is left to do.
    fn drive(&mut self, client: &mut Client, actions: Vec<Action>) {
        let mut queue: std::collections::VecDeque<Action> = actions.into();
        while let Some(action) = queue.pop_front() {
            if let Some(event) = self.perform(action) {
                let more = client.handle(event);
                let state = client.state(PeerRole::Publisher);
                if self.publisher_states.last() != Some(&state) {
                    self.publisher_states.push(state);
                }
                queue.extend(more);
            }
        }
    }
}

#[test]
fn join_walks_the_publisher_to_stable() {
    let mut client = Client::new();
    assert_eq!(client.state(PeerRole::Publisher), NegotiationState::Idle);

    let actions = client.join("room-1".to_string()).unwrap();
    assert_eq!(actions, vec![Action::OpenSignal]);
    assert_eq!(client.state(PeerRole::Publisher), NegotiationState::Idle);

    let actions = client.handle(Event::Connected);
    assert_eq!(actions, vec![Action::CreateOffer(PeerRole::Publisher)]);
    assert_eq!(client.state(PeerRole::Publisher), NegotiationState::OfferPending);

    let actions = client.handle(Event::OfferCreated(offer("v=0...")));
    assert_eq!(actions, vec![Action::SetLocalDescription(PeerRole::Publisher, offer("v=0..."))]);
    assert_eq!(client.state(PeerRole::Publisher), NegotiationState::OfferPending);

    let actions = client.handle(Event::LocalDescriptionApplied(PeerRole::Publisher));
    assert_eq!(
        actions,
        vec![Action::SendJoin { sid: "room-1".to_string(), offer: offer("v=0...") }]
    );
    assert_eq!(client.state(PeerRole::Publisher), NegotiationState::LocalDescriptionSet);

    let actions = client.handle(Event::AnswerReceived(answer("v=0...")));
    assert_eq!(actions, vec![Action::SetRemoteDescription(PeerRole::Publisher, answer("v=0..."))]);
    assert_eq!(client.state(PeerRole::Publisher), NegotiationState::AwaitingRemoteAnswer);

    let actions = client.handle(Event::RemoteDescriptionApplied(PeerRole::Publisher));
    assert_eq!(actions, vec![Action::WatchEngine(PeerRole::Publisher), Action::JoinSucceeded]);
    assert_eq!(client.state(PeerRole::Publisher), NegotiationState::Stable);
    assert_eq!(client.phase(), Phase::Joined);
    assert!(client.has_remote_description(PeerRole::Publisher));
}

#[test]
fn join_with_an_obliging_engine_and_server() {
    let mut client = Client::new();
    let mut world = Obliging::new();
    let first = client.join("room-1".to_string()).unwrap();
    world.drive(&mut client, first);

    assert_eq!(world.join_result, Some(Ok(())));
    assert_eq!(
        world.publisher_states,
        vec![
            NegotiationState::Idle,
            NegotiationState::OfferPending,
            NegotiationState::LocalDescriptionSet,
            NegotiationState::AwaitingRemoteAnswer,
            NegotiationState::Stable,
        ]
    );
    assert_eq!(world.local_descriptions, vec![(PeerRole::Publisher, offer("v=0..."))]);
    assert_eq!(world.remote_descriptions, vec![(PeerRole::Publisher, answer("v=0..."))]);
    assert_eq!(
        world.requests,
        vec![Action::SendJoin { sid: "room-1".to_string(), offer: offer("v=0...") }]
    );
    assert_eq!(world.watched, vec![PeerRole::Publisher]);
    assert!(world.reports.is_empty());
    assert_eq!(client.state(PeerRole::Subscriber), NegotiationState::Idle);
}

#[test]
fn early_trickle_waits_for_the_remote_description() {
    let mut client = joined();
    let early = candidate("candidate:1 1 UDP 2122252543 10.0.0.1 50000 typ host", 0);

    let actions = client.handle(trickle(PeerRole::Subscriber, &early.candidate, 0));
    assert_eq!(actions, vec![]);
    assert_eq!(client.pending_candidates(PeerRole::Subscriber), 1);
    assert!(!client.has_remote_description(PeerRole::Subscriber));

    let actions = client.handle(negotiate("v=0 sfu offer"));
    assert_eq!(
        actions,
        vec![Action::SetRemoteDescription(PeerRole::Subscriber, offer("v=0 sfu offer"))]
    );
    assert_eq!(client.pending_candidates(PeerRole::Subscriber), 1);

    let actions = client.handle(Event::RemoteDescriptionApplied(PeerRole::Subscriber));
    assert_eq!(
        actions,
        vec![
            Action::AddIceCandidate(PeerRole::Subscriber, early),
            Action::CreateAnswer(PeerRole::Subscriber),
        ]
    );
    assert_eq!(client.pending_candidates(PeerRole::Subscriber), 0);
    assert!(client.has_remote_description(PeerRole::Subscriber));
}

#[test]
fn second_offer_mid_exchange_is_dropped() {
    let mut client = joined();
    let mut answers = 0;
    let mut violations = 0;
    let mut count = |actions: &Vec<Action>| {
        for action in actions {
            match action {
                Action::SendAnswer(_) => answers += 1,
                Action::Report(Error::ProtocolViolation) => violations += 1,
                _ => {}
            }
        }
    };

    let actions = client.handle(negotiate("v=0 first"));
    count(&actions);
    let actions = client.handle(Event::RemoteDescriptionApplied(PeerRole::Subscriber));
    assert_eq!(actions, vec![Action::CreateAnswer(PeerRole::Subscriber)]);
    count(&actions);

    // The second offer arrives before the engine has resolved the first answer.
    let actions = client.handle(negotiate("v=0 second"));
    assert_eq!(actions, vec![Action::Report(Error::ProtocolViolation)]);
    assert_eq!(client.state(PeerRole::Subscriber), NegotiationState::AnswerPending);
    count(&actions);

    let actions = client.handle(Event::AnswerCreated(answer("v=0 sub")));
    assert_eq!(actions, vec![Action::SetLocalDescription(PeerRole::Subscriber, answer("v=0 sub"))]);
    count(&actions);
    let actions = client.handle(Event::LocalDescriptionApplied(PeerRole::Subscriber));
    assert_eq!(actions, vec![Action::SendAnswer(answer("v=0 sub"))]);
    assert_eq!(client.state(PeerRole::Subscriber), NegotiationState::LocalDescriptionSet);
    count(&actions);
    let actions = client.handle(Event::AnswerDelivered);
    count(&actions);

    assert_eq!(client.state(PeerRole::Subscriber), NegotiationState::Stable);
    assert_eq!(answers, 1);
    assert_eq!(violations, 1);
}

#[test]
fn back_to_back_offers_before_the_engine_took_the_first() {
    let mut client = joined();
    let first = client.handle(negotiate("v=0 first"));
    assert_eq!(
        first,
        vec![Action::SetRemoteDescription(PeerRole::Subscriber, offer("v=0 first"))]
    );
    let second = client.handle(negotiate("v=0 second"));
    assert_eq!(second, vec![Action::Report(Error::ProtocolViolation)]);
    assert_eq!(client.state(PeerRole::Subscriber), NegotiationState::RemoteOfferReceived);
}

#[test]
fn failed_offer_request_leaves_the_publisher_stable() {
    let mut client = joined();

    let actions = client.handle(Event::NegotiationNeeded);
    assert_eq!(actions, vec![Action::CreateOffer(PeerRole::Publisher)]);
    client.handle(Event::OfferCreated(offer("v=0 again")));
    let actions = client.handle(Event::LocalDescriptionApplied(PeerRole::Publisher));
    assert_eq!(actions, vec![Action::SendOffer(offer("v=0 again"))]);

    let actions = client.handle(Event::RequestFailed(Error::RpcError));
    assert_eq!(actions, vec![Action::Report(Error::RpcError)]);
    assert_eq!(client.state(PeerRole::Publisher), NegotiationState::Stable);
    assert_eq!(client.phase(), Phase::Joined);

    // The session goes on serving trickle and negotiate events.
    let actions = client.handle(trickle(PeerRole::Publisher, "candidate:7", 0));
    assert_eq!(actions, vec![Action::AddIceCandidate(PeerRole::Publisher, candidate("candidate:7", 0))]);
    let actions = client.handle(negotiate("v=0 sfu"));
    assert_eq!(actions, vec![Action::SetRemoteDescription(PeerRole::Subscriber, offer("v=0 sfu"))]);

    // And the publisher can negotiate again.
    let actions = client.handle(Event::NegotiationNeeded);
    assert_eq!(actions, vec![Action::CreateOffer(PeerRole::Publisher)]);
}

#[test]
fn renegotiation_with_an_obliging_engine_and_a_failing_server() {
    let mut client = Client::new();
    let mut world = Obliging::new();
    let first = client.join("room-1".to_string()).unwrap();
    world.drive(&mut client, first);
    assert_eq!(world.join_result, Some(Ok(())));

    world.offer_request_fails = true;
    let actions = client.handle(Event::NegotiationNeeded);
    world.drive(&mut client, actions);

    assert_eq!(world.reports, vec![Error::RpcError]);
    assert_eq!(client.state(PeerRole::Publisher), NegotiationState::Stable);
    assert_eq!(world.local_descriptions.len(), 2);
    assert_eq!(world.remote_descriptions.len(), 1);
    assert_eq!(world.join_result, Some(Ok(())));
}

#[test]
fn renegotiation_repeats_the_exchange_with_an_offer_request() {
    let mut client = joined();
    assert_eq!(
        client.handle(Event::NegotiationNeeded),
        vec![Action::CreateOffer(PeerRole::Publisher)]
    );
    assert_eq!(client.state(PeerRole::Publisher), NegotiationState::OfferPending);
    assert_eq!(
        client.handle(Event::OfferCreated(offer("v=0 more"))),
        vec![Action::SetLocalDescription(PeerRole::Publisher, offer("v=0 more"))]
    );
    assert_eq!(
        client.handle(Event::LocalDescriptionApplied(PeerRole::Publisher)),
        vec![Action::SendOffer(offer("v=0 more"))]
    );
    assert_eq!(
        client.handle(Event::AnswerReceived(answer("v=0 ok"))),
        vec![Action::SetRemoteDescription(PeerRole::Publisher, answer("v=0 ok"))]
    );
    assert_eq!(client.handle(Event::RemoteDescriptionApplied(PeerRole::Publisher)), vec![]);
    assert_eq!(client.state(PeerRole::Publisher), NegotiationState::Stable);
    assert_eq!(client.phase(), Phase::Joined);
}

#[test]
fn negotiation_needed_mid_exchange_is_ignored() {
    let mut client = joined();
    client.handle(Event::NegotiationNeeded);
    assert_eq!(client.handle(Event::NegotiationNeeded), vec![]);
    assert_eq!(client.state(PeerRole::Publisher), NegotiationState::OfferPending);
    client.handle(Event::OfferCreated(offer("v=0 one")));
    assert_eq!(client.handle(Event::NegotiationNeeded), vec![]);
    client.handle(Event::LocalDescriptionApplied(PeerRole::Publisher));
    assert_eq!(client.handle(Event::NegotiationNeeded), vec![]);
    assert_eq!(client.state(PeerRole::Publisher), NegotiationState::LocalDescriptionSet);
    client.handle(Event::AnswerReceived(answer("v=0 ok")));
    assert_eq!(client.handle(Event::NegotiationNeeded), vec![]);
    assert_eq!(client.state(PeerRole::Publisher), NegotiationState::AwaitingRemoteAnswer);
}

#[test]
fn negotiation_needed_before_join_is_ignored() {
    let mut client = Client::new();
    assert_eq!(client.handle(Event::NegotiationNeeded), vec![]);
    assert_eq!(client.state(PeerRole::Publisher), NegotiationState::Idle);
    assert_eq!(client.phase(), Phase::Fresh);
}

#[test]
fn subscriber_exchange_ends_stable() {
    let mut client = joined();
    client.handle(negotiate("v=0 sfu"));
    assert_eq!(client.state(PeerRole::Subscriber), NegotiationState::RemoteOfferReceived);
    client.handle(Event::RemoteDescriptionApplied(PeerRole::Subscriber));
    assert_eq!(client.state(PeerRole::Subscriber), NegotiationState::AnswerPending);
    client.handle(Event::AnswerCreated(answer("v=0 sub")));
    assert_eq!(client.state(PeerRole::Subscriber), NegotiationState::AnswerPending);
    client.handle(Event::LocalDescriptionApplied(PeerRole::Subscriber));
    assert_eq!(client.state(PeerRole::Subscriber), NegotiationState::LocalDescriptionSet);
    assert_eq!(client.handle(Event::AnswerDelivered), vec![]);
    assert_eq!(client.state(PeerRole::Subscriber), NegotiationState::Stable);
    // A further offer of the server starts the exchange again.
    assert_eq!(
        client.handle(negotiate("v=0 sfu 2")),
        vec![Action::SetRemoteDescription(PeerRole::Subscriber, offer("v=0 sfu 2"))]
    );
}

#[test]
fn subscriber_exchange_is_untouched_by_publisher_failures() {
    let mut client = joined();
    client.handle(negotiate("v=0 sfu"));
    client.handle(Event::NegotiationNeeded);
    client.handle(Event::RemoteDescriptionApplied(PeerRole::Subscriber));
    assert_eq!(client.handle(Event::OfferFailed), vec![Action::Report(Error::NegotiationError)]);
    assert_eq!(client.state(PeerRole::Publisher), NegotiationState::Stable);
    client.handle(Event::AnswerCreated(answer("v=0 sub")));
    client.handle(Event::LocalDescriptionApplied(PeerRole::Subscriber));
    client.handle(Event::AnswerDelivered);
    assert_eq!(client.state(PeerRole::Subscriber), NegotiationState::Stable);
}

#[test]
fn local_candidates_are_trickled_at_once() {
    let mut client = joined();
    let found = candidate("candidate:3 1 UDP 1 192.0.2.1 4000 typ srflx", 2);
    assert_eq!(
        client.handle(Event::IceCandidate(PeerRole::Publisher, candidate(&found.candidate, 2))),
        vec![Action::SendTrickle(PeerRole::Publisher, found)]
    );
    assert_eq!(client.state(PeerRole::Publisher), NegotiationState::Stable);
}

#[test]
fn ping_asks_for_a_probe() {
    let client = Client::new();
    assert_eq!(client.ping(), Action::SendPing);
    assert_eq!(client.phase(), Phase::Fresh);
}
