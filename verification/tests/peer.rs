use std::sync::Arc;

use webrtc::data_channel::data_channel_init::RTCDataChannelInit;
use webrtc::ice_transport::ice_server::RTCIceServer;
use webrtc::peer_connection::configuration::RTCConfiguration;
use webrtc::peer_connection::offer_answer_options::{RTCAnswerOptions, RTCOfferOptions};

use peer::message::{
    ConnectionState, IceCandidate, IceCandidateInit, IceCandidateType, IceProtocol, SdpType,
    SessionDescription, SignalMessage,
};
use peer::options::PeerOptions;
use peer::peer::Peer;
use peer::step::{Action, Event, PeerError, Reply, Step};

// Connections, data channels and callbacks are named by numbers and texts.
type TestPeer = Peer<u32, u32, &'static str>;
type TestStep = Step<u32, u32, &'static str>;

const CONNECTION: u32 = 10;
const CHANNEL: u32 = 20;

fn named(id: &str) -> PeerOptions {
    PeerOptions { id: Some(id.to_string()), ..Default::default() }
}

fn candidate(text: &str) -> IceCandidateInit {
    IceCandidateInit {
        candidate: text.to_string(),
        sdp_mid: Some("0".to_string()),
        sdp_mline_index: Some(0),
        username_fragment: None,
    }
}

fn description(sdp_type: SdpType, sdp: &str) -> SessionDescription {
    SessionDescription { sdp_type, sdp: sdp.to_string() }
}

fn text(step: &TestStep) -> String {
    match &step.action {
        Action::NewConnection { .. } => "new connection".to_string(),
        Action::Observe { connection } => format!("observe {connection}"),
        Action::Listen { connection } => format!("listen {connection}"),
        Action::CreateDataChannel { connection, name, .. } => {
            format!("create channel {name} on {connection}")
        }
        Action::ObserveChannel { channel } => format!("observe channel {channel}"),
        Action::QueryRemoteDescription { connection } => format!("query {connection}"),
        Action::AddIceCandidate { connection, candidate } => {
            format!("add {} to {connection}", candidate.candidate)
        }
        Action::SetRemoteDescription { connection, description } => {
            format!("set remote {:?} {} on {connection}", description.sdp_type, description.sdp)
        }
        Action::SetLocalDescription { connection, description } => {
            format!("set local {:?} {} on {connection}", description.sdp_type, description.sdp)
        }
        Action::CreateOffer { connection, offer_config } => {
            format!("create offer on {connection} {}", offer_config.is_some())
        }
        Action::CreateAnswer { connection, answer_config } => {
            format!("create answer on {connection} {}", answer_config.is_some())
        }
        Action::CloseChannel { channel } => format!("close channel {channel}"),
        Action::CloseConnection { connection } => format!("close {connection}"),
        Action::Notify { callback, event } => format!("{callback}: {event:?}"),
        Action::Finish { result } => format!("finish {result:?}"),
    }
}

// Gives the replies one after the other and returns the actions.
fn play(peer: &mut TestPeer, first: TestStep, replies: Vec<Reply<u32, u32>>) -> Vec<String> {
    let mut step = first;
    let mut actions = vec![text(&step)];
    for reply in replies {
        assert!(step.task.accepts(&reply), "{actions:?} {reply:?}");
        step = peer.resume(step.task, reply);
        actions.push(text(&step));
    }
    actions
}

fn with_callbacks(options: PeerOptions) -> TestPeer {
    let mut peer = Peer::new(options);
    peer.on_signal(Arc::new("signal"));
    peer.on_data(Arc::new("data"));
    peer.on_connect(Arc::new("connect"));
    peer.on_close(Arc::new("close"));
    peer.on_negotiated(Arc::new("negotiated"));
    peer
}

// An initiator with a connection and a data channel.
fn started() -> TestPeer {
    let mut peer = with_callbacks(PeerOptions {
        data_channel_name: Some("chat".to_string()),
        ..named("peer1")
    });
    let first = peer.init();
    let actions = play(
        &mut peer,
        first,
        vec![
            Reply::Connection(Arc::new(CONNECTION)),
            Reply::Done,
            Reply::Channel(Arc::new(CHANNEL)),
            Reply::Done,
        ],
    );
    assert_eq!(
        actions,
        [
            "new connection",
            "observe 10",
            "create channel chat on 10",
            "observe channel 20",
            "finish Ok(())",
        ]
    );
    peer
}

// A peer that has a connection since it got a candidate, which waits.
fn joined(first_candidate: &str) -> TestPeer {
    let mut peer = with_callbacks(named("peer2"));
    let first = peer.signal(SignalMessage::Candidate(candidate(first_candidate)));
    let actions = play(
        &mut peer,
        first,
        vec![
            Reply::Connection(Arc::new(CONNECTION)),
            Reply::Done,
            Reply::Done,
            Reply::RemoteDescription(false),
        ],
    );
    assert_eq!(
        actions,
        ["new connection", "observe 10", "listen 10", "query 10", "finish Ok(())"]
    );
    peer
}

#[test]
fn an_id_is_kept() {
    let peer: TestPeer = Peer::new(named("peer1"));
    assert_eq!(peer.get_id(), "peer1");
    assert!(peer.get_connection().is_none());
    assert!(peer.get_data_channel().is_none());
}

#[test]
fn an_id_is_a_random_uuid_by_default() {
    let first: TestPeer = Peer::new(PeerOptions::default());
    let second: TestPeer = Peer::new(PeerOptions::default());
    for peer in [&first, &second] {
        let id: Vec<char> = peer.get_id().chars().collect();
        assert_eq!(id.len(), 36);
        for (i, c) in id.iter().enumerate() {
            match i {
                8 | 13 | 18 | 23 => assert_eq!(*c, '-'),
                14 => assert_eq!(*c, '4'),
                19 => assert!("89ab".contains(*c)),
                _ => assert!("0123456789abcdef".contains(*c)),
            }
        }
    }
    assert_ne!(first.get_id(), second.get_id());
}

#[test]
fn a_data_channel_name_is_a_random_uuid_by_default() {
    let mut peer: TestPeer = Peer::new(named("peer1"));
    let step = peer.init();
    let step = peer.resume(step.task, Reply::Connection(Arc::new(CONNECTION)));
    let step = peer.resume(step.task, Reply::Done);
    match step.action {
        Action::CreateDataChannel { connection, name, data_channel_config } => {
            assert_eq!(*connection, CONNECTION);
            assert_eq!(name.len(), 36);
            assert_ne!(name, "peer1");
            assert!(data_channel_config.is_none());
        }
        _ => panic!("no data channel"),
    }
}

#[test]
fn names_can_be_given() {
    let mut peer: TestPeer =
        Peer::with_names("a".to_string(), "b".to_string(), PeerOptions::default());
    assert_eq!(peer.get_id(), "a");
    let first = peer.init();
    let replies = vec![Reply::Connection(Arc::new(CONNECTION)), Reply::Done];
    assert_eq!(
        play(&mut peer, first, replies),
        ["new connection", "observe 10", "create channel b on 10"]
    );
}

#[test]
fn settings_come_to_where_they_are_used() {
    let options = PeerOptions {
        connection_config: Some(RTCConfiguration {
            ice_servers: vec![RTCIceServer {
                urls: vec!["stun:localhost".to_string()],
                ..Default::default()
            }],
            ..Default::default()
        }),
        offer_config: Some(RTCOfferOptions { voice_activity_detection: false, ice_restart: true }),
        answer_config: Some(RTCAnswerOptions { voice_activity_detection: true }),
        data_channel_config: Some(RTCDataChannelInit {
            ordered: Some(false),
            ..Default::default()
        }),
        ..named("peer1")
    };
    let mut peer: TestPeer = Peer::new(options);
    let step = peer.init();
    match step.action {
        Action::NewConnection { connection_config } => {
            assert_eq!(connection_config.ice_servers[0].urls, ["stun:localhost"]);
        }
        _ => panic!("no connection"),
    }
    let step = peer.resume(step.task, Reply::Connection(Arc::new(CONNECTION)));
    let step = peer.resume(step.task, Reply::Done);
    match step.action {
        Action::CreateDataChannel { data_channel_config, .. } => {
            assert_eq!(data_channel_config.map(|config| config.ordered), Some(Some(false)));
        }
        _ => panic!("no data channel"),
    }
    let step = peer.on_negotiation_needed();
    match step.action {
        Action::CreateOffer { offer_config, .. } => {
            assert_eq!(offer_config.map(|config| config.ice_restart), Some(true));
        }
        _ => panic!("no offer"),
    }
    let step = peer.signal(SignalMessage::Offer(description(SdpType::Offer, "o")));
    let step = peer.resume(step.task, Reply::Done);
    match step.action {
        Action::CreateAnswer { answer_config, .. } => {
            assert_eq!(answer_config.map(|config| config.voice_activity_detection), Some(true));
        }
        _ => panic!("no answer"),
    }
}

#[test]
fn the_default_configuration_has_no_servers() {
    let mut peer: TestPeer = Peer::new(PeerOptions::default());
    match peer.init().action {
        Action::NewConnection { connection_config } => {
            assert!(connection_config.ice_servers.is_empty());
            assert!(connection_config.certificates.is_empty());
            assert_eq!(connection_config.peer_identity, "");
            assert_eq!(connection_config.ice_candidate_pool_size, 0);
        }
        _ => panic!("no connection"),
    }
}

#[test]
fn default_options_leave_everything_out() {
    let options = PeerOptions::default();
    assert!(options.id.is_none());
    assert!(options.max_channel_message_size.is_none());
    assert!(options.data_channel_name.is_none());
    assert!(options.event_channel_size.is_none());
    assert!(options.connection_config.is_none());
    assert!(options.offer_config.is_none());
    assert!(options.answer_config.is_none());
    assert!(options.data_channel_config.is_none());
}

#[test]
fn init_opens_a_connection_and_a_data_channel() {
    let peer = started();
    assert_eq!(peer.get_connection().map(|c| **c), Some(CONNECTION));
    assert_eq!(peer.get_data_channel().map(|d| *d), Some(CHANNEL));
}

#[test]
fn a_second_init_keeps_the_connection() {
    let mut peer = started();
    let first = peer.init();
    let actions = play(
        &mut peer,
        first,
        vec![Reply::Done, Reply::Channel(Arc::new(21)), Reply::Done],
    );
    assert_eq!(
        actions,
        ["observe 10", "create channel chat on 10", "observe channel 21", "finish Ok(())"]
    );
    assert_eq!(peer.get_connection().map(|c| **c), Some(CONNECTION));
    assert_eq!(peer.get_data_channel().map(|d| *d), Some(21));
}

#[test]
fn a_connection_that_was_opened_meanwhile_is_kept() {
    let mut peer = with_callbacks(named("peer2"));
    let one = peer.signal(SignalMessage::Renegotiate);
    let two = peer.signal(SignalMessage::Renegotiate);
    let one = peer.resume(one.task, Reply::Connection(Arc::new(1)));
    assert_eq!(text(&one), "observe 1");
    let two = peer.resume(two.task, Reply::Connection(Arc::new(2)));
    assert_eq!(text(&two), "observe 1");
    assert_eq!(peer.get_connection().map(|c| **c), Some(1));
}

#[test]
fn a_data_channel_that_cannot_be_created_fails_init() {
    let mut peer = with_callbacks(named("peer1"));
    let first = peer.init();
    let actions = play(
        &mut peer,
        first,
        vec![
            Reply::Connection(Arc::new(CONNECTION)),
            Reply::Done,
            Reply::Failed(webrtc::Error::ErrUnknownType),
        ],
    );
    assert_eq!(actions[3], "finish Err(Transport(ErrUnknownType))");
    assert_eq!(peer.get_connection().map(|c| **c), Some(CONNECTION));
    assert!(peer.get_data_channel().is_none());
}

#[test]
fn the_initiator_makes_an_offer() {
    let mut peer = started();
    for first in [peer.on_negotiation_needed(), peer.signal(SignalMessage::Renegotiate)] {
        let actions = play(
            &mut peer,
            first,
            vec![
                Reply::Description(description(SdpType::Offer, "o")),
                Reply::Done,
                Reply::Done,
            ],
        );
        assert_eq!(
            actions,
            [
                "create offer on 10 false",
                "set local Offer o on 10",
                "signal: Signal(Offer(SessionDescription { sdp_type: Offer, sdp: \"o\" }))",
                "finish Ok(())",
            ]
        );
    }
}

#[test]
fn the_other_peer_asks_for_an_offer() {
    let mut peer = joined("c0");
    let first = peer.on_negotiation_needed();
    assert_eq!(
        play(&mut peer, first, vec![Reply::Done]),
        ["signal: Signal(Renegotiate)", "finish Ok(())"]
    );
}

#[test]
fn a_failed_offer_is_not_sent() {
    let mut peer = started();
    let first = peer.on_negotiation_needed();
    let actions = play(
        &mut peer,
        first,
        vec![
            Reply::Description(description(SdpType::Offer, "o")),
            Reply::Failed(webrtc::Error::ErrConnectionClosed),
        ],
    );
    assert_eq!(actions[2], "finish Err(Transport(ErrConnectionClosed))");
    let first = peer.on_negotiation_needed();
    let actions =
        play(&mut peer, first, vec![Reply::Failed(webrtc::Error::ErrConnectionClosed)]);
    assert_eq!(actions[1], "finish Err(Transport(ErrConnectionClosed))");
}

#[test]
fn an_offer_is_answered_after_the_waiting_candidates() {
    let mut peer = joined("c0");
    for name in ["c1", "c2"] {
        let first = peer.signal(SignalMessage::Candidate(candidate(name)));
        assert_eq!(
            play(&mut peer, first, vec![Reply::RemoteDescription(false)]),
            ["query 10", "finish Ok(())"]
        );
    }
    let first = peer.signal(SignalMessage::Offer(description(SdpType::Offer, "o")));
    let actions = play(
        &mut peer,
        first,
        vec![
            Reply::Done,
            Reply::Done,
            Reply::Done,
            Reply::Done,
            Reply::Description(description(SdpType::Answer, "a")),
            Reply::Done,
            Reply::Done,
            Reply::Done,
        ],
    );
    assert_eq!(
        actions,
        [
            "set remote Offer o on 10",
            "add c0 to 10",
            "add c1 to 10",
            "add c2 to 10",
            "create answer on 10 false",
            "set local Answer a on 10",
            "signal: Signal(Answer(SessionDescription { sdp_type: Answer, sdp: \"a\" }))",
            "negotiated: Negotiated",
            "finish Ok(())",
        ]
    );
    let first = peer.signal(SignalMessage::Answer(description(SdpType::Answer, "a")));
    assert_eq!(
        play(&mut peer, first, vec![Reply::Done, Reply::Done]),
        ["set remote Answer a on 10", "negotiated: Negotiated", "finish Ok(())"]
    );
}

#[test]
fn the_kind_of_a_description_decides_not_its_message() {
    let mut peer = started();
    let messages = vec![
        SignalMessage::Answer(description(SdpType::Offer, "o")),
        SignalMessage::Offer(description(SdpType::Offer, "o")),
        SignalMessage::Pranswer(description(SdpType::Offer, "o")),
        SignalMessage::Rollback(description(SdpType::Offer, "o")),
    ];
    for message in messages {
        let first = peer.signal(message);
        assert_eq!(
            play(&mut peer, first, vec![Reply::Done]),
            ["set remote Offer o on 10", "create answer on 10 false"]
        );
    }
    for kind in [SdpType::Unspecified, SdpType::Pranswer, SdpType::Answer, SdpType::Rollback] {
        let first = peer.signal(SignalMessage::Offer(description(kind, "d")));
        assert_eq!(play(&mut peer, first, vec![Reply::Done])[1], "negotiated: Negotiated");
    }
}

#[test]
fn a_candidate_after_the_description_is_added_at_once() {
    let mut peer = started();
    let first = peer.signal(SignalMessage::Candidate(candidate("c")));
    assert_eq!(
        play(&mut peer, first, vec![Reply::RemoteDescription(true), Reply::Done]),
        ["query 10", "add c to 10", "finish Ok(())"]
    );
    let first = peer.signal(SignalMessage::Candidate(candidate("d")));
    let replies = vec![
        Reply::RemoteDescription(true),
        Reply::Failed(webrtc::Error::ErrNoRemoteDescription),
    ];
    assert_eq!(
        play(&mut peer, first, replies)[2],
        "finish Err(Transport(ErrNoRemoteDescription))"
    );
}

#[test]
fn a_description_that_is_not_taken_keeps_the_candidates_waiting() {
    let mut peer = joined("c0");
    let first = peer.signal(SignalMessage::Offer(description(SdpType::Offer, "bad")));
    let actions = play(&mut peer, first, vec![Reply::Failed(webrtc::Error::ErrUnknownType)]);
    assert_eq!(actions[1], "finish Err(Transport(ErrUnknownType))");
    let first = peer.signal(SignalMessage::Offer(description(SdpType::Offer, "good")));
    assert_eq!(play(&mut peer, first, vec![Reply::Done])[1], "add c0 to 10");
}

#[test]
fn a_candidate_that_is_not_taken_drops_those_behind_it() {
    let mut peer = joined("c0");
    let first = peer.signal(SignalMessage::Candidate(candidate("c1")));
    play(&mut peer, first, vec![Reply::RemoteDescription(false)]);
    let first = peer.signal(SignalMessage::Offer(description(SdpType::Offer, "o")));
    let replies = vec![Reply::Done, Reply::Failed(webrtc::Error::ErrUnknownType)];
    assert_eq!(
        play(&mut peer, first, replies),
        ["set remote Offer o on 10", "add c0 to 10", "finish Err(Transport(ErrUnknownType))"]
    );
    let first = peer.signal(SignalMessage::Offer(description(SdpType::Offer, "o")));
    assert_eq!(play(&mut peer, first, vec![Reply::Done])[1], "create answer on 10 false");
}

#[test]
fn a_candidate_that_comes_during_the_draining_waits() {
    let mut peer = joined("c0");
    let step = peer.signal(SignalMessage::Answer(description(SdpType::Answer, "a")));
    let late = peer.signal(SignalMessage::Candidate(candidate("late")));
    let step = peer.resume(step.task, Reply::Done);
    assert_eq!(text(&step), "add c0 to 10");
    let late = peer.resume(late.task, Reply::RemoteDescription(false));
    assert_eq!(text(&late), "finish Ok(())");
    let step = peer.resume(step.task, Reply::Done);
    assert_eq!(text(&step), "negotiated: Negotiated");
    let first = peer.signal(SignalMessage::Answer(description(SdpType::Answer, "a")));
    assert_eq!(play(&mut peer, first, vec![Reply::Done])[1], "add late to 10");
}

#[test]
fn a_description_for_a_connection_that_was_closed_meanwhile_is_refused() {
    let mut peer = with_callbacks(named("peer2"));
    let step = peer.signal(SignalMessage::Offer(description(SdpType::Offer, "o")));
    let step = peer.resume(step.task, Reply::Connection(Arc::new(CONNECTION)));
    let step = peer.resume(step.task, Reply::Done);
    assert_eq!(text(&step), "listen 10");
    assert_eq!(text(&peer.close()), "close 10");
    let step = peer.resume(step.task, Reply::Done);
    assert!(matches!(
        step.action,
        Action::Finish { result: Err(PeerError::ConnectionClosed) }
    ));
}

#[test]
fn a_candidate_for_a_connection_that_was_closed_meanwhile_waits() {
    let mut peer = with_callbacks(named("peer2"));
    let step = peer.signal(SignalMessage::Candidate(candidate("c")));
    let step = peer.resume(step.task, Reply::Connection(Arc::new(CONNECTION)));
    let step = peer.resume(step.task, Reply::Done);
    assert_eq!(text(&peer.close()), "close 10");
    let step = peer.resume(step.task, Reply::Done);
    assert_eq!(text(&step), "finish Ok(())");
    let first = peer.signal(SignalMessage::Offer(description(SdpType::Offer, "o")));
    let replies =
        vec![Reply::Connection(Arc::new(11)), Reply::Done, Reply::Done, Reply::Done];
    assert_eq!(play(&mut peer, first, replies)[4], "add c to 11");
}

#[test]
fn close_closes_the_channel_then_the_connection() {
    let mut peer = started();
    let first = peer.close();
    assert_eq!(
        play(&mut peer, first, vec![Reply::Done, Reply::Done, Reply::Done]),
        ["close channel 20", "close 10", "close: Close", "finish Ok(())"]
    );
    assert!(peer.get_connection().is_none());
    assert!(peer.get_data_channel().is_none());
    let first = peer.close();
    assert_eq!(play(&mut peer, first, vec![Reply::Done]), ["close: Close", "finish Ok(())"]);
}

#[test]
fn a_channel_that_cannot_be_closed_keeps_the_connection() {
    let mut peer = started();
    let first = peer.close();
    assert_eq!(
        play(&mut peer, first, vec![Reply::Failed(webrtc::Error::ErrUnknownType)]),
        ["close channel 20", "finish Err(Transport(ErrUnknownType))"]
    );
    assert!(peer.get_connection().is_some());
    assert!(peer.get_data_channel().is_none());
    let first = peer.close();
    assert_eq!(
        play(&mut peer, first, vec![Reply::Failed(webrtc::Error::ErrUnknownType)]),
        ["close 10", "finish Err(Transport(ErrUnknownType))"]
    );
    assert!(peer.get_connection().is_none());
}

#[test]
fn a_connection_that_is_over_closes_the_peer() {
    for state in [ConnectionState::Closed, ConnectionState::Failed, ConnectionState::Disconnected] {
        let mut peer = started();
        let step = peer.on_peer_connection_state_change(state);
        assert_eq!(text(&step), "close channel 20");
    }
    for state in [
        ConnectionState::Unspecified,
        ConnectionState::New,
        ConnectionState::Connecting,
        ConnectionState::Connected,
    ] {
        let mut peer = started();
        let step = peer.on_peer_connection_state_change(state);
        assert_eq!(text(&step), "finish Ok(())");
        assert!(peer.get_connection().is_some());
    }
}

#[test]
fn a_channel_of_the_other_side_is_kept() {
    let mut peer = joined("c0");
    let first = peer.on_data_channel(Arc::new(CHANNEL));
    assert_eq!(
        play(&mut peer, first, vec![Reply::Done]),
        ["observe channel 20", "finish Ok(())"]
    );
    assert_eq!(peer.get_data_channel().map(|d| *d), Some(CHANNEL));
}

#[test]
fn channel_events_come_to_their_callbacks() {
    let mut peer = started();
    let first = peer.on_data_channel_open();
    assert_eq!(play(&mut peer, first, vec![Reply::Done]), ["connect: Connect", "finish Ok(())"]);
    let first = peer.on_data_channel_message(vec![1, 2, 3]);
    assert_eq!(
        play(&mut peer, first, vec![Reply::Done]),
        ["data: Data([1, 2, 3])", "finish Ok(())"]
    );
}

#[test]
fn without_callbacks_nobody_is_told() {
    let mut peer: TestPeer = Peer::new(named("peer1"));
    assert_eq!(text(&peer.on_data_channel_open()), "finish Ok(())");
    assert_eq!(text(&peer.on_data_channel_message(vec![1])), "finish Ok(())");
    assert_eq!(text(&peer.close()), "finish Ok(())");
    assert_eq!(text(&peer.on_negotiation_needed()), "finish Ok(())");
    let first = peer.signal(SignalMessage::Offer(description(SdpType::Offer, "o")));
    let replies = vec![
        Reply::Connection(Arc::new(CONNECTION)),
        Reply::Done,
        Reply::Done,
        Reply::Done,
        Reply::Description(description(SdpType::Answer, "a")),
        Reply::Done,
    ];
    assert_eq!(
        play(&mut peer, first, replies),
        [
            "new connection",
            "observe 10",
            "listen 10",
            "set remote Offer o on 10",
            "create answer on 10 false",
            "set local Answer a on 10",
            "finish Ok(())",
        ]
    );
}

#[test]
fn the_last_callback_counts() {
    let mut peer = started();
    peer.on_connect(Arc::new("other"));
    assert_eq!(text(&peer.on_data_channel_open()), "other: Connect");
    peer.on_close(Arc::new("last"));
    let mut fresh: TestPeer = Peer::new(named("peer2"));
    fresh.on_close(Arc::new("first"));
    fresh.on_close(Arc::new("second"));
    assert_eq!(text(&fresh.close()), "second: Close");
}

#[test]
fn a_task_accepts_only_what_its_action_can_give() {
    let mut peer = started();
    let step = peer.on_negotiation_needed();
    assert!(step.task.accepts(&Reply::Description(description(SdpType::Offer, "o"))));
    assert!(step.task.accepts(&Reply::Failed(webrtc::Error::ErrUnknownType)));
    assert!(!step.task.accepts(&Reply::Done));
    assert!(!step.task.accepts(&Reply::RemoteDescription(true)));
    assert!(!step.task.accepts(&Reply::Connection(Arc::new(1))));
    assert!(!step.task.accepts(&Reply::Channel(Arc::new(1))));
    let step = peer.on_peer_connection_state_change(ConnectionState::New);
    assert!(!step.task.accepts(&Reply::Done));
}

fn gathered(typ: IceCandidateType) -> IceCandidate {
    IceCandidate {
        stats_id: "id".to_string(),
        foundation: "123".to_string(),
        priority: 2130706431,
        address: "1.0.0.1".to_string(),
        protocol: IceProtocol::Udp,
        port: 19217,
        typ,
        component: 1,
        related_address: "4.3.2.1".to_string(),
        related_port: 43212,
        tcp_type: String::new(),
    }
}

fn sent(step: TestStep) -> IceCandidateInit {
    match step.action {
        Action::Notify { callback, event: Event::Signal(SignalMessage::Candidate(init)) } => {
            assert_eq!(*callback, "signal");
            init
        }
        _ => panic!("nothing sent"),
    }
}

#[test]
fn a_gathered_candidate_is_sent_as_json() {
    let mut peer = started();
    let init = sent(peer.on_ice_candidate(Some(gathered(IceCandidateType::Host))));
    assert_eq!(
        init,
        IceCandidateInit {
            candidate: "candidate:123 1 udp 2130706431 1.0.0.1 19217 typ host".to_string(),
            sdp_mid: Some(String::new()),
            sdp_mline_index: Some(0),
            username_fragment: None,
        }
    );
    for (typ, name) in [
        (IceCandidateType::Srflx, "srflx"),
        (IceCandidateType::Prflx, "prflx"),
        (IceCandidateType::Relay, "relay"),
    ] {
        let init = sent(peer.on_ice_candidate(Some(gathered(typ))));
        assert_eq!(
            init.candidate,
            format!(
                "candidate:123 1 udp 2130706431 1.0.0.1 19217 typ {name} raddr 4.3.2.1 rport 43212"
            )
        );
    }
    let mut tcp = gathered(IceCandidateType::Host);
    tcp.protocol = IceProtocol::Tcp;
    let init = sent(peer.on_ice_candidate(Some(tcp)));
    assert_eq!(init.candidate, "candidate:123 1 tcp 2130706431 1.0.0.1 19217 typ host");
}

#[test]
fn a_priority_of_zero_is_replaced() {
    let mut peer = started();
    let mut candidate = gathered(IceCandidateType::Host);
    candidate.priority = 0;
    candidate.component = 256;
    let init = sent(peer.on_ice_candidate(Some(candidate)));
    assert_eq!(init.candidate, "candidate:123 256 udp 2130706176 1.0.0.1 19217 typ host");
}

#[test]
fn a_candidate_without_json_is_reported() {
    let mut peer = started();
    let step = peer.on_ice_candidate(Some(gathered(IceCandidateType::Unspecified)));
    assert_eq!(text(&step), "finish Err(Transport(ErrICECandidateTypeUnknown))");
    let mut nowhere = gathered(IceCandidateType::Relay);
    nowhere.address = "nowhere".to_string();
    let step = peer.on_ice_candidate(Some(nowhere));
    assert!(matches!(
        step.action,
        Action::Finish { result: Err(PeerError::Transport(_)) }
    ));
    let mut unspecified = gathered(IceCandidateType::Srflx);
    unspecified.protocol = IceProtocol::Unspecified;
    let step = peer.on_ice_candidate(Some(unspecified));
    assert!(matches!(
        step.action,
        Action::Finish { result: Err(PeerError::Transport(_)) }
    ));
}

#[test]
fn the_end_of_the_candidates_is_not_sent() {
    let mut peer = started();
    assert_eq!(text(&peer.on_ice_candidate(None)), "finish Ok(())");
}

#[test]
fn a_candidate_in_json_form_is_sent_as_it_is() {
    let mut peer = started();
    assert_eq!(sent(peer.candidate_gathered(Ok(candidate("c")))), candidate("c"));
    let step = peer.candidate_gathered(Err(webrtc::Error::ErrUnknownType));
    assert_eq!(text(&step), "finish Err(Transport(ErrUnknownType))");
}

#[test]
fn messages_are_copied_whole() {
    let messages = vec![
        SignalMessage::Renegotiate,
        SignalMessage::Candidate(candidate("c")),
        SignalMessage::Answer(description(SdpType::Answer, "a")),
        SignalMessage::Offer(description(SdpType::Offer, "o")),
        SignalMessage::Pranswer(description(SdpType::Pranswer, "p")),
        SignalMessage::Rollback(description(SdpType::Rollback, "r")),
    ];
    for message in &messages {
        assert_eq!(&message.clone(), message);
    }
}

#[test]
fn a_channel_error_is_a_result_and_told_to_nobody() {
    let mut peer = started();
    let first = peer.on_data_channel_error(webrtc::Error::ErrUnknownType);
    assert_eq!(
        play(&mut peer, first, vec![]),
        ["finish Err(Transport(ErrUnknownType))"]
    );
    assert_eq!(peer.get_data_channel().map(|d| *d), Some(CHANNEL));
}

#[test]
fn a_connection_that_cannot_be_closed_after_its_channel_is_given_up() {
    let mut peer = started();
    let first = peer.close();
    let replies = vec![Reply::Done, Reply::Failed(webrtc::Error::ErrUnknownType)];
    assert_eq!(
        play(&mut peer, first, replies),
        ["close channel 20", "close 10", "finish Err(Transport(ErrUnknownType))"]
    );
    assert!(peer.get_connection().is_none());
    assert!(peer.get_data_channel().is_none());
}

#[test]
fn the_four_messages_do_the_same_without_a_connection() {
    let messages = vec![
        SignalMessage::Answer(description(SdpType::Offer, "o")),
        SignalMessage::Offer(description(SdpType::Offer, "o")),
        SignalMessage::Pranswer(description(SdpType::Offer, "o")),
        SignalMessage::Rollback(description(SdpType::Offer, "o")),
    ];
    for message in messages {
        let mut peer = with_callbacks(named("peer2"));
        let first = peer.signal(message);
        let replies = vec![
            Reply::Connection(Arc::new(CONNECTION)),
            Reply::Done,
            Reply::Done,
            Reply::Done,
            Reply::Failed(webrtc::Error::ErrUnknownType),
        ];
        assert_eq!(
            play(&mut peer, first, replies),
            [
                "new connection",
                "observe 10",
                "listen 10",
                "set remote Offer o on 10",
                "create answer on 10 false",
                "finish Err(Transport(ErrUnknownType))",
            ]
        );
        assert_eq!(peer.get_connection().map(|c| **c), Some(CONNECTION));
    }
}

#[test]
fn candidates_wait_for_the_connection_of_an_initiator_that_was_closed() {
    let mut peer = started();
    let first = peer.close();
    play(&mut peer, first, vec![Reply::Done, Reply::Done, Reply::Done]);
    let first = peer.signal(SignalMessage::Candidate(candidate("c0")));
    let replies = vec![
        Reply::Connection(Arc::new(11)),
        Reply::Done,
        Reply::Channel(Arc::new(21)),
        Reply::Done,
        Reply::RemoteDescription(false),
    ];
    assert_eq!(
        play(&mut peer, first, replies),
        [
            "new connection",
            "observe 11",
            "create channel chat on 11",
            "observe channel 21",
            "query 11",
            "finish Ok(())",
        ]
    );
    let first = peer.signal(SignalMessage::Candidate(candidate("c1")));
    play(&mut peer, first, vec![Reply::RemoteDescription(false)]);
    let first = peer.signal(SignalMessage::Answer(description(SdpType::Answer, "a")));
    assert_eq!(
        play(&mut peer, first, vec![Reply::Done, Reply::Done, Reply::Done, Reply::Done]),
        [
            "set remote Answer a on 11",
            "add c0 to 11",
            "add c1 to 11",
            "negotiated: Negotiated",
            "finish Ok(())",
        ]
    );
}

#[test]
fn the_sizes_have_no_effect() {
    for size in [None, Some(0), Some(usize::MAX)] {
        let mut peer = with_callbacks(PeerOptions {
            max_channel_message_size: size,
            event_channel_size: size,
            data_channel_name: Some("chat".to_string()),
            ..named("peer1")
        });
        let first = peer.init();
        let replies = vec![
            Reply::Connection(Arc::new(CONNECTION)),
            Reply::Done,
            Reply::Channel(Arc::new(CHANNEL)),
            Reply::Done,
        ];
        assert_eq!(
            play(&mut peer, first, replies),
            [
                "new connection",
                "observe 10",
                "create channel chat on 10",
                "observe channel 20",
                "finish Ok(())",
            ]
        );
        let first = peer.on_data_channel_message(vec![0; 3]);
        assert_eq!(play(&mut peer, first, vec![])[0], "data: Data([0, 0, 0])");
    }
}

#[test]
fn a_new_signal_callback_gets_the_messages_of_procedures_under_way() {
    let mut peer = started();
    let step = peer.on_negotiation_needed();
    peer.on_signal(Arc::new("newer"));
    let offer = description(SdpType::Offer, "o");
    let step = peer.resume(step.task, Reply::Description(offer));
    let step = peer.resume(step.task, Reply::Done);
    assert!(text(&step).starts_with("newer: Signal(Offer("));
    assert_eq!(text(&peer.on_data_channel_open()), "connect: Connect");
}

#[test]
fn a_negotiation_without_a_connection() {
    let mut initiator = with_callbacks(named("peer1"));
    let step = initiator.init();
    assert_eq!(text(&step), "new connection");
    assert_eq!(text(&initiator.on_negotiation_needed()), "finish Ok(())");
    let other = with_callbacks(named("peer2"));
    assert_eq!(text(&other.on_negotiation_needed()), "signal: Signal(Renegotiate)");
}

#[test]
fn a_candidate_has_a_priority_or_a_small_component() {
    let with = |typ, priority, component| IceCandidate { priority, component, ..gathered(typ) };
    assert!(with(IceCandidateType::Host, 1, u16::MAX).has_priority());
    assert!(with(IceCandidateType::Host, 0, 256).has_priority());
    assert!(!with(IceCandidateType::Host, 0, 257).has_priority());
    assert!(with(IceCandidateType::Unspecified, 0, 257).has_priority());
}

#[test]
fn candidates_that_keep_coming_do_not_prolong_the_draining() {
    let mut peer = joined("c0");
    let mut step = peer.signal(SignalMessage::Answer(description(SdpType::Answer, "a")));
    let mut replies = 0;
    while step.task.accepts(&Reply::Done) {
        let late = peer.signal(SignalMessage::Candidate(candidate("late")));
        let late = peer.resume(late.task, Reply::RemoteDescription(false));
        assert_eq!(text(&late), "finish Ok(())");
        step = peer.resume(step.task, Reply::Done);
        replies += 1;
    }
    assert_eq!(text(&step), "finish Ok(())");
    // The description, the two candidates that were waiting by then, and the callback.
    assert_eq!(replies, 4);
}
