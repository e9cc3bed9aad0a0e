use std::collections::VecDeque;
use std::sync::Arc;

use webrtc::ice_transport::ice_server::RTCIceServer;
use webrtc::peer_connection::configuration::RTCConfiguration;

use peer::message::{IceCandidateInit, SdpType, SessionDescription, SignalMessage};
use peer::options::PeerOptions;
use peer::peer::Peer;
use peer::step::{Action, Event, Reply, Step};

// A connection or a data channel belongs to the side with its number.
type Side = usize;
type TestPeer = Peer<Side, Side, Side>;
type TestStep = Step<Side, Side, Side>;

// What happens to a side.
enum Happening {
    NegotiationNeeded,
    Message(SignalMessage),
    Channel,
    Open,
    Data(Vec<u8>),
}

// Two peers and a transport between them that keeps everything in memory.
struct World {
    peers: Vec<TestPeer>,
    happenings: VecDeque<(Side, Happening)>,
    local: Vec<Option<SessionDescription>>,
    remote: Vec<Option<SessionDescription>>,
    candidates: Vec<Vec<IceCandidateInit>>,
    open: bool,
    told: Vec<(Side, String)>,
    received: Vec<(Side, Vec<u8>)>,
}

fn other(side: Side) -> Side {
    1 - side
}

impl World {
    fn new(first: PeerOptions, second: PeerOptions) -> Self {
        let mut peers: Vec<TestPeer> = vec![Peer::new(first), Peer::new(second)];
        for (side, peer) in peers.iter_mut().enumerate() {
            peer.on_signal(Arc::new(side));
            peer.on_data(Arc::new(side));
            peer.on_connect(Arc::new(side));
            peer.on_close(Arc::new(side));
            peer.on_negotiated(Arc::new(side));
        }
        World {
            peers,
            happenings: VecDeque::new(),
            local: vec![None, None],
            remote: vec![None, None],
            candidates: vec![Vec::new(), Vec::new()],
            open: false,
            told: Vec::new(),
            received: Vec::new(),
        }
    }

    fn drive(&mut self, side: Side, first: TestStep) {
        let mut step = first;
        loop {
            let reply = match step.action {
                Action::NewConnection { connection_config } => {
                    assert_eq!(connection_config.ice_servers.len(), 1);
                    Reply::Connection(Arc::new(side))
                }
                Action::Observe { .. } | Action::Listen { .. } | Action::ObserveChannel { .. } => {
                    Reply::Done
                }
                Action::CreateDataChannel { .. } => {
                    self.happenings.push_back((side, Happening::NegotiationNeeded));
                    Reply::Channel(Arc::new(side))
                }
                Action::QueryRemoteDescription { .. } => {
                    Reply::RemoteDescription(self.remote[side].is_some())
                }
                Action::AddIceCandidate { candidate, .. } => {
                    assert!(self.remote[side].is_some());
                    self.candidates[side].push(candidate);
                    Reply::Done
                }
                Action::SetRemoteDescription { description, .. } => {
                    let answered = description.sdp_type == SdpType::Answer;
                    self.remote[side] = Some(description);
                    if answered && !self.open {
                        self.open = true;
                        self.happenings.push_back((other(side), Happening::Channel));
                        self.happenings.push_back((other(side), Happening::Open));
                        self.happenings.push_back((side, Happening::Open));
                    }
                    Reply::Done
                }
                Action::SetLocalDescription { description, .. } => {
                    self.local[side] = Some(description);
                    Reply::Done
                }
                Action::CreateOffer { .. } => Reply::Description(SessionDescription {
                    sdp_type: SdpType::Offer,
                    sdp: format!("offer of {}", self.peers[side].get_id()),
                }),
                Action::CreateAnswer { .. } => Reply::Description(SessionDescription {
                    sdp_type: SdpType::Answer,
                    sdp: format!("answer of {}", self.peers[side].get_id()),
                }),
                Action::CloseChannel { .. } | Action::CloseConnection { .. } => Reply::Done,
                Action::Notify { callback, event } => {
                    assert_eq!(*callback, side);
                    self.tell(side, event);
                    Reply::Done
                }
                Action::Finish { result } => {
                    assert_eq!(result, Ok(()));
                    return;
                }
            };
            assert!(step.task.accepts(&reply));
            step = self.peers[side].resume(step.task, reply);
        }
    }

    fn tell(&mut self, side: Side, event: Event) {
        match event {
            Event::Signal(message) => {
                self.happenings.push_back((other(side), Happening::Message(message)));
            }
            Event::Data(data) => self.received.push((side, data)),
            event => {
                self.told.push((side, format!("{event:?}")));
            }
        }
    }

    fn send(&mut self, side: Side, data: &[u8]) {
        self.happenings.push_back((other(side), Happening::Data(data.to_vec())));
    }

    fn run(&mut self) {
        while let Some((side, happening)) = self.happenings.pop_front() {
            let peer = &mut self.peers[side];
            let step = match happening {
                Happening::NegotiationNeeded => peer.on_negotiation_needed(),
                Happening::Message(message) => peer.signal(message),
                Happening::Channel => peer.on_data_channel(Arc::new(side)),
                Happening::Open => peer.on_data_channel_open(),
                Happening::Data(data) => peer.on_data_channel_message(data),
            };
            self.drive(side, step);
        }
    }
}

fn world() -> World {
    let options = PeerOptions {
        connection_config: Some(RTCConfiguration {
            ice_servers: vec![RTCIceServer { ..Default::default() }],
            ..Default::default()
        }),
        ..Default::default()
    };
    World::new(
        PeerOptions { id: Some("peer1".to_string()), ..options.clone() },
        PeerOptions { id: Some("peer2".to_string()), ..options },
    )
}

#[test]
fn basic() {
    let mut world = world();
    let step = world.peers[0].init();
    world.drive(0, step);
    world.run();

    assert!(world.told.contains(&(1, "Connect".to_string())));
    if world.peers[1].get_data_channel().is_some() {
        world.send(1, "Hello, world!".as_bytes());
    }
    world.run();
    let (side, data) = world.received.pop().expect("failed to receive message from peer2");
    assert_eq!(side, 0);
    assert_eq!(String::from_utf8_lossy(data.as_ref()), "Hello, world!");

    let step = world.peers[0].close();
    world.drive(0, step);
    let step = world.peers[1].close();
    world.drive(1, step);
    for peer in &world.peers {
        assert!(peer.get_connection().is_none());
        assert!(peer.get_data_channel().is_none());
    }
}

#[test]
fn a_session_is_negotiated_by_both() {
    let mut world = world();
    let step = world.peers[0].init();
    world.drive(0, step);
    world.run();
    assert_eq!(world.local[0].as_ref().map(|d| d.sdp.as_str()), Some("offer of peer1"));
    assert_eq!(world.local[1].as_ref().map(|d| d.sdp.as_str()), Some("answer of peer2"));
    assert_eq!(world.remote[0], world.local[1]);
    assert_eq!(world.remote[1], world.local[0]);
    assert_eq!(
        world.told,
        vec![
            (1, "Negotiated".to_string()),
            (0, "Negotiated".to_string()),
            (1, "Connect".to_string()),
            (0, "Connect".to_string()),
        ]
    );
}

#[test]
fn candidates_that_overtake_the_offer_are_added_after_it() {
    let mut world = world();
    for name in ["c0", "c1"] {
        let candidate = IceCandidateInit {
            candidate: name.to_string(),
            sdp_mid: None,
            sdp_mline_index: None,
            username_fragment: None,
        };
        world.happenings.push_back((1, Happening::Message(SignalMessage::Candidate(candidate))));
    }
    world.run();
    assert!(world.candidates[1].is_empty());
    let step = world.peers[0].init();
    world.drive(0, step);
    world.run();
    let names: Vec<&str> = world.candidates[1].iter().map(|c| c.candidate.as_str()).collect();
    assert_eq!(names, ["c0", "c1"]);
}

#[test]
fn the_other_peer_can_ask_for_a_new_offer() {
    let mut world = world();
    let step = world.peers[0].init();
    world.drive(0, step);
    world.run();
    world.told.clear();
    world.happenings.push_back((1, Happening::NegotiationNeeded));
    world.run();
    assert_eq!(
        world.told,
        vec![(1, "Negotiated".to_string()), (0, "Negotiated".to_string())]
    );
}

#[test]
fn a_peer_keeps_its_name_through_a_session() {
    let mut world = world();
    let step = world.peers[0].init();
    world.drive(0, step);
    world.run();
    for side in [0, 1] {
        let step = world.peers[side].close();
        world.drive(side, step);
    }
    assert_eq!(world.peers[0].get_id(), "peer1");
    assert_eq!(world.peers[1].get_id(), "peer2");
    assert_eq!(
        world.told[world.told.len() - 2..],
        [(0, "Close".to_string()), (1, "Close".to_string())]
    );
}
