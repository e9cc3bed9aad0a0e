//! The peer as a mathematical state machine: its state, and the moment that each call leads to.

use vstd::prelude::*;

use std::sync::Arc;

use webrtc::data_channel::data_channel_init::RTCDataChannelInit;
use webrtc::peer_connection::configuration::RTCConfiguration;
use webrtc::peer_connection::offer_answer_options::{RTCAnswerOptions, RTCOfferOptions};

use crate::message::{
    ConnectionState, IceCandidateInit, SdpType, SessionDescription, SignalMessage,
};
use crate::options::PeerOptions;
use crate::step::{Action, Event, PeerError, Purpose, Reply, Sequel, Stage, Step};

verus! {

/// The state of a peer.
#[verifier::ext_equal]
pub struct PeerView<C, D, F> {
    pub id: String,
    /// Whether the peer started the session. The initiator opens the data channel and makes the
    /// offers.
    pub initiator: bool,
    pub connection_config: Arc<RTCConfiguration>,
    pub connection: Option<Arc<C>>,
    pub offer_config: Option<RTCOfferOptions>,
    pub answer_config: Option<RTCAnswerOptions>,
    pub data_channel_name: String,
    pub data_channel: Option<Arc<D>>,
    pub data_channel_config: Option<Arc<RTCDataChannelInit>>,
    /// The candidates that wait for a remote description, in the order in which they came.
    pub pending_candidates: Seq<IceCandidateInit>,
    pub on_signal: Option<Arc<F>>,
    pub on_data: Option<Arc<F>>,
    pub on_connect: Option<Arc<F>>,
    pub on_close: Option<Arc<F>>,
    pub on_negotiated: Option<Arc<F>>,
}

/// The end of a step: the state of the peer, the action that it asks for, and what is left of the
/// procedure.
#[verifier::ext_equal]
pub struct Moment<C, D, F> {
    pub peer: PeerView<C, D, F>,
    pub action: Action<C, D, F>,
    pub stage: Stage<C, D>,
    pub queue: Seq<IceCandidateInit>,
}

impl<C, D, F> Step<C, D, F> {
    /// The moment at which this step leaves a peer in state `peer`.
    pub open spec fn moment(self, peer: PeerView<C, D, F>) -> Moment<C, D, F> {
        Moment { peer, action: self.action, stage: self.task.stage, queue: self.task.queue@ }
    }
}

/// Whether a connection in this state is over.
pub open spec fn is_over(state: ConnectionState) -> bool {
    state is Closed || state is Failed || state is Disconnected
}

impl<C, D, F> PeerView<C, D, F> {
    /// Whether this is the state of a fresh peer that was made with `options`, its names left
    /// aside: it has started nothing, holds nothing and knows no callback.
    pub open spec fn made_with(self, options: PeerOptions) -> bool {
        &&& !self.initiator
        &&& match options.connection_config {
            Some(config) => *self.connection_config == config,
            None => call_ensures(RTCConfiguration::default, (), *self.connection_config),
        }
        &&& self.connection is None
        &&& self.offer_config == options.offer_config
        &&& self.answer_config == options.answer_config
        &&& self.data_channel is None
        &&& match options.data_channel_config {
            Some(config) => self.data_channel_config is Some && *self.data_channel_config->0
                == config,
            None => self.data_channel_config is None,
        }
        &&& self.pending_candidates == Seq::<IceCandidateInit>::empty()
        &&& self.on_signal is None
        &&& self.on_data is None
        &&& self.on_connect is None
        &&& self.on_close is None
        &&& self.on_negotiated is None
    }

    /// Asks for `action`, with no candidates queued.
    pub open spec fn at(self, action: Action<C, D, F>, stage: Stage<C, D>) -> Moment<C, D, F> {
        Moment { peer: self, action, stage, queue: Seq::empty() }
    }

    /// Ends the procedure.
    pub open spec fn finish(self, result: Result<(), PeerError>) -> Moment<C, D, F> {
        self.at(Action::Finish { result }, Stage::Finished)
    }

    /// The callback that is told of `event`.
    pub open spec fn callback_for(self, event: Event) -> Option<Arc<F>> {
        match event {
            Event::Signal(_) => self.on_signal,
            Event::Data(_) => self.on_data,
            Event::Connect => self.on_connect,
            Event::Close => self.on_close,
            Event::Negotiated => self.on_negotiated,
        }
    }

    /// Tells the callback for `event` of it, if there is one, and ends the procedure.
    pub open spec fn notify(self, event: Event) -> Moment<C, D, F> {
        match self.callback_for(event) {
            Some(callback) => self.at(
                Action::Notify { callback, event },
                Stage::Notifying(Sequel::Finish),
            ),
            None => self.finish(Ok(())),
        }
    }

    /// Goes on after the signal callback.
    pub open spec fn signalled(self, sequel: Sequel) -> Moment<C, D, F> {
        match sequel {
            Sequel::Finish => self.finish(Ok(())),
            Sequel::Negotiated => self.notify(Event::Negotiated),
        }
    }

    /// Hands `message` to the signal callback, if there is one, and goes on.
    pub open spec fn signal_out(self, message: SignalMessage, sequel: Sequel) -> Moment<C, D, F> {
        match self.on_signal {
            Some(callback) => self.at(
                Action::Notify { callback, event: Event::Signal(message) },
                Stage::Notifying(sequel),
            ),
            None => self.signalled(sequel),
        }
    }

    /// Sets the connection up: opens one unless there is one, and observes it.
    pub open spec fn create_peer(self, purpose: Purpose) -> Moment<C, D, F> {
        match self.connection {
            Some(connection) => self.at(
                Action::Observe { connection },
                Stage::Observing(connection, purpose),
            ),
            None => self.at(
                Action::NewConnection { connection_config: self.connection_config },
                Stage::Opening(purpose),
            ),
        }
    }

    /// Goes on when the connection is set up.
    pub open spec fn peer_created(self, purpose: Purpose) -> Moment<C, D, F> {
        match purpose {
            Purpose::Init => self.finish(Ok(())),
            Purpose::Signal(message) => self.handle(message),
        }
    }

    /// Makes this peer the initiator and sets the connection up.
    pub open spec fn init(self) -> Moment<C, D, F> {
        PeerView { initiator: true, ..self }.create_peer(Purpose::Init)
    }

    /// Handles a message of the other peer, once there is a connection.
    pub open spec fn signal(self, message: SignalMessage) -> Moment<C, D, F> {
        if self.connection is None {
            self.create_peer(Purpose::Signal(message))
        } else {
            self.handle(message)
        }
    }

    /// Handles a message of the other peer.
    pub open spec fn handle(self, message: SignalMessage) -> Moment<C, D, F> {
        match message {
            SignalMessage::Renegotiate => self.negotiate(),
            SignalMessage::Candidate(candidate) => match self.connection {
                Some(connection) => self.at(
                    Action::QueryRemoteDescription { connection },
                    Stage::Querying(connection, candidate),
                ),
                None => self.put_off(candidate),
            },
            SignalMessage::Answer(description)
            | SignalMessage::Offer(description)
            | SignalMessage::Pranswer(description)
            | SignalMessage::Rollback(description) => self.handle_session_description(description),
        }
    }

    /// Lets a candidate wait for a remote description.
    pub open spec fn put_off(self, candidate: IceCandidateInit) -> Moment<C, D, F> {
        PeerView {
            pending_candidates: self.pending_candidates.push(candidate),
            ..self
        }.finish(Ok(()))
    }

    /// Applies a session description of the other peer.
    pub open spec fn handle_session_description(
        self,
        description: SessionDescription,
    ) -> Moment<C, D, F> {
        match self.connection {
            Some(connection) => self.at(
                Action::SetRemoteDescription { connection, description },
                Stage::SettingRemote(connection, description.sdp_type),
            ),
            None => self.finish(Err(PeerError::ConnectionClosed)),
        }
    }

    /// Adds the candidates of `queue` one by one, then answers an offer.
    pub open spec fn drain(
        self,
        connection: Arc<C>,
        kind: SdpType,
        queue: Seq<IceCandidateInit>,
    ) -> Moment<C, D, F> {
        if queue.len() == 0 {
            self.described(kind)
        } else {
            Moment {
                peer: self,
                action: Action::AddIceCandidate { connection, candidate: queue[0] },
                stage: Stage::Draining(connection, kind),
                queue: queue.drop_first(),
            }
        }
    }

    /// Goes on when a description of this kind is applied and no candidate waits any more.
    pub open spec fn described(self, kind: SdpType) -> Moment<C, D, F> {
        if kind is Offer {
            self.create_answer()
        } else {
            self.notify(Event::Negotiated)
        }
    }

    /// Answers an offer.
    pub open spec fn create_answer(self) -> Moment<C, D, F> {
        match self.connection {
            Some(connection) => self.at(
                Action::CreateAnswer { connection, answer_config: self.answer_config },
                Stage::CreatingAnswer(connection),
            ),
            None => self.notify(Event::Negotiated),
        }
    }

    /// Makes an offer, if there is a connection.
    pub open spec fn create_offer(self) -> Moment<C, D, F> {
        match self.connection {
            Some(connection) => self.at(
                Action::CreateOffer { connection, offer_config: self.offer_config },
                Stage::CreatingOffer(connection),
            ),
            None => self.finish(Ok(())),
        }
    }

    /// Negotiates: the initiator makes an offer, the other peer asks for one.
    pub open spec fn negotiate(self) -> Moment<C, D, F> {
        if self.initiator {
            self.create_offer()
        } else {
            self.signal_out(SignalMessage::Renegotiate, Sequel::Finish)
        }
    }

    /// Hands a gathered candidate to the other peer.
    pub open spec fn candidate_gathered(
        self,
        json: Result<IceCandidateInit, webrtc::Error>,
    ) -> Moment<C, D, F> {
        match json {
            Ok(candidate) => self.signal_out(SignalMessage::Candidate(candidate), Sequel::Finish),
            Err(error) => self.finish(Err(PeerError::Transport(error))),
        }
    }

    /// Observes a data channel that the other side opened.
    pub open spec fn on_data_channel(self, channel: Arc<D>) -> Moment<C, D, F> {
        self.at(Action::ObserveChannel { channel }, Stage::ObservingChannel(channel, None))
    }

    /// Closes the data channel, then the connection, and tells of it if `emit`.
    pub open spec fn close(self, emit: bool) -> Moment<C, D, F> {
        match self.data_channel {
            Some(channel) => PeerView { data_channel: None, ..self }.at(
                Action::CloseChannel { channel },
                Stage::ClosingChannel(emit),
            ),
            None => self.close_connection(emit),
        }
    }

    /// Closes the connection, and tells of it if `emit`.
    pub open spec fn close_connection(self, emit: bool) -> Moment<C, D, F> {
        match self.connection {
            Some(connection) => PeerView { connection: None, ..self }.at(
                Action::CloseConnection { connection },
                Stage::ClosingConnection(emit),
            ),
            None => self.closed(emit),
        }
    }

    /// Tells that the peer was closed, if `emit`.
    pub open spec fn closed(self, emit: bool) -> Moment<C, D, F> {
        if emit {
            self.notify(Event::Close)
        } else {
            self.finish(Ok(()))
        }
    }

    /// Goes on when the action under way has had its reply.
    pub open spec fn resume(
        self,
        stage: Stage<C, D>,
        queue: Seq<IceCandidateInit>,
        reply: Reply<C, D>,
    ) -> Moment<C, D, F>
        recommends
            stage.awaits(reply),
    {
        match (stage, reply) {
            (_, Reply::Failed(error)) => self.finish(Err(PeerError::Transport(error))),
            (Stage::Opening(purpose), Reply::Connection(opened)) => {
                let connection = crate::atomic_option::filled(self.connection, opened);
                PeerView { connection, ..self }.create_peer(purpose)
            },
            (Stage::Observing(connection, purpose), _) => if self.initiator {
                self.at(
                    Action::CreateDataChannel {
                        connection,
                        name: self.data_channel_name,
                        data_channel_config: self.data_channel_config,
                    },
                    Stage::CreatingChannel(purpose),
                )
            } else {
                self.at(Action::Listen { connection }, Stage::Listening(purpose))
            },
            (Stage::Listening(purpose), _) => self.peer_created(purpose),
            (Stage::CreatingChannel(purpose), Reply::Channel(channel)) => self.at(
                Action::ObserveChannel { channel },
                Stage::ObservingChannel(channel, Some(purpose)),
            ),
            (Stage::ObservingChannel(channel, purpose), _) => {
                let peer = PeerView { data_channel: Some(channel), ..self };
                match purpose {
                    Some(purpose) => peer.peer_created(purpose),
                    None => peer.finish(Ok(())),
                }
            },
            (Stage::Querying(connection, candidate), Reply::RemoteDescription(true)) => self.at(
                Action::AddIceCandidate { connection, candidate },
                Stage::Adding,
            ),
            (Stage::Querying(_, candidate), Reply::RemoteDescription(false)) => self.put_off(
                candidate,
            ),
            (Stage::Adding, _) => self.finish(Ok(())),
            (Stage::SettingRemote(connection, kind), _) => PeerView {
                pending_candidates: Seq::empty(),
                ..self
            }.drain(connection, kind, self.pending_candidates),
            (Stage::Draining(connection, kind), _) => self.drain(connection, kind, queue),
            (Stage::CreatingOffer(connection), Reply::Description(description)) => self.at(
                Action::SetLocalDescription { connection, description },
                Stage::SettingOffer(description),
            ),
            (Stage::SettingOffer(description), _) => self.signal_out(
                SignalMessage::Offer(description),
                Sequel::Finish,
            ),
            (Stage::CreatingAnswer(connection), Reply::Description(description)) => self.at(
                Action::SetLocalDescription { connection, description },
                Stage::SettingAnswer(description),
            ),
            (Stage::SettingAnswer(description), _) => self.signal_out(
                SignalMessage::Answer(description),
                Sequel::Negotiated,
            ),
            (Stage::Notifying(sequel), _) => self.signalled(sequel),
            (Stage::ClosingChannel(emit), _) => self.close_connection(emit),
            (Stage::ClosingConnection(emit), _) => self.closed(emit),
            _ => self.finish(Ok(())),
        }
    }
}

}
