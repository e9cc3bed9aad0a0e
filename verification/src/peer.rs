//! The peer.

use vstd::prelude::*;

use std::sync::atomic::Ordering;
use std::sync::Arc;

use webrtc::data_channel::data_channel_init::RTCDataChannelInit;
use webrtc::peer_connection::configuration::RTCConfiguration;
use webrtc::peer_connection::offer_answer_options::{RTCAnswerOptions, RTCOfferOptions};

use crate::atomic_option::AtomicOption;
use crate::message::{
    ConnectionState, IceCandidate, IceCandidateInit, SdpType, SessionDescription, SignalMessage,
};
use crate::options::PeerOptions;
use crate::outside::{random_uuid, share, to_json};
use crate::protocol::PeerView;
use crate::step::{Action, Event, PeerError, Purpose, Reply, Sequel, Stage, Step, Task};

verus! {

/// What a peer holds.
pub struct PeerInner<C, D, F> {
    id: String,
    initiator: bool,
    connection_config: Arc<RTCConfiguration>,
    connection: AtomicOption<Arc<C>>,
    offer_config: Option<RTCOfferOptions>,
    answer_config: Option<RTCAnswerOptions>,
    data_channel_name: String,
    data_channel: AtomicOption<Arc<D>>,
    data_channel_config: Option<Arc<RTCDataChannelInit>>,
    pending_candidates: Vec<IceCandidateInit>,
    on_signal: Option<Arc<F>>,
    on_data: Option<Arc<F>>,
    on_connect: Option<Arc<F>>,
    on_close: Option<Arc<F>>,
    on_negotiated: Option<Arc<F>>,
}

/// One side of a session.
///
/// A method that starts a procedure returns its first step; [`Peer::resume`] returns the others.
/// Procedures may overlap: each has a task of its own, and between two of its steps any other
/// method may be called.
pub struct Peer<C, D, F> {
    inner: PeerInner<C, D, F>,
}

impl<C, D, F> View for Peer<C, D, F> {
    type V = PeerView<C, D, F>;

    closed spec fn view(&self) -> PeerView<C, D, F> {
        PeerView {
            id: self.inner.id,
            initiator: self.inner.initiator,
            connection_config: self.inner.connection_config,
            connection: self.inner.connection@,
            offer_config: self.inner.offer_config,
            answer_config: self.inner.answer_config,
            data_channel_name: self.inner.data_channel_name,
            data_channel: self.inner.data_channel@,
            data_channel_config: self.inner.data_channel_config,
            pending_candidates: self.inner.pending_candidates@,
            on_signal: self.inner.on_signal,
            on_data: self.inner.on_data,
            on_connect: self.inner.on_connect,
            on_close: self.inner.on_close,
            on_negotiated: self.inner.on_negotiated,
        }
    }
}

/// A step that asks for `action`, with no candidates queued.
fn at<C, D, F>(action: Action<C, D, F>, stage: Stage<C, D>) -> (step: Step<C, D, F>)
    ensures
        step.action == action,
        step.task.stage == stage,
        step.task.queue@ == Seq::<IceCandidateInit>::empty(),
{
    Step { action, task: Task { stage, queue: Vec::new() } }
}

/// The step that ends a procedure.
fn finish<C, D, F>(result: Result<(), PeerError>) -> (step: Step<C, D, F>)
    ensures
        step.action == (Action::<C, D, F>::Finish { result }),
        step.task.stage == Stage::<C, D>::Finished,
        step.task.queue@ == Seq::<IceCandidateInit>::empty(),
{
    at(Action::Finish { result }, Stage::Finished)
}

/// Another handle like the one in `handle`, if there is one.
fn share_option<T>(handle: &Option<Arc<T>>) -> (other: Option<Arc<T>>)
    ensures
        other == *handle,
{
    match handle {
        Some(pointer) => Some(share(pointer)),
        None => None,
    }
}

/// The last step of a procedure: a call of `callback`, if there is one.
fn notify<C, D, F>(callback: &Option<Arc<F>>, event: Event) -> (step: Step<C, D, F>)
    ensures
        match *callback {
            Some(callback) => {
                &&& step.action == (Action::<C, D, F>::Notify { callback, event })
                &&& step.task.stage == Stage::<C, D>::Notifying(Sequel::Finish)
            },
            None => {
                &&& step.action == (Action::<C, D, F>::Finish { result: Ok(()) })
                &&& step.task.stage == Stage::<C, D>::Finished
            },
        },
        step.task.queue@ == Seq::<IceCandidateInit>::empty(),
{
    match callback {
        Some(callback) => at(
            Action::Notify { callback: share(callback), event },
            Stage::Notifying(Sequel::Finish),
        ),
        None => finish(Ok(())),
    }
}

impl<C, D, F> Peer<C, D, F> {
    /// A peer made with `options`, whose id and data channel name are random UUIDs unless the
    /// options give them.
    pub fn new(options: PeerOptions) -> (peer: Self)
        ensures
            match options.id {
                Some(id) => peer@.id == id,
                None => crate::outside::is_uuid_v4(peer@.id@),
            },
            match options.data_channel_name {
                Some(name) => peer@.data_channel_name == name,
                None => crate::outside::is_uuid_v4(peer@.data_channel_name@),
            },
            peer@.made_with(options),
            !peer@.initiator,
            match options.connection_config {
                Some(config) => *peer@.connection_config == config,
                None => call_ensures(RTCConfiguration::default, (), *peer@.connection_config),
            },
            peer@.offer_config == options.offer_config,
            peer@.answer_config == options.answer_config,
            peer@.data_channel_config is Some <==> options.data_channel_config is Some,
            options.data_channel_config is Some ==> *peer@.data_channel_config->0
                == options.data_channel_config->0,
            peer@.connection is None && peer@.data_channel is None,
            peer@.pending_candidates.len() == 0,
            peer@.on_signal is None && peer@.on_data is None && peer@.on_connect is None,
            peer@.on_close is None && peer@.on_negotiated is None,
    {
        let mut options = options;
        let id = match options.id.take() {
            Some(id) => id,
            None => random_uuid(),
        };
        let data_channel_name = match options.data_channel_name.take() {
            Some(name) => name,
            None => random_uuid(),
        };
        Peer::with_names(id, data_channel_name, options)
    }

    /// A peer with this id and this data channel name, made with the other options.
    pub fn with_names(id: String, data_channel_name: String, options: PeerOptions) -> (peer: Self)
        ensures
            peer@.id == id,
            peer@.data_channel_name == data_channel_name,
            peer@.made_with(options),
            !peer@.initiator,
            match options.connection_config {
                Some(config) => *peer@.connection_config == config,
                None => call_ensures(RTCConfiguration::default, (), *peer@.connection_config),
            },
            peer@.offer_config == options.offer_config,
            peer@.answer_config == options.answer_config,
            peer@.data_channel_config is Some <==> options.data_channel_config is Some,
            options.data_channel_config is Some ==> *peer@.data_channel_config->0
                == options.data_channel_config->0,
            peer@.connection is None && peer@.data_channel is None,
            peer@.pending_candidates.len() == 0,
            peer@.on_signal is None && peer@.on_data is None && peer@.on_connect is None,
            peer@.on_close is None && peer@.on_negotiated is None,
    {
        Peer {
            inner: PeerInner {
                id,
                initiator: false,
                connection_config: Arc::new(options.connection_config.unwrap_or_default()),
                connection: AtomicOption::none(),
                offer_config: options.offer_config,
                answer_config: options.answer_config,
                data_channel_name,
                data_channel: AtomicOption::none(),
                data_channel_config: match options.data_channel_config {
                    Some(config) => Some(Arc::new(config)),
                    None => None,
                },
                pending_candidates: Vec::new(),
                on_signal: None,
                on_data: None,
                on_connect: None,
                on_close: None,
                on_negotiated: None,
            },
        }
    }

    /// The id of the peer.
    pub fn get_id(&self) -> (id: &str)
        ensures
            id@ == self@.id@,
    {
        self.inner.id.as_str()
    }

    /// The data channel, once there is one.
    pub fn get_data_channel(&self) -> (channel: Option<Arc<D>>)
        ensures
            channel == self@.data_channel,
    {
        match self.inner.data_channel.as_ref(Ordering::Relaxed) {
            Some(channel) => Some(share(channel)),
            None => None,
        }
    }

    /// The connection, while there is one.
    pub fn get_connection(&self) -> (connection: Option<&Arc<C>>)
        ensures
            connection == (match self@.connection {
                Some(connection) => Some(&connection),
                None => None,
            }),
    {
        self.inner.connection.as_ref(Ordering::Relaxed)
    }

    /// Makes `callback` the one that gets the messages for the other peer.
    pub fn on_signal(&mut self, callback: Arc<F>)
        ensures
            final(self)@ == (PeerView { on_signal: Some(callback), ..old(self)@ }),
    {
        self.inner.on_signal = Some(callback);
    }

    /// Makes `callback` the one that gets the data of the data channel.
    pub fn on_data(&mut self, callback: Arc<F>)
        ensures
            final(self)@ == (PeerView { on_data: Some(callback), ..old(self)@ }),
    {
        self.inner.on_data = Some(callback);
    }

    /// Makes `callback` the one that is told when the data channel opens.
    pub fn on_connect(&mut self, callback: Arc<F>)
        ensures
            final(self)@ == (PeerView { on_connect: Some(callback), ..old(self)@ }),
    {
        self.inner.on_connect = Some(callback);
    }

    /// Makes `callback` the one that is told when the peer is closed.
    pub fn on_close(&mut self, callback: Arc<F>)
        ensures
            final(self)@ == (PeerView { on_close: Some(callback), ..old(self)@ }),
    {
        self.inner.on_close = Some(callback);
    }

    /// Makes `callback` the one that is told when a session description was applied.
    pub fn on_negotiated(&mut self, callback: Arc<F>)
        ensures
            final(self)@ == (PeerView { on_negotiated: Some(callback), ..old(self)@ }),
    {
        self.inner.on_negotiated = Some(callback);
    }

    /// Starts the session from this side: the peer becomes the initiator, opens a connection and a
    /// data channel.
    pub fn init(&mut self) -> (step: Step<C, D, F>)
        ensures
            step.moment(final(self)@) == old(self)@.init(),
    {
        self.inner.initiator = true;
        self.create_peer(Purpose::Init)
    }

    /// Handles a message of the other peer. A peer without a connection opens one first.
    pub fn signal(&mut self, message: SignalMessage) -> (step: Step<C, D, F>)
        ensures
            step.moment(final(self)@) == old(self)@.signal(message),
    {
        if self.inner.connection.is_none(Ordering::Relaxed) {
            self.create_peer(Purpose::Signal(message))
        } else {
            self.handle(message)
        }
    }

    /// Closes the data channel and the connection.
    pub fn close(&mut self) -> (step: Step<C, D, F>)
        ensures
            step.moment(final(self)@) == old(self)@.close(true),
    {
        self.internal_close(true)
    }

    /// The connection needs a negotiation.
    pub fn on_negotiation_needed(&self) -> (step: Step<C, D, F>)
        ensures
            step.moment(self@) == self@.negotiate(),
    {
        self.negotiate()
    }

    /// The connection is in a new state. The peer is closed if the connection is over.
    pub fn on_peer_connection_state_change(&mut self, state: ConnectionState) -> (step: Step<
        C,
        D,
        F,
    >)
        ensures
            step.moment(final(self)@) == if state is Closed || state is Failed || state is Disconnected {
                old(self)@.close(true)
            } else {
                old(self)@.finish(Ok(()))
            },
    {
        match state {
            ConnectionState::Closed | ConnectionState::Failed | ConnectionState::Disconnected =>
                self.internal_close(true),
            _ => finish(Ok(())),
        }
    }

    /// The connection has gathered a candidate, or, with `None`, has no more.
    pub fn on_ice_candidate(&self, candidate: Option<IceCandidate>) -> (step: Step<C, D, F>)
        requires
            candidate is Some ==> crate::outside::has_priority(candidate->0@),
        ensures
            match candidate {
                Some(candidate) => exists|json: Result<IceCandidateInit, webrtc::Error>|
                    {
                        &&& crate::outside::is_json_of(
                            crate::outside::candidate_attribute(candidate@),
                            json,
                        )
                        &&& candidate.typ is Unspecified ==> json is Err
                        &&& step.moment(self@) == #[trigger] self@.candidate_gathered(
                            json,
                        )
                    },
                None => step.moment(self@) == self@.finish(Ok(())),
            },
    {
        match candidate {
            Some(candidate) => {
                let json = to_json(candidate);
                self.candidate_gathered(json)
            },
            None => finish(Ok(())),
        }
    }

    /// Hands a gathered candidate in its JSON form to the other peer.
    pub fn candidate_gathered(&self, json: Result<IceCandidateInit, webrtc::Error>) -> (step:
        Step<C, D, F>)
        ensures
            step.moment(self@) == self@.candidate_gathered(json),
    {
        match json {
            Ok(candidate) => self.internal_on_signal(
                SignalMessage::Candidate(candidate),
                Sequel::Finish,
            ),
            Err(error) => finish(Err(PeerError::Transport(error))),
        }
    }

    /// The other side has opened a data channel.
    pub fn on_data_channel(&self, channel: Arc<D>) -> (step: Step<C, D, F>)
        ensures
            step.moment(self@) == self@.on_data_channel(channel),
    {
        self.observe_channel(channel, None)
    }

    /// The data channel is open.
    pub fn on_data_channel_open(&self) -> (step: Step<C, D, F>)
        ensures
            step.moment(self@) == self@.notify(Event::Connect),
    {
        self.internal_on_connect()
    }

    /// Data came over the data channel.
    pub fn on_data_channel_message(&self, data: Vec<u8>) -> (step: Step<C, D, F>)
        ensures
            step.moment(self@) == self@.notify(Event::Data(data)),
    {
        self.internal_on_data(data)
    }

    /// The data channel has failed. No callback is told.
    pub fn on_data_channel_error(&self, error: webrtc::Error) -> (step: Step<C, D, F>)
        ensures
            step.moment(self@) == self@.finish(Err(PeerError::Transport(error))),
    {
        finish(Err(PeerError::Transport(error)))
    }

    /// Goes on with a procedure whose action has had its reply.
    pub fn resume(&mut self, task: Task<C, D>, reply: Reply<C, D>) -> (step: Step<C, D, F>)
        requires
            task.stage.awaits(reply),
        ensures
            step.moment(final(self)@) == old(self)@.resume(task.stage, task.queue@, reply),
    {
        match (task.stage, reply) {
            (_, Reply::Failed(error)) => finish(Err(PeerError::Transport(error))),
            (Stage::Opening(purpose), Reply::Connection(opened)) => {
                let handle = &opened;
                let open = || -> (connection: Arc<C>)
                    ensures
                        (connection == *handle),
                    { share(handle) };
                self.inner.connection.get_or_store_with(Ordering::SeqCst, Ordering::SeqCst, open);
                self.create_peer(purpose)
            },
            (Stage::Observing(connection, purpose), _) => if self.inner.initiator {
                at(
                    Action::CreateDataChannel {
                        connection,
                        name: self.inner.data_channel_name.clone(),
                        data_channel_config: share_option(&self.inner.data_channel_config),
                    },
                    Stage::CreatingChannel(purpose),
                )
            } else {
                at(Action::Listen { connection }, Stage::Listening(purpose))
            },
            (Stage::Listening(purpose), _) => self.peer_created(purpose),
            (Stage::CreatingChannel(purpose), Reply::Channel(channel)) => self.observe_channel(
                channel,
                Some(purpose),
            ),
            (Stage::ObservingChannel(channel, purpose), _) => {
                self.inner.data_channel.store(Ordering::Relaxed, channel);
                match purpose {
                    Some(purpose) => self.peer_created(purpose),
                    None => finish(Ok(())),
                }
            },
            (Stage::Querying(connection, candidate), Reply::RemoteDescription(true)) => at(
                Action::AddIceCandidate { connection, candidate },
                Stage::Adding,
            ),
            (Stage::Querying(_, candidate), Reply::RemoteDescription(false)) => self.put_off(
                candidate,
            ),
            (Stage::Adding, _) => finish(Ok(())),
            (Stage::SettingRemote(connection, kind), _) => {
                let mut queue: Vec<IceCandidateInit> = Vec::new();
                queue.append(&mut self.inner.pending_candidates);
                self.drain(connection, kind, queue)
            },
            (Stage::Draining(connection, kind), _) => self.drain(connection, kind, task.queue),
            (Stage::CreatingOffer(connection), Reply::Description(description)) => at(
                Action::SetLocalDescription { connection, description: description.clone() },
                Stage::SettingOffer(description),
            ),
            (Stage::SettingOffer(description), _) => self.internal_on_signal(
                SignalMessage::Offer(description),
                Sequel::Finish,
            ),
            (Stage::CreatingAnswer(connection), Reply::Description(description)) => at(
                Action::SetLocalDescription { connection, description: description.clone() },
                Stage::SettingAnswer(description),
            ),
            (Stage::SettingAnswer(description), _) => self.internal_on_signal(
                SignalMessage::Answer(description),
                Sequel::Negotiated,
            ),
            (Stage::Notifying(sequel), _) => self.signalled(sequel),
            (Stage::ClosingChannel(emit), _) => self.close_connection(emit),
            (Stage::ClosingConnection(emit), _) => self.closed(emit),
            _ => finish(Ok(())),
        }
    }

    fn create_peer(&self, purpose: Purpose) -> (step: Step<C, D, F>)
        ensures
            step.moment(self@) == self@.create_peer(purpose),
    {
        match self.inner.connection.as_ref(Ordering::SeqCst) {
            Some(connection) => at(
                Action::Observe { connection: share(connection) },
                Stage::Observing(share(connection), purpose),
            ),
            None => at(
                Action::NewConnection { connection_config: share(&self.inner.connection_config) },
                Stage::Opening(purpose),
            ),
        }
    }

    fn peer_created(&mut self, purpose: Purpose) -> (step: Step<C, D, F>)
        ensures
            step.moment(final(self)@) == old(self)@.peer_created(purpose),
    {
        match purpose {
            Purpose::Init => finish(Ok(())),
            Purpose::Signal(message) => self.handle(message),
        }
    }

    fn observe_channel(&self, channel: Arc<D>, purpose: Option<Purpose>) -> (step: Step<
        C,
        D,
        F,
    >)
        ensures
            step.moment(self@) == self@.at(
                Action::ObserveChannel { channel },
                Stage::ObservingChannel(channel, purpose),
            ),
    {
        at(
            Action::ObserveChannel { channel: share(&channel) },
            Stage::ObservingChannel(channel, purpose),
        )
    }

    fn handle(&mut self, message: SignalMessage) -> (step: Step<C, D, F>)
        ensures
            step.moment(final(self)@) == old(self)@.handle(message),
    {
        match message {
            SignalMessage::Renegotiate => self.negotiate(),
            SignalMessage::Candidate(candidate) => {
                match self.inner.connection.as_ref(Ordering::Relaxed) {
                    Some(connection) => at(
                        Action::QueryRemoteDescription { connection: share(connection) },
                        Stage::Querying(share(connection), candidate),
                    ),
                    None => self.put_off(candidate),
                }
            },
            SignalMessage::Answer(answer) => self.handle_session_description(answer),
            SignalMessage::Offer(offer) => self.handle_session_description(offer),
            SignalMessage::Pranswer(pranswer) => self.handle_session_description(pranswer),
            SignalMessage::Rollback(rollback) => self.handle_session_description(rollback),
        }
    }

    fn put_off(&mut self, candidate: IceCandidateInit) -> (step: Step<C, D, F>)
        ensures
            step.moment(final(self)@) == old(self)@.put_off(candidate),
    {
        self.inner.pending_candidates.push(candidate);
        finish(Ok(()))
    }

    fn handle_session_description(&self, description: SessionDescription) -> (step: Step<
        C,
        D,
        F,
    >)
        ensures
            step.moment(self@) == self@.handle_session_description(description),
    {
        match self.inner.connection.as_ref(Ordering::Relaxed) {
            Some(connection) => {
                let kind: SdpType = description.sdp_type;
                at(
                    Action::SetRemoteDescription { connection: share(connection), description },
                    Stage::SettingRemote(share(connection), kind),
                )
            },
            None => finish(Err(PeerError::ConnectionClosed)),
        }
    }

    fn drain(&self, connection: Arc<C>, kind: SdpType, queue: Vec<IceCandidateInit>) -> (step:
        Step<C, D, F>)
        ensures
            step.moment(self@) == self@.drain(connection, kind, queue@),
    {
        let mut queue = queue;
        if queue.len() == 0 {
            self.described(kind)
        } else {
            let candidate = queue.remove(0);
            Step {
                action: Action::AddIceCandidate { connection: share(&connection), candidate },
                task: Task { stage: Stage::Draining(connection, kind), queue },
            }
        }
    }

    fn described(&self, kind: SdpType) -> (step: Step<C, D, F>)
        ensures
            step.moment(self@) == self@.described(kind),
    {
        if kind == SdpType::Offer {
            self.create_answer()
        } else {
            self.internal_on_negotiated()
        }
    }

    fn create_offer(&self) -> (step: Step<C, D, F>)
        ensures
            step.moment(self@) == self@.create_offer(),
    {
        match self.inner.connection.as_ref(Ordering::Relaxed) {
            Some(connection) => at(
                Action::CreateOffer {
                    connection: share(connection),
                    offer_config: self.inner.offer_config,
                },
                Stage::CreatingOffer(share(connection)),
            ),
            None => finish(Ok(())),
        }
    }

    fn create_answer(&self) -> (step: Step<C, D, F>)
        ensures
            step.moment(self@) == self@.create_answer(),
    {
        match self.inner.connection.as_ref(Ordering::Relaxed) {
            Some(connection) => at(
                Action::CreateAnswer {
                    connection: share(connection),
                    answer_config: self.inner.answer_config,
                },
                Stage::CreatingAnswer(share(connection)),
            ),
            None => self.internal_on_negotiated(),
        }
    }

    fn negotiate(&self) -> (step: Step<C, D, F>)
        ensures
            step.moment(self@) == self@.negotiate(),
    {
        if self.inner.initiator {
            self.create_offer()
        } else {
            self.internal_on_signal(SignalMessage::Renegotiate, Sequel::Finish)
        }
    }

    fn internal_close(&mut self, emit: bool) -> (step: Step<C, D, F>)
        ensures
            step.moment(final(self)@) == old(self)@.close(emit),
    {
        match self.inner.data_channel.take(Ordering::SeqCst) {
            Some(channel) => at(Action::CloseChannel { channel }, Stage::ClosingChannel(emit)),
            None => self.close_connection(emit),
        }
    }

    fn close_connection(&mut self, emit: bool) -> (step: Step<C, D, F>)
        ensures
            step.moment(final(self)@) == old(self)@.close_connection(emit),
    {
        match self.inner.connection.take(Ordering::SeqCst) {
            Some(connection) => at(
                Action::CloseConnection { connection },
                Stage::ClosingConnection(emit),
            ),
            None => self.closed(emit),
        }
    }

    fn closed(&self, emit: bool) -> (step: Step<C, D, F>)
        ensures
            step.moment(self@) == self@.closed(emit),
    {
        if emit {
            self.internal_on_close()
        } else {
            finish(Ok(()))
        }
    }

    fn internal_on_signal(&self, message: SignalMessage, sequel: Sequel) -> (step: Step<C, D, F>)
        ensures
            step.moment(self@) == self@.signal_out(message, sequel),
    {
        match &self.inner.on_signal {
            Some(callback) => at(
                Action::Notify { callback: share(callback), event: Event::Signal(message) },
                Stage::Notifying(sequel),
            ),
            None => self.signalled(sequel),
        }
    }

    fn signalled(&self, sequel: Sequel) -> (step: Step<C, D, F>)
        ensures
            step.moment(self@) == self@.signalled(sequel),
    {
        match sequel {
            Sequel::Finish => finish(Ok(())),
            Sequel::Negotiated => self.internal_on_negotiated(),
        }
    }

    fn internal_on_data(&self, data: Vec<u8>) -> (step: Step<C, D, F>)
        ensures
            step.moment(self@) == self@.notify(Event::Data(data)),
    {
        notify(&self.inner.on_data, Event::Data(data))
    }

    fn internal_on_connect(&self) -> (step: Step<C, D, F>)
        ensures
            step.moment(self@) == self@.notify(Event::Connect),
    {
        notify(&self.inner.on_connect, Event::Connect)
    }

    fn internal_on_close(&self) -> (step: Step<C, D, F>)
        ensures
            step.moment(self@) == self@.notify(Event::Close),
    {
        notify(&self.inner.on_close, Event::Close)
    }

    fn internal_on_negotiated(&self) -> (step: Step<C, D, F>)
        ensures
            step.moment(self@) == self@.notify(Event::Negotiated),
    {
        notify(&self.inner.on_negotiated, Event::Negotiated)
    }
}

}
