//! What each single step does, whatever other calls have done to the peer since the step before.
//!
//! Every law here names the action that is asked for, what is left of the procedure and the state
//! of the peer, for every state in which the step can find it.

use vstd::prelude::*;

use std::sync::Arc;

use crate::message::{
    ConnectionState, IceCandidateInit, SdpType, SessionDescription, SignalMessage,
};
use crate::protocol::{Moment, PeerView};
use crate::step::{Action, Event, PeerError, Purpose, Reply, Sequel, Stage, Step};

verus! {

/// The moment at which `peer` has asked for `action` and no candidate is queued.
pub open spec fn asking<C, D, F>(
    peer: PeerView<C, D, F>,
    action: Action<C, D, F>,
    stage: Stage<C, D>,
) -> Moment<C, D, F> {
    Moment { peer, action, stage, queue: Seq::empty() }
}

/// The moment at which a procedure of `peer` is over with `result`.
pub open spec fn ended<C, D, F>(
    peer: PeerView<C, D, F>,
    result: Result<(), PeerError>,
) -> Moment<C, D, F> {
    Moment { peer, action: Action::Finish { result }, stage: Stage::Finished, queue: Seq::empty() }
}

/// The moment at which `peer` has called `callback` as the last thing that a procedure does, or,
/// without a callback, the end of the procedure.
pub open spec fn telling<C, D, F>(
    peer: PeerView<C, D, F>,
    callback: Option<Arc<F>>,
    event: Event,
) -> Moment<C, D, F> {
    match callback {
        Some(callback) => asking(
            peer,
            Action::Notify { callback, event },
            Stage::Notifying(Sequel::Finish),
        ),
        None => ended(peer, Ok(())),
    }
}

/// The moment of a step is its action, its stage and its queue, beside the state of the peer.
pub proof fn law_moment<C, D, F>(step: Step<C, D, F>, peer: PeerView<C, D, F>)
    ensures
        step.moment(peer).peer == peer,
        step.moment(peer).action == step.action,
        step.moment(peer).stage == step.task.stage,
        step.moment(peer).queue == step.task.queue@,
{
}

/// The replies that each stage can go on with, and no others.
pub proof fn law_replies<C, D>(stage: Stage<C, D>, reply: Reply<C, D>)
    ensures
        stage is Opening ==> (stage.awaits(reply) <==> reply is Connection),
        stage is Observing ==> (stage.awaits(reply) <==> reply is Done),
        stage is Listening ==> (stage.awaits(reply) <==> reply is Done),
        stage is ObservingChannel ==> (stage.awaits(reply) <==> reply is Done),
        stage is Notifying ==> (stage.awaits(reply) <==> reply is Done),
        stage is CreatingChannel ==> (stage.awaits(reply) <==> reply is Channel || reply is Failed),
        stage is Querying ==> (stage.awaits(reply) <==> reply is RemoteDescription),
        stage is CreatingOffer || stage is CreatingAnswer ==> (stage.awaits(reply)
            <==> reply is Description || reply is Failed),
        stage is Adding || stage is SettingRemote || stage is Draining || stage is SettingOffer
            || stage is SettingAnswer || stage is ClosingChannel || stage is ClosingConnection
            ==> (stage.awaits(reply) <==> reply is Done || reply is Failed),
        stage is Finished ==> !stage.awaits(reply),
{
}

/// Each event is told to the callback that was registered for it, whatever the others are and in
/// whatever state the peer is.
pub proof fn law_callback_of_event<C, D, F>(
    peer: PeerView<C, D, F>,
    message: SignalMessage,
    data: Vec<u8>,
)
    ensures
        peer.notify(Event::Signal(message)) == telling(
            peer,
            peer.on_signal,
            Event::Signal(message),
        ),
        peer.notify(Event::Data(data)) == telling(peer, peer.on_data, Event::Data(data)),
        peer.notify(Event::Connect) == telling(peer, peer.on_connect, Event::Connect),
        peer.notify(Event::Close) == telling(peer, peer.on_close, Event::Close),
        peer.notify(Event::Negotiated) == telling(peer, peer.on_negotiated, Event::Negotiated),
{
}

/// A message for the other peer goes to the signal callback. Without one, the procedure goes on as
/// if the callback had been called.
pub proof fn law_signal_out<C, D, F>(
    peer: PeerView<C, D, F>,
    message: SignalMessage,
    sequel: Sequel,
)
    ensures
        peer.on_signal matches Some(callback) ==> peer.signal_out(message, sequel) == asking(
            peer,
            Action::Notify { callback, event: Event::Signal(message) },
            Stage::Notifying(sequel),
        ),
        peer.on_signal is None && sequel is Finish ==> peer.signal_out(message, sequel) == ended(
            peer,
            Ok(()),
        ),
        peer.on_signal is None && sequel is Negotiated ==> peer.signal_out(message, sequel)
            == telling(peer, peer.on_negotiated, Event::Negotiated),
{
}

/// When a callback has been called, a procedure is over, except after an answer was sent: then the
/// negotiated callback is called.
pub proof fn law_after_callback<C, D, F>(
    peer: PeerView<C, D, F>,
    queue: Seq<IceCandidateInit>,
)
    ensures
        peer.resume(Stage::Notifying(Sequel::Finish), queue, Reply::Done) == ended(peer, Ok(())),
        peer.resume(Stage::Notifying(Sequel::Negotiated), queue, Reply::Done) == telling(
            peer,
            peer.on_negotiated,
            Event::Negotiated,
        ),
{
}

/// A session is started in the same way by every peer: it becomes the initiator and keeps all the
/// rest, and observes its connection or, without one, opens one with its configuration.
pub proof fn law_start_of_session<C, D, F>(peer: PeerView<C, D, F>)
    ensures
        peer.connection matches Some(connection) ==> peer.init() == asking(
            (PeerView { initiator: true, ..peer }),
            Action::Observe { connection },
            Stage::Observing(connection, Purpose::Init),
        ),
        peer.connection is None ==> peer.init() == asking(
            (PeerView { initiator: true, ..peer }),
            Action::NewConnection { connection_config: peer.connection_config },
            Stage::Opening(Purpose::Init),
        ),
{
}

/// A message that finds no connection is kept as it is while one is opened, whatever the message
/// and the role; one that finds a connection is handled at once.
pub proof fn law_message_comes<C, D, F>(peer: PeerView<C, D, F>, message: SignalMessage)
    ensures
        peer.connection is None ==> peer.signal(message) == asking(
            peer,
            Action::NewConnection { connection_config: peer.connection_config },
            Stage::Opening(Purpose::Signal(message)),
        ),
        peer.connection is Some ==> peer.signal(message) == peer.handle(message),
{
}

/// A connection that was opened is kept and observed, unless another one is there already: then
/// that one stays and is observed.
pub proof fn law_connection_opened<C, D, F>(
    peer: PeerView<C, D, F>,
    purpose: Purpose,
    queue: Seq<IceCandidateInit>,
    opened: Arc<C>,
)
    ensures
        peer.connection is None ==> peer.resume(
            Stage::Opening(purpose),
            queue,
            Reply::Connection(opened),
        ) == asking(
            (PeerView { connection: Some(opened), ..peer }),
            Action::Observe { connection: opened },
            Stage::Observing(opened, purpose),
        ),
        peer.connection matches Some(connection) ==> peer.resume(
            Stage::Opening(purpose),
            queue,
            Reply::Connection(opened),
        ) == asking(peer, Action::Observe { connection }, Stage::Observing(connection, purpose)),
{
}

/// On a connection that is observed the initiator opens a data channel, under the name and with the
/// settings of the peer; the other peer listens for one. Nothing else decides, and the connection is
/// the one that was observed even if the peer was closed since.
pub proof fn law_connection_observed<C, D, F>(
    peer: PeerView<C, D, F>,
    connection: Arc<C>,
    purpose: Purpose,
    queue: Seq<IceCandidateInit>,
)
    ensures
        peer.initiator ==> peer.resume(Stage::Observing(connection, purpose), queue, Reply::Done)
            == asking(
            peer,
            Action::CreateDataChannel {
                connection,
                name: peer.data_channel_name,
                data_channel_config: peer.data_channel_config,
            },
            Stage::CreatingChannel(purpose),
        ),
        !peer.initiator ==> peer.resume(Stage::Observing(connection, purpose), queue, Reply::Done)
            == asking(peer, Action::Listen { connection }, Stage::Listening(purpose)),
{
}

/// A data channel that was opened is observed, and becomes the data channel of the peer when it is;
/// so does one of the other side. Only then is the purpose of the connection carried out: there is
/// nothing left of the start of a session, and a message is handled.
pub proof fn law_channel_taken<C, D, F>(
    peer: PeerView<C, D, F>,
    channel: Arc<D>,
    purpose: Purpose,
    message: SignalMessage,
    queue: Seq<IceCandidateInit>,
)
    ensures
        peer.resume(Stage::CreatingChannel(purpose), queue, Reply::Channel(channel)) == asking(
            peer,
            Action::ObserveChannel { channel },
            Stage::ObservingChannel(channel, Some(purpose)),
        ),
        peer.on_data_channel(channel) == asking(
            peer,
            Action::ObserveChannel { channel },
            Stage::ObservingChannel(channel, None),
        ),
        peer.resume(Stage::ObservingChannel(channel, None), queue, Reply::Done) == ended(
            (PeerView { data_channel: Some(channel), ..peer }),
            Ok(()),
        ),
        peer.resume(Stage::ObservingChannel(channel, Some(Purpose::Init)), queue, Reply::Done)
            == ended((PeerView { data_channel: Some(channel), ..peer }), Ok(())),
        peer.resume(
            Stage::ObservingChannel(channel, Some(Purpose::Signal(message))),
            queue,
            Reply::Done,
        ) == (PeerView { data_channel: Some(channel), ..peer }).handle(message),
        peer.resume(Stage::Listening(Purpose::Init), queue, Reply::Done) == ended(peer, Ok(())),
        peer.resume(Stage::Listening(Purpose::Signal(message)), queue, Reply::Done) == peer.handle(
            message,
        ),
{
}

/// A negotiation, whether the connection needs it or the other peer asks for it. The initiator makes
/// an offer on its connection with its options for offers, and does nothing without a connection.
/// The other peer asks the initiator through its signal callback, with a connection and without.
pub proof fn law_who_negotiates<C, D, F>(peer: PeerView<C, D, F>)
    ensures
        peer.handle(SignalMessage::Renegotiate) == peer.negotiate(),
        peer.initiator ==> (peer.connection matches Some(connection) ==> peer.negotiate() == asking(
            peer,
            Action::CreateOffer { connection, offer_config: peer.offer_config },
            Stage::CreatingOffer(connection),
        )),
        peer.initiator && peer.connection is None ==> peer.negotiate() == ended(peer, Ok(())),
        !peer.initiator ==> peer.negotiate() == telling(
            peer,
            peer.on_signal,
            Event::Signal(SignalMessage::Renegotiate),
        ),
{
}

/// A candidate of the other peer: the connection is asked whether it has a remote description. If it
/// has, the candidate is added to it; if not, or without a connection, the candidate waits behind
/// those that wait already.
pub proof fn law_candidate_comes<C, D, F>(
    peer: PeerView<C, D, F>,
    connection: Arc<C>,
    candidate: IceCandidateInit,
    queue: Seq<IceCandidateInit>,
)
    ensures
        peer.connection == Some(connection) ==> peer.handle(SignalMessage::Candidate(candidate))
            == asking(
            peer,
            Action::QueryRemoteDescription { connection },
            Stage::Querying(connection, candidate),
        ),
        peer.connection is None ==> peer.handle(SignalMessage::Candidate(candidate)) == ended(
            (PeerView { pending_candidates: peer.pending_candidates.push(candidate), ..peer }),
            Ok(()),
        ),
        peer.resume(
            Stage::Querying(connection, candidate),
            queue,
            Reply::RemoteDescription(true),
        ) == asking(peer, Action::AddIceCandidate { connection, candidate }, Stage::Adding),
        peer.resume(
            Stage::Querying(connection, candidate),
            queue,
            Reply::RemoteDescription(false),
        ) == ended(
            (PeerView { pending_candidates: peer.pending_candidates.push(candidate), ..peer }),
            Ok(()),
        ),
        peer.resume(Stage::Adding, queue, Reply::Done) == ended(peer, Ok(())),
{
}

/// A session description of the other peer is applied to the connection, whatever message brings it
/// and whatever role the peer has; without a connection the procedure ends with an error.
pub proof fn law_description_comes<C, D, F>(
    peer: PeerView<C, D, F>,
    description: SessionDescription,
    message: SignalMessage,
)
    requires
        message == SignalMessage::Offer(description) || message == SignalMessage::Answer(
            description,
        ) || message == SignalMessage::Pranswer(description) || message == SignalMessage::Rollback(
            description,
        ),
    ensures
        peer.connection matches Some(connection) ==> peer.handle(message) == asking(
            peer,
            Action::SetRemoteDescription { connection, description },
            Stage::SettingRemote(connection, description.sdp_type),
        ),
        peer.connection is None ==> peer.handle(message) == ended(
            peer,
            Err(PeerError::ConnectionClosed),
        ),
{
}

/// When a description is applied, the candidates that wait are taken, and added from the first one
/// on to the connection that the description went to. Each step adds the first of those left.
pub proof fn law_waiting_candidates<C, D, F>(
    peer: PeerView<C, D, F>,
    connection: Arc<C>,
    kind: SdpType,
    queue: Seq<IceCandidateInit>,
)
    ensures
        peer.pending_candidates.len() > 0 ==> peer.resume(
            Stage::SettingRemote(connection, kind),
            queue,
            Reply::Done,
        ) == (Moment {
            peer: PeerView { pending_candidates: Seq::empty(), ..peer },
            action: Action::AddIceCandidate { connection, candidate: peer.pending_candidates[0] },
            stage: Stage::Draining(connection, kind),
            queue: peer.pending_candidates.subrange(1, peer.pending_candidates.len() as int),
        }),
        queue.len() > 0 ==> peer.resume(Stage::Draining(connection, kind), queue, Reply::Done) == (
        Moment {
            peer,
            action: Action::AddIceCandidate { connection, candidate: queue[0] },
            stage: Stage::Draining(connection, kind),
            queue: queue.subrange(1, queue.len() as int),
        }),
{
}

/// When a description is applied and no candidate is left, an offer is answered, with the options of
/// the peer for answers and on the connection that it holds; any other kind of description, and an
/// offer whose connection is gone, ends with a call of the negotiated callback. The role of the peer
/// does not matter.
pub proof fn law_description_applied<C, D, F>(
    peer: PeerView<C, D, F>,
    connection: Arc<C>,
    kind: SdpType,
    queue: Seq<IceCandidateInit>,
    now: Moment<C, D, F>,
)
    requires
        ({
            ||| now == peer.resume(Stage::Draining(connection, kind), Seq::empty(), Reply::Done)
            ||| peer.pending_candidates.len() == 0 && now == peer.resume(
                Stage::SettingRemote(connection, kind),
                queue,
                Reply::Done,
            )
        }),
    ensures
        kind is Offer ==> (peer.connection matches Some(current) ==> now == asking(
            peer,
            Action::CreateAnswer { connection: current, answer_config: peer.answer_config },
            Stage::CreatingAnswer(current),
        )),
        kind is Offer && peer.connection is None ==> now == telling(
            peer,
            peer.on_negotiated,
            Event::Negotiated,
        ),
        kind is Answer || kind is Pranswer || kind is Rollback || kind is Unspecified ==> now
            == telling(peer, peer.on_negotiated, Event::Negotiated),
{
    if peer.pending_candidates.len() == 0 {
        assert(peer.pending_candidates =~= Seq::empty());
        assert(PeerView { pending_candidates: Seq::empty(), ..peer } =~= peer);
    }
}

/// An offer or an answer that was made is set on the connection that made it and then sent, as it
/// was made; after an answer the negotiated callback is called. Neither the role of the peer nor a
/// close in between makes a difference.
pub proof fn law_description_made<C, D, F>(
    peer: PeerView<C, D, F>,
    connection: Arc<C>,
    description: SessionDescription,
    queue: Seq<IceCandidateInit>,
)
    ensures
        peer.resume(Stage::CreatingOffer(connection), queue, Reply::Description(description))
            == asking(
            peer,
            Action::SetLocalDescription { connection, description },
            Stage::SettingOffer(description),
        ),
        peer.resume(Stage::SettingOffer(description), queue, Reply::Done) == telling(
            peer,
            peer.on_signal,
            Event::Signal(SignalMessage::Offer(description)),
        ),
        peer.resume(Stage::CreatingAnswer(connection), queue, Reply::Description(description))
            == asking(
            peer,
            Action::SetLocalDescription { connection, description },
            Stage::SettingAnswer(description),
        ),
        peer.on_signal matches Some(callback) ==> peer.resume(
            Stage::SettingAnswer(description),
            queue,
            Reply::Done,
        ) == asking(
            peer,
            Action::Notify { callback, event: Event::Signal(SignalMessage::Answer(description)) },
            Stage::Notifying(Sequel::Negotiated),
        ),
        peer.on_signal is None ==> peer.resume(
            Stage::SettingAnswer(description),
            queue,
            Reply::Done,
        ) == telling(peer, peer.on_negotiated, Event::Negotiated),
{
}

/// A close takes the data channel out of the peer and closes it, then the connection, and then
/// calls the close callback if it is to be called. What is not there is passed over, and what the
/// peer holds besides stays.
pub proof fn law_close_by_steps<C, D, F>(
    peer: PeerView<C, D, F>,
    emit: bool,
    queue: Seq<IceCandidateInit>,
)
    ensures
        peer.data_channel matches Some(channel) ==> peer.close(emit) == asking(
            (PeerView { data_channel: None, ..peer }),
            Action::CloseChannel { channel },
            Stage::ClosingChannel(emit),
        ),
        peer.data_channel is None ==> peer.close(emit) == peer.resume(
            Stage::ClosingChannel(emit),
            queue,
            Reply::Done,
        ),
        peer.connection matches Some(connection) ==> peer.resume(
            Stage::ClosingChannel(emit),
            queue,
            Reply::Done,
        ) == asking(
            (PeerView { connection: None, ..peer }),
            Action::CloseConnection { connection },
            Stage::ClosingConnection(emit),
        ),
        peer.connection is None ==> peer.resume(Stage::ClosingChannel(emit), queue, Reply::Done)
            == peer.resume(Stage::ClosingConnection(emit), queue, Reply::Done),
        emit ==> peer.resume(Stage::ClosingConnection(emit), queue, Reply::Done) == telling(
            peer,
            peer.on_close,
            Event::Close,
        ),
        !emit ==> peer.resume(Stage::ClosingConnection(emit), queue, Reply::Done) == ended(
            peer,
            Ok(()),
        ),
{
}

/// A failure of the transport ends every procedure with its error, and changes nothing.
pub proof fn law_failed_step<C, D, F>(
    peer: PeerView<C, D, F>,
    stage: Stage<C, D>,
    queue: Seq<IceCandidateInit>,
    error: webrtc::Error,
)
    ensures
        peer.resume(stage, queue, Reply::Failed(error)) == ended(
            peer,
            Err(PeerError::Transport(error)),
        ),
{
}

/// The states in which a connection is over.
pub proof fn law_over(state: ConnectionState)
    ensures
        crate::protocol::is_over(state) <==> state == ConnectionState::Closed || state
            == ConnectionState::Failed || state == ConnectionState::Disconnected,
{
}

}
