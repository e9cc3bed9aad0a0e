//! The vocabulary of the state machine: what a peer asks for, what it is told, and where one of
//! its procedures stands in between.
//!
//! A procedure (setting up, handling a signal, closing, ...) is a chain of steps. A step ends in an
//! [`Action`] for the caller and a [`Task`] that says what is left to do. The caller carries the
//! action out and hands the [`Reply`] back together with the task, until the action is
//! [`Action::Finish`].
//!
//! `C` and `D` are the handles of connections and data channels, `F` is the handle of a callback.

use vstd::prelude::*;

use std::sync::Arc;

use webrtc::data_channel::data_channel_init::RTCDataChannelInit;
use webrtc::peer_connection::configuration::RTCConfiguration;
use webrtc::peer_connection::offer_answer_options::{RTCAnswerOptions, RTCOfferOptions};

use crate::message::{IceCandidateInit, SdpType, SessionDescription, SignalMessage};

verus! {

/// Why a procedure failed.
#[derive(Debug, PartialEq)]
pub enum PeerError {
    /// A session description came while there was no connection to apply it to.
    ConnectionClosed,
    /// The transport failed.
    Transport(webrtc::Error),
}

/// What a peer tells its callbacks.
#[derive(Debug, PartialEq, Eq)]
pub enum Event {
    /// A message for the other peer.
    Signal(SignalMessage),
    /// Data that came over the data channel.
    Data(Vec<u8>),
    /// The data channel is open.
    Connect,
    /// The peer was closed.
    Close,
    /// A session description was applied.
    Negotiated,
}

/// What the caller is to do next.
pub enum Action<C, D, F> {
    /// Open a connection.
    NewConnection { connection_config: Arc<RTCConfiguration> },
    /// Route the connection's notifications (negotiation needed, state change, ICE candidate,
    /// track) to the peer.
    Observe { connection: Arc<C> },
    /// Route the data channels that the other side opens to the peer.
    Listen { connection: Arc<C> },
    /// Open a data channel.
    CreateDataChannel {
        connection: Arc<C>,
        name: String,
        data_channel_config: Option<Arc<RTCDataChannelInit>>,
    },
    /// Route the data channel's notifications (open, message, error) to the peer.
    ObserveChannel { channel: Arc<D> },
    /// Tell whether the connection has a remote description.
    QueryRemoteDescription { connection: Arc<C> },
    AddIceCandidate { connection: Arc<C>, candidate: IceCandidateInit },
    SetRemoteDescription { connection: Arc<C>, description: SessionDescription },
    SetLocalDescription { connection: Arc<C>, description: SessionDescription },
    CreateOffer { connection: Arc<C>, offer_config: Option<RTCOfferOptions> },
    CreateAnswer { connection: Arc<C>, answer_config: Option<RTCAnswerOptions> },
    CloseChannel { channel: Arc<D> },
    CloseConnection { connection: Arc<C> },
    /// Call a callback and wait until it is through.
    Notify { callback: Arc<F>, event: Event },
    /// Nothing: the procedure is over, with this result.
    Finish { result: Result<(), PeerError> },
}

/// What came of an action.
#[derive(Debug)]
pub enum Reply<C, D> {
    /// The connection that was opened.
    Connection(Arc<C>),
    /// The data channel that was opened.
    Channel(Arc<D>),
    /// The offer or the answer that was made.
    Description(SessionDescription),
    /// Whether there is a remote description.
    RemoteDescription(bool),
    /// The action was carried out.
    Done,
    /// The action failed.
    Failed(webrtc::Error),
}

/// What a connection is set up for.
#[derive(Debug, PartialEq, Eq)]
pub enum Purpose {
    /// To have it.
    Init,
    /// To handle a message with it.
    Signal(SignalMessage),
}

/// What follows a call of the signal callback.
#[derive(Debug, Clone, Copy, PartialEq, Eq, Structural)]
pub enum Sequel {
    /// Nothing.
    Finish,
    /// A call of the negotiated callback.
    Negotiated,
}

/// Where a procedure stands: the action that is under way, with what the rest needs.
#[derive(Debug)]
pub enum Stage<C, D> {
    Opening(Purpose),
    Observing(Arc<C>, Purpose),
    Listening(Purpose),
    CreatingChannel(Purpose),
    /// A data channel is being observed, one that the other side opened if there is no purpose.
    ObservingChannel(Arc<D>, Option<Purpose>),
    Querying(Arc<C>, IceCandidateInit),
    Adding,
    SettingRemote(Arc<C>, SdpType),
    /// A candidate that had been waiting is being added; the task holds those after it.
    Draining(Arc<C>, SdpType),
    CreatingOffer(Arc<C>),
    SettingOffer(SessionDescription),
    CreatingAnswer(Arc<C>),
    SettingAnswer(SessionDescription),
    Notifying(Sequel),
    ClosingChannel(bool),
    ClosingConnection(bool),
    Finished,
}

impl<C, D> Stage<C, D> {
    /// Whether `reply` is one that the action under way can have.
    pub open spec fn awaits(self, reply: Reply<C, D>) -> bool {
        match self {
            Stage::Opening(_) => reply is Connection,
            Stage::Observing(..) | Stage::Listening(_) | Stage::ObservingChannel(..)
            | Stage::Notifying(_) => reply is Done,
            Stage::CreatingChannel(_) => reply is Channel || reply is Failed,
            Stage::Querying(..) => reply is RemoteDescription,
            Stage::Adding | Stage::SettingRemote(..) | Stage::Draining(..) | Stage::SettingOffer(_)
            | Stage::SettingAnswer(_) | Stage::ClosingChannel(_) | Stage::ClosingConnection(_) =>
                reply is Done || reply is Failed,
            Stage::CreatingOffer(_) | Stage::CreatingAnswer(_) => reply is Description
                || reply is Failed,
            Stage::Finished => false,
        }
    }
}

/// What is left of a procedure.
#[derive(Debug)]
pub struct Task<C, D> {
    pub stage: Stage<C, D>,
    /// The candidates that are still to be added, in order.
    pub queue: Vec<IceCandidateInit>,
}

impl<C, D> Task<C, D> {
    /// Whether `reply` is one that the action under way can have.
    pub fn accepts(&self, reply: &Reply<C, D>) -> (accepted: bool)
        ensures
            accepted == self.stage.awaits(*reply),
    {
        match &self.stage {
            Stage::Opening(_) => matches!(reply, Reply::Connection(_)),
            Stage::Observing(..) | Stage::Listening(_) | Stage::ObservingChannel(..)
            | Stage::Notifying(_) => matches!(reply, Reply::Done),
            Stage::CreatingChannel(_) => matches!(reply, Reply::Channel(_) | Reply::Failed(_)),
            Stage::Querying(..) => matches!(reply, Reply::RemoteDescription(_)),
            Stage::Adding | Stage::SettingRemote(..) | Stage::Draining(..) | Stage::SettingOffer(_)
            | Stage::SettingAnswer(_) | Stage::ClosingChannel(_) | Stage::ClosingConnection(_) =>
                matches!(reply, Reply::Done | Reply::Failed(_)),
            Stage::CreatingOffer(_) | Stage::CreatingAnswer(_) => matches!(
                reply,
                Reply::Description(_) | Reply::Failed(_)
            ),
            Stage::Finished => false,
        }
    }
}

/// The end of a step: what to do now, and what is left afterwards.
pub struct Step<C, D, F> {
    pub action: Action<C, D, F>,
    pub task: Task<C, D>,
}

}
