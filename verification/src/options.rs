//! What a peer is made with.

use vstd::prelude::*;

use webrtc::data_channel::data_channel_init::RTCDataChannelInit;
use webrtc::peer_connection::configuration::RTCConfiguration;
use webrtc::peer_connection::offer_answer_options::{RTCAnswerOptions, RTCOfferOptions};

verus! {

/// The options of a peer. Each one that is left out has a default.
#[derive(Clone)]
pub struct PeerOptions {
    /// The id of the peer; by default a random UUID.
    pub id: Option<String>,
    pub max_channel_message_size: Option<usize>,
    /// The name of the data channel; by default a random UUID.
    pub data_channel_name: Option<String>,
    pub event_channel_size: Option<usize>,
    /// The configuration of the connection; by default that of `RTCConfiguration`.
    pub connection_config: Option<RTCConfiguration>,
    pub offer_config: Option<RTCOfferOptions>,
    pub answer_config: Option<RTCAnswerOptions>,
    pub data_channel_config: Option<RTCDataChannelInit>,
}

impl Default for PeerOptions {
    /// Leaves every option out.
    fn default() -> (options: Self)
        ensures
            options.id is None,
            options.max_channel_message_size is None,
            options.data_channel_name is None,
            options.event_channel_size is None,
            options.connection_config is None,
            options.offer_config is None,
            options.answer_config is None,
            options.data_channel_config is None,
    {
        PeerOptions {
            id: None,
            max_channel_message_size: None,
            data_channel_name: None,
            event_channel_size: None,
            connection_config: None,
            offer_config: None,
            answer_config: None,
            data_channel_config: None,
        }
    }
}

}
