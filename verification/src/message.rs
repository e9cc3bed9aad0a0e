//! What two peers tell each other, and what the transport reports, as plain values.

use vstd::prelude::*;

verus! {

/// The kind of a session description.
#[derive(Debug, Clone, Copy, PartialEq, Eq, Structural)]
pub enum SdpType {
    Unspecified,
    Offer,
    Pranswer,
    Answer,
    Rollback,
}

/// A session description: its kind and its text.
#[derive(Debug, PartialEq, Eq)]
pub struct SessionDescription {
    pub sdp_type: SdpType,
    pub sdp: String,
}

impl Clone for SessionDescription {
    fn clone(&self) -> (copy: Self)
        ensures
            copy == *self,
    {
        SessionDescription { sdp_type: self.sdp_type, sdp: self.sdp.clone() }
    }
}

/// An ICE candidate in the form in which peers exchange it.
#[derive(Debug, PartialEq, Eq)]
pub struct IceCandidateInit {
    pub candidate: String,
    pub sdp_mid: Option<String>,
    pub sdp_mline_index: Option<u16>,
    pub username_fragment: Option<String>,
}

impl Clone for IceCandidateInit {
    fn clone(&self) -> (copy: Self)
        ensures
            copy == *self,
    {
        IceCandidateInit {
            candidate: self.candidate.clone(),
            sdp_mid: self.sdp_mid.clone(),
            sdp_mline_index: self.sdp_mline_index,
            username_fragment: self.username_fragment.clone(),
        }
    }
}

/// The transport protocol of an ICE candidate.
#[derive(Debug, Clone, Copy, PartialEq, Eq, Structural)]
pub enum IceProtocol {
    Unspecified,
    Udp,
    Tcp,
}

/// How an ICE candidate was obtained.
#[derive(Debug, Clone, Copy, PartialEq, Eq, Structural)]
pub enum IceCandidateType {
    Unspecified,
    Host,
    Srflx,
    Prflx,
    Relay,
}

/// An ICE candidate as the transport gathers it.
#[derive(Debug, PartialEq, Eq)]
pub struct IceCandidate {
    pub stats_id: String,
    pub foundation: String,
    pub priority: u32,
    pub address: String,
    pub protocol: IceProtocol,
    pub port: u16,
    pub typ: IceCandidateType,
    pub component: u16,
    pub related_address: String,
    pub related_port: u16,
    pub tcp_type: String,
}

/// The fields of an ICE candidate, with its texts as character sequences.
pub struct IceCandidateView {
    pub stats_id: Seq<char>,
    pub foundation: Seq<char>,
    pub priority: u32,
    pub address: Seq<char>,
    pub protocol: IceProtocol,
    pub port: u16,
    pub typ: IceCandidateType,
    pub component: u16,
    pub related_address: Seq<char>,
    pub related_port: u16,
    pub tcp_type: Seq<char>,
}

impl View for IceCandidate {
    type V = IceCandidateView;

    open spec fn view(&self) -> IceCandidateView {
        IceCandidateView {
            stats_id: self.stats_id@,
            foundation: self.foundation@,
            priority: self.priority,
            address: self.address@,
            protocol: self.protocol,
            port: self.port,
            typ: self.typ,
            component: self.component,
            related_address: self.related_address@,
            related_port: self.related_port,
            tcp_type: self.tcp_type@,
        }
    }
}

impl IceCandidate {
    /// Whether the candidate can be brought into its JSON form without an overflow: its kind is
    /// unspecified, it has a priority, or its component is small enough to compute one.
    pub fn has_priority(&self) -> (fits: bool)
        ensures
            fits == crate::outside::has_priority(self@),
            fits == (self.typ is Unspecified || self.priority != 0 || self.component <= 256),
    {
        self.typ == IceCandidateType::Unspecified || self.priority != 0 || self.component <= 256
    }
}

/// The view of a candidate leaves nothing out: candidates with the same view have the same numbers
/// and kinds, and the same texts, field by field.
pub proof fn law_view_is_faithful(one: IceCandidate, other: IceCandidate)
    ensures
        one@ == other@ <==> {
            &&& one.stats_id@ == other.stats_id@
            &&& one.foundation@ == other.foundation@
            &&& one.priority == other.priority
            &&& one.address@ == other.address@
            &&& one.protocol == other.protocol
            &&& one.port == other.port
            &&& one.typ == other.typ
            &&& one.component == other.component
            &&& one.related_address@ == other.related_address@
            &&& one.related_port == other.related_port
            &&& one.tcp_type@ == other.tcp_type@
        },
{
}

/// The state of a connection.
#[derive(Debug, Clone, Copy, PartialEq, Eq, Structural)]
pub enum ConnectionState {
    Unspecified,
    New,
    Connecting,
    Connected,
    Disconnected,
    Failed,
    Closed,
}

/// A message of the signalling channel.
#[derive(Debug, PartialEq, Eq)]
pub enum SignalMessage {
    /// Asks the initiator to make a new offer.
    Renegotiate,
    Candidate(IceCandidateInit),
    Answer(SessionDescription),
    Offer(SessionDescription),
    Pranswer(SessionDescription),
    Rollback(SessionDescription),
}

impl Clone for SignalMessage {
    fn clone(&self) -> (copy: Self)
        ensures
            copy == *self,
    {
        match self {
            SignalMessage::Renegotiate => SignalMessage::Renegotiate,
            SignalMessage::Candidate(candidate) => SignalMessage::Candidate(candidate.clone()),
            SignalMessage::Answer(answer) => SignalMessage::Answer(answer.clone()),
            SignalMessage::Offer(offer) => SignalMessage::Offer(offer.clone()),
            SignalMessage::Pranswer(pranswer) => SignalMessage::Pranswer(pranswer.clone()),
            SignalMessage::Rollback(rollback) => SignalMessage::Rollback(rollback.clone()),
        }
    }
}

}
