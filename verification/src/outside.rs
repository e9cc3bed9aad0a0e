//! The calls into outside crates and std, and what is taken on trust about them.

use vstd::prelude::*;

use std::sync::Arc;

use uuid::Uuid;
use webrtc::data_channel::data_channel_init::RTCDataChannelInit;
use webrtc::ice_transport::ice_candidate::{RTCIceCandidate, RTCIceCandidateInit};
use webrtc::ice_transport::ice_candidate_type::RTCIceCandidateType;
use webrtc::ice_transport::ice_protocol::RTCIceProtocol;
use webrtc::peer_connection::configuration::RTCConfiguration;
use webrtc::peer_connection::offer_answer_options::{RTCAnswerOptions, RTCOfferOptions};

use crate::message::{
    IceCandidate, IceCandidateInit, IceCandidateType, IceCandidateView, IceProtocol,
};

verus! {

/// `webrtc`'s configuration of a connection. The peer carries it and never looks inside.
#[verifier::external_type_specification]
#[verifier::external_body]
pub struct ExRTCConfiguration(RTCConfiguration);

/// `webrtc`'s options for the making of an offer. The peer carries them and never looks inside.
#[verifier::external_type_specification]
#[verifier::external_body]
pub struct ExRTCOfferOptions(RTCOfferOptions);

/// `webrtc`'s options for the making of an answer. The peer carries them and never looks inside.
#[verifier::external_type_specification]
#[verifier::external_body]
pub struct ExRTCAnswerOptions(RTCAnswerOptions);

/// `webrtc`'s settings of a data channel. The peer carries them and never looks inside.
#[verifier::external_type_specification]
#[verifier::external_body]
pub struct ExRTCDataChannelInit(RTCDataChannelInit);

/// `webrtc`'s error. The peer carries it and never looks inside.
#[verifier::external_type_specification]
#[verifier::external_body]
pub struct ExError(webrtc::Error);

/// `RTCConfiguration::default`: the configuration without servers, certificates and identity.
/// Nothing is claimed of the result, whose fields are not visible here.
pub assume_specification[ <RTCConfiguration as Default>::default ]() -> (config: RTCConfiguration);

/// Whether `c` is a digit of a lower-case hexadecimal number.
pub open spec fn is_lower_hex(c: char) -> bool {
    ('0' <= c && c <= '9') || ('a' <= c && c <= 'f')
}

/// Whether `text` is a version 4 UUID of the RFC 4122 variant in its hyphenated lower-case form.
pub open spec fn is_uuid_v4(text: Seq<char>) -> bool {
    &&& text.len() == 36
    &&& forall|i: int|
        #![trigger text[i]]
        0 <= i < 36 ==> if i == 8 || i == 13 || i == 18 || i == 23 {
            text[i] == '-'
        } else {
            is_lower_hex(text[i])
        }
    &&& text[14] == '4'
    &&& text[19] == '8' || text[19] == '9' || text[19] == 'a' || text[19] == 'b'
}

/// `Uuid::new_v4`, written out by `Uuid`'s `Display`. The UUID is random; its text has the form
/// that `is_uuid_v4` states, whatever the random bits are. Nothing is claimed of two results being
/// different.
#[verifier::external_body]
pub(crate) fn random_uuid() -> (text: String)
    ensures
        is_uuid_v4(text@),
{
    Uuid::new_v4().to_string()
}

/// `Arc::clone`: another pointer to the same value.
#[verifier::external_body]
pub(crate) fn share<T>(pointer: &Arc<T>) -> (other: Arc<T>)
    ensures
        other == *pointer,
{
    Arc::clone(pointer)
}

/// The attribute text of an ICE candidate, as `webrtc` marshals it, without the leading
/// `candidate:`. `None` where `webrtc` makes no candidate out of the fields: the kind is
/// unspecified, the address is no IP address (nor, for a host candidate, a `.local` name), or the
/// protocol does not fit.
pub uninterp spec fn candidate_attribute(candidate: IceCandidateView) -> Option<Seq<char>>;

/// Whether `webrtc` can marshal `candidate` without an overflow: for a priority of zero it
/// computes one, and subtracts the component from 256.
pub open spec fn has_priority(candidate: IceCandidateView) -> bool {
    candidate.typ is Unspecified || candidate.priority != 0 || candidate.component <= 256
}

/// Whether `json` is the JSON form of a candidate with this attribute text, or an error where the
/// candidate has none.
pub open spec fn is_json_of(
    attribute: Option<Seq<char>>,
    json: Result<IceCandidateInit, webrtc::Error>,
) -> bool {
    match (attribute, json) {
        (Some(text), Ok(init)) => {
            &&& init.candidate@ == "candidate:"@ + text
            &&& init.sdp_mid is Some && init.sdp_mid->0@ == ""@
            &&& init.sdp_mline_index == Some(0u16)
            &&& init.username_fragment is None
        },
        (None, Err(_)) => true,
        _ => false,
    }
}

/// `RTCIceCandidate::to_json`: the attribute text behind `candidate:`, with an empty media id, the
/// media line index 0 and no user name fragment; an error where the candidate has no attribute
/// text, as one of unspecified kind. Nothing is claimed of which error it is.
#[verifier::external_body]
pub(crate) fn to_json(candidate: IceCandidate) -> (json: Result<IceCandidateInit, webrtc::Error>)
    requires
        has_priority(candidate@),
    ensures
        is_json_of(candidate_attribute(candidate@), json),
        candidate.typ is Unspecified ==> json is Err,
{
    let IceCandidate { stats_id, foundation, priority, address, port, component, .. } = candidate;
    let protocol = match candidate.protocol {
        IceProtocol::Unspecified => RTCIceProtocol::Unspecified,
        IceProtocol::Udp => RTCIceProtocol::Udp,
        IceProtocol::Tcp => RTCIceProtocol::Tcp,
    };
    let typ = match candidate.typ {
        IceCandidateType::Unspecified => RTCIceCandidateType::Unspecified,
        IceCandidateType::Host => RTCIceCandidateType::Host,
        IceCandidateType::Srflx => RTCIceCandidateType::Srflx,
        IceCandidateType::Prflx => RTCIceCandidateType::Prflx,
        IceCandidateType::Relay => RTCIceCandidateType::Relay,
    };
    let (related_address, related_port) = (candidate.related_address, candidate.related_port);
    RTCIceCandidate { stats_id, foundation, priority, address, protocol, port, typ, component, related_address, related_port, tcp_type: candidate.tcp_type }.to_json().map(|RTCIceCandidateInit { candidate, sdp_mid, sdp_mline_index, username_fragment }| IceCandidateInit { candidate, sdp_mid, sdp_mline_index, username_fragment })
}

/// A UUID has its hyphens in four places, its version and its variant in one each, and lower-case
/// hexadecimal digits everywhere else.
pub proof fn law_uuid(text: Seq<char>, i: int)
    requires
        is_uuid_v4(text),
        0 <= i < text.len(),
    ensures
        text.len() == 36,
        text[i] == '-' <==> i == 8 || i == 13 || i == 18 || i == 23,
        text[i] == '-' || ('0' <= text[i] && text[i] <= '9') || ('a' <= text[i] && text[i] <= 'f'),
        i == 14 ==> text[i] == '4',
        i == 19 ==> text[i] == '8' || text[i] == '9' || text[i] == 'a' || text[i] == 'b',
{
}

/// A candidate has a JSON form exactly if it has an attribute text, and the text can be read back
/// from it. The rest of the JSON form is the same for every candidate.
pub proof fn law_json_form(
    attribute: Option<Seq<char>>,
    json: Result<IceCandidateInit, webrtc::Error>,
)
    requires
        is_json_of(attribute, json),
    ensures
        json is Ok <==> attribute is Some,
        json matches Ok(init) ==> {
            &&& init.candidate@.len() == 10 + attribute->0.len()
            &&& init.candidate@.take(10) == seq!['c', 'a', 'n', 'd', 'i', 'd', 'a', 't', 'e', ':']
            &&& init.candidate@.skip(10) == attribute->0
            &&& init.sdp_mid is Some
            &&& init.sdp_mid->0@.len() == 0
            &&& init.sdp_mline_index == Some(0u16)
            &&& init.username_fragment is None
        },
{
    reveal_strlit("candidate:");
    reveal_strlit("");
    if let Ok(init) = json {
        assert(init.candidate@.take(10) =~= "candidate:"@);
        assert("candidate:"@ =~= seq!['c', 'a', 'n', 'd', 'i', 'd', 'a', 't', 'e', ':']);
        assert(init.candidate@.skip(10) =~= attribute->0);
    }
}

}
