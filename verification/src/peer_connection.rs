//! The negotiated session and the two operations on it.

use crate::negotiation::Negotiation;
use crate::negotiation::Progress;
use crate::source::MediaSource;
use crate::termination::Coordinator;
use crate::termination::Watch;
use std::sync::Arc;
use tokio::sync::mpsc::Receiver;
use vstd::prelude::*;
use webrtc::peer_connection::sdp::session_description::RTCSessionDescription;
use webrtc::peer_connection::RTCPeerConnection;

verus! {

/// `webrtc::peer_connection::RTCPeerConnection`, carried as an opaque handle.
#[verifier::external_type_specification]
#[verifier::external_body]
pub struct ExRTCPeerConnection(RTCPeerConnection);

/// `webrtc::peer_connection::sdp::session_description::RTCSessionDescription`,
/// carried as an opaque value.
#[verifier::external_type_specification]
#[verifier::external_body]
pub struct ExRTCSessionDescription(RTCSessionDescription);

/// `tokio::sync::mpsc::Receiver`, carried as an opaque handle.
#[verifier::external_type_specification]
#[verifier::external_body]
#[verifier::reject_recursive_types(T)]
pub struct ExReceiver<T>(Receiver<T>);

/// A negotiated session: the connection, its final local description and the
/// receiving end of the termination channel.
pub struct PeerConnectionInfo {
    pub connection: Arc<RTCPeerConnection>,
    pub description: RTCSessionDescription,
    pub closer: Receiver<()>,
}

/// The words with which `text` is refused as a session description in
/// JSON, or `None` where one can be read from it.
pub uninterp spec fn offer_rejection(text: Seq<char>) -> Option<Seq<char>>;

/// Calls `serde_json::from_str` for an `RTCSessionDescription`. Trusted:
/// whether the text is read or refused, and the words of the refusal (the
/// error as `to_string` gives it), depend on the text alone.
#[verifier::external_body]
fn read_offer(offer: &str) -> (reading: Result<RTCSessionDescription, String>)
    ensures
        match reading {
            Ok(_) => offer_rejection(offer@) is None,
            Err(words) => offer_rejection(offer@) == Some(words@),
        },
{
    match serde_json::from_str::<RTCSessionDescription>(offer) {
        Ok(description) => Ok(description),
        Err(error) => Err(error.to_string()),
    }
}

/// Begins the negotiation of a session that streams `media_type` to the peer
/// whose offer, as JSON, is `offer`. Nothing is set up yet: the negotiation
/// that comes back names the steps, the probe of the source first.
pub fn connect(media_type: MediaSource, offer: &str) -> (negotiation: Negotiation)
    ensures
        negotiation.wf(),
        negotiation@ == Progress::initial(media_type, None, negotiation@.offer_fault),
        match negotiation@.offer_fault {
            Some(words) => offer_rejection(offer@) == Some(words@),
            None => offer_rejection(offer@) is None,
        },
        negotiation.offer() is Some <==> offer_rejection(offer@) is None,
{
    Negotiation::start(media_type, None, read_offer(offer))
}

/// Hands a session to the coordinator that waits for its end and closes it.
pub fn handle(info: PeerConnectionInfo) -> (coordinator: Coordinator)
    ensures
        coordinator@ == Watch::waiting(),
        coordinator.session() == info,
{
    Coordinator::new(info)
}

} // verus!
