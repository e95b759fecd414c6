//! What the request boundary needs from the core: the source to stream and
//! the reply to an offer.

use crate::error::ConnectError;
use crate::peer_connection::PeerConnectionInfo;
use crate::source::named_source;
use crate::source::MediaSource;
use vstd::prelude::*;
use webrtc::peer_connection::sdp::session_description::RTCSessionDescription;

verus! {

/// Status of a reply that carries the answer.
pub const STATUS_OK: u16 = 200;

/// Status of a reply that carries the description of a failure.
pub const STATUS_SERVER_ERROR: u16 = 500;

/// The reply to an offer: a status and a text.
#[derive(Debug, Clone, PartialEq, Eq)]
pub struct Reply {
    pub status: u16,
    pub text: String,
}

/// A session description written as JSON, or `None` where it cannot be
/// written.
pub uninterp spec fn description_json(description: RTCSessionDescription) -> Option<Seq<char>>;

/// Calls `serde_json::to_string` on an `RTCSessionDescription`. Trusted:
/// whether the description can be written, and the text, depend on the
/// description alone. The error is handed on in words, as `to_string` gives
/// it; nothing is claimed of them.
#[verifier::external_body]
fn write_description(description: &RTCSessionDescription) -> (text: Result<String, String>)
    ensures
        match text {
            Ok(written) => description_json(*description) == Some(written@),
            Err(_) => description_json(*description) is None,
        },
{
    match serde_json::to_string(description) {
        Ok(text) => Ok(text),
        Err(error) => Err(error.to_string()),
    }
}

/// The source to stream, of those given on the command line: the first, if
/// there is one. Further sources are not used.
pub fn select_source(descriptors: &Vec<String>) -> (source: Option<MediaSource>)
    ensures
        descriptors.len() == 0 <==> source is None,
        source matches Some(source) ==> source@ == named_source(descriptors[0]@),
{
    if descriptors.len() == 0 {
        None
    } else {
        Some(MediaSource::from_descriptor(descriptors[0].as_str()))
    }
}

/// The reply that carries an answer, given the answer as it was written
/// out: the text with the status of success, or, where it could not be
/// written, the words of the error with the status of a server error.
pub fn reply_with(written: Result<String, String>) -> (reply: Reply)
    ensures
        reply == match written {
            Ok(text) => (Reply { status: STATUS_OK, text }),
            Err(words) => (Reply { status: STATUS_SERVER_ERROR, text: words }),
        },
{
    match written {
        Ok(text) => Reply { status: STATUS_OK, text },
        Err(words) => Reply { status: STATUS_SERVER_ERROR, text: words },
    }
}

/// The reply to an offer that led to a session: the local description of the
/// session, written as JSON.
pub fn answer(info: &PeerConnectionInfo) -> (reply: Reply)
    ensures
        reply.status == STATUS_OK || reply.status == STATUS_SERVER_ERROR,
        reply.status == STATUS_OK <==> description_json(info.description) is Some,
        description_json(info.description) matches Some(written) ==> reply.text@ == written,
{
    reply_with(write_description(&info.description))
}

/// The reply to an offer that led to no session: the description of the
/// failure, with the status of a server error.
pub fn refusal(error: &ConnectError) -> (reply: Reply)
    ensures
        reply.status == STATUS_SERVER_ERROR,
        reply.text@ == error.text(),
{
    Reply { status: STATUS_SERVER_ERROR, text: error.message() }
}

/// The one reply to an offer: the answer where the negotiation gave a
/// session, the description of the failure where it gave none.
pub fn reply_to(negotiated: &Result<PeerConnectionInfo, ConnectError>) -> (reply: Reply)
    ensures
        reply.status == STATUS_OK || reply.status == STATUS_SERVER_ERROR,
        negotiated matches Ok(info) ==> {
            &&& reply.status == STATUS_OK <==> description_json(info.description) is Some
            &&& description_json(info.description) matches Some(written) ==> reply.text@
                == written
        },
        negotiated matches Err(error) ==> reply.status == STATUS_SERVER_ERROR && reply.text@
            == error.text(),
{
    match negotiated {
        Ok(info) => answer(info),
        Err(error) => refusal(error),
    }
}

} // verus!
