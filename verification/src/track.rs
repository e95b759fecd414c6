//! The fixed settings of a session: its codecs, the names of its tracks and
//! the server that helps to find a path to the peer.

use crate::source::MediaKind;
use vstd::prelude::*;

verus! {

/// The codecs in which sources are encoded.
#[derive(Debug, Clone, Copy, PartialEq, Eq, Structural)]
pub enum Codec {
    H264,
    Opus,
}

/// The codec of a kind of media.
pub open spec fn codec_of(kind: MediaKind) -> Codec {
    match kind {
        MediaKind::Video => Codec::H264,
        MediaKind::Audio => Codec::Opus,
    }
}

/// The name of the track of a kind of media.
pub open spec fn track_name(kind: MediaKind) -> Seq<char> {
    match kind {
        MediaKind::Video => "video"@,
        MediaKind::Audio => "audio"@,
    }
}

/// The codec in which the track of a kind of media is declared.
pub fn codec(kind: MediaKind) -> (codec: Codec)
    ensures
        codec == codec_of(kind),
{
    match kind {
        MediaKind::Video => Codec::H264,
        MediaKind::Audio => Codec::Opus,
    }
}

/// The name under which the track of a kind of media is created.
pub fn track_id(kind: MediaKind) -> (id: &'static str)
    ensures
        id@ == track_name(kind),
{
    match kind {
        MediaKind::Video => "video",
        MediaKind::Audio => "audio",
    }
}

/// The name of the stream that every track belongs to.
pub fn stream_id() -> (id: &'static str)
    ensures
        id@ == "webrtc-rs"@,
{
    "webrtc-rs"
}

/// The address of the public server that the connection asks for its own
/// address as the peer sees it.
pub fn discovery_server() -> (url: &'static str)
    ensures
        url@ == "stun:stun.l.google.com:19302"@,
{
    "stun:stun.l.google.com:19302"
}

} // verus!
