use media_streamer::source::MediaKind;
use media_streamer::track::codec;
use media_streamer::track::discovery_server;
use media_streamer::track::stream_id;
use media_streamer::track::track_id;
use media_streamer::track::Codec;

#[test]
fn each_kind_has_its_codec_and_its_name() {
    assert_eq!(codec(MediaKind::Video), Codec::H264);
    assert_eq!(codec(MediaKind::Audio), Codec::Opus);
    assert_eq!(track_id(MediaKind::Video), "video");
    assert_eq!(track_id(MediaKind::Audio), "audio");
}

#[test]
fn stream_and_server_are_fixed() {
    assert_eq!(stream_id(), "webrtc-rs");
    assert_eq!(discovery_server(), "stun:stun.l.google.com:19302");
}
