use media_streamer::error::ConnectError;
use media_streamer::negotiation::Negotiation;
use media_streamer::negotiation::Outcome;
use media_streamer::negotiation::Step;
use media_streamer::peer_connection::connect;
use media_streamer::source::MediaKind;
use media_streamer::source::MediaSource;
use webrtc::peer_connection::sdp::sdp_type::RTCSdpType;
use webrtc::peer_connection::sdp::session_description::RTCSessionDescription;

const VALID_OFFER: &str = "{\"type\":\"offer\",\"sdp\":\"v=0\\r\\nm=video 9 UDP/TLS/RTP/SAVPF 96\\r\\n\"}";

fn file(path: &str) -> MediaSource {
    MediaSource::LocalFile(path.to_string())
}

fn device(path: &str) -> MediaSource {
    MediaSource::CaptureDevice(path.to_string())
}

fn steps_of(negotiation: &mut Negotiation) -> Vec<Step> {
    let mut taken = Vec::new();
    while let Some(step) = negotiation.next_step() {
        taken.push(step);
        if step == Step::ReadLocalDescription {
            break;
        }
        negotiation.advance(Outcome::Done);
    }
    taken
}

fn offer_read() -> RTCSessionDescription {
    serde_json::from_str::<RTCSessionDescription>(VALID_OFFER).unwrap()
}

#[test]
fn video_file_is_probed_and_then_the_exchange_runs_in_order() {
    let mut negotiation = connect(file("clip.h264"), VALID_OFFER);
    assert_eq!(
        steps_of(&mut negotiation),
        vec![
            Step::ProbeSource(MediaKind::Video),
            Step::ConfigureCodecs,
            Step::BuildConnection,
            Step::AttachTrack(MediaKind::Video),
            Step::DrainFeedback(MediaKind::Video),
            Step::StartPacing(MediaKind::Video),
            Step::RegisterMonitor,
            Step::ApplyRemoteOffer,
            Step::CreateAnswer,
            Step::WatchGathering,
            Step::SetLocalDescription,
            Step::AwaitGathering,
            Step::ReadLocalDescription,
        ]
    );
    assert_eq!(negotiation.failure(), None);
}

#[test]
fn capture_device_is_probed_like_a_file() {
    let mut negotiation = connect(device("/dev/video0"), VALID_OFFER);
    let taken = steps_of(&mut negotiation);
    assert_eq!(taken.len(), 13);
    assert_eq!(taken[0], Step::ProbeSource(MediaKind::Video));
    assert_eq!(taken[1], Step::ConfigureCodecs);
    assert_eq!(taken[12], Step::ReadLocalDescription);
}

#[test]
fn absent_capture_device_ends_the_negotiation_before_anything_is_set_up() {
    let mut negotiation = connect(device("/dev/video9"), VALID_OFFER);
    assert_eq!(negotiation.next_step(), Some(Step::ProbeSource(MediaKind::Video)));
    negotiation.advance(Outcome::Failed(String::new()));
    assert_eq!(negotiation.next_step(), None);
    assert_eq!(
        negotiation.failure(),
        Some(&ConnectError::SourceNotFound {
            kind: MediaKind::Video,
            path: "/dev/video9".to_string()
        })
    );
}

#[test]
fn audio_adds_a_probe_and_a_second_track() {
    let mut negotiation =
        Negotiation::start(file("clip.h264"), Some("clip.ogg".to_string()), Ok(offer_read()));
    assert_eq!(
        steps_of(&mut negotiation),
        vec![
            Step::ProbeSource(MediaKind::Video),
            Step::ProbeSource(MediaKind::Audio),
            Step::ConfigureCodecs,
            Step::BuildConnection,
            Step::AttachTrack(MediaKind::Video),
            Step::DrainFeedback(MediaKind::Video),
            Step::StartPacing(MediaKind::Video),
            Step::AttachTrack(MediaKind::Audio),
            Step::DrainFeedback(MediaKind::Audio),
            Step::StartPacing(MediaKind::Audio),
            Step::RegisterMonitor,
            Step::ApplyRemoteOffer,
            Step::CreateAnswer,
            Step::WatchGathering,
            Step::SetLocalDescription,
            Step::AwaitGathering,
            Step::ReadLocalDescription,
        ]
    );
}

#[test]
fn absent_video_file_ends_the_negotiation_before_anything_is_set_up() {
    let mut negotiation = connect(file("/nowhere/clip.h264"), VALID_OFFER);
    assert_eq!(negotiation.next_step(), Some(Step::ProbeSource(MediaKind::Video)));
    negotiation.advance(Outcome::Failed(String::new()));
    assert_eq!(negotiation.next_step(), None);
    assert_eq!(
        negotiation.failure(),
        Some(&ConnectError::SourceNotFound {
            kind: MediaKind::Video,
            path: "/nowhere/clip.h264".to_string()
        })
    );
    assert_eq!(
        negotiation.failure().unwrap().message(),
        "video file: '/nowhere/clip.h264' not exist"
    );
}

#[test]
fn absent_audio_file_ends_the_negotiation_too() {
    let mut negotiation =
        Negotiation::start(device("/dev/video0"), Some("clip.ogg".to_string()), Ok(offer_read()));
    assert_eq!(negotiation.next_step(), Some(Step::ProbeSource(MediaKind::Video)));
    negotiation.advance(Outcome::Done);
    assert_eq!(negotiation.next_step(), Some(Step::ProbeSource(MediaKind::Audio)));
    negotiation.advance(Outcome::Failed(String::new()));
    assert_eq!(negotiation.next_step(), None);
    assert_eq!(
        negotiation.failure().unwrap().message(),
        "audio file: 'clip.ogg' not exist"
    );
}

#[test]
fn absent_source_comes_before_an_offer_that_cannot_be_read() {
    let mut negotiation = connect(file("clip.h264"), "not json");
    assert_eq!(negotiation.next_step(), Some(Step::ProbeSource(MediaKind::Video)));
    negotiation.advance(Outcome::Failed(String::new()));
    assert_eq!(
        negotiation.failure(),
        Some(&ConnectError::SourceNotFound { kind: MediaKind::Video, path: "clip.h264".to_string() })
    );
}

#[test]
fn malformed_offer_is_refused_once_the_source_is_found() {
    let mut negotiation = connect(file("clip.h264"), "not json");
    assert_eq!(negotiation.failure(), None);
    assert!(negotiation.remote_offer().is_none());
    negotiation.advance(Outcome::Done);
    assert_eq!(negotiation.next_step(), None);
    assert_eq!(
        negotiation.failure(),
        Some(&ConnectError::Deserialization("expected ident at line 1 column 2".to_string()))
    );
}

#[test]
fn offer_without_its_description_is_refused() {
    let mut negotiation = connect(device("/dev/video0"), "{\"type\":\"offer\"}");
    assert_eq!(negotiation.next_step(), Some(Step::ProbeSource(MediaKind::Video)));
    negotiation.advance(Outcome::Done);
    assert_eq!(negotiation.next_step(), None);
    match negotiation.failure() {
        Some(ConnectError::Deserialization(words)) => {
            assert_eq!(words, "missing field `sdp` at line 1 column 16")
        },
        other => panic!("not refused: {:?}", other),
    }
}

#[test]
fn offer_of_an_unknown_type_is_refused() {
    let mut negotiation = connect(device("/dev/video0"), "{\"type\":\"bid\",\"sdp\":\"\"}");
    negotiation.advance(Outcome::Done);
    assert!(matches!(negotiation.failure(), Some(ConnectError::Deserialization(_))));
    let mut negotiation = connect(device("/dev/video0"), "");
    negotiation.advance(Outcome::Done);
    assert_eq!(
        negotiation.failure(),
        Some(&ConnectError::Deserialization(
            "EOF while parsing a value at line 1 column 0".to_string()
        ))
    );
}

#[test]
fn offer_that_was_read_is_kept_for_the_step_that_applies_it() {
    let negotiation = connect(device("/dev/video0"), VALID_OFFER);
    let offer = negotiation.remote_offer().unwrap();
    assert_eq!(offer.sdp_type, RTCSdpType::Offer);
    assert_eq!(offer.sdp, "v=0\r\nm=video 9 UDP/TLS/RTP/SAVPF 96\r\n");
}

#[test]
fn refusal_handed_to_start_is_kept_in_its_words() {
    let mut negotiation =
        Negotiation::start(device("/dev/video0"), None, Err("no offer at all".to_string()));
    assert_eq!(negotiation.failure(), None);
    negotiation.advance(Outcome::Done);
    assert_eq!(
        negotiation.failure(),
        Some(&ConnectError::Deserialization("no offer at all".to_string()))
    );
    let mut negotiation = Negotiation::start(
        file("clip.h264"),
        Some("clip.ogg".to_string()),
        Err("no offer at all".to_string()),
    );
    assert_eq!(negotiation.next_step(), Some(Step::ProbeSource(MediaKind::Video)));
    negotiation.advance(Outcome::Done);
    assert_eq!(negotiation.next_step(), Some(Step::ProbeSource(MediaKind::Audio)));
    assert_eq!(negotiation.failure(), None);
    negotiation.advance(Outcome::Done);
    assert_eq!(negotiation.next_step(), None);
    assert_eq!(
        negotiation.failure(),
        Some(&ConnectError::Deserialization("no offer at all".to_string()))
    );
}

#[test]
fn failed_step_ends_the_negotiation_with_its_cause() {
    let mut negotiation = connect(device("/dev/video0"), VALID_OFFER);
    while negotiation.next_step() != Some(Step::ApplyRemoteOffer) {
        negotiation.advance(Outcome::Done);
    }
    negotiation.advance(Outcome::Failed("SetRemoteDescription called with no ice-ufrag".to_string()));
    assert_eq!(negotiation.next_step(), None);
    assert_eq!(
        negotiation.failure(),
        Some(&ConnectError::Negotiation(
            "SetRemoteDescription called with no ice-ufrag".to_string()
        ))
    );
}

#[test]
fn failure_is_final() {
    let mut negotiation = connect(device("/dev/video0"), VALID_OFFER);
    negotiation.advance(Outcome::Done);
    negotiation.advance(Outcome::Failed("first".to_string()));
    negotiation.advance(Outcome::Done);
    negotiation.advance(Outcome::Failed("second".to_string()));
    assert_eq!(negotiation.next_step(), None);
    assert_eq!(negotiation.failure(), Some(&ConnectError::Negotiation("first".to_string())));
}

#[test]
fn read_back_is_not_passed_by_a_report() {
    let mut negotiation = connect(device("/dev/video0"), VALID_OFFER);
    steps_of(&mut negotiation);
    negotiation.advance(Outcome::Done);
    assert_eq!(negotiation.next_step(), Some(Step::ReadLocalDescription));
    negotiation.advance(Outcome::Failed("late".to_string()));
    assert_eq!(negotiation.next_step(), Some(Step::ReadLocalDescription));
    assert_eq!(negotiation.failure(), None);
}

#[test]
fn paths_of_the_sources_are_there_for_the_steps() {
    let negotiation =
        Negotiation::start(file("clip.h264"), Some("clip.ogg".to_string()), Ok(offer_read()));
    assert_eq!(negotiation.source_path(MediaKind::Video), Some(&"clip.h264".to_string()));
    assert_eq!(negotiation.source_path(MediaKind::Audio), Some(&"clip.ogg".to_string()));
    let negotiation = connect(device("/dev/video0"), VALID_OFFER);
    assert_eq!(negotiation.source_path(MediaKind::Video), Some(&"/dev/video0".to_string()));
    assert_eq!(negotiation.source_path(MediaKind::Audio), None);
}

#[test]
fn absent_file_is_named_in_the_reply_as_the_descriptor_gives_it() {
    let descriptors = vec!["file:/nonexistent/file:x.h264".to_string()];
    let source = media_streamer::transport::select_source(&descriptors).unwrap();
    let mut negotiation = connect(source, "{}");
    assert_eq!(negotiation.next_step(), Some(Step::ProbeSource(MediaKind::Video)));
    assert_eq!(
        negotiation.source_path(MediaKind::Video),
        Some(&"/nonexistent/file:x.h264".to_string())
    );
    negotiation.advance(Outcome::Failed(String::new()));
    let failure = negotiation.failure().unwrap().clone();
    let reply = media_streamer::transport::reply_to(&Err(failure));
    assert_eq!(reply.status, 500);
    assert_eq!(reply.text, "video file: '/nonexistent/file:x.h264' not exist");
}
