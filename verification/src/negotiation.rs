//! The order of work that turns an offer into a session.
//!
//! Setting up a session is a fixed list of steps, each of which reaches out
//! to the connection and may take its time. A `Negotiation` holds the place
//! in that list: it names the step to take next, is told how the step went,
//! and decides what follows. Whoever drives it does the work of each step.

use crate::error::ConnectError;
use crate::peer_connection::PeerConnectionInfo;
use crate::source::MediaKind;
use crate::source::MediaSource;
use std::sync::Arc;
use tokio::sync::mpsc::Receiver;
use vstd::prelude::*;
use webrtc::peer_connection::sdp::session_description::RTCSessionDescription;
use webrtc::peer_connection::RTCPeerConnection;

verus! {

/// One piece of work on the way to a session.
#[derive(Debug, Clone, Copy, PartialEq, Eq, Structural)]
pub enum Step {
    /// Look whether the path of a source is there.
    ProbeSource(MediaKind),
    /// Register the default codecs and interceptors, and name the default
    /// public discovery server.
    ConfigureCodecs,
    /// Construct the connection, the connected notification and the
    /// termination channel.
    BuildConnection,
    /// Create the outbound track of this kind and add it to the connection.
    AttachTrack(MediaKind),
    /// Start the loop that reads and discards the track's feedback, which
    /// keeps loss recovery working.
    DrainFeedback(MediaKind),
    /// Start the task that paces the source onto the track once the
    /// connection is up.
    StartPacing(MediaKind),
    /// Register the callbacks that watch connectivity and session state.
    RegisterMonitor,
    /// Apply the remote offer.
    ApplyRemoteOffer,
    /// Create the local answer.
    CreateAnswer,
    /// Begin to wait for the end of candidate gathering.
    WatchGathering,
    /// Set the local description, which starts candidate gathering.
    SetLocalDescription,
    /// Block until candidate gathering has ended.
    AwaitGathering,
    /// Read the final local description back.
    ReadLocalDescription,
}

/// How a step went.
#[derive(Debug, Clone, PartialEq, Eq)]
pub enum Outcome {
    /// The step did its work. For a probe: the path is there.
    Done,
    /// The step failed, with the cause in words. For a probe: the path is
    /// not there.
    Failed(String),
}

/// The probes that come before anything is set up: one for the video
/// source, whatever its variant, and one for an audio file.
pub open spec fn probe_steps(audio: bool) -> Seq<Step> {
    seq![Step::ProbeSource(MediaKind::Video)] + (if audio {
        seq![Step::ProbeSource(MediaKind::Audio)]
    } else {
        Seq::<Step>::empty()
    })
}

/// The three steps that give a media kind its track.
pub open spec fn track_steps(kind: MediaKind) -> Seq<Step> {
    seq![Step::AttachTrack(kind), Step::DrainFeedback(kind), Step::StartPacing(kind)]
}

/// The steps from the first allocation to the final description. Video is
/// always carried, audio where there is an audio source.
pub open spec fn exchange_steps(audio: bool) -> Seq<Step> {
    seq![Step::ConfigureCodecs, Step::BuildConnection] + track_steps(MediaKind::Video) + (if audio {
        track_steps(MediaKind::Audio)
    } else {
        Seq::<Step>::empty()
    }) + seq![
        Step::RegisterMonitor,
        Step::ApplyRemoteOffer,
        Step::CreateAnswer,
        Step::WatchGathering,
        Step::SetLocalDescription,
        Step::AwaitGathering,
        Step::ReadLocalDescription,
    ]
}

/// The whole list of steps of a negotiation. With an offer that could not be
/// read it ends after the probes.
pub open spec fn plan_of(audio: bool, offer_readable: bool) -> Seq<Step> {
    probe_steps(audio) + (if offer_readable {
        exchange_steps(audio)
    } else {
        Seq::<Step>::empty()
    })
}

/// The state of a negotiation as contracts see it.
pub struct Progress {
    /// The video source.
    pub video: MediaSource,
    /// The audio file, where audio is carried.
    pub audio: Option<String>,
    /// The words with which the offer was refused, if it was.
    pub offer_fault: Option<String>,
    /// How many steps of the plan are done.
    pub completed: nat,
    /// Why the negotiation has ended without a session, if it has.
    pub failure: Option<ConnectError>,
}

impl Progress {
    /// The probes of this negotiation.
    pub open spec fn probes(self) -> Seq<Step> {
        probe_steps(self.audio is Some)
    }

    /// The steps of this negotiation, in the order in which they are taken.
    pub open spec fn plan(self) -> Seq<Step> {
        plan_of(self.audio is Some, self.offer_fault is None)
    }

    /// The steps that have been asked for so far: those done and the one
    /// that is pending or has failed.
    pub open spec fn requested(self) -> Seq<Step> {
        if self.completed < self.plan().len() {
            self.plan().take(self.completed as int + 1)
        } else {
            self.plan()
        }
    }

    /// The step to take next, if the negotiation goes on.
    pub open spec fn pending(self) -> Option<Step> {
        if self.failure is None && self.completed < self.plan().len() {
            Some(self.plan()[self.completed as int])
        } else {
            None
        }
    }

    /// The path of the source of one kind.
    pub open spec fn source_path(self, kind: MediaKind) -> String {
        match kind {
            MediaKind::Video => self.video.spec_path(),
            MediaKind::Audio => self.audio->0,
        }
    }

    /// The state in which a negotiation begins: nothing is done, nothing
    /// has failed, and the probe of the video source is pending.
    pub open spec fn initial(
        video: MediaSource,
        audio: Option<String>,
        offer_fault: Option<String>,
    ) -> Progress {
        Progress { video, audio, offer_fault, completed: 0, failure: None }
    }

    /// The state after the pending step has done its work. After the last
    /// probe, an offer that could not be read ends the negotiation.
    pub open spec fn passed(self) -> Progress {
        let next = Progress { completed: self.completed + 1, ..self };
        if next.completed == self.plan().len() {
            Progress {
                failure: Some(ConnectError::Deserialization(self.offer_fault->0)),
                ..next
            }
        } else {
            next
        }
    }

    /// The state after the pending step has ended with `outcome`. A probe
    /// that fails means that the source is not there; any other step that
    /// fails ends the negotiation with its cause. The read-back of the
    /// description is not reported here but to `conclusion`, and a
    /// negotiation that has ended stays as it is.
    pub open spec fn advance(self, outcome: Outcome) -> Progress {
        match self.pending() {
            None => self,
            Some(Step::ReadLocalDescription) => self,
            Some(Step::ProbeSource(kind)) => match outcome {
                Outcome::Done => self.passed(),
                Outcome::Failed(_) => Progress {
                    failure: Some(
                        ConnectError::SourceNotFound { kind, path: self.source_path(kind) },
                    ),
                    ..self
                },
            },
            Some(_) => match outcome {
                Outcome::Done => self.passed(),
                Outcome::Failed(cause) => Progress {
                    failure: Some(ConnectError::Negotiation(cause)),
                    ..self
                },
            },
        }
    }

    /// The state after a run of outcomes, reported one after the other.
    pub open spec fn after(self, outcomes: Seq<Outcome>) -> Progress
        decreases outcomes.len(),
    {
        if outcomes.len() == 0 {
            self
        } else {
            self.advance(outcomes[0]).after(outcomes.skip(1))
        }
    }

    /// What the negotiation comes to once the description has been read
    /// back: a session, if every step before the read-back is done and a
    /// description was there.
    pub open spec fn conclusion(
        self,
        connection: Arc<RTCPeerConnection>,
        closer: Receiver<()>,
        description: Option<RTCSessionDescription>,
    ) -> Result<PeerConnectionInfo, ConnectError> {
        match self.failure {
            Some(failure) => Err(failure),
            None => match description {
                Some(description) if self.pending() == Some(Step::ReadLocalDescription) => Ok(
                    PeerConnectionInfo { connection, description, closer },
                ),
                _ => Err(ConnectError::IncompleteNegotiation),
            },
        }
    }

    /// Validity: the place lies within the plan, a negotiation that goes on
    /// has a step pending, and a failure is one that the place allows.
    pub open spec fn wf(self) -> bool {
        &&& self.completed <= self.plan().len()
        &&& match self.failure {
            None => self.completed < self.plan().len(),
            Some(ConnectError::SourceNotFound { kind, path }) => {
                &&& self.completed < self.probes().len()
                &&& self.plan()[self.completed as int] == Step::ProbeSource(kind)
                &&& path == self.source_path(kind)
            },
            Some(ConnectError::Deserialization(words)) => {
                &&& self.offer_fault == Some(words)
                &&& self.completed == self.probes().len()
            },
            Some(ConnectError::Negotiation(_)) => {
                &&& self.offer_fault is None
                &&& self.probes().len() <= self.completed < self.plan().len() - 1
            },
            Some(ConnectError::IncompleteNegotiation) => false,
        }
    }
}

/// The words with which an offer was refused, if it was.
pub open spec fn fault_of(offer: Result<RTCSessionDescription, String>) -> Option<String> {
    match offer {
        Ok(_) => None,
        Err(words) => Some(words),
    }
}

/// The offer as it was read, if it could be read.
pub open spec fn reading_of(offer: Result<RTCSessionDescription, String>) -> Option<
    RTCSessionDescription,
> {
    match offer {
        Ok(read) => Some(read),
        Err(_) => None,
    }
}

/// Lays the steps of a negotiation out in their order.
fn lay_out(audio: bool, offer_readable: bool) -> (plan: Vec<Step>)
    ensures
        plan@ == plan_of(audio, offer_readable),
{
    let mut plan: Vec<Step> = Vec::new();
    plan.push(Step::ProbeSource(MediaKind::Video));
    if audio {
        plan.push(Step::ProbeSource(MediaKind::Audio));
    }
    assert(plan@ =~= probe_steps(audio));
    if offer_readable {
        plan.push(Step::ConfigureCodecs);
        plan.push(Step::BuildConnection);
        plan.push(Step::AttachTrack(MediaKind::Video));
        plan.push(Step::DrainFeedback(MediaKind::Video));
        plan.push(Step::StartPacing(MediaKind::Video));
        if audio {
            plan.push(Step::AttachTrack(MediaKind::Audio));
            plan.push(Step::DrainFeedback(MediaKind::Audio));
            plan.push(Step::StartPacing(MediaKind::Audio));
        }
        plan.push(Step::RegisterMonitor);
        plan.push(Step::ApplyRemoteOffer);
        plan.push(Step::CreateAnswer);
        plan.push(Step::WatchGathering);
        plan.push(Step::SetLocalDescription);
        plan.push(Step::AwaitGathering);
        plan.push(Step::ReadLocalDescription);
    }
    assert(plan@ =~= plan_of(audio, offer_readable));
    plan
}

/// A negotiation under way.
pub struct Negotiation {
    video: MediaSource,
    audio: Option<String>,
    offer: Result<RTCSessionDescription, String>,
    plan: Vec<Step>,
    completed: usize,
    failure: Option<ConnectError>,
}

impl View for Negotiation {
    type V = Progress;

    closed spec fn view(&self) -> Progress {
        Progress {
            video: self.video,
            audio: self.audio,
            offer_fault: fault_of(self.offer),
            completed: self.completed as nat,
            failure: self.failure,
        }
    }
}

impl Negotiation {
    /// Validity: the steps held are the plan of the state, and the state is
    /// valid.
    pub closed spec fn wf(&self) -> bool {
        &&& self.plan@ == self@.plan()
        &&& self@.wf()
    }

    /// The remote offer as it was read, if it could be read.
    pub closed spec fn offer(&self) -> Option<RTCSessionDescription> {
        reading_of(self.offer)
    }

    /// Begins a negotiation for a video source, an audio file where audio is
    /// wanted, and the remote offer as it was read or refused.
    pub fn start(
        video: MediaSource,
        audio: Option<String>,
        offer: Result<RTCSessionDescription, String>,
    ) -> (negotiation: Negotiation)
        ensures
            negotiation.wf(),
            negotiation@ == Progress::initial(video, audio, fault_of(offer)),
            negotiation.offer() == reading_of(offer),
    {
        let plan = lay_out(audio.is_some(), offer.is_ok());
        Negotiation { video, audio, offer, plan, completed: 0, failure: None }
    }

    /// The step to take next, or `None` once the negotiation has failed.
    pub fn next_step(&self) -> (step: Option<Step>)
        requires
            self.wf(),
        ensures
            step == self@.pending(),
    {
        if self.failure.is_some() {
            None
        } else {
            Some(self.plan[self.completed])
        }
    }

    /// Why the negotiation has failed, if it has.
    pub fn failure(&self) -> (failure: Option<&ConnectError>)
        ensures
            match failure {
                Some(failure) => self@.failure == Some(*failure),
                None => self@.failure is None,
            },
    {
        self.failure.as_ref()
    }

    /// The remote offer, for the step that applies it.
    pub fn remote_offer(&self) -> (offer: Option<&RTCSessionDescription>)
        ensures
            match offer {
                Some(offer) => self.offer() == Some(*offer),
                None => self.offer() is None,
            },
    {
        match &self.offer {
            Ok(offer) => Some(offer),
            Err(_) => None,
        }
    }

    /// The path of the source of one kind, where that kind is carried.
    pub fn source_path(&self, kind: MediaKind) -> (path: Option<&String>)
        ensures
            match path {
                Some(path) => *path == self@.source_path(kind),
                None => kind is Audio && self@.audio is None,
            },
    {
        match kind {
            MediaKind::Video => Some(self.video.path()),
            MediaKind::Audio => self.audio.as_ref(),
        }
    }

    /// Moves past the pending step.
    fn pass(&mut self)
        requires
            old(self).wf(),
            old(self)@.pending() is Some,
            old(self)@.pending() != Some(Step::ReadLocalDescription),
        ensures
            final(self).wf(),
            final(self)@ == old(self)@.passed(),
            final(self).offer() == old(self).offer(),
    {
        self.completed = self.completed + 1;
        if self.completed == self.plan.len() {
            match &self.offer {
                Err(words) => {
                    self.failure = Some(ConnectError::Deserialization(words.clone()));
                },
                Ok(_) => {},
            }
        }
    }

    /// Reports how the pending step went.
    pub fn advance(&mut self, outcome: Outcome)
        requires
            old(self).wf(),
        ensures
            final(self).wf(),
            final(self)@ == old(self)@.advance(outcome),
            final(self).offer() == old(self).offer(),
    {
        if self.failure.is_some() {
            return ;
        }
        match self.plan[self.completed] {
            Step::ReadLocalDescription => {},
            Step::ProbeSource(kind) => match outcome {
                Outcome::Done => self.pass(),
                Outcome::Failed(_) => {
                    let path = match kind {
                        MediaKind::Video => self.video.path().clone(),
                        MediaKind::Audio => self.audio.as_ref().unwrap().clone(),
                    };
                    self.failure = Some(ConnectError::SourceNotFound { kind, path });
                },
            },
            _ => match outcome {
                Outcome::Done => self.pass(),
                Outcome::Failed(cause) => {
                    self.failure = Some(ConnectError::Negotiation(cause));
                },
            },
        }
    }

    /// Ends the negotiation with what the read-back of the local description
    /// gave, and hands the session over if there is one.
    pub fn conclude(
        self,
        connection: Arc<RTCPeerConnection>,
        closer: Receiver<()>,
        description: Option<RTCSessionDescription>,
    ) -> (session: Result<PeerConnectionInfo, ConnectError>)
        requires
            self.wf(),
        ensures
            session == self@.conclusion(connection, closer, description),
    {
        match self.failure {
            Some(failure) => Err(failure),
            None => {
                let at_read_back = match self.plan[self.completed] {
                    Step::ReadLocalDescription => true,
                    _ => false,
                };
                match description {
                    Some(description) if at_read_back => Ok(
                        PeerConnectionInfo { connection, description, closer },
                    ),
                    _ => Err(ConnectError::IncompleteNegotiation),
                }
            },
        }
    }
}

/// The exchange keeps its order: the callbacks that watch the connection
/// are registered before a description is touched, the remote offer is
/// applied before the answer is made, the wait for the end of gathering is
/// set up before the local description starts it, and the description is
/// read back last, after gathering has ended. No step occurs twice, so there
/// is one exchange of descriptions for a session.
pub proof fn law_exchange_order(audio: bool)
    ensures
        exchange_steps(audio).no_duplicates(),
        exchange_steps(audio).len() == if audio { 15nat } else { 12nat },
        exchange_steps(audio)[0] == Step::ConfigureCodecs,
        exchange_steps(audio)[1] == Step::BuildConnection,
        ({
            let steps = exchange_steps(audio);
            let n = steps.len() as int;
            &&& steps[n - 7] == Step::RegisterMonitor
            &&& steps[n - 6] == Step::ApplyRemoteOffer
            &&& steps[n - 5] == Step::CreateAnswer
            &&& steps[n - 4] == Step::WatchGathering
            &&& steps[n - 3] == Step::SetLocalDescription
            &&& steps[n - 2] == Step::AwaitGathering
            &&& steps[n - 1] == Step::ReadLocalDescription
        }),
{
}

/// Whatever is reported to a valid negotiation, it stays valid, keeps its
/// sources and its offer, and never goes back in its plan.
pub proof fn law_validity_is_kept(progress: Progress, outcomes: Seq<Outcome>)
    requires
        progress.wf(),
    ensures
        progress.after(outcomes).wf(),
        progress.after(outcomes).video == progress.video,
        progress.after(outcomes).audio == progress.audio,
        progress.after(outcomes).offer_fault == progress.offer_fault,
        progress.after(outcomes).completed >= progress.completed,
    decreases outcomes.len(),
{
    if outcomes.len() > 0 {
        law_validity_is_kept(progress.advance(outcomes[0]), outcomes.skip(1));
    }
}

/// A negotiation begins in a valid state.
pub proof fn law_beginning_is_valid(
    video: MediaSource,
    audio: Option<String>,
    offer_fault: Option<String>,
)
    ensures
        Progress::initial(video, audio, offer_fault).wf(),
{
}

/// A failure is final: a negotiation that has failed names no further step
/// and is not changed by anything reported to it.
pub proof fn law_failure_is_final(progress: Progress, outcomes: Seq<Outcome>)
    requires
        progress.failure is Some,
    ensures
        progress.pending() is None,
        progress.after(outcomes) == progress,
    decreases outcomes.len(),
{
    if outcomes.len() > 0 {
        law_failure_is_final(progress, outcomes.skip(1));
    }
}

/// A source that is not there ends the negotiation before anything is set
/// up: in a negotiation that has failed with `SourceNotFound`, every step
/// that was ever asked for is a probe.
pub proof fn law_absent_source_sets_nothing_up(progress: Progress)
    requires
        progress.wf(),
        progress.failure matches Some(ConnectError::SourceNotFound { .. }),
    ensures
        forall|i: int|
            0 <= i < progress.requested().len() ==> #[trigger] progress.requested()[i]
                is ProbeSource,
{
}

/// A video source that is not there, be it a file or a capture device: the
/// negotiation asks for its probe first, and once the probe has failed the
/// end is `SourceNotFound` with the path of the source, whatever the offer
/// holds and whatever is reported later.
pub proof fn law_absent_video_source(
    video: MediaSource,
    audio: Option<String>,
    offer_fault: Option<String>,
    cause: String,
    later: Seq<Outcome>,
    connection: Arc<RTCPeerConnection>,
    closer: Receiver<()>,
    description: Option<RTCSessionDescription>,
)
    ensures
        Progress::initial(video, audio, offer_fault).pending() == Some(
            Step::ProbeSource(MediaKind::Video),
        ),
        ({
            let end = Progress::initial(video, audio, offer_fault).advance(
                Outcome::Failed(cause),
            ).after(later);
            &&& end.requested() == seq![Step::ProbeSource(MediaKind::Video)]
            &&& end.conclusion(connection, closer, description) == Err::<
                PeerConnectionInfo,
                ConnectError,
            >(ConnectError::SourceNotFound { kind: MediaKind::Video, path: video.spec_path() })
        }),
{
    let failed = Progress::initial(video, audio, offer_fault).advance(Outcome::Failed(cause));
    law_failure_is_final(failed, later);
    assert(failed.requested() =~= seq![Step::ProbeSource(MediaKind::Video)]);
}

/// An offer that cannot be read: nothing but probes is ever asked for, and
/// once every probe has found its path the end is `Deserialization` with the
/// words of the refusal.
pub proof fn law_unreadable_offer(
    video: MediaSource,
    audio: Option<String>,
    words: String,
    outcomes: Seq<Outcome>,
    connection: Arc<RTCPeerConnection>,
    closer: Receiver<()>,
    description: Option<RTCSessionDescription>,
)
    ensures
        ({
            let start = Progress::initial(video, audio, Some(words));
            let end = start.after(outcomes);
            &&& forall|i: int|
                0 <= i < end.requested().len() ==> #[trigger] end.requested()[i] is ProbeSource
            &&& end.conclusion(connection, closer, description) is Err
            &&& (outcomes.len() >= start.probes().len() && (forall|i: int|
                0 <= i < start.probes().len() ==> #[trigger] outcomes[i] is Done))
                ==> end.conclusion(connection, closer, description) == Err::<
                PeerConnectionInfo,
                ConnectError,
            >(ConnectError::Deserialization(words))
        }),
{
    let start = Progress::initial(video, audio, Some(words));
    let end = start.after(outcomes);
    law_validity_is_kept(start, outcomes);
    assert(end.plan() =~= end.probes());
    if outcomes.len() >= start.probes().len() && (forall|i: int|
        0 <= i < start.probes().len() ==> #[trigger] outcomes[i] is Done) {
        lemma_probes_pass(start, outcomes);
    }
}

/// With an offer that cannot be read, probes that all find their path lead
/// to the refusal of the offer.
proof fn lemma_probes_pass(progress: Progress, outcomes: Seq<Outcome>)
    requires
        progress.wf(),
        progress.offer_fault is Some,
        progress.failure is None || progress.failure == Some(
            ConnectError::Deserialization(progress.offer_fault->0),
        ),
        outcomes.len() >= progress.probes().len() - progress.completed,
        forall|i: int|
            0 <= i < progress.probes().len() - progress.completed ==> #[trigger] outcomes[i]
                is Done,
    ensures
        progress.after(outcomes).failure == Some(
            ConnectError::Deserialization(progress.offer_fault->0),
        ),
    decreases outcomes.len(),
{
    if progress.failure is Some {
        law_failure_is_final(progress, outcomes);
    } else {
        assert(progress.plan() =~= progress.probes());
        assert(outcomes[0] is Done);
        let next = progress.advance(outcomes[0]);
        assert forall|i: int| 0 <= i < next.probes().len() - next.completed implies #[trigger] outcomes.skip(
            1,
        )[i] is Done by {
            assert(outcomes[i + 1] is Done);
        }
        lemma_probes_pass(next, outcomes.skip(1));
    }
}

/// A session needs every step: the end of a valid negotiation is a session
/// exactly when the offer was read, nothing has failed, every step before
/// the read-back is done, the last of them the wait for the end of
/// gathering, and a description was read back. The session then holds that
/// description, with the connection and the channel that were handed in.
pub proof fn law_session_needs_every_step(
    progress: Progress,
    connection: Arc<RTCPeerConnection>,
    closer: Receiver<()>,
    description: Option<RTCSessionDescription>,
)
    requires
        progress.wf(),
    ensures
        progress.conclusion(connection, closer, description) is Ok <==> {
            &&& progress.offer_fault is None
            &&& progress.failure is None
            &&& progress.completed + 1 == progress.plan().len()
            &&& description is Some
        },
        progress.conclusion(connection, closer, description) is Ok ==> {
            &&& progress.plan()[progress.completed - 1] == Step::AwaitGathering
            &&& progress.plan()[progress.completed as int] == Step::ReadLocalDescription
            &&& progress.conclusion(connection, closer, description) == Ok::<
                PeerConnectionInfo,
                ConnectError,
            >(PeerConnectionInfo { connection, description: description->0, closer })
        },
{
    if progress.failure is None {
        let steps = progress.plan();
        let n = steps.len() as int;
        if progress.offer_fault is None {
            law_exchange_order(progress.audio is Some);
            assert(steps[n - 1] == Step::ReadLocalDescription);
            assert(steps[n - 2] == Step::AwaitGathering);
            if progress.completed + 1 < n {
                lemma_read_back_is_last(progress.audio is Some);
            }
        } else {
            assert(steps =~= progress.probes());
        }
    }
}

/// The read-back of the description stands at the end of a plan and nowhere
/// else.
proof fn lemma_read_back_is_last(audio: bool)
    ensures
        forall|i: int|
            0 <= i < plan_of(audio, true).len() - 1 ==> #[trigger] plan_of(audio, true)[i]
                != Step::ReadLocalDescription,
{
}

/// A clean run gives a session: with an offer that was read, every step
/// before the read-back reported as done, and a description read back, the
/// negotiation ends in the session that holds this description.
pub proof fn law_clean_run_gives_session(
    video: MediaSource,
    audio: Option<String>,
    outcomes: Seq<Outcome>,
    connection: Arc<RTCPeerConnection>,
    closer: Receiver<()>,
    description: RTCSessionDescription,
)
    requires
        outcomes.len() + 1 == Progress::initial(video, audio, None).plan().len(),
        forall|i: int| 0 <= i < outcomes.len() ==> #[trigger] outcomes[i] is Done,
    ensures
        Progress::initial(video, audio, None).after(outcomes).pending() == Some(
            Step::ReadLocalDescription,
        ),
        Progress::initial(video, audio, None).after(outcomes).conclusion(
            connection,
            closer,
            Some(description),
        ) == Ok::<PeerConnectionInfo, ConnectError>(
            PeerConnectionInfo { connection, description, closer },
        ),
{
    let start = Progress::initial(video, audio, None);
    lemma_done_steps_move_on(start, outcomes);
    let end = start.after(outcomes);
    law_exchange_order(audio is Some);
    assert(end.plan()[end.plan().len() - 1] == Step::ReadLocalDescription);
}

/// With an offer that was read, steps that are done move the negotiation
/// on by one each, as long as they stop short of the read-back.
proof fn lemma_done_steps_move_on(progress: Progress, outcomes: Seq<Outcome>)
    requires
        progress.wf(),
        progress.offer_fault is None,
        progress.failure is None,
        progress.completed + outcomes.len() + 1 <= progress.plan().len(),
        forall|i: int| 0 <= i < outcomes.len() ==> #[trigger] outcomes[i] is Done,
    ensures
        progress.after(outcomes) == (Progress {
            completed: progress.completed + outcomes.len(),
            ..progress
        }),
    decreases outcomes.len(),
{
    if outcomes.len() > 0 {
        lemma_read_back_is_last(progress.audio is Some);
        assert(outcomes[0] is Done);
        let next = progress.advance(outcomes[0]);
        assert(next == Progress { completed: progress.completed + 1, ..progress });
        assert forall|i: int| 0 <= i < outcomes.skip(1).len() implies #[trigger] outcomes.skip(
            1,
        )[i] is Done by {
            assert(outcomes[i + 1] is Done);
        }
        lemma_done_steps_move_on(next, outcomes.skip(1));
    }
}

} // verus!
