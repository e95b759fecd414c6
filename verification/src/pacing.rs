//! Pacing of encoded media units onto an outbound track.
//!
//! One pacer runs for each track. It waits for the connection, then reads a
//! unit, writes it as a sample and waits for the next tick of its timer, until
//! the source runs out or a write fails. The pacer decides; whoever drives
//! it reads, writes and waits.

use crate::source::MediaKind;
use vstd::prelude::*;

verus! {

/// Period of the timer that paces video, in milliseconds.
pub const VIDEO_TICK_MS: u64 = 33;

/// Period of the timer that paces audio, in milliseconds: the nominal length
/// of a container page.
pub const AUDIO_TICK_MS: u64 = 20;

/// Duration with which every video sample is written, in milliseconds.
pub const VIDEO_SAMPLE_MS: u64 = 1000;

/// Playout time, in whole milliseconds, of the samples that lie between two
/// positions of the container's sample counter, at a clock of 48000 samples
/// a second.
pub open spec fn playout_millis(previous: u64, current: u64) -> int {
    (current - previous) * 1000 / 48000
}

/// Computes the playout duration of one container page from the counter of
/// the page before it and its own.
pub fn page_duration_ms(previous: u64, current: u64) -> (ms: u64)
    requires
        previous <= current,
    ensures
        ms == playout_millis(previous, current),
{
    let samples: u128 = (current - previous) as u128;
    let ms: u128 = samples * 1000 / 48000;
    ms as u64
}

/// The period of the timer that paces a kind of media, in milliseconds.
pub open spec fn tick_period(kind: MediaKind) -> u64 {
    match kind {
        MediaKind::Video => VIDEO_TICK_MS,
        MediaKind::Audio => AUDIO_TICK_MS,
    }
}

/// Where a pacer stands in its loop.
#[derive(Debug, Clone, Copy, PartialEq, Eq, Structural)]
pub enum Phase {
    /// Waiting for the notification that the connection is up.
    AwaitingConnection,
    /// A unit is being read from the source.
    Reading,
    /// A sample is being written to the track.
    Writing,
    /// Waiting for the next tick of the timer.
    AwaitingTick,
    /// The source has run out. The loop has ended.
    Exhausted,
    /// A write has failed. The loop has ended.
    Aborted,
}

/// What a pacer is told.
#[derive(Debug, Clone, PartialEq, Eq)]
pub enum Event {
    /// The connection is up.
    Connected,
    /// The source gave a unit. `position` is the container's sample counter
    /// at the unit; a source without one gives 0.
    Unit { payload: Vec<u8>, position: u64 },
    /// The source gave no further unit.
    EndOfStream,
    /// The sample was written.
    Written,
    /// The sample could not be written.
    WriteFailed,
    /// The timer ticked.
    Tick,
}

/// What a pacer asks for.
#[derive(Debug, Clone, PartialEq, Eq)]
pub enum Action {
    /// Read the next unit from the source.
    ReadUnit,
    /// Write this sample to the track.
    WriteSample { payload: Vec<u8>, duration_ms: u64 },
    /// Wait for the next tick of the timer.
    AwaitTick,
    /// Send a termination signal and end the task.
    SignalTermination,
    /// End the task. No termination signal is sent.
    Stop,
    /// Nothing: the event has no meaning where the pacer stands, and is
    /// dropped.
    Nothing,
}

/// The state of a pacer as contracts see it.
pub struct Pace {
    /// The kind of media that is paced.
    pub kind: MediaKind,
    /// The place in the loop.
    pub phase: Phase,
    /// The sample counter at the last unit read; 0 before the first, and for
    /// video throughout.
    pub position: u64,
}

impl Pace {
    /// A pacer before the connection is up.
    pub open spec fn fresh(kind: MediaKind) -> Pace {
        Pace { kind, phase: Phase::AwaitingConnection, position: 0 }
    }

    /// Whether the loop has ended.
    pub open spec fn ended(self) -> bool {
        self.phase is Exhausted || self.phase is Aborted
    }

    /// Whether an event can be taken: the sample counter of an audio source
    /// never runs backwards.
    pub open spec fn accepts(self, event: Event) -> bool {
        (self.kind is Audio && self.phase is Reading) ==> (event matches Event::Unit {
            position,
            ..
        } ==> self.position <= position)
    }

    /// The duration of the sample made of a unit read at `position`: a fixed
    /// one for video, the playout time since the unit before for audio.
    pub open spec fn sample_ms(self, position: u64) -> u64 {
        match self.kind {
            MediaKind::Video => VIDEO_SAMPLE_MS,
            MediaKind::Audio => playout_millis(self.position, position) as u64,
        }
    }

    /// The sample counter after a unit read at `position`.
    pub open spec fn moved_to(self, position: u64) -> u64 {
        match self.kind {
            MediaKind::Video => self.position,
            MediaKind::Audio => position,
        }
    }

    /// The state after an event, and what the pacer asks for.
    pub open spec fn step(self, event: Event) -> (Pace, Action) {
        match (self.phase, event) {
            (Phase::AwaitingConnection, Event::Connected) => (
                Pace { phase: Phase::Reading, ..self },
                Action::ReadUnit,
            ),
            (Phase::Reading, Event::Unit { payload, position }) => (
                Pace { phase: Phase::Writing, position: self.moved_to(position), ..self },
                Action::WriteSample { payload, duration_ms: self.sample_ms(position) },
            ),
            (Phase::Reading, Event::EndOfStream) => (
                Pace { phase: Phase::Exhausted, ..self },
                Action::SignalTermination,
            ),
            (Phase::Writing, Event::Written) => (
                Pace { phase: Phase::AwaitingTick, ..self },
                Action::AwaitTick,
            ),
            (Phase::Writing, Event::WriteFailed) => (
                Pace { phase: Phase::Aborted, ..self },
                Action::Stop,
            ),
            (Phase::AwaitingTick, Event::Tick) => (
                Pace { phase: Phase::Reading, ..self },
                Action::ReadUnit,
            ),
            _ => (self, Action::Nothing),
        }
    }

    /// The state after a run of events.
    pub open spec fn after(self, events: Seq<Event>) -> Pace
        decreases events.len(),
    {
        if events.len() == 0 {
            self
        } else {
            self.step(events[0]).0.after(events.skip(1))
        }
    }

    /// What the pacer asks for in a run of events, one action for each.
    pub open spec fn actions(self, events: Seq<Event>) -> Seq<Action>
        decreases events.len(),
    {
        if events.len() == 0 {
            Seq::<Action>::empty()
        } else {
            seq![self.step(events[0]).1] + self.step(events[0]).0.actions(events.skip(1))
        }
    }
}

/// A pacer for one track.
pub struct Pacer {
    kind: MediaKind,
    phase: Phase,
    position: u64,
}

impl View for Pacer {
    type V = Pace;

    closed spec fn view(&self) -> Pace {
        Pace { kind: self.kind, phase: self.phase, position: self.position }
    }
}

impl Pacer {
    /// A pacer for a track of one kind, before the connection is up.
    pub fn new(kind: MediaKind) -> (pacer: Pacer)
        ensures
            pacer@ == Pace::fresh(kind),
    {
        Pacer { kind, phase: Phase::AwaitingConnection, position: 0 }
    }

    /// The period of the timer that this pacer waits on, in milliseconds.
    pub fn tick_period_ms(&self) -> (ms: u64)
        ensures
            ms == tick_period(self@.kind),
    {
        match self.kind {
            MediaKind::Video => VIDEO_TICK_MS,
            MediaKind::Audio => AUDIO_TICK_MS,
        }
    }

    /// Where the pacer stands.
    pub fn phase(&self) -> (phase: Phase)
        ensures
            phase == self@.phase,
    {
        self.phase
    }

    /// Tells whether an event can be taken where the pacer stands.
    pub fn accepts(&self, event: &Event) -> (accepted: bool)
        ensures
            accepted == self@.accepts(*event),
    {
        match (self.kind, self.phase, event) {
            (MediaKind::Audio, Phase::Reading, Event::Unit { payload: _, position }) => {
                self.position <= *position
            },
            _ => true,
        }
    }

    /// Takes an event and tells what to do next.
    pub fn step(&mut self, event: Event) -> (action: Action)
        requires
            old(self)@.accepts(event),
        ensures
            (final(self)@, action) == old(self)@.step(event),
    {
        match (self.phase, event) {
            (Phase::AwaitingConnection, Event::Connected) => {
                self.phase = Phase::Reading;
                Action::ReadUnit
            },
            (Phase::Reading, Event::Unit { payload, position }) => {
                let duration_ms = match self.kind {
                    MediaKind::Video => VIDEO_SAMPLE_MS,
                    MediaKind::Audio => {
                        let ms = page_duration_ms(self.position, position);
                        self.position = position;
                        ms
                    },
                };
                self.phase = Phase::Writing;
                Action::WriteSample { payload, duration_ms }
            },
            (Phase::Reading, Event::EndOfStream) => {
                self.phase = Phase::Exhausted;
                Action::SignalTermination
            },
            (Phase::Writing, Event::Written) => {
                self.phase = Phase::AwaitingTick;
                Action::AwaitTick
            },
            (Phase::Writing, Event::WriteFailed) => {
                self.phase = Phase::Aborted;
                Action::Stop
            },
            (Phase::AwaitingTick, Event::Tick) => {
                self.phase = Phase::Reading;
                Action::ReadUnit
            },
            _ => Action::Nothing,
        }
    }
}

/// The events of a loop that nothing disturbs, over the units of a source,
/// each with its sample counter: every unit is read, written and followed by
/// a tick, and then the source gives no more.
pub open spec fn playback(units: Seq<(Vec<u8>, u64)>) -> Seq<Event>
    decreases units.len(),
{
    if units.len() == 0 {
        seq![Event::EndOfStream]
    } else {
        seq![
            Event::Unit { payload: units[0].0, position: units[0].1 },
            Event::Written,
            Event::Tick,
        ] + playback(units.skip(1))
    }
}

/// The samples that a run of actions writes, each with its duration, in the
/// order in which they are written.
pub open spec fn samples(actions: Seq<Action>) -> Seq<(Vec<u8>, u64)>
    decreases actions.len(),
{
    if actions.len() == 0 {
        Seq::<(Vec<u8>, u64)>::empty()
    } else {
        (match actions[0] {
            Action::WriteSample { payload, duration_ms } => seq![(payload, duration_ms)],
            _ => Seq::<(Vec<u8>, u64)>::empty(),
        }) + samples(actions.skip(1))
    }
}

/// The samples that the units of a source make, for a pacer that is about
/// to read the first of them: one for each unit, with the unit's payload and
/// the duration that the pacer gives it.
pub open spec fn paced(pace: Pace, units: Seq<(Vec<u8>, u64)>) -> Seq<(Vec<u8>, u64)>
    decreases units.len(),
{
    if units.len() == 0 {
        Seq::<(Vec<u8>, u64)>::empty()
    } else {
        seq![(units[0].0, pace.sample_ms(units[0].1))] + paced(
            Pace { position: pace.moved_to(units[0].1), ..pace },
            units.skip(1),
        )
    }
}

/// Nothing is written before the connection is up: as long as no event
/// says that it is, a fresh pacer stays where it is and asks for nothing.
pub proof fn law_nothing_before_connection(kind: MediaKind, events: Seq<Event>)
    requires
        forall|i: int| 0 <= i < events.len() ==> !(#[trigger] events[i] is Connected),
    ensures
        Pace::fresh(kind).after(events) == Pace::fresh(kind),
        Pace::fresh(kind).actions(events).len() == events.len(),
        forall|i: int|
            0 <= i < events.len() ==> #[trigger] Pace::fresh(kind).actions(events)[i]
                == Action::Nothing,
        samples(Pace::fresh(kind).actions(events)).len() == 0,
    decreases events.len(),
{
    let fresh = Pace::fresh(kind);
    if events.len() > 0 {
        assert(!(events[0] is Connected));
        assert forall|i: int| 0 <= i < events.skip(1).len() implies !(#[trigger] events.skip(
            1,
        )[i] is Connected) by {
            assert(!(events[i + 1] is Connected));
        }
        law_nothing_before_connection(kind, events.skip(1));
        let rest = fresh.actions(events.skip(1));
        let all = fresh.actions(events);
        assert(all =~= seq![Action::Nothing] + rest);
        assert(all.skip(1) =~= rest);
        assert forall|i: int| 0 <= i < events.len() implies #[trigger] all[i]
            == Action::Nothing by {
            if i > 0 {
                assert(rest[i - 1] == Action::Nothing);
            }
        }
    }
}

/// The connection starts the loop once: a pacer that is past its wait for
/// the connection drops the notification.
pub proof fn law_connection_counts_once(pace: Pace)
    requires
        !(pace.phase is AwaitingConnection),
    ensures
        pace.step(Event::Connected) == (pace, Action::Nothing),
{
}

/// A loop that has ended never starts again: the pacer stays where it is
/// and asks for nothing, whatever it is told.
pub proof fn law_ended_loop_never_restarts(pace: Pace, events: Seq<Event>)
    requires
        pace.ended(),
    ensures
        pace.after(events) == pace,
        pace.actions(events).len() == events.len(),
        forall|i: int|
            0 <= i < events.len() ==> #[trigger] pace.actions(events)[i] == Action::Nothing,
    decreases events.len(),
{
    if events.len() > 0 {
        law_ended_loop_never_restarts(pace, events.skip(1));
        let rest = pace.actions(events.skip(1));
        let all = pace.actions(events);
        assert(all =~= seq![Action::Nothing] + rest);
        assert forall|i: int| 0 <= i < events.len() implies #[trigger] all[i]
            == Action::Nothing by {
            if i > 0 {
                assert(rest[i - 1] == Action::Nothing);
            }
        }
    }
}

/// What the units of a source come to: one sample for each unit, with the
/// payload of the unit, in the order of the source. A video sample has the
/// fixed duration; an audio sample has the playout time between the counter
/// of the unit before it (for the first, the counter that the pacer holds)
/// and its own.
pub proof fn law_one_sample_for_each_unit(pace: Pace, units: Seq<(Vec<u8>, u64)>)
    ensures
        paced(pace, units).len() == units.len(),
        forall|k: int| 0 <= k < units.len() ==> (#[trigger] paced(pace, units)[k]).0 == units[k].0,
        pace.kind is Video ==> forall|k: int|
            0 <= k < units.len() ==> (#[trigger] paced(pace, units)[k]).1 == VIDEO_SAMPLE_MS,
        pace.kind is Audio ==> forall|k: int|
            0 <= k < units.len() ==> (#[trigger] paced(pace, units)[k]).1 == playout_millis(
                if k == 0 {
                    pace.position
                } else {
                    units[k - 1].1
                },
                units[k].1,
            ) as u64,
    decreases units.len(),
{
    if units.len() > 0 {
        let next = Pace { position: pace.moved_to(units[0].1), ..pace };
        let rest = units.skip(1);
        law_one_sample_for_each_unit(next, rest);
        let tail = paced(next, rest);
        let all = paced(pace, units);
        assert forall|k: int| 0 <= k < units.len() implies (#[trigger] all[k]).0
            == units[k].0 by {
            if k > 0 {
                assert(all[k] == tail[k - 1]);
                assert(rest[k - 1] == units[k]);
            }
        }
        if pace.kind is Video {
            assert forall|k: int| 0 <= k < units.len() implies (#[trigger] all[k]).1
                == VIDEO_SAMPLE_MS by {
                if k > 0 {
                    assert(all[k] == tail[k - 1]);
                }
            }
        }
        if pace.kind is Audio {
            assert forall|k: int| 0 <= k < units.len() implies (#[trigger] all[k]).1
                == playout_millis(
                if k == 0 {
                    pace.position
                } else {
                    units[k - 1].1
                },
                units[k].1,
            ) as u64 by {
                if k > 0 {
                    assert(all[k] == tail[k - 1]);
                    assert(rest[k - 1] == units[k]);
                    if k > 1 {
                        assert(rest[k - 2] == units[k - 1]);
                    }
                }
            }
        }
    }
}

/// Every unit is written, in order: a fresh pacer that is told of the
/// connection and then runs undisturbed over a source writes one sample for
/// each unit of the source, in the order of the source and with the
/// durations that `paced` gives, waits for one tick after each, and ends
/// with the source run out and a termination signal as its last action.
pub proof fn law_every_unit_is_written_in_order(kind: MediaKind, units: Seq<(Vec<u8>, u64)>)
    ensures
        ({
            let events = seq![Event::Connected] + playback(units);
            let actions = Pace::fresh(kind).actions(events);
            &&& samples(actions) == paced(Pace::fresh(kind), units)
            &&& samples(actions).len() == units.len()
            &&& forall|k: int|
                0 <= k < units.len() ==> (#[trigger] samples(actions)[k]).0 == units[k].0
            &&& actions.len() == 3 * units.len() + 2
            &&& actions[0] == Action::ReadUnit
            &&& actions.last() == Action::SignalTermination
            &&& Pace::fresh(kind).after(events).phase == Phase::Exhausted
        }),
{
    let fresh = Pace::fresh(kind);
    let reading = Pace { phase: Phase::Reading, ..fresh };
    let events = seq![Event::Connected] + playback(units);
    assert(events.skip(1) =~= playback(units));
    lemma_undisturbed_loop(reading, units);
    law_one_sample_for_each_unit(reading, units);
    let inner = reading.actions(playback(units));
    let actions = fresh.actions(events);
    assert(actions =~= seq![Action::ReadUnit] + inner);
    assert(actions.skip(1) =~= inner);
    assert(samples(actions) =~= samples(inner));
    assert(paced(reading, units) == paced(fresh, units)) by {
        lemma_paced_ignores_phase(reading, fresh, units);
    }
}

/// The samples of a source do not depend on where in its loop the pacer
/// stands.
proof fn lemma_paced_ignores_phase(one: Pace, other: Pace, units: Seq<(Vec<u8>, u64)>)
    requires
        one.kind == other.kind,
        one.position == other.position,
    ensures
        paced(one, units) == paced(other, units),
    decreases units.len(),
{
    if units.len() > 0 {
        lemma_paced_ignores_phase(
            Pace { position: one.moved_to(units[0].1), ..one },
            Pace { position: other.moved_to(units[0].1), ..other },
            units.skip(1),
        );
    }
}

/// A pacer that is about to read runs through an undisturbed loop.
proof fn lemma_undisturbed_loop(pace: Pace, units: Seq<(Vec<u8>, u64)>)
    requires
        pace.phase is Reading,
    ensures
        samples(pace.actions(playback(units))) == paced(pace, units),
        pace.actions(playback(units)).len() == 3 * units.len() + 1,
        pace.actions(playback(units)).last() == Action::SignalTermination,
        pace.after(playback(units)).phase == Phase::Exhausted,
    decreases units.len(),
{
    let events = playback(units);
    if units.len() == 0 {
        assert(events.skip(1) =~= Seq::<Event>::empty());
        let ended = pace.step(events[0]).0;
        assert(ended.actions(events.skip(1)) =~= Seq::<Action>::empty());
        assert(ended.after(events.skip(1)) == ended);
        let actions = pace.actions(events);
        assert(actions =~= seq![Action::SignalTermination]);
        assert(actions.skip(1) =~= Seq::<Action>::empty());
        assert(samples(actions.skip(1)) =~= Seq::<(Vec<u8>, u64)>::empty());
        assert(samples(actions) =~= Seq::<(Vec<u8>, u64)>::empty());
    } else {
        let payload = units[0].0;
        let position = units[0].1;
        let rest = playback(units.skip(1));
        let written = pace.step(events[0]).0;
        let ticking = written.step(Event::Written).0;
        let next = ticking.step(Event::Tick).0;
        assert(events.skip(1) =~= seq![Event::Written, Event::Tick] + rest);
        assert(events.skip(1).skip(1) =~= seq![Event::Tick] + rest);
        assert(events.skip(1).skip(1).skip(1) =~= rest);
        assert(next == Pace { phase: Phase::Reading, position: pace.moved_to(position), ..pace });
        lemma_undisturbed_loop(next, units.skip(1));
        assert(ticking.after(events.skip(1).skip(1)) == next.after(rest));
        assert(written.after(events.skip(1)) == ticking.after(events.skip(1).skip(1)));
        lemma_paced_ignores_phase(
            next,
            Pace { position: pace.moved_to(position), ..pace },
            units.skip(1),
        );
        let tail = next.actions(rest);
        let sample = Action::WriteSample { payload, duration_ms: pace.sample_ms(position) };
        let from_tick = ticking.actions(events.skip(1).skip(1));
        let from_write = written.actions(events.skip(1));
        let actions = pace.actions(events);
        assert(from_tick =~= seq![Action::ReadUnit] + tail);
        assert(from_write =~= seq![Action::AwaitTick] + from_tick);
        assert(actions =~= seq![sample] + from_write);
        assert(from_tick.skip(1) =~= tail);
        assert(from_write.skip(1) =~= from_tick);
        assert(actions.skip(1) =~= from_write);
        assert(samples(from_tick) =~= samples(tail));
        assert(samples(from_write) =~= samples(from_tick));
        assert(samples(actions) =~= seq![(payload, pace.sample_ms(position))] + samples(
            from_write,
        ));
    }
}

} // verus!
