//! The end of a session: who may ask for it, and that it is closed once.

use crate::peer_connection::PeerConnectionInfo;
use vstd::prelude::*;

verus! {

/// What can wake the coordinator of a session.
#[derive(Debug, Clone, Copy, PartialEq, Eq, Structural)]
pub enum Wake {
    /// A termination signal: a source ran out, or the session failed or was
    /// closed.
    TerminationSignal,
    /// An interrupt from outside.
    Interrupt,
}

/// What the coordinator does about a wake.
#[derive(Debug, Clone, Copy, PartialEq, Eq, Structural)]
pub enum Verdict {
    /// Close the connection now.
    Close,
    /// Nothing: the session is being closed already.
    Discard,
}

/// Why a request to close was turned down. The session is left as it was,
/// and the caller can go on.
#[derive(Debug, Clone, Copy, PartialEq, Eq, Structural)]
pub enum CloseError {
    /// The session has been closed before.
    AlreadyClosed,
}

/// The state of a coordinator as contracts see it.
pub struct Watch {
    /// The wake that came first, if one has come.
    pub winner: Option<Wake>,
    /// Whether the close of the connection has been asked for.
    pub closed: bool,
}

impl Watch {
    /// A coordinator that waits.
    pub open spec fn waiting() -> Watch {
        Watch { winner: None, closed: false }
    }

    /// The state after a request to close, and the answer to it: the first
    /// request is granted, every later one is turned down.
    pub open spec fn close(self) -> (Watch, Result<(), CloseError>) {
        if self.closed {
            (self, Err(CloseError::AlreadyClosed))
        } else {
            (Watch { closed: true, ..self }, Ok(()))
        }
    }

    /// The state after a wake, and the verdict on it: the first wake wins
    /// and asks for the close, every later one is discarded.
    pub open spec fn wake(self, by: Wake) -> (Watch, Verdict) {
        if self.winner is None {
            let woken = Watch { winner: Some(by), ..self };
            (
                woken.close().0,
                if woken.close().1 is Ok {
                    Verdict::Close
                } else {
                    Verdict::Discard
                },
            )
        } else {
            (self, Verdict::Discard)
        }
    }

    /// The state after a run of wakes.
    pub open spec fn after(self, wakes: Seq<Wake>) -> Watch
        decreases wakes.len(),
    {
        if wakes.len() == 0 {
            self
        } else {
            self.wake(wakes[0]).0.after(wakes.skip(1))
        }
    }

    /// How many times a run of wakes asks for the close.
    pub open spec fn closes(self, wakes: Seq<Wake>) -> nat
        decreases wakes.len(),
    {
        if wakes.len() == 0 {
            0
        } else {
            (if self.wake(wakes[0]).1 is Close {
                1nat
            } else {
                0nat
            }) + self.wake(wakes[0]).0.closes(wakes.skip(1))
        }
    }
}

/// The owner of a session from the moment its answer is out until it is
/// closed.
pub struct Coordinator {
    /// The session that is watched.
    pub info: PeerConnectionInfo,
    winner: Option<Wake>,
    closed: bool,
}

impl View for Coordinator {
    type V = Watch;

    closed spec fn view(&self) -> Watch {
        Watch { winner: self.winner, closed: self.closed }
    }
}

impl Coordinator {
    /// The session that is watched.
    pub closed spec fn session(&self) -> PeerConnectionInfo {
        self.info
    }

    /// Takes a session over and waits.
    pub fn new(info: PeerConnectionInfo) -> (coordinator: Coordinator)
        ensures
            coordinator@ == Watch::waiting(),
            coordinator.session() == info,
    {
        Coordinator { info, winner: None, closed: false }
    }

    /// Asks to close the session. `Ok` tells the caller to close the
    /// connection; it is given once.
    pub fn close(&mut self) -> (answer: Result<(), CloseError>)
        ensures
            (final(self)@, answer) == old(self)@.close(),
            final(self).session() == old(self).session(),
    {
        if self.closed {
            Err(CloseError::AlreadyClosed)
        } else {
            self.closed = true;
            Ok(())
        }
    }

    /// Reports a wake.
    pub fn wake(&mut self, by: Wake) -> (verdict: Verdict)
        ensures
            (final(self)@, verdict) == old(self)@.wake(by),
            final(self).session() == old(self).session(),
    {
        if self.winner.is_none() {
            self.winner = Some(by);
            match self.close() {
                Ok(_) => Verdict::Close,
                Err(_) => Verdict::Discard,
            }
        } else {
            Verdict::Discard
        }
    }

    /// The wake that came first, if one has come.
    pub fn winner(&self) -> (winner: Option<Wake>)
        ensures
            winner == self@.winner,
    {
        self.winner
    }

    /// Tells whether the close has been asked for.
    pub fn is_closed(&self) -> (closed: bool)
        ensures
            closed == self@.closed,
    {
        self.closed
    }
}

/// Close is granted once: of two requests in a row the second is turned
/// down with `AlreadyClosed`, whatever the state before the first, and it
/// changes nothing.
pub proof fn law_second_close_is_turned_down(watch: Watch)
    ensures
        watch.close().0.close().1 == Err::<(), CloseError>(CloseError::AlreadyClosed),
        watch.close().0.close().0 == watch.close().0,
        watch.close().0.closed,
{
}

/// The first wake wins: a waiting coordinator that is woken any number of
/// times, at least once, asks for the close exactly once, and remembers the
/// wake that came first.
pub proof fn law_first_wake_wins(wakes: Seq<Wake>)
    requires
        wakes.len() > 0,
    ensures
        Watch::waiting().wake(wakes[0]).1 == Verdict::Close,
        Watch::waiting().closes(wakes) == 1,
        Watch::waiting().after(wakes).winner == Some(wakes[0]),
        Watch::waiting().after(wakes).closed,
{
    let woken = Watch::waiting().wake(wakes[0]).0;
    lemma_later_wakes_are_discarded(woken, wakes.skip(1));
}

/// A coordinator that has been woken discards every further wake.
proof fn lemma_later_wakes_are_discarded(watch: Watch, wakes: Seq<Wake>)
    requires
        watch.winner is Some,
    ensures
        watch.closes(wakes) == 0,
        watch.after(wakes) == watch,
    decreases wakes.len(),
{
    if wakes.len() > 0 {
        lemma_later_wakes_are_discarded(watch, wakes.skip(1));
    }
}

} // verus!
