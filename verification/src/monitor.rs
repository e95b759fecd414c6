//! Watching the connection: when media may start, and when the session is
//! over.
//!
//! The connection reports two states, each through a callback of its own.
//! Connectivity tells when a path to the peer is there, which lets the pacers
//! start. The state of the session tells when it has failed or was closed,
//! which asks for its end. The two are kept apart, so that media does not
//! start early and an end is not missed while connectivity lingers.

use tokio::sync::mpsc::Sender;
use tokio::sync::Notify;
use vstd::prelude::*;

verus! {

/// `tokio::sync::Notify`, carried as an opaque handle.
#[verifier::external_type_specification]
#[verifier::external_body]
pub struct ExNotify(Notify);

/// `tokio::sync::mpsc::Sender`, carried as an opaque handle.
#[verifier::external_type_specification]
#[verifier::external_body]
#[verifier::reject_recursive_types(T)]
pub struct ExSender<T>(Sender<T>);

/// The state of connectivity to the peer, as the connection reports it.
#[derive(Debug, Clone, Copy, PartialEq, Eq, Structural)]
pub enum ConnectivityState {
    Unspecified,
    New,
    Checking,
    Connected,
    Completed,
    Disconnected,
    Failed,
    Closed,
}

/// The state of the session, as the connection reports it.
#[derive(Debug, Clone, Copy, PartialEq, Eq, Structural)]
pub enum SessionState {
    Unspecified,
    New,
    Connecting,
    Connected,
    Disconnected,
    Failed,
    Closed,
}

/// What became of a termination signal.
#[derive(Debug, Clone, Copy, PartialEq, Eq, Structural)]
pub enum Signal {
    /// None was due.
    NotDue,
    /// It was sent and waits for the coordinator.
    Delivered,
    /// It was dropped: one is pending already, or nobody listens any more.
    Dropped,
}

/// Whether a state of connectivity lets media start.
pub open spec fn gates_media(state: ConnectivityState) -> bool {
    state is Connected
}

/// Whether a state of the session asks for its end.
pub open spec fn ends_session(state: SessionState) -> bool {
    state is Failed || state is Closed
}

/// Calls `tokio::sync::Notify::notify_waiters`, which wakes the tasks that
/// wait on the notification. Nothing is claimed of it.
#[verifier::external_body]
fn wake_waiters(connected: &Notify) {
    connected.notify_waiters()
}

/// Calls `tokio::sync::mpsc::Sender::try_send` with the unit value, which
/// does not wait. The result tells whether the channel took the signal;
/// nothing is claimed of it, since that depends on what the channel holds.
#[verifier::external_body]
fn try_signal(done: &Sender<()>) -> (taken: bool) {
    done.try_send(()).is_ok()
}

/// What became of a signal that was due, given whether the channel took it.
pub fn signal_sent(taken: bool) -> (signal: Signal)
    ensures
        signal == if taken {
            Signal::Delivered
        } else {
            Signal::Dropped
        },
{
    if taken {
        Signal::Delivered
    } else {
        Signal::Dropped
    }
}

/// Takes a change of connectivity. On `Connected` the tasks that wait for
/// the connection are woken. Tells whether they were.
pub fn on_connectivity_change(state: ConnectivityState, connected: &Notify) -> (woken: bool)
    ensures
        woken == gates_media(state),
{
    match state {
        ConnectivityState::Connected => {
            wake_waiters(connected);
            true
        },
        _ => false,
    }
}

/// Takes a change of the session's state. On `Failed` and on `Closed` a
/// termination signal is sent without waiting; it is dropped where one is
/// pending already. Tells what became of the signal.
pub fn on_session_state_change(state: SessionState, done: &Sender<()>) -> (signal: Signal)
    ensures
        signal is NotDue <==> !ends_session(state),
{
    match state {
        SessionState::Failed | SessionState::Closed => signal_sent(try_signal(done)),
        _ => Signal::NotDue,
    }
}

} // verus!
