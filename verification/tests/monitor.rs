use media_streamer::monitor::on_connectivity_change;
use media_streamer::monitor::on_session_state_change;
use media_streamer::monitor::signal_sent;
use media_streamer::monitor::ConnectivityState;
use media_streamer::monitor::SessionState;
use media_streamer::monitor::Signal;
use std::sync::Arc;
use std::time::Duration;
use tokio::sync::mpsc::error::TryRecvError;
use tokio::sync::Notify;

const CONNECTIVITY: [ConnectivityState; 8] = [
    ConnectivityState::Unspecified,
    ConnectivityState::New,
    ConnectivityState::Checking,
    ConnectivityState::Connected,
    ConnectivityState::Completed,
    ConnectivityState::Disconnected,
    ConnectivityState::Failed,
    ConnectivityState::Closed,
];

const SESSION: [SessionState; 7] = [
    SessionState::Unspecified,
    SessionState::New,
    SessionState::Connecting,
    SessionState::Connected,
    SessionState::Disconnected,
    SessionState::Failed,
    SessionState::Closed,
];

#[test]
fn only_connected_wakes_the_waiters() {
    let connected = Notify::new();
    for state in CONNECTIVITY {
        assert_eq!(
            on_connectivity_change(state, &connected),
            state == ConnectivityState::Connected
        );
    }
}

#[test]
fn waiting_task_is_woken_on_connected() {
    let runtime = tokio::runtime::Builder::new_current_thread().enable_all().build().unwrap();
    runtime.block_on(async {
        let connected = Arc::new(Notify::new());
        let waiter = connected.clone();
        let task = tokio::spawn(async move { waiter.notified().await });
        tokio::time::sleep(Duration::from_millis(50)).await;
        assert!(!task.is_finished());
        assert!(!on_connectivity_change(ConnectivityState::Checking, &connected));
        tokio::time::sleep(Duration::from_millis(50)).await;
        assert!(!task.is_finished());
        assert!(on_connectivity_change(ConnectivityState::Connected, &connected));
        assert!(tokio::time::timeout(Duration::from_secs(5), task).await.is_ok());
    });
}

#[test]
fn only_failed_and_closed_ask_for_the_end() {
    for state in SESSION {
        let (done, mut closer) = tokio::sync::mpsc::channel::<()>(1);
        let signal = on_session_state_change(state, &done);
        if state == SessionState::Failed || state == SessionState::Closed {
            assert_eq!(signal, Signal::Delivered);
            assert_eq!(closer.try_recv(), Ok(()));
        } else {
            assert_eq!(signal, Signal::NotDue);
            assert_eq!(closer.try_recv(), Err(TryRecvError::Empty));
        }
    }
}

#[test]
fn second_signal_is_dropped_and_does_not_block() {
    let (done, mut closer) = tokio::sync::mpsc::channel::<()>(1);
    assert_eq!(on_session_state_change(SessionState::Failed, &done), Signal::Delivered);
    assert_eq!(on_session_state_change(SessionState::Closed, &done), Signal::Dropped);
    assert_eq!(on_session_state_change(SessionState::Failed, &done.clone()), Signal::Dropped);
    assert_eq!(closer.try_recv(), Ok(()));
    assert_eq!(closer.try_recv(), Err(TryRecvError::Empty));
    assert_eq!(on_session_state_change(SessionState::Closed, &done), Signal::Delivered);
}

#[test]
fn signal_without_a_listener_is_dropped() {
    let (done, closer) = tokio::sync::mpsc::channel::<()>(1);
    drop(closer);
    assert_eq!(on_session_state_change(SessionState::Failed, &done), Signal::Dropped);
}

#[test]
fn signal_that_was_due_is_delivered_or_dropped() {
    assert_eq!(signal_sent(true), Signal::Delivered);
    assert_eq!(signal_sent(false), Signal::Dropped);
}
