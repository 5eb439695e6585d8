use std::sync::mpsc::{channel, Receiver, RecvError, TryRecvError};

use with_gil_panic::worker::{Action, Event, ExitProgress, WorkerState, LOCAL_MESSAGE};
use with_gil_panic::SenderHandleHolder;

/// Runs a worker on `rx` as the embedding program does, but for the output:
/// what would be written or printed is collected, and the interpreter call
/// succeeds or fails as `interpreter_alive` says.
fn run_worker(rx: &Receiver<()>, interpreter_alive: bool) -> (Vec<&'static str>, WorkerState) {
    let mut out = Vec::new();
    let mut state = WorkerState::new();
    loop {
        let action = state.action();
        let event = match action {
            Action::AwaitSignal => match rx.recv() {
                Ok(()) => Event::SignalReceived,
                Err(RecvError) => Event::ChannelClosed,
            },
            Action::WriteLocalMessage => {
                out.extend(action.message());
                Event::LocalMessageWritten
            }
            Action::CallInterpreter if interpreter_alive => {
                out.extend(action.message());
                Event::CallbackSucceeded
            }
            Action::CallInterpreter => Event::CallbackFailed,
            Action::Finish | Action::Abort => return (out, state),
        };
        state = state.step(event);
    }
}

#[test]
fn dropping_the_handle_sends_the_signal() {
    let (tx, rx) = channel::<()>();
    let handle = SenderHandleHolder::new(tx);
    assert_eq!(rx.try_recv(), Err(TryRecvError::Empty));
    drop(handle);
    assert_eq!(rx.recv(), Ok(()));
    assert_eq!(rx.recv(), Err(RecvError));
}

#[test]
fn the_signal_is_sent_once() {
    let (tx, rx) = channel::<()>();
    drop(SenderHandleHolder::new(tx));
    assert_eq!(rx.try_iter().count(), 1);
    assert_eq!(rx.try_recv(), Err(TryRecvError::Disconnected));
}

#[test]
fn a_live_handle_sends_nothing() {
    let (tx, rx) = channel::<()>();
    let handle = SenderHandleHolder::new(tx);
    assert_eq!(rx.try_recv(), Err(TryRecvError::Empty));
    assert_eq!(rx.try_recv(), Err(TryRecvError::Empty));
    drop(handle);
}

#[test]
fn dropping_the_handle_wakes_its_worker() {
    let (tx, rx) = channel::<()>();
    drop(SenderHandleHolder::new(tx));
    let (out, state) = run_worker(&rx, true);
    assert_eq!(
        out,
        vec![
            "(message through rust) the thread is exiting",
            "(message through python) the thread is exiting",
        ]
    );
    assert_eq!(state, WorkerState::Exiting(ExitProgress::Finished));
}

#[test]
fn a_channel_closed_without_a_signal_wakes_the_worker_too() {
    let (tx, rx) = channel::<()>();
    drop(tx);
    let (out, state) = run_worker(&rx, true);
    assert_eq!(
        out,
        vec![
            "(message through rust) the thread is exiting",
            "(message through python) the thread is exiting",
        ]
    );
    assert_eq!(state, WorkerState::Exiting(ExitProgress::Finished));
}

#[test]
fn a_worker_woken_during_finalization_is_aborted() {
    let (tx, rx) = channel::<()>();
    drop(SenderHandleHolder::new(tx));
    let (out, state) = run_worker(&rx, false);
    assert_eq!(out, vec!["(message through rust) the thread is exiting"]);
    assert_eq!(state, WorkerState::Exiting(ExitProgress::Aborted));
    assert_eq!(
        state.action().message(),
        Some("couldn't find or call the print function")
    );
}

#[test]
fn dropping_the_handle_of_an_exited_worker_is_silent() {
    let (tx, rx) = channel::<()>();
    let handle = SenderHandleHolder::new(tx);
    // The worker is gone: its receiving half no longer exists.
    drop(rx);
    drop(handle);
}

#[test]
fn every_handle_wakes_its_own_worker() {
    let n = 16;
    let mut handles = Vec::new();
    let mut receivers = Vec::new();
    for _ in 0..n {
        let (tx, rx) = channel::<()>();
        handles.push(SenderHandleHolder::new(tx));
        receivers.push(rx);
    }
    for rx in &receivers {
        assert_eq!(rx.try_recv(), Err(TryRecvError::Empty));
    }
    drop(handles);
    let mut local_messages = 0;
    for rx in &receivers {
        let (out, _) = run_worker(rx, true);
        local_messages += out.iter().filter(|m| **m == LOCAL_MESSAGE).count();
    }
    assert_eq!(local_messages, n);
}

#[test]
fn a_handle_signals_no_other_worker() {
    let (tx_a, rx_a) = channel::<()>();
    let (tx_b, rx_b) = channel::<()>();
    let a = SenderHandleHolder::new(tx_a);
    let b = SenderHandleHolder::new(tx_b);
    drop(a);
    assert_eq!(rx_a.try_recv(), Ok(()));
    assert_eq!(rx_b.try_recv(), Err(TryRecvError::Empty));
    drop(b);
    assert_eq!(rx_b.try_recv(), Ok(()));
}

#[test]
fn handles_can_be_made_and_dropped_again_and_again() {
    for _ in 0..100 {
        let (tx, rx) = channel::<()>();
        drop(SenderHandleHolder::new(tx));
        let (_, state) = run_worker(&rx, true);
        assert_eq!(state, WorkerState::Exiting(ExitProgress::Finished));
        // With the handle gone and the signal taken, nothing holds the
        // channel open.
        assert_eq!(rx.try_recv(), Err(TryRecvError::Disconnected));
    }
}
