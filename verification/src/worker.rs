//! The worker routine as a state machine.
//!
//! A worker alternates between work that only the embedding program can do
//! (block on the channel, write to standard output, call the interpreter) and
//! the decision of what to do next. This module holds the decisions. The
//! driver asks the state for its [`Action`], performs it, and hands the
//! outcome to [`step`] as an [`Event`]:
//!
//! | state                          | action              | answering events                       |
//! |--------------------------------|---------------------|----------------------------------------|
//! | `Waiting`                      | `AwaitSignal`       | `SignalReceived`, `ChannelClosed`      |
//! | `Exiting(Started)`             | `WriteLocalMessage` | `LocalMessageWritten`                  |
//! | `Exiting(LocalMessageWritten)` | `CallInterpreter`   | `CallbackSucceeded`, `CallbackFailed`  |
//! | `Exiting(Finished)`            | `Finish`            | none                                   |
//! | `Exiting(Aborted)`             | `Abort`             | none                                   |
//!
//! An event that does not answer the pending action leaves the state as it
//! is.

use vstd::prelude::*;

verus! {

/// How far an exiting worker has come.
#[derive(Clone, Copy, PartialEq, Eq, Structural, Debug)]
pub enum ExitProgress {
    /// The worker has woken and has done nothing yet.
    Started,
    /// The worker's own diagnostic message is out.
    LocalMessageWritten,
    /// The interpreter call returned; the thread ends normally.
    Finished,
    /// The interpreter call failed; the thread ends abruptly.
    Aborted,
}

/// The state of a worker.
#[derive(Clone, Copy, PartialEq, Eq, Structural, Debug)]
pub enum WorkerState {
    /// Blocked on the receiving half of the signal channel.
    Waiting,
    /// Running the exit sequence.
    Exiting(ExitProgress),
}

/// What the driver reports after it has performed an action.
#[derive(Clone, Copy, PartialEq, Eq, Structural, Debug)]
pub enum Event {
    /// The blocking receive returned the signal.
    SignalReceived,
    /// The blocking receive failed: the sending half is gone and nothing is
    /// pending.
    ChannelClosed,
    /// The worker's own diagnostic message has been written.
    LocalMessageWritten,
    /// The interpreter was entered and its print call returned.
    CallbackSucceeded,
    /// The interpreter could not be entered, or its print call failed.
    CallbackFailed,
}

/// What the driver has to do for a worker in a given state.
#[derive(Clone, Copy, PartialEq, Eq, Structural, Debug)]
pub enum Action {
    /// Block on the receiving half of the signal channel.
    AwaitSignal,
    /// Write the worker's own diagnostic message to standard output.
    WriteLocalMessage,
    /// Acquire the interpreter and call its print function with the second
    /// diagnostic message.
    CallInterpreter,
    /// Let the thread return.
    Finish,
    /// Panic on the worker thread.
    Abort,
}

/// The worker's own diagnostic message. It does not pass through the
/// interpreter, so seeing it shows that the thread was alive and scheduled.
pub const LOCAL_MESSAGE: &'static str = "(message through rust) the thread is exiting";

/// The diagnostic message that the worker hands to the interpreter's print
/// function.
pub const INTERPRETER_MESSAGE: &'static str = "(message through python) the thread is exiting";

/// What the worker thread says when it panics over a failed interpreter call.
pub const ABORT_MESSAGE: &'static str = "couldn't find or call the print function";

impl Action {
    /// The text that goes with the action, if one does.
    pub open spec fn spec_message(self) -> Option<&'static str> {
        match self {
            Action::WriteLocalMessage => Some(LOCAL_MESSAGE),
            Action::CallInterpreter => Some(INTERPRETER_MESSAGE),
            Action::Abort => Some(ABORT_MESSAGE),
            _ => None,
        }
    }

    /// The text that the driver writes, prints through the interpreter or
    /// panics with when it performs this action; `None` for the two actions
    /// that say nothing.
    pub fn message(&self) -> (text: Option<&'static str>)
        ensures
            text == self.spec_message(),
    {
        match self {
            Action::WriteLocalMessage => Some(LOCAL_MESSAGE),
            Action::CallInterpreter => Some(INTERPRETER_MESSAGE),
            Action::Abort => Some(ABORT_MESSAGE),
            _ => None,
        }
    }
}

impl Event {
    /// Whether the event is one of the two outcomes of the blocking receive.
    /// Both mean that it is time to exit.
    pub open spec fn is_wake(self) -> bool {
        self == Event::SignalReceived || self == Event::ChannelClosed
    }
}

impl WorkerState {
    /// The action that is pending in this state.
    pub open spec fn spec_action(self) -> Action {
        match self {
            WorkerState::Waiting => Action::AwaitSignal,
            WorkerState::Exiting(ExitProgress::Started) => Action::WriteLocalMessage,
            WorkerState::Exiting(ExitProgress::LocalMessageWritten) => Action::CallInterpreter,
            WorkerState::Exiting(ExitProgress::Finished) => Action::Finish,
            WorkerState::Exiting(ExitProgress::Aborted) => Action::Abort,
        }
    }

    /// Whether `event` is an outcome of the action that is pending in this
    /// state.
    pub open spec fn answered_by(self, event: Event) -> bool {
        match self {
            WorkerState::Waiting => event.is_wake(),
            WorkerState::Exiting(ExitProgress::Started) => event == Event::LocalMessageWritten,
            WorkerState::Exiting(ExitProgress::LocalMessageWritten) => event
                == Event::CallbackSucceeded || event == Event::CallbackFailed,
            WorkerState::Exiting(ExitProgress::Finished) => false,
            WorkerState::Exiting(ExitProgress::Aborted) => false,
        }
    }

    /// The state after `event`.
    pub open spec fn spec_step(self, event: Event) -> WorkerState {
        if !self.answered_by(event) {
            self
        } else {
            match self {
                WorkerState::Waiting => WorkerState::Exiting(ExitProgress::Started),
                WorkerState::Exiting(ExitProgress::Started) => WorkerState::Exiting(
                    ExitProgress::LocalMessageWritten,
                ),
                _ => if event == Event::CallbackSucceeded {
                    WorkerState::Exiting(ExitProgress::Finished)
                } else {
                    WorkerState::Exiting(ExitProgress::Aborted)
                },
            }
        }
    }

    /// Whether the thread has ended, normally or not.
    pub open spec fn is_terminated(self) -> bool {
        self == WorkerState::Exiting(ExitProgress::Finished) || self == WorkerState::Exiting(
            ExitProgress::Aborted,
        )
    }

    /// The state in which every worker starts.
    pub fn new() -> (state: WorkerState)
        ensures
            state == WorkerState::Waiting,
    {
        WorkerState::Waiting
    }

    /// The action that the driver has to perform next.
    pub fn action(&self) -> (action: Action)
        ensures
            action == self.spec_action(),
    {
        match self {
            WorkerState::Waiting => Action::AwaitSignal,
            WorkerState::Exiting(ExitProgress::Started) => Action::WriteLocalMessage,
            WorkerState::Exiting(ExitProgress::LocalMessageWritten) => Action::CallInterpreter,
            WorkerState::Exiting(ExitProgress::Finished) => Action::Finish,
            WorkerState::Exiting(ExitProgress::Aborted) => Action::Abort,
        }
    }

    /// Takes the outcome of the pending action and moves on. The receive's two
    /// outcomes both start the exit sequence; the local message leads to the
    /// interpreter call; the interpreter call ends the thread, normally if it
    /// succeeded and abruptly if it failed. Any other event is ignored.
    pub fn step(self, event: Event) -> (next: WorkerState)
        ensures
            next == self.spec_step(event),
    {
        match (self, event) {
            (WorkerState::Waiting, Event::SignalReceived) => WorkerState::Exiting(
                ExitProgress::Started,
            ),
            (WorkerState::Waiting, Event::ChannelClosed) => WorkerState::Exiting(
                ExitProgress::Started,
            ),
            (WorkerState::Exiting(ExitProgress::Started), Event::LocalMessageWritten) => {
                WorkerState::Exiting(ExitProgress::LocalMessageWritten)
            },
            (WorkerState::Exiting(ExitProgress::LocalMessageWritten), Event::CallbackSucceeded) => {
                WorkerState::Exiting(ExitProgress::Finished)
            },
            (WorkerState::Exiting(ExitProgress::LocalMessageWritten), Event::CallbackFailed) => {
                WorkerState::Exiting(ExitProgress::Aborted)
            },
            (state, _) => state,
        }
    }
}

/// The state that a worker started in `state` is in after the driver has
/// reported `events`, oldest first.
pub open spec fn run(state: WorkerState, events: Seq<Event>) -> WorkerState
    decreases events.len(),
{
    if events.len() == 0 {
        state
    } else {
        run(state, events.drop_last()).spec_step(events.last())
    }
}

/// Whichever way the blocking receive returns, the worker leaves `Waiting`
/// and starts the exit sequence at its beginning; nothing else makes it leave.
pub proof fn lemma_wake_leaves_waiting(event: Event)
    ensures
        event.is_wake() ==> WorkerState::Waiting.spec_step(event) == WorkerState::Exiting(
            ExitProgress::Started,
        ),
        !event.is_wake() ==> WorkerState::Waiting.spec_step(event) == WorkerState::Waiting,
{
}

/// A worker that is exiting never waits again, whatever is reported to it.
pub proof fn lemma_exiting_is_terminal(state: WorkerState, events: Seq<Event>)
    requires
        state is Exiting,
    ensures
        run(state, events) is Exiting,
    decreases events.len(),
{
    if events.len() > 0 {
        lemma_exiting_is_terminal(state, events.drop_last());
    }
}

/// A thread that has ended stays as it ended: a finished worker is never
/// aborted afterwards, nor the other way round.
pub proof fn lemma_terminated_is_final(state: WorkerState, events: Seq<Event>)
    requires
        state.is_terminated(),
    ensures
        run(state, events) == state,
    decreases events.len(),
{
    if events.len() > 0 {
        lemma_terminated_is_final(state, events.drop_last());
    }
}

/// The state in which the worker was when the driver reported `events[i]`.
pub open spec fn state_before(events: Seq<Event>, i: int) -> WorkerState {
    run(WorkerState::Waiting, events.take(i))
}

/// The whole exit sequence. A driver that performs each pending action and
/// reports its outcome is asked, in this order, to block on the channel, to
/// write the local message and to call the interpreter, whichever way the
/// receive returned. After the call it is asked to let the thread finish if
/// the call succeeded, and to abort it if the call failed.
pub proof fn lemma_exit_sequence(wake: Event, outcome: Event)
    requires
        wake.is_wake(),
        outcome == Event::CallbackSucceeded || outcome == Event::CallbackFailed,
    ensures
        ({
            let events = seq![wake, Event::LocalMessageWritten, outcome];
            &&& state_before(events, 0).spec_action() == Action::AwaitSignal
            &&& state_before(events, 1).spec_action() == Action::WriteLocalMessage
            &&& state_before(events, 2).spec_action() == Action::CallInterpreter
            &&& run(WorkerState::Waiting, events).spec_action() == if outcome
                == Event::CallbackSucceeded {
                Action::Finish
            } else {
                Action::Abort
            }
        }),
{
    let events = seq![wake, Event::LocalMessageWritten, outcome];
    let two = seq![wake, Event::LocalMessageWritten];
    let one = seq![wake];
    assert(events.take(0) =~= Seq::empty());
    assert(events.take(1) =~= one);
    assert(events.take(2) =~= two);
    assert(one.drop_last() =~= Seq::empty());
    assert(two.drop_last() =~= one);
    assert(events.drop_last() =~= two);
    reveal_with_fuel(run, 4);
}

/// The one state from which `state` is entered. `Waiting` is entered from
/// nowhere and stands for itself.
pub open spec fn predecessor(state: WorkerState) -> WorkerState {
    match state {
        WorkerState::Waiting => WorkerState::Waiting,
        WorkerState::Exiting(ExitProgress::Started) => WorkerState::Waiting,
        WorkerState::Exiting(ExitProgress::LocalMessageWritten) => WorkerState::Exiting(
            ExitProgress::Started,
        ),
        WorkerState::Exiting(ExitProgress::Finished) => WorkerState::Exiting(
            ExitProgress::LocalMessageWritten,
        ),
        WorkerState::Exiting(ExitProgress::Aborted) => WorkerState::Exiting(
            ExitProgress::LocalMessageWritten,
        ),
    }
}

/// Whether `event` is what takes a worker from `predecessor(state)` into
/// `state`.
pub open spec fn entered_by(state: WorkerState, event: Event) -> bool {
    match state {
        WorkerState::Waiting => false,
        WorkerState::Exiting(ExitProgress::Started) => event.is_wake(),
        WorkerState::Exiting(ExitProgress::LocalMessageWritten) => event
            == Event::LocalMessageWritten,
        WorkerState::Exiting(ExitProgress::Finished) => event == Event::CallbackSucceeded,
        WorkerState::Exiting(ExitProgress::Aborted) => event == Event::CallbackFailed,
    }
}

/// A step changes the state only by entering the new state from its
/// predecessor, on the event that enters it.
pub proof fn lemma_step_enters_from_predecessor(state: WorkerState, event: Event)
    ensures
        state.spec_step(event) != state ==> predecessor(state.spec_step(event)) == state
            && entered_by(state.spec_step(event), event),
        state.spec_step(event) != state <==> state.answered_by(event),
{
}

/// No stage of the exit sequence is skipped. A worker that started in
/// `Waiting` and is now in an exiting state got there from that state's
/// predecessor, on the event that enters it: it began to exit on a wake, it
/// came to the interpreter call on the report that the local message was
/// written, and it finished or was aborted on the outcome of the interpreter
/// call.
pub proof fn lemma_entered_from_predecessor(events: Seq<Event>)
    requires
        run(WorkerState::Waiting, events) is Exiting,
    ensures
        exists|i: int|
            0 <= i < events.len() && #[trigger] state_before(events, i) == predecessor(
                run(WorkerState::Waiting, events),
            ) && entered_by(run(WorkerState::Waiting, events), events[i]),
    decreases events.len(),
{
    let end = run(WorkerState::Waiting, events);
    let earlier = events.drop_last();
    let last: int = events.len() - 1;
    assert(events.take(last) =~= earlier);
    if run(WorkerState::Waiting, earlier) == end {
        lemma_entered_from_predecessor(earlier);
        let i: int = choose|i: int|
            0 <= i < earlier.len() && #[trigger] state_before(earlier, i) == predecessor(end)
                && entered_by(end, earlier[i]);
        assert(earlier.take(i) =~= events.take(i));
        assert(state_before(events, i) == predecessor(end) && entered_by(end, events[i]));
    } else {
        assert(state_before(events, last) == predecessor(end) && entered_by(end, events[last]));
    }
}

/// The two messages come in order. Where the interpreter call of a worker
/// that started in `Waiting` is over, the driver reported its outcome while
/// the call was pending, and before that it reported the local message as
/// written while that was pending.
pub proof fn lemma_local_message_precedes_interpreter_call(events: Seq<Event>)
    requires
        run(WorkerState::Waiting, events).is_terminated(),
    ensures
        exists|i: int, j: int|
            0 <= i < j < events.len() && #[trigger] state_before(events, i)
                == WorkerState::Exiting(ExitProgress::Started) && events[i]
                == Event::LocalMessageWritten && #[trigger] state_before(events, j)
                == WorkerState::Exiting(ExitProgress::LocalMessageWritten) && entered_by(
                run(WorkerState::Waiting, events),
                events[j],
            ),
{
    lemma_entered_from_predecessor(events);
    let j: int = choose|j: int|
        0 <= j < events.len() && #[trigger] state_before(events, j) == predecessor(
            run(WorkerState::Waiting, events),
        ) && entered_by(run(WorkerState::Waiting, events), events[j]);
    let before = events.take(j);
    lemma_entered_from_predecessor(before);
    let i: int = choose|i: int|
        0 <= i < before.len() && #[trigger] state_before(before, i) == predecessor(
            run(WorkerState::Waiting, before),
        ) && entered_by(run(WorkerState::Waiting, before), before[i]);
    assert(before.take(i) =~= events.take(i));
    assert(state_before(events, i) == WorkerState::Exiting(ExitProgress::Started) && events[i]
        == Event::LocalMessageWritten);
}

} // verus!
