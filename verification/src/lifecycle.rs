//! How the daemon goes round and comes down.

use vstd::prelude::*;

use crate::daemon::{actions_view, Action, ActionView};

verus! {

/// How long the daemon sleeps when no client waits, in milliseconds.
pub const IDLE_SLEEP_MILLIS: u64 = 50;

/// The two flags that threads and signals share with the daemon.
#[derive(Clone, Copy, PartialEq, Eq, Structural, Debug)]
pub struct Flags {
    /// Whether the daemon is to go on.
    pub running: bool,
    /// Whether the recorder is to stop.
    pub stop_recording: bool,
}

/// The flags after a signal that asks the program to end.
pub open spec fn interrupted_flags() -> Flags {
    Flags { running: false, stop_recording: true }
}

impl Flags {
    /// The flags at the start of the daemon.
    pub fn initial() -> (flags: Flags)
        ensures
            flags == (Flags { running: true, stop_recording: false }),
    {
        Flags { running: true, stop_recording: false }
    }

    /// The flags after a signal that asks the program to end.
    pub fn interrupted() -> (flags: Flags)
        ensures
            flags == interrupted_flags(),
    {
        Flags { running: false, stop_recording: true }
    }
}

/// What has come of a step of the main loop.
#[derive(Clone, Copy, PartialEq, Eq, Structural, Debug)]
pub enum LoopEvent {
    /// Whether the daemon is to go on.
    Checked(bool),
    /// What was there of awaited outcomes has been dealt with.
    Collected,
    /// A client is there.
    Accepted,
    /// No client waits.
    NothingWaiting,
    /// A client could not be let in.
    AcceptFailed,
    /// The client has been served.
    Served,
    /// The sleep is over.
    Slept,
    /// An outcome has been awaited, where there was one to await; and whether there is another.
    Settled(bool),
}

/// A step of the main loop.
#[derive(Clone, Copy, PartialEq, Eq, Structural, Debug)]
pub enum LoopStep {
    /// See whether the daemon is to go on.
    CheckRunning,
    /// Deal with the outcome of a transcription or of the clipboard, where it is there.
    Collect,
    /// Let a client in.
    Accept,
    /// Serve the client.
    Serve,
    /// Sleep for so many milliseconds.
    Sleep(u64),
    /// Wait for the outcome of a transcription or of the clipboard, where it is awaited, and
    /// deal with it.
    Settle,
    /// Come down.
    ShutDown,
}

/// The step with which the main loop starts.
pub open spec fn first_step() -> LoopStep {
    LoopStep::CheckRunning
}

/// The step that follows.
pub open spec fn step_after(event: LoopEvent) -> LoopStep {
    match event {
        LoopEvent::Checked(true) => LoopStep::Collect,
        LoopEvent::Checked(false) => LoopStep::Settle,
        LoopEvent::Collected => LoopStep::Accept,
        LoopEvent::Accepted => LoopStep::Serve,
        LoopEvent::NothingWaiting => LoopStep::Sleep(IDLE_SLEEP_MILLIS),
        LoopEvent::AcceptFailed => LoopStep::CheckRunning,
        LoopEvent::Served => LoopStep::CheckRunning,
        LoopEvent::Slept => LoopStep::CheckRunning,
        LoopEvent::Settled(true) => LoopStep::Settle,
        LoopEvent::Settled(false) => LoopStep::ShutDown,
    }
}

/// The step with which the main loop starts.
pub fn start_loop() -> (step: LoopStep)
    ensures
        step == first_step(),
{
    LoopStep::CheckRunning
}

/// The step that follows.
pub fn next_step(event: LoopEvent) -> (step: LoopStep)
    ensures
        step == step_after(event),
{
    match event {
        LoopEvent::Checked(running) => if running {
            LoopStep::Collect
        } else {
            LoopStep::Settle
        },
        LoopEvent::Collected => LoopStep::Accept,
        LoopEvent::Accepted => LoopStep::Serve,
        LoopEvent::NothingWaiting => LoopStep::Sleep(IDLE_SLEEP_MILLIS),
        LoopEvent::AcceptFailed => LoopStep::CheckRunning,
        LoopEvent::Served => LoopStep::CheckRunning,
        LoopEvent::Slept => LoopStep::CheckRunning,
        LoopEvent::Settled(pending) => if pending {
            LoopStep::Settle
        } else {
            LoopStep::ShutDown
        },
    }
}

/// Whether `event` can come of `step`.
pub open spec fn can_come_of(event: LoopEvent, step: LoopStep) -> bool {
    match step {
        LoopStep::CheckRunning => event is Checked,
        LoopStep::Collect => event is Collected,
        LoopStep::Accept => event is Accepted || event is NothingWaiting || event is AcceptFailed,
        LoopStep::Serve => event is Served,
        LoopStep::Sleep(_) => event is Slept,
        LoopStep::Settle => event is Settled,
        LoopStep::ShutDown => false,
    }
}

/// The step that is due after these events.
pub open spec fn due_after(events: Seq<LoopEvent>) -> LoopStep {
    if events.len() == 0 {
        first_step()
    } else {
        step_after(events.last())
    }
}

/// Whether the event with this number has come of the step that was due then.
pub open spec fn comes_when_due(events: Seq<LoopEvent>, i: int) -> bool {
    can_come_of(events[i], due_after(events.take(i)))
}

/// Whether these events, in this order, can be those of the main loop.
pub open spec fn is_run(events: Seq<LoopEvent>) -> bool {
    forall|i: int| 0 <= i < events.len() ==> #[trigger] comes_when_due(events, i)
}

/// No client is let in after the daemon has seen that it is not to go on.
pub proof fn law_no_client_after_the_end(events: Seq<LoopEvent>, i: int, j: int)
    requires
        is_run(events),
        0 <= i < j < events.len(),
        events[i] == LoopEvent::Checked(false),
    ensures
        events[j] is Settled,
    decreases j,
{
    if j > i + 1 {
        law_no_client_after_the_end(events, i, j - 1);
    }
    assert(events.take(j).last() == events[j - 1]);
    assert(comes_when_due(events, j));
}

/// The daemon comes down only when it has seen that it is not to go on, and when there is
/// nothing left that it awaits.
pub proof fn law_daemon_comes_down_settled(events: Seq<LoopEvent>)
    requires
        is_run(events),
        due_after(events) is ShutDown,
    ensures
        events.len() > 0,
        events.last() == LoopEvent::Settled(false),
        events.contains(LoopEvent::Checked(false)),
{
    lemma_settled_after_check(events, events.len() - 1);
}

proof fn lemma_settled_after_check(events: Seq<LoopEvent>, i: int)
    requires
        is_run(events),
        0 <= i < events.len(),
        events[i] is Settled,
    ensures
        events.contains(LoopEvent::Checked(false)),
    decreases i,
{
    assert(comes_when_due(events, i));
    assert(i > 0);
    assert(events.take(i).last() == events[i - 1]);
    if events[i - 1] is Settled {
        lemma_settled_after_check(events, i - 1);
    } else {
        assert(events[i - 1] == LoopEvent::Checked(false));
    }
}

/// What is to be done on the way down, in order: the recorder ends, then every file goes that
/// says that a daemon runs.
pub open spec fn shutting_down() -> Seq<ActionView> {
    seq![
        ActionView::RaiseStopFlag,
        ActionView::JoinRecorder,
        ActionView::RemoveSocket,
        ActionView::RemovePidFile,
        ActionView::RemoveMarker,
    ]
}

/// What is to be done on the way down, in order.
pub fn shutdown_actions() -> (actions: Vec<Action>)
    ensures
        actions_view(actions@) == shutting_down(),
{
    let mut actions: Vec<Action> = Vec::new();
    actions.push(Action::RaiseStopFlag);
    actions.push(Action::JoinRecorder);
    actions.push(Action::RemoveSocket);
    actions.push(Action::RemovePidFile);
    actions.push(Action::RemoveMarker);
    assert(actions_view(actions@) == shutting_down());
    actions
}

} // verus!
