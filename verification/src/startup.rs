//! How the daemon comes up.

use vstd::prelude::*;

use crate::config::ConfigError;
use crate::text::opt_view;

verus! {

/// Why the daemon does not come up.
#[derive(Debug, PartialEq, Eq)]
pub enum SetupError {
    /// The home directory is not known.
    NoHome,
    /// There are no settings.
    NoSettings(ConfigError),
    /// The directory of the recordings could not be made.
    NoClipsDir,
    /// The process id could not be written to its file.
    NoPidFile,
    /// The socket could not be bound.
    NotBound,
    /// The socket could not be made such that waiting for a client does not block.
    Blocking,
    /// What transcriptions run on could not be started.
    NoRuntime,
}

impl SetupError {
    /// What is said, before its cause; nothing where the cause speaks for itself.
    pub open spec fn words(self) -> Option<Seq<char>> {
        match self {
            SetupError::NoHome => Some("HOME not set"@),
            SetupError::NoSettings(error) => Some(error.words()),
            SetupError::NoClipsDir => Some("Failed to create clips directory"@),
            SetupError::NoPidFile => Some("Failed to write PID file"@),
            SetupError::NotBound => Some("Failed to bind Unix socket"@),
            SetupError::Blocking => Some("Failed to set socket non-blocking"@),
            SetupError::NoRuntime => None,
        }
    }

    /// What is said, before its cause; nothing where the cause speaks for itself.
    pub fn message(&self) -> (message: Option<String>)
        ensures
            opt_view(message) == self.words(),
    {
        match self {
            SetupError::NoHome => Some("HOME not set".to_owned()),
            SetupError::NoSettings(error) => Some(error.message()),
            SetupError::NoClipsDir => Some("Failed to create clips directory".to_owned()),
            SetupError::NoPidFile => Some("Failed to write PID file".to_owned()),
            SetupError::NotBound => Some("Failed to bind Unix socket".to_owned()),
            SetupError::Blocking => Some("Failed to set socket non-blocking".to_owned()),
            SetupError::NoRuntime => None,
        }
    }
}

/// What has come of a step on the way up.
#[derive(Debug, PartialEq, Eq)]
pub enum SetupEvent {
    /// Whether the home directory is known.
    HomeFound(bool),
    /// The settings have been read, or why there are none.
    SettingsRead(Result<(), ConfigError>),
    /// Whether the directory of the recordings is there.
    ClipsDirMade(bool),
    /// Whether there is a socket that an earlier daemon left behind.
    StaleSocketSeen(bool),
    /// Whether that socket is gone.
    StaleSocketRemoved(bool),
    /// Whether the process id is in its file.
    PidFileWritten(bool),
    /// Whether the socket is bound.
    SocketBound(bool),
    /// Whether the socket is such that waiting for a client does not block.
    MadeNonBlocking(bool),
    /// Signals are handled.
    SignalsHandled,
    /// Whether there is what transcriptions run on.
    RuntimeStarted(bool),
}

/// A step on the way up.
#[derive(Debug, PartialEq, Eq)]
pub enum SetupStep {
    /// Find the home directory.
    FindHome,
    /// Read the settings.
    ReadSettings,
    /// Make the directory of the recordings, where it is not there.
    MakeClipsDir,
    /// See whether an earlier daemon left its socket behind.
    LookForStaleSocket,
    /// Remove that socket.
    RemoveStaleSocket,
    /// Write the process id to its file.
    WritePidFile,
    /// Bind the socket.
    BindSocket,
    /// Make the socket such that waiting for a client does not block.
    MakeNonBlocking,
    /// Set the flags and handle signals.
    HandleSignals,
    /// Start what transcriptions run on.
    StartRuntime,
    /// Enter the main loop.
    Serve,
    /// End; the daemon does not come up.
    Abort(SetupError),
}

/// `next` where a step has been done, and the end of the daemon with `error` where it has not.
pub open spec fn done_or(done: bool, next: SetupStep, error: SetupError) -> SetupStep {
    if done {
        next
    } else {
        SetupStep::Abort(error)
    }
}

/// The step with which the daemon starts to come up.
pub open spec fn first_setup_step() -> SetupStep {
    SetupStep::FindHome
}

/// The step that follows.
pub open spec fn setup_after(event: SetupEvent) -> SetupStep {
    match event {
        SetupEvent::HomeFound(found) => done_or(
            found,
            SetupStep::ReadSettings,
            SetupError::NoHome,
        ),
        SetupEvent::SettingsRead(Ok(())) => SetupStep::MakeClipsDir,
        SetupEvent::SettingsRead(Err(error)) => SetupStep::Abort(SetupError::NoSettings(error)),
        SetupEvent::ClipsDirMade(done) => done_or(
            done,
            SetupStep::LookForStaleSocket,
            SetupError::NoClipsDir,
        ),
        SetupEvent::StaleSocketSeen(true) => SetupStep::RemoveStaleSocket,
        SetupEvent::StaleSocketSeen(false) => SetupStep::WritePidFile,
        SetupEvent::StaleSocketRemoved(_) => SetupStep::WritePidFile,
        SetupEvent::PidFileWritten(done) => done_or(
            done,
            SetupStep::BindSocket,
            SetupError::NoPidFile,
        ),
        SetupEvent::SocketBound(done) => done_or(
            done,
            SetupStep::MakeNonBlocking,
            SetupError::NotBound,
        ),
        SetupEvent::MadeNonBlocking(done) => done_or(
            done,
            SetupStep::HandleSignals,
            SetupError::Blocking,
        ),
        SetupEvent::SignalsHandled => SetupStep::StartRuntime,
        SetupEvent::RuntimeStarted(done) => done_or(done, SetupStep::Serve, SetupError::NoRuntime),
    }
}

/// The step with which the daemon starts to come up.
pub fn start_setup() -> (step: SetupStep)
    ensures
        step == first_setup_step(),
{
    SetupStep::FindHome
}

fn go_on(done: bool, next: SetupStep, error: SetupError) -> (step: SetupStep)
    ensures
        step == done_or(done, next, error),
{
    if done {
        next
    } else {
        SetupStep::Abort(error)
    }
}

/// The step that follows.
pub fn next_setup_step(event: SetupEvent) -> (step: SetupStep)
    ensures
        step == setup_after(event),
{
    match event {
        SetupEvent::HomeFound(found) => go_on(found, SetupStep::ReadSettings, SetupError::NoHome),
        SetupEvent::SettingsRead(outcome) => match outcome {
            Ok(()) => SetupStep::MakeClipsDir,
            Err(error) => SetupStep::Abort(SetupError::NoSettings(error)),
        },
        SetupEvent::ClipsDirMade(done) => go_on(
            done,
            SetupStep::LookForStaleSocket,
            SetupError::NoClipsDir,
        ),
        SetupEvent::StaleSocketSeen(seen) => if seen {
            SetupStep::RemoveStaleSocket
        } else {
            SetupStep::WritePidFile
        },
        SetupEvent::StaleSocketRemoved(_) => SetupStep::WritePidFile,
        SetupEvent::PidFileWritten(done) => go_on(
            done,
            SetupStep::BindSocket,
            SetupError::NoPidFile,
        ),
        SetupEvent::SocketBound(done) => go_on(
            done,
            SetupStep::MakeNonBlocking,
            SetupError::NotBound,
        ),
        SetupEvent::MadeNonBlocking(done) => go_on(
            done,
            SetupStep::HandleSignals,
            SetupError::Blocking,
        ),
        SetupEvent::SignalsHandled => SetupStep::StartRuntime,
        SetupEvent::RuntimeStarted(done) => go_on(done, SetupStep::Serve, SetupError::NoRuntime),
    }
}

/// Whether `event` can come of `step`.
pub open spec fn can_come_of(event: SetupEvent, step: SetupStep) -> bool {
    match step {
        SetupStep::FindHome => event is HomeFound,
        SetupStep::ReadSettings => event is SettingsRead,
        SetupStep::MakeClipsDir => event is ClipsDirMade,
        SetupStep::LookForStaleSocket => event is StaleSocketSeen,
        SetupStep::RemoveStaleSocket => event is StaleSocketRemoved,
        SetupStep::WritePidFile => event is PidFileWritten,
        SetupStep::BindSocket => event is SocketBound,
        SetupStep::MakeNonBlocking => event is MadeNonBlocking,
        SetupStep::HandleSignals => event is SignalsHandled,
        SetupStep::StartRuntime => event is RuntimeStarted,
        SetupStep::Serve => false,
        SetupStep::Abort(_) => false,
    }
}

/// The step that is due after these events.
pub open spec fn due_after(events: Seq<SetupEvent>) -> SetupStep {
    if events.len() == 0 {
        first_setup_step()
    } else {
        setup_after(events.last())
    }
}

/// Whether the event with this number has come of the step that was due then.
pub open spec fn comes_when_due(events: Seq<SetupEvent>, i: int) -> bool {
    can_come_of(events[i], due_after(events.take(i)))
}

/// Whether these events, in this order, can be those of a daemon that comes up.
pub open spec fn is_setup(events: Seq<SetupEvent>) -> bool {
    forall|i: int| 0 <= i < events.len() ==> #[trigger] comes_when_due(events, i)
}

/// The place of an event on the way up.
pub open spec fn place(event: SetupEvent) -> int {
    match event {
        SetupEvent::HomeFound(_) => 0,
        SetupEvent::SettingsRead(_) => 1,
        SetupEvent::ClipsDirMade(_) => 2,
        SetupEvent::StaleSocketSeen(_) => 3,
        SetupEvent::StaleSocketRemoved(_) => 4,
        SetupEvent::PidFileWritten(_) => 5,
        SetupEvent::SocketBound(_) => 6,
        SetupEvent::MadeNonBlocking(_) => 7,
        SetupEvent::SignalsHandled => 8,
        SetupEvent::RuntimeStarted(_) => 9,
    }
}

/// Whether an event ends the way up: the step that it comes of has failed, and matters.
pub open spec fn is_fatal(event: SetupEvent) -> bool {
    match event {
        SetupEvent::HomeFound(done) => !done,
        SetupEvent::SettingsRead(outcome) => outcome is Err,
        SetupEvent::ClipsDirMade(done) => !done,
        SetupEvent::StaleSocketSeen(_) => false,
        SetupEvent::StaleSocketRemoved(_) => false,
        SetupEvent::PidFileWritten(done) => !done,
        SetupEvent::SocketBound(done) => !done,
        SetupEvent::MadeNonBlocking(done) => !done,
        SetupEvent::SignalsHandled => false,
        SetupEvent::RuntimeStarted(done) => !done,
    }
}

/// Whether an event comes of a step that touches the socket or the file with the process id.
pub open spec fn touches_files(event: SetupEvent) -> bool {
    event is StaleSocketRemoved || event is PidFileWritten || event is SocketBound
        || event is MadeNonBlocking
}

/// The way up goes forward: every step is tried at most once, each after those before it.
pub proof fn law_setup_goes_forward(events: Seq<SetupEvent>, i: int, j: int)
    requires
        is_setup(events),
        0 <= i < j < events.len(),
    ensures
        place(events[i]) < place(events[j]),
    decreases j,
{
    assert(events.take(j).last() == events[j - 1]);
    assert(comes_when_due(events, j));
    if i < j - 1 {
        law_setup_goes_forward(events, i, j - 1);
    }
}

/// A step that fails and matters ends the way up: it is the last that is tried, and what is due
/// then is the end.
pub proof fn law_failure_ends_the_setup(events: Seq<SetupEvent>, i: int)
    requires
        is_setup(events),
        0 <= i < events.len(),
        is_fatal(events[i]),
    ensures
        i == events.len() - 1,
        due_after(events) is Abort,
{
    assert(events.take(i + 1).last() == events[i]);
    if i + 1 < events.len() {
        assert(comes_when_due(events, i + 1));
    }
}

/// The way up ends early only where a step has failed that matters.
pub proof fn law_abort_has_a_cause(events: Seq<SetupEvent>)
    requires
        is_setup(events),
        due_after(events) is Abort,
    ensures
        events.len() > 0,
        is_fatal(events.last()),
{
}

/// That a socket left behind could not be removed does not matter.
pub proof fn law_stale_socket_does_not_matter(events: Seq<SetupEvent>)
    requires
        is_setup(events),
        events.len() > 0,
        events.last() is StaleSocketRemoved,
    ensures
        due_after(events) is WritePidFile,
{
}

/// Where an event has come, all that comes before it has been tried and nothing of it has failed
/// that matters.
pub proof fn law_all_before_is_done(events: Seq<SetupEvent>, i: int)
    requires
        is_setup(events),
        0 <= i < events.len(),
    ensures
        place(events[i]) > 0 ==> events.take(i).contains(SetupEvent::HomeFound(true)),
        place(events[i]) > 1 ==> events.take(i).contains(SetupEvent::SettingsRead(Ok(()))),
        place(events[i]) > 2 ==> events.take(i).contains(SetupEvent::ClipsDirMade(true)),
        place(events[i]) > 3 ==> events.take(i).contains(SetupEvent::StaleSocketSeen(true))
            || events.take(i).contains(SetupEvent::StaleSocketSeen(false)),
        place(events[i]) > 5 ==> events.take(i).contains(SetupEvent::PidFileWritten(true)),
        place(events[i]) > 6 ==> events.take(i).contains(SetupEvent::SocketBound(true)),
        place(events[i]) > 7 ==> events.take(i).contains(SetupEvent::MadeNonBlocking(true)),
        place(events[i]) > 8 ==> events.take(i).contains(SetupEvent::SignalsHandled),
    decreases i,
{
    assert(comes_when_due(events, i));
    if i > 0 {
        law_all_before_is_done(events, i - 1);
        let before = events.take(i - 1);
        let now = events.take(i);
        assert(now.last() == events[i - 1]);
        assert(now.contains(events[i - 1]));
        match events[i - 1] {
            SetupEvent::SettingsRead(Ok(unit)) => assert(unit == ()),
            SetupEvent::StaleSocketSeen(seen) => assert(now.contains(
                SetupEvent::StaleSocketSeen(seen),
            )),
            _ => {},
        }
        assert forall|event: SetupEvent| before.contains(event) implies now.contains(event) by {
            let k = choose|k: int| 0 <= k < before.len() && before[k] == event;
            assert(now[k] == event);
        }
    }
}

/// The settings are there before the socket or the file with the process id is touched.
pub proof fn law_settings_come_first(events: Seq<SetupEvent>, i: int)
    requires
        is_setup(events),
        0 <= i < events.len(),
        touches_files(events[i]),
    ensures
        events.take(i).contains(SetupEvent::SettingsRead(Ok(()))),
{
    law_all_before_is_done(events, i);
}

/// Without settings the daemon does not come up, what is said is why there are none, and neither
/// the socket nor the file with the process id is touched.
pub proof fn law_no_settings_no_daemon(events: Seq<SetupEvent>, i: int, error: ConfigError)
    requires
        is_setup(events),
        0 <= i < events.len(),
        events[i] == SetupEvent::SettingsRead(Err(error)),
    ensures
        due_after(events) == SetupStep::Abort(SetupError::NoSettings(error)),
        SetupError::NoSettings(error).words() == Some(error.words()),
        forall|j: int| 0 <= j < events.len() ==> !touches_files(#[trigger] events[j]),
{
    law_failure_ends_the_setup(events, i);
    assert forall|j: int| 0 <= j < events.len() implies !touches_files(#[trigger] events[j]) by {
        if j < i {
            law_setup_goes_forward(events, j, i);
        }
    }
}

/// Where the process id could not be written, that is said, and no socket is bound, before or
/// after.
pub proof fn law_no_pid_file_no_socket(events: Seq<SetupEvent>, i: int)
    requires
        is_setup(events),
        0 <= i < events.len(),
        events[i] == SetupEvent::PidFileWritten(false),
    ensures
        due_after(events) == SetupStep::Abort(SetupError::NoPidFile),
        SetupError::NoPidFile.words() == Some("Failed to write PID file"@),
        forall|j: int| 0 <= j < events.len() ==> !(#[trigger] events[j] is SocketBound),
{
    law_failure_ends_the_setup(events, i);
    assert forall|j: int| 0 <= j < events.len() implies !(#[trigger] events[j] is SocketBound) by {
        if j < i {
            law_setup_goes_forward(events, j, i);
        }
    }
}

/// Where the socket could not be bound, that is said; the process id has been written by then,
/// and nothing more is done: its file stays behind.
pub proof fn law_unbound_socket_ends_the_setup(events: Seq<SetupEvent>, i: int)
    requires
        is_setup(events),
        0 <= i < events.len(),
        events[i] == SetupEvent::SocketBound(false),
    ensures
        i == events.len() - 1,
        due_after(events) == SetupStep::Abort(SetupError::NotBound),
        SetupError::NotBound.words() == Some("Failed to bind Unix socket"@),
        events.contains(SetupEvent::PidFileWritten(true)),
{
    law_failure_ends_the_setup(events, i);
    law_all_before_is_done(events, i);
    let before = events.take(i);
    let k = choose|k: int|
        0 <= k < before.len() && before[k] == SetupEvent::PidFileWritten(true);
    assert(events[k] == before[k]);
}

/// Nothing is bound after an abort, nor is any other step tried.
pub proof fn law_nothing_after_an_abort(events: Seq<SetupEvent>, n: int)
    requires
        is_setup(events),
        0 <= n <= events.len(),
        due_after(events.take(n)) is Abort,
    ensures
        n == events.len(),
{
    if n < events.len() {
        assert(comes_when_due(events, n));
    }
}

/// The main loop is entered when the settings are there, the process id is written, the socket is
/// bound and does not block, signals are handled and there is what transcriptions run on; and
/// only then.
pub proof fn law_serves_when_all_is_done(events: Seq<SetupEvent>)
    requires
        is_setup(events),
    ensures
        due_after(events) is Serve <==> events.contains(SetupEvent::RuntimeStarted(true)),
        due_after(events) is Serve ==> {
            &&& events.contains(SetupEvent::HomeFound(true))
            &&& events.contains(SetupEvent::SettingsRead(Ok(())))
            &&& events.contains(SetupEvent::ClipsDirMade(true))
            &&& events.contains(SetupEvent::PidFileWritten(true))
            &&& events.contains(SetupEvent::SocketBound(true))
            &&& events.contains(SetupEvent::MadeNonBlocking(true))
            &&& events.contains(SetupEvent::SignalsHandled)
        },
        due_after(events) is Serve ==> forall|i: int|
            0 <= i < events.len() ==> !is_fatal(#[trigger] events[i]),
{
    let n = events.len() as int;
    if due_after(events) is Serve {
        law_all_before_is_done(events, n - 1);
        let before = events.take(n - 1);
        assert(events[n - 1] == SetupEvent::RuntimeStarted(true));
        assert forall|event: SetupEvent| before.contains(event) implies events.contains(event) by {
            let k = choose|k: int| 0 <= k < before.len() && before[k] == event;
            assert(events[k] == event);
        }
        assert forall|i: int| 0 <= i < events.len() implies !is_fatal(#[trigger] events[i]) by {
            if is_fatal(events[i]) {
                law_failure_ends_the_setup(events, i);
            }
        }
    }
    if events.contains(SetupEvent::RuntimeStarted(true)) {
        let k = choose|k: int|
            0 <= k < events.len() && events[k] == SetupEvent::RuntimeStarted(true);
        if k + 1 < n {
            law_setup_goes_forward(events, k, k + 1);
        }
    }
}

} // verus!
