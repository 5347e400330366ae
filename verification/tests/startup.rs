use voice_clip::config::{load_config, ConfigError};
use voice_clip::startup::{next_setup_step, start_setup, SetupError, SetupEvent, SetupStep};

/// The steps that are tried where `failing` fails and no other step does, and how it ends.
fn tried(stale_socket: bool, failing: Option<SetupStep>) -> (Vec<SetupStep>, SetupStep) {
    let mut steps = Vec::new();
    let mut step = start_setup();
    loop {
        let done = Some(&step) != failing.as_ref();
        let event = match step {
            SetupStep::FindHome => SetupEvent::HomeFound(done),
            SetupStep::ReadSettings => SetupEvent::SettingsRead(if done {
                Ok(())
            } else {
                load_config("/home/me", Some("VOICE_CLIP_LANG=en")).map(|_| ())
            }),
            SetupStep::MakeClipsDir => SetupEvent::ClipsDirMade(done),
            SetupStep::LookForStaleSocket => SetupEvent::StaleSocketSeen(stale_socket),
            SetupStep::RemoveStaleSocket => SetupEvent::StaleSocketRemoved(done),
            SetupStep::WritePidFile => SetupEvent::PidFileWritten(done),
            SetupStep::BindSocket => SetupEvent::SocketBound(done),
            SetupStep::MakeNonBlocking => SetupEvent::MadeNonBlocking(done),
            SetupStep::HandleSignals => SetupEvent::SignalsHandled,
            SetupStep::StartRuntime => SetupEvent::RuntimeStarted(done),
            SetupStep::Serve | SetupStep::Abort(_) => return (steps, step),
        };
        steps.push(step);
        step = next_setup_step(event);
    }
}

fn words(end: SetupStep) -> Option<String> {
    match end {
        SetupStep::Abort(error) => error.message(),
        other => panic!("the daemon goes on with {:?}", other),
    }
}

#[test]
fn the_daemon_comes_up_step_by_step() {
    assert_eq!(
        tried(false, None),
        (
            vec![
                SetupStep::FindHome,
                SetupStep::ReadSettings,
                SetupStep::MakeClipsDir,
                SetupStep::LookForStaleSocket,
                SetupStep::WritePidFile,
                SetupStep::BindSocket,
                SetupStep::MakeNonBlocking,
                SetupStep::HandleSignals,
                SetupStep::StartRuntime,
            ],
            SetupStep::Serve
        )
    );
}

#[test]
fn a_stale_socket_goes_before_the_pid_file_is_written() {
    let (steps, end) = tried(true, None);
    assert_eq!(
        steps[3..6],
        [SetupStep::LookForStaleSocket, SetupStep::RemoveStaleSocket, SetupStep::WritePidFile]
    );
    assert_eq!(steps.len(), 10);
    assert_eq!(end, SetupStep::Serve);
}

#[test]
fn a_stale_socket_that_stays_does_not_matter() {
    assert_eq!(tried(true, Some(SetupStep::RemoveStaleSocket)), tried(true, None));
}

#[test]
fn without_home_nothing_is_read() {
    let (steps, end) = tried(true, Some(SetupStep::FindHome));
    assert_eq!(steps, vec![SetupStep::FindHome]);
    assert_eq!(words(end), Some("HOME not set".to_string()));
}

#[test]
fn without_settings_no_file_is_touched() {
    let (steps, end) = tried(true, Some(SetupStep::ReadSettings));
    assert_eq!(steps, vec![SetupStep::FindHome, SetupStep::ReadSettings]);
    assert_eq!(
        words(end),
        Some("OPENAI_API_KEY not found in /home/me/voice-clips/.env".to_string())
    );
}

#[test]
fn settings_that_cannot_be_read_end_the_start() {
    let error = ConfigError::unreadable("/home/me");
    assert_eq!(error, ConfigError::Unreadable("/home/me/voice-clips/.env".to_string()));
    assert_eq!(
        words(next_setup_step(SetupEvent::SettingsRead(Err(error)))),
        Some("Failed to read /home/me/voice-clips/.env".to_string())
    );
}

#[test]
fn without_a_directory_for_clips_no_file_is_touched() {
    let (steps, end) = tried(true, Some(SetupStep::MakeClipsDir));
    assert_eq!(steps.last(), Some(&SetupStep::MakeClipsDir));
    assert_eq!(words(end), Some("Failed to create clips directory".to_string()));
}

#[test]
fn without_a_pid_file_nothing_is_bound() {
    let (steps, end) = tried(false, Some(SetupStep::WritePidFile));
    assert_eq!(steps.last(), Some(&SetupStep::WritePidFile));
    assert!(!steps.contains(&SetupStep::BindSocket));
    assert_eq!(words(end), Some("Failed to write PID file".to_string()));
}

#[test]
fn a_socket_that_cannot_be_bound_ends_the_start() {
    let (steps, end) = tried(false, Some(SetupStep::BindSocket));
    assert!(steps.contains(&SetupStep::WritePidFile));
    assert_eq!(steps.last(), Some(&SetupStep::BindSocket));
    assert_eq!(end, SetupStep::Abort(SetupError::NotBound));
    assert_eq!(words(end), Some("Failed to bind Unix socket".to_string()));
}

#[test]
fn a_socket_that_blocks_ends_the_start() {
    let (_, end) = tried(false, Some(SetupStep::MakeNonBlocking));
    assert_eq!(words(end), Some("Failed to set socket non-blocking".to_string()));
}

#[test]
fn without_a_runtime_the_cause_speaks_for_itself() {
    let (steps, end) = tried(false, Some(SetupStep::StartRuntime));
    assert_eq!(steps.last(), Some(&SetupStep::StartRuntime));
    assert_eq!(end, SetupStep::Abort(SetupError::NoRuntime));
    assert_eq!(words(end), None);
}
