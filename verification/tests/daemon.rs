use voice_clip::clip::LocalTime;
use voice_clip::config::Config;
use voice_clip::daemon::{Action, Daemon, Event};
use voice_clip::notify::ClipboardError;
use voice_clip::protocol::{DaemonState, Request};
use voice_clip::transcription::TranscribeError;

const START: LocalTime = LocalTime { year: 2026, month: 3, day: 25, hour: 14, minute: 30, second: 52 };

fn config() -> Config {
    Config {
        api_key: "sk".to_string(),
        lang: "nl".to_string(),
        device: "plughw:0,0".to_string(),
        clips_dir: "/clips".to_string(),
    }
}

fn ask(daemon: &mut Daemon, line: &str) -> Vec<Action> {
    let request = daemon.receive(line);
    assert!(daemon.is_ready());
    daemon.respond_at(&request, &config(), &START)
}

fn tell(daemon: &mut Daemon, event: Event) -> Vec<Action> {
    assert!(daemon.is_waiting_for(&event));
    daemon.resume(event, &config())
}

fn reply(text: &str) -> Action {
    Action::Reply(text.to_string())
}

fn tmux(message: &str) -> Action {
    Action::Tmux(vec!["display-message".to_string(), message.to_string()])
}

fn start() -> Action {
    Action::StartRecorder {
        device: "plughw:0,0".to_string(),
        wav_path: "/clips/2026-03-25_143052.wav".to_string(),
    }
}

fn recording() -> Daemon {
    let mut daemon = Daemon::new();
    ask(&mut daemon, "toggle TMUX=t\n");
    tell(&mut daemon, Event::ReplySent(true));
    assert_eq!(daemon.state(), DaemonState::Recording);
    daemon
}

fn transcribing() -> Daemon {
    let mut daemon = recording();
    ask(&mut daemon, "toggle\n");
    tell(&mut daemon, Event::ReplySent(true));
    assert_eq!(daemon.state(), DaemonState::Transcribing);
    daemon
}

#[test]
fn a_new_daemon_is_idle() {
    let mut daemon = Daemon::new();
    assert_eq!(daemon.state(), DaemonState::Idle);
    assert!(daemon.is_ready());
    assert_eq!(ask(&mut daemon, "status\n"), vec![reply("idle\n")]);
    assert_eq!(tell(&mut daemon, Event::ReplySent(true)), vec![]);
    assert!(daemon.is_ready());
}

#[test]
fn the_first_toggle_starts_a_recording() {
    let mut daemon = Daemon::new();
    assert_eq!(
        ask(&mut daemon, "toggle\n"),
        vec![Action::ClearStopFlag, Action::CreateMarker, start(), reply("recording\n")]
    );
    assert!(!daemon.is_ready());
    assert_eq!(tell(&mut daemon, Event::ReplySent(false)), vec![]);
    assert!(daemon.is_ready());
    assert_eq!(daemon.state(), DaemonState::Recording);
}

#[test]
fn a_client_in_tmux_sees_what_happens() {
    let mut daemon = Daemon::new();
    assert_eq!(
        ask(&mut daemon, "toggle TMUX=t\n"),
        vec![
            Action::ClearStopFlag,
            Action::CreateMarker,
            start(),
            tmux("\u{25cf} REC \u{2014} Alt+V om te stoppen"),
            reply("recording\n"),
        ]
    );
}

#[test]
fn an_empty_tmux_environment_is_none() {
    let mut daemon = Daemon::new();
    assert_eq!(ask(&mut daemon, "toggle TMUX=\n").len(), 4);
}

#[test]
fn two_toggles_make_a_transcript() {
    let mut daemon = recording();
    assert_eq!(
        ask(&mut daemon, "toggle\n"),
        vec![
            Action::RaiseStopFlag,
            Action::RemoveMarker,
            Action::JoinRecorder,
            tmux("Transcriberen..."),
            reply("transcribing\n"),
        ]
    );
    let actions = tell(&mut daemon, Event::ReplySent(true));
    assert_eq!(actions.len(), 1);
    if let Action::Transcribe(request) = &actions[0] {
        assert_eq!(request.file_path, "/clips/2026-03-25_143052.wav");
        assert_eq!(request.token, "sk");
    } else {
        panic!("no request for a transcription");
    }
    assert_eq!(
        tell(&mut daemon, Event::Transcribed(Ok("hallo".to_string()))),
        vec![
            Action::SaveTranscript {
                path: "/clips/2026-03-25_143052.txt".to_string(),
                text: "hallo".to_string(),
            },
            Action::CopyToClipboard("hallo".to_string()),
        ]
    );
    assert_eq!(
        tell(&mut daemon, Event::Copied(Ok(()))),
        vec![tmux("\u{2713} gekopieerd \u{2014} hallo")]
    );
    assert_eq!(daemon.state(), DaemonState::Idle);
    assert!(daemon.is_ready());
}

#[test]
fn only_the_start_of_a_transcript_is_shown() {
    let mut daemon = transcribing();
    let text = "\u{e9}".repeat(61);
    tell(&mut daemon, Event::Transcribed(Ok(text)));
    let shown = format!("\u{2713} gekopieerd \u{2014} {}", "\u{e9}".repeat(60));
    assert_eq!(tell(&mut daemon, Event::Copied(Ok(()))), vec![tmux(&shown)]);
}

#[test]
fn a_failed_transcription_is_shown() {
    let mut daemon = transcribing();
    assert_eq!(
        tell(&mut daemon, Event::Transcribed(Err(TranscribeError::RequestFailed))),
        vec![tmux("\u{2717} Transcriptie fout: Whisper API request failed")]
    );
    assert_eq!(daemon.state(), DaemonState::Idle);
    assert!(daemon.is_ready());
}

#[test]
fn a_failed_clipboard_is_shown() {
    for (error, words) in [
        (ClipboardError::SpawnFailed, "Failed to spawn clip.exe"),
        (ClipboardError::WriteFailed, "Failed to write to clip.exe stdin"),
        (ClipboardError::WaitFailed, "clip.exe failed"),
    ] {
        let mut daemon = transcribing();
        tell(&mut daemon, Event::Transcribed(Ok("hallo".to_string())));
        assert_eq!(error.message(), words);
        assert_eq!(
            tell(&mut daemon, Event::Copied(Err(error))),
            vec![tmux(&format!("\u{2717} Clipboard fout: {}", words))]
        );
        assert_eq!(daemon.state(), DaemonState::Idle);
    }
}

#[test]
fn the_state_is_told_while_recording() {
    let mut daemon = recording();
    assert_eq!(ask(&mut daemon, "status\n"), vec![reply("recording\n")]);
    tell(&mut daemon, Event::ReplySent(true));
    assert_eq!(daemon.state(), DaemonState::Recording);
}

#[test]
fn an_unknown_command_is_quoted() {
    let mut daemon = recording();
    assert_eq!(
        ask(&mut daemon, " frobnicate it \n"),
        vec![reply("unknown command: frobnicate it\n")]
    );
    assert_eq!(tell(&mut daemon, Event::ReplySent(true)), vec![]);
    assert_eq!(daemon.state(), DaemonState::Recording);
}

#[test]
fn stop_ends_the_daemon_once_it_is_answered() {
    let mut daemon = recording();
    assert_eq!(ask(&mut daemon, "stop\n"), vec![reply("stopping\n")]);
    assert_eq!(
        tell(&mut daemon, Event::ReplySent(true)),
        vec![Action::RaiseStopFlag, Action::ClearRunningFlag]
    );
    assert_eq!(daemon.state(), DaemonState::Recording);
}

#[test]
fn stop_does_nothing_for_a_client_that_is_gone() {
    let mut daemon = Daemon::new();
    ask(&mut daemon, "stop\n");
    assert_eq!(tell(&mut daemon, Event::ReplySent(false)), vec![]);
    assert!(daemon.is_ready());
}

#[test]
fn a_recording_is_transcribed_though_the_client_is_gone() {
    let mut daemon = recording();
    ask(&mut daemon, "toggle\n");
    let actions = tell(&mut daemon, Event::ReplySent(false));
    assert_eq!(actions.len(), 1);
    assert!(matches!(actions[0], Action::Transcribe(_)));
    assert!(daemon.is_ready());
    assert!(daemon.is_busy());
    tell(&mut daemon, Event::Transcribed(Err(TranscribeError::ReplyFailed)));
    assert_eq!(daemon.state(), DaemonState::Idle);
    assert!(!daemon.is_busy());
}

#[test]
fn clients_are_served_while_a_transcription_runs() {
    let mut daemon = transcribing();
    assert!(daemon.is_ready());
    assert!(daemon.is_busy());
    assert_eq!(ask(&mut daemon, "status\n"), vec![reply("transcribing\n")]);
    assert_eq!(tell(&mut daemon, Event::ReplySent(true)), vec![]);
    assert_eq!(ask(&mut daemon, "toggle\n"), vec![reply("busy (transcribing)\n")]);
    assert_eq!(tell(&mut daemon, Event::ReplySent(false)), vec![]);
    assert_eq!(ask(&mut daemon, "what\n"), vec![reply("unknown command: what\n")]);
    assert_eq!(tell(&mut daemon, Event::ReplySent(true)), vec![]);
    tell(&mut daemon, Event::Transcribed(Ok("hallo".to_string())));
    assert_eq!(ask(&mut daemon, "status\n"), vec![reply("transcribing\n")]);
    tell(&mut daemon, Event::ReplySent(true));
    tell(&mut daemon, Event::Copied(Ok(())));
    assert_eq!(ask(&mut daemon, "status\n"), vec![reply("idle\n")]);
}

#[test]
fn a_transcript_may_come_while_a_client_is_answered() {
    let mut daemon = transcribing();
    ask(&mut daemon, "status\n");
    assert_eq!(
        tell(&mut daemon, Event::Transcribed(Ok("hallo".to_string()))).len(),
        2
    );
    assert!(!daemon.is_ready());
    assert_eq!(tell(&mut daemon, Event::ReplySent(true)), vec![]);
    assert!(daemon.is_ready());
    assert!(daemon.is_waiting_for(&Event::Copied(Ok(()))));
}

#[test]
fn a_busy_toggle_does_not_redirect_messages() {
    let mut daemon = transcribing();
    ask(&mut daemon, "toggle TMUX=\n");
    tell(&mut daemon, Event::ReplySent(true));
    tell(&mut daemon, Event::Transcribed(Ok("hallo".to_string())));
    assert_eq!(
        tell(&mut daemon, Event::Copied(Ok(()))),
        vec![tmux("\u{2713} gekopieerd \u{2014} hallo")]
    );
}

#[test]
fn stop_is_answered_while_a_transcription_runs() {
    let mut daemon = transcribing();
    assert_eq!(ask(&mut daemon, "stop\n"), vec![reply("stopping\n")]);
    assert_eq!(
        tell(&mut daemon, Event::ReplySent(true)),
        vec![Action::RaiseStopFlag, Action::ClearRunningFlag]
    );
    assert!(daemon.is_busy());
}

#[test]
fn the_daemon_waits_for_one_outcome_at_a_time() {
    let mut daemon = Daemon::new();
    assert!(!daemon.is_waiting_for(&Event::ReplySent(true)));
    ask(&mut daemon, "toggle\n");
    assert!(daemon.is_waiting_for(&Event::ReplySent(true)));
    assert!(!daemon.is_waiting_for(&Event::Copied(Ok(()))));
    assert!(!daemon.is_waiting_for(&Event::Transcribed(Ok(String::new()))));
}

#[test]
fn a_recording_is_named_after_the_clock() {
    let mut daemon = Daemon::new();
    let actions = daemon.respond(&Request::Toggle(None), &config());
    if let Action::StartRecorder { wav_path, .. } = &actions[2] {
        let name: Vec<char> = wav_path.chars().collect();
        assert_eq!(name.len(), "/clips/2026-03-25_143052.wav".len());
        assert!(wav_path.starts_with("/clips/") && wav_path.ends_with(".wav"));
        assert_eq!((name[11], name[14], name[17]), ('-', '-', '_'));
        let digits = wav_path[7..24].chars().filter(|c| c.is_ascii_digit()).count();
        assert_eq!(digits, 14);
        let year: i32 = wav_path[7..11].parse().unwrap();
        assert!(year >= 2024);
    } else {
        panic!("no recorder is started");
    }
}
