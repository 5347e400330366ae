use voice_clip::daemon::Action;
use voice_clip::lifecycle::{
    next_step, shutdown_actions, start_loop, Flags, LoopEvent, LoopStep,
};
use voice_clip::notify::{copied_message, tmux_message};
use voice_clip::paths::{PID_PATH, REC_MARKER, SOCKET_PATH};

#[test]
fn the_files_have_their_places() {
    assert_eq!(SOCKET_PATH, "/tmp/voice-clip.sock");
    assert_eq!(PID_PATH, "/tmp/voice-clip.pid");
    assert_eq!(REC_MARKER, "/tmp/voice-clip.recording");
}

#[test]
fn the_loop_goes_round_until_it_is_told_to_end() {
    assert_eq!(start_loop(), LoopStep::CheckRunning);
    assert_eq!(next_step(LoopEvent::Checked(true)), LoopStep::Collect);
    assert_eq!(next_step(LoopEvent::Collected), LoopStep::Accept);
    assert_eq!(next_step(LoopEvent::Accepted), LoopStep::Serve);
    assert_eq!(next_step(LoopEvent::NothingWaiting), LoopStep::Sleep(50));
    assert_eq!(next_step(LoopEvent::AcceptFailed), LoopStep::CheckRunning);
    assert_eq!(next_step(LoopEvent::Served), LoopStep::CheckRunning);
    assert_eq!(next_step(LoopEvent::Slept), LoopStep::CheckRunning);
}

#[test]
fn the_daemon_settles_before_it_comes_down() {
    assert_eq!(next_step(LoopEvent::Checked(false)), LoopStep::Settle);
    assert_eq!(next_step(LoopEvent::Settled(true)), LoopStep::Settle);
    assert_eq!(next_step(LoopEvent::Settled(false)), LoopStep::ShutDown);
}

#[test]
fn the_way_down_leaves_nothing() {
    assert_eq!(
        shutdown_actions(),
        vec![
            Action::RaiseStopFlag,
            Action::JoinRecorder,
            Action::RemoveSocket,
            Action::RemovePidFile,
            Action::RemoveMarker,
        ]
    );
}

#[test]
fn a_signal_ends_daemon_and_recorder() {
    assert_eq!(Flags::initial(), Flags { running: true, stop_recording: false });
    assert_eq!(Flags::interrupted(), Flags { running: false, stop_recording: true });
}

#[test]
fn messages_are_shown_in_tmux_alone() {
    let args = vec!["display-message".to_string(), "x".to_string()];
    assert_eq!(tmux_message(&Some("t".to_string()), "x"), Some(args));
    assert_eq!(tmux_message(&Some(String::new()), "x"), None);
    assert_eq!(tmux_message(&None, "x"), None);
}

#[test]
fn the_clipboard_message_shows_sixty_characters() {
    assert_eq!(copied_message("kort"), "\u{2713} gekopieerd \u{2014} kort");
    let long = "a".repeat(100);
    let expected = format!("\u{2713} gekopieerd \u{2014} {}", "a".repeat(60));
    assert_eq!(copied_message(&long), expected);
}
