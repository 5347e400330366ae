use voice_clip::protocol::{
    client_command, parse_request, parse_subcommand, response_text, to_line, toggle_command, usage,
    DaemonState, Request, Subcommand,
};

fn args(words: &[&str]) -> Vec<String> {
    words.iter().map(|w| w.to_string()).collect()
}

#[test]
fn states_have_words() {
    assert_eq!(DaemonState::Idle.to_text(), "idle");
    assert_eq!(DaemonState::Recording.to_text(), "recording");
    assert_eq!(DaemonState::Transcribing.to_text(), "transcribing");
}

#[test]
fn requests_are_read() {
    assert_eq!(parse_request("toggle\n"), Request::Toggle(None));
    assert_eq!(
        parse_request("toggle TMUX=/tmp/tmux-1000/default,1,0\n"),
        Request::Toggle(Some("/tmp/tmux-1000/default,1,0".to_string()))
    );
    assert_eq!(parse_request(" status \r\n"), Request::Status);
    assert_eq!(parse_request("stop"), Request::Stop);
    assert_eq!(
        parse_request("stop now\n"),
        Request::Unknown("stop now".to_string())
    );
    assert_eq!(parse_request("\n"), Request::Unknown(String::new()));
}

#[test]
fn whatever_starts_with_toggle_is_a_toggle() {
    assert_eq!(parse_request("toggleTMUX=x"), Request::Toggle(Some("x".to_string())));
    assert_eq!(parse_request("toggle TMUX="), Request::Toggle(Some(String::new())));
    assert_eq!(parse_request("toggle now"), Request::Toggle(None));
    assert_eq!(parse_request("toggled"), Request::Toggle(None));
    assert_eq!(
        parse_request("Toggle"),
        Request::Unknown("Toggle".to_string())
    );
}

#[test]
fn what_the_client_sends_the_daemon_understands() {
    assert_eq!(toggle_command(""), "toggle");
    assert_eq!(toggle_command("a,b"), "toggle TMUX=a,b");
    for tmux in ["/tmp/tmux-1000/default,1,0", "  x", "TMUX=y"] {
        let line = to_line(&toggle_command(tmux));
        assert_eq!(parse_request(&line), Request::Toggle(Some(tmux.to_string())));
    }
    assert_eq!(parse_request(&to_line(&toggle_command(""))), Request::Toggle(None));
}

#[test]
fn a_tmux_environment_that_ends_in_white_space_loses_it() {
    let line = to_line(&toggle_command("x "));
    assert_eq!(parse_request(&line), Request::Toggle(Some("x".to_string())));
}

#[test]
fn the_client_prints_the_line_without_its_end() {
    assert_eq!(to_line("idle"), "idle\n");
    assert_eq!(response_text("idle\n"), "idle");
    assert_eq!(response_text("busy (transcribing)\n"), "busy (transcribing)");
}

#[test]
fn arguments_name_a_subcommand() {
    assert_eq!(parse_subcommand(&args(&["voice-clip", "daemon"])), Subcommand::Daemon);
    assert_eq!(
        parse_subcommand(&args(&["voice-clip", "toggle", "x"])),
        Subcommand::Toggle
    );
    assert_eq!(parse_subcommand(&args(&["voice-clip", "status"])), Subcommand::Status);
    assert_eq!(parse_subcommand(&args(&["voice-clip", "stop"])), Subcommand::Stop);
    assert_eq!(parse_subcommand(&args(&["voice-clip", "help"])), Subcommand::Usage);
    assert_eq!(parse_subcommand(&args(&["voice-clip"])), Subcommand::Usage);
    assert_eq!(parse_subcommand(&args(&[])), Subcommand::Usage);
}

#[test]
fn subcommands_send_commands() {
    assert_eq!(client_command(Subcommand::Toggle, "t"), Some("toggle TMUX=t".to_string()));
    assert_eq!(client_command(Subcommand::Toggle, ""), Some("toggle".to_string()));
    assert_eq!(client_command(Subcommand::Status, "t"), Some("status".to_string()));
    assert_eq!(client_command(Subcommand::Stop, "t"), Some("stop".to_string()));
    assert_eq!(client_command(Subcommand::Daemon, "t"), None);
    assert_eq!(client_command(Subcommand::Usage, "t"), None);
}

#[test]
fn the_usage_lists_the_subcommands() {
    let lines = usage();
    assert_eq!(lines.len(), 6);
    assert_eq!(lines[0], "Usage: voice-clip <daemon|toggle|status|stop>");
    assert_eq!(lines[3], "  toggle  \u{2014} start/stop recording");
}
