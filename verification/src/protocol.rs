//! What client and daemon say to each other: one line each way.

use vstd::prelude::*;

use crate::text::{
    after_prefix, is_all, is_bare, is_space, join, law_prefix_comes_off,
    law_trimming_leaves_the_core, lemma_cut_between, lemma_trimmed_has_bare_ends,
    lemma_trimmed_ignores_space_behind, lemma_trimmed_is_fixed, opt_view, same_text, strip_prefix,
    trim, trimmed, Strip,
};

verus! {

/// The command that starts and stops recordings.
pub const TOGGLE: &'static str = "toggle";

/// The command that asks for the state.
pub const STATUS: &'static str = "status";

/// The command that ends the daemon.
pub const STOP: &'static str = "stop";

/// What stands in front of the tmux environment of a client.
pub const TMUX_PREFIX: &'static str = "TMUX=";

/// What the daemon is doing.
#[derive(Clone, Copy, PartialEq, Eq, Structural, Debug)]
pub enum DaemonState {
    Idle,
    Recording,
    Transcribing,
}

impl DaemonState {
    /// The state in one word.
    pub open spec fn word(self) -> Seq<char> {
        match self {
            DaemonState::Idle => "idle"@,
            DaemonState::Recording => "recording"@,
            DaemonState::Transcribing => "transcribing"@,
        }
    }

    /// The state in one word.
    pub fn to_text(&self) -> (text: String)
        ensures
            text@ == self.word(),
    {
        match self {
            DaemonState::Idle => "idle".to_owned(),
            DaemonState::Recording => "recording".to_owned(),
            DaemonState::Transcribing => "transcribing".to_owned(),
        }
    }
}

/// What a client asks of the daemon.
#[derive(Debug, PartialEq, Eq)]
pub enum Request {
    /// Start or stop a recording; with the tmux environment of the client, if it gave one.
    Toggle(Option<String>),
    /// Say what the state is.
    Status,
    /// End.
    Stop,
    /// Something else.
    Unknown(String),
}

/// The texts that a [`Request`] holds.
pub enum RequestView {
    Toggle(Option<Seq<char>>),
    Status,
    Stop,
    Unknown(Seq<char>),
}

impl View for Request {
    type V = RequestView;

    open spec fn view(&self) -> RequestView {
        match self {
            Request::Toggle(tmux) => RequestView::Toggle(opt_view(*tmux)),
            Request::Status => RequestView::Status,
            Request::Stop => RequestView::Stop,
            Request::Unknown(command) => RequestView::Unknown(command@),
        }
    }
}

/// What a line asks of the daemon, white space at its ends aside. Everything that starts with
/// `toggle` is a toggle; what follows is the tmux environment, where it starts with `TMUX=`.
pub open spec fn request_of(line: Seq<char>) -> RequestView {
    let command = trimmed(line);
    match after_prefix(command, TOGGLE@) {
        Some(rest) => RequestView::Toggle(after_prefix(trimmed(rest), TMUX_PREFIX@)),
        None => if command == STATUS@ {
            RequestView::Status
        } else if command == STOP@ {
            RequestView::Stop
        } else {
            RequestView::Unknown(command)
        },
    }
}

/// Reads the line that a client sent.
pub fn parse_request(line: &str) -> (request: Request)
    ensures
        request@ == request_of(line@),
{
    let command = trim(line);
    match strip_prefix(command, TOGGLE) {
        Some(rest) => match strip_prefix(trim(rest), TMUX_PREFIX) {
            Some(tmux) => Request::Toggle(Some(tmux.to_owned())),
            None => Request::Toggle(None),
        },
        None => if same_text(command, STATUS) {
            Request::Status
        } else if same_text(command, STOP) {
            Request::Stop
        } else {
            Request::Unknown(command.to_owned())
        },
    }
}

/// What the client sends to toggle, given its tmux environment, empty outside of tmux.
pub open spec fn toggle_text(tmux: Seq<char>) -> Seq<char> {
    if tmux.len() == 0 {
        "toggle"@
    } else {
        "toggle TMUX="@ + tmux
    }
}

/// What the client sends to toggle, given its tmux environment, empty outside of tmux.
pub fn toggle_command(tmux: &str) -> (command: String)
    ensures
        command@ == toggle_text(tmux@),
        tmux@.len() == 0 ==> command@ == "toggle"@,
        tmux@.len() > 0 ==> command@ == "toggle TMUX="@ + tmux@,
{
    if tmux.is_empty() {
        "toggle".to_owned()
    } else {
        join("toggle TMUX=", tmux)
    }
}

/// `text` as a line.
pub open spec fn line_of(text: Seq<char>) -> Seq<char> {
    text.push('\n')
}

/// `text` as a line.
pub fn to_line(text: &str) -> (line: String)
    ensures
        line@ == line_of(text@),
        line@ == text@ + seq!['\n'],
{
    let line = join(text, "\n");
    proof {
        reveal_strlit("\n");
        assert(line@ == line_of(text@));
    }
    line
}

/// The line that a reader gets of what was sent: up to the first line feed, with it.
pub open spec fn first_line(sent: Seq<char>) -> Seq<char> {
    match sent.index_of_first('\n') {
        Some(i) => sent.take(i + 1),
        None => sent,
    }
}

/// What the client prints of the line that it got.
pub open spec fn response_of(line: Seq<char>) -> Seq<char> {
    trimmed(line)
}

/// What the client prints of the line that it got.
pub fn response_text(line: &str) -> (text: String)
    ensures
        text@ == response_of(line@),
        text@ == trimmed(line@),
{
    trim(line).to_owned()
}

/// What the program is asked to do when it is started.
#[derive(Clone, Copy, PartialEq, Eq, Structural, Debug)]
pub enum Subcommand {
    /// Run the daemon.
    Daemon,
    /// Send `toggle`.
    Toggle,
    /// Send `status`.
    Status,
    /// Send `stop`.
    Stop,
    /// Say how the program is used, and fail.
    Usage,
}

/// What the program is asked to do, given its arguments, its own name first.
pub open spec fn subcommand_of(args: Seq<String>) -> Subcommand {
    if args.len() < 2 {
        Subcommand::Usage
    } else if args[1]@ == "daemon"@ {
        Subcommand::Daemon
    } else if args[1]@ == "toggle"@ {
        Subcommand::Toggle
    } else if args[1]@ == "status"@ {
        Subcommand::Status
    } else if args[1]@ == "stop"@ {
        Subcommand::Stop
    } else {
        Subcommand::Usage
    }
}

/// Reads the arguments of the program, its own name first.
pub fn parse_subcommand(args: &Vec<String>) -> (subcommand: Subcommand)
    ensures
        subcommand == subcommand_of(args@),
{
    if args.len() < 2 {
        return Subcommand::Usage;
    }
    let word = args[1].as_str();
    if same_text(word, "daemon") {
        Subcommand::Daemon
    } else if same_text(word, "toggle") {
        Subcommand::Toggle
    } else if same_text(word, "status") {
        Subcommand::Status
    } else if same_text(word, "stop") {
        Subcommand::Stop
    } else {
        Subcommand::Usage
    }
}

/// The command that a subcommand sends to the daemon, given the tmux environment of the client.
pub open spec fn command_of(subcommand: Subcommand, tmux: Seq<char>) -> Option<Seq<char>> {
    match subcommand {
        Subcommand::Toggle => Some(toggle_text(tmux)),
        Subcommand::Status => Some(STATUS@),
        Subcommand::Stop => Some(STOP@),
        Subcommand::Daemon => None,
        Subcommand::Usage => None,
    }
}

/// The command that a subcommand sends to the daemon, given the tmux environment of the client.
pub fn client_command(subcommand: Subcommand, tmux: &str) -> (command: Option<String>)
    ensures
        opt_view(command) == command_of(subcommand, tmux@),
{
    match subcommand {
        Subcommand::Toggle => Some(toggle_command(tmux)),
        Subcommand::Status => Some(STATUS.to_owned()),
        Subcommand::Stop => Some(STOP.to_owned()),
        Subcommand::Daemon => None,
        Subcommand::Usage => None,
    }
}

/// What the program says of its use.
pub fn usage() -> (lines: Vec<&'static str>)
    ensures
        lines@ == seq![
            "Usage: voice-clip <daemon|toggle|status|stop>",
            "",
            "  daemon  \u{2014} run background service",
            "  toggle  \u{2014} start/stop recording",
            "  status  \u{2014} print current state (idle/recording/transcribing)",
            "  stop    \u{2014} gracefully stop the daemon",
        ],
{
    vec![
        "Usage: voice-clip <daemon|toggle|status|stop>",
        "",
        "  daemon  \u{2014} run background service",
        "  toggle  \u{2014} start/stop recording",
        "  status  \u{2014} print current state (idle/recording/transcribing)",
        "  stop    \u{2014} gracefully stop the daemon",
    ]
}

/// A text without line feed, sent as a line, is read as that line.
pub proof fn lemma_line_is_read(text: Seq<char>)
    requires
        !text.contains('\n'),
    ensures
        first_line(line_of(text)) == line_of(text),
{
    lemma_cut_between(text, '\n', Seq::empty());
    assert(text.push('\n') + Seq::empty() == line_of(text));
    assert(line_of(text).take(text.len() as int + 1) == line_of(text));
}

/// The daemon understands each command of the client as the client means it.
pub proof fn law_commands_are_understood()
    ensures
        request_of(first_line(line_of(STATUS@))) == RequestView::Status,
        request_of(first_line(line_of(STOP@))) == RequestView::Stop,
        request_of(first_line(line_of(toggle_text(Seq::empty())))) == RequestView::Toggle(None),
{
    reveal_strlit("status");
    reveal_strlit("stop");
    reveal_strlit("toggle");
    reveal_strlit("TMUX=");
    lemma_line_is_read(STATUS@);
    lemma_line_is_read(STOP@);
    lemma_line_is_read(TOGGLE@);
    lemma_trimmed_ignores_space_behind(STATUS@, '\n');
    lemma_trimmed_ignores_space_behind(STOP@, '\n');
    lemma_trimmed_ignores_space_behind(TOGGLE@, '\n');
    lemma_trimmed_is_fixed(STATUS@, Strip::Whitespace);
    lemma_trimmed_is_fixed(STOP@, Strip::Whitespace);
    lemma_trimmed_is_fixed(TOGGLE@, Strip::Whitespace);
    assert(STOP@.len() == 4);
    assert(STATUS@[0] == 's');
    assert(TOGGLE@[0] == 't');
    assert(!TOGGLE@.is_prefix_of(STATUS@)) by {
        if TOGGLE@.is_prefix_of(STATUS@) {
            assert(STATUS@.subrange(0, 6)[0] == STATUS@[0]);
        }
    }
    assert(TOGGLE@.is_prefix_of(TOGGLE@));
    assert(TOGGLE@.skip(6) == Seq::<char>::empty());
    lemma_trimmed_is_fixed(Seq::empty(), Strip::Whitespace);
}

/// The daemon gets the tmux environment of the client as it is, where that is one line and
/// does not end in white space.
pub proof fn law_tmux_environment_arrives(tmux: Seq<char>)
    requires
        tmux.len() > 0,
        !tmux.contains('\n'),
        !is_space(tmux.last()),
    ensures
        request_of(first_line(line_of(toggle_text(tmux)))) == RequestView::Toggle(Some(tmux)),
{
    reveal_strlit("toggle");
    reveal_strlit("toggle TMUX=");
    reveal_strlit("TMUX=");
    let command = toggle_text(tmux);
    assert(!command.contains('\n')) by {
        if command.contains('\n') {
            let i = choose|i: int| 0 <= i < command.len() && command[i] == '\n';
            assert(i >= 12);
            assert(tmux[i - 12] == '\n');
        }
    }
    lemma_line_is_read(command);
    assert(command.first() == 't');
    assert(command.last() == tmux.last());
    lemma_trimmed_ignores_space_behind(command, '\n');
    lemma_trimmed_is_fixed(command, Strip::Whitespace);
    assert(TOGGLE@ == command.subrange(0, 6));
    let rest = command.skip(6);
    let value = TMUX_PREFIX@ + tmux;
    assert(rest == seq![' '] + value);
    assert(rest.first() == ' ');
    assert(rest.drop_first() == value);
    assert(value.first() == 'T');
    assert(value.last() == tmux.last());
    assert(trimmed(rest) == trimmed(value));
    lemma_trimmed_is_fixed(value, Strip::Whitespace);
    assert(TMUX_PREFIX@ == value.subrange(0, 5));
    assert(value.skip(5) == tmux);
}

/// The client prints what the daemon said, where that is one line without white space at its
/// ends.
pub proof fn law_reply_arrives(text: Seq<char>)
    requires
        !text.contains('\n'),
        text.len() > 0 ==> !is_space(text.first()) && !is_space(text.last()),
    ensures
        trimmed(first_line(line_of(text))) == text,
{
    lemma_line_is_read(text);
    lemma_trimmed_ignores_space_behind(text, '\n');
    lemma_trimmed_is_fixed(text, Strip::Whitespace);
}

/// A command that the daemon does not know has no white space at its ends and no line feed in
/// it, so that the answer that quotes it is one line.
pub proof fn law_unknown_command_is_one_line(line: Seq<char>)
    requires
        !line.contains('\n'),
    ensures
        request_of(first_line(line_of(line))) matches RequestView::Unknown(command) ==> {
            &&& command == trimmed(line)
            &&& !command.contains('\n')
            &&& command.len() > 0 ==> !is_space(command.first()) && !is_space(command.last())
        },
{
    lemma_line_is_read(line);
    lemma_trimmed_ignores_space_behind(line, '\n');
    lemma_trimmed_has_bare_ends(line, Strip::Whitespace);
}

/// White space around what a client sends makes no difference.
pub proof fn law_space_around_a_request_is_ignored(
    before: Seq<char>,
    command: Seq<char>,
    after: Seq<char>,
)
    requires
        is_all(before, Strip::Whitespace),
        is_bare(command, Strip::Whitespace),
        is_all(after, Strip::Whitespace),
    ensures
        request_of(before + command + after) == request_of(command),
{
    law_trimming_leaves_the_core(before, command, after, Strip::Whitespace);
    lemma_trimmed_is_fixed(command, Strip::Whitespace);
}

/// What starts with `toggle` is a toggle; `status` asks for the state and `stop` for the end, in
/// just these words; and everything else is unknown and quoted as it is.
pub proof fn law_request_goes_by_its_words(command: Seq<char>)
    requires
        is_bare(command, Strip::Whitespace),
    ensures
        request_of(command) is Toggle <==> "toggle"@.is_prefix_of(command),
        request_of(command) is Status <==> command == "status"@,
        request_of(command) is Stop <==> command == "stop"@,
        request_of(command) matches RequestView::Unknown(quoted) ==> quoted == command,
{
    lemma_trimmed_is_fixed(command, Strip::Whitespace);
    reveal_strlit("toggle");
    reveal_strlit("status");
    reveal_strlit("stop");
    assert("toggle"@[0] == 't' && "status"@[0] == 's' && "stop"@[0] == 's');
    if "toggle"@.is_prefix_of(command) {
        assert(command[0] == command.subrange(0, 6)[0]);
        assert(command[0] == 't');
    }
    assert("status"@.len() != "stop"@.len());
}

/// A toggle brings the tmux environment that follows `TMUX=`, as it is, an empty one too, and none
/// where something else follows or nothing does.
pub proof fn law_toggle_brings_what_follows(space: Seq<char>, tmux: Seq<char>, other: Seq<char>)
    requires
        is_all(space, Strip::Whitespace),
        tmux.len() > 0 ==> !is_space(tmux.last()),
        is_bare(other, Strip::Whitespace),
        !"TMUX="@.is_prefix_of(other),
    ensures
        request_of("toggle"@ + space + "TMUX="@ + tmux) == RequestView::Toggle(Some(tmux)),
        request_of("toggle"@ + space + other) == RequestView::Toggle(None),
{
    reveal_strlit("toggle");
    reveal_strlit("TMUX=");
    let strip = Strip::Whitespace;
    let none = Seq::<char>::empty();
    let value = "TMUX="@ + tmux;
    let with = "toggle"@ + space + "TMUX="@ + tmux;
    assert(with == "toggle"@ + (space + value));
    assert(with.first() == 't');
    assert(value.first() == 'T');
    assert(value.last() == if tmux.len() > 0 {
        tmux.last()
    } else {
        '='
    });
    assert(with.last() == value.last());
    lemma_trimmed_is_fixed(with, strip);
    law_prefix_comes_off("toggle"@, space + value, with);
    law_trimming_leaves_the_core(space, value, none, strip);
    assert(space + value + none == space + value);
    law_prefix_comes_off("TMUX="@, tmux, value);

    let without = "toggle"@ + space + other;
    if other.len() > 0 {
        assert(without.first() == 't');
        assert(without.last() == other.last());
        lemma_trimmed_is_fixed(without, strip);
        assert(without == "toggle"@ + (space + other));
        law_prefix_comes_off("toggle"@, space + other, without);
        law_trimming_leaves_the_core(space, other, none, strip);
        assert(space + other + none == space + other);
    } else {
        assert(none + "toggle"@ + space == without);
        law_trimming_leaves_the_core(none, "toggle"@, space, strip);
        assert("toggle"@ + none == "toggle"@);
        law_prefix_comes_off("toggle"@, none, "toggle"@);
        lemma_trimmed_is_fixed(none, strip);
        assert(!"TMUX="@.is_prefix_of(none));
    }
}

/// The client sends what it is asked to send: the toggle with its tmux environment, in full, and
/// without one outside of tmux; and what runs no client sends nothing.
pub proof fn law_client_sends_what_it_is_asked(tmux: Seq<char>)
    ensures
        tmux.len() > 0 ==> command_of(Subcommand::Toggle, tmux) == Some("toggle TMUX="@ + tmux),
        tmux.len() == 0 ==> command_of(Subcommand::Toggle, tmux) == Some("toggle"@),
        command_of(Subcommand::Status, tmux) == Some("status"@),
        command_of(Subcommand::Stop, tmux) == Some("stop"@),
        command_of(Subcommand::Daemon, tmux) is None,
        command_of(Subcommand::Usage, tmux) is None,
{
}

/// What a client is started for is what the daemon is asked, whatever its tmux environment holds,
/// where that is one line and does not end in white space.
pub proof fn law_daemon_hears_the_subcommand(subcommand: Subcommand, tmux: Seq<char>)
    requires
        !tmux.contains('\n'),
        tmux.len() > 0 ==> !is_space(tmux.last()),
        subcommand is Toggle || subcommand is Status || subcommand is Stop,
    ensures
        command_of(subcommand, tmux) matches Some(command) && request_of(
            first_line(line_of(command)),
        ) == match subcommand {
            Subcommand::Toggle => RequestView::Toggle(
                if tmux.len() > 0 {
                    Some(tmux)
                } else {
                    None
                },
            ),
            Subcommand::Status => RequestView::Status,
            _ => RequestView::Stop,
        },
{
    law_commands_are_understood();
    if tmux.len() > 0 {
        law_tmux_environment_arrives(tmux);
    } else {
        assert(tmux == Seq::<char>::empty());
    }
}

/// The first argument decides what the program does, by just these words, and no other argument
/// matters; where there is none, or another word, the program says how it is used.
pub proof fn law_first_argument_decides(args: Seq<String>, others: Seq<String>)
    ensures
        args.len() < 2 ==> subcommand_of(args) is Usage,
        args.len() >= 2 ==> {
            &&& subcommand_of(args) is Daemon <==> args[1]@ == "daemon"@
            &&& subcommand_of(args) is Toggle <==> args[1]@ == "toggle"@
            &&& subcommand_of(args) is Status <==> args[1]@ == "status"@
            &&& subcommand_of(args) is Stop <==> args[1]@ == "stop"@
        },
        args.len() >= 2 && others.len() >= 2 && args[1]@ == others[1]@ ==> subcommand_of(args)
            == subcommand_of(others),
{
    reveal_strlit("daemon");
    reveal_strlit("toggle");
    reveal_strlit("status");
    reveal_strlit("stop");
    assert("daemon"@[0] == 'd' && "toggle"@[0] == 't' && "status"@[0] == 's');
    assert("stop"@.len() == 4);
}

/// A line is its text with a line feed behind it, and what is read of what was sent is its first
/// line, whatever follows.
pub proof fn law_line_ends_in_a_line_feed(text: Seq<char>, rest: Seq<char>)
    ensures
        line_of(text) == text + seq!['\n'],
        !text.contains('\n') ==> first_line(text + seq!['\n'] + rest) == text + seq!['\n'],
        !text.contains('\n') ==> first_line(text) == text,
{
    if !text.contains('\n') {
        let sent = text + seq!['\n'] + rest;
        lemma_cut_between(text, '\n', rest);
        assert(sent == text.push('\n') + rest);
        assert(sent.take(text.len() as int + 1) == text + seq!['\n']);
        text.index_of_first_ensures('\n');
    }
}

/// The states have these words.
pub proof fn law_states_have_words()
    ensures
        DaemonState::Idle.word() == "idle"@,
        DaemonState::Recording.word() == "recording"@,
        DaemonState::Transcribing.word() == "transcribing"@,
{
}

/// The client prints what came in, whole, without the white space around it.
pub proof fn law_client_prints_what_came(before: Seq<char>, text: Seq<char>, after: Seq<char>)
    requires
        is_all(before, Strip::Whitespace),
        is_bare(text, Strip::Whitespace),
        is_all(after, Strip::Whitespace),
    ensures
        response_of(before + text + after) == text,
{
    law_trimming_leaves_the_core(before, text, after, Strip::Whitespace);
}

/// What a request holds is seen of it as it is.
pub proof fn law_request_is_seen_whole(text: String)
    ensures
        Request::Toggle(Some(text))@ == RequestView::Toggle(Some(text@)),
        Request::Toggle(None)@ == RequestView::Toggle(None),
        Request::Status@ is Status,
        Request::Stop@ is Stop,
        Request::Unknown(text)@ == RequestView::Unknown(text@),
{
}

} // verus!
