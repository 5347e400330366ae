//! What holds of the daemon as a whole.

use vstd::prelude::*;

use crate::clip::{clip_at, law_recordings_do_not_overwrite, ClipView, LocalTime};
use crate::config::{
    config_of, is_plain_value, law_line_behind_changes_its_field_alone, ConfigView,
};
use crate::daemon::{
    initial_daemon, shown, ActionView, DaemonView, EventView, JobView, Phase,
};
use crate::lifecycle::{interrupted_flags, shutting_down, step_after, Flags, LoopEvent};
use crate::notify::{
    copied_message_of, ClipboardError, CLIPBOARD_FAILURE, RECORDING_MESSAGE, TRANSCRIBING_MESSAGE,
    TRANSCRIPTION_FAILURE,
};
use crate::protocol::{
    first_line, law_line_ends_in_a_line_feed, law_reply_arrives, law_tmux_environment_arrives,
    law_unknown_command_is_one_line, line_of, request_of, toggle_text, DaemonState, RequestView,
};
use crate::text::{is_space, trimmed};
use crate::transcription::{
    law_transcript_is_the_whole_text, outcome_of, parsed_members, request_for, TranscribeErrorView,
};

verus! {

/// What the actions of the daemon work on, where they work.
pub struct World {
    /// Whether the daemon is to go on, and whether the recorder is to stop.
    pub flags: Flags,
    /// Whether there is a recorder that has not been waited for.
    pub recorder: bool,
    /// Whether the file is there that says that a recording runs.
    pub marker: bool,
    /// Whether the socket is there.
    pub socket: bool,
    /// Whether the file with the process id is there.
    pub pid_file: bool,
    /// What is on the clipboard.
    pub clipboard: Option<Seq<char>>,
    /// The transcripts, by path.
    pub transcripts: Map<Seq<char>, Seq<char>>,
}

/// The world after an action.
pub open spec fn effect(world: World, action: ActionView) -> World {
    match action {
        ActionView::ClearStopFlag => World {
            flags: Flags { stop_recording: false, ..world.flags },
            ..world
        },
        ActionView::RaiseStopFlag => World {
            flags: Flags { stop_recording: true, ..world.flags },
            ..world
        },
        ActionView::ClearRunningFlag => World {
            flags: Flags { running: false, ..world.flags },
            ..world
        },
        ActionView::CreateMarker => World { marker: true, ..world },
        ActionView::RemoveMarker => World { marker: false, ..world },
        ActionView::RemoveSocket => World { socket: false, ..world },
        ActionView::RemovePidFile => World { pid_file: false, ..world },
        ActionView::StartRecorder { device: _, wav_path: _ } => World { recorder: true, ..world },
        ActionView::JoinRecorder => World { recorder: false, ..world },
        ActionView::Tmux(_) => world,
        ActionView::Reply(_) => world,
        ActionView::Transcribe(_) => world,
        ActionView::SaveTranscript { path, text } => World {
            transcripts: world.transcripts.insert(path, text),
            ..world
        },
        ActionView::CopyToClipboard(text) => World { clipboard: Some(text), ..world },
    }
}

/// The world after a list of actions.
pub open spec fn effects(world: World, actions: Seq<ActionView>) -> World
    decreases actions.len(),
{
    if actions.len() == 0 {
        world
    } else {
        effects(effect(world, actions.first()), actions.drop_first())
    }
}

/// Whether an action may be performed: a recorder is started only where none runs and none is
/// told to stop, and it is waited for only where it has been told to stop.
pub open spec fn is_safe(world: World, action: ActionView) -> bool {
    match action {
        ActionView::StartRecorder { device: _, wav_path: _ } => !world.recorder
            && !world.flags.stop_recording,
        ActionView::JoinRecorder => world.flags.stop_recording,
        _ => true,
    }
}

/// Whether each action of a list may be performed when its turn comes.
pub open spec fn all_safe(world: World, actions: Seq<ActionView>) -> bool
    decreases actions.len(),
{
    actions.len() > 0 ==> {
        &&& is_safe(world, actions.first())
        &&& all_safe(effect(world, actions.first()), actions.drop_first())
    }
}

proof fn lemma_effects_of_joined(world: World, xs: Seq<ActionView>, ys: Seq<ActionView>)
    ensures
        effects(world, xs + ys) == effects(effects(world, xs), ys),
        all_safe(world, xs + ys) <==> all_safe(world, xs) && all_safe(effects(world, xs), ys),
    decreases xs.len(),
{
    if xs.len() == 0 {
        assert(xs + ys == ys);
    } else {
        assert((xs + ys).first() == xs.first());
        assert((xs + ys).drop_first() == xs.drop_first() + ys);
        lemma_effects_of_joined(effect(world, xs.first()), xs.drop_first(), ys);
    }
}

proof fn lemma_effects_of_one(world: World, action: ActionView)
    ensures
        effects(world, seq![action]) == effect(world, action),
        all_safe(world, seq![action]) <==> is_safe(world, action),
{
    reveal_with_fuel(effects, 2);
    reveal_with_fuel(all_safe, 2);
    assert(seq![action].first() == action);
    assert(seq![action].drop_first() == Seq::<ActionView>::empty());
}

proof fn lemma_effects_of_two(world: World, a: ActionView, b: ActionView)
    ensures
        effects(world, seq![a, b]) == effect(effect(world, a), b),
        all_safe(world, seq![a, b]) <==> is_safe(world, a) && is_safe(effect(world, a), b),
{
    lemma_effects_of_one(world, a);
    lemma_effects_of_one(effect(world, a), b);
    lemma_effects_of_joined(world, seq![a], seq![b]);
    assert(seq![a] + seq![b] == seq![a, b]);
}

proof fn lemma_effects_of_three(world: World, a: ActionView, b: ActionView, c: ActionView)
    ensures
        effects(world, seq![a, b, c]) == effect(effect(effect(world, a), b), c),
        all_safe(world, seq![a, b, c]) <==> is_safe(world, a) && is_safe(effect(world, a), b)
            && is_safe(effect(effect(world, a), b), c),
{
    lemma_effects_of_two(world, a, b);
    lemma_effects_of_one(effect(effect(world, a), b), c);
    lemma_effects_of_joined(world, seq![a, b], seq![c]);
    assert(seq![a, b] + seq![c] == seq![a, b, c]);
}

proof fn lemma_showing_changes_nothing(world: World, tmux_env: Option<Seq<char>>, text: Seq<char>)
    ensures
        effects(world, shown(tmux_env, text)) == world,
        all_safe(world, shown(tmux_env, text)),
{
    if shown(tmux_env, text).len() > 0 {
        lemma_effects_of_one(world, shown(tmux_env, text)[0]);
        assert(shown(tmux_env, text) == seq![shown(tmux_env, text)[0]]);
    }
}

/// Three actions, a message and a reply have the effect of the three actions.
proof fn lemma_effects_of_turn(
    world: World,
    a: ActionView,
    b: ActionView,
    c: ActionView,
    tmux_env: Option<Seq<char>>,
    text: Seq<char>,
    reply: Seq<char>,
)
    ensures
        effects(world, seq![a, b, c] + shown(tmux_env, text) + seq![ActionView::Reply(reply)])
            == effect(effect(effect(world, a), b), c),
        all_safe(world, seq![a, b, c] + shown(tmux_env, text) + seq![ActionView::Reply(reply)])
            <==> is_safe(world, a) && is_safe(effect(world, a), b) && is_safe(
            effect(effect(world, a), b),
            c,
        ),
{
    let after = effect(effect(effect(world, a), b), c);
    lemma_effects_of_three(world, a, b, c);
    lemma_showing_changes_nothing(after, tmux_env, text);
    lemma_effects_of_one(after, ActionView::Reply(reply));
    lemma_effects_of_joined(world, seq![a, b, c], shown(tmux_env, text));
    lemma_effects_of_joined(
        world,
        seq![a, b, c] + shown(tmux_env, text),
        seq![ActionView::Reply(reply)],
    );
}

/// A turn of the daemon.
pub enum Turn {
    /// A line comes in.
    Receive(Seq<char>),
    /// What a client asks for is answered, at a given time.
    Respond(RequestView, LocalTime),
    /// The outcome of an action comes in.
    Resume(EventView),
}

/// Whether the turn can come.
pub open spec fn is_due(daemon: DaemonView, turn: Turn) -> bool {
    match turn {
        Turn::Receive(_) => daemon.phase is Ready,
        Turn::Respond(_, now) => daemon.phase is Ready && now.valid(),
        Turn::Resume(event) => daemon.awaits(event),
    }
}

/// The daemon after a turn, and what is to be done.
pub open spec fn taking(daemon: DaemonView, turn: Turn, config: ConfigView) -> (
    DaemonView,
    Seq<ActionView>,
) {
    match turn {
        Turn::Receive(line) => (daemon.informed(request_of(line)), Seq::empty()),
        Turn::Respond(request, now) => daemon.responding(request, config, now),
        Turn::Resume(event) => daemon.resuming(event, config),
    }
}

/// Whether the daemon is in a condition that it can come into: the recording that runs, or that
/// is about to be transcribed, has its files named, and no other has; and the daemon is
/// transcribing exactly while a transcription is announced or something of it is awaited.
pub open spec fn is_sound(daemon: DaemonView) -> bool {
    &&& daemon.clip is Some <==> daemon.state is Recording || daemon.phase is HandingOver
    &&& daemon.state is Transcribing <==> daemon.phase is HandingOver || daemon.job is Some
    &&& !(daemon.phase is HandingOver && daemon.job is Some)
}

/// The tmux environment to which messages about the recording go that was stopped last.
pub open spec fn audience(daemon: DaemonView) -> Option<Seq<char>> {
    match daemon.job {
        Some(JobView::Transcribing { clip: _, tmux_env }) => tmux_env,
        Some(JobView::Copying { text: _, tmux_env }) => tmux_env,
        None => None,
    }
}

/// Whether the world is as the daemon's state says: there is a recorder, and the file that says
/// so is there, exactly while the daemon is recording; and the recorder is not told to stop as
/// long as the daemon is to go on.
pub open spec fn agrees(daemon: DaemonView, world: World) -> bool {
    &&& world.recorder == (daemon.state is Recording)
    &&& world.marker == (daemon.state is Recording)
    &&& daemon.state is Recording && world.flags.running ==> !world.flags.stop_recording
}

/// Every turn leaves the daemon sound and the world as its state says, and asks for nothing
/// that may not be done: there is one recorder at a time, and the recording indicator is there
/// exactly while it runs.
pub proof fn law_turn_keeps_order(daemon: DaemonView, world: World, turn: Turn, config: ConfigView)
    requires
        is_sound(daemon),
        agrees(daemon, world),
        is_due(daemon, turn),
    ensures
        is_sound(taking(daemon, turn, config).0),
        agrees(
            taking(daemon, turn, config).0,
            effects(world, taking(daemon, turn, config).1),
        ),
        all_safe(world, taking(daemon, turn, config).1),
{
    let (after, actions) = taking(daemon, turn, config);
    match turn {
        Turn::Receive(line) => {},
        Turn::Respond(request, now) => {
            match request {
                RequestView::Toggle(_) => {
                    if daemon.state is Idle {
                        let clip = clip_at(config.clips_dir, now);
                        lemma_effects_of_turn(
                            world,
                            ActionView::ClearStopFlag,
                            ActionView::CreateMarker,
                            ActionView::StartRecorder {
                                device: config.device,
                                wav_path: clip.wav_path(),
                            },
                            daemon.tmux_env,
                            RECORDING_MESSAGE@,
                            line_of("recording"@),
                        );
                    } else if daemon.state is Recording {
                        lemma_effects_of_turn(
                            world,
                            ActionView::RaiseStopFlag,
                            ActionView::RemoveMarker,
                            ActionView::JoinRecorder,
                            daemon.tmux_env,
                            TRANSCRIBING_MESSAGE@,
                            line_of("transcribing"@),
                        );
                    } else {
                        lemma_effects_of_one(world, actions[0]);
                        assert(actions == seq![actions[0]]);
                    }
                },
                _ => {
                    lemma_effects_of_one(world, actions[0]);
                    assert(actions == seq![actions[0]]);
                },
            }
        },
        Turn::Resume(event) => {
            match event {
                EventView::ReplySent(sent) => match daemon.phase {
                    Phase::Ending => if sent {
                        lemma_effects_of_two(
                            world,
                            ActionView::RaiseStopFlag,
                            ActionView::ClearRunningFlag,
                        );
                    },
                    Phase::HandingOver => {
                        lemma_effects_of_one(world, actions[0]);
                        assert(actions == seq![actions[0]]);
                    },
                    _ => {},
                },
                EventView::Transcribed(Ok(text)) => {
                    lemma_effects_of_two(world, actions[0], actions[1]);
                    assert(actions == seq![actions[0], actions[1]]);
                },
                EventView::Transcribed(Err(error)) => {
                    lemma_showing_changes_nothing(
                        world,
                        audience(daemon),
                        TRANSCRIPTION_FAILURE@ + error.words(),
                    );
                },
                EventView::Copied(outcome) => {
                    if let Some(JobView::Copying { text, tmux_env }) = daemon.job {
                        lemma_showing_changes_nothing(world, tmux_env, copied_message_of(text));
                        if let Err(error) = outcome {
                            lemma_showing_changes_nothing(
                                world,
                                tmux_env,
                                CLIPBOARD_FAILURE@ + error.words(),
                            );
                        }
                    }
                },
            }
        },
    }
}

/// The daemon and the world after a row of turns.
pub open spec fn taking_all(
    daemon: DaemonView,
    world: World,
    turns: Seq<Turn>,
    config: ConfigView,
) -> (DaemonView, World)
    decreases turns.len(),
{
    if turns.len() == 0 {
        (daemon, world)
    } else {
        let (before, then) = taking_all(daemon, world, turns.drop_last(), config);
        let (after, actions) = taking(before, turns.last(), config);
        (after, effects(then, actions))
    }
}

/// Whether each turn of a row can come when it does.
pub open spec fn all_due(
    daemon: DaemonView,
    world: World,
    turns: Seq<Turn>,
    config: ConfigView,
) -> bool
    decreases turns.len(),
{
    turns.len() > 0 ==> {
        &&& all_due(daemon, world, turns.drop_last(), config)
        &&& is_due(taking_all(daemon, world, turns.drop_last(), config).0, turns.last())
    }
}

/// Whatever clients ask for and whatever comes of it, from the start of the daemon on: it stays
/// sound, the world stays as its state says, and nothing is done that may not be done.
pub proof fn law_daemon_keeps_order(world: World, turns: Seq<Turn>, config: ConfigView)
    requires
        agrees(initial_daemon(), world),
        all_due(initial_daemon(), world, turns, config),
    ensures
        is_sound(taking_all(initial_daemon(), world, turns, config).0),
        agrees(
            taking_all(initial_daemon(), world, turns, config).0,
            taking_all(initial_daemon(), world, turns, config).1,
        ),
        turns.len() > 0 ==> all_safe(
            taking_all(initial_daemon(), world, turns.drop_last(), config).1,
            taking(
                taking_all(initial_daemon(), world, turns.drop_last(), config).0,
                turns.last(),
                config,
            ).1,
        ),
    decreases turns.len(),
{
    if turns.len() > 0 {
        law_daemon_keeps_order(world, turns.drop_last(), config);
        let (before, then) = taking_all(initial_daemon(), world, turns.drop_last(), config);
        law_turn_keeps_order(before, then, turns.last(), config);
    }
}

/// A signal that asks the program to end, whenever it comes, leaves the world as the daemon's
/// state says. When the daemon next looks at the flags, it lets no more clients in.
pub proof fn law_signal_keeps_order(daemon: DaemonView, world: World)
    requires
        agrees(daemon, world),
    ensures
        agrees(daemon, World { flags: interrupted_flags(), ..world }),
        step_after(LoopEvent::Checked(interrupted_flags().running)) is Settle,
{
}

/// On the way down the recorder ends, told to before it is waited for, and no file stays that
/// says that a daemon or a recording runs.
pub proof fn law_shutdown_leaves_nothing(world: World)
    ensures
        all_safe(world, shutting_down()),
        effects(world, shutting_down()) == (World {
            flags: Flags { stop_recording: true, ..world.flags },
            recorder: false,
            marker: false,
            socket: false,
            pid_file: false,
            ..world
        }),
{
    let first = seq![
        ActionView::RaiseStopFlag,
        ActionView::JoinRecorder,
        ActionView::RemoveSocket,
    ];
    let last = seq![ActionView::RemovePidFile, ActionView::RemoveMarker];
    assert(shutting_down() == first + last);
    lemma_effects_of_joined(world, first, last);
    lemma_effects_of_three(
        world,
        ActionView::RaiseStopFlag,
        ActionView::JoinRecorder,
        ActionView::RemoveSocket,
    );
    lemma_effects_of_two(
        effects(world, first),
        ActionView::RemovePidFile,
        ActionView::RemoveMarker,
    );
}

/// Whether the outcome of an action is handed back to the daemon.
pub open spec fn has_outcome(action: ActionView) -> bool {
    action is Reply || action is Transcribe || action is CopyToClipboard
}

/// Whether `event` is an outcome of `action`.
pub open spec fn is_outcome_of(event: EventView, action: ActionView) -> bool {
    match event {
        EventView::ReplySent(_) => action is Reply,
        EventView::Transcribed(_) => action is Transcribe,
        EventView::Copied(_) => action is CopyToClipboard,
    }
}

/// Whether the turn brings the outcome that `event` is another value of.
pub open spec fn brings(turn: Turn, event: EventView) -> bool {
    match turn {
        Turn::Resume(brought) => match event {
            EventView::ReplySent(_) => brought is ReplySent,
            EventView::Transcribed(_) => brought is Transcribed,
            EventView::Copied(_) => brought is Copied,
        },
        _ => false,
    }
}

/// Of the actions of a turn only the last can have an outcome that is handed back. After the
/// turn the daemon waits for that outcome and for what it waited for before, but for what the
/// turn brought; and for nothing else.
pub proof fn law_last_action_decides_what_comes(
    daemon: DaemonView,
    turn: Turn,
    config: ConfigView,
)
    requires
        is_sound(daemon),
        is_due(daemon, turn),
    ensures
        ({
            let (after, actions) = taking(daemon, turn, config);
            &&& forall|i: int| 0 <= i < actions.len() - 1 ==> !has_outcome(#[trigger] actions[i])
            &&& forall|event: EventView| #[trigger]
                after.awaits(event) <==> (actions.len() > 0 && is_outcome_of(
                    event,
                    actions.last(),
                )) || (daemon.awaits(event) && !brings(turn, event))
        }),
{
    let (after, actions) = taking(daemon, turn, config);
    match turn {
        Turn::Respond(request, now) => {
            assert(actions.last() is Reply);
        },
        _ => {},
    }
}

/// While a transcription runs, or its transcript is put on the clipboard, clients are served:
/// the state that they are told is `transcribing`, a toggle is told that the daemon is busy, and
/// what is awaited stays awaited.
pub proof fn law_busy_daemon_answers(daemon: DaemonView, config: ConfigView, now: LocalTime)
    requires
        is_sound(daemon),
        daemon.phase is Ready,
        daemon.job is Some,
    ensures
        daemon.responding(RequestView::Status, config, now).1 == seq![
            ActionView::Reply(line_of("transcribing"@)),
        ],
        forall|tmux: Option<Seq<char>>|
            (#[trigger] daemon.responding(RequestView::Toggle(tmux), config, now)).1 == seq![
                ActionView::Reply(line_of("busy (transcribing)"@)),
            ],
        forall|request: RequestView|
            (#[trigger] daemon.responding(request, config, now)).0.job == daemon.job,
        forall|request: RequestView, sent: bool|
            (#[trigger] daemon.responding(request, config, now).0.resuming(
                EventView::ReplySent(sent),
                config,
            )).0 == daemon,
{
}

/// What the daemon answers, in words.
pub open spec fn answer_to(state: DaemonState, request: RequestView) -> Seq<char> {
    match request {
        RequestView::Toggle(_) => match state {
            DaemonState::Idle => "recording"@,
            DaemonState::Recording => "transcribing"@,
            DaemonState::Transcribing => "busy (transcribing)"@,
        },
        RequestView::Status => state.word(),
        RequestView::Stop => "stopping"@,
        RequestView::Unknown(command) => "unknown command: "@ + command,
    }
}

/// Every line that a client sends, blank ones aside, is answered by one line, and what the
/// client prints of it is the answer, unchanged.
pub proof fn law_client_prints_answer(
    daemon: DaemonView,
    line: Seq<char>,
    config: ConfigView,
    now: LocalTime,
)
    requires
        !line.contains('\n'),
        trimmed(line).len() > 0,
    ensures
        ({
            let request = request_of(first_line(line_of(line)));
            let actions = daemon.responding(request, config, now).1;
            let answer = answer_to(daemon.state, request);
            &&& actions.last() == ActionView::Reply(line_of(answer))
            &&& trimmed(first_line(line_of(answer))) == answer
        }),
{
    let request = request_of(first_line(line_of(line)));
    let answer = answer_to(daemon.state, request);
    reveal_strlit("recording");
    reveal_strlit("transcribing");
    reveal_strlit("busy (transcribing)");
    reveal_strlit("idle");
    reveal_strlit("stopping");
    reveal_strlit("unknown command: ");
    if let RequestView::Unknown(command) = request {
        law_unknown_command_is_one_line(line);
        let intro = "unknown command: "@;
        assert(answer.first() == 'u');
        assert(answer.last() == command.last());
        assert(!answer.contains('\n')) by {
            if answer.contains('\n') {
                let i = choose|i: int| 0 <= i < answer.len() && answer[i] == '\n';
                if i < intro.len() {
                    assert(intro[i] == '\n');
                } else {
                    assert(command[i - intro.len()] == '\n');
                }
            }
        }
    }
    assert(!answer.contains('\n'));
    assert(answer.len() > 0);
    assert(!is_space(answer.first()) && !is_space(answer.last()));
    law_reply_arrives(answer);
}

/// To ask for the state, to ask for what the daemon does not know, and to toggle while it is
/// transcribing gets an answer and changes nothing, whether the answer arrives or not.
pub proof fn law_questions_change_nothing(
    daemon: DaemonView,
    request: RequestView,
    config: ConfigView,
    now: LocalTime,
    sent: bool,
)
    requires
        daemon.phase is Ready,
        request is Status || request is Unknown || (request is Toggle
            && daemon.state is Transcribing),
    ensures
        ({
            let (answering, actions) = daemon.responding(request, config, now);
            &&& actions == seq![ActionView::Reply(line_of(answer_to(daemon.state, request)))]
            &&& answering.resuming(EventView::ReplySent(sent), config) == (
                daemon,
                Seq::<ActionView>::empty(),
            )
        }),
{
}

/// The command to end does to the flags what a signal does, once its answer has been sent, so
/// that the daemon lets no more clients in once it looks at them; and nothing where the client is
/// gone.
pub proof fn law_stop_is_like_a_signal(
    daemon: DaemonView,
    world: World,
    config: ConfigView,
    now: LocalTime,
    sent: bool,
)
    requires
        daemon.phase is Ready,
    ensures
        ({
            let (ending, actions) = daemon.responding(RequestView::Stop, config, now);
            let (after, rest) = ending.resuming(EventView::ReplySent(sent), config);
            let end = effects(effects(world, actions), rest);
            &&& actions == seq![ActionView::Reply(line_of("stopping"@))]
            &&& after == daemon
            &&& end == if sent {
                World { flags: interrupted_flags(), ..world }
            } else {
                world
            }
            &&& sent ==> step_after(LoopEvent::Checked(end.flags.running)) is Settle
        }),
{
    lemma_effects_of_one(world, ActionView::Reply(line_of("stopping"@)));
    lemma_effects_of_two(world, ActionView::RaiseStopFlag, ActionView::ClearRunningFlag);
}

/// The first toggle starts a recording, named after the time; the second stops it and has it
/// transcribed. The transcript stands beside the recording and, where the clipboard works, is on
/// the clipboard, the same text in both places; and the daemon is as it was before, whether the
/// answers to the toggles arrived or not.
pub proof fn law_two_toggles_make_a_transcript(
    daemon: DaemonView,
    world: World,
    config: ConfigView,
    start: LocalTime,
    end: LocalTime,
    first_heard: bool,
    second_heard: bool,
    first_tmux: Option<Seq<char>>,
    second_tmux: Option<Seq<char>>,
    text: Seq<char>,
    copied: Result<(), ClipboardError>,
)
    requires
        is_sound(daemon),
        daemon.phase is Ready,
        daemon.state is Idle,
    ensures
        ({
            let clip = clip_at(config.clips_dir, start);
            let (d1, a1) = daemon.responding(RequestView::Toggle(first_tmux), config, start);
            let (d2, a2) = d1.resuming(EventView::ReplySent(first_heard), config);
            let (d3, a3) = d2.responding(RequestView::Toggle(second_tmux), config, end);
            let (d4, a4) = d3.resuming(EventView::ReplySent(second_heard), config);
            let (d5, a5) = d4.resuming(EventView::Transcribed(Ok(text)), config);
            let (d6, a6) = d5.resuming(EventView::Copied(copied), config);
            let w3 = effects(effects(effects(world, a1), a2), a3);
            let w6 = effects(effects(effects(w3, a4), a5), a6);
            &&& d2.state is Recording && d2.phase is Ready
            &&& a1.contains(
                ActionView::StartRecorder { device: config.device, wav_path: clip.wav_path() },
            )
            &&& d3.state is Transcribing
            &&& a4 == seq![ActionView::Transcribe(request_for(config, clip))]
            &&& d6 == daemon
            &&& w6.transcripts == world.transcripts.insert(clip.txt_path(), text)
            &&& copied is Ok ==> w6.clipboard == Some(text)
            &&& !w6.marker && !w6.recorder
        }),
{
    let clip = clip_at(config.clips_dir, start);
    let (d1, a1) = daemon.responding(RequestView::Toggle(first_tmux), config, start);
    let (d2, a2) = d1.resuming(EventView::ReplySent(first_heard), config);
    let (d3, a3) = d2.responding(RequestView::Toggle(second_tmux), config, end);
    let (d4, a4) = d3.resuming(EventView::ReplySent(second_heard), config);
    let (d5, a5) = d4.resuming(EventView::Transcribed(Ok(text)), config);
    let (d6, a6) = d5.resuming(EventView::Copied(copied), config);
    let recorder = ActionView::StartRecorder { device: config.device, wav_path: clip.wav_path() };
    assert(a1[2] == recorder);
    lemma_effects_of_turn(
        world,
        ActionView::ClearStopFlag,
        ActionView::CreateMarker,
        recorder,
        daemon.tmux_env,
        RECORDING_MESSAGE@,
        line_of("recording"@),
    );
    let w2 = effects(effects(world, a1), a2);
    lemma_effects_of_turn(
        w2,
        ActionView::RaiseStopFlag,
        ActionView::RemoveMarker,
        ActionView::JoinRecorder,
        d2.tmux_env,
        TRANSCRIBING_MESSAGE@,
        line_of("transcribing"@),
    );
    let w3 = effects(w2, a3);
    lemma_effects_of_one(w3, a4[0]);
    assert(a4 == seq![a4[0]]);
    let w4 = effects(w3, a4);
    lemma_effects_of_two(w4, a5[0], a5[1]);
    assert(a5 == seq![a5[0], a5[1]]);
    let w5 = effects(w4, a5);
    let message = match copied {
        Ok(_) => copied_message_of(text),
        Err(error) => CLIPBOARD_FAILURE@ + error.words(),
    };
    assert(a6 == shown(audience(d5), message));
    lemma_showing_changes_nothing(w5, audience(d5), message);
}

/// A transcription that fails leaves clipboard and transcripts alone, and the daemon idle.
pub proof fn law_failed_transcription_leaves_clipboard_alone(
    daemon: DaemonView,
    world: World,
    config: ConfigView,
    error: TranscribeErrorView,
)
    requires
        daemon.awaits(EventView::Transcribed(Err(error))),
    ensures
        ({
            let (after, actions) = daemon.resuming(EventView::Transcribed(Err(error)), config);
            &&& after.state is Idle && after.job is None && after.phase == daemon.phase
            &&& effects(world, actions) == world
        }),
{
    lemma_showing_changes_nothing(
        world,
        audience(daemon),
        TRANSCRIPTION_FAILURE@ + error.words(),
    );
}

/// A recording that has been stopped is transcribed, whether the client that stopped it hears of
/// that or is gone.
pub proof fn law_stopped_recording_is_transcribed(
    daemon: DaemonView,
    config: ConfigView,
    now: LocalTime,
    tmux: Option<Seq<char>>,
    heard: bool,
)
    requires
        is_sound(daemon),
        daemon.phase is Ready,
        daemon.state is Recording,
    ensures
        ({
            let told = daemon.responding(RequestView::Toggle(tmux), config, now).0;
            let (after, actions) = told.resuming(EventView::ReplySent(heard), config);
            &&& actions == seq![ActionView::Transcribe(request_for(config, daemon.clip->0))]
            &&& after.phase is Ready
            &&& forall|outcome: Result<Seq<char>, TranscribeErrorView>| #[trigger]
                after.awaits(EventView::Transcribed(outcome))
        }),
{
}

/// A daemon that is transcribing awaits something that gets it on: the outcome of the
/// announcement, the transcript or the clipboard. It is not busy for good.
pub proof fn law_transcribing_daemon_awaits_an_outcome(daemon: DaemonView)
    requires
        is_sound(daemon),
        daemon.state is Transcribing,
    ensures
        ({
            ||| daemon.phase is HandingOver && daemon.awaits(EventView::ReplySent(true))
            ||| daemon.awaits(EventView::Transcribed(Ok(Seq::empty())))
            ||| daemon.awaits(EventView::Copied(Ok(())))
        }),
{
    if let Some(job) = daemon.job {
        assert(job is Transcribing || job is Copying);
    }
}

/// Nothing is shown to clients outside of tmux.
pub proof fn law_nothing_is_shown_outside_tmux(
    daemon: DaemonView,
    turn: Turn,
    config: ConfigView,
    i: int,
)
    requires
        daemon.tmux_env matches Some(env) ==> env.len() == 0,
        audience(daemon) matches Some(env) ==> env.len() == 0,
        0 <= i < taking(daemon, turn, config).1.len(),
    ensures
        !(taking(daemon, turn, config).1[i] is Tmux),
{
}

/// Whether a client with this tmux environment runs inside of tmux.
pub open spec fn in_tmux(tmux_env: Option<Seq<char>>) -> bool {
    tmux_env matches Some(env) && env.len() > 0
}

/// The action that has tmux display `message`.
pub open spec fn display(message: Seq<char>) -> ActionView {
    ActionView::Tmux(seq!["display-message"@, message])
}

/// A toggle while the daemon is idle starts a recorder on the device of the settings, with the
/// audio file of the recording that starts now; before that the demand to stop is withdrawn and
/// the marker is created. The client is told, inside of tmux by a message too. The daemon is
/// recording then, and nothing else of it changes.
pub proof fn law_toggle_starts_a_recording(
    daemon: DaemonView,
    config: ConfigView,
    now: LocalTime,
    tmux: Option<Seq<char>>,
)
    requires
        daemon.state is Idle,
    ensures
        ({
            let (after, actions) = daemon.responding(RequestView::Toggle(tmux), config, now);
            let clip = clip_at(config.clips_dir, now);
            let recorder = ActionView::StartRecorder {
                device: config.device,
                wav_path: clip.wav_path(),
            };
            let reply = ActionView::Reply("recording"@ + seq!['\n']);
            let message = "\u{25cf} REC \u{2014} Alt+V om te stoppen"@;
            &&& after == DaemonView {
                state: DaemonState::Recording,
                phase: Phase::Answering,
                job: daemon.job,
                clip: Some(clip),
                tmux_env: daemon.tmux_env,
            }
            &&& in_tmux(daemon.tmux_env) ==> actions == seq![
                ActionView::ClearStopFlag,
                ActionView::CreateMarker,
                recorder,
                display(message),
                reply,
            ]
            &&& !in_tmux(daemon.tmux_env) ==> actions == seq![
                ActionView::ClearStopFlag,
                ActionView::CreateMarker,
                recorder,
                reply,
            ]
        }),
{
    assert("recording"@.push('\n') == "recording"@ + seq!['\n']);
}

/// A toggle while the daemon is recording has the recorder stop and waits for it; the marker goes.
/// The client is told that the transcription runs, inside of tmux by a message too. The daemon
/// holds on to the recording, and is transcribing.
pub proof fn law_toggle_stops_the_recording(
    daemon: DaemonView,
    config: ConfigView,
    now: LocalTime,
    tmux: Option<Seq<char>>,
)
    requires
        daemon.state is Recording,
    ensures
        ({
            let (after, actions) = daemon.responding(RequestView::Toggle(tmux), config, now);
            let reply = ActionView::Reply("transcribing"@ + seq!['\n']);
            &&& after == DaemonView {
                state: DaemonState::Transcribing,
                phase: Phase::HandingOver,
                job: daemon.job,
                clip: daemon.clip,
                tmux_env: daemon.tmux_env,
            }
            &&& in_tmux(daemon.tmux_env) ==> actions == seq![
                ActionView::RaiseStopFlag,
                ActionView::RemoveMarker,
                ActionView::JoinRecorder,
                display("Transcriberen..."@),
                reply,
            ]
            &&& !in_tmux(daemon.tmux_env) ==> actions == seq![
                ActionView::RaiseStopFlag,
                ActionView::RemoveMarker,
                ActionView::JoinRecorder,
                reply,
            ]
        }),
{
    assert("transcribing"@.push('\n') == "transcribing"@ + seq!['\n']);
}

/// Once a stop has been announced, one request goes out: for the audio file of the recording that
/// ran, with the key and in the language of the settings. What comes of it is for that recording
/// and for the tmux environment that the daemon knows by then.
pub proof fn law_recording_goes_to_the_service(
    daemon: DaemonView,
    config: ConfigView,
    clip: ClipView,
    heard: bool,
)
    requires
        daemon.phase is HandingOver,
        daemon.clip == Some(clip),
    ensures
        ({
            let (after, actions) = daemon.resuming(EventView::ReplySent(heard), config);
            &&& actions.len() == 1
            &&& actions[0] matches ActionView::Transcribe(request) && {
                &&& request.token == config.api_key
                &&& request.language == config.lang
                &&& request.file_path == clip.wav_path()
                &&& request.file_name == clip.stem + ".wav"@
                &&& request.url == "https://api.openai.com/v1/audio/transcriptions"@
                &&& request.mime == "audio/wav"@
                &&& request.model == "whisper-1"@
            }
            &&& after == DaemonView {
                state: daemon.state,
                phase: Phase::Ready,
                job: Some(JobView::Transcribing { clip, tmux_env: daemon.tmux_env }),
                clip: None,
                tmux_env: daemon.tmux_env,
            }
        }),
{
}

/// A transcript is written to the file beside the recording and put on the clipboard, the whole of
/// it in both places and nothing else in either.
pub proof fn law_transcript_is_saved_and_copied(
    daemon: DaemonView,
    config: ConfigView,
    clip: ClipView,
    tmux_env: Option<Seq<char>>,
    text: Seq<char>,
)
    requires
        daemon.job == Some(JobView::Transcribing { clip, tmux_env }),
    ensures
        ({
            let (after, actions) = daemon.resuming(EventView::Transcribed(Ok(text)), config);
            &&& actions == seq![
                ActionView::SaveTranscript { path: clip.txt_path(), text },
                ActionView::CopyToClipboard(text),
            ]
            &&& after == DaemonView {
                state: daemon.state,
                phase: daemon.phase,
                job: Some(JobView::Copying { text, tmux_env }),
                clip: daemon.clip,
                tmux_env: daemon.tmux_env,
            }
        }),
{
}

/// What the service heard is what is kept: of a reply that stands for success, the string member
/// `text` is written to the file and put on the clipboard, all of it.
pub proof fn law_what_was_said_is_kept(
    daemon: DaemonView,
    config: ConfigView,
    clip: ClipView,
    tmux_env: Option<Seq<char>>,
    status: u16,
    body: Seq<char>,
    members: Map<Seq<char>, Seq<char>>,
)
    requires
        daemon.job == Some(JobView::Transcribing { clip, tmux_env }),
        200 <= status <= 299,
        parsed_members(body) == Some(members),
        members.contains_key("text"@),
    ensures
        daemon.resuming(EventView::Transcribed(outcome_of(status, body)), config).1 == seq![
            ActionView::SaveTranscript { path: clip.txt_path(), text: members["text"@] },
            ActionView::CopyToClipboard(members["text"@]),
        ],
{
    law_transcript_is_the_whole_text(status, body);
    law_transcript_is_saved_and_copied(daemon, config, clip, tmux_env, members["text"@]);
}

/// Why there is no transcript is shown inside of tmux, in full; and then the daemon is idle.
pub proof fn law_failed_transcription_is_shown(
    daemon: DaemonView,
    config: ConfigView,
    clip: ClipView,
    tmux_env: Option<Seq<char>>,
    error: TranscribeErrorView,
)
    requires
        daemon.job == Some(JobView::Transcribing { clip, tmux_env }),
    ensures
        ({
            let (after, actions) = daemon.resuming(EventView::Transcribed(Err(error)), config);
            &&& in_tmux(tmux_env) ==> actions == seq![
                display("\u{2717} Transcriptie fout: "@ + error.words()),
            ]
            &&& !in_tmux(tmux_env) ==> actions.len() == 0
            &&& after == DaemonView {
                state: DaemonState::Idle,
                phase: daemon.phase,
                job: None,
                clip: daemon.clip,
                tmux_env: daemon.tmux_env,
            }
        }),
{
}

/// When the text is on the clipboard, that is shown inside of tmux with the start of the text, up
/// to sixty characters of it; and where it is not, why. Then the daemon is idle.
pub proof fn law_end_of_copying_is_shown(
    daemon: DaemonView,
    config: ConfigView,
    text: Seq<char>,
    tmux_env: Option<Seq<char>>,
    outcome: Result<(), ClipboardError>,
)
    requires
        daemon.job == Some(JobView::Copying { text, tmux_env }),
    ensures
        ({
            let (after, actions) = daemon.resuming(EventView::Copied(outcome), config);
            let start = if text.len() <= 60 {
                text
            } else {
                text.take(60)
            };
            &&& in_tmux(tmux_env) && outcome is Ok ==> actions == seq![
                display("\u{2713} gekopieerd \u{2014} "@ + start),
            ]
            &&& in_tmux(tmux_env) ==> (outcome matches Err(error) ==> actions == seq![
                display("\u{2717} Clipboard fout: "@ + error.words()),
            ])
            &&& !in_tmux(tmux_env) ==> actions.len() == 0
            &&& after == DaemonView {
                state: DaemonState::Idle,
                phase: daemon.phase,
                job: None,
                clip: daemon.clip,
                tmux_env: daemon.tmux_env,
            }
        }),
{
}

/// The tmux environment that a toggle brings takes the place of the one known before, and nothing
/// else of the daemon changes; without one, and with every other request, nothing does.
pub proof fn law_environment_is_remembered(daemon: DaemonView, request: RequestView)
    ensures
        daemon.informed(request) == (DaemonView {
            state: daemon.state,
            phase: daemon.phase,
            job: daemon.job,
            clip: daemon.clip,
            tmux_env: match request {
                RequestView::Toggle(Some(tmux)) => Some(tmux),
                _ => daemon.tmux_env,
            },
        }),
{
}

/// A client inside of tmux that toggles, whatever its tmux environment is, sees in tmux that the
/// recording runs, or that the transcription does; so does whoever awaits the transcript.
pub proof fn law_client_in_tmux_sees_its_toggle(
    daemon: DaemonView,
    config: ConfigView,
    now: LocalTime,
    tmux: Seq<char>,
)
    requires
        tmux.len() > 0,
        !tmux.contains('\n'),
        !is_space(tmux.last()),
    ensures
        ({
            let request = request_of(first_line("toggle TMUX="@ + tmux + seq!['\n']));
            let (after, actions) = daemon.informed(request).responding(request, config, now);
            &&& after.tmux_env == Some(tmux)
            &&& daemon.state is Idle ==> actions.contains(
                display("\u{25cf} REC \u{2014} Alt+V om te stoppen"@),
            )
            &&& daemon.state is Recording ==> {
                &&& actions.contains(display("Transcriberen..."@))
                &&& daemon.clip is Some ==> audience(
                    after.resuming(EventView::ReplySent(true), config).0,
                ) == Some(tmux)
            }
        }),
{
    law_tmux_environment_arrives(tmux);
    let line = "toggle TMUX="@ + tmux + seq!['\n'];
    assert(line == line_of(toggle_text(tmux)));
    let request = request_of(first_line(line));
    law_environment_is_remembered(daemon, request);
    let informed = daemon.informed(request);
    let actions = informed.responding(request, config, now).1;
    if daemon.state is Idle {
        law_toggle_starts_a_recording(informed, config, now, Some(tmux));
        assert(actions[3] == display("\u{25cf} REC \u{2014} Alt+V om te stoppen"@));
    } else if daemon.state is Recording {
        law_toggle_stops_the_recording(informed, config, now, Some(tmux));
        assert(actions[3] == display("Transcriberen..."@));
    }
}

/// Every request that neither starts nor stops a recording gets one answer and nothing else: the
/// state in one word, that the end comes, that the daemon is busy, or the unknown command, quoted
/// as it is.
pub proof fn law_answers_are_in_so_many_words(
    daemon: DaemonView,
    config: ConfigView,
    now: LocalTime,
    tmux: Option<Seq<char>>,
    command: Seq<char>,
)
    ensures
        daemon.responding(RequestView::Status, config, now).1 == seq![
            ActionView::Reply(
                match daemon.state {
                    DaemonState::Idle => "idle"@,
                    DaemonState::Recording => "recording"@,
                    DaemonState::Transcribing => "transcribing"@,
                } + seq!['\n'],
            ),
        ],
        daemon.responding(RequestView::Stop, config, now).1 == seq![
            ActionView::Reply("stopping"@ + seq!['\n']),
        ],
        daemon.responding(RequestView::Unknown(command), config, now).1 == seq![
            ActionView::Reply("unknown command: "@ + command + seq!['\n']),
        ],
        daemon.state is Transcribing ==> daemon.responding(
            RequestView::Toggle(tmux),
            config,
            now,
        ).1 == seq![ActionView::Reply("busy (transcribing)"@ + seq!['\n'])],
        daemon.responding(RequestView::Status, config, now).0 == (DaemonView {
            phase: Phase::Answering,
            ..daemon
        }),
        daemon.responding(RequestView::Unknown(command), config, now).0 == (DaemonView {
            phase: Phase::Answering,
            ..daemon
        }),
        daemon.responding(RequestView::Stop, config, now).0 == (DaemonView {
            phase: Phase::Ending,
            ..daemon
        }),
{
    law_line_ends_in_a_line_feed(daemon.state.word(), Seq::empty());
    law_line_ends_in_a_line_feed("stopping"@, Seq::empty());
    law_line_ends_in_a_line_feed("unknown command: "@ + command, Seq::empty());
    law_line_ends_in_a_line_feed("busy (transcribing)"@, Seq::empty());
}

/// Toggles that start recordings in different seconds start them on different audio files, and
/// their transcripts go to different files: none overwrites another.
pub proof fn law_toggles_record_apart(
    daemon: DaemonView,
    other: DaemonView,
    config: ConfigView,
    a: LocalTime,
    b: LocalTime,
    tmux: Option<Seq<char>>,
)
    requires
        daemon.state is Idle,
        other.state is Idle,
        a.valid(),
        b.valid(),
        a != b,
    ensures
        ({
            let (one, first) = daemon.responding(RequestView::Toggle(tmux), config, a);
            let (two, second) = other.responding(RequestView::Toggle(tmux), config, b);
            &&& first[2]->wav_path != second[2]->wav_path
            &&& (one.clip->0).wav_path() == first[2]->wav_path
            &&& (two.clip->0).wav_path() == second[2]->wav_path
            &&& (one.clip->0).txt_path() != (two.clip->0).txt_path()
        }),
{
    law_recordings_do_not_overwrite(config.clips_dir, a, b);
}

/// What the settings file says last is what is used: the language and the key go to the service
/// with the recording, and the device is the one that is recorded.
pub proof fn law_settings_reach_their_use(
    home: Seq<char>,
    contents: Seq<char>,
    value: Seq<char>,
    daemon: DaemonView,
    now: LocalTime,
)
    requires
        is_plain_value(value),
        config_of(home, Some(contents)) is Some,
    ensures
        ({
            let lang = config_of(home, Some(contents + "\nVOICE_CLIP_LANG="@ + value));
            let key = config_of(home, Some(contents + "\nOPENAI_API_KEY="@ + value));
            let device = config_of(home, Some(contents + "\nVOICE_CLIP_DEVICE="@ + value));
            let heard = EventView::ReplySent(true);
            &&& daemon.phase is HandingOver && daemon.clip is Some ==> {
                &&& daemon.resuming(heard, lang->0).1[0] matches ActionView::Transcribe(request)
                    && request.language == value
                &&& daemon.resuming(heard, key->0).1[0] matches ActionView::Transcribe(request)
                    && request.token == value
            }
            &&& daemon.state is Idle ==> daemon.responding(
                RequestView::Toggle(None),
                device->0,
                now,
            ).1[2]->StartRecorder_device == value
        }),
{
    law_line_behind_changes_its_field_alone(home, contents, value);
}

} // verus!
