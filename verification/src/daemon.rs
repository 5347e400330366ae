//! The daemon: what it does for its clients, step by step.
//!
//! A client is served in turns. The daemon decides on a list of actions, which are performed in
//! order. Where the last of them has an outcome that matters, the outcome is handed back, and
//! the daemon decides on the next list. The outcome of a reply is there at once. A transcription
//! and the clipboard take their time: meanwhile other clients are served.

use vstd::prelude::*;

use crate::clip::{clip_at, local_now, Clip, ClipView, LocalTime};
use crate::config::{Config, ConfigView};
use crate::notify::{
    copied_message, copied_message_of, tmux_args, tmux_message, ClipboardError, CLIPBOARD_FAILURE,
    RECORDING_MESSAGE, TRANSCRIBING_MESSAGE, TRANSCRIPTION_FAILURE,
};
use crate::protocol::{
    line_of, parse_request, request_of, to_line, DaemonState, Request, RequestView,
};
use crate::text::{join, opt_view, views};
use crate::transcription::{
    outcome_view, request_for, transcription_request, TranscribeError, TranscribeErrorView,
    TranscriptionRequest, TranscriptionRequestView,
};

verus! {

/// Something to be done, outside of the daemon's own state.
#[derive(Debug, PartialEq, Eq)]
pub enum Action {
    /// Withdraw the demand that the recorder stop.
    ClearStopFlag,
    /// Demand that the recorder stop.
    RaiseStopFlag,
    /// Demand that the daemon end.
    ClearRunningFlag,
    /// Create the file that says that a recording runs.
    CreateMarker,
    /// Remove the file that says that a recording runs.
    RemoveMarker,
    /// Remove the socket.
    RemoveSocket,
    /// Remove the file with the process id.
    RemovePidFile,
    /// Start a recorder on a device, with the file that it writes.
    StartRecorder { device: String, wav_path: String },
    /// Wait for the recorder to end, if there is one.
    JoinRecorder,
    /// Run tmux with these arguments.
    Tmux(Vec<String>),
    /// Send this to the client, and say whether that worked.
    Reply(String),
    /// Ask for a transcription, and say what came of it.
    Transcribe(TranscriptionRequest),
    /// Write a transcript to a file.
    SaveTranscript { path: String, text: String },
    /// Put a text on the clipboard, and say whether that worked.
    CopyToClipboard(String),
}

/// The texts that an [`Action`] holds.
pub enum ActionView {
    ClearStopFlag,
    RaiseStopFlag,
    ClearRunningFlag,
    CreateMarker,
    RemoveMarker,
    RemoveSocket,
    RemovePidFile,
    StartRecorder { device: Seq<char>, wav_path: Seq<char> },
    JoinRecorder,
    Tmux(Seq<Seq<char>>),
    Reply(Seq<char>),
    Transcribe(TranscriptionRequestView),
    SaveTranscript { path: Seq<char>, text: Seq<char> },
    CopyToClipboard(Seq<char>),
}

impl View for Action {
    type V = ActionView;

    open spec fn view(&self) -> ActionView {
        match self {
            Action::ClearStopFlag => ActionView::ClearStopFlag,
            Action::RaiseStopFlag => ActionView::RaiseStopFlag,
            Action::ClearRunningFlag => ActionView::ClearRunningFlag,
            Action::CreateMarker => ActionView::CreateMarker,
            Action::RemoveMarker => ActionView::RemoveMarker,
            Action::RemoveSocket => ActionView::RemoveSocket,
            Action::RemovePidFile => ActionView::RemovePidFile,
            Action::StartRecorder { device, wav_path } => ActionView::StartRecorder {
                device: device@,
                wav_path: wav_path@,
            },
            Action::JoinRecorder => ActionView::JoinRecorder,
            Action::Tmux(args) => ActionView::Tmux(views(args@)),
            Action::Reply(line) => ActionView::Reply(line@),
            Action::Transcribe(request) => ActionView::Transcribe(request@),
            Action::SaveTranscript { path, text } => ActionView::SaveTranscript {
                path: path@,
                text: text@,
            },
            Action::CopyToClipboard(text) => ActionView::CopyToClipboard(text@),
        }
    }
}

/// The texts that a list of actions holds.
pub open spec fn actions_view(actions: Seq<Action>) -> Seq<ActionView> {
    actions.map_values(|a: Action| a@)
}

/// The outcome of an action.
#[derive(Debug, PartialEq, Eq)]
pub enum Event {
    /// Whether the reply was sent.
    ReplySent(bool),
    /// What came of the transcription.
    Transcribed(Result<String, TranscribeError>),
    /// Whether the text is on the clipboard.
    Copied(Result<(), ClipboardError>),
}

/// The texts that an [`Event`] holds.
pub enum EventView {
    ReplySent(bool),
    Transcribed(Result<Seq<char>, TranscribeErrorView>),
    Copied(Result<(), ClipboardError>),
}

impl View for Event {
    type V = EventView;

    open spec fn view(&self) -> EventView {
        match self {
            Event::ReplySent(sent) => EventView::ReplySent(*sent),
            Event::Transcribed(outcome) => EventView::Transcribed(outcome_view(*outcome)),
            Event::Copied(outcome) => EventView::Copied(*outcome),
        }
    }
}

/// How far the daemon is with a client.
#[derive(Clone, Copy, PartialEq, Eq, Structural, Debug)]
pub enum Phase {
    /// It waits for the next client.
    Ready,
    /// It waits for the outcome of a reply after which nothing is left to do.
    Answering,
    /// It waits for the outcome of the reply to the command to end.
    Ending,
    /// It waits for the outcome of the reply that announces a transcription.
    HandingOver,
}

/// What is going on with a recording that has been stopped. Messages about it go to the tmux
/// environment that was known when it was stopped.
#[derive(Debug, PartialEq, Eq)]
pub enum Job {
    /// The transcript of this recording is awaited.
    Transcribing { clip: Clip, tmux_env: Option<String> },
    /// It is awaited that this transcript is on the clipboard.
    Copying { text: String, tmux_env: Option<String> },
}

/// The texts that a [`Job`] holds.
pub enum JobView {
    Transcribing { clip: ClipView, tmux_env: Option<Seq<char>> },
    Copying { text: Seq<char>, tmux_env: Option<Seq<char>> },
}

impl View for Job {
    type V = JobView;

    open spec fn view(&self) -> JobView {
        match self {
            Job::Transcribing { clip, tmux_env } => JobView::Transcribing {
                clip: clip@,
                tmux_env: opt_view(*tmux_env),
            },
            Job::Copying { text, tmux_env } => JobView::Copying {
                text: text@,
                tmux_env: opt_view(*tmux_env),
            },
        }
    }
}

/// The daemon.
pub struct Daemon {
    state: DaemonState,
    phase: Phase,
    job: Option<Job>,
    clip: Option<Clip>,
    tmux_env: Option<String>,
}

/// What there is to know of a [`Daemon`].
pub struct DaemonView {
    /// What it is doing.
    pub state: DaemonState,
    /// How far it is with a client.
    pub phase: Phase,
    /// What is going on with the recording that was stopped last.
    pub job: Option<JobView>,
    /// The recording that runs, or that is about to be transcribed.
    pub clip: Option<ClipView>,
    /// The tmux environment that a client gave last.
    pub tmux_env: Option<Seq<char>>,
}

impl View for Daemon {
    type V = DaemonView;

    closed spec fn view(&self) -> DaemonView {
        DaemonView {
            state: self.state,
            phase: self.phase,
            job: match self.job {
                Some(job) => Some(job@),
                None => None,
            },
            clip: match self.clip {
                Some(clip) => Some(clip@),
                None => None,
            },
            tmux_env: opt_view(self.tmux_env),
        }
    }
}

/// The daemon at its start.
pub open spec fn initial_daemon() -> DaemonView {
    DaemonView {
        state: DaemonState::Idle,
        phase: Phase::Ready,
        job: None,
        clip: None,
        tmux_env: None,
    }
}

/// Shows `message` to the client with this tmux environment, where it can be shown.
pub open spec fn shown(tmux_env: Option<Seq<char>>, message: Seq<char>) -> Seq<ActionView> {
    match tmux_args(tmux_env, message) {
        Some(args) => seq![ActionView::Tmux(args)],
        None => Seq::empty(),
    }
}

impl DaemonView {
    /// The daemon once it knows what a client asks for: a toggle may bring a tmux environment
    /// to be remembered.
    pub open spec fn informed(self, request: RequestView) -> DaemonView {
        match request {
            RequestView::Toggle(Some(tmux)) => DaemonView { tmux_env: Some(tmux), ..self },
            _ => self,
        }
    }

    /// The first turn of a client: the daemon after it, and what is to be done.
    pub open spec fn responding(
        self,
        request: RequestView,
        config: ConfigView,
        now: LocalTime,
    ) -> (DaemonView, Seq<ActionView>) {
        match request {
            RequestView::Toggle(_) => match self.state {
                DaemonState::Idle => self.starting(config, now),
                DaemonState::Recording => self.stopping(),
                DaemonState::Transcribing => self.answering("busy (transcribing)"@),
            },
            RequestView::Status => self.answering(self.state.word()),
            RequestView::Stop => (
                DaemonView { phase: Phase::Ending, ..self },
                seq![ActionView::Reply(line_of("stopping"@))],
            ),
            RequestView::Unknown(command) => self.answering("unknown command: "@ + command),
        }
    }

    /// Says something, and that is all.
    pub open spec fn answering(self, text: Seq<char>) -> (DaemonView, Seq<ActionView>) {
        (
            DaemonView { phase: Phase::Answering, ..self },
            seq![ActionView::Reply(line_of(text))],
        )
    }

    /// Starts a recording, named after the time.
    pub open spec fn starting(self, config: ConfigView, now: LocalTime) -> (
        DaemonView,
        Seq<ActionView>,
    ) {
        let clip = clip_at(config.clips_dir, now);
        (
            DaemonView {
                state: DaemonState::Recording,
                phase: Phase::Answering,
                clip: Some(clip),
                ..self
            },
            seq![
                ActionView::ClearStopFlag,
                ActionView::CreateMarker,
                ActionView::StartRecorder { device: config.device, wav_path: clip.wav_path() },
            ] + shown(self.tmux_env, RECORDING_MESSAGE@) + seq![
                ActionView::Reply(line_of("recording"@)),
            ],
        )
    }

    /// Stops the recording, and announces its transcription.
    pub open spec fn stopping(self) -> (DaemonView, Seq<ActionView>) {
        (
            DaemonView {
                state: DaemonState::Transcribing,
                phase: Phase::HandingOver,
                ..self
            },
            seq![ActionView::RaiseStopFlag, ActionView::RemoveMarker, ActionView::JoinRecorder]
                + shown(self.tmux_env, TRANSCRIBING_MESSAGE@) + seq![
                ActionView::Reply(line_of("transcribing"@)),
            ],
        )
    }

    /// Whether the daemon waits for this outcome.
    pub open spec fn awaits(self, event: EventView) -> bool {
        match event {
            EventView::ReplySent(_) => !(self.phase is Ready),
            EventView::Transcribed(_) => self.job matches Some(job) && job is Transcribing,
            EventView::Copied(_) => self.job matches Some(job) && job is Copying,
        }
    }

    /// The turn that an outcome brings, where the daemon waits for it: the daemon after it, and
    /// what is to be done.
    pub open spec fn resuming(self, event: EventView, config: ConfigView) -> (
        DaemonView,
        Seq<ActionView>,
    ) {
        match event {
            EventView::ReplySent(sent) => match self.phase {
                Phase::Ending => (
                    self.ready(),
                    if sent {
                        seq![ActionView::RaiseStopFlag, ActionView::ClearRunningFlag]
                    } else {
                        Seq::empty()
                    },
                ),
                Phase::HandingOver => self.handing_over(config),
                _ => (self.ready(), Seq::empty()),
            },
            EventView::Transcribed(outcome) => match self.job {
                Some(JobView::Transcribing { clip, tmux_env }) => match outcome {
                    Ok(text) => (
                        DaemonView { job: Some(JobView::Copying { text, tmux_env }), ..self },
                        seq![
                            ActionView::SaveTranscript { path: clip.txt_path(), text },
                            ActionView::CopyToClipboard(text),
                        ],
                    ),
                    Err(error) => (
                        self.finished(),
                        shown(tmux_env, TRANSCRIPTION_FAILURE@ + error.words()),
                    ),
                },
                _ => (self, Seq::empty()),
            },
            EventView::Copied(outcome) => match self.job {
                Some(JobView::Copying { text, tmux_env }) => (
                    self.finished(),
                    match outcome {
                        Ok(_) => shown(tmux_env, copied_message_of(text)),
                        Err(error) => shown(tmux_env, CLIPBOARD_FAILURE@ + error.words()),
                    },
                ),
                _ => (self, Seq::empty()),
            },
        }
    }

    /// Has the recording transcribed that has been stopped, whether the client heard of it or
    /// not.
    pub open spec fn handing_over(self, config: ConfigView) -> (DaemonView, Seq<ActionView>) {
        match self.clip {
            Some(clip) => (
                DaemonView {
                    job: Some(JobView::Transcribing { clip, tmux_env: self.tmux_env }),
                    clip: None,
                    ..self.ready()
                },
                seq![ActionView::Transcribe(request_for(config, clip))],
            ),
            None => (self.ready().finished(), Seq::empty()),
        }
    }

    /// The daemon when it has no more to do for a client.
    pub open spec fn ready(self) -> DaemonView {
        DaemonView { phase: Phase::Ready, ..self }
    }

    /// The daemon when a recording has been dealt with.
    pub open spec fn finished(self) -> DaemonView {
        DaemonView { state: DaemonState::Idle, job: None, ..self }
    }
}

/// Puts the action that shows `message` behind `actions`, where there is one.
fn push_shown(actions: &mut Vec<Action>, tmux_env: &Option<String>, message: &str)
    ensures
        actions_view(final(actions)@) == actions_view(old(actions)@) + shown(
            opt_view(*tmux_env),
            message@,
        ),
{
    let ghost before = actions_view(actions@);
    if let Some(args) = tmux_message(tmux_env, message) {
        let action = Action::Tmux(args);
        let ghost view = action@;
        actions.push(action);
        assert(actions_view(actions@) == before.push(view));
    }
    assert(actions_view(actions@) == before + shown(opt_view(*tmux_env), message@));
}

/// Puts the action that answers `text` behind `actions`.
fn push_reply(actions: &mut Vec<Action>, text: &str)
    ensures
        actions_view(final(actions)@) == actions_view(old(actions)@) + seq![
            ActionView::Reply(line_of(text@)),
        ],
{
    let ghost before = actions_view(actions@);
    actions.push(Action::Reply(to_line(text)));
    assert(actions_view(actions@) == before + seq![ActionView::Reply(line_of(text@))]);
}

impl Daemon {
    /// The daemon at its start.
    pub fn new() -> (daemon: Daemon)
        ensures
            daemon@ == initial_daemon(),
    {
        Daemon {
            state: DaemonState::Idle,
            phase: Phase::Ready,
            job: None,
            clip: None,
            tmux_env: None,
        }
    }

    /// What the daemon is doing.
    pub fn state(&self) -> (state: DaemonState)
        ensures
            state == self@.state,
    {
        self.state
    }

    /// Whether the daemon waits for the next client.
    pub fn is_ready(&self) -> (ready: bool)
        ensures
            ready == (self@.phase is Ready),
    {
        match self.phase {
            Phase::Ready => true,
            _ => false,
        }
    }

    /// Whether the outcome of a transcription or of the clipboard is awaited.
    pub fn is_busy(&self) -> (busy: bool)
        ensures
            busy == (self@.job is Some),
    {
        match self.job {
            Some(_) => true,
            None => false,
        }
    }

    /// Whether the daemon waits for this outcome.
    pub fn is_waiting_for(&self, event: &Event) -> (waiting: bool)
        ensures
            waiting == self@.awaits(event@),
    {
        match event {
            Event::ReplySent(_) => !self.is_ready(),
            Event::Transcribed(_) => match self.job {
                Some(Job::Transcribing { .. }) => true,
                _ => false,
            },
            Event::Copied(_) => match self.job {
                Some(Job::Copying { .. }) => true,
                _ => false,
            },
        }
    }

    /// Takes in the line that a client sent.
    pub fn receive(&mut self, line: &str) -> (request: Request)
        ensures
            request@ == request_of(line@),
            final(self)@ == old(self)@.informed(request_of(line@)),
    {
        let request = parse_request(line);
        if let Request::Toggle(Some(tmux)) = &request {
            self.tmux_env = Some(tmux.clone());
        }
        request
    }

    /// Starts a recording, named after the time.
    fn start(&mut self, config: &Config, now: &LocalTime) -> (actions: Vec<Action>)
        requires
            now.valid(),
        ensures
            (final(self)@, actions_view(actions@)) == old(self)@.starting(config@, *now),
    {
        let clip = Clip::starting_at(config.clips_dir.as_str(), now);
        let wav_path = clip.wav_path();
        self.clip = Some(clip);
        self.state = DaemonState::Recording;
        self.phase = Phase::Answering;
        let mut actions: Vec<Action> = Vec::new();
        actions.push(Action::ClearStopFlag);
        actions.push(Action::CreateMarker);
        actions.push(Action::StartRecorder { device: config.device.clone(), wav_path });
        assert(actions_view(actions@) == seq![
            ActionView::ClearStopFlag,
            ActionView::CreateMarker,
            ActionView::StartRecorder {
                device: config.device@,
                wav_path: clip_at(config.clips_dir@, *now).wav_path(),
            },
        ]);
        push_shown(&mut actions, &self.tmux_env, RECORDING_MESSAGE);
        push_reply(&mut actions, "recording");
        assert(self@ == old(self)@.starting(config@, *now).0);
        actions
    }

    /// Stops the recording, and announces its transcription.
    fn stop(&mut self) -> (actions: Vec<Action>)
        ensures
            (final(self)@, actions_view(actions@)) == old(self)@.stopping(),
    {
        self.state = DaemonState::Transcribing;
        self.phase = Phase::HandingOver;
        let mut actions: Vec<Action> = Vec::new();
        actions.push(Action::RaiseStopFlag);
        actions.push(Action::RemoveMarker);
        actions.push(Action::JoinRecorder);
        assert(actions_view(actions@) == seq![
            ActionView::RaiseStopFlag,
            ActionView::RemoveMarker,
            ActionView::JoinRecorder,
        ]);
        push_shown(&mut actions, &self.tmux_env, TRANSCRIBING_MESSAGE);
        push_reply(&mut actions, "transcribing");
        assert(self@ == old(self)@.stopping().0);
        actions
    }

    /// Says something, and that is all.
    fn answer(&mut self, text: &str) -> (actions: Vec<Action>)
        ensures
            (final(self)@, actions_view(actions@)) == old(self)@.answering(text@),
    {
        self.phase = Phase::Answering;
        let mut actions: Vec<Action> = Vec::new();
        push_reply(&mut actions, text);
        assert(actions_view(actions@) == old(self)@.answering(text@).1);
        assert(self@ == old(self)@.answering(text@).0);
        actions
    }

    /// The first turn of a client that does not start a recording.
    fn respond_in_place(&mut self, request: &Request) -> (actions: Vec<Action>)
        requires
            !(request@ is Toggle && old(self)@.state is Idle),
        ensures
            forall|config: ConfigView, now: LocalTime|
                (final(self)@, actions_view(actions@)) == #[trigger] old(self)@.responding(
                    request@,
                    config,
                    now,
                ),
    {
        match request {
            Request::Toggle(_) => match self.state {
                DaemonState::Recording => self.stop(),
                _ => self.answer("busy (transcribing)"),
            },
            Request::Status => {
                let word = self.state.to_text();
                self.answer(word.as_str())
            },
            Request::Stop => {
                self.phase = Phase::Ending;
                let mut actions: Vec<Action> = Vec::new();
                push_reply(&mut actions, "stopping");
                assert(actions_view(actions@) == seq![ActionView::Reply(line_of("stopping"@))]);
                assert(self@ == (DaemonView { phase: Phase::Ending, ..old(self)@ }));
                actions
            },
            Request::Unknown(command) => {
                let text = join("unknown command: ", command.as_str());
                self.answer(text.as_str())
            },
        }
    }

    /// Whether this request starts a recording.
    fn starts_recording(&self, request: &Request) -> (starts: bool)
        ensures
            starts == (request@ is Toggle && self@.state is Idle),
    {
        match request {
            Request::Toggle(_) => match self.state {
                DaemonState::Idle => true,
                _ => false,
            },
            _ => false,
        }
    }

    /// The first turn of a client, at a given time.
    pub fn respond_at(&mut self, request: &Request, config: &Config, now: &LocalTime) -> (actions:
        Vec<Action>)
        requires
            old(self)@.phase is Ready,
            now.valid(),
        ensures
            (final(self)@, actions_view(actions@)) == old(self)@.responding(
                request@,
                config@,
                *now,
            ),
    {
        if self.starts_recording(request) {
            self.start(config, now)
        } else {
            self.respond_in_place(request)
        }
    }

    /// The first turn of a client, now. A recording that it starts is named after the time on
    /// the clock, whatever that is.
    pub fn respond(&mut self, request: &Request, config: &Config) -> (actions: Vec<Action>)
        requires
            old(self)@.phase is Ready,
        ensures
            exists|now: LocalTime|
                now.valid() && (final(self)@, actions_view(actions@))
                    == #[trigger] old(self)@.responding(request@, config@, now),
    {
        if self.starts_recording(request) {
            let now = local_now();
            let actions = self.start(config, &now);
            assert((self@, actions_view(actions@)) == old(self)@.responding(
                request@,
                config@,
                now,
            ));
            actions
        } else {
            let actions = self.respond_in_place(request);
            proof {
                let any = LocalTime { year: 1970, month: 1, day: 1, hour: 0, minute: 0, second: 0 };
                assert(any.valid());
                assert((self@, actions_view(actions@)) == old(self)@.responding(
                    request@,
                    config@,
                    any,
                ));
            }
            actions
        }
    }

    /// Has the recording transcribed that has been stopped.
    fn hand_over(&mut self, config: &Config) -> (actions: Vec<Action>)
        ensures
            (final(self)@, actions_view(actions@)) == old(self)@.handing_over(config@),
    {
        let mut actions: Vec<Action> = Vec::new();
        self.phase = Phase::Ready;
        match self.clip.take() {
            Some(clip) => {
                actions.push(Action::Transcribe(transcription_request(config, &clip)));
                self.job = Some(Job::Transcribing { clip, tmux_env: self.tmux_env.clone() });
            },
            None => {
                self.state = DaemonState::Idle;
                self.job = None;
            },
        }
        assert(actions_view(actions@) == old(self)@.handing_over(config@).1);
        assert(self@ == old(self)@.handing_over(config@).0);
        actions
    }

    /// The turn that an outcome brings for which the daemon waits.
    pub fn resume(&mut self, event: Event, config: &Config) -> (actions: Vec<Action>)
        requires
            old(self)@.awaits(event@),
        ensures
            (final(self)@, actions_view(actions@)) == old(self)@.resuming(event@, config@),
    {
        let mut actions: Vec<Action> = Vec::new();
        assert(actions_view(actions@) == Seq::<ActionView>::empty());
        match event {
            Event::ReplySent(sent) => match self.phase {
                Phase::HandingOver => {
                    return self.hand_over(config);
                },
                Phase::Ending => {
                    self.phase = Phase::Ready;
                    if sent {
                        actions.push(Action::RaiseStopFlag);
                        actions.push(Action::ClearRunningFlag);
                    }
                },
                _ => {
                    self.phase = Phase::Ready;
                },
            },
            Event::Transcribed(outcome) => if let Some(Job::Transcribing { clip, tmux_env }) =
                self.job.take() {
                match outcome {
                    Ok(text) => {
                        let path = clip.txt_path();
                        actions.push(Action::SaveTranscript { path, text: text.clone() });
                        actions.push(Action::CopyToClipboard(text.clone()));
                        self.job = Some(Job::Copying { text, tmux_env });
                    },
                    Err(error) => {
                        let message = join(TRANSCRIPTION_FAILURE, error.message().as_str());
                        push_shown(&mut actions, &tmux_env, message.as_str());
                        self.state = DaemonState::Idle;
                    },
                }
            },
            Event::Copied(outcome) => if let Some(Job::Copying { text, tmux_env }) =
                self.job.take() {
                let message = match outcome {
                    Ok(_) => copied_message(text.as_str()),
                    Err(error) => join(CLIPBOARD_FAILURE, error.message().as_str()),
                };
                push_shown(&mut actions, &tmux_env, message.as_str());
                self.state = DaemonState::Idle;
            },
        }
        proof {
            let expected = old(self)@.resuming(event@, config@);
            assert(actions_view(actions@) == expected.1);
            assert(self@ == expected.0);
        }
        actions
    }
}

/// What actions, outcomes and jobs hold is seen of them as it is, and a list of actions is seen
/// action by action.
pub proof fn law_daemon_is_seen_whole(
    actions: Seq<Action>,
    text: String,
    path: String,
    args: Vec<String>,
    request: TranscriptionRequest,
    clip: Clip,
    tmux_env: Option<String>,
    outcome: Result<String, TranscribeError>,
    sent: bool,
    copied: Result<(), ClipboardError>,
)
    ensures
        actions_view(actions).len() == actions.len(),
        forall|i: int| 0 <= i < actions.len() ==> #[trigger] actions_view(actions)[i]
            == actions[i]@,
        (Action::StartRecorder { device: text, wav_path: path })@ == (ActionView::StartRecorder {
            device: text@,
            wav_path: path@,
        }),
        Action::Tmux(args)@ == ActionView::Tmux(views(args@)),
        Action::Reply(text)@ == ActionView::Reply(text@),
        Action::Transcribe(request)@ == ActionView::Transcribe(request@),
        (Action::SaveTranscript { path, text })@ == (ActionView::SaveTranscript {
            path: path@,
            text: text@,
        }),
        Action::CopyToClipboard(text)@ == ActionView::CopyToClipboard(text@),
        Event::Transcribed(outcome)@ == EventView::Transcribed(outcome_view(outcome)),
        (Job::Transcribing { clip, tmux_env })@ == (JobView::Transcribing {
            clip: clip@,
            tmux_env: opt_view(tmux_env),
        }),
        (Job::Copying { text, tmux_env })@ == (JobView::Copying {
            text: text@,
            tmux_env: opt_view(tmux_env),
        }),
        Action::ClearStopFlag@ is ClearStopFlag && Action::RaiseStopFlag@ is RaiseStopFlag,
        Action::ClearRunningFlag@ is ClearRunningFlag && Action::JoinRecorder@ is JoinRecorder,
        Action::CreateMarker@ is CreateMarker && Action::RemoveMarker@ is RemoveMarker,
        Action::RemoveSocket@ is RemoveSocket && Action::RemovePidFile@ is RemovePidFile,
        Event::ReplySent(sent)@ == EventView::ReplySent(sent),
        Event::Copied(copied)@ == EventView::Copied(copied),
{
}

} // verus!
