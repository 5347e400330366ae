//! What the user gets to see and where it is shown.

use vstd::prelude::*;

use crate::text::{head, head_of, join, opt_view, views};

verus! {

/// Says that a recording runs, and how it is stopped.
pub const RECORDING_MESSAGE: &'static str = "\u{25cf} REC \u{2014} Alt+V om te stoppen";

/// Says that a transcription runs.
pub const TRANSCRIBING_MESSAGE: &'static str = "Transcriberen...";

/// Stands in front of what is wrong with the clipboard.
pub const CLIPBOARD_FAILURE: &'static str = "\u{2717} Clipboard fout: ";

/// Stands in front of what is wrong with the transcription.
pub const TRANSCRIPTION_FAILURE: &'static str = "\u{2717} Transcriptie fout: ";

/// Stands in front of the start of what is on the clipboard.
pub const COPIED_MESSAGE: &'static str = "\u{2713} gekopieerd \u{2014} ";

/// How many characters of a transcript are shown.
pub const PREVIEW_CHARS: usize = 60;

/// The program that fills the clipboard with its input.
pub const CLIP_EXE: &'static str = "/mnt/c/Windows/System32/clip.exe";

/// Why a text is not on the clipboard.
#[derive(Clone, Copy, PartialEq, Eq, Structural, Debug)]
pub enum ClipboardError {
    /// The clipboard program does not start.
    SpawnFailed,
    /// The clipboard program does not take its input.
    WriteFailed,
    /// The end of the clipboard program could not be awaited.
    WaitFailed,
}

impl ClipboardError {
    /// The error in words.
    pub open spec fn words(self) -> Seq<char> {
        match self {
            ClipboardError::SpawnFailed => "Failed to spawn clip.exe"@,
            ClipboardError::WriteFailed => "Failed to write to clip.exe stdin"@,
            ClipboardError::WaitFailed => "clip.exe failed"@,
        }
    }

    /// The error in words.
    pub fn message(&self) -> (message: String)
        ensures
            message@ == self.words(),
    {
        match self {
            ClipboardError::SpawnFailed => "Failed to spawn clip.exe".to_owned(),
            ClipboardError::WriteFailed => "Failed to write to clip.exe stdin".to_owned(),
            ClipboardError::WaitFailed => "clip.exe failed".to_owned(),
        }
    }
}

/// The arguments with which tmux shows `message`; none where the client runs outside of tmux,
/// as an absent or empty tmux environment says.
pub open spec fn tmux_args(tmux_env: Option<Seq<char>>, message: Seq<char>) -> Option<
    Seq<Seq<char>>,
> {
    match tmux_env {
        Some(env) => if env.len() == 0 {
            None
        } else {
            Some(seq!["display-message"@, message])
        },
        None => None,
    }
}

/// The arguments with which tmux shows `message`; none where the client runs outside of tmux.
pub fn tmux_message(tmux_env: &Option<String>, message: &str) -> (args: Option<Vec<String>>)
    ensures
        args is Some <==> tmux_args(opt_view(*tmux_env), message@) is Some,
        args matches Some(args) ==> tmux_args(opt_view(*tmux_env), message@) == Some(views(args@)),
        args is Some <==> (tmux_env matches Some(env) && env@.len() > 0),
        args matches Some(args) ==> {
            &&& args.len() == 2
            &&& args[0]@ == "display-message"@
            &&& args[1]@ == message@
        },
{
    match tmux_env {
        Some(env) => {
            if env.as_str().is_empty() {
                return None;
            }
            let mut args: Vec<String> = Vec::new();
            args.push("display-message".to_owned());
            args.push(message.to_owned());
            assert(views(args@) == seq!["display-message"@, message@]);
            Some(args)
        },
        None => None,
    }
}

/// Says that `text` is on the clipboard, and how it starts.
pub open spec fn copied_message_of(text: Seq<char>) -> Seq<char> {
    COPIED_MESSAGE@ + head_of(text, PREVIEW_CHARS as nat)
}

/// Says that `text` is on the clipboard, and how it starts.
pub fn copied_message(text: &str) -> (message: String)
    ensures
        message@ == copied_message_of(text@),
        text@.len() <= PREVIEW_CHARS ==> message@ == COPIED_MESSAGE@ + text@,
        text@.len() > PREVIEW_CHARS ==> message@ == COPIED_MESSAGE@ + text@.take(
            PREVIEW_CHARS as int,
        ),
{
    join(COPIED_MESSAGE, head(text, PREVIEW_CHARS))
}

/// Inside of tmux every message is shown, as it is: tmux is told to display it, and nothing else.
/// Outside of tmux none is.
pub proof fn law_message_is_shown_in_tmux(env: Seq<char>, message: Seq<char>)
    ensures
        env.len() > 0 ==> tmux_args(Some(env), message) == Some(seq!["display-message"@, message]),
        env.len() == 0 ==> tmux_args(Some(env), message) is None,
        tmux_args(None, message) is None,
{
}

/// What is said of a text on the clipboard quotes the text from its start, in full up to sixty
/// characters, and sixty of a longer one; nothing else of it.
pub proof fn law_preview_quotes_the_start(text: Seq<char>)
    ensures
        ({
            let intro = "\u{2713} gekopieerd \u{2014} "@;
            let message = copied_message_of(text);
            &&& text.len() <= 60 ==> message == intro + text
            &&& text.len() > 60 ==> message == intro + text.take(60)
        }),
{
}

/// What went wrong with the clipboard is said in so many words.
pub proof fn law_clipboard_errors_have_words()
    ensures
        ClipboardError::SpawnFailed.words() == "Failed to spawn clip.exe"@,
        ClipboardError::WriteFailed.words() == "Failed to write to clip.exe stdin"@,
        ClipboardError::WaitFailed.words() == "clip.exe failed"@,
{
}

} // verus!
