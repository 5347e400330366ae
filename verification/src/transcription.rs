//! Requests to the transcription service and what its replies mean.

use vstd::prelude::*;

use crate::clip::{decimal, Clip, ClipView};
use crate::config::{Config, ConfigView};
use crate::text::join;

verus! {

/// Where transcriptions are asked for.
pub const WHISPER_URL: &'static str = "https://api.openai.com/v1/audio/transcriptions";

/// The model that transcribes.
pub const WHISPER_MODEL: &'static str = "whisper-1";

/// The media type of a recording.
pub const WAV_MIME: &'static str = "audio/wav";

/// The member of a reply that holds the transcript.
pub const TEXT_MEMBER: &'static str = "text";

/// A request for a transcription: a form with a file and two text fields.
#[derive(Debug, PartialEq, Eq)]
pub struct TranscriptionRequest {
    /// Where the form is posted.
    pub url: String,
    /// The bearer token.
    pub token: String,
    /// The file to read and to send.
    pub file_path: String,
    /// The name under which the file is sent.
    pub file_name: String,
    /// The media type of the file.
    pub mime: String,
    /// The field `model`.
    pub model: String,
    /// The field `language`.
    pub language: String,
}

/// The texts that a [`TranscriptionRequest`] holds.
pub struct TranscriptionRequestView {
    pub url: Seq<char>,
    pub token: Seq<char>,
    pub file_path: Seq<char>,
    pub file_name: Seq<char>,
    pub mime: Seq<char>,
    pub model: Seq<char>,
    pub language: Seq<char>,
}

impl View for TranscriptionRequest {
    type V = TranscriptionRequestView;

    open spec fn view(&self) -> TranscriptionRequestView {
        TranscriptionRequestView {
            url: self.url@,
            token: self.token@,
            file_path: self.file_path@,
            file_name: self.file_name@,
            mime: self.mime@,
            model: self.model@,
            language: self.language@,
        }
    }
}

/// The request for the transcription of `clip`.
pub open spec fn request_for(config: ConfigView, clip: ClipView) -> TranscriptionRequestView {
    TranscriptionRequestView {
        url: WHISPER_URL@,
        token: config.api_key,
        file_path: clip.wav_path(),
        file_name: clip.wav_name(),
        mime: WAV_MIME@,
        model: WHISPER_MODEL@,
        language: config.lang,
    }
}

/// The request for the transcription of `clip`.
pub fn transcription_request(config: &Config, clip: &Clip) -> (request: TranscriptionRequest)
    ensures
        request@ == request_for(config@, clip@),
        request.token@ == config.api_key@,
        request.language@ == config.lang@,
        request.file_path@ == clip@.wav_path(),
        request.file_name@ == clip@.wav_name(),
        request.url@ == WHISPER_URL@,
        request.mime@ == WAV_MIME@,
        request.model@ == WHISPER_MODEL@,
{
    TranscriptionRequest {
        url: WHISPER_URL.to_owned(),
        token: config.api_key.clone(),
        file_path: clip.wav_path(),
        file_name: clip.wav_name(),
        mime: WAV_MIME.to_owned(),
        model: WHISPER_MODEL.to_owned(),
        language: config.lang.clone(),
    }
}

/// Why there is no transcript.
#[derive(Debug, PartialEq, Eq)]
pub enum TranscribeError {
    /// The recording at this path could not be read.
    UnreadableRecording(String),
    /// The service could not be reached.
    RequestFailed,
    /// The reply broke off.
    ReplyFailed,
    /// The service answered with this status, which is no success, and this text.
    ServiceError { status: String, body: String },
    /// The reply is no JSON document.
    MalformedReply,
    /// The reply, this text, holds no transcript.
    NoTranscript(String),
}

/// The texts that a [`TranscribeError`] holds.
pub enum TranscribeErrorView {
    UnreadableRecording(Seq<char>),
    RequestFailed,
    ReplyFailed,
    ServiceError { status: Seq<char>, body: Seq<char> },
    MalformedReply,
    NoTranscript(Seq<char>),
}

impl View for TranscribeError {
    type V = TranscribeErrorView;

    open spec fn view(&self) -> TranscribeErrorView {
        match self {
            TranscribeError::UnreadableRecording(path) => TranscribeErrorView::UnreadableRecording(
                path@,
            ),
            TranscribeError::RequestFailed => TranscribeErrorView::RequestFailed,
            TranscribeError::ReplyFailed => TranscribeErrorView::ReplyFailed,
            TranscribeError::ServiceError { status, body } => TranscribeErrorView::ServiceError {
                status: status@,
                body: body@,
            },
            TranscribeError::MalformedReply => TranscribeErrorView::MalformedReply,
            TranscribeError::NoTranscript(body) => TranscribeErrorView::NoTranscript(body@),
        }
    }
}

impl TranscribeErrorView {
    /// The error in words.
    pub open spec fn words(self) -> Seq<char> {
        match self {
            TranscribeErrorView::UnreadableRecording(path) => "Failed to read WAV file: "@ + path,
            TranscribeErrorView::RequestFailed => "Whisper API request failed"@,
            TranscribeErrorView::ReplyFailed => "Failed to read Whisper response"@,
            TranscribeErrorView::ServiceError { status, body } => "Whisper API error ("@ + status
                + "): "@ + body,
            TranscribeErrorView::MalformedReply => "Failed to parse Whisper JSON response"@,
            TranscribeErrorView::NoTranscript(body) => "No 'text' field in Whisper response: "@
                + body,
        }
    }
}

impl TranscribeError {
    /// The error in words.
    pub fn message(&self) -> (message: String)
        ensures
            message@ == self@.words(),
            match self {
                TranscribeError::UnreadableRecording(path) => message@
                    == "Failed to read WAV file: "@ + path@,
                TranscribeError::RequestFailed => message@ == "Whisper API request failed"@,
                TranscribeError::ReplyFailed => message@ == "Failed to read Whisper response"@,
                TranscribeError::ServiceError { status, body } => message@
                    == "Whisper API error ("@ + status@ + "): "@ + body@,
                TranscribeError::MalformedReply => message@
                    == "Failed to parse Whisper JSON response"@,
                TranscribeError::NoTranscript(body) => message@
                    == "No 'text' field in Whisper response: "@ + body@,
            },
    {
        match self {
            TranscribeError::UnreadableRecording(path) => join(
                "Failed to read WAV file: ",
                path.as_str(),
            ),
            TranscribeError::RequestFailed => "Whisper API request failed".to_owned(),
            TranscribeError::ReplyFailed => "Failed to read Whisper response".to_owned(),
            TranscribeError::ServiceError { status, body } => {
                let mut message = join("Whisper API error (", status.as_str());
                message.append("): ");
                message.append(body.as_str());
                message
            },
            TranscribeError::MalformedReply => "Failed to parse Whisper JSON response".to_owned(),
            TranscribeError::NoTranscript(body) => join(
                "No 'text' field in Whisper response: ",
                body.as_str(),
            ),
        }
    }
}

/// A JSON document.
#[verifier::external_type_specification]
#[verifier::external_body]
pub struct ExJsonValue(serde_json::Value);

/// What is wrong with a text that is no JSON document.
#[verifier::external_type_specification]
#[verifier::external_body]
pub struct ExJsonError(serde_json::Error);

/// The members of the object that a JSON document is whose values are strings; none where the
/// document is no object.
pub uninterp spec fn string_members(document: serde_json::Value) -> Map<Seq<char>, Seq<char>>;

/// What `serde_json::from_str` makes of a text: nothing where it is no JSON document, else the
/// string members of the document.
pub uninterp spec fn parsed_members(body: Seq<char>) -> Option<Map<Seq<char>, Seq<char>>>;

/// Calls `serde_json::from_str`. Whether the text is a JSON document, and which string members
/// it then has, depends on the text alone.
#[verifier::external_body]
fn parse_json(body: &str) -> (document: Result<serde_json::Value, serde_json::Error>)
    ensures
        document is Ok <==> parsed_members(body@) is Some,
        document matches Ok(document) ==> parsed_members(body@) == Some(string_members(document)),
{
    serde_json::from_str(body)
}

/// Indexes a `serde_json::Value` with a key and calls `serde_json::Value::as_str`: the value of
/// that member, where the document is an object that has the member and its value is a string,
/// and nothing otherwise.
#[verifier::external_body]
fn string_member(document: &serde_json::Value, key: &str) -> (value: Option<String>)
    ensures
        value is Some <==> string_members(*document).contains_key(key@),
        value matches Some(value) ==> value@ == string_members(*document)[key@],
{
    match document[key].as_str() {
        Some(value) => Some(value.to_owned()),
        None => None,
    }
}

/// The words that HTTP has for a status code: those of
/// `reqwest::StatusCode::canonical_reason`, or `<unknown status code>` where there are none.
pub uninterp spec fn reason_phrase(code: u16) -> Seq<char>;

/// Writes a `reqwest::StatusCode` out: the code, a space, and the words for it. A status code
/// has three digits.
#[verifier::external_body]
fn status_line(code: u16) -> (line: String)
    requires
        100 <= code <= 999,
    ensures
        line@ == decimal(code as nat) + " "@ + reason_phrase(code),
{
    reqwest::StatusCode::from_u16(code).unwrap().to_string()
}

/// What matters of the text of a reply.
#[derive(Debug, PartialEq, Eq)]
pub enum ReplyText {
    /// It is no JSON document.
    Malformed,
    /// It is a JSON document without a transcript.
    Missing,
    /// It is a JSON document with this transcript.
    Transcript(String),
}

/// What matters of the text of a reply, given the string members of the document that it is.
pub enum ReplyTextView {
    Malformed,
    Missing,
    Transcript(Seq<char>),
}

impl View for ReplyText {
    type V = ReplyTextView;

    open spec fn view(&self) -> ReplyTextView {
        match self {
            ReplyText::Malformed => ReplyTextView::Malformed,
            ReplyText::Missing => ReplyTextView::Missing,
            ReplyText::Transcript(text) => ReplyTextView::Transcript(text@),
        }
    }
}

/// What matters of a reply, given the string members of the document that it is, if it is one.
pub open spec fn reply_text_of(members: Option<Map<Seq<char>, Seq<char>>>) -> ReplyTextView {
    match members {
        None => ReplyTextView::Malformed,
        Some(members) => if members.contains_key(TEXT_MEMBER@) {
            ReplyTextView::Transcript(members[TEXT_MEMBER@])
        } else {
            ReplyTextView::Missing
        },
    }
}

/// Looks for the transcript in the text of a reply.
pub fn read_reply(body: &str) -> (reply: ReplyText)
    ensures
        reply@ == reply_text_of(parsed_members(body@)),
        reply is Malformed <==> parsed_members(body@) is None,
        reply is Transcript <==> (parsed_members(body@) matches Some(members)
            && members.contains_key(TEXT_MEMBER@)),
        reply matches ReplyText::Transcript(text) ==> text@ == parsed_members(
            body@,
        )->0[TEXT_MEMBER@],
{
    match parse_json(body) {
        Err(_) => ReplyText::Malformed,
        Ok(document) => match string_member(&document, TEXT_MEMBER) {
            Some(text) => ReplyText::Transcript(text),
            None => ReplyText::Missing,
        },
    }
}

/// The outcome of a transcription, in texts.
pub open spec fn outcome_view(outcome: Result<String, TranscribeError>) -> Result<
    Seq<char>,
    TranscribeErrorView,
> {
    match outcome {
        Ok(text) => Ok(text@),
        Err(error) => Err(error@),
    }
}

/// What a successful reply with the text `body`, read as `reply`, comes to.
pub open spec fn transcript_of(body: Seq<char>, reply: ReplyTextView) -> Result<
    Seq<char>,
    TranscribeErrorView,
> {
    match reply {
        ReplyTextView::Malformed => Err(TranscribeErrorView::MalformedReply),
        ReplyTextView::Missing => Err(TranscribeErrorView::NoTranscript(body)),
        ReplyTextView::Transcript(text) => Ok(text),
    }
}

/// What a successful reply with the text `body`, read as `reply`, comes to.
pub fn transcript(body: &str, reply: ReplyText) -> (outcome: Result<String, TranscribeError>)
    ensures
        outcome_view(outcome) == transcript_of(body@, reply@),
        reply@ matches ReplyTextView::Transcript(text) ==> (outcome matches Ok(t) && t@ == text),
        reply is Malformed ==> outcome == Err::<String, _>(TranscribeError::MalformedReply),
        reply is Missing ==> (outcome matches Err(TranscribeError::NoTranscript(quoted)) && quoted@
            == body@),
{
    match reply {
        ReplyText::Malformed => Err(TranscribeError::MalformedReply),
        ReplyText::Missing => Err(TranscribeError::NoTranscript(body.to_owned())),
        ReplyText::Transcript(text) => Ok(text),
    }
}

/// Whether a status code stands for success.
pub open spec fn is_success(status: u16) -> bool {
    200 <= status < 300
}

/// What a reply with this status and this text comes to: without a successful status, the
/// status and the text are the error.
pub open spec fn outcome_of(status: u16, body: Seq<char>) -> Result<
    Seq<char>,
    TranscribeErrorView,
> {
    if is_success(status) {
        transcript_of(body, reply_text_of(parsed_members(body)))
    } else {
        Err(
            TranscribeErrorView::ServiceError {
                status: decimal(status as nat) + " "@ + reason_phrase(status),
                body,
            },
        )
    }
}

/// What a reply with this status and this text comes to: without a successful status, the
/// status and the text are the error.
pub fn interpret_reply(status: u16, body: &str) -> (outcome: Result<String, TranscribeError>)
    requires
        100 <= status <= 999,
    ensures
        outcome_view(outcome) == outcome_of(status, body@),
        outcome is Ok <==> 200 <= status < 300 && (parsed_members(body@) matches Some(members)
            && members.contains_key(TEXT_MEMBER@)),
        outcome matches Ok(text) ==> text@ == parsed_members(body@)->0[TEXT_MEMBER@],
        !(200 <= status < 300) ==> (outcome matches Err(
            TranscribeError::ServiceError { status: said, body: quoted },
        ) && said@ == decimal(status as nat) + " "@ + reason_phrase(status) && quoted@ == body@),
{
    if !(200 <= status && status < 300) {
        return Err(
            TranscribeError::ServiceError { status: status_line(status), body: body.to_owned() },
        );
    }
    transcript(body, read_reply(body))
}

/// A request carries what it is made of, each in its own field and unchanged: the key and the
/// language of the settings, and the audio file of the recording with its name. The rest is the
/// same in every request.
pub proof fn law_request_carries_settings_and_recording(config: ConfigView, clip: ClipView)
    ensures
        request_for(config, clip).token == config.api_key,
        request_for(config, clip).language == config.lang,
        request_for(config, clip).file_path == clip.wav_path(),
        request_for(config, clip).file_name == clip.wav_name(),
        request_for(config, clip).url == "https://api.openai.com/v1/audio/transcriptions"@,
        request_for(config, clip).mime == "audio/wav"@,
        request_for(config, clip).model == "whisper-1"@,
{
}

/// Requests for one recording differ where the keys or the languages of the settings do, and
/// requests under the same settings differ where the recordings do.
pub proof fn law_requests_tell_apart(a: ConfigView, b: ConfigView, x: ClipView, y: ClipView)
    ensures
        request_for(a, x) == request_for(b, x) <==> a.api_key == b.api_key && a.lang == b.lang,
        request_for(a, x) == request_for(a, y) ==> x.wav_path() == y.wav_path(),
{
}

/// Of a reply that stands for success, the transcript is the string member `text` of the document
/// that it is: the whole of it, character for character, whatever else the document holds. A reply
/// that is no document is malformed; one without such a member is an error that quotes it whole.
pub proof fn law_transcript_is_the_whole_text(status: u16, body: Seq<char>)
    requires
        200 <= status <= 299,
    ensures
        match parsed_members(body) {
            Some(members) => if members.contains_key("text"@) {
                &&& outcome_of(status, body) == Ok::<Seq<char>, TranscribeErrorView>(
                    members["text"@],
                )
                &&& (outcome_of(status, body)->Ok_0).len() == members["text"@].len()
            } else {
                outcome_of(status, body) == Err::<Seq<char>, TranscribeErrorView>(
                    TranscribeErrorView::NoTranscript(body),
                )
            },
            None => outcome_of(status, body) == Err::<Seq<char>, TranscribeErrorView>(
                TranscribeErrorView::MalformedReply,
            ),
        },
{
}

/// Where the status does not stand for success, there is no transcript, whatever the reply holds:
/// the error quotes the status and the whole reply.
pub proof fn law_no_success_no_transcript(status: u16, body: Seq<char>)
    requires
        100 <= status <= 999,
        status < 200 || status > 299,
    ensures
        outcome_of(status, body) == Err::<Seq<char>, TranscribeErrorView>(
            TranscribeErrorView::ServiceError {
                status: decimal(status as nat) + " "@ + reason_phrase(status),
                body,
            },
        ),
{
}

/// A status stands for success when the first of its three digits is two.
pub proof fn law_success_starts_with_two(status: u16)
    ensures
        is_success(status) <==> status as int / 100 == 2,
{
}

/// A transcript comes out of a reply as it was read, and each reading that has none is told from
/// the others.
pub proof fn law_reading_decides(body: Seq<char>, text: Seq<char>)
    ensures
        transcript_of(body, ReplyTextView::Transcript(text)) == Ok::<
            Seq<char>,
            TranscribeErrorView,
        >(text),
        transcript_of(body, ReplyTextView::Missing) == Err::<Seq<char>, TranscribeErrorView>(
            TranscribeErrorView::NoTranscript(body),
        ),
        transcript_of(body, ReplyTextView::Malformed) == Err::<Seq<char>, TranscribeErrorView>(
            TranscribeErrorView::MalformedReply,
        ),
{
}

/// A reply is read by its string member `text` alone: whatever other members it has, the reading
/// is that value, whole; and there is no transcript without it.
pub proof fn law_reply_is_read_by_its_text(members: Map<Seq<char>, Seq<char>>)
    ensures
        members.contains_key("text"@) ==> reply_text_of(Some(members))
            == ReplyTextView::Transcript(members["text"@]),
        !members.contains_key("text"@) ==> reply_text_of(Some(members)) is Missing,
        reply_text_of(None) is Malformed,
{
}

/// What went wrong is said in so many words, and what belongs to it (the path of the recording,
/// the status, the reply) is quoted in full.
pub proof fn law_errors_quote_in_full(path: Seq<char>, status: Seq<char>, body: Seq<char>)
    ensures
        TranscribeErrorView::UnreadableRecording(path).words() == "Failed to read WAV file: "@
            + path,
        TranscribeErrorView::RequestFailed.words() == "Whisper API request failed"@,
        TranscribeErrorView::ReplyFailed.words() == "Failed to read Whisper response"@,
        (TranscribeErrorView::ServiceError { status, body }).words() == "Whisper API error ("@
            + status + "): "@ + body,
        TranscribeErrorView::MalformedReply.words() == "Failed to parse Whisper JSON response"@,
        TranscribeErrorView::NoTranscript(body).words() == "No 'text' field in Whisper response: "@
            + body,
{
}

/// What a request, a reply and an outcome hold is seen of them as it is.
pub proof fn law_service_is_seen_whole(
    request: TranscriptionRequest,
    text: String,
    status: String,
    error: TranscribeError,
)
    ensures
        request@.url == request.url@,
        request@.token == request.token@,
        request@.file_path == request.file_path@,
        request@.file_name == request.file_name@,
        request@.mime == request.mime@,
        request@.model == request.model@,
        request@.language == request.language@,
        ReplyText::Transcript(text)@ == ReplyTextView::Transcript(text@),
        ReplyText::Missing@ is Missing,
        ReplyText::Malformed@ is Malformed,
        outcome_view(Ok(text)) == Ok::<Seq<char>, TranscribeErrorView>(text@),
        outcome_view(Err(error)) == Err::<Seq<char>, TranscribeErrorView>(error@),
        TranscribeError::UnreadableRecording(text)@ == TranscribeErrorView::UnreadableRecording(
            text@,
        ),
        TranscribeError::RequestFailed@ is RequestFailed,
        TranscribeError::ReplyFailed@ is ReplyFailed,
        (TranscribeError::ServiceError { status, body: text })@ == (
        TranscribeErrorView::ServiceError { status: status@, body: text@ }),
        TranscribeError::MalformedReply@ is MalformedReply,
        TranscribeError::NoTranscript(text)@ == TranscribeErrorView::NoTranscript(text@),
{
}

} // verus!
