use voice_clip::clip::Clip;
use voice_clip::config::Config;
use voice_clip::transcription::{
    interpret_reply, read_reply, transcript, transcription_request, ReplyText, TranscribeError,
};

#[test]
fn a_request_carries_the_recording() {
    let config = Config {
        api_key: "sk".to_string(),
        lang: "nl".to_string(),
        device: "plughw:0,0".to_string(),
        clips_dir: "/clips".to_string(),
    };
    let clip = Clip { dir: "/clips".to_string(), stem: "2026-03-25_143052".to_string() };
    let request = transcription_request(&config, &clip);
    assert_eq!(request.url, "https://api.openai.com/v1/audio/transcriptions");
    assert_eq!(request.token, "sk");
    assert_eq!(request.file_path, "/clips/2026-03-25_143052.wav");
    assert_eq!(request.file_name, "2026-03-25_143052.wav");
    assert_eq!(request.mime, "audio/wav");
    assert_eq!(request.model, "whisper-1");
    assert_eq!(request.language, "nl");
}

#[test]
fn replies_are_read_as_json() {
    assert_eq!(
        read_reply("{\"text\": \"hallo \\u00e9\", \"n\": 1}"),
        ReplyText::Transcript("hallo \u{e9}".to_string())
    );
    assert_eq!(read_reply("{\"text\": \"\"}"), ReplyText::Transcript(String::new()));
    assert_eq!(read_reply("{\"text\": 1}"), ReplyText::Missing);
    assert_eq!(read_reply("{\"other\": \"x\"}"), ReplyText::Missing);
    assert_eq!(read_reply("[\"text\"]"), ReplyText::Missing);
    assert_eq!(read_reply("\"text\""), ReplyText::Missing);
    assert_eq!(read_reply("{\"text\": \"x\""), ReplyText::Malformed);
    assert_eq!(read_reply(""), ReplyText::Malformed);
}

#[test]
fn a_read_reply_is_a_transcript_or_an_error() {
    assert_eq!(
        transcript("body", ReplyText::Transcript("hallo".to_string())),
        Ok("hallo".to_string())
    );
    assert_eq!(
        transcript("body", ReplyText::Missing),
        Err(TranscribeError::NoTranscript("body".to_string()))
    );
    assert_eq!(
        transcript("body", ReplyText::Malformed),
        Err(TranscribeError::MalformedReply)
    );
}

#[test]
fn only_successful_replies_have_transcripts() {
    let body = "{\"text\": \"hallo\"}";
    for status in [200u16, 201, 299] {
        assert_eq!(interpret_reply(status, body), Ok("hallo".to_string()));
    }
    for status in [100u16, 199, 300, 401, 500, 999] {
        assert!(matches!(
            interpret_reply(status, body),
            Err(TranscribeError::ServiceError { .. })
        ));
    }
}

#[test]
fn a_refusal_quotes_status_and_body() {
    let error = interpret_reply(401, "bad key").unwrap_err();
    assert_eq!(error.message(), "Whisper API error (401 Unauthorized): bad key");
    let error = interpret_reply(599, "?").unwrap_err();
    assert_eq!(
        error.message(),
        "Whisper API error (599 <unknown status code>): ?"
    );
}

#[test]
fn errors_have_words() {
    assert_eq!(
        TranscribeError::UnreadableRecording("/a.wav".to_string()).message(),
        "Failed to read WAV file: /a.wav"
    );
    assert_eq!(TranscribeError::RequestFailed.message(), "Whisper API request failed");
    assert_eq!(
        TranscribeError::ReplyFailed.message(),
        "Failed to read Whisper response"
    );
    assert_eq!(
        interpret_reply(200, "{").unwrap_err().message(),
        "Failed to parse Whisper JSON response"
    );
    assert_eq!(
        interpret_reply(200, "{}").unwrap_err().message(),
        "No 'text' field in Whisper response: {}"
    );
}
