//! What surrounds the call to the transcription service: the request, the
//! reading of a refusal, and the filter that discards the phrases the
//! service invents when it is given silence.

use vstd::prelude::*;
use crate::text::{
    contains, eq_ignore_ascii_case, occurs_in, prefixed, same_ignoring_ascii_case, trim,
    trimmed_of,
};

verus! {

/// How long a request may take, in seconds.
pub const REQUEST_TIMEOUT_SECS: u64 = 60;

/// One transcription request.
pub struct TranscriptionRequest<'a> {
    pub audio_path: &'a str,
    pub api_key: &'a str,
    pub endpoint: &'a str,
    pub model: &'a str,
}

/// Why a transcription came to nothing.
#[derive(Debug, PartialEq, Eq)]
pub enum TranscriptionError {
    /// The HTTP client could not be set up.
    Client(String),
    /// The audio file could not be read.
    ReadAudio(String),
    /// The upload could not be labelled as audio.
    MimeType(String),
    /// The request could not be sent.
    Send(String),
    /// The service is throttling the account or its quota is used up.
    QuotaExceeded,
    /// The service does not accept the key.
    InvalidKey,
    /// The service refused for another reason: its status line and what it
    /// said.
    Api { status: String, body: String },
    /// The answer of the service could not be read.
    Parse(String),
    /// The service answered with a phrase it invents for silence.
    NoSpeech,
}

impl TranscriptionError {
    /// The readable message of this error.
    pub open spec fn message_text(self) -> Seq<char> {
        match self {
            TranscriptionError::Client(d) => "Failed to create client: "@ + d@,
            TranscriptionError::ReadAudio(d) => "Failed to read audio file: "@ + d@,
            TranscriptionError::MimeType(d) => "Failed to set MIME type: "@ + d@,
            TranscriptionError::Send(d) => "Failed to send request: "@ + d@,
            TranscriptionError::QuotaExceeded => "API quota exceeded - check your billing"@,
            TranscriptionError::InvalidKey => "Invalid API key"@,
            TranscriptionError::Api { status, body } => "API error ("@ + status@ + "): "@ + body@,
            TranscriptionError::Parse(d) => "Failed to parse response: "@ + d@,
            TranscriptionError::NoSpeech =>
                "No speech detected — hold the key longer and speak clearly"@,
        }
    }

    /// Renders the message shown to the user for this error.
    pub fn message(&self) -> (r: String)
        ensures
            r@ == self.message_text(),
    {
        match self {
            TranscriptionError::Client(d) => prefixed("Failed to create client: ", d.as_str()),
            TranscriptionError::ReadAudio(d) => prefixed("Failed to read audio file: ", d.as_str()),
            TranscriptionError::MimeType(d) => prefixed("Failed to set MIME type: ", d.as_str()),
            TranscriptionError::Send(d) => prefixed("Failed to send request: ", d.as_str()),
            TranscriptionError::QuotaExceeded => "API quota exceeded - check your billing"
                .to_owned(),
            TranscriptionError::InvalidKey => "Invalid API key".to_owned(),
            TranscriptionError::Api { status, body } => {
                let mut out = prefixed("API error (", status.as_str());
                out.append("): ");
                out.append(body.as_str());
                out
            },
            TranscriptionError::Parse(d) => prefixed("Failed to parse response: ", d.as_str()),
            TranscriptionError::NoSpeech =>
                "No speech detected — hold the key longer and speak clearly".to_owned(),
        }
    }
}

/// The name under which the audio is uploaded: that of the file, or
/// `audio.wav` where the path has none that is text.
pub fn upload_name(file_name: Option<&str>) -> (r: String)
    ensures
        file_name matches Some(name) ==> r@ == name@,
        file_name is None ==> r@ == "audio.wav"@,
{
    match file_name {
        Some(name) => name.to_owned(),
        None => "audio.wav".to_owned(),
    }
}

/// The value of the authorization header for `api_key`.
pub fn bearer(api_key: &str) -> (r: String)
    ensures
        r@ == "Bearer "@ + api_key@,
{
    prefixed("Bearer ", api_key)
}

/// Whether an HTTP status code reports success.
pub fn is_success(status: u16) -> (r: bool)
    ensures
        r == (200 <= status <= 299),
{
    200 <= status && status <= 299
}

/// Whether a refusal is about quota or rate: status 429, or a body that
/// says so.
pub open spec fn is_quota_refusal(status: u16, body: Seq<char>) -> bool {
    status == 429 || occurs_in(body, "insufficient_quota"@) || occurs_in(body, "rate_limit"@)
}

/// Reads a refusal of the service. `status` is the status code,
/// `status_line` the way the status is shown, `body` what the service said.
pub fn classify_refusal(status: u16, status_line: String, body: String) -> (e: TranscriptionError)
    ensures
        is_quota_refusal(status, body@) ==> e == TranscriptionError::QuotaExceeded,
        !is_quota_refusal(status, body@) && status == 401 ==> e == TranscriptionError::InvalidKey,
        !is_quota_refusal(status, body@) && status != 401 ==> e == (TranscriptionError::Api {
            status: status_line,
            body,
        }),
{
    if status == 429 || contains(body.as_str(), "insufficient_quota") || contains(
        body.as_str(),
        "rate_limit",
    ) {
        TranscriptionError::QuotaExceeded
    } else if status == 401 {
        TranscriptionError::InvalidKey
    } else {
        TranscriptionError::Api { status: status_line, body }
    }
}

/// The phrases the service tends to invent when it hears nothing. All are in
/// lower case.
pub open spec fn invented_phrases() -> Seq<Seq<char>> {
    seq![
        "you"@,
        "thank you"@,
        "thank you."@,
        "thanks for watching."@,
        "thanks for watching"@,
        "subscribe."@,
    ]
}

/// `text` is one of the invented phrases, in any mix of upper and lower
/// case.
pub open spec fn is_invented(text: Seq<char>) -> bool {
    exists|i: int|
        0 <= i < invented_phrases().len() && same_ignoring_ascii_case(
            text,
            #[trigger] invented_phrases()[i],
        )
}

/// The invented phrases.
pub fn hallucinations() -> (r: Vec<&'static str>)
    ensures
        r@.len() == invented_phrases().len(),
        forall|i: int| 0 <= i < r@.len() ==> (#[trigger] r@[i])@ == invented_phrases()[i],
{
    let mut phrases: Vec<&'static str> = Vec::new();
    phrases.push("you");
    phrases.push("thank you");
    phrases.push("thank you.");
    phrases.push("thanks for watching.");
    phrases.push("thanks for watching");
    phrases.push("subscribe.");
    phrases
}

/// Whether a text is nothing but one of the invented phrases.
pub fn is_hallucination(text: &str) -> (r: bool)
    ensures
        r == is_invented(text@),
{
    let phrases = hallucinations();
    let mut i: usize = 0;
    while i < phrases.len()
        invariant
            i <= phrases.len(),
            phrases@.len() == invented_phrases().len(),
            forall|j: int|
                0 <= j < phrases@.len() ==> (#[trigger] phrases@[j])@ == invented_phrases()[j],
            forall|j: int|
                0 <= j < i ==> !same_ignoring_ascii_case(text@, #[trigger] invented_phrases()[j]),
        decreases phrases.len() - i,
    {
        if eq_ignore_ascii_case(text, phrases[i]) {
            return true;
        }
        i = i + 1;
    }
    false
}

/// What a transcript comes to once its surrounding white space is gone: the
/// text itself, unless it is an invented phrase.
pub open spec fn transcript_outcome(trimmed: Seq<char>) -> Result<Seq<char>, TranscriptionError> {
    if is_invented(trimmed) {
        Err(TranscriptionError::NoSpeech)
    } else {
        Ok(trimmed)
    }
}

/// The text of an accepted transcript.
pub open spec fn accepted_text(r: Result<String, TranscriptionError>) -> Result<
    Seq<char>,
    TranscriptionError,
> {
    match r {
        Ok(text) => Ok(text@),
        Err(e) => Err(e),
    }
}

/// Accepts or discards a transcript that has already been trimmed.
pub fn filter_transcript(trimmed: &str) -> (r: Result<String, TranscriptionError>)
    ensures
        accepted_text(r) == transcript_outcome(trimmed@),
{
    if is_hallucination(trimmed) {
        Err(TranscriptionError::NoSpeech)
    } else {
        Ok(trimmed.to_owned())
    }
}

/// Takes the text the service answered with, removes the white space
/// around it, and discards it if it is an invented phrase.
pub fn accept_transcript(raw: &str) -> (r: Result<String, TranscriptionError>)
    ensures
        accepted_text(r) == transcript_outcome(trimmed_of(raw@)),
{
    filter_transcript(trim(raw))
}

} // verus!
