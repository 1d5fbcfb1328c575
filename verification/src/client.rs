//! The transcription client's decisions, over plain values.
//!
//! The remote speech-to-text call itself is transport: the host layer
//! encodes the chunk, posts it, and hands back the HTTP status and raw
//! body. Everything the client decides — when the credential is missing,
//! which status codes are failures, how the response body yields the
//! segment text, and when a body is malformed — is stated and verified
//! here, with the JSON reading done by `serde_json` behind one trusted
//! wrapper.

use vstd::prelude::*;
use vstd::string::StringExecFns;

verus! {

/// Why one chunk's transcription failed. Every variant is non-fatal to the
/// session: the consumer skips the chunk and goes on.
#[derive(PartialEq, Eq, Debug)]
pub enum TranscribeError {
    /// The service credential was absent from the environment.
    ConfigError,
    /// The request never completed: connection, timeout, or a body that
    /// could not be read.
    TransportError,
    /// The service answered with a non-success status; its code and body
    /// are kept for the log.
    RemoteError { status: u16, body: String },
    /// The response body was not valid JSON.
    DecodeError,
}

/// Whether an HTTP status code counts as success.
pub open spec fn status_is_success(status: u16) -> bool {
    200 <= status < 300
}

/// The text the service's JSON answer carries: `None` when the parser
/// rejects the body, otherwise the string under the `text` field, with the
/// empty string when that field is absent or not a string.
pub uninterp spec fn json_text_of(body: Seq<char>) -> Option<Seq<char>>;

/// Relies on `serde_json::from_str` and `serde_json::Value::as_str`:
/// parses the body as JSON and reads its `text` field, falling back to the
/// empty string when the field is absent or not a string (indexing a
/// `Value` never panics, it yields `Null` for a missing key), and failing
/// exactly when the parser rejects the body. The result depends on the
/// body's characters alone.
#[verifier::external_body]
fn extract_text_field(body: &str) -> (r: Option<String>)
    ensures
        r is Some <==> json_text_of(body@) is Some,
        r matches Some(t) ==> json_text_of(body@) == Some(t@),
{
    match serde_json::from_str::<serde_json::Value>(body) {
        Ok(value) => Some(value["text"].as_str().unwrap_or("").to_string()),
        Err(_) => None,
    }
}

/// The decision on one transcription response, over plain values: a
/// non-success status is a `RemoteError` carrying the status and body; a
/// success whose body yielded no text field value is a `DecodeError`; a
/// success with a text value returns exactly that value.
pub fn interpret_response(status: u16, body: String, text_field: Option<String>) -> (r: Result<
    String,
    TranscribeError,
>)
    ensures
        !status_is_success(status) ==> r == Err::<String, TranscribeError>(
            TranscribeError::RemoteError { status, body },
        ),
        status_is_success(status) && text_field is None ==> r == Err::<String, TranscribeError>(
            TranscribeError::DecodeError,
        ),
        status_is_success(status) ==> (text_field matches Some(t) ==> r == Ok::<
            String,
            TranscribeError,
        >(t)),
{
    if !(200 <= status && status < 300) {
        return Err(TranscribeError::RemoteError { status, body });
    }
    match text_field {
        Some(t) => Ok(t),
        None => Err(TranscribeError::DecodeError),
    }
}

/// Turns one raw transcription response into the chunk's segment text or
/// its error, as [`interpret_response`] decides, with the body read by the
/// trusted JSON wrapper.
pub fn parse_transcription_response(status: u16, body: String) -> (r: Result<
    String,
    TranscribeError,
>)
    ensures
        !status_is_success(status) ==> r == Err::<String, TranscribeError>(
            TranscribeError::RemoteError { status, body },
        ),
        status_is_success(status) && json_text_of(body@) is None ==> r == Err::<
            String,
            TranscribeError,
        >(TranscribeError::DecodeError),
        status_is_success(status) ==> (json_text_of(body@) matches Some(t) ==> (r matches Ok(s)
            && s@ == t)),
{
    let text_field = if 200 <= status && status < 300 {
        extract_text_field(body.as_str())
    } else {
        None
    };
    interpret_response(status, body, text_field)
}

/// The `Authorization` header for the remote call, from the credential the
/// host layer read from the process environment: a missing credential is a
/// `ConfigError`, fatal to this one chunk only.
pub fn build_auth_header(credential: Option<String>) -> (r: Result<String, TranscribeError>)
    ensures
        credential is None ==> r == Err::<String, TranscribeError>(TranscribeError::ConfigError),
        credential matches Some(k) ==> (r matches Ok(h) && h@ == "Bearer "@ + k@),
{
    match credential {
        None => Err(TranscribeError::ConfigError),
        Some(key) => {
            let mut header = "Bearer ".to_owned();
            header.append(key.as_str());
            Ok(header)
        },
    }
}

/// The model named in every transcription request.
pub fn model_name() -> (r: String)
    ensures
        r@ == "whisper-1"@,
{
    "whisper-1".to_owned()
}

/// The remote transcription endpoint.
pub fn endpoint_url() -> (r: String)
    ensures
        r@ == "https://api.openai.com/v1/audio/transcriptions"@,
{
    "https://api.openai.com/v1/audio/transcriptions".to_owned()
}

} // verus!
