//! Transcription adapter: builds the multipart transcription call and
//! normalizes the provider's response envelope.

use vstd::prelude::*;
use vstd::string::StringExecFns;

use crate::common::{is_success_status, spec_is_success};
use crate::error::ApiError;
use crate::json::{parse_transcription_text, transcription_text_of};

verus! {

/// Everything the host needs to submit one transcription call: the fixed
/// endpoint, the bearer credential, and the three multipart parts — a fixed
/// model field, the caller's language field, and the audio bytes as a file
/// part under a fixed name and MIME type.
pub struct TranscriptionRequest {
    pub endpoint: String,
    pub api_key: String,
    pub model: String,
    pub language: String,
    pub file_name: String,
    pub mime_type: String,
    pub audio: Vec<u8>,
}

/// Builds the outbound transcription request, or reports the missing
/// credential. The audio bytes are carried verbatim, whatever their size.
pub fn transcription_request(api_key: Option<String>, audio: Vec<u8>, lang: &str) -> (r: Result<
    TranscriptionRequest,
    ApiError,
>)
    ensures
        api_key is None ==> (r matches Err(ApiError::MissingCredential(n))
            && n@ == "GROQ_API_KEY"@),
        api_key matches Some(k) ==> (r matches Ok(q)
            && q.endpoint@ == "https://api.groq.com/openai/v1/audio/transcriptions"@
            && q.api_key@ == k@
            && q.model@ == "whisper-large-v3"@
            && q.language@ == lang@
            && q.file_name@ == "recording.webm"@
            && q.mime_type@ == "audio/webm"@
            && q.audio@ == audio@),
{
    let key = match api_key {
        Some(k) => k,
        None => {
            return Err(ApiError::MissingCredential(String::from_str("GROQ_API_KEY")));
        },
    };
    Ok(TranscriptionRequest {
        endpoint: String::from_str("https://api.groq.com/openai/v1/audio/transcriptions"),
        api_key: key,
        model: String::from_str("whisper-large-v3"),
        language: String::from_str(lang),
        file_name: String::from_str("recording.webm"),
        mime_type: String::from_str("audio/webm"),
        audio,
    })
}

/// Normalizes one transcription response. Unlike the other two adapters,
/// a failure status carries the raw response body in the error; a success
/// body must decode to the single-field text envelope, whose text is the
/// result. There is no array here, so no empty-result case exists.
pub fn transcription_response(status: u16, body: &str) -> (r: Result<String, ApiError>)
    ensures
        !spec_is_success(status) ==> (r matches Err(ApiError::ProviderError {
            status: s,
            body: Some(raw),
        }) && s == status && raw@ == body@),
        spec_is_success(status) && transcription_text_of(body@) is None
            ==> (r matches Err(e) && e is DecodeError),
        spec_is_success(status) ==> (transcription_text_of(body@) matches Some(s)
            ==> (r matches Ok(t) && t@ == s)),
{
    if !is_success_status(status) {
        return Err(
            ApiError::ProviderError { status, body: Some(String::from_str(body)) },
        );
    }
    match parse_transcription_text(body) {
        Some(t) => Ok(t),
        None => Err(ApiError::DecodeError),
    }
}

} // verus!
