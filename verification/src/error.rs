use vstd::prelude::*;

verus! {

/// The failure side of every dispatch outcome, one variant per failure kind.
///
/// Every failure is returned to the caller; none aborts the process. The
/// host shell renders each variant as a display string for the user.
#[derive(Debug, Clone, PartialEq, Eq)]
pub enum ApiError {
    /// The environment variable named here held no credential.
    MissingCredential(String),
    /// The local system-prompt file could not be read; the payload is the
    /// reason the read failed.
    PromptUnavailable(String),
    /// The request never produced a response; the payload is the underlying
    /// cause reported by the transport.
    TransportError(String),
    /// The provider answered with a status outside the success range. The
    /// transcription adapter surfaces the raw response body here; the chat
    /// and translation adapters surface the status alone and leave it `None`.
    ProviderError { status: u16, body: Option<String> },
    /// The response body did not have the expected envelope shape.
    DecodeError,
    /// The response decoded cleanly but held no result element.
    EmptyResponse,
}

} // verus!
