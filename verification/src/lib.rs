//! Outbound request dispatch for three cloud AI providers: a chat-completion
//! service, a machine-translation service and a speech-transcription service.
//!
//! Each adapter is a pair of functions. The request builder turns the caller's
//! plain inputs and a credential into a fully described outbound request, or
//! says why none can be made. The response interpreter turns the provider's
//! HTTP status and body into the normalized outcome: the extracted result
//! text, or one failure kind. The host shell around this library performs the
//! actual file, environment and network work and passes the outcomes in.

pub mod chat;
pub mod common;
pub mod error;
pub mod json;
pub mod transcription;
pub mod translation;
