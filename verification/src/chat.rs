//! Chat-completion adapter: builds the JSON chat payload and normalizes the
//! provider's response envelope.

use vstd::prelude::*;
use vstd::string::StringExecFns;

use crate::common::{first_text, is_success_status, spec_is_success};
use crate::error::ApiError;
use crate::json::{chat_contents_of, json_string_literal, json_string_of, parse_chat_contents};

verus! {

/// Everything the host needs to submit one chat-completion call: the fixed
/// endpoint, the bearer credential, and the JSON payload text.
pub struct ChatRequest {
    pub endpoint: String,
    pub api_key: String,
    pub payload: String,
}

/// The JSON payload of a chat call: a fixed model identifier, a system turn
/// holding the instruction prompt, a user turn holding the message, and a
/// fixed sampling temperature.
pub open spec fn spec_chat_payload(prompt: Seq<char>, user: Seq<char>) -> Seq<char> {
    "{\"model\":\"llama-3.3-70b\",\"messages\":[{\"role\":\"system\",\"content\":"@
        + json_string_of(prompt)
        + "},{\"role\":\"user\",\"content\":"@
        + json_string_of(user)
        + "}],\"temperature\":0.5}"@
}

/// Encodes the two conversation turns into the payload text, exactly as
/// `spec_chat_payload` lays it out.
pub fn build_chat_payload(system_prompt: &str, user_message: &str) -> (r: String)
    ensures
        r@ == spec_chat_payload(system_prompt@, user_message@),
{
    let sys = json_string_literal(system_prompt);
    let usr = json_string_literal(user_message);
    let mut payload = String::new();
    payload.append("{\"model\":\"llama-3.3-70b\",\"messages\":[{\"role\":\"system\",\"content\":");
    payload.append(sys.as_str());
    payload.append("},{\"role\":\"user\",\"content\":");
    payload.append(usr.as_str());
    payload.append("}],\"temperature\":0.5}");
    proof {
        assert(payload@ =~= spec_chat_payload(system_prompt@, user_message@));
    }
    payload
}

/// Builds the outbound chat request, or reports why none can be made. The
/// prompt load is checked before the credential, and a failure of either
/// means no request value exists for the host to send.
pub fn chat_request(
    prompt_load: Result<String, String>,
    api_key: Option<String>,
    user_message: &str,
) -> (r: Result<ChatRequest, ApiError>)
    ensures
        prompt_load matches Err(d)
            ==> (r matches Err(ApiError::PromptUnavailable(m)) && m@ == d@),
        prompt_load is Ok && api_key is None
            ==> (r matches Err(ApiError::MissingCredential(n)) && n@ == "CEREBRAS_API_KEY"@),
        prompt_load matches Ok(p) ==> (api_key matches Some(k) ==> (r matches Ok(q)
            && q.endpoint@ == "https://api.cerebras.ai/v1/chat/completions"@
            && q.api_key@ == k@
            && q.payload@ == spec_chat_payload(p@, user_message@))),
{
    let prompt = match prompt_load {
        Ok(p) => p,
        Err(d) => {
            return Err(ApiError::PromptUnavailable(d));
        },
    };
    let key = match api_key {
        Some(k) => k,
        None => {
            return Err(ApiError::MissingCredential(String::from_str("CEREBRAS_API_KEY")));
        },
    };
    let payload = build_chat_payload(prompt.as_str(), user_message);
    Ok(ChatRequest {
        endpoint: String::from_str("https://api.cerebras.ai/v1/chat/completions"),
        api_key: key,
        payload,
    })
}

/// Normalizes one chat-completion response: a status outside the success
/// range fails with that status alone, whatever the body held; a success
/// body must decode to a choices envelope, which must hold at least one
/// element, and the result is exactly the first element's content.
pub fn chat_response(status: u16, body: &str) -> (r: Result<String, ApiError>)
    ensures
        !spec_is_success(status) ==> (r matches Err(ApiError::ProviderError {
            status: s,
            body: b,
        }) && s == status && b is None),
        spec_is_success(status) && chat_contents_of(body@) is None
            ==> (r matches Err(e) && e is DecodeError),
        spec_is_success(status) ==> (chat_contents_of(body@) matches Some(cs)
            ==> (cs.len() == 0 ==> (r matches Err(e) && e is EmptyResponse))),
        spec_is_success(status) ==> (chat_contents_of(body@) matches Some(cs)
            ==> (cs.len() > 0 ==> (r matches Ok(t) && t@ == cs[0]))),
{
    if !is_success_status(status) {
        return Err(ApiError::ProviderError { status, body: None });
    }
    first_text(parse_chat_contents(body))
}

} // verus!
