//! Translation adapter: builds the form-encoded translation call and
//! normalizes the provider's response envelope.

use vstd::prelude::*;
use vstd::string::StringExecFns;

use crate::common::{first_text, is_success_status, spec_is_success};
use crate::error::ApiError;
use crate::json::{parse_translation_texts, translation_texts_of};

verus! {

/// One form field of the outbound translation call.
pub struct FormField {
    pub name: String,
    pub value: String,
}

/// Everything the host needs to submit one translation call: the fixed
/// endpoint and the form fields, credential included (this provider takes
/// the credential as a field, not a header).
pub struct TranslationRequest {
    pub endpoint: String,
    pub fields: Vec<FormField>,
}

/// Builds the outbound translation request, or reports the missing
/// credential. The source and target language tags are fixed by the
/// product, and beta-language support is always requested.
pub fn translation_request(api_key: Option<String>, text: &str) -> (r: Result<
    TranslationRequest,
    ApiError,
>)
    ensures
        api_key is None ==> (r matches Err(ApiError::MissingCredential(n))
            && n@ == "DEEPL_API_KEY"@),
        api_key matches Some(k) ==> (r matches Ok(q)
            && q.endpoint@ == "https://api-free.deepl.com/v2/translate"@
            && q.fields@.len() == 5
            && q.fields@[0].name@ == "auth_key"@ && q.fields@[0].value@ == k@
            && q.fields@[1].name@ == "text"@ && q.fields@[1].value@ == text@
            && q.fields@[2].name@ == "source_lang"@ && q.fields@[2].value@ == "KA"@
            && q.fields@[3].name@ == "target_lang"@ && q.fields@[3].value@ == "EN-US"@
            && q.fields@[4].name@ == "enable_beta_languages"@ && q.fields@[4].value@ == "1"@),
{
    let key = match api_key {
        Some(k) => k,
        None => {
            return Err(ApiError::MissingCredential(String::from_str("DEEPL_API_KEY")));
        },
    };
    let mut fields: Vec<FormField> = Vec::new();
    fields.push(FormField { name: String::from_str("auth_key"), value: key });
    fields.push(FormField { name: String::from_str("text"), value: String::from_str(text) });
    fields.push(FormField { name: String::from_str("source_lang"), value: String::from_str("KA") });
    fields.push(
        FormField { name: String::from_str("target_lang"), value: String::from_str("EN-US") },
    );
    fields.push(
        FormField { name: String::from_str("enable_beta_languages"), value: String::from_str("1") },
    );
    Ok(TranslationRequest {
        endpoint: String::from_str("https://api-free.deepl.com/v2/translate"),
        fields,
    })
}

/// Normalizes one translation response: a status outside the success range
/// fails with that status alone, whatever the body held; a success body
/// must decode to a translations envelope, which must hold at least one
/// element, and the result is exactly the first element's text.
pub fn translation_response(status: u16, body: &str) -> (r: Result<String, ApiError>)
    ensures
        !spec_is_success(status) ==> (r matches Err(ApiError::ProviderError {
            status: s,
            body: b,
        }) && s == status && b is None),
        spec_is_success(status) && translation_texts_of(body@) is None
            ==> (r matches Err(e) && e is DecodeError),
        spec_is_success(status) ==> (translation_texts_of(body@) matches Some(ts)
            ==> (ts.len() == 0 ==> (r matches Err(e) && e is EmptyResponse))),
        spec_is_success(status) ==> (translation_texts_of(body@) matches Some(ts)
            ==> (ts.len() > 0 ==> (r matches Ok(t) && t@ == ts[0]))),
{
    if !is_success_status(status) {
        return Err(ApiError::ProviderError { status, body: None });
    }
    first_text(parse_translation_texts(body))
}

} // verus!
