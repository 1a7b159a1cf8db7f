//! The library's trusted interface to serde_json.
//!
//! Encoding a string as a JSON literal and decoding a provider envelope are
//! functions of their input alone, but stating them in full would mean
//! rewriting serde_json's grammar. Each result is therefore given a name (an
//! uninterpreted spec function), and the one function that produces it is a
//! trusted wrapper whose contract ties its output to that name. Every
//! adapter contract upstream speaks of these names exactly.

use vstd::prelude::*;

verus! {

/// The JSON string literal (quotes and escapes included) that encodes `s`.
pub uninterp spec fn json_string_of(s: Seq<char>) -> Seq<char>;

/// The `message.content` strings of the chat envelope `body`, in order, or
/// `None` when `body` is not such an envelope.
pub uninterp spec fn chat_contents_of(body: Seq<char>) -> Option<Seq<Seq<char>>>;

/// The `text` strings of the translation envelope `body`, in order, or
/// `None` when `body` is not such an envelope.
pub uninterp spec fn translation_texts_of(body: Seq<char>) -> Option<Seq<Seq<char>>>;

/// The `text` string of the transcription envelope `body`, or `None` when
/// `body` is not such an envelope.
pub uninterp spec fn transcription_text_of(body: Seq<char>) -> Option<Seq<char>>;

/// Relies on serde_json::to_string on a `&str`: it encodes the string as a
/// JSON string literal, and fails only where a `Serialize` impl can fail,
/// which `str`'s never does.
#[verifier::external_body]
pub(crate) fn json_string_literal(s: &str) -> (r: String)
    ensures
        r@ == json_string_of(s@),
{
    serde_json::to_string(s).unwrap_or_default()
}

/// Relies on serde_json::from_str::<Value> and the `Value` accessors `get`,
/// `as_array` and `as_str`: reads the chat envelope
/// `{"choices": [{"message": {"content": <string>}}, ..]}` and keeps each
/// content string; `None` on any other document.
#[verifier::external_body]
pub(crate) fn parse_chat_contents(body: &str) -> (r: Option<Vec<String>>)
    ensures
        r is Some <==> chat_contents_of(body@) is Some,
        r matches Some(v) ==> (chat_contents_of(body@) matches Some(cs)
            && v@.len() == cs.len()
            && (forall|i: int| 0 <= i < cs.len() ==> (#[trigger] v@[i])@ == cs[i])),
{
    let doc: serde_json::Value = serde_json::from_str(body).ok()?;
    let choices = doc.get("choices")?.as_array()?;
    let mut contents: Vec<String> = Vec::new();
    for choice in choices {
        contents.push(choice.get("message")?.get("content")?.as_str()?.to_string());
    }
    Some(contents)
}

/// Relies on serde_json::from_str::<Value> and the `Value` accessors `get`,
/// `as_array` and `as_str`: reads the translation envelope
/// `{"translations": [{"detected_source_language": <string>,
/// "text": <string>}, ..]}` and keeps each text; `None` on any other
/// document.
#[verifier::external_body]
pub(crate) fn parse_translation_texts(body: &str) -> (r: Option<Vec<String>>)
    ensures
        r is Some <==> translation_texts_of(body@) is Some,
        r matches Some(v) ==> (translation_texts_of(body@) matches Some(ts)
            && v@.len() == ts.len()
            && (forall|i: int| 0 <= i < ts.len() ==> (#[trigger] v@[i])@ == ts[i])),
{
    let doc: serde_json::Value = serde_json::from_str(body).ok()?;
    let translations = doc.get("translations")?.as_array()?;
    let mut texts: Vec<String> = Vec::new();
    for item in translations {
        item.get("detected_source_language")?.as_str()?;
        texts.push(item.get("text")?.as_str()?.to_string());
    }
    Some(texts)
}

/// Relies on serde_json::from_str::<Value> and the `Value` accessors `get`
/// and `as_str`: reads the transcription envelope `{"text": <string>}`;
/// `None` on any other document.
#[verifier::external_body]
pub(crate) fn parse_transcription_text(body: &str) -> (r: Option<String>)
    ensures
        r is Some <==> transcription_text_of(body@) is Some,
        r matches Some(t) ==> (transcription_text_of(body@) matches Some(s) && t@ == s),
{
    let doc: serde_json::Value = serde_json::from_str(body).ok()?;
    Some(doc.get("text")?.as_str()?.to_string())
}

} // verus!
