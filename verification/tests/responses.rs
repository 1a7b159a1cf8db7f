use provider_dispatch::chat::chat_response;
use provider_dispatch::common::is_success_status;
use provider_dispatch::error::ApiError;
use provider_dispatch::transcription::transcription_response;
use provider_dispatch::translation::translation_response;

#[test]
fn success_range_is_exactly_2xx() {
    assert!(!is_success_status(199));
    assert!(is_success_status(200));
    assert!(is_success_status(299));
    assert!(!is_success_status(300));
}

#[test]
fn chat_response_returns_first_choice_content_exactly() {
    let body = "{\"choices\":[{\"message\":{\"role\":\"assistant\",\"content\":\" One \"}},{\"message\":{\"role\":\"assistant\",\"content\":\"Two\"}}]}";
    assert_eq!(chat_response(200, body), Ok(" One ".to_string()));
}

#[test]
fn chat_response_decodes_escaped_content() {
    let body = "{\"choices\":[{\"message\":{\"content\":\"a\\\"b\\nc\"}}]}";
    assert_eq!(chat_response(200, body), Ok("a\"b\nc".to_string()));
}

#[test]
fn chat_response_fails_on_any_non_success_status() {
    let good_body = "{\"choices\":[{\"message\":{\"content\":\"fine\"}}]}";
    for status in [100u16, 199, 300, 304, 401, 404, 500] {
        assert_eq!(
            chat_response(status, good_body),
            Err(ApiError::ProviderError { status, body: None })
        );
    }
}

#[test]
fn chat_response_accepts_both_bounds_of_the_success_range() {
    let body = "{\"choices\":[{\"message\":{\"content\":\"ok\"}}]}";
    assert_eq!(chat_response(200, body), Ok("ok".to_string()));
    assert_eq!(chat_response(299, body), Ok("ok".to_string()));
}

#[test]
fn chat_response_reports_empty_choices() {
    assert_eq!(chat_response(200, "{\"choices\":[]}"), Err(ApiError::EmptyResponse));
}

#[test]
fn chat_response_reports_malformed_bodies() {
    let malformed = [
        "not json",
        "",
        "{}",
        "{\"choices\":42}",
        "{\"choices\":[{\"message\":{}}]}",
        "{\"choices\":[{\"message\":{\"content\":7}}]}",
        "[\"choices\"]",
    ];
    for body in malformed {
        assert_eq!(chat_response(200, body), Err(ApiError::DecodeError));
    }
}

#[test]
fn chat_response_requires_every_choice_well_formed() {
    let body = "{\"choices\":[{\"message\":{\"content\":\"good\"}},{\"message\":{}}]}";
    assert_eq!(chat_response(200, body), Err(ApiError::DecodeError));
}

#[test]
fn translation_response_extracts_the_translated_text() {
    let body = "{\"translations\":[{\"detected_source_language\":\"KA\",\"text\":\"Hello\"}]}";
    assert_eq!(translation_response(200, body), Ok("Hello".to_string()));
}

#[test]
fn translation_response_takes_the_first_translation_only() {
    let body = "{\"translations\":[{\"detected_source_language\":\"KA\",\"text\":\"Hello\"},{\"detected_source_language\":\"DE\",\"text\":\"Hallo\"}]}";
    assert_eq!(translation_response(200, body), Ok("Hello".to_string()));
}

#[test]
fn translation_response_reports_empty_translations() {
    assert_eq!(translation_response(200, "{\"translations\":[]}"), Err(ApiError::EmptyResponse));
}

#[test]
fn translation_response_requires_the_detected_language_field() {
    let body = "{\"translations\":[{\"text\":\"Hello\"}]}";
    assert_eq!(translation_response(200, body), Err(ApiError::DecodeError));
}

#[test]
fn translation_response_fails_on_any_non_success_status() {
    let good_body = "{\"translations\":[{\"detected_source_language\":\"KA\",\"text\":\"Hello\"}]}";
    for status in [199u16, 300, 403, 429, 503] {
        assert_eq!(
            translation_response(status, good_body),
            Err(ApiError::ProviderError { status, body: None })
        );
    }
}

#[test]
fn translation_response_reports_malformed_bodies() {
    for body in ["oops", "{}", "{\"translations\":\"x\"}", "{\"translations\":[7]}"] {
        assert_eq!(translation_response(200, body), Err(ApiError::DecodeError));
    }
}

#[test]
fn transcription_response_returns_the_text_field() {
    assert_eq!(
        transcription_response(200, "{\"text\":\"hello there\"}"),
        Ok("hello there".to_string())
    );
}

#[test]
fn transcription_response_surfaces_the_error_body() {
    let r = transcription_response(401, "invalid api key");
    assert_eq!(
        r,
        Err(ApiError::ProviderError { status: 401, body: Some("invalid api key".to_string()) })
    );
    match r {
        Err(ApiError::ProviderError { body: Some(text), .. }) => {
            assert!(text.contains("invalid api key"));
        },
        _ => panic!("a failure status must surface the body"),
    }
}

#[test]
fn transcription_response_reports_malformed_bodies() {
    for body in ["oops", "{}", "{\"text\":3}", "[\"text\"]"] {
        assert_eq!(transcription_response(200, body), Err(ApiError::DecodeError));
    }
}
