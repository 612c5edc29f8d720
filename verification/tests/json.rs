use serde_json::Value;
use tgdyk::json::{has_type, tdlib_error_message, tdlib_type_name, text_under};

fn value(source: &str) -> Value {
    serde_json::from_str(source).unwrap()
}

#[test]
fn reads_tdlib_type_names() {
    assert_eq!(
        tdlib_type_name(&value("{\"@type\": \"updateAuthorizationState\"}")),
        Some("updateAuthorizationState")
    );
    assert_eq!(
        tdlib_type_name(&value("{\"_\": \"updateAuthorizationState\"}")),
        Some("updateAuthorizationState")
    );
    assert_eq!(tdlib_type_name(&value("{}")), None);
}

#[test]
fn tdlib_error_message_omits_raw_payload() {
    let update = value(
        "{\"@type\": \"error\", \"code\": 401, \"message\": \"Unauthorized\", \"phone_number\": \"+10000000000\"}",
    );
    assert_eq!(tdlib_error_message(&update), "401: Unauthorized");
}

#[test]
fn type_that_is_no_string_names_no_type() {
    assert_eq!(
        tdlib_type_name(&value("{\"@type\": 1, \"_\": \"error\"}")),
        None
    );
    assert_eq!(tdlib_type_name(&value("{\"_\": null}")), None);
    assert_eq!(tdlib_type_name(&value("[\"@type\"]")), None);
    assert_eq!(tdlib_type_name(&value("\"@type\"")), None);
}

#[test]
fn first_type_member_wins() {
    let update = value("{\"_\": \"second\", \"@type\": \"first\"}");
    assert_eq!(tdlib_type_name(&update), Some("first"));
    assert!(has_type(&update, "first"));
    assert!(!has_type(&update, "second"));
    assert!(!has_type(&value("{}"), "first"));
}

#[test]
fn error_messages_with_parts_missing() {
    assert_eq!(tdlib_error_message(&value("{}")), "unknown TDLib error");
    assert_eq!(
        tdlib_error_message(&value("{\"code\": 500}")),
        "500: unknown TDLib error"
    );
    assert_eq!(
        tdlib_error_message(&value("{\"message\": \"Gone\"}")),
        "Gone"
    );
    assert_eq!(
        tdlib_error_message(&value("{\"code\": \"401\", \"message\": 7}")),
        "unknown TDLib error"
    );
    assert_eq!(
        tdlib_error_message(&value("{\"code\": 1.5, \"message\": \"Half\"}")),
        "Half"
    );
    assert_eq!(
        tdlib_error_message(&value("{\"code\": 9223372036854775808, \"message\": \"Big\"}")),
        "Big"
    );
    assert_eq!(
        tdlib_error_message(&value("{\"code\": -9223372036854775808, \"message\": \"Low\"}")),
        "-9223372036854775808: Low"
    );
}

#[test]
fn errors_that_agree_in_code_and_message_are_told_alike() {
    let left = value("{\"code\": 401, \"message\": \"No\", \"secret\": \"a\"}");
    let right = value("{\"code\": 401, \"message\": \"No\", \"secret\": {\"b\": 1}}");
    assert_eq!(tdlib_error_message(&left), tdlib_error_message(&right));
}

#[test]
fn reads_strings_under_a_key() {
    let state = value("{\"link\": \"tg://login\", \"n\": 1}");
    assert_eq!(text_under(&state, "link"), Some("tg://login"));
    assert_eq!(text_under(&state, "n"), None);
    assert_eq!(text_under(&state, "other"), None);
}
