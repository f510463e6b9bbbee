//! The wire encoders: exact JSON text, escaping, and real-JSON round trips
//! through an independent parser.

use starlight::messages::ActionCommand;
use starlight::messages::PreCheckResponse;
use starlight::messages::RegistrationParams;
use starlight::wire;

#[test]
fn escaping_common_characters() {
    assert_eq!(wire::escape_json_string(""), "");
    assert_eq!(wire::escape_json_string("plain"), "plain");
    assert_eq!(wire::escape_json_string("say \"hi\""), "say \\\"hi\\\"");
    assert_eq!(wire::escape_json_string("a\\b"), "a\\\\b");
    assert_eq!(wire::escape_json_string("line\nbreak"), "line\\nbreak");
    assert_eq!(wire::escape_json_string("tab\there"), "tab\\there");
    assert_eq!(wire::escape_json_string("cr\rlf"), "cr\\rlf");
    assert_eq!(wire::escape_json_string("bs\u{8}ff\u{c}"), "bs\\bff\\f");
    assert_eq!(wire::escape_json_string("ctl\u{1}\u{1f}"), "ctl\\u0001\\u001f");
    assert_eq!(wire::escape_json_string("caf\u{e9} \u{2713}"), "caf\u{e9} \u{2713}");
}

#[test]
fn registration_without_token_omits_the_field() {
    let params = RegistrationParams::new("JanitorSentinel", 5)
        .with_capabilities(vec!["detection".to_string()])
        .with_selectors(vec![".popup".to_string(), ".modal".to_string()]);
    let text = wire::registration_request_json(&params, "reg-1");

    assert_eq!(
        text,
        "{\"jsonrpc\":\"2.0\",\"method\":\"starlight.registration\",\"params\":{\"layer\":\"JanitorSentinel\",\"priority\":5,\"capabilities\":[\"detection\"],\"selectors\":[\".popup\",\".modal\"]},\"id\":\"reg-1\"}"
    );
    // Absent entirely: neither the key nor a null.
    assert!(!text.contains("auth_token"));
    assert!(!text.contains("null"));
}

#[test]
fn registration_with_token_carries_it_last() {
    let params = RegistrationParams::new("S", 1).with_auth_token("tok.en.value");
    let text = wire::registration_request_json(&params, "reg-9");
    assert_eq!(
        text,
        "{\"jsonrpc\":\"2.0\",\"method\":\"starlight.registration\",\"params\":{\"layer\":\"S\",\"priority\":1,\"capabilities\":[],\"selectors\":[],\"auth_token\":\"tok.en.value\"},\"id\":\"reg-9\"}"
    );
}

#[test]
fn registration_is_real_json() {
    let params = RegistrationParams::new("Quote\"y", 10)
        .with_capabilities(vec!["a\nb".to_string()])
        .with_auth_token("t");
    let text = wire::registration_request_json(&params, "id-1");

    let v: serde_json::Value = serde_json::from_str(&text).unwrap();
    assert_eq!(v["jsonrpc"], "2.0");
    assert_eq!(v["method"], "starlight.registration");
    assert_eq!(v["id"], "id-1");
    assert_eq!(v["params"]["layer"], "Quote\"y");
    assert_eq!(v["params"]["priority"], 10);
    assert_eq!(v["params"]["capabilities"][0], "a\nb");
    assert_eq!(v["params"]["auth_token"], "t");
}

#[test]
fn challenge_request_text() {
    let text = wire::challenge_request_json("nonce-77", "chal-3");
    assert_eq!(
        text,
        "{\"jsonrpc\":\"2.0\",\"method\":\"starlight.challenge_response\",\"params\":{\"response\":\"nonce-77\"},\"id\":\"chal-3\"}"
    );
}

#[test]
fn hijack_notification_text() {
    let text = wire::hijack_notification_json("manual takeover");
    assert_eq!(
        text,
        "{\"jsonrpc\":\"2.0\",\"method\":\"starlight.hijack\",\"params\":{\"reason\":\"manual takeover\"}}"
    );
}

#[test]
fn action_notification_with_and_without_text() {
    let with_text = wire::action_notification_json(
        ActionCommand::Fill,
        "#input",
        &Some("hello".to_string()),
    );
    assert_eq!(
        with_text,
        "{\"jsonrpc\":\"2.0\",\"method\":\"starlight.action\",\"params\":{\"cmd\":\"fill\",\"selector\":\"#input\",\"text\":\"hello\"}}"
    );

    let without = wire::action_notification_json(ActionCommand::Click, ".btn", &None);
    assert_eq!(
        without,
        "{\"jsonrpc\":\"2.0\",\"method\":\"starlight.action\",\"params\":{\"cmd\":\"click\",\"selector\":\".btn\"}}"
    );
    assert!(!without.contains("text"));
}

#[test]
fn action_command_names() {
    for (cmd, name) in [
        (ActionCommand::Click, "click"),
        (ActionCommand::Fill, "fill"),
        (ActionCommand::Hide, "hide"),
        (ActionCommand::Remove, "remove"),
    ] {
        let text = wire::action_notification_json(cmd, "x", &None);
        let v: serde_json::Value = serde_json::from_str(&text).unwrap();
        assert_eq!(v["params"]["cmd"], name);
    }
}

#[test]
fn resume_notification_text() {
    assert_eq!(
        wire::resume_notification_json(true),
        "{\"jsonrpc\":\"2.0\",\"method\":\"starlight.resume\",\"params\":{\"request_recheck\":true}}"
    );
    assert_eq!(
        wire::resume_notification_json(false),
        "{\"jsonrpc\":\"2.0\",\"method\":\"starlight.resume\",\"params\":{\"request_recheck\":false}}"
    );
}

#[test]
fn pre_check_reply_texts() {
    let clear = wire::pre_check_reply_json(&PreCheckResponse::Clear);
    assert_eq!(clear, "{\"jsonrpc\":\"2.0\",\"method\":\"starlight.clear\",\"params\":{}}");

    let wait = wire::pre_check_reply_json(&PreCheckResponse::Wait {
        retry_after_ms: 1500,
        reason: Some("busy".to_string()),
    });
    assert_eq!(
        wait,
        "{\"jsonrpc\":\"2.0\",\"method\":\"starlight.wait\",\"params\":{\"retryAfterMs\":1500,\"reason\":\"busy\"}}"
    );

    let wait_bare = wire::pre_check_reply_json(&PreCheckResponse::Wait {
        retry_after_ms: 50,
        reason: None,
    });
    assert_eq!(
        wait_bare,
        "{\"jsonrpc\":\"2.0\",\"method\":\"starlight.wait\",\"params\":{\"retryAfterMs\":50,\"reason\":null}}"
    );

    let hijack = wire::pre_check_reply_json(&PreCheckResponse::Hijack {
        reason: "reason X".to_string(),
    });
    assert_eq!(
        hijack,
        "{\"jsonrpc\":\"2.0\",\"method\":\"starlight.hijack\",\"params\":{\"reason\":\"reason X\"}}"
    );
}

#[test]
fn numbers_encode_in_decimal() {
    let zero = wire::pre_check_reply_json(&PreCheckResponse::Wait {
        retry_after_ms: 0,
        reason: None,
    });
    assert!(zero.contains("\"retryAfterMs\":0,"));

    let big = wire::pre_check_reply_json(&PreCheckResponse::Wait {
        retry_after_ms: u64::MAX,
        reason: None,
    });
    assert!(big.contains("\"retryAfterMs\":18446744073709551615,"));
}
