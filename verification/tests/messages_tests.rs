//! The message model: envelope constructors and parameter builders.

use starlight::messages::JsonRpcNotification;
use starlight::messages::JsonRpcRequest;
use starlight::messages::RegistrationParams;
use starlight::messages::ResumeParams;

#[test]
fn request_envelope_carries_version_method_and_id() {
    let request = JsonRpcRequest::new("starlight.registration", 42u32, "id-1");
    assert_eq!(request.jsonrpc, "2.0");
    assert_eq!(request.method, "starlight.registration");
    assert_eq!(request.params, 42);
    assert_eq!(request.id, "id-1");
}

#[test]
fn notification_envelope_has_no_id() {
    let notification = JsonRpcNotification::new("starlight.entropy", "payload".to_string());
    assert_eq!(notification.jsonrpc, "2.0");
    assert_eq!(notification.method, "starlight.entropy");
    assert_eq!(notification.params, "payload");
}

#[test]
fn registration_params_builders() {
    let params = RegistrationParams::new("Layer", 4)
        .with_capabilities(vec!["a".to_string()])
        .with_selectors(vec![".s".to_string()])
        .with_auth_token("tok");
    assert_eq!(params.layer, "Layer");
    assert_eq!(params.priority, 4);
    assert_eq!(params.capabilities, vec!["a"]);
    assert_eq!(params.selectors, vec![".s"]);
    assert_eq!(params.auth_token.as_deref(), Some("tok"));

    let bare = RegistrationParams::new("Layer", 4);
    assert_eq!(bare.auth_token, None);
    assert!(bare.capabilities.is_empty());
}

#[test]
fn resume_params_default_requests_recheck() {
    assert!(ResumeParams::default().request_recheck);
}
