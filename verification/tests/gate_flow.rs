use credential_gate::config::Config;
use credential_gate::gate::{DenyReason, Gate, GateAction, GateState};

fn test_config() -> Config {
    Config::with_defaults(
        String::from("idp.example.com"),
        String::from("/oauth/token"),
        String::from("https://idp.example.com/api/"),
    )
}

fn headers(pairs: &[(&str, &str)]) -> Vec<(String, String)> {
    pairs.iter().map(|(n, v)| (n.to_string(), v.to_string())).collect()
}

#[test]
fn happy_path_resumes_request() {
    let mut gate = Gate::new(test_config(), 1);
    let hs = headers(&[("client_id", "cid1"), ("client_secret", "s1")]);

    let action = gate.on_request_headers(&hs);
    let request = match action {
        GateAction::Dispatch { request } => request,
        _ => panic!("expected a dispatch"),
    };
    assert!(request.body.contains("client_id=cid1&client_secret=s1"));
    assert_eq!(
        request.body,
        "grant_type=client_credentials&audience=https://idp.example.com/api/\
         &client_id=cid1&client_secret=s1"
    );
    assert_eq!(request.method, "POST");
    assert_eq!(request.path, "/oauth/token");
    assert_eq!(request.authority, "idp.example.com");
    assert_eq!(request.timeout_seconds, 10);
    assert_eq!(
        request.headers,
        vec![
            (":method".to_string(), "POST".to_string()),
            (":path".to_string(), "/oauth/token".to_string()),
            (":authority".to_string(), "idp.example.com".to_string()),
            (
                "content-type".to_string(),
                "application/x-www-form-urlencoded".to_string()
            ),
        ]
    );

    assert!(matches!(gate.on_dispatch_result(true, 7), GateAction::Pause));

    let action = gate.on_exchange_callback(7, Some(String::from("{\"access_token\":\"xyz\"}")));
    assert!(matches!(action, GateAction::Resume));
    assert!(matches!(gate.state, GateState::Authorized));
}

#[test]
fn empty_object_body_is_denied() {
    let mut gate = Gate::new(test_config(), 2);
    let hs = headers(&[("client_id", "cid1"), ("client_secret", "s1")]);
    assert!(matches!(gate.on_request_headers(&hs), GateAction::Dispatch { .. }));
    assert!(matches!(gate.on_dispatch_result(true, 3), GateAction::Pause));

    let action = gate.on_exchange_callback(3, Some(String::from("{}")));
    let response = match action {
        GateAction::Deny { response } => response,
        _ => panic!("expected a deny"),
    };
    assert_eq!(response.status, 403);
    assert_eq!(response.body, "Access Denied\n");
    assert!(matches!(
        gate.state,
        GateState::Denied { reason: DenyReason::InvalidCredentials }
    ));
}

#[test]
fn missing_secret_is_denied_without_dispatch() {
    let mut gate = Gate::new(test_config(), 3);
    let hs = headers(&[("client_id", "cid1")]);

    let action = gate.on_request_headers(&hs);
    let response = match action {
        GateAction::Deny { response } => response,
        GateAction::Dispatch { .. } => panic!("nothing may be dispatched"),
        _ => panic!("expected a deny"),
    };
    assert_eq!(response.status, 403);
    assert_eq!(response.body, "API invocation failure\n");
    assert_eq!(
        response.headers,
        vec![("Powered-By".to_string(), "proxy-wasm".to_string())]
    );
    assert!(matches!(
        gate.state,
        GateState::Denied { reason: DenyReason::MissingCredentials }
    ));

    // A later callback is ignored: the context is terminal.
    let late = gate.on_exchange_callback(9, Some(String::from("{\"access_token\":\"x\"}")));
    assert!(matches!(late, GateAction::Ignore));
}

#[test]
fn missing_id_is_denied_without_dispatch() {
    let mut gate = Gate::new(test_config(), 4);
    let hs = headers(&[("client_secret", "s1")]);
    let action = gate.on_request_headers(&hs);
    match action {
        GateAction::Deny { response } => assert_eq!(response.body, "API invocation failure\n"),
        _ => panic!("expected a deny"),
    }
}

#[test]
fn dispatch_failure_is_denied_immediately() {
    let mut gate = Gate::new(test_config(), 5);
    let hs = headers(&[("client_id", "cid1"), ("client_secret", "s1")]);
    assert!(matches!(gate.on_request_headers(&hs), GateAction::Dispatch { .. }));

    let action = gate.on_dispatch_result(false, 0);
    let response = match action {
        GateAction::Deny { response } => response,
        _ => panic!("expected a deny"),
    };
    assert_eq!(response.status, 403);
    assert_eq!(response.body, "API invocation failure\n");
    assert!(matches!(
        gate.state,
        GateState::Denied { reason: DenyReason::DispatchFailure }
    ));
}

#[test]
fn missing_response_is_denied_as_timeout() {
    let mut gate = Gate::new(test_config(), 6);
    let hs = headers(&[("client_id", "cid1"), ("client_secret", "s1")]);
    gate.on_request_headers(&hs);
    gate.on_dispatch_result(true, 11);

    let action = gate.on_exchange_callback(11, None);
    match action {
        GateAction::Deny { response } => assert_eq!(response.body, "Access Denied\n"),
        _ => panic!("expected a deny"),
    }
    assert!(matches!(
        gate.state,
        GateState::Denied { reason: DenyReason::Timeout }
    ));
}

#[test]
fn callback_for_another_handle_is_ignored() {
    let mut gate = Gate::new(test_config(), 7);
    let hs = headers(&[("client_id", "cid1"), ("client_secret", "s1")]);
    gate.on_request_headers(&hs);
    gate.on_dispatch_result(true, 21);

    // A callback bound to a different call handle must not affect this context.
    let stray = gate.on_exchange_callback(22, Some(String::from("{\"access_token\":\"x\"}")));
    assert!(matches!(stray, GateAction::Ignore));
    assert!(matches!(gate.state, GateState::TokenInFlight { call_handle: 21 }));

    // The context still resolves through its own handle.
    let own = gate.on_exchange_callback(21, Some(String::from("{\"access_token\":\"x\"}")));
    assert!(matches!(own, GateAction::Resume));
}

#[test]
fn duplicate_callback_after_resume_is_ignored() {
    let mut gate = Gate::new(test_config(), 8);
    let hs = headers(&[("client_id", "cid1"), ("client_secret", "s1")]);
    gate.on_request_headers(&hs);
    gate.on_dispatch_result(true, 5);
    assert!(matches!(
        gate.on_exchange_callback(5, Some(String::from("{\"access_token\":\"a\"}"))),
        GateAction::Resume
    ));

    // Exactly-once completion: the duplicate must produce neither a resume
    // nor a deny.
    let dup = gate.on_exchange_callback(5, Some(String::from("{}")));
    assert!(matches!(dup, GateAction::Ignore));
    assert!(matches!(gate.state, GateState::Authorized));
}

#[test]
fn two_contexts_resolve_independently() {
    let hs_a = headers(&[("client_id", "a"), ("client_secret", "sa")]);
    let hs_b = headers(&[("client_id", "b"), ("client_secret", "sb")]);
    let mut gate_a = Gate::new(test_config(), 10);
    let mut gate_b = Gate::new(test_config(), 11);
    gate_a.on_request_headers(&hs_a);
    gate_b.on_request_headers(&hs_b);
    gate_a.on_dispatch_result(true, 100);
    gate_b.on_dispatch_result(true, 200);

    // The callback bound to context A's handle affects only context A.
    assert!(matches!(
        gate_b.on_exchange_callback(100, Some(String::from("{\"access_token\":\"t\"}"))),
        GateAction::Ignore
    ));
    assert!(matches!(
        gate_a.on_exchange_callback(100, Some(String::from("{\"access_token\":\"t\"}"))),
        GateAction::Resume
    ));
    assert!(matches!(
        gate_b.on_exchange_callback(200, Some(String::from("{}"))),
        GateAction::Deny { .. }
    ));
    assert!(matches!(gate_a.state, GateState::Authorized));
    assert!(matches!(
        gate_b.state,
        GateState::Denied { reason: DenyReason::InvalidCredentials }
    ));
}

#[test]
fn custom_header_names_are_honoured() {
    let config = Config::new(
        String::from("idp.example.com"),
        String::from("/token"),
        String::from("aud"),
        30,
        String::from("x-id"),
        String::from("x-secret"),
    );
    let mut gate = Gate::new(config, 12);
    let hs = headers(&[
        ("client_id", "wrong"),
        ("x-id", "me"),
        ("x-secret", "shh"),
    ]);
    let action = gate.on_request_headers(&hs);
    let request = match action {
        GateAction::Dispatch { request } => request,
        _ => panic!("expected a dispatch"),
    };
    assert_eq!(
        request.body,
        "grant_type=client_credentials&audience=aud&client_id=me&client_secret=shh"
    );
    assert_eq!(request.timeout_seconds, 30);
}
