use credential_gate::config::Config;
use credential_gate::credentials::{extract_credentials, header_lookup};
use credential_gate::evaluate::{contains_subseq, evaluate_exchange_body, Verdict};
use credential_gate::exchange::build_exchange_request;
use credential_gate::credentials::Credentials;
use credential_gate::gate::{deny_response, DenyReason};

fn headers(pairs: &[(&str, &str)]) -> Vec<(String, String)> {
    pairs.iter().map(|(n, v)| (n.to_string(), v.to_string())).collect()
}

#[test]
fn default_config_values() {
    let c = Config::with_defaults(
        String::from("a"),
        String::from("/p"),
        String::from("aud"),
    );
    assert_eq!(c.id_header, "client_id");
    assert_eq!(c.secret_header, "client_secret");
    assert_eq!(c.timeout_seconds, 10);
    assert_eq!(c.idp_authority, "a");
    assert_eq!(c.idp_path, "/p");
    assert_eq!(c.idp_audience, "aud");
}

#[test]
fn header_lookup_finds_first_match() {
    let hs = headers(&[("a", "1"), ("b", "2"), ("a", "3")]);
    assert_eq!(header_lookup(&hs, &String::from("a")), Some(String::from("1")));
    assert_eq!(header_lookup(&hs, &String::from("b")), Some(String::from("2")));
    assert_eq!(header_lookup(&hs, &String::from("c")), None);
    assert_eq!(header_lookup(&Vec::new(), &String::from("a")), None);
}

#[test]
fn extraction_requires_both_headers() {
    let config = Config::with_defaults(
        String::from("a"),
        String::from("/p"),
        String::from("aud"),
    );
    let both = headers(&[("client_id", "i"), ("client_secret", "s")]);
    let creds = extract_credentials(&both, &config).expect("both headers present");
    assert_eq!(creds.client_id, "i");
    assert_eq!(creds.client_secret, "s");

    let only_id = headers(&[("client_id", "i")]);
    assert!(extract_credentials(&only_id, &config).is_none());
    let only_secret = headers(&[("client_secret", "s")]);
    assert!(extract_credentials(&only_secret, &config).is_none());
    assert!(extract_credentials(&Vec::new(), &config).is_none());
}

#[test]
fn exchange_body_formula() {
    let config = Config::with_defaults(
        String::from("idp"),
        String::from("/oauth/token"),
        String::from("https://aud/"),
    );
    let creds = Credentials {
        client_id: String::from("id&x"),
        client_secret: String::from(""),
    };
    let req = build_exchange_request(&config, &creds);
    // Values are taken verbatim: no escaping is applied.
    assert_eq!(
        req.body,
        "grant_type=client_credentials&audience=https://aud/&client_id=id&x&client_secret="
    );
    assert!(req.body.contains("client_id=id&x&client_secret="));
}

#[test]
fn contains_subseq_cases() {
    assert!(contains_subseq("access_token", "access_token"));
    assert!(contains_subseq("{\"access_token\":\"abc\"}", "access_token"));
    assert!(contains_subseq("xaccess_token", "access_token"));
    assert!(contains_subseq("access_tokenx", "access_token"));
    assert!(!contains_subseq("access_toke", "access_token"));
    assert!(!contains_subseq("", "access_token"));
    assert!(!contains_subseq("ACCESS_TOKEN", "access_token"));
    assert!(contains_subseq("anything", ""));
    assert!(!contains_subseq("acces_token accesstoken", "access_token"));
}

#[test]
fn evaluator_verdicts() {
    assert!(matches!(
        evaluate_exchange_body("{\"access_token\":\"abc\"}"),
        Verdict::Authorized
    ));
    // The check is a coarse substring match: structure plays no part.
    assert!(matches!(evaluate_exchange_body("access_token"), Verdict::Authorized));
    assert!(matches!(
        evaluate_exchange_body("{}"),
        Verdict::Denied { reason: DenyReason::InvalidCredentials }
    ));
    assert!(matches!(
        evaluate_exchange_body(""),
        Verdict::Denied { reason: DenyReason::InvalidCredentials }
    ));
    assert!(matches!(
        evaluate_exchange_body("{\"error\":\"access denied\"}"),
        Verdict::Denied { reason: DenyReason::InvalidCredentials }
    ));
}

#[test]
fn deny_response_shape() {
    let r = deny_response("Access Denied\n");
    assert_eq!(r.status, 403);
    assert_eq!(r.body, "Access Denied\n");
    assert_eq!(
        r.headers,
        vec![("Powered-By".to_string(), "proxy-wasm".to_string())]
    );
}
