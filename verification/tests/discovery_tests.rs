use oidc_cli::auth::discovery::{
    contains_text, discover_endpoints, discovery_request, status_is_success,
    validate_discovery_document, DiscoveryDocument, DiscoveryResponse,
};
use oidc_cli::OidcError;

fn document() -> DiscoveryDocument {
    DiscoveryDocument {
        authorization_endpoint: "https://example.com/auth".to_string(),
        token_endpoint: "https://example.com/token".to_string(),
        userinfo_endpoint: None,
        jwks_uri: None,
        issuer: "https://example.com".to_string(),
        response_types_supported: Some(vec!["code".to_string()]),
        subject_types_supported: None,
        id_token_signing_alg_values_supported: None,
        scopes_supported: None,
        token_endpoint_auth_methods_supported: None,
        code_challenge_methods_supported: Some(vec!["S256".to_string()]),
    }
}

fn discovery_message(result: Result<(), OidcError>) -> String {
    match result {
        Err(OidcError::Discovery(message)) => message,
        other => panic!("expected a discovery error, got {:?}", other),
    }
}

#[test]
fn test_discovery_document_validation() {
    let doc = DiscoveryDocument {
        authorization_endpoint: "https://example.com/auth".to_string(),
        token_endpoint: "https://example.com/token".to_string(),
        userinfo_endpoint: None,
        jwks_uri: None,
        issuer: "https://example.com".to_string(),
        response_types_supported: Some(vec!["code".to_string()]),
        subject_types_supported: None,
        id_token_signing_alg_values_supported: None,
        scopes_supported: None,
        token_endpoint_auth_methods_supported: None,
        code_challenge_methods_supported: Some(vec!["S256".to_string()]),
    };

    assert!(validate_discovery_document(&doc).is_ok());
    assert!(doc.supports_pkce());
    assert!(doc.supports_authorization_code());
}

#[test]
fn test_discovery_document_missing_endpoints() {
    let doc = DiscoveryDocument {
        authorization_endpoint: "".to_string(),
        token_endpoint: "https://example.com/token".to_string(),
        userinfo_endpoint: None,
        jwks_uri: None,
        issuer: "https://example.com".to_string(),
        response_types_supported: None,
        subject_types_supported: None,
        id_token_signing_alg_values_supported: None,
        scopes_supported: None,
        token_endpoint_auth_methods_supported: None,
        code_challenge_methods_supported: None,
    };

    assert!(validate_discovery_document(&doc).is_err());
}

#[test]
fn each_missing_field_is_named() {
    let mut doc = document();
    doc.authorization_endpoint = String::new();
    doc.token_endpoint = String::new();
    doc.issuer = String::new();
    doc.response_types_supported = Some(vec!["token".to_string()]);
    assert_eq!(
        discovery_message(validate_discovery_document(&doc)),
        "Missing authorization_endpoint in discovery document"
    );
    doc.authorization_endpoint = "not a url".to_string();
    assert_eq!(
        discovery_message(validate_discovery_document(&doc)),
        "Missing token_endpoint in discovery document"
    );
    doc.token_endpoint = "neither".to_string();
    assert_eq!(
        discovery_message(validate_discovery_document(&doc)),
        "Missing issuer in discovery document"
    );
    doc.issuer = "anything".to_string();
    assert_eq!(
        discovery_message(validate_discovery_document(&doc)),
        "Invalid authorization_endpoint URL"
    );
    doc.authorization_endpoint = "https://example.com/auth".to_string();
    assert_eq!(
        discovery_message(validate_discovery_document(&doc)),
        "Invalid token_endpoint URL"
    );
    doc.token_endpoint = "https://example.com/token".to_string();
    assert_eq!(
        discovery_message(validate_discovery_document(&doc)),
        "Authorization code flow not supported"
    );
    doc.response_types_supported = Some(vec!["token".to_string(), "code".to_string()]);
    assert!(validate_discovery_document(&doc).is_ok());
}

#[test]
fn response_types_without_code_are_rejected() {
    let mut doc = document();
    doc.response_types_supported = Some(Vec::new());
    assert!(!doc.supports_authorization_code());
    assert!(validate_discovery_document(&doc).is_err());
    doc.response_types_supported = Some(vec!["code id_token".to_string(), "Code".to_string()]);
    assert!(!doc.supports_authorization_code());
    doc.response_types_supported = None;
    assert!(doc.supports_authorization_code());
    assert!(validate_discovery_document(&doc).is_ok());
}

#[test]
fn pkce_needs_s256_in_the_list() {
    let mut doc = document();
    assert!(doc.supports_pkce());
    doc.code_challenge_methods_supported = Some(vec!["plain".to_string()]);
    assert!(!doc.supports_pkce());
    doc.code_challenge_methods_supported = Some(vec!["plain".to_string(), "S256".to_string()]);
    assert!(doc.supports_pkce());
    doc.code_challenge_methods_supported = Some(vec!["s256".to_string()]);
    assert!(!doc.supports_pkce());
    doc.code_challenge_methods_supported = None;
    assert!(!doc.supports_pkce());
    assert!(validate_discovery_document(&doc).is_ok());
}

#[test]
fn a_list_holds_a_text() {
    let list = vec!["a".to_string(), "bc".to_string(), "".to_string()];
    assert!(contains_text(&list, "a"));
    assert!(contains_text(&list, "bc"));
    assert!(contains_text(&list, ""));
    assert!(!contains_text(&list, "b"));
    assert!(!contains_text(&Vec::new(), ""));
}

#[test]
fn the_request_for_a_document() {
    let request = discovery_request("https://example.com/.well-known/openid-configuration").unwrap();
    assert_eq!(request.url, "https://example.com/.well-known/openid-configuration");
    assert_eq!(request.accept, "application/json");
    assert_eq!(request.timeout_seconds, 30);
    match discovery_request("nonsense") {
        Err(OidcError::Discovery(message)) => assert_eq!(message, "Invalid discovery URI: nonsense"),
        other => panic!("unexpected result {:?}", other),
    }
}

#[test]
fn success_is_200_to_299() {
    assert!(!status_is_success(0));
    assert!(!status_is_success(199));
    assert!(status_is_success(200));
    assert!(status_is_success(204));
    assert!(status_is_success(299));
    assert!(!status_is_success(300));
    assert!(!status_is_success(404));
    assert!(!status_is_success(65535));
}

#[test]
fn a_reply_without_success_fails_with_its_status() {
    let response = DiscoveryResponse {
        status: 404,
        status_text: "404 Not Found".to_string(),
        document: Ok(document()),
    };
    match discover_endpoints(response) {
        Err(OidcError::Discovery(message)) => assert_eq!(
            message,
            "Discovery request failed with status: 404 Not Found"
        ),
        other => panic!("unexpected result {:?}", other),
    }
}

#[test]
fn a_body_that_did_not_parse_fails() {
    let response = DiscoveryResponse {
        status: 200,
        status_text: "200 OK".to_string(),
        document: Err("expected value at line 1 column 1".to_string()),
    };
    match discover_endpoints(response) {
        Err(OidcError::Discovery(message)) => assert_eq!(
            message,
            "Failed to parse discovery document: expected value at line 1 column 1"
        ),
        other => panic!("unexpected result {:?}", other),
    }
}

#[test]
fn a_good_reply_gives_its_document() {
    let response = DiscoveryResponse {
        status: 200,
        status_text: "200 OK".to_string(),
        document: Ok(document()),
    };
    let doc = discover_endpoints(response).unwrap();
    assert_eq!(doc.authorization_endpoint, "https://example.com/auth");
    assert_eq!(doc.token_endpoint, "https://example.com/token");
    let mut faulty = document();
    faulty.issuer = String::new();
    let response = DiscoveryResponse {
        status: 200,
        status_text: "200 OK".to_string(),
        document: Ok(faulty),
    };
    assert!(matches!(
        discover_endpoints(response),
        Err(OidcError::Discovery(m)) if m == "Missing issuer in discovery document"
    ));
}

#[test]
fn an_endpoint_of_another_scheme_is_rejected() {
    let doc = DiscoveryDocument {
        authorization_endpoint: "ftp://example.com/auth".to_string(),
        token_endpoint: "https://example.com/token".to_string(),
        userinfo_endpoint: None,
        jwks_uri: None,
        issuer: "https://example.com".to_string(),
        response_types_supported: None,
        subject_types_supported: None,
        id_token_signing_alg_values_supported: None,
        scopes_supported: None,
        token_endpoint_auth_methods_supported: None,
        code_challenge_methods_supported: None,
    };
    assert_eq!(
        discovery_message(validate_discovery_document(&doc)),
        "Invalid authorization_endpoint URL"
    );
    let mut doc = document();
    doc.token_endpoint = "ftp://example.com/token".to_string();
    assert_eq!(
        discovery_message(validate_discovery_document(&doc)),
        "Invalid token_endpoint URL"
    );
    doc.token_endpoint = "urn:example:token".to_string();
    assert_eq!(
        discovery_message(validate_discovery_document(&doc)),
        "Invalid token_endpoint URL"
    );
    doc.token_endpoint = "wss://example.com/token".to_string();
    assert!(validate_discovery_document(&doc).is_err());
}

#[test]
fn endpoints_may_use_http_or_https() {
    let mut doc = document();
    doc.authorization_endpoint = "http://example.com/auth".to_string();
    doc.token_endpoint = "HTTP://example.com/token".to_string();
    assert!(validate_discovery_document(&doc).is_ok());
    doc.authorization_endpoint = "Https://example.com/auth".to_string();
    assert!(validate_discovery_document(&doc).is_ok());
    let response = DiscoveryResponse {
        status: 200,
        status_text: "200 OK".to_string(),
        document: Ok(doc),
    };
    assert!(discover_endpoints(response).is_ok());
}
