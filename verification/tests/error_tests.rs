use oidc_cli::OidcError;

#[test]
fn messages_of_the_errors() {
    let cases = vec![
        (OidcError::Network("down".to_string()), "Network error: down"),
        (OidcError::Json("eof".to_string()), "JSON error: eof"),
        (OidcError::Io("denied".to_string()), "IO error: denied"),
        (OidcError::Config("c".to_string()), "Configuration error: c"),
        (OidcError::Auth("a".to_string()), "Authentication error: a"),
        (OidcError::Profile("p".to_string()), "Profile error: p"),
        (OidcError::Server("s".to_string()), "Server error: s"),
        (OidcError::StateMismatch, "State parameter mismatch"),
        (OidcError::InvalidRedirectUri("u".to_string()), "Invalid redirect URI: u"),
        (OidcError::MissingField("f".to_string()), "Missing required field: f"),
        (OidcError::InvalidTokenResponse, "Invalid token response"),
        (OidcError::ProfileNotFound("n".to_string()), "Profile not found: n"),
        (OidcError::ProfileExists("n".to_string()), "Profile already exists: n"),
        (OidcError::Discovery("d".to_string()), "Discovery failed: d"),
        (OidcError::BrowserFailed, "Browser opening failed"),
        (
            OidcError::AuthTimeout,
            "Authentication error: Authentication timeout (5 minutes)",
        ),
        (OidcError::Cancelled, "Operation cancelled by user"),
        (OidcError::Config(String::new()), "Configuration error: "),
    ];
    for (error, expected) in cases {
        assert_eq!(error.message(), expected);
    }
}

#[test]
fn only_cancellation_is_a_clean_exit() {
    assert!(OidcError::Cancelled.is_cancelled());
    assert!(!OidcError::AuthTimeout.is_cancelled());
    assert!(!OidcError::StateMismatch.is_cancelled());
    assert!(!OidcError::Auth("Operation cancelled by user".to_string()).is_cancelled());
}
