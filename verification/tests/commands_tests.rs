use oidc_cli::commands::profile::{
    create_profile_interactive, edit_intro, edited_params, is_confirmation, needs_confirmation,
    non_interactive_params, parse_method_choice, CreateAnswers, CreateStep, EditAnswers,
    EndpointAnswers,
};
use oidc_cli::commands::{
    handle_create, handle_delete, handle_edit, handle_export, handle_import, handle_list,
    handle_rename, CreateParams,
};
use oidc_cli::config::{Config, Profile};
use oidc_cli::{OidcError, ProfileManager};

fn profile(client_id: &str) -> Profile {
    Profile {
        discovery_uri: Some("https://example.com/.well-known/openid-configuration".to_string()),
        client_id: client_id.to_string(),
        client_secret: None,
        redirect_uri: "http://localhost:8080/callback".to_string(),
        scope: "openid".to_string(),
        authorization_endpoint: None,
        token_endpoint: None,
    }
}

fn static_profile() -> Profile {
    Profile {
        discovery_uri: None,
        client_id: "static".to_string(),
        client_secret: Some("secret".to_string()),
        redirect_uri: "http://localhost:8080/callback".to_string(),
        scope: "openid".to_string(),
        authorization_endpoint: Some("https://example.com/auth".to_string()),
        token_endpoint: Some("https://example.com/token".to_string()),
    }
}

fn manager(names: &[&str]) -> ProfileManager {
    let mut config = Config::new();
    for name in names {
        config.profiles.insert(name.to_string(), profile(name));
    }
    ProfileManager::new(config)
}

fn create_params(non_interactive: bool, quiet: bool) -> CreateParams {
    CreateParams {
        name: "new".to_string(),
        client_id: Some("client".to_string()),
        client_secret: None,
        redirect_uri: Some("http://localhost:8080/callback".to_string()),
        scope: Some("openid".to_string()),
        discovery_uri: Some("https://example.com/.well-known/openid-configuration".to_string()),
        auth_endpoint: None,
        token_endpoint: None,
        non_interactive,
        quiet,
    }
}

fn config_message<T: std::fmt::Debug>(result: Result<T, OidcError>) -> String {
    match result {
        Err(OidcError::Config(message)) => message,
        other => panic!("expected a configuration error, got {:?}", other),
    }
}

fn blank_answers() -> EditAnswers {
    EditAnswers {
        client_id: "\n".to_string(),
        client_secret: "\n".to_string(),
        redirect_uri: "\n".to_string(),
        scope: "\n".to_string(),
        discovery_uri: "\n".to_string(),
        authorization_endpoint: "\n".to_string(),
        token_endpoint: "\n".to_string(),
    }
}

#[test]
fn profiles_are_listed() {
    assert_eq!(handle_list(&manager(&[]), false).unwrap(), vec!["No profiles found."]);
    assert!(handle_list(&manager(&[]), true).unwrap().is_empty());
    assert_eq!(handle_list(&manager(&["a", "b"]), true).unwrap(), vec!["a", "b"]);
    assert_eq!(
        handle_list(&manager(&["a", "b"]), false).unwrap(),
        vec!["Available profiles:", "  \u{2022} a", "  \u{2022} b"]
    );
}

#[test]
fn a_complete_command_creates_without_prompts() {
    let mut manager = manager(&[]);
    match handle_create(&mut manager, create_params(true, false)).unwrap() {
        CreateStep::Created(lines) => assert_eq!(lines, vec!["Profile 'new' created successfully."]),
        other => panic!("unexpected step {:?}", other),
    }
    assert_eq!(manager.get_profile("new").unwrap().client_id, "client");
    match handle_create(&mut manager, create_params(true, true)) {
        Err(OidcError::ProfileExists(name)) => assert_eq!(name, "new"),
        other => panic!("unexpected result {:?}", other),
    }
    let mut other = create_params(true, true);
    other.name = "quiet".to_string();
    match handle_create(&mut manager, other).unwrap() {
        CreateStep::Created(lines) => assert!(lines.is_empty()),
        other => panic!("unexpected step {:?}", other),
    }
}

#[test]
fn an_incomplete_command_names_what_it_lacks() {
    let mut params = create_params(true, false);
    params.client_id = None;
    params.redirect_uri = None;
    params.scope = None;
    params.discovery_uri = None;
    assert_eq!(
        config_message(non_interactive_params(params)),
        "--client-id is required in non-interactive mode"
    );
    let mut params = create_params(true, false);
    params.redirect_uri = None;
    params.scope = None;
    assert_eq!(
        config_message(non_interactive_params(params)),
        "--redirect-uri is required in non-interactive mode"
    );
    let mut params = create_params(true, false);
    params.scope = None;
    assert_eq!(
        config_message(non_interactive_params(params)),
        "--scope is required in non-interactive mode"
    );
    let mut params = create_params(true, false);
    params.discovery_uri = None;
    params.auth_endpoint = Some("https://example.com/auth".to_string());
    let mut manager = manager(&[]);
    assert_eq!(
        config_message(handle_create(&mut manager, params)),
        "Either --discovery-uri or both --auth-endpoint and --token-endpoint are required in non-interactive mode"
    );
    assert!(!manager.has_profiles());
    let mut params = create_params(true, false);
    params.discovery_uri = None;
    params.auth_endpoint = Some("https://example.com/auth".to_string());
    params.token_endpoint = Some("https://example.com/token".to_string());
    let given = non_interactive_params(params).unwrap();
    assert_eq!(given.name, "new");
    assert_eq!(given.authorization_endpoint, Some("https://example.com/auth".to_string()));
}

#[test]
fn a_command_with_prompts_creates_nothing_yet() {
    let mut manager = manager(&[]);
    let mut params = create_params(false, false);
    params.client_id = None;
    match handle_create(&mut manager, params).unwrap() {
        CreateStep::Interactive(lines) => assert_eq!(
            lines,
            vec!["Creating new profile 'new'", "Press Ctrl+C to cancel at any time", ""]
        ),
        other => panic!("unexpected step {:?}", other),
    }
    assert!(!manager.has_profiles());
    match handle_create(&mut manager, create_params(false, true)).unwrap() {
        CreateStep::Interactive(lines) => assert!(lines.is_empty()),
        other => panic!("unexpected step {:?}", other),
    }
}

#[test]
fn the_way_of_naming_endpoints_is_chosen_by_number() {
    assert_eq!(parse_method_choice("1\n"), Some(true));
    assert_eq!(parse_method_choice(" 2 "), Some(false));
    assert_eq!(parse_method_choice("3"), None);
    assert_eq!(parse_method_choice(""), None);
    assert_eq!(parse_method_choice("12"), None);
    assert_eq!(parse_method_choice("one"), None);
}

#[test]
fn the_answers_to_the_prompts_create_a_profile() {
    let mut manager = manager(&[]);
    let answers = CreateAnswers {
        client_id: "client".to_string(),
        client_secret: Some("secret".to_string()),
        redirect_uri: "http://localhost:8080/callback".to_string(),
        scope: "openid profile email".to_string(),
        endpoints: EndpointAnswers::Manual {
            authorization_endpoint: "https://example.com/auth".to_string(),
            token_endpoint: "https://example.com/token".to_string(),
        },
    };
    let lines = create_profile_interactive(&mut manager, "asked".to_string(), answers, false).unwrap();
    assert_eq!(lines, vec!["", "\u{2713} Profile 'asked' created successfully!"]);
    let stored = manager.get_profile("asked").unwrap();
    assert_eq!(stored.discovery_uri, None);
    assert_eq!(stored.token_endpoint, Some("https://example.com/token".to_string()));
    let answers = CreateAnswers {
        client_id: "client".to_string(),
        client_secret: None,
        redirect_uri: "http://localhost:8080/callback".to_string(),
        scope: "openid".to_string(),
        endpoints: EndpointAnswers::Discovery { discovery_uri: "http://insecure/".to_string() },
    };
    assert_eq!(
        config_message(create_profile_interactive(&mut manager, "d".to_string(), answers, true)),
        "Discovery URI must use HTTPS"
    );
    let answers = CreateAnswers {
        client_id: "client".to_string(),
        client_secret: None,
        redirect_uri: "http://localhost:8080/callback".to_string(),
        scope: "openid".to_string(),
        endpoints: EndpointAnswers::Discovery {
            discovery_uri: "https://example.com/.well-known/openid-configuration".to_string(),
        },
    };
    assert!(create_profile_interactive(&mut manager, "d".to_string(), answers, true)
        .unwrap()
        .is_empty());
    assert_eq!(manager.get_profile("d").unwrap().authorization_endpoint, None);
}

#[test]
fn blank_answers_keep_the_profile() {
    let current = static_profile();
    let params = edited_params("p".to_string(), &current, &blank_answers());
    assert_eq!(params.name, "p");
    assert_eq!(params.client_id, "static");
    assert_eq!(params.client_secret, Some("secret".to_string()));
    assert_eq!(params.redirect_uri, "http://localhost:8080/callback");
    assert_eq!(params.scope, "openid");
    assert_eq!(params.discovery_uri, None);
    assert_eq!(params.authorization_endpoint, Some("https://example.com/auth".to_string()));
    assert_eq!(params.token_endpoint, Some("https://example.com/token".to_string()));
}

#[test]
fn answers_replace_values() {
    let current = static_profile();
    let mut answers = blank_answers();
    answers.client_id = " other \n".to_string();
    answers.client_secret = "none\n".to_string();
    answers.discovery_uri = "https://ignored/\n".to_string();
    answers.token_endpoint = "https://example.org/token\n".to_string();
    let params = edited_params("p".to_string(), &current, &answers);
    assert_eq!(params.client_id, "other");
    assert_eq!(params.client_secret, None);
    assert_eq!(params.discovery_uri, None);
    assert_eq!(params.authorization_endpoint, Some("https://example.com/auth".to_string()));
    assert_eq!(params.token_endpoint, Some("https://example.org/token".to_string()));

    let current = profile("c");
    let mut answers = blank_answers();
    answers.client_secret = "none\n".to_string();
    answers.authorization_endpoint = "https://ignored/\n".to_string();
    let params = edited_params("p".to_string(), &current, &answers);
    assert_eq!(params.client_secret, Some("none".to_string()));
    assert_eq!(
        params.discovery_uri,
        Some("https://example.com/.well-known/openid-configuration".to_string())
    );
    assert_eq!(params.authorization_endpoint, None);
    assert_eq!(params.token_endpoint, None);
    answers.discovery_uri = "null".to_string();
    let params = edited_params("p".to_string(), &current, &answers);
    assert_eq!(params.discovery_uri, None);
}

#[test]
fn an_edit_replaces_the_profile() {
    let mut manager = manager(&["a", "b"]);
    assert_eq!(
        edit_intro("a", false),
        vec![
            "Editing profile 'a'",
            "Press Enter to keep current value, or enter new value:",
            "",
        ]
    );
    assert!(edit_intro("a", true).is_empty());
    let mut answers = blank_answers();
    answers.scope = "openid email\n".to_string();
    let lines = handle_edit(&mut manager, "a".to_string(), answers, false).unwrap();
    assert_eq!(lines, vec!["\u{2713} Profile 'a' updated successfully!"]);
    assert_eq!(manager.get_profile("a").unwrap().scope, "openid email");
    assert_eq!(manager.get_profile("b").unwrap().scope, "openid");
    assert!(matches!(
        handle_edit(&mut manager, "zz".to_string(), blank_answers(), false),
        Err(OidcError::ProfileNotFound(n)) if n == "zz"
    ));
    let mut answers = blank_answers();
    answers.discovery_uri = "none".to_string();
    assert_eq!(
        config_message(handle_edit(&mut manager, "a".to_string(), answers, true)),
        "Either discovery URI or both authorization and token endpoints must be provided"
    );
    assert_eq!(manager.get_profile("a").unwrap().scope, "openid email");
}

#[test]
fn a_confirmation_is_y_or_yes() {
    for answer in ["y", "Y", "yes", "YES", "Yes\n", "  y  "] {
        assert!(is_confirmation(answer));
    }
    for answer in ["", "n", "no", "yess", "ye", "yes please", "1", "j"] {
        assert!(!is_confirmation(answer));
    }
    assert!(needs_confirmation(false, false));
    assert!(!needs_confirmation(true, false));
    assert!(!needs_confirmation(false, true));
    assert!(!needs_confirmation(true, true));
}

#[test]
fn a_delete_asks_unless_forced_or_quiet() {
    let mut manager = manager(&["a", "b", "c", "d"]);
    assert_eq!(
        handle_delete(&mut manager, "a".to_string(), false, false, Some("n\n")).unwrap(),
        vec!["Operation cancelled."]
    );
    assert_eq!(
        handle_delete(&mut manager, "a".to_string(), false, false, None).unwrap(),
        vec!["Operation cancelled."]
    );
    assert!(manager.get_profile("a").is_ok());
    assert_eq!(
        handle_delete(&mut manager, "a".to_string(), false, false, Some("YES\n")).unwrap(),
        vec!["\u{2713} Profile 'a' deleted successfully."]
    );
    assert!(manager.get_profile("a").is_err());
    assert_eq!(
        handle_delete(&mut manager, "b".to_string(), true, false, Some("no")).unwrap(),
        vec!["\u{2713} Profile 'b' deleted successfully."]
    );
    assert!(handle_delete(&mut manager, "c".to_string(), false, true, None)
        .unwrap()
        .is_empty());
    assert_eq!(manager.list_profiles(), vec![&"d".to_string()]);
    assert!(matches!(
        handle_delete(&mut manager, "a".to_string(), true, false, None),
        Err(OidcError::ProfileNotFound(n)) if n == "a"
    ));
}

#[test]
fn a_rename_reports_both_names() {
    let mut manager = manager(&["a", "b"]);
    assert_eq!(
        handle_rename(&mut manager, "a".to_string(), " c ".to_string(), false).unwrap(),
        vec!["\u{2713} Profile 'a' renamed to ' c ' successfully."]
    );
    assert!(manager.get_profile("c").is_ok());
    assert!(handle_rename(&mut manager, "b".to_string(), "d".to_string(), true)
        .unwrap()
        .is_empty());
    assert!(matches!(
        handle_rename(&mut manager, "b".to_string(), "e".to_string(), false),
        Err(OidcError::ProfileNotFound(n)) if n == "b"
    ));
    assert!(matches!(
        handle_rename(&mut manager, "c".to_string(), "d".to_string(), false),
        Err(OidcError::ProfileExists(n)) if n == "d"
    ));
}

#[test]
fn an_export_takes_all_or_the_named_profiles() {
    let manager = manager(&["a", "b", "c"]);
    let (config, lines) = handle_export(&manager, "\"out.json\"", Vec::new(), false).unwrap();
    assert_eq!(config.profiles.len(), 3);
    assert_eq!(lines, vec!["\u{2713} Profiles exported to \"out.json\" successfully."]);
    let (config, lines) =
        handle_export(&manager, "\"out.json\"", vec!["c".to_string(), "a".to_string()], true).unwrap();
    assert_eq!(config.list_profiles(), vec![&"c".to_string(), &"a".to_string()]);
    assert!(lines.is_empty());
    assert!(matches!(
        handle_export(&manager, "f", vec!["a".to_string(), "x".to_string()], false),
        Err(OidcError::ProfileNotFound(n)) if n == "x"
    ));
}

#[test]
fn an_import_reports_what_came_in() {
    let mut manager = manager(&["a"]);
    let mut incoming = Config::new();
    incoming.profiles.insert("b".to_string(), profile("b"));
    incoming.profiles.insert("c".to_string(), profile("c"));
    let lines = handle_import(&mut manager, "\"in.json\"", Some(incoming), false, false).unwrap();
    assert_eq!(
        lines,
        vec![
            "\u{2713} Imported 2 profile(s) from \"in.json\":",
            "  \u{2022} b",
            "  \u{2022} c",
        ]
    );
    assert_eq!(manager.list_profiles().len(), 3);
    let lines = handle_import(&mut manager, "f", Some(Config::new()), false, false).unwrap();
    assert_eq!(lines, vec!["\u{2713} Imported 0 profile(s) from f:"]);
    let mut again = Config::new();
    again.profiles.insert("b".to_string(), profile("other"));
    assert!(handle_import(&mut manager, "f", Some(again), true, true).unwrap().is_empty());
    assert_eq!(manager.get_profile("b").unwrap().client_id, "other");
}

#[test]
fn an_import_fails_without_file_or_with_a_bad_profile() {
    let mut manager = manager(&["a"]);
    match handle_import(&mut manager, "\"gone.json\"", None, false, false) {
        Err(OidcError::Profile(message)) => assert_eq!(message, "Import file not found: \"gone.json\""),
        other => panic!("unexpected result {:?}", other),
    }
    let mut incoming = Config::new();
    incoming.profiles.insert("good".to_string(), profile("g"));
    incoming.profiles.insert("bad".to_string(), profile(""));
    match handle_import(&mut manager, "f", Some(incoming), true, false) {
        Err(OidcError::Profile(message)) => assert_eq!(
            message,
            "Invalid imported profile 'bad': Missing required field: client_id"
        ),
        other => panic!("unexpected result {:?}", other),
    }
    assert_eq!(manager.list_profiles(), vec![&"a".to_string()]);
    let mut incoming = Config::new();
    incoming.profiles.insert("a".to_string(), profile("theirs"));
    match handle_import(&mut manager, "f", Some(incoming), false, false) {
        Err(OidcError::ProfileExists(message)) => assert_eq!(
            message,
            "Profile 'a' already exists. Use --overwrite to replace it."
        ),
        other => panic!("unexpected result {:?}", other),
    }
}
