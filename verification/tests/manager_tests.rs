use oidc_cli::config::{Config, Profile};
use oidc_cli::profile::storage::ProfileStorage;
use oidc_cli::profile::{ProfileManager, ProfileParams};
use oidc_cli::OidcError;

fn create_test_profile_manager() -> ProfileManager {
    ProfileManager::new(Config::new())
}

fn params(name: &str, client_id: &str) -> ProfileParams {
    ProfileParams {
        name: name.to_string(),
        client_id: client_id.to_string(),
        client_secret: None,
        redirect_uri: "http://localhost:8080/callback".to_string(),
        scope: "openid".to_string(),
        discovery_uri: Some("https://example.com/.well-known/openid-configuration".to_string()),
        authorization_endpoint: None,
        token_endpoint: None,
    }
}

fn profile(client_id: &str) -> Profile {
    Profile {
        discovery_uri: Some("https://example.com/.well-known/openid-configuration".to_string()),
        client_id: client_id.to_string(),
        client_secret: None,
        redirect_uri: "http://localhost:8080/callback".to_string(),
        scope: "openid".to_string(),
        authorization_endpoint: None,
        token_endpoint: None,
    }
}

#[test]
fn test_create_profile() {
    let mut manager = create_test_profile_manager();

    let result = manager.create_profile(ProfileParams {
        name: "test".to_string(),
        client_id: "test-client".to_string(),
        client_secret: Some("test-secret".to_string()),
        redirect_uri: "http://localhost:8080/callback".to_string(),
        scope: "openid profile email".to_string(),
        discovery_uri: Some("https://example.com/.well-known/openid-configuration".to_string()),
        authorization_endpoint: None,
        token_endpoint: None,
    });

    assert!(result.is_ok());
    assert!(manager.get_profile("test").is_ok());
}

#[test]
fn test_create_duplicate_profile() {
    let mut manager = create_test_profile_manager();

    manager.create_profile(ProfileParams {
        name: "test".to_string(),
        client_id: "test-client".to_string(),
        client_secret: None,
        redirect_uri: "http://localhost:8080/callback".to_string(),
        scope: "openid".to_string(),
        discovery_uri: Some("https://example.com/.well-known/openid-configuration".to_string()),
        authorization_endpoint: None,
        token_endpoint: None,
    }).unwrap();

    let result = manager.create_profile(ProfileParams {
        name: "test".to_string(),
        client_id: "test-client-2".to_string(),
        client_secret: None,
        redirect_uri: "http://localhost:8080/callback".to_string(),
        scope: "openid".to_string(),
        discovery_uri: Some("https://example.com/.well-known/openid-configuration".to_string()),
        authorization_endpoint: None,
        token_endpoint: None,
    });

    assert!(result.is_err());
}

#[test]
fn test_delete_profile() {
    let mut manager = create_test_profile_manager();

    manager.create_profile(ProfileParams {
        name: "test".to_string(),
        client_id: "test-client".to_string(),
        client_secret: None,
        redirect_uri: "http://localhost:8080/callback".to_string(),
        scope: "openid".to_string(),
        discovery_uri: Some("https://example.com/.well-known/openid-configuration".to_string()),
        authorization_endpoint: None,
        token_endpoint: None,
    }).unwrap();

    assert!(manager.delete_profile("test").is_ok());
    assert!(manager.get_profile("test").is_err());
}

#[test]
fn test_rename_profile() {
    let mut manager = create_test_profile_manager();

    manager.create_profile(ProfileParams {
        name: "test".to_string(),
        client_id: "test-client".to_string(),
        client_secret: None,
        redirect_uri: "http://localhost:8080/callback".to_string(),
        scope: "openid".to_string(),
        discovery_uri: Some("https://example.com/.well-known/openid-configuration".to_string()),
        authorization_endpoint: None,
        token_endpoint: None,
    }).unwrap();

    assert!(manager.rename_profile("test", "new-test".to_string()).is_ok());
    assert!(manager.get_profile("test").is_err());
    assert!(manager.get_profile("new-test").is_ok());
}

#[test]
fn created_profiles_are_sanitized() {
    let mut manager = create_test_profile_manager();
    manager
        .create_profile(ProfileParams {
            name: "  padded  ".to_string(),
            client_id: " client ".to_string(),
            client_secret: Some(" secret\n".to_string()),
            redirect_uri: "\thttp://localhost:8080/callback ".to_string(),
            scope: " openid profile ".to_string(),
            discovery_uri: None,
            authorization_endpoint: Some(" https://example.com/auth ".to_string()),
            token_endpoint: Some(" https://example.com/token ".to_string()),
        })
        .unwrap();
    let stored = manager.get_profile("padded").unwrap();
    assert_eq!(stored.client_id, "client");
    assert_eq!(stored.client_secret, Some("secret".to_string()));
    assert_eq!(stored.redirect_uri, "http://localhost:8080/callback");
    assert_eq!(stored.scope, "openid profile");
    assert_eq!(stored.discovery_uri, None);
    assert_eq!(stored.authorization_endpoint, Some("https://example.com/auth".to_string()));
    assert_eq!(stored.token_endpoint, Some("https://example.com/token".to_string()));
    assert!(manager.get_profile("  padded  ").is_err());
}

#[test]
fn creation_faults_in_order() {
    let mut manager = create_test_profile_manager();
    assert!(matches!(
        manager.create_profile(params("   ", "")),
        Err(OidcError::Config(m)) if m == "Profile name cannot be empty"
    ));
    assert!(matches!(
        manager.create_profile(params("n", "  ")),
        Err(OidcError::Config(m)) if m == "Client ID cannot be empty"
    ));
    let mut http_discovery = params("n", "c");
    http_discovery.discovery_uri = Some("http://example.com/".to_string());
    assert!(matches!(
        manager.create_profile(http_discovery),
        Err(OidcError::Config(m)) if m == "Discovery URI must use HTTPS"
    ));
    manager.create_profile(params("n", "c")).unwrap();
    assert!(matches!(
        manager.create_profile(params(" n ", "other")),
        Err(OidcError::ProfileExists(n)) if n == "n"
    ));
    assert_eq!(manager.list_profiles().len(), 1);
    assert_eq!(manager.get_profile("n").unwrap().client_id, "c");
}

#[test]
fn update_replaces_an_existing_profile() {
    let mut manager = create_test_profile_manager();
    manager.create_profile(params("a", "one")).unwrap();
    manager.create_profile(params("b", "two")).unwrap();
    manager.update_profile(params(" a ", " three ")).unwrap();
    assert_eq!(manager.get_profile("a").unwrap().client_id, "three");
    assert_eq!(manager.get_profile("b").unwrap().client_id, "two");
    assert_eq!(manager.list_profiles(), vec![&"a".to_string(), &"b".to_string()]);
    assert!(matches!(
        manager.update_profile(params("missing", "x")),
        Err(OidcError::ProfileNotFound(n)) if n == "missing"
    ));
    let mut bad = params("a", "x");
    bad.scope = "bad scope!".to_string();
    assert!(matches!(manager.update_profile(bad), Err(OidcError::Config(_))));
    assert_eq!(manager.get_profile("a").unwrap().client_id, "three");
}

#[test]
fn delete_reports_a_missing_profile() {
    let mut manager = create_test_profile_manager();
    assert!(matches!(
        manager.delete_profile("nobody"),
        Err(OidcError::ProfileNotFound(n)) if n == "nobody"
    ));
}

#[test]
fn rename_faults() {
    let mut manager = create_test_profile_manager();
    manager.create_profile(params("a", "one")).unwrap();
    manager.create_profile(params("b", "two")).unwrap();
    assert!(matches!(
        manager.rename_profile("a", "  ".to_string()),
        Err(OidcError::Config(m)) if m == "New profile name cannot be empty"
    ));
    assert!(matches!(
        manager.rename_profile("a", " b ".to_string()),
        Err(OidcError::ProfileExists(n)) if n == "b"
    ));
    assert!(matches!(
        manager.rename_profile("x", "y".to_string()),
        Err(OidcError::ProfileNotFound(n)) if n == "x"
    ));
    manager.rename_profile("a", " c ".to_string()).unwrap();
    assert_eq!(manager.list_profiles(), vec![&"b".to_string(), &"c".to_string()]);
    assert_eq!(manager.get_profile("c").unwrap().client_id, "one");
}

#[test]
fn has_profiles_and_the_single_profile() {
    let mut manager = create_test_profile_manager();
    assert!(!manager.has_profiles());
    assert!(manager.get_single_profile().is_none());
    manager.create_profile(params("only", "one")).unwrap();
    assert!(manager.has_profiles());
    let (name, single) = manager.get_single_profile().unwrap();
    assert_eq!(name, "only");
    assert_eq!(single.client_id, "one");
    manager.create_profile(params("second", "two")).unwrap();
    assert!(manager.get_single_profile().is_none());
}

#[test]
fn export_all_or_some() {
    let mut manager = create_test_profile_manager();
    manager.create_profile(params("a", "one")).unwrap();
    manager.create_profile(params("b", "two")).unwrap();
    manager.create_profile(params("c", "three")).unwrap();
    let all = manager.export_profiles(None).unwrap();
    assert_eq!(all.list_profiles(), manager.list_profiles());
    let some = manager
        .export_profiles(Some(vec!["c".to_string(), "a".to_string(), "c".to_string()]))
        .unwrap();
    assert_eq!(some.list_profiles(), vec![&"c".to_string(), &"a".to_string()]);
    assert_eq!(some.get_profile("c").unwrap().client_id, "three");
    let none = manager.export_profiles(Some(Vec::new())).unwrap();
    assert!(none.profiles.is_empty());
    assert!(matches!(
        manager.export_profiles(Some(vec!["a".to_string(), "x".to_string(), "y".to_string()])),
        Err(OidcError::ProfileNotFound(n)) if n == "x"
    ));
}

#[test]
fn import_adds_new_profiles() {
    let mut manager = create_test_profile_manager();
    manager.create_profile(params("a", "one")).unwrap();
    let mut incoming = Config::new();
    incoming.profiles.insert("b".to_string(), profile("two"));
    incoming.profiles.insert("c".to_string(), profile("three"));
    let names = manager.import_profiles(incoming, false).unwrap();
    assert_eq!(names, vec!["b".to_string(), "c".to_string()]);
    assert_eq!(
        manager.list_profiles(),
        vec![&"a".to_string(), &"b".to_string(), &"c".to_string()]
    );
}

#[test]
fn import_stops_at_a_taken_name() {
    let mut manager = create_test_profile_manager();
    manager.create_profile(params("b", "mine")).unwrap();
    let mut incoming = Config::new();
    incoming.profiles.insert("a".to_string(), profile("one"));
    incoming.profiles.insert("b".to_string(), profile("two"));
    incoming.profiles.insert("c".to_string(), profile("three"));
    match manager.import_profiles(incoming, false) {
        Err(OidcError::ProfileExists(message)) => assert_eq!(
            message,
            "Profile 'b' already exists. Use --overwrite to replace it."
        ),
        other => panic!("unexpected result {:?}", other),
    }
    assert_eq!(manager.list_profiles(), vec![&"b".to_string(), &"a".to_string()]);
    assert_eq!(manager.get_profile("b").unwrap().client_id, "mine");
}

#[test]
fn import_without_overwrite_checks_each_profile() {
    let mut manager = create_test_profile_manager();
    let mut incoming = Config::new();
    incoming.profiles.insert("good".to_string(), profile("one"));
    incoming.profiles.insert("bad".to_string(), profile(""));
    assert!(matches!(
        manager.import_profiles(incoming, false),
        Err(OidcError::MissingField(f)) if f == "client_id"
    ));
    assert_eq!(manager.list_profiles(), vec![&"good".to_string()]);
}

#[test]
fn import_with_overwrite_replaces() {
    let mut manager = create_test_profile_manager();
    manager.create_profile(params("a", "mine")).unwrap();
    manager.create_profile(params("b", "mine-too")).unwrap();
    let mut incoming = Config::new();
    incoming.profiles.insert("b".to_string(), profile("theirs"));
    incoming.profiles.insert("c".to_string(), profile(""));
    let names = manager.import_profiles(incoming, true).unwrap();
    assert_eq!(names, vec!["b".to_string(), "c".to_string()]);
    assert_eq!(
        manager.list_profiles(),
        vec![&"a".to_string(), &"b".to_string(), &"c".to_string()]
    );
    assert_eq!(manager.get_profile("b").unwrap().client_id, "theirs");
    assert_eq!(manager.get_profile("c").unwrap().client_id, "");
}

#[test]
fn a_cloned_manager_is_independent() {
    let mut manager = create_test_profile_manager();
    manager.create_profile(params("a", "one")).unwrap();
    let copy = manager.clone();
    manager.delete_profile("a").unwrap();
    assert!(copy.get_profile("a").is_ok());
    assert!(manager.get_profile("a").is_err());
    assert_eq!(copy.config().profiles.len(), 1);
}

#[test]
fn a_missing_or_blank_file_stands_for_no_profiles() {
    assert!(!ProfileStorage::has_config(None));
    assert!(!ProfileStorage::has_config(Some("")));
    assert!(!ProfileStorage::has_config(Some(" \n\t ")));
    assert!(ProfileStorage::has_config(Some("{}")));
    assert!(ProfileStorage::has_config(Some("  x  ")));
}

#[test]
fn a_stored_configuration_is_checked() {
    let mut config = Config::new();
    config.profiles.insert("ok".to_string(), profile("one"));
    let loaded = ProfileStorage::load_config(config).unwrap();
    assert_eq!(loaded.profiles.len(), 1);

    let mut config = Config::new();
    config.profiles.insert("ok".to_string(), profile("one"));
    let mut broken = profile("two");
    broken.redirect_uri = "nowhere".to_string();
    config.profiles.insert("broken".to_string(), broken);
    config.profiles.insert("worse".to_string(), profile(""));
    match ProfileStorage::load_config(config) {
        Err(OidcError::Profile(message)) => assert_eq!(
            message,
            "Invalid profile 'broken': Invalid redirect URI: nowhere"
        ),
        other => panic!("unexpected result {:?}", other),
    }
}

#[test]
fn an_imported_configuration_is_checked() {
    let mut config = Config::new();
    config.profiles.insert("x".to_string(), profile(""));
    match ProfileStorage::import_config(config) {
        Err(OidcError::Profile(message)) => assert_eq!(
            message,
            "Invalid imported profile 'x': Missing required field: client_id"
        ),
        other => panic!("unexpected result {:?}", other),
    }
    assert!(ProfileStorage::import_config(Config::new()).is_ok());
    let mut config = Config::new();
    let mut no_endpoints = profile("c");
    no_endpoints.discovery_uri = None;
    config.profiles.insert("y".to_string(), no_endpoints);
    match ProfileStorage::import_config(config) {
        Err(OidcError::Profile(message)) => assert_eq!(
            message,
            "Invalid imported profile 'y': Configuration error: Either discovery_uri or both authorization_endpoint and token_endpoint must be provided"
        ),
        other => panic!("unexpected result {:?}", other),
    }
}
