use oidc_cli::config::{get_config_dir, get_config_file_path, Config, Profile};
use oidc_cli::OidcError;
use std::path::PathBuf;

fn create_test_profile() -> Profile {
    Profile {
        discovery_uri: Some("https://example.com/.well-known/openid-configuration".to_string()),
        client_id: "test-client".to_string(),
        client_secret: Some("test-secret".to_string()),
        redirect_uri: "http://localhost:8080/callback".to_string(),
        scope: "openid profile email".to_string(),
        authorization_endpoint: None,
        token_endpoint: None,
    }
}

fn static_profile() -> Profile {
    Profile {
        discovery_uri: None,
        client_id: "static".to_string(),
        client_secret: None,
        redirect_uri: "https://app.example.com/cb".to_string(),
        scope: "openid".to_string(),
        authorization_endpoint: Some("https://example.com/auth".to_string()),
        token_endpoint: Some("https://example.com/token".to_string()),
    }
}

#[test]
fn test_profile_validation() {
    let profile = create_test_profile();
    assert!(profile.validate().is_ok());
}

#[test]
fn test_profile_validation_missing_client_id() {
    let mut profile = create_test_profile();
    profile.client_id = "".to_string();
    assert!(profile.validate().is_err());
}

#[test]
fn test_profile_validation_invalid_redirect_uri() {
    let mut profile = create_test_profile();
    profile.redirect_uri = "invalid-uri".to_string();
    assert!(profile.validate().is_err());
}

#[test]
fn test_config_add_profile() {
    let mut config = Config::new();
    let profile = create_test_profile();

    assert!(config.add_profile("test".to_string(), profile).is_ok());
    assert!(config.get_profile("test").is_ok());
}

#[test]
fn test_config_duplicate_profile() {
    let mut config = Config::new();
    let profile = create_test_profile();

    config.add_profile("test".to_string(), profile.clone()).unwrap();
    assert!(config.add_profile("test".to_string(), profile).is_err());
}

#[test]
fn faults_of_a_profile_in_order() {
    let mut profile = create_test_profile();
    profile.client_id = "".to_string();
    profile.redirect_uri = "".to_string();
    profile.scope = "".to_string();
    assert!(matches!(profile.validate(), Err(OidcError::MissingField(f)) if f == "client_id"));
    profile.client_id = "c".to_string();
    assert!(matches!(profile.validate(), Err(OidcError::MissingField(f)) if f == "redirect_uri"));
    profile.redirect_uri = "nonsense".to_string();
    assert!(matches!(profile.validate(), Err(OidcError::MissingField(f)) if f == "scope"));
    profile.scope = "s".to_string();
    assert!(matches!(profile.validate(), Err(OidcError::InvalidRedirectUri(u)) if u == "nonsense"));
    profile.redirect_uri = "custom-scheme:/cb".to_string();
    profile.discovery_uri = Some("nope".to_string());
    assert!(matches!(profile.validate(), Err(OidcError::Config(m)) if m == "Invalid discovery URI: nope"));
    profile.discovery_uri = None;
    profile.authorization_endpoint = Some("::".to_string());
    profile.token_endpoint = Some("??".to_string());
    assert!(matches!(profile.validate(), Err(OidcError::Config(m)) if m == "Invalid authorization endpoint: ::"));
    profile.authorization_endpoint = Some("http://a/".to_string());
    assert!(matches!(profile.validate(), Err(OidcError::Config(m)) if m == "Invalid token endpoint: ??"));
    profile.token_endpoint = None;
    assert!(matches!(
        profile.validate(),
        Err(OidcError::Config(m))
            if m == "Either discovery_uri or both authorization_endpoint and token_endpoint must be provided"
    ));
    profile.token_endpoint = Some("http://t/".to_string());
    assert!(profile.validate().is_ok());
    profile.authorization_endpoint = None;
    assert!(profile.validate().is_err());
    profile.discovery_uri = Some("http://d/".to_string());
    assert!(profile.validate().is_ok());
}

#[test]
fn static_endpoints_make_a_valid_profile() {
    assert!(static_profile().validate().is_ok());
}

#[test]
fn a_clone_is_equal_in_every_field() {
    let profile = create_test_profile();
    let copy = profile.clone();
    assert_eq!(copy.discovery_uri, profile.discovery_uri);
    assert_eq!(copy.client_id, profile.client_id);
    assert_eq!(copy.client_secret, profile.client_secret);
    assert_eq!(copy.redirect_uri, profile.redirect_uri);
    assert_eq!(copy.scope, profile.scope);
    assert_eq!(copy.authorization_endpoint, profile.authorization_endpoint);
    assert_eq!(copy.token_endpoint, profile.token_endpoint);
}

#[test]
fn add_rejects_an_invalid_profile_before_it_looks_at_the_name() {
    let mut config = Config::new();
    config.add_profile("test".to_string(), create_test_profile()).unwrap();
    let mut bad = create_test_profile();
    bad.scope = String::new();
    assert!(matches!(
        config.add_profile("test".to_string(), bad),
        Err(OidcError::MissingField(f)) if f == "scope"
    ));
    assert!(matches!(
        config.add_profile("test".to_string(), create_test_profile()),
        Err(OidcError::ProfileExists(n)) if n == "test"
    ));
    assert_eq!(config.profiles.len(), 1);
}

#[test]
fn get_reports_the_missing_name() {
    let config = Config::new();
    assert!(matches!(config.get_profile("ghost"), Err(OidcError::ProfileNotFound(n)) if n == "ghost"));
}

#[test]
fn remove_returns_the_profile() {
    let mut config = Config::new();
    config.add_profile("a".to_string(), create_test_profile()).unwrap();
    config.add_profile("b".to_string(), static_profile()).unwrap();
    config.add_profile("c".to_string(), create_test_profile()).unwrap();
    let removed = config.remove_profile("b").unwrap();
    assert_eq!(removed.client_id, "static");
    assert!(matches!(config.remove_profile("b"), Err(OidcError::ProfileNotFound(n)) if n == "b"));
    assert_eq!(config.list_profiles(), vec![&"a".to_string(), &"c".to_string()]);
}

#[test]
fn update_replaces_in_place() {
    let mut config = Config::new();
    config.add_profile("a".to_string(), create_test_profile()).unwrap();
    config.add_profile("b".to_string(), create_test_profile()).unwrap();
    config.update_profile("a".to_string(), static_profile()).unwrap();
    assert_eq!(config.get_profile("a").unwrap().client_id, "static");
    assert_eq!(config.get_profile("b").unwrap().client_id, "test-client");
    assert_eq!(config.list_profiles(), vec![&"a".to_string(), &"b".to_string()]);
    assert!(matches!(
        config.update_profile("zz".to_string(), static_profile()),
        Err(OidcError::ProfileNotFound(n)) if n == "zz"
    ));
    let mut bad = static_profile();
    bad.client_id = String::new();
    assert!(matches!(
        config.update_profile("zz".to_string(), bad),
        Err(OidcError::MissingField(f)) if f == "client_id"
    ));
}

#[test]
fn rename_moves_the_profile_to_the_end() {
    let mut config = Config::new();
    config.add_profile("a".to_string(), static_profile()).unwrap();
    config.add_profile("b".to_string(), create_test_profile()).unwrap();
    config.rename_profile("a", "z".to_string()).unwrap();
    assert_eq!(config.list_profiles(), vec![&"b".to_string(), &"z".to_string()]);
    assert_eq!(config.get_profile("z").unwrap().client_id, "static");
    assert!(matches!(
        config.rename_profile("b", "z".to_string()),
        Err(OidcError::ProfileExists(n)) if n == "z"
    ));
    assert!(matches!(
        config.rename_profile("b", "b".to_string()),
        Err(OidcError::ProfileExists(n)) if n == "b"
    ));
    assert!(matches!(
        config.rename_profile("gone", "new".to_string()),
        Err(OidcError::ProfileNotFound(n)) if n == "gone"
    ));
    assert_eq!(config.profiles.len(), 2);
}

#[test]
fn a_cloned_config_has_the_same_profiles() {
    let mut config = Config::new();
    config.add_profile("a".to_string(), static_profile()).unwrap();
    config.add_profile("b".to_string(), create_test_profile()).unwrap();
    let copy = config.clone();
    assert_eq!(copy.list_profiles(), config.list_profiles());
    assert_eq!(copy.get_profile("a").unwrap().client_id, "static");
    assert_eq!(copy.get_profile("b").unwrap().client_id, "test-client");
}

#[test]
fn the_map_of_profiles() {
    let mut config = Config::new();
    assert!(config.profiles.is_empty());
    assert!(config.profiles.insert("test".to_string(), create_test_profile()).is_none());
    let previous = config.profiles.insert("test".to_string(), static_profile()).unwrap();
    assert_eq!(previous.client_id, "test-client");
    assert_eq!(config.profiles.len(), 1);
    assert!(config.profiles.contains_key("test"));
    assert!(!config.profiles.contains_key("Test"));
    assert_eq!(config.profiles.get("test").unwrap().client_id, "static");
    assert_eq!(config.profiles.name_at(0), "test");
    assert_eq!(config.profiles.value_at(0).client_id, "static");
    assert!(config.profiles.remove("other").is_none());
    assert_eq!(config.profiles.remove("test").unwrap().client_id, "static");
    assert!(config.profiles.is_empty());
}

#[test]
fn the_configuration_file_lies_below_the_configuration_directory() {
    let dir = get_config_dir(Some(PathBuf::from("/home/user/.config"))).unwrap();
    assert_eq!(dir, PathBuf::from("/home/user/.config").join("oidc-cli"));
    let file = get_config_file_path(Some(PathBuf::from("/home/user/.config"))).unwrap();
    assert_eq!(
        file,
        PathBuf::from("/home/user/.config").join("oidc-cli").join("profiles.json")
    );
}

#[test]
fn without_a_configuration_directory_there_is_no_path() {
    assert!(matches!(
        get_config_dir(None),
        Err(OidcError::Config(m)) if m == "Could not determine config directory"
    ));
    assert!(matches!(
        get_config_file_path(None),
        Err(OidcError::Config(m)) if m == "Could not determine config directory"
    ));
}
