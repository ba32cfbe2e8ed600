use oidc_cli::cli::{Cli, Commands};

fn login(profile: Option<&str>) -> Commands {
    Commands::Login {
        profile: profile.map(|name| name.to_string()),
        port: None,
        copy: false,
        json: false,
        output: None,
    }
}

#[test]
fn test_cli_parsing() {
    let cli = Cli { command: login(Some("test-profile")), verbose: false, quiet: false };

    match cli.command {
        Commands::Login { profile, .. } => {
            assert_eq!(profile, Some("test-profile".to_string()));
        }
        _ => panic!("Expected Login command"),
    }
}

#[test]
fn test_verbose_quiet_flags() {
    let cli = Cli { command: Commands::List, verbose: true, quiet: false };
    assert!(cli.is_verbose());
    assert!(!cli.is_quiet());

    let cli = Cli { command: Commands::List, verbose: false, quiet: true };
    assert!(!cli.is_verbose());
    assert!(cli.is_quiet());

    let cli = Cli { command: Commands::List, verbose: true, quiet: true };
    assert!(!cli.is_verbose());
    assert!(cli.is_quiet());
}

#[test]
fn neither_switch_is_neither() {
    let cli = Cli { command: login(None), verbose: false, quiet: false };
    assert!(!cli.is_verbose());
    assert!(!cli.is_quiet());
}
