use oidc_cli::ui::manual_entry::{handle_manual_code_entry, ManualEntry};

fn code(input: &str) -> String {
    match handle_manual_code_entry(input) {
        ManualEntry::Code(code) => code,
        other => panic!("expected a code, got {:?}", other),
    }
}

#[test]
fn a_bare_code_is_taken_as_it_is() {
    assert_eq!(code("abc123"), "abc123");
    assert_eq!(code("  abc123\n"), "abc123");
    assert_eq!(code("4/0AX4XfWh-some_code"), "4/0AX4XfWh-some_code");
    assert_eq!(code("a:/b"), "a:/b");
    assert_eq!(code("code=abc"), "code=abc");
    assert_eq!(code(":/"), ":/");
    assert_eq!(code("x"), "x");
}

#[test]
fn the_code_of_a_callback_url_is_extracted() {
    assert_eq!(
        code("https://app.example.com/callback?code=abc123&state=xyz\n"),
        "abc123"
    );
    assert_eq!(code("https://app.example.com/cb?state=s&code=a%2Fb%20c"), "a/b c");
    assert_eq!(code("https://app.example.com/cb?code=first&code=second"), "first");
    assert_eq!(code("myapp:/cb?code=native"), "native");
    assert_eq!(code("https://app.example.com/cb?code="), "");
}

#[test]
fn nothing_entered_asks_again() {
    assert!(matches!(handle_manual_code_entry(""), ManualEntry::Empty));
    assert!(matches!(handle_manual_code_entry("   \t\n"), ManualEntry::Empty));
}

#[test]
fn a_url_without_code_asks_again() {
    assert!(matches!(
        handle_manual_code_entry("https://app.example.com/callback?error=access_denied"),
        ManualEntry::Unusable
    ));
    assert!(matches!(
        handle_manual_code_entry("https://app.example.com/callback"),
        ManualEntry::Unusable
    ));
    assert!(matches!(handle_manual_code_entry("://"), ManualEntry::Unusable));
    assert!(matches!(handle_manual_code_entry("x://"), ManualEntry::Unusable));
    assert!(matches!(handle_manual_code_entry("abc://def ghi"), ManualEntry::Unusable));
    assert!(matches!(handle_manual_code_entry("a b ://"), ManualEntry::Unusable));
}
