use oidc_cli::utils::url::{UrlHost, UrlParts};
use oidc_cli::{extract_port_from_redirect_uri, is_localhost_redirect_uri, parse_query_params};

#[test]
fn test_is_localhost_redirect_uri() {
    assert!(is_localhost_redirect_uri("http://localhost:8080/callback"));
    assert!(is_localhost_redirect_uri("http://127.0.0.1:8383/callback"));
    assert!(is_localhost_redirect_uri("https://localhost/callback"));
    assert!(is_localhost_redirect_uri("http://[::1]:8080/callback"));
    assert!(!is_localhost_redirect_uri("https://example.com/callback"));
    assert!(!is_localhost_redirect_uri(
        "https://auth.company.com/callback"
    ));
    assert!(!is_localhost_redirect_uri("invalid-uri"));
}

#[test]
fn test_extract_port_from_redirect_uri() {
    assert_eq!(
        extract_port_from_redirect_uri("http://localhost:8383/callback"),
        Some(8383)
    );
    assert_eq!(
        extract_port_from_redirect_uri("http://127.0.0.1:9000/callback"),
        Some(9000)
    );
    assert_eq!(
        extract_port_from_redirect_uri("http://localhost/callback"),
        Some(80)
    );
    assert_eq!(
        extract_port_from_redirect_uri("https://localhost/callback"),
        Some(80)
    );
    assert_eq!(
        extract_port_from_redirect_uri("https://example.com/callback"),
        None
    );
    assert_eq!(extract_port_from_redirect_uri("invalid-uri"), None);
}

#[test]
fn main_tests_test_parse_query_params() {
    let params = parse_query_params("code=abc123&state=xyz789&scope=openid%20profile");
    assert_eq!(params.get("code"), Some(&"abc123".to_string()));
    assert_eq!(params.get("state"), Some(&"xyz789".to_string()));
    assert_eq!(params.get("scope"), Some(&"openid profile".to_string()));

    let empty_params = parse_query_params("");
    assert!(empty_params.is_empty());
}

#[test]
fn loopback_is_the_whole_127_block_and_only_it() {
    assert!(is_localhost_redirect_uri("http://127.255.0.9/callback"));
    assert!(!is_localhost_redirect_uri("http://128.0.0.1/callback"));
    assert!(!is_localhost_redirect_uri("http://126.255.255.255/callback"));
    assert!(!is_localhost_redirect_uri("http://[::2]/callback"));
    assert!(!is_localhost_redirect_uri("http://[1::1]/callback"));
    assert!(!is_localhost_redirect_uri("http://localhost.example.com/callback"));
    assert!(!is_localhost_redirect_uri(""));
}

#[test]
fn a_url_without_host_is_not_local() {
    assert!(!is_localhost_redirect_uri("mailto:user@localhost"));
    assert_eq!(extract_port_from_redirect_uri("mailto:user@localhost"), None);
}

#[test]
fn host_decisions_on_given_parts() {
    assert!(UrlHost::Domain("localhost".to_string()).is_loopback());
    assert!(!UrlHost::Domain("localhost2".to_string()).is_loopback());
    assert!(UrlHost::Ipv4([127, 1, 2, 3]).is_loopback());
    assert!(!UrlHost::Ipv4([10, 0, 0, 127]).is_loopback());
    assert!(UrlHost::Ipv6([0, 0, 0, 0, 0, 0, 0, 1]).is_loopback());
    assert!(!UrlHost::Ipv6([1, 0, 0, 0, 0, 0, 0, 1]).is_loopback());
    assert!(!UrlHost::Ipv6([0, 0, 0, 0, 0, 0, 0, 0]).is_loopback());

    let parts = UrlParts {
        scheme: "https".to_string(),
        host: Some(UrlHost::Ipv4([127, 0, 0, 1])),
        port: None,
        path: "/".to_string(),
        query: None,
    };
    assert!(parts.is_localhost());
    assert!(parts.is_https());
    assert!(parts.is_web());
    assert!(parts.has_host());
    assert_eq!(parts.listener_port(), Some(80));

    let remote = UrlParts {
        scheme: "ftp".to_string(),
        host: Some(UrlHost::Domain("example.com".to_string())),
        port: Some(21),
        path: "/".to_string(),
        query: None,
    };
    assert!(!remote.is_localhost());
    assert!(!remote.is_https());
    assert!(!remote.is_web());
    assert_eq!(remote.listener_port(), None);

    let bare = UrlParts {
        scheme: "http".to_string(),
        host: None,
        port: Some(1),
        path: "".to_string(),
        query: None,
    };
    assert!(!bare.has_host());
    assert!(!bare.is_localhost());
    assert!(bare.is_web());
    assert_eq!(bare.listener_port(), None);
}

#[test]
fn explicit_port_wins_over_the_default() {
    let parts = UrlParts {
        scheme: "http".to_string(),
        host: Some(UrlHost::Domain("localhost".to_string())),
        port: Some(65535),
        path: "/cb".to_string(),
        query: None,
    };
    assert_eq!(parts.listener_port(), Some(65535));
}

#[test]
fn first_occurrence_of_a_name_wins() {
    let params = parse_query_params("code=first&code=second&state=s");
    assert_eq!(params.get("code"), Some(&"first".to_string()));
    assert_eq!(params.get("state"), Some(&"s".to_string()));
    assert_eq!(params.len(), 2);
}

#[test]
fn pieces_without_equals_are_skipped() {
    let params = parse_query_params("flag&code=abc&&=empty&novalue=");
    assert_eq!(params.get("flag"), None);
    assert_eq!(params.get("code"), Some(&"abc".to_string()));
    assert_eq!(params.get(""), Some(&"empty".to_string()));
    assert_eq!(params.get("novalue"), Some(&"".to_string()));
    assert_eq!(params.len(), 3);
    assert!(params.contains_key("novalue"));
    assert!(!params.contains_key("flag"));
}

#[test]
fn only_the_first_equals_separates() {
    let params = parse_query_params("a=b=c&d==");
    assert_eq!(params.get("a"), Some(&"b=c".to_string()));
    assert_eq!(params.get("d"), Some(&"=".to_string()));
}

#[test]
fn names_and_values_are_percent_decoded() {
    let params = parse_query_params("redirect%5Furi=http%3A%2F%2Flocalhost%2Fcb&plus=a+b&u=%C3%A9");
    assert_eq!(
        params.get("redirect_uri"),
        Some(&"http://localhost/cb".to_string())
    );
    assert_eq!(params.get("plus"), Some(&"a+b".to_string()));
    assert_eq!(params.get("u"), Some(&"\u{e9}".to_string()));
}

#[test]
fn a_piece_that_does_not_decode_is_skipped() {
    let params = parse_query_params("bad=%FF&good=1&%FF=x");
    assert_eq!(params.get("bad"), None);
    assert_eq!(params.get("good"), Some(&"1".to_string()));
    assert_eq!(params.len(), 1);
}

#[test]
fn an_incomplete_escape_stays_as_it_is() {
    let params = parse_query_params("a=100%&b=%zz&c=%4");
    assert_eq!(params.get("a"), Some(&"100%".to_string()));
    assert_eq!(params.get("b"), Some(&"%zz".to_string()));
    assert_eq!(params.get("c"), Some(&"%4".to_string()));
}

#[test]
fn non_ascii_text_is_split_by_characters() {
    let params = parse_query_params("n\u{e4}me=v\u{e4}lue&\u{4e2d}=\u{6587}");
    assert_eq!(params.get("n\u{e4}me"), Some(&"v\u{e4}lue".to_string()));
    assert_eq!(params.get("\u{4e2d}"), Some(&"\u{6587}".to_string()));
}
