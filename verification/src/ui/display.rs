//! The lines in which a grant is shown.

use vstd::prelude::*;
use crate::auth::oauth::TokenResponse;
use crate::text::{concat2, concat3, decimal, decimal_text, lines_of};

verus! {

/// The line that says when the access token expires.
pub open spec fn expiry_line(expires_in: Option<u64>) -> Seq<char> {
    match expires_in {
        Some(seconds) => "Expires In: "@ + decimal_text(seconds as nat) + " seconds"@,
        None => "Expires In: Not specified"@,
    }
}

/// The line that says when the ID token expires.
pub open spec fn id_expiry_line(expires_in: Option<u64>) -> Seq<char> {
    match expires_in {
        Some(seconds) => "Expires In: "@ + decimal_text(seconds as nat)
            + " seconds (same as access token)"@,
        None => "Expires In: Check token 'exp' claim for exact expiration"@,
    }
}

/// The lines for the access token.
pub open spec fn access_lines(tokens: TokenResponse) -> Seq<Seq<char>> {
    seq![
        "\u{1f389} Authentication successful!"@,
        ""@,
        "=== TOKENS ==="@,
        ""@,
        "Access Token:"@,
        tokens.access_token@,
        "Type: "@ + tokens.token_type@,
        expiry_line(tokens.expires_in),
        ""@,
    ]
}

/// The lines for the ID token, if there is one.
pub open spec fn id_lines(tokens: TokenResponse) -> Seq<Seq<char>> {
    match tokens.id_token {
        Some(id_token) => seq!["ID Token:"@, id_token@, id_expiry_line(tokens.expires_in), ""@],
        None => Seq::empty(),
    }
}

/// The lines for the refresh token, if there is one.
pub open spec fn refresh_lines(tokens: TokenResponse) -> Seq<Seq<char>> {
    match tokens.refresh_token {
        Some(refresh_token) => seq!["Refresh Token:"@, refresh_token@, ""@],
        None => Seq::empty(),
    }
}

/// The lines for the scope, if there is one.
pub open spec fn scope_lines(tokens: TokenResponse) -> Seq<Seq<char>> {
    match tokens.scope {
        Some(scope) => seq!["Scope: "@ + scope@, ""@],
        None => Seq::empty(),
    }
}

/// The lines in which a grant is shown: the access token with its type and
/// expiry, then the ID token, the refresh token and the scope as far as they
/// are there.
pub open spec fn token_lines(tokens: TokenResponse) -> Seq<Seq<char>> {
    access_lines(tokens) + id_lines(tokens) + refresh_lines(tokens) + scope_lines(tokens)
}

/// The lines in which a grant is shown, for the caller to print.
pub fn display_tokens(token_response: &TokenResponse) -> (r: Vec<String>)
    ensures
        lines_of(r@) == token_lines(*token_response),
{
    let mut lines: Vec<String> = Vec::new();
    lines.push("\u{1f389} Authentication successful!".to_string());
    lines.push("".to_string());
    lines.push("=== TOKENS ===".to_string());
    lines.push("".to_string());
    lines.push("Access Token:".to_string());
    lines.push(token_response.access_token.clone());
    lines.push(concat2("Type: ", token_response.token_type.as_str()));
    match token_response.expires_in {
        Some(seconds) => {
            let number = decimal(seconds);
            lines.push(concat3("Expires In: ", number.as_str(), " seconds"));
        },
        None => {
            lines.push("Expires In: Not specified".to_string());
        },
    }
    lines.push("".to_string());
    assert(lines_of(lines@) =~= access_lines(*token_response));
    let ghost shown = lines_of(lines@);
    match &token_response.id_token {
        Some(id_token) => {
            lines.push("ID Token:".to_string());
            lines.push(id_token.clone());
            match token_response.expires_in {
                Some(seconds) => {
                    let number = decimal(seconds);
                    lines.push(
                        concat3(
                            "Expires In: ",
                            number.as_str(),
                            " seconds (same as access token)",
                        ),
                    );
                },
                None => {
                    lines.push(
                        "Expires In: Check token 'exp' claim for exact expiration".to_string(),
                    );
                },
            }
            lines.push("".to_string());
        },
        None => {},
    }
    assert(lines_of(lines@) =~= shown + id_lines(*token_response));
    let ghost shown = lines_of(lines@);
    match &token_response.refresh_token {
        Some(refresh_token) => {
            lines.push("Refresh Token:".to_string());
            lines.push(refresh_token.clone());
            lines.push("".to_string());
        },
        None => {},
    }
    assert(lines_of(lines@) =~= shown + refresh_lines(*token_response));
    let ghost shown = lines_of(lines@);
    match &token_response.scope {
        Some(scope) => {
            lines.push(concat2("Scope: ", scope.as_str()));
            lines.push("".to_string());
        },
        None => {},
    }
    assert(lines_of(lines@) =~= shown + scope_lines(*token_response));
    lines
}

} // verus!
