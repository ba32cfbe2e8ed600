//! The checks on what a user enters for a profile.

use vstd::prelude::*;
use vstd::string::*;
use vstd::utf8::*;
use crate::error::{ErrorModel, OidcError};
use crate::text::{
    chars_of,
    concat2,
    concat3,
    is_blank,
    slice_string,
    slice_text,
    trim_bounds,
    trim_to_string,
    trimmed,
};
use crate::trusted::{char_is_whitespace, is_whitespace, parse_url, url_parse};
use crate::utils::url::UrlModel;

verus! {

/// The number of bytes of a text in UTF-8, as `str::len` reports it.
pub open spec fn byte_len(text: Seq<char>) -> usize {
    encode_utf8(text).len() as usize
}

/// The fault of a client id: empty, whitespace at either end, or more than
/// 255 bytes.
pub open spec fn client_id_fault(client_id: Seq<char>) -> Option<ErrorModel> {
    if client_id.len() == 0 {
        Some(ErrorModel::Config("Client ID cannot be empty"@))
    } else if trimmed(client_id) != client_id {
        Some(ErrorModel::Config("Client ID cannot have leading or trailing whitespace"@))
    } else if byte_len(client_id) > 255 {
        Some(ErrorModel::Config("Client ID cannot exceed 255 characters"@))
    } else {
        None
    }
}

/// Checks a client id.
pub fn validate_client_id(client_id: &str) -> (r: Result<(), OidcError>)
    ensures
        r is Ok <==> client_id_fault(client_id@) is None,
        r matches Err(e) ==> client_id_fault(client_id@) == Some(e@),
{
    if client_id.is_empty() {
        return Err(OidcError::Config("Client ID cannot be empty".to_string()));
    }
    let chars = chars_of(client_id);
    let (start, end) = trim_bounds(&chars);
    proof {
        if start != 0 || end != chars.len() {
            assert(trimmed(client_id@).len() != client_id@.len());
        } else {
            assert(client_id@.subrange(0, client_id@.len() as int) =~= client_id@);
        }
    }
    if start != 0 || end != chars.len() {
        return Err(
            OidcError::Config("Client ID cannot have leading or trailing whitespace".to_string()),
        );
    }
    if client_id.len() > 255 {
        return Err(OidcError::Config("Client ID cannot exceed 255 characters".to_string()));
    }
    Ok(())
}

/// The fault of a redirect URI, given what it parses to: empty, no URL, a
/// scheme other than `http` and `https`, or no host.
pub open spec fn redirect_uri_fault(uri: Seq<char>, parsed: Option<UrlModel>) -> Option<
    ErrorModel,
> {
    if uri.len() == 0 {
        Some(ErrorModel::Config("Redirect URI cannot be empty"@))
    } else {
        match parsed {
            None => Some(ErrorModel::InvalidRedirectUri(uri)),
            Some(url) => if url.scheme == "http"@ || url.scheme == "https"@ {
                if url.host is None {
                    Some(ErrorModel::InvalidRedirectUri("Redirect URI must have a valid host"@))
                } else {
                    None
                }
            } else {
                Some(
                    ErrorModel::InvalidRedirectUri("Redirect URI must use http or https scheme"@),
                )
            },
        }
    }
}

/// Checks a redirect URI.
pub fn validate_redirect_uri(redirect_uri: &str) -> (r: Result<(), OidcError>)
    ensures
        r is Ok <==> redirect_uri_fault(redirect_uri@, url_parse(redirect_uri@)) is None,
        r matches Err(e) ==> redirect_uri_fault(redirect_uri@, url_parse(redirect_uri@)) == Some(
            e@,
        ),
{
    if redirect_uri.is_empty() {
        return Err(OidcError::Config("Redirect URI cannot be empty".to_string()));
    }
    let url = match parse_url(redirect_uri) {
        Ok(url) => url,
        Err(_) => {
            return Err(OidcError::InvalidRedirectUri(redirect_uri.to_string()));
        },
    };
    if url.is_web() {
        if !url.has_host() {
            return Err(
                OidcError::InvalidRedirectUri("Redirect URI must have a valid host".to_string()),
            );
        }
    } else {
        return Err(
            OidcError::InvalidRedirectUri(
                "Redirect URI must use http or https scheme".to_string(),
            ),
        );
    }
    Ok(())
}

/// The characters of a scope value: ASCII letters and digits, `_`, `-`, `.`
/// and `:`.
pub open spec fn is_scope_char(c: char) -> bool {
    ('a' <= c && c <= 'z') || ('A' <= c && c <= 'Z') || ('0' <= c && c <= '9') || c == '_' || c
        == '-' || c == '.' || c == ':'
}

/// Whether a character is neither whitespace nor a character of a scope
/// value.
pub open spec fn is_bad_scope_char(c: char) -> bool {
    !is_whitespace(c) && !is_scope_char(c)
}

/// The first position at or after `from` that holds a character that no
/// scope value may hold; the length if there is none.
pub open spec fn first_bad(scope: Seq<char>, from: int) -> int
    decreases scope.len() - from,
{
    if from >= scope.len() {
        scope.len() as int
    } else if is_bad_scope_char(scope[from]) {
        from
    } else {
        first_bad(scope, from + 1)
    }
}

/// The start of the whitespace-separated value that reaches up to `at`.
pub open spec fn value_start(scope: Seq<char>, at: int) -> int
    decreases at,
{
    if at <= 0 || is_whitespace(scope[at - 1]) {
        at
    } else {
        value_start(scope, at - 1)
    }
}

/// The end of the whitespace-separated value that holds `at`.
pub open spec fn value_end(scope: Seq<char>, at: int) -> int
    decreases scope.len() - at,
{
    if at >= scope.len() || is_whitespace(scope[at]) {
        at
    } else {
        value_end(scope, at + 1)
    }
}

pub const BAD_SCOPE_HEAD: &'static str = "Invalid scope value '";

pub const BAD_SCOPE_TAIL: &'static str =
    "': must contain only alphanumeric characters, underscores, hyphens, dots, or colons";

/// The fault of a scope: empty, blank, or a value with a character that no
/// scope value may hold, of which the first is named.
pub open spec fn scope_fault(scope: Seq<char>) -> Option<ErrorModel> {
    if scope.len() == 0 {
        Some(ErrorModel::Config("Scope cannot be empty"@))
    } else if is_blank(scope) {
        Some(ErrorModel::Config("Scope must contain at least one valid scope value"@))
    } else {
        let bad = first_bad(scope, 0);
        if bad < scope.len() {
            Some(
                ErrorModel::Config(
                    BAD_SCOPE_HEAD@ + scope.subrange(
                        value_start(scope, bad),
                        value_end(scope, bad),
                    ) + BAD_SCOPE_TAIL@,
                ),
            )
        } else {
            None
        }
    }
}

/// A scope without fault is made of scope values and whitespace only, and
/// has a value.
pub proof fn valid_scope_has_only_values(scope: Seq<char>, i: int)
    requires
        scope_fault(scope) is None,
        0 <= i < scope.len(),
    ensures
        is_whitespace(scope[i]) || is_scope_char(scope[i]),
        !is_blank(scope),
{
    first_bad_is_first(scope, 0);
}

proof fn first_bad_is_first(scope: Seq<char>, from: int)
    requires
        0 <= from <= scope.len(),
    ensures
        from <= first_bad(scope, from) <= scope.len(),
        first_bad(scope, from) < scope.len() ==> is_bad_scope_char(scope[first_bad(scope, from)]),
        forall|j: int| from <= j < first_bad(scope, from) ==> !is_bad_scope_char(scope[j]),
    decreases scope.len() - from,
{
    if from < scope.len() && !is_bad_scope_char(scope[from]) {
        first_bad_is_first(scope, from + 1);
    }
}

fn is_scope_character(c: char) -> (r: bool)
    ensures
        r == is_scope_char(c),
{
    (c >= 'a' && c <= 'z') || (c >= 'A' && c <= 'Z') || (c >= '0' && c <= '9') || c == '_' || c
        == '-' || c == '.' || c == ':'
}

/// Checks a scope.
pub fn validate_scope(scope: &str) -> (r: Result<(), OidcError>)
    ensures
        r is Ok <==> scope_fault(scope@) is None,
        r matches Err(e) ==> scope_fault(scope@) == Some(e@),
{
    if scope.is_empty() {
        return Err(OidcError::Config("Scope cannot be empty".to_string()));
    }
    let chars = chars_of(scope);
    let n = chars.len();
    let (first, last) = trim_bounds(&chars);
    if first == last {
        return Err(
            OidcError::Config("Scope must contain at least one valid scope value".to_string()),
        );
    }
    let mut bad: usize = 0;
    while bad < n && (char_is_whitespace(chars[bad]) || is_scope_character(chars[bad]))
        invariant
            bad <= n == chars@.len(),
            first_bad(chars@, 0) == first_bad(chars@, bad as int),
        decreases n - bad,
    {
        bad = bad + 1;
    }
    if bad >= n {
        return Ok(());
    }
    let mut start: usize = bad;
    while start > 0 && !char_is_whitespace(chars[start - 1])
        invariant
            start <= bad < n == chars@.len(),
            value_start(chars@, bad as int) == value_start(chars@, start as int),
        decreases start,
    {
        start = start - 1;
    }
    let mut end: usize = bad;
    while end < n && !char_is_whitespace(chars[end])
        invariant
            bad <= end <= n == chars@.len(),
            value_end(chars@, bad as int) == value_end(chars@, end as int),
        decreases n - end,
    {
        end = end + 1;
    }
    let value = slice_string(scope, start, end);
    Err(OidcError::Config(concat3(BAD_SCOPE_HEAD, value.as_str(), BAD_SCOPE_TAIL)))
}

/// The fault of a discovery URI, given what it parses to: empty, no URL, a
/// scheme other than `https`, or no host.
pub open spec fn discovery_uri_fault(uri: Seq<char>, parsed: Option<UrlModel>) -> Option<
    ErrorModel,
> {
    if uri.len() == 0 {
        Some(ErrorModel::Config("Discovery URI cannot be empty"@))
    } else {
        match parsed {
            None => Some(ErrorModel::Config("Invalid discovery URI: "@ + uri)),
            Some(url) => if url.scheme != "https"@ {
                Some(ErrorModel::Config("Discovery URI must use HTTPS"@))
            } else if url.host is None {
                Some(ErrorModel::Config("Discovery URI must have a valid host"@))
            } else {
                None
            },
        }
    }
}

/// Checks a discovery URI.
pub fn validate_discovery_uri(discovery_uri: &str) -> (r: Result<(), OidcError>)
    ensures
        r is Ok <==> discovery_uri_fault(discovery_uri@, url_parse(discovery_uri@)) is None,
        r matches Err(e) ==> discovery_uri_fault(discovery_uri@, url_parse(discovery_uri@))
            == Some(e@),
{
    if discovery_uri.is_empty() {
        return Err(OidcError::Config("Discovery URI cannot be empty".to_string()));
    }
    let url = match parse_url(discovery_uri) {
        Ok(url) => url,
        Err(_) => {
            return Err(OidcError::Config(concat2("Invalid discovery URI: ", discovery_uri)));
        },
    };
    if !url.is_https() {
        return Err(OidcError::Config("Discovery URI must use HTTPS".to_string()));
    }
    if !url.has_host() {
        return Err(OidcError::Config("Discovery URI must have a valid host".to_string()));
    }
    Ok(())
}

/// The fault of an endpoint URL of the given kind, given what it parses to:
/// empty, no URL, a scheme other than `https`, or no host.
pub open spec fn endpoint_fault(
    endpoint: Seq<char>,
    kind: Seq<char>,
    parsed: Option<UrlModel>,
) -> Option<ErrorModel> {
    if endpoint.len() == 0 {
        Some(ErrorModel::Config(kind + " cannot be empty"@))
    } else {
        match parsed {
            None => Some(ErrorModel::Config("Invalid "@ + kind + " URL: "@ + endpoint)),
            Some(url) => if url.scheme != "https"@ {
                Some(ErrorModel::Config(kind + " must use HTTPS"@))
            } else if url.host is None {
                Some(ErrorModel::Config(kind + " must have a valid host"@))
            } else {
                None
            },
        }
    }
}

/// Checks an endpoint URL; `endpoint_type` names it in the message.
pub fn validate_endpoint_url(endpoint: &str, endpoint_type: &str) -> (r: Result<(), OidcError>)
    ensures
        r is Ok <==> endpoint_fault(endpoint@, endpoint_type@, url_parse(endpoint@)) is None,
        r matches Err(e) ==> endpoint_fault(endpoint@, endpoint_type@, url_parse(endpoint@))
            == Some(e@),
{
    if endpoint.is_empty() {
        return Err(OidcError::Config(concat2(endpoint_type, " cannot be empty")));
    }
    let url = match parse_url(endpoint) {
        Ok(url) => url,
        Err(_) => {
            let mut text = concat3("Invalid ", endpoint_type, " URL: ");
            text.append(endpoint);
            return Err(OidcError::Config(text));
        },
    };
    if !url.is_https() {
        return Err(OidcError::Config(concat2(endpoint_type, " must use HTTPS")));
    }
    if !url.has_host() {
        return Err(OidcError::Config(concat2(endpoint_type, " must have a valid host")));
    }
    Ok(())
}

/// Whether the endpoints can be resolved: a discovery URI, or both
/// endpoints.
pub open spec fn endpoints_given(
    discovery_uri: Option<Seq<char>>,
    authorization_endpoint: Option<Seq<char>>,
    token_endpoint: Option<Seq<char>>,
) -> bool {
    discovery_uri is Some || (authorization_endpoint is Some && token_endpoint is Some)
}

/// Checks that a discovery URI or both endpoints are given.
pub fn validate_endpoint_configuration(
    discovery_uri: Option<&str>,
    authorization_endpoint: Option<&str>,
    token_endpoint: Option<&str>,
) -> (r: Result<(), OidcError>)
    ensures
        r is Ok <==> endpoints_given(
            slice_text(discovery_uri),
            slice_text(authorization_endpoint),
            slice_text(token_endpoint),
        ),
        r matches Err(e) ==> e@ == ErrorModel::Config(
            "Either discovery URI or both authorization and token endpoints must be provided"@,
        ),
{
    if discovery_uri.is_none() {
        if authorization_endpoint.is_none() || token_endpoint.is_none() {
            return Err(
                OidcError::Config(
                    "Either discovery URI or both authorization and token endpoints must be provided".to_string(),
                ),
            );
        }
    }
    Ok(())
}

/// The first of two faults.
pub open spec fn or_fault(first: Option<ErrorModel>, second: Option<ErrorModel>) -> Option<
    ErrorModel,
> {
    match first {
        Some(fault) => Some(fault),
        None => second,
    }
}

/// The first fault of what was entered for a profile: of the client id, the
/// redirect URI, the scope, the discovery URI, the authorization endpoint,
/// the token endpoint, in this order, and last of the endpoints not being
/// given.
pub open spec fn input_fault(
    client_id: Seq<char>,
    redirect_uri: Seq<char>,
    scope: Seq<char>,
    discovery_uri: Option<Seq<char>>,
    authorization_endpoint: Option<Seq<char>>,
    token_endpoint: Option<Seq<char>>,
) -> Option<ErrorModel> {
    or_fault(
        client_id_fault(client_id),
        or_fault(
            redirect_uri_fault(redirect_uri, url_parse(redirect_uri)),
            or_fault(
                scope_fault(scope),
                or_fault(
                    match discovery_uri {
                        Some(uri) => discovery_uri_fault(uri, url_parse(uri)),
                        None => None,
                    },
                    or_fault(
                        match authorization_endpoint {
                            Some(endpoint) => endpoint_fault(
                                endpoint,
                                "authorization endpoint"@,
                                url_parse(endpoint),
                            ),
                            None => None,
                        },
                        or_fault(
                            match token_endpoint {
                                Some(endpoint) => endpoint_fault(
                                    endpoint,
                                    "token endpoint"@,
                                    url_parse(endpoint),
                                ),
                                None => None,
                            },
                            if endpoints_given(
                                discovery_uri,
                                authorization_endpoint,
                                token_endpoint,
                            ) {
                                None
                            } else {
                                Some(
                                    ErrorModel::Config(
                                        "Either discovery URI or both authorization and token endpoints must be provided"@,
                                    ),
                                )
                            },
                        ),
                    ),
                ),
            ),
        ),
    )
}

/// Checks everything that was entered for a profile and reports the first
/// fault.
pub fn validate_profile_input(
    client_id: &str,
    redirect_uri: &str,
    scope: &str,
    discovery_uri: Option<&str>,
    authorization_endpoint: Option<&str>,
    token_endpoint: Option<&str>,
) -> (r: Result<(), OidcError>)
    ensures
        r is Ok <==> input_fault(
            client_id@,
            redirect_uri@,
            scope@,
            slice_text(discovery_uri),
            slice_text(authorization_endpoint),
            slice_text(token_endpoint),
        ) is None,
        r matches Err(e) ==> input_fault(
            client_id@,
            redirect_uri@,
            scope@,
            slice_text(discovery_uri),
            slice_text(authorization_endpoint),
            slice_text(token_endpoint),
        ) == Some(e@),
{
    match validate_client_id(client_id) {
        Err(e) => {
            return Err(e);
        },
        Ok(()) => {},
    }
    match validate_redirect_uri(redirect_uri) {
        Err(e) => {
            return Err(e);
        },
        Ok(()) => {},
    }
    match validate_scope(scope) {
        Err(e) => {
            return Err(e);
        },
        Ok(()) => {},
    }
    if let Some(uri) = discovery_uri {
        match validate_discovery_uri(uri) {
            Err(e) => {
                return Err(e);
            },
            Ok(()) => {},
        }
    }
    if let Some(endpoint) = authorization_endpoint {
        match validate_endpoint_url(endpoint, "authorization endpoint") {
            Err(e) => {
                return Err(e);
            },
            Ok(()) => {},
        }
    }
    if let Some(endpoint) = token_endpoint {
        match validate_endpoint_url(endpoint, "token endpoint") {
            Err(e) => {
                return Err(e);
            },
            Ok(()) => {},
        }
    }
    validate_endpoint_configuration(discovery_uri, authorization_endpoint, token_endpoint)
}

/// What was entered, without whitespace at either end.
pub fn sanitize_input(input: &str) -> (r: String)
    ensures
        r@ == trimmed(input@),
{
    trim_to_string(input)
}

} // verus!
