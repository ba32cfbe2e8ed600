//! The authorization request and the token exchange.

use vstd::prelude::*;
use vstd::string::*;
use crate::auth::discovery::{is_success, status_is_success, DiscoveryDocument, REQUEST_TIMEOUT_SECONDS};
use crate::config::Profile;
use crate::crypto::{generate_state, is_state_token, PkceChallenge};
use crate::error::{ErrorModel, OidcError};
use crate::text::{concat2, concat3};
use crate::trusted::{append_query_pairs, url_with_query, MAX_QUERY_TEXT};
use crate::utils::url::{is_web_url, parses_as_web_url, Pair};

verus! {

/// What the token endpoint grants.
#[derive(Debug)]
pub struct TokenResponse {
    pub access_token: String,
    pub token_type: String,
    pub expires_in: Option<u64>,
    pub refresh_token: Option<String>,
    pub id_token: Option<String>,
    pub scope: Option<String>,
}

impl TokenResponse {
    /// A usable grant names an access token and its type.
    pub open spec fn is_valid(&self) -> bool {
        self.access_token@.len() > 0 && self.token_type@.len() > 0
    }
}

/// Checks that a token response names an access token and its type.
pub fn validate_token_response(response: &TokenResponse) -> (r: Result<(), OidcError>)
    ensures
        r is Ok <==> response.is_valid(),
        r matches Err(e) ==> e@ == ErrorModel::InvalidTokenResponse,
{
    if response.access_token.as_str().is_empty() {
        return Err(OidcError::InvalidTokenResponse);
    }
    if response.token_type.as_str().is_empty() {
        return Err(OidcError::InvalidTokenResponse);
    }
    Ok(())
}

/// The URL to open in the browser, with the state and the PKCE material that
/// belong to it.
#[derive(Debug)]
pub struct AuthorizationRequest {
    pub authorization_url: String,
    pub state: String,
    pub pkce_challenge: PkceChallenge,
}

/// The parameters of an authorization request, in the order in which they
/// are written.
pub open spec fn authorization_pairs(
    client_id: Seq<char>,
    redirect_uri: Seq<char>,
    scope: Seq<char>,
    state: Seq<char>,
    challenge: Seq<char>,
) -> Seq<Pair> {
    seq![
        ("response_type"@, "code"@),
        ("client_id"@, client_id),
        ("redirect_uri"@, redirect_uri),
        ("scope"@, scope),
        ("state"@, state),
        ("code_challenge"@, challenge),
        ("code_challenge_method"@, "S256"@),
    ]
}

/// No parameter of an authorization request is written twice: the seven
/// names differ from one another.
pub proof fn authorization_pairs_are_distinct(
    client_id: Seq<char>,
    redirect_uri: Seq<char>,
    scope: Seq<char>,
    state: Seq<char>,
    challenge: Seq<char>,
)
    ensures
        authorization_pairs(client_id, redirect_uri, scope, state, challenge).len() == 7,
        forall|i: int, j: int|
            0 <= i < j < 7 ==> (#[trigger] authorization_pairs(
                client_id,
                redirect_uri,
                scope,
                state,
                challenge,
            )[i]).0 != (#[trigger] authorization_pairs(
                client_id,
                redirect_uri,
                scope,
                state,
                challenge,
            )[j]).0,
{
    reveal_strlit("response_type");
    reveal_strlit("client_id");
    reveal_strlit("redirect_uri");
    reveal_strlit("scope");
    reveal_strlit("state");
    reveal_strlit("code_challenge");
    reveal_strlit("code_challenge_method");
    let pairs = authorization_pairs(client_id, redirect_uri, scope, state, challenge);
    assert("response_type"@.len() == 13 && "client_id"@.len() == 9 && "redirect_uri"@.len() == 12
        && "scope"@.len() == 5 && "state"@.len() == 5 && "code_challenge"@.len() == 14
        && "code_challenge_method"@.len() == 21);
    assert("scope"@[1] != "state"@[1]);
}

/// The parameters of the token request.
pub open spec fn token_form(
    code: Seq<char>,
    redirect_uri: Seq<char>,
    client_id: Seq<char>,
    verifier: Seq<char>,
) -> Seq<Pair> {
    seq![
        ("grant_type"@, "authorization_code"@),
        ("code"@, code),
        ("redirect_uri"@, redirect_uri),
        ("client_id"@, client_id),
        ("code_verifier"@, verifier),
    ]
}

fn pair(name: &str, value: &str) -> (r: (String, String))
    ensures
        r.deep_view() == (name@, value@),
{
    (name.to_string(), value.to_string())
}

/// The parameters of an authorization request for a profile.
pub fn authorization_query(profile: &Profile, state: &str, challenge: &str) -> (r: Vec<
    (String, String),
>)
    ensures
        r.deep_view() == authorization_pairs(
            profile.client_id@,
            profile.redirect_uri@,
            profile.scope@,
            state@,
            challenge@,
        ),
{
    let mut pairs: Vec<(String, String)> = Vec::new();
    pairs.push(pair("response_type", "code"));
    pairs.push(pair("client_id", profile.client_id.as_str()));
    pairs.push(pair("redirect_uri", profile.redirect_uri.as_str()));
    pairs.push(pair("scope", profile.scope.as_str()));
    pairs.push(pair("state", state));
    pairs.push(pair("code_challenge", challenge));
    pairs.push(pair("code_challenge_method", "S256"));
    assert(pairs.deep_view() =~= authorization_pairs(
        profile.client_id@,
        profile.redirect_uri@,
        profile.scope@,
        state@,
        challenge@,
    ));
    pairs
}

/// The request to the token endpoint: a form to post and, for a confidential
/// client, the user and password of HTTP Basic authentication.
#[derive(Debug)]
pub struct TokenRequest {
    pub url: String,
    pub form: Vec<(String, String)>,
    pub basic_auth: Option<(String, String)>,
    pub timeout_seconds: u64,
}

/// The token endpoint's reply: its status, the status as it is shown, the
/// body if it could be read, and the grant that the body parsed to or the
/// parser's complaint. The body of a reply without success need not be
/// parsed.
#[derive(Debug)]
pub struct TokenReply {
    pub status: u16,
    pub status_text: String,
    pub body: Option<String>,
    pub tokens: Result<TokenResponse, String>,
}

/// What a reply of the token endpoint comes to: the error of a status without
/// success, with the body; of a body that did not parse; or of a grant
/// without access token or type; else nothing.
pub open spec fn token_reply_fault(reply: TokenReply) -> Option<ErrorModel> {
    if !is_success(reply.status) {
        Some(
            ErrorModel::Auth(
                "Token exchange failed with status "@ + reply.status_text@ + ": "@ + match reply.body {
                    Some(text) => text@,
                    None => "Unknown error"@,
                },
            ),
        )
    } else {
        match reply.tokens {
            Err(complaint) => Some(
                ErrorModel::Auth("Failed to parse token response: "@ + complaint@),
            ),
            Ok(tokens) => if tokens.is_valid() {
                None
            } else {
                Some(ErrorModel::InvalidTokenResponse)
            },
        }
    }
}

/// The grant of a reply of the token endpoint, if the reply is a success and
/// the grant is usable.
pub fn complete_token_exchange(reply: TokenReply) -> (r: Result<TokenResponse, OidcError>)
    ensures
        match r {
            Ok(tokens) => token_reply_fault(reply) is None && tokens.is_valid() && reply.tokens
                == Ok::<TokenResponse, String>(tokens),
            Err(e) => token_reply_fault(reply) == Some(e@),
        },
{
    if !status_is_success(reply.status) {
        let mut text = concat3(
            "Token exchange failed with status ",
            reply.status_text.as_str(),
            ": ",
        );
        match &reply.body {
            Some(body) => text.append(body.as_str()),
            None => text.append("Unknown error"),
        }
        return Err(OidcError::Auth(text));
    }
    let tokens = match reply.tokens {
        Ok(tokens) => tokens,
        Err(complaint) => {
            return Err(
                OidcError::Auth(concat2("Failed to parse token response: ", complaint.as_str())),
            );
        },
    };
    match validate_token_response(&tokens) {
        Ok(()) => Ok(tokens),
        Err(e) => Err(e),
    }
}

/// Where the provider is reached.
#[derive(Debug)]
pub struct ProviderEndpoints {
    pub authorization_endpoint: String,
    pub token_endpoint: String,
}

/// The endpoints of a provider, or why they cannot be resolved. A discovery
/// document comes first; without one the profile must name both endpoints.
/// Either way both must be absolute URLs that use HTTP or HTTPS.
pub open spec fn resolved_endpoints(
    authorization_endpoint: Option<Seq<char>>,
    token_endpoint: Option<Seq<char>>,
    discovered: Option<DiscoveryDocument>,
) -> Result<(Seq<char>, Seq<char>), ErrorModel> {
    match discovered {
        Some(doc) => if !is_web_url(doc.authorization_endpoint@) {
            Err(ErrorModel::Discovery("Invalid authorization_endpoint URL"@))
        } else if !is_web_url(doc.token_endpoint@) {
            Err(ErrorModel::Discovery("Invalid token_endpoint URL"@))
        } else {
            Ok((doc.authorization_endpoint@, doc.token_endpoint@))
        },
        None => match authorization_endpoint {
            None => Err(ErrorModel::Config("Missing authorization endpoint"@)),
            Some(authorization) => match token_endpoint {
                None => Err(ErrorModel::Config("Missing token endpoint"@)),
                Some(token) => if !is_web_url(authorization) {
                    Err(ErrorModel::Config("Invalid authorization endpoint: "@ + authorization))
                } else if !is_web_url(token) {
                    Err(ErrorModel::Config("Invalid token endpoint: "@ + token))
                } else {
                    Ok((authorization, token))
                },
            },
        },
    }
}

/// Resolved endpoints are absolute URLs that use HTTP or HTTPS, wherever they
/// come from.
pub proof fn resolved_endpoints_are_web_urls(
    authorization_endpoint: Option<Seq<char>>,
    token_endpoint: Option<Seq<char>>,
    discovered: Option<DiscoveryDocument>,
)
    ensures
        resolved_endpoints(authorization_endpoint, token_endpoint, discovered) matches Ok(
            endpoints,
        ) ==> is_web_url(endpoints.0) && is_web_url(endpoints.1),
{
}

/// Resolves the endpoints of a profile, from the discovery document if one
/// was fetched.
pub fn resolve_endpoints(profile: &Profile, discovered: Option<DiscoveryDocument>) -> (r: Result<
    ProviderEndpoints,
    OidcError,
>)
    ensures
        match r {
            Ok(endpoints) => resolved_endpoints(
                profile@.authorization_endpoint,
                profile@.token_endpoint,
                discovered,
            ) == Ok::<(Seq<char>, Seq<char>), ErrorModel>(
                (endpoints.authorization_endpoint@, endpoints.token_endpoint@),
            ),
            Err(e) => resolved_endpoints(
                profile@.authorization_endpoint,
                profile@.token_endpoint,
                discovered,
            ) == Err::<(Seq<char>, Seq<char>), ErrorModel>(e@),
        },
{
    match discovered {
        Some(doc) => {
            if !parses_as_web_url(doc.authorization_endpoint.as_str()) {
                return Err(
                    OidcError::Discovery("Invalid authorization_endpoint URL".to_string()),
                );
            }
            if !parses_as_web_url(doc.token_endpoint.as_str()) {
                return Err(OidcError::Discovery("Invalid token_endpoint URL".to_string()));
            }
            Ok(
                ProviderEndpoints {
                    authorization_endpoint: doc.authorization_endpoint,
                    token_endpoint: doc.token_endpoint,
                },
            )
        },
        None => {
            let authorization_endpoint = match &profile.authorization_endpoint {
                Some(endpoint) => endpoint.clone(),
                None => {
                    return Err(OidcError::Config("Missing authorization endpoint".to_string()));
                },
            };
            let token_endpoint = match &profile.token_endpoint {
                Some(endpoint) => endpoint.clone(),
                None => {
                    return Err(OidcError::Config("Missing token endpoint".to_string()));
                },
            };
            if !parses_as_web_url(authorization_endpoint.as_str()) {
                return Err(
                    OidcError::Config(
                        concat2("Invalid authorization endpoint: ", authorization_endpoint.as_str()),
                    ),
                );
            }
            if !parses_as_web_url(token_endpoint.as_str()) {
                return Err(
                    OidcError::Config(concat2("Invalid token endpoint: ", token_endpoint.as_str())),
                );
            }
            Ok(ProviderEndpoints { authorization_endpoint, token_endpoint })
        },
    }
}

/// A profile with its resolved endpoints, which are absolute URLs that use
/// HTTP or HTTPS.
#[derive(Debug)]
pub struct OAuthClient {
    profile: Profile,
    authorization_endpoint: String,
    token_endpoint: String,
}

fn short_enough(text: &str) -> (r: bool)
    ensures
        r == (text@.len() <= MAX_QUERY_TEXT),
{
    text.unicode_len() <= MAX_QUERY_TEXT
}

impl OAuthClient {
    #[verifier::type_invariant]
    spec fn endpoints_are_web_urls(&self) -> bool {
        is_web_url(self.authorization_endpoint@) && is_web_url(self.token_endpoint@)
    }

    /// The profile.
    pub closed spec fn profile(&self) -> Profile {
        self.profile
    }

    /// The authorization endpoint.
    pub closed spec fn authorization_endpoint(&self) -> Seq<char> {
        self.authorization_endpoint@
    }

    /// The token endpoint.
    pub closed spec fn token_endpoint(&self) -> Seq<char> {
        self.token_endpoint@
    }

    /// Whether the texts of an authorization request are short enough to be
    /// written into one URL.
    pub open spec fn fits(&self) -> bool {
        &&& self.authorization_endpoint().len() <= MAX_QUERY_TEXT
        &&& self.profile().client_id@.len() <= MAX_QUERY_TEXT
        &&& self.profile().redirect_uri@.len() <= MAX_QUERY_TEXT
        &&& self.profile().scope@.len() <= MAX_QUERY_TEXT
    }

    /// A client for a profile, with the endpoints of the discovery document
    /// if one was fetched, else with those that the profile names.
    pub fn new(profile: Profile, discovered: Option<DiscoveryDocument>) -> (r: Result<
        OAuthClient,
        OidcError,
    >)
        ensures
            match r {
                Ok(client) => client.profile() == profile && resolved_endpoints(
                    profile@.authorization_endpoint,
                    profile@.token_endpoint,
                    discovered,
                ) == Ok::<(Seq<char>, Seq<char>), ErrorModel>(
                    (client.authorization_endpoint(), client.token_endpoint()),
                ) && is_web_url(client.authorization_endpoint()) && is_web_url(
                    client.token_endpoint(),
                ),
                Err(e) => resolved_endpoints(
                    profile@.authorization_endpoint,
                    profile@.token_endpoint,
                    discovered,
                ) == Err::<(Seq<char>, Seq<char>), ErrorModel>(e@),
            },
    {
        match resolve_endpoints(&profile, discovered) {
            Ok(endpoints) => Ok(
                OAuthClient {
                    profile,
                    authorization_endpoint: endpoints.authorization_endpoint,
                    token_endpoint: endpoints.token_endpoint,
                },
            ),
            Err(e) => Err(e),
        }
    }

    /// The profile.
    pub fn get_profile(&self) -> (r: &Profile)
        ensures
            *r == self.profile(),
    {
        &self.profile
    }

    /// The authorization endpoint, an absolute URL that uses HTTP or HTTPS.
    pub fn get_authorization_endpoint(&self) -> (r: &str)
        ensures
            r@ == self.authorization_endpoint(),
            is_web_url(r@),
    {
        proof {
            use_type_invariant(self);
        }
        self.authorization_endpoint.as_str()
    }

    /// The token endpoint, an absolute URL that uses HTTP or HTTPS.
    pub fn get_token_endpoint(&self) -> (r: &str)
        ensures
            r@ == self.token_endpoint(),
            is_web_url(r@),
    {
        proof {
            use_type_invariant(self);
        }
        self.token_endpoint.as_str()
    }

    /// Whether the texts of an authorization request are short enough.
    pub fn check_fits(&self) -> (r: bool)
        ensures
            r == self.fits(),
    {
        short_enough(self.authorization_endpoint.as_str()) && short_enough(
            self.profile.client_id.as_str(),
        ) && short_enough(self.profile.redirect_uri.as_str()) && short_enough(
            self.profile.scope.as_str(),
        )
    }

    /// The authorization request for given PKCE material and state: the
    /// authorization endpoint with the parameters of `authorization_pairs`
    /// appended to its query. It succeeds: the endpoint of a client is a URL.
    pub fn authorization_request_with(&self, pkce_challenge: PkceChallenge, state: String) -> (r:
        Result<AuthorizationRequest, OidcError>)
        requires
            self.fits(),
            pkce_challenge.challenge@.len() <= MAX_QUERY_TEXT,
            state@.len() <= MAX_QUERY_TEXT,
        ensures
            r matches Ok(request) && request.pkce_challenge == pkce_challenge && request.state
                == state && request.authorization_url@ == url_with_query(
                self.authorization_endpoint(),
                authorization_pairs(
                    self.profile().client_id@,
                    self.profile().redirect_uri@,
                    self.profile().scope@,
                    state@,
                    pkce_challenge.challenge@,
                ),
            ),
    {
        proof {
            use_type_invariant(self);
        }
        let pairs = authorization_query(
            &self.profile,
            state.as_str(),
            pkce_challenge.challenge.as_str(),
        );
        proof {
            reveal_strlit("response_type");
            reveal_strlit("client_id");
            reveal_strlit("redirect_uri");
            reveal_strlit("scope");
            reveal_strlit("state");
            reveal_strlit("code_challenge");
            reveal_strlit("code_challenge_method");
            reveal_strlit("code");
            reveal_strlit("S256");
        }
        match append_query_pairs(self.authorization_endpoint.as_str(), &pairs) {
            Ok(authorization_url) => Ok(
                AuthorizationRequest { authorization_url, state, pkce_challenge },
            ),
            Err(e) => Err(OidcError::Url(e)),
        }
    }

    /// A fresh authorization request: new PKCE material and a new state, and
    /// the URL that carries the challenge and the state. It succeeds.
    pub fn create_authorization_request(&self) -> (r: Result<AuthorizationRequest, OidcError>)
        requires
            self.fits(),
        ensures
            r matches Ok(request) && request.pkce_challenge.wf() && is_state_token(request.state@)
                && request.authorization_url@ == url_with_query(
                self.authorization_endpoint(),
                authorization_pairs(
                    self.profile().client_id@,
                    self.profile().redirect_uri@,
                    self.profile().scope@,
                    request.state@,
                    request.pkce_challenge.challenge@,
                ),
            ),
    {
        let pkce_challenge = match PkceChallenge::new() {
            Ok(pkce) => pkce,
            Err(e) => {
                return Err(e);
            },
        };
        let state = match generate_state() {
            Ok(state) => state,
            Err(e) => {
                return Err(e);
            },
        };
        self.authorization_request_with(pkce_challenge, state)
    }

    /// The first half of the token exchange: the state that came back is held
    /// against the state that was sent, and only if they are equal is there a
    /// request to post. The second half is `complete_token_exchange`.
    pub fn exchange_code_for_tokens(
        &self,
        authorization_code: &str,
        state: &str,
        expected_state: &str,
        pkce_verifier: &str,
    ) -> (r: Result<TokenRequest, OidcError>)
        ensures
            r is Err <==> state@ != expected_state@,
            r matches Err(e) ==> e@ == ErrorModel::StateMismatch,
            r matches Ok(request) ==> {
                &&& request.url@ == self.token_endpoint()
                &&& request.form.deep_view() == token_form(
                    authorization_code@,
                    self.profile().redirect_uri@,
                    self.profile().client_id@,
                    pkce_verifier@,
                )
                &&& request.timeout_seconds == REQUEST_TIMEOUT_SECONDS
                &&& match self.profile().client_secret {
                    Some(secret) => request.basic_auth matches Some(login) && login.0@
                        == self.profile().client_id@ && login.1@ == secret@,
                    None => request.basic_auth is None,
                }
            },
    {
        if !(*state == *expected_state) {
            return Err(OidcError::StateMismatch);
        }
        let mut form: Vec<(String, String)> = Vec::new();
        form.push(pair("grant_type", "authorization_code"));
        form.push(pair("code", authorization_code));
        form.push(pair("redirect_uri", self.profile.redirect_uri.as_str()));
        form.push(pair("client_id", self.profile.client_id.as_str()));
        form.push(pair("code_verifier", pkce_verifier));
        assert(form.deep_view() =~= token_form(
            authorization_code@,
            self.profile().redirect_uri@,
            self.profile().client_id@,
            pkce_verifier@,
        ));
        let basic_auth = match &self.profile.client_secret {
            Some(secret) => Some((self.profile.client_id.clone(), secret.clone())),
            None => None,
        };
        Ok(
            TokenRequest {
                url: self.token_endpoint.clone(),
                form,
                basic_auth,
                timeout_seconds: REQUEST_TIMEOUT_SECONDS,
            },
        )
    }
}

impl Clone for OAuthClient {
    fn clone(&self) -> (r: Self)
        ensures
            r.profile() == self.profile(),
            r.authorization_endpoint() == self.authorization_endpoint(),
            r.token_endpoint() == self.token_endpoint(),
    {
        proof {
            use_type_invariant(self);
        }
        OAuthClient {
            profile: self.profile.clone(),
            authorization_endpoint: self.authorization_endpoint.clone(),
            token_endpoint: self.token_endpoint.clone(),
        }
    }
}

} // verus!
