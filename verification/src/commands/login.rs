//! The login flow: resolve the endpoints, build the authorization request,
//! open the browser, wait for the callback, exchange the code for tokens.
//! The flow is a state machine. The caller performs what an action asks for
//! (a fetch, the browser, the listener, a prompt, a post) and hands the
//! outcome back as the next event.

use vstd::prelude::*;
use vstd::string::*;
use crate::auth::discovery::{
    discover_endpoints,
    discovery_request,
    reply_fault,
    DiscoveryDocument,
    DiscoveryRequest,
    DiscoveryResponse,
    REQUEST_TIMEOUT_SECONDS,
};
use crate::auth::oauth::{
    authorization_pairs,
    complete_token_exchange,
    resolved_endpoints,
    token_form,
    token_reply_fault,
    AuthorizationRequest,
    OAuthClient,
    TokenReply,
    TokenRequest,
    TokenResponse,
};
use crate::config::Profile;
use crate::crypto::is_state_token;
use crate::error::{ErrorModel, OidcError};
use crate::server::CallbackResult;
use crate::text::{concat3, opt_text};
use crate::trusted::{parse_url, url_parse, url_with_query};
use crate::utils::url::{is_localhost_uri, redirect_port};

verus! {

/// The seconds for which the flow waits for the callback.
pub const CALLBACK_TIMEOUT_SECONDS: u64 = 300;

/// The port of the listener where neither the caller nor the redirect URI
/// names one.
pub const DEFAULT_PORT: u16 = 8080;

/// Where a flow stands.
#[derive(Debug)]
pub enum FlowStage {
    /// The profile is known; its endpoints are not.
    Initiated { profile: Profile },
    /// The endpoints are known.
    EndpointsResolved { client: OAuthClient },
    /// The authorization request is built and the browser is asked for.
    RequestBuilt { client: OAuthClient, request: AuthorizationRequest },
    /// The flow waits for the provider's redirect, or for the code by hand.
    AwaitingCallback { client: OAuthClient, request: AuthorizationRequest },
    /// The code was accepted and the token request is under way.
    ExchangingTokens,
    /// The flow ended with a usable grant.
    TokensExchanged { tokens: TokenResponse },
    /// The flow ended with an error.
    Failed { error: OidcError },
}

/// What the caller reports.
#[derive(Debug)]
pub enum FlowEvent {
    /// The flow is to begin.
    Start,
    /// The provider answered the discovery request.
    Discovered(DiscoveryResponse),
    /// The last action asked for nothing outside: go on.
    Continue,
    /// The browser was asked to open the URL, with or without success.
    BrowserOpened(bool),
    /// The listener delivered the outcome of a redirect.
    Callback(CallbackResult),
    /// The user entered the code by hand.
    CodeEntered(String),
    /// The deadline for the callback passed.
    DeadlinePassed,
    /// The listener went away without an outcome.
    ListenerClosed,
    /// The token endpoint answered.
    TokenReplied(TokenReply),
    /// A request did not get through; the text says why.
    TransportFailed(String),
    /// The user interrupted the flow.
    Interrupted,
}

/// What the caller is asked to do next.
#[derive(Debug)]
pub enum FlowAction {
    /// Fetch the discovery document and report `Discovered`.
    FetchDiscovery(DiscoveryRequest),
    /// Nothing outside: report `Continue`.
    Continue,
    /// Open the URL in the browser and report `BrowserOpened`.
    OpenBrowser { url: String },
    /// Listen on the port for the redirect, for so many seconds, and report
    /// what comes of it. With `show_url` the browser did not open: show the
    /// URL for the user to open.
    AwaitCallback { port: u16, redirect_uri: String, timeout_seconds: u64, show_url: Option<String> },
    /// Ask the user for the code and report `CodeEntered`.
    AskForCode { show_url: Option<String> },
    /// Post the token request and report `TokenReplied`.
    PostToken(TokenRequest),
    /// The flow ended; the tokens are in the state.
    Deliver,
    /// The flow ended; the error is in the state.
    Fail,
    /// The event does not belong to the state: nothing changed.
    Ignore,
}

impl FlowStage {
    /// Whether the flow has ended.
    pub open spec fn is_terminal(self) -> bool {
        self is TokensExchanged || self is Failed
    }

    /// Whether the flow has ended.
    pub fn has_ended(&self) -> (r: bool)
        ensures
            r == self.is_terminal(),
    {
        match self {
            FlowStage::TokensExchanged { .. } => true,
            FlowStage::Failed { .. } => true,
            _ => false,
        }
    }
}

/// The flow failed with the given error.
pub open spec fn failed_with(after: FlowStage, action: FlowAction, fault: ErrorModel) -> bool {
    after matches FlowStage::Failed { error } && error@ == fault && action is Fail
}

/// Nothing changed.
pub open spec fn ignored(before: FlowStage, after: FlowStage, action: FlowAction) -> bool {
    after == before && action is Ignore
}

/// The endpoints were resolved for the profile.
pub open spec fn resolved(
    after: FlowStage,
    action: FlowAction,
    profile: Profile,
    endpoints: (Seq<char>, Seq<char>),
) -> bool {
    after matches FlowStage::EndpointsResolved { client } && client.profile() == profile
        && client.authorization_endpoint() == endpoints.0 && client.token_endpoint() == endpoints.1
        && action is Continue
}

/// A step from `Initiated`.
pub open spec fn step_from_initiated(
    profile: Profile,
    event: FlowEvent,
    after: FlowStage,
    action: FlowAction,
) -> bool {
    let before = FlowStage::Initiated { profile };
    match event {
        FlowEvent::Start => match profile.discovery_uri {
            Some(uri) => if url_parse(uri@) is Some {
                &&& after == before
                &&& action matches FlowAction::FetchDiscovery(request)
                &&& request.url@ == uri@
                &&& request.accept@ == "application/json"@
                &&& request.timeout_seconds == REQUEST_TIMEOUT_SECONDS
            } else {
                failed_with(
                    after,
                    action,
                    ErrorModel::Discovery("Invalid discovery URI: "@ + uri@),
                )
            },
            None => match resolved_endpoints(
                profile@.authorization_endpoint,
                profile@.token_endpoint,
                None,
            ) {
                Ok(endpoints) => resolved(after, action, profile, endpoints),
                Err(fault) => failed_with(after, action, fault),
            },
        },
        FlowEvent::Discovered(response) => match reply_fault(response) {
            Some(fault) => failed_with(after, action, fault),
            None => response.document matches Ok(doc) && resolved(
                after,
                action,
                profile,
                (doc.authorization_endpoint@, doc.token_endpoint@),
            ),
        },
        FlowEvent::TransportFailed(reason) => failed_with(
            after,
            action,
            ErrorModel::Network(reason@),
        ),
        FlowEvent::Interrupted => failed_with(after, action, ErrorModel::Cancelled),
        _ => ignored(before, after, action),
    }
}

pub const TOO_LARGE: &'static str = "Authorization request is too large";

/// A step from `EndpointsResolved`.
pub open spec fn step_from_resolved(
    client: OAuthClient,
    event: FlowEvent,
    after: FlowStage,
    action: FlowAction,
) -> bool {
    let before = FlowStage::EndpointsResolved { client };
    match event {
        FlowEvent::Continue => if !client.fits() {
            failed_with(after, action, ErrorModel::Config(TOO_LARGE@))
        } else {
            &&& after matches FlowStage::RequestBuilt { client: kept, request }
            &&& kept == client
            &&& request.pkce_challenge.wf()
            &&& is_state_token(request.state@)
            &&& request.authorization_url@ == url_with_query(
                client.authorization_endpoint(),
                authorization_pairs(
                    client.profile().client_id@,
                    client.profile().redirect_uri@,
                    client.profile().scope@,
                    request.state@,
                    request.pkce_challenge.challenge@,
                ),
            )
            &&& action matches FlowAction::OpenBrowser { url }
            &&& url@ == request.authorization_url@
        },
        FlowEvent::Interrupted => failed_with(after, action, ErrorModel::Cancelled),
        _ => ignored(before, after, action),
    }
}

/// The port on which to listen for a loopback redirect URI: the caller's, else
/// the URI's, else the default.
pub open spec fn listener_port(port: Option<u16>, redirect_uri: Seq<char>) -> u16 {
    match port {
        Some(chosen) => chosen,
        None => match redirect_port(redirect_uri) {
            Some(named) => named,
            None => DEFAULT_PORT,
        },
    }
}

/// A step from `RequestBuilt`.
pub open spec fn step_from_built(
    client: OAuthClient,
    request: AuthorizationRequest,
    port: Option<u16>,
    event: FlowEvent,
    after: FlowStage,
    action: FlowAction,
) -> bool {
    let before = FlowStage::RequestBuilt { client, request };
    let redirect_uri = client.profile().redirect_uri@;
    match event {
        FlowEvent::BrowserOpened(opened) => {
            &&& after == (FlowStage::AwaitingCallback { client, request })
            &&& if is_localhost_uri(redirect_uri) {
                &&& action matches FlowAction::AwaitCallback {
                    port: chosen,
                    redirect_uri: served,
                    timeout_seconds,
                    show_url,
                }
                &&& chosen == listener_port(port, redirect_uri)
                &&& served@ == redirect_uri
                &&& timeout_seconds == CALLBACK_TIMEOUT_SECONDS
                &&& opt_text(show_url) == if opened {
                    None
                } else {
                    Some(request.authorization_url@)
                }
            } else {
                &&& action matches FlowAction::AskForCode { show_url }
                &&& opt_text(show_url) == if opened {
                    None
                } else {
                    Some(request.authorization_url@)
                }
            }
        },
        FlowEvent::Interrupted => failed_with(after, action, ErrorModel::Cancelled),
        _ => ignored(before, after, action),
    }
}

/// The code is exchanged: where the state that came back is the state that
/// was sent, the token request is posted; else the flow fails and nothing
/// is posted.
pub open spec fn exchange_begun(
    client: OAuthClient,
    request: AuthorizationRequest,
    code: Seq<char>,
    state: Seq<char>,
    after: FlowStage,
    action: FlowAction,
) -> bool {
    if state != request.state@ {
        failed_with(after, action, ErrorModel::StateMismatch)
    } else {
        &&& after is ExchangingTokens
        &&& action matches FlowAction::PostToken(post)
        &&& post.url@ == client.token_endpoint()
        &&& post.form.deep_view() == token_form(
            code,
            client.profile().redirect_uri@,
            client.profile().client_id@,
            request.pkce_challenge.verifier@,
        )
        &&& post.timeout_seconds == REQUEST_TIMEOUT_SECONDS
        &&& match client.profile().client_secret {
            Some(secret) => post.basic_auth matches Some(login) && login.0@
                == client.profile().client_id@ && login.1@ == secret@,
            None => post.basic_auth is None,
        }
    }
}

/// The error for an outcome in which the provider reported an error.
pub open spec fn provider_fault(error: Seq<char>, description: Option<Seq<char>>) -> ErrorModel {
    ErrorModel::Auth(
        "Authentication failed: "@ + error + " - "@ + match description {
            Some(text) => text,
            None => Seq::empty(),
        },
    )
}

/// A step from `AwaitingCallback`.
pub open spec fn step_from_awaiting(
    client: OAuthClient,
    request: AuthorizationRequest,
    event: FlowEvent,
    after: FlowStage,
    action: FlowAction,
) -> bool {
    let before = FlowStage::AwaitingCallback { client, request };
    match event {
        FlowEvent::Callback(result) => match result.error {
            Some(error) => failed_with(
                after,
                action,
                provider_fault(error@, opt_text(result.error_description)),
            ),
            None => exchange_begun(client, request, result.code@, result.state@, after, action),
        },
        FlowEvent::CodeEntered(code) => exchange_begun(
            client,
            request,
            code@,
            request.state@,
            after,
            action,
        ),
        FlowEvent::DeadlinePassed => failed_with(after, action, ErrorModel::AuthTimeout),
        FlowEvent::ListenerClosed => failed_with(
            after,
            action,
            ErrorModel::Auth("Failed to receive callback"@),
        ),
        FlowEvent::Interrupted => failed_with(after, action, ErrorModel::Cancelled),
        _ => ignored(before, after, action),
    }
}

/// A step from `ExchangingTokens`.
pub open spec fn step_from_exchanging(event: FlowEvent, after: FlowStage, action: FlowAction)
    -> bool {
    match event {
        FlowEvent::TokenReplied(reply) => match token_reply_fault(reply) {
            Some(fault) => failed_with(after, action, fault),
            None => after matches FlowStage::TokensExchanged { tokens } && reply.tokens == Ok::<
                TokenResponse,
                String,
            >(tokens) && tokens.is_valid() && action is Deliver,
        },
        FlowEvent::TransportFailed(reason) => failed_with(
            after,
            action,
            ErrorModel::Network(reason@),
        ),
        FlowEvent::Interrupted => failed_with(after, action, ErrorModel::Cancelled),
        _ => ignored(FlowStage::ExchangingTokens, after, action),
    }
}

/// One step of the flow: what state and action may follow a state and an
/// event. Random material aside, they are determined.
pub open spec fn flow_step(
    before: FlowStage,
    port: Option<u16>,
    event: FlowEvent,
    after: FlowStage,
    action: FlowAction,
) -> bool {
    match before {
        FlowStage::Initiated { profile } => step_from_initiated(profile, event, after, action),
        FlowStage::EndpointsResolved { client } => step_from_resolved(
            client,
            event,
            after,
            action,
        ),
        FlowStage::RequestBuilt { client, request } => step_from_built(
            client,
            request,
            port,
            event,
            after,
            action,
        ),
        FlowStage::AwaitingCallback { client, request } => step_from_awaiting(
            client,
            request,
            event,
            after,
            action,
        ),
        FlowStage::ExchangingTokens => step_from_exchanging(event, after, action),
        FlowStage::TokensExchanged { .. } => ignored(before, after, action),
        FlowStage::Failed { .. } => ignored(before, after, action),
    }
}

fn fail(error: OidcError) -> (r: (FlowStage, FlowAction))
    ensures
        r.0 matches FlowStage::Failed { error: kept } && kept == error,
        r.1 is Fail,
{
    (FlowStage::Failed { error }, FlowAction::Fail)
}

fn resolve(profile: Profile, discovered: Option<DiscoveryDocument>) -> (r: (
    FlowStage,
    FlowAction,
))
    ensures
        match resolved_endpoints(
            profile@.authorization_endpoint,
            profile@.token_endpoint,
            discovered,
        ) {
            Ok(endpoints) => resolved(r.0, r.1, profile, endpoints),
            Err(fault) => failed_with(r.0, r.1, fault),
        },
{
    match OAuthClient::new(profile, discovered) {
        Ok(client) => (FlowStage::EndpointsResolved { client }, FlowAction::Continue),
        Err(e) => fail(e),
    }
}

fn begin_exchange(
    client: OAuthClient,
    request: AuthorizationRequest,
    code: &str,
    state: &str,
) -> (r: (FlowStage, FlowAction))
    ensures
        exchange_begun(client, request, code@, state@, r.0, r.1),
{
    match client.exchange_code_for_tokens(
        code,
        state,
        request.state.as_str(),
        request.pkce_challenge.verifier.as_str(),
    ) {
        Ok(post) => (FlowStage::ExchangingTokens, FlowAction::PostToken(post)),
        Err(e) => fail(e),
    }
}

fn shown_url(opened: bool, request: &AuthorizationRequest) -> (r: Option<String>)
    ensures
        opt_text(r) == if opened {
            None
        } else {
            Some(request.authorization_url@)
        },
{
    if opened {
        None
    } else {
        Some(request.authorization_url.clone())
    }
}

/// Takes one step of the login flow.
pub fn handle_login(state: FlowStage, port: Option<u16>, event: FlowEvent) -> (r: (
    FlowStage,
    FlowAction,
))
    ensures
        flow_step(state, port, event, r.0, r.1),
{
    match state {
        FlowStage::Initiated { profile } => match event {
            FlowEvent::Start => {
                let request = match &profile.discovery_uri {
                    Some(uri) => Some(discovery_request(uri.as_str())),
                    None => None,
                };
                match request {
                    Some(Ok(request)) => (
                        FlowStage::Initiated { profile },
                        FlowAction::FetchDiscovery(request),
                    ),
                    Some(Err(e)) => fail(e),
                    None => resolve(profile, None),
                }
            },
            FlowEvent::Discovered(response) => match discover_endpoints(response) {
                Ok(doc) => resolve(profile, Some(doc)),
                Err(e) => fail(e),
            },
            FlowEvent::TransportFailed(reason) => fail(OidcError::Network(reason)),
            FlowEvent::Interrupted => fail(OidcError::Cancelled),
            _ => (FlowStage::Initiated { profile }, FlowAction::Ignore),
        },
        FlowStage::EndpointsResolved { client } => match event {
            FlowEvent::Continue => {
                if !client.check_fits() {
                    return fail(OidcError::Config(TOO_LARGE.to_string()));
                }
                match client.create_authorization_request() {
                    Ok(request) => {
                        let url = request.authorization_url.clone();
                        (FlowStage::RequestBuilt { client, request }, FlowAction::OpenBrowser { url })
                    },
                    Err(e) => fail(e),
                }
            },
            FlowEvent::Interrupted => fail(OidcError::Cancelled),
            _ => (FlowStage::EndpointsResolved { client }, FlowAction::Ignore),
        },
        FlowStage::RequestBuilt { client, request } => match event {
            FlowEvent::BrowserOpened(opened) => {
                let show_url = shown_url(opened, &request);
                let redirect_uri = client.get_profile().redirect_uri.clone();
                let action = match parse_url(redirect_uri.as_str()) {
                    Ok(url) => match url.listener_port() {
                        Some(named) => {
                            let chosen = match port {
                                Some(chosen) => chosen,
                                None => named,
                            };
                            FlowAction::AwaitCallback {
                                port: chosen,
                                redirect_uri,
                                timeout_seconds: CALLBACK_TIMEOUT_SECONDS,
                                show_url,
                            }
                        },
                        None => FlowAction::AskForCode { show_url },
                    },
                    Err(_) => FlowAction::AskForCode { show_url },
                };
                (FlowStage::AwaitingCallback { client, request }, action)
            },
            FlowEvent::Interrupted => fail(OidcError::Cancelled),
            _ => (FlowStage::RequestBuilt { client, request }, FlowAction::Ignore),
        },
        FlowStage::AwaitingCallback { client, request } => match event {
            FlowEvent::Callback(result) => match result.error {
                Some(error) => {
                    let mut text = concat3("Authentication failed: ", error.as_str(), " - ");
                    match &result.error_description {
                        Some(description) => text.append(description.as_str()),
                        None => {},
                    }
                    assert(text@ =~= "Authentication failed: "@ + error@ + " - "@ + match opt_text(
                        result.error_description,
                    ) {
                        Some(t) => t,
                        None => Seq::empty(),
                    });
                    fail(OidcError::Auth(text))
                },
                None => begin_exchange(
                    client,
                    request,
                    result.code.as_str(),
                    result.state.as_str(),
                ),
            },
            FlowEvent::CodeEntered(code) => {
                let state = request.state.clone();
                begin_exchange(client, request, code.as_str(), state.as_str())
            },
            FlowEvent::DeadlinePassed => fail(OidcError::AuthTimeout),
            FlowEvent::ListenerClosed => fail(
                OidcError::Auth("Failed to receive callback".to_string()),
            ),
            FlowEvent::Interrupted => fail(OidcError::Cancelled),
            _ => (FlowStage::AwaitingCallback { client, request }, FlowAction::Ignore),
        },
        FlowStage::ExchangingTokens => match event {
            FlowEvent::TokenReplied(reply) => match complete_token_exchange(reply) {
                Ok(tokens) => (FlowStage::TokensExchanged { tokens }, FlowAction::Deliver),
                Err(e) => fail(e),
            },
            FlowEvent::TransportFailed(reason) => fail(OidcError::Network(reason)),
            FlowEvent::Interrupted => fail(OidcError::Cancelled),
            _ => (FlowStage::ExchangingTokens, FlowAction::Ignore),
        },
        FlowStage::TokensExchanged { tokens } => (
            FlowStage::TokensExchanged { tokens },
            FlowAction::Ignore,
        ),
        FlowStage::Failed { error } => (FlowStage::Failed { error }, FlowAction::Ignore),
    }
}

/// A state that came back other than it was sent fails the flow with a state
/// mismatch, and nothing is posted: no step from a mismatch asks for a token
/// request.
pub proof fn state_mismatch_posts_nothing(
    client: OAuthClient,
    request: AuthorizationRequest,
    port: Option<u16>,
    result: CallbackResult,
    after: FlowStage,
    action: FlowAction,
)
    requires
        result.error is None,
        result.state@ != request.state@,
        flow_step(
            FlowStage::AwaitingCallback { client, request },
            port,
            FlowEvent::Callback(result),
            after,
            action,
        ),
    ensures
        after matches FlowStage::Failed { error } && error@ == ErrorModel::StateMismatch,
        !(action is PostToken),
{
}

/// A token request is only ever asked for while the flow waits for its
/// callback, and it carries the verifier of the challenge that the
/// authorization request was built with, under the name `code_verifier`.
pub proof fn posted_verifier_is_the_request_verifier(
    before: FlowStage,
    port: Option<u16>,
    event: FlowEvent,
    after: FlowStage,
    action: FlowAction,
)
    requires
        flow_step(before, port, event, after, action),
        action is PostToken,
    ensures
        ({
            &&& before matches FlowStage::AwaitingCallback { client, request }
            &&& action matches FlowAction::PostToken(post)
            &&& post.form.deep_view().len() == 5
            &&& post.form.deep_view()[4] == ("code_verifier"@, request.pkce_challenge.verifier@)
        }),
{
}

/// A successful callback with the state that was sent is followed by the
/// token request for its code.
pub proof fn matching_callback_posts_its_code(
    client: OAuthClient,
    request: AuthorizationRequest,
    port: Option<u16>,
    result: CallbackResult,
    after: FlowStage,
    action: FlowAction,
)
    requires
        result.error is None,
        result.state@ == request.state@,
        flow_step(
            FlowStage::AwaitingCallback { client, request },
            port,
            FlowEvent::Callback(result),
            after,
            action,
        ),
    ensures
        after is ExchangingTokens,
        action matches FlowAction::PostToken(post) && post.form.deep_view()[1] == (
            "code"@,
            result.code@,
        ) && post.url@ == client.token_endpoint(),
{
}

/// There is no partial success: the flow reaches `TokensExchanged` only from
/// the token exchange, and only with a grant that names an access token and
/// its type.
pub proof fn success_is_complete(
    before: FlowStage,
    port: Option<u16>,
    event: FlowEvent,
    after: FlowStage,
    action: FlowAction,
)
    requires
        flow_step(before, port, event, after, action),
        after is TokensExchanged,
        !(before is TokensExchanged),
    ensures
        before is ExchangingTokens,
        after matches FlowStage::TokensExchanged { tokens } && tokens.is_valid(),
        action is Deliver,
{
}

/// The two final states are final: whatever is reported, they stay and
/// nothing is asked for.
pub proof fn ended_flow_stays(
    before: FlowStage,
    port: Option<u16>,
    event: FlowEvent,
    after: FlowStage,
    action: FlowAction,
)
    requires
        flow_step(before, port, event, after, action),
        before.is_terminal(),
    ensures
        after == before,
        action is Ignore,
{
}

/// A failure ends the flow at once: a step that asks the caller to fail has
/// moved to `Failed`, and a step into `Failed` asks for nothing else.
pub proof fn failure_short_circuits(
    before: FlowStage,
    port: Option<u16>,
    event: FlowEvent,
    after: FlowStage,
    action: FlowAction,
)
    requires
        flow_step(before, port, event, after, action),
        !before.is_terminal(),
    ensures
        action is Fail <==> after is Failed,
{
}

/// An interrupt ends every flow that has not ended with the clean
/// cancellation.
pub proof fn interrupt_cancels(
    before: FlowStage,
    port: Option<u16>,
    after: FlowStage,
    action: FlowAction,
)
    requires
        flow_step(before, port, FlowEvent::Interrupted, after, action),
        !before.is_terminal(),
    ensures
        after matches FlowStage::Failed { error } && error@ == ErrorModel::Cancelled,
{
}

} // verus!
