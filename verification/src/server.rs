//! The callback listener: what it answers to a request, what it hands to the
//! waiting flow, and the states it moves through. The socket itself is the
//! caller's; this module decides.

use vstd::prelude::*;
use vstd::string::*;
use crate::error::{ErrorModel, OidcError};
use crate::text::{concat3, decimal, decimal_text, opt_text, slice_text};
use crate::utils::name_map::{has_key, value_of};
use crate::utils::url::{
    callback_path_of,
    extract_path_from_redirect_uri,
    parse_query_params,
    query_params,
    Pair,
    QueryParams,
};

verus! {

/// What one redirect delivered. On a provider error `error` is set and `code`
/// is empty.
#[derive(Debug)]
pub struct CallbackResult {
    pub code: String,
    pub state: String,
    pub error: Option<String>,
    pub error_description: Option<String>,
}

/// The model of a `CallbackResult`.
pub struct CallbackModel {
    pub code: Seq<char>,
    pub state: Seq<char>,
    pub error: Option<Seq<char>>,
    pub error_description: Option<Seq<char>>,
}

impl View for CallbackResult {
    type V = CallbackModel;

    open spec fn view(&self) -> CallbackModel {
        CallbackModel {
            code: self.code@,
            state: self.state@,
            error: opt_text(self.error),
            error_description: opt_text(self.error_description),
        }
    }
}

/// The outcome of a redirect as the flow consumes it.
#[derive(Debug)]
pub enum CallbackOutcome {
    Success { code: String, state: String },
    ProviderError { error: String, error_description: Option<String> },
}

impl CallbackResult {
    /// The outcome that this result stands for: a provider error where
    /// `error` is set, a success otherwise.
    pub fn outcome(&self) -> (r: CallbackOutcome)
        ensures
            match self.error {
                Some(error) => r == (CallbackOutcome::ProviderError {
                    error,
                    error_description: self.error_description,
                }),
                None => r == (CallbackOutcome::Success { code: self.code, state: self.state }),
            },
    {
        match &self.error {
            Some(error) => {
                let error_description = match &self.error_description {
                    Some(text) => Some(text.clone()),
                    None => None,
                };
                CallbackOutcome::ProviderError { error: error.clone(), error_description }
            },
            None => CallbackOutcome::Success {
                code: self.code.clone(),
                state: self.state.clone(),
            },
        }
    }
}

/// The value of `key` among `params`, if it is there.
pub open spec fn param(params: Seq<Pair>, key: Seq<char>) -> Option<Seq<char>> {
    if has_key(params, key) {
        Some(value_of(params, key))
    } else {
        None
    }
}

/// What the parameters of a redirect deliver. With `error`: a provider error,
/// with the description and state if they are there. Else with both `code`
/// and `state`: a success. Else nothing.
pub open spec fn delivery_of(params: Seq<Pair>) -> Option<CallbackModel> {
    if param(params, "error"@) is Some {
        Some(
            CallbackModel {
                code: Seq::empty(),
                state: match param(params, "state"@) {
                    Some(state) => state,
                    None => Seq::empty(),
                },
                error: param(params, "error"@),
                error_description: param(params, "error_description"@),
            },
        )
    } else if param(params, "code"@) is Some && param(params, "state"@) is Some {
        Some(
            CallbackModel {
                code: param(params, "code"@).unwrap(),
                state: param(params, "state"@).unwrap(),
                error: None,
                error_description: None,
            },
        )
    } else {
        None
    }
}

fn param_text(params: &QueryParams, key: &str) -> (r: Option<String>)
    ensures
        opt_text(r) == param(params@, key@),
{
    match params.get(key) {
        Some(value) => Some(value.clone()),
        None => None,
    }
}

/// Reads the outcome of a redirect from its decoded parameters.
pub fn callback_from_params(params: &QueryParams) -> (r: Option<CallbackResult>)
    ensures
        match r {
            Some(result) => delivery_of(params@) == Some(result@),
            None => delivery_of(params@) is None,
        },
{
    match param_text(params, "error") {
        Some(error) => {
            let state = match param_text(params, "state") {
                Some(state) => state,
                None => String::new(),
            };
            Some(
                CallbackResult {
                    code: String::new(),
                    state,
                    error: Some(error),
                    error_description: param_text(params, "error_description"),
                },
            )
        },
        None => match param_text(params, "code") {
            Some(code) => match param_text(params, "state") {
                Some(state) => Some(
                    CallbackResult { code, state, error: None, error_description: None },
                ),
                None => None,
            },
            None => None,
        },
    }
}

pub const CONTENT_TYPE: &'static str = "text/html; charset=utf-8";

pub const CACHE_CONTROL: &'static str = "no-cache, no-store, must-revalidate";

pub const PAGE_STYLE: &'static str = "    <style>
        body { 
            font-family: Arial, sans-serif; 
            display: flex; 
            justify-content: center; 
            align-items: center; 
            height: 100vh; 
            margin: 0; 
            background-color: #f5f5f5; 
        }
        .container { 
            text-align: center; 
            background: white; 
            padding: 2rem; 
            border-radius: 8px; 
            box-shadow: 0 2px 10px rgba(0,0,0,0.1); 
        }
";

pub const SUCCESS_HEAD: &'static str = "
<!DOCTYPE html>
<html>
<head>
    <title>Authentication Successful</title>
";

pub const SUCCESS_TAIL: &'static str = "        .success { color: #28a745; }
        .message { margin-top: 1rem; color: #666; }
    </style>
</head>
<body>
    <div class=\"container\">
        <h1 class=\"success\">\u{2713} Authentication Successful!</h1>
        <p class=\"message\">You can now close this browser window and return to the terminal.</p>
    </div>
</body>
</html>
";

pub const FAILURE_HEAD: &'static str = "
<!DOCTYPE html>
<html>
<head>
    <title>Authentication Error</title>
";

pub const FAILURE_BODY: &'static str = "        .error { color: #dc3545; }
        .message { margin-top: 1rem; color: #666; }
        .details { margin-top: 1rem; padding: 1rem; background: #f8f9fa; border-radius: 4px; }
    </style>
</head>
<body>
    <div class=\"container\">
        <h1 class=\"error\">\u{2717} Authentication Failed</h1>
        <p class=\"message\">Please close this browser window and try again.</p>
        <div class=\"details\">
            <strong>Error:</strong> ";

pub const FAILURE_DESCRIPTION: &'static str = "<br>
            <strong>Description:</strong> ";

pub const FAILURE_TAIL: &'static str = "
        </div>
    </div>
</body>
</html>
";

pub const DEFAULT_DESCRIPTION: &'static str = "An authentication error occurred";

pub const STATUS_HEAD: &'static str = "
<!DOCTYPE html>
<html>
<head>
    <title>Error</title>
";

pub const STATUS_BODY: &'static str = "        .error { color: #dc3545; }
    </style>
</head>
<body>
    <div class=\"container\">
        <h1 class=\"error\">";

pub const STATUS_TAIL: &'static str = "</h1>
    </div>
</body>
</html>
";

/// The page shown after a successful redirect.
pub open spec fn success_page() -> Seq<char> {
    SUCCESS_HEAD@ + PAGE_STYLE@ + SUCCESS_TAIL@
}

/// The page shown after a provider error: the error and its description, or
/// a default description, between fixed text.
pub open spec fn failure_page(error: Seq<char>, description: Option<Seq<char>>) -> Seq<char> {
    FAILURE_HEAD@ + PAGE_STYLE@ + FAILURE_BODY@ + error + FAILURE_DESCRIPTION@ + match description {
        Some(text) => text,
        None => DEFAULT_DESCRIPTION@,
    } + FAILURE_TAIL@
}

/// The page shown with a bare status: the status in decimal, ` - `, and the
/// message, between fixed text.
pub open spec fn status_page(status: u16, message: Seq<char>) -> Seq<char> {
    STATUS_HEAD@ + PAGE_STYLE@ + STATUS_BODY@ + decimal_text(status as nat) + " - "@ + message
        + STATUS_TAIL@
}

/// A response for the caller to send.
#[derive(Debug)]
pub struct HttpResponse {
    pub status: u16,
    pub content_type: String,
    pub cache_control: String,
    pub body: String,
}

/// The model of a response.
pub struct ResponseModel {
    pub status: u16,
    pub content_type: Seq<char>,
    pub cache_control: Seq<char>,
    pub body: Seq<char>,
}

impl View for HttpResponse {
    type V = ResponseModel;

    open spec fn view(&self) -> ResponseModel {
        ResponseModel {
            status: self.status,
            content_type: self.content_type@,
            cache_control: self.cache_control@,
            body: self.body@,
        }
    }
}

/// An HTML response that nothing may cache.
pub open spec fn html_response(status: u16, body: Seq<char>) -> ResponseModel {
    ResponseModel { status, content_type: CONTENT_TYPE@, cache_control: CACHE_CONTROL@, body }
}

fn respond(status: u16, body: String) -> (r: HttpResponse)
    ensures
        r@ == html_response(status, body@),
{
    HttpResponse {
        status,
        content_type: CONTENT_TYPE.to_string(),
        cache_control: CACHE_CONTROL.to_string(),
        body,
    }
}

/// The response after a successful redirect: 200 with the success page.
pub fn create_success_response() -> (r: HttpResponse)
    ensures
        r@ == html_response(200, success_page()),
{
    respond(200, concat3(SUCCESS_HEAD, PAGE_STYLE, SUCCESS_TAIL))
}

/// The response after a provider error: 400 with the failure page.
pub fn create_error_response(error: &str, error_description: Option<&str>) -> (r: HttpResponse)
    ensures
        r@ == html_response(
            400,
            failure_page(
                error@,
                slice_text(error_description),
            ),
        ),
{
    let description = match error_description {
        Some(text) => text,
        None => DEFAULT_DESCRIPTION,
    };
    let mut body = concat3(FAILURE_HEAD, PAGE_STYLE, FAILURE_BODY);
    body.append(error);
    body.append(FAILURE_DESCRIPTION);
    body.append(description);
    body.append(FAILURE_TAIL);
    respond(400, body)
}

/// The response with a bare status and message.
pub fn create_error_response_with_status(status: u16, message: &str) -> (r: HttpResponse)
    ensures
        r@ == html_response(status, status_page(status, message@)),
{
    let number = decimal(status as u64);
    let mut body = concat3(STATUS_HEAD, PAGE_STYLE, STATUS_BODY);
    body.append(number.as_str());
    body.append(" - ");
    body.append(message);
    body.append(STATUS_TAIL);
    respond(status, body)
}

/// What a request delivers to the waiting flow: the outcome in its query, for
/// a `GET` to the callback path; nothing for any other request.
pub open spec fn delivery_for(
    method: Seq<char>,
    path: Seq<char>,
    query: Option<Seq<char>>,
    callback_path: Seq<char>,
) -> Option<CallbackModel> {
    if method == "GET"@ && path == callback_path {
        match query {
            Some(q) => delivery_of(query_params(q)),
            None => None,
        }
    } else {
        None
    }
}

/// The response to a request. Not `GET`: 405. Another path: 404. The callback
/// path without an outcome in the query: 400. A provider error: 400 with the
/// failure page. A success: 200 with the success page.
pub open spec fn response_for(
    method: Seq<char>,
    path: Seq<char>,
    query: Option<Seq<char>>,
    callback_path: Seq<char>,
) -> ResponseModel {
    if method != "GET"@ {
        html_response(405, status_page(405, "Method Not Allowed"@))
    } else if path != callback_path {
        html_response(404, status_page(404, "Not Found"@))
    } else {
        match delivery_for(method, path, query, callback_path) {
            None => html_response(400, status_page(400, "Missing required parameters"@)),
            Some(result) => match result.error {
                Some(error) => html_response(400, failure_page(error, result.error_description)),
                None => html_response(200, success_page()),
            },
        }
    }
}

/// A response, and what the request delivers to the waiting flow.
#[derive(Debug)]
pub struct Handled {
    pub response: HttpResponse,
    pub delivery: Option<CallbackResult>,
}

/// The model of an optional result.
pub open spec fn result_model(value: Option<CallbackResult>) -> Option<CallbackModel> {
    match value {
        Some(result) => Some(result@),
        None => None,
    }
}

/// Decides one request: the response to send and the outcome to deliver.
pub fn handle_request(method: &str, path: &str, query: Option<&str>, callback_path: &str) -> (r:
    Handled)
    ensures
        r.response@ == response_for(
            method@,
            path@,
            slice_text(query),
            callback_path@,
        ),
        result_model(r.delivery) == delivery_for(
            method@,
            path@,
            slice_text(query),
            callback_path@,
        ),
{
    if !(*method == *"GET") {
        return Handled {
            response: create_error_response_with_status(405, "Method Not Allowed"),
            delivery: None,
        };
    }
    if !(*path == *callback_path) {
        return Handled {
            response: create_error_response_with_status(404, "Not Found"),
            delivery: None,
        };
    }
    let delivery = match query {
        Some(q) => {
            let params = parse_query_params(q);
            callback_from_params(&params)
        },
        None => None,
    };
    let response = match &delivery {
        Some(result) => match &result.error {
            Some(error) => {
                let description = match &result.error_description {
                    Some(text) => Some(text.as_str()),
                    None => None,
                };
                create_error_response(error.as_str(), description)
            },
            None => create_success_response(),
        },
        None => create_error_response_with_status(400, "Missing required parameters"),
    };
    Handled { response, delivery }
}

/// The states of the listener. It starts `Idle`, listens, ends its wait in
/// one of three ways, and is stopped.
#[derive(Clone, Copy, Debug, PartialEq, Eq, Structural)]
pub enum ListenerState {
    Idle,
    Listening,
    CallbackReceived,
    TimedOut,
    Cancelled,
    Stopped,
}

/// The part of a listener that changes: its state and its queue of one place.
pub struct ListenerModel {
    pub state: ListenerState,
    pub queued: Option<CallbackModel>,
}

/// What can happen to a listener.
pub enum ListenerEvent {
    /// The socket was bound.
    Started,
    /// A request came in that delivers this outcome, or none.
    Request(Option<CallbackModel>),
    /// The flow took the queued outcome.
    Received,
    /// The deadline passed.
    Expired,
    /// The flow was interrupted.
    Interrupted,
    /// The socket was released.
    Stopped,
}

/// The listener after an event. Only an idle listener starts; only a
/// listening one queues an outcome, times out or is cancelled; stopping
/// always stops.
pub open spec fn listener_step(before: ListenerModel, event: ListenerEvent) -> ListenerModel {
    match event {
        ListenerEvent::Started => if before.state == ListenerState::Idle {
            ListenerModel { state: ListenerState::Listening, queued: before.queued }
        } else {
            before
        },
        ListenerEvent::Request(delivery) => if before.state == ListenerState::Listening
            && delivery is Some {
            ListenerModel { state: ListenerState::CallbackReceived, queued: delivery }
        } else {
            before
        },
        ListenerEvent::Received => ListenerModel { state: before.state, queued: None },
        ListenerEvent::Expired => if before.state == ListenerState::Listening {
            ListenerModel { state: ListenerState::TimedOut, queued: before.queued }
        } else {
            before
        },
        ListenerEvent::Interrupted => if before.state == ListenerState::Listening {
            ListenerModel { state: ListenerState::Cancelled, queued: before.queued }
        } else {
            before
        },
        ListenerEvent::Stopped => ListenerModel {
            state: ListenerState::Stopped,
            queued: before.queued,
        },
    }
}

/// The first outcome wins: after a listening listener has queued an outcome,
/// a further request changes neither its state nor its queue.
pub proof fn first_delivery_wins(
    before: ListenerModel,
    first: CallbackModel,
    later: Option<CallbackModel>,
)
    requires
        before.state == ListenerState::Listening,
    ensures
        listener_step(
            listener_step(before, ListenerEvent::Request(Some(first))),
            ListenerEvent::Request(later),
        ) == listener_step(before, ListenerEvent::Request(Some(first))),
        listener_step(before, ListenerEvent::Request(Some(first))).queued == Some(first),
{
}

/// A request without an outcome leaves the listener as it is: it does not
/// use up the queue's one place.
pub proof fn request_without_outcome_changes_nothing(before: ListenerModel)
    ensures
        listener_step(before, ListenerEvent::Request(None)) == before,
{
}

/// An outcome is queued only while listening, and at most once: whatever the
/// events, the queue is filled by the request that moves the listener from
/// `Listening` to `CallbackReceived`, and by no other.
pub proof fn queue_is_filled_only_while_listening(before: ListenerModel, event: ListenerEvent)
    requires
        listener_step(before, event).queued != before.queued,
        listener_step(before, event).queued is Some,
    ensures
        before.state == ListenerState::Listening,
        listener_step(before, event).state == ListenerState::CallbackReceived,
        event matches ListenerEvent::Request(delivery) && delivery == listener_step(
            before,
            event,
        ).queued,
{
}

/// `Stopped` is terminal: no event moves a stopped listener to another
/// state, and none fills its queue.
pub proof fn stopped_is_terminal(before: ListenerModel, event: ListenerEvent)
    requires
        before.state == ListenerState::Stopped,
    ensures
        listener_step(before, event).state == ListenerState::Stopped,
        listener_step(before, event).queued == before.queued || listener_step(
            before,
            event,
        ).queued is None,
{
}

/// A wait ends in exactly one way: once a listener has received its
/// callback, timed out or been cancelled, only stopping changes its state.
pub proof fn wait_ends_once(before: ListenerModel, event: ListenerEvent)
    requires
        before.state == ListenerState::CallbackReceived || before.state == ListenerState::TimedOut
            || before.state == ListenerState::Cancelled,
    ensures
        listener_step(before, event).state == before.state || listener_step(before, event).state
            == ListenerState::Stopped,
{
}

/// The listener for one flow: its port and path, its state, and a queue of
/// one place for the outcome that the flow waits for.
#[derive(Debug)]
pub struct CallbackServer {
    port: u16,
    callback_path: String,
    state: ListenerState,
    queue: Option<CallbackResult>,
}

/// The address that the listener binds: loopback only.
pub const LOOPBACK_ADDRESS: &'static str = "127.0.0.1";

impl CallbackServer {
    /// The port to bind.
    pub closed spec fn port(&self) -> u16 {
        self.port
    }

    /// The path that is served.
    pub closed spec fn path(&self) -> Seq<char> {
        self.callback_path@
    }

    /// The state and the queue.
    pub closed spec fn model(&self) -> ListenerModel {
        ListenerModel { state: self.state, queued: result_model(self.queue) }
    }

    /// An idle listener for `port` that serves the path of `redirect_uri`.
    pub fn new(port: u16, redirect_uri: &str) -> (r: Result<CallbackServer, OidcError>)
        ensures
            r matches Ok(server) && server.port() == port && server.path() == callback_path_of(
                redirect_uri@,
            ) && server.model() == (ListenerModel { state: ListenerState::Idle, queued: None }),
    {
        Ok(
            CallbackServer {
                port,
                callback_path: extract_path_from_redirect_uri(redirect_uri),
                state: ListenerState::Idle,
                queue: None,
            },
        )
    }

    /// The port to bind.
    pub fn get_port(&self) -> (r: u16)
        ensures
            r == self.port(),
    {
        self.port
    }

    /// Where to bind: the loopback address `127.0.0.1` and the port, so that
    /// only the local machine reaches the listener.
    pub fn bind_address(&self) -> (r: ([u8; 4], u16))
        ensures
            r.0@ == seq![127u8, 0u8, 0u8, 1u8],
            r.1 == self.port(),
    {
        let address: [u8; 4] = [127, 0, 0, 1];
        assert(address@ =~= seq![127u8, 0u8, 0u8, 1u8]);
        (address, self.port)
    }

    /// The path that is served.
    pub fn callback_path(&self) -> (r: &str)
        ensures
            r@ == self.path(),
    {
        self.callback_path.as_str()
    }

    /// The current state.
    pub fn state(&self) -> (r: ListenerState)
        ensures
            r == self.model().state,
    {
        self.state
    }

    /// The URI on which the listener is reached: `http://127.0.0.1:`, the
    /// port, the path.
    pub fn get_redirect_uri(&self) -> (r: String)
        ensures
            r@ == "http://"@ + LOOPBACK_ADDRESS@ + ":"@ + decimal_text(self.port() as nat)
                + self.path(),
    {
        let number = decimal(self.port as u64);
        let mut r = concat3("http://", LOOPBACK_ADDRESS, ":");
        r.append(number.as_str());
        r.append(self.callback_path.as_str());
        r
    }

    /// Marks the socket as bound: an idle listener listens. In any other
    /// state nothing changes and the call fails.
    pub fn start(&mut self) -> (r: Result<(), OidcError>)
        ensures
            final(self).port() == old(self).port(),
            final(self).path() == old(self).path(),
            final(self).model() == listener_step(old(self).model(), ListenerEvent::Started),
            r is Ok <==> old(self).model().state == ListenerState::Idle,
            r matches Err(e) ==> e@ == ErrorModel::Server("Callback listener was already started"@),
    {
        match self.state {
            ListenerState::Idle => {
                self.state = ListenerState::Listening;
                Ok(())
            },
            _ => Err(OidcError::Server("Callback listener was already started".to_string())),
        }
    }

    /// Answers one request. The response is that of `response_for`, whatever
    /// the state; what the request delivers is queued as `listener_step`
    /// says, so that one flow sees at most one delivery.
    pub fn handle(&mut self, method: &str, path: &str, query: Option<&str>) -> (r: HttpResponse)
        ensures
            final(self).port() == old(self).port(),
            final(self).path() == old(self).path(),
            r@ == response_for(
                method@,
                path@,
                slice_text(query),
                old(self).path(),
            ),
            final(self).model() == listener_step(
                old(self).model(),
                ListenerEvent::Request(
                    delivery_for(
                        method@,
                        path@,
                        slice_text(query),
                        old(self).path(),
                    ),
                ),
            ),
    {
        let handled = handle_request(method, path, query, self.callback_path.as_str());
        match self.state {
            ListenerState::Listening => {
                if handled.delivery.is_some() {
                    self.queue = handled.delivery;
                    self.state = ListenerState::CallbackReceived;
                }
            },
            _ => {},
        }
        handled.response
    }

    /// Takes the queued outcome, if there is one: it is handed out once.
    pub fn receive(&mut self) -> (r: Option<CallbackResult>)
        ensures
            final(self).port() == old(self).port(),
            final(self).path() == old(self).path(),
            final(self).model() == listener_step(old(self).model(), ListenerEvent::Received),
            result_model(r) == old(self).model().queued,
    {
        let mut taken: Option<CallbackResult> = None;
        std::mem::swap(&mut taken, &mut self.queue);
        taken
    }

    /// The deadline has passed: a listener that still listens has timed out.
    /// One that has its callback keeps it.
    pub fn expire(&mut self)
        ensures
            final(self).port() == old(self).port(),
            final(self).path() == old(self).path(),
            final(self).model() == listener_step(old(self).model(), ListenerEvent::Expired),
    {
        match self.state {
            ListenerState::Listening => {
                self.state = ListenerState::TimedOut;
            },
            _ => {},
        }
    }

    /// The flow was interrupted: a listener that still listens is cancelled.
    pub fn cancel(&mut self)
        ensures
            final(self).port() == old(self).port(),
            final(self).path() == old(self).path(),
            final(self).model() == listener_step(old(self).model(), ListenerEvent::Interrupted),
    {
        match self.state {
            ListenerState::Listening => {
                self.state = ListenerState::Cancelled;
            },
            _ => {},
        }
    }

    /// The socket was released: the listener is stopped, whatever it was.
    pub fn stop(&mut self)
        ensures
            final(self).port() == old(self).port(),
            final(self).path() == old(self).path(),
            final(self).model() == listener_step(old(self).model(), ListenerEvent::Stopped),
    {
        self.state = ListenerState::Stopped;
    }

    /// The error that ends the wait: a timeout after the deadline, a clean
    /// cancellation after an interrupt, none in any other state.
    pub fn wait_error(&self) -> (r: Option<OidcError>)
        ensures
            r == match self.model().state {
                ListenerState::TimedOut => Some(OidcError::AuthTimeout),
                ListenerState::Cancelled => Some(OidcError::Cancelled),
                _ => None,
            },
    {
        match self.state {
            ListenerState::TimedOut => Some(OidcError::AuthTimeout),
            ListenerState::Cancelled => Some(OidcError::Cancelled),
            _ => None,
        }
    }
}

/// What a store of one place holds after a token was offered to it: the
/// token if it was empty, else what it held.
pub open spec fn store_after(before: Option<Seq<char>>, token: Seq<char>) -> Option<Seq<char>> {
    match before {
        Some(kept) => Some(kept),
        None => Some(token),
    }
}

/// The store is written at most once: after a first token, a second changes
/// nothing.
pub proof fn store_is_written_once(before: Option<Seq<char>>, first: Seq<char>, second: Seq<char>)
    ensures
        store_after(store_after(before, first), second) == store_after(before, first),
        store_after(before, first) is Some,
{
}

/// The one place in which the access token of a flow is kept for a page that
/// is still open in the browser. It is written once and read any number of
/// times.
#[derive(Debug)]
pub struct TokenStore {
    token: Option<String>,
}

impl TokenStore {
    /// The token that is kept, if any.
    pub closed spec fn kept(&self) -> Option<Seq<char>> {
        opt_text(self.token)
    }

    /// An empty store.
    pub fn new() -> (r: Self)
        ensures
            r.kept() is None,
    {
        TokenStore { token: None }
    }

    /// Offers a token: an empty store keeps it, a full one keeps what it has.
    /// Returns whether the token was kept.
    pub fn set_token(&mut self, token: String) -> (r: bool)
        ensures
            final(self).kept() == store_after(old(self).kept(), token@),
            r == old(self).kept() is None,
    {
        if self.token.is_some() {
            false
        } else {
            self.token = Some(token);
            true
        }
    }

    /// The token that is kept, if any.
    pub fn token(&self) -> (r: Option<&String>)
        ensures
            match r {
                Some(token) => self.kept() == Some(token@),
                None => self.kept() is None,
            },
    {
        self.token.as_ref()
    }
}

} // verus!
