//! The provider's discovery document: what is asked for, and what is made of
//! the reply.

use vstd::prelude::*;
use crate::config::parses_as_url;
use crate::error::{ErrorModel, OidcError};
use crate::text::concat2;
use crate::trusted::url_parse;
use crate::utils::url::{is_web_url, parses_as_web_url};

verus! {

/// The metadata that a provider publishes.
#[derive(Debug)]
pub struct DiscoveryDocument {
    pub authorization_endpoint: String,
    pub token_endpoint: String,
    pub userinfo_endpoint: Option<String>,
    pub jwks_uri: Option<String>,
    pub issuer: String,
    pub response_types_supported: Option<Vec<String>>,
    pub subject_types_supported: Option<Vec<String>>,
    pub id_token_signing_alg_values_supported: Option<Vec<String>>,
    pub scopes_supported: Option<Vec<String>>,
    pub token_endpoint_auth_methods_supported: Option<Vec<String>>,
    pub code_challenge_methods_supported: Option<Vec<String>>,
}

/// Whether a list holds a text.
pub open spec fn lists(values: Seq<String>, text: Seq<char>) -> bool {
    exists|i: int| 0 <= i < values.len() && (#[trigger] values[i])@ == text
}

/// Whether a list holds a text.
pub fn contains_text(values: &Vec<String>, text: &str) -> (r: bool)
    ensures
        r == lists(values@, text@),
{
    let mut i: usize = 0;
    while i < values.len()
        invariant
            i <= values@.len(),
            forall|j: int| 0 <= j < i ==> (#[trigger] values@[j])@ != text@,
        decreases values@.len() - i,
    {
        if *values[i].as_str() == *text {
            return true;
        }
        i = i + 1;
    }
    false
}

impl DiscoveryDocument {
    /// Whether the provider lists `S256` among its challenge methods.
    pub open spec fn lists_s256(&self) -> bool {
        self.code_challenge_methods_supported matches Some(methods) && lists(methods@, "S256"@)
    }

    /// Whether the provider allows the authorization code grant: it lists no
    /// response types, or `code` is among them.
    pub open spec fn allows_code(&self) -> bool {
        self.response_types_supported matches Some(types) ==> lists(types@, "code"@)
    }

    /// Whether PKCE with `S256` is supported.
    pub fn supports_pkce(&self) -> (r: bool)
        ensures
            r == self.lists_s256(),
    {
        match &self.code_challenge_methods_supported {
            Some(methods) => contains_text(methods, "S256"),
            None => false,
        }
    }

    /// Whether the authorization code grant is supported.
    pub fn supports_authorization_code(&self) -> (r: bool)
        ensures
            r == self.allows_code(),
    {
        match &self.response_types_supported {
            Some(types) => contains_text(types, "code"),
            None => true,
        }
    }
}

/// The first fault of a discovery document: an empty authorization endpoint,
/// token endpoint or issuer, an endpoint that is no absolute URL with the
/// scheme `http` or `https`, or response types without `code`.
pub open spec fn discovery_fault(doc: DiscoveryDocument) -> Option<ErrorModel> {
    if doc.authorization_endpoint@.len() == 0 {
        Some(ErrorModel::Discovery("Missing authorization_endpoint in discovery document"@))
    } else if doc.token_endpoint@.len() == 0 {
        Some(ErrorModel::Discovery("Missing token_endpoint in discovery document"@))
    } else if doc.issuer@.len() == 0 {
        Some(ErrorModel::Discovery("Missing issuer in discovery document"@))
    } else if !is_web_url(doc.authorization_endpoint@) {
        Some(ErrorModel::Discovery("Invalid authorization_endpoint URL"@))
    } else if !is_web_url(doc.token_endpoint@) {
        Some(ErrorModel::Discovery("Invalid token_endpoint URL"@))
    } else if !doc.allows_code() {
        Some(ErrorModel::Discovery("Authorization code flow not supported"@))
    } else {
        None
    }
}

/// Checks a discovery document and reports its first fault.
pub fn validate_discovery_document(doc: &DiscoveryDocument) -> (r: Result<(), OidcError>)
    ensures
        r is Ok <==> discovery_fault(*doc) is None,
        r matches Err(e) ==> discovery_fault(*doc) == Some(e@),
{
    if doc.authorization_endpoint.as_str().is_empty() {
        return Err(
            OidcError::Discovery(
                "Missing authorization_endpoint in discovery document".to_string(),
            ),
        );
    }
    if doc.token_endpoint.as_str().is_empty() {
        return Err(
            OidcError::Discovery("Missing token_endpoint in discovery document".to_string()),
        );
    }
    if doc.issuer.as_str().is_empty() {
        return Err(OidcError::Discovery("Missing issuer in discovery document".to_string()));
    }
    if !parses_as_web_url(doc.authorization_endpoint.as_str()) {
        return Err(OidcError::Discovery("Invalid authorization_endpoint URL".to_string()));
    }
    if !parses_as_web_url(doc.token_endpoint.as_str()) {
        return Err(OidcError::Discovery("Invalid token_endpoint URL".to_string()));
    }
    if !doc.supports_authorization_code() {
        return Err(OidcError::Discovery("Authorization code flow not supported".to_string()));
    }
    Ok(())
}

/// A document is rejected whenever its authorization endpoint, its token
/// endpoint or its issuer is empty, or it lists response types without
/// `code`, whatever else it holds.
pub proof fn incomplete_document_is_rejected(doc: DiscoveryDocument)
    requires
        doc.authorization_endpoint@.len() == 0 || doc.token_endpoint@.len() == 0
            || doc.issuer@.len() == 0 || !doc.allows_code(),
    ensures
        discovery_fault(doc) is Some,
{
}

/// A document is accepted exactly when its three required fields are
/// filled, both endpoints are absolute URLs that use HTTP or HTTPS, and the
/// code grant is allowed.
pub proof fn accepted_document_is_complete(doc: DiscoveryDocument)
    ensures
        discovery_fault(doc) is None <==> {
            &&& doc.authorization_endpoint@.len() > 0
            &&& doc.token_endpoint@.len() > 0
            &&& doc.issuer@.len() > 0
            &&& is_web_url(doc.authorization_endpoint@)
            &&& is_web_url(doc.token_endpoint@)
            &&& doc.allows_code()
        },
{
}

/// An endpoint with another scheme than `http` and `https` is rejected,
/// whatever else the document holds.
pub proof fn endpoint_of_another_scheme_is_rejected(doc: DiscoveryDocument)
    requires
        !is_web_url(doc.authorization_endpoint@) || !is_web_url(doc.token_endpoint@),
    ensures
        discovery_fault(doc) is Some,
{
}

/// The request for a discovery document: one `GET` that accepts JSON, with a
/// timeout.
#[derive(Debug)]
pub struct DiscoveryRequest {
    pub url: String,
    pub accept: String,
    pub timeout_seconds: u64,
}

/// The seconds after which a request to the provider is given up.
pub const REQUEST_TIMEOUT_SECONDS: u64 = 30;

/// The request for the document at `discovery_uri`; an error where that is no
/// URL.
pub fn discovery_request(discovery_uri: &str) -> (r: Result<DiscoveryRequest, OidcError>)
    ensures
        match r {
            Ok(request) => url_parse(discovery_uri@) is Some && request.url@ == discovery_uri@
                && request.accept@ == "application/json"@ && request.timeout_seconds
                == REQUEST_TIMEOUT_SECONDS,
            Err(e) => url_parse(discovery_uri@) is None && e@ == ErrorModel::Discovery(
                "Invalid discovery URI: "@ + discovery_uri@,
            ),
        },
{
    if !parses_as_url(discovery_uri) {
        return Err(OidcError::Discovery(concat2("Invalid discovery URI: ", discovery_uri)));
    }
    Ok(
        DiscoveryRequest {
            url: discovery_uri.to_string(),
            accept: "application/json".to_string(),
            timeout_seconds: REQUEST_TIMEOUT_SECONDS,
        },
    )
}

/// Whether a status is a success: 200 to 299.
pub open spec fn is_success(status: u16) -> bool {
    200 <= status <= 299
}

/// Whether a status is a success.
pub fn status_is_success(status: u16) -> (r: bool)
    ensures
        r == is_success(status),
{
    200 <= status && status <= 299
}

/// The provider's reply to the discovery request: its status, the status as
/// it is shown, and the document that the body parsed to or the parser's
/// complaint. The body of a reply without success need not be parsed.
#[derive(Debug)]
pub struct DiscoveryResponse {
    pub status: u16,
    pub status_text: String,
    pub document: Result<DiscoveryDocument, String>,
}

/// What a reply to the discovery request comes to: the error of a status
/// without success, of a body that did not parse, or of a document with a
/// fault; else nothing.
pub open spec fn reply_fault(response: DiscoveryResponse) -> Option<ErrorModel> {
    if !is_success(response.status) {
        Some(
            ErrorModel::Discovery(
                "Discovery request failed with status: "@ + response.status_text@,
            ),
        )
    } else {
        match response.document {
            Err(complaint) => Some(
                ErrorModel::Discovery("Failed to parse discovery document: "@ + complaint@),
            ),
            Ok(doc) => discovery_fault(doc),
        }
    }
}

/// The document of a reply to the discovery request, if the reply is a
/// success and the document has no fault.
pub fn discover_endpoints(response: DiscoveryResponse) -> (r: Result<
    DiscoveryDocument,
    OidcError,
>)
    ensures
        match r {
            Ok(doc) => reply_fault(response) is None && response.document == Ok::<
                DiscoveryDocument,
                String,
            >(doc),
            Err(e) => reply_fault(response) == Some(e@),
        },
{
    if !status_is_success(response.status) {
        return Err(
            OidcError::Discovery(
                concat2("Discovery request failed with status: ", response.status_text.as_str()),
            ),
        );
    }
    let doc = match response.document {
        Ok(doc) => doc,
        Err(complaint) => {
            return Err(
                OidcError::Discovery(
                    concat2("Failed to parse discovery document: ", complaint.as_str()),
                ),
            );
        },
    };
    match validate_discovery_document(&doc) {
        Ok(()) => Ok(doc),
        Err(e) => Err(e),
    }
}

} // verus!
