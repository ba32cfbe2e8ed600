pub mod discovery;
pub mod oauth;

pub use crate::crypto::{create_code_challenge, generate_code_verifier, generate_state, PkceChallenge};
pub use discovery::{discover_endpoints, validate_discovery_document, DiscoveryDocument};
pub use oauth::{validate_token_response, AuthorizationRequest, OAuthClient, TokenResponse};
