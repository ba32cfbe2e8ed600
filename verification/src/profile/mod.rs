pub mod manager;
pub mod storage;
pub mod validation;

pub use manager::{ProfileManager, ProfileParams};
pub use storage::ProfileStorage;
pub use validation::{
    sanitize_input,
    validate_client_id,
    validate_discovery_uri,
    validate_endpoint_configuration,
    validate_endpoint_url,
    validate_profile_input,
    validate_redirect_uri,
    validate_scope,
};
