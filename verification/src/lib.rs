//! Authorization Code flow with PKCE for one configured identity provider:
//! PKCE material, provider discovery, the authorization request, the local
//! callback listener's decisions, the token exchange and the flow that
//! sequences them, with the profiles that configure a provider. The library
//! reads no file, opens no socket and prints nothing: the program around it
//! does that and hands plain values in and out.

pub mod auth;
pub mod browser;
pub mod cli;
pub mod commands;
pub mod config;
pub mod crypto;
pub mod error;
pub mod profile;
pub mod server;
pub mod text;
pub mod trusted;
pub mod ui;
pub mod utils;

pub use browser::MockBrowserOpener;
pub use error::OidcError;
pub use profile::ProfileManager;
pub use server::{CallbackResult, CallbackServer};
pub use utils::url::parse_query_params as server_parse_query_params;
pub use utils::url::{
    extract_path_from_redirect_uri,
    extract_port_from_redirect_uri,
    is_localhost_redirect_uri,
    parse_query_params,
};
