//! Service settings that the rules read.
use vstd::prelude::*;

verus! {

/// Settings of the service: where it listens, its store, token signing and
/// the optional OpenID Connect provider.
#[derive(Debug, Clone, PartialEq, Eq)]
pub struct Config {
    pub database_url: String,
    pub host: String,
    pub port: u16,
    pub jwt_secret: String,
    /// Lifetime of access tokens, in seconds.
    pub jwt_expiration: i64,
    pub oidc_client_id: Option<String>,
    pub oidc_client_secret: Option<String>,
    pub oidc_issuer: Option<String>,
    pub oidc_redirect_uri: Option<String>,
}

} // verus!
