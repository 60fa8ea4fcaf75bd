//! The ways a request can be refused, with the HTTP answer each one gets.
use vstd::prelude::*;

verus! {

/// A kind of stored record that a lookup can fail to find.
#[derive(Clone, Copy, Debug, PartialEq, Eq, Structural)]
pub enum Resource {
    RegisterEntry,
    AccessRequest,
    Breach,
    Entity,
    Endpoint,
}

/// Why a request is refused.
#[derive(Clone, Copy, Debug, PartialEq, Eq, Structural)]
pub enum Failure {
    /// No authenticated user is attached to the request.
    NotAuthenticated,
    /// The bearer token is absent, malformed or fails verification.
    InvalidOrMissingToken,
    /// Unknown or inactive account, or wrong password.
    InvalidCredentials,
    /// The body of a refresh request has no `refresh_token`.
    MissingRefreshToken,
    /// The refresh token fails verification.
    InvalidRefreshToken,
    /// The account named by a refresh token is gone or inactive.
    RefreshUserNotFound,
    /// The account of the current session is gone or inactive.
    UserNotFound,
    /// An account with this e-mail already exists.
    UserAlreadyExists,
    /// The OIDC callback carries no `code` parameter.
    MissingAuthorizationCode,
    /// The identity provider did not disclose an e-mail address.
    OidcEmailMissing,
    /// Issuer, client id or redirect URI is not configured (authorization start).
    OidcNotConfigured,
    /// No issuer is configured (callback).
    OidcIssuerMissing,
    /// The discovery document could not be fetched or read.
    OidcDiscovery,
    /// The authorization code could not be exchanged.
    TokenExchange,
    /// The user-info endpoint could not be read.
    UserInfoFetch,
    /// A request that must name a tenant does not.
    MissingEntityId,
    /// The user is not a member of the tenant.
    AccessDenied,
    /// The user is not an administrator of the tenant.
    AdminAccessRequired,
    /// The record does not exist.
    NotFound(Resource),
    /// Uploading licence files is not available.
    FileUploadNotImplemented,
    /// The store failed.
    Database,
    /// A token could not be signed.
    TokenCreation,
    /// A password could not be hashed.
    PasswordHashing,
}

/// HTTP status code of a refusal.
pub open spec fn status_of(f: Failure) -> u16 {
    match f {
        Failure::NotAuthenticated | Failure::InvalidOrMissingToken | Failure::InvalidCredentials
        | Failure::InvalidRefreshToken | Failure::RefreshUserNotFound => 401,
        Failure::MissingRefreshToken | Failure::MissingAuthorizationCode
        | Failure::OidcEmailMissing | Failure::OidcNotConfigured | Failure::MissingEntityId => 400,
        Failure::UserAlreadyExists => 409,
        Failure::AccessDenied | Failure::AdminAccessRequired => 403,
        Failure::UserNotFound | Failure::NotFound(_) => 404,
        Failure::FileUploadNotImplemented => 501,
        Failure::OidcIssuerMissing | Failure::OidcDiscovery | Failure::TokenExchange
        | Failure::UserInfoFetch | Failure::Database | Failure::TokenCreation
        | Failure::PasswordHashing => 500,
    }
}

/// Whether the refusal is answered with a JSON body `{"error": message}`
/// (otherwise the message is sent as plain text).
pub open spec fn json_body_of(f: Failure) -> bool {
    match f {
        Failure::InvalidCredentials | Failure::UserAlreadyExists | Failure::OidcNotConfigured
        | Failure::AccessDenied | Failure::AdminAccessRequired | Failure::NotFound(_)
        | Failure::FileUploadNotImplemented => true,
        _ => false,
    }
}

impl Failure {
    /// The HTTP status code answered for this refusal.
    pub fn status(&self) -> (code: u16)
        ensures
            code == status_of(*self),
    {
        match self {
            Failure::NotAuthenticated | Failure::InvalidOrMissingToken
            | Failure::InvalidCredentials | Failure::InvalidRefreshToken
            | Failure::RefreshUserNotFound => 401,
            Failure::MissingRefreshToken | Failure::MissingAuthorizationCode
            | Failure::OidcEmailMissing | Failure::OidcNotConfigured
            | Failure::MissingEntityId => 400,
            Failure::UserAlreadyExists => 409,
            Failure::AccessDenied | Failure::AdminAccessRequired => 403,
            Failure::UserNotFound | Failure::NotFound(_) => 404,
            Failure::FileUploadNotImplemented => 501,
            Failure::OidcIssuerMissing | Failure::OidcDiscovery | Failure::TokenExchange
            | Failure::UserInfoFetch | Failure::Database | Failure::TokenCreation
            | Failure::PasswordHashing => 500,
        }
    }

    /// Whether the answer carries a JSON body `{"error": message}`.
    pub fn json_body(&self) -> (json: bool)
        ensures
            json == json_body_of(*self),
    {
        match self {
            Failure::InvalidCredentials | Failure::UserAlreadyExists
            | Failure::OidcNotConfigured | Failure::AccessDenied
            | Failure::AdminAccessRequired | Failure::NotFound(_)
            | Failure::FileUploadNotImplemented => true,
            _ => false,
        }
    }

    /// The human-readable message of the answer.
    pub fn message(&self) -> (text: &'static str)
        ensures
            text@ == match *self {
                Failure::NotAuthenticated => "Not authenticated"@,
                Failure::InvalidOrMissingToken => "Invalid or missing token"@,
                Failure::InvalidCredentials => "Invalid credentials"@,
                Failure::MissingRefreshToken => "Missing refresh_token"@,
                Failure::InvalidRefreshToken => "Invalid refresh token"@,
                Failure::RefreshUserNotFound => "User not found"@,
                Failure::UserNotFound => "User not found"@,
                Failure::UserAlreadyExists => "User already exists"@,
                Failure::MissingAuthorizationCode => "Missing authorization code"@,
                Failure::OidcEmailMissing => "Email not provided by OIDC provider"@,
                Failure::OidcNotConfigured => "OIDC not configured"@,
                Failure::OidcIssuerMissing => "OIDC not configured"@,
                Failure::OidcDiscovery => "OIDC discovery failed"@,
                Failure::TokenExchange => "Token exchange failed"@,
                Failure::UserInfoFetch => "Failed to get user info"@,
                Failure::MissingEntityId => "Missing entity_id"@,
                Failure::AccessDenied => "Access denied"@,
                Failure::AdminAccessRequired => "Admin access required"@,
                Failure::NotFound(Resource::RegisterEntry) => "Entry not found"@,
                Failure::NotFound(Resource::AccessRequest) => "Request not found"@,
                Failure::NotFound(Resource::Breach) => "Breach not found"@,
                Failure::NotFound(Resource::Entity) => "Entity not found"@,
                Failure::NotFound(Resource::Endpoint) => "Endpoint not found"@,
                Failure::FileUploadNotImplemented => "File upload not yet implemented"@,
                Failure::Database => "Database error"@,
                Failure::TokenCreation => "Token creation failed"@,
                Failure::PasswordHashing => "Password hashing failed"@,
            },
    {
        match self {
            Failure::NotAuthenticated => "Not authenticated",
            Failure::InvalidOrMissingToken => "Invalid or missing token",
            Failure::InvalidCredentials => "Invalid credentials",
            Failure::MissingRefreshToken => "Missing refresh_token",
            Failure::InvalidRefreshToken => "Invalid refresh token",
            Failure::RefreshUserNotFound => "User not found",
            Failure::UserNotFound => "User not found",
            Failure::UserAlreadyExists => "User already exists",
            Failure::MissingAuthorizationCode => "Missing authorization code",
            Failure::OidcEmailMissing => "Email not provided by OIDC provider",
            Failure::OidcNotConfigured => "OIDC not configured",
            Failure::OidcIssuerMissing => "OIDC not configured",
            Failure::OidcDiscovery => "OIDC discovery failed",
            Failure::TokenExchange => "Token exchange failed",
            Failure::UserInfoFetch => "Failed to get user info",
            Failure::MissingEntityId => "Missing entity_id",
            Failure::AccessDenied => "Access denied",
            Failure::AdminAccessRequired => "Admin access required",
            Failure::NotFound(Resource::RegisterEntry) => "Entry not found",
            Failure::NotFound(Resource::AccessRequest) => "Request not found",
            Failure::NotFound(Resource::Breach) => "Breach not found",
            Failure::NotFound(Resource::Entity) => "Entity not found",
            Failure::NotFound(Resource::Endpoint) => "Endpoint not found",
            Failure::FileUploadNotImplemented => "File upload not yet implemented",
            Failure::Database => "Database error",
            Failure::TokenCreation => "Token creation failed",
            Failure::PasswordHashing => "Password hashing failed",
        }
    }
}


/// Refusals are answered by kind: a missing or failed identity with 401, a
/// malformed request with 400, a lack of rights with 403, an absent record
/// with 404, an existing account with 409, and a failure of the service
/// itself with a 5xx status.
pub proof fn lemma_status_classes(f: Failure)
    ensures
        f == Failure::NotAuthenticated || f == Failure::InvalidOrMissingToken || f
            == Failure::InvalidCredentials || f == Failure::InvalidRefreshToken || f
            == Failure::RefreshUserNotFound <==> status_of(f) == 401,
        f == Failure::MissingRefreshToken || f == Failure::MissingAuthorizationCode || f
            == Failure::OidcEmailMissing || f == Failure::OidcNotConfigured || f
            == Failure::MissingEntityId <==> status_of(f) == 400,
        f == Failure::AccessDenied || f == Failure::AdminAccessRequired <==> status_of(f) == 403,
        f == Failure::UserNotFound || f is NotFound <==> status_of(f) == 404,
        f == Failure::UserAlreadyExists <==> status_of(f) == 409,
        f == Failure::FileUploadNotImplemented <==> status_of(f) == 501,
        500 <= status_of(f) < 600 <==> (f == Failure::FileUploadNotImplemented || f
            == Failure::OidcIssuerMissing || f == Failure::OidcDiscovery || f == Failure::TokenExchange
            || f == Failure::UserInfoFetch || f == Failure::Database || f == Failure::TokenCreation
            || f == Failure::PasswordHashing),
{
}

} // verus!
