use hypercyber::failure::{Failure, Resource};

#[test]
fn every_refusal_has_its_status_and_message() {
    let cases: Vec<(Failure, u16, &str, bool)> = vec![
        (Failure::NotAuthenticated, 401, "Not authenticated", false),
        (Failure::InvalidOrMissingToken, 401, "Invalid or missing token", false),
        (Failure::InvalidCredentials, 401, "Invalid credentials", true),
        (Failure::MissingRefreshToken, 400, "Missing refresh_token", false),
        (Failure::InvalidRefreshToken, 401, "Invalid refresh token", false),
        (Failure::RefreshUserNotFound, 401, "User not found", false),
        (Failure::UserNotFound, 404, "User not found", false),
        (Failure::UserAlreadyExists, 409, "User already exists", true),
        (Failure::MissingAuthorizationCode, 400, "Missing authorization code", false),
        (Failure::OidcEmailMissing, 400, "Email not provided by OIDC provider", false),
        (Failure::OidcNotConfigured, 400, "OIDC not configured", true),
        (Failure::OidcIssuerMissing, 500, "OIDC not configured", false),
        (Failure::OidcDiscovery, 500, "OIDC discovery failed", false),
        (Failure::TokenExchange, 500, "Token exchange failed", false),
        (Failure::UserInfoFetch, 500, "Failed to get user info", false),
        (Failure::MissingEntityId, 400, "Missing entity_id", false),
        (Failure::AccessDenied, 403, "Access denied", true),
        (Failure::AdminAccessRequired, 403, "Admin access required", true),
        (Failure::NotFound(Resource::RegisterEntry), 404, "Entry not found", true),
        (Failure::NotFound(Resource::AccessRequest), 404, "Request not found", true),
        (Failure::NotFound(Resource::Breach), 404, "Breach not found", true),
        (Failure::NotFound(Resource::Entity), 404, "Entity not found", true),
        (Failure::NotFound(Resource::Endpoint), 404, "Endpoint not found", true),
        (Failure::FileUploadNotImplemented, 501, "File upload not yet implemented", true),
        (Failure::Database, 500, "Database error", false),
        (Failure::TokenCreation, 500, "Token creation failed", false),
        (Failure::PasswordHashing, 500, "Password hashing failed", false),
    ];
    for (f, status, message, json) in cases {
        assert_eq!(f.status(), status, "{:?}", f);
        assert_eq!(f.message(), message, "{:?}", f);
        assert_eq!(f.json_body(), json, "{:?}", f);
    }
}
