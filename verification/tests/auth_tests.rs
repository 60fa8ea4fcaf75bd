use hypercyber::auth::{
    authenticate, bearer_token, check_password, claims_from_fields, get_current_user, get_current_user_id, hash_password, login, provider_sign_in,
    create_refresh_token, create_token, refresh_claims, refresh_token, refresh_token_claims, register, session,
    sign_claims, token_claims, user_info, verify_token, Claims, LoginRequest, RegisterRequest, UserAccount, UserInfo,
    REFRESH_TOKEN_SECONDS,
};
use hypercyber::config::Config;
use hypercyber::failure::Failure;

fn account(id: u128, email: &str, password_hash: &str, active: bool) -> UserAccount {
    UserAccount {
        id,
        email: email.to_string(),
        password_hash: password_hash.to_string(),
        first_name: Some("Ada".to_string()),
        last_name: None,
        is_active: active,
        created_at: 1,
        updated_at: 2,
    }
}

fn config(expiration: i64) -> Config {
    Config {
        database_url: String::new(),
        host: String::new(),
        port: 0,
        jwt_secret: "s".to_string(),
        jwt_expiration: expiration,
        oidc_client_id: None,
        oidc_client_secret: None,
        oidc_issuer: None,
        oidc_redirect_uri: None,
    }
}

fn now_seconds() -> i64 {
    std::time::SystemTime::now().duration_since(std::time::UNIX_EPOCH).unwrap().as_secs() as i64
}

#[test]
fn registered_account_signs_in_with_its_password() {
    let req = RegisterRequest {
        email: "ada@example.com".to_string(),
        password: "correct horse".to_string(),
        first_name: Some("Ada".to_string()),
        last_name: Some("Lovelace".to_string()),
    };
    let a = register(None, req).unwrap();
    assert_eq!(a.email, "ada@example.com");
    assert_eq!(a.first_name.as_deref(), Some("Ada"));
    assert_eq!(a.last_name.as_deref(), Some("Lovelace"));
    assert!(a.is_active);
    assert_eq!(a.created_at, a.updated_at);
    assert_ne!(a.password_hash, "correct horse");
    let ok = login(
        Some(a.clone()),
        &LoginRequest { email: "ada@example.com".to_string(), password: "correct horse".to_string() },
    );
    assert_eq!(ok, Ok(a.clone()));
    let wrong = login(
        Some(a.clone()),
        &LoginRequest { email: "ada@example.com".to_string(), password: "wrong".to_string() },
    );
    assert_eq!(wrong, Err(Failure::InvalidCredentials));
}

#[test]
fn registering_an_existing_email_is_refused() {
    let req = RegisterRequest { email: "a@b".to_string(), password: "p".to_string(), first_name: None, last_name: None };
    assert_eq!(register(Some(account(1, "a@b", "x", true)), req), Err(Failure::UserAlreadyExists));
}

#[test]
fn login_refuses_unknown_inactive_or_mismatched_accounts() {
    let hash = hash_password("pw").unwrap();
    let req = LoginRequest { email: "a@b".to_string(), password: "pw".to_string() };
    assert_eq!(login(None, &req), Err(Failure::InvalidCredentials));
    assert_eq!(login(Some(account(1, "a@b", &hash, false)), &req), Err(Failure::InvalidCredentials));
    assert_eq!(login(Some(account(1, "other@b", &hash, true)), &req), Err(Failure::InvalidCredentials));
    assert_eq!(login(Some(account(1, "a@b", "not a bcrypt hash", true)), &req), Err(Failure::InvalidCredentials));
    assert_eq!(login(Some(account(1, "a@b", &hash, true)), &req), Ok(account(1, "a@b", &hash, true)));
}

#[test]
fn password_check_uses_bcrypt() {
    let hash = hash_password("s3cret").unwrap();
    assert!(hash.starts_with("$2b$12$"));
    assert!(check_password("s3cret", &hash));
    assert!(!check_password("s3cret!", &hash));
    assert!(!check_password("s3cret", "garbage"));
}

#[test]
fn access_token_claims_expire_after_the_configured_lifetime() {
    let before = now_seconds();
    let c = token_claims(7, "a@b".to_string(), &config(3600));
    let after = now_seconds();
    assert_eq!(c.user_id, 7);
    assert_eq!(c.email, "a@b");
    assert!(before + 3600 <= c.exp && c.exp <= after + 3600);
}

#[test]
fn refresh_token_claims_last_seven_days() {
    assert_eq!(REFRESH_TOKEN_SECONDS, 7 * 24 * 60 * 60);
    let before = now_seconds();
    let c = refresh_token_claims(9, "x@y".to_string());
    let after = now_seconds();
    assert_eq!(c.user_id, 9);
    assert!(before + 604800 <= c.exp && c.exp <= after + 604800);
    let n = Claims::new(1, "e".to_string(), -10);
    assert!(n.exp <= after - 10 + 1);
}

#[test]
fn bearer_header_yields_its_token() {
    assert_eq!(bearer_token(Some("Bearer abc.def")), Some("abc.def"));
    assert_eq!(bearer_token(Some("Bearer ")), Some(""));
    assert_eq!(bearer_token(Some("bearer abc")), None);
    assert_eq!(bearer_token(Some("Basic abc")), None);
    assert_eq!(bearer_token(Some("Bearer")), None);
    assert_eq!(bearer_token(None), None);
}

#[test]
fn session_user_comes_from_claims() {
    let c = Claims { user_id: 5, email: "e".to_string(), exp: 0 };
    assert_eq!(get_current_user_id(Some(&c)), Some(5));
    assert_eq!(get_current_user_id(None), None);
}

#[test]
fn refresh_checks_token_then_account() {
    let cfg = config(3600);
    assert_eq!(refresh_claims(None, &cfg), Err(Failure::MissingRefreshToken));
    assert_eq!(refresh_claims(Some("t"), &cfg), Err(Failure::InvalidRefreshToken));
    let (raw, _) = create_refresh_token(5, "e".to_string(), &cfg).unwrap();
    let c = refresh_claims(Some(&raw), &cfg).unwrap();
    assert_eq!(c.user_id, 5);
    assert_eq!(c.email, "e");
    assert_eq!(refresh_claims(Some(&raw), &Config { jwt_secret: "other".to_string(), ..config(3600) }), Err(Failure::InvalidRefreshToken));
    assert_eq!(refresh_token(&c, None, &cfg), Err(Failure::RefreshUserNotFound));
    assert_eq!(refresh_token(&c, Some(account(5, "e", "h", false)), &cfg), Err(Failure::RefreshUserNotFound));
    assert_eq!(refresh_token(&c, Some(account(6, "e", "h", true)), &cfg), Err(Failure::RefreshUserNotFound));
    let before = now_seconds();
    let (token, renewed) = refresh_token(&c, Some(account(5, "new@mail", "h", true)), &cfg).unwrap();
    let after = now_seconds();
    assert_eq!(renewed.user_id, 5);
    assert_eq!(renewed.email, "new@mail");
    assert!(before + 3600 <= renewed.exp && renewed.exp <= after + 3600);
    assert_eq!(verify_token(&token, &cfg), Some(renewed));
}

#[test]
fn signed_token_verifies_back_to_its_claims() {
    let cfg = config(3600);
    let (token, claims) = create_token(0x1234, "ada@example.com".to_string(), &cfg).unwrap();
    assert_eq!(claims.user_id, 0x1234);
    assert_eq!(verify_token(&token, &cfg), Some(claims.clone()));
    let other = Config { jwt_secret: "not-s".to_string(), ..config(3600) };
    assert_eq!(verify_token(&token, &other), None);
    let mut tampered = token.clone();
    tampered.push('x');
    assert_eq!(verify_token(&tampered, &cfg), None);
    assert_eq!(verify_token("not a token", &cfg), None);
}

#[test]
fn signed_token_is_an_hs256_jwt_of_the_claims() {
    let (token, _) = sign_claims(Claims { user_id: 5, email: "e@x".to_string(), exp: 4102444800 }, "k").unwrap();
    let key = jsonwebtoken::DecodingKey::from_secret(b"k");
    let data = jsonwebtoken::decode::<serde_json::Value>(&token, &key, &jsonwebtoken::Validation::new(jsonwebtoken::Algorithm::HS256)).unwrap();
    assert_eq!(data.header.alg, jsonwebtoken::Algorithm::HS256);
    assert_eq!(data.claims["user_id"], "00000000-0000-0000-0000-000000000005");
    assert_eq!(data.claims["email"], "e@x");
    assert_eq!(data.claims["exp"], 4102444800i64);
}

#[test]
fn expired_token_is_refused() {
    let cfg = config(3600);
    let (token, _) = sign_claims(Claims { user_id: 5, email: "e".to_string(), exp: 1000 }, "s").unwrap();
    assert_eq!(verify_token(&token, &cfg), None);
    let (token, _) = create_token(5, "e".to_string(), &config(-3600)).unwrap();
    assert_eq!(verify_token(&token, &cfg), None);
}

#[test]
fn session_issues_both_tokens_for_the_account() {
    let cfg = config(3600);
    let a = account(9, "ada@example.com", "h", true);
    let r = session(a.clone(), &cfg).unwrap();
    assert_eq!(r.user, user_info(a));
    let access = verify_token(&r.token, &cfg).unwrap();
    let refresh = verify_token(&r.refresh_token, &cfg).unwrap();
    assert_eq!((access.user_id, access.email.as_str()), (9, "ada@example.com"));
    assert_eq!((refresh.user_id, refresh.email.as_str()), (9, "ada@example.com"));
    assert!(refresh.exp - access.exp >= REFRESH_TOKEN_SECONDS - 3600 - 1);
}

#[test]
fn current_user_is_shown_while_active() {
    assert_eq!(get_current_user(None, None), Err(Failure::NotAuthenticated));
    assert_eq!(get_current_user(Some(5), None), Err(Failure::UserNotFound));
    assert_eq!(get_current_user(Some(5), Some(account(5, "e", "h", false))), Err(Failure::UserNotFound));
    assert_eq!(
        get_current_user(Some(5), Some(account(5, "e", "h", true))),
        Ok(UserInfo { id: 5, email: "e".to_string(), first_name: Some("Ada".to_string()), last_name: None })
    );
    assert_eq!(user_info(account(3, "z", "h", true)).id, 3);
}

#[test]
fn provider_sign_in_reuses_or_creates_accounts() {
    let existing = account(5, "ada@example.com", "h", false);
    assert_eq!(
        provider_sign_in("ada@example.com".to_string(), None, None, Some(existing.clone())),
        Ok((existing, false))
    );
    let (created, is_new) = provider_sign_in(
        "new@example.com".to_string(),
        Some("New".to_string()),
        Some("Person".to_string()),
        None,
    )
    .unwrap();
    assert!(is_new);
    assert_eq!(created.email, "new@example.com");
    assert_eq!(created.first_name.as_deref(), Some("New"));
    assert_eq!(created.last_name.as_deref(), Some("Person"));
    assert!(created.is_active);
    assert!(check_password("oidc-user", &created.password_hash));
}

#[test]
fn claims_come_from_complete_fields_only() {
    let u = Some("00000000-0000-0000-0000-000000000005".to_string());
    let e = Some("e@x".to_string());
    assert_eq!(
        claims_from_fields(Some((u.clone(), e.clone(), Some(7)))),
        Some(Claims { user_id: 5, email: "e@x".to_string(), exp: 7 })
    );
    assert_eq!(claims_from_fields(Some((Some("not-an-id".to_string()), e.clone(), Some(7)))), None);
    assert_eq!(claims_from_fields(Some((u.clone(), None, Some(7)))), None);
    assert_eq!(claims_from_fields(Some((u.clone(), e.clone(), None))), None);
    assert_eq!(claims_from_fields(Some((None, e, Some(7)))), None);
    assert_eq!(claims_from_fields(None), None);
}

#[test]
fn request_is_admitted_by_a_valid_bearer_token() {
    let cfg = config(3600);
    let (token, claims) = create_token(3, "a@b".to_string(), &cfg).unwrap();
    let header = format!("Bearer {}", token);
    assert_eq!(authenticate(Some(&header), &cfg), Some(claims));
    assert_eq!(authenticate(Some(&token), &cfg), None);
    assert_eq!(authenticate(Some("Bearer junk"), &cfg), None);
    assert_eq!(authenticate(None, &cfg), None);
}
