//! Accounts, password sign-in, sessions (signed claims) and sign-in through an
//! identity provider.
use vstd::prelude::*;
use crate::clock::{now_micros, now_seconds, MICROS_LIMIT, SECONDS_LIMIT};
use crate::config::Config;
use crate::failure::Failure;
use crate::ids::{id_text, new_id, parse_id, uuid_parse, uuid_text};
use crate::text::{same_text, starts_with_text};

verus! {

/// An account as the store keeps it.
#[derive(Debug, Clone, PartialEq, Eq)]
pub struct UserAccount {
    pub id: u128,
    pub email: String,
    pub password_hash: String,
    pub first_name: Option<String>,
    pub last_name: Option<String>,
    pub is_active: bool,
    /// Microseconds since the Unix epoch.
    pub created_at: i64,
    pub updated_at: i64,
}

/// Credentials of a password sign-in.
#[derive(Debug, Clone, PartialEq, Eq)]
pub struct LoginRequest {
    pub email: String,
    pub password: String,
}

/// A new account.
#[derive(Debug, Clone, PartialEq, Eq)]
pub struct RegisterRequest {
    pub email: String,
    pub password: String,
    pub first_name: Option<String>,
    pub last_name: Option<String>,
}

/// What a client is told about an account.
#[derive(Debug, Clone, PartialEq, Eq)]
pub struct UserInfo {
    pub id: u128,
    pub email: String,
    pub first_name: Option<String>,
    pub last_name: Option<String>,
}

/// The answer to a successful sign-in.
#[derive(Debug, Clone, PartialEq, Eq)]
pub struct AuthResponse {
    pub token: String,
    pub refresh_token: String,
    pub user: UserInfo,
}

/// The claims a session token carries.
#[derive(Debug, Clone, PartialEq, Eq)]
pub struct Claims {
    pub user_id: u128,
    pub email: String,
    /// Expiry, in seconds since the Unix epoch.
    pub exp: i64,
}

#[verifier::external_type_specification]
#[verifier::external_body]
pub struct ExBcryptError(bcrypt::BcryptError);

/// Whether `bcrypt::verify` accepts `password` against `hash` (`None` when it
/// fails on a malformed hash).
pub uninterp spec fn bcrypt_verdict(password: Seq<char>, hash: Seq<char>) -> Option<bool>;

/// Calls `bcrypt::hash` with `bcrypt::DEFAULT_COST`. The salt is random, so the
/// hash is not named; its source shows that `bcrypt::verify` accepts the same
/// password against any hash it returns.
#[verifier::external_body]
fn bcrypt_hash(password: &str) -> (hash: Result<String, bcrypt::BcryptError>)
    ensures
        hash matches Ok(h) ==> bcrypt_verdict(password@, h@) == Some(true),
{
    bcrypt::hash(password, bcrypt::DEFAULT_COST)
}

/// Calls `bcrypt::verify`.
#[verifier::external_body]
fn bcrypt_verify(password: &str, hash: &str) -> (ok: Result<bool, bcrypt::BcryptError>)
    ensures
        ok is Ok <==> bcrypt_verdict(password@, hash@) is Some,
        ok matches Ok(b) ==> bcrypt_verdict(password@, hash@) == Some(b),
{
    bcrypt::verify(password, hash)
}

/// Whether `password` matches the stored hash; a hash that cannot be read matches nothing.
pub open spec fn password_matches(password: Seq<char>, hash: Seq<char>) -> bool {
    bcrypt_verdict(password, hash) == Some(true)
}

/// Checks a password against a stored hash.
pub fn check_password(password: &str, hash: &str) -> (ok: bool)
    ensures
        ok == password_matches(password@, hash@),
{
    match bcrypt_verify(password, hash) {
        Ok(b) => b,
        Err(_) => false,
    }
}

/// Hashes a password for storage; the hash matches the password.
pub fn hash_password(password: &str) -> (res: Result<String, Failure>)
    ensures
        res is Err ==> res->Err_0 == Failure::PasswordHashing,
        res matches Ok(h) ==> password_matches(password@, h@),
{
    match bcrypt_hash(password) {
        Ok(h) => Ok(h),
        Err(_) => Err(Failure::PasswordHashing),
    }
}

/// What clients are told about an account.
pub open spec fn info_of(a: UserAccount) -> UserInfo {
    UserInfo { id: a.id, email: a.email, first_name: a.first_name, last_name: a.last_name }
}

/// The client view of an account.
pub fn user_info(account: UserAccount) -> (info: UserInfo)
    ensures
        info == info_of(account),
{
    UserInfo {
        id: account.id,
        email: account.email,
        first_name: account.first_name,
        last_name: account.last_name,
    }
}

/// The account an e-mail and password sign in: an active account with that
/// e-mail whose stored hash matches the password.
pub open spec fn signs_in(a: UserAccount, email: Seq<char>, password: Seq<char>) -> bool {
    a.email@ == email && a.is_active && password_matches(password, a.password_hash@)
}

/// Password sign-in: `candidate` is the active account the store holds for
/// the e-mail, if any. Anything but a matching active account is refused
/// with one answer, so that the cause is not disclosed.
pub fn login(candidate: Option<UserAccount>, req: &LoginRequest) -> (res: Result<UserAccount, Failure>)
    ensures
        match candidate {
            Some(a) => if signs_in(a, req.email@, req.password@) {
                res == Ok::<UserAccount, Failure>(a)
            } else {
                res == Err::<UserAccount, Failure>(Failure::InvalidCredentials)
            },
            None => res == Err::<UserAccount, Failure>(Failure::InvalidCredentials),
        },
{
    let a = match candidate {
        Some(a) => a,
        None => return Err(Failure::InvalidCredentials),
    };
    if same_text(a.email.as_str(), req.email.as_str()) && a.is_active && check_password(
        req.password.as_str(),
        a.password_hash.as_str(),
    ) {
        Ok(a)
    } else {
        Err(Failure::InvalidCredentials)
    }
}

/// `a` is the account made for a registration at `now`: active, with the
/// given e-mail and names and a stored hash that matches the password.
pub open spec fn registered_account(a: UserAccount, req: RegisterRequest, now: i64) -> bool {
    &&& a.email == req.email
    &&& a.first_name == req.first_name
    &&& a.last_name == req.last_name
    &&& a.is_active
    &&& password_matches(req.password@, a.password_hash@)
    &&& a.created_at == now
    &&& a.updated_at == now
}

/// The account a registration makes from the outcome of hashing its password.
pub open spec fn account_of_registration(req: RegisterRequest, password_hash: String, id: u128, now: i64) -> UserAccount {
    UserAccount {
        id,
        email: req.email,
        password_hash,
        first_name: req.first_name,
        last_name: req.last_name,
        is_active: true,
        created_at: now,
        updated_at: now,
    }
}

/// Makes the account of a registration once its password is hashed (or the
/// hashing failed).
pub fn account_from_registration(
    req: RegisterRequest,
    hashed: Result<String, Failure>,
    id: u128,
    now: i64,
) -> (res: Result<UserAccount, Failure>)
    ensures
        match hashed {
            Ok(h) => res == Ok::<UserAccount, Failure>(account_of_registration(req, h, id, now)),
            Err(f) => res == Err::<UserAccount, Failure>(f),
        },
{
    let password_hash = hashed?;
    Ok(
        UserAccount {
            id,
            email: req.email,
            password_hash,
            first_name: req.first_name,
            last_name: req.last_name,
            is_active: true,
            created_at: now,
            updated_at: now,
        },
    )
}

/// Registration: refused when an account with the e-mail exists (`existing`),
/// otherwise a new active account with a fresh identifier.
pub fn register(existing: Option<UserAccount>, req: RegisterRequest) -> (res: Result<UserAccount, Failure>)
    ensures
        existing is Some ==> res == Err::<UserAccount, Failure>(Failure::UserAlreadyExists),
        existing is None ==> match res {
            Ok(a) => registered_account(a, req, a.created_at) && 0 <= a.created_at < MICROS_LIMIT,
            Err(f) => f == Failure::PasswordHashing,
        },
{
    if existing.is_some() {
        return Err(Failure::UserAlreadyExists);
    }
    let hashed = hash_password(req.password.as_str());
    let id = new_id();
    let now = now_micros();
    account_from_registration(req, hashed, id, now)
}

/// A registered account signs in with the e-mail and password it was registered with.
pub proof fn lemma_registered_account_signs_in(a: UserAccount, req: RegisterRequest, now: i64)
    requires
        registered_account(a, req, now),
    ensures
        signs_in(a, req.email@, req.password@),
{
}

/// Lifetime of refresh tokens: seven days, in seconds.
pub const REFRESH_TOKEN_SECONDS: i64 = 604800;

/// Largest lifetime whose expiry cannot overflow.
pub const MAX_LIFETIME_SECONDS: i64 = 0x7fff_f800_0000_0000;

impl Claims {
    /// Claims for a user issued at `now` (seconds) that expire `lifetime` seconds later.
    pub fn expiring(user_id: u128, email: String, now: i64, lifetime: i64) -> (c: Claims)
        requires
            i64::MIN <= now + lifetime <= i64::MAX,
        ensures
            c.user_id == user_id,
            c.email == email,
            c.exp == now + lifetime,
    {
        Claims { user_id, email, exp: now + lifetime }
    }

    /// Claims for a user that expire `expiration_seconds` after now.
    pub fn new(user_id: u128, email: String, expiration_seconds: i64) -> (c: Claims)
        requires
            expiration_seconds <= MAX_LIFETIME_SECONDS,
        ensures
            c.user_id == user_id,
            c.email == email,
            expiration_seconds <= c.exp < expiration_seconds + SECONDS_LIMIT,
    {
        let now = now_seconds();
        Claims::expiring(user_id, email, now, expiration_seconds)
    }
}

/// The claims of an access token: they expire after the configured lifetime.
pub fn token_claims(user_id: u128, email: String, config: &Config) -> (c: Claims)
    requires
        config.jwt_expiration <= MAX_LIFETIME_SECONDS,
    ensures
        c.user_id == user_id,
        c.email == email,
        config.jwt_expiration <= c.exp < config.jwt_expiration + SECONDS_LIMIT,
{
    Claims::new(user_id, email, config.jwt_expiration)
}

/// The claims of a refresh token: they expire after seven days.
pub fn refresh_token_claims(user_id: u128, email: String) -> (c: Claims)
    ensures
        c.user_id == user_id,
        c.email == email,
        REFRESH_TOKEN_SECONDS <= c.exp < REFRESH_TOKEN_SECONDS + SECONDS_LIMIT,
{
    Claims::new(user_id, email, REFRESH_TOKEN_SECONDS)
}

/// What `jsonwebtoken::encode` writes for the claims object with the texts
/// `user_id` and `email` and the number `exp`, under `Header::new(Algorithm::HS256)`
/// and the HMAC key `EncodingKey::from_secret(secret)`.
pub uninterp spec fn hs256_token(user_id: Seq<char>, email: Seq<char>, exp: i64, secret: Seq<char>) -> Seq<char>;

/// Calls `jsonwebtoken::encode` with `Header::new(Algorithm::HS256)` and
/// `EncodingKey::from_secret`, on a `serde_json` map of the three claims (whose
/// keys serialise in sorted order). For an HMAC algorithm and a secret key the
/// crate's source has no failing path, so a token always comes back.
#[verifier::external_body]
fn hs256_sign(user_id: &str, email: &str, exp: i64, secret: &str) -> (token: Option<String>)
    ensures
        token is Some,
        token.unwrap()@ == hs256_token(user_id@, email@, exp, secret@),
{
    let mut claims = serde_json::Map::new();
    claims.insert("user_id".to_string(), user_id.into());
    claims.insert("email".to_string(), email.into());
    claims.insert("exp".to_string(), exp.into());
    let header = jsonwebtoken::Header::new(jsonwebtoken::Algorithm::HS256);
    let key = jsonwebtoken::EncodingKey::from_secret(secret.as_bytes());
    jsonwebtoken::encode(&header, &claims, &key).ok()
}

/// Calls `jsonwebtoken::decode` into a `serde_json::Value` with
/// `DecodingKey::from_secret` and `Validation::new(Algorithm::HS256)` (the
/// signature must match and `exp` must not be past, with 60 s of leeway), and
/// picks the `user_id` text, the `email` text and the `exp` number. The expiry
/// check reads the clock, so of a token that `encode` wrote for some claims only
/// this is stated: it is refused, or those same claims come back.
#[verifier::external_body]
fn hs256_decode(token: &str, secret: &str) -> (fields: Option<(Option<String>, Option<String>, Option<i64>)>)
    ensures
        forall|u: Seq<char>, e: Seq<char>, x: i64| #[trigger] hs256_token(u, e, x, secret@) == token@
            ==> match fields {
                None => true,
                Some((Some(a), Some(b), Some(n))) => a@ == u && b@ == e && n == x,
                _ => false,
            },
{
    let key = jsonwebtoken::DecodingKey::from_secret(secret.as_bytes());
    let validation = jsonwebtoken::Validation::new(jsonwebtoken::Algorithm::HS256);
    let c = jsonwebtoken::decode::<serde_json::Value>(token, &key, &validation).ok()?.claims;
    Some((c["user_id"].as_str().map(String::from), c["email"].as_str().map(String::from), c["exp"].as_i64()))
}

/// The token signed for some claims under a secret: the identifier travels in
/// its hyphenated text.
pub open spec fn signed_token(c: Claims, secret: Seq<char>) -> Seq<char> {
    hs256_token(uuid_text(c.user_id), c.email@, c.exp, secret)
}

/// Two claims name the same user and e-mail and expire together.
pub open spec fn same_claims(a: Claims, b: Claims) -> bool {
    a.user_id == b.user_id && a.email@ == b.email@ && a.exp == b.exp
}

/// What verifying `token` under `secret` may give: a refusal, or exactly the
/// claims the token was signed with.
pub open spec fn verification_of(token: Seq<char>, secret: Seq<char>, outcome: Option<Claims>) -> bool {
    forall|k: Claims| #[trigger] signed_token(k, secret) == token
        ==> match outcome {
            None => true,
            Some(c) => same_claims(c, k),
        }
}

/// `token` was issued under `secret` for the user and e-mail, to expire
/// `lifetime` seconds after some present moment.
pub open spec fn issued_for(token: Seq<char>, user_id: u128, email: Seq<char>, secret: Seq<char>, lifetime: i64) -> bool {
    exists|c: Claims| #![trigger signed_token(c, secret)]
        c.user_id == user_id && c.email@ == email && lifetime <= c.exp < lifetime + SECONDS_LIMIT
            && token == signed_token(c, secret)
}

/// Signs claims with HS256 under `secret`.
pub fn sign_claims(claims: Claims, secret: &str) -> (res: Result<(String, Claims), Failure>)
    ensures
        res matches Ok((t, c)) && c == claims && t@ == signed_token(claims, secret@),
{
    let id = id_text(claims.user_id);
    match hs256_sign(id.as_str(), claims.email.as_str(), claims.exp, secret) {
        Some(t) => Ok((t, claims)),
        None => Err(Failure::TokenCreation),
    }
}

/// An access token for a user, signed with the configured secret; it expires
/// after the configured lifetime.
pub fn create_token(user_id: u128, email: String, config: &Config) -> (res: Result<(String, Claims), Failure>)
    requires
        config.jwt_expiration <= MAX_LIFETIME_SECONDS,
    ensures
        res matches Ok((t, c)) && c.user_id == user_id && c.email == email && config.jwt_expiration
            <= c.exp < config.jwt_expiration + SECONDS_LIMIT && t@ == signed_token(c, config.jwt_secret@),
{
    sign_claims(token_claims(user_id, email, config), config.jwt_secret.as_str())
}

/// A refresh token for a user, signed with the configured secret; it expires
/// after seven days.
pub fn create_refresh_token(user_id: u128, email: String, config: &Config) -> (res: Result<(String, Claims), Failure>)
    ensures
        res matches Ok((t, c)) && c.user_id == user_id && c.email == email && REFRESH_TOKEN_SECONDS
            <= c.exp < REFRESH_TOKEN_SECONDS + SECONDS_LIMIT && t@ == signed_token(c, config.jwt_secret@),
{
    sign_claims(refresh_token_claims(user_id, email), config.jwt_secret.as_str())
}

/// The claims read from the fields of a verified token: all three must be
/// there and the user field must be an identifier.
pub open spec fn claims_of_fields(fields: Option<(Option<String>, Option<String>, Option<i64>)>) -> Option<Claims> {
    match fields {
        Some((Some(u), Some(e), Some(x))) => match uuid_parse(u@) {
            Some(id) => Some(Claims { user_id: id, email: e, exp: x }),
            None => None,
        },
        _ => None,
    }
}

/// Reads the claims out of the fields of a verified token (none when the token
/// was refused, a field is missing, or the user field is not an identifier).
pub fn claims_from_fields(fields: Option<(Option<String>, Option<String>, Option<i64>)>) -> (c: Option<Claims>)
    ensures
        c == claims_of_fields(fields),
        fields matches Some((Some(u), _, _)) ==> forall|n: u128| #[trigger] uuid_text(n) == u@ ==> uuid_parse(u@)
            == Some(n),
{
    match fields {
        Some((Some(u), e, x)) => {
            let parsed = parse_id(u.as_str());
            match (parsed, e, x) {
                (Some(id), Some(e), Some(x)) => Some(Claims { user_id: id, email: e, exp: x }),
                _ => None,
            }
        },
        _ => None,
    }
}

/// Verifies a token under the configured secret: its signature must match and
/// it must not have expired (with 60 s of leeway). A token signed for some
/// claims gives those claims or nothing (once expired).
pub fn verify_token(token: &str, config: &Config) -> (claims: Option<Claims>)
    ensures
        verification_of(token@, config.jwt_secret@, claims),
{
    claims_from_fields(hs256_decode(token, config.jwt_secret.as_str()))
}

/// A token signed for some claims verifies, under the same secret, to those
/// claims or (once expired) to nothing; never to other claims.
pub proof fn lemma_token_round_trip(token: Seq<char>, claims: Claims, secret: Seq<char>, outcome: Option<Claims>)
    requires
        token == signed_token(claims, secret),
        verification_of(token, secret, outcome),
    ensures
        outcome matches Some(c) ==> same_claims(c, claims),
{
}

/// A token issued for a user verifies, under the same secret, to that user and
/// e-mail or (once expired) to nothing.
pub proof fn lemma_issued_token_names_user(
    token: Seq<char>,
    user_id: u128,
    email: Seq<char>,
    secret: Seq<char>,
    lifetime: i64,
    outcome: Option<Claims>,
)
    requires
        issued_for(token, user_id, email, secret, lifetime),
        verification_of(token, secret, outcome),
    ensures
        outcome matches Some(c) ==> c.user_id == user_id && c.email@ == email,
{
    let c = choose|c: Claims|
        #![trigger signed_token(c, secret)]
        c.user_id == user_id && c.email@ == email && lifetime <= c.exp < lifetime + SECONDS_LIMIT && token
            == signed_token(c, secret);
    assert(signed_token(c, secret) == token);
}

/// The answer to a sign-in for an account: its client view, an access token
/// and a refresh token, both issued for it under the configured secret.
pub fn session(account: UserAccount, config: &Config) -> (res: Result<AuthResponse, Failure>)
    requires
        config.jwt_expiration <= MAX_LIFETIME_SECONDS,
    ensures
        res matches Ok(r) && r.user == info_of(account) && issued_for(
            r.token@,
            account.id,
            account.email@,
            config.jwt_secret@,
            config.jwt_expiration,
        ) && issued_for(
            r.refresh_token@,
            account.id,
            account.email@,
            config.jwt_secret@,
            REFRESH_TOKEN_SECONDS,
        ),
{
    let (token, c1) = create_token(account.id, account.email.clone(), config)?;
    let (refresh_token, c2) = create_refresh_token(account.id, account.email.clone(), config)?;
    proof {
        assert(signed_token(c1, config.jwt_secret@) == token@);
        assert(signed_token(c2, config.jwt_secret@) == refresh_token@);
    }
    Ok(AuthResponse { token, refresh_token, user: user_info(account) })
}

/// First step of renewing a session: the refresh token the body carries, verified.
pub fn refresh_claims(raw_token: Option<&str>, config: &Config) -> (res: Result<Claims, Failure>)
    ensures
        raw_token is None ==> res == Err::<Claims, Failure>(Failure::MissingRefreshToken),
        raw_token matches Some(t) ==> match res {
            Ok(c) => verification_of(t@, config.jwt_secret@, Some(c)),
            Err(f) => f == Failure::InvalidRefreshToken && verification_of(t@, config.jwt_secret@, None),
        },
{
    let t = match raw_token {
        Some(t) => t,
        None => return Err(Failure::MissingRefreshToken),
    };
    match verify_token(t, config) {
        Some(c) => Ok(c),
        None => Err(Failure::InvalidRefreshToken),
    }
}

/// The account named by a session is active and is the one the session names.
pub open spec fn active_account_of(candidate: Option<UserAccount>, user: u128) -> bool {
    candidate matches Some(a) && a.id == user && a.is_active
}

/// Renews a session once its refresh token verified (`claims`): the account
/// it names must still be active (`candidate`, the store's answer), and the new
/// access token carries that account's identifier and current e-mail.
pub fn refresh_token(claims: &Claims, candidate: Option<UserAccount>, config: &Config) -> (res: Result<(String, Claims), Failure>)
    requires
        config.jwt_expiration <= MAX_LIFETIME_SECONDS,
    ensures
        if active_account_of(candidate, claims.user_id) {
            res matches Ok((t, c)) && c.user_id == candidate->0.id && c.email == candidate->0.email
                && config.jwt_expiration <= c.exp < config.jwt_expiration + SECONDS_LIMIT && t@
                == signed_token(c, config.jwt_secret@)
        } else {
            res == Err::<(String, Claims), Failure>(Failure::RefreshUserNotFound)
        },
{
    match candidate {
        Some(a) => if a.id == claims.user_id && a.is_active {
            create_token(a.id, a.email, config)
        } else {
            Err(Failure::RefreshUserNotFound)
        },
        None => Err(Failure::RefreshUserNotFound),
    }
}

/// The token of an `Authorization` header of the form `Bearer <token>`.
pub open spec fn bearer_of(header: Seq<char>) -> Option<Seq<char>> {
    if "Bearer "@.is_prefix_of(header) {
        Some(header.subrange(7, header.len() as int))
    } else {
        None
    }
}

/// Reads the token of an `Authorization` header (absent, or not text, is `None`).
pub fn bearer_token(header: Option<&str>) -> (token: Option<&str>)
    ensures
        match header {
            None => token is None,
            Some(h) => match bearer_of(h@) {
                None => token is None,
                Some(t) => token matches Some(s) && s@ == t,
            },
        },
{
    let h = match header {
        Some(h) => h,
        None => return None,
    };
    proof {
        reveal_strlit("Bearer ");
    }
    if starts_with_text(h, "Bearer ") {
        let n = h.unicode_len();
        Some(h.substring_char(7, n))
    } else {
        None
    }
}

/// Admits a request by its `Authorization` header: the claims of its bearer
/// token when the token verifies under the configured secret, else nothing.
pub fn authenticate(header: Option<&str>, config: &Config) -> (claims: Option<Claims>)
    ensures
        match header {
            None => claims is None,
            Some(h) => match bearer_of(h@) {
                None => claims is None,
                Some(t) => verification_of(t, config.jwt_secret@, claims),
            },
        },
{
    match bearer_token(header) {
        Some(t) => verify_token(t, config),
        None => None,
    }
}

/// A header written as `Bearer <token>` yields the token.
pub proof fn lemma_bearer_round_trip(token: Seq<char>)
    ensures
        bearer_of("Bearer "@ + token) == Some(token),
{
    reveal_strlit("Bearer ");
    let h = "Bearer "@ + token;
    assert("Bearer "@.is_prefix_of(h));
    assert(h.subrange(7, h.len() as int) =~= token);
}

/// The user a verified session belongs to.
pub fn get_current_user_id(claims: Option<&Claims>) -> (user: Option<u128>)
    ensures
        match claims {
            Some(c) => user == Some(c.user_id),
            None => user is None,
        },
{
    match claims {
        Some(c) => Some(c.user_id),
        None => None,
    }
}

/// The signed-in user's own account, while it is active.
pub fn get_current_user(user: Option<u128>, candidate: Option<UserAccount>) -> (res: Result<UserInfo, Failure>)
    ensures
        match user {
            None => res == Err::<UserInfo, Failure>(Failure::NotAuthenticated),
            Some(u) => if active_account_of(candidate, u) {
                res == Ok::<UserInfo, Failure>(info_of(candidate->0))
            } else {
                res == Err::<UserInfo, Failure>(Failure::UserNotFound)
            },
        },
{
    let u = match user {
        Some(u) => u,
        None => return Err(Failure::NotAuthenticated),
    };
    match candidate {
        Some(a) => if a.id == u && a.is_active {
            Ok(user_info(a))
        } else {
            Err(Failure::UserNotFound)
        },
        None => Err(Failure::UserNotFound),
    }
}

/// The placeholder password of accounts created through an identity provider.
pub open spec fn provider_password() -> Seq<char> {
    "oidc-user"@
}

/// `a` is the account created at `now` for a person the provider signed in.
pub open spec fn provider_account(
    a: UserAccount,
    email: Seq<char>,
    given_name: Option<String>,
    family_name: Option<String>,
    now: i64,
) -> bool {
    &&& a.email@ == email
    &&& a.first_name == given_name
    &&& a.last_name == family_name
    &&& a.is_active
    &&& password_matches(provider_password(), a.password_hash@)
    &&& a.created_at == now
    &&& a.updated_at == now
}

/// The account made for a person the provider signed in, from the outcome of
/// hashing the placeholder password.
pub fn provider_account_from(
    email: String,
    given_name: Option<String>,
    family_name: Option<String>,
    hashed: Result<String, Failure>,
    id: u128,
    now: i64,
) -> (res: Result<UserAccount, Failure>)
    ensures
        match hashed {
            Ok(h) => res == Ok::<UserAccount, Failure>(
                UserAccount {
                    id,
                    email,
                    password_hash: h,
                    first_name: given_name,
                    last_name: family_name,
                    is_active: true,
                    created_at: now,
                    updated_at: now,
                },
            ),
            Err(f) => res == Err::<UserAccount, Failure>(f),
        },
        res matches Ok(a) ==> a.id == id && a.email == email && a.first_name == given_name
            && a.last_name == family_name && a.is_active && a.created_at == now && a.updated_at == now,
{
    let password_hash = hashed?;
    Ok(
        UserAccount {
            id,
            email,
            password_hash,
            first_name: given_name,
            last_name: family_name,
            is_active: true,
            created_at: now,
            updated_at: now,
        },
    )
}

/// The account of a person the provider signed in, and whether it is new and
/// must be stored: the account with the disclosed e-mail (`existing`), else a
/// new active account named after the provider's given and family names.
pub fn provider_sign_in(
    email: String,
    given_name: Option<String>,
    family_name: Option<String>,
    existing: Option<UserAccount>,
) -> (res: Result<(UserAccount, bool), Failure>)
    ensures
        existing matches Some(a) && a.email@ == email@ ==> res == Ok::<(UserAccount, bool), Failure>(
            (existing->0, false),
        ),
        !(existing matches Some(a) && a.email@ == email@) ==> match res {
            Ok((a, is_new)) => is_new && provider_account(a, email@, given_name, family_name, a.created_at)
                && 0 <= a.created_at < MICROS_LIMIT,
            Err(f) => f == Failure::PasswordHashing,
        },
{
    if let Some(a) = existing {
        if same_text(a.email.as_str(), email.as_str()) {
            return Ok((a, false));
        }
    }
    let hashed = hash_password("oidc-user");
    let id = new_id();
    let now = now_micros();
    let a = provider_account_from(email, given_name, family_name, hashed, id, now)?;
    Ok((a, true))
}


/// A registration's account carries the e-mail and names of the request, the
/// given hash, identifier and time, and is active.
pub proof fn lemma_registration_account_fields(req: RegisterRequest, password_hash: String, id: u128, now: i64, a: UserAccount)
    requires
        a == account_of_registration(req, password_hash, id, now),
    ensures
        a.id == id,
        a.email == req.email,
        a.password_hash == password_hash,
        a.first_name == req.first_name,
        a.last_name == req.last_name,
        a.is_active,
        a.created_at == now,
        a.updated_at == now,
{
}

/// A registered account has the e-mail and names of the registration, is
/// active, and its stored hash accepts the registration's password.
pub proof fn lemma_registered_account_fields(a: UserAccount, req: RegisterRequest, now: i64)
    requires
        registered_account(a, req, now),
    ensures
        a.email == req.email,
        a.first_name == req.first_name,
        a.last_name == req.last_name,
        a.is_active,
        bcrypt_verdict(req.password@, a.password_hash@) == Some(true),
        a.created_at == now,
        a.updated_at == now,
{
}

/// An account made for a person the provider signed in has the disclosed
/// e-mail, the given name as first name and the family name as last name, is
/// active, and its stored hash accepts the placeholder password.
pub proof fn lemma_provider_account_fields(
    a: UserAccount,
    email: Seq<char>,
    given_name: Option<String>,
    family_name: Option<String>,
    now: i64,
)
    requires
        provider_account(a, email, given_name, family_name, now),
    ensures
        a.email@ == email,
        a.first_name == given_name,
        a.last_name == family_name,
        a.is_active,
        bcrypt_verdict("oidc-user"@, a.password_hash@) == Some(true),
        a.created_at == now,
        a.updated_at == now,
{
}

/// Clients are told an account's identifier, e-mail and names, and nothing else.
pub proof fn lemma_user_info_fields(a: UserAccount, info: UserInfo)
    requires
        info == info_of(a),
    ensures
        info.id == a.id,
        info.email == a.email,
        info.first_name == a.first_name,
        info.last_name == a.last_name,
{
}


/// A sign-in succeeds exactly for an active account with the given e-mail
/// whose stored hash accepts the given password.
pub proof fn lemma_sign_in_conditions(a: UserAccount, email: Seq<char>, password: Seq<char>)
    ensures
        signs_in(a, email, password) <==> (a.email@ == email && a.is_active && bcrypt_verdict(
            password,
            a.password_hash@,
        ) == Some(true)),
{
}

} // verus!
