//! OpenID Connect: provider documents, the URLs the service builds, the
//! token-exchange form and the reading of the provider's callback.
use vstd::prelude::*;
use crate::config::Config;
use crate::failure::Failure;
use crate::text::{find_char, find_char_from, lemma_find_char_first, lemma_find_char_from, lemma_find_char_in_suffix, same_text, trim_end_slashes, trim_trailing_slashes};

verus! {

/// Settings of a relying party registered with a provider.
#[derive(Debug, Clone, PartialEq, Eq)]
pub struct OidcConfig {
    pub issuer: String,
    pub client_id: String,
    pub client_secret: String,
    pub redirect_uri: String,
}

/// The endpoints a provider publishes in its discovery document.
#[derive(Debug, Clone, PartialEq, Eq)]
pub struct OidcDiscovery {
    pub authorization_endpoint: String,
    pub token_endpoint: String,
    pub userinfo_endpoint: String,
    pub issuer: String,
}

/// The provider's answer to an authorization-code exchange.
#[derive(Debug, Clone, PartialEq, Eq)]
pub struct TokenResponse {
    pub access_token: String,
    pub token_type: String,
    pub id_token: Option<String>,
    pub expires_in: Option<u64>,
}

/// What the provider discloses about the signed-in person.
#[derive(Debug, Clone, PartialEq, Eq)]
pub struct UserInfo {
    pub sub: String,
    pub email: Option<String>,
    pub email_verified: Option<bool>,
    pub name: Option<String>,
    pub given_name: Option<String>,
    pub family_name: Option<String>,
}

/// Why the token-exchange form cannot be built.
#[derive(Clone, Copy, Debug, PartialEq, Eq, Structural)]
pub enum OidcSetupError {
    ClientIdMissing,
    ClientSecretMissing,
    RedirectUriMissing,
}

impl OidcSetupError {
    /// The human-readable message of the error.
    pub fn message(&self) -> (text: &'static str)
        ensures
            text@ == match *self {
                OidcSetupError::ClientIdMissing => "OIDC client ID not configured"@,
                OidcSetupError::ClientSecretMissing => "OIDC client secret not configured"@,
                OidcSetupError::RedirectUriMissing => "OIDC redirect URI not configured"@,
            },
    {
        match self {
            OidcSetupError::ClientIdMissing => "OIDC client ID not configured",
            OidcSetupError::ClientSecretMissing => "OIDC client secret not configured",
            OidcSetupError::RedirectUriMissing => "OIDC redirect URI not configured",
        }
    }
}

/// Percent-encoding of a text as `urlencoding::encode` computes it.
pub uninterp spec fn url_encoded(text: Seq<char>) -> Seq<char>;

/// Percent-decoding of a text as `urlencoding::decode` computes it (`None` when
/// the decoded bytes are not UTF-8).
pub uninterp spec fn url_decoded(text: Seq<char>) -> Option<Seq<char>>;

/// Calls `urlencoding::encode`. Its documentation: every byte but
/// alphanumerics and `-`, `_`, `.`, `~` is written `%XX`; so the result holds
/// no `&` or `=`, and `urlencoding::decode` gives the text back.
#[verifier::external_body]
pub(crate) fn url_encode(text: &str) -> (encoded: String)
    ensures
        encoded@ == url_encoded(text@),
        url_decoded(encoded@) == Some(text@),
        forall|i: int| 0 <= i < encoded@.len() ==> encoded@[i] != '&' && encoded@[i] != '=',
{
    urlencoding::encode(text).into_owned()
}

/// Calls `urlencoding::decode`, mapping its error (non-UTF-8 bytes) to `None`.
/// Its source returns a text without `%` unchanged.
#[verifier::external_body]
pub(crate) fn url_decode(text: &str) -> (decoded: Option<String>)
    ensures
        decoded is Some <==> url_decoded(text@) is Some,
        decoded matches Some(d) ==> d@ == url_decoded(text@)->0,
        decoded is None ==> text@.contains('%'),
        decoded matches Some(d) ==> (d@ == text@ || text@.contains('%')),
{
    match urlencoding::decode(text) {
        Ok(d) => Some(d.into_owned()),
        Err(_) => None,
    }
}

/// Address of the provider's discovery document.
pub open spec fn discovery_url_of(issuer: Seq<char>) -> Seq<char> {
    trim_trailing_slashes(issuer) + "/.well-known/openid-configuration"@
}

/// The discovery document of `issuer`: trailing slashes are dropped before
/// `/.well-known/openid-configuration` is appended.
pub fn discovery_url(issuer: &str) -> (url: String)
    ensures
        url@ == discovery_url_of(issuer@),
{
    let mut url = String::from_str(trim_end_slashes(issuer));
    url.append("/.well-known/openid-configuration");
    url
}

/// Trailing slashes of the issuer do not change the discovery address.
pub proof fn lemma_discovery_ignores_trailing_slash(issuer: Seq<char>)
    ensures
        discovery_url_of(issuer.push('/')) == discovery_url_of(issuer),
{
    assert(issuer.push('/').drop_last() =~= issuer);
}

/// The issuer to sign in with, when issuer, client id and redirect URI are all set.
pub fn login_issuer(config: &Config) -> (res: Result<String, Failure>)
    ensures
        config.oidc_issuer is Some && config.oidc_client_id is Some
            && config.oidc_redirect_uri is Some ==> res == Ok::<String, Failure>(
            config.oidc_issuer->0,
        ),
        !(config.oidc_issuer is Some && config.oidc_client_id is Some
            && config.oidc_redirect_uri is Some) ==> res == Err::<String, Failure>(
            Failure::OidcNotConfigured,
        ),
{
    match (&config.oidc_issuer, &config.oidc_client_id, &config.oidc_redirect_uri) {
        (Some(issuer), Some(_), Some(_)) => Ok(issuer.clone()),
        _ => Err(Failure::OidcNotConfigured),
    }
}

/// The address the browser is sent to in order to sign in with the provider.
pub open spec fn authorization_url_of(
    endpoint: Seq<char>,
    client_id: Seq<char>,
    redirect_uri: Seq<char>,
) -> Seq<char> {
    endpoint + "?client_id="@ + client_id + "&redirect_uri="@ + url_encoded(redirect_uri)
        + "&response_type=code&scope=openid email profile"@
}

/// Builds the provider sign-in address from the discovery document and the
/// configured client; the redirect URI is percent-encoded, the client id is not.
pub fn authorization_url(config: &Config, discovery: &OidcDiscovery) -> (res: Result<String, Failure>)
    ensures
        config.oidc_issuer is Some && config.oidc_client_id is Some
            && config.oidc_redirect_uri is Some ==> (res matches Ok(url) && url@
            == authorization_url_of(
            discovery.authorization_endpoint@,
            config.oidc_client_id->0@,
            config.oidc_redirect_uri->0@,
        )),
        !(config.oidc_issuer is Some && config.oidc_client_id is Some
            && config.oidc_redirect_uri is Some) ==> res == Err::<String, Failure>(
            Failure::OidcNotConfigured,
        ),
{
    match (&config.oidc_issuer, &config.oidc_client_id, &config.oidc_redirect_uri) {
        (Some(_), Some(client_id), Some(redirect_uri)) => {
            let mut url = String::from_str(discovery.authorization_endpoint.as_str());
            url.append("?client_id=");
            url.append(client_id.as_str());
            url.append("&redirect_uri=");
            let encoded = url_encode(redirect_uri.as_str());
            url.append(encoded.as_str());
            url.append("&response_type=code&scope=openid email profile");
            Ok(url)
        },
        _ => Err(Failure::OidcNotConfigured),
    }
}

/// A name and a value of a form.
pub open spec fn field(name: Seq<char>, value: Seq<char>) -> (Seq<char>, Seq<char>) {
    (name, value)
}

/// The views of a form's fields.
pub open spec fn form_view(form: Seq<(String, String)>) -> Seq<(Seq<char>, Seq<char>)> {
    form.map_values(|f: (String, String)| (f.0@, f.1@))
}

fn pair_of(name: &str, value: &str) -> (p: (String, String))
    ensures
        p.0@ == name@,
        p.1@ == value@,
{
    (String::from_str(name), String::from_str(value))
}

/// The form posted to the token endpoint to exchange an authorization code.
/// Client id, client secret and redirect URI must be configured, checked in that order.
pub fn token_request_form(code: &str, config: &Config) -> (res: Result<Vec<(String, String)>, OidcSetupError>)
    ensures
        config.oidc_client_id is None ==> res == Err::<Vec<(String, String)>, OidcSetupError>(
            OidcSetupError::ClientIdMissing,
        ),
        config.oidc_client_id is Some && config.oidc_client_secret is None ==> res == Err::<
            Vec<(String, String)>,
            OidcSetupError,
        >(OidcSetupError::ClientSecretMissing),
        config.oidc_client_id is Some && config.oidc_client_secret is Some
            && config.oidc_redirect_uri is None ==> res == Err::<
            Vec<(String, String)>,
            OidcSetupError,
        >(OidcSetupError::RedirectUriMissing),
        config.oidc_client_id is Some && config.oidc_client_secret is Some
            && config.oidc_redirect_uri is Some ==> (res matches Ok(form) && form_view(form@)
            == seq![
                field("grant_type"@, "authorization_code"@),
                field("code"@, code@),
                field("redirect_uri"@, config.oidc_redirect_uri->0@),
                field("client_id"@, config.oidc_client_id->0@),
                field("client_secret"@, config.oidc_client_secret->0@),
            ]),
{
    let client_id = match &config.oidc_client_id {
        Some(c) => c,
        None => return Err(OidcSetupError::ClientIdMissing),
    };
    let client_secret = match &config.oidc_client_secret {
        Some(c) => c,
        None => return Err(OidcSetupError::ClientSecretMissing),
    };
    let redirect_uri = match &config.oidc_redirect_uri {
        Some(c) => c,
        None => return Err(OidcSetupError::RedirectUriMissing),
    };
    let mut form: Vec<(String, String)> = Vec::new();
    form.push(pair_of("grant_type", "authorization_code"));
    form.push(pair_of("code", code));
    form.push(pair_of("redirect_uri", redirect_uri.as_str()));
    form.push(pair_of("client_id", client_id.as_str()));
    form.push(pair_of("client_secret", client_secret.as_str()));
    assert(form_view(form@) =~= seq![
        field("grant_type"@, "authorization_code"@),
        field("code"@, code@),
        field("redirect_uri"@, config.oidc_redirect_uri->0@),
        field("client_id"@, config.oidc_client_id->0@),
        field("client_secret"@, config.oidc_client_secret->0@),
    ]);
    Ok(form)
}

/// The raw value of a `code=...` pair: the text after the first `=` up to the
/// next `=`, when the text before the first `=` is exactly `code`.
pub open spec fn pair_code(pair: Seq<char>) -> Option<Seq<char>> {
    let k = find_char_from(pair, '=', 0);
    if k < pair.len() && pair.subrange(0, k) == "code"@ {
        let rest = pair.subrange(k + 1, pair.len() as int);
        Some(rest.subrange(0, find_char_from(rest, '=', 0)))
    } else {
        None
    }
}

/// The decoded code of a pair, when it is a `code` pair that decodes.
pub open spec fn pair_decoded_code(pair: Seq<char>) -> Option<Seq<char>> {
    match pair_code(pair) {
        Some(raw) => url_decoded(raw),
        None => None,
    }
}

/// The authorization code carried by a query string: the first `&`-separated
/// pair, in order, that is a `code` pair whose value decodes.
pub open spec fn query_code(q: Seq<char>) -> Option<Seq<char>>
    decreases q.len(),
{
    let k = find_char_from(q, '&', 0);
    let here = pair_decoded_code(q.subrange(0, k));
    if here is Some || k >= q.len() {
        here
    } else {
        proof {
            lemma_find_char_from(q, '&', 0);
        }
        query_code(q.subrange(k + 1, q.len() as int))
    }
}

/// A callback whose query starts with `code=<value>` (then ends or goes on with
/// `&...`) yields the decoded value, when the value holds no `&` or `=` (as the
/// percent-encoding the provider applies guarantees).
pub proof fn lemma_callback_reads_sent_code(value: Seq<char>, code: Seq<char>, tail: Seq<char>)
    requires
        url_decoded(value) == Some(code),
        forall|i: int| 0 <= i < value.len() ==> value[i] != '&' && value[i] != '=',
        tail.len() == 0 || tail[0] == '&',
    ensures
        query_code("code="@ + value + tail) == Some(code),
{
    reveal_strlit("code=");
    reveal_strlit("code");
    let q = "code="@ + value + tail;
    let end: int = value.len() + 5int;
    lemma_find_char_first(q, '&', 0, end);
    let pair = q.subrange(0, end);
    assert(pair =~= "code="@ + value);
    lemma_find_char_first(pair, '=', 0, 4);
    assert(pair.subrange(0, 4) =~= "code"@);
    let rest = pair.subrange(5, pair.len() as int);
    assert(rest =~= value);
    lemma_find_char_first(rest, '=', 0, rest.len() as int);
    assert(rest.subrange(0, rest.len() as int) =~= value);
}

fn code_of_pair(pair: &str) -> (code: Option<String>)
    ensures
        code is Some <==> pair_decoded_code(pair@) is Some,
        code matches Some(c) ==> c@ == pair_decoded_code(pair@)->0,
{
    let n = pair.unicode_len();
    let k = find_char(pair, '=', 0);
    proof {
        lemma_find_char_from(pair@, '=', 0);
    }
    if k >= n {
        return None;
    }
    let name = pair.substring_char(0, k);
    if !same_text(name, "code") {
        return None;
    }
    let rest = pair.substring_char(k + 1, n);
    let end = find_char(rest, '=', 0);
    proof {
        lemma_find_char_from(rest@, '=', 0);
    }
    let raw = rest.substring_char(0, end);
    url_decode(raw)
}

/// Reads the authorization code of the provider's callback from the query
/// string; a missing query or a query without a decodable `code` pair is refused.
pub fn callback_code(query: Option<&str>) -> (res: Result<String, Failure>)
    ensures
        match query {
            None => res == Err::<String, Failure>(Failure::MissingAuthorizationCode),
            Some(q) => match query_code(q@) {
                Some(c) => res matches Ok(s) && s@ == c,
                None => res == Err::<String, Failure>(Failure::MissingAuthorizationCode),
            },
        },
{
    let q = match query {
        Some(q) => q,
        None => return Err(Failure::MissingAuthorizationCode),
    };
    let n = q.unicode_len();
    let mut pos: usize = 0;
    assert(q@.subrange(0, n as int) =~= q@);
    loop
        invariant
            query == Some(q),
            n == q@.len(),
            pos <= n,
            query_code(q@) == query_code(q@.subrange(pos as int, n as int)),
        decreases n - pos,
    {
        let ghost rest = q@.subrange(pos as int, n as int);
        let k = find_char(q, '&', pos);
        proof {
            lemma_find_char_from(q@, '&', pos as int);
            lemma_find_char_in_suffix(q@, '&', pos as int, 0);
            assert(rest.subrange(0, k - pos) =~= q@.subrange(pos as int, k as int));
        }
        let pair = q.substring_char(pos, k);
        proof {
            assert(find_char_from(rest, '&', 0) == k - pos);
            assert(rest.subrange(0, find_char_from(rest, '&', 0)) == pair@);
            reveal_with_fuel(query_code, 2);
        }
        match code_of_pair(pair) {
            Some(c) => {
                return Ok(c);
            },
            None => {
                if k >= n {
                    return Err(Failure::MissingAuthorizationCode);
                }
                proof {
                    assert(rest.subrange(k - pos + 1, rest.len() as int) =~= q@.subrange(
                        k + 1,
                        n as int,
                    ));
                }
                pos = k + 1;
            },
        }
    }
}

/// The issuer the callback completes sign-in with.
pub fn callback_issuer(config: &Config) -> (res: Result<String, Failure>)
    ensures
        match config.oidc_issuer {
            Some(i) => res == Ok::<String, Failure>(i),
            None => res == Err::<String, Failure>(Failure::OidcIssuerMissing),
        },
{
    match &config.oidc_issuer {
        Some(i) => Ok(i.clone()),
        None => Err(Failure::OidcIssuerMissing),
    }
}

/// The e-mail address the provider disclosed; sign-in needs one.
pub fn disclosed_email(info: &UserInfo) -> (res: Result<String, Failure>)
    ensures
        match info.email {
            Some(e) => res == Ok::<String, Failure>(e),
            None => res == Err::<String, Failure>(Failure::OidcEmailMissing),
        },
{
    match &info.email {
        Some(e) => Ok(e.clone()),
        None => Err(Failure::OidcEmailMissing),
    }
}

/// Where the front end is served when no address is configured.
pub open spec fn default_frontend() -> Seq<char> {
    "http://localhost:5173"@
}

/// The front-end address after sign-in, carrying both tokens percent-encoded.
pub open spec fn frontend_redirect_of(frontend: Seq<char>, token: Seq<char>, refresh: Seq<char>) -> Seq<char> {
    frontend + "/auth/callback?token="@ + url_encoded(token) + "&refresh_token="@
        + url_encoded(refresh)
}

/// Sends the browser back to the front end (the configured one, else the
/// default) with the access and refresh tokens.
pub fn frontend_redirect(frontend: Option<&str>, token: &str, refresh_token: &str) -> (url: String)
    ensures
        url@ == frontend_redirect_of(
            match frontend {
                Some(f) => f@,
                None => default_frontend(),
            },
            token@,
            refresh_token@,
        ),
{
    let mut url = match frontend {
        Some(f) => String::from_str(f),
        None => String::from_str("http://localhost:5173"),
    };
    url.append("/auth/callback?token=");
    let t = url_encode(token);
    url.append(t.as_str());
    url.append("&refresh_token=");
    let r = url_encode(refresh_token);
    url.append(r.as_str());
    url
}


/// The front-end redirect carries the access token as the `token` parameter and
/// the refresh token as the `refresh_token` parameter: after the front-end
/// address and `/auth/callback?token=`, the text up to the first `&` decodes to
/// the access token, and what follows `&refresh_token=` decodes to the refresh
/// token.
pub proof fn lemma_redirect_carries_tokens(frontend: Seq<char>, token: Seq<char>, refresh: Seq<char>)
    requires
        url_decoded(url_encoded(token)) == Some(token),
        url_decoded(url_encoded(refresh)) == Some(refresh),
        forall|i: int| 0 <= i < url_encoded(token).len() ==> url_encoded(token)[i] != '&',
    ensures
        ({
            let u = frontend_redirect_of(frontend, token, refresh);
            let start: int = frontend.len() as int + 21;
            let k = find_char_from(u, '&', start);
            &&& u.subrange(0, frontend.len() as int) == frontend
            &&& u.subrange(frontend.len() as int, start) == "/auth/callback?token="@
            &&& url_decoded(u.subrange(start, k)) == Some(token)
            &&& u.subrange(k, k + 15) == "&refresh_token="@
            &&& url_decoded(u.subrange(k + 15, u.len() as int)) == Some(refresh)
        }),
{
    reveal_strlit("/auth/callback?token=");
    reveal_strlit("&refresh_token=");
    let et = url_encoded(token);
    let er = url_encoded(refresh);
    let u = frontend_redirect_of(frontend, token, refresh);
    let start: int = frontend.len() as int + 21;
    let k: int = start + et.len();
    assert(u =~= frontend + "/auth/callback?token="@ + et + "&refresh_token="@ + er);
    assert forall|j: int| start <= j < k implies u[j] != '&' by {
        assert(u[j] == et[j - start]);
    }
    assert(u[k] == '&');
    lemma_find_char_first(u, '&', start, k);
    assert(u.subrange(0, frontend.len() as int) =~= frontend);
    assert(u.subrange(frontend.len() as int, start) =~= "/auth/callback?token="@);
    assert(u.subrange(start, k) =~= et);
    assert(u.subrange(k, k + 15) =~= "&refresh_token="@);
    assert(u.subrange(k + 15, u.len() as int) =~= er);
}


/// The provider sign-in address is the authorization endpoint with the query
/// `client_id` (as configured), then `redirect_uri` (whose value decodes to the
/// configured redirect URI), then the fixed code-flow response type and scopes.
pub proof fn lemma_authorization_url_parts(endpoint: Seq<char>, client_id: Seq<char>, redirect_uri: Seq<char>)
    requires
        url_decoded(url_encoded(redirect_uri)) == Some(redirect_uri),
    ensures
        ({
            let u = authorization_url_of(endpoint, client_id, redirect_uri);
            let a: int = endpoint.len() as int + 11;
            let b: int = a + client_id.len();
            let t: int = u.len() as int - 46;
            &&& u.subrange(0, endpoint.len() as int) == endpoint
            &&& u.subrange(endpoint.len() as int, a) == "?client_id="@
            &&& u.subrange(a, b) == client_id
            &&& u.subrange(b, b + 14) == "&redirect_uri="@
            &&& url_decoded(u.subrange(b + 14, t)) == Some(redirect_uri)
            &&& u.subrange(t, u.len() as int) == "&response_type=code&scope=openid email profile"@
        }),
{
    reveal_strlit("?client_id=");
    reveal_strlit("&redirect_uri=");
    reveal_strlit("&response_type=code&scope=openid email profile");
    let er = url_encoded(redirect_uri);
    let u = authorization_url_of(endpoint, client_id, redirect_uri);
    let a: int = endpoint.len() as int + 11;
    let b: int = a + client_id.len();
    let t: int = u.len() as int - 46;
    assert(u.subrange(0, endpoint.len() as int) =~= endpoint);
    assert(u.subrange(endpoint.len() as int, a) =~= "?client_id="@);
    assert(u.subrange(a, b) =~= client_id);
    assert(u.subrange(b, b + 14) =~= "&redirect_uri="@);
    assert(u.subrange(b + 14, t) =~= er);
    assert(u.subrange(t, u.len() as int) =~= "&response_type=code&scope=openid email profile"@);
}

} // verus!
