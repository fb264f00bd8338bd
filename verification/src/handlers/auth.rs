//! Bearer-token authentication: issuing a signed claims token from
//! credentials, and verifying a presented token back into claims.
//!
//! Tokens are compact HMAC-signed payloads produced and checked by the
//! `jsonwebtoken` crate behind the two trusted items below; everything the
//! contracts say about a token goes through the names `token_of` and
//! `token_claims`.

use crate::handlers::context::HandlerContext;
use crate::strutil::str_eq;
use vstd::prelude::*;
use vstd::string::StringExecFns;

verus! {

/// The verified payload identifying a caller.
#[derive(Debug)]
pub struct AuthClaims {
    pub sub: String,
    pub company: String,
    pub exp: u64,
}

impl AuthClaims {
    /// The two identifying fields, one per line.
    pub fn display_string(&self) -> (r: String)
        ensures
            r@ == "Email: "@ + self.sub@ + "\nCompany: "@ + self.company@,
    {
        let mut m = "Email: ".to_owned();
        m.append(self.sub.as_str());
        m.append("\nCompany: ");
        m.append(self.company.as_str());
        m
    }
}

/// The body answering a successful login.
#[derive(Debug)]
pub struct AuthBody {
    pub access_token: String,
    pub token_type: String,
}

impl AuthBody {
    /// Wraps a freshly issued token; the token type is always `Bearer`.
    pub fn new(access_token: String) -> (r: AuthBody)
        ensures
            r.access_token == access_token,
            r.token_type@ == "Bearer"@,
    {
        AuthBody { access_token, token_type: "Bearer".to_owned() }
    }
}

/// The credentials presented to login.
#[derive(Debug)]
pub struct AuthPayload {
    pub client_id: String,
    pub client_secret: String,
}

/// What authentication can report.
#[derive(Clone, Copy, Debug, PartialEq, Eq, Structural)]
pub enum AuthError {
    /// The credential pair does not match the expected identity.
    WrongCredentials,
    /// A credential field is empty.
    MissingCredentials,
    /// Signing the claims failed.
    TokenCreation,
    /// The presented token is absent, malformed, badly signed or expired;
    /// the causes are deliberately not distinguished.
    InvalidToken,
}

impl AuthError {
    /// The protocol status class of the error.
    pub open spec fn spec_status(self) -> u16 {
        match self {
            AuthError::WrongCredentials => 401,
            AuthError::MissingCredentials => 400,
            AuthError::TokenCreation => 500,
            AuthError::InvalidToken => 400,
        }
    }

    /// The deliberately generic message of the error.
    pub open spec fn spec_message(self) -> Seq<char> {
        match self {
            AuthError::WrongCredentials => "Wrong credentials"@,
            AuthError::MissingCredentials => "Missing credentials"@,
            AuthError::TokenCreation => "Token creation error"@,
            AuthError::InvalidToken => "Invalid token"@,
        }
    }

    /// The status code and message a response carries for this error.
    pub fn status_and_message(&self) -> (r: (u16, String))
        ensures
            r.0 == self.spec_status(),
            r.1@ == self.spec_message(),
    {
        match self {
            AuthError::WrongCredentials => (401, "Wrong credentials".to_owned()),
            AuthError::MissingCredentials => (400, "Missing credentials".to_owned()),
            AuthError::TokenCreation => (500, "Token creation error".to_owned()),
            AuthError::InvalidToken => (400, "Invalid token".to_owned()),
        }
    }
}

/// The symmetric signing secret, from which the encoding and decoding keys
/// are derived at the signing boundary.
pub struct Keys {
    secret: Vec<u8>,
}

impl Keys {
    /// The secret's bytes.
    pub closed spec fn spec_secret(&self) -> Seq<u8> {
        self.secret@
    }

    /// Keeps the secret for later key derivation.
    pub fn new(secret: &[u8]) -> (r: Keys)
        ensures
            r.spec_secret() == secret@,
    {
        Keys { secret: vstd::slice::slice_to_vec(secret) }
    }
}

/// The compact signed token that encoding the claims (subject, organization,
/// expiry) under a secret yields. Deterministic in its arguments; nothing
/// else is assumed of its shape.
pub uninterp spec fn token_of(
    sub: Seq<char>,
    company: Seq<char>,
    exp: u64,
    secret: Seq<u8>,
) -> Seq<char>;

/// The claims a token carries when it is well-formed and correctly signed
/// under the secret: `None` when the signature or shape is wrong, the
/// (subject, organization, expiry) triple otherwise. Deterministic in its
/// arguments; expiry checking is a separate, clock-dependent concern.
pub uninterp spec fn token_claims(token: Seq<char>, secret: Seq<u8>) -> Option<
    (Seq<char>, Seq<char>, u64),
>;

/// Relies on jsonwebtoken::encode with the default (HMAC-SHA256) header: the
/// token is a deterministic function of the claims and the secret, and
/// decoding it under the same secret yields the claims back. Signing always
/// succeeds: with the built-in provider an HMAC key of any length is
/// accepted, the HMAC itself is infallible, and serializing this fixed map
/// of two strings and an integer cannot fail.
#[verifier::external_body]
fn jwt_encode(keys: &Keys, sub: &str, company: &str, exp: u64) -> (r: Result<String, ()>)
    ensures
        r is Ok,
        r matches Ok(t) ==> t@ == token_of(sub@, company@, exp, keys.spec_secret()),
        r matches Ok(t) ==> token_claims(t@, keys.spec_secret()) == Some((sub@, company@, exp)),
{
    let mut claims = serde_json::Map::new();
    claims.insert("sub".to_string(), serde_json::Value::String(sub.to_string()));
    claims.insert("company".to_string(), serde_json::Value::String(company.to_string()));
    claims.insert("exp".to_string(), serde_json::Value::Number(serde_json::Number::from(exp)));
    let key = jsonwebtoken::EncodingKey::from_secret(&keys.secret);
    jsonwebtoken::encode(&jsonwebtoken::Header::default(), &serde_json::Value::Object(claims), &key)
        .map_err(|_| ())
}

/// Relies on jsonwebtoken::decode with the default validation (HMAC-SHA256,
/// expiry required and checked against the clock): a success yields exactly
/// the claims the token carries under the secret, and a token that carries
/// none never succeeds. Expiry makes success clock-dependent, so success is
/// never promised.
#[verifier::external_body]
fn jwt_decode(keys: &Keys, token: &str) -> (r: Result<AuthClaims, ()>)
    ensures
        r matches Ok(c) ==> token_claims(token@, keys.spec_secret()) == Some(
            (c.sub@, c.company@, c.exp),
        ),
        token_claims(token@, keys.spec_secret()) is None ==> r is Err,
{
    let key = jsonwebtoken::DecodingKey::from_secret(&keys.secret);
    let validation = jsonwebtoken::Validation::default();
    let data = jsonwebtoken::decode::<serde_json::Value>(token, &key, &validation).map_err(
        |_| (),
    )?;
    let sub = data.claims.get("sub").and_then(|v| v.as_str()).ok_or(())?.to_string();
    let company = data.claims.get("company").and_then(|v| v.as_str()).ok_or(())?.to_string();
    let exp = data.claims.get("exp").and_then(|v| v.as_u64()).ok_or(())?;
    Ok(AuthClaims { sub, company, exp })
}

/// The subject every successful login identifies.
pub open spec fn spec_login_sub() -> Seq<char> {
    "b@b.com"@
}

/// The organization every successful login identifies.
pub open spec fn spec_login_company() -> Seq<char> {
    "ACME"@
}

/// The fixed expiry the issued claims carry.
pub open spec fn spec_login_exp() -> u64 {
    2000000000
}

/// Checks the presented credentials and issues a signed claims token.
///
/// Empty credentials are rejected before any comparison; a non-matching pair
/// is rejected as wrong; on the expected pair, the fixed claims are signed
/// with the context's secret and the login succeeds. The token-creation
/// failure remains in the taxonomy for signing schemes that can fail; this
/// one cannot.
pub fn login(context: &HandlerContext, payload: &AuthPayload) -> (r: Result<AuthBody, AuthError>)
    ensures
        r == Err::<AuthBody, AuthError>(AuthError::MissingCredentials) <==> (
        payload.client_id@.len() == 0 || payload.client_secret@.len() == 0),
        r == Err::<AuthBody, AuthError>(AuthError::WrongCredentials) <==> (
        payload.client_id@.len() != 0 && payload.client_secret@.len() != 0 && !(
        payload.client_id@ == "foo"@ && payload.client_secret@ == "bar"@)),
        r is Ok <==> (payload.client_id@ == "foo"@ && payload.client_secret@ == "bar"@),
        r matches Ok(body) ==> body.token_type@ == "Bearer"@ && body.access_token@ == token_of(
            spec_login_sub(),
            spec_login_company(),
            spec_login_exp(),
            context.spec_secret(),
        ) && token_claims(body.access_token@, context.spec_secret()) == Some(
            (spec_login_sub(), spec_login_company(), spec_login_exp()),
        ),
{
    proof {
        reveal_strlit("foo");
        reveal_strlit("bar");
    }
    if payload.client_id.as_str().is_empty() || payload.client_secret.as_str().is_empty() {
        return Err(AuthError::MissingCredentials);
    }
    // The expected pair is a stand-in until credentials live in the store.
    if !(str_eq(payload.client_id.as_str(), "foo") && str_eq(payload.client_secret.as_str(), "bar"))
        {
        return Err(AuthError::WrongCredentials);
    }
    match jwt_encode(context.jwt_secret(), "b@b.com", "ACME", 2000000000) {
        Ok(token) => Ok(AuthBody::new(token)),
        Err(()) => Err(AuthError::TokenCreation),
    }
}

/// Verifies a presented bearer token against the context's secret and
/// returns its claims.
///
/// Every failure — absent, malformed, badly signed or expired token — is the
/// one undifferentiated invalid-token error; a success returns exactly the
/// claims the token was signed with.
pub fn verify(context: &HandlerContext, token: &str) -> (r: Result<AuthClaims, AuthError>)
    ensures
        r matches Ok(c) ==> token_claims(token@, context.spec_secret()) == Some(
            (c.sub@, c.company@, c.exp),
        ),
        r is Err ==> r == Err::<AuthClaims, AuthError>(AuthError::InvalidToken),
        token_claims(token@, context.spec_secret()) is None ==> r is Err,
{
    match jwt_decode(context.jwt_secret(), token) {
        Ok(claims) => Ok(claims),
        Err(()) => Err(AuthError::InvalidToken),
    }
}

/// Law: verification is faithful to the signed claims, and it fails only
/// with the invalid-token error.
///
/// For a token that carries claims signed under a secret, any outcome
/// admissible for `verify` either returns those fields byte for byte, or is
/// exactly the invalid-token error — never different fields, never another
/// error.
pub proof fn lemma_verify_faithful(
    token: Seq<char>,
    secret: Seq<u8>,
    sub: Seq<char>,
    company: Seq<char>,
    exp: u64,
    outcome: Result<AuthClaims, AuthError>,
)
    requires
        token_claims(token, secret) == Some((sub, company, exp)),
        outcome matches Ok(c) ==> token_claims(token, secret) == Some((c.sub@, c.company@, c.exp)),
        outcome is Err ==> outcome == Err::<AuthClaims, AuthError>(AuthError::InvalidToken),
    ensures
        outcome matches Ok(c) ==> c.sub@ == sub && c.company@ == company && c.exp == exp,
        outcome is Err ==> outcome == Err::<AuthClaims, AuthError>(AuthError::InvalidToken),
{
}

/// The `auth.get_claims` operation: echoes the caller's verified claims.
pub fn get_claims(_context: &HandlerContext, auth_claims: AuthClaims, _req: ()) -> (r: Result<
    AuthClaims,
    crate::handlers::HandlerError,
>)
    ensures
        r matches Ok(c) && c == auth_claims,
{
    Ok(auth_claims)
}

} // verus!
