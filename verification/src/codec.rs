use vstd::prelude::*;
use vstd::utf8::decode_utf8;
use vstd::utf8::valid_utf8;

use jsonwebtoken::DecodingKey;
use jsonwebtoken::Validation;
use jsonwebtoken::errors::ErrorKind;
use serde_json::Value;
use std::collections::HashSet;

use crate::claims::ApiClaims;
use crate::claims::now_ts;
use crate::errors::CustomErr;
use crate::headers::RequestHeaders;
use crate::headers::copy_char_range;
use crate::headers::find_auth_value;
use crate::headers::first_auth_value;
use crate::headers::has_jwt_token;
use crate::headers::jwt_token_of;
use crate::headers::scan_spaces;
use crate::headers::scan_token;
use crate::headers::scheme_is_bearer;
use crate::headers::string_of_chars;
use crate::headers::utf8_chars;
use crate::headers::word_is_bearer;

verus! {

/// The signing secret's characters.
pub open spec fn secret_key() -> Seq<char> {
    "app-secret"@
}

/// The static signing secret; compiled in by design, and flagged as a
/// deployment weakness, not a capability of this core.
pub fn jwt_secret_key() -> (s: &'static str)
    ensures
        s@ == secret_key(),
{
    "app-secret"
}

/// The compact signed token produced from the given claim fields with the
/// given secret. Signing with a fixed header and key is deterministic, so
/// the token is a function of these arguments alone.
pub uninterp spec fn signed_token_of(
    iat: int,
    exp: int,
    sub: Seq<char>,
    user_name: Seq<char>,
    secret: Seq<char>,
) -> Seq<char>;

/// What a token carries for a given secret: `Some` of the four claim fields
/// and the header's type tag, exactly when the token is structurally well
/// formed, signed with that secret under the expected algorithm, and its
/// payload holds the four claims and passes the remaining default checks
/// (in particular, a payload carrying an `aud` claim is rejected, since no
/// audience is expected here). Signature checking is deterministic, so this
/// is a function of its arguments alone.
pub uninterp spec fn token_claims(token: Seq<char>, secret: Seq<char>) -> Option<
    (int, int, Seq<char>, Seq<char>, Option<Seq<char>>),
>;

/// The characters of an optional string.
pub open spec fn typ_view(t: Option<String>) -> Option<Seq<char>> {
    match t {
        Some(s) => Some(s@),
        None => None,
    }
}

/// Relies on jsonwebtoken::encode with the default HS256 header and on
/// serde_json for the payload. Signing a string-keyed JSON object with an
/// HMAC secret takes no fallible step in the crate, so the call succeeds.
/// The header is fixed (type tag `JWT`, algorithm HS256), serde_json's map
/// keeps its keys ordered, and HMAC signing is deterministic, so the token
/// is a function of the claims and the secret alone; and jsonwebtoken::decode
/// with the same secret reads exactly these four claims and that type tag
/// back out of it, which is the crates' documented round trip.
#[verifier::external_body]
fn sign_token(iat: i64, exp: i64, sub: &str, user_name: &str, secret: &str) -> (r: Result<
    String,
    jsonwebtoken::errors::Error,
>)
    ensures
        r is Ok,
        r matches Ok(t) ==> t@ == signed_token_of(
            iat as int,
            exp as int,
            sub@,
            user_name@,
            secret@,
        ),
        r matches Ok(t) ==> token_claims(t@, secret@) == Some(
            (iat as int, exp as int, sub@, user_name@, Some("JWT"@)),
        ),
{
    let mut claims = serde_json::Map::new();
    claims.insert("iat".to_string(), Value::from(iat));
    claims.insert("exp".to_string(), Value::from(exp));
    claims.insert("sub".to_string(), Value::from(sub));
    claims.insert("user_name".to_string(), Value::from(user_name));
    jsonwebtoken::encode(
        &jsonwebtoken::Header::default(),
        &Value::Object(claims),
        &jsonwebtoken::EncodingKey::from_secret(secret.as_bytes()),
    )
}

/// Relies on jsonwebtoken::decode with expiry validation turned off, so that
/// the outcome depends on the token and the secret alone, and on serde_json
/// for reading the four claims out of the verified payload: `Ok` exactly
/// when the token verifies, carries the four claims and no unexpected `aud`
/// claim; the header's type tag comes back beside them.
#[verifier::external_body]
fn verify_token(token: &str, secret: &str) -> (r: Result<
    (i64, i64, String, String, Option<String>),
    jsonwebtoken::errors::Error,
>)
    ensures
        r matches Ok(c) ==> token_claims(token@, secret@) == Some(
            (c.0 as int, c.1 as int, c.2@, c.3@, typ_view(c.4)),
        ),
        r is Err <==> token_claims(token@, secret@) is None,
{
    let mut validation = Validation::default();
    validation.validate_exp = false;
    validation.required_spec_claims = HashSet::new();
    let key = DecodingKey::from_secret(secret.as_bytes());
    let d = jsonwebtoken::decode::<serde_json::Map<String, Value>>(token, &key, &validation)?;
    let c = d.claims;
    match (
        c.get("iat").and_then(Value::as_i64),
        c.get("exp").and_then(Value::as_i64),
        c.get("sub").and_then(Value::as_str),
        c.get("user_name").and_then(Value::as_str),
    ) {
        (Some(i), Some(e), Some(s), Some(n)) => Ok((i, e, s.to_string(), n.to_string(), d.header.typ)),
        _ => Err(ErrorKind::InvalidToken.into()),
    }
}

/// Relies on jsonwebtoken's ErrorKind::ExpiredSignature: the expired-token
/// cause reported with the same error value the crate itself uses.
#[verifier::external_body]
fn expired_error() -> jsonwebtoken::errors::Error {
    ErrorKind::ExpiredSignature.into()
}

/// Whether claims with expiry `exp` count as expired at time `now`. The 60
/// seconds of leeway for clock skew are the token library's default policy,
/// kept unchanged here.
pub open spec fn is_expired(exp: int, now: int) -> bool {
    exp < now - 60
}

/// Header metadata decoded beside the claims: the token's type tag and the
/// name of the algorithm it was verified under.
pub struct TokenHeader {
    pub typ: Option<String>,
    pub alg: String,
}

/// A successfully decoded token: its claims and its header metadata.
pub struct TokenData<T> {
    pub header: TokenHeader,
    pub claims: T,
}

/// The name of the only algorithm the codec signs with or admits.
pub fn hs256_name() -> (s: String)
    ensures
        s@ == "HS256"@,
{
    "HS256".to_owned()
}

/// The token codec: signs claims into compact tokens, verifies and decodes
/// tokens back into claims.
pub struct ApiJwt;

/// Obtains a bearer token string from request headers, and verifies and
/// decodes a token into claims of type `T`.
pub trait JwtDecoder<T> {
    fn parse_header(request: &RequestHeaders) -> Result<String, CustomErr>;

    fn decode(&self, token: &str) -> Result<TokenData<T>, CustomErr>;
}

impl ApiJwt {
    /// Signs `claims` into a compact token with the static secret. Signing
    /// cannot fail, and the token is the deterministic encoding of the four
    /// claim fields and carries exactly those claims, under the fixed type
    /// tag, back to any decoding. The error side stays in the signature as
    /// the propagation path for a primitive failure, and never holds a
    /// user-caused condition.
    pub fn encode(claims: ApiClaims) -> (r: Result<String, jsonwebtoken::errors::Error>)
        ensures
            r matches Ok(t) && t@ == signed_token_of(
                claims.iat as int,
                claims.exp as int,
                claims.sub@,
                claims.user_name@,
                secret_key(),
            ),
            r matches Ok(t) ==> token_claims(t@, secret_key()) == Some(
                (claims.iat as int, claims.exp as int, claims.sub@, claims.user_name@, Some("JWT"@)),
            ),
    {
        sign_token(
            claims.iat,
            claims.exp,
            claims.sub.as_str(),
            claims.user_name.as_str(),
            jwt_secret_key(),
        )
    }

    /// Verifies `token` against the static secret and checks its expiry
    /// against the time `now`: the claims and the header metadata come back
    /// exactly when the token verifies and has not expired, and the expiry
    /// failure, like every verification failure, comes back as `JwtError`
    /// with its cause.
    pub fn decode_at(token: &str, now: i64) -> (r: Result<TokenData<ApiClaims>, CustomErr>)
        ensures
            match token_claims(token@, secret_key()) {
                Option::None => r matches Err(e) && e is JwtError,
                Option::Some(c) => if is_expired(c.1, now as int) {
                    r matches Err(e) && e is JwtError
                } else {
                    r matches Ok(td) && td.claims.iat as int == c.0 && td.claims.exp as int
                        == c.1 && td.claims.sub@ == c.2 && td.claims.user_name@ == c.3
                        && typ_view(td.header.typ) == c.4 && td.header.alg@ == "HS256"@
                },
            },
    {
        match verify_token(token, jwt_secret_key()) {
            Err(e) => Err(CustomErr::JwtError(e)),
            Ok((iat, exp, sub, user_name, typ)) => {
                if (exp as i128) < (now as i128) - 60 {
                    Err(CustomErr::JwtError(expired_error()))
                } else {
                    Ok(TokenData {
                        header: TokenHeader { typ, alg: hs256_name() },
                        claims: ApiClaims { iat, exp, sub, user_name },
                    })
                }
            },
        }
    }

    /// Verifies `token` at the current clock reading. What the clock reads
    /// cannot be spoken of, so the contract promises the part that holds at
    /// every instant; `decode_at` carries the full expiry rule.
    pub fn decode(&self, token: &str) -> (r: Result<TokenData<ApiClaims>, CustomErr>)
        ensures
            r matches Ok(td) ==> token_claims(token@, secret_key()) == Some(
                (
                    td.claims.iat as int,
                    td.claims.exp as int,
                    td.claims.sub@,
                    td.claims.user_name@,
                    typ_view(td.header.typ),
                ),
            ),
            r matches Ok(td) ==> td.header.alg@ == "HS256"@,
            token_claims(token@, secret_key()) is None ==> (r matches Err(e) && e is JwtError),
            r matches Err(e) ==> e is JwtError,
    {
        let now = now_ts();
        Self::decode_at(token, now)
    }

    /// Extracts the bearer token from the first `Authorization` header: its
    /// value must be text whose first word is `Bearer`, and the second word
    /// is the token; each way that can fail has its own error.
    pub fn parse_header(request: &RequestHeaders) -> (r: Result<String, CustomErr>)
        ensures
            first_auth_value(request.fields@) is None ==> (r matches Err(e)
                && e is NoAuthorizationHeader),
            first_auth_value(request.fields@) matches Some(v) ==> {
                if !valid_utf8(v) {
                    r matches Err(e) && e is InvalidHeader
                } else {
                    let s = decode_utf8(v);
                    if !scheme_is_bearer(s) {
                        r matches Err(e) && e is InvalidSchemaType
                    } else if !has_jwt_token(s) {
                        r matches Err(e) && e is NoJwtTokenFound
                    } else {
                        r matches Ok(t) && t@ == jwt_token_of(s)
                    }
                }
            },
    {
        let value = match find_auth_value(request) {
            None => {
                return Err(CustomErr::NoAuthorizationHeader);
            },
            Some(v) => v,
        };
        let cs = match utf8_chars(&value) {
            None => {
                return Err(CustomErr::InvalidHeader);
            },
            Some(cs) => cs,
        };
        let s_start = scan_spaces(&cs, 0);
        let s_end = scan_token(&cs, s_start);
        if !word_is_bearer(&cs, s_start, s_end) {
            return Err(CustomErr::InvalidSchemaType);
        }
        let t_start = scan_spaces(&cs, s_end);
        if t_start == cs.len() {
            return Err(CustomErr::NoJwtTokenFound);
        }
        let t_end = scan_token(&cs, t_start);
        let tok = copy_char_range(&cs, t_start, t_end);
        Ok(string_of_chars(&tok))
    }
}

impl JwtDecoder<ApiClaims> for ApiJwt {
    /// The inherent `parse_header`, reachable through the trait, under the
    /// same contract.
    fn parse_header(request: &RequestHeaders) -> (r: Result<String, CustomErr>)
        ensures
            first_auth_value(request.fields@) is None ==> (r matches Err(e)
                && e is NoAuthorizationHeader),
            first_auth_value(request.fields@) matches Some(v) ==> {
                if !valid_utf8(v) {
                    r matches Err(e) && e is InvalidHeader
                } else {
                    let s = decode_utf8(v);
                    if !scheme_is_bearer(s) {
                        r matches Err(e) && e is InvalidSchemaType
                    } else if !has_jwt_token(s) {
                        r matches Err(e) && e is NoJwtTokenFound
                    } else {
                        r matches Ok(t) && t@ == jwt_token_of(s)
                    }
                }
            },
    {
        ApiJwt::parse_header(request)
    }

    /// The inherent `decode`, reachable through the trait, under the same
    /// contract.
    fn decode(&self, token: &str) -> (r: Result<TokenData<ApiClaims>, CustomErr>)
        ensures
            r matches Ok(td) ==> token_claims(token@, secret_key()) == Some(
                (
                    td.claims.iat as int,
                    td.claims.exp as int,
                    td.claims.sub@,
                    td.claims.user_name@,
                    typ_view(td.header.typ),
                ),
            ),
            r matches Ok(td) ==> td.header.alg@ == "HS256"@,
            token_claims(token@, secret_key()) is None ==> (r matches Err(e) && e is JwtError),
            r matches Err(e) ==> e is JwtError,
    {
        let now = now_ts();
        ApiJwt::decode_at(token, now)
    }
}

/// Signing the same claims with the same secret at the same instant is
/// deterministic: both tokens are the same string, and they carry the same
/// claims to any decoding.
pub proof fn lemma_same_claims_same_token(
    iat: int,
    exp: int,
    sub: Seq<char>,
    user_name: Seq<char>,
    secret: Seq<char>,
    t1: Seq<char>,
    t2: Seq<char>,
)
    requires
        t1 == signed_token_of(iat, exp, sub, user_name, secret),
        t2 == signed_token_of(iat, exp, sub, user_name, secret),
    ensures
        t1 == t2,
        token_claims(t1, secret) == token_claims(t2, secret),
{
}

} // verus!

