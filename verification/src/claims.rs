use vstd::prelude::*;

verus! {

/// Seconds an issued token stays valid: seven days.
pub const TOKEN_TTL_SECONDS: i64 = 604800;

/// The fixed `sub` claim written into every token.
pub open spec fn subject() -> Seq<char> {
    "auth"@
}

/// The subject constant as an owned string.
pub fn subject_string() -> (s: String)
    ensures
        s@ == subject(),
{
    "auth".to_owned()
}

/// A user record, as far as token issuance reads it: just a display name.
pub struct User {
    pub name: String,
}

/// Builds the claims that a newly issued token carries for a record of `T`.
pub trait ClaimsGenerator<T>: Sized {
    fn generate_claims(user: &T) -> Self;
}

/// The signed payload of a token: validity window and identity.
#[derive(Clone, Debug)]
pub struct ApiClaims {
    /// Unix timestamp of issuance.
    pub iat: i64,
    /// Unix timestamp after which the token is no longer valid.
    pub exp: i64,
    /// Purpose tag of the token; always the `subject` constant here.
    pub sub: String,
    /// The user's name, copied verbatim at issuance.
    pub user_name: String,
}

impl ApiClaims {
    /// Well-formed claims: the expiry lies exactly one TTL after issuance.
    pub open spec fn wf(self) -> bool {
        self.exp == self.iat + TOKEN_TTL_SECONDS
    }

    /// The claims issued to `user` at time `now`: issued now, expiring one
    /// TTL later, with the fixed subject and the user's name copied verbatim.
    pub fn generate_claims_at(user: &User, now: i64) -> (c: ApiClaims)
        requires
            now <= i64::MAX - TOKEN_TTL_SECONDS,
        ensures
            c.iat == now,
            c.exp == now + TOKEN_TTL_SECONDS,
            c.sub@ == subject(),
            c.user_name@ == user.name@,
            c.wf(),
    {
        ApiClaims {
            iat: now,
            exp: now + TOKEN_TTL_SECONDS,
            sub: subject_string(),
            user_name: user.name.clone(),
        }
    }
}

/// Relies on chrono::Utc::now().timestamp(): seconds since the Unix epoch by
/// the system clock. Nothing is assumed of the value.
#[verifier::external_body]
pub(crate) fn now_ts() -> i64 {
    chrono::Utc::now().timestamp()
}

impl ClaimsGenerator<User> for ApiClaims {
    /// Reads the clock and issues claims for `user` as of now. The clamp keeps
    /// the expiry addition within `i64` on a clock reading near `i64::MAX`.
    fn generate_claims(user: &User) -> (c: Self)
        ensures
            c.wf(),
            c.sub@ == subject(),
            c.user_name@ == user.name@,
    {
        let now = now_ts();
        let iat = if now > i64::MAX - TOKEN_TTL_SECONDS {
            i64::MAX - TOKEN_TTL_SECONDS
        } else {
            now
        };
        ApiClaims::generate_claims_at(user, iat)
    }
}

} // verus!
