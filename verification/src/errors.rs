use vstd::prelude::*;

verus! {

/// Declares jsonwebtoken's error type so that it can stand in fields and
/// results; the value itself stays opaque and only carries the cause along.
#[verifier::external_type_specification]
#[verifier::external_body]
pub struct ExJwtError(jsonwebtoken::errors::Error);

/// Every way obtaining or verifying a bearer token can fail. Header-shape
/// failures keep their own variants; every signature, structure or expiry
/// failure is carried as `JwtError` with its cause.
#[derive(Debug)]
pub enum CustomErr {
    /// The `Authorization` value is not valid text.
    InvalidHeader,
    /// No `Authorization` header is present.
    NoAuthorizationHeader,
    /// The first word of the header is not the `Bearer` scheme.
    InvalidSchemaType,
    /// The scheme is `Bearer` but no token follows it.
    NoJwtTokenFound,
    /// The token failed verification or decoding.
    JwtError(jsonwebtoken::errors::Error),
}

} // verus!
