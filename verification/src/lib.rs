//! Stateless bearer-token authentication: issuing signed tokens that carry a
//! user identity and an expiry, and verifying tokens presented on requests.

pub mod claims;
pub mod codec;
pub mod errors;
pub mod headers;
