use vstd::prelude::*;

verus! {

#[verifier::external_type_specification]
#[verifier::external_body]
pub struct ExJwtError(jsonwebtoken::errors::Error);

#[verifier::external_type_specification]
#[verifier::external_body]
pub struct ExInvalidHeaderValue(http::header::InvalidHeaderValue);

#[verifier::external_type_specification]
#[verifier::external_body]
pub struct ExReqwestError(reqwest::Error);

#[verifier::external_type_specification]
#[verifier::external_body]
pub struct ExSystemTimeError(std::time::SystemTimeError);


/// Everything that can go wrong while obtaining or presenting a token.
///
/// None of these is retried by the library: each one is handed to the
/// caller, who decides whether to try again.
#[derive(Debug)]
pub enum AuthError {
    /// The private key could not be read as an RSA key, or signing failed.
    JwtError(jsonwebtoken::errors::Error),
    /// The token cannot be encoded as an HTTP header value.
    InvalidHeaderValue(http::header::InvalidHeaderValue),
    /// The HTTP exchange failed, including a non-success status code and a
    /// body that is not the expected JSON object.
    ReqwestError(reqwest::Error),
    /// The system clock reports a time before the Unix epoch.
    TimeError(std::time::SystemTimeError),
    /// The system clock reports a time so late that it, or the assertion's
    /// expiry sixty seconds on, does not fit in the library's count of
    /// seconds.
    TimeOutOfRange,
}

} // verus!
