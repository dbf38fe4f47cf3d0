use vstd::prelude::*;
use crate::error::AuthError;
use crate::params::GithubAuthParams;
use crate::time::system_unix_seconds;

verus! {

#[verifier::external_type_specification]
#[verifier::external_body]
pub struct ExEncodingKey(jsonwebtoken::EncodingKey);

/// Media type sent in the `Accept` header of the exchange request.
pub const MACHINE_MAN_PREVIEW: &'static str = "application/vnd.github.machine-man-preview+json";

/// How long a signed assertion stays valid, in seconds.
pub const ASSERTION_LIFETIME: u64 = 60;

pub open spec fn digit_char(d: nat) -> char {
    if d == 0 { '0' }
    else if d == 1 { '1' }
    else if d == 2 { '2' }
    else if d == 3 { '3' }
    else if d == 4 { '4' }
    else if d == 5 { '5' }
    else if d == 6 { '6' }
    else if d == 7 { '7' }
    else if d == 8 { '8' }
    else { '9' }
}

/// The decimal digits of `n`, most significant first, without leading zeros.
pub open spec fn decimal(n: nat) -> Seq<char>
    decreases n,
{
    if n < 10 {
        seq![digit_char(n)]
    } else {
        decimal(n / 10) + seq![digit_char(n % 10)]
    }
}

/// The token-exchange endpoint of an installation.
pub open spec fn installation_url(installation_id: nat) -> Seq<char> {
    "https://api.github.com/app/installations/"@ + decimal(installation_id) + "/access_tokens"@
}

fn digit_str(d: u64) -> (r: &'static str)
    requires
        d < 10,
    ensures
        r@ == seq![digit_char(d as nat)],
{
    if d == 0 {
        proof { reveal_strlit("0"); }
        "0"
    } else if d == 1 {
        proof { reveal_strlit("1"); }
        "1"
    } else if d == 2 {
        proof { reveal_strlit("2"); }
        "2"
    } else if d == 3 {
        proof { reveal_strlit("3"); }
        "3"
    } else if d == 4 {
        proof { reveal_strlit("4"); }
        "4"
    } else if d == 5 {
        proof { reveal_strlit("5"); }
        "5"
    } else if d == 6 {
        proof { reveal_strlit("6"); }
        "6"
    } else if d == 7 {
        proof { reveal_strlit("7"); }
        "7"
    } else if d == 8 {
        proof { reveal_strlit("8"); }
        "8"
    } else {
        proof { reveal_strlit("9"); }
        "9"
    }
}

/// Appends the decimal digits of `n` to `s`.
fn push_decimal(s: &mut String, n: u64)
    ensures
        final(s)@ == old(s)@ + decimal(n as nat),
    decreases n,
{
    if n >= 10 {
        push_decimal(s, n / 10);
    }
    s.append(digit_str(n % 10));
    assert(final(s)@ =~= old(s)@ + decimal(n as nat));
}

/// The URL to which the signed assertion is posted in exchange for an
/// installation access token.
pub fn exchange_url(installation_id: u64) -> (r: String)
    ensures
        r@ == installation_url(installation_id as nat),
{
    let mut s = String::from_str("https://api.github.com/app/installations/");
    push_decimal(&mut s, installation_id);
    s.append("/access_tokens");
    s
}

/// The claims of a signed assertion.
#[derive(Clone, Copy, Debug, PartialEq, Eq, Structural)]
pub struct JwtClaims {
    /// The time that this JWT was issued, in seconds since the Unix epoch.
    pub iat: u64,
    /// The JWT expiration time, sixty seconds after `iat`.
    pub exp: u64,
    /// The GitHub App's identifier number.
    pub iss: u64,
}

impl JwtClaims {
    /// The claims for an assertion issued at `now` (seconds since the
    /// epoch), or `TimeOutOfRange` when its expiry does not fit in a `u64`.
    pub fn issued_at(params: &GithubAuthParams, now: u64) -> (r: Result<JwtClaims, AuthError>)
        ensures
            now <= u64::MAX - ASSERTION_LIFETIME ==> r == Ok::<JwtClaims, AuthError>(
                JwtClaims { iat: now, exp: (now + ASSERTION_LIFETIME) as u64, iss: params.app_id },
            ),
            now > u64::MAX - ASSERTION_LIFETIME ==> (r matches Err(e) && e is TimeOutOfRange),
    {
        if now > u64::MAX - ASSERTION_LIFETIME {
            return Err(AuthError::TimeOutOfRange);
        }
        Ok(JwtClaims { iat: now, exp: now + ASSERTION_LIFETIME, iss: params.app_id })
    }

    /// The claims for an assertion issued now, by the system clock.
    pub fn new(params: &GithubAuthParams) -> (r: Result<JwtClaims, AuthError>)
        ensures
            r matches Ok(c) ==> (c.exp == c.iat + ASSERTION_LIFETIME && c.iss == params.app_id),
            r matches Err(e) ==> e is TimeError || e is TimeOutOfRange,
    {
        let now = system_unix_seconds()?;
        JwtClaims::issued_at(params, now)
    }
}

/// Whether jsonwebtoken reads the bytes as a PEM-encoded RSA key (it takes
/// the PEM of a public key as well; signing with one then fails).
pub uninterp spec fn rsa_pem_accepted(pem: Seq<u8>) -> bool;

/// Relies on jsonwebtoken::EncodingKey::from_rsa_pem: it decodes the PEM
/// text and fails, without panicking, when it does not hold an RSA key; the
/// outcome depends on the bytes alone.
#[verifier::external_body]
fn rsa_key_from_pem(pem: &[u8]) -> (r: Result<jsonwebtoken::EncodingKey, jsonwebtoken::errors::Error>)
    ensures
        r is Ok <==> rsa_pem_accepted(pem@),
{
    jsonwebtoken::EncodingKey::from_rsa_pem(pem)
}

/// The algorithms that assertions may be signed with.
#[derive(Clone, Copy, Debug, PartialEq, Eq, Structural)]
pub enum SigningAlgorithm {
    /// RSASSA-PKCS1-v1_5 with SHA-256.
    Rs256,
}

/// A character of the URL-safe base64 alphabet.
pub open spec fn base64url_char(c: char) -> bool {
    ('A' <= c && c <= 'Z') || ('a' <= c && c <= 'z') || ('0' <= c && c <= '9') || c == '-' || c
        == '_'
}

/// A non-empty text of URL-safe base64 characters, without padding.
pub open spec fn base64url_text(s: Seq<char>) -> bool {
    s.len() > 0 && forall|i: int| 0 <= i < s.len() ==> base64url_char(#[trigger] s[i])
}

/// The first segment of a JWT that jsonwebtoken signs with `alg`: the
/// JSON header naming that algorithm, in unpadded URL-safe base64.
pub uninterp spec fn header_segment(alg: SigningAlgorithm) -> Seq<char>;

/// The second segment of a JWT that jsonwebtoken signs over the claims
/// `iat`, `exp` and `iss`: their JSON object, in unpadded URL-safe base64.
pub uninterp spec fn claims_segment(iat: u64, exp: u64, iss: u64) -> Seq<char>;

/// `t` is a compact JWT signed with `alg` over the claims `c`: its header
/// segment, its claims segment and a signature, joined by dots.
pub open spec fn signed_jwt(t: Seq<char>, alg: SigningAlgorithm, c: JwtClaims) -> bool {
    &&& base64url_text(header_segment(alg))
    &&& base64url_text(claims_segment(c.iat, c.exp, c.iss))
    &&& exists|sig: Seq<char>|
        #![trigger base64url_text(sig)]
        base64url_text(sig) && t == header_segment(alg) + seq!['.'] + claims_segment(
            c.iat,
            c.exp,
            c.iss,
        ) + seq!['.'] + sig
}

/// Relies on jsonwebtoken::encode, with a header that names `alg`: it
/// joins with dots the header, the claims (each as JSON in unpadded
/// URL-safe base64) and the signature (in the same encoding, never empty),
/// or fails when the key cannot sign with that algorithm.
#[verifier::external_body]
fn sign_claims(claims: &JwtClaims, alg: SigningAlgorithm, key: &jsonwebtoken::EncodingKey) -> (r:
    Result<String, jsonwebtoken::errors::Error>)
    ensures
        r matches Ok(t) ==> (base64url_text(header_segment(alg)) && base64url_text(
            claims_segment(claims.iat, claims.exp, claims.iss),
        ) && exists|sig: Seq<char>|
            #![trigger base64url_text(sig)]
            base64url_text(sig) && t@ == header_segment(alg) + seq!['.'] + claims_segment(
                claims.iat,
                claims.exp,
                claims.iss,
            ) + seq!['.'] + sig),
{
    let alg = match alg {
        SigningAlgorithm::Rs256 => jsonwebtoken::Algorithm::RS256,
    };
    let payload = std::collections::BTreeMap::from(
        [("iat", claims.iat), ("exp", claims.exp), ("iss", claims.iss)],
    );
    jsonwebtoken::encode(&jsonwebtoken::Header::new(alg), &payload, key)
}

/// The errors that signing an assertion at `now` with `params` may meet,
/// in the order in which they are checked: a time out of range, then a key
/// that is not an RSA PEM key. Signing itself may still fail after these.
pub open spec fn assertion_outcome_ok(
    params: &GithubAuthParams,
    now: u64,
    r: Result<String, AuthError>,
) -> bool {
    &&& r matches Ok(t) ==> signed_jwt(
        t@,
        SigningAlgorithm::Rs256,
        JwtClaims { iat: now, exp: (now + ASSERTION_LIFETIME) as u64, iss: params.app_id },
    )
    &&& now > u64::MAX - ASSERTION_LIFETIME ==> (r matches Err(e) && e is TimeOutOfRange)
    &&& now <= u64::MAX - ASSERTION_LIFETIME && !rsa_pem_accepted(params.private_key@)
        ==> (r matches Err(e) && e is JwtError)
    &&& r matches Err(e) ==> e is TimeOutOfRange || e is JwtError
    &&& r matches Err(e) ==> (e is TimeOutOfRange ==> now > u64::MAX - ASSERTION_LIFETIME)
    &&& r is Ok ==> now <= u64::MAX - ASSERTION_LIFETIME && rsa_pem_accepted(params.private_key@)
}

/// Signs, with RS256, an assertion issued at `now` (seconds since the
/// epoch) whose claims are those of [`JwtClaims::issued_at`].
pub fn build_assertion_at(params: &GithubAuthParams, now: u64) -> (r: Result<String, AuthError>)
    ensures
        assertion_outcome_ok(params, now, r),
{
    let claims = JwtClaims::issued_at(params, now)?;
    let key = match rsa_key_from_pem(params.private_key.as_slice()) {
        Ok(k) => k,
        Err(e) => return Err(AuthError::JwtError(e)),
    };
    match sign_claims(&claims, SigningAlgorithm::Rs256, &key) {
        Ok(token) => Ok(token),
        Err(e) => Err(AuthError::JwtError(e)),
    }
}

/// Signs an assertion issued now, by the system clock.
pub fn build_assertion(params: &GithubAuthParams) -> (r: Result<String, AuthError>)
    ensures
        r matches Err(e) ==> e is TimeError || e is TimeOutOfRange || e is JwtError,
        r is Ok ==> rsa_pem_accepted(params.private_key@),
{
    let now = system_unix_seconds()?;
    build_assertion_at(params, now)
}

/// What is sent to exchange a signed assertion for an installation access
/// token: a POST to `url`, with `Authorization: Bearer <bearer>` and
/// `Accept: MACHINE_MAN_PREVIEW`, and no body.
#[derive(Clone, Debug)]
pub struct ExchangeRequest {
    pub url: String,
    pub bearer: String,
}

/// The exchange request for an assertion issued at `now`.
pub fn exchange_request_at(params: &GithubAuthParams, now: u64) -> (r: Result<ExchangeRequest, AuthError>)
    ensures
        r matches Ok(req) ==> req.url@ == installation_url(params.installation_id as nat),
        r matches Ok(req) ==> signed_jwt(
            req.bearer@,
            SigningAlgorithm::Rs256,
            JwtClaims { iat: now, exp: (now + ASSERTION_LIFETIME) as u64, iss: params.app_id },
        ),
        now > u64::MAX - ASSERTION_LIFETIME ==> (r matches Err(e) && e is TimeOutOfRange),
        now <= u64::MAX - ASSERTION_LIFETIME && !rsa_pem_accepted(params.private_key@)
            ==> (r matches Err(e) && e is JwtError),
        r matches Err(e) ==> e is TimeOutOfRange || e is JwtError,
        r matches Err(e) ==> (e is TimeOutOfRange ==> now > u64::MAX - ASSERTION_LIFETIME),
        r is Ok ==> now <= u64::MAX - ASSERTION_LIFETIME && rsa_pem_accepted(params.private_key@),
{
    let bearer = build_assertion_at(params, now)?;
    Ok(ExchangeRequest { url: exchange_url(params.installation_id), bearer })
}

/// The exchange request for an assertion issued now, by the system clock.
pub fn exchange_request(params: &GithubAuthParams) -> (r: Result<ExchangeRequest, AuthError>)
    ensures
        r matches Ok(req) ==> req.url@ == installation_url(params.installation_id as nat),
        r matches Err(e) ==> e is TimeError || e is TimeOutOfRange || e is JwtError,
        r is Ok ==> rsa_pem_accepted(params.private_key@),
{
    let now = system_unix_seconds()?;
    exchange_request_at(params, now)
}

} // verus!
