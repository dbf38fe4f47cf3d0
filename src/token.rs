use vstd::prelude::*;
use crate::assertion::{
    ExchangeRequest, JwtClaims, SigningAlgorithm, installation_url, rsa_pem_accepted, signed_jwt,
    exchange_request_at, ASSERTION_LIFETIME,
};
use crate::error::AuthError;
use crate::params::GithubAuthParams;
use crate::time::{Timestamp, TimeSpan, system_timestamp};

verus! {

#[verifier::external_type_specification]
#[verifier::external_body]
pub struct ExHeaderValue(http::HeaderValue);

/// The two fields of a successful exchange response: the opaque token and
/// the instant at which it expires.
#[derive(Clone, Debug)]
pub struct RawInstallationAccessToken {
    pub token: String,
    pub expires_at: Timestamp,
}

/// Whether a token expiring at `expires_at` counts as stale at `now` under
/// `margin`: the margin is taken off the expiry, and the token is stale from
/// that instant on.
pub open spec fn stale_with(expires_at: Timestamp, margin: TimeSpan, now: Timestamp) -> bool {
    expires_at.since_epoch() - margin.length() <= now.since_epoch()
}

/// The text of the authorization header for a token.
pub open spec fn authorization_text(token: Seq<char>) -> Seq<char> {
    "token "@ + token
}

/// A character that an HTTP header value may hold: a tab, or any character
/// from the space on except DEL. (A character past ASCII is encoded as
/// bytes of 128 and above, all of which are allowed.)
pub open spec fn header_char_ok(c: char) -> bool {
    c == '\t' || (c as u32 >= 32 && c as u32 != 127)
}

pub open spec fn header_text_ok(s: Seq<char>) -> bool {
    forall|i: int| 0 <= i < s.len() ==> header_char_ok(#[trigger] s[i])
}

/// The value of an `Authorization` header, with the text it was made from.
pub struct AuthHeader {
    value: http::HeaderValue,
    text: Ghost<Seq<char>>,
}

impl AuthHeader {
    /// The text that the header value holds.
    pub closed spec fn text(&self) -> Seq<char> {
        self.text@
    }

    pub fn value(&self) -> (r: &http::HeaderValue) {
        &self.value
    }

    pub fn into_value(self) -> (r: http::HeaderValue) {
        self.value
    }
}

/// Relies on http::HeaderValue::from_str, which fails exactly when one of
/// the text's bytes is below 32 other than a tab, or is 127, and otherwise
/// holds a copy of the text's bytes.
#[verifier::external_body]
fn parse_header_value(s: &str) -> (r: Result<AuthHeader, http::header::InvalidHeaderValue>)
    ensures
        r is Ok <==> header_text_ok(s@),
        r matches Ok(h) ==> h.text() == s@,
{
    match http::HeaderValue::from_str(s) {
        Ok(value) => Ok(AuthHeader { value, text: Ghost(s@) }),
        Err(e) => Err(e),
    }
}

/// What to do before presenting the cached token.
#[derive(Debug)]
pub enum RefreshPlan {
    /// The cached token is fresh: present it as it is.
    UseCached,
    /// The cached token is stale: make this exchange and hand its outcome to
    /// `apply_exchange`.
    Exchange(ExchangeRequest),
}

/// An installation access token, the primary means of authenticating with
/// the GitHub API as an application, together with what renewing it takes.
pub struct InstallationAccessToken {
    /// Subtracted from the expiry so that the token is renewed before it
    /// goes out of date in the middle of a request.
    pub refresh_safety_margin: TimeSpan,
    token: String,
    expires_at: Timestamp,
    params: GithubAuthParams,
}

impl InstallationAccessToken {
    pub closed spec fn cached_token(&self) -> Seq<char> {
        self.token@
    }

    pub closed spec fn cached_expiry(&self) -> Timestamp {
        self.expires_at
    }

    pub closed spec fn auth_params(&self) -> GithubAuthParams {
        self.params
    }

    pub closed spec fn safety_margin(&self) -> TimeSpan {
        self.refresh_safety_margin
    }

    /// Whether the cached token is stale at `now`.
    pub open spec fn stale_at(&self, now: Timestamp) -> bool {
        stale_with(self.cached_expiry(), self.safety_margin(), now)
    }

    /// The token that the first exchange for `params` returned, with the
    /// default safety margin of one minute.
    pub fn new(params: GithubAuthParams, raw: RawInstallationAccessToken) -> (r: Self)
        ensures
            r.cached_token() == raw.token@,
            r.cached_expiry() == raw.expires_at,
            r.auth_params() == params,
            r.safety_margin().length() == 60 * 1_000_000_000,
    {
        InstallationAccessToken {
            refresh_safety_margin: TimeSpan::minutes(1),
            token: raw.token,
            expires_at: raw.expires_at,
            params,
        }
    }

    pub fn token(&self) -> (r: &str)
        ensures
            r@ == self.cached_token(),
    {
        self.token.as_str()
    }

    pub fn expires_at(&self) -> (r: Timestamp)
        ensures
            r == self.cached_expiry(),
    {
        self.expires_at
    }

    pub fn params(&self) -> (r: &GithubAuthParams)
        ensures
            *r == self.auth_params(),
    {
        &self.params
    }

    /// Whether the cached token must be renewed at `now`: its expiry less
    /// the safety margin is not after `now`.
    pub fn needs_refresh_at(&self, now: Timestamp) -> (r: bool)
        ensures
            r == self.stale_at(now),
    {
        let deadline = self.expires_at.epoch_nanos() - self.refresh_safety_margin.total_nanos();
        deadline <= now.epoch_nanos()
    }

    /// Whether the cached token must be renewed now, by the system clock;
    /// `TimeError` when the clock reports a time before the epoch.
    pub fn needs_refresh(&self) -> (r: Result<bool, AuthError>)
        ensures
            r matches Ok(b) ==> exists|now: Timestamp| b == self.stale_at(now),
            r matches Err(e) ==> e is TimeError || e is TimeOutOfRange,
    {
        let now = system_timestamp()?;
        Ok(self.needs_refresh_at(now))
    }

    /// Sets the time taken off the expiry before the token counts as stale.
    pub fn set_refresh_safety_margin(&mut self, margin: TimeSpan)
        ensures
            final(self).safety_margin() == margin,
            final(self).cached_token() == old(self).cached_token(),
            final(self).cached_expiry() == old(self).cached_expiry(),
            final(self).auth_params() == old(self).auth_params(),
    {
        self.refresh_safety_margin = margin;
    }

    /// The step to take before presenting the token at `now`: nothing while
    /// it is fresh; else the exchange for an assertion issued at
    /// `unix_secs` seconds since the epoch.
    pub fn refresh_plan_at(&self, now: Timestamp, unix_secs: u64) -> (r: Result<RefreshPlan, AuthError>)
        ensures
            !self.stale_at(now) ==> r matches Ok(RefreshPlan::UseCached),
            self.stale_at(now) ==> match r {
                Ok(RefreshPlan::Exchange(req)) => req.url@ == installation_url(
                    self.auth_params().installation_id as nat,
                ) && signed_jwt(
                    req.bearer@,
                    SigningAlgorithm::Rs256,
                    JwtClaims {
                        iat: unix_secs,
                        exp: (unix_secs + ASSERTION_LIFETIME) as u64,
                        iss: self.auth_params().app_id,
                    },
                ) && unix_secs <= u64::MAX - ASSERTION_LIFETIME && rsa_pem_accepted(
                    self.auth_params().private_key@,
                ),
                Ok(RefreshPlan::UseCached) => false,
                Err(e) => (e is TimeOutOfRange <==> unix_secs > u64::MAX - ASSERTION_LIFETIME)
                    && (unix_secs <= u64::MAX - ASSERTION_LIFETIME && !rsa_pem_accepted(
                    self.auth_params().private_key@,
                ) ==> e is JwtError) && (e is TimeOutOfRange || e is JwtError),
            },
    {
        if self.needs_refresh_at(now) {
            let req = exchange_request_at(&self.params, unix_secs)?;
            Ok(RefreshPlan::Exchange(req))
        } else {
            Ok(RefreshPlan::UseCached)
        }
    }

    /// The step to take before presenting the token now, by the system
    /// clock: [`Self::refresh_plan_at`] at the clock's instant, with an
    /// assertion issued at the clock's whole seconds.
    pub fn refresh_plan(&self) -> (r: Result<RefreshPlan, AuthError>)
        ensures
            r matches Ok(RefreshPlan::UseCached) ==> exists|now: Timestamp| !self.stale_at(now),
            r matches Ok(RefreshPlan::Exchange(req)) ==> exists|now: Timestamp|
                #![trigger self.stale_at(now)]
                self.stale_at(now) && now.secs >= 0 && req.url@ == installation_url(
                    self.auth_params().installation_id as nat,
                ) && signed_jwt(
                    req.bearer@,
                    SigningAlgorithm::Rs256,
                    JwtClaims {
                        iat: now.secs as u64,
                        exp: (now.secs as u64 + ASSERTION_LIFETIME) as u64,
                        iss: self.auth_params().app_id,
                    },
                ),
            r matches Err(e) ==> e is TimeError || e is TimeOutOfRange || e is JwtError,
    {
        let now = system_timestamp()?;
        self.refresh_plan_at(now, now.secs as u64)
    }

    /// Takes in the outcome of an exchange. A new token replaces the cached
    /// one; a failure is handed back and leaves the cache as it was.
    pub fn apply_exchange(&mut self, outcome: Result<RawInstallationAccessToken, AuthError>) -> (r:
        Result<(), AuthError>)
        ensures
            match outcome {
                Ok(raw) => r is Ok && final(self).cached_token() == raw.token@
                    && final(self).cached_expiry() == raw.expires_at
                    && final(self).auth_params() == old(self).auth_params()
                    && final(self).safety_margin() == old(self).safety_margin(),
                Err(e) => r == Err::<(), AuthError>(e) && *final(self) == *old(self),
            },
    {
        match outcome {
            Ok(raw) => {
                self.token = raw.token;
                self.expires_at = raw.expires_at;
                Ok(())
            },
            Err(e) => Err(e),
        }
    }

    /// The text of the authorization header: `token <access token>`.
    pub fn authorization(&self) -> (r: String)
        ensures
            r@ == authorization_text(self.cached_token()),
    {
        let mut s = String::from_str("token ");
        s.append(self.token.as_str());
        s
    }

    /// The value of the `Authorization` header for the cached token, or
    /// `InvalidHeaderValue` when the token holds a character that a header
    /// value may not.
    pub fn header_value(&self) -> (r: Result<AuthHeader, AuthError>)
        ensures
            r is Ok <==> header_text_ok(authorization_text(self.cached_token())),
            r matches Ok(h) ==> h.text() == authorization_text(self.cached_token()),
            r matches Err(e) ==> e is InvalidHeaderValue,
    {
        let text = self.authorization();
        match parse_header_value(text.as_str()) {
            Ok(v) => Ok(v),
            Err(e) => Err(AuthError::InvalidHeaderValue(e)),
        }
    }
}

/// Staleness persists: a token stale at `now` is stale at every later
/// instant.
pub proof fn lemma_stale_stays_stale(tok: &InstallationAccessToken, now: Timestamp, later: Timestamp)
    requires
        tok.stale_at(now),
        now.since_epoch() <= later.since_epoch(),
    ensures
        tok.stale_at(later),
{
}

/// A wider safety margin makes a token stale earlier: whatever is stale
/// under `narrow` is stale under `wide`.
pub proof fn lemma_wider_margin_stale_earlier(
    expires_at: Timestamp,
    narrow: TimeSpan,
    wide: TimeSpan,
    now: Timestamp,
)
    requires
        narrow.length() <= wide.length(),
        stale_with(expires_at, narrow, now),
    ensures
        stale_with(expires_at, wide, now),
{
}

/// With no safety margin a token is fresh strictly before its expiry and
/// stale from its expiry on.
pub proof fn lemma_zero_margin_threshold(expires_at: Timestamp, margin: TimeSpan, now: Timestamp)
    requires
        margin.length() == 0,
    ensures
        stale_with(expires_at, margin, now) <==> expires_at.since_epoch() <= now.since_epoch(),
{
}

/// A token fresh at `last` was fresh at every instant `mid` before it, so
/// every request made up to `last` found the plan `UseCached`, made no
/// exchange, left the cache as it was and presented the same header text.
pub proof fn lemma_fresh_window(tok: &InstallationAccessToken, mid: Timestamp, last: Timestamp)
    requires
        !tok.stale_at(last),
        mid.since_epoch() <= last.since_epoch(),
    ensures
        !tok.stale_at(mid),
{
}

/// A safety margin wider than the token's validity window, from the
/// instant `obtained_at` at which it was obtained to its expiry, makes the
/// token stale at every instant from `obtained_at` on: every request then
/// plans an exchange.
pub proof fn lemma_wide_margin_always_stale(
    tok: &InstallationAccessToken,
    obtained_at: Timestamp,
    now: Timestamp,
)
    requires
        tok.safety_margin().length() > tok.cached_expiry().since_epoch() - obtained_at.since_epoch(),
        obtained_at.since_epoch() <= now.since_epoch(),
    ensures
        tok.stale_at(now),
{
}

} // verus!
