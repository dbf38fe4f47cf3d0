//! Authentication as a GitHub App: a short-lived signed assertion (a JWT
//! signed with the app's RSA key) is exchanged for an installation access
//! token, which is renewed whenever it comes within a safety margin of its
//! expiry.
//!
//! The library holds the decisions of that lifecycle: the claims of the
//! assertion, the exchange request, when a cached token is stale, how the
//! outcome of an exchange updates the cache, and the authorization header.
//! The HTTP round trip itself is made by the caller, who asks
//! [`InstallationAccessToken::refresh_plan`] what to do and hands the
//! outcome back to [`InstallationAccessToken::apply_exchange`].

mod error;
mod params;
mod time;
mod assertion;
mod token;

pub use error::AuthError;
pub use params::GithubAuthParams;
pub use time::{Timestamp, TimeSpan};
pub use assertion::{
    JwtClaims, ExchangeRequest, SigningAlgorithm, MACHINE_MAN_PREVIEW, ASSERTION_LIFETIME, exchange_url,
    build_assertion, build_assertion_at, exchange_request, exchange_request_at,
};
pub use token::{
    InstallationAccessToken, RawInstallationAccessToken, RefreshPlan, AuthHeader, lemma_stale_stays_stale,
    lemma_wider_margin_stale_earlier, lemma_zero_margin_threshold, lemma_fresh_window,
    lemma_wide_margin_always_stale,
};
