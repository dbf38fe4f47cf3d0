use vstd::prelude::*;

verus! {

/// Input parameters for authenticating as a GitHub app, used to get an
/// installation access token. They stay the same for the lifetime of the
/// token that holds them.
#[derive(Clone)]
pub struct GithubAuthParams {
    /// User agent set for all requests to GitHub (the API requires one).
    pub user_agent: String,
    /// PEM-encoded RSA private key used to sign access token requests.
    pub private_key: Vec<u8>,
    /// GitHub application installation ID: the final component of the
    /// installation's configuration URL.
    pub installation_id: u64,
    /// GitHub application ID ("App ID" in the application settings).
    pub app_id: u64,
}

impl Default for GithubAuthParams {
    fn default() -> (r: GithubAuthParams)
        ensures
            r.user_agent@ == Seq::<char>::empty(),
            r.private_key@ == Seq::<u8>::empty(),
            r.installation_id == 0,
            r.app_id == 0,
    {
        GithubAuthParams {
            user_agent: String::new(),
            private_key: Vec::new(),
            installation_id: 0,
            app_id: 0,
        }
    }
}

} // verus!
