//! The connection settings of the remote wallet daemon the command-line
//! operations submit their plans to. The calls themselves — login, grant,
//! transaction submission and waiting — are network I/O the host performs.

use vstd::prelude::*;

verus! {

/// Where and as whom the host talks to the wallet daemon.
#[derive(Debug)]
pub struct DaemonClient {
    endpoint: String,
    auth_token: Option<String>,
    default_account: String,
}

impl DaemonClient {
    /// The daemon's JSON-RPC endpoint.
    pub closed spec fn spec_endpoint(&self) -> Seq<char> {
        self.endpoint@
    }

    /// The bearer token presented to the daemon, once one was granted.
    pub closed spec fn spec_auth_token(&self) -> Option<Seq<char>> {
        match self.auth_token {
            Some(t) => Some(t@),
            None => None,
        }
    }

    /// The account that pays fees and receives outputs by default.
    pub closed spec fn spec_default_account(&self) -> Seq<char> {
        self.default_account@
    }

    /// Bundles the daemon's endpoint, the token to present, and the default
    /// account.
    pub fn new(endpoint: String, auth_token: Option<String>, default_account: String) -> (r:
        DaemonClient)
        ensures
            r.spec_endpoint() == endpoint@,
            r.spec_auth_token() == (match auth_token {
                Some(t) => Some(t@),
                None => None::<Seq<char>>,
            }),
            r.spec_default_account() == default_account@,
    {
        DaemonClient { endpoint, auth_token, default_account }
    }
}

} // verus!
