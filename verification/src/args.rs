//! Command-line arguments: the daemon's RPC endpoint and credentials. The
//! parsing itself happens outside the library; this is the parsed shape.

use vstd::prelude::*;

verus! {

/// Parsed command-line arguments.
pub struct Args {
    /// URL of the daemon's RPC endpoint.
    pub host: String,
    /// RPC user name.
    pub user: String,
    /// RPC password.
    pub password: String,
}

/// The RPC endpoint assumed when no host argument is given.
pub fn default_args_host() -> (s: String)
    ensures
        s@ == "http://localhost:8332"@,
{
    "http://localhost:8332".to_owned()
}

} // verus!
