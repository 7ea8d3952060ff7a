//! Startup configuration: where the daemon listens and where the exporter
//! binds. The values come from a configuration file read outside the library;
//! the defaults below fill the fields the file may leave out.

use vstd::prelude::*;

verus! {

/// Connection settings for the daemon's RPC endpoint and the exporter's own
/// listening address.
pub struct Config {
    /// URL of the daemon's RPC endpoint.
    pub host: String,
    /// RPC user name.
    pub user: String,
    /// RPC password.
    pub password: String,
    /// `addr:port` the scrape server binds to.
    pub bind: String,
}

/// The RPC endpoint assumed when the configuration file names none.
pub fn default_host() -> (s: String)
    ensures
        s@ == "http://127.0.0.1:8332"@,
{
    "http://127.0.0.1:8332".to_owned()
}

/// The bind address assumed when the configuration file names none.
pub fn default_bind() -> (s: String)
    ensures
        s@ == "127.0.0.1:9898"@,
{
    "127.0.0.1:9898".to_owned()
}

} // verus!
