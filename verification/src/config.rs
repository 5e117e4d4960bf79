//! What the service is set up with.

use vstd::prelude::*;
use vstd::string::*;

verus! {

/// Where the service listens, and whether it logs for debugging.
#[derive(Debug)]
pub struct MainConfig {
    pub debug: bool,
    pub app_host: String,
    pub app_port: String,
}

/// Whether the service logs for debugging, where nothing says so: it does
/// not.
pub fn default_debug() -> (out: bool)
    ensures
        !out,
{
    false
}

/// The host that the service listens on, where nothing names one.
pub fn default_app_host() -> (out: String)
    ensures
        out@ == "localhost"@,
{
    String::from_str("localhost")
}

/// The port that the service listens on, where nothing names one.
pub fn default_app_port() -> (out: String)
    ensures
        out@ == "3000"@,
{
    String::from_str("3000")
}

impl MainConfig {
    /// The set-up where nothing is said.
    pub fn new() -> (out: Self)
        ensures
            !out.debug,
            out.app_host@ == "localhost"@,
            out.app_port@ == "3000"@,
    {
        Self { debug: default_debug(), app_host: default_app_host(), app_port: default_app_port() }
    }

    /// The address that the service listens on: host, colon, port.
    pub fn bind_url(&self) -> (out: String)
        ensures
            out@ == self.app_host@ + ":"@ + self.app_port@,
    {
        let mut out = self.app_host.clone();
        out.append(":");
        out.append(self.app_port.as_str());
        out
    }
}

/// The address of the database `name` on `host` at `port`, for the user
/// `user` with the password `password`.
pub fn database_url(user: &str, password: &str, host: &str, port: &str, name: &str) -> (out: String)
    ensures
        out@ == "postgres://"@ + user@ + ":"@ + password@ + "@"@ + host@ + ":"@ + port@ + "/"@
            + name@,
{
    let mut out = String::from_str("postgres://");
    out.append(user);
    out.append(":");
    out.append(password);
    out.append("@");
    out.append(host);
    out.append(":");
    out.append(port);
    out.append("/");
    out.append(name);
    out
}

} // verus!
