//! Settings of the core server client and the reading of its flag-and-message replies.

use vstd::prelude::*;
use vstd::string::*;

verus! {

/// Client settings.
#[derive(Debug, Clone)]
pub struct CoreClientConfig {
    /// Server address (such as "127.0.0.1:9527").
    pub server_addr: String,
    /// Connection timeout (milliseconds).
    pub connect_timeout_ms: u64,
    /// Request timeout (milliseconds).
    pub request_timeout_ms: u64,
    /// Reconnect on a request while disconnected.
    pub auto_reconnect: bool,
}

impl Default for CoreClientConfig {
    /// The local server on port 9527, 5 s to connect, 10 s per request, reconnecting.
    fn default() -> (r: Self)
        ensures
            r.server_addr@ == "127.0.0.1:9527"@,
            r.connect_timeout_ms == 5000,
            r.request_timeout_ms == 10000,
            r.auto_reconnect,
    {
        CoreClientConfig {
            server_addr: String::from_str("127.0.0.1:9527"),
            connect_timeout_ms: 5000,
            request_timeout_ms: 10000,
            auto_reconnect: true,
        }
    }
}

impl CoreClientConfig {
    /// The default settings with the server at `addr`.
    pub fn with_server_addr(addr: &str) -> (r: Self)
        ensures
            r.server_addr@ == addr@,
            r.connect_timeout_ms == 5000,
            r.request_timeout_ms == 10000,
            r.auto_reconnect,
    {
        CoreClientConfig { server_addr: String::from_str(addr), ..CoreClientConfig::default() }
    }
}

/// The outcome of a reply that carries a success flag and an optional error: success, or the
/// error it gives, or `fallback` where it gives none.
pub fn flag_outcome(success: bool, error: Option<String>, fallback: &str) -> (r: Result<(), String>)
    ensures
        success ==> r is Ok,
        !success ==> (r matches Err(e) && e@ == match error {
            Some(m) => m@,
            None => fallback@,
        }),
{
    if success {
        Ok(())
    } else {
        match error {
            Some(m) => Err(m),
            None => Err(String::from_str(fallback)),
        }
    }
}

} // verus!
