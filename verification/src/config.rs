//! Server configuration values.

use vstd::prelude::*;

verus! {

/// Host and port the HTTP server binds to.
pub struct ServerConfig {
    pub host: String,
    pub port: i32,
}

impl Default for ServerConfig {
    /// The local development default: `127.0.0.1:8080`.
    fn default() -> (r: Self)
        ensures
            r.host@ == "127.0.0.1"@,
            r.port == 8080,
    {
        ServerConfig { host: "127.0.0.1".to_owned(), port: 8080 }
    }
}

} // verus!
