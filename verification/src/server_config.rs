//! Server-side configuration.
//!
//! Loading these values from files and the environment happens at the
//! edge; the structures here carry them.

use vstd::prelude::*;

verus! {

/// The default port the server is hosted on.
pub const DEFAULT_PORT: u16 = 4000;

/// Server configuration.
#[derive(Clone, Debug)]
pub struct Config {
    /// The server section.
    pub server: ServerConfig,
}

impl Default for Config {
    /// The default configuration: a default server section.
    fn default() -> (r: Config)
        ensures
            r.server.port == DEFAULT_PORT,
            r.server.database_url is None,
            r.server.signing_key is None,
    {
        Config { server: ServerConfig::default() }
    }
}

/// Server config.
#[derive(Clone, Debug)]
pub struct ServerConfig {
    /// The port the server binds to.
    pub port: u16,
    /// The database url the server connects to.
    pub database_url: Option<String>,
    /// The signing key used to sign tokens.
    ///
    /// When absent, a random secret is generated at startup and all
    /// previously issued tokens become invalid.
    pub signing_key: Option<String>,
}

impl Default for ServerConfig {
    /// The default server config: the default port, no database url
    /// and no signing key.
    fn default() -> (r: ServerConfig)
        ensures
            r.port == DEFAULT_PORT,
            r.database_url is None,
            r.signing_key is None,
    {
        ServerConfig { port: DEFAULT_PORT, database_url: None, signing_key: None }
    }
}

} // verus!
