//! The local configuration state: the API endpoint and auth token, read
//! once at the start of an operation. Loading and persisting it are the
//! caller's filesystem work; the state rules live here.

use vstd::prelude::*;

verus! {

/// The client's persisted configuration.
pub struct Config {
    pub api_endpoint: String,
    pub auth_token: Option<String>,
    pub default_runtime: String,
    pub build_timeout: u64,
}

impl Default for Config {
    /// The configuration a fresh installation starts from.
    fn default() -> (r: Config)
        ensures
            r.api_endpoint@ == "https://aetherngine.com"@,
            r.auth_token is None,
            r.default_runtime@ == "node:20"@,
            r.build_timeout == 300,
    {
        Config {
            api_endpoint: "https://aetherngine.com".to_owned(),
            auth_token: None,
            default_runtime: "node:20".to_owned(),
            build_timeout: 300,
        }
    }
}

impl Config {
    /// Stores a fresh auth token; the caller persists the configuration
    /// afterward.
    pub fn set_auth_token(&mut self, token: String)
        ensures
            final (self).auth_token == Some(token),
            final (self).api_endpoint == old(self).api_endpoint,
            final (self).default_runtime == old(self).default_runtime,
            final (self).build_timeout == old(self).build_timeout,
    {
        self.auth_token = Some(token);
    }

    /// Drops the auth token on logout; the caller persists afterward.
    pub fn clear_auth_token(&mut self)
        ensures
            final (self).auth_token is None,
            final (self).api_endpoint == old(self).api_endpoint,
            final (self).default_runtime == old(self).default_runtime,
            final (self).build_timeout == old(self).build_timeout,
    {
        self.auth_token = None;
    }

    /// Whether an auth token is configured; the pipeline's pre-flight
    /// guard reads this once before any stage runs.
    pub fn is_authenticated(&self) -> (r: bool)
        ensures
            r == (self.auth_token is Some),
    {
        self.auth_token.is_some()
    }
}

} // verus!
