//! Credentials and endpoint settings, fixed once a client is built.

use std::time::Duration;
use vstd::prelude::*;

verus! {

/// What a client needs to know before it can address the provider.
#[derive(Clone)]
pub struct Config {
    pub username: String,
    pub password: String,
    /// Overrides the provider's host when set.
    pub base_url: Option<String>,
    /// Upper bound on a single request, applied by the transport.
    pub timeout: Option<Duration>,
}

impl Config {
    /// Configuration with the given credentials and every option unset.
    pub fn new(username: &str, password: &str) -> (config: Config)
        ensures
            config.username@ == username@,
            config.password@ == password@,
            config.base_url is None,
            config.timeout is None,
    {
        Config {
            username: String::from_str(username),
            password: String::from_str(password),
            base_url: None,
            timeout: None,
        }
    }

    /// Sends requests to `base_url` instead of the provider's host.
    pub fn with_base_url(self, base_url: &str) -> (config: Config)
        ensures
            config.base_url is Some,
            config.base_url->0@ == base_url@,
            config == (Config { base_url: config.base_url, ..self }),
    {
        let mut config = self;
        config.base_url = Some(String::from_str(base_url));
        config
    }

    /// Bounds every request by `timeout`.
    pub fn with_timeout(self, timeout: Duration) -> (config: Config)
        ensures
            config == (Config { timeout: Some(timeout), ..self }),
    {
        let mut config = self;
        config.timeout = Some(timeout);
        config
    }
}

} // verus!
