//! Where an HTTP backend sends its requests, and the backend that runs in a browser.
use vstd::prelude::*;
use vstd::string::*;
use std::time::Duration;

verus! {

/// The duration of the given number of whole seconds (`Duration::from_secs`).
pub uninterp spec fn seconds(secs: u64) -> Duration;

/// `Duration::from_secs`: the result is named `seconds` of the argument.
#[verifier::external_body]
fn duration_from_secs(secs: u64) -> (d: Duration)
    ensures
        d == seconds(secs),
{
    Duration::from_secs(secs)
}

/// `Duration` is `Copy`: its `clone` gives back the same duration.
pub assume_specification[ <Duration as Clone>::clone ](d: &Duration) -> (res: Duration)
    ensures
        res == *d,
;

/// The validator a backend talks to unless told otherwise.
pub open spec fn default_url() -> Seq<char> {
    "http://localhost:8899"@
}

/// How long a request may take unless told otherwise, in seconds.
pub const DEFAULT_TIMEOUT_SECS: u64 = 30;

#[derive(Clone, Debug)]
pub struct HttpBackendConfig {
    pub url: String,
    pub timeout: Duration,
}

impl Default for HttpBackendConfig {
    fn default() -> (c: HttpBackendConfig)
        ensures
            c.url@ == default_url(),
            c.timeout == seconds(DEFAULT_TIMEOUT_SECS),
    {
        HttpBackendConfig {
            url: String::from_str("http://localhost:8899"),
            timeout: duration_from_secs(DEFAULT_TIMEOUT_SECS),
        }
    }
}

impl HttpBackendConfig {
    pub fn new(url: &str) -> (c: HttpBackendConfig)
        ensures
            c.url@ == url@,
            c.timeout == seconds(DEFAULT_TIMEOUT_SECS),
    {
        HttpBackendConfig { url: String::from_str(url), timeout: duration_from_secs(DEFAULT_TIMEOUT_SECS) }
    }

    pub fn with_url(self, url: &str) -> (c: HttpBackendConfig)
        ensures
            c.url@ == url@,
            c.timeout == self.timeout,
    {
        HttpBackendConfig { url: String::from_str(url), timeout: self.timeout }
    }

    pub fn with_timeout(self, timeout: Duration) -> (c: HttpBackendConfig)
        ensures
            c.url == self.url,
            c.timeout == timeout,
    {
        HttpBackendConfig { url: self.url, timeout }
    }

    /// The configuration for the validator URL found in the environment, if one was
    /// found, else the default.
    pub fn from_env_value(value: Option<&str>) -> (c: HttpBackendConfig)
        ensures
            c.url@ == match value {
                Some(v) => v@,
                None => default_url(),
            },
            c.timeout == seconds(DEFAULT_TIMEOUT_SECS),
    {
        match value {
            Some(url) => HttpBackendConfig::new(url),
            None => HttpBackendConfig::default(),
        }
    }
}

/// The environment variable that names the validator URL.
pub fn validator_url_variable() -> (s: &'static str)
    ensures
        s@ == "SURF_TEST_VALIDATOR_URL"@,
{
    "SURF_TEST_VALIDATOR_URL"
}

/// HTTP backend for browser and web worker environments.
#[derive(Clone, Debug)]
pub struct BrowserBackend {
    pub url: String,
}

impl BrowserBackend {
    pub fn new(url: &str) -> (b: BrowserBackend)
        ensures
            b.url@ == url@,
    {
        BrowserBackend { url: String::from_str(url) }
    }

    pub fn from_config(config: HttpBackendConfig) -> (b: BrowserBackend)
        ensures
            b.url == config.url,
    {
        BrowserBackend { url: config.url }
    }
}

} // verus!
