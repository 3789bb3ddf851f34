use vstd::prelude::*;
use vstd::string::*;
use std::time::Duration;

verus! {

/// The settings of an HTTP client.
#[derive(Debug, Clone)]
pub struct HttpClientBuilderConfig {
    /// The time that a whole request may take.
    pub timeout: Option<Duration>,
    /// The time that connecting may take.
    pub connect_timeout: Option<Duration>,
    /// The idle connections kept per host.
    pub max_idle_per_host: Option<usize>,
    /// The headers sent with every request, by name and value.
    pub default_headers: Option<Vec<(String, String)>>,
}

/// The seconds that a whole request may take by default.
pub const DEFAULT_TIMEOUT_SECS: u64 = 10;

/// The seconds that connecting may take by default.
pub const DEFAULT_CONNECT_TIMEOUT_SECS: u64 = 5;

/// The idle connections kept per host by default.
pub const DEFAULT_MAX_IDLE_PER_HOST: usize = 8;

/// The times that a request is tried again by default.
pub const DEFAULT_MAX_RETRIES: u32 = 3;

/// The time span of `secs` whole seconds.
pub uninterp spec fn span_of_secs(secs: u64) -> Duration;

/// `Duration::from_secs`: the time span of that many whole seconds.
#[verifier::external_body]
pub(crate) fn duration_from_secs(secs: u64) -> (span: Duration)
    ensures
        span == span_of_secs(secs),
{
    Duration::from_secs(secs)
}

/// Whether `config` holds the default settings: ten seconds for a request,
/// five for connecting, eight idle connections per host, and a header that
/// asks for JSON.
pub open spec fn is_default_settings(config: HttpClientBuilderConfig) -> bool {
    &&& config.timeout == Some(span_of_secs(DEFAULT_TIMEOUT_SECS))
    &&& config.connect_timeout == Some(span_of_secs(DEFAULT_CONNECT_TIMEOUT_SECS))
    &&& config.max_idle_per_host == Some(DEFAULT_MAX_IDLE_PER_HOST)
    &&& config.default_headers is Some
    &&& config.default_headers->Some_0@.len() == 1
    &&& config.default_headers->Some_0@[0].0@ == "accept"@
    &&& config.default_headers->Some_0@[0].1@ == "application/json"@
}

impl Default for HttpClientBuilderConfig {
    fn default() -> (config: Self)
        ensures
            is_default_settings(config),
    {
        let mut headers: Vec<(String, String)> = Vec::new();
        headers.push((String::from_str("accept"), String::from_str("application/json")));
        Self {
            timeout: Some(duration_from_secs(DEFAULT_TIMEOUT_SECS)),
            connect_timeout: Some(duration_from_secs(DEFAULT_CONNECT_TIMEOUT_SECS)),
            max_idle_per_host: Some(DEFAULT_MAX_IDLE_PER_HOST),
            default_headers: Some(headers),
        }
    }
}

impl HttpClientBuilderConfig {
    /// The settings that a client is built with: the caller's, where there
    /// are any, one and all; else the default ones.
    pub fn merged(config: Option<HttpClientBuilderConfig>) -> (merged: Self)
        ensures
            match config {
                Some(custom) => merged == custom,
                None => is_default_settings(merged),
            },
    {
        match config {
            Some(custom) => custom,
            None => HttpClientBuilderConfig::default(),
        }
    }
}

/// The times that a request is tried again: the caller's number, or three.
pub fn retries_of(max_retries: Option<u32>) -> (retries: u32)
    ensures
        retries == match max_retries {
            Some(n) => n,
            None => DEFAULT_MAX_RETRIES,
        },
{
    match max_retries {
        Some(n) => n,
        None => DEFAULT_MAX_RETRIES,
    }
}

} // verus!
