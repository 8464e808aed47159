//! Application configuration: the static settings the server, cache and
//! registry client run with, their defaults, validation, and
//! environment-specific overrides.
//!
//! Loading configuration from files and environment variables is I/O and
//! lives in the surrounding application; the structures and rules live
//! here.

use vstd::prelude::*;
use vstd::string::*;
use crate::text::{dec_digits, str_eq, u64_to_dec};
use crate::{DEFAULT_API_URL, DEFAULT_SERVER_PORT, DEFAULT_TIMEOUT_SECS, DEFAULT_USER_AGENT};

verus! {

/// Server configuration.
#[derive(Debug, Clone, PartialEq)]
pub struct ServerConfig {
    /// Port to bind to.
    pub port: u16,
    /// Host to bind to.
    pub host: String,
    /// Number of worker threads.
    pub workers: usize,
    /// Request timeout in seconds.
    pub request_timeout: u64,
    /// Enable CORS.
    pub enable_cors: bool,
    /// Enable request tracing.
    pub enable_tracing: bool,
}

/// Cache configuration.
#[derive(Debug, Clone, PartialEq)]
pub struct CacheConfig {
    /// Enable caching.
    pub enabled: bool,
    /// TTL for cache entries in seconds.
    pub ttl_seconds: u64,
    /// Maximum number of cache entries before a write sweeps expired ones.
    pub max_entries: usize,
}

/// Logging configuration.
#[derive(Debug, Clone, PartialEq)]
pub struct LoggingConfig {
    /// Log level (trace, debug, info, warn, error).
    pub level: String,
    /// Log format (json, pretty, compact).
    pub format: String,
    /// Optional log file path.
    pub file: Option<String>,
    /// Enable structured logging.
    pub structured: bool,
}

/// Rate limiting configuration.
#[derive(Debug, Clone, PartialEq)]
pub struct RateLimitConfig {
    /// Requests per minute limit.
    pub requests_per_minute: u32,
    /// Burst size for rate limiting.
    pub burst_size: u32,
    /// Enable rate limiting.
    pub enabled: bool,
}

/// Registry API configuration.
#[derive(Debug, Clone, PartialEq)]
pub struct CratesIoConfig {
    /// API base URL.
    pub api_url: String,
    /// User agent for requests.
    pub user_agent: String,
    /// Request timeout in seconds.
    pub timeout_seconds: u64,
    /// Maximum concurrent requests.
    pub max_concurrent: usize,
    /// Retry attempts for failed requests.
    pub retry_attempts: u32,
}

/// Main application configuration.
#[derive(Debug, Clone, PartialEq)]
pub struct AppConfig {
    /// Server configuration.
    pub server: ServerConfig,
    /// Cache configuration.
    pub cache: CacheConfig,
    /// Logging configuration.
    pub logging: LoggingConfig,
    /// Rate limiting configuration.
    pub rate_limiting: RateLimitConfig,
    /// Registry API configuration.
    pub crates_io: CratesIoConfig,
}

/// Relies on num_cpus::get: the number of logical cores available to the
/// process, which its documentation promises is at least one.
#[verifier::external_body]
fn detect_workers() -> (n: usize)
    ensures
        n >= 1,
{
    num_cpus::get()
}

pub fn default_port() -> (r: u16)
    ensures
        r == 3000,
{
    DEFAULT_SERVER_PORT
}

pub fn default_host() -> (r: String)
    ensures
        r@ == "0.0.0.0"@,
{
    "0.0.0.0".to_owned()
}

/// One worker per available core, and never fewer than one.
pub fn default_workers() -> (r: usize)
    ensures
        r >= 1,
{
    detect_workers()
}

pub fn default_request_timeout() -> (r: u64)
    ensures
        r == 30,
{
    30
}

pub fn default_enable_cors() -> (r: bool)
    ensures
        r,
{
    true
}

pub fn default_enable_tracing() -> (r: bool)
    ensures
        r,
{
    true
}

pub fn default_cache_enabled() -> (r: bool)
    ensures
        r,
{
    true
}

pub fn default_cache_ttl() -> (r: u64)
    ensures
        r == 300,
{
    300
}

pub fn default_cache_max_entries() -> (r: usize)
    ensures
        r == 1000,
{
    1000
}

pub fn default_log_level() -> (r: String)
    ensures
        r@ == "info"@,
{
    "info".to_owned()
}

pub fn default_log_format() -> (r: String)
    ensures
        r@ == "pretty"@,
{
    "pretty".to_owned()
}

pub fn default_structured_logging() -> (r: bool)
    ensures
        !r,
{
    false
}

pub fn default_requests_per_minute() -> (r: u32)
    ensures
        r == 100,
{
    100
}

pub fn default_burst_size() -> (r: u32)
    ensures
        r == 20,
{
    20
}

pub fn default_rate_limiting_enabled() -> (r: bool)
    ensures
        !r,
{
    false
}

pub fn default_api_url() -> (r: String)
    ensures
        r@ == DEFAULT_API_URL@,
{
    DEFAULT_API_URL.to_owned()
}

pub fn default_user_agent() -> (r: String)
    ensures
        r@ == DEFAULT_USER_AGENT@,
{
    DEFAULT_USER_AGENT.to_owned()
}

pub fn default_api_timeout() -> (r: u64)
    ensures
        r == DEFAULT_TIMEOUT_SECS,
{
    DEFAULT_TIMEOUT_SECS
}

pub fn default_max_concurrent() -> (r: usize)
    ensures
        r == 10,
{
    10
}

pub fn default_retry_attempts() -> (r: u32)
    ensures
        r == 3,
{
    3
}

impl Default for ServerConfig {
    fn default() -> (r: Self)
        ensures
            r.port == 3000,
            r.host@ == "0.0.0.0"@,
            r.workers >= 1,
            r.request_timeout == 30,
            r.enable_cors,
            r.enable_tracing,
    {
        ServerConfig {
            port: default_port(),
            host: default_host(),
            workers: default_workers(),
            request_timeout: default_request_timeout(),
            enable_cors: default_enable_cors(),
            enable_tracing: default_enable_tracing(),
        }
    }
}

impl Default for CacheConfig {
    fn default() -> (r: Self)
        ensures
            r.enabled,
            r.ttl_seconds == 300,
            r.max_entries == 1000,
    {
        CacheConfig {
            enabled: default_cache_enabled(),
            ttl_seconds: default_cache_ttl(),
            max_entries: default_cache_max_entries(),
        }
    }
}

impl Default for LoggingConfig {
    fn default() -> (r: Self)
        ensures
            r.level@ == "info"@,
            r.format@ == "pretty"@,
            r.file is None,
            !r.structured,
    {
        LoggingConfig {
            level: default_log_level(),
            format: default_log_format(),
            file: None,
            structured: default_structured_logging(),
        }
    }
}

impl Default for RateLimitConfig {
    fn default() -> (r: Self)
        ensures
            r.requests_per_minute == 100,
            r.burst_size == 20,
            !r.enabled,
    {
        RateLimitConfig {
            requests_per_minute: default_requests_per_minute(),
            burst_size: default_burst_size(),
            enabled: default_rate_limiting_enabled(),
        }
    }
}

impl Default for CratesIoConfig {
    fn default() -> (r: Self)
        ensures
            r.api_url@ == DEFAULT_API_URL@,
            r.user_agent@ == DEFAULT_USER_AGENT@,
            r.timeout_seconds == DEFAULT_TIMEOUT_SECS,
            r.max_concurrent == 10,
            r.retry_attempts == 3,
    {
        CratesIoConfig {
            api_url: default_api_url(),
            user_agent: default_user_agent(),
            timeout_seconds: default_api_timeout(),
            max_concurrent: default_max_concurrent(),
            retry_attempts: default_retry_attempts(),
        }
    }
}

impl Default for AppConfig {
    fn default() -> (r: Self)
        ensures
            r.server.port == 3000,
            r.server.host@ == "0.0.0.0"@,
            r.server.workers >= 1,
            r.server.request_timeout == 30,
            r.server.enable_cors,
            r.cache.enabled,
            r.cache.ttl_seconds == 300,
            r.cache.max_entries == 1000,
            r.logging.level@ == "info"@,
            r.logging.format@ == "pretty"@,
            !r.rate_limiting.enabled,
            r.crates_io.api_url@ == DEFAULT_API_URL@,
            r.crates_io.timeout_seconds == DEFAULT_TIMEOUT_SECS,
            r.crates_io.max_concurrent == 10,
            spec_valid_app_config(r),
    {
        AppConfig {
            server: ServerConfig::default(),
            cache: CacheConfig::default(),
            logging: LoggingConfig::default(),
            rate_limiting: RateLimitConfig::default(),
            crates_io: CratesIoConfig::default(),
        }
    }
}

/// The accepted log levels.
pub open spec fn spec_log_level_ok(level: Seq<char>) -> bool {
    level == "trace"@ || level == "debug"@ || level == "info"@ || level == "warn"@ || level
        == "error"@
}

/// The accepted log formats.
pub open spec fn spec_log_format_ok(format: Seq<char>) -> bool {
    format == "json"@ || format == "pretty"@ || format == "compact"@
}

/// The rules a usable configuration obeys: no zero port, worker count or
/// timeout, no zero cache bound while caching is on, and a recognized log
/// level and format.
pub open spec fn spec_valid_app_config(c: AppConfig) -> bool {
    c.server.port != 0 && c.server.workers != 0 && c.server.request_timeout != 0 && (
    c.cache.enabled ==> c.cache.max_entries != 0) && spec_log_level_ok(c.logging.level@)
        && spec_log_format_ok(c.logging.format@) && c.crates_io.timeout_seconds != 0
        && c.crates_io.max_concurrent != 0
}

/// The message naming the first rule a configuration breaks.
pub open spec fn spec_config_error(c: AppConfig) -> Seq<char> {
    if c.server.port == 0 {
        "Server port cannot be 0"@
    } else if c.server.workers == 0 {
        "Server workers cannot be 0"@
    } else if c.server.request_timeout == 0 {
        "Request timeout cannot be 0"@
    } else if c.cache.enabled && c.cache.max_entries == 0 {
        "Cache max entries cannot be 0 when caching is enabled"@
    } else if !spec_log_level_ok(c.logging.level@) {
        "Invalid log level: "@ + c.logging.level@
    } else if !spec_log_format_ok(c.logging.format@) {
        "Invalid log format: "@ + c.logging.format@
    } else if c.crates_io.timeout_seconds == 0 {
        "API timeout cannot be 0"@
    } else {
        "Max concurrent requests cannot be 0"@
    }
}

impl AppConfig {
    /// Validate the configuration: accepts exactly the configurations that
    /// obey [`spec_valid_app_config`], naming the first broken rule
    /// otherwise.
    pub fn validate(&self) -> (r: Result<(), String>)
        ensures
            r is Ok <==> spec_valid_app_config(*self),
            r matches Err(m) ==> m@ == spec_config_error(*self),
    {
        if self.server.port == 0 {
            return Err("Server port cannot be 0".to_owned());
        }
        if self.server.workers == 0 {
            return Err("Server workers cannot be 0".to_owned());
        }
        if self.server.request_timeout == 0 {
            return Err("Request timeout cannot be 0".to_owned());
        }
        if self.cache.enabled && self.cache.max_entries == 0 {
            return Err("Cache max entries cannot be 0 when caching is enabled".to_owned());
        }
        let level = self.logging.level.as_str();
        let level_ok = str_eq(level, "trace") || str_eq(level, "debug") || str_eq(level, "info")
            || str_eq(level, "warn") || str_eq(level, "error");
        if !level_ok {
            let mut m = "Invalid log level: ".to_owned();
            m.append(level);
            return Err(m);
        }
        let format = self.logging.format.as_str();
        let format_ok = str_eq(format, "json") || str_eq(format, "pretty") || str_eq(
            format,
            "compact",
        );
        if !format_ok {
            let mut m = "Invalid log format: ".to_owned();
            m.append(format);
            return Err(m);
        }
        if self.crates_io.timeout_seconds == 0 {
            return Err("API timeout cannot be 0".to_owned());
        }
        if self.crates_io.max_concurrent == 0 {
            return Err("Max concurrent requests cannot be 0".to_owned());
        }
        Ok(())
    }

    /// The address the server binds to: "host:port".
    pub fn bind_address(&self) -> (r: String)
        ensures
            r@ == self.server.host@ + ":"@ + dec_digits(self.server.port as nat),
    {
        proof {
            reveal_strlit(":");
            assert(":"@ =~= seq![':']);
        }
        let mut r = self.server.host.clone();
        r.append(":");
        let port = u64_to_dec(self.server.port as u64);
        r.append(port.as_str());
        proof {
            assert(":"@ == seq![':']);
            assert(r@ == self.server.host@ + ":"@ + dec_digits(self.server.port as nat));
        }
        r
    }
}

/// Which deployment environment the process runs in, as detected by the
/// surrounding application.
#[derive(Debug, Clone, PartialEq)]
pub struct EnvironmentConfig {
    pub is_development: bool,
    pub is_production: bool,
    pub is_test: bool,
}

impl EnvironmentConfig {
    /// Apply environment-specific overrides: development turns caching and
    /// rate limiting off and logs at debug; production turns both on with
    /// structured info logs; test logs at warn with both off. Development
    /// takes precedence over production, production over test; everything
    /// not named is left as it was.
    pub fn apply_overrides(&self, config: &mut AppConfig)
        ensures
            final(config).server == old(config).server,
            final(config).crates_io == old(config).crates_io,
            final(config).cache.ttl_seconds == old(config).cache.ttl_seconds,
            final(config).cache.max_entries == old(config).cache.max_entries,
            final(config).logging.format == old(config).logging.format,
            final(config).logging.file == old(config).logging.file,
            final(config).rate_limiting.requests_per_minute == old(config).rate_limiting.requests_per_minute,
            final(config).rate_limiting.burst_size == old(config).rate_limiting.burst_size,
            self.is_development ==> (final(config).logging.level@ == "debug"@ && !final(config).cache.enabled && !final(config).rate_limiting.enabled && final(config).logging.structured == old(config).logging.structured),
            !self.is_development && self.is_production ==> (final(config).logging.level@
                == "info"@ && final(config).logging.structured && final(config).cache.enabled
                && final(config).rate_limiting.enabled),
            !self.is_development && !self.is_production && self.is_test ==> (final(config).logging.level@ == "warn"@ && !final(config).cache.enabled && !final(config).rate_limiting.enabled && final(config).logging.structured == old(config).logging.structured),
            !self.is_development && !self.is_production && !self.is_test ==> *final(config)
                == *old(config),
    {
        if self.is_development {
            config.logging.level = "debug".to_owned();
            config.cache.enabled = false;
            config.rate_limiting.enabled = false;
        } else if self.is_production {
            config.logging.level = "info".to_owned();
            config.logging.structured = true;
            config.cache.enabled = true;
            config.rate_limiting.enabled = true;
        } else if self.is_test {
            config.logging.level = "warn".to_owned();
            config.cache.enabled = false;
            config.rate_limiting.enabled = false;
        }
    }
}

/// Builder for the registry client's settings: the base URL, user agent
/// and timeout the surrounding application constructs its HTTP client
/// from.
#[derive(Debug, Clone, PartialEq)]
pub struct CrateClientBuilder {
    pub base_url: Option<String>,
    pub user_agent: Option<String>,
    pub timeout_secs: Option<u64>,
}

impl Default for CrateClientBuilder {
    fn default() -> (r: Self)
        ensures
            r.base_url is None,
            r.user_agent is None,
            r.timeout_secs is None,
    {
        CrateClientBuilder { base_url: None, user_agent: None, timeout_secs: None }
    }
}

impl CrateClientBuilder {
    /// Set the base URL for the registry API.
    pub fn base_url(self, url: &str) -> (r: Self)
        ensures
            r.base_url matches Some(u) && u@ == url@,
            r.user_agent == self.user_agent,
            r.timeout_secs == self.timeout_secs,
    {
        CrateClientBuilder {
            base_url: Some(url.to_owned()),
            user_agent: self.user_agent,
            timeout_secs: self.timeout_secs,
        }
    }

    /// Set the user agent string.
    pub fn user_agent(self, agent: &str) -> (r: Self)
        ensures
            r.user_agent matches Some(u) && u@ == agent@,
            r.base_url == self.base_url,
            r.timeout_secs == self.timeout_secs,
    {
        CrateClientBuilder {
            base_url: self.base_url,
            user_agent: Some(agent.to_owned()),
            timeout_secs: self.timeout_secs,
        }
    }

    /// Set the request timeout, in seconds.
    pub fn timeout(self, timeout_secs: u64) -> (r: Self)
        ensures
            r.timeout_secs == Some(timeout_secs),
            r.base_url == self.base_url,
            r.user_agent == self.user_agent,
    {
        CrateClientBuilder {
            base_url: self.base_url,
            user_agent: self.user_agent,
            timeout_secs: Some(timeout_secs),
        }
    }

    /// The settings the client is built with: explicit values where given,
    /// the documented defaults otherwise.
    pub fn resolved(self) -> (r: (String, String, u64))
        ensures
            r.0@ == (match self.base_url {
                Some(u) => u@,
                None => DEFAULT_API_URL@,
            }),
            r.1@ == (match self.user_agent {
                Some(u) => u@,
                None => DEFAULT_USER_AGENT@,
            }),
            r.2 == (match self.timeout_secs {
                Some(t) => t,
                None => DEFAULT_TIMEOUT_SECS,
            }),
    {
        let base_url = match self.base_url {
            Some(u) => u,
            None => DEFAULT_API_URL.to_owned(),
        };
        let user_agent = match self.user_agent {
            Some(u) => u,
            None => DEFAULT_USER_AGENT.to_owned(),
        };
        let timeout = match self.timeout_secs {
            Some(t) => t,
            None => DEFAULT_TIMEOUT_SECS,
        };
        (base_url, user_agent, timeout)
    }
}

} // verus!
