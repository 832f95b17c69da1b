//! Per-call fetch options and per-source configuration.

use vstd::prelude::*;

verus! {

/// Options for fetching MRF files
#[derive(Debug, Clone)]
pub struct FetchOptions {
    /// Maximum file size to download (in bytes)
    pub max_size: Option<u64>,
    /// Whether to use local cache
    pub use_cache: bool,
    /// Cache directory path
    pub cache_dir: Option<String>,
    /// Request timeout in seconds
    pub timeout_secs: Option<u64>,
    /// Number of retry attempts
    pub max_retries: Option<u32>,
    /// Whether to verify SSL certificates
    pub verify_ssl: bool,
}

impl Default for FetchOptions {
    /// Defaults: caching on, five-minute timeout, three retries, SSL
    /// verification on, no size limit.
    fn default() -> (r: Self)
        ensures
            r.max_size is None,
            r.use_cache,
            r.cache_dir is None,
            r.timeout_secs == Option::<u64>::Some(300),
            r.max_retries == Option::<u32>::Some(3),
            r.verify_ssl,
    {
        FetchOptions {
            max_size: Option::None,
            use_cache: true,
            cache_dir: Option::None,
            timeout_secs: Option::Some(300),
            max_retries: Option::Some(3),
            verify_ssl: true,
        }
    }
}

impl FetchOptions {
    /// The request timeout that applies: the option, or five minutes.
    pub fn effective_timeout_secs(&self) -> (r: u64)
        ensures
            r == match self.timeout_secs {
                Option::Some(t) => t,
                Option::None => 300u64,
            },
    {
        match self.timeout_secs {
            Option::Some(t) => t,
            Option::None => 300,
        }
    }

    /// The retry bound that applies: the option, or three.
    pub fn effective_max_retries(&self) -> (r: u32)
        ensures
            r == match self.max_retries {
                Option::Some(n) => n,
                Option::None => 3u32,
            },
    {
        match self.max_retries {
            Option::Some(n) => n,
            Option::None => 3,
        }
    }
}

/// Configuration for source implementations
#[derive(Debug, Clone)]
pub struct SourceConfig {
    /// Base URL for the insurer's MRF files
    pub base_url: String,
    /// User agent string for HTTP requests
    pub user_agent: Option<String>,
    /// Rate limit (whole requests per second)
    pub rate_limit: Option<u64>,
    /// Default fetch options
    pub default_options: Option<FetchOptions>,
    /// Additional source-specific configuration, carried as raw text
    pub extra: Option<String>,
}

impl Default for SourceConfig {
    /// Defaults: empty base URL, the crate's user agent, one hundred
    /// requests per second, default fetch options, no extra payload.
    fn default() -> (r: Self)
        ensures
            r.base_url@ == Seq::<char>::empty(),
            r.user_agent matches Option::Some(u) && u@ == "mrf-rs/0.1.0"@,
            r.rate_limit == Option::<u64>::Some(100),
            r.default_options matches Option::Some(o) && o.use_cache && o.timeout_secs
                == Option::<u64>::Some(300) && o.max_retries == Option::<u32>::Some(3)
                && o.verify_ssl && o.max_size is None && o.cache_dir is None,
            r.extra is None,
    {
        SourceConfig {
            base_url: String::new(),
            user_agent: Option::Some(String::from_str("mrf-rs/0.1.0")),
            rate_limit: Option::Some(100),
            default_options: Option::Some(FetchOptions::default()),
            extra: Option::None,
        }
    }
}

/// United Health specific configuration
#[derive(Debug, Clone)]
pub struct UnitedHealthConfig {
    /// Base URL for the transparency website
    pub transparency_url: String,
    /// API endpoint for fetching blob list
    pub api_endpoint: String,
}

impl Default for UnitedHealthConfig {
    fn default() -> (r: Self)
        ensures
            r.transparency_url@ == "https://transparency-in-coverage.uhc.com/"@,
            r.api_endpoint@ == "https://transparency-in-coverage.uhc.com/api/v1/uhc/blobs"@,
    {
        UnitedHealthConfig {
            transparency_url: String::from_str("https://transparency-in-coverage.uhc.com/"),
            api_endpoint: String::from_str(
                "https://transparency-in-coverage.uhc.com/api/v1/uhc/blobs",
            ),
        }
    }
}

/// The source configuration a United Health source runs under: its
/// transparency site as base URL, a dedicated user agent, defaults
/// otherwise.
pub fn united_health_source_config(config: &UnitedHealthConfig) -> (r: SourceConfig)
    ensures
        r.base_url@ == config.transparency_url@,
        r.user_agent matches Option::Some(u) && u@ == "mrf-rs/0.1.0 (United Health MRF Fetcher)"@,
        r.rate_limit == Option::<u64>::Some(100),
        r.default_options matches Option::Some(o) && o.use_cache && o.timeout_secs
            == Option::<u64>::Some(300) && o.max_retries == Option::<u32>::Some(3) && o.verify_ssl,
{
    let mut r = SourceConfig::default();
    r.base_url = config.transparency_url.clone();
    r.user_agent = Option::Some(String::from_str("mrf-rs/0.1.0 (United Health MRF Fetcher)"));
    r
}

} // verus!
