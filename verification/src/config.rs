//! Client configuration: API endpoint and version, HTTP timeouts, the retry
//! policy consumed by the backoff scheduler, and default model selection.
//!
//! All durations are carried as plain integer milliseconds.

use vstd::prelude::*;
use crate::text::{has_substring, str_contains, str_eq};

verus! {

/// Largest backoff multiplier the retry policy accepts, in hundredths
/// (a hundredfold growth per attempt). Keeps the backoff arithmetic inside
/// `u64`.
pub const MAX_MULTIPLIER_HUNDREDTHS: u64 = 10000;

/// Largest delay ceiling the retry policy accepts, in milliseconds (more than
/// thirty years). Keeps the backoff arithmetic inside `u64`.
pub const MAX_DELAY_MILLIS: u64 = 1000000000000;

/// API version to use for requests.
#[derive(Debug, Clone, Copy, PartialEq, Eq, Structural)]
pub enum ApiVersion {
    /// Stable v1 API.
    V1,
    /// Beta v1 API with experimental features.
    V1Beta,
}

impl ApiVersion {
    /// The path segment this version contributes to an endpoint URL.
    pub fn as_str(&self) -> (r: &'static str)
        ensures
            self is V1 ==> r@ == "v1"@,
            self is V1Beta ==> r@ == "v1beta"@,
    {
        match self {
            ApiVersion::V1 => "v1",
            ApiVersion::V1Beta => "v1beta",
        }
    }
}

impl Default for ApiVersion {
    /// The stable version is the default.
    fn default() -> (r: Self)
        ensures
            r == ApiVersion::V1,
    {
        ApiVersion::V1
    }
}

/// HTTP client configuration.
#[derive(Debug, Clone, Copy)]
pub struct HttpConfig {
    /// Request timeout, in milliseconds.
    pub timeout_millis: u64,
    /// Connection timeout, in milliseconds.
    pub connect_timeout_millis: u64,
    /// Whether to use connection pooling.
    pub pool_connections: bool,
    /// Maximum idle connections per host.
    pub pool_max_idle_per_host: usize,
}

impl HttpConfig {
    /// The stock HTTP settings: a five-minute request timeout (large
    /// contexts), a thirty-second connection timeout, pooling on.
    pub open spec fn is_default(self) -> bool {
        &&& self.timeout_millis == 300000
        &&& self.connect_timeout_millis == 30000
        &&& self.pool_connections == true
        &&& self.pool_max_idle_per_host == 10
    }
}

impl Default for HttpConfig {
    fn default() -> (r: Self)
        ensures
            r.is_default(),
    {
        HttpConfig {
            timeout_millis: 300000,
            connect_timeout_millis: 30000,
            pool_connections: true,
            pool_max_idle_per_host: 10,
        }
    }
}

/// Retry policy for failed requests, consumed by the backoff scheduler and
/// the request executor. Immutable once supplied.
#[derive(Debug, Clone, Copy)]
pub struct RetryConfig {
    /// Maximum number of attempts (at least 1).
    pub max_attempts: u32,
    /// Initial retry delay, in milliseconds.
    pub initial_delay_millis: u64,
    /// Ceiling on the retry delay, in milliseconds.
    pub max_delay_millis: u64,
    /// Exponential backoff multiplier, in hundredths (200 means the delay
    /// doubles with each attempt; at least 100, so delays never shrink).
    pub backoff_multiplier_hundredths: u64,
    /// Whether to add random jitter (up to one quarter) to each delay.
    pub jitter: bool,
}

impl RetryConfig {
    /// A well-formed policy: at least one attempt, a multiplier of at least
    /// one, a ceiling no smaller than the initial delay, and both multiplier
    /// and ceiling small enough that the backoff arithmetic stays in `u64`.
    pub open spec fn wf(self) -> bool {
        &&& self.max_attempts >= 1
        &&& 100 <= self.backoff_multiplier_hundredths <= MAX_MULTIPLIER_HUNDREDTHS
        &&& self.initial_delay_millis <= self.max_delay_millis
        &&& self.max_delay_millis <= MAX_DELAY_MILLIS
    }

    /// The stock policy: three attempts, one second doubling up to a minute,
    /// with jitter.
    pub open spec fn is_default(self) -> bool {
        &&& self.max_attempts == 3
        &&& self.initial_delay_millis == 1000
        &&& self.max_delay_millis == 60000
        &&& self.backoff_multiplier_hundredths == 200
        &&& self.jitter == true
    }
}

impl Default for RetryConfig {
    fn default() -> (r: Self)
        ensures
            r.is_default(),
            r.wf(),
    {
        RetryConfig {
            max_attempts: 3,
            initial_delay_millis: 1000,
            max_delay_millis: 60000,
            backoff_multiplier_hundredths: 200,
            jitter: true,
        }
    }
}

/// Default model configuration.
#[derive(Debug, Clone)]
pub struct ModelConfig {
    /// Default model to use.
    pub model: String,
    /// Whether to substitute a pinned release for known model families.
    pub use_latest: bool,
}

impl ModelConfig {
    /// The stock model selection.
    pub open spec fn is_default(self) -> bool {
        &&& self.model@ == "gemini-2.5-flash"@
        &&& self.use_latest == true
    }
}

impl Default for ModelConfig {
    fn default() -> (r: Self)
        ensures
            r.is_default(),
    {
        ModelConfig { model: default_model(), use_latest: default_use_latest() }
    }
}

/// The base URL used when none is configured.
pub fn default_base_url() -> (r: String)
    ensures
        r@ == "https://generativelanguage.googleapis.com"@,
{
    String::from_str("https://generativelanguage.googleapis.com")
}

/// The model used when none is configured.
pub fn default_model() -> (r: String)
    ensures
        r@ == "gemini-2.5-flash"@,
{
    String::from_str("gemini-2.5-flash")
}

/// Whether pinned model releases are substituted by default.
pub fn default_use_latest() -> (r: bool)
    ensures
        r == true,
{
    true
}

/// Configuration for the API client.
#[derive(Debug, Clone)]
pub struct GeminiConfig {
    /// API key for authentication.
    pub api_key: String,
    /// Base URL for the API (can be overridden for testing).
    pub base_url: String,
    /// API version to use.
    pub api_version: ApiVersion,
    /// HTTP client configuration.
    pub http_config: HttpConfig,
    /// Retry configuration.
    pub retry_config: RetryConfig,
    /// Default model configuration.
    pub model_config: ModelConfig,
}

/// The full model name owed for a request: the requested model (or the
/// configured default), with a pinned release substituted for known model
/// families when `use_latest` is set and the name is not already a preview
/// release.
pub open spec fn resolved_model_name(
    use_latest: bool,
    default_model: Seq<char>,
    requested: Option<Seq<char>>,
) -> Seq<char> {
    let base = match requested {
        Some(m) => m,
        None => default_model,
    };
    if use_latest && !has_substring(base, "-preview"@) {
        if base == "gemini-2.5-pro"@ {
            "gemini-2.5-pro-preview-05-06"@
        } else if base == "gemini-2.5-flash"@ {
            "gemini-2.5-flash"@
        } else if base == "gemini-2.0-flash"@ {
            "gemini-2.0-flash-001"@
        } else {
            base
        }
    } else {
        base
    }
}

impl GeminiConfig {
    /// A configuration with everything but the key at its default.
    pub open spec fn is_fresh(self, api_key: Seq<char>) -> bool {
        &&& self.api_key@ == api_key
        &&& self.base_url@ == "https://generativelanguage.googleapis.com"@
        &&& self.api_version == ApiVersion::V1
        &&& self.http_config.is_default()
        &&& self.retry_config.is_default()
        &&& self.model_config.is_default()
    }

    /// Create a new configuration with an API key; everything else takes its
    /// default.
    pub fn new(api_key: String) -> (r: Self)
        ensures
            r.is_fresh(api_key@),
            r.retry_config.wf(),
    {
        GeminiConfig {
            api_key,
            base_url: default_base_url(),
            api_version: ApiVersion::V1,
            http_config: HttpConfig::default(),
            retry_config: RetryConfig::default(),
            model_config: ModelConfig::default(),
        }
    }

    /// Get the full model name for a request, substituting a pinned release
    /// where the configuration asks for it.
    pub fn get_model_name(&self, model: Option<&str>) -> (r: String)
        ensures
            r@ == resolved_model_name(
                self.model_config.use_latest,
                self.model_config.model@,
                match model {
                    Some(m) => Some(m@),
                    None => None::<Seq<char>>,
                },
            ),
    {
        let base: &str = match model {
            Some(m) => m,
            None => self.model_config.model.as_str(),
        };
        if self.model_config.use_latest && !str_contains(base, "-preview") {
            if str_eq(base, "gemini-2.5-pro") {
                String::from_str("gemini-2.5-pro-preview-05-06")
            } else if str_eq(base, "gemini-2.5-flash") {
                String::from_str("gemini-2.5-flash")
            } else if str_eq(base, "gemini-2.0-flash") {
                String::from_str("gemini-2.0-flash-001")
            } else {
                base.to_owned()
            }
        } else {
            base.to_owned()
        }
    }
}

impl Default for GeminiConfig {
    /// The stock configuration with an empty API key.
    fn default() -> (r: Self)
        ensures
            r.is_fresh(Seq::<char>::empty()),
    {
        GeminiConfig {
            api_key: String::new(),
            base_url: default_base_url(),
            api_version: ApiVersion::V1,
            http_config: HttpConfig::default(),
            retry_config: RetryConfig::default(),
            model_config: ModelConfig::default(),
        }
    }
}

} // verus!
