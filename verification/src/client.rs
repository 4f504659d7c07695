//! Client construction and the request-side computations of a call: building
//! a validated configuration, resolving model names, and forming endpoint
//! URLs. The network transport that consumes these lives outside the
//! library.

use vstd::prelude::*;
use crate::config::{ApiVersion, GeminiConfig, HttpConfig, ModelConfig, RetryConfig, resolved_model_name};
use crate::error::{Error, ErrorModel};

verus! {

/// Builder for a customized client configuration. Each setter fills in one
/// field, starting from the default configuration on first use; `build`
/// validates the result.
#[derive(Debug, Clone)]
pub struct GeminiClientBuilder {
    /// The configuration assembled so far; absent until a setter runs.
    pub config: Option<GeminiConfig>,
}

impl Default for GeminiClientBuilder {
    /// A builder with nothing set.
    fn default() -> (r: Self)
        ensures
            r.config is None,
    {
        GeminiClientBuilder { config: None }
    }
}

impl GeminiClientBuilder {
    /// The configuration this builder holds, or the default one before any
    /// setter has run.
    fn take_config(self) -> (r: GeminiConfig)
        ensures
            self.config matches Some(c) ==> r == c,
            self.config is None ==> r.is_fresh(Seq::<char>::empty()),
    {
        match self.config {
            Some(c) => c,
            None => GeminiConfig::default(),
        }
    }

    /// Set the API key.
    pub fn api_key(self, key: &str) -> (r: Self)
        ensures
            (r.config matches Some(c2) && c2.api_key@ == key@),
            self.config matches Some(c) ==> (r.config matches Some(c2) && c2 == (GeminiConfig {
                api_key: c2.api_key,
                ..c
            })),
            self.config is None ==> (r.config matches Some(c2) && c2.base_url@
                == "https://generativelanguage.googleapis.com"@ && c2.api_version == ApiVersion::V1
                && c2.http_config.is_default() && c2.retry_config.is_default()
                && c2.model_config.is_default()),
    {
        let mut config = self.take_config();
        config.api_key = key.to_owned();
        GeminiClientBuilder { config: Some(config) }
    }

    /// Set the base URL.
    pub fn base_url(self, url: &str) -> (r: Self)
        ensures
            (r.config matches Some(c2) && c2.base_url@ == url@),
            self.config matches Some(c) ==> (r.config matches Some(c2) && c2 == (GeminiConfig {
                base_url: c2.base_url,
                ..c
            })),
            self.config is None ==> (r.config matches Some(c2) && c2.api_key@
                == Seq::<char>::empty() && c2.api_version == ApiVersion::V1
                && c2.http_config.is_default() && c2.retry_config.is_default()
                && c2.model_config.is_default()),
    {
        let mut config = self.take_config();
        config.base_url = url.to_owned();
        GeminiClientBuilder { config: Some(config) }
    }

    /// Set the API version.
    pub fn api_version(self, version: ApiVersion) -> (r: Self)
        ensures
            (r.config matches Some(c2) && c2.api_version == version),
            self.config matches Some(c) ==> (r.config matches Some(c2) && c2 == (GeminiConfig {
                api_version: version,
                ..c
            })),
            self.config is None ==> (r.config matches Some(c2) && c2.api_key@
                == Seq::<char>::empty() && c2.base_url@
                == "https://generativelanguage.googleapis.com"@ && c2.http_config.is_default()
                && c2.retry_config.is_default() && c2.model_config.is_default()),
    {
        let mut config = self.take_config();
        config.api_version = version;
        GeminiClientBuilder { config: Some(config) }
    }

    /// Set the default model.
    pub fn model(self, model: &str) -> (r: Self)
        ensures
            (r.config matches Some(c2) && c2.model_config.model@ == model@),
            self.config matches Some(c) ==> (r.config matches Some(c2) && c2 == (GeminiConfig {
                model_config: ModelConfig { model: c2.model_config.model, ..c.model_config },
                ..c
            })),
            self.config is None ==> (r.config matches Some(c2) && c2.api_key@
                == Seq::<char>::empty() && c2.base_url@
                == "https://generativelanguage.googleapis.com"@ && c2.api_version == ApiVersion::V1
                && c2.http_config.is_default() && c2.retry_config.is_default()
                && c2.model_config.use_latest == true),
    {
        let mut config = self.take_config();
        config.model_config.model = model.to_owned();
        GeminiClientBuilder { config: Some(config) }
    }

    /// Set the request timeout, in milliseconds.
    pub fn timeout(self, timeout_millis: u64) -> (r: Self)
        ensures
            (r.config matches Some(c2) && c2.http_config.timeout_millis == timeout_millis),
            self.config matches Some(c) ==> (r.config matches Some(c2) && c2 == (GeminiConfig {
                http_config: HttpConfig { timeout_millis, ..c.http_config },
                ..c
            })),
            self.config is None ==> (r.config matches Some(c2) && c2.api_key@
                == Seq::<char>::empty() && c2.base_url@
                == "https://generativelanguage.googleapis.com"@ && c2.api_version == ApiVersion::V1
                && c2.retry_config.is_default() && c2.model_config.is_default()),
    {
        let mut config = self.take_config();
        config.http_config.timeout_millis = timeout_millis;
        GeminiClientBuilder { config: Some(config) }
    }

    /// Set the maximum number of attempts of the retry policy.
    pub fn max_retries(self, retries: u32) -> (r: Self)
        ensures
            (r.config matches Some(c2) && c2.retry_config.max_attempts == retries),
            self.config matches Some(c) ==> (r.config matches Some(c2) && c2 == (GeminiConfig {
                retry_config: RetryConfig { max_attempts: retries, ..c.retry_config },
                ..c
            })),
            self.config is None ==> (r.config matches Some(c2) && c2.api_key@
                == Seq::<char>::empty() && c2.base_url@
                == "https://generativelanguage.googleapis.com"@ && c2.api_version == ApiVersion::V1
                && c2.http_config.is_default() && c2.model_config.is_default()),
    {
        let mut config = self.take_config();
        config.retry_config.max_attempts = retries;
        GeminiClientBuilder { config: Some(config) }
    }

    /// Validate and hand out the configuration: a builder no setter ever
    /// touched, or one whose API key is empty, is refused.
    pub fn build(self) -> (r: Result<GeminiConfig, Error>)
        ensures
            self.config is None ==> (r matches Err(e) && e@ == (ErrorModel::Config {
                message: "Configuration not properly initialized"@,
            })),
            self.config matches Some(c) ==> {
                &&& c.api_key@.len() == 0 ==> (r matches Err(e) && e@ == (ErrorModel::Config {
                    message: "API key is required"@,
                }))
                &&& c.api_key@.len() > 0 ==> r == Ok::<GeminiConfig, Error>(c)
            },
    {
        match self.config {
            None => Err(
                Error::Config {
                    message: String::from_str("Configuration not properly initialized"),
                },
            ),
            Some(config) => {
                if config.api_key.as_str().is_empty() {
                    Err(Error::Config { message: String::from_str("API key is required") })
                } else {
                    Ok(config)
                }
            },
        }
    }
}

/// The endpoint URL for an API path: the base URL, the version segment and
/// the path, separated by slashes.
pub fn build_api_endpoint(config: &GeminiConfig, path: &str) -> (r: String)
    ensures
        r@ == config.base_url@ + "/"@ + (if config.api_version is V1 {
            "v1"@
        } else {
            "v1beta"@
        }) + "/"@ + path@,
{
    let mut url = config.base_url.clone();
    url.append("/");
    url.append(config.api_version.as_str());
    url.append("/");
    url.append(path);
    url
}

/// The endpoint URL for one method of a model:
/// `<base>/<version>/models/<model>:<method>`, with the model name resolved
/// as the configuration asks.
pub fn build_model_endpoint(config: &GeminiConfig, model: Option<&str>, method: &str) -> (r:
    String)
    ensures
        r@ == config.base_url@ + "/"@ + (if config.api_version is V1 {
            "v1"@
        } else {
            "v1beta"@
        }) + "/models/"@ + resolved_model_name(
            config.model_config.use_latest,
            config.model_config.model@,
            match model {
                Some(m) => Some(m@),
                None => None::<Seq<char>>,
            },
        ) + ":"@ + method@,
{
    let mut url = config.base_url.clone();
    url.append("/");
    url.append(config.api_version.as_str());
    url.append("/models/");
    let model_name = config.get_model_name(model);
    url.append(model_name.as_str());
    url.append(":");
    url.append(method);
    url
}

} // verus!
