//! Grounding support: search and URL-context tool configuration, the
//! metadata that grounded responses carry, and a builder for choosing a
//! grounding setup.

use vstd::prelude::*;
use crate::functions::Tool;

verus! {

/// Configuration for grounding tools.
#[derive(Debug, Clone, PartialEq)]
pub enum GroundingConfig {
    /// Google Search grounding.
    Search(SearchGrounding),
    /// URL context grounding.
    UrlContext(UrlContext),
    /// Both search and URL context.
    Combined {
        /// Google Search grounding configuration.
        search: SearchGrounding,
        /// URL context configuration.
        url_context: UrlContext,
    },
}

/// Google Search grounding configuration.
#[derive(Debug, Clone, Copy, PartialEq)]
pub struct SearchGrounding {
    /// Dynamic retrieval configuration.
    pub dynamic_retrieval_config: Option<DynamicRetrievalConfig>,
}

impl Default for SearchGrounding {
    /// Plain search grounding with no dynamic retrieval.
    fn default() -> (r: Self)
        ensures
            r.dynamic_retrieval_config is None,
    {
        SearchGrounding { dynamic_retrieval_config: None }
    }
}

/// URL context configuration.
#[derive(Debug, Clone, Copy, PartialEq)]
pub struct UrlContext {
    /// Maximum number of URLs to process (absent means the service default of
    /// 20).
    pub max_urls: Option<u32>,
}

impl Default for UrlContext {
    /// URL context with the service's default URL budget.
    fn default() -> (r: Self)
        ensures
            r.max_urls is None,
    {
        UrlContext { max_urls: None }
    }
}

/// Dynamic retrieval configuration for search grounding.
#[derive(Debug, Clone, Copy, PartialEq)]
pub struct DynamicRetrievalConfig {
    /// Mode for dynamic retrieval.
    pub mode: DynamicRetrievalMode,
    /// Threshold for dynamic retrieval, in thousandths (0 to 1000).
    pub dynamic_threshold: Option<u32>,
}

/// Mode for dynamic retrieval behavior.
#[derive(Debug, Clone, Copy, PartialEq, Eq, Structural)]
pub enum DynamicRetrievalMode {
    /// Always use grounding.
    ModeUnspecified,
    /// Dynamically decide based on threshold.
    ModeDynamic,
}

/// Metadata returned with grounded responses.
#[derive(Debug, Clone, PartialEq)]
pub struct GroundingMetadata {
    /// Search queries used for grounding.
    pub web_search_queries: Option<Vec<String>>,
    /// Search entry point for rendering.
    pub search_entry_point: Option<SearchEntryPoint>,
    /// Grounding chunks found.
    pub grounding_chunks: Option<Vec<GroundingChunk>>,
    /// Grounding support segments.
    pub grounding_supports: Option<Vec<GroundingSupport>>,
}

/// Search entry point for rendering search suggestions.
#[derive(Debug, Clone, PartialEq)]
pub struct SearchEntryPoint {
    /// Rendered content for search suggestions.
    pub rendered_content: String,
}

/// A chunk of grounding information.
#[derive(Debug, Clone, PartialEq)]
pub struct GroundingChunk {
    /// Web source.
    pub web: Option<WebSource>,
}

/// Web source information.
#[derive(Debug, Clone, PartialEq)]
pub struct WebSource {
    /// URI of the web source.
    pub uri: String,
    /// Title of the web source.
    pub title: String,
    /// Domain of the web source.
    pub domain: Option<String>,
}

/// Grounding support information for text segments.
#[derive(Debug, Clone, PartialEq)]
pub struct GroundingSupport {
    /// Text segment that was grounded.
    pub segment: Option<TextSegment>,
    /// Indices of grounding chunks that support this segment.
    pub grounding_chunk_indices: Option<Vec<i32>>,
    /// Confidence scores for the grounding, in thousandths (0 to 1000).
    pub confidence_scores: Option<Vec<u32>>,
}

/// A segment of text that was grounded.
#[derive(Debug, Clone, PartialEq)]
pub struct TextSegment {
    /// Starting index of the text segment.
    pub start_index: Option<i32>,
    /// Ending index of the text segment.
    pub end_index: Option<i32>,
    /// The text content of the segment.
    pub text: String,
}

/// URL context metadata.
#[derive(Debug, Clone, PartialEq)]
pub struct UrlContextMetadata {
    /// Metadata about URLs that were processed.
    pub url_metadata: Vec<UrlMetadata>,
}

/// Metadata about a processed URL.
#[derive(Debug, Clone, PartialEq)]
pub struct UrlMetadata {
    /// The URL that was retrieved.
    pub retrieved_url: String,
    /// Status of URL retrieval.
    pub url_retrieval_status: UrlRetrievalStatus,
}

/// Status of URL retrieval for grounding.
#[derive(Debug, Clone, Copy, PartialEq, Eq, Structural)]
pub enum UrlRetrievalStatus {
    /// URL was successfully retrieved.
    Success,
    /// Error occurred during URL retrieval.
    Error,
    /// URL was unreachable.
    Unreachable,
}

impl GroundingConfig {
    /// Convert the grounding configuration to the tools it stands for: the
    /// search tool, the URL-context tool, or both in that order.
    pub fn to_tools(&self) -> (r: Vec<Tool>)
        ensures
            (*self) matches GroundingConfig::Search(s) ==> r@ == seq![Tool::GoogleSearch(s)],
            (*self) matches GroundingConfig::UrlContext(u) ==> r@ == seq![Tool::UrlContext(u)],
            (*self) matches GroundingConfig::Combined { search, url_context } ==> r@ == seq![
                Tool::GoogleSearch(search),
                Tool::UrlContext(url_context),
            ],
    {
        match self {
            GroundingConfig::Search(search) => {
                let mut tools: Vec<Tool> = Vec::new();
                tools.push(Tool::GoogleSearch(search.clone()));
                proof {
                    assert(tools@ =~= seq![Tool::GoogleSearch(*search)]);
                }
                tools
            },
            GroundingConfig::UrlContext(url_context) => {
                let mut tools: Vec<Tool> = Vec::new();
                tools.push(Tool::UrlContext(url_context.clone()));
                proof {
                    assert(tools@ =~= seq![Tool::UrlContext(*url_context)]);
                }
                tools
            },
            GroundingConfig::Combined { search, url_context } => {
                let mut tools: Vec<Tool> = Vec::new();
                tools.push(Tool::GoogleSearch(search.clone()));
                tools.push(Tool::UrlContext(url_context.clone()));
                proof {
                    assert(tools@ =~= seq![
                        Tool::GoogleSearch(*search),
                        Tool::UrlContext(*url_context),
                    ]);
                }
                tools
            },
        }
    }
}

/// Builder for grounding configuration.
#[derive(Debug, Clone, PartialEq)]
pub struct GroundingBuilder {
    /// The search grounding chosen so far, if any.
    pub search: Option<SearchGrounding>,
    /// The URL context chosen so far, if any.
    pub url_context: Option<UrlContext>,
}

impl Default for GroundingBuilder {
    /// Same as [`GroundingBuilder::new`].
    fn default() -> (r: Self)
        ensures
            r.search is None,
            r.url_context is None,
    {
        GroundingBuilder::new()
    }
}

impl GroundingBuilder {
    /// Create a new grounding builder with nothing chosen.
    pub fn new() -> (r: Self)
        ensures
            r.search is None,
            r.url_context is None,
    {
        GroundingBuilder { search: None, url_context: None }
    }

    /// Enable Google Search grounding.
    pub fn with_search(self) -> (r: Self)
        ensures
            r.search matches Some(s) && s.dynamic_retrieval_config is None,
            r.url_context == self.url_context,
    {
        GroundingBuilder { search: Some(SearchGrounding::default()), ..self }
    }

    /// Enable Google Search with dynamic retrieval at the given threshold (in
    /// thousandths).
    pub fn with_dynamic_search(self, threshold: u32) -> (r: Self)
        ensures
            r.search == Some(
                SearchGrounding {
                    dynamic_retrieval_config: Some(
                        DynamicRetrievalConfig {
                            mode: DynamicRetrievalMode::ModeDynamic,
                            dynamic_threshold: Some(threshold),
                        },
                    ),
                },
            ),
            r.url_context == self.url_context,
    {
        GroundingBuilder {
            search: Some(
                SearchGrounding {
                    dynamic_retrieval_config: Some(
                        DynamicRetrievalConfig {
                            mode: DynamicRetrievalMode::ModeDynamic,
                            dynamic_threshold: Some(threshold),
                        },
                    ),
                },
            ),
            ..self
        }
    }

    /// Enable URL context.
    pub fn with_url_context(self) -> (r: Self)
        ensures
            r.url_context matches Some(u) && u.max_urls is None,
            r.search == self.search,
    {
        GroundingBuilder { url_context: Some(UrlContext::default()), ..self }
    }

    /// Set the maximum number of URLs for context. Does nothing unless URL
    /// context was enabled first.
    pub fn max_urls(self, max: u32) -> (r: Self)
        ensures
            self.url_context is Some ==> r.url_context == Some(UrlContext { max_urls: Some(max) }),
            self.url_context is None ==> r.url_context is None,
            r.search == self.search,
    {
        match self.url_context {
            Some(_) => GroundingBuilder {
                url_context: Some(UrlContext { max_urls: Some(max) }),
                ..self
            },
            None => self,
        }
    }

    /// Build the grounding configuration: both tools when both were chosen,
    /// one when one was, nothing when neither.
    pub fn build(self) -> (r: Option<GroundingConfig>)
        ensures
            r == match (self.search, self.url_context) {
                (Some(search), Some(url_context)) => Some(
                    GroundingConfig::Combined { search, url_context },
                ),
                (Some(search), None) => Some(GroundingConfig::Search(search)),
                (None, Some(url_context)) => Some(GroundingConfig::UrlContext(url_context)),
                (None, None) => None::<GroundingConfig>,
            },
    {
        match (self.search, self.url_context) {
            (Some(search), Some(url_context)) => Some(
                GroundingConfig::Combined { search, url_context },
            ),
            (Some(search), None) => Some(GroundingConfig::Search(search)),
            (None, Some(url_context)) => Some(GroundingConfig::UrlContext(url_context)),
            (None, None) => None,
        }
    }
}

} // verus!
