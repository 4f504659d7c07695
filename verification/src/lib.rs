//! Client-side core for a generative-content HTTP API: a resilient request
//! execution engine (error taxonomy, exponential backoff, retry loop) and an
//! incremental streaming decoder (splitting a delimiter-less byte stream into
//! JSON documents and stitching their text fragments together), plus the plain
//! data model that requests and responses are built from.

pub mod cache;
pub mod client;
pub mod config;
pub mod error;
pub mod functions;
pub mod grounding;
pub mod models;
pub mod prelude;
pub mod retry;
pub mod streaming;
pub mod text;
pub mod thinking;

pub use cache::{calculate_optimal_ttl, CacheConfig};
pub use client::GeminiClientBuilder;
pub use config::{ApiVersion, GeminiConfig, HttpConfig, ModelConfig, RetryConfig};
pub use error::Error;
pub use functions::{FunctionBuilder, FunctionCall, FunctionDeclaration, FunctionResponse, Tool};
pub use grounding::{GroundingBuilder, GroundingConfig, SearchGrounding, UrlContext};
pub use models::{
    BlockReason, Candidate, CitationMetadata, CitationSource, Content, CountTokensRequest,
    CountTokensResponse, FileData, FinishReason, GenerateContentRequest, GenerateContentResponse,
    GenerationConfig, HarmBlockThreshold, HarmCategory, HarmProbability, InlineData, Part,
    PromptFeedback, ResponseSchema, Role, SafetyRating, SafetySetting, SchemaType,
    StructuredOutput, UsageMetadata,
};
pub use streaming::{StreamAccumulator, StreamDecoder};
pub use thinking::{ThinkingBudget, ThinkingConfig, ThinkingExt};
