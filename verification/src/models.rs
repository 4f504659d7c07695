//! The request and response data model: conversation content, generation
//! settings, response candidates and their metadata. Plain data with exact
//! construction contracts; fractional settings are carried in thousandths.

use vstd::prelude::*;
use crate::functions::{FunctionCall, FunctionResponse, Tool, ToolConfig};
use crate::grounding::{GroundingMetadata, UrlContextMetadata};
use crate::thinking::ThinkingConfig;

verus! {

/// Role in a conversation.
#[derive(Debug, Clone, Copy, PartialEq, Eq, Structural)]
pub enum Role {
    /// User/human input.
    User,
    /// Model/AI response.
    Model,
    /// System instruction.
    System,
}

/// Content part types.
#[derive(Debug, Clone, PartialEq)]
pub enum Part {
    /// Text content part.
    Text {
        /// Text content as a string.
        text: String,
    },
    /// Inline data part (base64 encoded).
    InlineData {
        /// Inline data with base64 encoded content.
        inline_data: InlineData,
    },
    /// File data part (file URI reference).
    FileData {
        /// File data with URI reference.
        file_data: FileData,
    },
    /// Function call part.
    FunctionCall {
        /// Function call data.
        function_call: FunctionCall,
    },
    /// Function response part.
    FunctionResponse {
        /// Function response data.
        function_response: FunctionResponse,
    },
}

/// Inline data with base64 encoded content.
#[derive(Debug, Clone, PartialEq)]
pub struct InlineData {
    /// MIME type of the data.
    pub mime_type: String,
    /// Base64 encoded data.
    pub data: String,
}

/// File data with URI reference.
#[derive(Debug, Clone, PartialEq)]
pub struct FileData {
    /// MIME type of the file.
    pub mime_type: String,
    /// URI reference to the file.
    pub file_uri: String,
}

/// Content in a conversation.
#[derive(Debug, Clone, PartialEq)]
pub struct Content {
    /// Role of the content creator.
    pub role: Role,
    /// Parts that make up the content.
    pub parts: Vec<Part>,
}

/// `content` is a single text part under `role` with text `text`.
pub open spec fn is_text_content(content: Content, role: Role, text: Seq<char>) -> bool {
    &&& content.role == role
    &&& content.parts@.len() == 1
    &&& (content.parts@[0] matches Part::Text { text: t } && t@ == text)
}

impl Content {
    /// Create user content with text.
    pub fn user(text: &str) -> (r: Self)
        ensures
            is_text_content(r, Role::User, text@),
    {
        let mut parts: Vec<Part> = Vec::new();
        parts.push(Part::Text { text: text.to_owned() });
        Content { role: Role::User, parts }
    }

    /// Create model content with text.
    pub fn model(text: &str) -> (r: Self)
        ensures
            is_text_content(r, Role::Model, text@),
    {
        let mut parts: Vec<Part> = Vec::new();
        parts.push(Part::Text { text: text.to_owned() });
        Content { role: Role::Model, parts }
    }

    /// Create system content with text.
    pub fn system(text: &str) -> (r: Self)
        ensures
            is_text_content(r, Role::System, text@),
    {
        let mut parts: Vec<Part> = Vec::new();
        parts.push(Part::Text { text: text.to_owned() });
        Content { role: Role::System, parts }
    }
}

/// Generation configuration. Fractional settings (temperature, nucleus
/// sampling, penalties) are carried in thousandths of their conventional
/// unit-interval values.
#[derive(Debug)]
pub struct GenerationConfig {
    /// Controls randomness in output, in thousandths (0 to 1000).
    pub temperature: Option<u32>,
    /// Nucleus sampling parameter, in thousandths (0 to 1000).
    pub top_p: Option<u32>,
    /// Top-k sampling parameter.
    pub top_k: Option<i32>,
    /// Number of response candidates to generate.
    pub candidate_count: Option<i32>,
    /// Maximum number of tokens to generate.
    pub max_output_tokens: Option<i32>,
    /// Sequences that will stop generation.
    pub stop_sequences: Option<Vec<String>>,
    /// MIME type for the response format.
    pub response_mime_type: Option<String>,
    /// Schema for structured output.
    pub response_schema: Option<ResponseSchema>,
    /// Penalty for repeated presence, in thousandths (-2000 to 2000).
    pub presence_penalty: Option<i32>,
    /// Penalty for repeated frequency, in thousandths (-2000 to 2000).
    pub frequency_penalty: Option<i32>,
    /// Whether to return log probabilities.
    pub response_logprobs: Option<bool>,
    /// Number of top logprobs to return.
    pub logprobs: Option<i32>,
    /// Configuration for thinking/reasoning behavior.
    pub thinking_config: Option<ThinkingConfig>,
}

impl GenerationConfig {
    /// Every setting is left to the service.
    pub open spec fn is_unset(self) -> bool {
        &&& self.temperature is None
        &&& self.top_p is None
        &&& self.top_k is None
        &&& self.candidate_count is None
        &&& self.max_output_tokens is None
        &&& self.stop_sequences is None
        &&& self.response_mime_type is None
        &&& self.response_schema is None
        &&& self.presence_penalty is None
        &&& self.frequency_penalty is None
        &&& self.response_logprobs is None
        &&& self.logprobs is None
        &&& self.thinking_config is None
    }
}

impl Default for GenerationConfig {
    /// A configuration with every setting left to the service.
    fn default() -> (r: Self)
        ensures
            r.is_unset(),
    {
        GenerationConfig {
            temperature: None,
            top_p: None,
            top_k: None,
            candidate_count: None,
            max_output_tokens: None,
            stop_sequences: None,
            response_mime_type: None,
            response_schema: None,
            presence_penalty: None,
            frequency_penalty: None,
            response_logprobs: None,
            logprobs: None,
            thinking_config: None,
        }
    }
}

/// Response schema for structured output.
#[derive(Debug)]
pub struct ResponseSchema {
    /// The type of this schema.
    pub schema_type: SchemaType,
    /// Format constraint for the schema.
    pub format: Option<String>,
    /// Description of this schema.
    pub description: Option<String>,
    /// Whether this field can be null.
    pub nullable: Option<bool>,
    /// Allowed enum values.
    pub enum_values: Option<Vec<String>>,
    /// Properties for object types, each a name paired with its schema.
    pub properties: Option<Vec<(String, ResponseSchema)>>,
    /// Required property names.
    pub required: Option<Vec<String>>,
    /// Ordering of properties.
    pub property_ordering: Option<Vec<String>>,
    /// Schema for array items.
    pub items: Option<Box<ResponseSchema>>,
    /// Minimum number of array items.
    pub min_items: Option<i32>,
    /// Maximum number of array items.
    pub max_items: Option<i32>,
}

/// JSON schema data types.
#[derive(Debug, Clone, Copy, PartialEq, Eq, Structural)]
pub enum SchemaType {
    /// String type.
    String,
    /// Integer type.
    Integer,
    /// Number type.
    Number,
    /// Boolean type.
    Boolean,
    /// Array type.
    Array,
    /// Object type.
    Object,
}

/// Safety settings.
#[derive(Debug, Clone, PartialEq)]
pub struct SafetySetting {
    /// Category of harmful content.
    pub category: HarmCategory,
    /// Threshold for blocking content.
    pub threshold: HarmBlockThreshold,
}

/// Categories of harmful content.
#[derive(Debug, Clone, Copy, PartialEq, Eq, Structural)]
pub enum HarmCategory {
    /// Hate speech content.
    HateSpeech,
    /// Dangerous content.
    DangerousContent,
    /// Sexually explicit content.
    SexuallyExplicit,
    /// Harassment content.
    Harassment,
}

/// Thresholds for blocking harmful content.
#[derive(Debug, Clone, Copy, PartialEq, Eq, Structural)]
pub enum HarmBlockThreshold {
    /// Block no content.
    BlockNone,
    /// Block only high-probability harmful content.
    BlockOnlyHigh,
    /// Block medium and high-probability harmful content.
    BlockMediumAndAbove,
    /// Block low, medium, and high-probability harmful content.
    BlockLowAndAbove,
}

/// Main request structure.
#[derive(Debug)]
pub struct GenerateContentRequest {
    /// Input content for generation.
    pub contents: Vec<Content>,
    /// System instruction for the model.
    pub system_instruction: Option<Content>,
    /// Available tools for function calling.
    pub tools: Option<Vec<Tool>>,
    /// Configuration for tool usage.
    pub tool_config: Option<ToolConfig>,
    /// Safety settings for content filtering.
    pub safety_settings: Option<Vec<SafetySetting>>,
    /// Configuration for generation behavior.
    pub generation_config: Option<GenerationConfig>,
    /// Reference to cached content.
    pub cached_content: Option<String>,
}

impl GenerateContentRequest {
    /// Nothing has been filled in.
    pub open spec fn is_unset(self) -> bool {
        &&& self.contents@.len() == 0
        &&& self.system_instruction is None
        &&& self.tools is None
        &&& self.tool_config is None
        &&& self.safety_settings is None
        &&& self.generation_config is None
        &&& self.cached_content is None
    }
}

impl Default for GenerateContentRequest {
    /// An empty request: no contents and nothing configured.
    fn default() -> (r: Self)
        ensures
            r.is_unset(),
    {
        GenerateContentRequest {
            contents: Vec::new(),
            system_instruction: None,
            tools: None,
            tool_config: None,
            safety_settings: None,
            generation_config: None,
            cached_content: None,
        }
    }
}

/// Response structure.
#[derive(Debug, Clone, PartialEq)]
pub struct GenerateContentResponse {
    /// Generated response candidates.
    pub candidates: Vec<Candidate>,
    /// Feedback about the prompt.
    pub prompt_feedback: Option<PromptFeedback>,
    /// Token usage information.
    pub usage_metadata: Option<UsageMetadata>,
}

/// A response candidate.
#[derive(Debug, Clone, PartialEq)]
pub struct Candidate {
    /// Generated content.
    pub content: Content,
    /// Reason for finishing generation.
    pub finish_reason: Option<FinishReason>,
    /// Safety ratings for the content.
    pub safety_ratings: Option<Vec<SafetyRating>>,
    /// Citation information.
    pub citation_metadata: Option<CitationMetadata>,
    /// Grounding metadata for search results.
    pub grounding_metadata: Option<GroundingMetadata>,
    /// URL context metadata.
    pub url_context_metadata: Option<UrlContextMetadata>,
}

/// Reasons for finishing content generation.
#[derive(Debug, Clone, Copy, PartialEq, Eq, Structural)]
pub enum FinishReason {
    /// Natural stopping point.
    Stop,
    /// Reached maximum token limit.
    MaxTokens,
    /// Stopped due to safety concerns.
    Safety,
    /// Stopped due to recitation concerns.
    Recitation,
    /// Other reason.
    Other,
}

/// Feedback about the prompt before generation.
#[derive(Debug, Clone, PartialEq)]
pub struct PromptFeedback {
    /// Reason for blocking the prompt.
    pub block_reason: Option<BlockReason>,
    /// Safety ratings for the prompt.
    pub safety_ratings: Option<Vec<SafetyRating>>,
}

/// Reasons why content was blocked.
#[derive(Debug, Clone, Copy, PartialEq, Eq, Structural)]
pub enum BlockReason {
    /// Unspecified reason.
    Unspecified,
    /// Safety violation.
    Safety,
    /// Other reason.
    Other,
}

/// Safety rating for content.
#[derive(Debug, Clone, PartialEq)]
pub struct SafetyRating {
    /// Category of potential harm.
    pub category: HarmCategory,
    /// Probability of harm.
    pub probability: HarmProbability,
}

/// Probability levels for harmful content.
#[derive(Debug, Clone, Copy, PartialEq, Eq, Structural)]
pub enum HarmProbability {
    /// Negligible probability.
    Negligible,
    /// Low probability.
    Low,
    /// Medium probability.
    Medium,
    /// High probability.
    High,
}

/// Token usage metadata.
#[derive(Debug, Clone, PartialEq)]
pub struct UsageMetadata {
    /// Number of tokens in the prompt.
    pub prompt_token_count: i32,
    /// Number of tokens in the candidates.
    pub candidates_token_count: i32,
    /// Total number of tokens used.
    pub total_token_count: i32,
    /// Number of tokens from cached content.
    pub cached_content_token_count: Option<i32>,
}

/// Citation metadata for generated content.
#[derive(Debug, Clone, PartialEq)]
pub struct CitationMetadata {
    /// List of citation sources.
    pub citation_sources: Vec<CitationSource>,
}

/// Source of a citation.
#[derive(Debug, Clone, PartialEq)]
pub struct CitationSource {
    /// Starting index of the citation.
    pub start_index: Option<i32>,
    /// Ending index of the citation.
    pub end_index: Option<i32>,
    /// URI of the source.
    pub uri: Option<String>,
    /// License information.
    pub license: Option<String>,
}

/// Request for counting tokens.
#[derive(Debug, Clone, PartialEq)]
pub struct CountTokensRequest {
    /// Content to count tokens for.
    pub contents: Vec<Content>,
}

/// Response from token counting API.
#[derive(Debug, Clone, PartialEq)]
pub struct CountTokensResponse {
    /// Total number of tokens in the provided content.
    pub total_tokens: i32,
}

/// Builder for structured output.
#[derive(Debug, Clone, PartialEq)]
pub struct StructuredOutput;

impl StructuredOutput {
    /// Create a JSON schema for structured output: an object schema with an
    /// empty property list ready to be filled in.
    pub fn json_schema() -> (r: ResponseSchema)
        ensures
            r.schema_type == SchemaType::Object,
            r.format is None,
            r.description is None,
            r.nullable is None,
            r.enum_values is None,
            (r.properties matches Some(p) && p@.len() == 0),
            r.required is None,
            r.property_ordering is None,
            r.items is None,
            r.min_items is None,
            r.max_items is None,
    {
        ResponseSchema {
            schema_type: SchemaType::Object,
            format: None,
            description: None,
            nullable: None,
            enum_values: None,
            properties: Some(Vec::new()),
            required: None,
            property_ordering: None,
            items: None,
            min_items: None,
            max_items: None,
        }
    }

    /// Create an enum schema allowing exactly the given string values.
    pub fn enum_schema(values: Vec<String>) -> (r: ResponseSchema)
        ensures
            r.schema_type == SchemaType::String,
            r.format is None,
            r.description is None,
            r.nullable is None,
            r.enum_values == Some(values),
            r.properties is None,
            r.required is None,
            r.property_ordering is None,
            r.items is None,
            r.min_items is None,
            r.max_items is None,
    {
        ResponseSchema {
            schema_type: SchemaType::String,
            format: None,
            description: None,
            nullable: None,
            enum_values: Some(values),
            properties: None,
            required: None,
            property_ordering: None,
            items: None,
            min_items: None,
            max_items: None,
        }
    }
}

} // verus!
