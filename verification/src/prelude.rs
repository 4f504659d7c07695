//! Convenient imports for the most commonly used items.

pub use crate::client::GeminiClientBuilder;
pub use crate::functions::{FunctionBuilder, Tool};
pub use crate::grounding::GroundingBuilder;
pub use crate::models::{
    Content, GenerateContentRequest, GenerateContentResponse, GenerationConfig, Part,
    ResponseSchema, Role, SchemaType,
};
pub use crate::thinking::ThinkingExt;
