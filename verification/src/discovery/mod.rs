//! Factor discovery: prompts for a language model, the decisions of the
//! client that talks to it, and the extraction of its answers.

pub mod llm_client;
pub mod prompt_builder;
pub mod refiner;

pub use llm_client::{ChatMessage, LlmError, LlmResponse, TokenUsage};
pub use prompt_builder::{AssetClass, PromptBuilder, PromptConfig};
