//! Factor expression tooling for alpha-factor discovery.

use vstd::prelude::*;

pub mod text;
pub mod parser;
pub mod discovery;
pub mod evaluation;
pub mod utils;

pub use discovery::{ChatMessage, LlmError, LlmResponse, PromptBuilder};
pub use evaluation::IcCalculator;
pub use parser::{
    FactorExpr, FactorExprError, FactorFunction, FactorLexer, FactorValidator, Token,
    ValidationResult,
};

verus! {

/// Maximum factor expression depth
pub const MAX_EXPRESSION_DEPTH: usize = 10;

/// Default lookback period for factor calculation (days)
pub const DEFAULT_LOOKBACK_DAYS: usize = 252;

} // verus!
