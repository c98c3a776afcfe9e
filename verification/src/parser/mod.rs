//! Factor expression parsing: lexer, parser and validator.
//!
//! Expressions such as `rank(ts_mean(returns(close, 5), 20))` or
//! `zscore(correlation(returns(close, 1), volume, 60))` are parsed into an
//! AST, which the validator checks against the known data fields.

pub mod expression;
pub mod lexer;
pub mod number;
pub mod validator;
pub mod display;
pub mod names;

pub use expression::{FactorExpr, FactorExprError, FactorFunction};
pub use lexer::{FactorLexer, LexerError, Token, TokenKind};
pub use validator::{FactorValidator, ValidationError, ValidationResult, ValidatorConfig};
