//! Factor expression AST and parser
//!
//! Factor expressions are numbers, variables, or calls of the supported
//! functions, e.g. `rank(ts_mean(returns(close, 5), 20))`.

use vstd::prelude::*;
use vstd::string::*;
use crate::MAX_EXPRESSION_DEPTH;
use crate::text::{
    alphabetic, alphanumeric, byte_offset, is_alpha, lower_text, strings_of, chars_to_string,
    find_char, first_index, lemma_trim_idempotent, lemma_trim_len, range_eq_str, sat_usize, str_chars, to_lower,
    trim, trim_range, utf8_len, utf8_len_range,
};
use crate::parser::lexer::is_ident_char;
use crate::parser::number::{
    is_float_literal, is_float_literal_range, law_literal_text_is_canonical, literal_text,
    literal_to_string,
};

verus! {

/// Errors that can occur during factor expression parsing
#[derive(Debug, Clone)]
pub enum FactorExprError {
    UnexpectedToken(String),
    UnknownFunction(String),
    InvalidArgCount { function: String, expected: usize, got: usize },
    UnclosedParen,
    EmptyExpression,
    InvalidNumber(String),
    TooDeep(usize),
    ParseError { position: usize, message: String },
}

/// The mathematical content of a parse error.
pub enum SpecExprError {
    UnexpectedToken(Seq<char>),
    UnknownFunction(Seq<char>),
    InvalidArgCount { function: Seq<char>, expected: usize, got: usize },
    UnclosedParen,
    EmptyExpression,
    InvalidNumber(Seq<char>),
    TooDeep(usize),
    ParseError { position: usize, message: Seq<char> },
}

impl View for FactorExprError {
    type V = SpecExprError;

    open spec fn view(&self) -> SpecExprError {
        match self {
            FactorExprError::UnexpectedToken(s) => SpecExprError::UnexpectedToken(s@),
            FactorExprError::UnknownFunction(s) => SpecExprError::UnknownFunction(s@),
            FactorExprError::InvalidArgCount { function, expected, got } => {
                SpecExprError::InvalidArgCount {
                    function: function@,
                    expected: *expected,
                    got: *got,
                }
            },
            FactorExprError::UnclosedParen => SpecExprError::UnclosedParen,
            FactorExprError::EmptyExpression => SpecExprError::EmptyExpression,
            FactorExprError::InvalidNumber(s) => SpecExprError::InvalidNumber(s@),
            FactorExprError::TooDeep(d) => SpecExprError::TooDeep(*d),
            FactorExprError::ParseError { position, message } => SpecExprError::ParseError {
                position: *position,
                message: message@,
            },
        }
    }
}

/// Supported factor functions
#[derive(Debug, Clone, Copy, PartialEq, Eq, Structural)]
pub enum FactorFunction {
    // Cross-sectional operations
    Rank,
    Zscore,
    Scale,
    Demean,
    // Time series operations
    TsRank,
    TsSum,
    TsMean,
    TsStd,
    TsMin,
    TsMax,
    TsArgmax,
    TsArgmin,
    TsDelay,
    TsDelta,
    TsDecay,
    // Price-based
    Returns,
    LogReturns,
    Volatility,
    // Correlation/covariance
    Correlation,
    Covariance,
    // Mathematical operations
    Abs,
    Sign,
    Log,
    Sqrt,
    Power,
    // Comparison operations
    Max,
    Min,
    // Arithmetic operations
    Add,
    Sub,
    Mul,
    Div,
    // Conditional
    IfElse,
}

/// The function that a lowercase name denotes, with all accepted aliases.
pub open spec fn function_named(n: Seq<char>) -> Option<FactorFunction> {
    if n == "rank"@ {
        Some(FactorFunction::Rank)
    } else if n == "zscore"@ || n == "z_score"@ {
        Some(FactorFunction::Zscore)
    } else if n == "scale"@ {
        Some(FactorFunction::Scale)
    } else if n == "demean"@ {
        Some(FactorFunction::Demean)
    } else if n == "ts_rank"@ || n == "tsrank"@ {
        Some(FactorFunction::TsRank)
    } else if n == "ts_sum"@ || n == "tssum"@ {
        Some(FactorFunction::TsSum)
    } else if n == "ts_mean"@ || n == "tsmean"@ || n == "ts_avg"@ {
        Some(FactorFunction::TsMean)
    } else if n == "ts_std"@ || n == "tsstd"@ || n == "ts_stddev"@ {
        Some(FactorFunction::TsStd)
    } else if n == "ts_min"@ || n == "tsmin"@ {
        Some(FactorFunction::TsMin)
    } else if n == "ts_max"@ || n == "tsmax"@ {
        Some(FactorFunction::TsMax)
    } else if n == "ts_argmax"@ || n == "tsargmax"@ {
        Some(FactorFunction::TsArgmax)
    } else if n == "ts_argmin"@ || n == "tsargmin"@ {
        Some(FactorFunction::TsArgmin)
    } else if n == "ts_delay"@ || n == "delay"@ || n == "lag"@ {
        Some(FactorFunction::TsDelay)
    } else if n == "ts_delta"@ || n == "delta"@ {
        Some(FactorFunction::TsDelta)
    } else if n == "ts_decay"@ || n == "decay_linear"@ {
        Some(FactorFunction::TsDecay)
    } else if n == "returns"@ || n == "return"@ || n == "ret"@ {
        Some(FactorFunction::Returns)
    } else if n == "log_returns"@ || n == "logreturns"@ || n == "logret"@ {
        Some(FactorFunction::LogReturns)
    } else if n == "volatility"@ || n == "vol"@ || n == "std"@ {
        Some(FactorFunction::Volatility)
    } else if n == "correlation"@ || n == "corr"@ {
        Some(FactorFunction::Correlation)
    } else if n == "covariance"@ || n == "cov"@ {
        Some(FactorFunction::Covariance)
    } else if n == "abs"@ {
        Some(FactorFunction::Abs)
    } else if n == "sign"@ || n == "signum"@ {
        Some(FactorFunction::Sign)
    } else if n == "log"@ || n == "ln"@ {
        Some(FactorFunction::Log)
    } else if n == "sqrt"@ {
        Some(FactorFunction::Sqrt)
    } else if n == "power"@ || n == "pow"@ {
        Some(FactorFunction::Power)
    } else if n == "max"@ {
        Some(FactorFunction::Max)
    } else if n == "min"@ {
        Some(FactorFunction::Min)
    } else if n == "add"@ {
        Some(FactorFunction::Add)
    } else if n == "sub"@ {
        Some(FactorFunction::Sub)
    } else if n == "mul"@ {
        Some(FactorFunction::Mul)
    } else if n == "div"@ {
        Some(FactorFunction::Div)
    } else if n == "if"@ || n == "ifelse"@ || n == "if_else"@ {
        Some(FactorFunction::IfElse)
    } else {
        None
    }
}

/// `(min_args, max_args)` of a function.
pub open spec fn arg_range(f: FactorFunction) -> (usize, usize) {
    match f {
        FactorFunction::Rank | FactorFunction::Zscore | FactorFunction::Scale
        | FactorFunction::Demean => (1, 1),
        FactorFunction::Abs | FactorFunction::Sign | FactorFunction::Log
        | FactorFunction::Sqrt => (1, 1),
        FactorFunction::Correlation | FactorFunction::Covariance => (3, 3),
        FactorFunction::IfElse => (3, 3),
        _ => (2, 2),
    }
}

/// The canonical name of a function, as it is displayed.
pub open spec fn function_display(f: FactorFunction) -> Seq<char> {
    match f {
        FactorFunction::Rank => "rank"@,
        FactorFunction::Zscore => "zscore"@,
        FactorFunction::Scale => "scale"@,
        FactorFunction::Demean => "demean"@,
        FactorFunction::TsRank => "ts_rank"@,
        FactorFunction::TsSum => "ts_sum"@,
        FactorFunction::TsMean => "ts_mean"@,
        FactorFunction::TsStd => "ts_std"@,
        FactorFunction::TsMin => "ts_min"@,
        FactorFunction::TsMax => "ts_max"@,
        FactorFunction::TsArgmax => "ts_argmax"@,
        FactorFunction::TsArgmin => "ts_argmin"@,
        FactorFunction::TsDelay => "ts_delay"@,
        FactorFunction::TsDelta => "ts_delta"@,
        FactorFunction::TsDecay => "ts_decay"@,
        FactorFunction::Returns => "returns"@,
        FactorFunction::LogReturns => "log_returns"@,
        FactorFunction::Volatility => "volatility"@,
        FactorFunction::Correlation => "correlation"@,
        FactorFunction::Covariance => "covariance"@,
        FactorFunction::Abs => "abs"@,
        FactorFunction::Sign => "sign"@,
        FactorFunction::Log => "log"@,
        FactorFunction::Sqrt => "sqrt"@,
        FactorFunction::Power => "power"@,
        FactorFunction::Max => "max"@,
        FactorFunction::Min => "min"@,
        FactorFunction::Add => "add"@,
        FactorFunction::Sub => "sub"@,
        FactorFunction::Mul => "mul"@,
        FactorFunction::Div => "div"@,
        FactorFunction::IfElse => "if_else"@,
    }
}

impl FactorFunction {
    /// Parse function name from string (case-insensitively, with aliases).
    pub fn from_str(s: &str) -> (r: Option<Self>)
        ensures
            r == function_named(lower_text(s@)),
    {
        let lower = to_lower(s);
        Self::from_lowercase_name(lower.as_str())
    }

    /// The function that an already lowercased name denotes.
    pub fn from_lowercase_name(name: &str) -> (r: Option<Self>)
        ensures
            r == function_named(name@),
    {
        let v = str_chars(name);
        let n = v.len();
        assert(v@.subrange(0, n as int) =~= name@);
        if range_eq_str(&v, 0, n, "rank") {
            Some(Self::Rank)
        } else if range_eq_str(&v, 0, n, "zscore") || range_eq_str(&v, 0, n, "z_score") {
            Some(Self::Zscore)
        } else if range_eq_str(&v, 0, n, "scale") {
            Some(Self::Scale)
        } else if range_eq_str(&v, 0, n, "demean") {
            Some(Self::Demean)
        } else if range_eq_str(&v, 0, n, "ts_rank") || range_eq_str(&v, 0, n, "tsrank") {
            Some(Self::TsRank)
        } else if range_eq_str(&v, 0, n, "ts_sum") || range_eq_str(&v, 0, n, "tssum") {
            Some(Self::TsSum)
        } else if range_eq_str(&v, 0, n, "ts_mean") || range_eq_str(&v, 0, n, "tsmean")
            || range_eq_str(&v, 0, n, "ts_avg") {
            Some(Self::TsMean)
        } else if range_eq_str(&v, 0, n, "ts_std") || range_eq_str(&v, 0, n, "tsstd")
            || range_eq_str(&v, 0, n, "ts_stddev") {
            Some(Self::TsStd)
        } else if range_eq_str(&v, 0, n, "ts_min") || range_eq_str(&v, 0, n, "tsmin") {
            Some(Self::TsMin)
        } else if range_eq_str(&v, 0, n, "ts_max") || range_eq_str(&v, 0, n, "tsmax") {
            Some(Self::TsMax)
        } else if range_eq_str(&v, 0, n, "ts_argmax") || range_eq_str(&v, 0, n, "tsargmax") {
            Some(Self::TsArgmax)
        } else if range_eq_str(&v, 0, n, "ts_argmin") || range_eq_str(&v, 0, n, "tsargmin") {
            Some(Self::TsArgmin)
        } else if range_eq_str(&v, 0, n, "ts_delay") || range_eq_str(&v, 0, n, "delay")
            || range_eq_str(&v, 0, n, "lag") {
            Some(Self::TsDelay)
        } else if range_eq_str(&v, 0, n, "ts_delta") || range_eq_str(&v, 0, n, "delta") {
            Some(Self::TsDelta)
        } else if range_eq_str(&v, 0, n, "ts_decay") || range_eq_str(&v, 0, n, "decay_linear") {
            Some(Self::TsDecay)
        } else if range_eq_str(&v, 0, n, "returns") || range_eq_str(&v, 0, n, "return")
            || range_eq_str(&v, 0, n, "ret") {
            Some(Self::Returns)
        } else if range_eq_str(&v, 0, n, "log_returns") || range_eq_str(&v, 0, n, "logreturns")
            || range_eq_str(&v, 0, n, "logret") {
            Some(Self::LogReturns)
        } else if range_eq_str(&v, 0, n, "volatility") || range_eq_str(&v, 0, n, "vol")
            || range_eq_str(&v, 0, n, "std") {
            Some(Self::Volatility)
        } else if range_eq_str(&v, 0, n, "correlation") || range_eq_str(&v, 0, n, "corr") {
            Some(Self::Correlation)
        } else if range_eq_str(&v, 0, n, "covariance") || range_eq_str(&v, 0, n, "cov") {
            Some(Self::Covariance)
        } else if range_eq_str(&v, 0, n, "abs") {
            Some(Self::Abs)
        } else if range_eq_str(&v, 0, n, "sign") || range_eq_str(&v, 0, n, "signum") {
            Some(Self::Sign)
        } else if range_eq_str(&v, 0, n, "log") || range_eq_str(&v, 0, n, "ln") {
            Some(Self::Log)
        } else if range_eq_str(&v, 0, n, "sqrt") {
            Some(Self::Sqrt)
        } else if range_eq_str(&v, 0, n, "power") || range_eq_str(&v, 0, n, "pow") {
            Some(Self::Power)
        } else if range_eq_str(&v, 0, n, "max") {
            Some(Self::Max)
        } else if range_eq_str(&v, 0, n, "min") {
            Some(Self::Min)
        } else if range_eq_str(&v, 0, n, "add") {
            Some(Self::Add)
        } else if range_eq_str(&v, 0, n, "sub") {
            Some(Self::Sub)
        } else if range_eq_str(&v, 0, n, "mul") {
            Some(Self::Mul)
        } else if range_eq_str(&v, 0, n, "div") {
            Some(Self::Div)
        } else if range_eq_str(&v, 0, n, "if") || range_eq_str(&v, 0, n, "ifelse")
            || range_eq_str(&v, 0, n, "if_else") {
            Some(Self::IfElse)
        } else {
            None
        }
    }

    /// Get the expected number of arguments for this function, as
    /// `(min_args, max_args)`.
    pub fn arg_count(&self) -> (r: (usize, usize))
        ensures
            r == arg_range(*self),
    {
        match self {
            // Unary operations
            Self::Rank | Self::Zscore | Self::Scale | Self::Demean => (1, 1),
            Self::Abs | Self::Sign | Self::Log | Self::Sqrt => (1, 1),
            // Binary operations
            Self::Add | Self::Sub | Self::Mul | Self::Div => (2, 2),
            Self::Max | Self::Min => (2, 2),
            Self::Power => (2, 2),
            // Time series operations with window
            Self::TsRank | Self::TsSum | Self::TsMean | Self::TsStd | Self::TsMin | Self::TsMax
            | Self::TsArgmax | Self::TsArgmin | Self::TsDelay | Self::TsDelta | Self::TsDecay => (
                2,
                2,
            ),
            // Price operations with period
            Self::Returns | Self::LogReturns | Self::Volatility => (2, 2),
            // Correlation with window
            Self::Correlation | Self::Covariance => (3, 3),
            // Conditional
            Self::IfElse => (3, 3),
        }
    }

    /// The canonical name of the function.
    pub fn to_string(&self) -> (r: String)
        ensures
            r@ == function_display(*self),
    {
        let s = match self {
            Self::Rank => "rank",
            Self::Zscore => "zscore",
            Self::Scale => "scale",
            Self::Demean => "demean",
            Self::TsRank => "ts_rank",
            Self::TsSum => "ts_sum",
            Self::TsMean => "ts_mean",
            Self::TsStd => "ts_std",
            Self::TsMin => "ts_min",
            Self::TsMax => "ts_max",
            Self::TsArgmax => "ts_argmax",
            Self::TsArgmin => "ts_argmin",
            Self::TsDelay => "ts_delay",
            Self::TsDelta => "ts_delta",
            Self::TsDecay => "ts_decay",
            Self::Returns => "returns",
            Self::LogReturns => "log_returns",
            Self::Volatility => "volatility",
            Self::Correlation => "correlation",
            Self::Covariance => "covariance",
            Self::Abs => "abs",
            Self::Sign => "sign",
            Self::Log => "log",
            Self::Sqrt => "sqrt",
            Self::Power => "power",
            Self::Max => "max",
            Self::Min => "min",
            Self::Add => "add",
            Self::Sub => "sub",
            Self::Mul => "mul",
            Self::Div => "div",
            Self::IfElse => "if_else",
        };
        s.to_owned()
    }
}

/// A factor expression AST node
#[derive(Debug, PartialEq)]
pub enum FactorExpr {
    /// A numeric constant, kept as the literal that was parsed
    Number(String),
    /// A variable reference (e.g., "close", "volume", "high")
    Variable(String),
    /// A function call with arguments
    Function { name: FactorFunction, args: Vec<FactorExpr> },
}

/// The mathematical content of an expression.
pub enum SpecExpr {
    Number(Seq<char>),
    Variable(Seq<char>),
    Function(FactorFunction, Seq<SpecExpr>),
}

impl View for FactorExpr {
    type V = SpecExpr;

    open spec fn view(&self) -> SpecExpr
        decreases self,
    {
        match self {
            FactorExpr::Number(s) => SpecExpr::Number(s@),
            FactorExpr::Variable(s) => SpecExpr::Variable(s@),
            FactorExpr::Function { name, args } => SpecExpr::Function(
                *name,
                Seq::new(
                    args@.len(),
                    |i: int|
                        if 0 <= i < args@.len() {
                            args@[i].view()
                        } else {
                            SpecExpr::Number(Seq::empty())
                        },
                ),
            ),
        }
    }
}

/// The views of a sequence of expressions.
pub open spec fn exprs_view(v: Seq<FactorExpr>) -> Seq<SpecExpr> {
    Seq::new(v.len(), |i: int| v[i]@)
}

pub open spec fn expr_result_view(r: Result<FactorExpr, FactorExprError>) -> Result<
    SpecExpr,
    SpecExprError,
> {
    match r {
        Ok(e) => Ok(e@),
        Err(x) => Err(x@),
    }
}

pub open spec fn exprs_result_view(r: Result<Vec<FactorExpr>, FactorExprError>) -> Result<
    Seq<SpecExpr>,
    SpecExprError,
> {
    match r {
        Ok(v) => Ok(exprs_view(v@)),
        Err(x) => Err(x@),
    }
}

// ---------------------------------------------------------------------------
// Specification of the parser

/// A name that may stand for a variable: a letter or `_`, then letters,
/// digits or `_`.
pub open spec fn is_valid_variable_name(t: Seq<char>) -> bool {
    &&& t.len() > 0
    &&& (is_alpha(t[0]) || t[0] == '_')
    &&& forall|i: int| 0 <= i < t.len() ==> is_ident_char(#[trigger] t[i])
}

/// Index of the parenthesis that closes the one before index `i`, where `d`
/// parentheses are open.
pub open spec fn match_from(t: Seq<char>, i: int, d: int) -> Option<int>
    decreases t.len() - i,
{
    if i < 0 || i >= t.len() {
        None
    } else if t[i] == '(' {
        match_from(t, i + 1, d + 1)
    } else if t[i] == ')' {
        if d - 1 == 0 {
            Some(i)
        } else {
            match_from(t, i + 1, d - 1)
        }
    } else {
        match_from(t, i + 1, d)
    }
}

pub proof fn lemma_match_from(t: Seq<char>, i: int, d: int)
    ensures
        match_from(t, i, d) matches Some(c) ==> 0 <= i <= c < t.len() && t[c] == ')',
    decreases t.len() - i,
{
    if 0 <= i < t.len() {
        if t[i] == '(' {
            lemma_match_from(t, i + 1, d + 1);
        } else if t[i] == ')' {
            if d - 1 != 0 {
                lemma_match_from(t, i + 1, d - 1);
            }
        } else {
            lemma_match_from(t, i + 1, d);
        }
    }
}

pub open spec fn close_paren_message() -> Seq<char> {
    "Unexpected characters after closing parenthesis"@
}

/// The result of parsing `s` as an expression at nesting level `depth`.
pub open spec fn parse_expr_spec(s: Seq<char>, depth: nat) -> Result<SpecExpr, SpecExprError>
    decreases s.len(), 0int, 0int,
{
    if depth >= MAX_EXPRESSION_DEPTH {
        Err(SpecExprError::TooDeep(MAX_EXPRESSION_DEPTH))
    } else {
        let t = trim(s);
        proof {
            lemma_trim_len(s);
        }
        if is_float_literal(t) {
            Ok(SpecExpr::Number(literal_text(t)))
        } else if first_index(t, '(') >= 0 {
            let p = first_index(t, '(');
            let name = trim(t.take(p));
            proof {
                lemma_first_index_bound(t, '(');
                lemma_match_from(t, p + 1, 1);
            }
            match match_from(t, p + 1, 1) {
                None => Err(SpecExprError::UnclosedParen),
                Some(close) => {
                    if close != t.len() - 1 {
                        Err(
                            SpecExprError::ParseError {
                                position: byte_offset(t, close),
                                message: close_paren_message(),
                            },
                        )
                    } else {
                        match function_named(lower_text(name)) {
                            None => Err(SpecExprError::UnknownFunction(name)),
                            Some(f) => {
                                match parse_args_spec(t.subrange(p + 1, close), depth + 1) {
                                    Err(x) => Err(x),
                                    Ok(args) => {
                                        if args.len() < arg_range(f).0 || args.len() > arg_range(
                                            f,
                                        ).1 {
                                            Err(
                                                SpecExprError::InvalidArgCount {
                                                    function: function_display(f),
                                                    expected: arg_range(f).0,
                                                    got: args.len() as usize,
                                                },
                                            )
                                        } else {
                                            Ok(SpecExpr::Function(f, args))
                                        }
                                    },
                                }
                            },
                        }
                    }
                },
            }
        } else if is_valid_variable_name(t) {
            Ok(SpecExpr::Variable(t))
        } else {
            Err(SpecExprError::UnexpectedToken(t))
        }
    }
}

/// The arguments of a call: the text between the parentheses split at commas
/// outside nested parentheses; an argument list of only whitespace is empty,
/// and a last argument of only whitespace is dropped.
pub open spec fn parse_args_spec(a: Seq<char>, depth: nat) -> Result<Seq<SpecExpr>, SpecExprError>
    decreases a.len(), 1int, a.len() + 1,
{
    if trim(a).len() == 0 {
        Ok(Seq::empty())
    } else {
        args_scan(a, 0, 0, 0, Seq::empty(), depth)
    }
}

/// Scanning the argument text from index `i`; the current argument starts at
/// `start`, `level` is the parenthesis nesting and `acc` holds the arguments
/// already parsed.
pub open spec fn args_scan(
    a: Seq<char>,
    i: int,
    start: int,
    level: int,
    acc: Seq<SpecExpr>,
    depth: nat,
) -> Result<Seq<SpecExpr>, SpecExprError>
    decreases a.len(), 1int, a.len() - i,
{
    if !(0 <= start <= i <= a.len()) {
        Ok(acc)
    } else if i == a.len() {
        let last = a.subrange(start, i);
        if trim(last).len() == 0 {
            Ok(acc)
        } else {
            match parse_expr_spec(last, depth) {
                Ok(e) => Ok(acc.push(e)),
                Err(x) => Err(x),
            }
        }
    } else if a[i] == '(' {
        args_scan(a, i + 1, start, level + 1, acc, depth)
    } else if a[i] == ')' {
        args_scan(a, i + 1, start, level - 1, acc, depth)
    } else if a[i] == ',' && level == 0 {
        match parse_expr_spec(a.subrange(start, i), depth) {
            Ok(e) => args_scan(a, i + 1, i + 1, level, acc.push(e), depth),
            Err(x) => Err(x),
        }
    } else {
        args_scan(a, i + 1, start, level, acc, depth)
    }
}

pub proof fn lemma_first_index_bound(s: Seq<char>, c: char)
    ensures
        -1 <= first_index(s, c) < s.len(),
        first_index(s, c) >= 0 ==> s[first_index(s, c)] == c,
    decreases s.len(),
{
    if s.len() > 0 && s[0] != c {
        lemma_first_index_bound(s.drop_first(), c);
    }
}

/// The result of `FactorExpr::parse` on `s`.
pub open spec fn parse_spec(s: Seq<char>) -> Result<SpecExpr, SpecExprError> {
    if trim(s).len() == 0 {
        Err(SpecExprError::EmptyExpression)
    } else {
        parse_expr_spec(trim(s), 0)
    }
}

/// Index (absolute) of the parenthesis closing the one at `open`, within `v[lo..hi]`.
fn find_matching_paren(v: &Vec<char>, lo: usize, hi: usize, open: usize) -> (r: Option<usize>)
    requires
        lo <= open < hi <= v@.len(),
        v@[open as int] == '(',
    ensures
        match r {
            Some(c) => lo <= c < hi && match_from(v@.subrange(lo as int, hi as int), open - lo + 1, 1)
                == Some(c - lo),
            None => match_from(v@.subrange(lo as int, hi as int), open - lo + 1, 1) is None,
        },
{
    let ghost t = v@.subrange(lo as int, hi as int);
    let mut depth: usize = 1;
    let mut k = open + 1;
    while k < hi
        invariant
            lo <= open < k <= hi <= v@.len(),
            t == v@.subrange(lo as int, hi as int),
            1 <= depth <= k - open,
            match_from(t, k - lo, depth as int) == match_from(t, open - lo + 1, 1),
        decreases hi - k,
    {
        let c = v[k];
        assert(t[k - lo] == c);
        if c == '(' {
            depth += 1;
        } else if c == ')' {
            if depth == 1 {
                return Some(k);
            }
            depth -= 1;
        }
        k += 1;
    }
    None
}

/// Whether `v[lo..hi]` is a valid variable name.
fn is_valid_variable_name_range(v: &Vec<char>, lo: usize, hi: usize) -> (r: bool)
    requires
        lo <= hi <= v@.len(),
    ensures
        r == is_valid_variable_name(v@.subrange(lo as int, hi as int)),
{
    let ghost t = v@.subrange(lo as int, hi as int);
    if lo == hi {
        return false;
    }
    let first = v[lo];
    assert(t[0] == first);
    if !alphabetic(first) && first != '_' {
        return false;
    }
    let mut k = lo;
    while k < hi
        invariant
            lo <= k <= hi <= v@.len(),
            t == v@.subrange(lo as int, hi as int),
            forall|i: int| 0 <= i < k - lo ==> is_ident_char(#[trigger] t[i]),
        decreases hi - k,
    {
        let c = v[k];
        assert(t[k - lo] == c);
        if !(alphanumeric(c) || c == '_') {
            return false;
        }
        k += 1;
    }
    true
}

impl FactorExpr {
    /// Parse a factor expression from a string
    pub fn parse(input: &str) -> (r: Result<Self, FactorExprError>)
        ensures
            expr_result_view(r) == parse_spec(input@),
    {
        let v = str_chars(input);
        let (a, b) = trim_range(&v, 0, v.len());
        assert(v@.subrange(0, v@.len() as int) =~= input@);
        if a == b {
            return Err(FactorExprError::EmptyExpression);
        }
        Self::parse_expr(&v, a, b, 0)
    }

    fn parse_expr(v: &Vec<char>, lo: usize, hi: usize, depth: usize) -> (r: Result<
        Self,
        FactorExprError,
    >)
        requires
            lo <= hi <= v@.len(),
        ensures
            expr_result_view(r) == parse_expr_spec(v@.subrange(lo as int, hi as int), depth as nat),
        decreases hi - lo, 0nat,
    {
        let ghost s = v@.subrange(lo as int, hi as int);
        if depth >= MAX_EXPRESSION_DEPTH {
            return Err(FactorExprError::TooDeep(MAX_EXPRESSION_DEPTH));
        }
        let (a, b) = trim_range(v, lo, hi);
        let ghost t = v@.subrange(a as int, b as int);
        assert(t == trim(s));
        // A number
        if is_float_literal_range(v, a, b) {
            return Ok(FactorExpr::Number(literal_to_string(v, a, b)));
        }
        // A function call
        match find_char(v, a, b, '(') {
            Some(rel) => {
                let p = a + rel;
                proof {
                    lemma_first_index_bound(t, '(');
                }
                assert(v@[p as int] == t[rel as int]);
                let (na, nb) = trim_range(v, a, p);
                assert(v@.subrange(a as int, p as int) =~= t.take(rel as int));
                let close = match find_matching_paren(v, a, b, p) {
                    None => {
                        return Err(FactorExprError::UnclosedParen);
                    },
                    Some(c) => c,
                };
                if close != b - 1 {
                    let position = utf8_len_range(v, a, close);
                    assert(v@.subrange(a as int, close as int) =~= t.take(close - a));
                    return Err(
                        FactorExprError::ParseError {
                            position,
                            message: "Unexpected characters after closing parenthesis".to_owned(),
                        },
                    );
                }
                let name = chars_to_string(v, na, nb);
                let func = match FactorFunction::from_str(name.as_str()) {
                    None => {
                        return Err(FactorExprError::UnknownFunction(name));
                    },
                    Some(f) => f,
                };
                assert(v@.subrange(p + 1, close as int) =~= t.subrange(rel + 1, close - a));
                let args = Self::parse_args(v, p + 1, close, depth + 1)?;
                let (min_args, max_args) = func.arg_count();
                if args.len() < min_args || args.len() > max_args {
                    return Err(
                        FactorExprError::InvalidArgCount {
                            function: func.to_string(),
                            expected: min_args,
                            got: args.len(),
                        },
                    );
                }
                let ghost av = exprs_view(args@);
                let e = FactorExpr::Function { name: func, args };
                assert(e@->Function_1 =~= av);
                Ok(e)
            },
            None => {
                // A variable
                if is_valid_variable_name_range(v, a, b) {
                    Ok(FactorExpr::Variable(chars_to_string(v, a, b)))
                } else {
                    Err(FactorExprError::UnexpectedToken(chars_to_string(v, a, b)))
                }
            },
        }
    }

    fn parse_args(v: &Vec<char>, lo: usize, hi: usize, depth: usize) -> (r: Result<
        Vec<Self>,
        FactorExprError,
    >)
        requires
            lo <= hi <= v@.len(),
        ensures
            exprs_result_view(r) == parse_args_spec(v@.subrange(lo as int, hi as int), depth as nat),
        decreases hi - lo, 1nat,
    {
        let ghost a = v@.subrange(lo as int, hi as int);
        let (ta, tb) = trim_range(v, lo, hi);
        if ta == tb {
            let empty: Vec<FactorExpr> = Vec::new();
            assert(exprs_view(empty@) =~= Seq::<SpecExpr>::empty());
            return Ok(empty);
        }
        let mut args: Vec<FactorExpr> = Vec::new();
        let mut start = lo;
        let mut opens: usize = 0;
        let mut closes: usize = 0;
        let mut k = lo;
        assert(exprs_view(args@) =~= Seq::<SpecExpr>::empty());
        while k < hi
            invariant
                lo <= start <= k <= hi <= v@.len(),
                a == v@.subrange(lo as int, hi as int),
                trim(a).len() != 0,
                opens <= k - lo,
                closes <= k - lo,
                parse_args_spec(a, depth as nat) == args_scan(
                    a,
                    k - lo,
                    start - lo,
                    opens - closes,
                    exprs_view(args@),
                    depth as nat,
                ),
            decreases hi - k,
        {
            let c = v[k];
            assert(a[k - lo] == c);
            if c == '(' {
                opens += 1;
            } else if c == ')' {
                closes += 1;
            } else if c == ',' && opens == closes {
                assert(v@.subrange(start as int, k as int) =~= a.subrange(start - lo, k - lo));
                let e = Self::parse_expr(v, start, k, depth)?;
                let ghost before = args@;
                args.push(e);
                assert(exprs_view(args@) =~= exprs_view(before).push(e@));
                start = k + 1;
            }
            k += 1;
        }
        let (la, lb) = trim_range(v, start, hi);
        assert(v@.subrange(start as int, hi as int) =~= a.subrange(start - lo, hi - lo));
        if la == lb {
            return Ok(args);
        }
        let e = Self::parse_expr(v, start, hi, depth)?;
        let ghost before = args@;
        args.push(e);
        assert(exprs_view(args@) =~= exprs_view(before).push(e@));
        Ok(args)
    }
}

// ---------------------------------------------------------------------------
// Structure of expressions

/// Depth of an expression tree: leaves have depth 1.
pub open spec fn spec_depth(e: SpecExpr) -> nat
    decreases e,
{
    match e {
        SpecExpr::Number(_) => 1,
        SpecExpr::Variable(_) => 1,
        SpecExpr::Function(_, args) => 1 + max_depth(args, args.len() as int),
    }
}

/// Largest depth among the first `n` expressions of `args` (0 if none).
pub open spec fn max_depth(args: Seq<SpecExpr>, n: int) -> nat
    decreases args, n,
{
    if n <= 0 || n > args.len() {
        0
    } else {
        let d = spec_depth(args[n - 1]);
        let m = max_depth(args, n - 1);
        if d > m {
            d
        } else {
            m
        }
    }
}

/// The variable names of an expression, left to right.
pub open spec fn spec_variables(e: SpecExpr) -> Seq<Seq<char>>
    decreases e,
{
    match e {
        SpecExpr::Number(_) => Seq::empty(),
        SpecExpr::Variable(n) => seq![n],
        SpecExpr::Function(_, args) => variables_of(args, args.len() as int),
    }
}

/// The variable names of the first `n` expressions of `args`, left to right.
pub open spec fn variables_of(args: Seq<SpecExpr>, n: int) -> Seq<Seq<char>>
    decreases args, n,
{
    if n <= 0 || n > args.len() {
        Seq::empty()
    } else {
        variables_of(args, n - 1) + spec_variables(args[n - 1])
    }
}

impl FactorExpr {
    /// Get all variables referenced in this expression
    pub fn variables(&self) -> (r: Vec<String>)
        ensures
            strings_of(r@) == spec_variables(self@),
        decreases self,
    {
        match self {
            FactorExpr::Number(_) => {
                let r: Vec<String> = Vec::new();
                assert(strings_of(r@) =~= Seq::<Seq<char>>::empty());
                r
            },
            FactorExpr::Variable(name) => {
                let mut r: Vec<String> = Vec::new();
                r.push(name.clone());
                assert(strings_of(r@) =~= seq![name@]);
                r
            },
            FactorExpr::Function { name, args } => {
                let mut r: Vec<String> = Vec::new();
                let mut i: usize = 0;
                assert(strings_of(r@) =~= Seq::<Seq<char>>::empty());
                while i < args.len()
                    invariant
                        i <= args.len(),
                        *self == (FactorExpr::Function { name: *name, args: *args }),
                        strings_of(r@) == variables_of(self@->Function_1, i as int),
                    decreases args.len() - i,
                {
                    proof {
                        assert(decreases_to!(*self => *args));
                        assert(decreases_to!(*args => args@));
                        assert(decreases_to!(args@ => args@[i as int]));
                        assert(self@->Function_1[i as int] == args@[i as int]@);
                    }
                    let sub = args[i].variables();
                    let mut j: usize = 0;
                    let ghost before = strings_of(r@);
                    while j < sub.len()
                        invariant
                            j <= sub.len(),
                            strings_of(r@) == before + strings_of(sub@).take(j as int),
                        decreases sub.len() - j,
                    {
                        let ghost prev = r@;
                        r.push(sub[j].clone());
                        assert(strings_of(r@) =~= strings_of(prev).push(sub@[j as int]@));
                        assert(strings_of(sub@).take(j + 1) =~= strings_of(sub@).take(
                            j as int,
                        ).push(sub@[j as int]@));
                        j += 1;
                    }
                    assert(strings_of(sub@).take(sub@.len() as int) =~= strings_of(sub@));
                    i += 1;
                }
                r
            },
        }
    }

    /// Get the depth of this expression tree (saturated at `usize::MAX`).
    pub fn depth(&self) -> (r: usize)
        ensures
            r == sat_usize(spec_depth(self@) as int),
        decreases self,
    {
        match self {
            FactorExpr::Number(_) | FactorExpr::Variable(_) => 1,
            FactorExpr::Function { name, args } => {
                let mut m: usize = 0;
                let mut i: usize = 0;
                while i < args.len()
                    invariant
                        i <= args.len(),
                        *self == (FactorExpr::Function { name: *name, args: *args }),
                        m == sat_usize(max_depth(self@->Function_1, i as int) as int),
                    decreases args.len() - i,
                {
                    proof {
                        assert(decreases_to!(*self => *args));
                        assert(decreases_to!(*args => args@));
                        assert(decreases_to!(args@ => args@[i as int]));
                        assert(self@->Function_1[i as int] == args@[i as int]@);
                    }
                    let d = args[i].depth();
                    if d > m {
                        m = d;
                    }
                    i += 1;
                }
                m.saturating_add(1)
            },
        }
    }

    /// A copy of the expression.
    pub fn clone(&self) -> (r: Self)
        ensures
            r@ == self@,
        decreases self,
    {
        match self {
            FactorExpr::Number(s) => FactorExpr::Number(s.clone()),
            FactorExpr::Variable(s) => FactorExpr::Variable(s.clone()),
            FactorExpr::Function { name, args } => {
                let mut v: Vec<FactorExpr> = Vec::new();
                let mut i: usize = 0;
                while i < args.len()
                    invariant
                        i <= args.len(),
                        *self == (FactorExpr::Function { name: *name, args: *args }),
                        v@.len() == i,
                        forall|j: int| 0 <= j < i ==> v@[j]@ == (#[trigger] args@[j])@,
                    decreases args.len() - i,
                {
                    proof {
                        assert(self@->Function_1[i as int] == args@[i as int]@);
                        assert(decreases_to!(*self => *args));
                        assert(decreases_to!(*args => args@));
                        assert(decreases_to!(args@ => args@[i as int]));
                    }
                    let c = args[i].clone();
                    v.push(c);
                    i += 1;
                }
                let e = FactorExpr::Function { name: *name, args: v };
                assert(e@->Function_1 =~= self@->Function_1);
                e
            },
        }
    }
}

// ---------------------------------------------------------------------------
// Display

/// A number node displays its literal as a double is displayed; text that is
/// no literal denotes no number and displays as `NaN`.
pub open spec fn number_display(t: Seq<char>) -> Seq<char> {
    if is_float_literal(t) {
        literal_text(t)
    } else {
        seq!['N', 'a', 'N']
    }
}

/// The text of an expression: `name(arg, arg, ...)` for calls.
pub open spec fn expr_text(e: SpecExpr) -> Seq<char>
    decreases e,
{
    match e {
        SpecExpr::Number(t) => number_display(t),
        SpecExpr::Variable(n) => n,
        SpecExpr::Function(f, args) => function_display(f) + seq!['('] + args_text(
            args,
            args.len() as int,
        ) + seq![')'],
    }
}

/// The texts of the first `n` expressions of `args`, separated by `, `.
pub open spec fn args_text(args: Seq<SpecExpr>, n: int) -> Seq<char>
    decreases args, n,
{
    if n <= 0 || n > args.len() {
        Seq::empty()
    } else if n == 1 {
        expr_text(args[0])
    } else {
        args_text(args, n - 1) + seq![',', ' '] + expr_text(args[n - 1])
    }
}

fn number_to_string(t: &String) -> (r: String)
    ensures
        r@ == number_display(t@),
{
    let v = str_chars(t.as_str());
    if is_float_literal_range(&v, 0, v.len()) {
        assert(v@.subrange(0, v@.len() as int) =~= t@);
        literal_to_string(&v, 0, v.len())
    } else {
        assert(v@.subrange(0, v@.len() as int) =~= t@);
        let mut out = String::new();
        out.push('N');
        out.push('a');
        out.push('N');
        assert(out@ =~= seq!['N', 'a', 'N']);
        out
    }
}

impl FactorExpr {
    /// The expression as text, e.g. `rank(ts_mean(close, 20))`.
    pub fn to_string(&self) -> (r: String)
        ensures
            r@ == expr_text(self@),
        decreases self,
    {
        match self {
            FactorExpr::Number(t) => number_to_string(t),
            FactorExpr::Variable(n) => n.clone(),
            FactorExpr::Function { name, args } => {
                let mut out = name.to_string();
                out.push('(');
                let ghost head = out@;
                let mut i: usize = 0;
                while i < args.len()
                    invariant
                        i <= args.len(),
                        *self == (FactorExpr::Function { name: *name, args: *args }),
                        out@ == head + args_text(self@->Function_1, i as int),
                    decreases args.len() - i,
                {
                    proof {
                        assert(decreases_to!(*self => *args));
                        assert(decreases_to!(*args => args@));
                        assert(decreases_to!(args@ => args@[i as int]));
                        assert(self@->Function_1[i as int] == args@[i as int]@);
                    }
                    let ghost before = out@;
                    if i > 0 {
                        out.push(',');
                        out.push(' ');
                    }
                    let t = args[i].to_string();
                    out.push_str(t.as_str());
                    if i == 0 {
                        assert(out@ =~= head + args_text(self@->Function_1, 1));
                    } else {
                        assert(out@ =~= before + seq![',', ' '] + t@);
                    }
                    i += 1;
                }
                out.push(')');
                out
            },
        }
    }
}

// ---------------------------------------------------------------------------
// Properties of parsed expressions

/// Every call has an admissible number of arguments, every number is a
/// literal that `f64::from_str` accepts, written as it displays, and every
/// variable a valid name that is no literal and has no surrounding whitespace.
pub open spec fn well_formed(e: SpecExpr) -> bool
    decreases e,
{
    match e {
        SpecExpr::Number(t) => is_float_literal(t) && literal_text(t) == t,
        SpecExpr::Variable(n) => is_valid_variable_name(n) && !is_float_literal(n) && trim(n) == n,
        SpecExpr::Function(f, args) => {
            &&& arg_range(f).0 <= args.len() <= arg_range(f).1
            &&& forall|i: int| 0 <= i < args.len() ==> well_formed(#[trigger] args[i])
        },
    }
}

proof fn lemma_max_depth_bound(args: Seq<SpecExpr>, n: int, b: nat)
    requires
        forall|i: int| 0 <= i < args.len() ==> spec_depth(#[trigger] args[i]) <= b,
    ensures
        max_depth(args, n) <= b,
    decreases n,
{
    if 0 < n <= args.len() {
        lemma_max_depth_bound(args, n - 1, b);
    }
}

/// Facts about every expression that `parse_expr_spec(s, depth)` accepts.
proof fn lemma_parse_expr_facts(s: Seq<char>, depth: nat)
    ensures
        parse_expr_spec(s, depth) matches Ok(e) ==> well_formed(e) && spec_depth(e) + depth
            <= MAX_EXPRESSION_DEPTH,
    decreases s.len(), 0int, 0int,
{
    if depth < MAX_EXPRESSION_DEPTH {
        let t = trim(s);
        lemma_trim_len(s);
        lemma_trim_idempotent(s);
        if is_float_literal(t) {
            law_literal_text_is_canonical(t);
        }
        if !is_float_literal(t) && first_index(t, '(') >= 0 {
            let p = first_index(t, '(');
            lemma_first_index_bound(t, '(');
            lemma_match_from(t, p + 1, 1);
            if let Some(close) = match_from(t, p + 1, 1) {
                let a = t.subrange(p + 1, close);
                if trim(a).len() != 0 {
                    lemma_args_scan_facts(a, 0, 0, 0, Seq::empty(), depth + 1);
                }
                if let Ok(args) = parse_args_spec(a, depth + 1) {
                    lemma_max_depth_bound(
                        args,
                        args.len() as int,
                        (MAX_EXPRESSION_DEPTH - (depth + 1)) as nat,
                    );
                }
            }
        }
    }
}

proof fn lemma_args_scan_facts(
    a: Seq<char>,
    i: int,
    start: int,
    level: int,
    acc: Seq<SpecExpr>,
    depth: nat,
)
    requires
        depth <= MAX_EXPRESSION_DEPTH,
        forall|k: int|
            0 <= k < acc.len() ==> well_formed(#[trigger] acc[k]) && spec_depth(acc[k]) + depth
                <= MAX_EXPRESSION_DEPTH,
    ensures
        args_scan(a, i, start, level, acc, depth) matches Ok(args) ==> forall|k: int|
            0 <= k < args.len() ==> well_formed(#[trigger] args[k]) && spec_depth(args[k]) + depth
                <= MAX_EXPRESSION_DEPTH,
    decreases a.len(), 1int, a.len() - i,
{
    if 0 <= start <= i <= a.len() {
        if i == a.len() {
            lemma_parse_expr_facts(a.subrange(start, i), depth);
        } else if a[i] == '(' {
            lemma_args_scan_facts(a, i + 1, start, level + 1, acc, depth);
        } else if a[i] == ')' {
            lemma_args_scan_facts(a, i + 1, start, level - 1, acc, depth);
        } else if a[i] == ',' && level == 0 {
            lemma_parse_expr_facts(a.subrange(start, i), depth);
            if let Ok(e) = parse_expr_spec(a.subrange(start, i), depth) {
                lemma_args_scan_facts(a, i + 1, i + 1, level, acc.push(e), depth);
            }
        } else {
            lemma_args_scan_facts(a, i + 1, start, level, acc, depth);
        }
    }
}

/// Law: an expression that `FactorExpr::parse` accepts is well formed and
/// no deeper than `MAX_EXPRESSION_DEPTH` levels.
pub proof fn law_parsed_expressions_are_bounded(s: Seq<char>)
    ensures
        parse_spec(s) matches Ok(e) ==> well_formed(e) && spec_depth(e) <= MAX_EXPRESSION_DEPTH,
{
    lemma_parse_expr_facts(trim(s), 0);
}

} // verus!
