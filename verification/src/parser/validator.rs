//! Factor expression validator
//!
//! Validates factor expressions for correctness and potential issues.

use vstd::prelude::*;
use crate::parser::expression::{
    exprs_view, FactorExpr, FactorFunction, SpecExpr, spec_depth, spec_variables, variables_of,
};
use crate::parser::number::{facts_of_text, text_facts};
use crate::text::{sat_usize, strings_of};

verus! {

/// Validation errors
#[derive(Debug, Clone)]
pub enum ValidationError {
    UnknownVariable(String),
    InvalidWindowSize(i64),
    TooComplex(usize, usize),
    DivisionByZero,
    NegativeSqrt,
    WindowTooLarge(i64, i64),
}

/// The mathematical content of a validation error.
pub enum SpecValidationError {
    UnknownVariable(Seq<char>),
    InvalidWindowSize(i64),
    TooComplex(usize, usize),
    DivisionByZero,
    NegativeSqrt,
    WindowTooLarge(i64, i64),
}

impl View for ValidationError {
    type V = SpecValidationError;

    open spec fn view(&self) -> SpecValidationError {
        match self {
            ValidationError::UnknownVariable(n) => SpecValidationError::UnknownVariable(n@),
            ValidationError::InvalidWindowSize(w) => SpecValidationError::InvalidWindowSize(*w),
            ValidationError::TooComplex(d, m) => SpecValidationError::TooComplex(*d, *m),
            ValidationError::DivisionByZero => SpecValidationError::DivisionByZero,
            ValidationError::NegativeSqrt => SpecValidationError::NegativeSqrt,
            ValidationError::WindowTooLarge(w, m) => SpecValidationError::WindowTooLarge(*w, *m),
        }
    }
}

pub open spec fn errors_view(v: Seq<ValidationError>) -> Seq<SpecValidationError> {
    v.map_values(|e: ValidationError| e@)
}

/// Result of validation. The complexity score is kept in tenths of a point.
#[derive(Debug, Clone)]
pub struct ValidationResult {
    pub is_valid: bool,
    pub errors: Vec<ValidationError>,
    pub warnings: Vec<String>,
    pub complexity_tenths: u64,
}

impl ValidationResult {
    pub fn new() -> (r: Self)
        ensures
            r.is_valid,
            r.errors@.len() == 0,
            r.warnings@.len() == 0,
            r.complexity_tenths == 0,
    {
        ValidationResult {
            is_valid: true,
            errors: Vec::new(),
            warnings: Vec::new(),
            complexity_tenths: 0,
        }
    }

    pub fn add_error(&mut self, error: ValidationError)
        ensures
            !final(self).is_valid,
            final(self).errors@ == old(self).errors@.push(error),
            final(self).warnings@ == old(self).warnings@,
            final(self).complexity_tenths == old(self).complexity_tenths,
    {
        self.is_valid = false;
        self.errors.push(error);
    }

    pub fn add_warning(&mut self, warning: String)
        ensures
            final(self).is_valid == old(self).is_valid,
            final(self).errors@ == old(self).errors@,
            final(self).warnings@ == old(self).warnings@.push(warning),
            final(self).complexity_tenths == old(self).complexity_tenths,
    {
        self.warnings.push(warning);
    }
}

impl Default for ValidationResult {
    fn default() -> (r: Self)
        ensures
            r.is_valid,
            r.errors@.len() == 0,
            r.warnings@.len() == 0,
            r.complexity_tenths == 0,
    {
        Self::new()
    }
}

/// Configuration for factor validation
#[derive(Debug, Clone)]
pub struct ValidatorConfig {
    /// Known variables in the dataset
    pub known_variables: Vec<String>,
    /// Maximum allowed expression depth
    pub max_depth: usize,
    /// Maximum allowed window size
    pub max_window_size: i64,
    /// Whether to allow unknown variables
    pub allow_unknown_variables: bool,
}

/// The mathematical content of a validator configuration.
pub struct SpecValidatorConfig {
    pub known_variables: Seq<Seq<char>>,
    pub max_depth: usize,
    pub max_window_size: i64,
    pub allow_unknown_variables: bool,
}

impl View for ValidatorConfig {
    type V = SpecValidatorConfig;

    open spec fn view(&self) -> SpecValidatorConfig {
        SpecValidatorConfig {
            known_variables: strings_of(self.known_variables@),
            max_depth: self.max_depth,
            max_window_size: self.max_window_size,
            allow_unknown_variables: self.allow_unknown_variables,
        }
    }
}

/// The default configuration: the price and volume fields, depth 10,
/// windows up to 252, unknown variables refused.
pub open spec fn default_config() -> SpecValidatorConfig {
    SpecValidatorConfig {
        known_variables: seq![
            "open"@,
            "high"@,
            "low"@,
            "close"@,
            "volume"@,
            "vwap"@,
            "returns"@,
        ],
        max_depth: 10,
        max_window_size: 252,
        allow_unknown_variables: false,
    }
}

impl Default for ValidatorConfig {
    fn default() -> (r: Self)
        ensures
            r@ == default_config(),
    {
        let mut known: Vec<String> = Vec::new();
        known.push("open".to_string());
        known.push("high".to_string());
        known.push("low".to_string());
        known.push("close".to_string());
        known.push("volume".to_string());
        known.push("vwap".to_string());
        known.push("returns".to_string());
        let r = ValidatorConfig {
            known_variables: known,
            max_depth: 10,
            max_window_size: 252,
            allow_unknown_variables: false,
        };
        assert(r@.known_variables =~= default_config().known_variables);
        r
    }
}


// ---------------------------------------------------------------------------
// Specification of the checks

/// Errors and warnings found in an expression, in the order they are found.
pub struct Findings {
    pub errors: Seq<SpecValidationError>,
    pub warnings: Seq<Seq<char>>,
}

pub open spec fn no_findings() -> Findings {
    Findings { errors: Seq::empty(), warnings: Seq::empty() }
}

pub open spec fn join(a: Findings, b: Findings) -> Findings {
    Findings { errors: a.errors + b.errors, warnings: a.warnings + b.warnings }
}

pub open spec fn nan_warning() -> Seq<char> {
    "Expression contains NaN"@
}

pub open spec fn infinity_warning() -> Seq<char> {
    "Expression contains infinity"@
}

pub open spec fn short_correlation_warning() -> Seq<char> {
    "Correlation with window < 2 is meaningless"@
}

/// Functions whose second argument is a window (or a period).
pub open spec fn takes_window(f: FactorFunction) -> bool {
    match f {
        FactorFunction::TsRank | FactorFunction::TsSum | FactorFunction::TsMean
        | FactorFunction::TsStd | FactorFunction::TsMin | FactorFunction::TsMax
        | FactorFunction::TsArgmax | FactorFunction::TsArgmin | FactorFunction::TsDelay
        | FactorFunction::TsDelta | FactorFunction::TsDecay | FactorFunction::Returns
        | FactorFunction::LogReturns | FactorFunction::Volatility => true,
        _ => false,
    }
}

/// Functions whose third argument is a window.
pub open spec fn takes_pair_window(f: FactorFunction) -> bool {
    f == FactorFunction::Correlation || f == FactorFunction::Covariance
}

/// The checks of a window `w` (a number converted with `as i64`).
pub open spec fn window_findings(c: SpecValidatorConfig, w: i64, pair: bool) -> Findings {
    Findings {
        errors: if w <= 0 {
            seq![SpecValidationError::InvalidWindowSize(w)]
        } else if w > c.max_window_size {
            seq![SpecValidationError::WindowTooLarge(w, c.max_window_size)]
        } else {
            Seq::empty()
        },
        warnings: if pair && w < 2 {
            seq![short_correlation_warning()]
        } else {
            Seq::empty()
        },
    }
}

/// The checks a call makes of its own literal arguments.
pub open spec fn call_findings(c: SpecValidatorConfig, f: FactorFunction, args: Seq<SpecExpr>) -> Findings {
    if takes_window(f) && args.len() > 1 && args[1] is Number {
        window_findings(c, text_facts(args[1]->Number_0).trunc, false)
    } else if takes_pair_window(f) && args.len() > 2 && args[2] is Number {
        window_findings(c, text_facts(args[2]->Number_0).trunc, true)
    } else if f == FactorFunction::Div && args.len() > 1 && args[1] is Number && text_facts(
        args[1]->Number_0,
    ).is_tiny {
        Findings { errors: seq![SpecValidationError::DivisionByZero], warnings: Seq::empty() }
    } else if f == FactorFunction::Sqrt && args.len() > 0 && args[0] is Number && text_facts(
        args[0]->Number_0,
    ).is_negative {
        Findings { errors: seq![SpecValidationError::NegativeSqrt], warnings: Seq::empty() }
    } else {
        no_findings()
    }
}

/// What the recursive checks find in an expression: the arguments of a call
/// are checked first, left to right, then the call itself.
pub open spec fn findings(c: SpecValidatorConfig, e: SpecExpr) -> Findings
    decreases e,
{
    match e {
        SpecExpr::Number(t) => Findings {
            errors: Seq::empty(),
            warnings: (if text_facts(t).is_nan {
                seq![nan_warning()]
            } else {
                Seq::empty()
            }) + (if text_facts(t).is_infinite {
                seq![infinity_warning()]
            } else {
                Seq::empty()
            }),
        },
        SpecExpr::Variable(n) => if !c.allow_unknown_variables && !c.known_variables.contains(n) {
            Findings { errors: seq![SpecValidationError::UnknownVariable(n)], warnings: Seq::empty() }
        } else {
            no_findings()
        },
        SpecExpr::Function(f, args) => join(
            args_findings(c, args, args.len() as int),
            call_findings(c, f, args),
        ),
    }
}

/// What the checks find in the first `n` expressions of `args`.
pub open spec fn args_findings(c: SpecValidatorConfig, args: Seq<SpecExpr>, n: int) -> Findings
    decreases args, n,
{
    if n <= 0 || n > args.len() {
        no_findings()
    } else {
        join(args_findings(c, args, n - 1), findings(c, args[n - 1]))
    }
}

/// The base cost of a call, in tenths.
pub open spec fn base_cost(f: FactorFunction) -> nat {
    match f {
        FactorFunction::Abs | FactorFunction::Sign | FactorFunction::Add | FactorFunction::Sub
        | FactorFunction::Mul | FactorFunction::Div => 5,
        FactorFunction::Rank | FactorFunction::Zscore => 10,
        FactorFunction::TsSum | FactorFunction::TsMean | FactorFunction::TsMin
        | FactorFunction::TsMax => 15,
        FactorFunction::TsStd | FactorFunction::TsRank => 20,
        FactorFunction::Correlation | FactorFunction::Covariance => 30,
        _ => 10,
    }
}

/// The complexity of an expression in tenths: a number costs 1, a variable
/// 2, and a call its base cost plus the cost of its arguments.
pub open spec fn complexity(e: SpecExpr) -> nat
    decreases e,
{
    match e {
        SpecExpr::Number(_) => 1,
        SpecExpr::Variable(_) => 2,
        SpecExpr::Function(f, args) => base_cost(f) + args_complexity(args, args.len() as int),
    }
}

/// The total complexity of the first `n` expressions of `args`.
pub open spec fn args_complexity(args: Seq<SpecExpr>, n: int) -> nat
    decreases args, n,
{
    if n <= 0 || n > args.len() {
        0
    } else {
        args_complexity(args, n - 1) + complexity(args[n - 1])
    }
}

pub open spec fn sat_u64(x: int) -> u64 {
    if x > u64::MAX {
        u64::MAX
    } else {
        x as u64
    }
}

/// What `validate` reports: a `TooComplex` error first when the depth
/// exceeds the maximum, then the findings of the recursive checks.
pub open spec fn report_errors(c: SpecValidatorConfig, e: SpecExpr) -> Seq<SpecValidationError> {
    let depth = sat_usize(spec_depth(e) as int);
    (if depth > c.max_depth {
        seq![SpecValidationError::TooComplex(depth, c.max_depth)]
    } else {
        Seq::empty()
    }) + findings(c, e).errors
}


// ---------------------------------------------------------------------------
// The validator

/// Factor expression validator
pub struct FactorValidator {
    config: ValidatorConfig,
}

/// The text of the `i`-th argument when it is a number.
fn number_arg(args: &Vec<FactorExpr>, i: usize) -> (r: Option<&String>)
    ensures
        match r {
            Some(t) => i < args@.len() && args@[i as int] == FactorExpr::Number(*t),
            None => !(i < args@.len() && args@[i as int] is Number),
        },
{
    if i < args.len() {
        match &args[i] {
            FactorExpr::Number(t) => Some(t),
            _ => None,
        }
    } else {
        None
    }
}

fn is_window_function(f: &FactorFunction) -> (r: bool)
    ensures
        r == takes_window(*f),
{
    match f {
        FactorFunction::TsRank | FactorFunction::TsSum | FactorFunction::TsMean
        | FactorFunction::TsStd | FactorFunction::TsMin | FactorFunction::TsMax
        | FactorFunction::TsArgmax | FactorFunction::TsArgmin | FactorFunction::TsDelay
        | FactorFunction::TsDelta | FactorFunction::TsDecay | FactorFunction::Returns
        | FactorFunction::LogReturns | FactorFunction::Volatility => true,
        _ => false,
    }
}

fn base_cost_of(f: &FactorFunction) -> (r: u64)
    ensures
        r == base_cost(*f),
{
    match f {
        FactorFunction::Abs | FactorFunction::Sign | FactorFunction::Add | FactorFunction::Sub
        | FactorFunction::Mul | FactorFunction::Div => 5,
        FactorFunction::Rank | FactorFunction::Zscore => 10,
        FactorFunction::TsSum | FactorFunction::TsMean | FactorFunction::TsMin
        | FactorFunction::TsMax => 15,
        FactorFunction::TsStd | FactorFunction::TsRank => 20,
        FactorFunction::Correlation | FactorFunction::Covariance => 30,
        _ => 10,
    }
}

/// Records what `found` describes in `result`.
pub open spec fn recorded(old_r: ValidationResult, new_r: ValidationResult, found: Findings) -> bool {
    &&& errors_view(new_r.errors@) == errors_view(old_r.errors@) + found.errors
    &&& strings_of(new_r.warnings@) == strings_of(old_r.warnings@) + found.warnings
    &&& new_r.is_valid == (old_r.is_valid && found.errors.len() == 0)
    &&& new_r.complexity_tenths == old_r.complexity_tenths
}

proof fn lemma_recorded_trans(a: ValidationResult, b: ValidationResult, c: ValidationResult, f: Findings, g: Findings)
    requires
        recorded(a, b, f),
        recorded(b, c, g),
    ensures
        recorded(a, c, join(f, g)),
{
    assert(errors_view(c.errors@) =~= errors_view(a.errors@) + join(f, g).errors);
    assert(strings_of(c.warnings@) =~= strings_of(a.warnings@) + join(f, g).warnings);
}

proof fn lemma_recorded_none(a: ValidationResult)
    ensures
        recorded(a, a, no_findings()),
{
    assert(errors_view(a.errors@) =~= errors_view(a.errors@) + no_findings().errors);
    assert(strings_of(a.warnings@) =~= strings_of(a.warnings@) + no_findings().warnings);
}

fn record_error(result: &mut ValidationResult, error: ValidationError)
    ensures
        recorded(*old(result), *final(result), Findings { errors: seq![error@], warnings: Seq::empty() }),
{
    let ghost before = *result;
    result.add_error(error);
    assert(errors_view(result.errors@) =~= errors_view(before.errors@) + seq![error@]);
    assert(strings_of(result.warnings@) =~= strings_of(before.warnings@) + Seq::<Seq<char>>::empty());
}

fn record_warning(result: &mut ValidationResult, warning: String)
    ensures
        recorded(*old(result), *final(result), Findings { errors: Seq::empty(), warnings: seq![warning@] }),
{
    let ghost before = *result;
    result.add_warning(warning);
    assert(errors_view(result.errors@) =~= errors_view(before.errors@) + Seq::<SpecValidationError>::empty());
    assert(strings_of(result.warnings@) =~= strings_of(before.warnings@) + seq![warning@]);
}

impl FactorValidator {
    /// The configuration the validator checks against.
    pub closed spec fn config(&self) -> SpecValidatorConfig {
        self.config@
    }

    /// Create a new validator with default configuration
    pub fn new() -> (r: Self)
        ensures
            r.config() == default_config(),
    {
        FactorValidator { config: ValidatorConfig::default() }
    }

    /// Create a new validator with custom configuration
    pub fn with_config(config: ValidatorConfig) -> (r: Self)
        ensures
            r.config() == config@,
    {
        FactorValidator { config }
    }

    /// Validate a factor expression
    pub fn validate(&self, expr: &FactorExpr) -> (r: ValidationResult)
        ensures
            errors_view(r.errors@) == report_errors(self.config(), expr@),
            strings_of(r.warnings@) == findings(self.config(), expr@).warnings,
            r.is_valid == (r.errors@.len() == 0),
            r.complexity_tenths == sat_u64(complexity(expr@) as int),
    {
        let mut result = ValidationResult::new();
        let depth = expr.depth();
        if depth > self.config.max_depth {
            result.add_error(ValidationError::TooComplex(depth, self.config.max_depth));
        }
        let ghost after_depth = result;
        assert(errors_view(after_depth.errors@) =~= (if depth > self.config.max_depth {
            seq![SpecValidationError::TooComplex(depth, self.config.max_depth)]
        } else {
            Seq::empty()
        }));
        assert(strings_of(after_depth.warnings@) =~= Seq::<Seq<char>>::empty());
        result.complexity_tenths = self.calculate_complexity(expr);
        self.validate_recursive(expr, &mut result);
        result
    }

    /// Whether a variable name is accepted.
    fn variable_known(&self, name: &String) -> (r: bool)
        ensures
            r == (self.config().allow_unknown_variables || self.config().known_variables.contains(
                name@,
            )),
    {
        if self.config.allow_unknown_variables {
            return true;
        }
        let known = &self.config.known_variables;
        let mut i: usize = 0;
        while i < known.len()
            invariant
                i <= known@.len(),
                *known == self.config.known_variables,
                forall|j: int| 0 <= j < i ==> known@[j]@ != name@,
            decreases known.len() - i,
        {
            if *name == known[i] {
                proof {
                    assert(name@ == known@[i as int]@);
                    assert(strings_of(known@)[i as int] == name@);
                    assert(self.config().known_variables == strings_of(known@));
                    assert(strings_of(known@).contains(name@));
                }
                return true;
            }
            i += 1;
        }
        proof {
            if strings_of(known@).contains(name@) {
                let j = choose|j: int| 0 <= j < strings_of(known@).len() && strings_of(known@)[j] == name@;
                assert(known@[j]@ == name@);
            }
        }
        false
    }

    /// Records the checks of a window.
    fn check_window(&self, w: i64, pair: bool, result: &mut ValidationResult)
        ensures
            recorded(*old(result), *final(result), window_findings(self.config(), w, pair)),
    {
        let ghost r0 = *result;
        let ghost c = self.config();
        if w <= 0 {
            record_error(result, ValidationError::InvalidWindowSize(w));
        } else if w > self.config.max_window_size {
            record_error(result, ValidationError::WindowTooLarge(w, self.config.max_window_size));
        } else {
            proof {
                lemma_recorded_none(*result);
            }
        }
        let ghost r1 = *result;
        if pair && w < 2 {
            record_warning(result, "Correlation with window < 2 is meaningless".to_string());
        } else {
            proof {
                lemma_recorded_none(*result);
            }
        }
        proof {
            let f1 = Findings { errors: window_findings(c, w, pair).errors, warnings: Seq::empty() };
            let f2 = Findings { errors: Seq::empty(), warnings: window_findings(c, w, pair).warnings };
            lemma_recorded_trans(r0, r1, *result, f1, f2);
            assert(join(f1, f2).errors =~= window_findings(c, w, pair).errors);
            assert(join(f1, f2).warnings =~= window_findings(c, w, pair).warnings);
        }
    }

    /// Records the checks a call makes of its own literal arguments.
    fn check_call(&self, name: &FactorFunction, args: &Vec<FactorExpr>, result: &mut ValidationResult)
        ensures
            recorded(*old(result), *final(result), call_findings(self.config(), *name, exprs_view(args@))),
    {
        let ghost sargs = exprs_view(args@);
        let w1 = number_arg(args, 1);
        let w2 = number_arg(args, 2);
        let w0 = number_arg(args, 0);
        if is_window_function(name) && w1.is_some() {
            let facts = facts_of_text(w1.unwrap());
            self.check_window(facts.trunc, false, result);
        } else if (*name == FactorFunction::Correlation || *name == FactorFunction::Covariance)
            && w2.is_some() {
            let facts = facts_of_text(w2.unwrap());
            self.check_window(facts.trunc, true, result);
        } else if *name == FactorFunction::Div && w1.is_some() && facts_of_text(w1.unwrap()).is_tiny {
            record_error(result, ValidationError::DivisionByZero);
        } else if *name == FactorFunction::Sqrt && w0.is_some() && facts_of_text(
            w0.unwrap(),
        ).is_negative {
            record_error(result, ValidationError::NegativeSqrt);
        } else {
            proof {
                lemma_recorded_none(*result);
            }
        }
    }

    /// Records what the recursive checks find in `expr`: its errors and
    /// warnings are appended to those already in `result`, which stays valid
    /// only if no error was added; the complexity score is kept.
    pub fn validate_recursive(&self, expr: &FactorExpr, result: &mut ValidationResult)
        ensures
            recorded(*old(result), *final(result), findings(self.config(), expr@)),
        decreases expr,
    {
        let ghost r0 = *result;
        match expr {
            FactorExpr::Number(t) => {
                let facts = facts_of_text(t);
                if facts.is_nan {
                    record_warning(result, "Expression contains NaN".to_string());
                } else {
                    proof {
                        lemma_recorded_none(*result);
                    }
                }
                let ghost r1 = *result;
                if facts.is_infinite {
                    record_warning(result, "Expression contains infinity".to_string());
                } else {
                    proof {
                        lemma_recorded_none(*result);
                    }
                }
                proof {
                    let f1 = Findings {
                        errors: Seq::empty(),
                        warnings: if facts.is_nan {
                            seq![nan_warning()]
                        } else {
                            Seq::empty()
                        },
                    };
                    let f2 = Findings {
                        errors: Seq::empty(),
                        warnings: if facts.is_infinite {
                            seq![infinity_warning()]
                        } else {
                            Seq::empty()
                        },
                    };
                    lemma_recorded_trans(r0, r1, *result, f1, f2);
                    assert(join(f1, f2).errors =~= findings(self.config(), expr@).errors);
                }
            },
            FactorExpr::Variable(name) => {
                if !self.variable_known(name) {
                    record_error(result, ValidationError::UnknownVariable(name.clone()));
                } else {
                    proof {
                        lemma_recorded_none(*result);
                    }
                }
            },
            FactorExpr::Function { name, args } => {
                let mut i: usize = 0;
                proof {
                    lemma_recorded_none(*result);
                }
                while i < args.len()
                    invariant
                        i <= args.len(),
                        *expr == (FactorExpr::Function { name: *name, args: *args }),
                        recorded(r0, *result, args_findings(self.config(), expr@->Function_1, i as int)),
                    decreases args.len() - i,
                {
                    proof {
                        assert(decreases_to!(*expr => *args));
                        assert(decreases_to!(*args => args@));
                        assert(decreases_to!(args@ => args@[i as int]));
                        assert(expr@->Function_1[i as int] == args@[i as int]@);
                    }
                    let ghost before = *result;
                    self.validate_recursive(&args[i], result);
                    proof {
                        lemma_recorded_trans(
                            r0,
                            before,
                            *result,
                            args_findings(self.config(), expr@->Function_1, i as int),
                            findings(self.config(), args@[i as int]@),
                        );
                    }
                    i += 1;
                }
                let ghost before = *result;
                self.check_call(name, args, result);
                proof {
                    assert(expr@->Function_1 =~= exprs_view(args@));
                    lemma_recorded_trans(
                        r0,
                        before,
                        *result,
                        args_findings(self.config(), expr@->Function_1, args@.len() as int),
                        call_findings(self.config(), *name, exprs_view(args@)),
                    );
                }
            },
        }
    }

    /// The complexity of an expression in tenths (saturated at `u64::MAX`).
    fn calculate_complexity(&self, expr: &FactorExpr) -> (r: u64)
        ensures
            r == sat_u64(complexity(expr@) as int),
        decreases expr,
    {
        match expr {
            FactorExpr::Number(_) => 1,
            FactorExpr::Variable(_) => 2,
            FactorExpr::Function { name, args } => {
                let mut total: u64 = base_cost_of(name);
                let mut i: usize = 0;
                while i < args.len()
                    invariant
                        i <= args.len(),
                        *expr == (FactorExpr::Function { name: *name, args: *args }),
                        total == sat_u64(
                            (base_cost(*name) + args_complexity(expr@->Function_1, i as int)) as int,
                        ),
                    decreases args.len() - i,
                {
                    proof {
                        assert(decreases_to!(*expr => *args));
                        assert(decreases_to!(*args => args@));
                        assert(decreases_to!(args@ => args@[i as int]));
                        assert(expr@->Function_1[i as int] == args@[i as int]@);
                    }
                    let c = self.calculate_complexity(&args[i]);
                    total = total.saturating_add(c);
                    i += 1;
                }
                total
            },
        }
    }
}

impl Default for FactorValidator {
    fn default() -> (r: Self)
        ensures
            r.config() == default_config(),
    {
        Self::new()
    }
}


// ---------------------------------------------------------------------------
// Laws

proof fn lemma_args_complexity_ge(args: Seq<SpecExpr>, n: int, i: int)
    requires
        0 <= i < n <= args.len(),
    ensures
        args_complexity(args, n) >= complexity(args[i]),
    decreases n,
{
    if i < n - 1 {
        lemma_args_complexity_ge(args, n - 1, i);
    }
}

/// Law: a call is strictly more complex than each of its arguments.
pub proof fn law_call_costs_more_than_arguments(f: FactorFunction, args: Seq<SpecExpr>, i: int)
    requires
        0 <= i < args.len(),
    ensures
        complexity(SpecExpr::Function(f, args)) > complexity(args[i]),
{
    lemma_args_complexity_ge(args, args.len() as int, i);
}

/// No finding of `args_findings(c, args, n)` is an unknown-variable error
/// when unknown variables are allowed.
proof fn lemma_args_no_unknown(c: SpecValidatorConfig, args: Seq<SpecExpr>, n: int)
    requires
        c.allow_unknown_variables,
    ensures
        forall|k: int|
            0 <= k < args_findings(c, args, n).errors.len() ==> !(
            #[trigger] args_findings(c, args, n).errors[k] is UnknownVariable),
    decreases args, n,
{
    if 0 < n <= args.len() {
        lemma_args_no_unknown(c, args, n - 1);
        law_unknown_variables_allowed(c, args[n - 1]);
    }
}

/// Law: when the configuration allows unknown variables, validation reports
/// no unknown-variable error.
pub proof fn law_unknown_variables_allowed(c: SpecValidatorConfig, e: SpecExpr)
    requires
        c.allow_unknown_variables,
    ensures
        forall|k: int|
            0 <= k < findings(c, e).errors.len() ==> !(
            #[trigger] findings(c, e).errors[k] is UnknownVariable),
    decreases e,
{
    if let SpecExpr::Function(f, args) = e {
        lemma_args_no_unknown(c, args, args.len() as int);
        let a = args_findings(c, args, args.len() as int);
        let b = call_findings(c, f, args);
        assert forall|k: int| 0 <= k < findings(c, e).errors.len() implies !(
        #[trigger] findings(c, e).errors[k] is UnknownVariable) by {
            if k < a.errors.len() {
                assert(findings(c, e).errors[k] == a.errors[k]);
            } else {
                assert(findings(c, e).errors[k] == b.errors[k - a.errors.len()]);
            }
        }
    }
}


/// The names of the unknown-variable errors among `errs`, in order.
pub open spec fn unknown_names(errs: Seq<SpecValidationError>) -> Seq<Seq<char>>
    decreases errs.len(),
{
    if errs.len() == 0 {
        Seq::empty()
    } else {
        unknown_names(errs.drop_last()) + match errs.last() {
            SpecValidationError::UnknownVariable(n) => seq![n],
            _ => Seq::empty(),
        }
    }
}

/// Whether the configuration refuses a variable name.
pub open spec fn refuses(c: SpecValidatorConfig, n: Seq<char>) -> bool {
    !c.allow_unknown_variables && !c.known_variables.contains(n)
}

/// The names among `names` that the configuration refuses, in order.
pub open spec fn refused_names(c: SpecValidatorConfig, names: Seq<Seq<char>>) -> Seq<Seq<char>>
    decreases names.len(),
{
    if names.len() == 0 {
        Seq::empty()
    } else {
        refused_names(c, names.drop_last()) + if refuses(c, names.last()) {
            seq![names.last()]
        } else {
            Seq::empty()
        }
    }
}

proof fn lemma_unknown_names_add(a: Seq<SpecValidationError>, b: Seq<SpecValidationError>)
    ensures
        unknown_names(a + b) == unknown_names(a) + unknown_names(b),
    decreases b.len(),
{
    if b.len() == 0 {
        assert(a + b =~= a);
        assert(unknown_names(a) + unknown_names(b) =~= unknown_names(a));
    } else {
        lemma_unknown_names_add(a, b.drop_last());
        assert((a + b).drop_last() =~= a + b.drop_last());
        assert((a + b).last() == b.last());
        assert(unknown_names(a + b) =~= unknown_names(a) + unknown_names(b));
    }
}

proof fn lemma_refused_names_add(c: SpecValidatorConfig, a: Seq<Seq<char>>, b: Seq<Seq<char>>)
    ensures
        refused_names(c, a + b) == refused_names(c, a) + refused_names(c, b),
    decreases b.len(),
{
    if b.len() == 0 {
        assert(a + b =~= a);
        assert(refused_names(c, a) + refused_names(c, b) =~= refused_names(c, a));
    } else {
        lemma_refused_names_add(c, a, b.drop_last());
        assert((a + b).drop_last() =~= a + b.drop_last());
        assert((a + b).last() == b.last());
        assert(refused_names(c, a + b) =~= refused_names(c, a) + refused_names(c, b));
    }
}

proof fn lemma_call_findings_shape(c: SpecValidatorConfig, f: FactorFunction, args: Seq<SpecExpr>)
    ensures
        unknown_names(call_findings(c, f, args).errors) == Seq::<Seq<char>>::empty(),
        forall|k: int|
            0 <= k < call_findings(c, f, args).errors.len() ==> !(
            #[trigger] call_findings(c, f, args).errors[k] is TooComplex),
{
    let errs = call_findings(c, f, args).errors;
    assert(errs.len() <= 1);
    if errs.len() == 1 {
        assert(errs.drop_last() =~= Seq::<SpecValidationError>::empty());
        assert(unknown_names(errs.drop_last()) =~= Seq::<Seq<char>>::empty());
        assert(unknown_names(errs) =~= Seq::<Seq<char>>::empty());
    }
}

proof fn lemma_args_unknown_in_order(c: SpecValidatorConfig, args: Seq<SpecExpr>, n: int)
    ensures
        unknown_names(args_findings(c, args, n).errors) == refused_names(
            c,
            variables_of(args, n),
        ),
        forall|k: int|
            0 <= k < args_findings(c, args, n).errors.len() ==> !(
            #[trigger] args_findings(c, args, n).errors[k] is TooComplex),
    decreases args, n,
{
    if 0 < n <= args.len() {
        lemma_args_unknown_in_order(c, args, n - 1);
        law_unknown_variables_in_order(c, args[n - 1]);
        let a = args_findings(c, args, n - 1).errors;
        let b = findings(c, args[n - 1]).errors;
        lemma_unknown_names_add(a, b);
        lemma_refused_names_add(c, variables_of(args, n - 1), spec_variables(args[n - 1]));
        assert forall|k: int| 0 <= k < (a + b).len() implies !(#[trigger] (a + b)[k] is TooComplex) by {
            if k < a.len() {
                assert((a + b)[k] == a[k]);
            } else {
                assert((a + b)[k] == b[k - a.len()]);
            }
        }
    } else {
        assert(unknown_names(Seq::empty()) =~= Seq::<Seq<char>>::empty());
        assert(refused_names(c, Seq::empty()) =~= Seq::<Seq<char>>::empty());
    }
}

/// Law: the unknown-variable errors that the checks report are, in order,
/// the variables of the expression (repeats included) that the
/// configuration refuses; no check reports a `TooComplex` error.
pub proof fn law_unknown_variables_in_order(c: SpecValidatorConfig, e: SpecExpr)
    ensures
        unknown_names(findings(c, e).errors) == refused_names(c, spec_variables(e)),
        forall|k: int|
            0 <= k < findings(c, e).errors.len() ==> !(#[trigger] findings(c, e).errors[k] is TooComplex),
    decreases e,
{
    match e {
        SpecExpr::Number(_) => {
            assert(unknown_names(Seq::empty()) =~= Seq::<Seq<char>>::empty());
            assert(refused_names(c, Seq::empty()) =~= Seq::<Seq<char>>::empty());
        },
        SpecExpr::Variable(n) => {
            let errs = findings(c, e).errors;
            assert(seq![n].drop_last() =~= Seq::<Seq<char>>::empty());
            assert(refused_names(c, Seq::empty()) =~= Seq::<Seq<char>>::empty());
            assert(unknown_names(Seq::empty()) =~= Seq::<Seq<char>>::empty());
            if refuses(c, n) {
                assert(errs.drop_last() =~= Seq::<SpecValidationError>::empty());
                assert(unknown_names(errs) =~= seq![n]);
                assert(refused_names(c, seq![n]) =~= seq![n]);
            } else {
                assert(refused_names(c, seq![n]) =~= Seq::<Seq<char>>::empty());
            }
        },
        SpecExpr::Function(f, args) => {
            lemma_args_unknown_in_order(c, args, args.len() as int);
            lemma_call_findings_shape(c, f, args);
            let a = args_findings(c, args, args.len() as int).errors;
            let b = call_findings(c, f, args).errors;
            lemma_unknown_names_add(a, b);
            assert(refused_names(c, variables_of(args, args.len() as int)) + Seq::<Seq<char>>::empty()
                =~= refused_names(c, variables_of(args, args.len() as int)));
            assert forall|k: int| 0 <= k < (a + b).len() implies !(#[trigger] (a + b)[k] is TooComplex) by {
                if k < a.len() {
                    assert((a + b)[k] == a[k]);
                } else {
                    assert((a + b)[k] == b[k - a.len()]);
                }
            }
        },
    }
}

/// Law: `validate` reports a `TooComplex` error, carrying the depth and the
/// maximum, as its first error exactly when the depth exceeds the maximum.
pub proof fn law_too_complex_first(c: SpecValidatorConfig, e: SpecExpr)
    ensures
        ({
            let d = sat_usize(spec_depth(e) as int);
            let r = report_errors(c, e);
            (r.len() > 0 && r[0] == SpecValidationError::TooComplex(d, c.max_depth)) <==> d
                > c.max_depth
        }),
{
    law_unknown_variables_in_order(c, e);
    let d = sat_usize(spec_depth(e) as int);
    let r = report_errors(c, e);
    if d <= c.max_depth {
        assert(r =~= findings(c, e).errors);
        if r.len() > 0 {
            assert(!(findings(c, e).errors[0] is TooComplex));
        }
    }
}

/// Law: recording the checks of an expression keeps the errors already
/// recorded in front, appends as unknown-variable errors exactly the refused
/// variables of the expression in order, and leaves the result valid only if
/// it was valid and no error was added.
pub proof fn law_recorded_unknown_variables(
    c: SpecValidatorConfig,
    e: SpecExpr,
    before: ValidationResult,
    after: ValidationResult,
)
    requires
        recorded(before, after, findings(c, e)),
    ensures
        errors_view(after.errors@).take(before.errors@.len() as int) == errors_view(before.errors@),
        strings_of(after.warnings@).take(before.warnings@.len() as int) == strings_of(before.warnings@),
        unknown_names(errors_view(after.errors@).skip(before.errors@.len() as int)) == refused_names(
            c,
            spec_variables(e),
        ),
        after.is_valid == (before.is_valid && after.errors@.len() == before.errors@.len()),
        after.complexity_tenths == before.complexity_tenths,
{
    law_unknown_variables_in_order(c, e);
    let old_errors = errors_view(before.errors@);
    let new_errors = errors_view(after.errors@);
    assert(new_errors.take(old_errors.len() as int) =~= old_errors);
    assert(new_errors.skip(old_errors.len() as int) =~= findings(c, e).errors);
    let old_warnings = strings_of(before.warnings@);
    let new_warnings = strings_of(after.warnings@);
    assert(new_warnings.take(old_warnings.len() as int) =~= old_warnings);
}

/// Law: a time-series or price function (`ts_rank`, `ts_sum`, `ts_mean`,
/// `ts_std`, `ts_min`, `ts_max`, `ts_argmax`, `ts_argmin`, `ts_delay`,
/// `ts_delta`, `ts_decay`, `returns`, `log_returns`, `volatility`) whose
/// second argument is a number `w` (as an `i64`) adds, after the findings of
/// its arguments, an `InvalidWindowSize(w)` error when `w <= 0`, a
/// `WindowTooLarge(w, max)` error when `w` exceeds the configured maximum,
/// and nothing else.
pub proof fn law_windows_are_checked(c: SpecValidatorConfig, f: FactorFunction, args: Seq<SpecExpr>)
    requires
        f == FactorFunction::TsRank || f == FactorFunction::TsSum || f == FactorFunction::TsMean
            || f == FactorFunction::TsStd || f == FactorFunction::TsMin || f == FactorFunction::TsMax
            || f == FactorFunction::TsArgmax || f == FactorFunction::TsArgmin
            || f == FactorFunction::TsDelay || f == FactorFunction::TsDelta
            || f == FactorFunction::TsDecay || f == FactorFunction::Returns
            || f == FactorFunction::LogReturns || f == FactorFunction::Volatility,
        args.len() > 1,
        args[1] is Number,
    ensures
        ({
            let w = text_facts(args[1]->Number_0).trunc;
            let before = args_findings(c, args, args.len() as int);
            let found = findings(c, SpecExpr::Function(f, args));
            &&& w <= 0 ==> found.errors == before.errors.push(SpecValidationError::InvalidWindowSize(w))
            &&& 0 < w && w > c.max_window_size ==> found.errors == before.errors.push(
                SpecValidationError::WindowTooLarge(w, c.max_window_size),
            )
            &&& 0 < w && w <= c.max_window_size ==> found.errors == before.errors
            &&& found.warnings == before.warnings
        }),
{
    let w = text_facts(args[1]->Number_0).trunc;
    let before = args_findings(c, args, args.len() as int);
    let found = findings(c, SpecExpr::Function(f, args));
    assert(found == join(before, call_findings(c, f, args)));
    assert(found.warnings =~= before.warnings);
    if w <= 0 {
        assert(found.errors =~= before.errors.push(SpecValidationError::InvalidWindowSize(w)));
    } else if w > c.max_window_size {
        assert(found.errors =~= before.errors.push(
            SpecValidationError::WindowTooLarge(w, c.max_window_size),
        ));
    } else {
        assert(found.errors =~= before.errors);
    }
}

/// Law: `correlation` and `covariance` with a number `w` (as an `i64`) as
/// third argument add, after the findings of their arguments, the same
/// window errors, and a warning when `w < 2`.
pub proof fn law_pair_windows_are_checked(c: SpecValidatorConfig, f: FactorFunction, args: Seq<SpecExpr>)
    requires
        f == FactorFunction::Correlation || f == FactorFunction::Covariance,
        args.len() > 2,
        args[2] is Number,
    ensures
        ({
            let w = text_facts(args[2]->Number_0).trunc;
            let before = args_findings(c, args, args.len() as int);
            let found = findings(c, SpecExpr::Function(f, args));
            &&& w <= 0 ==> found.errors == before.errors.push(SpecValidationError::InvalidWindowSize(w))
            &&& 0 < w && w > c.max_window_size ==> found.errors == before.errors.push(
                SpecValidationError::WindowTooLarge(w, c.max_window_size),
            )
            &&& 0 < w && w <= c.max_window_size ==> found.errors == before.errors
            &&& w < 2 ==> found.warnings == before.warnings.push(
                "Correlation with window < 2 is meaningless"@,
            )
            &&& w >= 2 ==> found.warnings == before.warnings
        }),
{
    let w = text_facts(args[2]->Number_0).trunc;
    let before = args_findings(c, args, args.len() as int);
    let found = findings(c, SpecExpr::Function(f, args));
    assert(found == join(before, call_findings(c, f, args)));
    if w < 2 {
        assert(found.warnings =~= before.warnings.push(short_correlation_warning()));
    } else {
        assert(found.warnings =~= before.warnings);
    }
    if w <= 0 {
        assert(found.errors =~= before.errors.push(SpecValidationError::InvalidWindowSize(w)));
    } else if w > c.max_window_size {
        assert(found.errors =~= before.errors.push(
            SpecValidationError::WindowTooLarge(w, c.max_window_size),
        ));
    } else {
        assert(found.errors =~= before.errors);
    }
}

/// Law: `div` with a number as second argument adds, after the findings of
/// its arguments, a `DivisionByZero` error exactly when that number's
/// magnitude is below `1e-10`; `sqrt` of a number adds a `NegativeSqrt`
/// error exactly when the number is below zero.
pub proof fn law_division_and_sqrt_checks(c: SpecValidatorConfig, f: FactorFunction, args: Seq<SpecExpr>)
    ensures
        f == FactorFunction::Div && args.len() > 1 && args[1] is Number ==> findings(
            c,
            SpecExpr::Function(f, args),
        ) == join(
            args_findings(c, args, args.len() as int),
            Findings {
                errors: if text_facts(args[1]->Number_0).is_tiny {
                    seq![SpecValidationError::DivisionByZero]
                } else {
                    Seq::empty()
                },
                warnings: Seq::empty(),
            },
        ),
        f == FactorFunction::Sqrt && args.len() > 0 && args[0] is Number ==> findings(
            c,
            SpecExpr::Function(f, args),
        ) == join(
            args_findings(c, args, args.len() as int),
            Findings {
                errors: if text_facts(args[0]->Number_0).is_negative {
                    seq![SpecValidationError::NegativeSqrt]
                } else {
                    Seq::empty()
                },
                warnings: Seq::empty(),
            },
        ),
{
}

/// Law: a call of a function that takes no window and is neither `div`
/// nor `sqrt` adds nothing to the findings of its arguments.
pub proof fn law_other_calls_add_nothing(c: SpecValidatorConfig, f: FactorFunction, args: Seq<SpecExpr>)
    requires
        f == FactorFunction::Rank || f == FactorFunction::Zscore || f == FactorFunction::Scale
            || f == FactorFunction::Demean || f == FactorFunction::Abs || f == FactorFunction::Sign
            || f == FactorFunction::Log || f == FactorFunction::Power || f == FactorFunction::Max
            || f == FactorFunction::Min || f == FactorFunction::Add || f == FactorFunction::Sub
            || f == FactorFunction::Mul || f == FactorFunction::IfElse,
    ensures
        findings(c, SpecExpr::Function(f, args)) == args_findings(c, args, args.len() as int),
{
    let before = args_findings(c, args, args.len() as int);
    assert(join(before, no_findings()) =~= before);
}

} // verus!
