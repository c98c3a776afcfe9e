use llm_factor_discovery::parser::expression::FactorExpr;
use llm_factor_discovery::parser::validator::{
    FactorValidator, ValidationError, ValidationResult, ValidatorConfig,
};

fn validate(text: &str) -> ValidationResult {
    FactorValidator::new().validate(&FactorExpr::parse(text).unwrap())
}

#[test]
fn test_valid_expression() {
    let validator = FactorValidator::new();
    let expr = FactorExpr::parse("rank(close)").unwrap();
    let result = validator.validate(&expr);
    assert!(result.is_valid);
}

#[test]
fn test_unknown_variable() {
    let validator = FactorValidator::new();
    let expr = FactorExpr::parse("rank(unknown_var)").unwrap();
    let result = validator.validate(&expr);
    assert!(!result.is_valid);
    assert!(matches!(
        result.errors.first(),
        Some(ValidationError::UnknownVariable(_))
    ));
}

#[test]
fn test_invalid_window_size() {
    let validator = FactorValidator::new();
    let expr = FactorExpr::parse("ts_mean(close, -5)").unwrap();
    let result = validator.validate(&expr);
    assert!(!result.is_valid);
    assert!(matches!(
        result.errors.first(),
        Some(ValidationError::InvalidWindowSize(_))
    ));
}

#[test]
fn test_complexity_calculation() {
    let validator = FactorValidator::new();

    let simple_expr = FactorExpr::parse("rank(close)").unwrap();
    let complex_expr =
        FactorExpr::parse("zscore(correlation(returns(close, 1), volume, 60))").unwrap();

    let simple_result = validator.validate(&simple_expr);
    let complex_result = validator.validate(&complex_expr);

    assert!(complex_result.complexity_tenths > simple_result.complexity_tenths);
}

#[test]
fn test_validator_known_variables() {
    let validator = FactorValidator::new();

    let valid_expr = FactorExpr::parse("rank(close)").unwrap();
    let result = validator.validate(&valid_expr);
    assert!(result.is_valid);

    let invalid_expr = FactorExpr::parse("rank(unknown_var)").unwrap();
    let result = validator.validate(&invalid_expr);
    assert!(!result.is_valid);
}

#[test]
fn test_validator_window_size() {
    let validator = FactorValidator::new();

    // Valid window
    let valid = FactorExpr::parse("ts_mean(close, 20)").unwrap();
    let result = validator.validate(&valid);
    assert!(result.is_valid);

    // Invalid negative window
    let invalid = FactorExpr::parse("ts_mean(close, -5)").unwrap();
    let result = validator.validate(&invalid);
    assert!(!result.is_valid);

    // Invalid too large window
    let too_large = FactorExpr::parse("ts_mean(close, 500)").unwrap();
    let result = validator.validate(&too_large);
    assert!(!result.is_valid);
}

#[test]
fn test_complexity_scoring() {
    let validator = FactorValidator::new();

    let simple = FactorExpr::parse("rank(close)").unwrap();
    let complex = FactorExpr::parse("zscore(correlation(returns(close, 1), volume, 60))").unwrap();

    let simple_result = validator.validate(&simple);
    let complex_result = validator.validate(&complex);

    assert!(complex_result.complexity_tenths > simple_result.complexity_tenths);
}

#[test]
fn complexity_in_tenths() {
    // rank 1.0 + close 0.2
    assert_eq!(validate("rank(close)").complexity_tenths, 12);
    // zscore 1.0 + correlation 3.0 + returns 1.0 + close 0.2 + 1 0.1 + volume 0.2 + 60 0.1
    assert_eq!(
        validate("zscore(correlation(returns(close, 1), volume, 60))").complexity_tenths,
        56
    );
    assert_eq!(validate("div(ts_std(close, 5), 2)").complexity_tenths, 5 + 20 + 2 + 1 + 1);
}

#[test]
fn a_call_costs_more_than_each_argument() {
    let validator = FactorValidator::new();
    let call = FactorExpr::parse("ts_sum(abs(close), 3)").unwrap();
    let arg = FactorExpr::parse("abs(close)").unwrap();
    assert!(validator.validate(&call).complexity_tenths > validator.validate(&arg).complexity_tenths);
}

#[test]
fn window_errors_carry_the_window() {
    let result = validate("ts_mean(close, 500)");
    assert!(matches!(result.errors[..], [ValidationError::WindowTooLarge(500, 252)]));
    let result = validate("returns(close, 0)");
    assert!(matches!(result.errors[..], [ValidationError::InvalidWindowSize(0)]));
    // the window is truncated toward zero first
    let result = validate("ts_sum(close, 0.9)");
    assert!(matches!(result.errors[..], [ValidationError::InvalidWindowSize(0)]));
    let result = validate("ts_sum(close, 252.7)");
    assert!(result.is_valid);
    // NaN windows read as 0
    let result = validate("ts_sum(close, nan)");
    assert!(matches!(result.errors[..], [ValidationError::InvalidWindowSize(0)]));
    assert_eq!(result.warnings, vec!["Expression contains NaN".to_string()]);
    // a window that is not a number is not checked
    let result = validate("ts_sum(close, volume)");
    assert!(result.is_valid);
}

#[test]
fn correlation_windows() {
    let result = validate("correlation(close, volume, 1)");
    assert!(result.is_valid);
    assert_eq!(
        result.warnings,
        vec!["Correlation with window < 2 is meaningless".to_string()]
    );
    let result = validate("covariance(close, volume, -3)");
    assert!(matches!(result.errors[..], [ValidationError::InvalidWindowSize(-3)]));
    assert_eq!(result.warnings.len(), 1);
    let result = validate("correlation(close, volume, 300)");
    assert!(matches!(result.errors[..], [ValidationError::WindowTooLarge(300, 252)]));
    assert!(result.warnings.is_empty());
}

#[test]
fn division_and_sqrt_checks() {
    let result = validate("div(close, 0)");
    assert!(matches!(result.errors[..], [ValidationError::DivisionByZero]));
    let result = validate("div(close, 1e-11)");
    assert!(matches!(result.errors[..], [ValidationError::DivisionByZero]));
    assert!(validate("div(close, 1e-10)").is_valid);
    assert!(validate("div(close, -0.5)").is_valid);
    let result = validate("sqrt(-4)");
    assert!(matches!(result.errors[..], [ValidationError::NegativeSqrt]));
    assert!(validate("sqrt(-0.0)").is_valid);
    let result = validate("sqrt(-inf)");
    assert!(matches!(result.errors[..], [ValidationError::NegativeSqrt]));
    assert_eq!(result.warnings, vec!["Expression contains infinity".to_string()]);
}

#[test]
fn errors_come_in_traversal_order() {
    let result = validate("add(ts_mean(foo, -1), sqrt(-2))");
    assert_eq!(result.errors.len(), 3);
    assert!(matches!(result.errors[0], ValidationError::UnknownVariable(ref n) if n == "foo"));
    assert!(matches!(result.errors[1], ValidationError::InvalidWindowSize(-1)));
    assert!(matches!(result.errors[2], ValidationError::NegativeSqrt));
}

#[test]
fn too_deep_for_the_configuration() {
    let mut config = ValidatorConfig::default();
    config.max_depth = 2;
    let validator = FactorValidator::with_config(config);
    let result = validator.validate(&FactorExpr::parse("rank(abs(close))").unwrap());
    assert!(!result.is_valid);
    assert!(matches!(result.errors[..], [ValidationError::TooComplex(3, 2)]));
}

#[test]
fn unknown_variables_may_be_allowed() {
    let mut config = ValidatorConfig::default();
    config.allow_unknown_variables = true;
    let validator = FactorValidator::with_config(config);
    let result = validator.validate(&FactorExpr::parse("add(foo, bar)").unwrap());
    assert!(result.is_valid);
    assert!(result.errors.is_empty());
}

#[test]
fn custom_known_variables() {
    let config = ValidatorConfig {
        known_variables: vec!["oi".to_string()],
        max_depth: 10,
        max_window_size: 10,
        allow_unknown_variables: false,
    };
    let validator = FactorValidator::with_config(config);
    assert!(validator.validate(&FactorExpr::parse("ts_mean(oi, 10)").unwrap()).is_valid);
    let result = validator.validate(&FactorExpr::parse("ts_mean(close, 11)").unwrap());
    assert_eq!(result.errors.len(), 2);
}

#[test]
fn result_helpers() {
    let mut result = ValidationResult::new();
    assert!(result.is_valid);
    result.add_warning("w".to_string());
    assert!(result.is_valid);
    result.add_error(ValidationError::DivisionByZero);
    assert!(!result.is_valid);
    assert_eq!(result.errors.len(), 1);
    assert_eq!(result.warnings, vec!["w".to_string()]);
    let fresh = ValidationResult::default();
    assert!(fresh.is_valid && fresh.errors.is_empty() && fresh.complexity_tenths == 0);
}

#[test]
fn default_configuration() {
    let config = ValidatorConfig::default();
    assert_eq!(
        config.known_variables,
        vec!["open", "high", "low", "close", "volume", "vwap", "returns"]
            .into_iter()
            .map(String::from)
            .collect::<Vec<_>>()
    );
    assert_eq!(config.max_depth, 10);
    assert_eq!(config.max_window_size, 252);
    assert!(!config.allow_unknown_variables);
}

#[test]
fn unknown_variables_are_reported_in_order_with_repeats() {
    let expr = FactorExpr::parse("add(foo, mul(close, add(bar, foo)))").unwrap();
    let result = FactorValidator::new().validate(&expr);
    let unknown: Vec<String> = result
        .errors
        .iter()
        .filter_map(|e| match e {
            ValidationError::UnknownVariable(n) => Some(n.clone()),
            _ => None,
        })
        .collect();
    let expected: Vec<String> = expr
        .variables()
        .into_iter()
        .filter(|v| v != "close")
        .collect();
    assert_eq!(unknown, expected);
    assert_eq!(unknown, vec!["foo".to_string(), "bar".to_string(), "foo".to_string()]);
    assert!(!result.is_valid);
}

#[test]
fn too_complex_comes_first_and_validity_means_no_errors() {
    let mut config = ValidatorConfig::default();
    config.max_depth = 1;
    let validator = FactorValidator::with_config(config);
    let result = validator.validate(&FactorExpr::parse("rank(foo)").unwrap());
    assert!(matches!(result.errors[0], ValidationError::TooComplex(2, 1)));
    assert!(matches!(result.errors[1], ValidationError::UnknownVariable(ref n) if n == "foo"));
    assert_eq!(result.is_valid, result.errors.is_empty());

    let shallow = validator.validate(&FactorExpr::parse("close").unwrap());
    assert!(shallow.is_valid && shallow.errors.is_empty());
}

#[test]
fn recursive_checks_append_to_what_was_recorded() {
    let validator = FactorValidator::new();
    let mut result = ValidationResult::new();
    result.add_error(ValidationError::DivisionByZero);
    result.add_warning("w".to_string());
    let before_score = result.complexity_tenths;
    let expr = FactorExpr::parse("add(foo, sqrt(-1))").unwrap();
    validator.validate_recursive(&expr, &mut result);
    assert_eq!(result.errors.len(), 3);
    assert!(matches!(result.errors[0], ValidationError::DivisionByZero));
    assert!(matches!(result.errors[1], ValidationError::UnknownVariable(ref n) if n == "foo"));
    assert!(matches!(result.errors[2], ValidationError::NegativeSqrt));
    assert_eq!(result.warnings, vec!["w".to_string()]);
    assert!(!result.is_valid);
    assert_eq!(result.complexity_tenths, before_score);

    let mut clean = ValidationResult::new();
    validator.validate_recursive(&FactorExpr::parse("rank(close)").unwrap(), &mut clean);
    assert!(clean.is_valid && clean.errors.is_empty() && clean.warnings.is_empty());
}
