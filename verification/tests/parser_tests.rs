use llm_factor_discovery::parser::expression::{FactorExpr, FactorExprError, FactorFunction};
use llm_factor_discovery::parser::lexer::{FactorLexer, LexerError, TokenKind};

fn number_value(kind: &TokenKind) -> Option<f64> {
    match kind {
        TokenKind::Number(text) => text.parse::<f64>().ok(),
        _ => None,
    }
}

// ---------------------------------------------------------------------------
// Lexer

#[test]
fn test_tokenize_simple() {
    let mut lexer = FactorLexer::new("rank(close)");
    let tokens = lexer.tokenize().unwrap();

    assert_eq!(tokens.len(), 5); // rank, (, close, ), EOF
    assert!(matches!(tokens[0].kind, TokenKind::Ident(ref s) if s == "rank"));
    assert_eq!(tokens[1].kind, TokenKind::LParen);
    assert!(matches!(tokens[2].kind, TokenKind::Ident(ref s) if s == "close"));
    assert_eq!(tokens[3].kind, TokenKind::RParen);
    assert_eq!(tokens[4].kind, TokenKind::Eof);
}

#[test]
fn test_tokenize_numbers() {
    let mut lexer = FactorLexer::new("ts_mean(close, 20)");
    let tokens = lexer.tokenize().unwrap();

    assert!(matches!(number_value(&tokens[3].kind), Some(n) if (n - 20.0).abs() < 1e-10));
}

#[test]
fn test_tokenize_negative_number() {
    let mut lexer = FactorLexer::new("-5");
    let tokens = lexer.tokenize().unwrap();

    assert!(matches!(number_value(&tokens[0].kind), Some(n) if (n - (-5.0)).abs() < 1e-10));
}

#[test]
fn test_tokenize_scientific_notation() {
    let mut lexer = FactorLexer::new("1.5e-3");
    let tokens = lexer.tokenize().unwrap();

    assert!(matches!(number_value(&tokens[0].kind), Some(n) if (n - 0.0015).abs() < 1e-10));
}

#[test]
fn lexer_positions_are_byte_offsets() {
    let mut lexer = FactorLexer::new("  _é + 3.5");
    let tokens = lexer.tokenize().unwrap();
    assert_eq!(tokens.len(), 4);
    assert!(matches!(tokens[0].kind, TokenKind::Ident(ref s) if s == "_é"));
    assert_eq!(tokens[0].position, 2);
    assert_eq!(tokens[0].length, 3);
    assert_eq!(tokens[1].kind, TokenKind::Plus);
    assert_eq!(tokens[1].position, 6);
    assert_eq!(tokens[2].kind, TokenKind::Number("3.5".to_string()));
    assert_eq!(tokens[2].position, 8);
    assert_eq!(tokens[2].length, 3);
    assert_eq!(tokens[3].kind, TokenKind::Eof);
    assert_eq!(tokens[3].position, 11);

    let mut lexer = FactorLexer::new("é");
    assert_eq!(lexer.tokenize().unwrap_err(), LexerError::UnexpectedChar('é', 0));
}

#[test]
fn lexer_minus_and_operators() {
    let mut lexer = FactorLexer::new("a - b * c / -.5");
    let tokens = lexer.tokenize().unwrap();
    let kinds: Vec<TokenKind> = tokens.into_iter().map(|t| t.kind).collect();
    assert_eq!(
        kinds,
        vec![
            TokenKind::Ident("a".to_string()),
            TokenKind::Minus,
            TokenKind::Ident("b".to_string()),
            TokenKind::Star,
            TokenKind::Ident("c".to_string()),
            TokenKind::Slash,
            TokenKind::Number("-0.5".to_string()),
            TokenKind::Eof,
        ]
    );
}

#[test]
fn lexer_commas_separate_tokens() {
    let mut lexer = FactorLexer::new("max(a,b , 2)");
    let kinds: Vec<TokenKind> = lexer.tokenize().unwrap().into_iter().map(|t| t.kind).collect();
    assert_eq!(
        kinds,
        vec![
            TokenKind::Ident("max".to_string()),
            TokenKind::LParen,
            TokenKind::Ident("a".to_string()),
            TokenKind::Ident("b".to_string()),
            TokenKind::Number("2".to_string()),
            TokenKind::RParen,
            TokenKind::Eof,
        ]
    );
}

#[test]
fn lexer_errors() {
    let mut lexer = FactorLexer::new("rank(#)");
    assert_eq!(lexer.tokenize().unwrap_err(), LexerError::UnexpectedChar('#', 5));

    let mut lexer = FactorLexer::new("x 1e");
    assert_eq!(lexer.tokenize().unwrap_err(), LexerError::InvalidNumber(2));

    let mut lexer = FactorLexer::new(".");
    assert_eq!(lexer.tokenize().unwrap_err(), LexerError::InvalidNumber(0));
}

#[test]
fn lexer_empty_input_gives_eof() {
    let mut lexer = FactorLexer::new("   ");
    let tokens = lexer.tokenize().unwrap();
    assert_eq!(tokens.len(), 1);
    assert_eq!(tokens[0].kind, TokenKind::Eof);
    assert_eq!(tokens[0].position, 3);
    assert_eq!(tokens[0].length, 0);
}

// ---------------------------------------------------------------------------
// Expressions

#[test]
fn test_parse_number() {
    let expr = FactorExpr::parse("42").unwrap();
    assert_eq!(expr, FactorExpr::Number("42".to_string()));
}

#[test]
fn test_parse_variable() {
    let expr = FactorExpr::parse("close").unwrap();
    assert_eq!(expr, FactorExpr::Variable("close".to_string()));
}

#[test]
fn test_parse_simple_function() {
    let expr = FactorExpr::parse("rank(close)").unwrap();
    assert!(matches!(
        expr,
        FactorExpr::Function {
            name: FactorFunction::Rank,
            ..
        }
    ));
}

#[test]
fn test_parse_nested_function() {
    let expr = FactorExpr::parse("rank(ts_mean(returns(close, 5), 20))").unwrap();
    assert!(matches!(
        expr,
        FactorExpr::Function {
            name: FactorFunction::Rank,
            ..
        }
    ));
    assert_eq!(expr.depth(), 4);
}

#[test]
fn test_parse_correlation() {
    let expr = FactorExpr::parse("correlation(returns(close, 1), volume, 60)").unwrap();
    let vars = expr.variables();
    assert!(vars.contains(&"close".to_string()));
    assert!(vars.contains(&"volume".to_string()));
}

#[test]
fn test_unknown_function() {
    let result = FactorExpr::parse("unknown_func(close)");
    assert!(matches!(result, Err(FactorExprError::UnknownFunction(_))));
}

#[test]
fn test_display() {
    let expr = FactorExpr::parse("rank(ts_mean(close, 20))").unwrap();
    assert_eq!(expr.to_string(), "rank(ts_mean(close, 20))");
}

#[test]
fn test_parser_basic_expressions() {
    let expressions = vec![
        "close",
        "rank(close)",
        "ts_mean(close, 20)",
        "rank(ts_mean(returns(close, 5), 20))",
    ];

    for expr in expressions {
        let result = FactorExpr::parse(expr);
        assert!(result.is_ok(), "Failed to parse: {}", expr);
    }
}

#[test]
fn test_parser_all_functions() {
    let functions = vec![
        // Cross-sectional
        ("rank(close)", "rank"),
        ("zscore(close)", "zscore"),
        ("scale(close)", "scale"),
        ("demean(close)", "demean"),
        // Time series
        ("ts_rank(close, 10)", "ts_rank"),
        ("ts_sum(close, 10)", "ts_sum"),
        ("ts_mean(close, 10)", "ts_mean"),
        ("ts_std(close, 10)", "ts_std"),
        ("ts_min(close, 10)", "ts_min"),
        ("ts_max(close, 10)", "ts_max"),
        ("ts_delay(close, 5)", "ts_delay"),
        ("ts_delta(close, 5)", "ts_delta"),
        // Price operations
        ("returns(close, 5)", "returns"),
        ("log_returns(close, 5)", "log_returns"),
        ("volatility(close, 20)", "volatility"),
        // Statistical
        ("correlation(close, volume, 20)", "correlation"),
        ("covariance(close, volume, 20)", "covariance"),
        // Math
        ("abs(close)", "abs"),
        ("sign(close)", "sign"),
        ("log(volume)", "log"),
        ("sqrt(volume)", "sqrt"),
        ("power(close, 2)", "power"),
        ("max(high, close)", "max"),
        ("min(low, close)", "min"),
    ];

    for (expr, name) in functions {
        let result = FactorExpr::parse(expr);
        assert!(result.is_ok(), "Failed to parse {} ({})", expr, name);
    }
}

#[test]
fn test_parser_nested_expressions() {
    let expr = FactorExpr::parse("rank(zscore(ts_mean(returns(close, 1), 10)))").unwrap();
    assert_eq!(expr.depth(), 5);

    let vars = expr.variables();
    assert_eq!(vars.len(), 1);
    assert!(vars.contains(&"close".to_string()));
}

#[test]
fn test_parser_invalid_expressions() {
    let invalid = vec![
        "",                    // Empty
        "unknown_func(close)", // Unknown function
        "rank(close",          // Unclosed paren
        "rank()",              // Missing arg
        "ts_mean(close)",      // Missing window
    ];

    for expr in invalid {
        let result = FactorExpr::parse(expr);
        assert!(result.is_err(), "Should fail: {}", expr);
    }
}

#[test]
fn test_expression_display() {
    let expr = FactorExpr::parse("rank(ts_mean(close, 20))").unwrap();
    let display = expr.to_string();

    assert_eq!(display, "rank(ts_mean(close, 20))");
}

#[test]
fn parse_error_kinds() {
    assert!(matches!(FactorExpr::parse("  \t "), Err(FactorExprError::EmptyExpression)));
    assert!(matches!(FactorExpr::parse("rank(close"), Err(FactorExprError::UnclosedParen)));
    match FactorExpr::parse("rank()") {
        Err(FactorExprError::InvalidArgCount { function, expected, got }) => {
            assert_eq!(function, "rank");
            assert_eq!(expected, 1);
            assert_eq!(got, 0);
        }
        other => panic!("unexpected {:?}", other),
    }
    match FactorExpr::parse("ts_mean(close)") {
        Err(FactorExprError::InvalidArgCount { function, expected, got }) => {
            assert_eq!(function, "ts_mean");
            assert_eq!(expected, 2);
            assert_eq!(got, 1);
        }
        other => panic!("unexpected {:?}", other),
    }
    match FactorExpr::parse("rank(close) + 1") {
        Err(FactorExprError::ParseError { position, message }) => {
            assert_eq!(position, 10);
            assert_eq!(message, "Unexpected characters after closing parenthesis");
        }
        other => panic!("unexpected {:?}", other),
    }
    match FactorExpr::parse("unknown_func(close)") {
        Err(FactorExprError::UnknownFunction(name)) => assert_eq!(name, "unknown_func"),
        other => panic!("unexpected {:?}", other),
    }
    match FactorExpr::parse("3x") {
        Err(FactorExprError::UnexpectedToken(t)) => assert_eq!(t, "3x"),
        other => panic!("unexpected {:?}", other),
    }
}

#[test]
fn parse_too_deep() {
    let mut text = String::from("close");
    for _ in 0..10 {
        text = format!("abs({})", text);
    }
    assert!(matches!(FactorExpr::parse(&text), Err(FactorExprError::TooDeep(10))));

    let mut text = String::from("close");
    for _ in 0..9 {
        text = format!("abs({})", text);
    }
    let expr = FactorExpr::parse(&text).unwrap();
    assert_eq!(expr.depth(), 10);
}

#[test]
fn parse_function_names_ignore_case_and_aliases() {
    assert_eq!(FactorFunction::from_str("TS_MEAN"), Some(FactorFunction::TsMean));
    assert_eq!(FactorFunction::from_str("decay_linear"), Some(FactorFunction::TsDecay));
    assert_eq!(FactorFunction::from_str("corr"), Some(FactorFunction::Correlation));
    assert_eq!(FactorFunction::from_str("If_Else"), Some(FactorFunction::IfElse));
    assert_eq!(FactorFunction::from_str("ts-mean"), None);
    let expr = FactorExpr::parse("RANK(Delay(close, 3))").unwrap();
    assert_eq!(expr.to_string(), "rank(ts_delay(close, 3))");
}

#[test]
fn arg_counts() {
    assert_eq!(FactorFunction::Rank.arg_count(), (1, 1));
    assert_eq!(FactorFunction::Power.arg_count(), (2, 2));
    assert_eq!(FactorFunction::TsDecay.arg_count(), (2, 2));
    assert_eq!(FactorFunction::Covariance.arg_count(), (3, 3));
    assert_eq!(FactorFunction::IfElse.arg_count(), (3, 3));
}

#[test]
fn parse_numbers_as_doubles_read_them() {
    for (text, shown) in [
        ("-5", "-5"),
        ("1.5e-3", "0.0015"),
        ("0.50", "0.5"),
        (".5", "0.5"),
        ("+7.", "7"),
        ("1e3", "1000"),
        ("-0.0", "0"),
        ("1e400", "inf"),
        ("-1e400", "-inf"),
        ("1e-400", "0"),
        ("nan", "NaN"),
        ("-Infinity", "-inf"),
        ("12345678901", "12345678901"),
        ("-2.25", "-2.25"),
    ] {
        let expr = FactorExpr::parse(text).unwrap();
        assert_eq!(expr, FactorExpr::Number(shown.to_string()));
        assert_eq!(expr.to_string(), shown, "literal {}", text);
    }
    let odd = FactorExpr::Number("abc".to_string());
    assert_eq!(odd.to_string(), "NaN");
}

#[test]
fn variables_are_listed_left_to_right_with_repeats() {
    let expr = FactorExpr::parse("correlation(close, add(volume, close), 10)").unwrap();
    assert_eq!(
        expr.variables(),
        vec!["close".to_string(), "volume".to_string(), "close".to_string()]
    );
    assert_eq!(expr.to_string(), "correlation(close, add(volume, close), 10)");
}

#[test]
fn clone_keeps_the_expression() {
    let expr = FactorExpr::parse("if_else(close, -1, 2.5)").unwrap();
    let copy = expr.clone();
    assert_eq!(copy, expr);
    assert_eq!(copy.to_string(), "if_else(close, -1, 2.5)");
}

#[test]
fn parsed_expressions_stay_within_depth_bound() {
    for text in [
        "close",
        "rank(ts_mean(returns(close, 5), 20))",
        "abs(abs(abs(abs(abs(abs(abs(abs(abs(close)))))))))",
    ] {
        let expr = FactorExpr::parse(text).unwrap();
        assert!(expr.depth() <= 10);
    }
}

#[test]
fn unicode_variable_names() {
    assert_eq!(
        FactorExpr::parse(" éclat ").unwrap(),
        FactorExpr::Variable("éclat".to_string())
    );
    assert_eq!(FactorExpr::parse("_x1").unwrap(), FactorExpr::Variable("_x1".to_string()));
    assert!(matches!(FactorExpr::parse("a-b"), Err(FactorExprError::UnexpectedToken(_))));
}

#[test]
fn numbers_are_kept_in_canonical_form() {
    for text in ["5", "+5", "05", "5.0", "5.", "0.5e1"] {
        assert_eq!(FactorExpr::parse(text).unwrap(), FactorExpr::Number("5".to_string()));
    }
    assert_eq!(FactorExpr::parse("1e1").unwrap(), FactorExpr::Number("10".to_string()));
    assert_eq!(FactorExpr::parse("-.25").unwrap(), FactorExpr::Number("-0.25".to_string()));
}

#[test]
fn printed_expressions_parse_back_to_the_same_tree() {
    for text in [
        "+5",
        "05",
        "1e1",
        "  Rank( TS_MEAN(close ,+20) ) ",
        "if_else(sub(close, open), -1e0, 2.50)",
        "correlation(close, add(volume, close), 10)",
        "ZScore(  volume)",
        "ts_decay(div(close, -0.5), 5)",
    ] {
        let expr = FactorExpr::parse(text).unwrap();
        let again = FactorExpr::parse(&expr.to_string()).unwrap();
        assert_eq!(again, expr, "text {}", text);
    }
}

#[test]
fn function_names_read_back_in_any_case() {
    let all = [
        FactorFunction::Rank,
        FactorFunction::Zscore,
        FactorFunction::Scale,
        FactorFunction::Demean,
        FactorFunction::TsRank,
        FactorFunction::TsSum,
        FactorFunction::TsMean,
        FactorFunction::TsStd,
        FactorFunction::TsMin,
        FactorFunction::TsMax,
        FactorFunction::TsArgmax,
        FactorFunction::TsArgmin,
        FactorFunction::TsDelay,
        FactorFunction::TsDelta,
        FactorFunction::TsDecay,
        FactorFunction::Returns,
        FactorFunction::LogReturns,
        FactorFunction::Volatility,
        FactorFunction::Correlation,
        FactorFunction::Covariance,
        FactorFunction::Abs,
        FactorFunction::Sign,
        FactorFunction::Log,
        FactorFunction::Sqrt,
        FactorFunction::Power,
        FactorFunction::Max,
        FactorFunction::Min,
        FactorFunction::Add,
        FactorFunction::Sub,
        FactorFunction::Mul,
        FactorFunction::Div,
        FactorFunction::IfElse,
    ];
    for f in all {
        let name = f.to_string();
        assert_eq!(FactorFunction::from_str(&name), Some(f.clone()));
        assert_eq!(FactorFunction::from_str(&name.to_uppercase()), Some(f.clone()));
    }
}
