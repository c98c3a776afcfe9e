use llm_factor_discovery::evaluation::ic::IcCalculator;
use llm_factor_discovery::utils::metrics::CounterTable;
use llm_factor_discovery::utils::config::{
    default_api_key_env, default_cache_dir, default_exchange, default_log_format,
    default_log_level, default_max_tokens, default_model, default_provider,
    default_rebalance_days, default_timeframe, default_universe, detect_config_format,
    ConfigFormat, DataSettings, LoggingSettings,
};

#[test]
fn ic_calculator_periods() {
    assert_eq!(IcCalculator::new().forward_periods(), &[1, 5, 10, 20]);
    assert_eq!(IcCalculator::default().forward_periods(), &[1, 5, 10, 20]);
    assert_eq!(IcCalculator::with_periods(vec![3, 7]).forward_periods(), &[3, 7]);
    assert!(IcCalculator::with_periods(vec![]).forward_periods().is_empty());
}

#[test]
fn settings_defaults() {
    assert_eq!(default_provider(), "openai");
    assert_eq!(default_model(), "gpt-4");
    assert_eq!(default_max_tokens(), 2000);
    assert_eq!(default_api_key_env(), "OPENAI_API_KEY");
    assert_eq!(default_exchange(), "bybit");
    assert_eq!(default_timeframe(), "1d");
    assert_eq!(default_cache_dir(), ".cache");
    assert_eq!(default_rebalance_days(), 1);
    assert_eq!(default_log_level(), "info");
    assert_eq!(default_log_format(), "text");
    assert_eq!(
        default_universe(),
        vec!["BTCUSDT", "ETHUSDT", "BNBUSDT", "SOLUSDT", "XRPUSDT"]
            .into_iter()
            .map(String::from)
            .collect::<Vec<_>>()
    );
}

#[test]
fn data_and_logging_defaults() {
    let data = DataSettings::default();
    assert_eq!(data.exchange, "bybit");
    assert!(!data.testnet);
    assert_eq!(data.timeframe, "1d");
    assert_eq!(data.universe.len(), 5);
    assert_eq!(data.cache_dir, ".cache");

    let logging = LoggingSettings::default();
    assert_eq!(logging.level, "info");
    assert_eq!(logging.format, "text");
    assert_eq!(logging.file, None);
}

#[test]
fn config_formats() {
    assert_eq!(detect_config_format("  {\"llm\": {}}"), ConfigFormat::Json);
    assert_eq!(detect_config_format("llm:\n  provider: openai\n"), ConfigFormat::Yaml);
    assert_eq!(detect_config_format("[llm]\nprovider = \"openai\"\n"), ConfigFormat::Toml);
    assert_eq!(detect_config_format("url = \"http://x\""), ConfigFormat::Toml);
    assert_eq!(detect_config_format(""), ConfigFormat::Toml);
}

#[test]
fn counters_count_by_name() {
    let mut counters = CounterTable::new();
    assert_eq!(counters.get("test_counter"), 0);
    counters.increment("test_counter");
    counters.increment("test_counter");
    counters.increment("other");
    assert_eq!(counters.get("test_counter"), 2);
    assert_eq!(counters.get("other"), 1);
    assert_eq!(counters.get("missing"), 0);
}
