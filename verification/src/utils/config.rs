//! Configuration management
//!
//! The defaults of the data and logging settings and of the other settings'
//! fields, and how the text of a configuration file tells its format.

use vstd::prelude::*;
use crate::text::{first_index, str_chars, strings_of, trim, trim_range};

verus! {

pub fn default_provider() -> (r: String)
    ensures
        r@ == "openai"@,
{
    "openai".to_string()
}

pub fn default_model() -> (r: String)
    ensures
        r@ == "gpt-4"@,
{
    "gpt-4".to_string()
}

pub fn default_max_tokens() -> (r: u32)
    ensures
        r == 2000,
{
    2000
}

pub fn default_api_key_env() -> (r: String)
    ensures
        r@ == "OPENAI_API_KEY"@,
{
    "OPENAI_API_KEY".to_string()
}

pub fn default_exchange() -> (r: String)
    ensures
        r@ == "bybit"@,
{
    "bybit".to_string()
}

pub fn default_timeframe() -> (r: String)
    ensures
        r@ == "1d"@,
{
    "1d".to_string()
}

pub open spec fn default_universe_names() -> Seq<Seq<char>> {
    seq!["BTCUSDT"@, "ETHUSDT"@, "BNBUSDT"@, "SOLUSDT"@, "XRPUSDT"@]
}

pub fn default_universe() -> (r: Vec<String>)
    ensures
        strings_of(r@) == default_universe_names(),
{
    let mut r: Vec<String> = Vec::new();
    r.push("BTCUSDT".to_string());
    r.push("ETHUSDT".to_string());
    r.push("BNBUSDT".to_string());
    r.push("SOLUSDT".to_string());
    r.push("XRPUSDT".to_string());
    assert(strings_of(r@) =~= default_universe_names());
    r
}

pub fn default_cache_dir() -> (r: String)
    ensures
        r@ == ".cache"@,
{
    ".cache".to_string()
}

pub fn default_rebalance_days() -> (r: u32)
    ensures
        r == 1,
{
    1
}

pub fn default_log_level() -> (r: String)
    ensures
        r@ == "info"@,
{
    "info".to_string()
}

pub fn default_log_format() -> (r: String)
    ensures
        r@ == "text"@,
{
    "text".to_string()
}

/// Data source settings
#[derive(Debug, Clone)]
pub struct DataSettings {
    /// Exchange
    pub exchange: String,
    /// Use testnet
    pub testnet: bool,
    /// Default timeframe
    pub timeframe: String,
    /// Universe of symbols
    pub universe: Vec<String>,
    /// Data cache directory
    pub cache_dir: String,
}

impl Default for DataSettings {
    fn default() -> (r: Self)
        ensures
            r.exchange@ == "bybit"@,
            !r.testnet,
            r.timeframe@ == "1d"@,
            strings_of(r.universe@) == default_universe_names(),
            r.cache_dir@ == ".cache"@,
    {
        DataSettings {
            exchange: default_exchange(),
            testnet: false,
            timeframe: default_timeframe(),
            universe: default_universe(),
            cache_dir: default_cache_dir(),
        }
    }
}

/// Logging settings
#[derive(Debug, Clone)]
pub struct LoggingSettings {
    /// Log level
    pub level: String,
    /// Log format (json or text)
    pub format: String,
    /// Output file (optional)
    pub file: Option<String>,
}

impl Default for LoggingSettings {
    fn default() -> (r: Self)
        ensures
            r.level@ == "info"@,
            r.format@ == "text"@,
            r.file is None,
    {
        LoggingSettings { level: default_log_level(), format: default_log_format(), file: None }
    }
}

/// The formats a configuration file can be written in.
#[derive(Debug, Clone, Copy, PartialEq, Eq, Structural)]
pub enum ConfigFormat {
    Json,
    Yaml,
    Toml,
}

/// The format of a configuration text: JSON when it starts (after
/// whitespace) with `{`, YAML when it holds a `:` and no `=`, TOML
/// otherwise.
pub open spec fn config_format(content: Seq<char>) -> ConfigFormat {
    let t = trim(content);
    if t.len() > 0 && t[0] == '{' {
        ConfigFormat::Json
    } else if first_index(content, ':') >= 0 && first_index(content, '=') < 0 {
        ConfigFormat::Yaml
    } else {
        ConfigFormat::Toml
    }
}

/// Detect the format of a configuration text.
pub fn detect_config_format(content: &str) -> (r: ConfigFormat)
    ensures
        r == config_format(content@),
{
    let v = str_chars(content);
    let n = v.len();
    assert(v@.subrange(0, n as int) =~= content@);
    let (a, b) = trim_range(&v, 0, n);
    if a < b && v[a] == '{' {
        return ConfigFormat::Json;
    }
    let colon = crate::text::find_char(&v, 0, n, ':');
    let equals = crate::text::find_char(&v, 0, n, '=');
    if colon.is_some() && equals.is_none() {
        ConfigFormat::Yaml
    } else {
        ConfigFormat::Toml
    }
}

} // verus!
