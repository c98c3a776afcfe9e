//! Prompt builder for factor generation
//!
//! Builds the prompts that ask a language model for alpha factors: a system
//! prompt describing the expression language, and prompts for a hypothesis,
//! for market observations, for refining backtested factors and for
//! explaining one factor. Each prompt is a fixed template with the given
//! values put in.

use vstd::prelude::*;
use crate::text::{
    contains_text, decimal, joined, lemma_contains_in_context, lemma_contains_self,
    lemma_joined_contains, push_decimal, push_joined, strings_of,
};

verus! {

// ---------------------------------------------------------------------------
// Templates

pub const SYSTEM_INTRO: &'static str = r#"You are an expert quantitative researcher specializing in alpha factor discovery for "#;

pub const SYSTEM_FUNCTIONS: &'static str = r#".

Your task is to generate novel alpha factors that can predict future returns.

## Available Functions

### Cross-sectional Operations (applied across all assets at each time point):
- `rank(x)` - Cross-sectional rank, normalized to [-1, 1]
- `zscore(x)` - Cross-sectional z-score standardization
- `scale(x)` - Scale to sum to 1
- `demean(x)` - Subtract cross-sectional mean

### Time Series Operations (applied to each asset's history):
- `ts_rank(x, d)` - Rank of current value in last d periods
- `ts_sum(x, d)` - Sum over last d periods
- `ts_mean(x, d)` - Mean over last d periods
- `ts_std(x, d)` - Standard deviation over last d periods
- `ts_min(x, d)` - Minimum over last d periods
- `ts_max(x, d)` - Maximum over last d periods
- `ts_argmax(x, d)` - Days since maximum in last d periods
- `ts_argmin(x, d)` - Days since minimum in last d periods
- `ts_delay(x, d)` - Value d periods ago
- `ts_delta(x, d)` - Change from d periods ago
- `ts_decay(x, d)` - Linear decay weighted sum

### Price Operations:
- `returns(x, d)` - Simple returns over d periods: (x[t] - x[t-d]) / x[t-d]
- `log_returns(x, d)` - Log returns: ln(x[t] / x[t-d])
- `volatility(x, d)` - Rolling volatility

### Statistical Operations:
- `correlation(x, y, d)` - Rolling correlation between x and y
- `covariance(x, y, d)` - Rolling covariance

### Mathematical Operations:
- `abs(x)`, `sign(x)`, `log(x)`, `sqrt(x)`, `power(x, n)`
- `max(x, y)`, `min(x, y)`
- `add(x, y)`, `sub(x, y)`, `mul(x, y)`, `div(x, y)`

## Available Data Fields
"#;

pub const SYSTEM_PRINCIPLES: &'static str = r#"

## Factor Design Principles
1. **Economic Intuition**: Each factor should have a clear economic rationale
2. **Robustness**: Factors should work across different market conditions
3. **Low Turnover**: Prefer stable factors that don't require frequent rebalancing
4. **Orthogonality**: Try to create factors uncorrelated with common risk factors
5. **Simplicity**: Simpler factors are often more robust out-of-sample

## Output Format
For each factor, provide:
1. Name: A descriptive name
2. Expression: The factor formula using the syntax above
3. Rationale: Why this factor should predict returns
4. Expected IC: Rough estimate of Information Coefficient magnitude
5. Expected Turnover: Low/Medium/High

Maximum expression nesting depth: "#;

pub const GENERATION_INTRO: &'static str = r#"Based on the following market hypothesis, generate "#;

pub const GENERATION_HYPOTHESIS: &'static str = r#" novel alpha factors:

## Hypothesis
"#;

pub const GENERATION_REQUIREMENTS: &'static str = r#"

## Requirements
1. Each factor must use the function syntax exactly as specified
2. Factors should directly relate to the hypothesis
3. Include a mix of simple and complex factors
4. Ensure factors are properly nested with matching parentheses

Please generate the factors in the following JSON format:
```json
[
  {
    "name": "factor_name",
    "expression": "rank(ts_mean(returns(close, 5), 20))",
    "rationale": "Explanation of economic intuition",
    "expected_ic": 0.03,
    "expected_turnover": "low"
  }
]
```"#;

pub const REFINEMENT_INTRO: &'static str = r#"The following factors were backtested with these results:

"#;

pub const REFINEMENT_REQUEST: &'static str = r#"

## Analysis Request
"#;

pub const REFINEMENT_TASK: &'static str = r#"

## Task
Based on the results above, generate "#;

pub const REFINEMENT_OUTRO: &'static str = r#" improved or modified factors that:
1. Address weaknesses in the original factors
2. Potentially combine successful elements from multiple factors
3. Add new variations that might improve performance
4. Maintain or reduce complexity where possible

Please provide the refined factors in the same JSON format as before."#;

pub const EXPLANATION_INTRO: &'static str = r#"Please analyze the following alpha factor:

**Name**: "#;

pub const EXPLANATION_EXPRESSION: &'static str = r#"
**Expression**: "#;

pub const EXPLANATION_IC: &'static str = r#"
**Information Coefficient (IC)**: "#;

pub const EXPLANATION_IC_IR: &'static str = r#"
**IC Information Ratio (IC_IR)**: "#;

pub const EXPLANATION_TASK: &'static str = r#"

Provide:
1. A plain-language explanation of what this factor measures
2. Economic intuition for why it might predict returns
3. Potential risks or limitations of this factor
4. Market conditions where this factor might underperform
5. Suggestions for improvement or complementary factors"#;

pub const OBSERVATION_INTRO: &'static str = r#"Based on the following market observations, generate alpha factors that could capture these patterns:

## Observations
"#;

pub const OBSERVATION_TASK: &'static str = r#"

## Task
Design "#;

pub const OBSERVATION_OUTRO: &'static str = r#" factors that specifically target these observed patterns. For each factor:
1. Clearly link it to one or more observations
2. Explain the expected mechanism
3. Consider potential decay or reversal of the effect

Provide factors in the standard JSON format."#;

// ---------------------------------------------------------------------------
// Configuration

/// Supported asset classes
#[derive(Debug, Clone, Copy, PartialEq, Eq, Structural)]
pub enum AssetClass {
    Equities,
    Crypto,
    Forex,
    Commodities,
}

/// Configuration for prompt building
#[derive(Debug, Clone)]
pub struct PromptConfig {
    /// Asset class being traded
    pub asset_class: AssetClass,
    /// Available data fields
    pub available_fields: Vec<String>,
    /// Maximum factor complexity
    pub max_complexity: usize,
    /// Number of factors to generate
    pub num_factors: usize,
    /// Include reasoning in output
    pub include_reasoning: bool,
}

/// The default configuration: crypto, the price and volume fields, at
/// most 5 levels, 5 factors, reasoning included.
pub open spec fn default_prompt_config(c: PromptConfig) -> bool {
    &&& c.asset_class == AssetClass::Crypto
    &&& strings_of(c.available_fields@) == seq![
        "open"@,
        "high"@,
        "low"@,
        "close"@,
        "volume"@,
        "vwap"@,
    ]
    &&& c.max_complexity == 5
    &&& c.num_factors == 5
    &&& c.include_reasoning
}

impl Default for PromptConfig {
    fn default() -> (r: Self)
        ensures
            default_prompt_config(r),
    {
        let mut fields: Vec<String> = Vec::new();
        fields.push("open".to_string());
        fields.push("high".to_string());
        fields.push("low".to_string());
        fields.push("close".to_string());
        fields.push("volume".to_string());
        fields.push("vwap".to_string());
        let r = PromptConfig {
            asset_class: AssetClass::Crypto,
            available_fields: fields,
            max_complexity: 5,
            num_factors: 5,
            include_reasoning: true,
        };
        assert(strings_of(r.available_fields@) =~= seq![
            "open"@,
            "high"@,
            "low"@,
            "close"@,
            "volume"@,
            "vwap"@,
        ]);
        r
    }
}

/// How the prompts name an asset class.
pub open spec fn asset_class_name(a: AssetClass) -> Seq<char> {
    match a {
        AssetClass::Equities => "stocks"@,
        AssetClass::Crypto => "cryptocurrencies"@,
        AssetClass::Forex => "forex pairs"@,
        AssetClass::Commodities => "commodities"@,
    }
}

// ---------------------------------------------------------------------------
// The prompts

pub open spec fn system_prompt_text(c: PromptConfig) -> Seq<char> {
    SYSTEM_INTRO@ + asset_class_name(c.asset_class) + SYSTEM_FUNCTIONS@ + joined(
        strings_of(c.available_fields@),
        ", "@,
    ) + SYSTEM_PRINCIPLES@ + decimal(c.max_complexity as nat)
}

pub open spec fn generation_prompt_text(c: PromptConfig, hypothesis: Seq<char>) -> Seq<char> {
    GENERATION_INTRO@ + decimal(c.num_factors as nat) + GENERATION_HYPOTHESIS@ + hypothesis
        + GENERATION_REQUIREMENTS@
}

/// The numbered list of observations: `1. first`, `2. second`, ...
pub open spec fn numbered_lines(observations: Seq<Seq<char>>) -> Seq<Seq<char>> {
    Seq::new(observations.len(), |i: int| decimal((i + 1) as nat) + ". "@ + observations[i])
}

pub open spec fn observation_prompt_text(c: PromptConfig, observations: Seq<Seq<char>>) -> Seq<
    char,
> {
    OBSERVATION_INTRO@ + joined(numbered_lines(observations), "\n"@) + OBSERVATION_TASK@ + decimal(
        c.num_factors as nat,
    ) + OBSERVATION_OUTRO@
}

/// One line of the refinement prompt: `- name: expression | IC: ic | IC_IR: ic_ir`.
pub open spec fn factor_line(name: Seq<char>, expression: Seq<char>, ic: Seq<char>, ic_ir: Seq<char>) -> Seq<char> {
    "- "@ + name + ": "@ + expression + " | IC: "@ + ic + " | IC_IR: "@ + ic_ir
}

/// The results of backtested factors: name, expression, IC and IC_IR, the
/// two metrics already written out.
pub open spec fn factor_lines(factors: Seq<(String, String, String, String)>) -> Seq<Seq<char>> {
    Seq::new(
        factors.len(),
        |i: int| factor_line(factors[i].0@, factors[i].1@, factors[i].2@, factors[i].3@),
    )
}

pub open spec fn refinement_prompt_text(
    c: PromptConfig,
    factors: Seq<(String, String, String, String)>,
    target_improvement: Seq<char>,
) -> Seq<char> {
    REFINEMENT_INTRO@ + joined(factor_lines(factors), "\n"@) + REFINEMENT_REQUEST@
        + target_improvement + REFINEMENT_TASK@ + decimal(c.num_factors as nat) + REFINEMENT_OUTRO@
}

pub open spec fn explanation_prompt_text(
    factor_name: Seq<char>,
    expression: Seq<char>,
    ic: Seq<char>,
    ic_ir: Seq<char>,
) -> Seq<char> {
    EXPLANATION_INTRO@ + factor_name + EXPLANATION_EXPRESSION@ + expression + EXPLANATION_IC@ + ic
        + EXPLANATION_IC_IR@ + ic_ir + EXPLANATION_TASK@
}

/// Prompt builder for factor generation
pub struct PromptBuilder {
    config: PromptConfig,
}

impl PromptBuilder {
    /// The configuration the prompts are built from.
    pub closed spec fn config(&self) -> PromptConfig {
        self.config
    }

    /// Create a new prompt builder with default configuration
    pub fn new() -> (r: Self)
        ensures
            default_prompt_config(r.config()),
    {
        PromptBuilder { config: PromptConfig::default() }
    }

    /// Create with custom configuration
    pub fn with_config(config: PromptConfig) -> (r: Self)
        ensures
            r.config() == config,
    {
        PromptBuilder { config }
    }

    /// Build the system prompt for factor generation
    pub fn system_prompt(&self) -> (r: String)
        ensures
            r@ == system_prompt_text(self.config()),
    {
        let mut out = SYSTEM_INTRO.to_string();
        let name = match self.config.asset_class {
            AssetClass::Equities => "stocks",
            AssetClass::Crypto => "cryptocurrencies",
            AssetClass::Forex => "forex pairs",
            AssetClass::Commodities => "commodities",
        };
        out.push_str(name);
        out.push_str(SYSTEM_FUNCTIONS);
        push_joined(&mut out, &self.config.available_fields, ", ");
        out.push_str(SYSTEM_PRINCIPLES);
        push_decimal(&mut out, self.config.max_complexity as u64);
        out
    }

    /// Build the generation prompt for a specific hypothesis
    pub fn generation_prompt(&self, hypothesis: &str) -> (r: String)
        ensures
            r@ == generation_prompt_text(self.config(), hypothesis@),
    {
        let mut out = GENERATION_INTRO.to_string();
        push_decimal(&mut out, self.config.num_factors as u64);
        out.push_str(GENERATION_HYPOTHESIS);
        out.push_str(hypothesis);
        out.push_str(GENERATION_REQUIREMENTS);
        out
    }

    /// Build a prompt for generating factors from market observations
    pub fn observation_prompt(&self, observations: &Vec<String>) -> (r: String)
        ensures
            r@ == observation_prompt_text(self.config(), strings_of(observations@)),
    {
        let mut lines: Vec<String> = Vec::new();
        let mut i: usize = 0;
        while i < observations.len()
            invariant
                i <= observations@.len(),
                strings_of(lines@) == numbered_lines(strings_of(observations@)).take(i as int),
            decreases observations.len() - i,
        {
            let mut line = String::new();
            push_decimal(&mut line, i as u64 + 1);
            line.push_str(". ");
            line.push_str(observations[i].as_str());
            let ghost before = lines@;
            assert(line@ == numbered_lines(strings_of(observations@))[i as int]);
            lines.push(line);
            assert(strings_of(lines@) =~= strings_of(before).push(line@));
            assert(strings_of(lines@) =~= numbered_lines(strings_of(observations@)).take(i + 1));
            i += 1;
        }
        assert(numbered_lines(strings_of(observations@)).take(observations@.len() as int)
            =~= numbered_lines(strings_of(observations@)));
        let mut out = OBSERVATION_INTRO.to_string();
        push_joined(&mut out, &lines, "\n");
        out.push_str(OBSERVATION_TASK);
        push_decimal(&mut out, self.config.num_factors as u64);
        out.push_str(OBSERVATION_OUTRO);
        out
    }

    /// Build the refinement prompt from the results of backtested factors,
    /// each given as name, expression, IC and IC_IR (the metrics written
    /// with four decimals).
    pub fn refinement_prompt_from_results(
        &self,
        factors: &Vec<(String, String, String, String)>,
        target_improvement: &str,
    ) -> (r: String)
        ensures
            r@ == refinement_prompt_text(self.config(), factors@, target_improvement@),
    {
        let mut lines: Vec<String> = Vec::new();
        let mut i: usize = 0;
        while i < factors.len()
            invariant
                i <= factors@.len(),
                strings_of(lines@) == factor_lines(factors@).take(i as int),
            decreases factors.len() - i,
        {
            let mut line = "- ".to_string();
            line.push_str(factors[i].0.as_str());
            line.push_str(": ");
            line.push_str(factors[i].1.as_str());
            line.push_str(" | IC: ");
            line.push_str(factors[i].2.as_str());
            line.push_str(" | IC_IR: ");
            line.push_str(factors[i].3.as_str());
            let ghost before = lines@;
            assert(line@ == factor_lines(factors@)[i as int]);
            lines.push(line);
            assert(strings_of(lines@) =~= strings_of(before).push(line@));
            assert(strings_of(lines@) =~= factor_lines(factors@).take(i + 1));
            i += 1;
        }
        assert(factor_lines(factors@).take(factors@.len() as int) =~= factor_lines(factors@));
        let mut out = REFINEMENT_INTRO.to_string();
        push_joined(&mut out, &lines, "\n");
        out.push_str(REFINEMENT_REQUEST);
        out.push_str(target_improvement);
        out.push_str(REFINEMENT_TASK);
        push_decimal(&mut out, self.config.num_factors as u64);
        out.push_str(REFINEMENT_OUTRO);
        out
    }

    /// Build a prompt for explaining factor performance, the metrics written
    /// with four decimals.
    pub fn explanation_prompt_from_results(
        &self,
        factor_name: &str,
        expression: &str,
        ic: &str,
        ic_ir: &str,
    ) -> (r: String)
        ensures
            r@ == explanation_prompt_text(factor_name@, expression@, ic@, ic_ir@),
    {
        let mut out = EXPLANATION_INTRO.to_string();
        out.push_str(factor_name);
        out.push_str(EXPLANATION_EXPRESSION);
        out.push_str(expression);
        out.push_str(EXPLANATION_IC);
        out.push_str(ic);
        out.push_str(EXPLANATION_IC_IR);
        out.push_str(ic_ir);
        out.push_str(EXPLANATION_TASK);
        out
    }
}

impl Default for PromptBuilder {
    fn default() -> (r: Self)
        ensures
            default_prompt_config(r.config()),
    {
        Self::new()
    }
}


// ---------------------------------------------------------------------------
// Laws

/// Law: the generation prompt quotes the hypothesis.
pub proof fn law_generation_prompt_quotes_hypothesis(c: PromptConfig, hypothesis: Seq<char>)
    ensures
        contains_text(generation_prompt_text(c, hypothesis), hypothesis),
{
    lemma_contains_self(hypothesis);
    let a = GENERATION_INTRO@ + decimal(c.num_factors as nat) + GENERATION_HYPOTHESIS@;
    lemma_contains_in_context(a, hypothesis, GENERATION_REQUIREMENTS@, hypothesis);
    assert(a + hypothesis + GENERATION_REQUIREMENTS@ =~= generation_prompt_text(c, hypothesis));
}

/// Law: the system prompt lists every available field.
pub proof fn law_system_prompt_lists_fields(c: PromptConfig, k: int)
    requires
        0 <= k < c.available_fields@.len(),
    ensures
        contains_text(system_prompt_text(c), c.available_fields@[k]@),
{
    let fields = strings_of(c.available_fields@);
    lemma_joined_contains(fields, ", "@, k);
    let a = SYSTEM_INTRO@ + asset_class_name(c.asset_class) + SYSTEM_FUNCTIONS@;
    let b = SYSTEM_PRINCIPLES@ + decimal(c.max_complexity as nat);
    lemma_contains_in_context(a, joined(fields, ", "@), b, fields[k]);
    assert(a + joined(fields, ", "@) + b =~= system_prompt_text(c));
}

/// Law: the observation prompt quotes every observation.
pub proof fn law_observation_prompt_quotes_observations(
    c: PromptConfig,
    observations: Seq<Seq<char>>,
    k: int,
)
    requires
        0 <= k < observations.len(),
    ensures
        contains_text(observation_prompt_text(c, observations), observations[k]),
{
    let lines = numbered_lines(observations);
    lemma_joined_contains(lines, "\n"@, k);
    lemma_contains_self(observations[k]);
    lemma_contains_in_context(decimal((k + 1) as nat) + ". "@, observations[k], Seq::empty(), observations[k]);
    assert(decimal((k + 1) as nat) + ". "@ + observations[k] + Seq::<char>::empty() =~= lines[k]);
    let a = OBSERVATION_INTRO@;
    let b = OBSERVATION_TASK@ + decimal(c.num_factors as nat) + OBSERVATION_OUTRO@;
    lemma_contains_in_context(a, joined(lines, "\n"@), b, lines[k]);
    assert(a + joined(lines, "\n"@) + b =~= observation_prompt_text(c, observations));
    lemma_contains_transitive(observation_prompt_text(c, observations), lines[k], observations[k]);
}

/// Text found in text found in `s` is found in `s`.
proof fn lemma_contains_transitive(s: Seq<char>, m: Seq<char>, t: Seq<char>)
    requires
        contains_text(s, m),
        contains_text(m, t),
    ensures
        contains_text(s, t),
{
    let i = choose|i: int| 0 <= i && i + m.len() <= s.len() && #[trigger] s.subrange(i, i + m.len()) == m;
    let j = choose|j: int| 0 <= j && j + t.len() <= m.len() && #[trigger] m.subrange(j, j + t.len()) == t;
    assert(s.subrange(i + j, i + j + t.len()) =~= m.subrange(j, j + t.len()));
}

/// Law: the system prompt opens by naming the configured asset class:
/// stocks, cryptocurrencies, forex pairs or commodities.
pub proof fn law_system_prompt_names_asset_class(c: PromptConfig)
    ensures
        ({
            let name = match c.asset_class {
                AssetClass::Equities => "stocks"@,
                AssetClass::Crypto => "cryptocurrencies"@,
                AssetClass::Forex => "forex pairs"@,
                AssetClass::Commodities => "commodities"@,
            };
            let head = SYSTEM_INTRO@ + name + SYSTEM_FUNCTIONS@;
            &&& head.len() <= system_prompt_text(c).len()
            &&& system_prompt_text(c).take(head.len() as int) == head
        }),
{
    let head = SYSTEM_INTRO@ + asset_class_name(c.asset_class) + SYSTEM_FUNCTIONS@;
    let rest = joined(strings_of(c.available_fields@), ", "@) + SYSTEM_PRINCIPLES@ + decimal(
        c.max_complexity as nat,
    );
    assert(system_prompt_text(c) =~= head + rest);
    assert((head + rest).take(head.len() as int) =~= head);
}

/// Law: configurations with different asset classes give different system
/// prompts.
pub proof fn law_system_prompt_tells_asset_classes_apart(c1: PromptConfig, c2: PromptConfig)
    requires
        c1.asset_class != c2.asset_class,
    ensures
        system_prompt_text(c1) != system_prompt_text(c2),
{
    reveal_strlit("stocks");
    reveal_strlit("cryptocurrencies");
    reveal_strlit("forex pairs");
    reveal_strlit("commodities");
    law_system_prompt_names_asset_class(c1);
    law_system_prompt_names_asset_class(c2);
    let k = SYSTEM_INTRO@.len() as int;
    let p1 = system_prompt_text(c1);
    let p2 = system_prompt_text(c2);
    let n1 = asset_class_name(c1.asset_class);
    let n2 = asset_class_name(c2.asset_class);
    let h1 = SYSTEM_INTRO@ + n1 + SYSTEM_FUNCTIONS@;
    let h2 = SYSTEM_INTRO@ + n2 + SYSTEM_FUNCTIONS@;
    assert(p1[k] == h1[k]);
    assert(p2[k] == h2[k]);
    assert(p1[k + 1] == h1[k + 1]);
    assert(p2[k + 1] == h2[k + 1]);
    assert(h1[k] == n1[0]);
    assert(h2[k] == n2[0]);
    assert(h1[k + 1] == n1[1]);
    assert(h2[k + 1] == n2[1]);
    assert(n1[0] != n2[0] || n1[1] != n2[1]);
}

} // verus!
