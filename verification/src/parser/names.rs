//! The names of the functions: each function is named by its aliases and
//! by nothing else.

use vstd::prelude::*;
use crate::parser::expression::{function_named, FactorFunction};

verus! {

/// The names a function is written with, its canonical name first.
pub open spec fn function_aliases(f: FactorFunction) -> Seq<Seq<char>> {
    match f {
        FactorFunction::Rank => seq!["rank"@],
        FactorFunction::Zscore => seq!["zscore"@, "z_score"@],
        FactorFunction::Scale => seq!["scale"@],
        FactorFunction::Demean => seq!["demean"@],
        FactorFunction::TsRank => seq!["ts_rank"@, "tsrank"@],
        FactorFunction::TsSum => seq!["ts_sum"@, "tssum"@],
        FactorFunction::TsMean => seq!["ts_mean"@, "tsmean"@, "ts_avg"@],
        FactorFunction::TsStd => seq!["ts_std"@, "tsstd"@, "ts_stddev"@],
        FactorFunction::TsMin => seq!["ts_min"@, "tsmin"@],
        FactorFunction::TsMax => seq!["ts_max"@, "tsmax"@],
        FactorFunction::TsArgmax => seq!["ts_argmax"@, "tsargmax"@],
        FactorFunction::TsArgmin => seq!["ts_argmin"@, "tsargmin"@],
        FactorFunction::TsDelay => seq!["ts_delay"@, "delay"@, "lag"@],
        FactorFunction::TsDelta => seq!["ts_delta"@, "delta"@],
        FactorFunction::TsDecay => seq!["ts_decay"@, "decay_linear"@],
        FactorFunction::Returns => seq!["returns"@, "return"@, "ret"@],
        FactorFunction::LogReturns => seq!["log_returns"@, "logreturns"@, "logret"@],
        FactorFunction::Volatility => seq!["volatility"@, "vol"@, "std"@],
        FactorFunction::Correlation => seq!["correlation"@, "corr"@],
        FactorFunction::Covariance => seq!["covariance"@, "cov"@],
        FactorFunction::Abs => seq!["abs"@],
        FactorFunction::Sign => seq!["sign"@, "signum"@],
        FactorFunction::Log => seq!["log"@, "ln"@],
        FactorFunction::Sqrt => seq!["sqrt"@],
        FactorFunction::Power => seq!["power"@, "pow"@],
        FactorFunction::Max => seq!["max"@],
        FactorFunction::Min => seq!["min"@],
        FactorFunction::Add => seq!["add"@],
        FactorFunction::Sub => seq!["sub"@],
        FactorFunction::Mul => seq!["mul"@],
        FactorFunction::Div => seq!["div"@],
        FactorFunction::IfElse => seq!["if"@, "ifelse"@, "if_else"@],
    }
}

/// Law: every alias of a function names that function.
pub proof fn law_aliases_name_their_function(f: FactorFunction)
    ensures
        forall|k: int|
            0 <= k < function_aliases(f).len() ==> function_named(#[trigger] function_aliases(f)[k]) == Some(f),
{
    match f {
        FactorFunction::Rank => {
            lemma_alias_rank();
        },
        FactorFunction::Zscore => {
            lemma_alias_zscore();
            lemma_alias_z_score();
        },
        FactorFunction::Scale => {
            lemma_alias_scale();
        },
        FactorFunction::Demean => {
            lemma_alias_demean();
        },
        FactorFunction::TsRank => {
            lemma_alias_ts_rank();
            lemma_alias_tsrank();
        },
        FactorFunction::TsSum => {
            lemma_alias_ts_sum();
            lemma_alias_tssum();
        },
        FactorFunction::TsMean => {
            lemma_alias_ts_mean();
            lemma_alias_tsmean();
            lemma_alias_ts_avg();
        },
        FactorFunction::TsStd => {
            lemma_alias_ts_std();
            lemma_alias_tsstd();
            lemma_alias_ts_stddev();
        },
        FactorFunction::TsMin => {
            lemma_alias_ts_min();
            lemma_alias_tsmin();
        },
        FactorFunction::TsMax => {
            lemma_alias_ts_max();
            lemma_alias_tsmax();
        },
        FactorFunction::TsArgmax => {
            lemma_alias_ts_argmax();
            lemma_alias_tsargmax();
        },
        FactorFunction::TsArgmin => {
            lemma_alias_ts_argmin();
            lemma_alias_tsargmin();
        },
        FactorFunction::TsDelay => {
            lemma_alias_ts_delay();
            lemma_alias_delay();
            lemma_alias_lag();
        },
        FactorFunction::TsDelta => {
            lemma_alias_ts_delta();
            lemma_alias_delta();
        },
        FactorFunction::TsDecay => {
            lemma_alias_ts_decay();
            lemma_alias_decay_linear();
        },
        FactorFunction::Returns => {
            lemma_alias_returns();
            lemma_alias_return();
            lemma_alias_ret();
        },
        FactorFunction::LogReturns => {
            lemma_alias_log_returns();
            lemma_alias_logreturns();
            lemma_alias_logret();
        },
        FactorFunction::Volatility => {
            lemma_alias_volatility();
            lemma_alias_vol();
            lemma_alias_std();
        },
        FactorFunction::Correlation => {
            lemma_alias_correlation();
            lemma_alias_corr();
        },
        FactorFunction::Covariance => {
            lemma_alias_covariance();
            lemma_alias_cov();
        },
        FactorFunction::Abs => {
            lemma_alias_abs();
        },
        FactorFunction::Sign => {
            lemma_alias_sign();
            lemma_alias_signum();
        },
        FactorFunction::Log => {
            lemma_alias_log();
            lemma_alias_ln();
        },
        FactorFunction::Sqrt => {
            lemma_alias_sqrt();
        },
        FactorFunction::Power => {
            lemma_alias_power();
            lemma_alias_pow();
        },
        FactorFunction::Max => {
            lemma_alias_max();
        },
        FactorFunction::Min => {
            lemma_alias_min();
        },
        FactorFunction::Add => {
            lemma_alias_add();
        },
        FactorFunction::Sub => {
            lemma_alias_sub();
        },
        FactorFunction::Mul => {
            lemma_alias_mul();
        },
        FactorFunction::Div => {
            lemma_alias_div();
        },
        FactorFunction::IfElse => {
            lemma_alias_if();
            lemma_alias_ifelse();
            lemma_alias_if_else();
        },
    }
}

/// Law: a name that names a function is one of that function's aliases.
pub proof fn law_only_aliases_name_functions(s: Seq<char>, f: FactorFunction)
    requires
        function_named(s) == Some(f),
    ensures
        function_aliases(f).contains(s),
{
    if s == "rank"@ {
        assert(function_aliases(FactorFunction::Rank)[0] == s);
    } else if s == "zscore"@ {
        assert(function_aliases(FactorFunction::Zscore)[0] == s);
    } else if s == "z_score"@ {
        assert(function_aliases(FactorFunction::Zscore)[1] == s);
    } else if s == "scale"@ {
        assert(function_aliases(FactorFunction::Scale)[0] == s);
    } else if s == "demean"@ {
        assert(function_aliases(FactorFunction::Demean)[0] == s);
    } else if s == "ts_rank"@ {
        assert(function_aliases(FactorFunction::TsRank)[0] == s);
    } else if s == "tsrank"@ {
        assert(function_aliases(FactorFunction::TsRank)[1] == s);
    } else if s == "ts_sum"@ {
        assert(function_aliases(FactorFunction::TsSum)[0] == s);
    } else if s == "tssum"@ {
        assert(function_aliases(FactorFunction::TsSum)[1] == s);
    } else if s == "ts_mean"@ {
        assert(function_aliases(FactorFunction::TsMean)[0] == s);
    } else if s == "tsmean"@ {
        assert(function_aliases(FactorFunction::TsMean)[1] == s);
    } else if s == "ts_avg"@ {
        assert(function_aliases(FactorFunction::TsMean)[2] == s);
    } else if s == "ts_std"@ {
        assert(function_aliases(FactorFunction::TsStd)[0] == s);
    } else if s == "tsstd"@ {
        assert(function_aliases(FactorFunction::TsStd)[1] == s);
    } else if s == "ts_stddev"@ {
        assert(function_aliases(FactorFunction::TsStd)[2] == s);
    } else if s == "ts_min"@ {
        assert(function_aliases(FactorFunction::TsMin)[0] == s);
    } else if s == "tsmin"@ {
        assert(function_aliases(FactorFunction::TsMin)[1] == s);
    } else if s == "ts_max"@ {
        assert(function_aliases(FactorFunction::TsMax)[0] == s);
    } else if s == "tsmax"@ {
        assert(function_aliases(FactorFunction::TsMax)[1] == s);
    } else if s == "ts_argmax"@ {
        assert(function_aliases(FactorFunction::TsArgmax)[0] == s);
    } else if s == "tsargmax"@ {
        assert(function_aliases(FactorFunction::TsArgmax)[1] == s);
    } else if s == "ts_argmin"@ {
        assert(function_aliases(FactorFunction::TsArgmin)[0] == s);
    } else if s == "tsargmin"@ {
        assert(function_aliases(FactorFunction::TsArgmin)[1] == s);
    } else if s == "ts_delay"@ {
        assert(function_aliases(FactorFunction::TsDelay)[0] == s);
    } else if s == "delay"@ {
        assert(function_aliases(FactorFunction::TsDelay)[1] == s);
    } else if s == "lag"@ {
        assert(function_aliases(FactorFunction::TsDelay)[2] == s);
    } else if s == "ts_delta"@ {
        assert(function_aliases(FactorFunction::TsDelta)[0] == s);
    } else if s == "delta"@ {
        assert(function_aliases(FactorFunction::TsDelta)[1] == s);
    } else if s == "ts_decay"@ {
        assert(function_aliases(FactorFunction::TsDecay)[0] == s);
    } else if s == "decay_linear"@ {
        assert(function_aliases(FactorFunction::TsDecay)[1] == s);
    } else if s == "returns"@ {
        assert(function_aliases(FactorFunction::Returns)[0] == s);
    } else if s == "return"@ {
        assert(function_aliases(FactorFunction::Returns)[1] == s);
    } else if s == "ret"@ {
        assert(function_aliases(FactorFunction::Returns)[2] == s);
    } else if s == "log_returns"@ {
        assert(function_aliases(FactorFunction::LogReturns)[0] == s);
    } else if s == "logreturns"@ {
        assert(function_aliases(FactorFunction::LogReturns)[1] == s);
    } else if s == "logret"@ {
        assert(function_aliases(FactorFunction::LogReturns)[2] == s);
    } else if s == "volatility"@ {
        assert(function_aliases(FactorFunction::Volatility)[0] == s);
    } else if s == "vol"@ {
        assert(function_aliases(FactorFunction::Volatility)[1] == s);
    } else if s == "std"@ {
        assert(function_aliases(FactorFunction::Volatility)[2] == s);
    } else if s == "correlation"@ {
        assert(function_aliases(FactorFunction::Correlation)[0] == s);
    } else if s == "corr"@ {
        assert(function_aliases(FactorFunction::Correlation)[1] == s);
    } else if s == "covariance"@ {
        assert(function_aliases(FactorFunction::Covariance)[0] == s);
    } else if s == "cov"@ {
        assert(function_aliases(FactorFunction::Covariance)[1] == s);
    } else if s == "abs"@ {
        assert(function_aliases(FactorFunction::Abs)[0] == s);
    } else if s == "sign"@ {
        assert(function_aliases(FactorFunction::Sign)[0] == s);
    } else if s == "signum"@ {
        assert(function_aliases(FactorFunction::Sign)[1] == s);
    } else if s == "log"@ {
        assert(function_aliases(FactorFunction::Log)[0] == s);
    } else if s == "ln"@ {
        assert(function_aliases(FactorFunction::Log)[1] == s);
    } else if s == "sqrt"@ {
        assert(function_aliases(FactorFunction::Sqrt)[0] == s);
    } else if s == "power"@ {
        assert(function_aliases(FactorFunction::Power)[0] == s);
    } else if s == "pow"@ {
        assert(function_aliases(FactorFunction::Power)[1] == s);
    } else if s == "max"@ {
        assert(function_aliases(FactorFunction::Max)[0] == s);
    } else if s == "min"@ {
        assert(function_aliases(FactorFunction::Min)[0] == s);
    } else if s == "add"@ {
        assert(function_aliases(FactorFunction::Add)[0] == s);
    } else if s == "sub"@ {
        assert(function_aliases(FactorFunction::Sub)[0] == s);
    } else if s == "mul"@ {
        assert(function_aliases(FactorFunction::Mul)[0] == s);
    } else if s == "div"@ {
        assert(function_aliases(FactorFunction::Div)[0] == s);
    } else if s == "if"@ {
        assert(function_aliases(FactorFunction::IfElse)[0] == s);
    } else if s == "ifelse"@ {
        assert(function_aliases(FactorFunction::IfElse)[1] == s);
    } else if s == "if_else"@ {
        assert(function_aliases(FactorFunction::IfElse)[2] == s);
    }
}

proof fn lemma_alias_rank()
    ensures
        function_named("rank"@) == Some(FactorFunction::Rank),
{
    reveal_strlit("rank");
}

proof fn lemma_alias_zscore()
    ensures
        function_named("zscore"@) == Some(FactorFunction::Zscore),
{
    reveal_strlit("rank");
    reveal_strlit("zscore");
    assert("zscore"@.len() != "rank"@.len());
    assert("zscore"@ != "rank"@);
}

proof fn lemma_alias_z_score()
    ensures
        function_named("z_score"@) == Some(FactorFunction::Zscore),
{
    reveal_strlit("rank");
    reveal_strlit("z_score");
    assert("z_score"@.len() != "rank"@.len());
    assert("z_score"@ != "rank"@);
}

proof fn lemma_alias_scale()
    ensures
        function_named("scale"@) == Some(FactorFunction::Scale),
{
    reveal_strlit("rank");
    reveal_strlit("scale");
    reveal_strlit("z_score");
    reveal_strlit("zscore");
    assert("scale"@.len() != "rank"@.len());
    assert("scale"@ != "rank"@);
    assert("scale"@.len() != "zscore"@.len());
    assert("scale"@ != "zscore"@);
    assert("scale"@.len() != "z_score"@.len());
    assert("scale"@ != "z_score"@);
}

proof fn lemma_alias_demean()
    ensures
        function_named("demean"@) == Some(FactorFunction::Demean),
{
    reveal_strlit("demean");
    reveal_strlit("rank");
    reveal_strlit("scale");
    reveal_strlit("z_score");
    reveal_strlit("zscore");
    assert("demean"@.len() != "rank"@.len());
    assert("demean"@ != "rank"@);
    assert("demean"@[0] != "zscore"@[0]);
    assert("demean"@ != "zscore"@);
    assert("demean"@.len() != "z_score"@.len());
    assert("demean"@ != "z_score"@);
    assert("demean"@.len() != "scale"@.len());
    assert("demean"@ != "scale"@);
}

proof fn lemma_alias_ts_rank()
    ensures
        function_named("ts_rank"@) == Some(FactorFunction::TsRank),
{
    reveal_strlit("demean");
    reveal_strlit("rank");
    reveal_strlit("scale");
    reveal_strlit("ts_rank");
    reveal_strlit("z_score");
    reveal_strlit("zscore");
    assert("ts_rank"@.len() != "rank"@.len());
    assert("ts_rank"@ != "rank"@);
    assert("ts_rank"@.len() != "zscore"@.len());
    assert("ts_rank"@ != "zscore"@);
    assert("ts_rank"@[0] != "z_score"@[0]);
    assert("ts_rank"@ != "z_score"@);
    assert("ts_rank"@.len() != "scale"@.len());
    assert("ts_rank"@ != "scale"@);
    assert("ts_rank"@.len() != "demean"@.len());
    assert("ts_rank"@ != "demean"@);
}

proof fn lemma_alias_tsrank()
    ensures
        function_named("tsrank"@) == Some(FactorFunction::TsRank),
{
    reveal_strlit("demean");
    reveal_strlit("rank");
    reveal_strlit("scale");
    reveal_strlit("tsrank");
    reveal_strlit("z_score");
    reveal_strlit("zscore");
    assert("tsrank"@.len() != "rank"@.len());
    assert("tsrank"@ != "rank"@);
    assert("tsrank"@[0] != "zscore"@[0]);
    assert("tsrank"@ != "zscore"@);
    assert("tsrank"@.len() != "z_score"@.len());
    assert("tsrank"@ != "z_score"@);
    assert("tsrank"@.len() != "scale"@.len());
    assert("tsrank"@ != "scale"@);
    assert("tsrank"@[0] != "demean"@[0]);
    assert("tsrank"@ != "demean"@);
}

proof fn lemma_alias_ts_sum()
    ensures
        function_named("ts_sum"@) == Some(FactorFunction::TsSum),
{
    reveal_strlit("demean");
    reveal_strlit("rank");
    reveal_strlit("scale");
    reveal_strlit("ts_rank");
    reveal_strlit("ts_sum");
    reveal_strlit("tsrank");
    reveal_strlit("z_score");
    reveal_strlit("zscore");
    assert("ts_sum"@.len() != "rank"@.len());
    assert("ts_sum"@ != "rank"@);
    assert("ts_sum"@[0] != "zscore"@[0]);
    assert("ts_sum"@ != "zscore"@);
    assert("ts_sum"@.len() != "z_score"@.len());
    assert("ts_sum"@ != "z_score"@);
    assert("ts_sum"@.len() != "scale"@.len());
    assert("ts_sum"@ != "scale"@);
    assert("ts_sum"@[0] != "demean"@[0]);
    assert("ts_sum"@ != "demean"@);
    assert("ts_sum"@.len() != "ts_rank"@.len());
    assert("ts_sum"@ != "ts_rank"@);
    assert("ts_sum"@[2] != "tsrank"@[2]);
    assert("ts_sum"@ != "tsrank"@);
}

proof fn lemma_alias_tssum()
    ensures
        function_named("tssum"@) == Some(FactorFunction::TsSum),
{
    reveal_strlit("demean");
    reveal_strlit("rank");
    reveal_strlit("scale");
    reveal_strlit("ts_rank");
    reveal_strlit("tsrank");
    reveal_strlit("tssum");
    reveal_strlit("z_score");
    reveal_strlit("zscore");
    assert("tssum"@.len() != "rank"@.len());
    assert("tssum"@ != "rank"@);
    assert("tssum"@.len() != "zscore"@.len());
    assert("tssum"@ != "zscore"@);
    assert("tssum"@.len() != "z_score"@.len());
    assert("tssum"@ != "z_score"@);
    assert("tssum"@[0] != "scale"@[0]);
    assert("tssum"@ != "scale"@);
    assert("tssum"@.len() != "demean"@.len());
    assert("tssum"@ != "demean"@);
    assert("tssum"@.len() != "ts_rank"@.len());
    assert("tssum"@ != "ts_rank"@);
    assert("tssum"@.len() != "tsrank"@.len());
    assert("tssum"@ != "tsrank"@);
}

proof fn lemma_alias_ts_mean()
    ensures
        function_named("ts_mean"@) == Some(FactorFunction::TsMean),
{
    reveal_strlit("demean");
    reveal_strlit("rank");
    reveal_strlit("scale");
    reveal_strlit("ts_mean");
    reveal_strlit("ts_rank");
    reveal_strlit("ts_sum");
    reveal_strlit("tsrank");
    reveal_strlit("tssum");
    reveal_strlit("z_score");
    reveal_strlit("zscore");
    assert("ts_mean"@.len() != "rank"@.len());
    assert("ts_mean"@ != "rank"@);
    assert("ts_mean"@.len() != "zscore"@.len());
    assert("ts_mean"@ != "zscore"@);
    assert("ts_mean"@[0] != "z_score"@[0]);
    assert("ts_mean"@ != "z_score"@);
    assert("ts_mean"@.len() != "scale"@.len());
    assert("ts_mean"@ != "scale"@);
    assert("ts_mean"@.len() != "demean"@.len());
    assert("ts_mean"@ != "demean"@);
    assert("ts_mean"@[3] != "ts_rank"@[3]);
    assert("ts_mean"@ != "ts_rank"@);
    assert("ts_mean"@.len() != "tsrank"@.len());
    assert("ts_mean"@ != "tsrank"@);
    assert("ts_mean"@.len() != "ts_sum"@.len());
    assert("ts_mean"@ != "ts_sum"@);
    assert("ts_mean"@.len() != "tssum"@.len());
    assert("ts_mean"@ != "tssum"@);
}

proof fn lemma_alias_tsmean()
    ensures
        function_named("tsmean"@) == Some(FactorFunction::TsMean),
{
    reveal_strlit("demean");
    reveal_strlit("rank");
    reveal_strlit("scale");
    reveal_strlit("ts_rank");
    reveal_strlit("ts_sum");
    reveal_strlit("tsmean");
    reveal_strlit("tsrank");
    reveal_strlit("tssum");
    reveal_strlit("z_score");
    reveal_strlit("zscore");
    assert("tsmean"@.len() != "rank"@.len());
    assert("tsmean"@ != "rank"@);
    assert("tsmean"@[0] != "zscore"@[0]);
    assert("tsmean"@ != "zscore"@);
    assert("tsmean"@.len() != "z_score"@.len());
    assert("tsmean"@ != "z_score"@);
    assert("tsmean"@.len() != "scale"@.len());
    assert("tsmean"@ != "scale"@);
    assert("tsmean"@[0] != "demean"@[0]);
    assert("tsmean"@ != "demean"@);
    assert("tsmean"@.len() != "ts_rank"@.len());
    assert("tsmean"@ != "ts_rank"@);
    assert("tsmean"@[2] != "tsrank"@[2]);
    assert("tsmean"@ != "tsrank"@);
    assert("tsmean"@[2] != "ts_sum"@[2]);
    assert("tsmean"@ != "ts_sum"@);
    assert("tsmean"@.len() != "tssum"@.len());
    assert("tsmean"@ != "tssum"@);
}

proof fn lemma_alias_ts_avg()
    ensures
        function_named("ts_avg"@) == Some(FactorFunction::TsMean),
{
    reveal_strlit("demean");
    reveal_strlit("rank");
    reveal_strlit("scale");
    reveal_strlit("ts_avg");
    reveal_strlit("ts_rank");
    reveal_strlit("ts_sum");
    reveal_strlit("tsrank");
    reveal_strlit("tssum");
    reveal_strlit("z_score");
    reveal_strlit("zscore");
    assert("ts_avg"@.len() != "rank"@.len());
    assert("ts_avg"@ != "rank"@);
    assert("ts_avg"@[0] != "zscore"@[0]);
    assert("ts_avg"@ != "zscore"@);
    assert("ts_avg"@.len() != "z_score"@.len());
    assert("ts_avg"@ != "z_score"@);
    assert("ts_avg"@.len() != "scale"@.len());
    assert("ts_avg"@ != "scale"@);
    assert("ts_avg"@[0] != "demean"@[0]);
    assert("ts_avg"@ != "demean"@);
    assert("ts_avg"@.len() != "ts_rank"@.len());
    assert("ts_avg"@ != "ts_rank"@);
    assert("ts_avg"@[2] != "tsrank"@[2]);
    assert("ts_avg"@ != "tsrank"@);
    assert("ts_avg"@[3] != "ts_sum"@[3]);
    assert("ts_avg"@ != "ts_sum"@);
    assert("ts_avg"@.len() != "tssum"@.len());
    assert("ts_avg"@ != "tssum"@);
}

proof fn lemma_alias_ts_std()
    ensures
        function_named("ts_std"@) == Some(FactorFunction::TsStd),
{
    reveal_strlit("demean");
    reveal_strlit("rank");
    reveal_strlit("scale");
    reveal_strlit("ts_avg");
    reveal_strlit("ts_mean");
    reveal_strlit("ts_rank");
    reveal_strlit("ts_std");
    reveal_strlit("ts_sum");
    reveal_strlit("tsmean");
    reveal_strlit("tsrank");
    reveal_strlit("tssum");
    reveal_strlit("z_score");
    reveal_strlit("zscore");
    assert("ts_std"@.len() != "rank"@.len());
    assert("ts_std"@ != "rank"@);
    assert("ts_std"@[0] != "zscore"@[0]);
    assert("ts_std"@ != "zscore"@);
    assert("ts_std"@.len() != "z_score"@.len());
    assert("ts_std"@ != "z_score"@);
    assert("ts_std"@.len() != "scale"@.len());
    assert("ts_std"@ != "scale"@);
    assert("ts_std"@[0] != "demean"@[0]);
    assert("ts_std"@ != "demean"@);
    assert("ts_std"@.len() != "ts_rank"@.len());
    assert("ts_std"@ != "ts_rank"@);
    assert("ts_std"@[2] != "tsrank"@[2]);
    assert("ts_std"@ != "tsrank"@);
    assert("ts_std"@[4] != "ts_sum"@[4]);
    assert("ts_std"@ != "ts_sum"@);
    assert("ts_std"@.len() != "tssum"@.len());
    assert("ts_std"@ != "tssum"@);
    assert("ts_std"@.len() != "ts_mean"@.len());
    assert("ts_std"@ != "ts_mean"@);
    assert("ts_std"@[2] != "tsmean"@[2]);
    assert("ts_std"@ != "tsmean"@);
    assert("ts_std"@[3] != "ts_avg"@[3]);
    assert("ts_std"@ != "ts_avg"@);
}

proof fn lemma_alias_tsstd()
    ensures
        function_named("tsstd"@) == Some(FactorFunction::TsStd),
{
    reveal_strlit("demean");
    reveal_strlit("rank");
    reveal_strlit("scale");
    reveal_strlit("ts_avg");
    reveal_strlit("ts_mean");
    reveal_strlit("ts_rank");
    reveal_strlit("ts_sum");
    reveal_strlit("tsmean");
    reveal_strlit("tsrank");
    reveal_strlit("tsstd");
    reveal_strlit("tssum");
    reveal_strlit("z_score");
    reveal_strlit("zscore");
    assert("tsstd"@.len() != "rank"@.len());
    assert("tsstd"@ != "rank"@);
    assert("tsstd"@.len() != "zscore"@.len());
    assert("tsstd"@ != "zscore"@);
    assert("tsstd"@.len() != "z_score"@.len());
    assert("tsstd"@ != "z_score"@);
    assert("tsstd"@[0] != "scale"@[0]);
    assert("tsstd"@ != "scale"@);
    assert("tsstd"@.len() != "demean"@.len());
    assert("tsstd"@ != "demean"@);
    assert("tsstd"@.len() != "ts_rank"@.len());
    assert("tsstd"@ != "ts_rank"@);
    assert("tsstd"@.len() != "tsrank"@.len());
    assert("tsstd"@ != "tsrank"@);
    assert("tsstd"@.len() != "ts_sum"@.len());
    assert("tsstd"@ != "ts_sum"@);
    assert("tsstd"@[3] != "tssum"@[3]);
    assert("tsstd"@ != "tssum"@);
    assert("tsstd"@.len() != "ts_mean"@.len());
    assert("tsstd"@ != "ts_mean"@);
    assert("tsstd"@.len() != "tsmean"@.len());
    assert("tsstd"@ != "tsmean"@);
    assert("tsstd"@.len() != "ts_avg"@.len());
    assert("tsstd"@ != "ts_avg"@);
}

proof fn lemma_alias_ts_stddev()
    ensures
        function_named("ts_stddev"@) == Some(FactorFunction::TsStd),
{
    reveal_strlit("demean");
    reveal_strlit("rank");
    reveal_strlit("scale");
    reveal_strlit("ts_avg");
    reveal_strlit("ts_mean");
    reveal_strlit("ts_rank");
    reveal_strlit("ts_stddev");
    reveal_strlit("ts_sum");
    reveal_strlit("tsmean");
    reveal_strlit("tsrank");
    reveal_strlit("tssum");
    reveal_strlit("z_score");
    reveal_strlit("zscore");
    assert("ts_stddev"@.len() != "rank"@.len());
    assert("ts_stddev"@ != "rank"@);
    assert("ts_stddev"@.len() != "zscore"@.len());
    assert("ts_stddev"@ != "zscore"@);
    assert("ts_stddev"@.len() != "z_score"@.len());
    assert("ts_stddev"@ != "z_score"@);
    assert("ts_stddev"@.len() != "scale"@.len());
    assert("ts_stddev"@ != "scale"@);
    assert("ts_stddev"@.len() != "demean"@.len());
    assert("ts_stddev"@ != "demean"@);
    assert("ts_stddev"@.len() != "ts_rank"@.len());
    assert("ts_stddev"@ != "ts_rank"@);
    assert("ts_stddev"@.len() != "tsrank"@.len());
    assert("ts_stddev"@ != "tsrank"@);
    assert("ts_stddev"@.len() != "ts_sum"@.len());
    assert("ts_stddev"@ != "ts_sum"@);
    assert("ts_stddev"@.len() != "tssum"@.len());
    assert("ts_stddev"@ != "tssum"@);
    assert("ts_stddev"@.len() != "ts_mean"@.len());
    assert("ts_stddev"@ != "ts_mean"@);
    assert("ts_stddev"@.len() != "tsmean"@.len());
    assert("ts_stddev"@ != "tsmean"@);
    assert("ts_stddev"@.len() != "ts_avg"@.len());
    assert("ts_stddev"@ != "ts_avg"@);
}

proof fn lemma_alias_ts_min()
    ensures
        function_named("ts_min"@) == Some(FactorFunction::TsMin),
{
    reveal_strlit("demean");
    reveal_strlit("rank");
    reveal_strlit("scale");
    reveal_strlit("ts_avg");
    reveal_strlit("ts_mean");
    reveal_strlit("ts_min");
    reveal_strlit("ts_rank");
    reveal_strlit("ts_std");
    reveal_strlit("ts_stddev");
    reveal_strlit("ts_sum");
    reveal_strlit("tsmean");
    reveal_strlit("tsrank");
    reveal_strlit("tsstd");
    reveal_strlit("tssum");
    reveal_strlit("z_score");
    reveal_strlit("zscore");
    assert("ts_min"@.len() != "rank"@.len());
    assert("ts_min"@ != "rank"@);
    assert("ts_min"@[0] != "zscore"@[0]);
    assert("ts_min"@ != "zscore"@);
    assert("ts_min"@.len() != "z_score"@.len());
    assert("ts_min"@ != "z_score"@);
    assert("ts_min"@.len() != "scale"@.len());
    assert("ts_min"@ != "scale"@);
    assert("ts_min"@[0] != "demean"@[0]);
    assert("ts_min"@ != "demean"@);
    assert("ts_min"@.len() != "ts_rank"@.len());
    assert("ts_min"@ != "ts_rank"@);
    assert("ts_min"@[2] != "tsrank"@[2]);
    assert("ts_min"@ != "tsrank"@);
    assert("ts_min"@[3] != "ts_sum"@[3]);
    assert("ts_min"@ != "ts_sum"@);
    assert("ts_min"@.len() != "tssum"@.len());
    assert("ts_min"@ != "tssum"@);
    assert("ts_min"@.len() != "ts_mean"@.len());
    assert("ts_min"@ != "ts_mean"@);
    assert("ts_min"@[2] != "tsmean"@[2]);
    assert("ts_min"@ != "tsmean"@);
    assert("ts_min"@[3] != "ts_avg"@[3]);
    assert("ts_min"@ != "ts_avg"@);
    assert("ts_min"@[3] != "ts_std"@[3]);
    assert("ts_min"@ != "ts_std"@);
    assert("ts_min"@.len() != "tsstd"@.len());
    assert("ts_min"@ != "tsstd"@);
    assert("ts_min"@.len() != "ts_stddev"@.len());
    assert("ts_min"@ != "ts_stddev"@);
}

proof fn lemma_alias_tsmin()
    ensures
        function_named("tsmin"@) == Some(FactorFunction::TsMin),
{
    reveal_strlit("demean");
    reveal_strlit("rank");
    reveal_strlit("scale");
    reveal_strlit("ts_avg");
    reveal_strlit("ts_mean");
    reveal_strlit("ts_rank");
    reveal_strlit("ts_std");
    reveal_strlit("ts_stddev");
    reveal_strlit("ts_sum");
    reveal_strlit("tsmean");
    reveal_strlit("tsmin");
    reveal_strlit("tsrank");
    reveal_strlit("tsstd");
    reveal_strlit("tssum");
    reveal_strlit("z_score");
    reveal_strlit("zscore");
    assert("tsmin"@.len() != "rank"@.len());
    assert("tsmin"@ != "rank"@);
    assert("tsmin"@.len() != "zscore"@.len());
    assert("tsmin"@ != "zscore"@);
    assert("tsmin"@.len() != "z_score"@.len());
    assert("tsmin"@ != "z_score"@);
    assert("tsmin"@[0] != "scale"@[0]);
    assert("tsmin"@ != "scale"@);
    assert("tsmin"@.len() != "demean"@.len());
    assert("tsmin"@ != "demean"@);
    assert("tsmin"@.len() != "ts_rank"@.len());
    assert("tsmin"@ != "ts_rank"@);
    assert("tsmin"@.len() != "tsrank"@.len());
    assert("tsmin"@ != "tsrank"@);
    assert("tsmin"@.len() != "ts_sum"@.len());
    assert("tsmin"@ != "ts_sum"@);
    assert("tsmin"@[2] != "tssum"@[2]);
    assert("tsmin"@ != "tssum"@);
    assert("tsmin"@.len() != "ts_mean"@.len());
    assert("tsmin"@ != "ts_mean"@);
    assert("tsmin"@.len() != "tsmean"@.len());
    assert("tsmin"@ != "tsmean"@);
    assert("tsmin"@.len() != "ts_avg"@.len());
    assert("tsmin"@ != "ts_avg"@);
    assert("tsmin"@.len() != "ts_std"@.len());
    assert("tsmin"@ != "ts_std"@);
    assert("tsmin"@[2] != "tsstd"@[2]);
    assert("tsmin"@ != "tsstd"@);
    assert("tsmin"@.len() != "ts_stddev"@.len());
    assert("tsmin"@ != "ts_stddev"@);
}

proof fn lemma_alias_ts_max()
    ensures
        function_named("ts_max"@) == Some(FactorFunction::TsMax),
{
    reveal_strlit("demean");
    reveal_strlit("rank");
    reveal_strlit("scale");
    reveal_strlit("ts_avg");
    reveal_strlit("ts_max");
    reveal_strlit("ts_mean");
    reveal_strlit("ts_min");
    reveal_strlit("ts_rank");
    reveal_strlit("ts_std");
    reveal_strlit("ts_stddev");
    reveal_strlit("ts_sum");
    reveal_strlit("tsmean");
    reveal_strlit("tsmin");
    reveal_strlit("tsrank");
    reveal_strlit("tsstd");
    reveal_strlit("tssum");
    reveal_strlit("z_score");
    reveal_strlit("zscore");
    assert("ts_max"@.len() != "rank"@.len());
    assert("ts_max"@ != "rank"@);
    assert("ts_max"@[0] != "zscore"@[0]);
    assert("ts_max"@ != "zscore"@);
    assert("ts_max"@.len() != "z_score"@.len());
    assert("ts_max"@ != "z_score"@);
    assert("ts_max"@.len() != "scale"@.len());
    assert("ts_max"@ != "scale"@);
    assert("ts_max"@[0] != "demean"@[0]);
    assert("ts_max"@ != "demean"@);
    assert("ts_max"@.len() != "ts_rank"@.len());
    assert("ts_max"@ != "ts_rank"@);
    assert("ts_max"@[2] != "tsrank"@[2]);
    assert("ts_max"@ != "tsrank"@);
    assert("ts_max"@[3] != "ts_sum"@[3]);
    assert("ts_max"@ != "ts_sum"@);
    assert("ts_max"@.len() != "tssum"@.len());
    assert("ts_max"@ != "tssum"@);
    assert("ts_max"@.len() != "ts_mean"@.len());
    assert("ts_max"@ != "ts_mean"@);
    assert("ts_max"@[2] != "tsmean"@[2]);
    assert("ts_max"@ != "tsmean"@);
    assert("ts_max"@[3] != "ts_avg"@[3]);
    assert("ts_max"@ != "ts_avg"@);
    assert("ts_max"@[3] != "ts_std"@[3]);
    assert("ts_max"@ != "ts_std"@);
    assert("ts_max"@.len() != "tsstd"@.len());
    assert("ts_max"@ != "tsstd"@);
    assert("ts_max"@.len() != "ts_stddev"@.len());
    assert("ts_max"@ != "ts_stddev"@);
    assert("ts_max"@[4] != "ts_min"@[4]);
    assert("ts_max"@ != "ts_min"@);
    assert("ts_max"@.len() != "tsmin"@.len());
    assert("ts_max"@ != "tsmin"@);
}

proof fn lemma_alias_tsmax()
    ensures
        function_named("tsmax"@) == Some(FactorFunction::TsMax),
{
    reveal_strlit("demean");
    reveal_strlit("rank");
    reveal_strlit("scale");
    reveal_strlit("ts_avg");
    reveal_strlit("ts_mean");
    reveal_strlit("ts_min");
    reveal_strlit("ts_rank");
    reveal_strlit("ts_std");
    reveal_strlit("ts_stddev");
    reveal_strlit("ts_sum");
    reveal_strlit("tsmax");
    reveal_strlit("tsmean");
    reveal_strlit("tsmin");
    reveal_strlit("tsrank");
    reveal_strlit("tsstd");
    reveal_strlit("tssum");
    reveal_strlit("z_score");
    reveal_strlit("zscore");
    assert("tsmax"@.len() != "rank"@.len());
    assert("tsmax"@ != "rank"@);
    assert("tsmax"@.len() != "zscore"@.len());
    assert("tsmax"@ != "zscore"@);
    assert("tsmax"@.len() != "z_score"@.len());
    assert("tsmax"@ != "z_score"@);
    assert("tsmax"@[0] != "scale"@[0]);
    assert("tsmax"@ != "scale"@);
    assert("tsmax"@.len() != "demean"@.len());
    assert("tsmax"@ != "demean"@);
    assert("tsmax"@.len() != "ts_rank"@.len());
    assert("tsmax"@ != "ts_rank"@);
    assert("tsmax"@.len() != "tsrank"@.len());
    assert("tsmax"@ != "tsrank"@);
    assert("tsmax"@.len() != "ts_sum"@.len());
    assert("tsmax"@ != "ts_sum"@);
    assert("tsmax"@[2] != "tssum"@[2]);
    assert("tsmax"@ != "tssum"@);
    assert("tsmax"@.len() != "ts_mean"@.len());
    assert("tsmax"@ != "ts_mean"@);
    assert("tsmax"@.len() != "tsmean"@.len());
    assert("tsmax"@ != "tsmean"@);
    assert("tsmax"@.len() != "ts_avg"@.len());
    assert("tsmax"@ != "ts_avg"@);
    assert("tsmax"@.len() != "ts_std"@.len());
    assert("tsmax"@ != "ts_std"@);
    assert("tsmax"@[2] != "tsstd"@[2]);
    assert("tsmax"@ != "tsstd"@);
    assert("tsmax"@.len() != "ts_stddev"@.len());
    assert("tsmax"@ != "ts_stddev"@);
    assert("tsmax"@.len() != "ts_min"@.len());
    assert("tsmax"@ != "ts_min"@);
    assert("tsmax"@[3] != "tsmin"@[3]);
    assert("tsmax"@ != "tsmin"@);
}

proof fn lemma_alias_ts_argmax()
    ensures
        function_named("ts_argmax"@) == Some(FactorFunction::TsArgmax),
{
    reveal_strlit("demean");
    reveal_strlit("rank");
    reveal_strlit("scale");
    reveal_strlit("ts_argmax");
    reveal_strlit("ts_avg");
    reveal_strlit("ts_max");
    reveal_strlit("ts_mean");
    reveal_strlit("ts_min");
    reveal_strlit("ts_rank");
    reveal_strlit("ts_std");
    reveal_strlit("ts_stddev");
    reveal_strlit("ts_sum");
    reveal_strlit("tsmax");
    reveal_strlit("tsmean");
    reveal_strlit("tsmin");
    reveal_strlit("tsrank");
    reveal_strlit("tsstd");
    reveal_strlit("tssum");
    reveal_strlit("z_score");
    reveal_strlit("zscore");
    assert("ts_argmax"@.len() != "rank"@.len());
    assert("ts_argmax"@ != "rank"@);
    assert("ts_argmax"@.len() != "zscore"@.len());
    assert("ts_argmax"@ != "zscore"@);
    assert("ts_argmax"@.len() != "z_score"@.len());
    assert("ts_argmax"@ != "z_score"@);
    assert("ts_argmax"@.len() != "scale"@.len());
    assert("ts_argmax"@ != "scale"@);
    assert("ts_argmax"@.len() != "demean"@.len());
    assert("ts_argmax"@ != "demean"@);
    assert("ts_argmax"@.len() != "ts_rank"@.len());
    assert("ts_argmax"@ != "ts_rank"@);
    assert("ts_argmax"@.len() != "tsrank"@.len());
    assert("ts_argmax"@ != "tsrank"@);
    assert("ts_argmax"@.len() != "ts_sum"@.len());
    assert("ts_argmax"@ != "ts_sum"@);
    assert("ts_argmax"@.len() != "tssum"@.len());
    assert("ts_argmax"@ != "tssum"@);
    assert("ts_argmax"@.len() != "ts_mean"@.len());
    assert("ts_argmax"@ != "ts_mean"@);
    assert("ts_argmax"@.len() != "tsmean"@.len());
    assert("ts_argmax"@ != "tsmean"@);
    assert("ts_argmax"@.len() != "ts_avg"@.len());
    assert("ts_argmax"@ != "ts_avg"@);
    assert("ts_argmax"@.len() != "ts_std"@.len());
    assert("ts_argmax"@ != "ts_std"@);
    assert("ts_argmax"@.len() != "tsstd"@.len());
    assert("ts_argmax"@ != "tsstd"@);
    assert("ts_argmax"@[3] != "ts_stddev"@[3]);
    assert("ts_argmax"@ != "ts_stddev"@);
    assert("ts_argmax"@.len() != "ts_min"@.len());
    assert("ts_argmax"@ != "ts_min"@);
    assert("ts_argmax"@.len() != "tsmin"@.len());
    assert("ts_argmax"@ != "tsmin"@);
    assert("ts_argmax"@.len() != "ts_max"@.len());
    assert("ts_argmax"@ != "ts_max"@);
    assert("ts_argmax"@.len() != "tsmax"@.len());
    assert("ts_argmax"@ != "tsmax"@);
}

proof fn lemma_alias_tsargmax()
    ensures
        function_named("tsargmax"@) == Some(FactorFunction::TsArgmax),
{
    reveal_strlit("demean");
    reveal_strlit("rank");
    reveal_strlit("scale");
    reveal_strlit("ts_avg");
    reveal_strlit("ts_max");
    reveal_strlit("ts_mean");
    reveal_strlit("ts_min");
    reveal_strlit("ts_rank");
    reveal_strlit("ts_std");
    reveal_strlit("ts_stddev");
    reveal_strlit("ts_sum");
    reveal_strlit("tsargmax");
    reveal_strlit("tsmax");
    reveal_strlit("tsmean");
    reveal_strlit("tsmin");
    reveal_strlit("tsrank");
    reveal_strlit("tsstd");
    reveal_strlit("tssum");
    reveal_strlit("z_score");
    reveal_strlit("zscore");
    assert("tsargmax"@.len() != "rank"@.len());
    assert("tsargmax"@ != "rank"@);
    assert("tsargmax"@.len() != "zscore"@.len());
    assert("tsargmax"@ != "zscore"@);
    assert("tsargmax"@.len() != "z_score"@.len());
    assert("tsargmax"@ != "z_score"@);
    assert("tsargmax"@.len() != "scale"@.len());
    assert("tsargmax"@ != "scale"@);
    assert("tsargmax"@.len() != "demean"@.len());
    assert("tsargmax"@ != "demean"@);
    assert("tsargmax"@.len() != "ts_rank"@.len());
    assert("tsargmax"@ != "ts_rank"@);
    assert("tsargmax"@.len() != "tsrank"@.len());
    assert("tsargmax"@ != "tsrank"@);
    assert("tsargmax"@.len() != "ts_sum"@.len());
    assert("tsargmax"@ != "ts_sum"@);
    assert("tsargmax"@.len() != "tssum"@.len());
    assert("tsargmax"@ != "tssum"@);
    assert("tsargmax"@.len() != "ts_mean"@.len());
    assert("tsargmax"@ != "ts_mean"@);
    assert("tsargmax"@.len() != "tsmean"@.len());
    assert("tsargmax"@ != "tsmean"@);
    assert("tsargmax"@.len() != "ts_avg"@.len());
    assert("tsargmax"@ != "ts_avg"@);
    assert("tsargmax"@.len() != "ts_std"@.len());
    assert("tsargmax"@ != "ts_std"@);
    assert("tsargmax"@.len() != "tsstd"@.len());
    assert("tsargmax"@ != "tsstd"@);
    assert("tsargmax"@.len() != "ts_stddev"@.len());
    assert("tsargmax"@ != "ts_stddev"@);
    assert("tsargmax"@.len() != "ts_min"@.len());
    assert("tsargmax"@ != "ts_min"@);
    assert("tsargmax"@.len() != "tsmin"@.len());
    assert("tsargmax"@ != "tsmin"@);
    assert("tsargmax"@.len() != "ts_max"@.len());
    assert("tsargmax"@ != "ts_max"@);
    assert("tsargmax"@.len() != "tsmax"@.len());
    assert("tsargmax"@ != "tsmax"@);
}

proof fn lemma_alias_ts_argmin()
    ensures
        function_named("ts_argmin"@) == Some(FactorFunction::TsArgmin),
{
    reveal_strlit("demean");
    reveal_strlit("rank");
    reveal_strlit("scale");
    reveal_strlit("ts_argmax");
    reveal_strlit("ts_argmin");
    reveal_strlit("ts_avg");
    reveal_strlit("ts_max");
    reveal_strlit("ts_mean");
    reveal_strlit("ts_min");
    reveal_strlit("ts_rank");
    reveal_strlit("ts_std");
    reveal_strlit("ts_stddev");
    reveal_strlit("ts_sum");
    reveal_strlit("tsargmax");
    reveal_strlit("tsmax");
    reveal_strlit("tsmean");
    reveal_strlit("tsmin");
    reveal_strlit("tsrank");
    reveal_strlit("tsstd");
    reveal_strlit("tssum");
    reveal_strlit("z_score");
    reveal_strlit("zscore");
    assert("ts_argmin"@.len() != "rank"@.len());
    assert("ts_argmin"@ != "rank"@);
    assert("ts_argmin"@.len() != "zscore"@.len());
    assert("ts_argmin"@ != "zscore"@);
    assert("ts_argmin"@.len() != "z_score"@.len());
    assert("ts_argmin"@ != "z_score"@);
    assert("ts_argmin"@.len() != "scale"@.len());
    assert("ts_argmin"@ != "scale"@);
    assert("ts_argmin"@.len() != "demean"@.len());
    assert("ts_argmin"@ != "demean"@);
    assert("ts_argmin"@.len() != "ts_rank"@.len());
    assert("ts_argmin"@ != "ts_rank"@);
    assert("ts_argmin"@.len() != "tsrank"@.len());
    assert("ts_argmin"@ != "tsrank"@);
    assert("ts_argmin"@.len() != "ts_sum"@.len());
    assert("ts_argmin"@ != "ts_sum"@);
    assert("ts_argmin"@.len() != "tssum"@.len());
    assert("ts_argmin"@ != "tssum"@);
    assert("ts_argmin"@.len() != "ts_mean"@.len());
    assert("ts_argmin"@ != "ts_mean"@);
    assert("ts_argmin"@.len() != "tsmean"@.len());
    assert("ts_argmin"@ != "tsmean"@);
    assert("ts_argmin"@.len() != "ts_avg"@.len());
    assert("ts_argmin"@ != "ts_avg"@);
    assert("ts_argmin"@.len() != "ts_std"@.len());
    assert("ts_argmin"@ != "ts_std"@);
    assert("ts_argmin"@.len() != "tsstd"@.len());
    assert("ts_argmin"@ != "tsstd"@);
    assert("ts_argmin"@[3] != "ts_stddev"@[3]);
    assert("ts_argmin"@ != "ts_stddev"@);
    assert("ts_argmin"@.len() != "ts_min"@.len());
    assert("ts_argmin"@ != "ts_min"@);
    assert("ts_argmin"@.len() != "tsmin"@.len());
    assert("ts_argmin"@ != "tsmin"@);
    assert("ts_argmin"@.len() != "ts_max"@.len());
    assert("ts_argmin"@ != "ts_max"@);
    assert("ts_argmin"@.len() != "tsmax"@.len());
    assert("ts_argmin"@ != "tsmax"@);
    assert("ts_argmin"@[7] != "ts_argmax"@[7]);
    assert("ts_argmin"@ != "ts_argmax"@);
    assert("ts_argmin"@.len() != "tsargmax"@.len());
    assert("ts_argmin"@ != "tsargmax"@);
}

proof fn lemma_alias_tsargmin()
    ensures
        function_named("tsargmin"@) == Some(FactorFunction::TsArgmin),
{
    reveal_strlit("demean");
    reveal_strlit("rank");
    reveal_strlit("scale");
    reveal_strlit("ts_argmax");
    reveal_strlit("ts_avg");
    reveal_strlit("ts_max");
    reveal_strlit("ts_mean");
    reveal_strlit("ts_min");
    reveal_strlit("ts_rank");
    reveal_strlit("ts_std");
    reveal_strlit("ts_stddev");
    reveal_strlit("ts_sum");
    reveal_strlit("tsargmax");
    reveal_strlit("tsargmin");
    reveal_strlit("tsmax");
    reveal_strlit("tsmean");
    reveal_strlit("tsmin");
    reveal_strlit("tsrank");
    reveal_strlit("tsstd");
    reveal_strlit("tssum");
    reveal_strlit("z_score");
    reveal_strlit("zscore");
    assert("tsargmin"@.len() != "rank"@.len());
    assert("tsargmin"@ != "rank"@);
    assert("tsargmin"@.len() != "zscore"@.len());
    assert("tsargmin"@ != "zscore"@);
    assert("tsargmin"@.len() != "z_score"@.len());
    assert("tsargmin"@ != "z_score"@);
    assert("tsargmin"@.len() != "scale"@.len());
    assert("tsargmin"@ != "scale"@);
    assert("tsargmin"@.len() != "demean"@.len());
    assert("tsargmin"@ != "demean"@);
    assert("tsargmin"@.len() != "ts_rank"@.len());
    assert("tsargmin"@ != "ts_rank"@);
    assert("tsargmin"@.len() != "tsrank"@.len());
    assert("tsargmin"@ != "tsrank"@);
    assert("tsargmin"@.len() != "ts_sum"@.len());
    assert("tsargmin"@ != "ts_sum"@);
    assert("tsargmin"@.len() != "tssum"@.len());
    assert("tsargmin"@ != "tssum"@);
    assert("tsargmin"@.len() != "ts_mean"@.len());
    assert("tsargmin"@ != "ts_mean"@);
    assert("tsargmin"@.len() != "tsmean"@.len());
    assert("tsargmin"@ != "tsmean"@);
    assert("tsargmin"@.len() != "ts_avg"@.len());
    assert("tsargmin"@ != "ts_avg"@);
    assert("tsargmin"@.len() != "ts_std"@.len());
    assert("tsargmin"@ != "ts_std"@);
    assert("tsargmin"@.len() != "tsstd"@.len());
    assert("tsargmin"@ != "tsstd"@);
    assert("tsargmin"@.len() != "ts_stddev"@.len());
    assert("tsargmin"@ != "ts_stddev"@);
    assert("tsargmin"@.len() != "ts_min"@.len());
    assert("tsargmin"@ != "ts_min"@);
    assert("tsargmin"@.len() != "tsmin"@.len());
    assert("tsargmin"@ != "tsmin"@);
    assert("tsargmin"@.len() != "ts_max"@.len());
    assert("tsargmin"@ != "ts_max"@);
    assert("tsargmin"@.len() != "tsmax"@.len());
    assert("tsargmin"@ != "tsmax"@);
    assert("tsargmin"@.len() != "ts_argmax"@.len());
    assert("tsargmin"@ != "ts_argmax"@);
    assert("tsargmin"@[6] != "tsargmax"@[6]);
    assert("tsargmin"@ != "tsargmax"@);
}

proof fn lemma_alias_ts_delay()
    ensures
        function_named("ts_delay"@) == Some(FactorFunction::TsDelay),
{
    reveal_strlit("demean");
    reveal_strlit("rank");
    reveal_strlit("scale");
    reveal_strlit("ts_argmax");
    reveal_strlit("ts_argmin");
    reveal_strlit("ts_avg");
    reveal_strlit("ts_delay");
    reveal_strlit("ts_max");
    reveal_strlit("ts_mean");
    reveal_strlit("ts_min");
    reveal_strlit("ts_rank");
    reveal_strlit("ts_std");
    reveal_strlit("ts_stddev");
    reveal_strlit("ts_sum");
    reveal_strlit("tsargmax");
    reveal_strlit("tsargmin");
    reveal_strlit("tsmax");
    reveal_strlit("tsmean");
    reveal_strlit("tsmin");
    reveal_strlit("tsrank");
    reveal_strlit("tsstd");
    reveal_strlit("tssum");
    reveal_strlit("z_score");
    reveal_strlit("zscore");
    assert("ts_delay"@.len() != "rank"@.len());
    assert("ts_delay"@ != "rank"@);
    assert("ts_delay"@.len() != "zscore"@.len());
    assert("ts_delay"@ != "zscore"@);
    assert("ts_delay"@.len() != "z_score"@.len());
    assert("ts_delay"@ != "z_score"@);
    assert("ts_delay"@.len() != "scale"@.len());
    assert("ts_delay"@ != "scale"@);
    assert("ts_delay"@.len() != "demean"@.len());
    assert("ts_delay"@ != "demean"@);
    assert("ts_delay"@.len() != "ts_rank"@.len());
    assert("ts_delay"@ != "ts_rank"@);
    assert("ts_delay"@.len() != "tsrank"@.len());
    assert("ts_delay"@ != "tsrank"@);
    assert("ts_delay"@.len() != "ts_sum"@.len());
    assert("ts_delay"@ != "ts_sum"@);
    assert("ts_delay"@.len() != "tssum"@.len());
    assert("ts_delay"@ != "tssum"@);
    assert("ts_delay"@.len() != "ts_mean"@.len());
    assert("ts_delay"@ != "ts_mean"@);
    assert("ts_delay"@.len() != "tsmean"@.len());
    assert("ts_delay"@ != "tsmean"@);
    assert("ts_delay"@.len() != "ts_avg"@.len());
    assert("ts_delay"@ != "ts_avg"@);
    assert("ts_delay"@.len() != "ts_std"@.len());
    assert("ts_delay"@ != "ts_std"@);
    assert("ts_delay"@.len() != "tsstd"@.len());
    assert("ts_delay"@ != "tsstd"@);
    assert("ts_delay"@.len() != "ts_stddev"@.len());
    assert("ts_delay"@ != "ts_stddev"@);
    assert("ts_delay"@.len() != "ts_min"@.len());
    assert("ts_delay"@ != "ts_min"@);
    assert("ts_delay"@.len() != "tsmin"@.len());
    assert("ts_delay"@ != "tsmin"@);
    assert("ts_delay"@.len() != "ts_max"@.len());
    assert("ts_delay"@ != "ts_max"@);
    assert("ts_delay"@.len() != "tsmax"@.len());
    assert("ts_delay"@ != "tsmax"@);
    assert("ts_delay"@.len() != "ts_argmax"@.len());
    assert("ts_delay"@ != "ts_argmax"@);
    assert("ts_delay"@[2] != "tsargmax"@[2]);
    assert("ts_delay"@ != "tsargmax"@);
    assert("ts_delay"@.len() != "ts_argmin"@.len());
    assert("ts_delay"@ != "ts_argmin"@);
    assert("ts_delay"@[2] != "tsargmin"@[2]);
    assert("ts_delay"@ != "tsargmin"@);
}

proof fn lemma_alias_delay()
    ensures
        function_named("delay"@) == Some(FactorFunction::TsDelay),
{
    reveal_strlit("delay");
    reveal_strlit("demean");
    reveal_strlit("rank");
    reveal_strlit("scale");
    reveal_strlit("ts_argmax");
    reveal_strlit("ts_argmin");
    reveal_strlit("ts_avg");
    reveal_strlit("ts_max");
    reveal_strlit("ts_mean");
    reveal_strlit("ts_min");
    reveal_strlit("ts_rank");
    reveal_strlit("ts_std");
    reveal_strlit("ts_stddev");
    reveal_strlit("ts_sum");
    reveal_strlit("tsargmax");
    reveal_strlit("tsargmin");
    reveal_strlit("tsmax");
    reveal_strlit("tsmean");
    reveal_strlit("tsmin");
    reveal_strlit("tsrank");
    reveal_strlit("tsstd");
    reveal_strlit("tssum");
    reveal_strlit("z_score");
    reveal_strlit("zscore");
    assert("delay"@.len() != "rank"@.len());
    assert("delay"@ != "rank"@);
    assert("delay"@.len() != "zscore"@.len());
    assert("delay"@ != "zscore"@);
    assert("delay"@.len() != "z_score"@.len());
    assert("delay"@ != "z_score"@);
    assert("delay"@[0] != "scale"@[0]);
    assert("delay"@ != "scale"@);
    assert("delay"@.len() != "demean"@.len());
    assert("delay"@ != "demean"@);
    assert("delay"@.len() != "ts_rank"@.len());
    assert("delay"@ != "ts_rank"@);
    assert("delay"@.len() != "tsrank"@.len());
    assert("delay"@ != "tsrank"@);
    assert("delay"@.len() != "ts_sum"@.len());
    assert("delay"@ != "ts_sum"@);
    assert("delay"@[0] != "tssum"@[0]);
    assert("delay"@ != "tssum"@);
    assert("delay"@.len() != "ts_mean"@.len());
    assert("delay"@ != "ts_mean"@);
    assert("delay"@.len() != "tsmean"@.len());
    assert("delay"@ != "tsmean"@);
    assert("delay"@.len() != "ts_avg"@.len());
    assert("delay"@ != "ts_avg"@);
    assert("delay"@.len() != "ts_std"@.len());
    assert("delay"@ != "ts_std"@);
    assert("delay"@[0] != "tsstd"@[0]);
    assert("delay"@ != "tsstd"@);
    assert("delay"@.len() != "ts_stddev"@.len());
    assert("delay"@ != "ts_stddev"@);
    assert("delay"@.len() != "ts_min"@.len());
    assert("delay"@ != "ts_min"@);
    assert("delay"@[0] != "tsmin"@[0]);
    assert("delay"@ != "tsmin"@);
    assert("delay"@.len() != "ts_max"@.len());
    assert("delay"@ != "ts_max"@);
    assert("delay"@[0] != "tsmax"@[0]);
    assert("delay"@ != "tsmax"@);
    assert("delay"@.len() != "ts_argmax"@.len());
    assert("delay"@ != "ts_argmax"@);
    assert("delay"@.len() != "tsargmax"@.len());
    assert("delay"@ != "tsargmax"@);
    assert("delay"@.len() != "ts_argmin"@.len());
    assert("delay"@ != "ts_argmin"@);
    assert("delay"@.len() != "tsargmin"@.len());
    assert("delay"@ != "tsargmin"@);
}

proof fn lemma_alias_lag()
    ensures
        function_named("lag"@) == Some(FactorFunction::TsDelay),
{
    reveal_strlit("demean");
    reveal_strlit("lag");
    reveal_strlit("rank");
    reveal_strlit("scale");
    reveal_strlit("ts_argmax");
    reveal_strlit("ts_argmin");
    reveal_strlit("ts_avg");
    reveal_strlit("ts_max");
    reveal_strlit("ts_mean");
    reveal_strlit("ts_min");
    reveal_strlit("ts_rank");
    reveal_strlit("ts_std");
    reveal_strlit("ts_stddev");
    reveal_strlit("ts_sum");
    reveal_strlit("tsargmax");
    reveal_strlit("tsargmin");
    reveal_strlit("tsmax");
    reveal_strlit("tsmean");
    reveal_strlit("tsmin");
    reveal_strlit("tsrank");
    reveal_strlit("tsstd");
    reveal_strlit("tssum");
    reveal_strlit("z_score");
    reveal_strlit("zscore");
    assert("lag"@.len() != "rank"@.len());
    assert("lag"@ != "rank"@);
    assert("lag"@.len() != "zscore"@.len());
    assert("lag"@ != "zscore"@);
    assert("lag"@.len() != "z_score"@.len());
    assert("lag"@ != "z_score"@);
    assert("lag"@.len() != "scale"@.len());
    assert("lag"@ != "scale"@);
    assert("lag"@.len() != "demean"@.len());
    assert("lag"@ != "demean"@);
    assert("lag"@.len() != "ts_rank"@.len());
    assert("lag"@ != "ts_rank"@);
    assert("lag"@.len() != "tsrank"@.len());
    assert("lag"@ != "tsrank"@);
    assert("lag"@.len() != "ts_sum"@.len());
    assert("lag"@ != "ts_sum"@);
    assert("lag"@.len() != "tssum"@.len());
    assert("lag"@ != "tssum"@);
    assert("lag"@.len() != "ts_mean"@.len());
    assert("lag"@ != "ts_mean"@);
    assert("lag"@.len() != "tsmean"@.len());
    assert("lag"@ != "tsmean"@);
    assert("lag"@.len() != "ts_avg"@.len());
    assert("lag"@ != "ts_avg"@);
    assert("lag"@.len() != "ts_std"@.len());
    assert("lag"@ != "ts_std"@);
    assert("lag"@.len() != "tsstd"@.len());
    assert("lag"@ != "tsstd"@);
    assert("lag"@.len() != "ts_stddev"@.len());
    assert("lag"@ != "ts_stddev"@);
    assert("lag"@.len() != "ts_min"@.len());
    assert("lag"@ != "ts_min"@);
    assert("lag"@.len() != "tsmin"@.len());
    assert("lag"@ != "tsmin"@);
    assert("lag"@.len() != "ts_max"@.len());
    assert("lag"@ != "ts_max"@);
    assert("lag"@.len() != "tsmax"@.len());
    assert("lag"@ != "tsmax"@);
    assert("lag"@.len() != "ts_argmax"@.len());
    assert("lag"@ != "ts_argmax"@);
    assert("lag"@.len() != "tsargmax"@.len());
    assert("lag"@ != "tsargmax"@);
    assert("lag"@.len() != "ts_argmin"@.len());
    assert("lag"@ != "ts_argmin"@);
    assert("lag"@.len() != "tsargmin"@.len());
    assert("lag"@ != "tsargmin"@);
}

proof fn lemma_alias_ts_delta()
    ensures
        function_named("ts_delta"@) == Some(FactorFunction::TsDelta),
{
    reveal_strlit("delay");
    reveal_strlit("demean");
    reveal_strlit("lag");
    reveal_strlit("rank");
    reveal_strlit("scale");
    reveal_strlit("ts_argmax");
    reveal_strlit("ts_argmin");
    reveal_strlit("ts_avg");
    reveal_strlit("ts_delay");
    reveal_strlit("ts_delta");
    reveal_strlit("ts_max");
    reveal_strlit("ts_mean");
    reveal_strlit("ts_min");
    reveal_strlit("ts_rank");
    reveal_strlit("ts_std");
    reveal_strlit("ts_stddev");
    reveal_strlit("ts_sum");
    reveal_strlit("tsargmax");
    reveal_strlit("tsargmin");
    reveal_strlit("tsmax");
    reveal_strlit("tsmean");
    reveal_strlit("tsmin");
    reveal_strlit("tsrank");
    reveal_strlit("tsstd");
    reveal_strlit("tssum");
    reveal_strlit("z_score");
    reveal_strlit("zscore");
    assert("ts_delta"@.len() != "rank"@.len());
    assert("ts_delta"@ != "rank"@);
    assert("ts_delta"@.len() != "zscore"@.len());
    assert("ts_delta"@ != "zscore"@);
    assert("ts_delta"@.len() != "z_score"@.len());
    assert("ts_delta"@ != "z_score"@);
    assert("ts_delta"@.len() != "scale"@.len());
    assert("ts_delta"@ != "scale"@);
    assert("ts_delta"@.len() != "demean"@.len());
    assert("ts_delta"@ != "demean"@);
    assert("ts_delta"@.len() != "ts_rank"@.len());
    assert("ts_delta"@ != "ts_rank"@);
    assert("ts_delta"@.len() != "tsrank"@.len());
    assert("ts_delta"@ != "tsrank"@);
    assert("ts_delta"@.len() != "ts_sum"@.len());
    assert("ts_delta"@ != "ts_sum"@);
    assert("ts_delta"@.len() != "tssum"@.len());
    assert("ts_delta"@ != "tssum"@);
    assert("ts_delta"@.len() != "ts_mean"@.len());
    assert("ts_delta"@ != "ts_mean"@);
    assert("ts_delta"@.len() != "tsmean"@.len());
    assert("ts_delta"@ != "tsmean"@);
    assert("ts_delta"@.len() != "ts_avg"@.len());
    assert("ts_delta"@ != "ts_avg"@);
    assert("ts_delta"@.len() != "ts_std"@.len());
    assert("ts_delta"@ != "ts_std"@);
    assert("ts_delta"@.len() != "tsstd"@.len());
    assert("ts_delta"@ != "tsstd"@);
    assert("ts_delta"@.len() != "ts_stddev"@.len());
    assert("ts_delta"@ != "ts_stddev"@);
    assert("ts_delta"@.len() != "ts_min"@.len());
    assert("ts_delta"@ != "ts_min"@);
    assert("ts_delta"@.len() != "tsmin"@.len());
    assert("ts_delta"@ != "tsmin"@);
    assert("ts_delta"@.len() != "ts_max"@.len());
    assert("ts_delta"@ != "ts_max"@);
    assert("ts_delta"@.len() != "tsmax"@.len());
    assert("ts_delta"@ != "tsmax"@);
    assert("ts_delta"@.len() != "ts_argmax"@.len());
    assert("ts_delta"@ != "ts_argmax"@);
    assert("ts_delta"@[2] != "tsargmax"@[2]);
    assert("ts_delta"@ != "tsargmax"@);
    assert("ts_delta"@.len() != "ts_argmin"@.len());
    assert("ts_delta"@ != "ts_argmin"@);
    assert("ts_delta"@[2] != "tsargmin"@[2]);
    assert("ts_delta"@ != "tsargmin"@);
    assert("ts_delta"@[6] != "ts_delay"@[6]);
    assert("ts_delta"@ != "ts_delay"@);
    assert("ts_delta"@.len() != "delay"@.len());
    assert("ts_delta"@ != "delay"@);
    assert("ts_delta"@.len() != "lag"@.len());
    assert("ts_delta"@ != "lag"@);
}

proof fn lemma_alias_delta()
    ensures
        function_named("delta"@) == Some(FactorFunction::TsDelta),
{
    reveal_strlit("delay");
    reveal_strlit("delta");
    reveal_strlit("demean");
    reveal_strlit("lag");
    reveal_strlit("rank");
    reveal_strlit("scale");
    reveal_strlit("ts_argmax");
    reveal_strlit("ts_argmin");
    reveal_strlit("ts_avg");
    reveal_strlit("ts_delay");
    reveal_strlit("ts_max");
    reveal_strlit("ts_mean");
    reveal_strlit("ts_min");
    reveal_strlit("ts_rank");
    reveal_strlit("ts_std");
    reveal_strlit("ts_stddev");
    reveal_strlit("ts_sum");
    reveal_strlit("tsargmax");
    reveal_strlit("tsargmin");
    reveal_strlit("tsmax");
    reveal_strlit("tsmean");
    reveal_strlit("tsmin");
    reveal_strlit("tsrank");
    reveal_strlit("tsstd");
    reveal_strlit("tssum");
    reveal_strlit("z_score");
    reveal_strlit("zscore");
    assert("delta"@.len() != "rank"@.len());
    assert("delta"@ != "rank"@);
    assert("delta"@.len() != "zscore"@.len());
    assert("delta"@ != "zscore"@);
    assert("delta"@.len() != "z_score"@.len());
    assert("delta"@ != "z_score"@);
    assert("delta"@[0] != "scale"@[0]);
    assert("delta"@ != "scale"@);
    assert("delta"@.len() != "demean"@.len());
    assert("delta"@ != "demean"@);
    assert("delta"@.len() != "ts_rank"@.len());
    assert("delta"@ != "ts_rank"@);
    assert("delta"@.len() != "tsrank"@.len());
    assert("delta"@ != "tsrank"@);
    assert("delta"@.len() != "ts_sum"@.len());
    assert("delta"@ != "ts_sum"@);
    assert("delta"@[0] != "tssum"@[0]);
    assert("delta"@ != "tssum"@);
    assert("delta"@.len() != "ts_mean"@.len());
    assert("delta"@ != "ts_mean"@);
    assert("delta"@.len() != "tsmean"@.len());
    assert("delta"@ != "tsmean"@);
    assert("delta"@.len() != "ts_avg"@.len());
    assert("delta"@ != "ts_avg"@);
    assert("delta"@.len() != "ts_std"@.len());
    assert("delta"@ != "ts_std"@);
    assert("delta"@[0] != "tsstd"@[0]);
    assert("delta"@ != "tsstd"@);
    assert("delta"@.len() != "ts_stddev"@.len());
    assert("delta"@ != "ts_stddev"@);
    assert("delta"@.len() != "ts_min"@.len());
    assert("delta"@ != "ts_min"@);
    assert("delta"@[0] != "tsmin"@[0]);
    assert("delta"@ != "tsmin"@);
    assert("delta"@.len() != "ts_max"@.len());
    assert("delta"@ != "ts_max"@);
    assert("delta"@[0] != "tsmax"@[0]);
    assert("delta"@ != "tsmax"@);
    assert("delta"@.len() != "ts_argmax"@.len());
    assert("delta"@ != "ts_argmax"@);
    assert("delta"@.len() != "tsargmax"@.len());
    assert("delta"@ != "tsargmax"@);
    assert("delta"@.len() != "ts_argmin"@.len());
    assert("delta"@ != "ts_argmin"@);
    assert("delta"@.len() != "tsargmin"@.len());
    assert("delta"@ != "tsargmin"@);
    assert("delta"@.len() != "ts_delay"@.len());
    assert("delta"@ != "ts_delay"@);
    assert("delta"@[3] != "delay"@[3]);
    assert("delta"@ != "delay"@);
    assert("delta"@.len() != "lag"@.len());
    assert("delta"@ != "lag"@);
}

proof fn lemma_alias_ts_decay()
    ensures
        function_named("ts_decay"@) == Some(FactorFunction::TsDecay),
{
    reveal_strlit("delay");
    reveal_strlit("delta");
    reveal_strlit("demean");
    reveal_strlit("lag");
    reveal_strlit("rank");
    reveal_strlit("scale");
    reveal_strlit("ts_argmax");
    reveal_strlit("ts_argmin");
    reveal_strlit("ts_avg");
    reveal_strlit("ts_decay");
    reveal_strlit("ts_delay");
    reveal_strlit("ts_delta");
    reveal_strlit("ts_max");
    reveal_strlit("ts_mean");
    reveal_strlit("ts_min");
    reveal_strlit("ts_rank");
    reveal_strlit("ts_std");
    reveal_strlit("ts_stddev");
    reveal_strlit("ts_sum");
    reveal_strlit("tsargmax");
    reveal_strlit("tsargmin");
    reveal_strlit("tsmax");
    reveal_strlit("tsmean");
    reveal_strlit("tsmin");
    reveal_strlit("tsrank");
    reveal_strlit("tsstd");
    reveal_strlit("tssum");
    reveal_strlit("z_score");
    reveal_strlit("zscore");
    assert("ts_decay"@.len() != "rank"@.len());
    assert("ts_decay"@ != "rank"@);
    assert("ts_decay"@.len() != "zscore"@.len());
    assert("ts_decay"@ != "zscore"@);
    assert("ts_decay"@.len() != "z_score"@.len());
    assert("ts_decay"@ != "z_score"@);
    assert("ts_decay"@.len() != "scale"@.len());
    assert("ts_decay"@ != "scale"@);
    assert("ts_decay"@.len() != "demean"@.len());
    assert("ts_decay"@ != "demean"@);
    assert("ts_decay"@.len() != "ts_rank"@.len());
    assert("ts_decay"@ != "ts_rank"@);
    assert("ts_decay"@.len() != "tsrank"@.len());
    assert("ts_decay"@ != "tsrank"@);
    assert("ts_decay"@.len() != "ts_sum"@.len());
    assert("ts_decay"@ != "ts_sum"@);
    assert("ts_decay"@.len() != "tssum"@.len());
    assert("ts_decay"@ != "tssum"@);
    assert("ts_decay"@.len() != "ts_mean"@.len());
    assert("ts_decay"@ != "ts_mean"@);
    assert("ts_decay"@.len() != "tsmean"@.len());
    assert("ts_decay"@ != "tsmean"@);
    assert("ts_decay"@.len() != "ts_avg"@.len());
    assert("ts_decay"@ != "ts_avg"@);
    assert("ts_decay"@.len() != "ts_std"@.len());
    assert("ts_decay"@ != "ts_std"@);
    assert("ts_decay"@.len() != "tsstd"@.len());
    assert("ts_decay"@ != "tsstd"@);
    assert("ts_decay"@.len() != "ts_stddev"@.len());
    assert("ts_decay"@ != "ts_stddev"@);
    assert("ts_decay"@.len() != "ts_min"@.len());
    assert("ts_decay"@ != "ts_min"@);
    assert("ts_decay"@.len() != "tsmin"@.len());
    assert("ts_decay"@ != "tsmin"@);
    assert("ts_decay"@.len() != "ts_max"@.len());
    assert("ts_decay"@ != "ts_max"@);
    assert("ts_decay"@.len() != "tsmax"@.len());
    assert("ts_decay"@ != "tsmax"@);
    assert("ts_decay"@.len() != "ts_argmax"@.len());
    assert("ts_decay"@ != "ts_argmax"@);
    assert("ts_decay"@[2] != "tsargmax"@[2]);
    assert("ts_decay"@ != "tsargmax"@);
    assert("ts_decay"@.len() != "ts_argmin"@.len());
    assert("ts_decay"@ != "ts_argmin"@);
    assert("ts_decay"@[2] != "tsargmin"@[2]);
    assert("ts_decay"@ != "tsargmin"@);
    assert("ts_decay"@[5] != "ts_delay"@[5]);
    assert("ts_decay"@ != "ts_delay"@);
    assert("ts_decay"@.len() != "delay"@.len());
    assert("ts_decay"@ != "delay"@);
    assert("ts_decay"@.len() != "lag"@.len());
    assert("ts_decay"@ != "lag"@);
    assert("ts_decay"@[5] != "ts_delta"@[5]);
    assert("ts_decay"@ != "ts_delta"@);
    assert("ts_decay"@.len() != "delta"@.len());
    assert("ts_decay"@ != "delta"@);
}

proof fn lemma_alias_decay_linear()
    ensures
        function_named("decay_linear"@) == Some(FactorFunction::TsDecay),
{
    reveal_strlit("decay_linear");
    reveal_strlit("delay");
    reveal_strlit("delta");
    reveal_strlit("demean");
    reveal_strlit("lag");
    reveal_strlit("rank");
    reveal_strlit("scale");
    reveal_strlit("ts_argmax");
    reveal_strlit("ts_argmin");
    reveal_strlit("ts_avg");
    reveal_strlit("ts_delay");
    reveal_strlit("ts_delta");
    reveal_strlit("ts_max");
    reveal_strlit("ts_mean");
    reveal_strlit("ts_min");
    reveal_strlit("ts_rank");
    reveal_strlit("ts_std");
    reveal_strlit("ts_stddev");
    reveal_strlit("ts_sum");
    reveal_strlit("tsargmax");
    reveal_strlit("tsargmin");
    reveal_strlit("tsmax");
    reveal_strlit("tsmean");
    reveal_strlit("tsmin");
    reveal_strlit("tsrank");
    reveal_strlit("tsstd");
    reveal_strlit("tssum");
    reveal_strlit("z_score");
    reveal_strlit("zscore");
    assert("decay_linear"@.len() != "rank"@.len());
    assert("decay_linear"@ != "rank"@);
    assert("decay_linear"@.len() != "zscore"@.len());
    assert("decay_linear"@ != "zscore"@);
    assert("decay_linear"@.len() != "z_score"@.len());
    assert("decay_linear"@ != "z_score"@);
    assert("decay_linear"@.len() != "scale"@.len());
    assert("decay_linear"@ != "scale"@);
    assert("decay_linear"@.len() != "demean"@.len());
    assert("decay_linear"@ != "demean"@);
    assert("decay_linear"@.len() != "ts_rank"@.len());
    assert("decay_linear"@ != "ts_rank"@);
    assert("decay_linear"@.len() != "tsrank"@.len());
    assert("decay_linear"@ != "tsrank"@);
    assert("decay_linear"@.len() != "ts_sum"@.len());
    assert("decay_linear"@ != "ts_sum"@);
    assert("decay_linear"@.len() != "tssum"@.len());
    assert("decay_linear"@ != "tssum"@);
    assert("decay_linear"@.len() != "ts_mean"@.len());
    assert("decay_linear"@ != "ts_mean"@);
    assert("decay_linear"@.len() != "tsmean"@.len());
    assert("decay_linear"@ != "tsmean"@);
    assert("decay_linear"@.len() != "ts_avg"@.len());
    assert("decay_linear"@ != "ts_avg"@);
    assert("decay_linear"@.len() != "ts_std"@.len());
    assert("decay_linear"@ != "ts_std"@);
    assert("decay_linear"@.len() != "tsstd"@.len());
    assert("decay_linear"@ != "tsstd"@);
    assert("decay_linear"@.len() != "ts_stddev"@.len());
    assert("decay_linear"@ != "ts_stddev"@);
    assert("decay_linear"@.len() != "ts_min"@.len());
    assert("decay_linear"@ != "ts_min"@);
    assert("decay_linear"@.len() != "tsmin"@.len());
    assert("decay_linear"@ != "tsmin"@);
    assert("decay_linear"@.len() != "ts_max"@.len());
    assert("decay_linear"@ != "ts_max"@);
    assert("decay_linear"@.len() != "tsmax"@.len());
    assert("decay_linear"@ != "tsmax"@);
    assert("decay_linear"@.len() != "ts_argmax"@.len());
    assert("decay_linear"@ != "ts_argmax"@);
    assert("decay_linear"@.len() != "tsargmax"@.len());
    assert("decay_linear"@ != "tsargmax"@);
    assert("decay_linear"@.len() != "ts_argmin"@.len());
    assert("decay_linear"@ != "ts_argmin"@);
    assert("decay_linear"@.len() != "tsargmin"@.len());
    assert("decay_linear"@ != "tsargmin"@);
    assert("decay_linear"@.len() != "ts_delay"@.len());
    assert("decay_linear"@ != "ts_delay"@);
    assert("decay_linear"@.len() != "delay"@.len());
    assert("decay_linear"@ != "delay"@);
    assert("decay_linear"@.len() != "lag"@.len());
    assert("decay_linear"@ != "lag"@);
    assert("decay_linear"@.len() != "ts_delta"@.len());
    assert("decay_linear"@ != "ts_delta"@);
    assert("decay_linear"@.len() != "delta"@.len());
    assert("decay_linear"@ != "delta"@);
}

proof fn lemma_alias_returns()
    ensures
        function_named("returns"@) == Some(FactorFunction::Returns),
{
    reveal_strlit("decay_linear");
    reveal_strlit("delay");
    reveal_strlit("delta");
    reveal_strlit("demean");
    reveal_strlit("lag");
    reveal_strlit("rank");
    reveal_strlit("returns");
    reveal_strlit("scale");
    reveal_strlit("ts_argmax");
    reveal_strlit("ts_argmin");
    reveal_strlit("ts_avg");
    reveal_strlit("ts_decay");
    reveal_strlit("ts_delay");
    reveal_strlit("ts_delta");
    reveal_strlit("ts_max");
    reveal_strlit("ts_mean");
    reveal_strlit("ts_min");
    reveal_strlit("ts_rank");
    reveal_strlit("ts_std");
    reveal_strlit("ts_stddev");
    reveal_strlit("ts_sum");
    reveal_strlit("tsargmax");
    reveal_strlit("tsargmin");
    reveal_strlit("tsmax");
    reveal_strlit("tsmean");
    reveal_strlit("tsmin");
    reveal_strlit("tsrank");
    reveal_strlit("tsstd");
    reveal_strlit("tssum");
    reveal_strlit("z_score");
    reveal_strlit("zscore");
    assert("returns"@.len() != "rank"@.len());
    assert("returns"@ != "rank"@);
    assert("returns"@.len() != "zscore"@.len());
    assert("returns"@ != "zscore"@);
    assert("returns"@[0] != "z_score"@[0]);
    assert("returns"@ != "z_score"@);
    assert("returns"@.len() != "scale"@.len());
    assert("returns"@ != "scale"@);
    assert("returns"@.len() != "demean"@.len());
    assert("returns"@ != "demean"@);
    assert("returns"@[0] != "ts_rank"@[0]);
    assert("returns"@ != "ts_rank"@);
    assert("returns"@.len() != "tsrank"@.len());
    assert("returns"@ != "tsrank"@);
    assert("returns"@.len() != "ts_sum"@.len());
    assert("returns"@ != "ts_sum"@);
    assert("returns"@.len() != "tssum"@.len());
    assert("returns"@ != "tssum"@);
    assert("returns"@[0] != "ts_mean"@[0]);
    assert("returns"@ != "ts_mean"@);
    assert("returns"@.len() != "tsmean"@.len());
    assert("returns"@ != "tsmean"@);
    assert("returns"@.len() != "ts_avg"@.len());
    assert("returns"@ != "ts_avg"@);
    assert("returns"@.len() != "ts_std"@.len());
    assert("returns"@ != "ts_std"@);
    assert("returns"@.len() != "tsstd"@.len());
    assert("returns"@ != "tsstd"@);
    assert("returns"@.len() != "ts_stddev"@.len());
    assert("returns"@ != "ts_stddev"@);
    assert("returns"@.len() != "ts_min"@.len());
    assert("returns"@ != "ts_min"@);
    assert("returns"@.len() != "tsmin"@.len());
    assert("returns"@ != "tsmin"@);
    assert("returns"@.len() != "ts_max"@.len());
    assert("returns"@ != "ts_max"@);
    assert("returns"@.len() != "tsmax"@.len());
    assert("returns"@ != "tsmax"@);
    assert("returns"@.len() != "ts_argmax"@.len());
    assert("returns"@ != "ts_argmax"@);
    assert("returns"@.len() != "tsargmax"@.len());
    assert("returns"@ != "tsargmax"@);
    assert("returns"@.len() != "ts_argmin"@.len());
    assert("returns"@ != "ts_argmin"@);
    assert("returns"@.len() != "tsargmin"@.len());
    assert("returns"@ != "tsargmin"@);
    assert("returns"@.len() != "ts_delay"@.len());
    assert("returns"@ != "ts_delay"@);
    assert("returns"@.len() != "delay"@.len());
    assert("returns"@ != "delay"@);
    assert("returns"@.len() != "lag"@.len());
    assert("returns"@ != "lag"@);
    assert("returns"@.len() != "ts_delta"@.len());
    assert("returns"@ != "ts_delta"@);
    assert("returns"@.len() != "delta"@.len());
    assert("returns"@ != "delta"@);
    assert("returns"@.len() != "ts_decay"@.len());
    assert("returns"@ != "ts_decay"@);
    assert("returns"@.len() != "decay_linear"@.len());
    assert("returns"@ != "decay_linear"@);
}

proof fn lemma_alias_return()
    ensures
        function_named("return"@) == Some(FactorFunction::Returns),
{
    reveal_strlit("decay_linear");
    reveal_strlit("delay");
    reveal_strlit("delta");
    reveal_strlit("demean");
    reveal_strlit("lag");
    reveal_strlit("rank");
    reveal_strlit("return");
    reveal_strlit("scale");
    reveal_strlit("ts_argmax");
    reveal_strlit("ts_argmin");
    reveal_strlit("ts_avg");
    reveal_strlit("ts_decay");
    reveal_strlit("ts_delay");
    reveal_strlit("ts_delta");
    reveal_strlit("ts_max");
    reveal_strlit("ts_mean");
    reveal_strlit("ts_min");
    reveal_strlit("ts_rank");
    reveal_strlit("ts_std");
    reveal_strlit("ts_stddev");
    reveal_strlit("ts_sum");
    reveal_strlit("tsargmax");
    reveal_strlit("tsargmin");
    reveal_strlit("tsmax");
    reveal_strlit("tsmean");
    reveal_strlit("tsmin");
    reveal_strlit("tsrank");
    reveal_strlit("tsstd");
    reveal_strlit("tssum");
    reveal_strlit("z_score");
    reveal_strlit("zscore");
    assert("return"@.len() != "rank"@.len());
    assert("return"@ != "rank"@);
    assert("return"@[0] != "zscore"@[0]);
    assert("return"@ != "zscore"@);
    assert("return"@.len() != "z_score"@.len());
    assert("return"@ != "z_score"@);
    assert("return"@.len() != "scale"@.len());
    assert("return"@ != "scale"@);
    assert("return"@[0] != "demean"@[0]);
    assert("return"@ != "demean"@);
    assert("return"@.len() != "ts_rank"@.len());
    assert("return"@ != "ts_rank"@);
    assert("return"@[0] != "tsrank"@[0]);
    assert("return"@ != "tsrank"@);
    assert("return"@[0] != "ts_sum"@[0]);
    assert("return"@ != "ts_sum"@);
    assert("return"@.len() != "tssum"@.len());
    assert("return"@ != "tssum"@);
    assert("return"@.len() != "ts_mean"@.len());
    assert("return"@ != "ts_mean"@);
    assert("return"@[0] != "tsmean"@[0]);
    assert("return"@ != "tsmean"@);
    assert("return"@[0] != "ts_avg"@[0]);
    assert("return"@ != "ts_avg"@);
    assert("return"@[0] != "ts_std"@[0]);
    assert("return"@ != "ts_std"@);
    assert("return"@.len() != "tsstd"@.len());
    assert("return"@ != "tsstd"@);
    assert("return"@.len() != "ts_stddev"@.len());
    assert("return"@ != "ts_stddev"@);
    assert("return"@[0] != "ts_min"@[0]);
    assert("return"@ != "ts_min"@);
    assert("return"@.len() != "tsmin"@.len());
    assert("return"@ != "tsmin"@);
    assert("return"@[0] != "ts_max"@[0]);
    assert("return"@ != "ts_max"@);
    assert("return"@.len() != "tsmax"@.len());
    assert("return"@ != "tsmax"@);
    assert("return"@.len() != "ts_argmax"@.len());
    assert("return"@ != "ts_argmax"@);
    assert("return"@.len() != "tsargmax"@.len());
    assert("return"@ != "tsargmax"@);
    assert("return"@.len() != "ts_argmin"@.len());
    assert("return"@ != "ts_argmin"@);
    assert("return"@.len() != "tsargmin"@.len());
    assert("return"@ != "tsargmin"@);
    assert("return"@.len() != "ts_delay"@.len());
    assert("return"@ != "ts_delay"@);
    assert("return"@.len() != "delay"@.len());
    assert("return"@ != "delay"@);
    assert("return"@.len() != "lag"@.len());
    assert("return"@ != "lag"@);
    assert("return"@.len() != "ts_delta"@.len());
    assert("return"@ != "ts_delta"@);
    assert("return"@.len() != "delta"@.len());
    assert("return"@ != "delta"@);
    assert("return"@.len() != "ts_decay"@.len());
    assert("return"@ != "ts_decay"@);
    assert("return"@.len() != "decay_linear"@.len());
    assert("return"@ != "decay_linear"@);
}

proof fn lemma_alias_ret()
    ensures
        function_named("ret"@) == Some(FactorFunction::Returns),
{
    reveal_strlit("decay_linear");
    reveal_strlit("delay");
    reveal_strlit("delta");
    reveal_strlit("demean");
    reveal_strlit("lag");
    reveal_strlit("rank");
    reveal_strlit("ret");
    reveal_strlit("scale");
    reveal_strlit("ts_argmax");
    reveal_strlit("ts_argmin");
    reveal_strlit("ts_avg");
    reveal_strlit("ts_decay");
    reveal_strlit("ts_delay");
    reveal_strlit("ts_delta");
    reveal_strlit("ts_max");
    reveal_strlit("ts_mean");
    reveal_strlit("ts_min");
    reveal_strlit("ts_rank");
    reveal_strlit("ts_std");
    reveal_strlit("ts_stddev");
    reveal_strlit("ts_sum");
    reveal_strlit("tsargmax");
    reveal_strlit("tsargmin");
    reveal_strlit("tsmax");
    reveal_strlit("tsmean");
    reveal_strlit("tsmin");
    reveal_strlit("tsrank");
    reveal_strlit("tsstd");
    reveal_strlit("tssum");
    reveal_strlit("z_score");
    reveal_strlit("zscore");
    assert("ret"@.len() != "rank"@.len());
    assert("ret"@ != "rank"@);
    assert("ret"@.len() != "zscore"@.len());
    assert("ret"@ != "zscore"@);
    assert("ret"@.len() != "z_score"@.len());
    assert("ret"@ != "z_score"@);
    assert("ret"@.len() != "scale"@.len());
    assert("ret"@ != "scale"@);
    assert("ret"@.len() != "demean"@.len());
    assert("ret"@ != "demean"@);
    assert("ret"@.len() != "ts_rank"@.len());
    assert("ret"@ != "ts_rank"@);
    assert("ret"@.len() != "tsrank"@.len());
    assert("ret"@ != "tsrank"@);
    assert("ret"@.len() != "ts_sum"@.len());
    assert("ret"@ != "ts_sum"@);
    assert("ret"@.len() != "tssum"@.len());
    assert("ret"@ != "tssum"@);
    assert("ret"@.len() != "ts_mean"@.len());
    assert("ret"@ != "ts_mean"@);
    assert("ret"@.len() != "tsmean"@.len());
    assert("ret"@ != "tsmean"@);
    assert("ret"@.len() != "ts_avg"@.len());
    assert("ret"@ != "ts_avg"@);
    assert("ret"@.len() != "ts_std"@.len());
    assert("ret"@ != "ts_std"@);
    assert("ret"@.len() != "tsstd"@.len());
    assert("ret"@ != "tsstd"@);
    assert("ret"@.len() != "ts_stddev"@.len());
    assert("ret"@ != "ts_stddev"@);
    assert("ret"@.len() != "ts_min"@.len());
    assert("ret"@ != "ts_min"@);
    assert("ret"@.len() != "tsmin"@.len());
    assert("ret"@ != "tsmin"@);
    assert("ret"@.len() != "ts_max"@.len());
    assert("ret"@ != "ts_max"@);
    assert("ret"@.len() != "tsmax"@.len());
    assert("ret"@ != "tsmax"@);
    assert("ret"@.len() != "ts_argmax"@.len());
    assert("ret"@ != "ts_argmax"@);
    assert("ret"@.len() != "tsargmax"@.len());
    assert("ret"@ != "tsargmax"@);
    assert("ret"@.len() != "ts_argmin"@.len());
    assert("ret"@ != "ts_argmin"@);
    assert("ret"@.len() != "tsargmin"@.len());
    assert("ret"@ != "tsargmin"@);
    assert("ret"@.len() != "ts_delay"@.len());
    assert("ret"@ != "ts_delay"@);
    assert("ret"@.len() != "delay"@.len());
    assert("ret"@ != "delay"@);
    assert("ret"@[0] != "lag"@[0]);
    assert("ret"@ != "lag"@);
    assert("ret"@.len() != "ts_delta"@.len());
    assert("ret"@ != "ts_delta"@);
    assert("ret"@.len() != "delta"@.len());
    assert("ret"@ != "delta"@);
    assert("ret"@.len() != "ts_decay"@.len());
    assert("ret"@ != "ts_decay"@);
    assert("ret"@.len() != "decay_linear"@.len());
    assert("ret"@ != "decay_linear"@);
}

proof fn lemma_alias_log_returns()
    ensures
        function_named("log_returns"@) == Some(FactorFunction::LogReturns),
{
    reveal_strlit("decay_linear");
    reveal_strlit("delay");
    reveal_strlit("delta");
    reveal_strlit("demean");
    reveal_strlit("lag");
    reveal_strlit("log_returns");
    reveal_strlit("rank");
    reveal_strlit("ret");
    reveal_strlit("return");
    reveal_strlit("returns");
    reveal_strlit("scale");
    reveal_strlit("ts_argmax");
    reveal_strlit("ts_argmin");
    reveal_strlit("ts_avg");
    reveal_strlit("ts_decay");
    reveal_strlit("ts_delay");
    reveal_strlit("ts_delta");
    reveal_strlit("ts_max");
    reveal_strlit("ts_mean");
    reveal_strlit("ts_min");
    reveal_strlit("ts_rank");
    reveal_strlit("ts_std");
    reveal_strlit("ts_stddev");
    reveal_strlit("ts_sum");
    reveal_strlit("tsargmax");
    reveal_strlit("tsargmin");
    reveal_strlit("tsmax");
    reveal_strlit("tsmean");
    reveal_strlit("tsmin");
    reveal_strlit("tsrank");
    reveal_strlit("tsstd");
    reveal_strlit("tssum");
    reveal_strlit("z_score");
    reveal_strlit("zscore");
    assert("log_returns"@.len() != "rank"@.len());
    assert("log_returns"@ != "rank"@);
    assert("log_returns"@.len() != "zscore"@.len());
    assert("log_returns"@ != "zscore"@);
    assert("log_returns"@.len() != "z_score"@.len());
    assert("log_returns"@ != "z_score"@);
    assert("log_returns"@.len() != "scale"@.len());
    assert("log_returns"@ != "scale"@);
    assert("log_returns"@.len() != "demean"@.len());
    assert("log_returns"@ != "demean"@);
    assert("log_returns"@.len() != "ts_rank"@.len());
    assert("log_returns"@ != "ts_rank"@);
    assert("log_returns"@.len() != "tsrank"@.len());
    assert("log_returns"@ != "tsrank"@);
    assert("log_returns"@.len() != "ts_sum"@.len());
    assert("log_returns"@ != "ts_sum"@);
    assert("log_returns"@.len() != "tssum"@.len());
    assert("log_returns"@ != "tssum"@);
    assert("log_returns"@.len() != "ts_mean"@.len());
    assert("log_returns"@ != "ts_mean"@);
    assert("log_returns"@.len() != "tsmean"@.len());
    assert("log_returns"@ != "tsmean"@);
    assert("log_returns"@.len() != "ts_avg"@.len());
    assert("log_returns"@ != "ts_avg"@);
    assert("log_returns"@.len() != "ts_std"@.len());
    assert("log_returns"@ != "ts_std"@);
    assert("log_returns"@.len() != "tsstd"@.len());
    assert("log_returns"@ != "tsstd"@);
    assert("log_returns"@.len() != "ts_stddev"@.len());
    assert("log_returns"@ != "ts_stddev"@);
    assert("log_returns"@.len() != "ts_min"@.len());
    assert("log_returns"@ != "ts_min"@);
    assert("log_returns"@.len() != "tsmin"@.len());
    assert("log_returns"@ != "tsmin"@);
    assert("log_returns"@.len() != "ts_max"@.len());
    assert("log_returns"@ != "ts_max"@);
    assert("log_returns"@.len() != "tsmax"@.len());
    assert("log_returns"@ != "tsmax"@);
    assert("log_returns"@.len() != "ts_argmax"@.len());
    assert("log_returns"@ != "ts_argmax"@);
    assert("log_returns"@.len() != "tsargmax"@.len());
    assert("log_returns"@ != "tsargmax"@);
    assert("log_returns"@.len() != "ts_argmin"@.len());
    assert("log_returns"@ != "ts_argmin"@);
    assert("log_returns"@.len() != "tsargmin"@.len());
    assert("log_returns"@ != "tsargmin"@);
    assert("log_returns"@.len() != "ts_delay"@.len());
    assert("log_returns"@ != "ts_delay"@);
    assert("log_returns"@.len() != "delay"@.len());
    assert("log_returns"@ != "delay"@);
    assert("log_returns"@.len() != "lag"@.len());
    assert("log_returns"@ != "lag"@);
    assert("log_returns"@.len() != "ts_delta"@.len());
    assert("log_returns"@ != "ts_delta"@);
    assert("log_returns"@.len() != "delta"@.len());
    assert("log_returns"@ != "delta"@);
    assert("log_returns"@.len() != "ts_decay"@.len());
    assert("log_returns"@ != "ts_decay"@);
    assert("log_returns"@.len() != "decay_linear"@.len());
    assert("log_returns"@ != "decay_linear"@);
    assert("log_returns"@.len() != "returns"@.len());
    assert("log_returns"@ != "returns"@);
    assert("log_returns"@.len() != "return"@.len());
    assert("log_returns"@ != "return"@);
    assert("log_returns"@.len() != "ret"@.len());
    assert("log_returns"@ != "ret"@);
}

proof fn lemma_alias_logreturns()
    ensures
        function_named("logreturns"@) == Some(FactorFunction::LogReturns),
{
    reveal_strlit("decay_linear");
    reveal_strlit("delay");
    reveal_strlit("delta");
    reveal_strlit("demean");
    reveal_strlit("lag");
    reveal_strlit("logreturns");
    reveal_strlit("rank");
    reveal_strlit("ret");
    reveal_strlit("return");
    reveal_strlit("returns");
    reveal_strlit("scale");
    reveal_strlit("ts_argmax");
    reveal_strlit("ts_argmin");
    reveal_strlit("ts_avg");
    reveal_strlit("ts_decay");
    reveal_strlit("ts_delay");
    reveal_strlit("ts_delta");
    reveal_strlit("ts_max");
    reveal_strlit("ts_mean");
    reveal_strlit("ts_min");
    reveal_strlit("ts_rank");
    reveal_strlit("ts_std");
    reveal_strlit("ts_stddev");
    reveal_strlit("ts_sum");
    reveal_strlit("tsargmax");
    reveal_strlit("tsargmin");
    reveal_strlit("tsmax");
    reveal_strlit("tsmean");
    reveal_strlit("tsmin");
    reveal_strlit("tsrank");
    reveal_strlit("tsstd");
    reveal_strlit("tssum");
    reveal_strlit("z_score");
    reveal_strlit("zscore");
    assert("logreturns"@.len() != "rank"@.len());
    assert("logreturns"@ != "rank"@);
    assert("logreturns"@.len() != "zscore"@.len());
    assert("logreturns"@ != "zscore"@);
    assert("logreturns"@.len() != "z_score"@.len());
    assert("logreturns"@ != "z_score"@);
    assert("logreturns"@.len() != "scale"@.len());
    assert("logreturns"@ != "scale"@);
    assert("logreturns"@.len() != "demean"@.len());
    assert("logreturns"@ != "demean"@);
    assert("logreturns"@.len() != "ts_rank"@.len());
    assert("logreturns"@ != "ts_rank"@);
    assert("logreturns"@.len() != "tsrank"@.len());
    assert("logreturns"@ != "tsrank"@);
    assert("logreturns"@.len() != "ts_sum"@.len());
    assert("logreturns"@ != "ts_sum"@);
    assert("logreturns"@.len() != "tssum"@.len());
    assert("logreturns"@ != "tssum"@);
    assert("logreturns"@.len() != "ts_mean"@.len());
    assert("logreturns"@ != "ts_mean"@);
    assert("logreturns"@.len() != "tsmean"@.len());
    assert("logreturns"@ != "tsmean"@);
    assert("logreturns"@.len() != "ts_avg"@.len());
    assert("logreturns"@ != "ts_avg"@);
    assert("logreturns"@.len() != "ts_std"@.len());
    assert("logreturns"@ != "ts_std"@);
    assert("logreturns"@.len() != "tsstd"@.len());
    assert("logreturns"@ != "tsstd"@);
    assert("logreturns"@.len() != "ts_stddev"@.len());
    assert("logreturns"@ != "ts_stddev"@);
    assert("logreturns"@.len() != "ts_min"@.len());
    assert("logreturns"@ != "ts_min"@);
    assert("logreturns"@.len() != "tsmin"@.len());
    assert("logreturns"@ != "tsmin"@);
    assert("logreturns"@.len() != "ts_max"@.len());
    assert("logreturns"@ != "ts_max"@);
    assert("logreturns"@.len() != "tsmax"@.len());
    assert("logreturns"@ != "tsmax"@);
    assert("logreturns"@.len() != "ts_argmax"@.len());
    assert("logreturns"@ != "ts_argmax"@);
    assert("logreturns"@.len() != "tsargmax"@.len());
    assert("logreturns"@ != "tsargmax"@);
    assert("logreturns"@.len() != "ts_argmin"@.len());
    assert("logreturns"@ != "ts_argmin"@);
    assert("logreturns"@.len() != "tsargmin"@.len());
    assert("logreturns"@ != "tsargmin"@);
    assert("logreturns"@.len() != "ts_delay"@.len());
    assert("logreturns"@ != "ts_delay"@);
    assert("logreturns"@.len() != "delay"@.len());
    assert("logreturns"@ != "delay"@);
    assert("logreturns"@.len() != "lag"@.len());
    assert("logreturns"@ != "lag"@);
    assert("logreturns"@.len() != "ts_delta"@.len());
    assert("logreturns"@ != "ts_delta"@);
    assert("logreturns"@.len() != "delta"@.len());
    assert("logreturns"@ != "delta"@);
    assert("logreturns"@.len() != "ts_decay"@.len());
    assert("logreturns"@ != "ts_decay"@);
    assert("logreturns"@.len() != "decay_linear"@.len());
    assert("logreturns"@ != "decay_linear"@);
    assert("logreturns"@.len() != "returns"@.len());
    assert("logreturns"@ != "returns"@);
    assert("logreturns"@.len() != "return"@.len());
    assert("logreturns"@ != "return"@);
    assert("logreturns"@.len() != "ret"@.len());
    assert("logreturns"@ != "ret"@);
}

proof fn lemma_alias_logret()
    ensures
        function_named("logret"@) == Some(FactorFunction::LogReturns),
{
    reveal_strlit("decay_linear");
    reveal_strlit("delay");
    reveal_strlit("delta");
    reveal_strlit("demean");
    reveal_strlit("lag");
    reveal_strlit("logret");
    reveal_strlit("rank");
    reveal_strlit("ret");
    reveal_strlit("return");
    reveal_strlit("returns");
    reveal_strlit("scale");
    reveal_strlit("ts_argmax");
    reveal_strlit("ts_argmin");
    reveal_strlit("ts_avg");
    reveal_strlit("ts_decay");
    reveal_strlit("ts_delay");
    reveal_strlit("ts_delta");
    reveal_strlit("ts_max");
    reveal_strlit("ts_mean");
    reveal_strlit("ts_min");
    reveal_strlit("ts_rank");
    reveal_strlit("ts_std");
    reveal_strlit("ts_stddev");
    reveal_strlit("ts_sum");
    reveal_strlit("tsargmax");
    reveal_strlit("tsargmin");
    reveal_strlit("tsmax");
    reveal_strlit("tsmean");
    reveal_strlit("tsmin");
    reveal_strlit("tsrank");
    reveal_strlit("tsstd");
    reveal_strlit("tssum");
    reveal_strlit("z_score");
    reveal_strlit("zscore");
    assert("logret"@.len() != "rank"@.len());
    assert("logret"@ != "rank"@);
    assert("logret"@[0] != "zscore"@[0]);
    assert("logret"@ != "zscore"@);
    assert("logret"@.len() != "z_score"@.len());
    assert("logret"@ != "z_score"@);
    assert("logret"@.len() != "scale"@.len());
    assert("logret"@ != "scale"@);
    assert("logret"@[0] != "demean"@[0]);
    assert("logret"@ != "demean"@);
    assert("logret"@.len() != "ts_rank"@.len());
    assert("logret"@ != "ts_rank"@);
    assert("logret"@[0] != "tsrank"@[0]);
    assert("logret"@ != "tsrank"@);
    assert("logret"@[0] != "ts_sum"@[0]);
    assert("logret"@ != "ts_sum"@);
    assert("logret"@.len() != "tssum"@.len());
    assert("logret"@ != "tssum"@);
    assert("logret"@.len() != "ts_mean"@.len());
    assert("logret"@ != "ts_mean"@);
    assert("logret"@[0] != "tsmean"@[0]);
    assert("logret"@ != "tsmean"@);
    assert("logret"@[0] != "ts_avg"@[0]);
    assert("logret"@ != "ts_avg"@);
    assert("logret"@[0] != "ts_std"@[0]);
    assert("logret"@ != "ts_std"@);
    assert("logret"@.len() != "tsstd"@.len());
    assert("logret"@ != "tsstd"@);
    assert("logret"@.len() != "ts_stddev"@.len());
    assert("logret"@ != "ts_stddev"@);
    assert("logret"@[0] != "ts_min"@[0]);
    assert("logret"@ != "ts_min"@);
    assert("logret"@.len() != "tsmin"@.len());
    assert("logret"@ != "tsmin"@);
    assert("logret"@[0] != "ts_max"@[0]);
    assert("logret"@ != "ts_max"@);
    assert("logret"@.len() != "tsmax"@.len());
    assert("logret"@ != "tsmax"@);
    assert("logret"@.len() != "ts_argmax"@.len());
    assert("logret"@ != "ts_argmax"@);
    assert("logret"@.len() != "tsargmax"@.len());
    assert("logret"@ != "tsargmax"@);
    assert("logret"@.len() != "ts_argmin"@.len());
    assert("logret"@ != "ts_argmin"@);
    assert("logret"@.len() != "tsargmin"@.len());
    assert("logret"@ != "tsargmin"@);
    assert("logret"@.len() != "ts_delay"@.len());
    assert("logret"@ != "ts_delay"@);
    assert("logret"@.len() != "delay"@.len());
    assert("logret"@ != "delay"@);
    assert("logret"@.len() != "lag"@.len());
    assert("logret"@ != "lag"@);
    assert("logret"@.len() != "ts_delta"@.len());
    assert("logret"@ != "ts_delta"@);
    assert("logret"@.len() != "delta"@.len());
    assert("logret"@ != "delta"@);
    assert("logret"@.len() != "ts_decay"@.len());
    assert("logret"@ != "ts_decay"@);
    assert("logret"@.len() != "decay_linear"@.len());
    assert("logret"@ != "decay_linear"@);
    assert("logret"@.len() != "returns"@.len());
    assert("logret"@ != "returns"@);
    assert("logret"@[0] != "return"@[0]);
    assert("logret"@ != "return"@);
    assert("logret"@.len() != "ret"@.len());
    assert("logret"@ != "ret"@);
}

proof fn lemma_alias_volatility()
    ensures
        function_named("volatility"@) == Some(FactorFunction::Volatility),
{
    reveal_strlit("decay_linear");
    reveal_strlit("delay");
    reveal_strlit("delta");
    reveal_strlit("demean");
    reveal_strlit("lag");
    reveal_strlit("log_returns");
    reveal_strlit("logret");
    reveal_strlit("logreturns");
    reveal_strlit("rank");
    reveal_strlit("ret");
    reveal_strlit("return");
    reveal_strlit("returns");
    reveal_strlit("scale");
    reveal_strlit("ts_argmax");
    reveal_strlit("ts_argmin");
    reveal_strlit("ts_avg");
    reveal_strlit("ts_decay");
    reveal_strlit("ts_delay");
    reveal_strlit("ts_delta");
    reveal_strlit("ts_max");
    reveal_strlit("ts_mean");
    reveal_strlit("ts_min");
    reveal_strlit("ts_rank");
    reveal_strlit("ts_std");
    reveal_strlit("ts_stddev");
    reveal_strlit("ts_sum");
    reveal_strlit("tsargmax");
    reveal_strlit("tsargmin");
    reveal_strlit("tsmax");
    reveal_strlit("tsmean");
    reveal_strlit("tsmin");
    reveal_strlit("tsrank");
    reveal_strlit("tsstd");
    reveal_strlit("tssum");
    reveal_strlit("volatility");
    reveal_strlit("z_score");
    reveal_strlit("zscore");
    assert("volatility"@.len() != "rank"@.len());
    assert("volatility"@ != "rank"@);
    assert("volatility"@.len() != "zscore"@.len());
    assert("volatility"@ != "zscore"@);
    assert("volatility"@.len() != "z_score"@.len());
    assert("volatility"@ != "z_score"@);
    assert("volatility"@.len() != "scale"@.len());
    assert("volatility"@ != "scale"@);
    assert("volatility"@.len() != "demean"@.len());
    assert("volatility"@ != "demean"@);
    assert("volatility"@.len() != "ts_rank"@.len());
    assert("volatility"@ != "ts_rank"@);
    assert("volatility"@.len() != "tsrank"@.len());
    assert("volatility"@ != "tsrank"@);
    assert("volatility"@.len() != "ts_sum"@.len());
    assert("volatility"@ != "ts_sum"@);
    assert("volatility"@.len() != "tssum"@.len());
    assert("volatility"@ != "tssum"@);
    assert("volatility"@.len() != "ts_mean"@.len());
    assert("volatility"@ != "ts_mean"@);
    assert("volatility"@.len() != "tsmean"@.len());
    assert("volatility"@ != "tsmean"@);
    assert("volatility"@.len() != "ts_avg"@.len());
    assert("volatility"@ != "ts_avg"@);
    assert("volatility"@.len() != "ts_std"@.len());
    assert("volatility"@ != "ts_std"@);
    assert("volatility"@.len() != "tsstd"@.len());
    assert("volatility"@ != "tsstd"@);
    assert("volatility"@.len() != "ts_stddev"@.len());
    assert("volatility"@ != "ts_stddev"@);
    assert("volatility"@.len() != "ts_min"@.len());
    assert("volatility"@ != "ts_min"@);
    assert("volatility"@.len() != "tsmin"@.len());
    assert("volatility"@ != "tsmin"@);
    assert("volatility"@.len() != "ts_max"@.len());
    assert("volatility"@ != "ts_max"@);
    assert("volatility"@.len() != "tsmax"@.len());
    assert("volatility"@ != "tsmax"@);
    assert("volatility"@.len() != "ts_argmax"@.len());
    assert("volatility"@ != "ts_argmax"@);
    assert("volatility"@.len() != "tsargmax"@.len());
    assert("volatility"@ != "tsargmax"@);
    assert("volatility"@.len() != "ts_argmin"@.len());
    assert("volatility"@ != "ts_argmin"@);
    assert("volatility"@.len() != "tsargmin"@.len());
    assert("volatility"@ != "tsargmin"@);
    assert("volatility"@.len() != "ts_delay"@.len());
    assert("volatility"@ != "ts_delay"@);
    assert("volatility"@.len() != "delay"@.len());
    assert("volatility"@ != "delay"@);
    assert("volatility"@.len() != "lag"@.len());
    assert("volatility"@ != "lag"@);
    assert("volatility"@.len() != "ts_delta"@.len());
    assert("volatility"@ != "ts_delta"@);
    assert("volatility"@.len() != "delta"@.len());
    assert("volatility"@ != "delta"@);
    assert("volatility"@.len() != "ts_decay"@.len());
    assert("volatility"@ != "ts_decay"@);
    assert("volatility"@.len() != "decay_linear"@.len());
    assert("volatility"@ != "decay_linear"@);
    assert("volatility"@.len() != "returns"@.len());
    assert("volatility"@ != "returns"@);
    assert("volatility"@.len() != "return"@.len());
    assert("volatility"@ != "return"@);
    assert("volatility"@.len() != "ret"@.len());
    assert("volatility"@ != "ret"@);
    assert("volatility"@.len() != "log_returns"@.len());
    assert("volatility"@ != "log_returns"@);
    assert("volatility"@[0] != "logreturns"@[0]);
    assert("volatility"@ != "logreturns"@);
    assert("volatility"@.len() != "logret"@.len());
    assert("volatility"@ != "logret"@);
}

proof fn lemma_alias_vol()
    ensures
        function_named("vol"@) == Some(FactorFunction::Volatility),
{
    reveal_strlit("decay_linear");
    reveal_strlit("delay");
    reveal_strlit("delta");
    reveal_strlit("demean");
    reveal_strlit("lag");
    reveal_strlit("log_returns");
    reveal_strlit("logret");
    reveal_strlit("logreturns");
    reveal_strlit("rank");
    reveal_strlit("ret");
    reveal_strlit("return");
    reveal_strlit("returns");
    reveal_strlit("scale");
    reveal_strlit("ts_argmax");
    reveal_strlit("ts_argmin");
    reveal_strlit("ts_avg");
    reveal_strlit("ts_decay");
    reveal_strlit("ts_delay");
    reveal_strlit("ts_delta");
    reveal_strlit("ts_max");
    reveal_strlit("ts_mean");
    reveal_strlit("ts_min");
    reveal_strlit("ts_rank");
    reveal_strlit("ts_std");
    reveal_strlit("ts_stddev");
    reveal_strlit("ts_sum");
    reveal_strlit("tsargmax");
    reveal_strlit("tsargmin");
    reveal_strlit("tsmax");
    reveal_strlit("tsmean");
    reveal_strlit("tsmin");
    reveal_strlit("tsrank");
    reveal_strlit("tsstd");
    reveal_strlit("tssum");
    reveal_strlit("vol");
    reveal_strlit("z_score");
    reveal_strlit("zscore");
    assert("vol"@.len() != "rank"@.len());
    assert("vol"@ != "rank"@);
    assert("vol"@.len() != "zscore"@.len());
    assert("vol"@ != "zscore"@);
    assert("vol"@.len() != "z_score"@.len());
    assert("vol"@ != "z_score"@);
    assert("vol"@.len() != "scale"@.len());
    assert("vol"@ != "scale"@);
    assert("vol"@.len() != "demean"@.len());
    assert("vol"@ != "demean"@);
    assert("vol"@.len() != "ts_rank"@.len());
    assert("vol"@ != "ts_rank"@);
    assert("vol"@.len() != "tsrank"@.len());
    assert("vol"@ != "tsrank"@);
    assert("vol"@.len() != "ts_sum"@.len());
    assert("vol"@ != "ts_sum"@);
    assert("vol"@.len() != "tssum"@.len());
    assert("vol"@ != "tssum"@);
    assert("vol"@.len() != "ts_mean"@.len());
    assert("vol"@ != "ts_mean"@);
    assert("vol"@.len() != "tsmean"@.len());
    assert("vol"@ != "tsmean"@);
    assert("vol"@.len() != "ts_avg"@.len());
    assert("vol"@ != "ts_avg"@);
    assert("vol"@.len() != "ts_std"@.len());
    assert("vol"@ != "ts_std"@);
    assert("vol"@.len() != "tsstd"@.len());
    assert("vol"@ != "tsstd"@);
    assert("vol"@.len() != "ts_stddev"@.len());
    assert("vol"@ != "ts_stddev"@);
    assert("vol"@.len() != "ts_min"@.len());
    assert("vol"@ != "ts_min"@);
    assert("vol"@.len() != "tsmin"@.len());
    assert("vol"@ != "tsmin"@);
    assert("vol"@.len() != "ts_max"@.len());
    assert("vol"@ != "ts_max"@);
    assert("vol"@.len() != "tsmax"@.len());
    assert("vol"@ != "tsmax"@);
    assert("vol"@.len() != "ts_argmax"@.len());
    assert("vol"@ != "ts_argmax"@);
    assert("vol"@.len() != "tsargmax"@.len());
    assert("vol"@ != "tsargmax"@);
    assert("vol"@.len() != "ts_argmin"@.len());
    assert("vol"@ != "ts_argmin"@);
    assert("vol"@.len() != "tsargmin"@.len());
    assert("vol"@ != "tsargmin"@);
    assert("vol"@.len() != "ts_delay"@.len());
    assert("vol"@ != "ts_delay"@);
    assert("vol"@.len() != "delay"@.len());
    assert("vol"@ != "delay"@);
    assert("vol"@[0] != "lag"@[0]);
    assert("vol"@ != "lag"@);
    assert("vol"@.len() != "ts_delta"@.len());
    assert("vol"@ != "ts_delta"@);
    assert("vol"@.len() != "delta"@.len());
    assert("vol"@ != "delta"@);
    assert("vol"@.len() != "ts_decay"@.len());
    assert("vol"@ != "ts_decay"@);
    assert("vol"@.len() != "decay_linear"@.len());
    assert("vol"@ != "decay_linear"@);
    assert("vol"@.len() != "returns"@.len());
    assert("vol"@ != "returns"@);
    assert("vol"@.len() != "return"@.len());
    assert("vol"@ != "return"@);
    assert("vol"@[0] != "ret"@[0]);
    assert("vol"@ != "ret"@);
    assert("vol"@.len() != "log_returns"@.len());
    assert("vol"@ != "log_returns"@);
    assert("vol"@.len() != "logreturns"@.len());
    assert("vol"@ != "logreturns"@);
    assert("vol"@.len() != "logret"@.len());
    assert("vol"@ != "logret"@);
}

proof fn lemma_alias_std()
    ensures
        function_named("std"@) == Some(FactorFunction::Volatility),
{
    reveal_strlit("decay_linear");
    reveal_strlit("delay");
    reveal_strlit("delta");
    reveal_strlit("demean");
    reveal_strlit("lag");
    reveal_strlit("log_returns");
    reveal_strlit("logret");
    reveal_strlit("logreturns");
    reveal_strlit("rank");
    reveal_strlit("ret");
    reveal_strlit("return");
    reveal_strlit("returns");
    reveal_strlit("scale");
    reveal_strlit("std");
    reveal_strlit("ts_argmax");
    reveal_strlit("ts_argmin");
    reveal_strlit("ts_avg");
    reveal_strlit("ts_decay");
    reveal_strlit("ts_delay");
    reveal_strlit("ts_delta");
    reveal_strlit("ts_max");
    reveal_strlit("ts_mean");
    reveal_strlit("ts_min");
    reveal_strlit("ts_rank");
    reveal_strlit("ts_std");
    reveal_strlit("ts_stddev");
    reveal_strlit("ts_sum");
    reveal_strlit("tsargmax");
    reveal_strlit("tsargmin");
    reveal_strlit("tsmax");
    reveal_strlit("tsmean");
    reveal_strlit("tsmin");
    reveal_strlit("tsrank");
    reveal_strlit("tsstd");
    reveal_strlit("tssum");
    reveal_strlit("z_score");
    reveal_strlit("zscore");
    assert("std"@.len() != "rank"@.len());
    assert("std"@ != "rank"@);
    assert("std"@.len() != "zscore"@.len());
    assert("std"@ != "zscore"@);
    assert("std"@.len() != "z_score"@.len());
    assert("std"@ != "z_score"@);
    assert("std"@.len() != "scale"@.len());
    assert("std"@ != "scale"@);
    assert("std"@.len() != "demean"@.len());
    assert("std"@ != "demean"@);
    assert("std"@.len() != "ts_rank"@.len());
    assert("std"@ != "ts_rank"@);
    assert("std"@.len() != "tsrank"@.len());
    assert("std"@ != "tsrank"@);
    assert("std"@.len() != "ts_sum"@.len());
    assert("std"@ != "ts_sum"@);
    assert("std"@.len() != "tssum"@.len());
    assert("std"@ != "tssum"@);
    assert("std"@.len() != "ts_mean"@.len());
    assert("std"@ != "ts_mean"@);
    assert("std"@.len() != "tsmean"@.len());
    assert("std"@ != "tsmean"@);
    assert("std"@.len() != "ts_avg"@.len());
    assert("std"@ != "ts_avg"@);
    assert("std"@.len() != "ts_std"@.len());
    assert("std"@ != "ts_std"@);
    assert("std"@.len() != "tsstd"@.len());
    assert("std"@ != "tsstd"@);
    assert("std"@.len() != "ts_stddev"@.len());
    assert("std"@ != "ts_stddev"@);
    assert("std"@.len() != "ts_min"@.len());
    assert("std"@ != "ts_min"@);
    assert("std"@.len() != "tsmin"@.len());
    assert("std"@ != "tsmin"@);
    assert("std"@.len() != "ts_max"@.len());
    assert("std"@ != "ts_max"@);
    assert("std"@.len() != "tsmax"@.len());
    assert("std"@ != "tsmax"@);
    assert("std"@.len() != "ts_argmax"@.len());
    assert("std"@ != "ts_argmax"@);
    assert("std"@.len() != "tsargmax"@.len());
    assert("std"@ != "tsargmax"@);
    assert("std"@.len() != "ts_argmin"@.len());
    assert("std"@ != "ts_argmin"@);
    assert("std"@.len() != "tsargmin"@.len());
    assert("std"@ != "tsargmin"@);
    assert("std"@.len() != "ts_delay"@.len());
    assert("std"@ != "ts_delay"@);
    assert("std"@.len() != "delay"@.len());
    assert("std"@ != "delay"@);
    assert("std"@[0] != "lag"@[0]);
    assert("std"@ != "lag"@);
    assert("std"@.len() != "ts_delta"@.len());
    assert("std"@ != "ts_delta"@);
    assert("std"@.len() != "delta"@.len());
    assert("std"@ != "delta"@);
    assert("std"@.len() != "ts_decay"@.len());
    assert("std"@ != "ts_decay"@);
    assert("std"@.len() != "decay_linear"@.len());
    assert("std"@ != "decay_linear"@);
    assert("std"@.len() != "returns"@.len());
    assert("std"@ != "returns"@);
    assert("std"@.len() != "return"@.len());
    assert("std"@ != "return"@);
    assert("std"@[0] != "ret"@[0]);
    assert("std"@ != "ret"@);
    assert("std"@.len() != "log_returns"@.len());
    assert("std"@ != "log_returns"@);
    assert("std"@.len() != "logreturns"@.len());
    assert("std"@ != "logreturns"@);
    assert("std"@.len() != "logret"@.len());
    assert("std"@ != "logret"@);
}

proof fn lemma_alias_correlation()
    ensures
        function_named("correlation"@) == Some(FactorFunction::Correlation),
{
    reveal_strlit("correlation");
    reveal_strlit("decay_linear");
    reveal_strlit("delay");
    reveal_strlit("delta");
    reveal_strlit("demean");
    reveal_strlit("lag");
    reveal_strlit("log_returns");
    reveal_strlit("logret");
    reveal_strlit("logreturns");
    reveal_strlit("rank");
    reveal_strlit("ret");
    reveal_strlit("return");
    reveal_strlit("returns");
    reveal_strlit("scale");
    reveal_strlit("std");
    reveal_strlit("ts_argmax");
    reveal_strlit("ts_argmin");
    reveal_strlit("ts_avg");
    reveal_strlit("ts_decay");
    reveal_strlit("ts_delay");
    reveal_strlit("ts_delta");
    reveal_strlit("ts_max");
    reveal_strlit("ts_mean");
    reveal_strlit("ts_min");
    reveal_strlit("ts_rank");
    reveal_strlit("ts_std");
    reveal_strlit("ts_stddev");
    reveal_strlit("ts_sum");
    reveal_strlit("tsargmax");
    reveal_strlit("tsargmin");
    reveal_strlit("tsmax");
    reveal_strlit("tsmean");
    reveal_strlit("tsmin");
    reveal_strlit("tsrank");
    reveal_strlit("tsstd");
    reveal_strlit("tssum");
    reveal_strlit("vol");
    reveal_strlit("volatility");
    reveal_strlit("z_score");
    reveal_strlit("zscore");
    assert("correlation"@.len() != "rank"@.len());
    assert("correlation"@ != "rank"@);
    assert("correlation"@.len() != "zscore"@.len());
    assert("correlation"@ != "zscore"@);
    assert("correlation"@.len() != "z_score"@.len());
    assert("correlation"@ != "z_score"@);
    assert("correlation"@.len() != "scale"@.len());
    assert("correlation"@ != "scale"@);
    assert("correlation"@.len() != "demean"@.len());
    assert("correlation"@ != "demean"@);
    assert("correlation"@.len() != "ts_rank"@.len());
    assert("correlation"@ != "ts_rank"@);
    assert("correlation"@.len() != "tsrank"@.len());
    assert("correlation"@ != "tsrank"@);
    assert("correlation"@.len() != "ts_sum"@.len());
    assert("correlation"@ != "ts_sum"@);
    assert("correlation"@.len() != "tssum"@.len());
    assert("correlation"@ != "tssum"@);
    assert("correlation"@.len() != "ts_mean"@.len());
    assert("correlation"@ != "ts_mean"@);
    assert("correlation"@.len() != "tsmean"@.len());
    assert("correlation"@ != "tsmean"@);
    assert("correlation"@.len() != "ts_avg"@.len());
    assert("correlation"@ != "ts_avg"@);
    assert("correlation"@.len() != "ts_std"@.len());
    assert("correlation"@ != "ts_std"@);
    assert("correlation"@.len() != "tsstd"@.len());
    assert("correlation"@ != "tsstd"@);
    assert("correlation"@.len() != "ts_stddev"@.len());
    assert("correlation"@ != "ts_stddev"@);
    assert("correlation"@.len() != "ts_min"@.len());
    assert("correlation"@ != "ts_min"@);
    assert("correlation"@.len() != "tsmin"@.len());
    assert("correlation"@ != "tsmin"@);
    assert("correlation"@.len() != "ts_max"@.len());
    assert("correlation"@ != "ts_max"@);
    assert("correlation"@.len() != "tsmax"@.len());
    assert("correlation"@ != "tsmax"@);
    assert("correlation"@.len() != "ts_argmax"@.len());
    assert("correlation"@ != "ts_argmax"@);
    assert("correlation"@.len() != "tsargmax"@.len());
    assert("correlation"@ != "tsargmax"@);
    assert("correlation"@.len() != "ts_argmin"@.len());
    assert("correlation"@ != "ts_argmin"@);
    assert("correlation"@.len() != "tsargmin"@.len());
    assert("correlation"@ != "tsargmin"@);
    assert("correlation"@.len() != "ts_delay"@.len());
    assert("correlation"@ != "ts_delay"@);
    assert("correlation"@.len() != "delay"@.len());
    assert("correlation"@ != "delay"@);
    assert("correlation"@.len() != "lag"@.len());
    assert("correlation"@ != "lag"@);
    assert("correlation"@.len() != "ts_delta"@.len());
    assert("correlation"@ != "ts_delta"@);
    assert("correlation"@.len() != "delta"@.len());
    assert("correlation"@ != "delta"@);
    assert("correlation"@.len() != "ts_decay"@.len());
    assert("correlation"@ != "ts_decay"@);
    assert("correlation"@.len() != "decay_linear"@.len());
    assert("correlation"@ != "decay_linear"@);
    assert("correlation"@.len() != "returns"@.len());
    assert("correlation"@ != "returns"@);
    assert("correlation"@.len() != "return"@.len());
    assert("correlation"@ != "return"@);
    assert("correlation"@.len() != "ret"@.len());
    assert("correlation"@ != "ret"@);
    assert("correlation"@[0] != "log_returns"@[0]);
    assert("correlation"@ != "log_returns"@);
    assert("correlation"@.len() != "logreturns"@.len());
    assert("correlation"@ != "logreturns"@);
    assert("correlation"@.len() != "logret"@.len());
    assert("correlation"@ != "logret"@);
    assert("correlation"@.len() != "volatility"@.len());
    assert("correlation"@ != "volatility"@);
    assert("correlation"@.len() != "vol"@.len());
    assert("correlation"@ != "vol"@);
    assert("correlation"@.len() != "std"@.len());
    assert("correlation"@ != "std"@);
}

proof fn lemma_alias_corr()
    ensures
        function_named("corr"@) == Some(FactorFunction::Correlation),
{
    reveal_strlit("corr");
    reveal_strlit("decay_linear");
    reveal_strlit("delay");
    reveal_strlit("delta");
    reveal_strlit("demean");
    reveal_strlit("lag");
    reveal_strlit("log_returns");
    reveal_strlit("logret");
    reveal_strlit("logreturns");
    reveal_strlit("rank");
    reveal_strlit("ret");
    reveal_strlit("return");
    reveal_strlit("returns");
    reveal_strlit("scale");
    reveal_strlit("std");
    reveal_strlit("ts_argmax");
    reveal_strlit("ts_argmin");
    reveal_strlit("ts_avg");
    reveal_strlit("ts_decay");
    reveal_strlit("ts_delay");
    reveal_strlit("ts_delta");
    reveal_strlit("ts_max");
    reveal_strlit("ts_mean");
    reveal_strlit("ts_min");
    reveal_strlit("ts_rank");
    reveal_strlit("ts_std");
    reveal_strlit("ts_stddev");
    reveal_strlit("ts_sum");
    reveal_strlit("tsargmax");
    reveal_strlit("tsargmin");
    reveal_strlit("tsmax");
    reveal_strlit("tsmean");
    reveal_strlit("tsmin");
    reveal_strlit("tsrank");
    reveal_strlit("tsstd");
    reveal_strlit("tssum");
    reveal_strlit("vol");
    reveal_strlit("volatility");
    reveal_strlit("z_score");
    reveal_strlit("zscore");
    assert("corr"@[0] != "rank"@[0]);
    assert("corr"@ != "rank"@);
    assert("corr"@.len() != "zscore"@.len());
    assert("corr"@ != "zscore"@);
    assert("corr"@.len() != "z_score"@.len());
    assert("corr"@ != "z_score"@);
    assert("corr"@.len() != "scale"@.len());
    assert("corr"@ != "scale"@);
    assert("corr"@.len() != "demean"@.len());
    assert("corr"@ != "demean"@);
    assert("corr"@.len() != "ts_rank"@.len());
    assert("corr"@ != "ts_rank"@);
    assert("corr"@.len() != "tsrank"@.len());
    assert("corr"@ != "tsrank"@);
    assert("corr"@.len() != "ts_sum"@.len());
    assert("corr"@ != "ts_sum"@);
    assert("corr"@.len() != "tssum"@.len());
    assert("corr"@ != "tssum"@);
    assert("corr"@.len() != "ts_mean"@.len());
    assert("corr"@ != "ts_mean"@);
    assert("corr"@.len() != "tsmean"@.len());
    assert("corr"@ != "tsmean"@);
    assert("corr"@.len() != "ts_avg"@.len());
    assert("corr"@ != "ts_avg"@);
    assert("corr"@.len() != "ts_std"@.len());
    assert("corr"@ != "ts_std"@);
    assert("corr"@.len() != "tsstd"@.len());
    assert("corr"@ != "tsstd"@);
    assert("corr"@.len() != "ts_stddev"@.len());
    assert("corr"@ != "ts_stddev"@);
    assert("corr"@.len() != "ts_min"@.len());
    assert("corr"@ != "ts_min"@);
    assert("corr"@.len() != "tsmin"@.len());
    assert("corr"@ != "tsmin"@);
    assert("corr"@.len() != "ts_max"@.len());
    assert("corr"@ != "ts_max"@);
    assert("corr"@.len() != "tsmax"@.len());
    assert("corr"@ != "tsmax"@);
    assert("corr"@.len() != "ts_argmax"@.len());
    assert("corr"@ != "ts_argmax"@);
    assert("corr"@.len() != "tsargmax"@.len());
    assert("corr"@ != "tsargmax"@);
    assert("corr"@.len() != "ts_argmin"@.len());
    assert("corr"@ != "ts_argmin"@);
    assert("corr"@.len() != "tsargmin"@.len());
    assert("corr"@ != "tsargmin"@);
    assert("corr"@.len() != "ts_delay"@.len());
    assert("corr"@ != "ts_delay"@);
    assert("corr"@.len() != "delay"@.len());
    assert("corr"@ != "delay"@);
    assert("corr"@.len() != "lag"@.len());
    assert("corr"@ != "lag"@);
    assert("corr"@.len() != "ts_delta"@.len());
    assert("corr"@ != "ts_delta"@);
    assert("corr"@.len() != "delta"@.len());
    assert("corr"@ != "delta"@);
    assert("corr"@.len() != "ts_decay"@.len());
    assert("corr"@ != "ts_decay"@);
    assert("corr"@.len() != "decay_linear"@.len());
    assert("corr"@ != "decay_linear"@);
    assert("corr"@.len() != "returns"@.len());
    assert("corr"@ != "returns"@);
    assert("corr"@.len() != "return"@.len());
    assert("corr"@ != "return"@);
    assert("corr"@.len() != "ret"@.len());
    assert("corr"@ != "ret"@);
    assert("corr"@.len() != "log_returns"@.len());
    assert("corr"@ != "log_returns"@);
    assert("corr"@.len() != "logreturns"@.len());
    assert("corr"@ != "logreturns"@);
    assert("corr"@.len() != "logret"@.len());
    assert("corr"@ != "logret"@);
    assert("corr"@.len() != "volatility"@.len());
    assert("corr"@ != "volatility"@);
    assert("corr"@.len() != "vol"@.len());
    assert("corr"@ != "vol"@);
    assert("corr"@.len() != "std"@.len());
    assert("corr"@ != "std"@);
}

proof fn lemma_alias_covariance()
    ensures
        function_named("covariance"@) == Some(FactorFunction::Covariance),
{
    reveal_strlit("corr");
    reveal_strlit("correlation");
    reveal_strlit("covariance");
    reveal_strlit("decay_linear");
    reveal_strlit("delay");
    reveal_strlit("delta");
    reveal_strlit("demean");
    reveal_strlit("lag");
    reveal_strlit("log_returns");
    reveal_strlit("logret");
    reveal_strlit("logreturns");
    reveal_strlit("rank");
    reveal_strlit("ret");
    reveal_strlit("return");
    reveal_strlit("returns");
    reveal_strlit("scale");
    reveal_strlit("std");
    reveal_strlit("ts_argmax");
    reveal_strlit("ts_argmin");
    reveal_strlit("ts_avg");
    reveal_strlit("ts_decay");
    reveal_strlit("ts_delay");
    reveal_strlit("ts_delta");
    reveal_strlit("ts_max");
    reveal_strlit("ts_mean");
    reveal_strlit("ts_min");
    reveal_strlit("ts_rank");
    reveal_strlit("ts_std");
    reveal_strlit("ts_stddev");
    reveal_strlit("ts_sum");
    reveal_strlit("tsargmax");
    reveal_strlit("tsargmin");
    reveal_strlit("tsmax");
    reveal_strlit("tsmean");
    reveal_strlit("tsmin");
    reveal_strlit("tsrank");
    reveal_strlit("tsstd");
    reveal_strlit("tssum");
    reveal_strlit("vol");
    reveal_strlit("volatility");
    reveal_strlit("z_score");
    reveal_strlit("zscore");
    assert("covariance"@.len() != "rank"@.len());
    assert("covariance"@ != "rank"@);
    assert("covariance"@.len() != "zscore"@.len());
    assert("covariance"@ != "zscore"@);
    assert("covariance"@.len() != "z_score"@.len());
    assert("covariance"@ != "z_score"@);
    assert("covariance"@.len() != "scale"@.len());
    assert("covariance"@ != "scale"@);
    assert("covariance"@.len() != "demean"@.len());
    assert("covariance"@ != "demean"@);
    assert("covariance"@.len() != "ts_rank"@.len());
    assert("covariance"@ != "ts_rank"@);
    assert("covariance"@.len() != "tsrank"@.len());
    assert("covariance"@ != "tsrank"@);
    assert("covariance"@.len() != "ts_sum"@.len());
    assert("covariance"@ != "ts_sum"@);
    assert("covariance"@.len() != "tssum"@.len());
    assert("covariance"@ != "tssum"@);
    assert("covariance"@.len() != "ts_mean"@.len());
    assert("covariance"@ != "ts_mean"@);
    assert("covariance"@.len() != "tsmean"@.len());
    assert("covariance"@ != "tsmean"@);
    assert("covariance"@.len() != "ts_avg"@.len());
    assert("covariance"@ != "ts_avg"@);
    assert("covariance"@.len() != "ts_std"@.len());
    assert("covariance"@ != "ts_std"@);
    assert("covariance"@.len() != "tsstd"@.len());
    assert("covariance"@ != "tsstd"@);
    assert("covariance"@.len() != "ts_stddev"@.len());
    assert("covariance"@ != "ts_stddev"@);
    assert("covariance"@.len() != "ts_min"@.len());
    assert("covariance"@ != "ts_min"@);
    assert("covariance"@.len() != "tsmin"@.len());
    assert("covariance"@ != "tsmin"@);
    assert("covariance"@.len() != "ts_max"@.len());
    assert("covariance"@ != "ts_max"@);
    assert("covariance"@.len() != "tsmax"@.len());
    assert("covariance"@ != "tsmax"@);
    assert("covariance"@.len() != "ts_argmax"@.len());
    assert("covariance"@ != "ts_argmax"@);
    assert("covariance"@.len() != "tsargmax"@.len());
    assert("covariance"@ != "tsargmax"@);
    assert("covariance"@.len() != "ts_argmin"@.len());
    assert("covariance"@ != "ts_argmin"@);
    assert("covariance"@.len() != "tsargmin"@.len());
    assert("covariance"@ != "tsargmin"@);
    assert("covariance"@.len() != "ts_delay"@.len());
    assert("covariance"@ != "ts_delay"@);
    assert("covariance"@.len() != "delay"@.len());
    assert("covariance"@ != "delay"@);
    assert("covariance"@.len() != "lag"@.len());
    assert("covariance"@ != "lag"@);
    assert("covariance"@.len() != "ts_delta"@.len());
    assert("covariance"@ != "ts_delta"@);
    assert("covariance"@.len() != "delta"@.len());
    assert("covariance"@ != "delta"@);
    assert("covariance"@.len() != "ts_decay"@.len());
    assert("covariance"@ != "ts_decay"@);
    assert("covariance"@.len() != "decay_linear"@.len());
    assert("covariance"@ != "decay_linear"@);
    assert("covariance"@.len() != "returns"@.len());
    assert("covariance"@ != "returns"@);
    assert("covariance"@.len() != "return"@.len());
    assert("covariance"@ != "return"@);
    assert("covariance"@.len() != "ret"@.len());
    assert("covariance"@ != "ret"@);
    assert("covariance"@.len() != "log_returns"@.len());
    assert("covariance"@ != "log_returns"@);
    assert("covariance"@[0] != "logreturns"@[0]);
    assert("covariance"@ != "logreturns"@);
    assert("covariance"@.len() != "logret"@.len());
    assert("covariance"@ != "logret"@);
    assert("covariance"@[0] != "volatility"@[0]);
    assert("covariance"@ != "volatility"@);
    assert("covariance"@.len() != "vol"@.len());
    assert("covariance"@ != "vol"@);
    assert("covariance"@.len() != "std"@.len());
    assert("covariance"@ != "std"@);
    assert("covariance"@.len() != "correlation"@.len());
    assert("covariance"@ != "correlation"@);
    assert("covariance"@.len() != "corr"@.len());
    assert("covariance"@ != "corr"@);
}

proof fn lemma_alias_cov()
    ensures
        function_named("cov"@) == Some(FactorFunction::Covariance),
{
    reveal_strlit("corr");
    reveal_strlit("correlation");
    reveal_strlit("cov");
    reveal_strlit("decay_linear");
    reveal_strlit("delay");
    reveal_strlit("delta");
    reveal_strlit("demean");
    reveal_strlit("lag");
    reveal_strlit("log_returns");
    reveal_strlit("logret");
    reveal_strlit("logreturns");
    reveal_strlit("rank");
    reveal_strlit("ret");
    reveal_strlit("return");
    reveal_strlit("returns");
    reveal_strlit("scale");
    reveal_strlit("std");
    reveal_strlit("ts_argmax");
    reveal_strlit("ts_argmin");
    reveal_strlit("ts_avg");
    reveal_strlit("ts_decay");
    reveal_strlit("ts_delay");
    reveal_strlit("ts_delta");
    reveal_strlit("ts_max");
    reveal_strlit("ts_mean");
    reveal_strlit("ts_min");
    reveal_strlit("ts_rank");
    reveal_strlit("ts_std");
    reveal_strlit("ts_stddev");
    reveal_strlit("ts_sum");
    reveal_strlit("tsargmax");
    reveal_strlit("tsargmin");
    reveal_strlit("tsmax");
    reveal_strlit("tsmean");
    reveal_strlit("tsmin");
    reveal_strlit("tsrank");
    reveal_strlit("tsstd");
    reveal_strlit("tssum");
    reveal_strlit("vol");
    reveal_strlit("volatility");
    reveal_strlit("z_score");
    reveal_strlit("zscore");
    assert("cov"@.len() != "rank"@.len());
    assert("cov"@ != "rank"@);
    assert("cov"@.len() != "zscore"@.len());
    assert("cov"@ != "zscore"@);
    assert("cov"@.len() != "z_score"@.len());
    assert("cov"@ != "z_score"@);
    assert("cov"@.len() != "scale"@.len());
    assert("cov"@ != "scale"@);
    assert("cov"@.len() != "demean"@.len());
    assert("cov"@ != "demean"@);
    assert("cov"@.len() != "ts_rank"@.len());
    assert("cov"@ != "ts_rank"@);
    assert("cov"@.len() != "tsrank"@.len());
    assert("cov"@ != "tsrank"@);
    assert("cov"@.len() != "ts_sum"@.len());
    assert("cov"@ != "ts_sum"@);
    assert("cov"@.len() != "tssum"@.len());
    assert("cov"@ != "tssum"@);
    assert("cov"@.len() != "ts_mean"@.len());
    assert("cov"@ != "ts_mean"@);
    assert("cov"@.len() != "tsmean"@.len());
    assert("cov"@ != "tsmean"@);
    assert("cov"@.len() != "ts_avg"@.len());
    assert("cov"@ != "ts_avg"@);
    assert("cov"@.len() != "ts_std"@.len());
    assert("cov"@ != "ts_std"@);
    assert("cov"@.len() != "tsstd"@.len());
    assert("cov"@ != "tsstd"@);
    assert("cov"@.len() != "ts_stddev"@.len());
    assert("cov"@ != "ts_stddev"@);
    assert("cov"@.len() != "ts_min"@.len());
    assert("cov"@ != "ts_min"@);
    assert("cov"@.len() != "tsmin"@.len());
    assert("cov"@ != "tsmin"@);
    assert("cov"@.len() != "ts_max"@.len());
    assert("cov"@ != "ts_max"@);
    assert("cov"@.len() != "tsmax"@.len());
    assert("cov"@ != "tsmax"@);
    assert("cov"@.len() != "ts_argmax"@.len());
    assert("cov"@ != "ts_argmax"@);
    assert("cov"@.len() != "tsargmax"@.len());
    assert("cov"@ != "tsargmax"@);
    assert("cov"@.len() != "ts_argmin"@.len());
    assert("cov"@ != "ts_argmin"@);
    assert("cov"@.len() != "tsargmin"@.len());
    assert("cov"@ != "tsargmin"@);
    assert("cov"@.len() != "ts_delay"@.len());
    assert("cov"@ != "ts_delay"@);
    assert("cov"@.len() != "delay"@.len());
    assert("cov"@ != "delay"@);
    assert("cov"@[0] != "lag"@[0]);
    assert("cov"@ != "lag"@);
    assert("cov"@.len() != "ts_delta"@.len());
    assert("cov"@ != "ts_delta"@);
    assert("cov"@.len() != "delta"@.len());
    assert("cov"@ != "delta"@);
    assert("cov"@.len() != "ts_decay"@.len());
    assert("cov"@ != "ts_decay"@);
    assert("cov"@.len() != "decay_linear"@.len());
    assert("cov"@ != "decay_linear"@);
    assert("cov"@.len() != "returns"@.len());
    assert("cov"@ != "returns"@);
    assert("cov"@.len() != "return"@.len());
    assert("cov"@ != "return"@);
    assert("cov"@[0] != "ret"@[0]);
    assert("cov"@ != "ret"@);
    assert("cov"@.len() != "log_returns"@.len());
    assert("cov"@ != "log_returns"@);
    assert("cov"@.len() != "logreturns"@.len());
    assert("cov"@ != "logreturns"@);
    assert("cov"@.len() != "logret"@.len());
    assert("cov"@ != "logret"@);
    assert("cov"@.len() != "volatility"@.len());
    assert("cov"@ != "volatility"@);
    assert("cov"@[0] != "vol"@[0]);
    assert("cov"@ != "vol"@);
    assert("cov"@[0] != "std"@[0]);
    assert("cov"@ != "std"@);
    assert("cov"@.len() != "correlation"@.len());
    assert("cov"@ != "correlation"@);
    assert("cov"@.len() != "corr"@.len());
    assert("cov"@ != "corr"@);
}

proof fn lemma_alias_abs()
    ensures
        function_named("abs"@) == Some(FactorFunction::Abs),
{
    reveal_strlit("abs");
    reveal_strlit("corr");
    reveal_strlit("correlation");
    reveal_strlit("cov");
    reveal_strlit("covariance");
    reveal_strlit("decay_linear");
    reveal_strlit("delay");
    reveal_strlit("delta");
    reveal_strlit("demean");
    reveal_strlit("lag");
    reveal_strlit("log_returns");
    reveal_strlit("logret");
    reveal_strlit("logreturns");
    reveal_strlit("rank");
    reveal_strlit("ret");
    reveal_strlit("return");
    reveal_strlit("returns");
    reveal_strlit("scale");
    reveal_strlit("std");
    reveal_strlit("ts_argmax");
    reveal_strlit("ts_argmin");
    reveal_strlit("ts_avg");
    reveal_strlit("ts_decay");
    reveal_strlit("ts_delay");
    reveal_strlit("ts_delta");
    reveal_strlit("ts_max");
    reveal_strlit("ts_mean");
    reveal_strlit("ts_min");
    reveal_strlit("ts_rank");
    reveal_strlit("ts_std");
    reveal_strlit("ts_stddev");
    reveal_strlit("ts_sum");
    reveal_strlit("tsargmax");
    reveal_strlit("tsargmin");
    reveal_strlit("tsmax");
    reveal_strlit("tsmean");
    reveal_strlit("tsmin");
    reveal_strlit("tsrank");
    reveal_strlit("tsstd");
    reveal_strlit("tssum");
    reveal_strlit("vol");
    reveal_strlit("volatility");
    reveal_strlit("z_score");
    reveal_strlit("zscore");
    assert("abs"@.len() != "rank"@.len());
    assert("abs"@ != "rank"@);
    assert("abs"@.len() != "zscore"@.len());
    assert("abs"@ != "zscore"@);
    assert("abs"@.len() != "z_score"@.len());
    assert("abs"@ != "z_score"@);
    assert("abs"@.len() != "scale"@.len());
    assert("abs"@ != "scale"@);
    assert("abs"@.len() != "demean"@.len());
    assert("abs"@ != "demean"@);
    assert("abs"@.len() != "ts_rank"@.len());
    assert("abs"@ != "ts_rank"@);
    assert("abs"@.len() != "tsrank"@.len());
    assert("abs"@ != "tsrank"@);
    assert("abs"@.len() != "ts_sum"@.len());
    assert("abs"@ != "ts_sum"@);
    assert("abs"@.len() != "tssum"@.len());
    assert("abs"@ != "tssum"@);
    assert("abs"@.len() != "ts_mean"@.len());
    assert("abs"@ != "ts_mean"@);
    assert("abs"@.len() != "tsmean"@.len());
    assert("abs"@ != "tsmean"@);
    assert("abs"@.len() != "ts_avg"@.len());
    assert("abs"@ != "ts_avg"@);
    assert("abs"@.len() != "ts_std"@.len());
    assert("abs"@ != "ts_std"@);
    assert("abs"@.len() != "tsstd"@.len());
    assert("abs"@ != "tsstd"@);
    assert("abs"@.len() != "ts_stddev"@.len());
    assert("abs"@ != "ts_stddev"@);
    assert("abs"@.len() != "ts_min"@.len());
    assert("abs"@ != "ts_min"@);
    assert("abs"@.len() != "tsmin"@.len());
    assert("abs"@ != "tsmin"@);
    assert("abs"@.len() != "ts_max"@.len());
    assert("abs"@ != "ts_max"@);
    assert("abs"@.len() != "tsmax"@.len());
    assert("abs"@ != "tsmax"@);
    assert("abs"@.len() != "ts_argmax"@.len());
    assert("abs"@ != "ts_argmax"@);
    assert("abs"@.len() != "tsargmax"@.len());
    assert("abs"@ != "tsargmax"@);
    assert("abs"@.len() != "ts_argmin"@.len());
    assert("abs"@ != "ts_argmin"@);
    assert("abs"@.len() != "tsargmin"@.len());
    assert("abs"@ != "tsargmin"@);
    assert("abs"@.len() != "ts_delay"@.len());
    assert("abs"@ != "ts_delay"@);
    assert("abs"@.len() != "delay"@.len());
    assert("abs"@ != "delay"@);
    assert("abs"@[0] != "lag"@[0]);
    assert("abs"@ != "lag"@);
    assert("abs"@.len() != "ts_delta"@.len());
    assert("abs"@ != "ts_delta"@);
    assert("abs"@.len() != "delta"@.len());
    assert("abs"@ != "delta"@);
    assert("abs"@.len() != "ts_decay"@.len());
    assert("abs"@ != "ts_decay"@);
    assert("abs"@.len() != "decay_linear"@.len());
    assert("abs"@ != "decay_linear"@);
    assert("abs"@.len() != "returns"@.len());
    assert("abs"@ != "returns"@);
    assert("abs"@.len() != "return"@.len());
    assert("abs"@ != "return"@);
    assert("abs"@[0] != "ret"@[0]);
    assert("abs"@ != "ret"@);
    assert("abs"@.len() != "log_returns"@.len());
    assert("abs"@ != "log_returns"@);
    assert("abs"@.len() != "logreturns"@.len());
    assert("abs"@ != "logreturns"@);
    assert("abs"@.len() != "logret"@.len());
    assert("abs"@ != "logret"@);
    assert("abs"@.len() != "volatility"@.len());
    assert("abs"@ != "volatility"@);
    assert("abs"@[0] != "vol"@[0]);
    assert("abs"@ != "vol"@);
    assert("abs"@[0] != "std"@[0]);
    assert("abs"@ != "std"@);
    assert("abs"@.len() != "correlation"@.len());
    assert("abs"@ != "correlation"@);
    assert("abs"@.len() != "corr"@.len());
    assert("abs"@ != "corr"@);
    assert("abs"@.len() != "covariance"@.len());
    assert("abs"@ != "covariance"@);
    assert("abs"@[0] != "cov"@[0]);
    assert("abs"@ != "cov"@);
}

proof fn lemma_alias_sign()
    ensures
        function_named("sign"@) == Some(FactorFunction::Sign),
{
    reveal_strlit("abs");
    reveal_strlit("corr");
    reveal_strlit("correlation");
    reveal_strlit("cov");
    reveal_strlit("covariance");
    reveal_strlit("decay_linear");
    reveal_strlit("delay");
    reveal_strlit("delta");
    reveal_strlit("demean");
    reveal_strlit("lag");
    reveal_strlit("log_returns");
    reveal_strlit("logret");
    reveal_strlit("logreturns");
    reveal_strlit("rank");
    reveal_strlit("ret");
    reveal_strlit("return");
    reveal_strlit("returns");
    reveal_strlit("scale");
    reveal_strlit("sign");
    reveal_strlit("std");
    reveal_strlit("ts_argmax");
    reveal_strlit("ts_argmin");
    reveal_strlit("ts_avg");
    reveal_strlit("ts_decay");
    reveal_strlit("ts_delay");
    reveal_strlit("ts_delta");
    reveal_strlit("ts_max");
    reveal_strlit("ts_mean");
    reveal_strlit("ts_min");
    reveal_strlit("ts_rank");
    reveal_strlit("ts_std");
    reveal_strlit("ts_stddev");
    reveal_strlit("ts_sum");
    reveal_strlit("tsargmax");
    reveal_strlit("tsargmin");
    reveal_strlit("tsmax");
    reveal_strlit("tsmean");
    reveal_strlit("tsmin");
    reveal_strlit("tsrank");
    reveal_strlit("tsstd");
    reveal_strlit("tssum");
    reveal_strlit("vol");
    reveal_strlit("volatility");
    reveal_strlit("z_score");
    reveal_strlit("zscore");
    assert("sign"@[0] != "rank"@[0]);
    assert("sign"@ != "rank"@);
    assert("sign"@.len() != "zscore"@.len());
    assert("sign"@ != "zscore"@);
    assert("sign"@.len() != "z_score"@.len());
    assert("sign"@ != "z_score"@);
    assert("sign"@.len() != "scale"@.len());
    assert("sign"@ != "scale"@);
    assert("sign"@.len() != "demean"@.len());
    assert("sign"@ != "demean"@);
    assert("sign"@.len() != "ts_rank"@.len());
    assert("sign"@ != "ts_rank"@);
    assert("sign"@.len() != "tsrank"@.len());
    assert("sign"@ != "tsrank"@);
    assert("sign"@.len() != "ts_sum"@.len());
    assert("sign"@ != "ts_sum"@);
    assert("sign"@.len() != "tssum"@.len());
    assert("sign"@ != "tssum"@);
    assert("sign"@.len() != "ts_mean"@.len());
    assert("sign"@ != "ts_mean"@);
    assert("sign"@.len() != "tsmean"@.len());
    assert("sign"@ != "tsmean"@);
    assert("sign"@.len() != "ts_avg"@.len());
    assert("sign"@ != "ts_avg"@);
    assert("sign"@.len() != "ts_std"@.len());
    assert("sign"@ != "ts_std"@);
    assert("sign"@.len() != "tsstd"@.len());
    assert("sign"@ != "tsstd"@);
    assert("sign"@.len() != "ts_stddev"@.len());
    assert("sign"@ != "ts_stddev"@);
    assert("sign"@.len() != "ts_min"@.len());
    assert("sign"@ != "ts_min"@);
    assert("sign"@.len() != "tsmin"@.len());
    assert("sign"@ != "tsmin"@);
    assert("sign"@.len() != "ts_max"@.len());
    assert("sign"@ != "ts_max"@);
    assert("sign"@.len() != "tsmax"@.len());
    assert("sign"@ != "tsmax"@);
    assert("sign"@.len() != "ts_argmax"@.len());
    assert("sign"@ != "ts_argmax"@);
    assert("sign"@.len() != "tsargmax"@.len());
    assert("sign"@ != "tsargmax"@);
    assert("sign"@.len() != "ts_argmin"@.len());
    assert("sign"@ != "ts_argmin"@);
    assert("sign"@.len() != "tsargmin"@.len());
    assert("sign"@ != "tsargmin"@);
    assert("sign"@.len() != "ts_delay"@.len());
    assert("sign"@ != "ts_delay"@);
    assert("sign"@.len() != "delay"@.len());
    assert("sign"@ != "delay"@);
    assert("sign"@.len() != "lag"@.len());
    assert("sign"@ != "lag"@);
    assert("sign"@.len() != "ts_delta"@.len());
    assert("sign"@ != "ts_delta"@);
    assert("sign"@.len() != "delta"@.len());
    assert("sign"@ != "delta"@);
    assert("sign"@.len() != "ts_decay"@.len());
    assert("sign"@ != "ts_decay"@);
    assert("sign"@.len() != "decay_linear"@.len());
    assert("sign"@ != "decay_linear"@);
    assert("sign"@.len() != "returns"@.len());
    assert("sign"@ != "returns"@);
    assert("sign"@.len() != "return"@.len());
    assert("sign"@ != "return"@);
    assert("sign"@.len() != "ret"@.len());
    assert("sign"@ != "ret"@);
    assert("sign"@.len() != "log_returns"@.len());
    assert("sign"@ != "log_returns"@);
    assert("sign"@.len() != "logreturns"@.len());
    assert("sign"@ != "logreturns"@);
    assert("sign"@.len() != "logret"@.len());
    assert("sign"@ != "logret"@);
    assert("sign"@.len() != "volatility"@.len());
    assert("sign"@ != "volatility"@);
    assert("sign"@.len() != "vol"@.len());
    assert("sign"@ != "vol"@);
    assert("sign"@.len() != "std"@.len());
    assert("sign"@ != "std"@);
    assert("sign"@.len() != "correlation"@.len());
    assert("sign"@ != "correlation"@);
    assert("sign"@[0] != "corr"@[0]);
    assert("sign"@ != "corr"@);
    assert("sign"@.len() != "covariance"@.len());
    assert("sign"@ != "covariance"@);
    assert("sign"@.len() != "cov"@.len());
    assert("sign"@ != "cov"@);
    assert("sign"@.len() != "abs"@.len());
    assert("sign"@ != "abs"@);
}

proof fn lemma_alias_signum()
    ensures
        function_named("signum"@) == Some(FactorFunction::Sign),
{
    reveal_strlit("abs");
    reveal_strlit("corr");
    reveal_strlit("correlation");
    reveal_strlit("cov");
    reveal_strlit("covariance");
    reveal_strlit("decay_linear");
    reveal_strlit("delay");
    reveal_strlit("delta");
    reveal_strlit("demean");
    reveal_strlit("lag");
    reveal_strlit("log_returns");
    reveal_strlit("logret");
    reveal_strlit("logreturns");
    reveal_strlit("rank");
    reveal_strlit("ret");
    reveal_strlit("return");
    reveal_strlit("returns");
    reveal_strlit("scale");
    reveal_strlit("signum");
    reveal_strlit("std");
    reveal_strlit("ts_argmax");
    reveal_strlit("ts_argmin");
    reveal_strlit("ts_avg");
    reveal_strlit("ts_decay");
    reveal_strlit("ts_delay");
    reveal_strlit("ts_delta");
    reveal_strlit("ts_max");
    reveal_strlit("ts_mean");
    reveal_strlit("ts_min");
    reveal_strlit("ts_rank");
    reveal_strlit("ts_std");
    reveal_strlit("ts_stddev");
    reveal_strlit("ts_sum");
    reveal_strlit("tsargmax");
    reveal_strlit("tsargmin");
    reveal_strlit("tsmax");
    reveal_strlit("tsmean");
    reveal_strlit("tsmin");
    reveal_strlit("tsrank");
    reveal_strlit("tsstd");
    reveal_strlit("tssum");
    reveal_strlit("vol");
    reveal_strlit("volatility");
    reveal_strlit("z_score");
    reveal_strlit("zscore");
    assert("signum"@.len() != "rank"@.len());
    assert("signum"@ != "rank"@);
    assert("signum"@[0] != "zscore"@[0]);
    assert("signum"@ != "zscore"@);
    assert("signum"@.len() != "z_score"@.len());
    assert("signum"@ != "z_score"@);
    assert("signum"@.len() != "scale"@.len());
    assert("signum"@ != "scale"@);
    assert("signum"@[0] != "demean"@[0]);
    assert("signum"@ != "demean"@);
    assert("signum"@.len() != "ts_rank"@.len());
    assert("signum"@ != "ts_rank"@);
    assert("signum"@[0] != "tsrank"@[0]);
    assert("signum"@ != "tsrank"@);
    assert("signum"@[0] != "ts_sum"@[0]);
    assert("signum"@ != "ts_sum"@);
    assert("signum"@.len() != "tssum"@.len());
    assert("signum"@ != "tssum"@);
    assert("signum"@.len() != "ts_mean"@.len());
    assert("signum"@ != "ts_mean"@);
    assert("signum"@[0] != "tsmean"@[0]);
    assert("signum"@ != "tsmean"@);
    assert("signum"@[0] != "ts_avg"@[0]);
    assert("signum"@ != "ts_avg"@);
    assert("signum"@[0] != "ts_std"@[0]);
    assert("signum"@ != "ts_std"@);
    assert("signum"@.len() != "tsstd"@.len());
    assert("signum"@ != "tsstd"@);
    assert("signum"@.len() != "ts_stddev"@.len());
    assert("signum"@ != "ts_stddev"@);
    assert("signum"@[0] != "ts_min"@[0]);
    assert("signum"@ != "ts_min"@);
    assert("signum"@.len() != "tsmin"@.len());
    assert("signum"@ != "tsmin"@);
    assert("signum"@[0] != "ts_max"@[0]);
    assert("signum"@ != "ts_max"@);
    assert("signum"@.len() != "tsmax"@.len());
    assert("signum"@ != "tsmax"@);
    assert("signum"@.len() != "ts_argmax"@.len());
    assert("signum"@ != "ts_argmax"@);
    assert("signum"@.len() != "tsargmax"@.len());
    assert("signum"@ != "tsargmax"@);
    assert("signum"@.len() != "ts_argmin"@.len());
    assert("signum"@ != "ts_argmin"@);
    assert("signum"@.len() != "tsargmin"@.len());
    assert("signum"@ != "tsargmin"@);
    assert("signum"@.len() != "ts_delay"@.len());
    assert("signum"@ != "ts_delay"@);
    assert("signum"@.len() != "delay"@.len());
    assert("signum"@ != "delay"@);
    assert("signum"@.len() != "lag"@.len());
    assert("signum"@ != "lag"@);
    assert("signum"@.len() != "ts_delta"@.len());
    assert("signum"@ != "ts_delta"@);
    assert("signum"@.len() != "delta"@.len());
    assert("signum"@ != "delta"@);
    assert("signum"@.len() != "ts_decay"@.len());
    assert("signum"@ != "ts_decay"@);
    assert("signum"@.len() != "decay_linear"@.len());
    assert("signum"@ != "decay_linear"@);
    assert("signum"@.len() != "returns"@.len());
    assert("signum"@ != "returns"@);
    assert("signum"@[0] != "return"@[0]);
    assert("signum"@ != "return"@);
    assert("signum"@.len() != "ret"@.len());
    assert("signum"@ != "ret"@);
    assert("signum"@.len() != "log_returns"@.len());
    assert("signum"@ != "log_returns"@);
    assert("signum"@.len() != "logreturns"@.len());
    assert("signum"@ != "logreturns"@);
    assert("signum"@[0] != "logret"@[0]);
    assert("signum"@ != "logret"@);
    assert("signum"@.len() != "volatility"@.len());
    assert("signum"@ != "volatility"@);
    assert("signum"@.len() != "vol"@.len());
    assert("signum"@ != "vol"@);
    assert("signum"@.len() != "std"@.len());
    assert("signum"@ != "std"@);
    assert("signum"@.len() != "correlation"@.len());
    assert("signum"@ != "correlation"@);
    assert("signum"@.len() != "corr"@.len());
    assert("signum"@ != "corr"@);
    assert("signum"@.len() != "covariance"@.len());
    assert("signum"@ != "covariance"@);
    assert("signum"@.len() != "cov"@.len());
    assert("signum"@ != "cov"@);
    assert("signum"@.len() != "abs"@.len());
    assert("signum"@ != "abs"@);
}

proof fn lemma_alias_log()
    ensures
        function_named("log"@) == Some(FactorFunction::Log),
{
    reveal_strlit("abs");
    reveal_strlit("corr");
    reveal_strlit("correlation");
    reveal_strlit("cov");
    reveal_strlit("covariance");
    reveal_strlit("decay_linear");
    reveal_strlit("delay");
    reveal_strlit("delta");
    reveal_strlit("demean");
    reveal_strlit("lag");
    reveal_strlit("log");
    reveal_strlit("log_returns");
    reveal_strlit("logret");
    reveal_strlit("logreturns");
    reveal_strlit("rank");
    reveal_strlit("ret");
    reveal_strlit("return");
    reveal_strlit("returns");
    reveal_strlit("scale");
    reveal_strlit("sign");
    reveal_strlit("signum");
    reveal_strlit("std");
    reveal_strlit("ts_argmax");
    reveal_strlit("ts_argmin");
    reveal_strlit("ts_avg");
    reveal_strlit("ts_decay");
    reveal_strlit("ts_delay");
    reveal_strlit("ts_delta");
    reveal_strlit("ts_max");
    reveal_strlit("ts_mean");
    reveal_strlit("ts_min");
    reveal_strlit("ts_rank");
    reveal_strlit("ts_std");
    reveal_strlit("ts_stddev");
    reveal_strlit("ts_sum");
    reveal_strlit("tsargmax");
    reveal_strlit("tsargmin");
    reveal_strlit("tsmax");
    reveal_strlit("tsmean");
    reveal_strlit("tsmin");
    reveal_strlit("tsrank");
    reveal_strlit("tsstd");
    reveal_strlit("tssum");
    reveal_strlit("vol");
    reveal_strlit("volatility");
    reveal_strlit("z_score");
    reveal_strlit("zscore");
    assert("log"@.len() != "rank"@.len());
    assert("log"@ != "rank"@);
    assert("log"@.len() != "zscore"@.len());
    assert("log"@ != "zscore"@);
    assert("log"@.len() != "z_score"@.len());
    assert("log"@ != "z_score"@);
    assert("log"@.len() != "scale"@.len());
    assert("log"@ != "scale"@);
    assert("log"@.len() != "demean"@.len());
    assert("log"@ != "demean"@);
    assert("log"@.len() != "ts_rank"@.len());
    assert("log"@ != "ts_rank"@);
    assert("log"@.len() != "tsrank"@.len());
    assert("log"@ != "tsrank"@);
    assert("log"@.len() != "ts_sum"@.len());
    assert("log"@ != "ts_sum"@);
    assert("log"@.len() != "tssum"@.len());
    assert("log"@ != "tssum"@);
    assert("log"@.len() != "ts_mean"@.len());
    assert("log"@ != "ts_mean"@);
    assert("log"@.len() != "tsmean"@.len());
    assert("log"@ != "tsmean"@);
    assert("log"@.len() != "ts_avg"@.len());
    assert("log"@ != "ts_avg"@);
    assert("log"@.len() != "ts_std"@.len());
    assert("log"@ != "ts_std"@);
    assert("log"@.len() != "tsstd"@.len());
    assert("log"@ != "tsstd"@);
    assert("log"@.len() != "ts_stddev"@.len());
    assert("log"@ != "ts_stddev"@);
    assert("log"@.len() != "ts_min"@.len());
    assert("log"@ != "ts_min"@);
    assert("log"@.len() != "tsmin"@.len());
    assert("log"@ != "tsmin"@);
    assert("log"@.len() != "ts_max"@.len());
    assert("log"@ != "ts_max"@);
    assert("log"@.len() != "tsmax"@.len());
    assert("log"@ != "tsmax"@);
    assert("log"@.len() != "ts_argmax"@.len());
    assert("log"@ != "ts_argmax"@);
    assert("log"@.len() != "tsargmax"@.len());
    assert("log"@ != "tsargmax"@);
    assert("log"@.len() != "ts_argmin"@.len());
    assert("log"@ != "ts_argmin"@);
    assert("log"@.len() != "tsargmin"@.len());
    assert("log"@ != "tsargmin"@);
    assert("log"@.len() != "ts_delay"@.len());
    assert("log"@ != "ts_delay"@);
    assert("log"@.len() != "delay"@.len());
    assert("log"@ != "delay"@);
    assert("log"@[1] != "lag"@[1]);
    assert("log"@ != "lag"@);
    assert("log"@.len() != "ts_delta"@.len());
    assert("log"@ != "ts_delta"@);
    assert("log"@.len() != "delta"@.len());
    assert("log"@ != "delta"@);
    assert("log"@.len() != "ts_decay"@.len());
    assert("log"@ != "ts_decay"@);
    assert("log"@.len() != "decay_linear"@.len());
    assert("log"@ != "decay_linear"@);
    assert("log"@.len() != "returns"@.len());
    assert("log"@ != "returns"@);
    assert("log"@.len() != "return"@.len());
    assert("log"@ != "return"@);
    assert("log"@[0] != "ret"@[0]);
    assert("log"@ != "ret"@);
    assert("log"@.len() != "log_returns"@.len());
    assert("log"@ != "log_returns"@);
    assert("log"@.len() != "logreturns"@.len());
    assert("log"@ != "logreturns"@);
    assert("log"@.len() != "logret"@.len());
    assert("log"@ != "logret"@);
    assert("log"@.len() != "volatility"@.len());
    assert("log"@ != "volatility"@);
    assert("log"@[0] != "vol"@[0]);
    assert("log"@ != "vol"@);
    assert("log"@[0] != "std"@[0]);
    assert("log"@ != "std"@);
    assert("log"@.len() != "correlation"@.len());
    assert("log"@ != "correlation"@);
    assert("log"@.len() != "corr"@.len());
    assert("log"@ != "corr"@);
    assert("log"@.len() != "covariance"@.len());
    assert("log"@ != "covariance"@);
    assert("log"@[0] != "cov"@[0]);
    assert("log"@ != "cov"@);
    assert("log"@[0] != "abs"@[0]);
    assert("log"@ != "abs"@);
    assert("log"@.len() != "sign"@.len());
    assert("log"@ != "sign"@);
    assert("log"@.len() != "signum"@.len());
    assert("log"@ != "signum"@);
}

proof fn lemma_alias_ln()
    ensures
        function_named("ln"@) == Some(FactorFunction::Log),
{
    reveal_strlit("abs");
    reveal_strlit("corr");
    reveal_strlit("correlation");
    reveal_strlit("cov");
    reveal_strlit("covariance");
    reveal_strlit("decay_linear");
    reveal_strlit("delay");
    reveal_strlit("delta");
    reveal_strlit("demean");
    reveal_strlit("lag");
    reveal_strlit("ln");
    reveal_strlit("log_returns");
    reveal_strlit("logret");
    reveal_strlit("logreturns");
    reveal_strlit("rank");
    reveal_strlit("ret");
    reveal_strlit("return");
    reveal_strlit("returns");
    reveal_strlit("scale");
    reveal_strlit("sign");
    reveal_strlit("signum");
    reveal_strlit("std");
    reveal_strlit("ts_argmax");
    reveal_strlit("ts_argmin");
    reveal_strlit("ts_avg");
    reveal_strlit("ts_decay");
    reveal_strlit("ts_delay");
    reveal_strlit("ts_delta");
    reveal_strlit("ts_max");
    reveal_strlit("ts_mean");
    reveal_strlit("ts_min");
    reveal_strlit("ts_rank");
    reveal_strlit("ts_std");
    reveal_strlit("ts_stddev");
    reveal_strlit("ts_sum");
    reveal_strlit("tsargmax");
    reveal_strlit("tsargmin");
    reveal_strlit("tsmax");
    reveal_strlit("tsmean");
    reveal_strlit("tsmin");
    reveal_strlit("tsrank");
    reveal_strlit("tsstd");
    reveal_strlit("tssum");
    reveal_strlit("vol");
    reveal_strlit("volatility");
    reveal_strlit("z_score");
    reveal_strlit("zscore");
    assert("ln"@.len() != "rank"@.len());
    assert("ln"@ != "rank"@);
    assert("ln"@.len() != "zscore"@.len());
    assert("ln"@ != "zscore"@);
    assert("ln"@.len() != "z_score"@.len());
    assert("ln"@ != "z_score"@);
    assert("ln"@.len() != "scale"@.len());
    assert("ln"@ != "scale"@);
    assert("ln"@.len() != "demean"@.len());
    assert("ln"@ != "demean"@);
    assert("ln"@.len() != "ts_rank"@.len());
    assert("ln"@ != "ts_rank"@);
    assert("ln"@.len() != "tsrank"@.len());
    assert("ln"@ != "tsrank"@);
    assert("ln"@.len() != "ts_sum"@.len());
    assert("ln"@ != "ts_sum"@);
    assert("ln"@.len() != "tssum"@.len());
    assert("ln"@ != "tssum"@);
    assert("ln"@.len() != "ts_mean"@.len());
    assert("ln"@ != "ts_mean"@);
    assert("ln"@.len() != "tsmean"@.len());
    assert("ln"@ != "tsmean"@);
    assert("ln"@.len() != "ts_avg"@.len());
    assert("ln"@ != "ts_avg"@);
    assert("ln"@.len() != "ts_std"@.len());
    assert("ln"@ != "ts_std"@);
    assert("ln"@.len() != "tsstd"@.len());
    assert("ln"@ != "tsstd"@);
    assert("ln"@.len() != "ts_stddev"@.len());
    assert("ln"@ != "ts_stddev"@);
    assert("ln"@.len() != "ts_min"@.len());
    assert("ln"@ != "ts_min"@);
    assert("ln"@.len() != "tsmin"@.len());
    assert("ln"@ != "tsmin"@);
    assert("ln"@.len() != "ts_max"@.len());
    assert("ln"@ != "ts_max"@);
    assert("ln"@.len() != "tsmax"@.len());
    assert("ln"@ != "tsmax"@);
    assert("ln"@.len() != "ts_argmax"@.len());
    assert("ln"@ != "ts_argmax"@);
    assert("ln"@.len() != "tsargmax"@.len());
    assert("ln"@ != "tsargmax"@);
    assert("ln"@.len() != "ts_argmin"@.len());
    assert("ln"@ != "ts_argmin"@);
    assert("ln"@.len() != "tsargmin"@.len());
    assert("ln"@ != "tsargmin"@);
    assert("ln"@.len() != "ts_delay"@.len());
    assert("ln"@ != "ts_delay"@);
    assert("ln"@.len() != "delay"@.len());
    assert("ln"@ != "delay"@);
    assert("ln"@.len() != "lag"@.len());
    assert("ln"@ != "lag"@);
    assert("ln"@.len() != "ts_delta"@.len());
    assert("ln"@ != "ts_delta"@);
    assert("ln"@.len() != "delta"@.len());
    assert("ln"@ != "delta"@);
    assert("ln"@.len() != "ts_decay"@.len());
    assert("ln"@ != "ts_decay"@);
    assert("ln"@.len() != "decay_linear"@.len());
    assert("ln"@ != "decay_linear"@);
    assert("ln"@.len() != "returns"@.len());
    assert("ln"@ != "returns"@);
    assert("ln"@.len() != "return"@.len());
    assert("ln"@ != "return"@);
    assert("ln"@.len() != "ret"@.len());
    assert("ln"@ != "ret"@);
    assert("ln"@.len() != "log_returns"@.len());
    assert("ln"@ != "log_returns"@);
    assert("ln"@.len() != "logreturns"@.len());
    assert("ln"@ != "logreturns"@);
    assert("ln"@.len() != "logret"@.len());
    assert("ln"@ != "logret"@);
    assert("ln"@.len() != "volatility"@.len());
    assert("ln"@ != "volatility"@);
    assert("ln"@.len() != "vol"@.len());
    assert("ln"@ != "vol"@);
    assert("ln"@.len() != "std"@.len());
    assert("ln"@ != "std"@);
    assert("ln"@.len() != "correlation"@.len());
    assert("ln"@ != "correlation"@);
    assert("ln"@.len() != "corr"@.len());
    assert("ln"@ != "corr"@);
    assert("ln"@.len() != "covariance"@.len());
    assert("ln"@ != "covariance"@);
    assert("ln"@.len() != "cov"@.len());
    assert("ln"@ != "cov"@);
    assert("ln"@.len() != "abs"@.len());
    assert("ln"@ != "abs"@);
    assert("ln"@.len() != "sign"@.len());
    assert("ln"@ != "sign"@);
    assert("ln"@.len() != "signum"@.len());
    assert("ln"@ != "signum"@);
}

proof fn lemma_alias_sqrt()
    ensures
        function_named("sqrt"@) == Some(FactorFunction::Sqrt),
{
    reveal_strlit("abs");
    reveal_strlit("corr");
    reveal_strlit("correlation");
    reveal_strlit("cov");
    reveal_strlit("covariance");
    reveal_strlit("decay_linear");
    reveal_strlit("delay");
    reveal_strlit("delta");
    reveal_strlit("demean");
    reveal_strlit("lag");
    reveal_strlit("ln");
    reveal_strlit("log");
    reveal_strlit("log_returns");
    reveal_strlit("logret");
    reveal_strlit("logreturns");
    reveal_strlit("rank");
    reveal_strlit("ret");
    reveal_strlit("return");
    reveal_strlit("returns");
    reveal_strlit("scale");
    reveal_strlit("sign");
    reveal_strlit("signum");
    reveal_strlit("sqrt");
    reveal_strlit("std");
    reveal_strlit("ts_argmax");
    reveal_strlit("ts_argmin");
    reveal_strlit("ts_avg");
    reveal_strlit("ts_decay");
    reveal_strlit("ts_delay");
    reveal_strlit("ts_delta");
    reveal_strlit("ts_max");
    reveal_strlit("ts_mean");
    reveal_strlit("ts_min");
    reveal_strlit("ts_rank");
    reveal_strlit("ts_std");
    reveal_strlit("ts_stddev");
    reveal_strlit("ts_sum");
    reveal_strlit("tsargmax");
    reveal_strlit("tsargmin");
    reveal_strlit("tsmax");
    reveal_strlit("tsmean");
    reveal_strlit("tsmin");
    reveal_strlit("tsrank");
    reveal_strlit("tsstd");
    reveal_strlit("tssum");
    reveal_strlit("vol");
    reveal_strlit("volatility");
    reveal_strlit("z_score");
    reveal_strlit("zscore");
    assert("sqrt"@[0] != "rank"@[0]);
    assert("sqrt"@ != "rank"@);
    assert("sqrt"@.len() != "zscore"@.len());
    assert("sqrt"@ != "zscore"@);
    assert("sqrt"@.len() != "z_score"@.len());
    assert("sqrt"@ != "z_score"@);
    assert("sqrt"@.len() != "scale"@.len());
    assert("sqrt"@ != "scale"@);
    assert("sqrt"@.len() != "demean"@.len());
    assert("sqrt"@ != "demean"@);
    assert("sqrt"@.len() != "ts_rank"@.len());
    assert("sqrt"@ != "ts_rank"@);
    assert("sqrt"@.len() != "tsrank"@.len());
    assert("sqrt"@ != "tsrank"@);
    assert("sqrt"@.len() != "ts_sum"@.len());
    assert("sqrt"@ != "ts_sum"@);
    assert("sqrt"@.len() != "tssum"@.len());
    assert("sqrt"@ != "tssum"@);
    assert("sqrt"@.len() != "ts_mean"@.len());
    assert("sqrt"@ != "ts_mean"@);
    assert("sqrt"@.len() != "tsmean"@.len());
    assert("sqrt"@ != "tsmean"@);
    assert("sqrt"@.len() != "ts_avg"@.len());
    assert("sqrt"@ != "ts_avg"@);
    assert("sqrt"@.len() != "ts_std"@.len());
    assert("sqrt"@ != "ts_std"@);
    assert("sqrt"@.len() != "tsstd"@.len());
    assert("sqrt"@ != "tsstd"@);
    assert("sqrt"@.len() != "ts_stddev"@.len());
    assert("sqrt"@ != "ts_stddev"@);
    assert("sqrt"@.len() != "ts_min"@.len());
    assert("sqrt"@ != "ts_min"@);
    assert("sqrt"@.len() != "tsmin"@.len());
    assert("sqrt"@ != "tsmin"@);
    assert("sqrt"@.len() != "ts_max"@.len());
    assert("sqrt"@ != "ts_max"@);
    assert("sqrt"@.len() != "tsmax"@.len());
    assert("sqrt"@ != "tsmax"@);
    assert("sqrt"@.len() != "ts_argmax"@.len());
    assert("sqrt"@ != "ts_argmax"@);
    assert("sqrt"@.len() != "tsargmax"@.len());
    assert("sqrt"@ != "tsargmax"@);
    assert("sqrt"@.len() != "ts_argmin"@.len());
    assert("sqrt"@ != "ts_argmin"@);
    assert("sqrt"@.len() != "tsargmin"@.len());
    assert("sqrt"@ != "tsargmin"@);
    assert("sqrt"@.len() != "ts_delay"@.len());
    assert("sqrt"@ != "ts_delay"@);
    assert("sqrt"@.len() != "delay"@.len());
    assert("sqrt"@ != "delay"@);
    assert("sqrt"@.len() != "lag"@.len());
    assert("sqrt"@ != "lag"@);
    assert("sqrt"@.len() != "ts_delta"@.len());
    assert("sqrt"@ != "ts_delta"@);
    assert("sqrt"@.len() != "delta"@.len());
    assert("sqrt"@ != "delta"@);
    assert("sqrt"@.len() != "ts_decay"@.len());
    assert("sqrt"@ != "ts_decay"@);
    assert("sqrt"@.len() != "decay_linear"@.len());
    assert("sqrt"@ != "decay_linear"@);
    assert("sqrt"@.len() != "returns"@.len());
    assert("sqrt"@ != "returns"@);
    assert("sqrt"@.len() != "return"@.len());
    assert("sqrt"@ != "return"@);
    assert("sqrt"@.len() != "ret"@.len());
    assert("sqrt"@ != "ret"@);
    assert("sqrt"@.len() != "log_returns"@.len());
    assert("sqrt"@ != "log_returns"@);
    assert("sqrt"@.len() != "logreturns"@.len());
    assert("sqrt"@ != "logreturns"@);
    assert("sqrt"@.len() != "logret"@.len());
    assert("sqrt"@ != "logret"@);
    assert("sqrt"@.len() != "volatility"@.len());
    assert("sqrt"@ != "volatility"@);
    assert("sqrt"@.len() != "vol"@.len());
    assert("sqrt"@ != "vol"@);
    assert("sqrt"@.len() != "std"@.len());
    assert("sqrt"@ != "std"@);
    assert("sqrt"@.len() != "correlation"@.len());
    assert("sqrt"@ != "correlation"@);
    assert("sqrt"@[0] != "corr"@[0]);
    assert("sqrt"@ != "corr"@);
    assert("sqrt"@.len() != "covariance"@.len());
    assert("sqrt"@ != "covariance"@);
    assert("sqrt"@.len() != "cov"@.len());
    assert("sqrt"@ != "cov"@);
    assert("sqrt"@.len() != "abs"@.len());
    assert("sqrt"@ != "abs"@);
    assert("sqrt"@[1] != "sign"@[1]);
    assert("sqrt"@ != "sign"@);
    assert("sqrt"@.len() != "signum"@.len());
    assert("sqrt"@ != "signum"@);
    assert("sqrt"@.len() != "log"@.len());
    assert("sqrt"@ != "log"@);
    assert("sqrt"@.len() != "ln"@.len());
    assert("sqrt"@ != "ln"@);
}

proof fn lemma_alias_power()
    ensures
        function_named("power"@) == Some(FactorFunction::Power),
{
    reveal_strlit("abs");
    reveal_strlit("corr");
    reveal_strlit("correlation");
    reveal_strlit("cov");
    reveal_strlit("covariance");
    reveal_strlit("decay_linear");
    reveal_strlit("delay");
    reveal_strlit("delta");
    reveal_strlit("demean");
    reveal_strlit("lag");
    reveal_strlit("ln");
    reveal_strlit("log");
    reveal_strlit("log_returns");
    reveal_strlit("logret");
    reveal_strlit("logreturns");
    reveal_strlit("power");
    reveal_strlit("rank");
    reveal_strlit("ret");
    reveal_strlit("return");
    reveal_strlit("returns");
    reveal_strlit("scale");
    reveal_strlit("sign");
    reveal_strlit("signum");
    reveal_strlit("sqrt");
    reveal_strlit("std");
    reveal_strlit("ts_argmax");
    reveal_strlit("ts_argmin");
    reveal_strlit("ts_avg");
    reveal_strlit("ts_decay");
    reveal_strlit("ts_delay");
    reveal_strlit("ts_delta");
    reveal_strlit("ts_max");
    reveal_strlit("ts_mean");
    reveal_strlit("ts_min");
    reveal_strlit("ts_rank");
    reveal_strlit("ts_std");
    reveal_strlit("ts_stddev");
    reveal_strlit("ts_sum");
    reveal_strlit("tsargmax");
    reveal_strlit("tsargmin");
    reveal_strlit("tsmax");
    reveal_strlit("tsmean");
    reveal_strlit("tsmin");
    reveal_strlit("tsrank");
    reveal_strlit("tsstd");
    reveal_strlit("tssum");
    reveal_strlit("vol");
    reveal_strlit("volatility");
    reveal_strlit("z_score");
    reveal_strlit("zscore");
    assert("power"@.len() != "rank"@.len());
    assert("power"@ != "rank"@);
    assert("power"@.len() != "zscore"@.len());
    assert("power"@ != "zscore"@);
    assert("power"@.len() != "z_score"@.len());
    assert("power"@ != "z_score"@);
    assert("power"@[0] != "scale"@[0]);
    assert("power"@ != "scale"@);
    assert("power"@.len() != "demean"@.len());
    assert("power"@ != "demean"@);
    assert("power"@.len() != "ts_rank"@.len());
    assert("power"@ != "ts_rank"@);
    assert("power"@.len() != "tsrank"@.len());
    assert("power"@ != "tsrank"@);
    assert("power"@.len() != "ts_sum"@.len());
    assert("power"@ != "ts_sum"@);
    assert("power"@[0] != "tssum"@[0]);
    assert("power"@ != "tssum"@);
    assert("power"@.len() != "ts_mean"@.len());
    assert("power"@ != "ts_mean"@);
    assert("power"@.len() != "tsmean"@.len());
    assert("power"@ != "tsmean"@);
    assert("power"@.len() != "ts_avg"@.len());
    assert("power"@ != "ts_avg"@);
    assert("power"@.len() != "ts_std"@.len());
    assert("power"@ != "ts_std"@);
    assert("power"@[0] != "tsstd"@[0]);
    assert("power"@ != "tsstd"@);
    assert("power"@.len() != "ts_stddev"@.len());
    assert("power"@ != "ts_stddev"@);
    assert("power"@.len() != "ts_min"@.len());
    assert("power"@ != "ts_min"@);
    assert("power"@[0] != "tsmin"@[0]);
    assert("power"@ != "tsmin"@);
    assert("power"@.len() != "ts_max"@.len());
    assert("power"@ != "ts_max"@);
    assert("power"@[0] != "tsmax"@[0]);
    assert("power"@ != "tsmax"@);
    assert("power"@.len() != "ts_argmax"@.len());
    assert("power"@ != "ts_argmax"@);
    assert("power"@.len() != "tsargmax"@.len());
    assert("power"@ != "tsargmax"@);
    assert("power"@.len() != "ts_argmin"@.len());
    assert("power"@ != "ts_argmin"@);
    assert("power"@.len() != "tsargmin"@.len());
    assert("power"@ != "tsargmin"@);
    assert("power"@.len() != "ts_delay"@.len());
    assert("power"@ != "ts_delay"@);
    assert("power"@[0] != "delay"@[0]);
    assert("power"@ != "delay"@);
    assert("power"@.len() != "lag"@.len());
    assert("power"@ != "lag"@);
    assert("power"@.len() != "ts_delta"@.len());
    assert("power"@ != "ts_delta"@);
    assert("power"@[0] != "delta"@[0]);
    assert("power"@ != "delta"@);
    assert("power"@.len() != "ts_decay"@.len());
    assert("power"@ != "ts_decay"@);
    assert("power"@.len() != "decay_linear"@.len());
    assert("power"@ != "decay_linear"@);
    assert("power"@.len() != "returns"@.len());
    assert("power"@ != "returns"@);
    assert("power"@.len() != "return"@.len());
    assert("power"@ != "return"@);
    assert("power"@.len() != "ret"@.len());
    assert("power"@ != "ret"@);
    assert("power"@.len() != "log_returns"@.len());
    assert("power"@ != "log_returns"@);
    assert("power"@.len() != "logreturns"@.len());
    assert("power"@ != "logreturns"@);
    assert("power"@.len() != "logret"@.len());
    assert("power"@ != "logret"@);
    assert("power"@.len() != "volatility"@.len());
    assert("power"@ != "volatility"@);
    assert("power"@.len() != "vol"@.len());
    assert("power"@ != "vol"@);
    assert("power"@.len() != "std"@.len());
    assert("power"@ != "std"@);
    assert("power"@.len() != "correlation"@.len());
    assert("power"@ != "correlation"@);
    assert("power"@.len() != "corr"@.len());
    assert("power"@ != "corr"@);
    assert("power"@.len() != "covariance"@.len());
    assert("power"@ != "covariance"@);
    assert("power"@.len() != "cov"@.len());
    assert("power"@ != "cov"@);
    assert("power"@.len() != "abs"@.len());
    assert("power"@ != "abs"@);
    assert("power"@.len() != "sign"@.len());
    assert("power"@ != "sign"@);
    assert("power"@.len() != "signum"@.len());
    assert("power"@ != "signum"@);
    assert("power"@.len() != "log"@.len());
    assert("power"@ != "log"@);
    assert("power"@.len() != "ln"@.len());
    assert("power"@ != "ln"@);
    assert("power"@.len() != "sqrt"@.len());
    assert("power"@ != "sqrt"@);
}

proof fn lemma_alias_pow()
    ensures
        function_named("pow"@) == Some(FactorFunction::Power),
{
    reveal_strlit("abs");
    reveal_strlit("corr");
    reveal_strlit("correlation");
    reveal_strlit("cov");
    reveal_strlit("covariance");
    reveal_strlit("decay_linear");
    reveal_strlit("delay");
    reveal_strlit("delta");
    reveal_strlit("demean");
    reveal_strlit("lag");
    reveal_strlit("ln");
    reveal_strlit("log");
    reveal_strlit("log_returns");
    reveal_strlit("logret");
    reveal_strlit("logreturns");
    reveal_strlit("pow");
    reveal_strlit("rank");
    reveal_strlit("ret");
    reveal_strlit("return");
    reveal_strlit("returns");
    reveal_strlit("scale");
    reveal_strlit("sign");
    reveal_strlit("signum");
    reveal_strlit("sqrt");
    reveal_strlit("std");
    reveal_strlit("ts_argmax");
    reveal_strlit("ts_argmin");
    reveal_strlit("ts_avg");
    reveal_strlit("ts_decay");
    reveal_strlit("ts_delay");
    reveal_strlit("ts_delta");
    reveal_strlit("ts_max");
    reveal_strlit("ts_mean");
    reveal_strlit("ts_min");
    reveal_strlit("ts_rank");
    reveal_strlit("ts_std");
    reveal_strlit("ts_stddev");
    reveal_strlit("ts_sum");
    reveal_strlit("tsargmax");
    reveal_strlit("tsargmin");
    reveal_strlit("tsmax");
    reveal_strlit("tsmean");
    reveal_strlit("tsmin");
    reveal_strlit("tsrank");
    reveal_strlit("tsstd");
    reveal_strlit("tssum");
    reveal_strlit("vol");
    reveal_strlit("volatility");
    reveal_strlit("z_score");
    reveal_strlit("zscore");
    assert("pow"@.len() != "rank"@.len());
    assert("pow"@ != "rank"@);
    assert("pow"@.len() != "zscore"@.len());
    assert("pow"@ != "zscore"@);
    assert("pow"@.len() != "z_score"@.len());
    assert("pow"@ != "z_score"@);
    assert("pow"@.len() != "scale"@.len());
    assert("pow"@ != "scale"@);
    assert("pow"@.len() != "demean"@.len());
    assert("pow"@ != "demean"@);
    assert("pow"@.len() != "ts_rank"@.len());
    assert("pow"@ != "ts_rank"@);
    assert("pow"@.len() != "tsrank"@.len());
    assert("pow"@ != "tsrank"@);
    assert("pow"@.len() != "ts_sum"@.len());
    assert("pow"@ != "ts_sum"@);
    assert("pow"@.len() != "tssum"@.len());
    assert("pow"@ != "tssum"@);
    assert("pow"@.len() != "ts_mean"@.len());
    assert("pow"@ != "ts_mean"@);
    assert("pow"@.len() != "tsmean"@.len());
    assert("pow"@ != "tsmean"@);
    assert("pow"@.len() != "ts_avg"@.len());
    assert("pow"@ != "ts_avg"@);
    assert("pow"@.len() != "ts_std"@.len());
    assert("pow"@ != "ts_std"@);
    assert("pow"@.len() != "tsstd"@.len());
    assert("pow"@ != "tsstd"@);
    assert("pow"@.len() != "ts_stddev"@.len());
    assert("pow"@ != "ts_stddev"@);
    assert("pow"@.len() != "ts_min"@.len());
    assert("pow"@ != "ts_min"@);
    assert("pow"@.len() != "tsmin"@.len());
    assert("pow"@ != "tsmin"@);
    assert("pow"@.len() != "ts_max"@.len());
    assert("pow"@ != "ts_max"@);
    assert("pow"@.len() != "tsmax"@.len());
    assert("pow"@ != "tsmax"@);
    assert("pow"@.len() != "ts_argmax"@.len());
    assert("pow"@ != "ts_argmax"@);
    assert("pow"@.len() != "tsargmax"@.len());
    assert("pow"@ != "tsargmax"@);
    assert("pow"@.len() != "ts_argmin"@.len());
    assert("pow"@ != "ts_argmin"@);
    assert("pow"@.len() != "tsargmin"@.len());
    assert("pow"@ != "tsargmin"@);
    assert("pow"@.len() != "ts_delay"@.len());
    assert("pow"@ != "ts_delay"@);
    assert("pow"@.len() != "delay"@.len());
    assert("pow"@ != "delay"@);
    assert("pow"@[0] != "lag"@[0]);
    assert("pow"@ != "lag"@);
    assert("pow"@.len() != "ts_delta"@.len());
    assert("pow"@ != "ts_delta"@);
    assert("pow"@.len() != "delta"@.len());
    assert("pow"@ != "delta"@);
    assert("pow"@.len() != "ts_decay"@.len());
    assert("pow"@ != "ts_decay"@);
    assert("pow"@.len() != "decay_linear"@.len());
    assert("pow"@ != "decay_linear"@);
    assert("pow"@.len() != "returns"@.len());
    assert("pow"@ != "returns"@);
    assert("pow"@.len() != "return"@.len());
    assert("pow"@ != "return"@);
    assert("pow"@[0] != "ret"@[0]);
    assert("pow"@ != "ret"@);
    assert("pow"@.len() != "log_returns"@.len());
    assert("pow"@ != "log_returns"@);
    assert("pow"@.len() != "logreturns"@.len());
    assert("pow"@ != "logreturns"@);
    assert("pow"@.len() != "logret"@.len());
    assert("pow"@ != "logret"@);
    assert("pow"@.len() != "volatility"@.len());
    assert("pow"@ != "volatility"@);
    assert("pow"@[0] != "vol"@[0]);
    assert("pow"@ != "vol"@);
    assert("pow"@[0] != "std"@[0]);
    assert("pow"@ != "std"@);
    assert("pow"@.len() != "correlation"@.len());
    assert("pow"@ != "correlation"@);
    assert("pow"@.len() != "corr"@.len());
    assert("pow"@ != "corr"@);
    assert("pow"@.len() != "covariance"@.len());
    assert("pow"@ != "covariance"@);
    assert("pow"@[0] != "cov"@[0]);
    assert("pow"@ != "cov"@);
    assert("pow"@[0] != "abs"@[0]);
    assert("pow"@ != "abs"@);
    assert("pow"@.len() != "sign"@.len());
    assert("pow"@ != "sign"@);
    assert("pow"@.len() != "signum"@.len());
    assert("pow"@ != "signum"@);
    assert("pow"@[0] != "log"@[0]);
    assert("pow"@ != "log"@);
    assert("pow"@.len() != "ln"@.len());
    assert("pow"@ != "ln"@);
    assert("pow"@.len() != "sqrt"@.len());
    assert("pow"@ != "sqrt"@);
}

proof fn lemma_alias_max()
    ensures
        function_named("max"@) == Some(FactorFunction::Max),
{
    reveal_strlit("abs");
    reveal_strlit("corr");
    reveal_strlit("correlation");
    reveal_strlit("cov");
    reveal_strlit("covariance");
    reveal_strlit("decay_linear");
    reveal_strlit("delay");
    reveal_strlit("delta");
    reveal_strlit("demean");
    reveal_strlit("lag");
    reveal_strlit("ln");
    reveal_strlit("log");
    reveal_strlit("log_returns");
    reveal_strlit("logret");
    reveal_strlit("logreturns");
    reveal_strlit("max");
    reveal_strlit("pow");
    reveal_strlit("power");
    reveal_strlit("rank");
    reveal_strlit("ret");
    reveal_strlit("return");
    reveal_strlit("returns");
    reveal_strlit("scale");
    reveal_strlit("sign");
    reveal_strlit("signum");
    reveal_strlit("sqrt");
    reveal_strlit("std");
    reveal_strlit("ts_argmax");
    reveal_strlit("ts_argmin");
    reveal_strlit("ts_avg");
    reveal_strlit("ts_decay");
    reveal_strlit("ts_delay");
    reveal_strlit("ts_delta");
    reveal_strlit("ts_max");
    reveal_strlit("ts_mean");
    reveal_strlit("ts_min");
    reveal_strlit("ts_rank");
    reveal_strlit("ts_std");
    reveal_strlit("ts_stddev");
    reveal_strlit("ts_sum");
    reveal_strlit("tsargmax");
    reveal_strlit("tsargmin");
    reveal_strlit("tsmax");
    reveal_strlit("tsmean");
    reveal_strlit("tsmin");
    reveal_strlit("tsrank");
    reveal_strlit("tsstd");
    reveal_strlit("tssum");
    reveal_strlit("vol");
    reveal_strlit("volatility");
    reveal_strlit("z_score");
    reveal_strlit("zscore");
    assert("max"@.len() != "rank"@.len());
    assert("max"@ != "rank"@);
    assert("max"@.len() != "zscore"@.len());
    assert("max"@ != "zscore"@);
    assert("max"@.len() != "z_score"@.len());
    assert("max"@ != "z_score"@);
    assert("max"@.len() != "scale"@.len());
    assert("max"@ != "scale"@);
    assert("max"@.len() != "demean"@.len());
    assert("max"@ != "demean"@);
    assert("max"@.len() != "ts_rank"@.len());
    assert("max"@ != "ts_rank"@);
    assert("max"@.len() != "tsrank"@.len());
    assert("max"@ != "tsrank"@);
    assert("max"@.len() != "ts_sum"@.len());
    assert("max"@ != "ts_sum"@);
    assert("max"@.len() != "tssum"@.len());
    assert("max"@ != "tssum"@);
    assert("max"@.len() != "ts_mean"@.len());
    assert("max"@ != "ts_mean"@);
    assert("max"@.len() != "tsmean"@.len());
    assert("max"@ != "tsmean"@);
    assert("max"@.len() != "ts_avg"@.len());
    assert("max"@ != "ts_avg"@);
    assert("max"@.len() != "ts_std"@.len());
    assert("max"@ != "ts_std"@);
    assert("max"@.len() != "tsstd"@.len());
    assert("max"@ != "tsstd"@);
    assert("max"@.len() != "ts_stddev"@.len());
    assert("max"@ != "ts_stddev"@);
    assert("max"@.len() != "ts_min"@.len());
    assert("max"@ != "ts_min"@);
    assert("max"@.len() != "tsmin"@.len());
    assert("max"@ != "tsmin"@);
    assert("max"@.len() != "ts_max"@.len());
    assert("max"@ != "ts_max"@);
    assert("max"@.len() != "tsmax"@.len());
    assert("max"@ != "tsmax"@);
    assert("max"@.len() != "ts_argmax"@.len());
    assert("max"@ != "ts_argmax"@);
    assert("max"@.len() != "tsargmax"@.len());
    assert("max"@ != "tsargmax"@);
    assert("max"@.len() != "ts_argmin"@.len());
    assert("max"@ != "ts_argmin"@);
    assert("max"@.len() != "tsargmin"@.len());
    assert("max"@ != "tsargmin"@);
    assert("max"@.len() != "ts_delay"@.len());
    assert("max"@ != "ts_delay"@);
    assert("max"@.len() != "delay"@.len());
    assert("max"@ != "delay"@);
    assert("max"@[0] != "lag"@[0]);
    assert("max"@ != "lag"@);
    assert("max"@.len() != "ts_delta"@.len());
    assert("max"@ != "ts_delta"@);
    assert("max"@.len() != "delta"@.len());
    assert("max"@ != "delta"@);
    assert("max"@.len() != "ts_decay"@.len());
    assert("max"@ != "ts_decay"@);
    assert("max"@.len() != "decay_linear"@.len());
    assert("max"@ != "decay_linear"@);
    assert("max"@.len() != "returns"@.len());
    assert("max"@ != "returns"@);
    assert("max"@.len() != "return"@.len());
    assert("max"@ != "return"@);
    assert("max"@[0] != "ret"@[0]);
    assert("max"@ != "ret"@);
    assert("max"@.len() != "log_returns"@.len());
    assert("max"@ != "log_returns"@);
    assert("max"@.len() != "logreturns"@.len());
    assert("max"@ != "logreturns"@);
    assert("max"@.len() != "logret"@.len());
    assert("max"@ != "logret"@);
    assert("max"@.len() != "volatility"@.len());
    assert("max"@ != "volatility"@);
    assert("max"@[0] != "vol"@[0]);
    assert("max"@ != "vol"@);
    assert("max"@[0] != "std"@[0]);
    assert("max"@ != "std"@);
    assert("max"@.len() != "correlation"@.len());
    assert("max"@ != "correlation"@);
    assert("max"@.len() != "corr"@.len());
    assert("max"@ != "corr"@);
    assert("max"@.len() != "covariance"@.len());
    assert("max"@ != "covariance"@);
    assert("max"@[0] != "cov"@[0]);
    assert("max"@ != "cov"@);
    assert("max"@[0] != "abs"@[0]);
    assert("max"@ != "abs"@);
    assert("max"@.len() != "sign"@.len());
    assert("max"@ != "sign"@);
    assert("max"@.len() != "signum"@.len());
    assert("max"@ != "signum"@);
    assert("max"@[0] != "log"@[0]);
    assert("max"@ != "log"@);
    assert("max"@.len() != "ln"@.len());
    assert("max"@ != "ln"@);
    assert("max"@.len() != "sqrt"@.len());
    assert("max"@ != "sqrt"@);
    assert("max"@.len() != "power"@.len());
    assert("max"@ != "power"@);
    assert("max"@[0] != "pow"@[0]);
    assert("max"@ != "pow"@);
}

proof fn lemma_alias_min()
    ensures
        function_named("min"@) == Some(FactorFunction::Min),
{
    reveal_strlit("abs");
    reveal_strlit("corr");
    reveal_strlit("correlation");
    reveal_strlit("cov");
    reveal_strlit("covariance");
    reveal_strlit("decay_linear");
    reveal_strlit("delay");
    reveal_strlit("delta");
    reveal_strlit("demean");
    reveal_strlit("lag");
    reveal_strlit("ln");
    reveal_strlit("log");
    reveal_strlit("log_returns");
    reveal_strlit("logret");
    reveal_strlit("logreturns");
    reveal_strlit("max");
    reveal_strlit("min");
    reveal_strlit("pow");
    reveal_strlit("power");
    reveal_strlit("rank");
    reveal_strlit("ret");
    reveal_strlit("return");
    reveal_strlit("returns");
    reveal_strlit("scale");
    reveal_strlit("sign");
    reveal_strlit("signum");
    reveal_strlit("sqrt");
    reveal_strlit("std");
    reveal_strlit("ts_argmax");
    reveal_strlit("ts_argmin");
    reveal_strlit("ts_avg");
    reveal_strlit("ts_decay");
    reveal_strlit("ts_delay");
    reveal_strlit("ts_delta");
    reveal_strlit("ts_max");
    reveal_strlit("ts_mean");
    reveal_strlit("ts_min");
    reveal_strlit("ts_rank");
    reveal_strlit("ts_std");
    reveal_strlit("ts_stddev");
    reveal_strlit("ts_sum");
    reveal_strlit("tsargmax");
    reveal_strlit("tsargmin");
    reveal_strlit("tsmax");
    reveal_strlit("tsmean");
    reveal_strlit("tsmin");
    reveal_strlit("tsrank");
    reveal_strlit("tsstd");
    reveal_strlit("tssum");
    reveal_strlit("vol");
    reveal_strlit("volatility");
    reveal_strlit("z_score");
    reveal_strlit("zscore");
    assert("min"@.len() != "rank"@.len());
    assert("min"@ != "rank"@);
    assert("min"@.len() != "zscore"@.len());
    assert("min"@ != "zscore"@);
    assert("min"@.len() != "z_score"@.len());
    assert("min"@ != "z_score"@);
    assert("min"@.len() != "scale"@.len());
    assert("min"@ != "scale"@);
    assert("min"@.len() != "demean"@.len());
    assert("min"@ != "demean"@);
    assert("min"@.len() != "ts_rank"@.len());
    assert("min"@ != "ts_rank"@);
    assert("min"@.len() != "tsrank"@.len());
    assert("min"@ != "tsrank"@);
    assert("min"@.len() != "ts_sum"@.len());
    assert("min"@ != "ts_sum"@);
    assert("min"@.len() != "tssum"@.len());
    assert("min"@ != "tssum"@);
    assert("min"@.len() != "ts_mean"@.len());
    assert("min"@ != "ts_mean"@);
    assert("min"@.len() != "tsmean"@.len());
    assert("min"@ != "tsmean"@);
    assert("min"@.len() != "ts_avg"@.len());
    assert("min"@ != "ts_avg"@);
    assert("min"@.len() != "ts_std"@.len());
    assert("min"@ != "ts_std"@);
    assert("min"@.len() != "tsstd"@.len());
    assert("min"@ != "tsstd"@);
    assert("min"@.len() != "ts_stddev"@.len());
    assert("min"@ != "ts_stddev"@);
    assert("min"@.len() != "ts_min"@.len());
    assert("min"@ != "ts_min"@);
    assert("min"@.len() != "tsmin"@.len());
    assert("min"@ != "tsmin"@);
    assert("min"@.len() != "ts_max"@.len());
    assert("min"@ != "ts_max"@);
    assert("min"@.len() != "tsmax"@.len());
    assert("min"@ != "tsmax"@);
    assert("min"@.len() != "ts_argmax"@.len());
    assert("min"@ != "ts_argmax"@);
    assert("min"@.len() != "tsargmax"@.len());
    assert("min"@ != "tsargmax"@);
    assert("min"@.len() != "ts_argmin"@.len());
    assert("min"@ != "ts_argmin"@);
    assert("min"@.len() != "tsargmin"@.len());
    assert("min"@ != "tsargmin"@);
    assert("min"@.len() != "ts_delay"@.len());
    assert("min"@ != "ts_delay"@);
    assert("min"@.len() != "delay"@.len());
    assert("min"@ != "delay"@);
    assert("min"@[0] != "lag"@[0]);
    assert("min"@ != "lag"@);
    assert("min"@.len() != "ts_delta"@.len());
    assert("min"@ != "ts_delta"@);
    assert("min"@.len() != "delta"@.len());
    assert("min"@ != "delta"@);
    assert("min"@.len() != "ts_decay"@.len());
    assert("min"@ != "ts_decay"@);
    assert("min"@.len() != "decay_linear"@.len());
    assert("min"@ != "decay_linear"@);
    assert("min"@.len() != "returns"@.len());
    assert("min"@ != "returns"@);
    assert("min"@.len() != "return"@.len());
    assert("min"@ != "return"@);
    assert("min"@[0] != "ret"@[0]);
    assert("min"@ != "ret"@);
    assert("min"@.len() != "log_returns"@.len());
    assert("min"@ != "log_returns"@);
    assert("min"@.len() != "logreturns"@.len());
    assert("min"@ != "logreturns"@);
    assert("min"@.len() != "logret"@.len());
    assert("min"@ != "logret"@);
    assert("min"@.len() != "volatility"@.len());
    assert("min"@ != "volatility"@);
    assert("min"@[0] != "vol"@[0]);
    assert("min"@ != "vol"@);
    assert("min"@[0] != "std"@[0]);
    assert("min"@ != "std"@);
    assert("min"@.len() != "correlation"@.len());
    assert("min"@ != "correlation"@);
    assert("min"@.len() != "corr"@.len());
    assert("min"@ != "corr"@);
    assert("min"@.len() != "covariance"@.len());
    assert("min"@ != "covariance"@);
    assert("min"@[0] != "cov"@[0]);
    assert("min"@ != "cov"@);
    assert("min"@[0] != "abs"@[0]);
    assert("min"@ != "abs"@);
    assert("min"@.len() != "sign"@.len());
    assert("min"@ != "sign"@);
    assert("min"@.len() != "signum"@.len());
    assert("min"@ != "signum"@);
    assert("min"@[0] != "log"@[0]);
    assert("min"@ != "log"@);
    assert("min"@.len() != "ln"@.len());
    assert("min"@ != "ln"@);
    assert("min"@.len() != "sqrt"@.len());
    assert("min"@ != "sqrt"@);
    assert("min"@.len() != "power"@.len());
    assert("min"@ != "power"@);
    assert("min"@[0] != "pow"@[0]);
    assert("min"@ != "pow"@);
    assert("min"@[1] != "max"@[1]);
    assert("min"@ != "max"@);
}

proof fn lemma_alias_add()
    ensures
        function_named("add"@) == Some(FactorFunction::Add),
{
    reveal_strlit("abs");
    reveal_strlit("add");
    reveal_strlit("corr");
    reveal_strlit("correlation");
    reveal_strlit("cov");
    reveal_strlit("covariance");
    reveal_strlit("decay_linear");
    reveal_strlit("delay");
    reveal_strlit("delta");
    reveal_strlit("demean");
    reveal_strlit("lag");
    reveal_strlit("ln");
    reveal_strlit("log");
    reveal_strlit("log_returns");
    reveal_strlit("logret");
    reveal_strlit("logreturns");
    reveal_strlit("max");
    reveal_strlit("min");
    reveal_strlit("pow");
    reveal_strlit("power");
    reveal_strlit("rank");
    reveal_strlit("ret");
    reveal_strlit("return");
    reveal_strlit("returns");
    reveal_strlit("scale");
    reveal_strlit("sign");
    reveal_strlit("signum");
    reveal_strlit("sqrt");
    reveal_strlit("std");
    reveal_strlit("ts_argmax");
    reveal_strlit("ts_argmin");
    reveal_strlit("ts_avg");
    reveal_strlit("ts_decay");
    reveal_strlit("ts_delay");
    reveal_strlit("ts_delta");
    reveal_strlit("ts_max");
    reveal_strlit("ts_mean");
    reveal_strlit("ts_min");
    reveal_strlit("ts_rank");
    reveal_strlit("ts_std");
    reveal_strlit("ts_stddev");
    reveal_strlit("ts_sum");
    reveal_strlit("tsargmax");
    reveal_strlit("tsargmin");
    reveal_strlit("tsmax");
    reveal_strlit("tsmean");
    reveal_strlit("tsmin");
    reveal_strlit("tsrank");
    reveal_strlit("tsstd");
    reveal_strlit("tssum");
    reveal_strlit("vol");
    reveal_strlit("volatility");
    reveal_strlit("z_score");
    reveal_strlit("zscore");
    assert("add"@.len() != "rank"@.len());
    assert("add"@ != "rank"@);
    assert("add"@.len() != "zscore"@.len());
    assert("add"@ != "zscore"@);
    assert("add"@.len() != "z_score"@.len());
    assert("add"@ != "z_score"@);
    assert("add"@.len() != "scale"@.len());
    assert("add"@ != "scale"@);
    assert("add"@.len() != "demean"@.len());
    assert("add"@ != "demean"@);
    assert("add"@.len() != "ts_rank"@.len());
    assert("add"@ != "ts_rank"@);
    assert("add"@.len() != "tsrank"@.len());
    assert("add"@ != "tsrank"@);
    assert("add"@.len() != "ts_sum"@.len());
    assert("add"@ != "ts_sum"@);
    assert("add"@.len() != "tssum"@.len());
    assert("add"@ != "tssum"@);
    assert("add"@.len() != "ts_mean"@.len());
    assert("add"@ != "ts_mean"@);
    assert("add"@.len() != "tsmean"@.len());
    assert("add"@ != "tsmean"@);
    assert("add"@.len() != "ts_avg"@.len());
    assert("add"@ != "ts_avg"@);
    assert("add"@.len() != "ts_std"@.len());
    assert("add"@ != "ts_std"@);
    assert("add"@.len() != "tsstd"@.len());
    assert("add"@ != "tsstd"@);
    assert("add"@.len() != "ts_stddev"@.len());
    assert("add"@ != "ts_stddev"@);
    assert("add"@.len() != "ts_min"@.len());
    assert("add"@ != "ts_min"@);
    assert("add"@.len() != "tsmin"@.len());
    assert("add"@ != "tsmin"@);
    assert("add"@.len() != "ts_max"@.len());
    assert("add"@ != "ts_max"@);
    assert("add"@.len() != "tsmax"@.len());
    assert("add"@ != "tsmax"@);
    assert("add"@.len() != "ts_argmax"@.len());
    assert("add"@ != "ts_argmax"@);
    assert("add"@.len() != "tsargmax"@.len());
    assert("add"@ != "tsargmax"@);
    assert("add"@.len() != "ts_argmin"@.len());
    assert("add"@ != "ts_argmin"@);
    assert("add"@.len() != "tsargmin"@.len());
    assert("add"@ != "tsargmin"@);
    assert("add"@.len() != "ts_delay"@.len());
    assert("add"@ != "ts_delay"@);
    assert("add"@.len() != "delay"@.len());
    assert("add"@ != "delay"@);
    assert("add"@[0] != "lag"@[0]);
    assert("add"@ != "lag"@);
    assert("add"@.len() != "ts_delta"@.len());
    assert("add"@ != "ts_delta"@);
    assert("add"@.len() != "delta"@.len());
    assert("add"@ != "delta"@);
    assert("add"@.len() != "ts_decay"@.len());
    assert("add"@ != "ts_decay"@);
    assert("add"@.len() != "decay_linear"@.len());
    assert("add"@ != "decay_linear"@);
    assert("add"@.len() != "returns"@.len());
    assert("add"@ != "returns"@);
    assert("add"@.len() != "return"@.len());
    assert("add"@ != "return"@);
    assert("add"@[0] != "ret"@[0]);
    assert("add"@ != "ret"@);
    assert("add"@.len() != "log_returns"@.len());
    assert("add"@ != "log_returns"@);
    assert("add"@.len() != "logreturns"@.len());
    assert("add"@ != "logreturns"@);
    assert("add"@.len() != "logret"@.len());
    assert("add"@ != "logret"@);
    assert("add"@.len() != "volatility"@.len());
    assert("add"@ != "volatility"@);
    assert("add"@[0] != "vol"@[0]);
    assert("add"@ != "vol"@);
    assert("add"@[0] != "std"@[0]);
    assert("add"@ != "std"@);
    assert("add"@.len() != "correlation"@.len());
    assert("add"@ != "correlation"@);
    assert("add"@.len() != "corr"@.len());
    assert("add"@ != "corr"@);
    assert("add"@.len() != "covariance"@.len());
    assert("add"@ != "covariance"@);
    assert("add"@[0] != "cov"@[0]);
    assert("add"@ != "cov"@);
    assert("add"@[1] != "abs"@[1]);
    assert("add"@ != "abs"@);
    assert("add"@.len() != "sign"@.len());
    assert("add"@ != "sign"@);
    assert("add"@.len() != "signum"@.len());
    assert("add"@ != "signum"@);
    assert("add"@[0] != "log"@[0]);
    assert("add"@ != "log"@);
    assert("add"@.len() != "ln"@.len());
    assert("add"@ != "ln"@);
    assert("add"@.len() != "sqrt"@.len());
    assert("add"@ != "sqrt"@);
    assert("add"@.len() != "power"@.len());
    assert("add"@ != "power"@);
    assert("add"@[0] != "pow"@[0]);
    assert("add"@ != "pow"@);
    assert("add"@[0] != "max"@[0]);
    assert("add"@ != "max"@);
    assert("add"@[0] != "min"@[0]);
    assert("add"@ != "min"@);
}

proof fn lemma_alias_sub()
    ensures
        function_named("sub"@) == Some(FactorFunction::Sub),
{
    reveal_strlit("abs");
    reveal_strlit("add");
    reveal_strlit("corr");
    reveal_strlit("correlation");
    reveal_strlit("cov");
    reveal_strlit("covariance");
    reveal_strlit("decay_linear");
    reveal_strlit("delay");
    reveal_strlit("delta");
    reveal_strlit("demean");
    reveal_strlit("lag");
    reveal_strlit("ln");
    reveal_strlit("log");
    reveal_strlit("log_returns");
    reveal_strlit("logret");
    reveal_strlit("logreturns");
    reveal_strlit("max");
    reveal_strlit("min");
    reveal_strlit("pow");
    reveal_strlit("power");
    reveal_strlit("rank");
    reveal_strlit("ret");
    reveal_strlit("return");
    reveal_strlit("returns");
    reveal_strlit("scale");
    reveal_strlit("sign");
    reveal_strlit("signum");
    reveal_strlit("sqrt");
    reveal_strlit("std");
    reveal_strlit("sub");
    reveal_strlit("ts_argmax");
    reveal_strlit("ts_argmin");
    reveal_strlit("ts_avg");
    reveal_strlit("ts_decay");
    reveal_strlit("ts_delay");
    reveal_strlit("ts_delta");
    reveal_strlit("ts_max");
    reveal_strlit("ts_mean");
    reveal_strlit("ts_min");
    reveal_strlit("ts_rank");
    reveal_strlit("ts_std");
    reveal_strlit("ts_stddev");
    reveal_strlit("ts_sum");
    reveal_strlit("tsargmax");
    reveal_strlit("tsargmin");
    reveal_strlit("tsmax");
    reveal_strlit("tsmean");
    reveal_strlit("tsmin");
    reveal_strlit("tsrank");
    reveal_strlit("tsstd");
    reveal_strlit("tssum");
    reveal_strlit("vol");
    reveal_strlit("volatility");
    reveal_strlit("z_score");
    reveal_strlit("zscore");
    assert("sub"@.len() != "rank"@.len());
    assert("sub"@ != "rank"@);
    assert("sub"@.len() != "zscore"@.len());
    assert("sub"@ != "zscore"@);
    assert("sub"@.len() != "z_score"@.len());
    assert("sub"@ != "z_score"@);
    assert("sub"@.len() != "scale"@.len());
    assert("sub"@ != "scale"@);
    assert("sub"@.len() != "demean"@.len());
    assert("sub"@ != "demean"@);
    assert("sub"@.len() != "ts_rank"@.len());
    assert("sub"@ != "ts_rank"@);
    assert("sub"@.len() != "tsrank"@.len());
    assert("sub"@ != "tsrank"@);
    assert("sub"@.len() != "ts_sum"@.len());
    assert("sub"@ != "ts_sum"@);
    assert("sub"@.len() != "tssum"@.len());
    assert("sub"@ != "tssum"@);
    assert("sub"@.len() != "ts_mean"@.len());
    assert("sub"@ != "ts_mean"@);
    assert("sub"@.len() != "tsmean"@.len());
    assert("sub"@ != "tsmean"@);
    assert("sub"@.len() != "ts_avg"@.len());
    assert("sub"@ != "ts_avg"@);
    assert("sub"@.len() != "ts_std"@.len());
    assert("sub"@ != "ts_std"@);
    assert("sub"@.len() != "tsstd"@.len());
    assert("sub"@ != "tsstd"@);
    assert("sub"@.len() != "ts_stddev"@.len());
    assert("sub"@ != "ts_stddev"@);
    assert("sub"@.len() != "ts_min"@.len());
    assert("sub"@ != "ts_min"@);
    assert("sub"@.len() != "tsmin"@.len());
    assert("sub"@ != "tsmin"@);
    assert("sub"@.len() != "ts_max"@.len());
    assert("sub"@ != "ts_max"@);
    assert("sub"@.len() != "tsmax"@.len());
    assert("sub"@ != "tsmax"@);
    assert("sub"@.len() != "ts_argmax"@.len());
    assert("sub"@ != "ts_argmax"@);
    assert("sub"@.len() != "tsargmax"@.len());
    assert("sub"@ != "tsargmax"@);
    assert("sub"@.len() != "ts_argmin"@.len());
    assert("sub"@ != "ts_argmin"@);
    assert("sub"@.len() != "tsargmin"@.len());
    assert("sub"@ != "tsargmin"@);
    assert("sub"@.len() != "ts_delay"@.len());
    assert("sub"@ != "ts_delay"@);
    assert("sub"@.len() != "delay"@.len());
    assert("sub"@ != "delay"@);
    assert("sub"@[0] != "lag"@[0]);
    assert("sub"@ != "lag"@);
    assert("sub"@.len() != "ts_delta"@.len());
    assert("sub"@ != "ts_delta"@);
    assert("sub"@.len() != "delta"@.len());
    assert("sub"@ != "delta"@);
    assert("sub"@.len() != "ts_decay"@.len());
    assert("sub"@ != "ts_decay"@);
    assert("sub"@.len() != "decay_linear"@.len());
    assert("sub"@ != "decay_linear"@);
    assert("sub"@.len() != "returns"@.len());
    assert("sub"@ != "returns"@);
    assert("sub"@.len() != "return"@.len());
    assert("sub"@ != "return"@);
    assert("sub"@[0] != "ret"@[0]);
    assert("sub"@ != "ret"@);
    assert("sub"@.len() != "log_returns"@.len());
    assert("sub"@ != "log_returns"@);
    assert("sub"@.len() != "logreturns"@.len());
    assert("sub"@ != "logreturns"@);
    assert("sub"@.len() != "logret"@.len());
    assert("sub"@ != "logret"@);
    assert("sub"@.len() != "volatility"@.len());
    assert("sub"@ != "volatility"@);
    assert("sub"@[0] != "vol"@[0]);
    assert("sub"@ != "vol"@);
    assert("sub"@[1] != "std"@[1]);
    assert("sub"@ != "std"@);
    assert("sub"@.len() != "correlation"@.len());
    assert("sub"@ != "correlation"@);
    assert("sub"@.len() != "corr"@.len());
    assert("sub"@ != "corr"@);
    assert("sub"@.len() != "covariance"@.len());
    assert("sub"@ != "covariance"@);
    assert("sub"@[0] != "cov"@[0]);
    assert("sub"@ != "cov"@);
    assert("sub"@[0] != "abs"@[0]);
    assert("sub"@ != "abs"@);
    assert("sub"@.len() != "sign"@.len());
    assert("sub"@ != "sign"@);
    assert("sub"@.len() != "signum"@.len());
    assert("sub"@ != "signum"@);
    assert("sub"@[0] != "log"@[0]);
    assert("sub"@ != "log"@);
    assert("sub"@.len() != "ln"@.len());
    assert("sub"@ != "ln"@);
    assert("sub"@.len() != "sqrt"@.len());
    assert("sub"@ != "sqrt"@);
    assert("sub"@.len() != "power"@.len());
    assert("sub"@ != "power"@);
    assert("sub"@[0] != "pow"@[0]);
    assert("sub"@ != "pow"@);
    assert("sub"@[0] != "max"@[0]);
    assert("sub"@ != "max"@);
    assert("sub"@[0] != "min"@[0]);
    assert("sub"@ != "min"@);
    assert("sub"@[0] != "add"@[0]);
    assert("sub"@ != "add"@);
}

proof fn lemma_alias_mul()
    ensures
        function_named("mul"@) == Some(FactorFunction::Mul),
{
    reveal_strlit("abs");
    reveal_strlit("add");
    reveal_strlit("corr");
    reveal_strlit("correlation");
    reveal_strlit("cov");
    reveal_strlit("covariance");
    reveal_strlit("decay_linear");
    reveal_strlit("delay");
    reveal_strlit("delta");
    reveal_strlit("demean");
    reveal_strlit("lag");
    reveal_strlit("ln");
    reveal_strlit("log");
    reveal_strlit("log_returns");
    reveal_strlit("logret");
    reveal_strlit("logreturns");
    reveal_strlit("max");
    reveal_strlit("min");
    reveal_strlit("mul");
    reveal_strlit("pow");
    reveal_strlit("power");
    reveal_strlit("rank");
    reveal_strlit("ret");
    reveal_strlit("return");
    reveal_strlit("returns");
    reveal_strlit("scale");
    reveal_strlit("sign");
    reveal_strlit("signum");
    reveal_strlit("sqrt");
    reveal_strlit("std");
    reveal_strlit("sub");
    reveal_strlit("ts_argmax");
    reveal_strlit("ts_argmin");
    reveal_strlit("ts_avg");
    reveal_strlit("ts_decay");
    reveal_strlit("ts_delay");
    reveal_strlit("ts_delta");
    reveal_strlit("ts_max");
    reveal_strlit("ts_mean");
    reveal_strlit("ts_min");
    reveal_strlit("ts_rank");
    reveal_strlit("ts_std");
    reveal_strlit("ts_stddev");
    reveal_strlit("ts_sum");
    reveal_strlit("tsargmax");
    reveal_strlit("tsargmin");
    reveal_strlit("tsmax");
    reveal_strlit("tsmean");
    reveal_strlit("tsmin");
    reveal_strlit("tsrank");
    reveal_strlit("tsstd");
    reveal_strlit("tssum");
    reveal_strlit("vol");
    reveal_strlit("volatility");
    reveal_strlit("z_score");
    reveal_strlit("zscore");
    assert("mul"@.len() != "rank"@.len());
    assert("mul"@ != "rank"@);
    assert("mul"@.len() != "zscore"@.len());
    assert("mul"@ != "zscore"@);
    assert("mul"@.len() != "z_score"@.len());
    assert("mul"@ != "z_score"@);
    assert("mul"@.len() != "scale"@.len());
    assert("mul"@ != "scale"@);
    assert("mul"@.len() != "demean"@.len());
    assert("mul"@ != "demean"@);
    assert("mul"@.len() != "ts_rank"@.len());
    assert("mul"@ != "ts_rank"@);
    assert("mul"@.len() != "tsrank"@.len());
    assert("mul"@ != "tsrank"@);
    assert("mul"@.len() != "ts_sum"@.len());
    assert("mul"@ != "ts_sum"@);
    assert("mul"@.len() != "tssum"@.len());
    assert("mul"@ != "tssum"@);
    assert("mul"@.len() != "ts_mean"@.len());
    assert("mul"@ != "ts_mean"@);
    assert("mul"@.len() != "tsmean"@.len());
    assert("mul"@ != "tsmean"@);
    assert("mul"@.len() != "ts_avg"@.len());
    assert("mul"@ != "ts_avg"@);
    assert("mul"@.len() != "ts_std"@.len());
    assert("mul"@ != "ts_std"@);
    assert("mul"@.len() != "tsstd"@.len());
    assert("mul"@ != "tsstd"@);
    assert("mul"@.len() != "ts_stddev"@.len());
    assert("mul"@ != "ts_stddev"@);
    assert("mul"@.len() != "ts_min"@.len());
    assert("mul"@ != "ts_min"@);
    assert("mul"@.len() != "tsmin"@.len());
    assert("mul"@ != "tsmin"@);
    assert("mul"@.len() != "ts_max"@.len());
    assert("mul"@ != "ts_max"@);
    assert("mul"@.len() != "tsmax"@.len());
    assert("mul"@ != "tsmax"@);
    assert("mul"@.len() != "ts_argmax"@.len());
    assert("mul"@ != "ts_argmax"@);
    assert("mul"@.len() != "tsargmax"@.len());
    assert("mul"@ != "tsargmax"@);
    assert("mul"@.len() != "ts_argmin"@.len());
    assert("mul"@ != "ts_argmin"@);
    assert("mul"@.len() != "tsargmin"@.len());
    assert("mul"@ != "tsargmin"@);
    assert("mul"@.len() != "ts_delay"@.len());
    assert("mul"@ != "ts_delay"@);
    assert("mul"@.len() != "delay"@.len());
    assert("mul"@ != "delay"@);
    assert("mul"@[0] != "lag"@[0]);
    assert("mul"@ != "lag"@);
    assert("mul"@.len() != "ts_delta"@.len());
    assert("mul"@ != "ts_delta"@);
    assert("mul"@.len() != "delta"@.len());
    assert("mul"@ != "delta"@);
    assert("mul"@.len() != "ts_decay"@.len());
    assert("mul"@ != "ts_decay"@);
    assert("mul"@.len() != "decay_linear"@.len());
    assert("mul"@ != "decay_linear"@);
    assert("mul"@.len() != "returns"@.len());
    assert("mul"@ != "returns"@);
    assert("mul"@.len() != "return"@.len());
    assert("mul"@ != "return"@);
    assert("mul"@[0] != "ret"@[0]);
    assert("mul"@ != "ret"@);
    assert("mul"@.len() != "log_returns"@.len());
    assert("mul"@ != "log_returns"@);
    assert("mul"@.len() != "logreturns"@.len());
    assert("mul"@ != "logreturns"@);
    assert("mul"@.len() != "logret"@.len());
    assert("mul"@ != "logret"@);
    assert("mul"@.len() != "volatility"@.len());
    assert("mul"@ != "volatility"@);
    assert("mul"@[0] != "vol"@[0]);
    assert("mul"@ != "vol"@);
    assert("mul"@[0] != "std"@[0]);
    assert("mul"@ != "std"@);
    assert("mul"@.len() != "correlation"@.len());
    assert("mul"@ != "correlation"@);
    assert("mul"@.len() != "corr"@.len());
    assert("mul"@ != "corr"@);
    assert("mul"@.len() != "covariance"@.len());
    assert("mul"@ != "covariance"@);
    assert("mul"@[0] != "cov"@[0]);
    assert("mul"@ != "cov"@);
    assert("mul"@[0] != "abs"@[0]);
    assert("mul"@ != "abs"@);
    assert("mul"@.len() != "sign"@.len());
    assert("mul"@ != "sign"@);
    assert("mul"@.len() != "signum"@.len());
    assert("mul"@ != "signum"@);
    assert("mul"@[0] != "log"@[0]);
    assert("mul"@ != "log"@);
    assert("mul"@.len() != "ln"@.len());
    assert("mul"@ != "ln"@);
    assert("mul"@.len() != "sqrt"@.len());
    assert("mul"@ != "sqrt"@);
    assert("mul"@.len() != "power"@.len());
    assert("mul"@ != "power"@);
    assert("mul"@[0] != "pow"@[0]);
    assert("mul"@ != "pow"@);
    assert("mul"@[1] != "max"@[1]);
    assert("mul"@ != "max"@);
    assert("mul"@[1] != "min"@[1]);
    assert("mul"@ != "min"@);
    assert("mul"@[0] != "add"@[0]);
    assert("mul"@ != "add"@);
    assert("mul"@[0] != "sub"@[0]);
    assert("mul"@ != "sub"@);
}

proof fn lemma_alias_div()
    ensures
        function_named("div"@) == Some(FactorFunction::Div),
{
    reveal_strlit("abs");
    reveal_strlit("add");
    reveal_strlit("corr");
    reveal_strlit("correlation");
    reveal_strlit("cov");
    reveal_strlit("covariance");
    reveal_strlit("decay_linear");
    reveal_strlit("delay");
    reveal_strlit("delta");
    reveal_strlit("demean");
    reveal_strlit("div");
    reveal_strlit("lag");
    reveal_strlit("ln");
    reveal_strlit("log");
    reveal_strlit("log_returns");
    reveal_strlit("logret");
    reveal_strlit("logreturns");
    reveal_strlit("max");
    reveal_strlit("min");
    reveal_strlit("mul");
    reveal_strlit("pow");
    reveal_strlit("power");
    reveal_strlit("rank");
    reveal_strlit("ret");
    reveal_strlit("return");
    reveal_strlit("returns");
    reveal_strlit("scale");
    reveal_strlit("sign");
    reveal_strlit("signum");
    reveal_strlit("sqrt");
    reveal_strlit("std");
    reveal_strlit("sub");
    reveal_strlit("ts_argmax");
    reveal_strlit("ts_argmin");
    reveal_strlit("ts_avg");
    reveal_strlit("ts_decay");
    reveal_strlit("ts_delay");
    reveal_strlit("ts_delta");
    reveal_strlit("ts_max");
    reveal_strlit("ts_mean");
    reveal_strlit("ts_min");
    reveal_strlit("ts_rank");
    reveal_strlit("ts_std");
    reveal_strlit("ts_stddev");
    reveal_strlit("ts_sum");
    reveal_strlit("tsargmax");
    reveal_strlit("tsargmin");
    reveal_strlit("tsmax");
    reveal_strlit("tsmean");
    reveal_strlit("tsmin");
    reveal_strlit("tsrank");
    reveal_strlit("tsstd");
    reveal_strlit("tssum");
    reveal_strlit("vol");
    reveal_strlit("volatility");
    reveal_strlit("z_score");
    reveal_strlit("zscore");
    assert("div"@.len() != "rank"@.len());
    assert("div"@ != "rank"@);
    assert("div"@.len() != "zscore"@.len());
    assert("div"@ != "zscore"@);
    assert("div"@.len() != "z_score"@.len());
    assert("div"@ != "z_score"@);
    assert("div"@.len() != "scale"@.len());
    assert("div"@ != "scale"@);
    assert("div"@.len() != "demean"@.len());
    assert("div"@ != "demean"@);
    assert("div"@.len() != "ts_rank"@.len());
    assert("div"@ != "ts_rank"@);
    assert("div"@.len() != "tsrank"@.len());
    assert("div"@ != "tsrank"@);
    assert("div"@.len() != "ts_sum"@.len());
    assert("div"@ != "ts_sum"@);
    assert("div"@.len() != "tssum"@.len());
    assert("div"@ != "tssum"@);
    assert("div"@.len() != "ts_mean"@.len());
    assert("div"@ != "ts_mean"@);
    assert("div"@.len() != "tsmean"@.len());
    assert("div"@ != "tsmean"@);
    assert("div"@.len() != "ts_avg"@.len());
    assert("div"@ != "ts_avg"@);
    assert("div"@.len() != "ts_std"@.len());
    assert("div"@ != "ts_std"@);
    assert("div"@.len() != "tsstd"@.len());
    assert("div"@ != "tsstd"@);
    assert("div"@.len() != "ts_stddev"@.len());
    assert("div"@ != "ts_stddev"@);
    assert("div"@.len() != "ts_min"@.len());
    assert("div"@ != "ts_min"@);
    assert("div"@.len() != "tsmin"@.len());
    assert("div"@ != "tsmin"@);
    assert("div"@.len() != "ts_max"@.len());
    assert("div"@ != "ts_max"@);
    assert("div"@.len() != "tsmax"@.len());
    assert("div"@ != "tsmax"@);
    assert("div"@.len() != "ts_argmax"@.len());
    assert("div"@ != "ts_argmax"@);
    assert("div"@.len() != "tsargmax"@.len());
    assert("div"@ != "tsargmax"@);
    assert("div"@.len() != "ts_argmin"@.len());
    assert("div"@ != "ts_argmin"@);
    assert("div"@.len() != "tsargmin"@.len());
    assert("div"@ != "tsargmin"@);
    assert("div"@.len() != "ts_delay"@.len());
    assert("div"@ != "ts_delay"@);
    assert("div"@.len() != "delay"@.len());
    assert("div"@ != "delay"@);
    assert("div"@[0] != "lag"@[0]);
    assert("div"@ != "lag"@);
    assert("div"@.len() != "ts_delta"@.len());
    assert("div"@ != "ts_delta"@);
    assert("div"@.len() != "delta"@.len());
    assert("div"@ != "delta"@);
    assert("div"@.len() != "ts_decay"@.len());
    assert("div"@ != "ts_decay"@);
    assert("div"@.len() != "decay_linear"@.len());
    assert("div"@ != "decay_linear"@);
    assert("div"@.len() != "returns"@.len());
    assert("div"@ != "returns"@);
    assert("div"@.len() != "return"@.len());
    assert("div"@ != "return"@);
    assert("div"@[0] != "ret"@[0]);
    assert("div"@ != "ret"@);
    assert("div"@.len() != "log_returns"@.len());
    assert("div"@ != "log_returns"@);
    assert("div"@.len() != "logreturns"@.len());
    assert("div"@ != "logreturns"@);
    assert("div"@.len() != "logret"@.len());
    assert("div"@ != "logret"@);
    assert("div"@.len() != "volatility"@.len());
    assert("div"@ != "volatility"@);
    assert("div"@[0] != "vol"@[0]);
    assert("div"@ != "vol"@);
    assert("div"@[0] != "std"@[0]);
    assert("div"@ != "std"@);
    assert("div"@.len() != "correlation"@.len());
    assert("div"@ != "correlation"@);
    assert("div"@.len() != "corr"@.len());
    assert("div"@ != "corr"@);
    assert("div"@.len() != "covariance"@.len());
    assert("div"@ != "covariance"@);
    assert("div"@[0] != "cov"@[0]);
    assert("div"@ != "cov"@);
    assert("div"@[0] != "abs"@[0]);
    assert("div"@ != "abs"@);
    assert("div"@.len() != "sign"@.len());
    assert("div"@ != "sign"@);
    assert("div"@.len() != "signum"@.len());
    assert("div"@ != "signum"@);
    assert("div"@[0] != "log"@[0]);
    assert("div"@ != "log"@);
    assert("div"@.len() != "ln"@.len());
    assert("div"@ != "ln"@);
    assert("div"@.len() != "sqrt"@.len());
    assert("div"@ != "sqrt"@);
    assert("div"@.len() != "power"@.len());
    assert("div"@ != "power"@);
    assert("div"@[0] != "pow"@[0]);
    assert("div"@ != "pow"@);
    assert("div"@[0] != "max"@[0]);
    assert("div"@ != "max"@);
    assert("div"@[0] != "min"@[0]);
    assert("div"@ != "min"@);
    assert("div"@[0] != "add"@[0]);
    assert("div"@ != "add"@);
    assert("div"@[0] != "sub"@[0]);
    assert("div"@ != "sub"@);
    assert("div"@[0] != "mul"@[0]);
    assert("div"@ != "mul"@);
}

proof fn lemma_alias_if()
    ensures
        function_named("if"@) == Some(FactorFunction::IfElse),
{
    reveal_strlit("abs");
    reveal_strlit("add");
    reveal_strlit("corr");
    reveal_strlit("correlation");
    reveal_strlit("cov");
    reveal_strlit("covariance");
    reveal_strlit("decay_linear");
    reveal_strlit("delay");
    reveal_strlit("delta");
    reveal_strlit("demean");
    reveal_strlit("div");
    reveal_strlit("if");
    reveal_strlit("lag");
    reveal_strlit("ln");
    reveal_strlit("log");
    reveal_strlit("log_returns");
    reveal_strlit("logret");
    reveal_strlit("logreturns");
    reveal_strlit("max");
    reveal_strlit("min");
    reveal_strlit("mul");
    reveal_strlit("pow");
    reveal_strlit("power");
    reveal_strlit("rank");
    reveal_strlit("ret");
    reveal_strlit("return");
    reveal_strlit("returns");
    reveal_strlit("scale");
    reveal_strlit("sign");
    reveal_strlit("signum");
    reveal_strlit("sqrt");
    reveal_strlit("std");
    reveal_strlit("sub");
    reveal_strlit("ts_argmax");
    reveal_strlit("ts_argmin");
    reveal_strlit("ts_avg");
    reveal_strlit("ts_decay");
    reveal_strlit("ts_delay");
    reveal_strlit("ts_delta");
    reveal_strlit("ts_max");
    reveal_strlit("ts_mean");
    reveal_strlit("ts_min");
    reveal_strlit("ts_rank");
    reveal_strlit("ts_std");
    reveal_strlit("ts_stddev");
    reveal_strlit("ts_sum");
    reveal_strlit("tsargmax");
    reveal_strlit("tsargmin");
    reveal_strlit("tsmax");
    reveal_strlit("tsmean");
    reveal_strlit("tsmin");
    reveal_strlit("tsrank");
    reveal_strlit("tsstd");
    reveal_strlit("tssum");
    reveal_strlit("vol");
    reveal_strlit("volatility");
    reveal_strlit("z_score");
    reveal_strlit("zscore");
    assert("if"@.len() != "rank"@.len());
    assert("if"@ != "rank"@);
    assert("if"@.len() != "zscore"@.len());
    assert("if"@ != "zscore"@);
    assert("if"@.len() != "z_score"@.len());
    assert("if"@ != "z_score"@);
    assert("if"@.len() != "scale"@.len());
    assert("if"@ != "scale"@);
    assert("if"@.len() != "demean"@.len());
    assert("if"@ != "demean"@);
    assert("if"@.len() != "ts_rank"@.len());
    assert("if"@ != "ts_rank"@);
    assert("if"@.len() != "tsrank"@.len());
    assert("if"@ != "tsrank"@);
    assert("if"@.len() != "ts_sum"@.len());
    assert("if"@ != "ts_sum"@);
    assert("if"@.len() != "tssum"@.len());
    assert("if"@ != "tssum"@);
    assert("if"@.len() != "ts_mean"@.len());
    assert("if"@ != "ts_mean"@);
    assert("if"@.len() != "tsmean"@.len());
    assert("if"@ != "tsmean"@);
    assert("if"@.len() != "ts_avg"@.len());
    assert("if"@ != "ts_avg"@);
    assert("if"@.len() != "ts_std"@.len());
    assert("if"@ != "ts_std"@);
    assert("if"@.len() != "tsstd"@.len());
    assert("if"@ != "tsstd"@);
    assert("if"@.len() != "ts_stddev"@.len());
    assert("if"@ != "ts_stddev"@);
    assert("if"@.len() != "ts_min"@.len());
    assert("if"@ != "ts_min"@);
    assert("if"@.len() != "tsmin"@.len());
    assert("if"@ != "tsmin"@);
    assert("if"@.len() != "ts_max"@.len());
    assert("if"@ != "ts_max"@);
    assert("if"@.len() != "tsmax"@.len());
    assert("if"@ != "tsmax"@);
    assert("if"@.len() != "ts_argmax"@.len());
    assert("if"@ != "ts_argmax"@);
    assert("if"@.len() != "tsargmax"@.len());
    assert("if"@ != "tsargmax"@);
    assert("if"@.len() != "ts_argmin"@.len());
    assert("if"@ != "ts_argmin"@);
    assert("if"@.len() != "tsargmin"@.len());
    assert("if"@ != "tsargmin"@);
    assert("if"@.len() != "ts_delay"@.len());
    assert("if"@ != "ts_delay"@);
    assert("if"@.len() != "delay"@.len());
    assert("if"@ != "delay"@);
    assert("if"@.len() != "lag"@.len());
    assert("if"@ != "lag"@);
    assert("if"@.len() != "ts_delta"@.len());
    assert("if"@ != "ts_delta"@);
    assert("if"@.len() != "delta"@.len());
    assert("if"@ != "delta"@);
    assert("if"@.len() != "ts_decay"@.len());
    assert("if"@ != "ts_decay"@);
    assert("if"@.len() != "decay_linear"@.len());
    assert("if"@ != "decay_linear"@);
    assert("if"@.len() != "returns"@.len());
    assert("if"@ != "returns"@);
    assert("if"@.len() != "return"@.len());
    assert("if"@ != "return"@);
    assert("if"@.len() != "ret"@.len());
    assert("if"@ != "ret"@);
    assert("if"@.len() != "log_returns"@.len());
    assert("if"@ != "log_returns"@);
    assert("if"@.len() != "logreturns"@.len());
    assert("if"@ != "logreturns"@);
    assert("if"@.len() != "logret"@.len());
    assert("if"@ != "logret"@);
    assert("if"@.len() != "volatility"@.len());
    assert("if"@ != "volatility"@);
    assert("if"@.len() != "vol"@.len());
    assert("if"@ != "vol"@);
    assert("if"@.len() != "std"@.len());
    assert("if"@ != "std"@);
    assert("if"@.len() != "correlation"@.len());
    assert("if"@ != "correlation"@);
    assert("if"@.len() != "corr"@.len());
    assert("if"@ != "corr"@);
    assert("if"@.len() != "covariance"@.len());
    assert("if"@ != "covariance"@);
    assert("if"@.len() != "cov"@.len());
    assert("if"@ != "cov"@);
    assert("if"@.len() != "abs"@.len());
    assert("if"@ != "abs"@);
    assert("if"@.len() != "sign"@.len());
    assert("if"@ != "sign"@);
    assert("if"@.len() != "signum"@.len());
    assert("if"@ != "signum"@);
    assert("if"@.len() != "log"@.len());
    assert("if"@ != "log"@);
    assert("if"@[0] != "ln"@[0]);
    assert("if"@ != "ln"@);
    assert("if"@.len() != "sqrt"@.len());
    assert("if"@ != "sqrt"@);
    assert("if"@.len() != "power"@.len());
    assert("if"@ != "power"@);
    assert("if"@.len() != "pow"@.len());
    assert("if"@ != "pow"@);
    assert("if"@.len() != "max"@.len());
    assert("if"@ != "max"@);
    assert("if"@.len() != "min"@.len());
    assert("if"@ != "min"@);
    assert("if"@.len() != "add"@.len());
    assert("if"@ != "add"@);
    assert("if"@.len() != "sub"@.len());
    assert("if"@ != "sub"@);
    assert("if"@.len() != "mul"@.len());
    assert("if"@ != "mul"@);
    assert("if"@.len() != "div"@.len());
    assert("if"@ != "div"@);
}

proof fn lemma_alias_ifelse()
    ensures
        function_named("ifelse"@) == Some(FactorFunction::IfElse),
{
    reveal_strlit("abs");
    reveal_strlit("add");
    reveal_strlit("corr");
    reveal_strlit("correlation");
    reveal_strlit("cov");
    reveal_strlit("covariance");
    reveal_strlit("decay_linear");
    reveal_strlit("delay");
    reveal_strlit("delta");
    reveal_strlit("demean");
    reveal_strlit("div");
    reveal_strlit("ifelse");
    reveal_strlit("lag");
    reveal_strlit("ln");
    reveal_strlit("log");
    reveal_strlit("log_returns");
    reveal_strlit("logret");
    reveal_strlit("logreturns");
    reveal_strlit("max");
    reveal_strlit("min");
    reveal_strlit("mul");
    reveal_strlit("pow");
    reveal_strlit("power");
    reveal_strlit("rank");
    reveal_strlit("ret");
    reveal_strlit("return");
    reveal_strlit("returns");
    reveal_strlit("scale");
    reveal_strlit("sign");
    reveal_strlit("signum");
    reveal_strlit("sqrt");
    reveal_strlit("std");
    reveal_strlit("sub");
    reveal_strlit("ts_argmax");
    reveal_strlit("ts_argmin");
    reveal_strlit("ts_avg");
    reveal_strlit("ts_decay");
    reveal_strlit("ts_delay");
    reveal_strlit("ts_delta");
    reveal_strlit("ts_max");
    reveal_strlit("ts_mean");
    reveal_strlit("ts_min");
    reveal_strlit("ts_rank");
    reveal_strlit("ts_std");
    reveal_strlit("ts_stddev");
    reveal_strlit("ts_sum");
    reveal_strlit("tsargmax");
    reveal_strlit("tsargmin");
    reveal_strlit("tsmax");
    reveal_strlit("tsmean");
    reveal_strlit("tsmin");
    reveal_strlit("tsrank");
    reveal_strlit("tsstd");
    reveal_strlit("tssum");
    reveal_strlit("vol");
    reveal_strlit("volatility");
    reveal_strlit("z_score");
    reveal_strlit("zscore");
    assert("ifelse"@.len() != "rank"@.len());
    assert("ifelse"@ != "rank"@);
    assert("ifelse"@[0] != "zscore"@[0]);
    assert("ifelse"@ != "zscore"@);
    assert("ifelse"@.len() != "z_score"@.len());
    assert("ifelse"@ != "z_score"@);
    assert("ifelse"@.len() != "scale"@.len());
    assert("ifelse"@ != "scale"@);
    assert("ifelse"@[0] != "demean"@[0]);
    assert("ifelse"@ != "demean"@);
    assert("ifelse"@.len() != "ts_rank"@.len());
    assert("ifelse"@ != "ts_rank"@);
    assert("ifelse"@[0] != "tsrank"@[0]);
    assert("ifelse"@ != "tsrank"@);
    assert("ifelse"@[0] != "ts_sum"@[0]);
    assert("ifelse"@ != "ts_sum"@);
    assert("ifelse"@.len() != "tssum"@.len());
    assert("ifelse"@ != "tssum"@);
    assert("ifelse"@.len() != "ts_mean"@.len());
    assert("ifelse"@ != "ts_mean"@);
    assert("ifelse"@[0] != "tsmean"@[0]);
    assert("ifelse"@ != "tsmean"@);
    assert("ifelse"@[0] != "ts_avg"@[0]);
    assert("ifelse"@ != "ts_avg"@);
    assert("ifelse"@[0] != "ts_std"@[0]);
    assert("ifelse"@ != "ts_std"@);
    assert("ifelse"@.len() != "tsstd"@.len());
    assert("ifelse"@ != "tsstd"@);
    assert("ifelse"@.len() != "ts_stddev"@.len());
    assert("ifelse"@ != "ts_stddev"@);
    assert("ifelse"@[0] != "ts_min"@[0]);
    assert("ifelse"@ != "ts_min"@);
    assert("ifelse"@.len() != "tsmin"@.len());
    assert("ifelse"@ != "tsmin"@);
    assert("ifelse"@[0] != "ts_max"@[0]);
    assert("ifelse"@ != "ts_max"@);
    assert("ifelse"@.len() != "tsmax"@.len());
    assert("ifelse"@ != "tsmax"@);
    assert("ifelse"@.len() != "ts_argmax"@.len());
    assert("ifelse"@ != "ts_argmax"@);
    assert("ifelse"@.len() != "tsargmax"@.len());
    assert("ifelse"@ != "tsargmax"@);
    assert("ifelse"@.len() != "ts_argmin"@.len());
    assert("ifelse"@ != "ts_argmin"@);
    assert("ifelse"@.len() != "tsargmin"@.len());
    assert("ifelse"@ != "tsargmin"@);
    assert("ifelse"@.len() != "ts_delay"@.len());
    assert("ifelse"@ != "ts_delay"@);
    assert("ifelse"@.len() != "delay"@.len());
    assert("ifelse"@ != "delay"@);
    assert("ifelse"@.len() != "lag"@.len());
    assert("ifelse"@ != "lag"@);
    assert("ifelse"@.len() != "ts_delta"@.len());
    assert("ifelse"@ != "ts_delta"@);
    assert("ifelse"@.len() != "delta"@.len());
    assert("ifelse"@ != "delta"@);
    assert("ifelse"@.len() != "ts_decay"@.len());
    assert("ifelse"@ != "ts_decay"@);
    assert("ifelse"@.len() != "decay_linear"@.len());
    assert("ifelse"@ != "decay_linear"@);
    assert("ifelse"@.len() != "returns"@.len());
    assert("ifelse"@ != "returns"@);
    assert("ifelse"@[0] != "return"@[0]);
    assert("ifelse"@ != "return"@);
    assert("ifelse"@.len() != "ret"@.len());
    assert("ifelse"@ != "ret"@);
    assert("ifelse"@.len() != "log_returns"@.len());
    assert("ifelse"@ != "log_returns"@);
    assert("ifelse"@.len() != "logreturns"@.len());
    assert("ifelse"@ != "logreturns"@);
    assert("ifelse"@[0] != "logret"@[0]);
    assert("ifelse"@ != "logret"@);
    assert("ifelse"@.len() != "volatility"@.len());
    assert("ifelse"@ != "volatility"@);
    assert("ifelse"@.len() != "vol"@.len());
    assert("ifelse"@ != "vol"@);
    assert("ifelse"@.len() != "std"@.len());
    assert("ifelse"@ != "std"@);
    assert("ifelse"@.len() != "correlation"@.len());
    assert("ifelse"@ != "correlation"@);
    assert("ifelse"@.len() != "corr"@.len());
    assert("ifelse"@ != "corr"@);
    assert("ifelse"@.len() != "covariance"@.len());
    assert("ifelse"@ != "covariance"@);
    assert("ifelse"@.len() != "cov"@.len());
    assert("ifelse"@ != "cov"@);
    assert("ifelse"@.len() != "abs"@.len());
    assert("ifelse"@ != "abs"@);
    assert("ifelse"@.len() != "sign"@.len());
    assert("ifelse"@ != "sign"@);
    assert("ifelse"@[0] != "signum"@[0]);
    assert("ifelse"@ != "signum"@);
    assert("ifelse"@.len() != "log"@.len());
    assert("ifelse"@ != "log"@);
    assert("ifelse"@.len() != "ln"@.len());
    assert("ifelse"@ != "ln"@);
    assert("ifelse"@.len() != "sqrt"@.len());
    assert("ifelse"@ != "sqrt"@);
    assert("ifelse"@.len() != "power"@.len());
    assert("ifelse"@ != "power"@);
    assert("ifelse"@.len() != "pow"@.len());
    assert("ifelse"@ != "pow"@);
    assert("ifelse"@.len() != "max"@.len());
    assert("ifelse"@ != "max"@);
    assert("ifelse"@.len() != "min"@.len());
    assert("ifelse"@ != "min"@);
    assert("ifelse"@.len() != "add"@.len());
    assert("ifelse"@ != "add"@);
    assert("ifelse"@.len() != "sub"@.len());
    assert("ifelse"@ != "sub"@);
    assert("ifelse"@.len() != "mul"@.len());
    assert("ifelse"@ != "mul"@);
    assert("ifelse"@.len() != "div"@.len());
    assert("ifelse"@ != "div"@);
}

proof fn lemma_alias_if_else()
    ensures
        function_named("if_else"@) == Some(FactorFunction::IfElse),
{
    reveal_strlit("abs");
    reveal_strlit("add");
    reveal_strlit("corr");
    reveal_strlit("correlation");
    reveal_strlit("cov");
    reveal_strlit("covariance");
    reveal_strlit("decay_linear");
    reveal_strlit("delay");
    reveal_strlit("delta");
    reveal_strlit("demean");
    reveal_strlit("div");
    reveal_strlit("if_else");
    reveal_strlit("lag");
    reveal_strlit("ln");
    reveal_strlit("log");
    reveal_strlit("log_returns");
    reveal_strlit("logret");
    reveal_strlit("logreturns");
    reveal_strlit("max");
    reveal_strlit("min");
    reveal_strlit("mul");
    reveal_strlit("pow");
    reveal_strlit("power");
    reveal_strlit("rank");
    reveal_strlit("ret");
    reveal_strlit("return");
    reveal_strlit("returns");
    reveal_strlit("scale");
    reveal_strlit("sign");
    reveal_strlit("signum");
    reveal_strlit("sqrt");
    reveal_strlit("std");
    reveal_strlit("sub");
    reveal_strlit("ts_argmax");
    reveal_strlit("ts_argmin");
    reveal_strlit("ts_avg");
    reveal_strlit("ts_decay");
    reveal_strlit("ts_delay");
    reveal_strlit("ts_delta");
    reveal_strlit("ts_max");
    reveal_strlit("ts_mean");
    reveal_strlit("ts_min");
    reveal_strlit("ts_rank");
    reveal_strlit("ts_std");
    reveal_strlit("ts_stddev");
    reveal_strlit("ts_sum");
    reveal_strlit("tsargmax");
    reveal_strlit("tsargmin");
    reveal_strlit("tsmax");
    reveal_strlit("tsmean");
    reveal_strlit("tsmin");
    reveal_strlit("tsrank");
    reveal_strlit("tsstd");
    reveal_strlit("tssum");
    reveal_strlit("vol");
    reveal_strlit("volatility");
    reveal_strlit("z_score");
    reveal_strlit("zscore");
    assert("if_else"@.len() != "rank"@.len());
    assert("if_else"@ != "rank"@);
    assert("if_else"@.len() != "zscore"@.len());
    assert("if_else"@ != "zscore"@);
    assert("if_else"@[0] != "z_score"@[0]);
    assert("if_else"@ != "z_score"@);
    assert("if_else"@.len() != "scale"@.len());
    assert("if_else"@ != "scale"@);
    assert("if_else"@.len() != "demean"@.len());
    assert("if_else"@ != "demean"@);
    assert("if_else"@[0] != "ts_rank"@[0]);
    assert("if_else"@ != "ts_rank"@);
    assert("if_else"@.len() != "tsrank"@.len());
    assert("if_else"@ != "tsrank"@);
    assert("if_else"@.len() != "ts_sum"@.len());
    assert("if_else"@ != "ts_sum"@);
    assert("if_else"@.len() != "tssum"@.len());
    assert("if_else"@ != "tssum"@);
    assert("if_else"@[0] != "ts_mean"@[0]);
    assert("if_else"@ != "ts_mean"@);
    assert("if_else"@.len() != "tsmean"@.len());
    assert("if_else"@ != "tsmean"@);
    assert("if_else"@.len() != "ts_avg"@.len());
    assert("if_else"@ != "ts_avg"@);
    assert("if_else"@.len() != "ts_std"@.len());
    assert("if_else"@ != "ts_std"@);
    assert("if_else"@.len() != "tsstd"@.len());
    assert("if_else"@ != "tsstd"@);
    assert("if_else"@.len() != "ts_stddev"@.len());
    assert("if_else"@ != "ts_stddev"@);
    assert("if_else"@.len() != "ts_min"@.len());
    assert("if_else"@ != "ts_min"@);
    assert("if_else"@.len() != "tsmin"@.len());
    assert("if_else"@ != "tsmin"@);
    assert("if_else"@.len() != "ts_max"@.len());
    assert("if_else"@ != "ts_max"@);
    assert("if_else"@.len() != "tsmax"@.len());
    assert("if_else"@ != "tsmax"@);
    assert("if_else"@.len() != "ts_argmax"@.len());
    assert("if_else"@ != "ts_argmax"@);
    assert("if_else"@.len() != "tsargmax"@.len());
    assert("if_else"@ != "tsargmax"@);
    assert("if_else"@.len() != "ts_argmin"@.len());
    assert("if_else"@ != "ts_argmin"@);
    assert("if_else"@.len() != "tsargmin"@.len());
    assert("if_else"@ != "tsargmin"@);
    assert("if_else"@.len() != "ts_delay"@.len());
    assert("if_else"@ != "ts_delay"@);
    assert("if_else"@.len() != "delay"@.len());
    assert("if_else"@ != "delay"@);
    assert("if_else"@.len() != "lag"@.len());
    assert("if_else"@ != "lag"@);
    assert("if_else"@.len() != "ts_delta"@.len());
    assert("if_else"@ != "ts_delta"@);
    assert("if_else"@.len() != "delta"@.len());
    assert("if_else"@ != "delta"@);
    assert("if_else"@.len() != "ts_decay"@.len());
    assert("if_else"@ != "ts_decay"@);
    assert("if_else"@.len() != "decay_linear"@.len());
    assert("if_else"@ != "decay_linear"@);
    assert("if_else"@[0] != "returns"@[0]);
    assert("if_else"@ != "returns"@);
    assert("if_else"@.len() != "return"@.len());
    assert("if_else"@ != "return"@);
    assert("if_else"@.len() != "ret"@.len());
    assert("if_else"@ != "ret"@);
    assert("if_else"@.len() != "log_returns"@.len());
    assert("if_else"@ != "log_returns"@);
    assert("if_else"@.len() != "logreturns"@.len());
    assert("if_else"@ != "logreturns"@);
    assert("if_else"@.len() != "logret"@.len());
    assert("if_else"@ != "logret"@);
    assert("if_else"@.len() != "volatility"@.len());
    assert("if_else"@ != "volatility"@);
    assert("if_else"@.len() != "vol"@.len());
    assert("if_else"@ != "vol"@);
    assert("if_else"@.len() != "std"@.len());
    assert("if_else"@ != "std"@);
    assert("if_else"@.len() != "correlation"@.len());
    assert("if_else"@ != "correlation"@);
    assert("if_else"@.len() != "corr"@.len());
    assert("if_else"@ != "corr"@);
    assert("if_else"@.len() != "covariance"@.len());
    assert("if_else"@ != "covariance"@);
    assert("if_else"@.len() != "cov"@.len());
    assert("if_else"@ != "cov"@);
    assert("if_else"@.len() != "abs"@.len());
    assert("if_else"@ != "abs"@);
    assert("if_else"@.len() != "sign"@.len());
    assert("if_else"@ != "sign"@);
    assert("if_else"@.len() != "signum"@.len());
    assert("if_else"@ != "signum"@);
    assert("if_else"@.len() != "log"@.len());
    assert("if_else"@ != "log"@);
    assert("if_else"@.len() != "ln"@.len());
    assert("if_else"@ != "ln"@);
    assert("if_else"@.len() != "sqrt"@.len());
    assert("if_else"@ != "sqrt"@);
    assert("if_else"@.len() != "power"@.len());
    assert("if_else"@ != "power"@);
    assert("if_else"@.len() != "pow"@.len());
    assert("if_else"@ != "pow"@);
    assert("if_else"@.len() != "max"@.len());
    assert("if_else"@ != "max"@);
    assert("if_else"@.len() != "min"@.len());
    assert("if_else"@ != "min"@);
    assert("if_else"@.len() != "add"@.len());
    assert("if_else"@ != "add"@);
    assert("if_else"@.len() != "sub"@.len());
    assert("if_else"@ != "sub"@);
    assert("if_else"@.len() != "mul"@.len());
    assert("if_else"@ != "mul"@);
    assert("if_else"@.len() != "div"@.len());
    assert("if_else"@ != "div"@);
}

} // verus!
