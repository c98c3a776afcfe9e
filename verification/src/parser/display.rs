//! Laws about the text of expressions: the displayed form of a parsed
//! expression parses back to the same expression.

use vstd::prelude::*;
use crate::MAX_EXPRESSION_DEPTH;
use crate::parser::expression::{
    args_text, arg_range, expr_text, function_display, function_named, is_valid_variable_name,
    law_parsed_expressions_are_bounded, max_depth, number_display, parse_args_spec,
    parse_expr_spec, parse_spec, args_scan, match_from, spec_depth, well_formed, FactorFunction,
    SpecExpr, SpecExprError,
};
use crate::parser::lexer::is_ident_char;
use crate::parser::names::{function_aliases, law_aliases_name_their_function};
use crate::parser::number::{
    is_float_literal, lemma_call_text_not_literal, lemma_literal_text_chars,
};
use crate::text::{
    ascii_lower, char_is_whitespace, first_index, is_ascii_text, lemma_first_index,
    lemma_trim_ends, lemma_trim_noop, lower_text, trim,
};

verus! {

// ---------------------------------------------------------------------------
// Parenthesis nesting

pub open spec fn paren_delta(c: char) -> int {
    if c == '(' {
        1
    } else if c == ')' {
        -1
    } else {
        0
    }
}

/// Opened minus closed parentheses.
pub open spec fn nest(x: Seq<char>) -> int
    decreases x.len(),
{
    if x.len() == 0 {
        0
    } else {
        paren_delta(x[0]) + nest(x.drop_first())
    }
}

/// Parentheses that balance and never close more than were opened.
pub open spec fn balanced(x: Seq<char>) -> bool {
    &&& nest(x) == 0
    &&& forall|k: int| 0 <= k <= x.len() ==> nest(#[trigger] x.take(k)) >= 0
}

/// Balanced, and every comma stands inside parentheses.
pub open spec fn well_nested(x: Seq<char>) -> bool {
    &&& balanced(x)
    &&& forall|k: int| 0 <= k < x.len() && x[k] == ',' ==> nest(#[trigger] x.take(k)) >= 1
}

/// No parenthesis and no comma.
pub open spec fn plain(x: Seq<char>) -> bool {
    forall|i: int| 0 <= i < x.len() ==> (#[trigger] x[i] != '(' && x[i] != ')' && x[i] != ',')
}

proof fn lemma_nest_add(a: Seq<char>, b: Seq<char>)
    ensures
        nest(a + b) == nest(a) + nest(b),
    decreases a.len(),
{
    if a.len() == 0 {
        assert(a + b =~= b);
    } else {
        assert((a + b).drop_first() =~= a.drop_first() + b);
        assert((a + b)[0] == a[0]);
        lemma_nest_add(a.drop_first(), b);
    }
}

proof fn lemma_plain_nest(x: Seq<char>)
    requires
        plain(x),
    ensures
        nest(x) == 0,
    decreases x.len(),
{
    if x.len() > 0 {
        assert(plain(x.drop_first())) by {
            assert forall|i: int| 0 <= i < x.drop_first().len() implies (#[trigger] x.drop_first()[i]
                != '(' && x.drop_first()[i] != ')' && x.drop_first()[i] != ',') by {
                assert(x.drop_first()[i] == x[i + 1]);
            }
        }
        lemma_plain_nest(x.drop_first());
    }
}

proof fn lemma_plain_well_nested(x: Seq<char>)
    requires
        plain(x),
    ensures
        well_nested(x),
        forall|k: int| 0 <= k <= x.len() ==> nest(#[trigger] x.take(k)) == 0,
{
    lemma_plain_nest(x);
    assert forall|k: int| 0 <= k <= x.len() implies nest(#[trigger] x.take(k)) == 0 by {
        assert(plain(x.take(k))) by {
            assert forall|i: int| 0 <= i < x.take(k).len() implies (#[trigger] x.take(k)[i] != '('
                && x.take(k)[i] != ')' && x.take(k)[i] != ',') by {
                assert(x.take(k)[i] == x[i]);
            }
        }
        lemma_plain_nest(x.take(k));
    }
}

// ---------------------------------------------------------------------------
// Scanning over nested text

/// Scanning for the closing parenthesis moves over text that never closes
/// the open one.
proof fn lemma_match_skip(t: Seq<char>, i: int, j: int, d: int)
    requires
        0 <= i <= j <= t.len(),
        forall|k: int| i <= k <= j ==> d + nest(#[trigger] t.subrange(i, k)) >= 1,
    ensures
        match_from(t, i, d) == match_from(t, j, d + nest(t.subrange(i, j))),
    decreases j - i,
{
    if i < j {
        assert(t.subrange(i, i) =~= Seq::<char>::empty());
        assert forall|k: int| i + 1 <= k <= j implies d + paren_delta(t[i]) + nest(
            #[trigger] t.subrange(i + 1, k),
        ) >= 1 by {
            assert(t.subrange(i, k).drop_first() =~= t.subrange(i + 1, k));
            assert(t.subrange(i, k)[0] == t[i]);
        }
        assert(t.subrange(i, i + 1).drop_first() =~= t.subrange(i + 1, i + 1));
        assert(t.subrange(i + 1, i + 1) =~= Seq::<char>::empty());
        assert(t.subrange(i, i + 1)[0] == t[i]);
        lemma_match_skip(t, i + 1, j, d + paren_delta(t[i]));
        assert(t.subrange(i, j).drop_first() =~= t.subrange(i + 1, j));
        assert(t.subrange(i, j)[0] == t[i]);
    } else {
        assert(t.subrange(i, j) =~= Seq::<char>::empty());
    }
}

/// Scanning arguments moves over text without a comma at level 0.
proof fn lemma_scan_skip(
    a: Seq<char>,
    i: int,
    j: int,
    start: int,
    level: int,
    acc: Seq<SpecExpr>,
    depth: nat,
)
    requires
        0 <= start <= i <= j <= a.len(),
        forall|k: int|
            i <= k < j && a[k] == ',' ==> level + nest(#[trigger] a.subrange(i, k)) != 0,
    ensures
        args_scan(a, i, start, level, acc, depth) == args_scan(
            a,
            j,
            start,
            level + nest(a.subrange(i, j)),
            acc,
            depth,
        ),
    decreases j - i,
{
    if i < j {
        assert(a.subrange(i, i) =~= Seq::<char>::empty());
        assert forall|k: int|
            i + 1 <= k < j && a[k] == ',' implies level + paren_delta(a[i]) + nest(
            #[trigger] a.subrange(i + 1, k),
        ) != 0 by {
            assert(a.subrange(i, k).drop_first() =~= a.subrange(i + 1, k));
            assert(a.subrange(i, k)[0] == a[i]);
        }
        lemma_scan_skip(a, i + 1, j, start, level + paren_delta(a[i]), acc, depth);
        assert(a.subrange(i, j).drop_first() =~= a.subrange(i + 1, j));
        assert(a.subrange(i, j)[0] == a[i]);
    } else {
        assert(a.subrange(i, j) =~= Seq::<char>::empty());
    }
}

// ---------------------------------------------------------------------------
// Function names

/// The displayed names of the functions are lowercase ASCII words.
pub proof fn lemma_function_display(f: FactorFunction)
    ensures
        function_display(f).len() >= 3,
        'a' <= function_display(f)[0] <= 'z',
        forall|i: int|
            0 <= i < function_display(f).len() ==> ('a' <= #[trigger] function_display(f)[i] <= 'z'
                || function_display(f)[i] == '_'),
        function_named(function_display(f)) == Some(f),
{
    reveal_strlit("abs");
    reveal_strlit("add");
    reveal_strlit("correlation");
    reveal_strlit("covariance");
    reveal_strlit("demean");
    reveal_strlit("div");
    reveal_strlit("if_else");
    reveal_strlit("log");
    reveal_strlit("log_returns");
    reveal_strlit("max");
    reveal_strlit("min");
    reveal_strlit("mul");
    reveal_strlit("power");
    reveal_strlit("rank");
    reveal_strlit("returns");
    reveal_strlit("scale");
    reveal_strlit("sign");
    reveal_strlit("sqrt");
    reveal_strlit("sub");
    reveal_strlit("ts_argmax");
    reveal_strlit("ts_argmin");
    reveal_strlit("ts_decay");
    reveal_strlit("ts_delay");
    reveal_strlit("ts_delta");
    reveal_strlit("ts_max");
    reveal_strlit("ts_mean");
    reveal_strlit("ts_min");
    reveal_strlit("ts_rank");
    reveal_strlit("ts_std");
    reveal_strlit("ts_sum");
    reveal_strlit("volatility");
    reveal_strlit("zscore");
    lemma_display_names(f);
}

/// The displayed name of a function names it.
proof fn lemma_display_names(f: FactorFunction)
    ensures
        function_named(function_display(f)) == Some(f),
{
    law_aliases_name_their_function(f);
    if f == FactorFunction::IfElse {
        assert(function_aliases(f)[2] == function_display(f));
    } else {
        assert(function_aliases(f)[0] == function_display(f));
    }
}

proof fn lemma_lower_display(f: FactorFunction)
    ensures
        lower_text(function_display(f)) == function_display(f),
{
    lemma_function_display(f);
    let dn = function_display(f);
    assert(is_ascii_text(dn));
    assert(Seq::new(dn.len(), |i: int| ascii_lower(dn[i])) =~= dn);
}

// ---------------------------------------------------------------------------
// Reparsing

/// What reparsing a displayed expression needs of it.
#[verifier::opaque]
pub open spec fn reparses(e: SpecExpr, d: nat) -> bool {
    let x = expr_text(e);
    &&& parse_expr_spec(x, d) == Ok::<SpecExpr, SpecExprError>(e)
    &&& x.len() > 0
    &&& !char_is_whitespace(x[0])
    &&& !char_is_whitespace(x.last())
    &&& well_nested(x)
}

proof fn lemma_parse_by_trim(s1: Seq<char>, s2: Seq<char>, d: nat)
    requires
        trim(s1) == trim(s2),
    ensures
        parse_expr_spec(s1, d) == parse_expr_spec(s2, d),
{
}

proof fn lemma_max_depth_ge(args: Seq<SpecExpr>, n: int, i: int)
    requires
        0 <= i < n <= args.len(),
    ensures
        max_depth(args, n) >= spec_depth(args[i]),
    decreases n,
{
    if i < n - 1 {
        lemma_max_depth_ge(args, n - 1, i);
    }
}

/// The text of the first `m` arguments begins the text of the first `n`.
proof fn lemma_args_text_prefix(args: Seq<SpecExpr>, m: int, n: int)
    requires
        1 <= m <= n <= args.len(),
    ensures
        args_text(args, n).len() >= args_text(args, m).len(),
        args_text(args, n).subrange(0, args_text(args, m).len() as int) == args_text(args, m),
    decreases n - m,
{
    if m < n {
        lemma_args_text_prefix(args, m, n - 1);
        let x = args_text(args, n - 1);
        assert(args_text(args, n) == x + seq![',', ' '] + expr_text(args[n - 1]));
        assert((x + seq![',', ' '] + expr_text(args[n - 1])).subrange(0, args_text(args, m).len() as int)
            =~= x.subrange(0, args_text(args, m).len() as int));
    } else {
        assert(args_text(args, n).subrange(0, args_text(args, n).len() as int) =~= args_text(args, n));
    }
}

/// The text of the arguments: nonempty, no whitespace at its ends, and
/// balanced.
#[verifier::spinoff_prover]
#[verifier::rlimit(80)]
proof fn lemma_args_text_shape(args: Seq<SpecExpr>, n: int, d: nat)
    requires
        1 <= n <= args.len(),
        forall|i: int| 0 <= i < args.len() ==> reparses(#[trigger] args[i], d),
    ensures
        args_text(args, n).len() > 0,
        !char_is_whitespace(args_text(args, n)[0]),
        !char_is_whitespace(args_text(args, n).last()),
        balanced(args_text(args, n)),
        args_text(args, n)[0] == expr_text(args[0])[0],
        args_text(args, n).last() == expr_text(args[n - 1]).last(),
    decreases n,
{
    let t = expr_text(args[n - 1]);
    assert(reparses(args[n - 1], d));
    reveal(reparses);
    if n == 1 {
        assert(args_text(args, 1) == expr_text(args[0]));
    } else {
        lemma_args_text_shape(args, n - 1, d);
        let x = args_text(args, n - 1);
        let y = x + seq![',', ' '] + t;
        assert(args_text(args, n) == y);
        lemma_join_balanced(x, t);
        assert(y[0] == x[0]);
        assert(y.last() == t.last());
    }
}

/// The separator `, ` opens and closes nothing.
proof fn lemma_sep_nest(sep: Seq<char>)
    requires
        sep == seq![',', ' '],
    ensures
        forall|k: int| 0 <= k <= 2 ==> nest(#[trigger] sep.take(k)) == 0,
{
    let sp = seq![' '];
    assert(sep.take(0) =~= Seq::<char>::empty());
    assert(sep.take(1).drop_first() =~= Seq::<char>::empty());
    assert(sep.take(2).drop_first() =~= sp);
    assert(sp.drop_first() =~= Seq::<char>::empty());
    assert(sp[0] == ' ');
    assert(nest(sp.drop_first()) == 0);
    assert(nest(sp) == 0);
    assert(nest(sep.take(1).drop_first()) == 0);
    assert(sep.take(1)[0] == ',');
    assert(sep.take(2)[0] == ',');
    assert(nest(sep.take(1)) == 0);
    assert(nest(sep.take(2)) == 0);
}

/// Joining balanced texts with `, ` gives a balanced text.
proof fn lemma_join_balanced(x: Seq<char>, t: Seq<char>)
    requires
        balanced(x),
        balanced(t),
    ensures
        balanced(x + seq![',', ' '] + t),
{
    let sep = seq![',', ' '];
    lemma_sep_nest(sep);
    assert(sep.take(2) =~= sep);
    let y = x + sep + t;
    lemma_nest_add(x, sep);
    lemma_nest_add(x + sep, t);
    assert forall|k: int| 0 <= k <= y.len() implies nest(#[trigger] y.take(k)) >= 0 by {
        if k <= x.len() {
            assert(y.take(k) =~= x.take(k));
        } else if k <= x.len() + 2 {
            assert(y.take(k) =~= x + sep.take(k - x.len()));
            lemma_nest_add(x, sep.take(k - x.len()));
        } else {
            assert(y.take(k) =~= (x + sep) + t.take(k - x.len() - 2));
            lemma_nest_add(x + sep, t.take(k - x.len() - 2));
        }
    }
}

/// In an argument's segment (its text, after a space when it is not the
/// first) every comma stands inside parentheses.
proof fn lemma_segment_commas(t: Seq<char>, seg: Seq<char>)
    requires
        well_nested(t),
        seg == t || seg == seq![' '] + t,
    ensures
        forall|j: int| 0 <= j < seg.len() && seg[j] == ',' ==> nest(#[trigger] seg.take(j)) >= 1,
{
    if seg != t {
        let sp = seq![' '];
        assert(sp.drop_first() =~= Seq::<char>::empty());
        assert(nest(sp.drop_first()) == 0);
        assert(nest(sp) == 0);
        assert forall|j: int| 0 <= j < seg.len() && seg[j] == ',' implies nest(
            #[trigger] seg.take(j),
        ) >= 1 by {
            assert(seg[0] == ' ');
            assert(j >= 1);
            assert(seg[j] == t[j - 1]);
            assert(seg.take(j) =~= sp + t.take(j - 1));
            lemma_nest_add(sp, t.take(j - 1));
        }
    }
}

/// Where the text of argument `k` begins in the text of all arguments.
pub open spec fn seg_start(args: Seq<SpecExpr>, k: int) -> int {
    if k == 0 {
        0
    } else {
        (args_text(args, k).len() + 1) as int
    }
}

/// The text of argument `k - 1` as it stands between separators: after a
/// space, unless it is the first.
pub open spec fn arg_segment(args: Seq<SpecExpr>, k: int) -> Seq<char> {
    if k == 1 {
        expr_text(args[0])
    } else {
        seq![' '] + expr_text(args[k - 1])
    }
}

/// Where the segment of argument `k - 1` stands in the text of all
/// arguments, and what follows it.
#[verifier::spinoff_prover]
#[verifier::rlimit(80)]
proof fn lemma_segment_place(args: Seq<SpecExpr>, k: int)
    requires
        1 <= k <= args.len(),
    ensures
        ({
            let a = args_text(args, args.len() as int);
            let p = seg_start(args, k - 1);
            let q = args_text(args, k).len() as int;
            &&& 0 <= p <= q <= a.len()
            &&& a.subrange(p, q) == arg_segment(args, k)
            &&& k < args.len() ==> a[q] == ',' && seg_start(args, k) == q + 1
            &&& k == args.len() ==> q == a.len()
        }),
{
    let n = args.len() as int;
    let a = args_text(args, n);
    let p = seg_start(args, k - 1);
    let q = args_text(args, k).len() as int;
    let t = expr_text(args[k - 1]);
    lemma_args_text_prefix(args, k, n);
    if k == 1 {
        assert(args_text(args, 1) == t);
        assert(a.subrange(p, q) =~= arg_segment(args, k));
    } else {
        assert(args_text(args, k) == args_text(args, k - 1) + seq![',', ' '] + t);
        assert(a.subrange(p, q) =~= args_text(args, k).subrange(p, q));
        assert(args_text(args, k).subrange(p, q) =~= arg_segment(args, k));
    }
    if k < n {
        lemma_args_text_prefix(args, k + 1, n);
        assert(args_text(args, k + 1) == args_text(args, k) + seq![',', ' '] + expr_text(args[k]));
        assert(a[q] == args_text(args, k + 1)[q]);
    }
}

/// An expression's text, alone or after a space, parses as the expression
/// and holds no comma outside parentheses.
#[verifier::spinoff_prover]
proof fn lemma_segment_parses(e: SpecExpr, d: nat, seg: Seq<char>)
    requires
        reparses(e, d),
        seg == expr_text(e) || seg == seq![' '] + expr_text(e),
    ensures
        parse_expr_spec(seg, d) == Ok::<SpecExpr, SpecExprError>(e),
        trim(seg).len() > 0,
        nest(seg) == 0,
        forall|j: int| 0 <= j < seg.len() && seg[j] == ',' ==> nest(#[trigger] seg.take(j)) >= 1,
{
    reveal(reparses);
    let t = expr_text(e);
    if seg == t {
        lemma_trim_noop(t, Seq::empty());
    } else {
        let sp = seq![' '];
        lemma_trim_noop(t, sp);
        assert(sp.drop_first() =~= Seq::<char>::empty());
        assert(nest(sp) == 0);
        lemma_nest_add(sp, t);
    }
    lemma_parse_by_trim(seg, t, d);
    lemma_segment_commas(t, seg);
}

/// The segment of argument `k - 1` in the text of all arguments: it parses
/// as that argument, and it holds no comma outside parentheses.
#[verifier::spinoff_prover]
proof fn lemma_arg_segment(args: Seq<SpecExpr>, d: nat, k: int)
    requires
        1 <= k <= args.len(),
        forall|i: int| 0 <= i < args.len() ==> reparses(#[trigger] args[i], d),
    ensures
        ({
            let a = args_text(args, args.len() as int);
            let p = seg_start(args, k - 1);
            let q = args_text(args, k).len() as int;
            &&& 0 <= p <= q <= a.len()
            &&& parse_expr_spec(a.subrange(p, q), d) == Ok::<SpecExpr, SpecExprError>(args[k - 1])
            &&& trim(a.subrange(p, q)).len() > 0
            &&& nest(a.subrange(p, q)) == 0
            &&& forall|j: int|
                p <= j < q && a[j] == ',' ==> 0 + nest(#[trigger] a.subrange(p, j)) != 0
            &&& k < args.len() ==> a[q] == ',' && seg_start(args, k) == q + 1
            &&& k == args.len() ==> q == a.len()
        }),
{
    let a = args_text(args, args.len() as int);
    let p = seg_start(args, k - 1);
    let q = args_text(args, k).len() as int;
    let seg = arg_segment(args, k);
    lemma_segment_place(args, k);
    assert(reparses(args[k - 1], d));
    lemma_segment_parses(args[k - 1], d, seg);
    assert forall|j: int| p <= j < q && a[j] == ',' implies 0 + nest(
        #[trigger] a.subrange(p, j),
    ) != 0 by {
        assert(a.subrange(p, j) =~= seg.take(j - p));
        assert(a[j] == seg[j - p]);
    }
}

/// Scanning the text of the arguments: after the first `k` arguments the
/// scan stands after their separator with those arguments parsed.
proof fn lemma_scan_args(args: Seq<SpecExpr>, d: nat, k: int)
    requires
        1 <= args.len(),
        0 <= k < args.len(),
        forall|i: int| 0 <= i < args.len() ==> reparses(#[trigger] args[i], d),
    ensures
        args_scan(args_text(args, args.len() as int), 0, 0, 0, Seq::empty(), d) == args_scan(
            args_text(args, args.len() as int),
            seg_start(args, k),
            seg_start(args, k),
            0,
            args.take(k),
            d,
        ),
    decreases k,
{
    if k == 0 {
        assert(args.take(0) =~= Seq::<SpecExpr>::empty());
    } else {
        let a = args_text(args, args.len() as int);
        let p = seg_start(args, k - 1);
        let q = args_text(args, k).len() as int;
        lemma_scan_args(args, d, k - 1);
        lemma_arg_segment(args, d, k);
        lemma_scan_skip(a, p, q, p, 0, args.take(k - 1), d);
        assert(args.take(k - 1).push(args[k - 1]) =~= args.take(k));
    }
}

proof fn lemma_reparse_args(args: Seq<SpecExpr>, d: nat)
    requires
        1 <= args.len(),
        forall|i: int| 0 <= i < args.len() ==> reparses(#[trigger] args[i], d),
    ensures
        parse_args_spec(args_text(args, args.len() as int), d) == Ok::<Seq<SpecExpr>, SpecExprError>(args),
        balanced(args_text(args, args.len() as int)),
        args_text(args, args.len() as int).len() > 0,
        args_text(args, args.len() as int)[0] == expr_text(args[0])[0],
{
    let n = args.len() as int;
    let a = args_text(args, n);
    lemma_args_text_shape(args, n, d);
    lemma_trim_noop(a, Seq::empty());
    lemma_scan_args(args, d, n - 1);
    lemma_arg_segment(args, d, n);
    let p = seg_start(args, n - 1);
    lemma_scan_skip(a, p, a.len() as int, p, 0, args.take(n - 1), d);
    assert(args.take(n - 1).push(args[n - 1]) =~= args);
}

/// A well-formed expression within the depth limit reparses from its text.
pub proof fn lemma_reparse(e: SpecExpr, d: nat)
    requires
        well_formed(e),
        spec_depth(e) + d <= MAX_EXPRESSION_DEPTH,
    ensures
        reparses(e, d),
    decreases e,
{
    reveal(reparses);
    match e {
        SpecExpr::Number(t) => {
            lemma_literal_text_chars(t);
            let x = expr_text(e);
            assert(x == t);
            assert(plain(x));
            lemma_plain_well_nested(x);
            lemma_trim_noop(x, Seq::empty());
        },
        SpecExpr::Variable(n) => {
            lemma_trim_ends(n);
            assert forall|i: int| 0 <= i < n.len() implies n[i] != '(' by {
                assert(is_ident_char(n[i]));
            }
            assert(plain(n)) by {
                assert forall|i: int| 0 <= i < n.len() implies (#[trigger] n[i] != '(' && n[i] != ')'
                    && n[i] != ',') by {
                    assert(is_ident_char(n[i]));
                }
            }
            lemma_plain_well_nested(n);
            lemma_first_index(n, '(', n.len() as int);
        },
        SpecExpr::Function(f, args) => {
            let n = args.len() as int;
            assert forall|i: int| 0 <= i < n implies reparses(#[trigger] args[i], d + 1) by {
                lemma_max_depth_ge(args, n, i);
                lemma_reparse(args[i], d + 1);
            }
            lemma_reparse_call(f, args, d);
        },
    }
}

/// A call reparses from its text when its arguments do.
#[verifier::spinoff_prover]
#[verifier::rlimit(80)]
proof fn lemma_reparse_call(f: FactorFunction, args: Seq<SpecExpr>, d: nat)
    requires
        arg_range(f).0 <= args.len() <= arg_range(f).1,
        d < MAX_EXPRESSION_DEPTH,
        forall|i: int| 0 <= i < args.len() ==> reparses(#[trigger] args[i], d + 1),
    ensures
        reparses(SpecExpr::Function(f, args), d),
{
    reveal(reparses);
    let e = SpecExpr::Function(f, args);
    let n = args.len() as int;
    assert(arg_range(f).0 >= 1);
    lemma_reparse_args(args, d + 1);
    lemma_function_display(f);
    lemma_lower_display(f);
    let dn = function_display(f);
    let a = args_text(args, n);
    let x = dn + seq!['('] + a + seq![')'];
    assert(expr_text(e) == x);
    let m = dn.len() as int;
    // the text is trimmed
    assert(x[0] == dn[0]);
    lemma_trim_noop(x, Seq::empty());
    // it is no literal
    assert(x[m] == '(');
    lemma_call_text_not_literal(x, m);
    // the call's name and parenthesis
    assert forall|i: int| 0 <= i < m implies x[i] != '(' by {
        assert(x[i] == dn[i]);
    }
    lemma_first_index(x, '(', m);
    assert(x.take(m) =~= dn);
    lemma_trim_noop(dn, Seq::empty());
    // the closing parenthesis
    assert(x.subrange(m + 1, m + 1 + a.len()) =~= a);
    assert forall|k: int| m + 1 <= k <= m + 1 + a.len() implies 1 + nest(
        #[trigger] x.subrange(m + 1, k),
    ) >= 1 by {
        assert(x.subrange(m + 1, k) =~= a.take(k - m - 1));
    }
    lemma_match_skip(x, m + 1, m + 1 + a.len(), 1);
    assert(x[m + 1 + a.len()] == ')');
    assert(match_from(x, m + 1 + a.len(), 1) == Some(x.len() - 1));
    assert(x.subrange(m + 1, x.len() - 1) =~= a);
    // the text is well nested
    lemma_display_well_nested(dn, a);
}

/// A call's text is well nested when its arguments' text is balanced.
proof fn lemma_display_well_nested(dn: Seq<char>, a: Seq<char>)
    requires
        plain(dn),
        balanced(a),
    ensures
        well_nested(dn + seq!['('] + a + seq![')']),
{
    let x = dn + seq!['('] + a + seq![')'];
    let m = dn.len() as int;
    lemma_plain_well_nested(dn);
    let op = seq!['('];
    let cl = seq![')'];
    assert(op.drop_first() =~= Seq::<char>::empty());
    assert(cl.drop_first() =~= Seq::<char>::empty());
    assert(nest(op.drop_first()) == 0);
    assert(nest(cl.drop_first()) == 0);
    assert(nest(op) == 1);
    assert(nest(cl) == -1);
    lemma_nest_add(dn, op);
    lemma_nest_add(dn + op, a);
    lemma_nest_add(dn + op + a, cl);
    assert forall|k: int| 0 <= k <= x.len() implies nest(#[trigger] x.take(k)) >= 0 && (m < k <= m
        + a.len() ==> nest(x.take(k)) >= 1) by {
        if k <= m {
            assert(x.take(k) =~= dn.take(k));
        } else if k <= m + 1 + a.len() {
            assert(x.take(k) =~= (dn + op) + a.take(k - m - 1));
            lemma_nest_add(dn + op, a.take(k - m - 1));
        } else {
            assert(x.take(k) =~= x);
        }
    }
    assert forall|k: int| 0 <= k < x.len() && x[k] == ',' implies nest(#[trigger] x.take(k)) >= 1 by {
        if k < m {
            assert(x[k] == dn[k]);
        } else if k == m {
        } else if k < m + 1 + a.len() {
        } else {
        }
    }
}

/// Law: the text of a parsed expression parses back to the same
/// expression.
pub proof fn law_display_reparses(s: Seq<char>)
    ensures
        parse_spec(s) matches Ok(e) ==> parse_spec(expr_text(e)) == Ok::<SpecExpr, SpecExprError>(e),
{
    law_parsed_expressions_are_bounded(s);
    if let Ok(e) = parse_spec(s) {
        lemma_reparse(e, 0);
        reveal(reparses);
        lemma_trim_noop(expr_text(e), Seq::empty());
    }
}

/// Law: a function's displayed name, written in any mix of ASCII cases,
/// names that function again.
pub proof fn law_function_names_reread(f: FactorFunction, s: Seq<char>)
    requires
        is_ascii_text(s),
        s.len() == function_display(f).len(),
        forall|i: int| 0 <= i < s.len() ==> ascii_lower(#[trigger] s[i]) == function_display(f)[i],
    ensures
        function_named(lower_text(s)) == Some(f),
{
    lemma_function_display(f);
    assert(lower_text(s) =~= function_display(f));
}

} // verus!
