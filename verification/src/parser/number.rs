//! Numeric literals of factor expressions.
//!
//! A literal is accepted exactly when it follows the grammar that the standard
//! library documents for `f64::from_str`:
//!
//! ```text
//! Float  ::= Sign? ( 'inf' | 'infinity' | 'nan' | Number )
//! Number ::= ( Digit+ | Digit+ '.' Digit* | Digit* '.' Digit+ ) Exp?
//! Exp    ::= 'e' Sign? Digit+
//! Sign   ::= [+-]
//! Digit  ::= [0-9]
//! ```
//!
//! (letters in any case). Literals are kept as text; their value is read as the
//! exact decimal they denote.

use vstd::prelude::*;
use crate::text::{first_index, is_ascii_digit, str_chars};

verus! {

pub open spec fn is_sign(c: char) -> bool {
    c == '+' || c == '-'
}

pub open spec fn is_exp_marker(c: char) -> bool {
    c == 'e' || c == 'E'
}

pub open spec fn is_mantissa_char(c: char) -> bool {
    is_ascii_digit(c) || c == '.'
}

/// The literal without its leading sign, if any.
pub open spec fn unsigned_part(s: Seq<char>) -> Seq<char> {
    if s.len() > 0 && is_sign(s[0]) {
        s.drop_first()
    } else {
        s
    }
}

/// `s` equals a word, each letter in either of the two given cases.
pub open spec fn ci_eq(s: Seq<char>, lower: Seq<char>, upper: Seq<char>) -> bool {
    &&& s.len() == lower.len()
    &&& lower.len() == upper.len()
    &&& forall|i: int| 0 <= i < s.len() ==> s[i] == lower[i] || s[i] == upper[i]
}

pub open spec fn is_inf_word(b: Seq<char>) -> bool {
    ci_eq(b, "inf"@, "INF"@) || ci_eq(b, "infinity"@, "INFINITY"@)
}

pub open spec fn is_nan_word(b: Seq<char>) -> bool {
    ci_eq(b, "nan"@, "NAN"@)
}

/// Length of the longest prefix made of digits and dots.
pub open spec fn mantissa_len(b: Seq<char>) -> nat
    decreases b.len(),
{
    if b.len() > 0 && is_mantissa_char(b[0]) {
        1 + mantissa_len(b.drop_first())
    } else {
        0
    }
}

pub open spec fn count_digits(m: Seq<char>) -> nat
    decreases m.len(),
{
    if m.len() == 0 {
        0
    } else {
        count_digits(m.drop_last()) + if is_ascii_digit(m.last()) { 1nat } else { 0nat }
    }
}

pub open spec fn count_dots(m: Seq<char>) -> nat
    decreases m.len(),
{
    if m.len() == 0 {
        0
    } else {
        count_dots(m.drop_last()) + if m.last() == '.' { 1nat } else { 0nat }
    }
}

pub open spec fn all_digits(d: Seq<char>) -> bool {
    forall|i: int| 0 <= i < d.len() ==> is_ascii_digit(#[trigger] d[i])
}

/// `Sign? Digit+`
pub open spec fn is_exponent(e: Seq<char>) -> bool {
    unsigned_part(e).len() > 0 && all_digits(unsigned_part(e))
}

/// The `Number` rule of the grammar.
pub open spec fn is_decimal(b: Seq<char>) -> bool {
    let k = mantissa_len(b);
    &&& count_digits(b.take(k as int)) >= 1
    &&& count_dots(b.take(k as int)) <= 1
    &&& (k == b.len() || (is_exp_marker(b[k as int]) && is_exponent(b.skip(k + 1int))))
}

/// `s` is accepted by `f64::from_str`.
pub open spec fn is_float_literal(s: Seq<char>) -> bool {
    let b = unsigned_part(s);
    is_inf_word(b) || is_nan_word(b) || is_decimal(b)
}

proof fn lemma_mantissa_len(b: Seq<char>, k: int)
    requires
        0 <= k <= b.len(),
        forall|j: int| 0 <= j < k ==> is_mantissa_char(b[j]),
        k < b.len() ==> !is_mantissa_char(b[k]),
    ensures
        mantissa_len(b) == k,
    decreases k,
{
    if k > 0 {
        lemma_mantissa_len(b.drop_first(), k - 1);
    }
}

/// Whether `v[lo..hi]` matches a word case-insensitively.
fn range_ci_eq(v: &Vec<char>, lo: usize, hi: usize, lower: &str, upper: &str) -> (r: bool)
    requires
        lo <= hi <= v@.len(),
    ensures
        r == ci_eq(v@.subrange(lo as int, hi as int), lower@, upper@),
{
    let l = str_chars(lower);
    let u = str_chars(upper);
    if hi - lo != l.len() || l.len() != u.len() {
        return false;
    }
    let mut k: usize = 0;
    while k < l.len()
        invariant
            hi - lo == l@.len(),
            l@.len() == u@.len(),
            l@ == lower@,
            u@ == upper@,
            lo <= hi <= v@.len(),
            k <= l@.len(),
            forall|j: int| 0 <= j < k ==> v@[lo + j] == l@[j] || v@[lo + j] == u@[j],
        decreases l.len() - k,
    {
        if v[lo + k] != l[k] && v[lo + k] != u[k] {
            assert(v@.subrange(lo as int, hi as int)[k as int] == v@[lo + k]);
            return false;
        }
        k += 1;
    }
    true
}

/// Whether `v[lo..hi]` is accepted by `f64::from_str`.
#[verifier::loop_isolation(false)]
#[verifier::spinoff_prover]
#[verifier::rlimit(40)]
pub fn is_float_literal_range(v: &Vec<char>, lo: usize, hi: usize) -> (r: bool)
    requires
        lo <= hi <= v@.len(),
    ensures
        r == is_float_literal(v@.subrange(lo as int, hi as int)),
{
    let ghost s = v@.subrange(lo as int, hi as int);
    let b0 = if lo < hi && (v[lo] == '+' || v[lo] == '-') { lo + 1 } else { lo };
    let ghost b = v@.subrange(b0 as int, hi as int);
    assert(b == unsigned_part(s));
    proof {
        reveal_strlit("inf");
        reveal_strlit("INF");
        reveal_strlit("infinity");
        reveal_strlit("INFINITY");
        reveal_strlit("nan");
        reveal_strlit("NAN");
    }
    if range_ci_eq(v, b0, hi, "inf", "INF") || range_ci_eq(v, b0, hi, "infinity", "INFINITY")
        || range_ci_eq(v, b0, hi, "nan", "NAN") {
        return true;
    }
    // mantissa: digits and dots
    let mut k = b0;
    let mut digits: usize = 0;
    let mut dots: usize = 0;
    while k < hi && (('0' <= v[k] && v[k] <= '9') || v[k] == '.')
        invariant
            b0 <= k <= hi <= v@.len(),
            b == v@.subrange(b0 as int, hi as int),
            forall|j: int| b0 <= j < k ==> is_mantissa_char(v@[j]),
            digits == count_digits(v@.subrange(b0 as int, k as int)),
            dots == count_dots(v@.subrange(b0 as int, k as int)),
            digits + dots == k - b0,
        decreases hi - k,
    {
        assert(v@.subrange(b0 as int, k + 1).drop_last() =~= v@.subrange(b0 as int, k as int));
        if v[k] == '.' {
            dots += 1;
        } else {
            digits += 1;
        }
        k += 1;
    }
    proof {
        lemma_mantissa_len(b, k - b0);
        assert(b.take(k - b0) =~= v@.subrange(b0 as int, k as int));
    }
    if digits == 0 || dots > 1 {
        return false;
    }
    if k == hi {
        return true;
    }
    if v[k] != 'e' && v[k] != 'E' {
        return false;
    }
    // exponent: optional sign then at least one digit
    let e0 = k + 1;
    let d0 = if e0 < hi && (v[e0] == '+' || v[e0] == '-') { e0 + 1 } else { e0 };
    proof {
        assert(b.skip(k - b0 + 1) =~= v@.subrange(e0 as int, hi as int));
        assert(unsigned_part(v@.subrange(e0 as int, hi as int)) =~= v@.subrange(d0 as int, hi as int));
    }
    if d0 == hi {
        return false;
    }
    let mut j = d0;
    while j < hi
        invariant
            d0 <= j <= hi <= v@.len(),
            forall|i: int| d0 <= i < j ==> is_ascii_digit(v@[i]),
        decreases hi - j,
    {
        if !('0' <= v[j] && v[j] <= '9') {
            assert(v@.subrange(d0 as int, hi as int)[j - d0] == v@[j as int]);
            return false;
        }
        j += 1;
    }
    assert(all_digits(v@.subrange(d0 as int, hi as int)));
    true
}

// ---------------------------------------------------------------------------
// The value of a literal

/// Value of a decimal digit char.
pub open spec fn digit_value(c: char) -> nat {
    if is_ascii_digit(c) {
        ((c as u32) - ('0' as u32)) as nat
    } else {
        0
    }
}

/// Value of a string of decimal digits.
pub open spec fn digits_value(d: Seq<char>) -> nat
    decreases d.len(),
{
    if d.len() == 0 {
        0
    } else {
        digits_value(d.drop_last()) * 10 + digit_value(d.last())
    }
}

pub open spec fn pow10(n: nat) -> nat
    decreases n,
{
    if n == 0 {
        1
    } else {
        10 * pow10((n - 1) as nat)
    }
}

/// The mantissa (digits and dot) of an unsigned decimal literal.
pub open spec fn mantissa_of(b: Seq<char>) -> Seq<char> {
    b.take(mantissa_len(b) as int)
}

/// Digits of the mantissa before the dot.
pub open spec fn int_digits(m: Seq<char>) -> Seq<char> {
    if first_index(m, '.') < 0 {
        m
    } else {
        m.take(first_index(m, '.'))
    }
}

/// Digits of the mantissa after the dot.
pub open spec fn frac_digits(m: Seq<char>) -> Seq<char> {
    if first_index(m, '.') < 0 {
        Seq::empty()
    } else {
        m.skip(first_index(m, '.') + 1)
    }
}

/// The value of the exponent of an unsigned decimal literal (0 if none).
pub open spec fn exponent_of(b: Seq<char>) -> int {
    let k = mantissa_len(b);
    if k >= b.len() {
        0
    } else {
        let e = b.skip(k + 1int);
        let v = digits_value(unsigned_part(e)) as int;
        if e.len() > 0 && e[0] == '-' {
            -v
        } else {
            v
        }
    }
}

/// The exact value a literal denotes: the finite value is
/// `±digits_value(digits) * 10^(point - digits.len())`.
pub enum LiteralValue {
    NaN,
    Infinite { negative: bool },
    Finite { negative: bool, digits: Seq<char>, point: int },
}

pub open spec fn literal_value(s: Seq<char>) -> LiteralValue {
    let negative = s.len() > 0 && s[0] == '-';
    let b = unsigned_part(s);
    if is_nan_word(b) {
        LiteralValue::NaN
    } else if is_inf_word(b) {
        LiteralValue::Infinite { negative }
    } else {
        let m = mantissa_of(b);
        LiteralValue::Finite {
            negative,
            digits: int_digits(m) + frac_digits(m),
            point: int_digits(m).len() + exponent_of(b),
        }
    }
}

/// Index of the first digit that is not `0`, or `-1`.
pub open spec fn first_nonzero(d: Seq<char>) -> int
    decreases d.len(),
{
    if d.len() == 0 {
        -1
    } else if d[0] != '0' {
        0
    } else {
        let r = first_nonzero(d.drop_first());
        if r < 0 {
            -1
        } else {
            r + 1
        }
    }
}

/// The decimal place of the leading nonzero digit (0 for units).
pub open spec fn leading_place(digits: Seq<char>, point: int) -> int {
    point - 1 - first_nonzero(digits)
}

/// The class of a literal's value: magnitudes of `10^309` and above count as
/// infinite and magnitudes below `10^-324` as zero. Between those bounds the
/// exact decimal value is kept: it is not rounded to the nearest double, so
/// values between the largest double and `10^309`, or within half a unit in
/// the last place of an integer, are not classed as a double would class
/// them.
pub enum NumberClass {
    NaN,
    Infinite(bool),
    Zero,
    Finite(bool),
}

pub open spec fn value_class(v: LiteralValue) -> NumberClass {
    match v {
        LiteralValue::NaN => NumberClass::NaN,
        LiteralValue::Infinite { negative } => NumberClass::Infinite(negative),
        LiteralValue::Finite { negative, digits, point } => {
            if first_nonzero(digits) < 0 {
                NumberClass::Zero
            } else if leading_place(digits, point) >= 309 {
                NumberClass::Infinite(negative)
            } else if leading_place(digits, point) <= -325 {
                NumberClass::Zero
            } else {
                NumberClass::Finite(negative)
            }
        },
    }
}

/// The integer part of `digits_value(digits) * 10^(point - digits.len())`.
pub open spec fn int_part(digits: Seq<char>, point: int) -> nat {
    if point <= 0 {
        0
    } else if point >= digits.len() {
        digits_value(digits) * pow10((point - digits.len()) as nat)
    } else {
        digits_value(digits.take(point))
    }
}

pub open spec fn clamp_i64(x: int) -> i64 {
    if x > i64::MAX {
        i64::MAX
    } else if x < i64::MIN {
        i64::MIN
    } else {
        x as i64
    }
}

/// The value converted with `as i64` (truncation toward zero, saturating;
/// NaN gives 0).
pub open spec fn value_trunc_i64(v: LiteralValue) -> i64 {
    match value_class(v) {
        NumberClass::NaN => 0,
        NumberClass::Zero => 0,
        NumberClass::Infinite(neg) => if neg {
            i64::MIN
        } else {
            i64::MAX
        },
        NumberClass::Finite(neg) => {
            let ip = int_part(v->digits, v->point) as int;
            clamp_i64(if neg { -ip } else { ip })
        },
    }
}

/// The value is below zero.
pub open spec fn value_is_negative(v: LiteralValue) -> bool {
    value_class(v) == NumberClass::Infinite(true) || value_class(v) == NumberClass::Finite(true)
}

/// The magnitude of the value is below `1e-10`.
pub open spec fn value_is_tiny(v: LiteralValue) -> bool {
    value_class(v) == NumberClass::Zero || (value_class(v) is Finite && leading_place(
        v->digits,
        v->point,
    ) <= -11)
}

/// What the validator reads of a literal.
pub struct LiteralFacts {
    pub is_nan: bool,
    pub is_infinite: bool,
    pub is_negative: bool,
    pub is_tiny: bool,
    pub trunc: i64,
}

pub open spec fn value_facts(v: LiteralValue) -> LiteralFacts {
    LiteralFacts {
        is_nan: value_class(v) is NaN,
        is_infinite: value_class(v) is Infinite,
        is_negative: value_is_negative(v),
        is_tiny: value_is_tiny(v),
        trunc: value_trunc_i64(v),
    }
}

pub open spec fn literal_facts_spec(s: Seq<char>) -> LiteralFacts {
    value_facts(literal_value(s))
}

/// Bound at which exponents saturate while they are read.
pub open spec fn exp_cap() -> int {
    0x10_0000_0000_0000_0000_0000_0000int
}

pub open spec fn sat_cap(x: int, cap: int) -> int {
    if x > cap {
        cap
    } else if x < -cap {
        -cap
    } else {
        x
    }
}

proof fn lemma_sat_step(x: int, d: int, c: int)
    requires
        x >= 0,
        0 <= d <= 9,
        c > 0,
    ensures
        sat_cap(10 * sat_cap(x, c) + d, c) == sat_cap(10 * x + d, c),
{
}

proof fn lemma_pow10_step(dv: nat, t: nat)
    ensures
        dv * pow10(t + 1) == 10 * (dv * pow10(t)),
        pow10(t) >= 1,
    decreases t,
{
    assert(pow10(t + 1) == 10 * pow10(t));
    assert(dv * (10 * pow10(t)) == 10 * (dv * pow10(t))) by (nonlinear_arith);
    if t > 0 {
        lemma_pow10_step(dv, (t - 1) as nat);
    }
}

proof fn lemma_first_nonzero(d: Seq<char>, k: int)
    requires
        0 <= k <= d.len(),
        forall|j: int| 0 <= j < k ==> d[j] == '0',
        k < d.len() ==> d[k] != '0',
    ensures
        first_nonzero(d) == if k < d.len() { k } else { -1 },
    decreases k,
{
    if k > 0 {
        lemma_first_nonzero(d.drop_first(), k - 1);
    }
}

proof fn lemma_first_nonzero_bound(d: Seq<char>)
    ensures
        -1 <= first_nonzero(d) < d.len(),
    decreases d.len(),
{
    if d.len() > 0 && d[0] == '0' {
        lemma_first_nonzero_bound(d.drop_first());
    }
}

/// Value of the digits `v[lo..hi]`, saturated at `cap`.
fn digits_value_sat(v: &Vec<char>, lo: usize, hi: usize, cap: u128) -> (r: u128)
    requires
        lo <= hi <= v@.len(),
        0 < cap <= 0x10_0000_0000_0000_0000_0000_0000u128,
    ensures
        r == sat_cap(digits_value(v@.subrange(lo as int, hi as int)) as int, cap as int),
{
    let mut acc: u128 = 0;
    let mut k = lo;
    while k < hi
        invariant
            lo <= k <= hi <= v@.len(),
            0 < cap <= 0x10_0000_0000_0000_0000_0000_0000u128,
            acc == sat_cap(digits_value(v@.subrange(lo as int, k as int)) as int, cap as int),
        decreases hi - k,
    {
        let c = v[k];
        let d: u128 = if '0' <= c && c <= '9' { (c as u32 - '0' as u32) as u128 } else { 0 };
        assert(v@.subrange(lo as int, k + 1).drop_last() =~= v@.subrange(lo as int, k as int));
        proof {
            lemma_sat_step(digits_value(v@.subrange(lo as int, k as int)) as int, d as int, cap as int);
        }
        let t = acc * 10 + d;
        acc = if t > cap { cap } else { t };
        k += 1;
    }
    acc
}

/// The end `k` of the mantissa starting at `b0`, and the index of its dot.
fn scan_mantissa(v: &Vec<char>, b0: usize, hi: usize) -> (r: (usize, Option<usize>))
    requires
        b0 <= hi <= v@.len(),
    ensures
        b0 <= r.0 <= hi,
        mantissa_len(v@.subrange(b0 as int, hi as int)) == r.0 - b0,
        ({
            let m = v@.subrange(b0 as int, r.0 as int);
            match r.1 {
                Some(p) => b0 <= p < r.0 && first_index(m, '.') == p - b0,
                None => first_index(m, '.') == -1,
            }
        }),
{
    let mut k = b0;
    let mut dot: Option<usize> = None;
    while k < hi && (('0' <= v[k] && v[k] <= '9') || v[k] == '.')
        invariant
            b0 <= k <= hi <= v@.len(),
            forall|j: int| b0 <= j < k ==> is_mantissa_char(v@[j]),
            match dot {
                Some(p) => b0 <= p < k && v@[p as int] == '.' && forall|j: int|
                    b0 <= j < p ==> v@[j] != '.',
                None => forall|j: int| b0 <= j < k ==> v@[j] != '.',
            },
        decreases hi - k,
    {
        if v[k] == '.' && dot.is_none() {
            dot = Some(k);
        }
        k += 1;
    }
    proof {
        let b = v@.subrange(b0 as int, hi as int);
        lemma_mantissa_len(b, k - b0);
        let m = v@.subrange(b0 as int, k as int);
        match dot {
            Some(p) => {
                crate::text::lemma_first_index(m, '.', p - b0);
            },
            None => {
                crate::text::lemma_first_index(m, '.', k - b0);
            },
        }
    }
    (k, dot)
}

/// `v[a..b]` followed by `v[c..d]`.
fn concat_ranges(v: &Vec<char>, a: usize, b: usize, c: usize, d: usize) -> (r: Vec<char>)
    requires
        a <= b <= v@.len(),
        c <= d <= v@.len(),
    ensures
        r@ == v@.subrange(a as int, b as int) + v@.subrange(c as int, d as int),
{
    let mut out: Vec<char> = Vec::new();
    let mut j = a;
    while j < b
        invariant
            a <= j <= b <= v@.len(),
            out@ == v@.subrange(a as int, j as int),
        decreases b - j,
    {
        out.push(v[j]);
        assert(v@.subrange(a as int, j + 1) =~= v@.subrange(a as int, j as int).push(v@[j as int]));
        j += 1;
    }
    let mut j = c;
    while j < d
        invariant
            c <= j <= d <= v@.len(),
            out@ == v@.subrange(a as int, b as int) + v@.subrange(c as int, j as int),
        decreases d - j,
    {
        out.push(v[j]);
        assert(v@.subrange(c as int, j + 1) =~= v@.subrange(c as int, j as int).push(v@[j as int]));
        j += 1;
    }
    out
}

/// The exponent of the unsigned literal `v[b0..hi]` whose mantissa ends at
/// `k`, saturated at `exp_cap()`.
fn read_exponent(v: &Vec<char>, b0: usize, k: usize, hi: usize) -> (r: i128)
    requires
        b0 <= k <= hi <= v@.len(),
        mantissa_len(v@.subrange(b0 as int, hi as int)) == k - b0,
    ensures
        r == sat_cap(exponent_of(v@.subrange(b0 as int, hi as int)), exp_cap()),
{
    let ghost b = v@.subrange(b0 as int, hi as int);
    if k >= hi {
        return 0;
    }
    let e0 = k + 1;
    let d0 = if e0 < hi && (v[e0] == '+' || v[e0] == '-') { e0 + 1 } else { e0 };
    proof {
        assert(b.skip(k - b0 + 1) =~= v@.subrange(e0 as int, hi as int));
        assert(unsigned_part(v@.subrange(e0 as int, hi as int)) =~= v@.subrange(
            d0 as int,
            hi as int,
        ));
    }
    let mag = digits_value_sat(v, d0, hi, 0x10_0000_0000_0000_0000_0000_0000u128);
    if e0 < hi && v[e0] == '-' {
        0 - (mag as i128)
    } else {
        mag as i128
    }
}

/// Index of the first digit of `d` that is not `0`, or `d.len()`.
fn find_nonzero(d: &Vec<char>) -> (r: usize)
    ensures
        r <= d@.len(),
        r < d@.len() ==> d@[r as int] != '0',
        first_nonzero(d@) == if r < d@.len() { r as int } else { -1 },
{
    let mut f: usize = 0;
    while f < d.len() && d[f] == '0'
        invariant
            f <= d@.len(),
            forall|i: int| 0 <= i < f ==> d@[i] == '0',
        decreases d.len() - f,
    {
        f += 1;
    }
    proof {
        lemma_first_nonzero(d@, f as int);
    }
    f
}

/// `int_part(d, q)` saturated at `2^64`, for a point no further than 309
/// places after the digits.
fn int_part_sat(d: &Vec<char>, q: i128) -> (r: u128)
    requires
        q <= d@.len() + 400,
    ensures
        r == sat_cap(int_part(d@, q as int) as int, 0x1_0000_0000_0000_0000int),
{
    let cap2: u128 = 0x1_0000_0000_0000_0000u128;
    if q <= 0 {
        return 0;
    }
    if q < d.len() as i128 {
        let qq = q as usize;
        assert(d@.subrange(0, qq as int) =~= d@.take(qq as int));
        return digits_value_sat(d, 0, qq, cap2);
    }
    assert(d@.subrange(0, d@.len() as int) =~= d@);
    let mut acc = digits_value_sat(d, 0, d.len(), cap2);
    let pad = (q - d.len() as i128) as usize;
    let mut t: usize = 0;
    assert(pow10(0) == 1);
    assert(digits_value(d@) * pow10(0) == digits_value(d@));
    while t < pad
        invariant
            t <= pad,
            pad == q - d@.len(),
            cap2 == 0x1_0000_0000_0000_0000u128,
            acc == sat_cap((digits_value(d@) * pow10(t as nat)) as int, cap2 as int),
        decreases pad - t,
    {
        proof {
            lemma_pow10_step(digits_value(d@), t as nat);
            lemma_sat_step((digits_value(d@) * pow10(t as nat)) as int, 0, cap2 as int);
        }
        let x = acc * 10;
        acc = if x > cap2 { cap2 } else { x };
        t += 1;
    }
    acc
}

/// `clamp_i64(±x)` for `x` saturated at `2^64`.
fn signed_clamp(negative: bool, x: u128) -> (r: i64)
    requires
        x <= 0x1_0000_0000_0000_0000u128,
    ensures
        forall|ip: int|
            ip >= 0 && x == sat_cap(ip, 0x1_0000_0000_0000_0000int) ==> r == clamp_i64(
                if negative { -ip } else { ip },
            ),
{
    if negative {
        if x > 0x8000_0000_0000_0000u128 {
            i64::MIN
        } else {
            (0i128 - x as i128) as i64
        }
    } else {
        if x > 0x7fff_ffff_ffff_ffffu128 {
            i64::MAX
        } else {
            x as i64
        }
    }
}

/// The facts of a literal `v[lo..hi]` that `f64::from_str` accepts.
pub fn literal_facts(v: &Vec<char>, lo: usize, hi: usize) -> (r: LiteralFacts)
    requires
        lo <= hi <= v@.len(),
        is_float_literal(v@.subrange(lo as int, hi as int)),
    ensures
        r == literal_facts_spec(v@.subrange(lo as int, hi as int)),
{
    let ghost s = v@.subrange(lo as int, hi as int);
    let negative = lo < hi && v[lo] == '-';
    let b0 = if lo < hi && (v[lo] == '+' || v[lo] == '-') { lo + 1 } else { lo };
    let ghost b = v@.subrange(b0 as int, hi as int);
    assert(b == unsigned_part(s));
    proof {
        reveal_strlit("inf");
        reveal_strlit("INF");
        reveal_strlit("infinity");
        reveal_strlit("INFINITY");
        reveal_strlit("nan");
        reveal_strlit("NAN");
    }
    if range_ci_eq(v, b0, hi, "nan", "NAN") {
        return LiteralFacts {
            is_nan: true,
            is_infinite: false,
            is_negative: false,
            is_tiny: false,
            trunc: 0,
        };
    }
    if range_ci_eq(v, b0, hi, "inf", "INF") || range_ci_eq(v, b0, hi, "infinity", "INFINITY") {
        return LiteralFacts {
            is_nan: false,
            is_infinite: true,
            is_negative: negative,
            is_tiny: false,
            trunc: if negative { i64::MIN } else { i64::MAX },
        };
    }
    let (k, dot) = scan_mantissa(v, b0, hi);
    let ghost m = v@.subrange(b0 as int, k as int);
    assert(mantissa_of(b) =~= m);
    let (int_end, frac_start) = match dot {
        Some(p) => (p, p + 1),
        None => (k, k),
    };
    let digits = concat_ranges(v, b0, int_end, frac_start, k);
    proof {
        assert(int_digits(m) =~= v@.subrange(b0 as int, int_end as int));
        assert(frac_digits(m) =~= v@.subrange(frac_start as int, k as int));
    }
    let nint = int_end - b0;
    let exp = read_exponent(v, b0, k, hi);
    let ghost point = nint + exponent_of(b);
    assert(literal_value(s) == (LiteralValue::Finite { negative, digits: digits@, point }));
    finite_facts(negative, &digits, nint, exp, Ghost(exponent_of(b)))
}

/// The facts of the finite literal with the given digits, `nint` digits
/// before the dot and exponent `e` (given saturated as `exp`).
fn finite_facts(negative: bool, digits: &Vec<char>, nint: usize, exp: i128, e: Ghost<int>) -> (r:
    LiteralFacts)
    requires
        nint <= digits@.len(),
        exp == sat_cap(e@, exp_cap()),
    ensures
        r == value_facts(LiteralValue::Finite { negative, digits: digits@, point: nint + e@ }),
{
    let ghost point = nint + e@;
    let f = find_nonzero(digits);
    if f == digits.len() {
        return LiteralFacts {
            is_nan: false,
            is_infinite: false,
            is_negative: false,
            is_tiny: true,
            trunc: 0,
        };
    }
    let lead: i128 = nint as i128 + exp - 1 - f as i128;
    if lead >= 309 {
        return LiteralFacts {
            is_nan: false,
            is_infinite: true,
            is_negative: negative,
            is_tiny: false,
            trunc: if negative { i64::MIN } else { i64::MAX },
        };
    }
    if lead <= -325 {
        return LiteralFacts {
            is_nan: false,
            is_infinite: false,
            is_negative: false,
            is_tiny: true,
            trunc: 0,
        };
    }
    assert(exp == e@);
    let q: i128 = nint as i128 + exp;
    let ip = int_part_sat(digits, q);
    let trunc = signed_clamp(negative, ip);
    LiteralFacts { is_nan: false, is_infinite: false, is_negative: negative, is_tiny: lead <= -11, trunc }
}


// ---------------------------------------------------------------------------
// Rendering a literal as a double is displayed

/// Index of the last digit that is not `0`, or `-1`.
pub open spec fn last_nonzero(d: Seq<char>) -> int
    decreases d.len(),
{
    if d.len() == 0 {
        -1
    } else if d.last() != '0' {
        d.len() - 1
    } else {
        last_nonzero(d.drop_last())
    }
}

/// The digit at decimal place `k` (0 for units) of the number whose digits
/// are `digits` with the point after `point` of them; `0` outside them.
pub open spec fn digit_at(digits: Seq<char>, point: int, k: int) -> char {
    let i = point - 1 - k;
    if 0 <= i < digits.len() {
        digits[i]
    } else {
        '0'
    }
}

/// The digits at places `hi` down to `lo`.
pub open spec fn places_text(digits: Seq<char>, point: int, hi: int, lo: int) -> Seq<char> {
    Seq::new((hi - lo + 1) as nat, |i: int| digit_at(digits, point, hi - i))
}

/// A finite nonzero value in plain positional notation: a `-` for negative
/// values, the integer part without leading zeros (`0` when it is zero), and
/// the fractional part without trailing zeros after a `.` when it is not zero.
pub open spec fn finite_text(negative: bool, digits: Seq<char>, point: int) -> Seq<char> {
    let lead = leading_place(digits, point);
    let trail = point - 1 - last_nonzero(digits);
    let sign = if negative {
        seq!['-']
    } else {
        Seq::empty()
    };
    let int_text = if lead < 0 {
        seq!['0']
    } else {
        places_text(digits, point, lead, 0)
    };
    let frac_text = if trail >= 0 {
        Seq::empty()
    } else {
        seq!['.'] + places_text(digits, point, -1, trail)
    };
    sign + int_text + frac_text
}

/// How an expression displays a literal: `NaN`, `inf`, `-inf`, `0`, or the
/// value in plain positional notation.
pub open spec fn value_text(v: LiteralValue) -> Seq<char> {
    match value_class(v) {
        NumberClass::NaN => seq!['N', 'a', 'N'],
        NumberClass::Infinite(neg) => if neg {
            seq!['-', 'i', 'n', 'f']
        } else {
            seq!['i', 'n', 'f']
        },
        NumberClass::Zero => seq!['0'],
        NumberClass::Finite(neg) => finite_text(neg, v->digits, v->point),
    }
}

pub open spec fn literal_text(s: Seq<char>) -> Seq<char> {
    value_text(literal_value(s))
}

proof fn lemma_last_nonzero(d: Seq<char>, k: int)
    requires
        -1 <= k < d.len(),
        forall|j: int| k < j < d.len() ==> d[j] == '0',
        k >= 0 ==> d[k] != '0',
    ensures
        last_nonzero(d) == k,
    decreases d.len(),
{
    if d.len() > 0 && k < d.len() - 1 {
        lemma_last_nonzero(d.drop_last(), k);
    }
}

/// Index of the last digit of `d` that is not `0`, or `-1` as `d.len()`.
fn find_last_nonzero(d: &Vec<char>) -> (r: usize)
    ensures
        r <= d@.len(),
        last_nonzero(d@) == if r < d@.len() { r as int } else { -1 },
{
    let mut n: usize = d.len();
    while n > 0 && d[n - 1] == '0'
        invariant
            n <= d@.len(),
            forall|j: int| n <= j < d@.len() ==> d@[j] == '0',
        decreases n,
    {
        n -= 1;
    }
    if n == 0 {
        proof {
            lemma_last_nonzero(d@, -1);
        }
        d.len()
    } else {
        proof {
            lemma_last_nonzero(d@, n - 1);
        }
        n - 1
    }
}

/// Appends the digits at places `hi` down to `lo`.
fn push_places(out: &mut String, d: &Vec<char>, point: i128, hi: i128, lo: i128)
    requires
        lo <= hi + 1,
        -0x1000_0000_0000_0000_0000 <= lo,
        hi <= 0x1000_0000_0000_0000_0000,
        -0x1000_0000_0000_0000_0000 <= point <= 0x1000_0000_0000_0000_0000,
    ensures
        final(out)@ == old(out)@ + places_text(d@, point as int, hi as int, lo as int),
{
    let ghost base = out@;
    let mut k: i128 = hi;
    assert(places_text(d@, point as int, hi as int, hi + 1) =~= Seq::<char>::empty());
    while k >= lo
        invariant
            lo - 1 <= k <= hi,
            -0x1000_0000_0000_0000_0000 <= lo,
            hi <= 0x1000_0000_0000_0000_0000,
            -0x1000_0000_0000_0000_0000 <= point <= 0x1000_0000_0000_0000_0000,
            out@ == base + places_text(d@, point as int, hi as int, k + 1),
        decreases k - lo + 1,
    {
        let i: i128 = point - 1 - k;
        let c = if 0 <= i && i < d.len() as i128 {
            d[i as usize]
        } else {
            '0'
        };
        assert(c == digit_at(d@, point as int, k as int));
        out.push(c);
        assert(places_text(d@, point as int, hi as int, k as int) =~= places_text(
            d@,
            point as int,
            hi as int,
            k + 1,
        ).push(c));
        k -= 1;
    }
}

/// `inf` or `-inf`.
fn inf_text(negative: bool) -> (r: String)
    ensures
        r@ == (if negative {
            seq!['-', 'i', 'n', 'f']
        } else {
            seq!['i', 'n', 'f']
        }),
{
    let mut out = String::new();
    if negative {
        out.push('-');
    }
    out.push('i');
    out.push('n');
    out.push('f');
    assert(out@ =~= (if negative {
        seq!['-', 'i', 'n', 'f']
    } else {
        seq!['i', 'n', 'f']
    }));
    out
}

proof fn lemma_last_nonzero_ge(d: Seq<char>, f: int)
    requires
        0 <= f < d.len(),
        d[f] != '0',
    ensures
        f <= last_nonzero(d) < d.len(),
    decreases d.len(),
{
    if d.last() == '0' {
        lemma_last_nonzero_ge(d.drop_last(), f);
    }
}

/// The literal `v[lo..hi]`, which `f64::from_str` accepts, as an expression
/// displays it.
pub fn literal_to_string(v: &Vec<char>, lo: usize, hi: usize) -> (r: String)
    requires
        lo <= hi <= v@.len(),
        is_float_literal(v@.subrange(lo as int, hi as int)),
    ensures
        r@ == literal_text(v@.subrange(lo as int, hi as int)),
{
    let ghost s = v@.subrange(lo as int, hi as int);
    let negative = lo < hi && v[lo] == '-';
    let b0 = if lo < hi && (v[lo] == '+' || v[lo] == '-') { lo + 1 } else { lo };
    let ghost b = v@.subrange(b0 as int, hi as int);
    assert(b == unsigned_part(s));
    proof {
        reveal_strlit("inf");
        reveal_strlit("INF");
        reveal_strlit("infinity");
        reveal_strlit("INFINITY");
        reveal_strlit("nan");
        reveal_strlit("NAN");
    }
    if range_ci_eq(v, b0, hi, "nan", "NAN") {
        let mut out = String::new();
        out.push('N');
        out.push('a');
        out.push('N');
        assert(out@ =~= seq!['N', 'a', 'N']);
        return out;
    }
    if range_ci_eq(v, b0, hi, "inf", "INF") || range_ci_eq(v, b0, hi, "infinity", "INFINITY") {
        return inf_text(negative);
    }
    let (k, dot) = scan_mantissa(v, b0, hi);
    let ghost m = v@.subrange(b0 as int, k as int);
    assert(mantissa_of(b) =~= m);
    let (int_end, frac_start) = match dot {
        Some(p) => (p, p + 1),
        None => (k, k),
    };
    let digits = concat_ranges(v, b0, int_end, frac_start, k);
    proof {
        assert(int_digits(m) =~= v@.subrange(b0 as int, int_end as int));
        assert(frac_digits(m) =~= v@.subrange(frac_start as int, k as int));
    }
    let nint = int_end - b0;
    let exp = read_exponent(v, b0, k, hi);
    let ghost point = nint + exponent_of(b);
    assert(literal_value(s) == (LiteralValue::Finite { negative, digits: digits@, point }));
    finite_to_string(negative, &digits, nint, exp, Ghost(exponent_of(b)))
}

/// The display of the finite literal with the given digits, `nint` digits
/// before the dot and exponent `e` (given saturated as `exp`).
fn finite_to_string(negative: bool, digits: &Vec<char>, nint: usize, exp: i128, e: Ghost<int>) -> (r:
    String)
    requires
        nint <= digits@.len(),
        exp == sat_cap(e@, exp_cap()),
    ensures
        r@ == value_text(LiteralValue::Finite { negative, digits: digits@, point: nint + e@ }),
{
    let ghost point = nint + e@;
    let mut out = String::new();
    let f = find_nonzero(digits);
    if f < digits.len() {
        proof {
            lemma_last_nonzero_ge(digits@, f as int);
        }
    }
    if f == digits.len() {
        out.push('0');
        assert(out@ =~= seq!['0']);
        return out;
    }
    let lead: i128 = nint as i128 + exp - 1 - f as i128;
    if lead >= 309 {
        return inf_text(negative);
    }
    if lead <= -325 {
        out.push('0');
        assert(out@ =~= seq!['0']);
        return out;
    }
    assert(exp == e@);
    let q: i128 = nint as i128 + exp;
    let l = find_last_nonzero(digits);
    let trail: i128 = q - 1 - l as i128;
    if negative {
        out.push('-');
    }
    let ghost sign = out@;
    assert(sign =~= (if negative {
        seq!['-']
    } else {
        Seq::empty()
    }));
    assert(lead == leading_place(digits@, point));
    assert(trail == point - 1 - last_nonzero(digits@));
    if lead < 0 {
        out.push('0');
        assert(out@ =~= sign + seq!['0']);
    } else {
        push_places(&mut out, digits, q, lead, 0);
    }
    let ghost with_int = out@;
    if trail < 0 {
        out.push('.');
        push_places(&mut out, digits, q, -1, trail);
        assert(out@ =~= with_int + (seq!['.'] + places_text(digits@, point, -1, trail as int)));
    } else {
        assert(out@ =~= with_int + Seq::<char>::empty());
    }
    out
}


/// What a number node's text reads as: its literal, or NaN when the text is
/// no literal.
pub open spec fn text_facts(t: Seq<char>) -> LiteralFacts {
    if is_float_literal(t) {
        literal_facts_spec(t)
    } else {
        value_facts(LiteralValue::NaN)
    }
}

/// The facts of a number node's text.
pub fn facts_of_text(t: &String) -> (r: LiteralFacts)
    ensures
        r == text_facts(t@),
{
    let v = str_chars(t.as_str());
    assert(v@.subrange(0, v@.len() as int) =~= t@);
    if is_float_literal_range(&v, 0, v.len()) {
        literal_facts(&v, 0, v.len())
    } else {
        LiteralFacts { is_nan: true, is_infinite: false, is_negative: false, is_tiny: false, trunc: 0 }
    }
}


// ---------------------------------------------------------------------------
// The display of a literal is a literal of the same value

proof fn lemma_first_nonzero_props(d: Seq<char>)
    ensures
        first_nonzero(d) >= 0 ==> first_nonzero(d) < d.len() && d[first_nonzero(d)] != '0'
            && forall|j: int| 0 <= j < first_nonzero(d) ==> d[j] == '0',
        first_nonzero(d) < 0 ==> forall|j: int| 0 <= j < d.len() ==> d[j] == '0',
    decreases d.len(),
{
    if d.len() > 0 && d[0] == '0' {
        lemma_first_nonzero_props(d.drop_first());
        assert forall|j: int| 0 < j < d.len() implies d[j] == d.drop_first()[j - 1] by {}
    }
}

proof fn lemma_last_nonzero_props(d: Seq<char>)
    ensures
        last_nonzero(d) >= 0 ==> last_nonzero(d) < d.len() && d[last_nonzero(d)] != '0'
            && forall|j: int| last_nonzero(d) < j < d.len() ==> d[j] == '0',
        last_nonzero(d) < 0 ==> forall|j: int| 0 <= j < d.len() ==> d[j] == '0',
    decreases d.len(),
{
    if d.len() > 0 && d.last() == '0' {
        lemma_last_nonzero_props(d.drop_last());
        assert forall|j: int| 0 <= j < d.len() - 1 implies d[j] == d.drop_last()[j] by {}
    }
}

/// In a number with a nonzero digit, the leading and trailing places are the
/// outermost places that hold a nonzero digit.
proof fn lemma_extreme_places(d: Seq<char>, p: int)
    requires
        first_nonzero(d) >= 0,
    ensures
        digit_at(d, p, leading_place(d, p)) != '0',
        forall|k: int| k > leading_place(d, p) ==> #[trigger] digit_at(d, p, k) == '0',
        digit_at(d, p, p - 1 - last_nonzero(d)) != '0',
        forall|k: int| k < p - 1 - last_nonzero(d) ==> #[trigger] digit_at(d, p, k) == '0',
        p - 1 - last_nonzero(d) <= leading_place(d, p),
{
    lemma_first_nonzero_props(d);
    let f = first_nonzero(d);
    lemma_last_nonzero_ge(d, f);
    lemma_last_nonzero_props(d);
}

/// Two digit strings with the same digit at every place have the same
/// leading and trailing places and the same display.
proof fn lemma_same_places(d1: Seq<char>, p1: int, d2: Seq<char>, p2: int, negative: bool)
    requires
        forall|k: int| #[trigger] digit_at(d1, p1, k) == digit_at(d2, p2, k),
        first_nonzero(d1) >= 0,
    ensures
        first_nonzero(d2) >= 0,
        leading_place(d1, p1) == leading_place(d2, p2),
        p1 - 1 - last_nonzero(d1) == p2 - 1 - last_nonzero(d2),
        finite_text(negative, d1, p1) == finite_text(negative, d2, p2),
{
    lemma_extreme_places(d1, p1);
    let l1 = leading_place(d1, p1);
    assert(digit_at(d2, p2, l1) != '0');
    lemma_first_nonzero_props(d2);
    if first_nonzero(d2) < 0 {
        let i = p2 - 1 - l1;
        assert(0 <= i < d2.len());
        assert(d2[i] == '0');
    }
    lemma_extreme_places(d2, p2);
    let l2 = leading_place(d2, p2);
    assert(digit_at(d1, p1, l2) != '0');
    let t1 = p1 - 1 - last_nonzero(d1);
    let t2 = p2 - 1 - last_nonzero(d2);
    assert(digit_at(d2, p2, t1) != '0');
    assert(digit_at(d1, p1, t2) != '0');
    assert forall|hi: int, lo: int| #[trigger] places_text(d1, p1, hi, lo) == places_text(d2, p2, hi, lo) by {
        assert(places_text(d1, p1, hi, lo) =~= places_text(d2, p2, hi, lo));
    }
}

proof fn lemma_mantissa_prefix(b: Seq<char>)
    ensures
        mantissa_len(b) <= b.len(),
        forall|j: int| 0 <= j < mantissa_len(b) ==> is_mantissa_char(#[trigger] b[j]),
    decreases b.len(),
{
    if b.len() > 0 && is_mantissa_char(b[0]) {
        lemma_mantissa_prefix(b.drop_first());
        assert forall|j: int| 0 <= j < mantissa_len(b) implies is_mantissa_char(#[trigger] b[j]) by {
            if j > 0 {
                assert(b[j] == b.drop_first()[j - 1]);
            }
        }
    }
}

proof fn lemma_first_index_props(s: Seq<char>, c: char)
    ensures
        first_index(s, c) >= 0 ==> first_index(s, c) < s.len() && s[first_index(s, c)] == c
            && forall|j: int| 0 <= j < first_index(s, c) ==> s[j] != c,
        first_index(s, c) < 0 ==> forall|j: int| 0 <= j < s.len() ==> s[j] != c,
    decreases s.len(),
{
    if s.len() > 0 && s[0] != c {
        lemma_first_index_props(s.drop_first(), c);
        assert forall|j: int| 0 < j < s.len() implies s[j] == s.drop_first()[j - 1] by {}
    }
}

proof fn lemma_count_dots_one(m: Seq<char>, i: int)
    requires
        0 <= i < m.len(),
        m[i] == '.',
    ensures
        count_dots(m) >= 1,
    decreases m.len(),
{
    if i < m.len() - 1 {
        lemma_count_dots_one(m.drop_last(), i);
    }
}

proof fn lemma_count_dots_two(m: Seq<char>, i: int, j: int)
    requires
        0 <= i < j < m.len(),
        m[i] == '.',
        m[j] == '.',
    ensures
        count_dots(m) >= 2,
    decreases m.len(),
{
    if j == m.len() - 1 {
        lemma_count_dots_one(m.drop_last(), i);
    } else {
        lemma_count_dots_two(m.drop_last(), i, j);
    }
}

/// The digits of a decimal literal are all decimal digits.
proof fn lemma_literal_digits(b: Seq<char>)
    requires
        is_decimal(b),
    ensures
        all_digits(int_digits(mantissa_of(b)) + frac_digits(mantissa_of(b))),
{
    let m = mantissa_of(b);
    lemma_mantissa_prefix(b);
    assert forall|j: int| 0 <= j < m.len() implies is_mantissa_char(#[trigger] m[j]) by {
        assert(m[j] == b[j]);
    }
    lemma_first_index_props(m, '.');
    let fi = first_index(m, '.');
    let d = int_digits(m) + frac_digits(m);
    if fi >= 0 {
        assert forall|j: int| fi < j < m.len() implies m[j] != '.' by {
            if m[j] == '.' {
                lemma_count_dots_two(m, fi, j);
            }
        }
        assert forall|j: int| 0 <= j < d.len() implies is_ascii_digit(#[trigger] d[j]) by {
            if j < fi {
                assert(d[j] == m[j]);
            } else {
                assert(d[j] == m[j + 1]);
            }
        }
    } else {
        assert forall|j: int| 0 <= j < d.len() implies is_ascii_digit(#[trigger] d[j]) by {
            assert(d[j] == m[j]);
        }
    }
}

proof fn lemma_count_add(a: Seq<char>, b: Seq<char>)
    ensures
        count_digits(a + b) == count_digits(a) + count_digits(b),
        count_dots(a + b) == count_dots(a) + count_dots(b),
    decreases b.len(),
{
    if b.len() == 0 {
        assert(a + b =~= a);
    } else {
        lemma_count_add(a, b.drop_last());
        assert((a + b).drop_last() =~= a + b.drop_last());
    }
}

proof fn lemma_count_of_digits(x: Seq<char>)
    requires
        all_digits(x),
    ensures
        count_digits(x) == x.len(),
        count_dots(x) == 0,
    decreases x.len(),
{
    if x.len() > 0 {
        assert(all_digits(x.drop_last())) by {
            assert forall|i: int| 0 <= i < x.drop_last().len() implies is_ascii_digit(
                #[trigger] x.drop_last()[i],
            ) by {
                assert(x.drop_last()[i] == x[i]);
            }
        }
        lemma_count_of_digits(x.drop_last());
        assert(is_ascii_digit(x[x.len() - 1]));
    }
}

/// The unsigned text `i` or `i.f` (digit strings, `i` not empty) is a
/// literal whose digits are `i + f` with the point after `i`.
proof fn lemma_positional_literal(negative: bool, i: Seq<char>, f: Seq<char>)
    requires
        i.len() > 0,
        all_digits(i),
        all_digits(f),
    ensures
        ({
            let u = if f.len() > 0 {
                i + seq!['.'] + f
            } else {
                i
            };
            let t = if negative {
                seq!['-'] + u
            } else {
                u
            };
            &&& is_float_literal(t)
            &&& literal_value(t) == LiteralValue::Finite {
                negative,
                digits: i + f,
                point: i.len() as int,
            }
        }),
{
    let u = if f.len() > 0 {
        i + seq!['.'] + f
    } else {
        i
    };
    let t = if negative {
        seq!['-'] + u
    } else {
        u
    };
    assert(is_ascii_digit(i[0]));
    assert(u[0] == i[0]);
    if negative {
        assert(t.drop_first() =~= u);
    }
    assert(unsigned_part(t) == u);
    assert(t.len() > 0 && t[0] == '-' <==> negative);
    reveal_strlit("inf");
    reveal_strlit("INF");
    reveal_strlit("infinity");
    reveal_strlit("INFINITY");
    reveal_strlit("nan");
    reveal_strlit("NAN");
    assert(!is_inf_word(u));
    assert(!is_nan_word(u));
    assert forall|j: int| 0 <= j < u.len() implies is_mantissa_char(u[j]) by {
        if j < i.len() {
            assert(u[j] == i[j]);
        } else if j > i.len() {
            assert(u[j] == f[j - i.len() - 1]);
        }
    }
    lemma_mantissa_len(u, u.len() as int);
    assert(u.take(u.len() as int) =~= u);
    lemma_count_of_digits(i);
    lemma_count_of_digits(f);
    if f.len() > 0 {
        lemma_count_add(i, seq!['.']);
        lemma_count_add(i + seq!['.'], f);
        let dot = seq!['.'];
        assert(dot.drop_last() =~= Seq::<char>::empty());
        assert(count_dots(dot.drop_last()) == 0);
        assert(count_digits(dot.drop_last()) == 0);
        assert(dot.last() == '.');
        assert(count_dots(dot) == 1);
        assert(count_digits(dot) == 0);
        crate::text::lemma_first_index(u, '.', i.len() as int);
        assert(u.take(i.len() as int) =~= i);
        assert(u.skip(i.len() + 1int) =~= f);
    } else {
        crate::text::lemma_first_index(u, '.', u.len() as int);
        assert(i + f =~= i);
    }
    assert(is_decimal(u));
    assert(mantissa_of(u) =~= u);
    assert(exponent_of(u) == 0);
}

/// The places `hi` down to `lo` of a digit string are digits.
proof fn lemma_places_digits(d: Seq<char>, p: int, hi: int, lo: int)
    requires
        all_digits(d),
    ensures
        all_digits(places_text(d, p, hi, lo)),
{
    assert forall|j: int| 0 <= j < places_text(d, p, hi, lo).len() implies is_ascii_digit(
        #[trigger] places_text(d, p, hi, lo)[j],
    ) by {
        let k = hi - j;
        let i = p - 1 - k;
        if 0 <= i < d.len() {
            assert(is_ascii_digit(d[i]));
        }
    }
}

/// The places of `d` match those of the digits `i + f` of its display.
proof fn lemma_display_digits(d: Seq<char>, p: int, i: Seq<char>, f: Seq<char>)
    requires
        first_nonzero(d) >= 0,
        i == (if leading_place(d, p) < 0 {
            seq!['0']
        } else {
            places_text(d, p, leading_place(d, p), 0)
        }),
        f == (if p - 1 - last_nonzero(d) >= 0 {
            Seq::<char>::empty()
        } else {
            places_text(d, p, -1, p - 1 - last_nonzero(d))
        }),
    ensures
        forall|k: int| #[trigger] digit_at(d, p, k) == digit_at(i + f, i.len() as int, k),
{
    lemma_extreme_places(d, p);
    let lead = leading_place(d, p);
    let trail = p - 1 - last_nonzero(d);
    let d2 = i + f;
    let p2 = i.len() as int;
    assert forall|k: int| #[trigger] digit_at(d, p, k) == digit_at(d2, p2, k) by {
        let j = p2 - 1 - k;
        if 0 <= j < p2 {
            assert(d2[j] == i[j]);
            if lead < 0 {
                assert(k == 0);
            }
        } else if p2 <= j < d2.len() {
            assert(d2[j] == f[j - p2]);
        } else if j < 0 {
            assert(k > lead);
        } else {
            assert(k < trail);
        }
    }
}

/// The finite case of `law_literal_text_is_canonical`.
proof fn lemma_finite_text_canonical(neg: bool, d: Seq<char>, p: int, b: Seq<char>)
    requires
        is_decimal(b),
        d == int_digits(mantissa_of(b)) + frac_digits(mantissa_of(b)),
        value_class(LiteralValue::Finite { negative: neg, digits: d, point: p }) == NumberClass::Finite(neg),
    ensures
        is_float_literal(finite_text(neg, d, p)),
        value_text(literal_value(finite_text(neg, d, p))) == finite_text(neg, d, p),
{
    lemma_literal_digits(b);
    let lead = leading_place(d, p);
    let trail = p - 1 - last_nonzero(d);
    lemma_extreme_places(d, p);
    let i = if lead < 0 {
        seq!['0']
    } else {
        places_text(d, p, lead, 0)
    };
    let f = if trail >= 0 {
        Seq::<char>::empty()
    } else {
        places_text(d, p, -1, trail)
    };
    lemma_places_digits(d, p, lead, 0);
    lemma_places_digits(d, p, -1, trail);
    assert(all_digits(i));
    lemma_positional_literal(neg, i, f);
    let u = if f.len() > 0 {
        i + seq!['.'] + f
    } else {
        i
    };
    let x = finite_text(neg, d, p);
    assert(x =~= (if neg {
        seq!['-'] + u
    } else {
        u
    }));
    lemma_display_digits(d, p, i, f);
    lemma_same_places(d, p, i + f, i.len() as int, neg);
}

/// Law: the display of a literal is itself a literal, with the same
/// display; so parsing a displayed number gives back that display.
pub proof fn law_literal_text_is_canonical(t: Seq<char>)
    requires
        is_float_literal(t),
    ensures
        is_float_literal(literal_text(t)),
        literal_text(literal_text(t)) == literal_text(t),
{
    reveal_strlit("inf");
    reveal_strlit("INF");
    reveal_strlit("infinity");
    reveal_strlit("INFINITY");
    reveal_strlit("nan");
    reveal_strlit("NAN");
    let v = literal_value(t);
    let x = literal_text(t);
    match value_class(v) {
        NumberClass::NaN => {
            assert(x == seq!['N', 'a', 'N']);
            assert(unsigned_part(x) =~= x);
            assert(is_nan_word(x));
            assert(literal_value(x) == LiteralValue::NaN);
        },
        NumberClass::Infinite(neg) => {
            let w = seq!['i', 'n', 'f'];
            if neg {
                assert(unsigned_part(x) =~= w);
            } else {
                assert(unsigned_part(x) =~= w);
            }
            assert(is_inf_word(w));
            assert(!is_nan_word(w));
            assert(literal_value(x) == LiteralValue::Infinite { negative: neg });
        },
        NumberClass::Zero => {
            lemma_positional_literal(false, seq!['0'], Seq::empty());
            assert(seq!['0'] + Seq::<char>::empty() =~= seq!['0']);
            lemma_first_nonzero(seq!['0'], 1);
        },
        NumberClass::Finite(neg) => {
            lemma_finite_text_canonical(neg, v->digits, v->point, unsigned_part(t));
        },
    }
}


/// The chars a displayed number is written with.
pub open spec fn is_number_char(c: char) -> bool {
    is_ascii_digit(c) || c == '-' || c == '.' || c == 'N' || c == 'a' || c == 'i' || c == 'n'
        || c == 'f'
}

/// The display of a literal is not empty and is written with digits, `-`,
/// `.` and the letters of `NaN` and `inf`.
pub proof fn lemma_literal_text_chars(t: Seq<char>)
    requires
        is_float_literal(t),
    ensures
        literal_text(t).len() > 0,
        forall|i: int| 0 <= i < literal_text(t).len() ==> is_number_char(#[trigger] literal_text(t)[i]),
{
    let v = literal_value(t);
    let x = literal_text(t);
    if let NumberClass::Finite(neg) = value_class(v) {
        let d = v->digits;
        let p = v->point;
        lemma_literal_digits(unsigned_part(t));
        let lead = leading_place(d, p);
        let trail = p - 1 - last_nonzero(d);
        lemma_places_digits(d, p, lead, 0);
        lemma_places_digits(d, p, -1, trail);
        let sign = if neg {
            seq!['-']
        } else {
            Seq::<char>::empty()
        };
        let i = if lead < 0 {
            seq!['0']
        } else {
            places_text(d, p, lead, 0)
        };
        let frac = if trail >= 0 {
            Seq::<char>::empty()
        } else {
            seq!['.'] + places_text(d, p, -1, trail)
        };
        assert(x == sign + i + frac);
        assert forall|j: int| 0 <= j < x.len() implies is_number_char(#[trigger] x[j]) by {
            if j < sign.len() {
                assert(x[j] == sign[j]);
            } else if j < sign.len() + i.len() {
                assert(x[j] == i[j - sign.len()]);
            } else {
                assert(x[j] == frac[j - sign.len() - i.len()]);
                if j - sign.len() - i.len() > 0 {
                    assert(frac[j - sign.len() - i.len()] == places_text(d, p, -1, trail)[j
                        - sign.len() - i.len() - 1]);
                }
            }
        }
        assert(i.len() > 0);
    }
}

/// A text that starts with a lowercase letter and holds a `(` is no literal.
pub proof fn lemma_call_text_not_literal(x: Seq<char>, m: int)
    requires
        0 < m < x.len(),
        'a' <= x[0] <= 'z',
        x[m] == '(',
    ensures
        !is_float_literal(x),
{
    reveal_strlit("inf");
    reveal_strlit("INF");
    reveal_strlit("infinity");
    reveal_strlit("INFINITY");
    reveal_strlit("nan");
    reveal_strlit("NAN");
    assert(unsigned_part(x) == x);
    assert(mantissa_len(x) == 0);
    assert(x.take(0) =~= Seq::<char>::empty());
    assert(count_digits(x.take(0)) == 0);
    if x.len() == 8 {
        assert(!ci_eq(x, "infinity"@, "INFINITY"@)) by {
            assert(x[m] != "infinity"@[m] && x[m] != "INFINITY"@[m]);
        }
    }
}

/// A literal written as it displays.
pub fn canonical_literal(t: &String) -> (r: String)
    requires
        is_float_literal(t@),
    ensures
        r@ == literal_text(t@),
{
    let v = str_chars(t.as_str());
    assert(v@.subrange(0, v@.len() as int) =~= t@);
    literal_to_string(&v, 0, v.len())
}

/// A literal that starts with a digit or a dot stays a literal behind a `-`.
pub proof fn lemma_negated_literal(t: Seq<char>)
    requires
        is_float_literal(t),
        t.len() > 0,
        is_ascii_digit(t[0]) || t[0] == '.',
    ensures
        is_float_literal(seq!['-'] + t),
{
    assert((seq!['-'] + t).drop_first() =~= t);
    assert(unsigned_part(t) == t);
}

} // verus!
