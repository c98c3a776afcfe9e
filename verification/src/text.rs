//! Character-level helpers shared by the lexer, the parser and the prompt builder.
//!
//! Strings are handled as sequences of `char`s; byte offsets (as reported by
//! `str::char_indices`) are derived from the UTF-8 width of each char.

use vstd::prelude::*;
use vstd::string::*;

verus! {

/// `String::push` appends one char at the end of the string.
pub assume_specification[ String::push ](s: &mut String, ch: char)
    ensures
        final(s)@ == old(s)@.push(ch),
;

/// `String::push_str` appends a string slice at the end of the string.
pub assume_specification[ String::push_str ](s: &mut String, string: &str)
    ensures
        final(s)@ == old(s)@ + string@,
;

/// Whether a char has the Unicode `White_Space` property, as
/// `char::is_whitespace` tests: tab, line feed, vertical tab, form feed,
/// carriage return, space, next line, no-break space, Ogham space mark, the
/// spaces U+2000 to U+200A, line and paragraph separators, narrow no-break
/// space, medium mathematical space and ideographic space.
pub open spec fn char_is_whitespace(c: char) -> bool {
    let u = c as u32;
    ||| 0x09 <= u <= 0x0d
    ||| u == 0x20
    ||| u == 0x85
    ||| u == 0xa0
    ||| u == 0x1680
    ||| 0x2000 <= u <= 0x200a
    ||| u == 0x2028
    ||| u == 0x2029
    ||| u == 0x202f
    ||| u == 0x205f
    ||| u == 0x3000
}

/// Whether a char is Unicode alphabetic (`char::is_alphabetic`).
pub uninterp spec fn char_is_alphabetic(c: char) -> bool;

/// Whether a char is Unicode alphabetic or numeric (`char::is_alphanumeric`).
pub uninterp spec fn char_is_alphanumeric(c: char) -> bool;

/// The Unicode lowercase mapping of a string (`str::to_lowercase`).
pub uninterp spec fn lowercase(s: Seq<char>) -> Seq<char>;

/// Whether a char is whitespace (the Unicode `White_Space` property).
pub fn is_whitespace(c: char) -> (r: bool)
    ensures
        r == char_is_whitespace(c),
{
    let u = c as u32;
    (0x09 <= u && u <= 0x0d) || u == 0x20 || u == 0x85 || u == 0xa0 || u == 0x1680 || (0x2000 <= u
        && u <= 0x200a) || u == 0x2028 || u == 0x2029 || u == 0x202f || u == 0x205f || u == 0x3000
}

/// Calls `char::is_alphabetic`; the result is named `char_is_alphabetic`.
#[verifier::external_body]
pub(crate) fn is_alphabetic(c: char) -> (r: bool)
    ensures
        r == char_is_alphabetic(c),
{
    c.is_alphabetic()
}

/// Calls `char::is_alphanumeric`; the result is named `char_is_alphanumeric`.
#[verifier::external_body]
pub(crate) fn is_alphanumeric(c: char) -> (r: bool)
    ensures
        r == char_is_alphanumeric(c),
{
    c.is_alphanumeric()
}

/// Calls `str::to_lowercase`; the result is named `lowercase`.
#[verifier::external_body]
pub(crate) fn to_lowercase(s: &str) -> (r: String)
    ensures
        r@ == lowercase(s@),
{
    s.to_lowercase()
}

/// Alphabetic chars: the ASCII letters, and beyond ASCII the chars with the
/// Unicode `Alphabetic` property (as `char::is_alphabetic` tests).
pub open spec fn is_alpha(c: char) -> bool {
    if (c as u32) < 0x80 {
        is_ascii_letter(c)
    } else {
        char_is_alphabetic(c)
    }
}

/// Alphanumeric chars: the ASCII letters and digits, and beyond ASCII the
/// chars that `char::is_alphanumeric` accepts.
pub open spec fn is_alnum(c: char) -> bool {
    if (c as u32) < 0x80 {
        is_ascii_letter(c) || is_ascii_digit(c)
    } else {
        char_is_alphanumeric(c)
    }
}

pub fn alphabetic(c: char) -> (r: bool)
    ensures
        r == is_alpha(c),
{
    if (c as u32) < 0x80 {
        ('a' <= c && c <= 'z') || ('A' <= c && c <= 'Z')
    } else {
        is_alphabetic(c)
    }
}

pub fn alphanumeric(c: char) -> (r: bool)
    ensures
        r == is_alnum(c),
{
    if (c as u32) < 0x80 {
        ('a' <= c && c <= 'z') || ('A' <= c && c <= 'Z') || ('0' <= c && c <= '9')
    } else {
        is_alphanumeric(c)
    }
}

pub open spec fn is_ascii_text(s: Seq<char>) -> bool {
    forall|i: int| 0 <= i < s.len() ==> (#[trigger] s[i] as u32) < 0x80
}

/// The lowercase of an ASCII char.
pub open spec fn ascii_lower(c: char) -> char {
    if 'A' <= c && c <= 'Z' {
        ((c as u8) + 32) as char
    } else {
        c
    }
}

/// The lowercase of a string: ASCII text letter by letter, other text by
/// the Unicode mapping of `str::to_lowercase`.
pub open spec fn lower_text(s: Seq<char>) -> Seq<char> {
    if is_ascii_text(s) {
        Seq::new(s.len(), |i: int| ascii_lower(s[i]))
    } else {
        lowercase(s)
    }
}

/// The lowercase of a string.
pub fn to_lower(s: &str) -> (r: String)
    ensures
        r@ == lower_text(s@),
{
    let v = str_chars(s);
    let mut k: usize = 0;
    while k < v.len()
        invariant
            v@ == s@,
            k <= v@.len(),
            forall|i: int| 0 <= i < k ==> (#[trigger] v@[i] as u32) < 0x80,
        decreases v.len() - k,
    {
        if (v[k] as u32) >= 0x80 {
            return to_lowercase(s);
        }
        k += 1;
    }
    let mut out = String::new();
    let mut j: usize = 0;
    while j < v.len()
        invariant
            v@ == s@,
            j <= v@.len(),
            is_ascii_text(s@),
            out@ == Seq::new(j as nat, |i: int| ascii_lower(s@[i])),
        decreases v.len() - j,
    {
        let c = v[j];
        let l = if 'A' <= c && c <= 'Z' {
            ((c as u8) + 32) as char
        } else {
            c
        };
        assert(l == ascii_lower(s@[j as int]));
        out.push(l);
        assert(out@ =~= Seq::new((j + 1) as nat, |i: int| ascii_lower(s@[i])));
        j += 1;
    }
    out
}

pub open spec fn is_ascii_digit(c: char) -> bool {
    '0' <= c && c <= '9'
}

pub open spec fn is_ascii_letter(c: char) -> bool {
    ('a' <= c && c <= 'z') || ('A' <= c && c <= 'Z')
}

/// Number of bytes of the UTF-8 encoding of a char (`char::len_utf8`).
pub open spec fn char_utf8_len(c: char) -> nat {
    if (c as u32) < 0x80 {
        1
    } else if (c as u32) < 0x800 {
        2
    } else if (c as u32) < 0x10000 {
        3
    } else {
        4
    }
}

/// Number of bytes of the UTF-8 encoding of a sequence of chars.
pub open spec fn utf8_len(s: Seq<char>) -> nat
    decreases s.len(),
{
    if s.len() == 0 {
        0
    } else {
        utf8_len(s.drop_last()) + char_utf8_len(s.last())
    }
}

/// A byte count, saturated at `usize::MAX`.
pub open spec fn sat_usize(x: int) -> usize {
    if x > usize::MAX {
        usize::MAX
    } else if x < 0 {
        0
    } else {
        x as usize
    }
}

/// The byte offset of the char at index `i` of `s`.
pub open spec fn byte_offset(s: Seq<char>, i: int) -> usize {
    sat_usize(utf8_len(s.take(i)) as int)
}

pub fn char_len_utf8(c: char) -> (r: usize)
    ensures
        r == char_utf8_len(c),
{
    let u = c as u32;
    if u < 0x80 {
        1
    } else if u < 0x800 {
        2
    } else if u < 0x10000 {
        3
    } else {
        4
    }
}

/// Byte length of `v[lo..hi]`, saturated at `usize::MAX`.
pub fn utf8_len_range(v: &Vec<char>, lo: usize, hi: usize) -> (r: usize)
    requires
        lo <= hi <= v@.len(),
    ensures
        r == sat_usize(utf8_len(v@.subrange(lo as int, hi as int)) as int),
{
    let mut k: usize = lo;
    let mut acc: usize = 0;
    while k < hi
        invariant
            lo <= k <= hi <= v@.len(),
            acc == sat_usize(utf8_len(v@.subrange(lo as int, k as int)) as int),
        decreases hi - k,
    {
        let w = char_len_utf8(v[k]);
        assert(v@.subrange(lo as int, k + 1).drop_last() =~= v@.subrange(lo as int, k as int));
        acc = acc.saturating_add(w);
        k += 1;
    }
    acc
}

/// Byte offset of index `i` of `v`, saturated at `usize::MAX`.
pub fn byte_offset_of(v: &Vec<char>, i: usize) -> (r: usize)
    requires
        i <= v@.len(),
    ensures
        r == byte_offset(v@, i as int),
{
    assert(v@.subrange(0, i as int) =~= v@.take(i as int));
    utf8_len_range(v, 0, i)
}

/// The chars of a string slice.
pub fn str_chars(s: &str) -> (v: Vec<char>)
    ensures
        v@ == s@,
{
    let mut v: Vec<char> = Vec::new();
    for c in it: s.chars()
        invariant
            v@ == it.seq().take(it.index() as int),
            it.seq() == s@,
    {
        v.push(c);
    }
    v
}

/// A `String` holding the chars `v[lo..hi]`.
pub fn chars_to_string(v: &Vec<char>, lo: usize, hi: usize) -> (r: String)
    requires
        lo <= hi <= v@.len(),
    ensures
        r@ == v@.subrange(lo as int, hi as int),
{
    let mut r = String::new();
    let mut k = lo;
    while k < hi
        invariant
            lo <= k <= hi <= v@.len(),
            r@ == v@.subrange(lo as int, k as int),
        decreases hi - k,
    {
        r.push(v[k]);
        assert(v@.subrange(lo as int, k + 1) =~= v@.subrange(lo as int, k as int).push(v@[k as int]));
        k += 1;
    }
    r
}

/// Whether `v[lo..hi]` is the string `lit`.
pub fn range_eq_str(v: &Vec<char>, lo: usize, hi: usize, lit: &str) -> (r: bool)
    requires
        lo <= hi <= v@.len(),
    ensures
        r == (v@.subrange(lo as int, hi as int) == lit@),
{
    let w = str_chars(lit);
    if hi - lo != w.len() {
        assert(v@.subrange(lo as int, hi as int).len() != w@.len());
        return false;
    }
    let mut k: usize = 0;
    while k < w.len()
        invariant
            hi - lo == w@.len(),
            w@ == lit@,
            lo <= hi <= v@.len(),
            k <= w@.len(),
            forall|j: int| 0 <= j < k ==> v@[lo + j] == w@[j],
        decreases w.len() - k,
    {
        if v[lo + k] != w[k] {
            assert(v@.subrange(lo as int, hi as int)[k as int] != w@[k as int]);
            return false;
        }
        k += 1;
    }
    assert(v@.subrange(lo as int, hi as int) =~= w@);
    true
}

/// Whether the string `s` is the string `lit`.
pub fn str_eq(s: &str, lit: &str) -> (r: bool)
    ensures
        r == (s@ == lit@),
{
    let v = str_chars(s);
    assert(v@.subrange(0, v@.len() as int) =~= v@);
    range_eq_str(&v, 0, v.len(), lit)
}

// ---------------------------------------------------------------------------
// Trimming (as `str::trim`: leading and trailing `White_Space` removed)

pub open spec fn trim_start(s: Seq<char>) -> Seq<char>
    decreases s.len(),
{
    if s.len() > 0 && char_is_whitespace(s[0]) {
        trim_start(s.drop_first())
    } else {
        s
    }
}

pub open spec fn trim_end(s: Seq<char>) -> Seq<char>
    decreases s.len(),
{
    if s.len() > 0 && char_is_whitespace(s.last()) {
        trim_end(s.drop_last())
    } else {
        s
    }
}

/// `s` without its leading and trailing whitespace.
pub open spec fn trim(s: Seq<char>) -> Seq<char> {
    trim_end(trim_start(s))
}

pub proof fn lemma_trim_start_len(s: Seq<char>)
    ensures
        trim_start(s).len() <= s.len(),
    decreases s.len(),
{
    if s.len() > 0 && char_is_whitespace(s[0]) {
        lemma_trim_start_len(s.drop_first());
    }
}

pub proof fn lemma_trim_end_len(s: Seq<char>)
    ensures
        trim_end(s).len() <= s.len(),
    decreases s.len(),
{
    if s.len() > 0 && char_is_whitespace(s.last()) {
        lemma_trim_end_len(s.drop_last());
    }
}

pub proof fn lemma_trim_len(s: Seq<char>)
    ensures
        trim(s).len() <= s.len(),
{
    lemma_trim_start_len(s);
    lemma_trim_end_len(trim_start(s));
}

proof fn lemma_trim_start_first(s: Seq<char>)
    ensures
        trim_start(s).len() > 0 ==> !char_is_whitespace(trim_start(s)[0]),
    decreases s.len(),
{
    if s.len() > 0 && char_is_whitespace(s[0]) {
        lemma_trim_start_first(s.drop_first());
    }
}

proof fn lemma_trim_end_shape(s: Seq<char>)
    ensures
        trim_end(s).len() <= s.len(),
        trim_end(s) == s.take(trim_end(s).len() as int),
        trim_end(s).len() > 0 ==> !char_is_whitespace(trim_end(s).last()),
    decreases s.len(),
{
    if s.len() > 0 && char_is_whitespace(s.last()) {
        lemma_trim_end_shape(s.drop_last());
        assert(s.drop_last().take(trim_end(s).len() as int) =~= s.take(trim_end(s).len() as int));
    } else {
        assert(s.take(s.len() as int) =~= s);
    }
}

/// A nonempty trimmed string starts and ends with chars that are not
/// whitespace.
pub proof fn lemma_trim_ends(s: Seq<char>)
    ensures
        trim(s).len() > 0 ==> !char_is_whitespace(trim(s)[0]) && !char_is_whitespace(
            trim(s).last(),
        ),
{
    lemma_trim_start_first(s);
    lemma_trim_end_shape(trim_start(s));
    if trim(s).len() > 0 {
        assert(trim(s)[0] == trim_start(s)[0]);
    }
}

/// A string that starts and ends with chars that are not whitespace is its
/// own trim, also behind leading whitespace.
pub proof fn lemma_trim_noop(x: Seq<char>, pre: Seq<char>)
    requires
        x.len() > 0,
        !char_is_whitespace(x[0]),
        !char_is_whitespace(x.last()),
        forall|i: int| 0 <= i < pre.len() ==> char_is_whitespace(#[trigger] pre[i]),
    ensures
        trim(x) == x,
        trim(pre + x) == x,
    decreases pre.len(),
{
    if pre.len() == 0 {
        assert(pre + x =~= x);
    } else {
        assert((pre + x).drop_first() =~= pre.drop_first() + x);
        assert(pre.drop_first().len() < pre.len());
        assert forall|i: int| 0 <= i < pre.drop_first().len() implies char_is_whitespace(
            #[trigger] pre.drop_first()[i],
        ) by {
            assert(pre.drop_first()[i] == pre[i + 1]);
        }
        lemma_trim_noop(x, pre.drop_first());
    }
}

/// Trimming twice is trimming once.
pub proof fn lemma_trim_idempotent(s: Seq<char>)
    ensures
        trim(trim(s)) == trim(s),
{
    lemma_trim_ends(s);
    if trim(s).len() > 0 {
        lemma_trim_noop(trim(s), Seq::empty());
    } else {
        assert(trim(s) =~= Seq::<char>::empty());
    }
}

/// Bounds `(a, b)` such that `v[a..b]` is `v[lo..hi]` trimmed.
pub fn trim_range(v: &Vec<char>, lo: usize, hi: usize) -> (r: (usize, usize))
    requires
        lo <= hi <= v@.len(),
    ensures
        lo <= r.0 <= r.1 <= hi,
        v@.subrange(r.0 as int, r.1 as int) == trim(v@.subrange(lo as int, hi as int)),
{
    let mut a = lo;
    while a < hi && is_whitespace(v[a])
        invariant
            lo <= a <= hi <= v@.len(),
            trim_start(v@.subrange(lo as int, hi as int)) == trim_start(
                v@.subrange(a as int, hi as int),
            ),
        decreases hi - a,
    {
        assert(v@.subrange(a as int, hi as int).drop_first() =~= v@.subrange(a + 1, hi as int));
        a += 1;
    }
    let mut b = hi;
    while b > a && is_whitespace(v[b - 1])
        invariant
            lo <= a <= b <= hi <= v@.len(),
            trim(v@.subrange(lo as int, hi as int)) == trim_end(v@.subrange(a as int, b as int)),
        decreases b - a,
    {
        assert(v@.subrange(a as int, b as int).drop_last() =~= v@.subrange(a as int, b - 1));
        b -= 1;
    }
    (a, b)
}

// ---------------------------------------------------------------------------
// Searching

/// Index of the first occurrence of `c` in `s`, or `-1`.
pub open spec fn first_index(s: Seq<char>, c: char) -> int
    decreases s.len(),
{
    if s.len() == 0 {
        -1
    } else if s[0] == c {
        0
    } else {
        let r = first_index(s.drop_first(), c);
        if r < 0 {
            -1
        } else {
            r + 1
        }
    }
}

pub proof fn lemma_first_index(s: Seq<char>, c: char, k: int)
    requires
        0 <= k <= s.len(),
        forall|j: int| 0 <= j < k ==> s[j] != c,
        k < s.len() ==> s[k] == c,
    ensures
        first_index(s, c) == if k < s.len() { k } else { -1 },
    decreases k,
{
    if k > 0 {
        lemma_first_index(s.drop_first(), c, k - 1);
    }
}

/// The first index `i` in `lo..hi` with `v[i] == c`, relative to `lo`.
pub fn find_char(v: &Vec<char>, lo: usize, hi: usize, c: char) -> (r: Option<usize>)
    requires
        lo <= hi <= v@.len(),
    ensures
        match r {
            Some(i) => i < hi - lo && first_index(v@.subrange(lo as int, hi as int), c) == i,
            None => first_index(v@.subrange(lo as int, hi as int), c) == -1,
        },
{
    let mut k = lo;
    while k < hi
        invariant
            lo <= k <= hi <= v@.len(),
            forall|j: int| lo <= j < k ==> v@[j] != c,
        decreases hi - k,
    {
        if v[k] == c {
            proof {
                lemma_first_index(v@.subrange(lo as int, hi as int), c, k - lo);
            }
            return Some(k - lo);
        }
        k += 1;
    }
    proof {
        lemma_first_index(v@.subrange(lo as int, hi as int), c, hi - lo);
    }
    None
}

// ---------------------------------------------------------------------------
// Decimal rendering of integers (as `Display` for integers)

/// The decimal digits of `n`, without leading zeros ("0" for zero).
pub open spec fn decimal(n: nat) -> Seq<char>
    decreases n,
{
    if n < 10 {
        seq![digit_char(n)]
    } else {
        decimal(n / 10).push(digit_char(n % 10))
    }
}

pub open spec fn digit_char(d: nat) -> char {
    if d == 0 {
        '0'
    } else if d == 1 {
        '1'
    } else if d == 2 {
        '2'
    } else if d == 3 {
        '3'
    } else if d == 4 {
        '4'
    } else if d == 5 {
        '5'
    } else if d == 6 {
        '6'
    } else if d == 7 {
        '7'
    } else if d == 8 {
        '8'
    } else {
        '9'
    }
}

pub fn digit_to_char(d: u64) -> (c: char)
    requires
        d < 10,
    ensures
        c == digit_char(d as nat),
{
    if d == 0 {
        '0'
    } else if d == 1 {
        '1'
    } else if d == 2 {
        '2'
    } else if d == 3 {
        '3'
    } else if d == 4 {
        '4'
    } else if d == 5 {
        '5'
    } else if d == 6 {
        '6'
    } else if d == 7 {
        '7'
    } else if d == 8 {
        '8'
    } else {
        '9'
    }
}

/// Appends the decimal digits of `n` to `out`.
pub fn push_decimal(out: &mut String, n: u64)
    ensures
        final(out)@ == old(out)@ + decimal(n as nat),
    decreases n,
{
    if n < 10 {
        out.push(digit_to_char(n));
        assert(decimal(n as nat) == seq![digit_char(n as nat)]);
    } else {
        push_decimal(out, n / 10);
        out.push(digit_to_char(n % 10));
    }
}


// ---------------------------------------------------------------------------
// Joining strings (as `[String]::join`)

/// The items separated by `sep`.
pub open spec fn joined(items: Seq<Seq<char>>, sep: Seq<char>) -> Seq<char>
    decreases items.len(),
{
    if items.len() == 0 {
        Seq::empty()
    } else if items.len() == 1 {
        items[0]
    } else {
        joined(items.drop_last(), sep) + sep + items.last()
    }
}

pub open spec fn strings_of(v: Seq<String>) -> Seq<Seq<char>> {
    v.map_values(|s: String| s@)
}

/// Appends the strings of `items` separated by `sep`.
pub fn push_joined(out: &mut String, items: &Vec<String>, sep: &str)
    ensures
        final(out)@ == old(out)@ + joined(strings_of(items@), sep@),
{
    let ghost base = out@;
    let mut i: usize = 0;
    assert(joined(strings_of(items@).take(0), sep@) =~= Seq::<char>::empty());
    while i < items.len()
        invariant
            i <= items@.len(),
            out@ == base + joined(strings_of(items@).take(i as int), sep@),
        decreases items.len() - i,
    {
        let ghost before = out@;
        if i > 0 {
            out.push_str(sep);
        }
        out.push_str(items[i].as_str());
        proof {
            let t = strings_of(items@).take(i + 1);
            assert(t.drop_last() =~= strings_of(items@).take(i as int));
            assert(t.last() == items@[i as int]@);
            if i == 0 {
                assert(joined(t, sep@) == t[0]);
                assert(out@ =~= base + joined(t, sep@));
            } else {
                assert(out@ =~= base + joined(t, sep@));
            }
        }
        i += 1;
    }
    assert(strings_of(items@).take(items@.len() as int) =~= strings_of(items@));
}


/// `t` occurs in `s`.
pub open spec fn contains_text(s: Seq<char>, t: Seq<char>) -> bool {
    exists|i: int| 0 <= i && i + t.len() <= s.len() && #[trigger] s.subrange(i, i + t.len()) == t
}

/// Text found in a part is found in the whole.
pub proof fn lemma_contains_in_context(a: Seq<char>, s: Seq<char>, b: Seq<char>, t: Seq<char>)
    requires
        contains_text(s, t),
    ensures
        contains_text(a + s + b, t),
{
    let i = choose|i: int| 0 <= i && i + t.len() <= s.len() && #[trigger] s.subrange(i, i + t.len()) == t;
    let w = a + s + b;
    assert(w.subrange(a.len() + i, a.len() + i + t.len()) =~= s.subrange(i, i + t.len()));
}

pub proof fn lemma_contains_self(t: Seq<char>)
    ensures
        contains_text(t, t),
{
    assert(t.subrange(0int, 0int + t.len()) =~= t);
}

/// Each item occurs in the joined text.
pub proof fn lemma_joined_contains(items: Seq<Seq<char>>, sep: Seq<char>, k: int)
    requires
        0 <= k < items.len(),
    ensures
        contains_text(joined(items, sep), items[k]),
    decreases items.len(),
{
    if items.len() == 1 {
        lemma_contains_self(items[0]);
    } else if k == items.len() - 1 {
        lemma_contains_self(items[k]);
        lemma_contains_in_context(joined(items.drop_last(), sep) + sep, items[k], Seq::empty(), items[k]);
        assert(joined(items.drop_last(), sep) + sep + items[k] + Seq::<char>::empty() =~= joined(items, sep));
    } else {
        lemma_joined_contains(items.drop_last(), sep, k);
        lemma_contains_in_context(Seq::empty(), joined(items.drop_last(), sep), sep + items.last(), items[k]);
        assert(Seq::<char>::empty() + joined(items.drop_last(), sep) + (sep + items.last()) =~= joined(items, sep));
    }
}

} // verus!
