//! Reading the factors out of a language model's reply.
//!
//! A reply carries its factors as JSON: in a ```` ```json ```` fence, in any
//! fence, or as a bare array. `extract_json` finds that text.

use vstd::prelude::*;
use crate::text::{
    chars_to_string, find_char, first_index, lemma_first_index, range_eq_str, str_chars, trim, trim_range,
};

verus! {

/// Index of the first occurrence of `pat` in `s` at or after `i`, or `-1`.
pub open spec fn find_from(s: Seq<char>, pat: Seq<char>, i: int) -> int
    decreases s.len() + 1 - i,
{
    if i < 0 || i + pat.len() > s.len() {
        -1
    } else if s.subrange(i, i + pat.len()) == pat {
        i
    } else {
        find_from(s, pat, i + 1)
    }
}

/// Index of the first occurrence of `pat` in `s`, or `-1` (as `str::find`).
pub open spec fn find_text(s: Seq<char>, pat: Seq<char>) -> int {
    find_from(s, pat, 0)
}

/// Index of the last occurrence of `c` in `s`, or `-1` (as `str::rfind`).
pub open spec fn last_index(s: Seq<char>, c: char) -> int
    decreases s.len(),
{
    if s.len() == 0 {
        -1
    } else if s.last() == c {
        s.len() - 1
    } else {
        last_index(s.drop_last(), c)
    }
}

proof fn lemma_find_from_bounds(s: Seq<char>, pat: Seq<char>, i: int)
    ensures
        find_from(s, pat, i) == -1 || (i <= find_from(s, pat, i) && find_from(s, pat, i)
            + pat.len() <= s.len()),
    decreases s.len() + 1 - i,
{
    if !(i < 0 || i + pat.len() > s.len()) && s.subrange(i, i + pat.len()) != pat {
        lemma_find_from_bounds(s, pat, i + 1);
    }
}

proof fn lemma_last_index_bounds(s: Seq<char>, c: char)
    ensures
        -1 <= last_index(s, c) < s.len(),
    decreases s.len(),
{
    if s.len() > 0 && s.last() != c {
        lemma_last_index_bounds(s.drop_last(), c);
    }
}

/// The text of the first ```` ```json ```` fence, trimmed.
pub open spec fn json_fence(s: Seq<char>) -> Option<Seq<char>> {
    let a = find_text(s, "```json"@);
    if a < 0 {
        None
    } else {
        let st = a + 7;
        let e = find_text(s.skip(st), "```"@);
        if e < 0 {
            None
        } else {
            Some(trim(s.subrange(st, st + e)))
        }
    }
}

/// The text of the first fence, after the rest of its opening line, trimmed.
pub open spec fn any_fence(s: Seq<char>) -> Option<Seq<char>> {
    let b = find_text(s, "```"@);
    if b < 0 {
        None
    } else {
        let st0 = b + 3;
        let nl = first_index(s.skip(st0), '\n');
        let st = if nl >= 0 {
            st0 + nl + 1
        } else {
            st0
        };
        let e = find_text(s.skip(st), "```"@);
        if e < 0 {
            None
        } else {
            Some(trim(s.subrange(st, st + e)))
        }
    }
}

/// The text from the first `[` to the last `]`.
pub open spec fn array_span(s: Seq<char>) -> Option<Seq<char>> {
    let c = first_index(s, '[');
    let d = last_index(s, ']');
    if c >= 0 && d >= 0 {
        Some(s.subrange(c, d + 1))
    } else {
        None
    }
}

/// The JSON of a reply: a `json` fence, else any fence, else a bare array.
pub open spec fn extracted_json(s: Seq<char>) -> Option<Seq<char>> {
    if json_fence(s) is Some {
        json_fence(s)
    } else if any_fence(s) is Some {
        any_fence(s)
    } else {
        array_span(s)
    }
}

/// A reply without fences whose last `]` stands before its first `[`,
/// so that the two cannot bound an array.
pub open spec fn array_bounds_reversed(s: Seq<char>) -> bool {
    &&& json_fence(s) is None
    &&& any_fence(s) is None
    &&& first_index(s, '[') >= 0
    &&& last_index(s, ']') >= 0
    &&& last_index(s, ']') + 1 < first_index(s, '[')
}

pub open spec fn opt_text(o: Option<String>) -> Option<Seq<char>> {
    match o {
        Some(s) => Some(s@),
        None => None,
    }
}

/// The first occurrence of `pat` in `v[lo..hi]`, relative to `lo`.
fn find_str(v: &Vec<char>, lo: usize, hi: usize, pat: &str) -> (r: Option<usize>)
    requires
        lo <= hi <= v@.len(),
        pat@.len() > 0,
    ensures
        match r {
            Some(i) => find_text(v@.subrange(lo as int, hi as int), pat@) == i,
            None => find_text(v@.subrange(lo as int, hi as int), pat@) == -1,
        },
{
    let ghost s = v@.subrange(lo as int, hi as int);
    let p = str_chars(pat);
    let plen = p.len();
    if plen > hi - lo {
        return None;
    }
    let mut k = lo;
    while k <= hi - plen
        invariant
            lo <= k <= hi <= v@.len(),
            0 < plen <= hi - lo,
            plen == pat@.len(),
            s == v@.subrange(lo as int, hi as int),
            find_text(s, pat@) == find_from(s, pat@, k - lo),
        decreases hi - k,
    {
        assert(s.subrange(k - lo, k - lo + plen) =~= v@.subrange(k as int, k + plen));
        if range_eq_str(v, k, k + plen, pat) {
            return Some(k - lo);
        }
        k += 1;
    }
    None
}

/// The last index `i` in `lo..hi` with `v[i] == c`, relative to `lo`.
fn rfind_char(v: &Vec<char>, lo: usize, hi: usize, c: char) -> (r: Option<usize>)
    requires
        lo <= hi <= v@.len(),
    ensures
        match r {
            Some(i) => last_index(v@.subrange(lo as int, hi as int), c) == i,
            None => last_index(v@.subrange(lo as int, hi as int), c) == -1,
        },
{
    let mut k = hi;
    while k > lo
        invariant
            lo <= k <= hi <= v@.len(),
            last_index(v@.subrange(lo as int, hi as int), c) == last_index(
                v@.subrange(lo as int, k as int),
                c,
            ),
        decreases k - lo,
    {
        if v[k - 1] == c {
            return Some(k - 1 - lo);
        }
        assert(v@.subrange(lo as int, k as int).drop_last() =~= v@.subrange(lo as int, k - 1));
        k -= 1;
    }
    None
}

/// The trimmed content of the first ```` ```json ```` fence, else of the
/// first fence.
fn fenced_json(v: &Vec<char>) -> (r: Option<String>)
    ensures
        opt_text(r) == (if json_fence(v@) is Some {
            json_fence(v@)
        } else {
            any_fence(v@)
        }),
{
    let n = v.len();
    let ghost s = v@;
    assert(v@.subrange(0, n as int) =~= s);
    proof {
        reveal_strlit("```json");
        reveal_strlit("```");
    }
    if let Some(a) = find_str(v, 0, n, "```json") {
        proof {
            lemma_find_from_bounds(s, "```json"@, 0);
        }
        let st = a + 7;
        assert(v@.subrange(st as int, n as int) =~= s.skip(st as int));
        if let Some(e) = find_str(v, st, n, "```") {
            proof {
                lemma_find_from_bounds(s.skip(st as int), "```"@, 0);
            }
            let (x, y) = trim_range(v, st, st + e);
            return Some(chars_to_string(v, x, y));
        }
    }
    if let Some(b) = find_str(v, 0, n, "```") {
        proof {
            lemma_find_from_bounds(s, "```"@, 0);
        }
        let st0 = b + 3;
        assert(v@.subrange(st0 as int, n as int) =~= s.skip(st0 as int));
        let st = match find_char(v, st0, n, '\n') {
            Some(i) => st0 + i + 1,
            None => st0,
        };
        assert(v@.subrange(st as int, n as int) =~= s.skip(st as int));
        if let Some(e) = find_str(v, st, n, "```") {
            proof {
                lemma_find_from_bounds(s.skip(st as int), "```"@, 0);
            }
            let (x, y) = trim_range(v, st, st + e);
            return Some(chars_to_string(v, x, y));
        }
    }
    None
}

/// Whether a reply has no fence and its last `]` stands before its first
/// `[` (the one reply `extract_json` does not take).
pub fn has_reversed_array_bounds(content: &str) -> (r: bool)
    ensures
        r == array_bounds_reversed(content@),
{
    let v = str_chars(content);
    let n = v.len();
    assert(v@.subrange(0, n as int) =~= content@);
    if fenced_json(&v).is_some() {
        return false;
    }
    match (find_char(&v, 0, n, '['), rfind_char(&v, 0, n, ']')) {
        (Some(c), Some(d)) => d < c && d + 1 < c,
        _ => false,
    }
}

/// Extract the JSON text of a reply: the content of the first
/// ```` ```json ```` fence, else of the first fence (after the rest of its
/// opening line), both trimmed, else the text from the first `[` to the
/// last `]`; `None` when there is none of these.
pub fn extract_json(content: &str) -> (r: Option<String>)
    requires
        !array_bounds_reversed(content@),
    ensures
        opt_text(r) == extracted_json(content@),
{
    let v = str_chars(content);
    let n = v.len();
    assert(v@.subrange(0, n as int) =~= content@);
    let fenced = fenced_json(&v);
    if fenced.is_some() {
        return fenced;
    }
    if let Some(c) = find_char(&v, 0, n, '[') {
        if let Some(d) = rfind_char(&v, 0, n, ']') {
            proof {
                lemma_last_index_bounds(content@, ']');
            }
            return Some(chars_to_string(&v, c, d + 1));
        }
    }
    None
}

proof fn lemma_find_from_at(s: Seq<char>, pat: Seq<char>, i: int, m: int)
    requires
        0 <= i <= m,
        m + pat.len() <= s.len(),
        s.subrange(m, m + pat.len()) == pat,
        forall|k: int| i <= k < m ==> #[trigger] s.subrange(k, k + pat.len()) != pat,
    ensures
        find_from(s, pat, i) == m,
    decreases m - i,
{
    if i < m {
        lemma_find_from_at(s, pat, i + 1, m);
    }
}

/// A mark that starts with a backtick is first found where a text without
/// backticks is followed by it.
proof fn lemma_mark_after(s: Seq<char>, a: Seq<char>, pat: Seq<char>, rest: Seq<char>)
    requires
        s == a + pat + rest,
        pat.len() > 0,
        pat[0] == '`',
        forall|k: int| 0 <= k < a.len() ==> a[k] != '`',
    ensures
        find_text(s, pat) == a.len(),
{
    let m = a.len() as int;
    assert(s.subrange(m, m + pat.len()) =~= pat);
    assert forall|k: int| 0 <= k < m implies #[trigger] s.subrange(k, k + pat.len()) != pat by {
        assert(s.subrange(k, k + pat.len())[0] == a[k]);
    }
    lemma_find_from_at(s, pat, 0, m);
}

/// A fence mark found where a text without backticks is followed by one.
proof fn lemma_fence_after(s: Seq<char>, a: Seq<char>, rest: Seq<char>)
    requires
        s == a + "```"@ + rest,
        forall|k: int| 0 <= k < a.len() ==> a[k] != '`',
    ensures
        find_text(s, "```"@) == a.len(),
{
    reveal_strlit("```");
    lemma_mark_after(s, a, "```"@, rest);
}

/// Law: the text of the first `json` fence, trimmed, is the JSON of a reply:
/// for `p`, then a `json` fence mark, then `t`, then a fence mark and `q`
/// (with no backtick in `p` or `t`), the JSON is the trimmed `t`.
pub proof fn law_json_fence_content(p: Seq<char>, t: Seq<char>, q: Seq<char>)
    requires
        forall|k: int| 0 <= k < p.len() ==> p[k] != '`',
        forall|k: int| 0 <= k < t.len() ==> t[k] != '`',
    ensures
        extracted_json(p + "```json"@ + t + "```"@ + q) == Some(trim(t)),
{
    let f = "```"@;
    let jf = "```json"@;
    reveal_strlit("```");
    reveal_strlit("```json");
    let s = p + jf + t + f + q;
    assert(s =~= p + jf + (t + f + q));
    lemma_mark_after(s, p, jf, t + f + q);
    let st = p.len() as int + 7;
    let w = s.skip(st);
    assert(w =~= t + f + q);
    lemma_fence_after(w, t, q);
    assert(s.subrange(st, st + t.len()) =~= t);
}

/// Law: a reply without fence marks gives the text from its first `[` to
/// its last `]`, when it has both.
pub proof fn law_bare_array(s: Seq<char>)
    requires
        forall|k: int| 0 <= k < s.len() ==> s[k] != '`',
    ensures
        extracted_json(s) == (if first_index(s, '[') >= 0 && last_index(s, ']') >= 0 {
            Some(s.subrange(first_index(s, '['), last_index(s, ']') + 1))
        } else {
            None
        }),
{
    reveal_strlit("```");
    reveal_strlit("```json");
    lemma_no_mark(s, "```"@, 0);
    lemma_no_mark(s, "```json"@, 0);
}

/// A text without backticks holds no mark that starts with one.
proof fn lemma_no_mark(s: Seq<char>, pat: Seq<char>, i: int)
    requires
        pat.len() > 0,
        pat[0] == '`',
        forall|k: int| 0 <= k < s.len() ==> s[k] != '`',
        0 <= i,
    ensures
        find_from(s, pat, i) == -1,
    decreases s.len() + 1 - i,
{
    if i + pat.len() <= s.len() {
        assert(s.subrange(i, i + pat.len())[0] == s[i]);
        lemma_no_mark(s, pat, i + 1);
    }
}

/// Law: in a reply without a `json` fence, the text of the first fence is
/// what stands between the end of the fence's opening line and the next
/// fence mark, trimmed: for `p`, then a fence whose opening line holds
/// `line`, then `t`, then a fence mark and `q` (with no backtick in `p` or
/// `t` and no newline in `line`), the JSON is the trimmed `t`.
pub proof fn law_generic_fence_content(p: Seq<char>, line: Seq<char>, t: Seq<char>, q: Seq<char>)
    requires
        forall|k: int| 0 <= k < p.len() ==> p[k] != '`',
        forall|k: int| 0 <= k < line.len() ==> line[k] != '\n',
        forall|k: int| 0 <= k < t.len() ==> t[k] != '`',
        find_text(p + "```"@ + line + seq!['\n'] + t + "```"@ + q, "```json"@) < 0,
    ensures
        extracted_json(p + "```"@ + line + seq!['\n'] + t + "```"@ + q) == Some(trim(t)),
{
    let f = "```"@;
    reveal_strlit("```");
    let s = p + f + line + seq!['\n'] + t + f + q;
    let b = p.len() as int;
    assert(s =~= p + f + (line + seq!['\n'] + t + f + q));
    lemma_fence_after(s, p, line + seq!['\n'] + t + f + q);
    let st0 = b + 3;
    let u = s.skip(st0);
    assert(u =~= line + seq!['\n'] + t + f + q);
    lemma_first_index(u, '\n', line.len() as int);
    let st = st0 + line.len() + 1;
    let w = s.skip(st);
    assert(w =~= t + f + q);
    lemma_fence_after(w, t, q);
    assert(s.subrange(st, st + t.len()) =~= t);
    assert(json_fence(s) is None);
    assert(any_fence(s) == Some(trim(t)));
}

} // verus!
