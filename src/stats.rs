//! Numbers read from the free-text statistics that external tools print:
//! the word after a marker, as an unsigned 64-bit number, or nothing.

use vstd::prelude::*;
use vstd::string::*;

verus! {

/// Whether `c` has the Unicode White_Space property, the separator of a
/// report's words (as `char::is_whitespace` decides it).
pub open spec fn is_ws(c: char) -> bool {
    let u = c as u32;
    (0x09 <= u && u <= 0x0D) || u == 0x20 || u == 0x85 || u == 0xA0 || u == 0x1680 || (0x2000 <= u
        && u <= 0x200A) || u == 0x2028 || u == 0x2029 || u == 0x202F || u == 0x205F || u == 0x3000
}

pub open spec fn is_digit(c: char) -> bool {
    '0' <= c && c <= '9'
}

/// Whether `pat` occurs in `s` at position `i`.
pub open spec fn occurs_at(s: Seq<char>, pat: Seq<char>, i: int) -> bool {
    0 <= i && i + pat.len() <= s.len() && s.subrange(i, i + pat.len()) == pat
}

/// The first position at or after `k` where `pat` occurs in `s`.
pub open spec fn first_occurrence(s: Seq<char>, pat: Seq<char>, k: int) -> Option<int>
    decreases s.len() + 1 - k,
{
    if k < 0 || k + pat.len() > s.len() {
        None
    } else if occurs_at(s, pat, k) {
        Some(k)
    } else {
        first_occurrence(s, pat, k + 1)
    }
}

/// `t` without its leading whitespace.
pub open spec fn skip_ws(t: Seq<char>) -> Seq<char>
    decreases t.len(),
{
    if t.len() > 0 && is_ws(t[0]) {
        skip_ws(t.drop_first())
    } else {
        t
    }
}

/// The characters of `t` before its first whitespace.
pub open spec fn token(t: Seq<char>) -> Seq<char>
    decreases t.len(),
{
    if t.len() == 0 || is_ws(t[0]) {
        Seq::empty()
    } else {
        seq![t[0]] + token(t.drop_first())
    }
}

/// The value of a string of decimal digits.
pub open spec fn decimal(t: Seq<char>) -> nat
    decreases t.len(),
{
    if t.len() == 0 {
        0
    } else {
        decimal(t.drop_last()) * 10 + (t.last() as nat - '0' as nat) as nat
    }
}

pub open spec fn all_digits(t: Seq<char>) -> bool {
    forall|i: int| 0 <= i < t.len() ==> is_digit(#[trigger] t[i])
}

/// The digits of an unsigned number's text: without its leading `+`, if any.
pub open spec fn unsigned_digits(word: Seq<char>) -> Seq<char> {
    if word.len() > 0 && word[0] == '+' {
        word.drop_first()
    } else {
        word
    }
}

/// The value of an unsigned 64-bit number's text: an optional `+`, then at
/// least one decimal digit, with a value that fits in 64 bits.
pub open spec fn parse_u64_text(word: Seq<char>) -> Option<nat> {
    let d = unsigned_digits(word);
    if d.len() > 0 && all_digits(d) && decimal(d) <= u64::MAX {
        Some(decimal(d))
    } else {
        None
    }
}

/// The statistic that follows `marker` in a report: the first
/// whitespace-delimited word after the first occurrence of `marker`, read as
/// an unsigned 64-bit number.
pub open spec fn spec_stat(report: Seq<char>, marker: Seq<char>) -> Option<nat> {
    match first_occurrence(report, marker, 0) {
        None => None,
        Some(i) => parse_u64_text(
            token(skip_ws(report.subrange(i + marker.len(), report.len() as int))),
        ),
    }
}

proof fn lemma_decimal_grows(t: Seq<char>, j: int)
    requires
        0 <= j <= t.len(),
        all_digits(t),
    ensures
        decimal(t.subrange(0, j)) <= decimal(t),
    decreases t.len() - j,
{
    if j < t.len() {
        lemma_decimal_grows(t, j + 1);
        let a = t.subrange(0, j + 1);
        assert(a.drop_last() =~= t.subrange(0, j));
        assert(is_digit(t[j]));
    } else {
        assert(t.subrange(0, j) =~= t);
    }
}

proof fn lemma_first_occurrence_found(s: Seq<char>, pat: Seq<char>, k: int)
    requires
        first_occurrence(s, pat, k) is Some,
    ensures
        occurs_at(s, pat, first_occurrence(s, pat, k)->Some_0),
    decreases s.len() + 1 - k,
{
    if !(k < 0 || k + pat.len() > s.len()) && !occurs_at(s, pat, k) {
        lemma_first_occurrence_found(s, pat, k + 1);
    }
}

fn occurs_here(s: &str, n: usize, pat: &str, m: usize, i: usize) -> (r: bool)
    requires
        n == s@.len(),
        m == pat@.len(),
        i + m <= n,
    ensures
        r == occurs_at(s@, pat@, i as int),
{
    let mut j: usize = 0;
    while j < m
        invariant
            n == s@.len(),
            m == pat@.len(),
            i + m <= n,
            j <= m,
            s@.subrange(i as int, i + j) == pat@.subrange(0, j as int),
        decreases m - j,
    {
        if s.get_char(i + j) != pat.get_char(j) {
            assert(s@.subrange(i as int, i + m)[j as int] != pat@[j as int]);
            return false;
        }
        assert(s@.subrange(i as int, i + j + 1) =~= s@.subrange(i as int, i + j).push(
            s@[i + j],
        ));
        assert(pat@.subrange(0, j + 1) =~= pat@.subrange(0, j as int).push(pat@[j as int]));
        j = j + 1;
    }
    assert(pat@.subrange(0, m as int) =~= pat@);
    true
}

fn find_first(s: &str, pat: &str) -> (r: Option<usize>)
    ensures
        r is None <==> first_occurrence(s@, pat@, 0) is None,
        r matches Some(k) ==> first_occurrence(s@, pat@, 0) == Some(k as int),
{
    let n = s.unicode_len();
    let m = pat.unicode_len();
    if m > n {
        return None;
    }
    let mut k: usize = 0;
    while k <= n - m
        invariant
            n == s@.len(),
            m == pat@.len(),
            m <= n,
            k <= n - m + 1,
            first_occurrence(s@, pat@, 0) == first_occurrence(s@, pat@, k as int),
        decreases n + 1 - k - m,
    {
        if occurs_here(s, n, pat, m, k) {
            return Some(k);
        }
        if k == n - m {
            assert(first_occurrence(s@, pat@, k as int) == first_occurrence(s@, pat@, k + 1));
            assert(first_occurrence(s@, pat@, k + 1) is None);
            return None;
        }
        k = k + 1;
    }
    None
}

/// The statistic that follows `marker` in a report, or `None` when the
/// report has no such number.
pub fn read_stat(report: &str, marker: &str) -> (r: Option<u64>)
    ensures
        match spec_stat(report@, marker@) {
            Some(v) => r == Some(v as u64),
            None => r is None,
        },
{
    let n = report.unicode_len();
    let start = match find_first(report, marker) {
        None => return None,
        Some(i) => i,
    };
    proof {
        lemma_first_occurrence_found(report@, marker@, 0);
    }
    let ghost s = report@;
    let ghost rest = s.subrange(start + marker@.len(), n as int);
    let mut p: usize = start + marker.unicode_len();
    while p < n && is_whitespace(report.get_char(p))
        invariant
            n == s.len(),
            s == report@,
            start + marker@.len() <= p <= n,
            skip_ws(rest) == skip_ws(s.subrange(p as int, n as int)),
        decreases n - p,
    {
        assert(s.subrange(p as int, n as int).drop_first() =~= s.subrange(p + 1, n as int));
        p = p + 1;
    }
    let ghost after = s.subrange(p as int, n as int);
    assert(skip_ws(after) == after);
    let mut q: usize = p;
    while q < n && !is_whitespace(report.get_char(q))
        invariant
            n == s.len(),
            s == report@,
            p <= q <= n,
            token(after) == s.subrange(p as int, q as int) + token(s.subrange(q as int, n as int)),
        decreases n - q,
    {
        assert(s.subrange(q as int, n as int).drop_first() =~= s.subrange(q + 1, n as int));
        assert(s.subrange(p as int, q + 1) =~= s.subrange(p as int, q as int) + seq![s[q as int]]);
        q = q + 1;
    }
    assert(token(s.subrange(q as int, n as int)) == Seq::<char>::empty());
    let ghost word = s.subrange(p as int, q as int);
    assert(token(after) =~= word);
    assert(token(skip_ws(rest)) == word);
    let mut d0: usize = p;
    if p < q && report.get_char(p) == '+' {
        d0 = p + 1;
        assert(word.drop_first() =~= s.subrange(d0 as int, q as int));
    } else {
        assert(p < q ==> word[0] != '+');
    }
    let ghost digits = s.subrange(d0 as int, q as int);
    assert(unsigned_digits(word) == digits);
    if d0 == q {
        return None;
    }
    assert(spec_stat(report@, marker@) == if all_digits(digits) && decimal(digits) <= u64::MAX {
        Some(decimal(digits))
    } else {
        None
    });
    let mut v: u64 = 0;
    let mut j: usize = d0;
    while j < q
        invariant
            spec_stat(report@, marker@) == if all_digits(digits) && decimal(digits) <= u64::MAX {
                Some(decimal(digits))
            } else {
                None
            },
            n == s.len(),
            s == report@,
            d0 <= j <= q <= n,
            digits == s.subrange(d0 as int, q as int),
            all_digits(s.subrange(d0 as int, j as int)),
            v == decimal(s.subrange(d0 as int, j as int)),
        decreases q - j,
    {
        let c = report.get_char(j);
        assert(c == digits[j - d0]);
        if !('0' <= c && c <= '9') {
            assert(!is_digit(digits[j - d0]));
            assert(!all_digits(digits));
            return None;
        }
        let d = (c as u32 - '0' as u32) as u64;
        let ghost pre = s.subrange(d0 as int, j as int);
        let ghost ext = s.subrange(d0 as int, j + 1);
        assert(ext.drop_last() =~= pre);
        assert(ext.last() == c);
        assert(decimal(ext) == decimal(pre) * 10 + d);
        let next = match v.checked_mul(10) {
            Some(t) => t.checked_add(d),
            None => None,
        };
        match next {
            Some(t) => {
                v = t;
            },
            None => {
                proof {
                    assert(decimal(ext) > u64::MAX);
                    if all_digits(digits) {
                        assert(digits.subrange(0, j + 1 - d0) =~= ext);
                        lemma_decimal_grows(digits, j + 1 - d0);
                        assert(decimal(digits) > u64::MAX);
                    }
                }
                return None;
            },
        }
        j = j + 1;
    }
    Some(v)
}

fn is_whitespace(c: char) -> (r: bool)
    ensures
        r == is_ws(c),
{
    let u = c as u32;
    (0x09 <= u && u <= 0x0D) || u == 0x20 || u == 0x85 || u == 0xA0 || u == 0x1680 || (0x2000 <= u
        && u <= 0x200A) || u == 0x2028 || u == 0x2029 || u == 0x202F || u == 0x205F || u == 0x3000
}

} // verus!
