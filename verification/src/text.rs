//! Character-level helpers on string slices: prefixes, suffixes, separators
//! and whitespace trimming, each specified over the slice's `Seq<char>` view.
use vstd::prelude::*;

verus! {

/// The characters with the Unicode `White_Space` property, which is what
/// `char::is_whitespace` tests.
pub open spec fn is_white_space(c: char) -> bool {
    ||| ('\u{9}' <= c && c <= '\u{d}')
    ||| c == ' '
    ||| c == '\u{85}'
    ||| c == '\u{a0}'
    ||| c == '\u{1680}'
    ||| ('\u{2000}' <= c && c <= '\u{200a}')
    ||| c == '\u{2028}'
    ||| c == '\u{2029}'
    ||| c == '\u{202f}'
    ||| c == '\u{205f}'
    ||| c == '\u{3000}'
}

/// `s` with `p` removed from its front, when `s` starts with `p`.
pub open spec fn strip_prefix_spec(s: Seq<char>, p: Seq<char>) -> Option<Seq<char>> {
    if p.is_prefix_of(s) {
        Some(s.skip(p.len() as int))
    } else {
        None
    }
}

/// `s` with `p` removed from its end, when `s` ends with `p`.
pub open spec fn strip_suffix_spec(s: Seq<char>, p: Seq<char>) -> Option<Seq<char>> {
    if p.is_suffix_of(s) {
        Some(s.take(s.len() - p.len()))
    } else {
        None
    }
}

/// The first index at or after `from` that holds `sep`, or the length of `s`
/// when there is none.
pub open spec fn segment_end(s: Seq<char>, from: int, sep: char) -> int
    decreases s.len() - from,
{
    if from < 0 || from >= s.len() || s[from] == sep {
        from
    } else {
        segment_end(s, from + 1, sep)
    }
}

/// The first index at or after `from` that holds a character other than
/// whitespace, or the length of `s` when there is none.
pub open spec fn leading_white_end(s: Seq<char>, from: int) -> int
    decreases s.len() - from,
{
    if from < 0 || from >= s.len() || !is_white_space(s[from]) {
        from
    } else {
        leading_white_end(s, from + 1)
    }
}

/// Moving down from `to` but not below `lo`, the first end that does not
/// follow a whitespace character.
pub open spec fn trailing_white_start(s: Seq<char>, lo: int, to: int) -> int
    decreases to - lo,
{
    if to <= lo || to > s.len() || !is_white_space(s[to - 1]) {
        to
    } else {
        trailing_white_start(s, lo, to - 1)
    }
}

/// `s` without its leading and trailing whitespace (`str::trim`).
pub open spec fn trim_spec(s: Seq<char>) -> Seq<char> {
    let lo = leading_white_end(s, 0);
    s.subrange(lo, trailing_white_start(s, lo, s.len() as int))
}

pub proof fn lemma_segment_end_bounds(s: Seq<char>, from: int, sep: char)
    requires
        0 <= from <= s.len(),
    ensures
        from <= segment_end(s, from, sep) <= s.len(),
        segment_end(s, from, sep) < s.len() ==> s[segment_end(s, from, sep)] == sep,
        forall|k: int| from <= k < segment_end(s, from, sep) ==> s[k] != sep,
    decreases s.len() - from,
{
    if from < s.len() && s[from] != sep {
        lemma_segment_end_bounds(s, from + 1, sep);
    }
}

/// Where a segment ends when the separator first occurs at `k`.
pub proof fn lemma_segment_end_at(s: Seq<char>, from: int, k: int, sep: char)
    requires
        0 <= from <= k <= s.len(),
        k < s.len() ==> s[k] == sep,
        forall|j: int| from <= j < k ==> s[j] != sep,
    ensures
        segment_end(s, from, sep) == k,
    decreases k - from,
{
    if from < k {
        lemma_segment_end_at(s, from + 1, k, sep);
    }
}

/// Whether `c` is a whitespace character (`char::is_whitespace`).
pub fn is_white_space_char(c: char) -> (b: bool)
    ensures
        b == is_white_space(c),
{
    ('\u{9}' <= c && c <= '\u{d}') || c == ' ' || c == '\u{85}' || c == '\u{a0}' || c
        == '\u{1680}' || ('\u{2000}' <= c && c <= '\u{200a}') || c == '\u{2028}' || c
        == '\u{2029}' || c == '\u{202f}' || c == '\u{205f}' || c == '\u{3000}'
}

/// Whether `s` starts with `p` (`str::starts_with`).
pub fn starts_with(s: &str, p: &str) -> (b: bool)
    ensures
        b == p@.is_prefix_of(s@),
{
    let n = s.unicode_len();
    let m = p.unicode_len();
    if m > n {
        return false;
    }
    let mut i: usize = 0;
    while i < m
        invariant
            n == s@.len(),
            m == p@.len(),
            m <= n,
            i <= m,
            forall|k: int| 0 <= k < i ==> s@[k] == p@[k],
        decreases m - i,
    {
        if s.get_char(i) != p.get_char(i) {
            assert(s@.subrange(0, m as int)[i as int] == s@[i as int]);
            return false;
        }
        i = i + 1;
    }
    assert(p@ =~= s@.subrange(0, m as int));
    true
}

/// Whether `s` ends with `p` (`str::ends_with`).
pub fn ends_with(s: &str, p: &str) -> (b: bool)
    ensures
        b == p@.is_suffix_of(s@),
{
    let n = s.unicode_len();
    let m = p.unicode_len();
    if m > n {
        return false;
    }
    let off = n - m;
    let mut i: usize = 0;
    while i < m
        invariant
            n == s@.len(),
            m == p@.len(),
            m <= n,
            off == n - m,
            i <= m,
            forall|k: int| 0 <= k < i ==> s@[off + k] == p@[k],
        decreases m - i,
    {
        if s.get_char(off + i) != p.get_char(i) {
            assert(s@.subrange(off as int, n as int)[i as int] == s@[off + i]);
            return false;
        }
        i = i + 1;
    }
    assert(p@ =~= s@.subrange(off as int, n as int));
    true
}

/// `s` without the prefix `p`, when it has it (`str::strip_prefix`).
pub fn strip_prefix<'a>(s: &'a str, p: &str) -> (res: Option<&'a str>)
    ensures
        res matches Some(r) ==> strip_prefix_spec(s@, p@) == Some(r@),
        res is None ==> strip_prefix_spec(s@, p@) is None,
{
    if starts_with(s, p) {
        let n = s.unicode_len();
        let m = p.unicode_len();
        let rest = s.substring_char(m, n);
        assert(rest@ =~= s@.skip(p@.len() as int));
        Some(rest)
    } else {
        None
    }
}

/// `s` without the suffix `p`, when it has it (`str::strip_suffix`).
pub fn strip_suffix<'a>(s: &'a str, p: &str) -> (res: Option<&'a str>)
    ensures
        res matches Some(r) ==> strip_suffix_spec(s@, p@) == Some(r@),
        res is None ==> strip_suffix_spec(s@, p@) is None,
{
    if ends_with(s, p) {
        let n = s.unicode_len();
        let m = p.unicode_len();
        let rest = s.substring_char(0, n - m);
        assert(rest@ =~= s@.take(s@.len() - p@.len()));
        Some(rest)
    } else {
        None
    }
}

/// The first index at or after `from` that holds `sep`, or the length of `s`.
pub fn find_segment_end(s: &str, from: usize, sep: char) -> (k: usize)
    requires
        from <= s@.len(),
    ensures
        k == segment_end(s@, from as int, sep),
        from <= k <= s@.len(),
{
    let n = s.unicode_len();
    let mut k = from;
    while k < n && s.get_char(k) != sep
        invariant
            n == s@.len(),
            from <= k <= n,
            segment_end(s@, from as int, sep) == segment_end(s@, k as int, sep),
        decreases n - k,
    {
        k = k + 1;
    }
    k
}

/// `s` without its leading and trailing whitespace (`str::trim`).
pub fn trim(s: &str) -> (res: &str)
    ensures
        res@ == trim_spec(s@),
        res@.len() > 0 ==> !is_white_space(res@[0]) && !is_white_space(res@.last()),
        res@.len() == 0 ==> forall|k: int| 0 <= k < s@.len() ==> is_white_space(#[trigger] s@[k]),
        exists|lo: int, hi: int|
            {
                &&& 0 <= lo <= hi <= s@.len()
                &&& res@ == s@.subrange(lo, hi)
                &&& forall|k: int| 0 <= k < lo ==> is_white_space(#[trigger] s@[k])
                &&& forall|k: int| hi <= k < s@.len() ==> is_white_space(#[trigger] s@[k])
            },
{
    let n = s.unicode_len();
    let mut lo: usize = 0;
    while lo < n && is_white_space_char(s.get_char(lo))
        invariant
            n == s@.len(),
            lo <= n,
            leading_white_end(s@, 0) == leading_white_end(s@, lo as int),
            forall|k: int| 0 <= k < lo ==> is_white_space(#[trigger] s@[k]),
        decreases n - lo,
    {
        lo = lo + 1;
    }
    let mut hi: usize = n;
    while hi > lo && is_white_space_char(s.get_char(hi - 1))
        invariant
            n == s@.len(),
            lo <= hi <= n,
            lo == leading_white_end(s@, 0),
            trailing_white_start(s@, lo as int, n as int) == trailing_white_start(
                s@,
                lo as int,
                hi as int,
            ),
            lo < n ==> !is_white_space(s@[lo as int]),
            forall|k: int| 0 <= k < lo ==> is_white_space(#[trigger] s@[k]),
            forall|k: int| hi <= k < n ==> is_white_space(#[trigger] s@[k]),
        decreases hi - lo,
    {
        hi = hi - 1;
    }
    let res = s.substring_char(lo, hi);
    assert(res@ == s@.subrange(lo as int, hi as int));
    res
}

/// The decimal digit character for `d` (below ten).
pub open spec fn digit_char(d: nat) -> char {
    (48 + d) as char
}

/// The decimal notation of `n`, without leading zeros (as `u64`'s `to_string` writes it).
pub open spec fn decimal(n: nat) -> Seq<char>
    decreases n,
{
    if n < 10 {
        seq![digit_char(n)]
    } else {
        decimal(n / 10).push(digit_char(n % 10))
    }
}

/// The number that a string of decimal digits denotes.
pub open spec fn digits_value(s: Seq<char>) -> int
    decreases s.len(),
{
    if s.len() == 0 {
        0
    } else {
        digits_value(s.drop_last()) * 10 + (s.last() as int - 48)
    }
}

/// The decimal notation of `n` is made of the digits `0` to `9`, starts with
/// `0` only when it is the single digit of zero, and denotes `n`.
pub proof fn lemma_decimal_denotes(n: nat)
    ensures
        decimal(n).len() >= 1,
        forall|i: int|
            0 <= i < decimal(n).len() ==> '0' <= #[trigger] decimal(n)[i] && decimal(n)[i] <= '9',
        decimal(n)[0] == '0' ==> n == 0 && decimal(n).len() == 1,
        digits_value(decimal(n)) == n,
    decreases n,
{
    if n < 10 {
        assert(decimal(n) == seq![digit_char(n)]);
        assert(decimal(n).drop_last() =~= Seq::<char>::empty());
        assert(digit_char(n) as int == 48 + n);
        assert(digits_value(Seq::<char>::empty()) == 0);
    } else {
        lemma_decimal_denotes(n / 10);
        let d = decimal(n);
        assert(d == decimal(n / 10).push(digit_char(n % 10)));
        assert(d.drop_last() =~= decimal(n / 10));
        assert(d[0] == decimal(n / 10)[0]);
        assert(digit_char(n % 10) as int == 48 + n % 10);
        assert(digits_value(d) == digits_value(decimal(n / 10)) * 10 + (n % 10));
        assert(n == (n / 10) * 10 + n % 10);
    }
}

fn digit_text(d: u64) -> (res: &'static str)
    requires
        d < 10,
    ensures
        res@ == seq![digit_char(d as nat)],
{
    proof {
        reveal_strlit("0");
        reveal_strlit("1");
        reveal_strlit("2");
        reveal_strlit("3");
        reveal_strlit("4");
        reveal_strlit("5");
        reveal_strlit("6");
        reveal_strlit("7");
        reveal_strlit("8");
        reveal_strlit("9");
    }
    if d == 0 {
        "0"
    } else if d == 1 {
        "1"
    } else if d == 2 {
        "2"
    } else if d == 3 {
        "3"
    } else if d == 4 {
        "4"
    } else if d == 5 {
        "5"
    } else if d == 6 {
        "6"
    } else if d == 7 {
        "7"
    } else if d == 8 {
        "8"
    } else {
        "9"
    }
}

/// The decimal notation of `n`.
pub fn decimal_text(n: u64) -> (res: String)
    ensures
        res@ == decimal(n as nat),
{
    let mut m = n;
    let mut res = String::new();
    while m >= 10
        invariant
            decimal(n as nat) == decimal(m as nat) + res@,
        decreases m,
    {
        let d = m % 10;
        let next = String::from_str(digit_text(d)).concat(res.as_str());
        assert(decimal(m as nat) == decimal((m / 10) as nat).push(digit_char(d as nat)));
        assert(decimal(m as nat) + res@ =~= decimal((m / 10) as nat) + next@);
        res = next;
        m = m / 10;
    }
    let out = String::from_str(digit_text(m)).concat(res.as_str());
    assert(decimal(m as nat) == seq![digit_char(m as nat)]);
    out
}

proof fn lemma_leading_white(s: Seq<char>, from: int)
    requires
        0 <= from <= s.len(),
    ensures
        from <= leading_white_end(s, from) <= s.len(),
        forall|k: int| from <= k < leading_white_end(s, from) ==> is_white_space(#[trigger] s[k]),
        leading_white_end(s, from) < s.len() ==> !is_white_space(s[leading_white_end(s, from)]),
    decreases s.len() - from,
{
    if from < s.len() && is_white_space(s[from]) {
        lemma_leading_white(s, from + 1);
    }
}

proof fn lemma_trailing_white(s: Seq<char>, lo: int, to: int)
    requires
        0 <= lo <= to <= s.len(),
    ensures
        lo <= trailing_white_start(s, lo, to) <= to,
        forall|k: int| trailing_white_start(s, lo, to) <= k < to ==> is_white_space(#[trigger] s[k]),
        trailing_white_start(s, lo, to) > lo ==> !is_white_space(
            s[trailing_white_start(s, lo, to) - 1],
        ),
    decreases to - lo,
{
    if to > lo && is_white_space(s[to - 1]) {
        lemma_trailing_white(s, lo, to - 1);
    }
}

/// Trimming cuts whitespace, and only whitespace, from both ends: the result
/// is a piece of the text with nothing but whitespace before and after it, and
/// it neither starts nor ends with whitespace; it is empty only when the text
/// is all whitespace.
pub proof fn lemma_trim_cuts_only_whitespace(s: Seq<char>)
    ensures
        exists|lo: int, hi: int|
            {
                &&& 0 <= lo <= hi <= s.len()
                &&& trim_spec(s) == s.subrange(lo, hi)
                &&& forall|k: int| 0 <= k < lo ==> is_white_space(#[trigger] s[k])
                &&& forall|k: int| hi <= k < s.len() ==> is_white_space(#[trigger] s[k])
            },
        trim_spec(s).len() > 0 ==> !is_white_space(trim_spec(s)[0]) && !is_white_space(
            trim_spec(s).last(),
        ),
        trim_spec(s).len() == 0 ==> forall|k: int| 0 <= k < s.len() ==> is_white_space(#[trigger] s[k]),
{
    let lo = leading_white_end(s, 0);
    lemma_leading_white(s, 0);
    let hi = trailing_white_start(s, lo, s.len() as int);
    lemma_trailing_white(s, lo, s.len() as int);
    let t = trim_spec(s);
    assert(t == s.subrange(lo, hi));
    if hi > lo {
        assert(t[0] == s[lo]);
        assert(t.last() == s[hi - 1]);
    } else if lo < s.len() {
        assert(is_white_space(s[lo]));
    }
}

} // verus!
