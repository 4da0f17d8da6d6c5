//! Small verified text utilities shared by the session core: whitespace
//! trimming, prefix tests, character search, and decimal rendering of
//! unsigned integers.

use vstd::prelude::*;

verus! {

/// Whether `c` has the Unicode `White_Space` property; the result of
/// `char::is_whitespace`, a function of the character alone.
pub uninterp spec fn is_ws_char(c: char) -> bool;

/// Relies on `char::is_whitespace`: whether the character has the Unicode
/// `White_Space` property.
pub assume_specification[ char::is_whitespace ](c: char) -> (r: bool)
    ensures
        r == is_ws_char(c),
;

/// `s` without its leading whitespace characters.
pub open spec fn drop_leading_ws(s: Seq<char>) -> Seq<char>
    decreases s.len(),
{
    if s.len() > 0 && is_ws_char(s[0]) {
        drop_leading_ws(s.drop_first())
    } else {
        s
    }
}

/// `s` without its trailing whitespace characters.
pub open spec fn drop_trailing_ws(s: Seq<char>) -> Seq<char>
    decreases s.len(),
{
    if s.len() > 0 && is_ws_char(s[s.len() - 1]) {
        drop_trailing_ws(s.drop_last())
    } else {
        s
    }
}

/// `s` without leading and trailing whitespace: what `str::trim` keeps.
pub open spec fn trim_of(s: Seq<char>) -> Seq<char> {
    drop_trailing_ws(drop_leading_ws(s))
}

proof fn lemma_drop_leading_is_subrange(s: Seq<char>, k: int)
    requires
        0 <= k <= s.len(),
        forall|j: int| 0 <= j < k ==> is_ws_char(s[j]),
        k == s.len() || !is_ws_char(s[k]),
    ensures
        drop_leading_ws(s) == s.subrange(k, s.len() as int),
    decreases k,
{
    if k == 0 {
        assert(s.subrange(0, s.len() as int) =~= s);
    } else {
        let rest = s.drop_first();
        assert(is_ws_char(s[0]));
        lemma_drop_leading_is_subrange(rest, k - 1);
        assert(rest.subrange(k - 1, rest.len() as int) =~= s.subrange(k, s.len() as int));
    }
}

proof fn lemma_drop_trailing_is_subrange(s: Seq<char>, h: int)
    requires
        0 <= h <= s.len(),
        forall|j: int| h <= j < s.len() ==> is_ws_char(s[j]),
        h == 0 || !is_ws_char(s[h - 1]),
    ensures
        drop_trailing_ws(s) == s.subrange(0, h),
    decreases s.len() - h,
{
    if h == s.len() {
        if s.len() == 0 || !is_ws_char(s[s.len() - 1]) {
            assert(s.subrange(0, s.len() as int) =~= s);
        }
    } else {
        let rest = s.drop_last();
        assert(is_ws_char(s[s.len() - 1]));
        lemma_drop_trailing_is_subrange(rest, h);
        assert(rest.subrange(0, h) =~= s.subrange(0, h));
    }
}

/// `str::trim`, reimplemented so that its whole behavior is verified against
/// `trim_of`; only the per-character whitespace test is taken on trust.
pub fn trim_ws(s: &str) -> (r: &str)
    ensures
        r@ == trim_of(s@),
{
    let n = s.unicode_len();
    let mut lo: usize = 0;
    while lo < n && s.get_char(lo).is_whitespace()
        invariant
            0 <= lo <= n,
            n == s@.len(),
            forall|j: int| 0 <= j < lo ==> is_ws_char(s@[j]),
        decreases n - lo,
    {
        lo = lo + 1;
    }
    let mut hi: usize = n;
    while hi > lo && s.get_char(hi - 1).is_whitespace()
        invariant
            lo <= hi <= n,
            n == s@.len(),
            forall|j: int| 0 <= j < lo ==> is_ws_char(s@[j]),
            forall|j: int| hi <= j < n ==> is_ws_char(s@[j]),
        decreases hi,
    {
        hi = hi - 1;
    }
    let r = s.substring_char(lo, hi);
    proof {
        lemma_drop_leading_is_subrange(s@, lo as int);
        let mid = s@.subrange(lo as int, n as int);
        lemma_drop_trailing_is_subrange(mid, hi - lo);
        assert(mid.subrange(0, hi - lo) =~= s@.subrange(lo as int, hi as int));
    }
    r
}

/// Whether `p` is a prefix of `s`.
pub open spec fn has_prefix(s: Seq<char>, p: Seq<char>) -> bool {
    p.len() <= s.len() && s.subrange(0, p.len() as int) == p
}

/// Whether `s` starts with `p`, by character comparison.
pub fn starts_with_str(s: &str, p: &str) -> (r: bool)
    ensures
        r == has_prefix(s@, p@),
{
    let pn = p.unicode_len();
    let sn = s.unicode_len();
    if sn < pn {
        return false;
    }
    let mut i: usize = 0;
    while i < pn
        invariant
            0 <= i <= pn,
            pn == p@.len(),
            sn == s@.len(),
            pn <= sn,
            forall|j: int| 0 <= j < i ==> s@[j] == p@[j],
        decreases pn - i,
    {
        if s.get_char(i) != p.get_char(i) {
            proof {
                assert(s@.subrange(0, pn as int)[i as int] != p@[i as int]);
            }
            return false;
        }
        i = i + 1;
    }
    proof {
        assert(s@.subrange(0, pn as int) =~= p@);
    }
    true
}

/// Whether `a` and `b` hold the same characters.
pub fn str_eq(a: &str, b: &str) -> (r: bool)
    ensures
        r == (a@ == b@),
{
    let an = a.unicode_len();
    let bn = b.unicode_len();
    if an != bn {
        return false;
    }
    let r = starts_with_str(a, b);
    proof {
        assert(a@.subrange(0, bn as int) =~= a@);
    }
    r
}

/// Whether `s` holds the character `c` anywhere.
pub fn contains_char(s: &str, c: char) -> (r: bool)
    ensures
        r == s@.contains(c),
{
    let n = s.unicode_len();
    let mut i: usize = 0;
    while i < n
        invariant
            0 <= i <= n,
            n == s@.len(),
            forall|j: int| 0 <= j < i ==> s@[j] != c,
        decreases n - i,
    {
        if s.get_char(i) == c {
            return true;
        }
        i = i + 1;
    }
    false
}

/// The decimal digit character for `d`, which must be below ten.
pub open spec fn dec_digit(d: int) -> char {
    if d == 0 {
        '0'
    } else if d == 1 {
        '1'
    } else if d == 2 {
        '2'
    } else if d == 3 {
        '3'
    } else if d == 4 {
        '4'
    } else if d == 5 {
        '5'
    } else if d == 6 {
        '6'
    } else if d == 7 {
        '7'
    } else if d == 8 {
        '8'
    } else {
        '9'
    }
}

/// The decimal rendering of `n`, most significant digit first, no leading
/// zeros (a lone zero for zero itself).
pub open spec fn dec_of(n: nat) -> Seq<char>
    decreases n,
{
    if n < 10 {
        seq![dec_digit(n as int)]
    } else {
        dec_of(n / 10).push(dec_digit((n % 10) as int))
    }
}

fn dec_digit_str(d: u128) -> (r: &'static str)
    requires
        d < 10,
    ensures
        r@ =~= seq![dec_digit(d as int)],
{
    proof {
        reveal_strlit("0");
        reveal_strlit("1");
        reveal_strlit("2");
        reveal_strlit("3");
        reveal_strlit("4");
        reveal_strlit("5");
        reveal_strlit("6");
        reveal_strlit("7");
        reveal_strlit("8");
        reveal_strlit("9");
    }
    if d == 0 {
        "0"
    } else if d == 1 {
        "1"
    } else if d == 2 {
        "2"
    } else if d == 3 {
        "3"
    } else if d == 4 {
        "4"
    } else if d == 5 {
        "5"
    } else if d == 6 {
        "6"
    } else if d == 7 {
        "7"
    } else if d == 8 {
        "8"
    } else {
        "9"
    }
}

/// Renders `n` in decimal.
pub fn dec_string(n: u128) -> (r: String)
    ensures
        r@ == dec_of(n as nat),
    decreases n,
{
    if n < 10 {
        let r = String::from_str(dec_digit_str(n));
        proof {
            assert(r@ =~= dec_of(n as nat));
        }
        r
    } else {
        let q = n / 10;
        let d = n % 10;
        assert(q < n) by (nonlinear_arith)
            requires
                n >= 10,
                q == n / 10,
        ;
        let mut r = dec_string(q);
        r.append(dec_digit_str(d));
        proof {
            assert(r@ =~= dec_of(n as nat));
        }
        r
    }
}

} // verus!
