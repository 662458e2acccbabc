//! Character-level text operations shared by the matcher, the command
//! parser and the whitelist store: whitespace trimming, prefix and
//! substring search, decimal parsing and formatting, and lowercasing.

use vstd::prelude::*;
use vstd::string::StrSliceExecFns;
use vstd::string::StringExecFns;

verus! {

/// The code points of the Unicode `White_Space` property, the characters
/// that trimming removes.
pub open spec fn is_ws(c: char) -> bool {
    c == ' ' || c == '\t' || c == '\n' || c == '\r' || c == '\u{0b}' || c == '\u{0c}'
        || c == '\u{85}' || c == '\u{a0}' || c == '\u{1680}' || c == '\u{2000}' || c == '\u{2001}'
        || c == '\u{2002}' || c == '\u{2003}' || c == '\u{2004}' || c == '\u{2005}'
        || c == '\u{2006}' || c == '\u{2007}' || c == '\u{2008}' || c == '\u{2009}'
        || c == '\u{200a}' || c == '\u{2028}' || c == '\u{2029}' || c == '\u{202f}'
        || c == '\u{205f}' || c == '\u{3000}'
}

/// Whether `c` counts as whitespace for trimming and token splitting.
pub fn is_ws_char(c: char) -> (r: bool)
    ensures
        r == is_ws(c),
{
    c == ' ' || c == '\t' || c == '\n' || c == '\r' || c == '\u{0b}' || c == '\u{0c}'
        || c == '\u{85}' || c == '\u{a0}' || c == '\u{1680}' || c == '\u{2000}' || c == '\u{2001}'
        || c == '\u{2002}' || c == '\u{2003}' || c == '\u{2004}' || c == '\u{2005}'
        || c == '\u{2006}' || c == '\u{2007}' || c == '\u{2008}' || c == '\u{2009}'
        || c == '\u{200a}' || c == '\u{2028}' || c == '\u{2029}' || c == '\u{202f}'
        || c == '\u{205f}' || c == '\u{3000}'
}

/// `t` without its leading whitespace.
pub open spec fn trim_start_spec(t: Seq<char>) -> Seq<char>
    decreases t.len(),
{
    if t.len() > 0 && is_ws(t[0]) {
        trim_start_spec(t.drop_first())
    } else {
        t
    }
}

/// `t` without its trailing whitespace.
pub open spec fn trim_end_spec(t: Seq<char>) -> Seq<char>
    decreases t.len(),
{
    if t.len() > 0 && is_ws(t.last()) {
        trim_end_spec(t.drop_last())
    } else {
        t
    }
}

/// `t` without leading and trailing whitespace.
pub open spec fn trim_spec(t: Seq<char>) -> Seq<char> {
    trim_end_spec(trim_start_spec(t))
}

pub proof fn lemma_trim_start_exact(t: Seq<char>, lo: int)
    requires
        0 <= lo <= t.len(),
        forall|k: int| 0 <= k < lo ==> is_ws(t[k]),
        lo < t.len() ==> !is_ws(t[lo]),
    ensures
        trim_start_spec(t) == t.subrange(lo, t.len() as int),
    decreases lo,
{
    if lo == 0 {
        assert(t.subrange(0, t.len() as int) =~= t);
    } else {
        lemma_trim_start_exact(t.drop_first(), lo - 1);
        assert(t.drop_first().subrange(lo - 1, t.drop_first().len() as int) =~= t.subrange(
            lo,
            t.len() as int,
        ));
    }
}

pub proof fn lemma_trim_end_exact(t: Seq<char>, hi: int)
    requires
        0 <= hi <= t.len(),
        forall|k: int| hi <= k < t.len() ==> is_ws(t[k]),
        hi > 0 ==> !is_ws(t[hi - 1]),
    ensures
        trim_end_spec(t) == t.subrange(0, hi),
    decreases t.len() - hi,
{
    if hi == t.len() {
        assert(t.subrange(0, t.len() as int) =~= t);
    } else {
        lemma_trim_end_exact(t.drop_last(), hi);
        assert(t.drop_last().subrange(0, hi) =~= t.subrange(0, hi));
    }
}

pub proof fn lemma_trim_start_pad(lead: Seq<char>, t: Seq<char>)
    requires
        forall|k: int| 0 <= k < lead.len() ==> is_ws(lead[k]),
    ensures
        trim_start_spec(lead + t) == trim_start_spec(t),
    decreases lead.len(),
{
    if lead.len() == 0 {
        assert(lead + t =~= t);
    } else {
        assert((lead + t)[0] == lead[0]);
        assert((lead + t).drop_first() =~= lead.drop_first() + t);
        lemma_trim_start_pad(lead.drop_first(), t);
    }
}

pub proof fn lemma_trim_end_pad(t: Seq<char>, trail: Seq<char>)
    requires
        forall|k: int| 0 <= k < trail.len() ==> is_ws(trail[k]),
    ensures
        trim_end_spec(t + trail) == trim_end_spec(t),
    decreases trail.len(),
{
    if trail.len() == 0 {
        assert(t + trail =~= t);
    } else {
        assert((t + trail).last() == trail.last());
        assert((t + trail).drop_last() =~= t + trail.drop_last());
        lemma_trim_end_pad(t, trail.drop_last());
    }
}

/// Start-trimming a concatenation either stops within `t` or, when `t` is
/// all whitespace, continues into `u`.
pub proof fn lemma_trim_start_concat(t: Seq<char>, u: Seq<char>)
    ensures
        trim_start_spec(t + u) == if trim_start_spec(t).len() > 0 {
            trim_start_spec(t) + u
        } else {
            trim_start_spec(u)
        },
    decreases t.len(),
{
    if t.len() == 0 {
        assert(t + u =~= u);
    } else if is_ws(t[0]) {
        assert((t + u)[0] == t[0]);
        assert((t + u).drop_first() =~= t.drop_first() + u);
        lemma_trim_start_concat(t.drop_first(), u);
    } else {
        assert(!is_ws((t + u)[0]));
        assert(trim_start_spec(t + u) == t + u);
        assert(trim_start_spec(t) == t);
    }
}

/// Trimming ignores whitespace padding on either side.
pub proof fn lemma_trim_pad(lead: Seq<char>, t: Seq<char>, trail: Seq<char>)
    requires
        forall|k: int| 0 <= k < lead.len() ==> is_ws(lead[k]),
        forall|k: int| 0 <= k < trail.len() ==> is_ws(trail[k]),
    ensures
        trim_spec(lead + t + trail) == trim_spec(t),
{
    assert(lead + t + trail =~= lead + (t + trail));
    lemma_trim_start_pad(lead, t + trail);
    lemma_trim_start_concat(t, trail);
    if trim_start_spec(t).len() > 0 {
        lemma_trim_end_pad(trim_start_spec(t), trail);
    } else {
        lemma_trim_start_exact(trail, trail.len() as int);
        assert(trim_start_spec(trail) =~= trail.subrange(
            trail.len() as int,
            trail.len() as int,
        ));
        assert(trim_start_spec(trail).len() == 0);
    }
}

/// The ASCII lowercase mapping of a character is whitespace exactly when
/// the character is: no letter maps to whitespace and no whitespace is a
/// letter.
pub proof fn lemma_ws_ascii_lower(c: char)
    ensures
        is_ws(ascii_lower_char(c)) == is_ws(c),
{
    if 'A' <= c && c <= 'Z' {
        assert(c as nat >= 65 && c as nat <= 90);
    }
}

/// Trimming commutes with the ASCII lowercase mapping.
pub proof fn lemma_trim_map_lower(t: Seq<char>)
    ensures
        trim_start_spec(t.map_values(|c: char| ascii_lower_char(c))) == trim_start_spec(
            t,
        ).map_values(|c: char| ascii_lower_char(c)),
        trim_end_spec(t.map_values(|c: char| ascii_lower_char(c))) == trim_end_spec(
            t,
        ).map_values(|c: char| ascii_lower_char(c)),
    decreases t.len(),
{
    let f = |c: char| ascii_lower_char(c);
    let m = t.map_values(f);
    if t.len() == 0 {
        assert(m =~= Seq::<char>::empty());
    } else {
        lemma_trim_map_lower(t.drop_first());
        lemma_trim_map_lower(t.drop_last());
        lemma_ws_ascii_lower(t[0]);
        lemma_ws_ascii_lower(t.last());
        assert(m[0] == f(t[0]));
        assert(m.last() == f(t.last()));
        assert(m.drop_first() =~= t.drop_first().map_values(f));
        assert(m.drop_last() =~= t.drop_last().map_values(f));
        if !is_ws(t[0]) {
            assert(trim_start_spec(m) == m);
        }
        if !is_ws(t.last()) {
            assert(trim_end_spec(m) == m);
        }
    }
}

pub proof fn lemma_trim_start_ascii(t: Seq<char>)
    requires
        ascii_seq(t),
    ensures
        ascii_seq(trim_start_spec(t)),
    decreases t.len(),
{
    if t.len() > 0 && is_ws(t[0]) {
        assert(forall|i: int|
            0 <= i < t.drop_first().len() ==> t.drop_first()[i] == t[i + 1]);
        lemma_trim_start_ascii(t.drop_first());
    }
}

pub proof fn lemma_trim_end_ascii(t: Seq<char>)
    requires
        ascii_seq(t),
    ensures
        ascii_seq(trim_end_spec(t)),
    decreases t.len(),
{
    if t.len() > 0 && is_ws(t.last()) {
        assert(forall|i: int| 0 <= i < t.drop_last().len() ==> t.drop_last()[i] == t[i]);
        lemma_trim_end_ascii(t.drop_last());
    }
}

/// Trimming an ASCII text leaves an ASCII text.
pub proof fn lemma_trim_ascii(t: Seq<char>)
    requires
        ascii_seq(t),
    ensures
        ascii_seq(trim_spec(t)),
{
    lemma_trim_start_ascii(t);
    lemma_trim_end_ascii(trim_start_spec(t));
}

/// Full trimming commutes with the ASCII lowercase mapping.
pub proof fn lemma_trim_spec_map_lower(t: Seq<char>)
    ensures
        trim_spec(t.map_values(|c: char| ascii_lower_char(c))) == trim_spec(t).map_values(
            |c: char| ascii_lower_char(c),
        ),
{
    lemma_trim_map_lower(t);
    lemma_trim_map_lower(trim_start_spec(t));
}

/// Trims leading and trailing whitespace, as `trim_spec` describes.
pub fn trim_str(s: &str) -> (r: &str)
    ensures
        r@ == trim_spec(s@),
{
    let n = s.unicode_len();
    let mut lo: usize = 0;
    while lo < n && is_ws_char(s.get_char(lo))
        invariant
            0 <= lo <= n,
            n == s@.len(),
            forall|k: int| 0 <= k < lo ==> is_ws(s@[k]),
        decreases n - lo,
    {
        lo = lo + 1;
    }
    let mut hi: usize = n;
    while hi > lo && is_ws_char(s.get_char(hi - 1))
        invariant
            lo <= hi <= n,
            n == s@.len(),
            forall|k: int| hi <= k < n ==> is_ws(s@[k]),
        decreases hi,
    {
        hi = hi - 1;
    }
    proof {
        lemma_trim_start_exact(s@, lo as int);
        if hi == lo {
            // everything from lo on is whitespace, so the start-trimmed
            // remainder is all whitespace and end-trimming empties it
            lemma_trim_end_exact(s@.subrange(lo as int, n as int), 0);
        } else {
            lemma_trim_end_exact(s@.subrange(lo as int, n as int), hi - lo);
        }
        assert(s@.subrange(lo as int, n as int).subrange(0, hi - lo) =~= s@.subrange(
            lo as int,
            hi as int,
        ));
    }
    s.substring_char(lo, hi)
}

/// The characters of `s`, in order, as a vector.
pub fn chars_of(s: &str) -> (r: Vec<char>)
    ensures
        r@ == s@,
{
    let n = s.unicode_len();
    let mut r: Vec<char> = Vec::new();
    let mut i: usize = 0;
    while i < n
        invariant
            0 <= i <= n,
            n == s@.len(),
            r@ == s@.subrange(0, i as int),
        decreases n - i,
    {
        r.push(s.get_char(i));
        proof {
            assert(r@ =~= s@.subrange(0, i + 1));
        }
        i = i + 1;
    }
    proof {
        assert(s@.subrange(0, n as int) =~= s@);
    }
    r
}

/// Whether `p` occurs in `t` starting at offset `k`.
pub open spec fn occurs_at(t: Seq<char>, p: Seq<char>, k: int) -> bool {
    0 <= k && k + p.len() <= t.len() && t.subrange(k, k + p.len() as int) == p
}

/// Whether `p` occurs anywhere in `t` as a contiguous run.
pub open spec fn contains_seq(t: Seq<char>, p: Seq<char>) -> bool {
    exists|k: int| occurs_at(t, p, k)
}

/// Whether `p` occurs in `t` at the given offset.
pub fn occurs_at_exec(t: &Vec<char>, p: &Vec<char>, k: usize) -> (r: bool)
    requires
        k + p@.len() <= t@.len(),
    ensures
        r == occurs_at(t@, p@, k as int),
{
    let m = p.len();
    let tl = t.len();
    let mut j: usize = 0;
    while j < m
        invariant
            0 <= j <= m,
            m == p@.len(),
            tl == t@.len(),
            k + m <= tl,
            forall|jj: int| 0 <= jj < j ==> t@[k + jj] == p@[jj],
        decreases m - j,
    {
        if t[k + j] != p[j] {
            assert(t@.subrange(k as int, k + m as int)[j as int] != p@[j as int]);
            return false;
        }
        j = j + 1;
    }
    proof {
        assert(t@.subrange(k as int, k + m as int) =~= p@);
    }
    true
}

/// Whether `p` is a prefix of `t`.
pub fn is_prefix_exec(p: &Vec<char>, t: &Vec<char>) -> (r: bool)
    ensures
        r == p@.is_prefix_of(t@),
{
    if p.len() > t.len() {
        return false;
    }
    let r = occurs_at_exec(t, p, 0);
    proof {
        if r {
            assert(p@ =~= t@.subrange(0, p@.len() as int));
        } else {
            assert(t@.subrange(0, p@.len() as int) =~= t@.take(p@.len() as int));
        }
    }
    r
}

/// Whether `p` occurs anywhere in `t`.
pub fn contains_exec(t: &Vec<char>, p: &Vec<char>) -> (r: bool)
    ensures
        r == contains_seq(t@, p@),
{
    if p.len() > t.len() {
        assert(!contains_seq(t@, p@));
        return false;
    }
    if p.len() == 0 {
        proof {
            assert(t@.subrange(0, 0) =~= p@);
            assert(occurs_at(t@, p@, 0));
        }
        return true;
    }
    let tl = t.len();
    let last = tl - p.len();
    let mut k: usize = 0;
    while k <= last
        invariant
            0 <= k <= last + 1,
            p@.len() >= 1,
            tl == t@.len(),
            last + p@.len() == t@.len(),
            forall|kk: int| 0 <= kk < k ==> !occurs_at(t@, p@, kk),
        decreases last - k + 1,
    {
        if occurs_at_exec(t, p, k) {
            return true;
        }
        k = k + 1;
    }
    assert(forall|kk: int| occurs_at(t@, p@, kk) ==> 0 <= kk <= last);
    false
}

/// Whether the characters of `cs` between `lo` and `hi` are exactly `s`.
pub fn range_eq_str(cs: &Vec<char>, lo: usize, hi: usize, s: &str) -> (r: bool)
    requires
        lo <= hi <= cs@.len(),
    ensures
        r == (cs@.subrange(lo as int, hi as int) == s@),
{
    let sv = chars_of(s);
    let m = sv.len();
    if hi - lo != m {
        return false;
    }
    let mut j: usize = 0;
    while j < m
        invariant
            0 <= j <= m,
            m == sv@.len(),
            sv@ == s@,
            lo <= hi <= cs@.len(),
            hi - lo == m,
            forall|k: int| 0 <= k < j ==> cs@[lo + k] == sv@[k],
        decreases m - j,
    {
        if cs[lo + j] != sv[j] {
            assert(cs@.subrange(lo as int, hi as int)[j as int] != s@[j as int]);
            return false;
        }
        j = j + 1;
    }
    proof {
        assert(cs@.subrange(lo as int, hi as int) =~= s@);
    }
    true
}

/// The index of the first whitespace character of `s`, or `s.len()` if
/// there is none.
pub open spec fn first_ws_index(s: Seq<char>) -> int
    decreases s.len(),
{
    if s.len() == 0 {
        0
    } else if is_ws(s[0]) {
        0
    } else {
        1 + first_ws_index(s.drop_first())
    }
}

pub proof fn lemma_first_ws_index_exact(s: Seq<char>, j: int)
    requires
        0 <= j <= s.len(),
        forall|k: int| 0 <= k < j ==> !is_ws(s[k]),
        j < s.len() ==> is_ws(s[j]),
    ensures
        first_ws_index(s) == j,
    decreases j,
{
    if j > 0 {
        lemma_first_ws_index_exact(s.drop_first(), j - 1);
    }
}

/// The first whitespace-delimited token of `t`.
pub open spec fn first_token(t: Seq<char>) -> Seq<char> {
    let s = trim_start_spec(t);
    s.take(first_ws_index(s))
}

/// Whether `c` is a decimal digit.
pub open spec fn is_digit(c: char) -> bool {
    '0' <= c && c <= '9'
}

/// The numeric value of a digit character; 0 for any other character.
pub open spec fn char_digit(c: char) -> nat {
    if is_digit(c) {
        (c as nat - '0' as nat) as nat
    } else {
        0
    }
}

/// The digit character for `d`; only meaningful for `d < 10`.
pub open spec fn digit_char(d: nat) -> char {
    if d == 0 {
        '0'
    } else if d == 1 {
        '1'
    } else if d == 2 {
        '2'
    } else if d == 3 {
        '3'
    } else if d == 4 {
        '4'
    } else if d == 5 {
        '5'
    } else if d == 6 {
        '6'
    } else if d == 7 {
        '7'
    } else if d == 8 {
        '8'
    } else {
        '9'
    }
}

/// The value of a digit string read left to right.
pub open spec fn dec_val(s: Seq<char>) -> nat
    decreases s.len(),
{
    if s.len() == 0 {
        0
    } else {
        dec_val(s.drop_last()) * 10 + char_digit(s.last())
    }
}

/// The canonical decimal rendering of `n`: no sign, no leading zero
/// except for zero itself.
pub open spec fn dec_of(n: nat) -> Seq<char>
    decreases n,
{
    if n < 10 {
        seq![digit_char(n)]
    } else {
        dec_of(n / 10).push(digit_char(n % 10))
    }
}

/// A prefix of a digit string never exceeds the whole string's value.
pub proof fn lemma_dec_val_take_le(s: Seq<char>, j: int)
    requires
        0 <= j <= s.len(),
    ensures
        dec_val(s.take(j)) <= dec_val(s),
    decreases s.len(),
{
    if j < s.len() {
        lemma_dec_val_take_le(s.drop_last(), j);
        assert(s.drop_last().take(j) =~= s.take(j));
        assert(dec_val(s) == dec_val(s.drop_last()) * 10 + char_digit(s.last()));
        assert(dec_val(s.drop_last()) * 10 >= dec_val(s.drop_last())) by (nonlinear_arith);
    } else {
        assert(s.take(j) =~= s);
    }
}

/// Reading the decimal rendering of `n` back gives `n`, and the rendering
/// is a nonempty digit string.
pub proof fn lemma_dec_of_val(n: nat)
    ensures
        dec_val(dec_of(n)) == n,
        dec_of(n).len() >= 1,
        forall|i: int| 0 <= i < dec_of(n).len() ==> is_digit(dec_of(n)[i]),
    decreases n,
{
    if n < 10 {
        let s = dec_of(n);
        assert(s.len() == 1);
        assert(s.drop_last() =~= Seq::<char>::empty());
        assert(dec_val(s.drop_last()) == 0);
        assert(s.last() == digit_char(n));
        assert(dec_val(s) == dec_val(s.drop_last()) * 10 + char_digit(s.last()));
        assert(char_digit(digit_char(n)) == n);
    } else {
        lemma_dec_of_val(n / 10);
        let s = dec_of(n);
        assert(s.drop_last() =~= dec_of(n / 10));
        assert(s.last() == digit_char(n % 10));
        assert(char_digit(digit_char(n % 10)) == n % 10);
        assert(dec_val(s) == (n / 10) * 10 + n % 10);
        assert((n / 10) * 10 + n % 10 == n) by (nonlinear_arith);
    }
}

/// Parses a nonempty all-digit string whose value fits in a `u64`;
/// any other input gives `None`.
pub open spec fn parse_u64_spec(s: Seq<char>) -> Option<u64> {
    if s.len() > 0 && (forall|i: int| 0 <= i < s.len() ==> is_digit(s[i])) && dec_val(s)
        <= u64::MAX {
        Some(dec_val(s) as u64)
    } else {
        None
    }
}

/// Parses a decimal `u64`, as `parse_u64_spec` describes.
pub fn parse_u64(s: &Vec<char>) -> (r: Option<u64>)
    ensures
        r == parse_u64_spec(s@),
{
    let n = s.len();
    if n == 0 {
        return None;
    }
    let mut val: u64 = 0;
    let mut i: usize = 0;
    while i < n
        invariant
            0 <= i <= n,
            n == s@.len(),
            forall|k: int| 0 <= k < i ==> is_digit(s@[k]),
            val == dec_val(s@.take(i as int)),
        decreases n - i,
    {
        let c = s[i];
        if c < '0' || c > '9' {
            assert(!is_digit(s@[i as int]));
            return None;
        }
        let d: u64 = (c as u32 as u64) - 48;
        assert(d == char_digit(s@[i as int]));
        proof {
            assert(s@.take(i + 1).drop_last() =~= s@.take(i as int));
            assert(s@.take(i + 1).last() == s@[i as int]);
        }
        if val > u64::MAX / 10 || (val == u64::MAX / 10 && d > u64::MAX % 10) {
            proof {
                let t = s@.take(i + 1);
                assert(dec_val(t) == val * 10 + d);
                assert(val * 10 + d > u64::MAX) by (nonlinear_arith)
                    requires
                        val > u64::MAX / 10 || (val == u64::MAX / 10 && d > u64::MAX % 10),
                        d <= 9,
                ;
                lemma_dec_val_take_le(s@, i + 1);
            }
            return None;
        }
        assert(val * 10 + d <= u64::MAX) by (nonlinear_arith)
            requires
                val <= u64::MAX / 10,
                val == u64::MAX / 10 ==> d <= u64::MAX % 10,
                d <= 9,
        ;
        val = val * 10 + d;
        i = i + 1;
    }
    proof {
        assert(s@.take(n as int) =~= s@);
    }
    Some(val)
}

/// The decimal rendering of a digit as a string slice.
fn digit_str(d: u64) -> (r: &'static str)
    requires
        d < 10,
    ensures
        r@ =~= seq![digit_char(d as nat)],
{
    proof {
        reveal_strlit("0");
        reveal_strlit("1");
        reveal_strlit("2");
        reveal_strlit("3");
        reveal_strlit("4");
        reveal_strlit("5");
        reveal_strlit("6");
        reveal_strlit("7");
        reveal_strlit("8");
        reveal_strlit("9");
    }
    if d == 0 {
        "0"
    } else if d == 1 {
        "1"
    } else if d == 2 {
        "2"
    } else if d == 3 {
        "3"
    } else if d == 4 {
        "4"
    } else if d == 5 {
        "5"
    } else if d == 6 {
        "6"
    } else if d == 7 {
        "7"
    } else if d == 8 {
        "8"
    } else {
        "9"
    }
}

/// Renders `n` in decimal, as `dec_of` describes.
pub fn format_u64(n: u64) -> (r: String)
    ensures
        r@ == dec_of(n as nat),
    decreases n,
{
    if n < 10 {
        String::from_str(digit_str(n))
    } else {
        let mut s = format_u64(n / 10);
        s.append(digit_str(n % 10));
        proof {
            assert(dec_of((n / 10) as nat).push(digit_char((n % 10) as nat)) =~= dec_of(
                (n / 10) as nat,
            ) + seq![digit_char((n % 10) as nat)]);
        }
        s
    }
}

/// Whether every character of `s` is ASCII.
pub open spec fn ascii_seq(s: Seq<char>) -> bool {
    forall|i: int| 0 <= i < s.len() ==> (s[i] as nat) < 128
}

/// The ASCII lowercase mapping: 'A'..='Z' map to 'a'..='z', every other
/// character is unchanged.
pub open spec fn ascii_lower_char(c: char) -> char {
    if 'A' <= c && c <= 'Z' {
        ((c as u8) + 32) as char
    } else {
        c
    }
}

/// What `str::to_lowercase` returns: the Unicode lowercase mapping of the
/// input characters.
pub uninterp spec fn lower_of(s: Seq<char>) -> Seq<char>;

/// Relies on `str::to_lowercase`: the result is a function of the input
/// characters alone; an empty input gives an empty result; and on ASCII
/// input the Unicode mapping lowercases exactly the letters 'A'..='Z' and
/// leaves every other character unchanged.
#[verifier::external_body]
pub(crate) fn lowercase(s: &str) -> (r: String)
    ensures
        r@ == lower_of(s@),
        s@.len() == 0 ==> r@.len() == 0,
        ascii_seq(s@) ==> r@ == s@.map_values(|c: char| ascii_lower_char(c)),
{
    s.to_lowercase()
}

} // verus!
