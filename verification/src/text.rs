//! Character-level text helpers shared by the parsers and the settings logic.
//!
//! Text is modelled as `Seq<char>`. Ranges are half-open `[lo, hi)` positions
//! into one sequence, so that a line or a token of a larger text can be
//! described without copying it.
use vstd::prelude::*;

verus! {

/// Unicode `White_Space`, the property that `char::is_whitespace`, `str::trim`
/// and `str::split_whitespace` use.
pub open spec fn is_white_space(c: char) -> bool {
    let u = c as u32;
    ||| 0x09 <= u <= 0x0D
    ||| u == 0x20
    ||| u == 0x85
    ||| u == 0xA0
    ||| u == 0x1680
    ||| 0x2000 <= u <= 0x200A
    ||| u == 0x2028
    ||| u == 0x2029
    ||| u == 0x202F
    ||| u == 0x205F
    ||| u == 0x3000
}

/// First position at or after `i` (and before `hi`) that is not white space, or `hi`.
pub open spec fn skip_ws_forward(s: Seq<char>, i: int, hi: int) -> int
    decreases hi - i,
{
    if i >= hi || !is_white_space(s[i]) {
        i
    } else {
        skip_ws_forward(s, i + 1, hi)
    }
}

/// Position just after the last non-white-space character of `[lo, j)`, or `lo`.
pub open spec fn skip_ws_backward(s: Seq<char>, lo: int, j: int) -> int
    decreases j - lo,
{
    if j <= lo || !is_white_space(s[j - 1]) {
        j
    } else {
        skip_ws_backward(s, lo, j - 1)
    }
}

/// Start of the run of non-white-space characters that ends at `j` (not before `lo`).
pub open spec fn word_start(s: Seq<char>, lo: int, j: int) -> int
    decreases j - lo,
{
    if j <= lo || is_white_space(s[j - 1]) {
        j
    } else {
        word_start(s, lo, j - 1)
    }
}

/// `s` without leading and trailing white space (what `str::trim` returns).
pub open spec fn trimmed(s: Seq<char>) -> Seq<char> {
    let a = skip_ws_forward(s, 0, s.len() as int);
    let b = skip_ws_backward(s, a, s.len() as int);
    s.subrange(a, b)
}

/// `pat` occurs in `s` at position `i`.
pub open spec fn matches_at(s: Seq<char>, i: int, pat: Seq<char>) -> bool {
    &&& 0 <= i
    &&& i + pat.len() <= s.len()
    &&& forall|k: int| 0 <= k < pat.len() ==> s[i + k] == pat[k]
}

/// `pat` occurs inside the range `[lo, hi)` of `s`.
pub open spec fn contains_in(s: Seq<char>, lo: int, hi: int, pat: Seq<char>) -> bool {
    exists|i: int| lo <= i && i + pat.len() <= hi && #[trigger] matches_at(s, i, pat)
}

/// `pat` occurs somewhere in `s` (what `str::contains` with a string pattern answers).
pub open spec fn contains(s: Seq<char>, pat: Seq<char>) -> bool {
    contains_in(s, 0, s.len() as int, pat)
}

/// ASCII upper-case letters mapped to lower case, every other character unchanged.
pub open spec fn ascii_lower(c: char) -> char {
    if 'A' <= c && c <= 'Z' {
        ((c as u32) + 32) as char
    } else {
        c
    }
}

/// Equality up to ASCII case (what `str::eq_ignore_ascii_case` answers).
pub open spec fn eq_ignore_ascii_case(a: Seq<char>, b: Seq<char>) -> bool {
    &&& a.len() == b.len()
    &&& forall|i: int| 0 <= i < a.len() ==> ascii_lower(a[i]) == ascii_lower(b[i])
}

pub open spec fn is_ascii_digit(c: char) -> bool {
    '0' <= c && c <= '9'
}

pub open spec fn digit_value(c: char) -> nat {
    ((c as u32) - ('0' as u32)) as nat
}

/// Decimal value of the digits in `[lo, hi)`.
pub open spec fn digits_value(s: Seq<char>, lo: int, hi: int) -> nat
    decreases hi - lo,
{
    if hi <= lo {
        0
    } else {
        digits_value(s, lo, hi - 1) * 10 + digit_value(s[hi - 1])
    }
}

pub open spec fn all_digits(s: Seq<char>, lo: int, hi: int) -> bool {
    forall|i: int| lo <= i < hi ==> is_ascii_digit(#[trigger] s[i])
}

/// What `u32::from_str` gives for the characters in `[lo, hi)`: an optional
/// leading `+`, then at least one ASCII digit, with a value that fits.
pub open spec fn parse_u32_in(s: Seq<char>, lo: int, hi: int) -> Option<u32> {
    let d = if lo < hi && s[lo] == '+' {
        lo + 1
    } else {
        lo
    };
    if d < hi && all_digits(s, d, hi) && digits_value(s, d, hi) <= u32::MAX {
        Some(digits_value(s, d, hi) as u32)
    } else {
        None
    }
}

/// As `parse_u32_in`, for `u64::from_str`.
pub open spec fn parse_u64_in(s: Seq<char>, lo: int, hi: int) -> Option<u64> {
    let d = if lo < hi && s[lo] == '+' {
        lo + 1
    } else {
        lo
    };
    if d < hi && all_digits(s, d, hi) && digits_value(s, d, hi) <= u64::MAX {
        Some(digits_value(s, d, hi) as u64)
    } else {
        None
    }
}

pub open spec fn decimal_digit(d: nat) -> char {
    (('0' as u32) + d) as char
}

/// The decimal representation of `n`, without sign or leading zeros.
pub open spec fn decimal(n: nat) -> Seq<char>
    decreases n,
{
    if n < 10 {
        seq![decimal_digit(n)]
    } else {
        decimal(n / 10).push(decimal_digit(n % 10))
    }
}

/// The characters of `s`, in order.
pub fn chars_of(s: &str) -> (v: Vec<char>)
    ensures
        v@ == s@,
{
    let mut v: Vec<char> = Vec::new();
    for c in it: s.chars()
        invariant
            v@ == it.seq().take(it.index() as int),
    {
        v.push(c);
    }
    v
}

pub fn char_is_white_space(c: char) -> (r: bool)
    ensures
        r == is_white_space(c),
{
    let u = c as u32;
    (0x09 <= u && u <= 0x0D) || u == 0x20 || u == 0x85 || u == 0xA0 || u == 0x1680 || (0x2000
        <= u && u <= 0x200A) || u == 0x2028 || u == 0x2029 || u == 0x202F || u == 0x205F || u
        == 0x3000
}

/// First position in `[i, hi)` that is not white space, or `hi`.
pub fn skip_ws_forward_exec(s: &Vec<char>, i: usize, hi: usize) -> (r: usize)
    requires
        i <= hi <= s.len(),
    ensures
        r == skip_ws_forward(s@, i as int, hi as int),
        i <= r <= hi,
{
    let mut k = i;
    while k < hi && char_is_white_space(s[k])
        invariant
            i <= k <= hi <= s.len(),
            skip_ws_forward(s@, i as int, hi as int) == skip_ws_forward(s@, k as int, hi as int),
        decreases hi - k,
    {
        k = k + 1;
    }
    k
}

/// Position after the last non-white-space character of `[lo, j)`, or `lo`.
pub fn skip_ws_backward_exec(s: &Vec<char>, lo: usize, j: usize) -> (r: usize)
    requires
        lo <= j <= s.len(),
    ensures
        r == skip_ws_backward(s@, lo as int, j as int),
        lo <= r <= j,
{
    let mut k = j;
    while k > lo && char_is_white_space(s[k - 1])
        invariant
            lo <= k <= j <= s.len(),
            skip_ws_backward(s@, lo as int, j as int) == skip_ws_backward(s@, lo as int, k as int),
        decreases k - lo,
    {
        k = k - 1;
    }
    k
}

/// Start of the non-white-space run that ends at `j`, not before `lo`.
pub fn word_start_exec(s: &Vec<char>, lo: usize, j: usize) -> (r: usize)
    requires
        lo <= j <= s.len(),
    ensures
        r == word_start(s@, lo as int, j as int),
        lo <= r <= j,
{
    let mut k = j;
    while k > lo && !char_is_white_space(s[k - 1])
        invariant
            lo <= k <= j <= s.len(),
            word_start(s@, lo as int, j as int) == word_start(s@, lo as int, k as int),
        decreases k - lo,
    {
        k = k - 1;
    }
    k
}

/// `s` without leading and trailing white space.
pub fn trim(s: &str) -> (r: String)
    ensures
        r@ == trimmed(s@),
{
    let v = chars_of(s);
    let a = skip_ws_forward_exec(&v, 0, v.len());
    let b = skip_ws_backward_exec(&v, a, v.len());
    s.substring_char(a, b).to_owned()
}

/// Does `pat` occur at position `i` of `s`?
pub fn matches_at_exec(s: &Vec<char>, i: usize, pat: &Vec<char>) -> (r: bool)
    ensures
        r == matches_at(s@, i as int, pat@),
{
    if i > s.len() || pat.len() > s.len() - i {
        return false;
    }
    let mut k: usize = 0;
    while k < pat.len()
        invariant
            i + pat.len() <= s.len(),
            k <= pat.len(),
            forall|m: int| 0 <= m < k ==> s@[i + m] == pat@[m],
        decreases pat.len() - k,
    {
        if s[i + k] != pat[k] {
            return false;
        }
        k = k + 1;
    }
    true
}

/// Does `pat` occur inside `[lo, hi)` of `s`?
pub fn contains_in_exec(s: &Vec<char>, lo: usize, hi: usize, pat: &Vec<char>) -> (r: bool)
    requires
        lo <= hi <= s.len(),
    ensures
        r == contains_in(s@, lo as int, hi as int, pat@),
{
    if pat.len() > hi - lo {
        return false;
    }
    let last = hi - pat.len();
    let mut i = lo;
    while i <= last
        invariant
            lo <= i,
            last + pat.len() == hi,
            hi <= s.len(),
            forall|j: int| lo <= j < i ==> !#[trigger] matches_at(s@, j, pat@),
        decreases last + 1 - i,
    {
        if matches_at_exec(s, i, pat) {
            return true;
        }
        i = i + 1;
    }
    proof {
        assert forall|j: int| lo <= j && j + pat@.len() <= hi implies !#[trigger] matches_at(
            s@,
            j,
            pat@,
        ) by {}
    }
    false
}

/// Does `pat` occur in `s`?
pub fn str_contains(s: &str, pat: &str) -> (r: bool)
    ensures
        r == contains(s@, pat@),
{
    let v = chars_of(s);
    let p = chars_of(pat);
    contains_in_exec(&v, 0, v.len(), &p)
}

pub fn ascii_lower_exec(c: char) -> (r: char)
    ensures
        r == ascii_lower(c),
{
    if 'A' <= c && c <= 'Z' {
        let u = (c as u32) + 32;
        assert(0x61 <= u <= 0x7a);
        char_from_ascii_letter(u)
    } else {
        c
    }
}

fn char_from_ascii_letter(u: u32) -> (c: char)
    requires
        0x61 <= u <= 0x7a,
    ensures
        c == u as char,
{
    let b = u as u8;
    b as char
}

/// Equality up to ASCII case.
pub fn str_eq_ignore_ascii_case(a: &str, b: &str) -> (r: bool)
    ensures
        r == eq_ignore_ascii_case(a@, b@),
{
    let va = chars_of(a);
    let vb = chars_of(b);
    if va.len() != vb.len() {
        return false;
    }
    let mut i: usize = 0;
    while i < va.len()
        invariant
            va.len() == vb.len(),
            i <= va.len(),
            va@ == a@,
            vb@ == b@,
            forall|k: int| 0 <= k < i ==> ascii_lower(va@[k]) == ascii_lower(vb@[k]),
        decreases va.len() - i,
    {
        if ascii_lower_exec(va[i]) != ascii_lower_exec(vb[i]) {
            assert(ascii_lower(va@[i as int]) != ascii_lower(vb@[i as int]));
            return false;
        }
        i = i + 1;
    }
    true
}

/// Exact equality of two string slices.
pub fn str_eq(a: &str, b: &str) -> (r: bool)
    ensures
        r == (a@ == b@),
{
    let va = chars_of(a);
    let vb = chars_of(b);
    if va.len() != vb.len() {
        return false;
    }
    let mut i: usize = 0;
    while i < va.len()
        invariant
            va.len() == vb.len(),
            i <= va.len(),
            va@ == a@,
            vb@ == b@,
            forall|k: int| 0 <= k < i ==> va@[k] == vb@[k],
        decreases va.len() - i,
    {
        if va[i] != vb[i] {
            assert(va@[i as int] != vb@[i as int]);
            return false;
        }
        i = i + 1;
    }
    assert(va@ =~= vb@);
    true
}

} // verus!

verus! {

/// First position in `[i, hi)` holding `c`, or `hi`.
pub open spec fn find_char(s: Seq<char>, i: int, hi: int, c: char) -> int
    decreases hi - i,
{
    if i >= hi || s[i] == c {
        i
    } else {
        find_char(s, i + 1, hi, c)
    }
}

/// First position in `[i, hi)` not holding `c`, or `hi`.
pub open spec fn skip_char_forward(s: Seq<char>, i: int, hi: int, c: char) -> int
    decreases hi - i,
{
    if i >= hi || s[i] != c {
        i
    } else {
        skip_char_forward(s, i + 1, hi, c)
    }
}

/// Position after the last character of `[lo, j)` that is not `c`, or `lo`.
pub open spec fn skip_char_backward(s: Seq<char>, lo: int, j: int, c: char) -> int
    decreases j - lo,
{
    if j <= lo || s[j - 1] != c {
        j
    } else {
        skip_char_backward(s, lo, j - 1, c)
    }
}

pub proof fn lemma_find_char_bounds(s: Seq<char>, i: int, hi: int, c: char)
    requires
        i <= hi,
    ensures
        i <= find_char(s, i, hi, c) <= hi,
    decreases hi - i,
{
    if i < hi && s[i] != c {
        lemma_find_char_bounds(s, i + 1, hi, c);
    }
}

pub fn find_char_exec(s: &Vec<char>, i: usize, hi: usize, c: char) -> (r: usize)
    requires
        i <= hi <= s.len(),
    ensures
        r == find_char(s@, i as int, hi as int, c),
        i <= r <= hi,
{
    let mut k = i;
    while k < hi && s[k] != c
        invariant
            i <= k <= hi <= s.len(),
            find_char(s@, i as int, hi as int, c) == find_char(s@, k as int, hi as int, c),
        decreases hi - k,
    {
        k = k + 1;
    }
    k
}

pub fn skip_char_forward_exec(s: &Vec<char>, i: usize, hi: usize, c: char) -> (r: usize)
    requires
        i <= hi <= s.len(),
    ensures
        r == skip_char_forward(s@, i as int, hi as int, c),
        i <= r <= hi,
{
    let mut k = i;
    while k < hi && s[k] == c
        invariant
            i <= k <= hi <= s.len(),
            skip_char_forward(s@, i as int, hi as int, c) == skip_char_forward(
                s@,
                k as int,
                hi as int,
                c,
            ),
        decreases hi - k,
    {
        k = k + 1;
    }
    k
}

pub fn skip_char_backward_exec(s: &Vec<char>, lo: usize, j: usize, c: char) -> (r: usize)
    requires
        lo <= j <= s.len(),
    ensures
        r == skip_char_backward(s@, lo as int, j as int, c),
        lo <= r <= j,
{
    let mut k = j;
    while k > lo && s[k - 1] == c
        invariant
            lo <= k <= j <= s.len(),
            skip_char_backward(s@, lo as int, j as int, c) == skip_char_backward(
                s@,
                lo as int,
                k as int,
                c,
            ),
        decreases k - lo,
    {
        k = k - 1;
    }
    k
}

pub proof fn lemma_digits_value_monotone(s: Seq<char>, lo: int, k: int, hi: int)
    requires
        lo <= k <= hi,
    ensures
        digits_value(s, lo, k) <= digits_value(s, lo, hi),
    decreases hi - k,
{
    if k < hi {
        lemma_digits_value_monotone(s, lo, k, hi - 1);
    }
}

/// Decimal value of `[lo, hi)` when every character there is a digit and the
/// value fits in a `u64`.
fn digits_value_exec(s: &Vec<char>, lo: usize, hi: usize) -> (r: Option<u64>)
    requires
        lo <= hi <= s.len(),
    ensures
        r == (if all_digits(s@, lo as int, hi as int) && digits_value(s@, lo as int, hi as int)
            <= u64::MAX {
            Some(digits_value(s@, lo as int, hi as int) as u64)
        } else {
            None::<u64>
        }),
{
    let mut acc: u64 = 0;
    let mut k = lo;
    while k < hi
        invariant
            lo <= k <= hi <= s.len(),
            all_digits(s@, lo as int, k as int),
            acc as nat == digits_value(s@, lo as int, k as int),
        decreases hi - k,
    {
        let c = s[k];
        if !('0' <= c && c <= '9') {
            assert(!is_ascii_digit(s@[k as int]));
            return None;
        }
        let d: u64 = (c as u32 - '0' as u32) as u64;
        assert(d as nat == digit_value(s@[k as int]));
        assert(d <= 9);
        if acc > (u64::MAX - d) / 10 {
            proof {
                assert(acc * 10 + d > u64::MAX) by (nonlinear_arith)
                    requires
                        acc > (u64::MAX - d) / 10,
                        d <= 9,
                ;
                assert(digits_value(s@, lo as int, (k + 1) as int) == acc * 10 + d);
                lemma_digits_value_monotone(s@, lo as int, (k + 1) as int, hi as int);
            }
            return None;
        }
        proof {
            assert(acc * 10 + d <= u64::MAX) by (nonlinear_arith)
                requires
                    acc <= (u64::MAX - d) / 10,
                    d <= 9,
            ;
        }
        acc = acc * 10 + d;
        k = k + 1;
        assert(all_digits(s@, lo as int, k as int));
    }
    Some(acc)
}

/// `u64::from_str` on the characters in `[lo, hi)`.
pub fn parse_u64_in_exec(s: &Vec<char>, lo: usize, hi: usize) -> (r: Option<u64>)
    requires
        lo <= hi <= s.len(),
    ensures
        r == parse_u64_in(s@, lo as int, hi as int),
{
    let d = if lo < hi && s[lo] == '+' {
        lo + 1
    } else {
        lo
    };
    if d < hi {
        digits_value_exec(s, d, hi)
    } else {
        None
    }
}

/// `u32::from_str` on the characters in `[lo, hi)`.
pub fn parse_u32_in_exec(s: &Vec<char>, lo: usize, hi: usize) -> (r: Option<u32>)
    requires
        lo <= hi <= s.len(),
    ensures
        r == parse_u32_in(s@, lo as int, hi as int),
{
    match parse_u64_in_exec(s, lo, hi) {
        Some(v) => {
            if v <= 0xffff_ffff {
                Some(v as u32)
            } else {
                None
            }
        },
        None => None,
    }
}

pub fn decimal_digit_exec(d: u64) -> (c: char)
    requires
        d < 10,
    ensures
        c == decimal_digit(d as nat),
{
    let b = (48 + d) as u8;
    b as char
}

/// The decimal representation of `n`.
pub fn decimal_chars(n: u64) -> (v: Vec<char>)
    ensures
        v@ == decimal(n as nat),
    decreases n,
{
    if n < 10 {
        let mut v: Vec<char> = Vec::new();
        v.push(decimal_digit_exec(n));
        assert(v@ =~= seq![decimal_digit(n as nat)]);
        v
    } else {
        let mut v = decimal_chars(n / 10);
        v.push(decimal_digit_exec(n % 10));
        v
    }
}

/// A `String` holding exactly the characters of `v`.
#[verifier::external_body]
pub(crate) fn string_from_chars(v: &Vec<char>) -> (s: String)
    ensures
        s@ == v@,
{
    v.iter().collect()
}

/// The decimal representation of `n` as a `String`.
pub fn decimal_string(n: u64) -> (s: String)
    ensures
        s@ == decimal(n as nat),
{
    let v = decimal_chars(n);
    string_from_chars(&v)
}

} // verus!

verus! {

pub proof fn lemma_skip_ws_forward_stops(s: Seq<char>, i: int, hi: int)
    requires
        0 <= i <= hi <= s.len(),
    ensures
        i <= skip_ws_forward(s, i, hi) <= hi,
        skip_ws_forward(s, i, hi) < hi ==> !is_white_space(s[skip_ws_forward(s, i, hi)]),
    decreases hi - i,
{
    if i < hi && is_white_space(s[i]) {
        lemma_skip_ws_forward_stops(s, i + 1, hi);
    }
}

pub proof fn lemma_skip_ws_backward_stops(s: Seq<char>, lo: int, j: int)
    requires
        0 <= lo <= j <= s.len(),
    ensures
        lo <= skip_ws_backward(s, lo, j) <= j,
        skip_ws_backward(s, lo, j) > lo ==> !is_white_space(s[skip_ws_backward(s, lo, j) - 1]),
    decreases j - lo,
{
    if j > lo && is_white_space(s[j - 1]) {
        lemma_skip_ws_backward_stops(s, lo, j - 1);
    }
}

/// A trimmed text has nothing left to trim.
pub proof fn trimmed_idempotent(s: Seq<char>)
    ensures
        trimmed(trimmed(s)) == trimmed(s),
{
    let a = skip_ws_forward(s, 0, s.len() as int);
    lemma_skip_ws_forward_stops(s, 0, s.len() as int);
    let b = skip_ws_backward(s, a, s.len() as int);
    lemma_skip_ws_backward_stops(s, a, s.len() as int);
    let t = trimmed(s);
    assert(t == s.subrange(a, b));
    if t.len() > 0 {
        assert(t[0] == s[a]);
        assert(skip_ws_forward(t, 0, t.len() as int) == 0);
        assert(t[t.len() - 1] == s[b - 1]);
        assert(skip_ws_backward(t, 0, t.len() as int) == t.len());
        assert(t.subrange(0, t.len() as int) =~= t);
    } else {
        assert(trimmed(t) =~= t);
    }
}

} // verus!
