//! Character-sequence helpers: ASCII case folding, prefix/suffix/substring
//! predicates and lexicographic comparison, shared by the classifier and
//! the scanner.

use vstd::prelude::*;

verus! {

/// ASCII case folding of a single character: letters `A`..`Z` map to
/// `a`..`z`, every other character is unchanged.
pub open spec fn spec_lower_char(c: char) -> char {
    if c == 'A' { 'a' } else if c == 'B' { 'b' } else if c == 'C' { 'c' }
    else if c == 'D' { 'd' } else if c == 'E' { 'e' } else if c == 'F' { 'f' }
    else if c == 'G' { 'g' } else if c == 'H' { 'h' } else if c == 'I' { 'i' }
    else if c == 'J' { 'j' } else if c == 'K' { 'k' } else if c == 'L' { 'l' }
    else if c == 'M' { 'm' } else if c == 'N' { 'n' } else if c == 'O' { 'o' }
    else if c == 'P' { 'p' } else if c == 'Q' { 'q' } else if c == 'R' { 'r' }
    else if c == 'S' { 's' } else if c == 'T' { 't' } else if c == 'U' { 'u' }
    else if c == 'V' { 'v' } else if c == 'W' { 'w' } else if c == 'X' { 'x' }
    else if c == 'Y' { 'y' } else if c == 'Z' { 'z' }
    else { c }
}

/// ASCII case folding of a character sequence, applied pointwise.
pub open spec fn spec_lower(s: Seq<char>) -> Seq<char> {
    s.map_values(|c: char| spec_lower_char(c))
}

pub fn lower_char(c: char) -> (r: char)
    ensures
        r == spec_lower_char(c),
{
    match c {
        'A' => 'a', 'B' => 'b', 'C' => 'c', 'D' => 'd', 'E' => 'e',
        'F' => 'f', 'G' => 'g', 'H' => 'h', 'I' => 'i', 'J' => 'j',
        'K' => 'k', 'L' => 'l', 'M' => 'm', 'N' => 'n', 'O' => 'o',
        'P' => 'p', 'Q' => 'q', 'R' => 'r', 'S' => 's', 'T' => 't',
        'U' => 'u', 'V' => 'v', 'W' => 'w', 'X' => 'x', 'Y' => 'y',
        'Z' => 'z',
        _ => c,
    }
}

/// The characters of `s`, unchanged.
pub fn chars_vec(s: &str) -> (r: Vec<char>)
    ensures
        r@ == s@,
{
    let n: usize = s.unicode_len();
    let mut r: Vec<char> = Vec::new();
    let mut i: usize = 0;
    while i < n
        invariant
            n == s@.len(),
            i <= n,
            r@ == s@.subrange(0, i as int),
        decreases n - i,
    {
        r.push(s.get_char(i));
        assert(r@ =~= s@.subrange(0, i + 1));
        i = i + 1;
    }
    assert(r@ =~= s@);
    r
}

/// The characters of `s`, case-folded.
pub fn lower_chars(s: &str) -> (r: Vec<char>)
    ensures
        r@ == spec_lower(s@),
{
    let n: usize = s.unicode_len();
    let mut r: Vec<char> = Vec::new();
    let mut i: usize = 0;
    while i < n
        invariant
            n == s@.len(),
            i <= n,
            r@ == spec_lower(s@.subrange(0, i as int)),
        decreases n - i,
    {
        r.push(lower_char(s.get_char(i)));
        assert(r@ =~= spec_lower(s@.subrange(0, i + 1)));
        i = i + 1;
    }
    assert(spec_lower(s@.subrange(0, s@.len() as int)) =~= spec_lower(s@));
    r
}

/// `p` starts with `q`.
pub open spec fn spec_starts_with(p: Seq<char>, q: Seq<char>) -> bool {
    q.len() <= p.len() && p.subrange(0, q.len() as int) == q
}

/// `p` ends with `q`.
pub open spec fn spec_ends_with(p: Seq<char>, q: Seq<char>) -> bool {
    q.len() <= p.len() && p.subrange(p.len() - q.len(), p.len() as int) == q
}

/// `q` occurs in `p` starting at offset `k`.
pub open spec fn spec_matches_at(p: Seq<char>, q: Seq<char>, k: int) -> bool {
    0 <= k && k + q.len() <= p.len() && p.subrange(k, k + q.len()) == q
}

/// `q` occurs somewhere in `p`.
pub open spec fn spec_contains(p: Seq<char>, q: Seq<char>) -> bool {
    exists|k: int| spec_matches_at(p, q, k)
}

/// Whether the characters of `p` from offset `k` on match the literal `lit`.
fn chars_match_lit_at(p: &Vec<char>, lit: &str, k: usize) -> (r: bool)
    requires
        k + lit@.len() <= p@.len(),
    ensures
        r == spec_matches_at(p@, lit@, k as int),
{
    let m: usize = lit.unicode_len();
    let n: usize = p.len();
    let mut j: usize = 0;
    while j < m
        invariant
            m == lit@.len(),
            n == p@.len(),
            k + m <= n,
            j <= m,
            forall|t: int| 0 <= t < j ==> p@[k + t] == lit@[t],
        decreases m - j,
    {
        if p[k + j] != lit.get_char(j) {
            assert(p@.subrange(k as int, k + m) != lit@) by {
                assert(p@.subrange(k as int, k + m)[j as int] != lit@[j as int]);
            }
            return false;
        }
        j = j + 1;
    }
    assert(p@.subrange(k as int, k + m) =~= lit@);
    true
}

/// `p` starts with the literal `lit`.
pub fn chars_starts_with_lit(p: &Vec<char>, lit: &str) -> (r: bool)
    ensures
        r == spec_starts_with(p@, lit@),
{
    let m: usize = lit.unicode_len();
    if m > p.len() {
        return false;
    }
    let r = chars_match_lit_at(p, lit, 0);
    assert(p@.subrange(0, m as int) == p@.subrange(0int, 0int + m as int));
    r
}

/// `p` ends with the literal `lit`.
pub fn chars_ends_with_lit(p: &Vec<char>, lit: &str) -> (r: bool)
    ensures
        r == spec_ends_with(p@, lit@),
{
    let m: usize = lit.unicode_len();
    let n: usize = p.len();
    if m > n {
        return false;
    }
    let r = chars_match_lit_at(p, lit, n - m);
    assert(p@.subrange(n - m, n as int) == p@.subrange((n - m) as int, n - m + m as int));
    r
}

/// The literal `lit` occurs somewhere in `p`.
pub fn chars_contains_lit(p: &Vec<char>, lit: &str) -> (r: bool)
    ensures
        r == spec_contains(p@, lit@),
{
    let m: usize = lit.unicode_len();
    let n: usize = p.len();
    if m > n {
        assert(forall|k: int| !spec_matches_at(p@, lit@, k));
        return false;
    }
    if m == 0 {
        assert(p@.subrange(0, 0) =~= lit@);
        assert(spec_matches_at(p@, lit@, 0));
        return true;
    }
    let mut k: usize = 0;
    while k <= n - m
        invariant
            m == lit@.len(),
            0 < m <= n,
            n == p@.len(),
            k <= n - m + 1,
            forall|t: int| 0 <= t < k ==> !spec_matches_at(p@, lit@, t),
        decreases n - m + 1 - k,
    {
        if chars_match_lit_at(p, lit, k) {
            return true;
        }
        k = k + 1;
    }
    assert(forall|t: int| t > n - m ==> !spec_matches_at(p@, lit@, t));
    false
}

/// `p` equals the literal `lit`.
pub fn chars_eq_lit(p: &Vec<char>, lit: &str) -> (r: bool)
    ensures
        r == (p@ == lit@),
{
    let m: usize = lit.unicode_len();
    if m != p.len() {
        return false;
    }
    let r = chars_match_lit_at(p, lit, 0);
    if r {
        assert(p@ =~= p@.subrange(0, m as int));
        assert(p@.subrange(0, m as int) == p@.subrange(0int, 0int + m as int));
    } else {
        assert(p@.subrange(0int, 0int + m as int) =~= p@);
    }
    r
}

/// The offset of the first occurrence of `c` in `p`, if any.
pub fn find_char(p: &Vec<char>, c: char) -> (r: Option<usize>)
    ensures
        match r {
            Some(i) => i < p@.len() && p@[i as int] == c
                && forall|t: int| 0 <= t < i ==> p@[t] != c,
            None => forall|t: int| 0 <= t < p@.len() ==> p@[t] != c,
        },
{
    let n: usize = p.len();
    let mut i: usize = 0;
    while i < n
        invariant
            n == p@.len(),
            i <= n,
            forall|t: int| 0 <= t < i ==> p@[t] != c,
        decreases n - i,
    {
        if p[i] == c {
            return Some(i);
        }
        i = i + 1;
    }
    None
}

/// The offset of the last occurrence of `c` in `p`, if any.
pub fn rfind_char(p: &Vec<char>, c: char) -> (r: Option<usize>)
    ensures
        match r {
            Some(i) => i < p@.len() && p@[i as int] == c
                && forall|t: int| i < t < p@.len() ==> p@[t] != c,
            None => forall|t: int| 0 <= t < p@.len() ==> p@[t] != c,
        },
{
    let n: usize = p.len();
    let mut i: usize = n;
    while i > 0
        invariant
            n == p@.len(),
            i <= n,
            forall|t: int| i <= t < n ==> p@[t] != c,
        decreases i,
    {
        i = i - 1;
        if p[i] == c {
            return Some(i);
        }
    }
    None
}

/// Lexicographic order on character sequences, by code point:
/// `x` is less than or equal to `y`.
pub open spec fn spec_le_chars(x: Seq<char>, y: Seq<char>) -> bool
    decreases x.len(),
{
    if x.len() == 0 {
        true
    } else if y.len() == 0 {
        false
    } else if x[0] != y[0] {
        (x[0] as u32) < (y[0] as u32)
    } else {
        spec_le_chars(x.drop_first(), y.drop_first())
    }
}

/// Comparing two sequences that agree on their first `i` characters is
/// the same as comparing what follows those characters.
proof fn lemma_le_chars_skip(x: Seq<char>, y: Seq<char>, i: int)
    requires
        0 <= i <= x.len(),
        i <= y.len(),
        x.subrange(0, i) == y.subrange(0, i),
    ensures
        spec_le_chars(x, y) == spec_le_chars(x.skip(i), y.skip(i)),
    decreases i,
{
    if i > 0 {
        assert(x[0] == y[0]) by {
            assert(x.subrange(0, i)[0] == x[0]);
            assert(y.subrange(0, i)[0] == y[0]);
        }
        assert(x.drop_first().subrange(0, i - 1) =~= y.drop_first().subrange(0, i - 1)) by {
            assert(forall|t: int| 0 <= t < i - 1 ==> x.drop_first()[t] == x.subrange(0, i)[t + 1]
                && y.drop_first()[t] == y.subrange(0, i)[t + 1]);
        }
        lemma_le_chars_skip(x.drop_first(), y.drop_first(), i - 1);
        assert(x.drop_first().skip(i - 1) =~= x.skip(i));
        assert(y.drop_first().skip(i - 1) =~= y.skip(i));
    } else {
        assert(x.skip(0) =~= x);
        assert(y.skip(0) =~= y);
    }
}

/// `x` is lexicographically at most `y`.
pub fn le_chars(x: &Vec<char>, y: &Vec<char>) -> (r: bool)
    ensures
        r == spec_le_chars(x@, y@),
{
    let xl: usize = x.len();
    let yl: usize = y.len();
    let mut i: usize = 0;
    while i < xl && i < yl
        invariant
            xl == x@.len(),
            yl == y@.len(),
            i <= xl,
            i <= yl,
            x@.subrange(0, i as int) =~= y@.subrange(0, i as int),
        decreases xl - i,
    {
        if x[i] != y[i] {
            proof {
                lemma_le_chars_skip(x@, y@, i as int);
            }
            assert(x@.skip(i as int)[0] == x@[i as int]);
            assert(y@.skip(i as int)[0] == y@[i as int]);
            return (x[i] as u32) < (y[i] as u32);
        }
        assert(x@.subrange(0, i + 1) =~= y@.subrange(0, i + 1));
        i = i + 1;
    }
    proof {
        lemma_le_chars_skip(x@, y@, i as int);
    }
    if i == xl {
        assert(x@.skip(i as int).len() == 0);
        true
    } else {
        assert(y@.skip(i as int).len() == 0);
        assert(x@.skip(i as int).len() > 0);
        false
    }
}

/// The case-folded form of `a` is lexicographically at most the
/// case-folded form of `b`: the order the repository snapshot is
/// sorted by.
pub fn le_ci(a: &str, b: &str) -> (r: bool)
    ensures
        r == spec_le_chars(spec_lower(a@), spec_lower(b@)),
{
    let x = lower_chars(a);
    let y = lower_chars(b);
    le_chars(&x, &y)
}

/// The decimal digit `d` as a character; meaningful for `0 <= d <= 9`.
pub open spec fn spec_digit_char(d: int) -> char {
    if d == 0 { '0' } else if d == 1 { '1' } else if d == 2 { '2' }
    else if d == 3 { '3' } else if d == 4 { '4' } else if d == 5 { '5' }
    else if d == 6 { '6' } else if d == 7 { '7' } else if d == 8 { '8' }
    else { '9' }
}

/// The decimal digits of a non-negative integer, most significant first.
pub open spec fn spec_dec_digits(n: int) -> Seq<char>
    decreases n,
{
    if n < 10 {
        seq![spec_digit_char(n)]
    } else {
        spec_dec_digits(n / 10).push(spec_digit_char(n % 10))
    }
}

/// The decimal rendering of a signed integer, as `to_string` writes it.
pub open spec fn spec_i64_dec(n: int) -> Seq<char> {
    if n < 0 {
        seq!['-'] + spec_dec_digits(-n)
    } else {
        spec_dec_digits(n)
    }
}

fn push_dec_digits(s: &mut String, m: u64)
    ensures
        final(s)@ == old(s)@ + spec_dec_digits(m as int),
    decreases m,
{
    if m >= 10 {
        push_dec_digits(s, m / 10);
    }
    let d: u64 = m % 10;
    proof {
        reveal_strlit("0");
        reveal_strlit("1");
        reveal_strlit("2");
        reveal_strlit("3");
        reveal_strlit("4");
        reveal_strlit("5");
        reveal_strlit("6");
        reveal_strlit("7");
        reveal_strlit("8");
        reveal_strlit("9");
    }
    if d == 0 { s.append("0"); } else if d == 1 { s.append("1"); }
    else if d == 2 { s.append("2"); } else if d == 3 { s.append("3"); }
    else if d == 4 { s.append("4"); } else if d == 5 { s.append("5"); }
    else if d == 6 { s.append("6"); } else if d == 7 { s.append("7"); }
    else if d == 8 { s.append("8"); } else { s.append("9"); }
    assert(final(s)@ =~= old(s)@ + spec_dec_digits(m as int));
}

/// The decimal rendering of `n`.
pub fn i64_string(n: i64) -> (r: String)
    ensures
        r@ == spec_i64_dec(n as int),
{
    let mut s = String::new();
    if n < 0 {
        proof {
            reveal_strlit("-");
        }
        s.append("-");
        let m: u64 = (-(n as i128)) as u64;
        push_dec_digits(&mut s, m);
        assert(s@ =~= spec_i64_dec(n as int));
    } else {
        let m: u64 = n as u64;
        push_dec_digits(&mut s, m);
    }
    s
}

/// A copy of `p[a..b]`.
pub fn chars_range(p: &Vec<char>, a: usize, b: usize) -> (r: Vec<char>)
    requires
        a <= b <= p@.len(),
    ensures
        r@ == p@.subrange(a as int, b as int),
{
    let mut r: Vec<char> = Vec::new();
    let mut i: usize = a;
    while i < b
        invariant
            a <= i <= b <= p@.len(),
            r@ == p@.subrange(a as int, i as int),
        decreases b - i,
    {
        r.push(p[i]);
        assert(r@ =~= p@.subrange(a as int, i + 1));
        i = i + 1;
    }
    r
}

} // verus!
