//! Character-level string helpers with exact specifications.

use vstd::prelude::*;

verus! {

broadcast use vstd::string::group_string_axioms;

/// The texts of a list of strings.
pub open spec fn texts(v: Seq<String>) -> Seq<Seq<char>> {
    v.map_values(|s: String| s@)
}

/// `p` occurs in `s` starting at position `i`.
pub open spec fn occurs_at(s: Seq<char>, p: Seq<char>, i: int) -> bool {
    0 <= i && i + p.len() <= s.len() && s.subrange(i, i + p.len()) == p
}

/// `s` begins with `p`.
pub open spec fn has_prefix(s: Seq<char>, p: Seq<char>) -> bool {
    occurs_at(s, p, 0)
}

/// `s` ends with `p`.
pub open spec fn has_suffix(s: Seq<char>, p: Seq<char>) -> bool {
    p.len() <= s.len() && occurs_at(s, p, s.len() - p.len())
}

/// `p` occurs somewhere in `s`.
pub open spec fn has_substring(s: Seq<char>, p: Seq<char>) -> bool {
    exists|i: int| occurs_at(s, p, i)
}

/// The characters of `s`, in order.
pub fn chars_of(s: &str) -> (v: Vec<char>)
    ensures
        v@ == s@,
{
    let mut v: Vec<char> = Vec::new();
    for c in iter: s.chars()
        invariant
            v@ == iter.seq().take(iter.index() as int),
            iter.seq() == s@,
    {
        v.push(c);
    }
    v
}

/// Appends one character to a string (std `String::push`).
#[verifier::external_body]
pub(crate) fn push_char(s: &mut String, c: char)
    ensures
        final(s)@ == old(s)@.push(c),
{
    s.push(c);
}

/// Appends the characters of `v` to `s`.
pub fn push_chars(s: &mut String, v: &[char])
    ensures
        final(s)@ == old(s)@ + v@,
{
    let ghost start = s@;
    for i in 0..v.len()
        invariant
            s@ == start + v@.take(i as int),
    {
        push_char(s, v[i]);
        assert(v@.take(i + 1) == v@.take(i as int).push(v@[i as int]));
    }
    assert(v@.take(v@.len() as int) == v@);
}

/// A string holding the characters of `v`.
pub fn string_from_chars(v: &[char]) -> (s: String)
    ensures
        s@ == v@,
{
    let mut s = String::new();
    push_chars(&mut s, v);
    s
}

/// Appends the characters of `t` to `s`.
pub fn push_str(s: &mut String, t: &str)
    ensures
        final(s)@ == old(s)@ + t@,
{
    let v = chars_of(t);
    push_chars(s, v.as_slice());
}

/// A fresh string with the characters of `t`.
pub fn owned(t: &str) -> (s: String)
    ensures
        s@ == t@,
{
    let mut s = String::new();
    push_str(&mut s, t);
    s
}

/// Whether `p` occurs in `s` at position `i`.
pub fn matches_at(s: &[char], p: &[char], i: usize) -> (r: bool)
    ensures
        r == occurs_at(s@, p@, i as int),
{
    if i > s.len() || p.len() > s.len() - i {
        return false;
    }
    let n = s.len();
    let mut k: usize = 0;
    while k < p.len()
        invariant
            n == s@.len(),
            i + p@.len() <= s@.len(),
            k <= p@.len(),
            forall|j: int| 0 <= j < k ==> s@[i + j] == p@[j],
        decreases p@.len() - k,
    {
        if s[i + k] != p[k] {
            assert(s@.subrange(i as int, i + p@.len())[k as int] != p@[k as int]);
            return false;
        }
        k = k + 1;
    }
    assert(s@.subrange(i as int, i + p@.len()) =~= p@);
    true
}

/// Whether `s` begins with `p`.
pub fn starts_with(s: &[char], p: &[char]) -> (r: bool)
    ensures
        r == has_prefix(s@, p@),
{
    matches_at(s, p, 0)
}

/// Whether `s` ends with `p`.
pub fn ends_with(s: &[char], p: &[char]) -> (r: bool)
    ensures
        r == has_suffix(s@, p@),
{
    if p.len() > s.len() {
        return false;
    }
    matches_at(s, p, s.len() - p.len())
}

/// Whether `p` occurs anywhere in `s`.
pub fn contains(s: &[char], p: &[char]) -> (r: bool)
    ensures
        r == has_substring(s@, p@),
{
    if p.len() > s.len() {
        return false;
    }
    let n = s.len();
    let mut i: usize = 0;
    while i <= n - p.len()
        invariant
            n == s@.len(),
            p@.len() <= s@.len(),
            i <= s@.len() - p@.len() + 1,
            forall|j: int| 0 <= j < i ==> !occurs_at(s@, p@, j),
        decreases s@.len() - p@.len() + 1 - i,
    {
        if matches_at(s, p, i) {
            return true;
        }
        if i == n - p.len() {
            return false;
        }
        i = i + 1;
    }
    false
}

/// The decimal digit character for `d` (which is below ten).
pub open spec fn digit_char(d: nat) -> char {
    if d == 0 {
        '0'
    } else if d == 1 {
        '1'
    } else if d == 2 {
        '2'
    } else if d == 3 {
        '3'
    } else if d == 4 {
        '4'
    } else if d == 5 {
        '5'
    } else if d == 6 {
        '6'
    } else if d == 7 {
        '7'
    } else if d == 8 {
        '8'
    } else {
        '9'
    }
}

/// The decimal representation of `n`, without sign or leading zeros.
pub open spec fn decimal(n: nat) -> Seq<char>
    decreases n,
{
    if n < 10 {
        seq![digit_char(n)]
    } else {
        decimal(n / 10).push(digit_char(n % 10))
    }
}

/// The decimal representation of a signed integer: a minus sign before the
/// digits of its magnitude when it is negative.
pub open spec fn signed_decimal(n: int) -> Seq<char> {
    if n < 0 {
        seq!['-'] + decimal((-n) as nat)
    } else {
        decimal(n as nat)
    }
}

fn digit(d: u64) -> (c: char)
    requires
        d < 10,
    ensures
        c == digit_char(d as nat),
{
    if d == 0 {
        '0'
    } else if d == 1 {
        '1'
    } else if d == 2 {
        '2'
    } else if d == 3 {
        '3'
    } else if d == 4 {
        '4'
    } else if d == 5 {
        '5'
    } else if d == 6 {
        '6'
    } else if d == 7 {
        '7'
    } else if d == 8 {
        '8'
    } else {
        '9'
    }
}

/// Appends the decimal representation of `n`.
pub fn push_decimal(s: &mut String, n: u64)
    ensures
        final(s)@ == old(s)@ + decimal(n as nat),
    decreases n,
{
    if n >= 10 {
        push_decimal(s, n / 10);
    }
    push_char(s, digit(n % 10));
}

/// Appends the decimal representation of the signed integer `n`.
pub fn push_signed_decimal(s: &mut String, n: i64)
    ensures
        final(s)@ == old(s)@ + signed_decimal(n as int),
{
    if n < 0 {
        push_char(s, '-');
        let magnitude: u64 = if n == i64::MIN {
            9223372036854775808u64
        } else {
            (-n) as u64
        };
        push_decimal(s, magnitude);
    } else {
        push_decimal(s, n as u64);
    }
}

} // verus!

verus! {

/// `s` with every occurrence of `pat` replaced by `to`, scanning from the left
/// and never letting two replaced occurrences overlap.
pub open spec fn replace_all(s: Seq<char>, pat: Seq<char>, to: Seq<char>) -> Seq<char>
    decreases s.len(),
{
    if s.len() == 0 {
        Seq::empty()
    } else if pat.len() > 0 && has_prefix(s, pat) {
        to + replace_all(s.skip(pat.len() as int), pat, to)
    } else {
        seq![s[0]] + replace_all(s.skip(1), pat, to)
    }
}

/// The characters of `s` with every occurrence of `pat` replaced by `to`, for
/// a pattern that is not empty (std `str::replace` with such a pattern; std
/// treats an empty pattern otherwise, which this function does not take).
pub fn replace_all_chars(s: &[char], pat: &[char], to: &[char]) -> (r: Vec<char>)
    requires
        pat@.len() > 0,
    ensures
        r@ == replace_all(s@, pat@, to@),
{
    let n = s.len();
    let mut out: Vec<char> = Vec::new();
    let mut i: usize = 0;
    assert(s@.skip(0) == s@);
    while i < n
        invariant
            n == s@.len(),
            i <= n,
            pat@.len() > 0,
            out@ + replace_all(s@.skip(i as int), pat@, to@) == replace_all(s@, pat@, to@),
        decreases n - i,
    {
        let ghost rest = s@.skip(i as int);
        if matches_at(s, pat, i) {
            assert(has_prefix(rest, pat@)) by {
                assert(rest.subrange(0, pat@.len() as int) =~= s@.subrange(
                    i as int,
                    i + pat@.len(),
                ));
            }
            assert(rest.skip(pat@.len() as int) =~= s@.skip(i + pat@.len()));
            let ghost before = out@;
            let mut k: usize = 0;
            while k < to.len()
                invariant
                    out@ == before + to@.take(k as int),
                    k <= to@.len(),
                decreases to@.len() - k,
            {
                out.push(to[k]);
                assert(to@.take(k + 1) =~= to@.take(k as int).push(to@[k as int]));
                k = k + 1;
            }
            assert(to@.take(to@.len() as int) =~= to@);
            assert(before + (to@ + replace_all(s@.skip(i + pat@.len()), pat@, to@)) =~= before
                + to@ + replace_all(s@.skip(i + pat@.len()), pat@, to@));
            i = i + pat.len();
        } else {
            assert(!has_prefix(rest, pat@)) by {
                if has_prefix(rest, pat@) {
                    assert(rest.subrange(0, pat@.len() as int) =~= s@.subrange(
                        i as int,
                        i + pat@.len(),
                    ));
                }
            }
            assert(rest.skip(1) =~= s@.skip(i + 1));
            assert(rest[0] == s@[i as int]);
            let ghost before = out@;
            out.push(s[i]);
            assert(before + (seq![s@[i as int]] + replace_all(s@.skip(i + 1), pat@, to@))
                =~= before.push(s@[i as int]) + replace_all(s@.skip(i + 1), pat@, to@));
            i = i + 1;
        }
    }
    assert(s@.skip(n as int) =~= Seq::<char>::empty());
    assert(out@ + Seq::<char>::empty() =~= out@);
    out
}

} // verus!

verus! {

/// `a` and `b` agree on their first `k` characters, and at `k` either `a`
/// has ended while `b` goes on, or `a` has the smaller character.
pub open spec fn lex_less_at(a: Seq<char>, b: Seq<char>, k: int) -> bool {
    &&& 0 <= k <= a.len()
    &&& k <= b.len()
    &&& a.take(k) == b.take(k)
    &&& (k == a.len() && k < b.len()) || (k < a.len() && k < b.len() && a[k] < b[k])
}

/// Lexicographic order of character sequences, which for Rust strings is the
/// order of `String`'s `Ord` (UTF-8 keeps the order of code points).
pub open spec fn lex_less(a: Seq<char>, b: Seq<char>) -> bool {
    exists|k: int| #[trigger] lex_less_at(a, b, k)
}

/// No sequence comes before itself, and two sequences are never each before the other.
pub proof fn lemma_lex_asymmetric(a: Seq<char>, b: Seq<char>)
    ensures
        !(lex_less(a, b) && lex_less(b, a)),
        !lex_less(a, a),
{
    if lex_less(a, b) && lex_less(b, a) {
        let k1 = choose|k: int| lex_less_at(a, b, k);
        let k2 = choose|k: int| lex_less_at(b, a, k);
        if k1 < k2 {
            assert(a.take(k2)[k1] == b.take(k2)[k1]);
        } else if k2 < k1 {
            assert(a.take(k1)[k2] == b.take(k1)[k2]);
        }
    }
    if lex_less(a, a) {
        let k = choose|k: int| lex_less_at(a, a, k);
    }
}

/// Lexicographic order is transitive.
pub proof fn lemma_lex_transitive(a: Seq<char>, b: Seq<char>, c: Seq<char>)
    requires
        lex_less(a, b),
        lex_less(b, c),
    ensures
        lex_less(a, c),
{
    let k1 = choose|k: int| lex_less_at(a, b, k);
    let k2 = choose|k: int| lex_less_at(b, c, k);
    if k1 < k2 {
        assert(b.take(k2)[k1] == c.take(k2)[k1]);
        assert(a.take(k1) =~= c.take(k1)) by {
            assert forall|j: int| 0 <= j < k1 implies a.take(k1)[j] == c.take(k1)[j] by {
                assert(a.take(k1)[j] == b.take(k1)[j]);
                assert(b.take(k2)[j] == c.take(k2)[j]);
            }
        }
        assert(lex_less_at(a, c, k1));
    } else if k2 < k1 {
        assert(a.take(k1)[k2] == b.take(k1)[k2]);
        assert(a.take(k2) =~= c.take(k2)) by {
            assert forall|j: int| 0 <= j < k2 implies a.take(k2)[j] == c.take(k2)[j] by {
                assert(a.take(k1)[j] == b.take(k1)[j]);
                assert(b.take(k2)[j] == c.take(k2)[j]);
            }
        }
        assert(lex_less_at(a, c, k2));
    } else {
        assert(a.take(k1) =~= c.take(k1)) by {
            assert forall|j: int| 0 <= j < k1 implies a.take(k1)[j] == c.take(k1)[j] by {
                assert(a.take(k1)[j] == b.take(k1)[j]);
                assert(b.take(k2)[j] == c.take(k2)[j]);
            }
        }
        assert(lex_less_at(a, c, k1));
    }
}

/// The outcome of comparing two keys.
#[derive(Debug, Clone, Copy, PartialEq, Eq, Structural)]
pub enum Rank {
    Before,
    Same,
    After,
}

/// Three-way lexicographic comparison of two character sequences.
pub fn compare_chars(a: &[char], b: &[char]) -> (r: Rank)
    ensures
        (r == Rank::Before) == lex_less(a@, b@),
        (r == Rank::Same) == (a@ == b@),
        (r == Rank::After) == lex_less(b@, a@),
{
    proof {
        lemma_lex_asymmetric(a@, b@);
        lemma_lex_asymmetric(a@, a@);
        lemma_lex_asymmetric(b@, b@);
    }
    let n = if a.len() < b.len() {
        a.len()
    } else {
        b.len()
    };
    let mut i: usize = 0;
    while i < n
        invariant
            n <= a@.len(),
            n <= b@.len(),
            n == a@.len() || n == b@.len(),
            i <= n,
            a@.take(i as int) == b@.take(i as int),
        decreases n - i,
    {
        let x = a[i];
        let y = b[i];
        if x < y {
            assert(lex_less_at(a@, b@, i as int));
            assert(lex_less(a@, b@));
            proof {
                lemma_lex_asymmetric(a@, b@);
            }
            assert(a@ != b@) by {
                assert(a@[i as int] != b@[i as int]);
            }
            return Rank::Before;
        } else if y < x {
            assert(b@.take(i as int) == a@.take(i as int));
            assert(lex_less_at(b@, a@, i as int));
            assert(lex_less(b@, a@));
            proof {
                lemma_lex_asymmetric(a@, b@);
            }
            assert(a@ != b@) by {
                assert(a@[i as int] != b@[i as int]);
            }
            return Rank::After;
        }
        assert(x == y);
        assert(a@.take(i + 1) =~= b@.take(i + 1)) by {
            assert(a@.take(i + 1) =~= a@.take(i as int).push(x));
            assert(b@.take(i + 1) =~= b@.take(i as int).push(y));
        }
        i = i + 1;
    }
    if a.len() < b.len() {
        assert(lex_less_at(a@, b@, n as int));
        assert(a@ != b@);
        Rank::Before
    } else if b.len() < a.len() {
        assert(b@.take(n as int) == a@.take(n as int));
        assert(lex_less_at(b@, a@, n as int));
        assert(a@ != b@);
        Rank::After
    } else {
        assert(a@ =~= a@.take(n as int));
        assert(b@ =~= b@.take(n as int));
        Rank::Same
    }
}

} // verus!

verus! {

/// `c` is one of the ASCII digits.
pub open spec fn is_digit(c: char) -> bool {
    c == '0' || c == '1' || c == '2' || c == '3' || c == '4' || c == '5' || c == '6' || c == '7'
        || c == '8' || c == '9'
}

/// The value of an ASCII digit.
pub open spec fn digit_value(c: char) -> nat {
    if c == '1' {
        1
    } else if c == '2' {
        2
    } else if c == '3' {
        3
    } else if c == '4' {
        4
    } else if c == '5' {
        5
    } else if c == '6' {
        6
    } else if c == '7' {
        7
    } else if c == '8' {
        8
    } else if c == '9' {
        9
    } else {
        0
    }
}

/// The number that a run of decimal digits denotes.
pub open spec fn digits_value(ds: Seq<char>) -> nat
    decreases ds.len(),
{
    if ds.len() == 0 {
        0
    } else {
        digits_value(ds.drop_last()) * 10 + digit_value(ds.last())
    }
}

pub open spec fn all_digits(ds: Seq<char>) -> bool {
    forall|i: int| 0 <= i < ds.len() ==> is_digit(#[trigger] ds[i])
}

/// The digits of a number text, after an optional leading `+`.
pub open spec fn number_digits(s: Seq<char>) -> Seq<char> {
    if s.len() > 0 && s[0] == '+' {
        s.skip(1)
    } else {
        s
    }
}

/// What `str::parse` reads into an unsigned type whose largest value is
/// `max`: an optional leading `+`, then at least one decimal digit, denoting
/// a value no larger than `max`.
pub open spec fn parsed_number(s: Seq<char>, max: nat) -> Option<nat> {
    let ds = number_digits(s);
    if ds.len() > 0 && all_digits(ds) && digits_value(ds) <= max {
        Some(digits_value(ds))
    } else {
        None
    }
}

/// What `str::parse::<usize>` reads.
pub open spec fn parsed_usize(s: Seq<char>) -> Option<usize> {
    match parsed_number(s, usize::MAX as nat) {
        Some(v) => Some(v as usize),
        None => None,
    }
}

/// What `str::parse::<u64>` reads.
pub open spec fn parsed_u64(s: Seq<char>) -> Option<u64> {
    match parsed_number(s, u64::MAX as nat) {
        Some(v) => Some(v as u64),
        None => None,
    }
}

proof fn lemma_digits_value_grows(ds: Seq<char>, j: int)
    requires
        0 <= j <= ds.len(),
    ensures
        digits_value(ds.take(j)) <= digits_value(ds),
    decreases ds.len(),
{
    if j < ds.len() {
        lemma_digits_value_grows(ds.drop_last(), j);
        assert(ds.drop_last().take(j) =~= ds.take(j));
    } else {
        assert(ds.take(j) =~= ds);
    }
}

fn digit_of(c: char) -> (r: Option<usize>)
    ensures
        r is Some <==> is_digit(c),
        r matches Some(d) ==> d == digit_value(c) && d < 10,
{
    if c == '0' {
        Some(0)
    } else if c == '1' {
        Some(1)
    } else if c == '2' {
        Some(2)
    } else if c == '3' {
        Some(3)
    } else if c == '4' {
        Some(4)
    } else if c == '5' {
        Some(5)
    } else if c == '6' {
        Some(6)
    } else if c == '7' {
        Some(7)
    } else if c == '8' {
        Some(8)
    } else if c == '9' {
        Some(9)
    } else {
        None
    }
}

/// Reads an unsigned decimal number the way `str::parse::<u64>` does.
pub fn parse_u64(s: &[char]) -> (r: Option<u64>)
    ensures
        r == parsed_u64(s@),
{
    let n = s.len();
    let start: usize = if n > 0 && s[0] == '+' {
        1
    } else {
        0
    };
    let ghost ds = number_digits(s@);
    assert(ds =~= s@.skip(start as int));
    if start == n {
        return None;
    }
    let mut value: u64 = 0;
    let mut i: usize = start;
    assert(ds.take(0) =~= Seq::<char>::empty());
    while i < n
        invariant
            n == s@.len(),
            start <= i <= n,
            ds == s@.skip(start as int),
            ds == number_digits(s@),
            value == digits_value(ds.take(i - start)),
            forall|j: int| 0 <= j < i - start ==> is_digit(#[trigger] ds[j]),
        decreases n - i,
    {
        let ghost k = i - start;
        assert(ds[k] == s@[i as int]);
        assert(ds.take(k + 1).drop_last() =~= ds.take(k));
        assert(ds.take(k + 1).last() == ds[k]);
        let d = match digit_of(s[i]) {
            Some(d) => d as u64,
            None => {
                assert(!all_digits(ds));
                return None;
            },
        };
        let grown = match value.checked_mul(10) {
            Some(t) => t.checked_add(d),
            None => None,
        };
        match grown {
            Some(v) => {
                value = v;
            },
            None => {
                proof {
                    if all_digits(ds) {
                        lemma_digits_value_grows(ds, k + 1);
                    }
                }
                return None;
            },
        }
        i = i + 1;
    }
    assert(ds.take(n - start) =~= ds);
    Some(value)
}

/// Reads an unsigned decimal number the way `str::parse::<usize>` does.
pub fn parse_usize(s: &[char]) -> (r: Option<usize>)
    ensures
        r == parsed_usize(s@),
{
    match parse_u64(s) {
        Some(v) => {
            if (v as u128) <= (usize::MAX as u128) {
                Some(v as usize)
            } else {
                None
            }
        },
        None => {
            proof {
                let ds = number_digits(s@);
                if ds.len() > 0 && all_digits(ds) && digits_value(ds) <= usize::MAX {
                    assert(usize::MAX <= u64::MAX);
                }
            }
            None
        },
    }
}

} // verus!

verus! {

/// What `str::parse::<i64>` reads: an optional sign, `+` or `-`, then at
/// least one decimal digit, denoting a value that fits in an `i64`.
pub open spec fn parsed_i64(s: Seq<char>) -> Option<i64> {
    if s.len() > 0 && s[0] == '-' {
        let ds = s.skip(1);
        if ds.len() > 0 && all_digits(ds) && digits_value(ds) <= 0x8000_0000_0000_0000 {
            Some((0 - digits_value(ds)) as i64)
        } else {
            None
        }
    } else {
        match parsed_number(s, i64::MAX as nat) {
            Some(v) => Some(v as i64),
            None => None,
        }
    }
}

/// Reads a signed decimal number the way `str::parse::<i64>` does.
pub fn parse_i64(s: &[char]) -> (r: Option<i64>)
    ensures
        r == parsed_i64(s@),
{
    let n = s.len();
    if n > 0 && s[0] == '-' {
        let rest = chars_from(s, 1);
        if n > 1 && s[1] == '+' {
            assert(!all_digits(s@.skip(1))) by {
                assert(!is_digit(s@.skip(1)[0]));
            }
            return None;
        }
        assert(number_digits(rest@) =~= rest@);
        match parse_u64(rest.as_slice()) {
            Some(v) => {
                if v < 0x8000_0000_0000_0000u64 {
                    let m = v as i64;
                    Some(0 - m)
                } else if v == 0x8000_0000_0000_0000u64 {
                    Some(i64::MIN)
                } else {
                    None
                }
            },
            None => None,
        }
    } else {
        match parse_u64(s) {
            Some(v) => {
                if v <= 0x7fff_ffff_ffff_ffffu64 {
                    Some(v as i64)
                } else {
                    None
                }
            },
            None => {
                proof {
                    let ds = number_digits(s@);
                    if ds.len() > 0 && all_digits(ds) && digits_value(ds) <= i64::MAX {
                        assert(i64::MAX <= u64::MAX);
                    }
                }
                None
            },
        }
    }
}

} // verus!

verus! {

/// `c` is an ASCII upper-case letter.
pub open spec fn is_ascii_upper(c: char) -> bool {
    'A' <= c && c <= 'Z'
}

/// `c` with ASCII upper-case letters mapped to lower case (`char::to_ascii_lowercase`).
pub open spec fn ascii_lower(c: char) -> char {
    if is_ascii_upper(c) {
        ((c as int) + 32) as char
    } else {
        c
    }
}

/// `s` with every ASCII upper-case letter mapped to lower case.
pub open spec fn ascii_lowercase(s: Seq<char>) -> Seq<char> {
    s.map_values(|c: char| ascii_lower(c))
}

/// `c` is an ASCII letter or digit.
pub open spec fn is_ascii_alphanumeric(c: char) -> bool {
    ('0' <= c && c <= '9') || ('a' <= c && c <= 'z') || ('A' <= c && c <= 'Z')
}

pub fn lower_char(c: char) -> (r: char)
    ensures
        r == ascii_lower(c),
{
    if 'A' <= c && c <= 'Z' {
        let b = c as u8;
        (b + 32) as char
    } else {
        c
    }
}

pub fn is_alphanumeric_char(c: char) -> (r: bool)
    ensures
        r == is_ascii_alphanumeric(c),
{
    ('0' <= c && c <= '9') || ('a' <= c && c <= 'z') || ('A' <= c && c <= 'Z')
}

/// A string of the characters of `v` in ASCII lower case.
pub fn lowercase_string(v: &[char]) -> (s: String)
    ensures
        s@ == ascii_lowercase(v@),
{
    let mut s = String::new();
    for i in 0..v.len()
        invariant
            s@ == ascii_lowercase(v@.take(i as int)),
    {
        let c = lower_char(v[i]);
        push_char(&mut s, c);
        assert(ascii_lowercase(v@.take(i + 1)) =~= ascii_lowercase(v@.take(i as int)).push(ascii_lower(v@[i as int])));
    }
    assert(v@.take(v@.len() as int) =~= v@);
    s
}

} // verus!

verus! {

/// `c` is white space in the sense of `char::is_whitespace` (the Unicode
/// `White_Space` property).
pub open spec fn is_white(c: char) -> bool {
    ('\u{9}' <= c && c <= '\u{d}') || c == ' ' || c == '\u{85}' || c == '\u{a0}' || c == '\u{1680}'
        || ('\u{2000}' <= c && c <= '\u{200a}') || c == '\u{2028}' || c == '\u{2029}' || c
        == '\u{202f}' || c == '\u{205f}' || c == '\u{3000}'
}

pub fn is_white_char(c: char) -> (r: bool)
    ensures
        r == is_white(c),
{
    ('\u{9}' <= c && c <= '\u{d}') || c == ' ' || c == '\u{85}' || c == '\u{a0}' || c == '\u{1680}'
        || ('\u{2000}' <= c && c <= '\u{200a}') || c == '\u{2028}' || c == '\u{2029}' || c
        == '\u{202f}' || c == '\u{205f}' || c == '\u{3000}'
}

/// The pieces of `s` between the characters that satisfy `sep`, as
/// `str::split` yields them: one more piece than there are separators.
pub open spec fn split_by(s: Seq<char>, sep: spec_fn(char) -> bool) -> Seq<Seq<char>>
    decreases s.len(),
{
    if s.len() == 0 {
        seq![Seq::empty()]
    } else {
        let prev = split_by(s.drop_last(), sep);
        if sep(s.last()) {
            prev.push(Seq::empty())
        } else {
            prev.drop_last().push(prev.last().push(s.last()))
        }
    }
}

pub proof fn lemma_split_by_nonempty(s: Seq<char>, sep: spec_fn(char) -> bool)
    ensures
        split_by(s, sep).len() >= 1,
    decreases s.len(),
{
    if s.len() > 0 {
        lemma_split_by_nonempty(s.drop_last(), sep);
    }
}

/// The non-empty pieces among `pieces`, in order.
pub open spec fn non_empty(pieces: Seq<Seq<char>>) -> Seq<Seq<char>>
    decreases pieces.len(),
{
    if pieces.len() == 0 {
        Seq::empty()
    } else {
        let rest = non_empty(pieces.drop_last());
        if pieces.last().len() > 0 {
            rest.push(pieces.last())
        } else {
            rest
        }
    }
}

/// The words of `s` separated by white space (`str::split_whitespace`).
pub open spec fn words(s: Seq<char>) -> Seq<Seq<char>> {
    non_empty(split_by(s, |c: char| is_white(c)))
}

/// `s` without its leading white space.
pub open spec fn trim_start(s: Seq<char>) -> Seq<char>
    decreases s.len(),
{
    if s.len() > 0 && is_white(s[0]) {
        trim_start(s.skip(1))
    } else {
        s
    }
}

/// `s` without its trailing white space.
pub open spec fn trim_end(s: Seq<char>) -> Seq<char>
    decreases s.len(),
{
    if s.len() > 0 && is_white(s.last()) {
        trim_end(s.drop_last())
    } else {
        s
    }
}

/// `s` without leading and trailing white space (`str::trim`).
pub open spec fn trim(s: Seq<char>) -> Seq<char> {
    trim_end(trim_start(s))
}

/// The characters of `s` without leading and trailing white space.
pub fn trim_chars(s: &[char]) -> (r: Vec<char>)
    ensures
        r@ == trim(s@),
{
    let n = s.len();
    let mut a: usize = 0;
    assert(s@.skip(0) =~= s@);
    while a < n && is_white_char(s[a])
        invariant
            n == s@.len(),
            a <= n,
            trim_start(s@) == trim_start(s@.skip(a as int)),
        decreases n - a,
    {
        assert(s@.skip(a as int).skip(1) =~= s@.skip(a + 1));
        a = a + 1;
    }
    let ghost started = s@.skip(a as int);
    assert(trim_start(s@) == started);
    let mut b: usize = n;
    assert(started.take(started.len() as int) =~= started);
    while b > a && is_white_char(s[b - 1])
        invariant
            n == s@.len(),
            a <= b <= n,
            started == s@.skip(a as int),
            trim_end(started) == trim_end(s@.subrange(a as int, b as int)),
        decreases b - a,
    {
        assert(s@.subrange(a as int, b as int).drop_last() =~= s@.subrange(a as int, b - 1));
        b = b - 1;
    }
    assert(s@.subrange(a as int, b as int) =~= started.take(b - a));
    let mut r: Vec<char> = Vec::new();
    let mut i = a;
    while i < b
        invariant
            a <= i <= b <= n,
            n == s@.len(),
            r@ == s@.subrange(a as int, i as int),
        decreases b - i,
    {
        r.push(s[i]);
        assert(s@.subrange(a as int, i + 1) =~= s@.subrange(a as int, i as int).push(s@[i as int]));
        i = i + 1;
    }
    r
}

/// The characters of `s` from position `from` on.
pub fn chars_from(s: &[char], from: usize) -> (r: Vec<char>)
    requires
        from <= s@.len(),
    ensures
        r@ == s@.skip(from as int),
{
    let mut r: Vec<char> = Vec::new();
    let mut i = from;
    while i < s.len()
        invariant
            from <= i <= s@.len(),
            r@ == s@.subrange(from as int, i as int),
        decreases s@.len() - i,
    {
        r.push(s[i]);
        assert(s@.subrange(from as int, i + 1) =~= s@.subrange(from as int, i as int).push(s@[i as int]));
        i = i + 1;
    }
    assert(s@.skip(from as int) =~= s@.subrange(from as int, s@.len() as int));
    r
}

/// The words of `s`, separated by white space.
pub fn words_of(s: &[char]) -> (r: Vec<Vec<char>>)
    ensures
        r@.map_values(|w: Vec<char>| w@) == words(s@),
{
    let n = s.len();
    let mut out: Vec<Vec<char>> = Vec::new();
    let mut cur: Vec<char> = Vec::new();
    let ghost sep = |c: char| is_white(c);
    assert(s@.take(0) =~= Seq::<char>::empty());
    for i in 0..n
        invariant
            n == s@.len(),
            sep == (|c: char| is_white(c)),
            out@.map_values(|w: Vec<char>| w@) == non_empty(split_by(s@.take(i as int), sep).drop_last()),
            cur@ == split_by(s@.take(i as int), sep).last(),
    {
        let c = s[i];
        let ghost prefix = s@.take(i as int);
        let ghost pieces = split_by(prefix, sep);
        proof {
            lemma_split_by_nonempty(prefix, sep);
            assert(s@.take(i + 1).drop_last() =~= prefix);
            assert(s@.take(i + 1).last() == c);
        }
        if is_white_char(c) {
            let ghost before = out@;
            if cur.len() > 0 {
                let word = cur;
                out.push(word);
                assert(out@.map_values(|w: Vec<char>| w@) =~= before.map_values(|w: Vec<char>| w@).push(pieces.last()));
            }
            proof {
                let next = pieces.push(Seq::empty());
                assert(next.drop_last() =~= pieces);
                assert(pieces.drop_last().push(pieces.last()) =~= pieces);
            }
            cur = Vec::new();
        } else {
            cur.push(c);
            proof {
                let next = pieces.drop_last().push(pieces.last().push(c));
                assert(next.drop_last() =~= pieces.drop_last());
            }
        }
    }
    proof {
        lemma_split_by_nonempty(s@, sep);
        assert(s@.take(n as int) =~= s@);
        let pieces = split_by(s@, sep);
        assert(pieces.drop_last().push(pieces.last()) =~= pieces);
    }
    let ghost before = out@;
    if cur.len() > 0 {
        let word = cur;
        out.push(word);
        assert(out@.map_values(|w: Vec<char>| w@) =~= before.map_values(|w: Vec<char>| w@).push(split_by(s@, sep).last()));
    }
    out
}

} // verus!

verus! {

/// A decimal representation is a non-empty run of digits denoting its number.
pub proof fn lemma_decimal_reads_back(n: nat)
    ensures
        decimal(n).len() > 0,
        all_digits(decimal(n)),
        digits_value(decimal(n)) == n,
    decreases n,
{
    let d = decimal(n);
    if n >= 10 {
        lemma_decimal_reads_back(n / 10);
        assert(d.drop_last() =~= decimal(n / 10));
        assert(d.last() == digit_char(n % 10));
        assert(forall|i: int| 0 <= i < d.len() - 1 ==> d[i] == decimal(n / 10)[i]);
        lemma_digit_round_trip(n % 10);
        assert(n == (n / 10) * 10 + n % 10) by (nonlinear_arith);
        assert(digits_value(d) == digits_value(d.drop_last()) * 10 + digit_value(d.last()));
        assert(digits_value(d.drop_last()) == n / 10);
        assert(digit_value(d.last()) == n % 10);
    } else {
        assert(digits_value(d) == digits_value(d.drop_last()) * 10 + digit_value(d.last()));
        lemma_digit_round_trip(n);
        assert(d.drop_last() =~= Seq::<char>::empty());
    }
}

proof fn lemma_digit_round_trip(m: nat)
    requires
        m < 10,
    ensures
        digit_value(digit_char(m)) == m,
        is_digit(digit_char(m)),
{
}

/// Reading a number back from its decimal representation gives the number.
pub proof fn parse_usize_reads_decimal(n: usize)
    ensures
        parsed_usize(decimal(n as nat)) == Some(n),
{
    lemma_decimal_reads_back(n as nat);
    let d = decimal(n as nat);
    assert(is_digit(d[0]));
    assert(number_digits(d) == d);
}

/// Replacing a pattern that does not occur changes nothing.
pub proof fn replace_absent_pattern(s: Seq<char>, pat: Seq<char>, to: Seq<char>)
    requires
        pat.len() > 0,
        !has_substring(s, pat),
    ensures
        replace_all(s, pat, to) == s,
    decreases s.len(),
{
    if s.len() > 0 {
        assert(!occurs_at(s, pat, 0));
        assert(!has_substring(s.skip(1), pat)) by {
            if has_substring(s.skip(1), pat) {
                let i = choose|i: int| occurs_at(s.skip(1), pat, i);
                assert(s.subrange(i + 1, i + 1 + pat.len()) =~= s.skip(1).subrange(i, i + pat.len()));
                assert(occurs_at(s, pat, i + 1));
            }
        }
        replace_absent_pattern(s.skip(1), pat, to);
        assert(seq![s[0]] + s.skip(1) =~= s);
    }
}

} // verus!
