//! Small text routines on character sequences: decimal numerals, quote
//! stripping and the short excerpt used in log lines.

use vstd::prelude::*;

verus! {

/// The ten decimal digits, in order.
pub open spec fn digit_chars() -> Seq<char> {
    seq!['0', '1', '2', '3', '4', '5', '6', '7', '8', '9']
}

pub open spec fn is_digit(c: char) -> bool {
    '0' <= c && c <= '9'
}

pub open spec fn digit_value(c: char) -> int {
    (c as int) - ('0' as int)
}

/// Every character of `s` is a decimal digit.
pub open spec fn all_digits(s: Seq<char>) -> bool {
    forall|i: int| 0 <= i < s.len() ==> is_digit(#[trigger] s[i])
}

/// The value of a string of decimal digits, most significant first.
pub open spec fn decimal_value(s: Seq<char>) -> int
    decreases s.len(),
{
    if s.len() == 0 {
        0
    } else {
        10 * decimal_value(s.drop_last()) + digit_value(s.last())
    }
}

/// The shortest decimal numeral of `n`.
pub open spec fn decimal(n: nat) -> Seq<char>
    decreases n,
{
    if n < 10 {
        seq![digit_chars()[n as int]]
    } else {
        decimal(n / 10).push(digit_chars()[(n % 10) as int])
    }
}

/// The numeral of `n` padded with zeros to at least two characters.
pub open spec fn decimal2(n: nat) -> Seq<char> {
    if n < 10 {
        seq!['0'] + decimal(n)
    } else {
        decimal(n)
    }
}

/// What a numeral `s` denotes, if it is one and fits in a `usize`.
pub open spec fn numeral_value(s: Seq<char>) -> Option<usize> {
    if s.len() > 0 && all_digits(s) && decimal_value(s) <= usize::MAX {
        Some(decimal_value(s) as usize)
    } else {
        None
    }
}

/// `s` with every double quote removed.
pub open spec fn without_quotes(s: Seq<char>) -> Seq<char>
    decreases s.len(),
{
    if s.len() == 0 {
        s
    } else if s.last() == '"' {
        without_quotes(s.drop_last())
    } else {
        without_quotes(s.drop_last()).push(s.last())
    }
}

/// The first sixteen characters of `s`, followed by one dot for each of the
/// next (at most three) characters.
pub open spec fn excerpt(s: Seq<char>) -> Seq<char> {
    if s.len() <= 16 {
        s
    } else if s.len() <= 19 {
        s.take(16) + Seq::new((s.len() - 16) as nat, |i: int| '.')
    } else {
        s.take(16) + seq!['.', '.', '.']
    }
}

/// The one-character string of the digit `d`.
fn digit_str(d: usize) -> (r: &'static str)
    requires
        d < 10,
    ensures
        r@ == seq![digit_chars()[d as int]],
{
    let digits = "0123456789";
    proof {
        reveal_strlit("0123456789");
    }
    assert(digits@ =~= digit_chars());
    let r = digits.substring_char(d, d + 1);
    assert(r@ =~= seq![digit_chars()[d as int]]);
    r
}

/// The decimal numeral of `n`.
pub fn to_decimal(n: usize) -> (r: String)
    ensures
        r@ == decimal(n as nat),
    decreases n,
{
    if n < 10 {
        String::from_str(digit_str(n))
    } else {
        let mut r = to_decimal(n / 10);
        r.append(digit_str(n % 10));
        r
    }
}

/// The decimal numeral of `n`, padded with a leading zero below ten.
pub fn to_decimal2(n: usize) -> (r: String)
    ensures
        r@ == decimal2(n as nat),
{
    let digits = to_decimal(n);
    if n < 10 {
        let mut r = String::from_str("0");
        proof {
            reveal_strlit("0");
        }
        r.append(digits.as_str());
        r
    } else {
        digits
    }
}

proof fn lemma_decimal_value_push(s: Seq<char>, c: char)
    ensures
        decimal_value(s.push(c)) == 10 * decimal_value(s) + digit_value(c),
{
    assert(s.push(c).drop_last() =~= s);
}

proof fn lemma_decimal_value_nonneg(s: Seq<char>)
    requires
        all_digits(s),
    ensures
        decimal_value(s) >= 0,
    decreases s.len(),
{
    if s.len() > 0 {
        lemma_decimal_value_nonneg(s.drop_last());
    }
}

proof fn lemma_decimal_value_grows(s: Seq<char>, c: char)
    requires
        all_digits(s),
        is_digit(c),
    ensures
        decimal_value(s.push(c)) >= decimal_value(s),
{
    lemma_decimal_value_push(s, c);
    lemma_decimal_value_nonneg(s);
}

proof fn lemma_decimal_value_prefix_bound(s: Seq<char>, i: int)
    requires
        all_digits(s),
        0 <= i <= s.len(),
    ensures
        decimal_value(s.take(i)) <= decimal_value(s),
    decreases s.len() - i,
{
    if i < s.len() {
        lemma_decimal_value_prefix_bound(s, i + 1);
        assert(s.take(i + 1) =~= s.take(i).push(s[i]));
        assert(all_digits(s.take(i)));
        lemma_decimal_value_grows(s.take(i), s[i]);
    } else {
        assert(s.take(i) =~= s);
    }
}

/// Reads a decimal numeral: `None` when `s` is empty, holds a character
/// other than a digit, or denotes a value beyond `usize`.
pub fn parse_numeral(s: &str) -> (r: Option<usize>)
    ensures
        r == numeral_value(s@),
{
    let n = s.unicode_len();
    if n == 0 {
        return None;
    }
    let mut i: usize = 0;
    let mut v: usize = 0;
    while i < n
        invariant
            n == s@.len(),
            i <= n,
            all_digits(s@.take(i as int)),
            v as int == decimal_value(s@.take(i as int)),
        decreases n - i,
    {
        let c = s.get_char(i);
        if !('0' <= c && c <= '9') {
            proof {
                assert(!is_digit(s@[i as int]));
                assert(!all_digits(s@));
            }
            return None;
        }
        let d = (c as u32 - '0' as u32) as usize;
        proof {
            assert(s@.take(i + 1) =~= s@.take(i as int).push(c));
            lemma_decimal_value_push(s@.take(i as int), c);
        }
        if v > (usize::MAX - d) / 10 {
            proof {
                assert(10 * v + d > usize::MAX) by (nonlinear_arith)
                    requires
                        v > (usize::MAX - d) / 10,
                        d < 10,
                ;
                if all_digits(s@) {
                    lemma_decimal_value_prefix_bound(s@, i + 1);
                }
            }
            return None;
        }
        proof {
            assert(10 * v + d <= usize::MAX) by (nonlinear_arith)
                requires
                    v <= (usize::MAX - d) / 10,
                    d < 10,
            ;
        }
        v = v * 10 + d;
        i = i + 1;
    }
    assert(s@.take(n as int) =~= s@);
    Some(v)
}

/// `s` with every double quote removed.
pub fn strip_quotes(s: &str) -> (r: String)
    ensures
        r@ == without_quotes(s@),
{
    let n = s.unicode_len();
    let mut r = String::new();
    let mut i: usize = 0;
    while i < n
        invariant
            n == s@.len(),
            i <= n,
            r@ == without_quotes(s@.take(i as int)),
        decreases n - i,
    {
        let c = s.get_char(i);
        proof {
            assert(s@.take(i + 1).drop_last() =~= s@.take(i as int));
        }
        if c != '"' {
            let piece = s.substring_char(i, i + 1);
            assert(piece@ =~= seq![c]);
            r.append(piece);
        }
        i = i + 1;
    }
    assert(s@.take(n as int) =~= s@);
    r
}

/// The excerpt of `s` written to the log: its first sixteen characters and
/// a dot for each of the next three.
pub fn log_excerpt(s: &str) -> (r: String)
    ensures
        r@ == excerpt(s@),
{
    let n = s.unicode_len();
    if n <= 16 {
        return String::from_str(s);
    }
    let mut r = String::from_str(s.substring_char(0, 16));
    let dots: usize = if n - 16 < 3 { n - 16 } else { 3 };
    let mut k: usize = 0;
    while k < dots
        invariant
            dots <= 3,
            dots == if n - 16 < 3 { n - 16 } else { 3 },
            n == s@.len(),
            n > 16,
            k <= dots,
            r@ == s@.take(16) + Seq::new(k as nat, |i: int| '.'),
        decreases dots - k,
    {
        proof {
            reveal_strlit(".");
        }
        r.append(".");
        k = k + 1;
        assert(r@ =~= s@.take(16) + Seq::new(k as nat, |i: int| '.'));
    }
    assert(Seq::new(3, |i: int| '.') =~= seq!['.', '.', '.']);
    r
}

} // verus!
