//! Canonical decimal numerals: the text form of every number that appears in
//! a cursor, a title or a message.

use vstd::prelude::*;
use vstd::string::*;
use crate::text::push_char;

verus! {

/// The character that writes the digit `d`.
pub open spec fn digit_char(d: nat) -> char
    recommends
        d < 10,
{
    ((48 + d) as u8) as char
}

/// Whether `c` is one of `'0'..='9'`.
pub open spec fn is_digit(c: char) -> bool {
    48 <= c as u32 <= 57
}

/// The number that the digit `c` writes.
pub open spec fn digit_value(c: char) -> nat
    recommends
        is_digit(c),
{
    (c as u32 - 48) as nat
}

/// The numeral of `n`: most significant digit first, no leading zero but for
/// `0` itself.
pub open spec fn decimal(n: nat) -> Seq<char>
    decreases n,
{
    if n < 10 {
        seq![digit_char(n)]
    } else {
        decimal(n / 10).push(digit_char(n % 10))
    }
}

/// The number that a sequence of digits writes, read most significant first.
pub open spec fn decimal_value(s: Seq<char>) -> nat
    decreases s.len(),
{
    if s.len() == 0 {
        0
    } else {
        decimal_value(s.drop_last()) * 10 + digit_value(s.last())
    }
}

/// Whether every character of `s` is a digit.
pub open spec fn all_digits(s: Seq<char>) -> bool {
    forall|i: int| 0 <= i < s.len() ==> is_digit(#[trigger] s[i])
}

/// Whether `s` is a numeral in canonical form: at least one digit, digits
/// only, and no leading zero unless the numeral is `"0"`.
pub open spec fn is_numeral(s: Seq<char>) -> bool {
    &&& s.len() > 0
    &&& all_digits(s)
    &&& (s.len() > 1 ==> digit_value(s[0]) != 0)
}

/// What reading `s` as a 64-bit numeral gives: the value of a canonical
/// numeral that fits, nothing otherwise.
pub open spec fn numeral_reading(s: Seq<char>) -> Option<u64> {
    if is_numeral(s) && decimal_value(s) <= u64::MAX {
        Some(decimal_value(s) as u64)
    } else {
        None
    }
}

/// A digit's character is recovered from its value.
pub proof fn lemma_digit_round_trip(c: char)
    requires
        is_digit(c),
    ensures
        digit_value(c) < 10,
        digit_char(digit_value(c)) == c,
{
}

/// Every numeral produced by `decimal` is canonical and reads back as the
/// number it was produced from.
pub proof fn lemma_decimal_round_trip(n: nat)
    ensures
        is_numeral(decimal(n)),
        decimal_value(decimal(n)) == n,
        n > 0 ==> digit_value(decimal(n)[0]) != 0,
    decreases n,
{
    if n < 10 {
        let s = decimal(n);
        assert(s.len() == 1);
        assert(s.drop_last().len() == 0);
        assert(decimal_value(s.drop_last()) == 0);
        assert(s.last() == digit_char(n));
        assert(digit_value(digit_char(n)) == n);
    } else {
        lemma_decimal_round_trip(n / 10);
        let p = decimal(n / 10);
        let s = decimal(n);
        assert(s == p.push(digit_char(n % 10)));
        assert(s.drop_last() =~= p);
        assert(s.last() == digit_char(n % 10));
        assert(digit_value(digit_char(n % 10)) == n % 10);
        assert(s[0] == p[0]);
        assert forall|i: int| 0 <= i < s.len() implies is_digit(#[trigger] s[i]) by {
            if i < p.len() {
                assert(s[i] == p[i]);
            }
        }
    }
}

/// A prefix of a digit sequence never writes a larger number than the whole.
pub proof fn lemma_prefix_value(s: Seq<char>, k: int)
    requires
        0 <= k <= s.len(),
    ensures
        decimal_value(s.take(k)) <= decimal_value(s),
    decreases s.len() - k,
{
    if k == s.len() {
        assert(s.take(k) =~= s);
    } else {
        lemma_prefix_value(s.drop_last(), k);
        assert(s.drop_last().take(k) =~= s.take(k));
    }
}

/// Two canonical numerals that write the same number are the same text.
pub proof fn lemma_numeral_unique(n: nat, s: Seq<char>)
    requires
        is_numeral(s),
        decimal_value(s) == n,
    ensures
        s == decimal(n),
    decreases s.len(),
{
    let d = s.last();
    assert(is_digit(d));
    lemma_digit_round_trip(d);
    if s.len() == 1 {
        assert(s.drop_last().len() == 0);
        assert(decimal_value(s.drop_last()) == 0);
        assert(s =~= seq![d]);
    } else {
        let p = s.drop_last();
        assert(p[0] == s[0]);
        assert forall|i: int| 0 <= i < p.len() implies is_digit(#[trigger] p[i]) by {
            assert(p[i] == s[i]);
        }
        if p.len() == 1 {
            assert(p.drop_last().len() == 0);
            assert(decimal_value(p.drop_last()) == 0);
            assert(p.last() == s[0]);
            assert(decimal_value(p) == digit_value(s[0]));
            assert(decimal_value(p) >= 1);
        } else {
            lemma_leading_digit(p);
        }
        assert(is_numeral(p));
        lemma_numeral_unique(decimal_value(p), p);
        assert(n == decimal_value(p) * 10 + digit_value(d));
        assert(decimal_value(p) >= 1);
        assert(n >= 10);
        assert(n / 10 == decimal_value(p));
        assert(n % 10 == digit_value(d));
        assert(s =~= p.push(d));
    }
}

/// A digit sequence that starts with a digit other than zero writes a
/// positive number.
pub proof fn lemma_leading_digit(s: Seq<char>)
    requires
        s.len() > 0,
        all_digits(s),
        digit_value(s[0]) != 0,
    ensures
        decimal_value(s) >= 1,
    decreases s.len(),
{
    if s.len() == 1 {
        assert(s.drop_last().len() == 0);
        assert(decimal_value(s.drop_last()) == 0);
        assert(s.last() == s[0]);
    } else {
        let p = s.drop_last();
        assert(p[0] == s[0]);
        assert forall|i: int| 0 <= i < p.len() implies is_digit(#[trigger] p[i]) by {
            assert(p[i] == s[i]);
        }
        lemma_leading_digit(p);
    }
}

/// Appends the numeral of `n` to `out`.
pub fn append_decimal(out: &mut String, n: u64)
    ensures
        final(out)@ == old(out)@ + decimal(n as nat),
    decreases n,
{
    if n >= 10 {
        append_decimal(out, n / 10);
    }
    let d: u8 = (n % 10) as u8;
    push_char(out, (48u8 + d) as char);
    assert(final(out)@ =~= old(out)@ + decimal(n as nat));
}

/// The numeral of an integer of either sign: a minus sign before the numeral
/// of the magnitude where `n` is negative.
pub open spec fn signed_decimal(n: int) -> Seq<char> {
    if n < 0 {
        seq!['-'] + decimal((-n) as nat)
    } else {
        decimal(n as nat)
    }
}

/// Appends the numeral of `n`, with its sign where it is negative, to `out`.
pub fn append_signed_decimal(out: &mut String, n: i64)
    ensures
        final(out)@ == old(out)@ + signed_decimal(n as int),
{
    if n < 0 {
        let magnitude: u64 = (-(n + 1)) as u64 + 1;
        push_char(out, '-');
        append_decimal(out, magnitude);
        assert(final(out)@ =~= old(out)@ + signed_decimal(n as int));
    } else {
        append_decimal(out, n as u64);
    }
}

/// The numeral of `n` as a string.
pub fn decimal_text(n: u64) -> (s: String)
    ensures
        s@ == decimal(n as nat),
{
    let mut s = String::new();
    append_decimal(&mut s, n);
    assert(s@ =~= decimal(n as nat));
    s
}

/// Reads a canonical numeral that fits 64 bits; anything else is refused.
pub fn parse_decimal(s: &str) -> (r: Option<u64>)
    ensures
        r == numeral_reading(s@),
{
    let n: usize = s.unicode_len();
    if n == 0 {
        return None;
    }
    let mut acc: u64 = 0;
    let mut i: usize = 0;
    while i < n
        invariant
            n == s@.len(),
            0 <= i <= n,
            all_digits(s@.take(i as int)),
            acc == decimal_value(s@.take(i as int)),
            i > 1 ==> digit_value(s@[0]) != 0,
        decreases n - i,
    {
        let c: char = s.get_char(i);
        let v: u32 = c as u32;
        if v < 48 || v > 57 {
            return None;
        }
        if i == 1 && acc == 0 {
            proof {
                let p = s@.take(1);
                assert(p.drop_last().len() == 0);
                assert(decimal_value(p.drop_last()) == 0);
                assert(p.last() == s@[0]);
                assert(is_digit(p[0]));
            }
            return None;
        }
        let d: u64 = (v - 48) as u64;
        proof {
            let q = s@.take(i + 1);
            assert(q.drop_last() =~= s@.take(i as int));
            assert(q.last() == c);
            assert(decimal_value(q) == acc * 10 + d);
            assert forall|j: int| 0 <= j < q.len() implies is_digit(#[trigger] q[j]) by {
                if j < i {
                    assert(s@.take(i as int)[j] == q[j]);
                }
            }
            if i == 1 {
                let p = s@.take(1);
                assert(p.drop_last().len() == 0);
                assert(decimal_value(p.drop_last()) == 0);
                assert(p.last() == s@[0]);
            }
            lemma_prefix_value(s@, i + 1);
        }
        if acc > (u64::MAX - d) / 10 {
            return None;
        }
        acc = acc * 10 + d;
        i = i + 1;
    }
    proof {
        assert(s@.take(n as int) =~= s@);
    }
    Some(acc)
}

} // verus!
