//! Decimal text: how integers are written out and read back.

use vstd::prelude::*;

verus! {

/// The ASCII character of the decimal digit `d` (for `d < 10`).
pub open spec fn digit_char(d: nat) -> char {
    (d + 48) as char
}

/// Whether `c` is one of the ASCII digits `0`..`9`.
pub open spec fn is_digit(c: char) -> bool {
    '0' <= c && c <= '9'
}

/// The value of the ASCII digit `c`.
pub open spec fn digit_value(c: char) -> int {
    c as int - 48
}

/// Decimal writing of a natural number, without leading zeros (`0` is written `"0"`).
pub open spec fn nat_to_decimal(n: nat) -> Seq<char>
    decreases n,
{
    if n < 10 {
        seq![digit_char(n)]
    } else {
        nat_to_decimal(n / 10).push(digit_char(n % 10))
    }
}

/// Decimal writing of an integer: a leading `-` for negative numbers.
pub open spec fn int_to_decimal(i: int) -> Seq<char> {
    if i < 0 {
        seq!['-'] + nat_to_decimal((-i) as nat)
    } else {
        nat_to_decimal(i as nat)
    }
}

/// `s` padded on the left with `0` up to `width` characters.
pub open spec fn zero_pad(s: Seq<char>, width: nat) -> Seq<char> {
    if s.len() >= width {
        s
    } else {
        Seq::new((width - s.len()) as nat, |i: int| '0') + s
    }
}

/// The number that the digit string `s` denotes (every character taken as a digit).
pub open spec fn decimal_value(s: Seq<char>) -> int
    decreases s.len(),
{
    if s.len() == 0 {
        0
    } else {
        decimal_value(s.drop_last()) * 10 + digit_value(s.last())
    }
}

/// The number that `s` denotes, with an optional leading `-`.
pub open spec fn signed_decimal_value(s: Seq<char>) -> int {
    if s.len() > 0 && s[0] == '-' {
        -decimal_value(s.drop_first())
    } else {
        decimal_value(s)
    }
}

/// Whether every character of `s` is an ASCII digit.
pub open spec fn all_digits(s: Seq<char>) -> bool {
    forall|i: int| 0 <= i < s.len() ==> is_digit(#[trigger] s[i])
}

/// What `u32::from_str` gives for `s`: an optional `+`, then one or more ASCII
/// digits whose value fits in a `u32`.
pub open spec fn spec_parse_u32(s: Seq<char>) -> Option<u32> {
    let body = if s.len() > 0 && s[0] == '+' { s.drop_first() } else { s };
    if body.len() > 0 && all_digits(body) && decimal_value(body) <= u32::MAX {
        Some(decimal_value(body) as u32)
    } else {
        None
    }
}

/// A digit character stands for its digit.
pub proof fn lemma_digit_char_value(d: nat)
    requires
        d < 10,
    ensures
        digit_value(digit_char(d)) == d,
        is_digit(digit_char(d)),
{
    assert(digit_char(d) as int == d + 48);
}

/// The decimal writing of `n` is a non-empty digit string that denotes `n`.
pub proof fn lemma_nat_to_decimal_digits(n: nat)
    ensures
        all_digits(nat_to_decimal(n)),
        nat_to_decimal(n).len() >= 1,
        decimal_value(nat_to_decimal(n)) == n,
    decreases n,
{
    lemma_digit_char_value(n % 10);
    let s = nat_to_decimal(n);
    if n >= 10 {
        lemma_nat_to_decimal_digits(n / 10);
        assert(s.drop_last() == nat_to_decimal(n / 10));
    } else {
        assert(s.drop_last().len() == 0);
        assert(decimal_value(s.drop_last()) == 0);
    }
}

/// Digits written after others shift them by a power of ten.
pub proof fn lemma_decimal_value_concat(a: Seq<char>, b: Seq<char>)
    ensures
        decimal_value(a + b) == decimal_value(a) * vstd::arithmetic::power::pow(10, b.len())
            + decimal_value(b),
    decreases b.len(),
{
    reveal(vstd::arithmetic::power::pow);
    if b.len() == 0 {
        assert(a + b == a);
    } else {
        lemma_decimal_value_concat(a, b.drop_last());
        assert((a + b).drop_last() == a + b.drop_last());
        assert((a + b).last() == b.last());
        let p = vstd::arithmetic::power::pow(10, (b.len() - 1) as nat);
        assert(vstd::arithmetic::power::pow(10, b.len()) == 10 * p);
        assert(decimal_value(a) * (10 * p) == (decimal_value(a) * p) * 10) by (nonlinear_arith);
    }
}

/// A string of zeros denotes zero.
pub proof fn lemma_zeros_value(k: nat)
    ensures
        decimal_value(Seq::new(k, |i: int| '0')) == 0,
    decreases k,
{
    if k > 0 {
        lemma_zeros_value((k - 1) as nat);
        assert(Seq::new(k, |i: int| '0').drop_last() == Seq::new((k - 1) as nat, |i: int| '0'));
    }
}

/// Padding with leading zeros keeps the value and the digits.
pub proof fn lemma_zero_pad_value(s: Seq<char>, width: nat)
    ensures
        decimal_value(zero_pad(s, width)) == decimal_value(s),
        zero_pad(s, width).len() == if s.len() >= width { s.len() } else { width },
        all_digits(s) ==> all_digits(zero_pad(s, width)),
{
    if s.len() < width {
        let z = Seq::new((width - s.len()) as nat, |i: int| '0');
        lemma_decimal_value_concat(z, s);
        lemma_zeros_value((width - s.len()) as nat);
        if all_digits(s) {
            assert forall|i: int| 0 <= i < zero_pad(s, width).len() implies is_digit(
                #[trigger] zero_pad(s, width)[i],
            ) by {
                if i >= z.len() {
                    assert(zero_pad(s, width)[i] == s[i - z.len()]);
                }
            }
        }
    }
}

/// A digit string denotes a natural number.
pub proof fn lemma_decimal_value_nonneg(s: Seq<char>)
    requires
        all_digits(s),
    ensures
        decimal_value(s) >= 0,
    decreases s.len(),
{
    if s.len() > 0 {
        assert(all_digits(s.drop_last())) by {
            assert forall|i: int| 0 <= i < s.drop_last().len() implies is_digit(
                #[trigger] s.drop_last()[i],
            ) by {
                assert(s.drop_last()[i] == s[i]);
            }
        }
        lemma_decimal_value_nonneg(s.drop_last());
        assert(is_digit(s[s.len() - 1]));
    }
}

/// A digit string whose beginning already exceeds a bound exceeds it as a whole.
pub proof fn lemma_decimal_value_prefix_le(s: Seq<char>, k: int)
    requires
        all_digits(s),
        0 <= k <= s.len(),
    ensures
        decimal_value(s.take(k)) <= decimal_value(s),
{
    let a = s.take(k);
    let b = s.skip(k);
    assert(s == a + b);
    lemma_decimal_value_concat(a, b);
    assert(all_digits(a)) by {
        assert forall|i: int| 0 <= i < a.len() implies is_digit(#[trigger] a[i]) by {
            assert(a[i] == s[i]);
        }
    }
    assert(all_digits(b)) by {
        assert forall|i: int| 0 <= i < b.len() implies is_digit(#[trigger] b[i]) by {
            assert(b[i] == s[i + k]);
        }
    }
    lemma_decimal_value_nonneg(a);
    lemma_decimal_value_nonneg(b);
    vstd::arithmetic::power::lemma_pow_positive(10, b.len());
    let p = vstd::arithmetic::power::pow(10, b.len());
    assert(decimal_value(a) * p >= decimal_value(a)) by (nonlinear_arith)
        requires
            p >= 1,
            decimal_value(a) >= 0,
    ;
}

/// `n` written in decimal and padded on the left with zeros up to `width` characters.
pub fn zero_padded_decimal(n: u64, width: usize) -> (r: String)
    ensures
        r@ == zero_pad(nat_to_decimal(n as nat), width as nat),
{
    let digits = u64_to_decimal(n);
    let len = digits.as_str().unicode_len();
    let mut s = String::new();
    let mut k = len;
    proof {
        reveal_strlit("0");
    }
    while k < width
        invariant
            len == digits@.len(),
            len <= k <= width || (k == len && len >= width),
            s@ == Seq::new((k - len) as nat, |i: int| '0'),
        decreases width - k,
    {
        proof {
            reveal_strlit("0");
        }
        s.append("0");
        k += 1;
        assert(s@ =~= Seq::new((k - len) as nat, |i: int| '0'));
    }
    s.append(digits.as_str());
    assert(s@ =~= zero_pad(nat_to_decimal(n as nat), width as nat));
    s
}

/// Reads a `u32` written in decimal, as `u32::from_str` does.
pub fn parse_u32(s: &str) -> (r: Option<u32>)
    ensures
        r == spec_parse_u32(s@),
{
    let n = s.unicode_len();
    if n == 0 {
        return None;
    }
    let mut i: usize = 0;
    if s.get_char(0) == '+' {
        i = 1;
    }
    let start = i;
    let ghost body = if s@.len() > 0 && s@[0] == '+' { s@.drop_first() } else { s@ };
    assert(body == s@.skip(start as int));
    if i == n {
        return None;
    }
    let mut value: u64 = 0;
    while i < n
        invariant
            n == s@.len(),
            start <= i <= n,
            start < n,
            body == s@.skip(start as int),
            body == (if s@.len() > 0 && s@[0] == '+' { s@.drop_first() } else { s@ }),
            all_digits(body.take(i - start)),
            value == decimal_value(body.take(i - start)),
            value <= u32::MAX,
        decreases n - i,
    {
        let c = s.get_char(i);
        assert(body[i - start] == c);
        if !('0' <= c && c <= '9') {
            assert(!all_digits(body));
            return None;
        }
        let ghost prev = body.take(i - start);
        let d: u64 = (c as u32 - 48) as u64;
        value = value * 10 + d;
        i += 1;
        assert(body.take(i - start).drop_last() == prev);
        assert(all_digits(body.take(i - start))) by {
            assert forall|j: int| 0 <= j < body.take(i - start).len() implies is_digit(
                #[trigger] body.take(i - start)[j],
            ) by {
                if j < prev.len() {
                    assert(body.take(i - start)[j] == prev[j]);
                }
            }
        }
        if value > 4294967295 {
            proof {
                if all_digits(body) {
                    lemma_decimal_value_prefix_le(body, i - start);
                }
            }
            return None;
        }
    }
    assert(body.take(n - start) == body);
    Some(value as u32)
}

/// A number below `10^d` is written with at most `d` digits.
pub proof fn lemma_nat_to_decimal_len(n: nat, d: nat)
    requires
        d >= 1,
        n < vstd::arithmetic::power::pow(10, d),
    ensures
        nat_to_decimal(n).len() <= d,
    decreases n,
{
    reveal(vstd::arithmetic::power::pow);
    if n >= 10 {
        let p = vstd::arithmetic::power::pow(10, (d - 1) as nat);
        assert(vstd::arithmetic::power::pow(10, d) == 10 * p);
        assert(d >= 2) by {
            if d == 1 {
                assert(vstd::arithmetic::power::pow(10, 0) == 1);
            }
        }
        assert(n / 10 < p);
        lemma_nat_to_decimal_len(n / 10, (d - 1) as nat);
    }
}

/// Reading back a written `u32`: its decimal text reads as the same number.
pub proof fn lemma_parse_u32_round_trip(q: u32)
    ensures
        spec_parse_u32(nat_to_decimal(q as nat)) == Some(q),
{
    let s = nat_to_decimal(q as nat);
    lemma_nat_to_decimal_digits(q as nat);
    assert(is_digit(s[0]));
}

/// Whether two texts are equal, character for character.
pub fn str_eq(a: &str, b: &str) -> (r: bool)
    ensures
        r == (a@ == b@),
{
    let x = a.to_owned();
    let y = b.to_owned();
    x == y
}

/// The one-character text of the digit `d`.
fn digit_text(d: u64) -> (r: &'static str)
    requires
        d < 10,
    ensures
        r@ == seq![digit_char(d as nat)],
{
    proof {
        reveal_strlit("0");
        reveal_strlit("1");
        reveal_strlit("2");
        reveal_strlit("3");
        reveal_strlit("4");
        reveal_strlit("5");
        reveal_strlit("6");
        reveal_strlit("7");
        reveal_strlit("8");
        reveal_strlit("9");
    }
    if d == 0 {
        "0"
    } else if d == 1 {
        "1"
    } else if d == 2 {
        "2"
    } else if d == 3 {
        "3"
    } else if d == 4 {
        "4"
    } else if d == 5 {
        "5"
    } else if d == 6 {
        "6"
    } else if d == 7 {
        "7"
    } else if d == 8 {
        "8"
    } else {
        "9"
    }
}

/// Writes `n` in decimal.
pub fn u64_to_decimal(n: u64) -> (r: String)
    ensures
        r@ == nat_to_decimal(n as nat),
    decreases n,
{
    if n < 10 {
        String::from_str(digit_text(n))
    } else {
        let mut s = u64_to_decimal(n / 10);
        s.append(digit_text(n % 10));
        s
    }
}

/// Writes `n` in decimal, with a leading `-` when it is negative.
pub fn i64_to_decimal(n: i64) -> (r: String)
    ensures
        r@ == int_to_decimal(n as int),
{
    if n < 0 {
        let m: u64 = ((-(n + 1)) as u64) + 1;
        let mut s = String::from_str("-");
        proof {
            reveal_strlit("-");
        }
        let digits = u64_to_decimal(m);
        s.append(digits.as_str());
        s
    } else {
        u64_to_decimal(n as u64)
    }
}

} // verus!
