//! Decimal rendering of unsigned integers.

use vstd::prelude::*;

verus! {

/// The ten decimal digits, in order.
pub open spec fn decimal_alphabet() -> Seq<char> {
    "0123456789"@
}

/// `c` is one of `0`..`9`.
pub open spec fn is_decimal_digit(c: char) -> bool {
    '0' <= c && c <= '9'
}

/// The shortest decimal numeral of `n`: no sign, no separators, and no
/// leading zero except for zero itself.
pub open spec fn decimal_text(n: nat) -> Seq<char>
    decreases n,
{
    if n < 10 {
        seq![decimal_alphabet()[n as int]]
    } else {
        decimal_text(n / 10).push(decimal_alphabet()[(n % 10) as int])
    }
}

/// A numeral is never empty and holds decimal digits only.
pub proof fn lemma_decimal_text_digits(n: nat)
    ensures
        decimal_text(n).len() >= 1,
        forall|i: int|
            0 <= i < decimal_text(n).len() ==> is_decimal_digit(#[trigger] decimal_text(n)[i]),
    decreases n,
{
    reveal_strlit("0123456789");
    if n >= 10 {
        lemma_decimal_text_digits(n / 10);
    }
}

/// A numeral starts with `0` only if the number is zero.
pub proof fn lemma_decimal_text_no_leading_zero(n: nat)
    ensures
        decimal_text(n)[0] == '0' <==> n == 0,
    decreases n,
{
    reveal_strlit("0123456789");
    if n >= 10 {
        lemma_decimal_text_digits(n / 10);
        lemma_decimal_text_no_leading_zero(n / 10);
    }
}

/// The decimal digit of value `d`.
pub fn decimal_digit(d: u32) -> (c: char)
    requires
        d < 10,
    ensures
        c == decimal_alphabet()[d as int],
        is_decimal_digit(c),
{
    proof {
        reveal_strlit("0123456789");
    }
    "0123456789".get_char(d as usize)
}

/// Appends the decimal numeral of `n` to `out`.
pub fn append_decimal(out: &mut String, n: u32)
    ensures
        final(out)@ == old(out)@ + decimal_text(n as nat),
    decreases n,
{
    if n >= 10 {
        append_decimal(out, n / 10);
    }
    out.push(decimal_digit(n % 10));
}

/// The decimal numeral of `n` as a string of its own.
pub fn decimal_string(n: u32) -> (s: String)
    ensures
        s@ == decimal_text(n as nat),
{
    let mut s = String::new();
    append_decimal(&mut s, n);
    s
}

} // verus!
