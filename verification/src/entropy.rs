//! Bounded random primitives.
//!
//! Randomness comes from the calling thread's `fastrand` generator. Nothing
//! is proved about how its values are distributed: the contracts below state
//! what holds of every draw, whichever value comes back.

use vstd::prelude::*;
use crate::policy::{HEX_ALPHABET, HEX_RADIX};

verus! {

/// The symbols a commit hash is written in, in digit order.
pub open spec fn hex_alphabet() -> Seq<char> {
    HEX_ALPHABET@
}

/// `c` is one of `0`..`9` or `a`..`f`.
pub open spec fn is_hex_digit(c: char) -> bool {
    ('0' <= c && c <= '9') || ('a' <= c && c <= 'f')
}

/// The alphabet has sixteen symbols, and they are exactly the hex digits.
pub proof fn lemma_hex_alphabet()
    ensures
        hex_alphabet().len() == HEX_RADIX,
        forall|c: char| is_hex_digit(c) <==> hex_alphabet().contains(c),
{
    reveal_strlit("0123456789abcdef");
    let alphabet = hex_alphabet();
    assert forall|c: char| is_hex_digit(c) implies alphabet.contains(c) by {
        let i = if c <= '9' {
            c as int - '0' as int
        } else {
            c as int - 'a' as int + 10
        };
        assert(alphabet[i] == c);
    }
    assert forall|c: char| alphabet.contains(c) implies is_hex_digit(c) by {
        let i = choose|i: int| 0 <= i < alphabet.len() && alphabet[i] == c;
        assert(is_hex_digit(alphabet[i]));
    }
}

/// Calls `fastrand::u32` with the closed range `low..=high`, on the calling
/// thread's generator.
///
/// Trusted: the value lies in the range; nothing is claimed of which value
/// it is. `fastrand` panics on an empty range, which `low <= high` rules out.
#[verifier::external_body]
fn draw_u32(low: u32, high: u32) -> (r: u32)
    requires
        low <= high,
    ensures
        low <= r <= high,
{
    fastrand::u32(low..=high)
}

/// Calls `fastrand::usize` with the half-open range `..bound`, on the calling
/// thread's generator.
///
/// Trusted: the value is below `bound`; nothing is claimed of which value it
/// is. `fastrand` panics on an empty range, which `bound > 0` rules out.
#[verifier::external_body]
fn draw_usize_below(bound: usize) -> (r: usize)
    requires
        bound > 0,
    ensures
        r < bound,
{
    fastrand::usize(..bound)
}

/// A random integer of the closed window `[min, max]`.
///
/// A degenerate window (`min >= max`) collapses to `min`: no error, no swap,
/// and no entropy consumed.
pub fn random_int(min: u32, max: u32) -> (r: u32)
    ensures
        min >= max ==> r == min,
        min < max ==> min <= r <= max,
{
    if min >= max {
        return min;
    }
    draw_u32(min, max)
}

/// The hex digit of value `index`.
pub fn hex_digit(index: usize) -> (c: char)
    requires
        index < HEX_RADIX,
    ensures
        c == hex_alphabet()[index as int],
        is_hex_digit(c),
{
    proof {
        reveal_strlit("0123456789abcdef");
    }
    HEX_ALPHABET.get_char(index)
}

/// One random lowercase hex digit.
pub fn random_hex_digit() -> (c: char)
    ensures
        is_hex_digit(c),
        hex_alphabet().contains(c),
{
    let index: usize = draw_usize_below(HEX_RADIX);
    let c = hex_digit(index);
    proof {
        lemma_hex_alphabet();
    }
    c
}

} // verus!
