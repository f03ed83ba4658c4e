//! Contracts for the parts of `std` that the library calls and `vstd` leaves
//! without one.

use vstd::prelude::*;

verus! {

/// `String::push` appends the given character to the end of the string and
/// changes nothing else.
///
/// Trusted: taken from the documentation of `std`, not proved.
pub assume_specification[ String::push ](s: &mut String, ch: char)
    ensures
        final(s)@ == old(s)@.push(ch),
;

} // verus!
