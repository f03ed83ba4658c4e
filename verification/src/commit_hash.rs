//! Commit hashes: forty lowercase hex digits.

use vstd::prelude::*;
use crate::entropy::{is_hex_digit, random_hex_digit};
use crate::policy::COMMIT_HASH_LEN;

verus! {

/// `s` has the shape of a commit hash: exactly forty characters, each a
/// lowercase hex digit. Every such string is a valid hash.
pub open spec fn is_commit_hash(s: Seq<char>) -> bool {
    &&& s.len() == COMMIT_HASH_LEN
    &&& forall|i: int| 0 <= i < s.len() ==> is_hex_digit(#[trigger] s[i])
}

/// A fresh random commit hash: forty independent draws of
/// [`random_hex_digit`], in order.
pub fn generate_random_git_hash() -> (hash: String)
    ensures
        is_commit_hash(hash@),
{
    let mut hash = String::new();
    let mut drawn: usize = 0;
    while drawn < COMMIT_HASH_LEN
        invariant
            drawn <= COMMIT_HASH_LEN,
            hash@.len() == drawn,
            forall|i: int| 0 <= i < hash@.len() ==> is_hex_digit(#[trigger] hash@[i]),
        decreases COMMIT_HASH_LEN - drawn,
    {
        hash.push(random_hex_digit());
        drawn = drawn + 1;
    }
    hash
}

} // verus!
