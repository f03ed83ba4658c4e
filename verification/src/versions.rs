//! The two generated version strings and their grammars.
//!
//! OS version: `13.{minor}.{patch}.{build}-electron.0`.
//! Runtime version: `138.0.{patch}.{build}`.
//!
//! Only the named components are drawn; their windows are in [`crate::policy`].

use vstd::prelude::*;
use crate::decimal::{append_decimal, decimal_text};
use crate::entropy::random_int;
use crate::policy::{
    NODE_BUILD_MAX, NODE_BUILD_MIN, NODE_MAJOR, NODE_MINOR, NODE_PATCH_MAX, NODE_PATCH_MIN,
    OS_BUILD_MAX, OS_BUILD_MIN, OS_MAJOR, OS_MINOR_MAX, OS_MINOR_MIN, OS_PATCH_MAX, OS_PATCH_MIN,
};

verus! {

/// The OS version with the given drawn components.
pub open spec fn os_version_text(minor: nat, patch: nat, build: nat) -> Seq<char> {
    decimal_text(OS_MAJOR as nat) + "."@ + decimal_text(minor) + "."@ + decimal_text(patch) + "."@
        + decimal_text(build) + "-electron.0"@
}

/// The runtime version with the given drawn components.
pub open spec fn node_version_text(patch: nat, build: nat) -> Seq<char> {
    decimal_text(NODE_MAJOR as nat) + "."@ + decimal_text(NODE_MINOR as nat) + "."@ + decimal_text(
        patch,
    ) + "."@ + decimal_text(build)
}

/// `s` is an OS version whose components all lie in their windows.
pub open spec fn is_os_version(s: Seq<char>) -> bool {
    exists|minor: nat, patch: nat, build: nat|
        {
            &&& OS_MINOR_MIN <= minor <= OS_MINOR_MAX
            &&& OS_PATCH_MIN <= patch <= OS_PATCH_MAX
            &&& OS_BUILD_MIN <= build <= OS_BUILD_MAX
            &&& s == #[trigger] os_version_text(minor, patch, build)
        }
}

/// `s` is a runtime version whose components all lie in their windows.
pub open spec fn is_node_version(s: Seq<char>) -> bool {
    exists|patch: nat, build: nat|
        {
            &&& NODE_PATCH_MIN <= patch <= NODE_PATCH_MAX
            &&& NODE_BUILD_MIN <= build <= NODE_BUILD_MAX
            &&& s == #[trigger] node_version_text(patch, build)
        }
}

/// The numerals of the fixed components.
pub proof fn lemma_fixed_components()
    ensures
        decimal_text(OS_MAJOR as nat) == "13"@,
        decimal_text(NODE_MAJOR as nat) == "138"@,
        decimal_text(NODE_MINOR as nat) == "0"@,
{
    reveal_strlit("0123456789");
    reveal_strlit("13");
    reveal_strlit("138");
    reveal_strlit("0");
    reveal_with_fuel(decimal_text, 3);
    assert(decimal_text(13) =~= "13"@);
    assert(decimal_text(138) =~= "138"@);
    assert(decimal_text(0) =~= "0"@);
}

/// Whatever is drawn, an OS version starts with `13.` and ends with
/// `-electron.0`.
pub proof fn lemma_os_version_envelope(minor: nat, patch: nat, build: nat)
    ensures
        "13."@.is_prefix_of(os_version_text(minor, patch, build)),
        "-electron.0"@.is_suffix_of(os_version_text(minor, patch, build)),
{
    lemma_fixed_components();
    reveal_strlit("13");
    reveal_strlit(".");
    reveal_strlit("13.");
    let s = os_version_text(minor, patch, build);
    let head = decimal_text(OS_MAJOR as nat) + "."@;
    assert(head =~= "13."@);
    assert(s.subrange(0, 3) =~= head);
    let tail = "-electron.0"@;
    assert(s.subrange(s.len() - tail.len(), s.len() as int) =~= tail);
}

/// Whatever is drawn, a runtime version starts with `138.0.`.
pub proof fn lemma_node_version_prefix(patch: nat, build: nat)
    ensures
        "138.0."@.is_prefix_of(node_version_text(patch, build)),
{
    lemma_fixed_components();
    reveal_strlit("138");
    reveal_strlit("0");
    reveal_strlit(".");
    reveal_strlit("138.0.");
    let s = node_version_text(patch, build);
    let head = decimal_text(NODE_MAJOR as nat) + "."@ + decimal_text(NODE_MINOR as nat) + "."@;
    assert(head =~= "138.0."@);
    assert(s.subrange(0, 6) =~= head);
}

/// The OS version with the given components, whether or not they lie in
/// their windows.
pub fn format_os_version(minor: u32, patch: u32, build: u32) -> (s: String)
    ensures
        s@ == os_version_text(minor as nat, patch as nat, build as nat),
{
    let mut s = String::new();
    append_decimal(&mut s, OS_MAJOR);
    s.append(".");
    append_decimal(&mut s, minor);
    s.append(".");
    append_decimal(&mut s, patch);
    s.append(".");
    append_decimal(&mut s, build);
    s.append("-electron.0");
    assert(s@ =~= os_version_text(minor as nat, patch as nat, build as nat));
    s
}

/// The runtime version with the given components, whether or not they lie
/// in their windows.
pub fn format_node_version(patch: u32, build: u32) -> (s: String)
    ensures
        s@ == node_version_text(patch as nat, build as nat),
{
    let mut s = String::new();
    append_decimal(&mut s, NODE_MAJOR);
    s.append(".");
    append_decimal(&mut s, NODE_MINOR);
    s.append(".");
    append_decimal(&mut s, patch);
    s.append(".");
    append_decimal(&mut s, build);
    assert(s@ =~= node_version_text(patch as nat, build as nat));
    s
}

/// A fresh random OS version: minor, patch and build are each drawn once
/// from their windows; the major component and the suffix never vary.
pub fn generate_random_os_version() -> (s: String)
    ensures
        is_os_version(s@),
        "13."@.is_prefix_of(s@),
        "-electron.0"@.is_suffix_of(s@),
{
    let minor: u32 = random_int(OS_MINOR_MIN, OS_MINOR_MAX);
    let patch: u32 = random_int(OS_PATCH_MIN, OS_PATCH_MAX);
    let build: u32 = random_int(OS_BUILD_MIN, OS_BUILD_MAX);
    let s = format_os_version(minor, patch, build);
    proof {
        lemma_os_version_envelope(minor as nat, patch as nat, build as nat);
    }
    s
}

/// A fresh random runtime version: patch and build are each drawn once from
/// their windows; the major and minor components never vary.
pub fn generate_random_node_version() -> (s: String)
    ensures
        is_node_version(s@),
        "138.0."@.is_prefix_of(s@),
{
    let patch: u32 = random_int(NODE_PATCH_MIN, NODE_PATCH_MAX);
    let build: u32 = random_int(NODE_BUILD_MIN, NODE_BUILD_MAX);
    let s = format_node_version(patch, build);
    proof {
        lemma_node_version_prefix(patch as nat, build as nat);
    }
    s
}

} // verus!
