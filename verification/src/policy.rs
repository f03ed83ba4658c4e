//! The randomisation policy in one place.
//!
//! Fixed: the agent mode, the SDK version, the protocol tokens of the header
//! grammar, the major component of the OS version, and the major and minor
//! components of the runtime version. The IDE version is the caller's and is
//! passed through untouched.
//!
//! Drawn once per call, each from a closed window: the minor, patch and build
//! components of the OS version, the patch and build components of the
//! runtime version, and every digit of the commit hash.
//!
//! The windows mirror what real installations of the client family report.
//! Widening one is a change of policy.

use vstd::prelude::*;

verus! {

/// Value of the agent-mode header. Never drawn.
pub const AGENT_MODE: &'static str = "spec";

/// SDK version reported in both user-agent strings. Never drawn.
pub const SDK_VERSION: &'static str = "1.0.18";

/// The commit-hash alphabet, in digit order.
pub const HEX_ALPHABET: &'static str = "0123456789abcdef";

/// Number of symbols in [`HEX_ALPHABET`].
pub const HEX_RADIX: usize = 16;

/// Number of digits in a commit hash.
pub const COMMIT_HASH_LEN: usize = 40;

/// Major component of the OS version. Never drawn.
pub const OS_MAJOR: u32 = 13;

/// Window of the OS version's minor component.
pub const OS_MINOR_MIN: u32 = 7;

pub const OS_MINOR_MAX: u32 = 9;

/// Window of the OS version's patch component.
pub const OS_PATCH_MIN: u32 = 0;

pub const OS_PATCH_MAX: u32 = 99;

/// Window of the OS version's build component.
pub const OS_BUILD_MIN: u32 = 0;

pub const OS_BUILD_MAX: u32 = 299;

/// Major component of the runtime version. Never drawn.
pub const NODE_MAJOR: u32 = 138;

/// Minor component of the runtime version. Never drawn.
pub const NODE_MINOR: u32 = 0;

/// Window of the runtime version's patch component.
pub const NODE_PATCH_MIN: u32 = 7200;

pub const NODE_PATCH_MAX: u32 = 7210;

/// Window of the runtime version's build component.
pub const NODE_BUILD_MIN: u32 = 0;

pub const NODE_BUILD_MAX: u32 = 999;

} // verus!
