//! Randomised client identity headers.
//!
//! Every outbound request of the client carries three header values. The
//! product-identifying parts (SDK version, IDE version, agent mode) are fixed;
//! the parts that describe the machine (OS build, runtime build, commit hash)
//! are drawn afresh on every call from narrow, hand-chosen windows.
//!
//! The layers, leaves first:
//!
//! * [`policy`]: the one table of what is fixed and what is drawn, and from where;
//! * [`entropy`]: bounded random primitives over the thread's generator;
//! * [`decimal`]: decimal rendering of unsigned integers;
//! * [`commit_hash`], [`versions`]: the three generated values and their grammars;
//! * [`headers`]: the assembly of the three header values.
//!
//! [`std_ext`] holds the one contract that is taken on trust from `std`.

pub mod commit_hash;
pub mod decimal;
pub mod entropy;
pub mod headers;
pub mod policy;
pub mod std_ext;
pub mod versions;

pub use commit_hash::generate_random_git_hash;
pub use entropy::{hex_digit, random_hex_digit, random_int};
pub use headers::{assemble_user_agent_headers, build_user_agent_headers, UserAgentHeaders};
pub use versions::{
    format_node_version, format_os_version, generate_random_node_version,
    generate_random_os_version,
};
