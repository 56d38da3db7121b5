//! Capabilities handed to a tool when it is invoked.

use vstd::prelude::*;

verus! {

/// Network capability: none, or a list of domains.
#[derive(Clone, Debug)]
pub enum NetCap {
    NoNet,
    AllowDomains(Vec<String>),
}

/// Token budget of a tool invocation.
#[derive(Clone, Copy, Debug)]
pub struct TokenCap {
    pub remaining: u64,
}

/// Failure of a tool invocation.
#[derive(Debug)]
pub struct ToolError {
    pub message: String,
}

} // verus!
