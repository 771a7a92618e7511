//! Admission-controlled inference gateway library.
//!
//! The crate holds the verified core of a chat-completion gateway that
//! fronts a single exclusively-owned language model: prompt formatting,
//! token estimation, the admission gate, the dispatch decisions, and the
//! response envelope.

pub mod dispatch;
pub mod gate;
pub mod msg;
pub mod prompts;
pub mod respond;
pub mod tokens;

use vstd::prelude::*;

verus! {

/// Default number of generated units requested when a chat request
/// does not name one.
pub fn default_max_tokens() -> (r: u32)
    ensures
        r == 100,
{
    100
}

} // verus!
