//! Token estimation: a deterministic length heuristic used only for the
//! usage block of a completion response, never for generation control.

use vstd::prelude::*;
use vstd::string::StrSliceExecFns;
use vstd::arithmetic::div_mod::lemma_div_is_ordered;

verus! {

/// The estimate for a text of `len` characters: one token per four
/// characters, rounded down.
pub open spec fn spec_estimate_tokens(len: nat) -> nat {
    len / 4
}

/// Rough token count of `text`: `floor(length / 4)`, where the length is
/// counted in characters.
pub fn estimate_tokens(text: &str) -> (r: u32)
    requires
        text@.len() / 4 <= u32::MAX,
    ensures
        r == spec_estimate_tokens(text@.len()),
{
    let n = text.unicode_len();
    (n / 4) as u32
}

/// The estimate never decreases when the text grows: a longer text is
/// estimated at no fewer tokens than a shorter one.
pub proof fn lemma_estimate_monotonic(a: nat, b: nat)
    requires
        a <= b,
    ensures
        spec_estimate_tokens(a) <= spec_estimate_tokens(b),
{
    lemma_div_is_ordered(a as int, b as int, 4);
}

} // verus!
