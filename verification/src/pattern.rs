//! Pattern admissibility at the foreign-call boundary.
//!
//! The engine receives the pattern as a terminator-delimited byte string, so
//! a pattern holding an embedded terminator (NUL) byte can never be handed
//! across the boundary: it is rejected before any engine interaction.

use vstd::prelude::*;

verus! {

/// The byte the foreign boundary uses to delimit the pattern.
pub const TERMINATOR_BYTE: u8 = 0;

/// A pattern is safe to hand across the engine boundary exactly when none of
/// its bytes is the terminator.
pub open spec fn terminator_free(bytes: Seq<u8>) -> bool {
    forall|i: int| 0 <= i < bytes.len() ==> bytes[i] != TERMINATOR_BYTE
}

/// Decides whether a pattern may be passed to the engine's compiler: true
/// exactly when the pattern contains no embedded terminator byte.
pub fn pattern_is_terminator_safe(pattern: &Vec<u8>) -> (r: bool)
    ensures
        r == terminator_free(pattern@),
{
    let mut i: usize = 0;
    while i < pattern.len()
        invariant
            0 <= i <= pattern@.len(),
            forall|j: int| 0 <= j < i ==> pattern@[j] != TERMINATOR_BYTE,
        decreases pattern@.len() - i,
    {
        if pattern[i] == TERMINATOR_BYTE {
            return false;
        }
        i = i + 1;
    }
    true
}

} // verus!
