//! Turning the raw text of a verifier fault into a message for the user.
use vstd::prelude::*;
use crate::text::{chars_of, contains, contains_seq, find_line_end, first_line};

verus! {

/// Fault text that marks a curve point outside the expected subgroup.
pub const SUBGROUP_PATTERN: &'static str = "invalid point: subgroup check failed";

/// Fault text that marks a proof the verifier refused.
pub const MISMATCH_PATTERN: &'static str = "failed to verify proof";

/// Shown for a fault that carries [`SUBGROUP_PATTERN`].
pub const INVALID_POINT_MESSAGE: &'static str = "The proof contains an invalid curve point (subgroup check failed). This usually means the proof is malformed or corrupted.";

/// Shown for a fault that carries [`MISMATCH_PATTERN`].
pub const MISMATCH_MESSAGE: &'static str = "The proof verification failed. The proof may be invalid or not match the verification key.";

/// Put before the first line of any other fault text.
pub const GENERIC_PREFIX: &'static str = "Verification error: ";

/// Shown for a fault that carries no text at all.
pub const UNKNOWN_MESSAGE: &'static str = "Unknown verification error occurred";

/// The user-facing message for the fault text `m`: the first pattern that
/// occurs in `m` picks a fixed message; otherwise the first line of `m` after
/// a prefix, or a placeholder when `m` is empty.
pub open spec fn classified(m: Seq<char>) -> Seq<char> {
    if contains_seq(m, SUBGROUP_PATTERN@) {
        INVALID_POINT_MESSAGE@
    } else if contains_seq(m, MISMATCH_PATTERN@) {
        MISMATCH_MESSAGE@
    } else if m.len() == 0 {
        UNKNOWN_MESSAGE@
    } else {
        GENERIC_PREFIX@ + first_line(m)
    }
}

/// The user-facing message for the text of a fault raised inside the
/// verifier.
pub fn extract_error_message(panic_message: &str) -> (r: String)
    ensures
        r@ == classified(panic_message@),
{
    let m = chars_of(panic_message);
    if contains(&m, SUBGROUP_PATTERN) {
        String::from_str(INVALID_POINT_MESSAGE)
    } else if contains(&m, MISMATCH_PATTERN) {
        String::from_str(MISMATCH_MESSAGE)
    } else if m.len() == 0 {
        String::from_str(UNKNOWN_MESSAGE)
    } else {
        let k = find_line_end(&m);
        let end: usize = if k < m.len() && k > 0 && m[k - 1] == '\r' {
            k - 1
        } else {
            k
        };
        let line = panic_message.substring_char(0, end);
        proof {
            assert(line@ =~= first_line(panic_message@));
        }
        String::from_str(GENERIC_PREFIX).concat(line)
    }
}

} // verus!
