//! Error types. Parse-level errors are produced by the collaborators that
//! read the font's binary tables; the shaping-level error wraps them without
//! alteration, so a caller sees the original failure.

use vstd::prelude::*;

verus! {

/// Malformed or inconsistent font table data, reported by a collaborator
/// while resolving scripts, language systems or lookups.
#[derive(Clone, Copy, PartialEq, Eq, Structural, Debug)]
pub enum ParseError {
    BadVersion,
    BadOffset,
    BadEof,
    BadValue,
    BadIndex,
    MissingValue,
}

/// A failure of one shaping call. Parse errors from collaborators are
/// propagated unchanged in meaning; there is no local recovery.
#[derive(Clone, Copy, PartialEq, Eq, Structural, Debug)]
pub enum ShapingError {
    Parse(ParseError),
}

} // verus!
