//! Four-byte feature tags, packed big-endian into a `u32` as OpenType fonts
//! store them. Only the four positional-form tags are needed by the joining
//! logic itself; other features are identified by `gsub::FeatureMask`.

use vstd::prelude::*;

verus! {

/// `isol`: the isolated positional form.
pub const ISOL: u32 = 0x69736F6C;

/// `fina`: the final (word-ending) positional form.
pub const FINA: u32 = 0x66696E61;

/// `medi`: the medial positional form.
pub const MEDI: u32 = 0x6D656469;

/// `init`: the initial (word-starting) positional form.
pub const INIT: u32 = 0x696E6974;

} // verus!
