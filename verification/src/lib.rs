//! Shaping for a joining script: classifies glyphs by their Unicode joining
//! type and canonical combining class, computes the positional form
//! (isolated/initial/medial/final) each joining glyph requires, and drives a
//! caller-supplied substitution engine through the font's feature lookups in
//! the order the script's shaping rules mandate.

pub mod arabic;
pub mod classify;
pub mod error;
pub mod glyph;
pub mod gsub;
pub mod layout;
pub mod tag;
