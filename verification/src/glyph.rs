//! The generic glyph record, owned by the caller: the source codepoints it
//! came from, the resolved glyph index, its origin, and the flags substitution
//! may set. A script extends it through the `extra_data` payload.

use vstd::prelude::*;

verus! {

/// Where a glyph came from: a source character, or synthesised directly
/// (no originating character, so no Unicode properties can be derived).
#[derive(Clone, Copy, PartialEq, Eq, Debug)]
pub enum GlyphOrigin {
    Char(char),
    Direct,
}

/// A per-script extension payload must say how two payloads merge when
/// substitution fuses or duplicates glyph records.
pub trait GlyphData: Sized {
    fn merge(data1: Self, data2: Self) -> Self;
}

/// A glyph record: generic fields plus a script-specific `extra_data`
/// payload.
#[derive(Clone, PartialEq, Debug)]
pub struct RawGlyph<T> {
    /// The source codepoints this glyph stands for, in order, each unique.
    pub unicodes: Vec<char>,
    /// The resolved index into the font.
    pub glyph_index: u16,
    /// Position of this glyph within a ligature, where it is a component.
    pub liga_component_pos: u16,
    /// Exactly one origin per record.
    pub glyph_origin: GlyphOrigin,
    /// Small-caps substitution was applied.
    pub small_caps: bool,
    /// This record is a duplicate produced by one-to-many substitution.
    pub multi_subst_dup: bool,
    /// Vertical alternate.
    pub is_vert_alt: bool,
    /// Faux bold.
    pub fake_bold: bool,
    /// Faux italic.
    pub fake_italic: bool,
    /// The variation selector applied to the source character, if any.
    pub variation: Option<char>,
    /// The script-specific payload.
    pub extra_data: T,
}

} // verus!
