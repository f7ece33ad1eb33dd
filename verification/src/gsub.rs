//! The boundary to the generic substitution engine. Shaping owns the order
//! in which features are applied and the predicate that gates each glyph;
//! resolving a feature's lookups from the font and applying one lookup to the
//! glyph sequence are the engine's work, reached through this trait.

use crate::arabic::ArabicGlyph;
use crate::error::ParseError;
use vstd::prelude::*;

verus! {

/// Identifies one layout feature when requesting its cached lookups.
#[derive(Clone, Copy, PartialEq, Eq, Structural, Debug)]
pub enum FeatureMask {
    Ccmp,
    Isol,
    Fina,
    Medi,
    Init,
    Locl,
    Rlig,
    Rclt,
    Calt,
    Liga,
    Mset,
}

/// The generic substitution engine and its lookup cache, supplied by the
/// caller. Shaping states nothing of what these methods return: a lookup may
/// shrink, grow or rewrite the glyph sequence according to the font's rules,
/// and every result is handled whatever came back.
pub trait SubstitutionEngine {
    /// The ordered (lookup index, feature tag) list the font gives for
    /// (script, language, feature), computed and cached on first request.
    /// Ordering is authoritative; shaping never reorders it. Fails with a
    /// parse error on malformed font data.
    fn lookups_for_feature(
        &mut self,
        script_tag: u32,
        lang_tag: Option<u32>,
        feature: FeatureMask,
    ) -> Result<Vec<(usize, u32)>, ParseError>;

    /// Applies one lookup over the whole glyph sequence. An implementation
    /// must substitute a candidate glyph only where
    /// [`lookup_would_apply`](crate::gsub::lookup_would_apply) holds of it.
    fn apply_lookup(
        &mut self,
        lookup_index: usize,
        feature_tag: u32,
        is_global: bool,
        glyphs: &mut Vec<ArabicGlyph>,
    ) -> Result<(), ParseError>;
}

/// The per-glyph gate for one lookup: a global feature touches every glyph;
/// a positional-form feature touches only the glyphs whose current feature
/// tag is the lookup's own.
pub fn lookup_would_apply(glyph: &ArabicGlyph, feature_tag: u32, is_global: bool) -> (r: bool)
    ensures
        r == (is_global || glyph.extra_data.feature_tag == feature_tag),
{
    is_global || glyph.extra_data.feature_tag == feature_tag
}

} // verus!
