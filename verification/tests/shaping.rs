use arabic_shaping::arabic::{compute_joining_states, gsub_apply_arabic, ArabicGlyph};
use arabic_shaping::error::{ParseError, ShapingError};
use arabic_shaping::glyph::{GlyphOrigin, RawGlyph};
use arabic_shaping::gsub::{lookup_would_apply, FeatureMask, SubstitutionEngine};
use arabic_shaping::layout::{LayoutTable, ScriptTable};
use arabic_shaping::tag;

const ARAB: u32 = 0x61726162; // 'arab'
const URDU: u32 = 0x55524420; // 'URD '

fn raw_of_char(c: char) -> RawGlyph<()> {
    RawGlyph {
        unicodes: vec![c],
        glyph_index: c as u16,
        liga_component_pos: 0,
        glyph_origin: GlyphOrigin::Char(c),
        small_caps: false,
        multi_subst_dup: false,
        is_vert_alt: false,
        fake_bold: false,
        fake_italic: false,
        variation: None,
        extra_data: (),
    }
}

fn arabic_of_chars(text: &[char]) -> Vec<ArabicGlyph> {
    text.iter().map(|&c| ArabicGlyph::from(&raw_of_char(c))).collect()
}

fn tags_of(glyphs: &[ArabicGlyph]) -> Vec<u32> {
    glyphs.iter().map(|g| g.feature_tag()).collect()
}

const BEH: char = '\u{0628}'; // dual-joining
const ALEF: char = '\u{0627}'; // right-joining
const HAMZA: char = '\u{0621}'; // non-joining
const FATHA: char = '\u{064E}'; // transparent

#[test]
fn transparency_preserves_adjacency() {
    let mut glyphs = arabic_of_chars(&[BEH, FATHA, BEH]);
    compute_joining_states(&mut glyphs);
    assert_eq!(tags_of(&glyphs), vec![tag::INIT, tag::ISOL, tag::FINA]);
}

#[test]
fn no_join_when_previous_is_not_left_joining() {
    let mut glyphs = arabic_of_chars(&[ALEF, ALEF]);
    compute_joining_states(&mut glyphs);
    assert_eq!(tags_of(&glyphs), vec![tag::ISOL, tag::ISOL]);
}

#[test]
fn single_glyph_is_stable() {
    for c in [BEH, ALEF, HAMZA, FATHA] {
        let mut glyphs = arabic_of_chars(&[c]);
        compute_joining_states(&mut glyphs);
        assert_eq!(tags_of(&glyphs), vec![tag::ISOL]);
    }
}

#[test]
fn three_in_a_row_progression() {
    let mut glyphs = arabic_of_chars(&[BEH, BEH, BEH]);
    compute_joining_states(&mut glyphs);
    assert_eq!(tags_of(&glyphs), vec![tag::INIT, tag::MEDI, tag::FINA]);
}

#[test]
fn pair_of_dual_joining_glyphs() {
    let mut glyphs = arabic_of_chars(&[BEH, BEH]);
    compute_joining_states(&mut glyphs);
    assert_eq!(tags_of(&glyphs), vec![tag::INIT, tag::FINA]);
}

#[test]
fn dual_then_right_joining() {
    let mut glyphs = arabic_of_chars(&[BEH, ALEF]);
    compute_joining_states(&mut glyphs);
    assert_eq!(tags_of(&glyphs), vec![tag::INIT, tag::FINA]);
}

#[test]
fn non_joining_glyph_breaks_the_chain() {
    let mut glyphs = arabic_of_chars(&[BEH, HAMZA, BEH]);
    compute_joining_states(&mut glyphs);
    assert_eq!(tags_of(&glyphs), vec![tag::ISOL, tag::ISOL, tag::ISOL]);
}

#[test]
fn empty_sequence_is_a_no_op() {
    let mut glyphs: Vec<ArabicGlyph> = Vec::new();
    compute_joining_states(&mut glyphs);
    assert!(glyphs.is_empty());
}

#[test]
fn all_transparent_sequence_is_unchanged() {
    let mut glyphs = arabic_of_chars(&[FATHA, FATHA, FATHA]);
    compute_joining_states(&mut glyphs);
    assert_eq!(tags_of(&glyphs), vec![tag::ISOL, tag::ISOL, tag::ISOL]);
}

#[test]
fn duplicate_glyph_is_skipped_like_a_transparent_one() {
    let mut glyphs = arabic_of_chars(&[BEH, BEH, BEH]);
    glyphs[1].multi_subst_dup = true;
    compute_joining_states(&mut glyphs);
    assert_eq!(tags_of(&glyphs), vec![tag::INIT, tag::ISOL, tag::FINA]);
}

fn table_with(script_tag: u32, langsys_tags: Vec<u32>, has_default: bool) -> LayoutTable {
    LayoutTable {
        scripts: vec![ScriptTable {
            script_tag,
            langsys_tags,
            has_default_langsys: has_default,
        }],
    }
}

/// An engine that must never be reached: the no-op paths decide before any
/// collaborator call.
struct PanickingEngine;

impl SubstitutionEngine for PanickingEngine {
    fn lookups_for_feature(
        &mut self,
        _script_tag: u32,
        _lang_tag: Option<u32>,
        _feature: FeatureMask,
    ) -> Result<Vec<(usize, u32)>, ParseError> {
        panic!("no lookup may be resolved on a no-op path");
    }

    fn apply_lookup(
        &mut self,
        _lookup_index: usize,
        _feature_tag: u32,
        _is_global: bool,
        _glyphs: &mut Vec<ArabicGlyph>,
    ) -> Result<(), ParseError> {
        panic!("no lookup may be applied on a no-op path");
    }
}

#[test]
fn absent_script_is_a_successful_no_op() {
    let table = table_with(URDU, vec![], true);
    let mut glyphs = vec![raw_of_char(BEH), raw_of_char(ALEF)];
    let before = glyphs.clone();
    let r = gsub_apply_arabic(&mut PanickingEngine, &table, ARAB, None, &mut glyphs);
    assert_eq!(r, Ok(()));
    assert_eq!(glyphs, before);
}

#[test]
fn absent_langsys_without_default_is_a_successful_no_op() {
    let table = table_with(ARAB, vec![URDU], false);
    let mut glyphs = vec![raw_of_char(BEH)];
    let before = glyphs.clone();
    let r = gsub_apply_arabic(&mut PanickingEngine, &table, ARAB, Some(0x46415220), &mut glyphs);
    assert_eq!(r, Ok(()));
    assert_eq!(glyphs, before);
}

#[test]
fn exact_langsys_match_applies_without_default() {
    // The script lists the requested language system, so shaping applies;
    // an engine with no lookups leaves the sequence's content intact.
    let table = table_with(ARAB, vec![URDU], false);
    let mut glyphs = vec![raw_of_char(BEH)];
    let r = gsub_apply_arabic(&mut EmptyEngine, &table, ARAB, Some(URDU), &mut glyphs);
    assert_eq!(r, Ok(()));
    assert_eq!(glyphs, vec![raw_of_char(BEH)]);
}

/// An engine whose font has no lookups at all.
struct EmptyEngine;

impl SubstitutionEngine for EmptyEngine {
    fn lookups_for_feature(
        &mut self,
        _script_tag: u32,
        _lang_tag: Option<u32>,
        _feature: FeatureMask,
    ) -> Result<Vec<(usize, u32)>, ParseError> {
        Ok(Vec::new())
    }

    fn apply_lookup(
        &mut self,
        _lookup_index: usize,
        _feature_tag: u32,
        _is_global: bool,
        _glyphs: &mut Vec<ArabicGlyph>,
    ) -> Result<(), ParseError> {
        Ok(())
    }
}

/// An engine whose lookup cache reports malformed font data.
struct FailingEngine;

impl SubstitutionEngine for FailingEngine {
    fn lookups_for_feature(
        &mut self,
        _script_tag: u32,
        _lang_tag: Option<u32>,
        _feature: FeatureMask,
    ) -> Result<Vec<(usize, u32)>, ParseError> {
        Err(ParseError::BadValue)
    }

    fn apply_lookup(
        &mut self,
        _lookup_index: usize,
        _feature_tag: u32,
        _is_global: bool,
        _glyphs: &mut Vec<ArabicGlyph>,
    ) -> Result<(), ParseError> {
        Ok(())
    }
}

#[test]
fn parse_error_aborts_and_leaves_the_sequence_untouched() {
    let table = table_with(ARAB, vec![], true);
    let mut glyphs = vec![raw_of_char(BEH), raw_of_char(BEH)];
    let before = glyphs.clone();
    let r = gsub_apply_arabic(&mut FailingEngine, &table, ARAB, None, &mut glyphs);
    assert_eq!(r, Err(ShapingError::Parse(ParseError::BadValue)));
    assert_eq!(glyphs, before);
}

/// Records every collaborator call: which features are resolved in which
/// order, and the feature tags the sequence carries when each lookup is
/// applied. Its `ccmp` lookup composes: it removes a non-joining glyph that
/// sits between two dual-joining ones, so the join only exists if the
/// joining-state engine runs after composition.
struct RecordingEngine {
    resolved: Vec<FeatureMask>,
    applied: Vec<(FeatureMask, Vec<u32>)>,
    current: Option<FeatureMask>,
}

impl RecordingEngine {
    fn new() -> RecordingEngine {
        RecordingEngine {
            resolved: Vec::new(),
            applied: Vec::new(),
            current: None,
        }
    }
}

impl SubstitutionEngine for RecordingEngine {
    fn lookups_for_feature(
        &mut self,
        _script_tag: u32,
        _lang_tag: Option<u32>,
        feature: FeatureMask,
    ) -> Result<Vec<(usize, u32)>, ParseError> {
        self.resolved.push(feature);
        self.current = Some(feature);
        let feature_tag = match feature {
            FeatureMask::Isol => tag::ISOL,
            FeatureMask::Fina => tag::FINA,
            FeatureMask::Medi => tag::MEDI,
            FeatureMask::Init => tag::INIT,
            _ => 0,
        };
        Ok(vec![(self.resolved.len() - 1, feature_tag)])
    }

    fn apply_lookup(
        &mut self,
        _lookup_index: usize,
        _feature_tag: u32,
        _is_global: bool,
        glyphs: &mut Vec<ArabicGlyph>,
    ) -> Result<(), ParseError> {
        let feature = self.current.expect("a lookup is always resolved first");
        self.applied.push((feature, glyphs.iter().map(|g| g.feature_tag()).collect()));
        if feature == FeatureMask::Ccmp {
            // Composition: fuse the three glyphs' middle non-joining glyph
            // away, making the outer two adjacent.
            glyphs.remove(1);
        }
        Ok(())
    }
}

#[test]
fn composition_and_joining_run_before_any_form_feature() {
    let table = table_with(ARAB, vec![], true);
    let mut glyphs = vec![raw_of_char(BEH), raw_of_char(HAMZA), raw_of_char(BEH)];
    let mut engine = RecordingEngine::new();
    let r = gsub_apply_arabic(&mut engine, &table, ARAB, None, &mut glyphs);
    assert_eq!(r, Ok(()));

    // Features are resolved in exactly the mandated order.
    assert_eq!(
        engine.resolved,
        vec![
            FeatureMask::Ccmp,
            FeatureMask::Locl,
            FeatureMask::Isol,
            FeatureMask::Fina,
            FeatureMask::Medi,
            FeatureMask::Init,
            FeatureMask::Rlig,
            FeatureMask::Rclt,
            FeatureMask::Calt,
            FeatureMask::Liga,
            FeatureMask::Mset,
        ]
    );

    // When ccmp is applied the joining-state engine has not yet run: all
    // three glyphs still carry the isol default.
    assert_eq!(engine.applied[0], (FeatureMask::Ccmp, vec![tag::ISOL, tag::ISOL, tag::ISOL]));

    // Every later lookup sees the joining states computed on the composed
    // sequence: the outer glyphs, now adjacent, were joined. Had the engine
    // run before composition, the non-joining middle glyph would have kept
    // both at isol.
    for (feature, tags) in &engine.applied[1..] {
        assert_ne!(*feature, FeatureMask::Ccmp);
        assert_eq!(tags, &vec![tag::INIT, tag::FINA]);
    }

    // The shaped sequence is the composed one, stripped of extension data.
    assert_eq!(glyphs.len(), 2);
    assert_eq!(glyphs[0].glyph_index, BEH as u16);
}

/// An engine with one lookup per positional-form feature that bumps the
/// glyph index of every glyph the per-glyph gate admits.
struct FormSubstitutingEngine;

impl SubstitutionEngine for FormSubstitutingEngine {
    fn lookups_for_feature(
        &mut self,
        _script_tag: u32,
        _lang_tag: Option<u32>,
        feature: FeatureMask,
    ) -> Result<Vec<(usize, u32)>, ParseError> {
        match feature {
            FeatureMask::Isol => Ok(vec![(0, tag::ISOL)]),
            FeatureMask::Fina => Ok(vec![(1, tag::FINA)]),
            FeatureMask::Medi => Ok(vec![(2, tag::MEDI)]),
            FeatureMask::Init => Ok(vec![(3, tag::INIT)]),
            _ => Ok(Vec::new()),
        }
    }

    fn apply_lookup(
        &mut self,
        lookup_index: usize,
        feature_tag: u32,
        is_global: bool,
        glyphs: &mut Vec<ArabicGlyph>,
    ) -> Result<(), ParseError> {
        for g in glyphs.iter_mut() {
            if lookup_would_apply(g, feature_tag, is_global) {
                g.glyph_index = 1000 + lookup_index as u16;
            }
        }
        Ok(())
    }
}

#[test]
fn positional_form_lookups_only_touch_matching_glyphs() {
    let table = table_with(ARAB, vec![], true);
    let mut glyphs = vec![raw_of_char(BEH), raw_of_char(BEH), raw_of_char(BEH)];
    let r = gsub_apply_arabic(&mut FormSubstitutingEngine, &table, ARAB, None, &mut glyphs);
    assert_eq!(r, Ok(()));
    // init, medi and fina forms were substituted; nothing took the isol one.
    let indices: Vec<u16> = glyphs.iter().map(|g| g.glyph_index).collect();
    assert_eq!(indices, vec![1003, 1002, 1001]);
}
