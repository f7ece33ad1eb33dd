//! Shaping for the Arabic script: the per-glyph extension record, the
//! joining-state engine that assigns each joining glyph its positional form,
//! and the ordered feature pipeline that drives the substitution engine.

use crate::classify::{
    canonical_combining_class, get_joining_type, joining_type_of, spec_canonical_combining_class,
    JoiningType,
};
use crate::error::{ParseError, ShapingError};
use crate::glyph::{GlyphData, GlyphOrigin, RawGlyph};
use crate::gsub::{FeatureMask, SubstitutionEngine};
use crate::layout::{spec_shaping_applies, LayoutTable};
use crate::tag;
use vstd::prelude::*;

verus! {

/// The script-specific payload carried by every Arabic glyph.
#[derive(Clone, Copy, PartialEq, Eq, Structural, Debug)]
pub struct ArabicData {
    pub joining_type: JoiningType,
    pub canonical_combining_class: u8,
    /// The glyph's current positional-form assignment. Every record starts
    /// at `isol`; the joining-state engine only ever advances it.
    pub feature_tag: u32,
}

impl GlyphData for ArabicData {
    /// When substitution fuses or duplicates records, the first record's
    /// classification is kept and the second's discarded. A provisional
    /// policy, kept until a principled merge under Unicode normalisation is
    /// settled; callers must not rely on the discarded data surviving.
    fn merge(data1: ArabicData, _data2: ArabicData) -> (r: ArabicData)
        ensures
            r == data1,
    {
        data1
    }
}

/// Arabic glyphs are `RawGlyph` records with `ArabicData` as `extra_data`.
pub type ArabicGlyph = RawGlyph<ArabicData>;

/// The classification `extra_data` derived from a glyph's origin: Unicode
/// properties of the source character, or the safe default for a synthetic
/// glyph, which neither requests nor blocks joining.
pub open spec fn spec_classification(origin: GlyphOrigin) -> ArabicData {
    match origin {
        GlyphOrigin::Char(c) => ArabicData {
            joining_type: joining_type_of(c),
            canonical_combining_class: spec_canonical_combining_class(c),
            feature_tag: tag::ISOL,
        },
        GlyphOrigin::Direct => ArabicData {
            joining_type: JoiningType::NonJoining,
            canonical_combining_class: 0,
            feature_tag: tag::ISOL,
        },
    }
}

/// `arabic` is the conversion of `raw` into the script's model: every
/// generic field copied verbatim, the extension fields derived from the
/// origin, and the feature tag at its `isol` default.
pub open spec fn converts_to_arabic(raw: RawGlyph<()>, arabic: ArabicGlyph) -> bool {
    &&& arabic.unicodes@ == raw.unicodes@
    &&& arabic.glyph_index == raw.glyph_index
    &&& arabic.liga_component_pos == raw.liga_component_pos
    &&& arabic.glyph_origin == raw.glyph_origin
    &&& arabic.small_caps == raw.small_caps
    &&& arabic.multi_subst_dup == raw.multi_subst_dup
    &&& arabic.is_vert_alt == raw.is_vert_alt
    &&& arabic.fake_bold == raw.fake_bold
    &&& arabic.fake_italic == raw.fake_italic
    &&& arabic.variation == raw.variation
    &&& arabic.extra_data == spec_classification(raw.glyph_origin)
}

/// `raw` is `arabic` with the extension fields dropped: every generic field
/// copied verbatim.
pub open spec fn strips_to_raw(arabic: ArabicGlyph, raw: RawGlyph<()>) -> bool {
    &&& raw.unicodes@ == arabic.unicodes@
    &&& raw.glyph_index == arabic.glyph_index
    &&& raw.liga_component_pos == arabic.liga_component_pos
    &&& raw.glyph_origin == arabic.glyph_origin
    &&& raw.small_caps == arabic.small_caps
    &&& raw.multi_subst_dup == arabic.multi_subst_dup
    &&& raw.is_vert_alt == arabic.is_vert_alt
    &&& raw.fake_bold == arabic.fake_bold
    &&& raw.fake_italic == arabic.fake_italic
    &&& raw.variation == arabic.variation
}

impl ArabicGlyph {
    /// Transparent glyphs take no part in the joining chain. A duplicate
    /// produced by one-to-many substitution must not act as a primary glyph
    /// in joining decisions either, so it counts as transparent.
    pub open spec fn spec_is_transparent(self) -> bool {
        self.extra_data.joining_type == JoiningType::Transparent || self.multi_subst_dup
    }

    /// Whether this glyph can join to the glyph at its left.
    pub open spec fn spec_is_left_joining(self) -> bool {
        ||| self.extra_data.joining_type == JoiningType::LeftJoining
        ||| self.extra_data.joining_type == JoiningType::DualJoining
        ||| self.extra_data.joining_type == JoiningType::JoinCausing
    }

    /// Whether this glyph can join to the glyph at its right.
    pub open spec fn spec_is_right_joining(self) -> bool {
        ||| self.extra_data.joining_type == JoiningType::RightJoining
        ||| self.extra_data.joining_type == JoiningType::DualJoining
        ||| self.extra_data.joining_type == JoiningType::JoinCausing
    }

    pub fn is_transparent(&self) -> (r: bool)
        ensures
            r == self.spec_is_transparent(),
    {
        self.extra_data.joining_type == JoiningType::Transparent || self.multi_subst_dup
    }

    pub fn is_left_joining(&self) -> (r: bool)
        ensures
            r == self.spec_is_left_joining(),
    {
        self.extra_data.joining_type == JoiningType::LeftJoining
            || self.extra_data.joining_type == JoiningType::DualJoining
            || self.extra_data.joining_type == JoiningType::JoinCausing
    }

    pub fn is_right_joining(&self) -> (r: bool)
        ensures
            r == self.spec_is_right_joining(),
    {
        self.extra_data.joining_type == JoiningType::RightJoining
            || self.extra_data.joining_type == JoiningType::DualJoining
            || self.extra_data.joining_type == JoiningType::JoinCausing
    }

    pub fn canonical_combining_class(&self) -> (r: u8)
        ensures
            r == self.extra_data.canonical_combining_class,
    {
        self.extra_data.canonical_combining_class
    }

    pub fn feature_tag(&self) -> (r: u32)
        ensures
            r == self.extra_data.feature_tag,
    {
        self.extra_data.feature_tag
    }

    pub fn set_feature_tag(&mut self, feature_tag: u32)
        ensures
            *final(self) == with_feature_tag(*old(self), feature_tag),
    {
        self.extra_data.feature_tag = feature_tag;
    }

    /// Converts a generic glyph into the script's model, deriving the
    /// joining type and combining class from the source character (or the
    /// safe defaults for a synthetic glyph) and starting the feature tag at
    /// `isol`.
    pub fn from(raw_glyph: &RawGlyph<()>) -> (r: ArabicGlyph)
        ensures
            converts_to_arabic(*raw_glyph, r),
            r.extra_data.feature_tag == tag::ISOL,
    {
        let joining_type = match raw_glyph.glyph_origin {
            GlyphOrigin::Char(c) => get_joining_type(c),
            GlyphOrigin::Direct => JoiningType::NonJoining,
        };

        let ccc = match raw_glyph.glyph_origin {
            GlyphOrigin::Char(c) => canonical_combining_class(c),
            GlyphOrigin::Direct => 0,
        };

        ArabicGlyph {
            unicodes: raw_glyph.unicodes.clone(),
            glyph_index: raw_glyph.glyph_index,
            liga_component_pos: raw_glyph.liga_component_pos,
            glyph_origin: raw_glyph.glyph_origin,
            small_caps: raw_glyph.small_caps,
            multi_subst_dup: raw_glyph.multi_subst_dup,
            is_vert_alt: raw_glyph.is_vert_alt,
            fake_bold: raw_glyph.fake_bold,
            fake_italic: raw_glyph.fake_italic,
            variation: raw_glyph.variation,
            extra_data: ArabicData {
                joining_type,
                canonical_combining_class: ccc,
                feature_tag: tag::ISOL,
            },
        }
    }
}

impl RawGlyph<()> {
    /// Converts a script glyph back to the generic record, dropping the
    /// extension fields; every generic field is copied verbatim.
    pub fn from(arabic_glyph: &ArabicGlyph) -> (r: RawGlyph<()>)
        ensures
            strips_to_raw(*arabic_glyph, r),
    {
        RawGlyph {
            unicodes: arabic_glyph.unicodes.clone(),
            glyph_index: arabic_glyph.glyph_index,
            liga_component_pos: arabic_glyph.liga_component_pos,
            glyph_origin: arabic_glyph.glyph_origin,
            small_caps: arabic_glyph.small_caps,
            multi_subst_dup: arabic_glyph.multi_subst_dup,
            is_vert_alt: arabic_glyph.is_vert_alt,
            fake_bold: arabic_glyph.fake_bold,
            fake_italic: arabic_glyph.fake_italic,
            variation: arabic_glyph.variation,
            extra_data: (),
        }
    }
}

/// `g` with its feature tag replaced; every other field kept.
pub open spec fn with_feature_tag(g: ArabicGlyph, t: u32) -> ArabicGlyph {
    RawGlyph {
        extra_data: ArabicData { feature_tag: t, ..g.extra_data },
        ..g
    }
}

/// The index of the nearest non-transparent glyph strictly before `i`, or
/// -1 if every earlier glyph is transparent.
pub open spec fn prev_non_transparent(s: Seq<ArabicGlyph>, i: int) -> int
    decreases i,
{
    if i <= 0 {
        -1
    } else if !s[i - 1].spec_is_transparent() {
        i - 1
    } else {
        prev_non_transparent(s, i - 1)
    }
}

/// The index of the nearest non-transparent glyph strictly after `i`, or
/// -1 if every later glyph is transparent.
pub open spec fn next_non_transparent(s: Seq<ArabicGlyph>, i: int) -> int
    decreases s.len() - i,
{
    if i + 1 >= s.len() {
        -1
    } else if !s[i + 1].spec_is_transparent() {
        i + 1
    } else {
        next_non_transparent(s, i + 1)
    }
}

/// The glyph at `i` joins to the one before it: both are non-transparent,
/// adjacent up to transparent glyphs, the earlier is left-joining and this
/// one right-joining.
pub open spec fn joins_with_previous(s: Seq<ArabicGlyph>, i: int) -> bool {
    let p = prev_non_transparent(s, i);
    &&& !s[i].spec_is_transparent()
    &&& p >= 0
    &&& s[p].spec_is_left_joining()
    &&& s[i].spec_is_right_joining()
}

/// The glyph at `i` joins to the one after it, in the same sense.
pub open spec fn joins_with_next(s: Seq<ArabicGlyph>, i: int) -> bool {
    let n = next_non_transparent(s, i);
    &&& !s[i].spec_is_transparent()
    &&& n >= 0
    &&& s[i].spec_is_left_joining()
    &&& s[n].spec_is_right_joining()
}

/// How a glyph's tag advances when the glyph turns out to join to its
/// successor: an isolated glyph becomes initial, a final one medial; any
/// other tag is left as it is.
pub open spec fn advance_feature_tag(t: u32) -> u32 {
    if t == tag::ISOL {
        tag::INIT
    } else if t == tag::FINA {
        tag::MEDI
    } else {
        t
    }
}

/// The feature tag the joining-state engine leaves on the glyph at `i`:
/// a transparent glyph is never touched; a glyph joining to its predecessor
/// is at least final; a glyph joining to its successor has its tag advanced.
pub open spec fn joined_feature_tag(s: Seq<ArabicGlyph>, i: int) -> u32 {
    let mid = if joins_with_previous(s, i) {
        tag::FINA
    } else {
        s[i].extra_data.feature_tag
    };
    if s[i].spec_is_transparent() {
        s[i].extra_data.feature_tag
    } else if joins_with_next(s, i) {
        advance_feature_tag(mid)
    } else {
        mid
    }
}

/// Every glyph of `s` is transparent.
pub open spec fn all_transparent(s: Seq<ArabicGlyph>) -> bool {
    forall|j: int| 0 <= j < s.len() ==> s[j].spec_is_transparent()
}

proof fn lemma_next_non_transparent_between(s: Seq<ArabicGlyph>, p: int, i: int)
    requires
        0 <= p < i < s.len(),
        !s[i].spec_is_transparent(),
        forall|j: int| p < j < i ==> s[j].spec_is_transparent(),
    ensures
        next_non_transparent(s, p) == i,
    decreases i - p,
{
    if p + 1 == i {
    } else {
        assert(s[p + 1].spec_is_transparent());
        lemma_next_non_transparent_between(s, p + 1, i);
    }
}

proof fn lemma_next_non_transparent_none(s: Seq<ArabicGlyph>, p: int)
    requires
        0 <= p < s.len(),
        forall|j: int| p < j < s.len() ==> s[j].spec_is_transparent(),
    ensures
        next_non_transparent(s, p) == -1,
    decreases s.len() - p,
{
    if p + 1 < s.len() {
        assert(s[p + 1].spec_is_transparent());
        lemma_next_non_transparent_none(s, p + 1);
    }
}

proof fn lemma_prev_non_transparent_none(s: Seq<ArabicGlyph>, i: int)
    requires
        forall|j: int| 0 <= j < i ==> s[j].spec_is_transparent(),
    ensures
        prev_non_transparent(s, i) == -1,
    decreases i,
{
    if i > 0 {
        assert(s[i - 1].spec_is_transparent());
        lemma_prev_non_transparent_none(s, i - 1);
    }
}

/// The joining-state engine: one left-to-right pass that assigns every
/// joining glyph the positional form its neighbours require, skipping
/// transparent glyphs without breaking adjacency. Only feature tags change;
/// every other field of every glyph is left exactly as it was.
#[verifier::loop_isolation(false)]
pub fn compute_joining_states(glyphs: &mut Vec<ArabicGlyph>)
    ensures
        final(glyphs)@.len() == old(glyphs)@.len(),
        forall|i: int| 0 <= i < old(glyphs)@.len()
            ==> final(glyphs)@[i] == with_feature_tag(
                old(glyphs)@[i],
                joined_feature_tag(old(glyphs)@, i),
            ),
{
    let ghost s = old(glyphs)@;
    let n = glyphs.len();

    let mut previous_i: usize = 0;
    while previous_i < n && glyphs[previous_i].is_transparent()
        invariant
            previous_i <= n,
            forall|j: int| 0 <= j < previous_i ==> s[j].spec_is_transparent(),
        decreases n - previous_i,
    {
        previous_i += 1;
    }
    if previous_i == n {
        previous_i = 0;
    }

    proof {
        if !all_transparent(s) {
            lemma_prev_non_transparent_none(s, previous_i as int);
        }
    }

    let mut i: usize = previous_i + 1;
    while i < n
        invariant
            previous_i < i,
            i <= n + 1,
            glyphs@.len() == n,
            if all_transparent(s) {
                glyphs@ == s && previous_i == 0
            } else {
                &&& i <= n
                &&& !s[previous_i as int].spec_is_transparent()
                &&& prev_non_transparent(s, i as int) == previous_i as int
                &&& forall|j: int| previous_i < j < i ==> s[j].spec_is_transparent()
                &&& glyphs@[previous_i as int] == with_feature_tag(
                    s[previous_i as int],
                    if joins_with_previous(s, previous_i as int) {
                        tag::FINA
                    } else {
                        s[previous_i as int].extra_data.feature_tag
                    },
                )
                &&& forall|j: int|
                    0 <= j < i && j != previous_i && !s[j].spec_is_transparent()
                        ==> glyphs@[j] == with_feature_tag(s[j], joined_feature_tag(s, j))
                &&& forall|j: int|
                    0 <= j < n && j != previous_i && (s[j].spec_is_transparent() || j >= i)
                        ==> glyphs@[j] == s[j]
            },
        decreases n - i,
    {
        if !glyphs[i].is_transparent() {
            assert(!all_transparent(s));
            proof {
                lemma_next_non_transparent_between(s, previous_i as int, i as int);
            }
            if glyphs[previous_i].is_left_joining() && glyphs[i].is_right_joining() {
                glyphs[i].set_feature_tag(tag::FINA);

                let previous_tag = glyphs[previous_i].feature_tag();
                if previous_tag == tag::ISOL {
                    glyphs[previous_i].set_feature_tag(tag::INIT);
                } else if previous_tag == tag::FINA {
                    glyphs[previous_i].set_feature_tag(tag::MEDI);
                }
            }
            previous_i = i;
        }
        i += 1;
    }

    proof {
        if !all_transparent(s) {
            lemma_next_non_transparent_none(s, previous_i as int);
            assert forall|k: int| 0 <= k < s.len()
                implies glyphs@[k] == with_feature_tag(s[k], joined_feature_tag(s, k)) by {
                if s[k].spec_is_transparent() && k != previous_i {
                    assert(glyphs@[k] == s[k]);
                    assert(with_feature_tag(s[k], joined_feature_tag(s, k)) == s[k]);
                }
            }
        } else {
            assert forall|k: int| 0 <= k < s.len()
                implies glyphs@[k] == with_feature_tag(s[k], joined_feature_tag(s, k)) by {
                assert(with_feature_tag(s[k], joined_feature_tag(s, k)) == s[k]);
            }
        }
    }
}

/// The language-form feature group, in its mandated order, each with
/// whether it applies globally or only to glyphs whose computed feature tag
/// is the lookup's own.
const LANGUAGE_FEATURES: [(FeatureMask, bool); 8] = [
    (FeatureMask::Locl, true),
    (FeatureMask::Isol, false),
    (FeatureMask::Fina, false),
    (FeatureMask::Medi, false),
    (FeatureMask::Init, false),
    (FeatureMask::Rlig, true),
    (FeatureMask::Rclt, true),
    (FeatureMask::Calt, true),
];

/// The typographic feature group, in its mandated order; both global.
/// `dlig` and `cswh` are deliberately excluded to match reference shapers.
const TYPOGRAPHIC_FEATURES: [(FeatureMask, bool); 2] = [
    (FeatureMask::Liga, true),
    (FeatureMask::Mset, true),
];

/// Applies each (lookup index, feature tag) pair of `lookups`, in order,
/// over the whole current sequence; a lookup may shrink or grow the
/// sequence, and later lookups of the list run on the result. The list's
/// ordering is the font's own and is never changed here. The sequence is
/// mutated only through the engine: an empty list succeeds and leaves it
/// exactly as it was. Any collaborator failure aborts.
fn apply_lookups<E: SubstitutionEngine>(
    lookups: &Vec<(usize, u32)>,
    engine: &mut E,
    arabic_glyphs: &mut Vec<ArabicGlyph>,
    is_global: bool,
) -> (r: Result<(), ParseError>)
    ensures
        lookups@.len() == 0 ==> r is Ok && final(arabic_glyphs)@ == old(arabic_glyphs)@,
{
    let mut k: usize = 0;
    while k < lookups.len()
        invariant
            lookups@.len() == 0 ==> arabic_glyphs@ == old(arabic_glyphs)@,
        decreases lookups@.len() - k,
    {
        let (lookup_index, feature_tag) = lookups[k];
        match engine.apply_lookup(lookup_index, feature_tag, is_global, arabic_glyphs) {
            Ok(()) => {},
            Err(e) => {
                return Err(e);
            },
        }
        k += 1;
    }
    Ok(())
}

/// Shapes one glyph sequence for the Arabic script with the given font
/// state, mutating `raw_glyphs` in place on success.
///
/// If the font's layout table has no record for `script_tag`, or has one but
/// offers no language system usable for `lang_tag`, the call is defined as a
/// no-op: it returns success with the sequence unchanged. Otherwise the
/// pipeline runs in the mandated order: compound composition (`ccmp`), the
/// joining-state engine, the language-form features (`locl` globally, then
/// `isol`/`fina`/`medi`/`init` gated on each glyph's computed positional
/// form, then `rlig`/`rclt`/`calt` globally), and the typographic features
/// (`liga`, `mset`) — `dlig` and `cswh` are deliberately excluded to match
/// reference shapers. A failure from any collaborator aborts the call with
/// that parse error and leaves `raw_glyphs` untouched, so no partially
/// shaped sequence is ever handed back.
#[verifier::loop_isolation(false)]
pub fn gsub_apply_arabic<E: SubstitutionEngine>(
    engine: &mut E,
    gsub_table: &LayoutTable,
    script_tag: u32,
    lang_tag: Option<u32>,
    raw_glyphs: &mut Vec<RawGlyph<()>>,
) -> (r: Result<(), ShapingError>)
    ensures
        !spec_shaping_applies(*gsub_table, script_tag, lang_tag)
            ==> r is Ok && final(raw_glyphs)@ == old(raw_glyphs)@,
        r is Err ==> final(raw_glyphs)@ == old(raw_glyphs)@,
{
    match gsub_table.find_script(script_tag) {
        Some(script) => {
            if !script.find_langsys_or_default(lang_tag) {
                return Ok(());
            }
        },
        None => {
            return Ok(());
        },
    }

    let mut arabic_glyphs: Vec<ArabicGlyph> = Vec::new();
    let mut k: usize = 0;
    while k < raw_glyphs.len()
        invariant
            k <= raw_glyphs@.len(),
            arabic_glyphs@.len() == k,
            forall|j: int|
                0 <= j < k ==> converts_to_arabic(raw_glyphs@[j], arabic_glyphs@[j]),
        decreases raw_glyphs@.len() - k,
    {
        arabic_glyphs.push(ArabicGlyph::from(&raw_glyphs[k]));
        k += 1;
    }

    // Compound character composition and decomposition.
    let ccmp_lookups = match engine.lookups_for_feature(script_tag, lang_tag, FeatureMask::Ccmp) {
        Ok(lookups) => lookups,
        Err(e) => {
            return Err(ShapingError::Parse(e));
        },
    };
    if let Err(e) = apply_lookups(&ccmp_lookups, engine, &mut arabic_glyphs, true) {
        return Err(ShapingError::Parse(e));
    }

    // Computing letter joining states. This must run after composition,
    // which can change which glyphs exist and hence which are adjacent, and
    // before any positional-form lookup consults the tags it assigns.
    compute_joining_states(&mut arabic_glyphs);

    // The stretching (tatweel-insertion) feature would run here. It is
    // deliberately absent, pending a generalised treatment, to match the
    // behaviour of reference shapers.

    // The language-form substitution features, in the mandated order: the
    // positional-form features apply only to glyphs whose computed tag is
    // the lookup's own; the rest apply globally.
    let mut f: usize = 0;
    while f < 8
        invariant
            f <= 8,
        decreases 8 - f,
    {
        let (feature_mask, is_global) = LANGUAGE_FEATURES[f];
        let lookups = match engine.lookups_for_feature(script_tag, lang_tag, feature_mask) {
            Ok(lookups) => lookups,
            Err(e) => {
                return Err(ShapingError::Parse(e));
            },
        };
        if let Err(e) = apply_lookups(&lookups, engine, &mut arabic_glyphs, is_global) {
            return Err(ShapingError::Parse(e));
        }
        f += 1;
    }

    // The typographic-form substitution features, in order.
    let mut t: usize = 0;
    while t < 2
        invariant
            t <= 2,
        decreases 2 - t,
    {
        let (feature_mask, is_global) = TYPOGRAPHIC_FEATURES[t];
        let lookups = match engine.lookups_for_feature(script_tag, lang_tag, feature_mask) {
            Ok(lookups) => lookups,
            Err(e) => {
                return Err(ShapingError::Parse(e));
            },
        };
        if let Err(e) = apply_lookups(&lookups, engine, &mut arabic_glyphs, is_global) {
            return Err(ShapingError::Parse(e));
        }
        t += 1;
    }

    // Mark reordering would run here. It is deliberately absent, since
    // running it would make results differ from reference shapers.

    let mut shaped: Vec<RawGlyph<()>> = Vec::new();
    let mut m: usize = 0;
    while m < arabic_glyphs.len()
        invariant
            m <= arabic_glyphs@.len(),
            shaped@.len() == m,
            forall|j: int| 0 <= j < m ==> strips_to_raw(arabic_glyphs@[j], shaped@[j]),
        decreases arabic_glyphs@.len() - m,
    {
        shaped.push(RawGlyph::<()>::from(&arabic_glyphs[m]));
        m += 1;
    }
    *raw_glyphs = shaped;

    Ok(())
}

/// Law: a transparent glyph between two dual-joining glyphs neither breaks
/// nor takes part in their join: the engine makes the earlier glyph initial
/// and the later final, and leaves the transparent glyph's tag untouched.
pub proof fn lemma_transparency_preserves_adjacency(s: Seq<ArabicGlyph>)
    requires
        s.len() == 3,
        s[0].extra_data.joining_type == JoiningType::DualJoining,
        !s[0].multi_subst_dup,
        s[1].spec_is_transparent(),
        s[2].extra_data.joining_type == JoiningType::DualJoining,
        !s[2].multi_subst_dup,
        s[0].extra_data.feature_tag == tag::ISOL,
        s[2].extra_data.feature_tag == tag::ISOL,
    ensures
        joined_feature_tag(s, 0) == tag::INIT,
        joined_feature_tag(s, 1) == s[1].extra_data.feature_tag,
        joined_feature_tag(s, 2) == tag::FINA,
{
    assert(next_non_transparent(s, 1) == 2);
    assert(next_non_transparent(s, 0) == 2);
    assert(prev_non_transparent(s, 1) == 0);
    assert(prev_non_transparent(s, 2) == 0);
}

/// Law: two adjacent glyphs that only join rightward never join to each
/// other — the earlier one is not left-joining, so no transition fires and
/// both keep their `isol` default.
pub proof fn lemma_no_join_when_previous_not_left_joining(s: Seq<ArabicGlyph>)
    requires
        s.len() == 2,
        s[0].extra_data.joining_type == JoiningType::RightJoining,
        !s[0].multi_subst_dup,
        s[1].extra_data.joining_type == JoiningType::RightJoining,
        !s[1].multi_subst_dup,
        s[0].extra_data.feature_tag == tag::ISOL,
        s[1].extra_data.feature_tag == tag::ISOL,
    ensures
        joined_feature_tag(s, 0) == tag::ISOL,
        joined_feature_tag(s, 1) == tag::ISOL,
{
    assert(prev_non_transparent(s, 1) == 0);
    assert(next_non_transparent(s, 0) == 1);
}

/// Law: the engine never changes a one-glyph sequence, whatever its joining
/// type or current tag: there is no neighbour to join with.
pub proof fn lemma_single_glyph_stable(s: Seq<ArabicGlyph>)
    requires
        s.len() == 1,
    ensures
        joined_feature_tag(s, 0) == s[0].extra_data.feature_tag,
{
    assert(prev_non_transparent(s, 0) == -1);
    assert(next_non_transparent(s, 0) == -1);
}

/// Law: three adjacent dual-joining glyphs form one run: initial, medial,
/// final.
pub proof fn lemma_three_in_a_row_progression(s: Seq<ArabicGlyph>)
    requires
        s.len() == 3,
        forall|j: int| 0 <= j < 3 ==> s[j].extra_data.joining_type == JoiningType::DualJoining,
        forall|j: int| 0 <= j < 3 ==> !s[j].multi_subst_dup,
        forall|j: int| 0 <= j < 3 ==> s[j].extra_data.feature_tag == tag::ISOL,
    ensures
        joined_feature_tag(s, 0) == tag::INIT,
        joined_feature_tag(s, 1) == tag::MEDI,
        joined_feature_tag(s, 2) == tag::FINA,
{
    assert(prev_non_transparent(s, 1) == 0);
    assert(prev_non_transparent(s, 2) == 1);
    assert(next_non_transparent(s, 0) == 1);
    assert(next_non_transparent(s, 1) == 2);
}

/// Law: converting a generic glyph to a script glyph and back, without any
/// pipeline phase in between, reproduces every generic field exactly; only
/// the extension fields are dropped.
pub proof fn lemma_conversion_round_trip(
    raw: RawGlyph<()>,
    arabic: ArabicGlyph,
    back: RawGlyph<()>,
)
    requires
        converts_to_arabic(raw, arabic),
        strips_to_raw(arabic, back),
    ensures
        back.unicodes@ == raw.unicodes@,
        back.glyph_index == raw.glyph_index,
        back.liga_component_pos == raw.liga_component_pos,
        back.glyph_origin == raw.glyph_origin,
        back.small_caps == raw.small_caps,
        back.multi_subst_dup == raw.multi_subst_dup,
        back.is_vert_alt == raw.is_vert_alt,
        back.fake_bold == raw.fake_bold,
        back.fake_italic == raw.fake_italic,
        back.variation == raw.variation,
{
}

/// Law: for a glyph still carrying its `isol` default, the engine's result
/// is exactly the positional form its neighbours dictate — medial when it
/// joins on both sides, final when it joins only to its predecessor,
/// initial when it joins only to its successor, isolated otherwise — and a
/// transparent glyph is never touched. So a tag only ever advances through
/// the defined progression; it is never reset.
pub proof fn lemma_positional_form_table(s: Seq<ArabicGlyph>, i: int)
    requires
        0 <= i < s.len(),
        s[i].extra_data.feature_tag == tag::ISOL,
    ensures
        s[i].spec_is_transparent() ==> joined_feature_tag(s, i) == tag::ISOL,
        !s[i].spec_is_transparent() ==> joined_feature_tag(s, i) == (
            if joins_with_previous(s, i) && joins_with_next(s, i) {
                tag::MEDI
            } else if joins_with_previous(s, i) {
                tag::FINA
            } else if joins_with_next(s, i) {
                tag::INIT
            } else {
                tag::ISOL
            }
        ),
{
}

} // verus!
