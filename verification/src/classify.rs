//! Classification of source characters: the Unicode joining-type property
//! (looked up through an outside crate) and the canonical combining class of
//! the combining marks relevant to the script (a fixed table).

use vstd::prelude::*;

verus! {

/// The Unicode joining-type property of a character: its ability to join
/// visually with its neighbours.
#[derive(Clone, Copy, PartialEq, Eq, Structural, Debug)]
pub enum JoiningType {
    NonJoining,
    RightJoining,
    LeftJoining,
    DualJoining,
    JoinCausing,
    Transparent,
}

/// The Unicode joining-type property of `c`. The full property table is
/// Unicode data; it is a function of the character alone, so it is left
/// uninterpreted and pinned only by `get_joining_type` below.
pub uninterp spec fn joining_type_of(c: char) -> JoiningType;

/// Relies on `unicode_joining_type::get_joining_type`: the Unicode
/// joining-type property, a pure, total function of the character alone.
/// The body only renames that crate's variants into this crate's enum.
#[verifier::external_body]
pub(crate) fn get_joining_type(c: char) -> (r: JoiningType)
    ensures
        r == joining_type_of(c),
{
    match unicode_joining_type::get_joining_type(c) {
        unicode_joining_type::JoiningType::NonJoining => JoiningType::NonJoining,
        unicode_joining_type::JoiningType::RightJoining => JoiningType::RightJoining,
        unicode_joining_type::JoiningType::LeftJoining => JoiningType::LeftJoining,
        unicode_joining_type::JoiningType::DualJoining => JoiningType::DualJoining,
        unicode_joining_type::JoiningType::JoinCausing => JoiningType::JoinCausing,
        unicode_joining_type::JoiningType::Transparent => JoiningType::Transparent,
        _ => JoiningType::NonJoining,
    }
}

/// The canonical combining class of `ch`: the fixed table over the script's
/// combining marks, 0 for every other character.
pub open spec fn spec_canonical_combining_class(ch: char) -> u8 {
    match ch {
        '\u{064B}' => 27,  // Fathatan
        '\u{08F0}' => 27,  // Open Fathatan
        '\u{064C}' => 28,  // Dammatan
        '\u{08F1}' => 28,  // Open Dammatan
        '\u{064D}' => 29,  // Kasratan
        '\u{08F2}' => 29,  // Open Kasratan
        '\u{0618}' => 30,  // Small Fatha
        '\u{064E}' => 30,  // Fatha
        '\u{0619}' => 31,  // Small Damma
        '\u{064F}' => 31,  // Damma
        '\u{061A}' => 32,  // Small Kasra
        '\u{0650}' => 32,  // Kasra
        '\u{0651}' => 33,  // Shadda
        '\u{0652}' => 34,  // Sukun
        '\u{0670}' => 35,  // Letter Superscript Alef
        '\u{0655}' => 220,  // Hamza Below
        '\u{0656}' => 220,  // Subscript Alef
        '\u{065C}' => 220,  // Vowel Sign Dot Below
        '\u{065F}' => 220,  // Wavy Hamza Below
        '\u{06E3}' => 220,  // Small Low Seen
        '\u{06EA}' => 220,  // Empty Centre Low Stop
        '\u{06ED}' => 220,  // Small Low Meem
        '\u{08D3}' => 220,  // Small Low Waw
        '\u{08E3}' => 220,  // Turned Damma Below
        '\u{08E6}' => 220,  // Curly Kasra
        '\u{08E9}' => 220,  // Curly Kasratan
        '\u{08ED}' => 220,  // Tone One Dot Below
        '\u{08EE}' => 220,  // Tone Two Dots Below
        '\u{08EF}' => 220,  // Tone Loop Below
        '\u{08F6}' => 220,  // Kasra With Dot Below
        '\u{08F9}' => 220,  // Left Arrowhead Below
        '\u{08FA}' => 220,  // Right Arrowhead Below
        '\u{0610}' => 230,  // Sign Sallallahou Alayhe Wassallam
        '\u{0611}' => 230,  // Sign Alayhe Assallam
        '\u{0612}' => 230,  // Sign Rahmatullah Alayhe
        '\u{0613}' => 230,  // Sign Radi Allahou Anhu
        '\u{0614}' => 230,  // Sign Takhallus
        '\u{0615}' => 230,  // Small High Tah
        '\u{0616}' => 230,  // Small High Ligature Alef With Lam With Yeh
        '\u{0617}' => 230,  // Small High Zain
        '\u{0653}' => 230,  // Maddah Above
        '\u{0654}' => 230,  // Hamza Above
        '\u{0657}' => 230,  // Inverted Damma
        '\u{0658}' => 230,  // Mark Noon Ghunna
        '\u{0659}' => 230,  // Zwarakay
        '\u{065A}' => 230,  // Vowel Sign Small V Above
        '\u{065B}' => 230,  // Vowel Sign Inverted Small V Above
        '\u{065D}' => 230,  // Reversed Damma
        '\u{065E}' => 230,  // Fatha With Two Dots
        '\u{06D6}' => 230,  // Small High Ligature Sad With Lam With Alef Maksura
        '\u{06D7}' => 230,  // Small High Ligature Qaf With Lam With Alef Maksura
        '\u{06D8}' => 230,  // Small High Meem Initial Form
        '\u{06D9}' => 230,  // Small High Lam Alef
        '\u{06DA}' => 230,  // Small High Jeem
        '\u{06DB}' => 230,  // Small High Three Dots
        '\u{06DC}' => 230,  // Small High Seen
        '\u{06DF}' => 230,  // Small High Rounded Zero
        '\u{06E0}' => 230,  // Small High Upright Rectangular Zero
        '\u{06E1}' => 230,  // Small High Dotless Head Of Khah
        '\u{06E2}' => 230,  // Small High Meem Isolated Form
        '\u{06E4}' => 230,  // Small High Madda
        '\u{06E7}' => 230,  // Small High Yeh
        '\u{06E8}' => 230,  // Small High Noon
        '\u{06EB}' => 230,  // Empty Centre High Stop
        '\u{06EC}' => 230,  // Rounded High Stop With Filled Centre
        '\u{08D4}' => 230,  // Small High Word Ar-Rub
        '\u{08D5}' => 230,  // Small High Sad
        '\u{08D6}' => 230,  // Small High Ain
        '\u{08D7}' => 230,  // Small High Qaf
        '\u{08D8}' => 230,  // Small High Noon With Kasra
        '\u{08D9}' => 230,  // Small Low Noon With Kasra
        '\u{08DA}' => 230,  // Small High Word Ath-Thalatha
        '\u{08DB}' => 230,  // Small High Word As-Sajda
        '\u{08DC}' => 230,  // Small High Word An-Nisf
        '\u{08DD}' => 230,  // Small High Word Sakta
        '\u{08DE}' => 230,  // Small High Word Qif
        '\u{08DF}' => 230,  // Small High Word Waqfa
        '\u{08E0}' => 230,  // Small High Footnote Marker
        '\u{08E1}' => 230,  // Small High Sign Safha
        '\u{08E4}' => 230,  // Curly Fatha
        '\u{08E5}' => 230,  // Curly Damma
        '\u{08E7}' => 230,  // Curly Fathatan
        '\u{08E8}' => 230,  // Curly Dammatan
        '\u{08EA}' => 230,  // Tone One Dot Above
        '\u{08EB}' => 230,  // Tone Two Dots Above
        '\u{08EC}' => 230,  // Tone Loop Above
        '\u{08F3}' => 230,  // Small High Waw
        '\u{08F4}' => 230,  // Fatha With Ring
        '\u{08F5}' => 230,  // Fatha With Dot Above
        '\u{08F7}' => 230,  // Left Arrowhead Above
        '\u{08F8}' => 230,  // Right Arrowhead Above
        '\u{08FB}' => 230,  // Double Right Arrowhead Above
        '\u{08FC}' => 230,  // Double Right Arrowhead Above With Dot
        '\u{08FD}' => 230,  // Right Arrowhead Above With Dot
        '\u{08FE}' => 230,  // Damma With Dot
        '\u{08FF}' => 230,  // Mark Sideways Noon Ghunna
        _ => 0,
    }
}

/// The canonical combining class used to order the script's combining marks:
/// a fixed table over the marks the script cares about, with 0 for any
/// character not in the table.
pub fn canonical_combining_class(ch: char) -> (r: u8)
    ensures
        r == spec_canonical_combining_class(ch),
{
    match ch {
        '\u{064B}' => 27,
        '\u{08F0}' => 27,
        '\u{064C}' => 28,
        '\u{08F1}' => 28,
        '\u{064D}' => 29,
        '\u{08F2}' => 29,
        '\u{0618}' => 30,
        '\u{064E}' => 30,
        '\u{0619}' => 31,
        '\u{064F}' => 31,
        '\u{061A}' => 32,
        '\u{0650}' => 32,
        '\u{0651}' => 33,
        '\u{0652}' => 34,
        '\u{0670}' => 35,
        '\u{0655}' => 220,
        '\u{0656}' => 220,
        '\u{065C}' => 220,
        '\u{065F}' => 220,
        '\u{06E3}' => 220,
        '\u{06EA}' => 220,
        '\u{06ED}' => 220,
        '\u{08D3}' => 220,
        '\u{08E3}' => 220,
        '\u{08E6}' => 220,
        '\u{08E9}' => 220,
        '\u{08ED}' => 220,
        '\u{08EE}' => 220,
        '\u{08EF}' => 220,
        '\u{08F6}' => 220,
        '\u{08F9}' => 220,
        '\u{08FA}' => 220,
        '\u{0610}' => 230,
        '\u{0611}' => 230,
        '\u{0612}' => 230,
        '\u{0613}' => 230,
        '\u{0614}' => 230,
        '\u{0615}' => 230,
        '\u{0616}' => 230,
        '\u{0617}' => 230,
        '\u{0653}' => 230,
        '\u{0654}' => 230,
        '\u{0657}' => 230,
        '\u{0658}' => 230,
        '\u{0659}' => 230,
        '\u{065A}' => 230,
        '\u{065B}' => 230,
        '\u{065D}' => 230,
        '\u{065E}' => 230,
        '\u{06D6}' => 230,
        '\u{06D7}' => 230,
        '\u{06D8}' => 230,
        '\u{06D9}' => 230,
        '\u{06DA}' => 230,
        '\u{06DB}' => 230,
        '\u{06DC}' => 230,
        '\u{06DF}' => 230,
        '\u{06E0}' => 230,
        '\u{06E1}' => 230,
        '\u{06E2}' => 230,
        '\u{06E4}' => 230,
        '\u{06E7}' => 230,
        '\u{06E8}' => 230,
        '\u{06EB}' => 230,
        '\u{06EC}' => 230,
        '\u{08D4}' => 230,
        '\u{08D5}' => 230,
        '\u{08D6}' => 230,
        '\u{08D7}' => 230,
        '\u{08D8}' => 230,
        '\u{08D9}' => 230,
        '\u{08DA}' => 230,
        '\u{08DB}' => 230,
        '\u{08DC}' => 230,
        '\u{08DD}' => 230,
        '\u{08DE}' => 230,
        '\u{08DF}' => 230,
        '\u{08E0}' => 230,
        '\u{08E1}' => 230,
        '\u{08E4}' => 230,
        '\u{08E5}' => 230,
        '\u{08E7}' => 230,
        '\u{08E8}' => 230,
        '\u{08EA}' => 230,
        '\u{08EB}' => 230,
        '\u{08EC}' => 230,
        '\u{08F3}' => 230,
        '\u{08F4}' => 230,
        '\u{08F5}' => 230,
        '\u{08F7}' => 230,
        '\u{08F8}' => 230,
        '\u{08FB}' => 230,
        '\u{08FC}' => 230,
        '\u{08FD}' => 230,
        '\u{08FE}' => 230,
        '\u{08FF}' => 230,
        _ => 0,
    }
}

} // verus!
