//! A plain-data model of the part of a font's layout table that shaping
//! reads: which scripts are present, and which language systems each script
//! offers. The binary font parser fills such a value in; shaping only asks
//! whether a (script, language) pair is usable.

use vstd::prelude::*;

verus! {

/// One script record of the layout table: its tag, the language-system tags
/// it lists, and whether it carries a default language system.
#[derive(Clone, PartialEq, Debug)]
pub struct ScriptTable {
    pub script_tag: u32,
    pub langsys_tags: Vec<u32>,
    pub has_default_langsys: bool,
}

/// The layout table: the script records, in font order.
#[derive(Clone, PartialEq, Debug)]
pub struct LayoutTable {
    pub scripts: Vec<ScriptTable>,
}

impl ScriptTable {
    /// A language system is usable for `lang_tag` iff the script lists that
    /// exact tag, or (also when no tag is requested) offers a default.
    pub open spec fn spec_supports_langsys(self, lang_tag: Option<u32>) -> bool {
        match lang_tag {
            Some(t) => self.langsys_tags@.contains(t) || self.has_default_langsys,
            None => self.has_default_langsys,
        }
    }

    /// Whether a usable language system exists for `lang_tag`: the exact
    /// match if the script lists it, else the script's default if present.
    pub fn find_langsys_or_default(&self, lang_tag: Option<u32>) -> (r: bool)
        ensures
            r == self.spec_supports_langsys(lang_tag),
    {
        match lang_tag {
            Some(t) => {
                let mut i: usize = 0;
                while i < self.langsys_tags.len()
                    invariant
                        lang_tag == Some(t),
                        i <= self.langsys_tags@.len(),
                        forall|j: int| 0 <= j < i ==> self.langsys_tags@[j] != t,
                    decreases self.langsys_tags@.len() - i,
                {
                    if self.langsys_tags[i] == t {
                        proof {
                            assert(self.langsys_tags@.contains(t)) by {
                                assert(0 <= i < self.langsys_tags@.len());
                                assert(self.langsys_tags@[i as int] == t);
                            }
                        }
                        return true;
                    }
                    i += 1;
                }
                assert(!self.langsys_tags@.contains(t));
                self.has_default_langsys
            },
            None => self.has_default_langsys,
        }
    }
}

/// The first script record with tag `tag` at index `i` or later, if any.
pub open spec fn spec_find_script_from(s: Seq<ScriptTable>, tag: u32, i: int) -> Option<ScriptTable>
    decreases s.len() - i,
{
    if i < 0 || i >= s.len() {
        None
    } else if s[i].script_tag == tag {
        Some(s[i])
    } else {
        spec_find_script_from(s, tag, i + 1)
    }
}

impl LayoutTable {
    /// The first script record carrying `script_tag`, if the font has one.
    pub open spec fn spec_find_script(self, script_tag: u32) -> Option<ScriptTable> {
        spec_find_script_from(self.scripts@, script_tag, 0)
    }

    /// Looks the script up in the layout table.
    pub fn find_script(&self, script_tag: u32) -> (r: Option<&ScriptTable>)
        ensures
            match r {
                Some(s) => self.spec_find_script(script_tag) == Some(*s),
                None => self.spec_find_script(script_tag) is None,
            },
    {
        let mut i: usize = 0;
        while i < self.scripts.len()
            invariant
                i <= self.scripts@.len(),
                spec_find_script_from(self.scripts@, script_tag, 0)
                    == spec_find_script_from(self.scripts@, script_tag, i as int),
            decreases self.scripts@.len() - i,
        {
            if self.scripts[i].script_tag == script_tag {
                return Some(&self.scripts[i]);
            }
            i += 1;
        }
        None
    }
}

/// Shaping does work for (table, script, language) iff the script is present
/// and offers a usable language system for the request; otherwise the whole
/// shaping call is defined as a no-op.
pub open spec fn spec_shaping_applies(
    table: LayoutTable,
    script_tag: u32,
    lang_tag: Option<u32>,
) -> bool {
    match table.spec_find_script(script_tag) {
        Some(s) => s.spec_supports_langsys(lang_tag),
        None => false,
    }
}

} // verus!
