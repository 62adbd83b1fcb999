//! The plugin under construction: its base name, its file name and the name
//! of the archive that goes with it.

use crate::text::{ascii_lowered, ends_with_ignoring_case, is_suffix};
use vstd::prelude::*;
use vstd::string::*;

verus! {

/// Whether `name` ends in one of the plugin extensions, in any letter case.
pub open spec fn has_plugin_extension(name: Seq<char>) -> bool {
    ||| is_suffix(ascii_lowered(name), ".esp"@)
    ||| is_suffix(ascii_lowered(name), ".esm"@)
    ||| is_suffix(ascii_lowered(name), ".esl"@)
}

/// The plugin's name without its extension.
pub open spec fn base_name_of(input: Seq<char>) -> Seq<char> {
    if has_plugin_extension(input) {
        input.subrange(0, input.len() - 4)
    } else {
        input
    }
}

/// The plugin's file name: the input itself where it carries a plugin
/// extension, else the input with `.esp` behind it.
pub open spec fn file_name_of(input: Seq<char>) -> Seq<char> {
    if has_plugin_extension(input) {
        input
    } else {
        input + ".esp"@
    }
}

/// The name of the archive that goes with a plugin of the given base name.
pub open spec fn archive_name_of(base: Seq<char>) -> Seq<char> {
    base + " - Main.ba2"@
}

/// The names under which one plugin is known.
#[derive(Debug, Clone)]
pub struct PluginIdentity {
    /// The plugin's name without extension.
    pub base_name: String,
    /// The plugin's file name.
    pub file_name: String,
    /// The file name of the plugin's archive.
    pub archive_name: String,
}

impl PluginIdentity {
    /// The three names belong together: the file name is the base name with a
    /// plugin extension behind it, or both are empty, and the archive is named
    /// after the base name.
    pub open spec fn well_formed(&self) -> bool {
        &&& self.archive_name@ == archive_name_of(self.base_name@)
        &&& {
            ||| self.base_name@.len() == 0 && self.file_name@.len() == 0
            ||| {
                &&& has_plugin_extension(self.file_name@)
                &&& self.base_name@ == self.file_name@.subrange(0, self.file_name@.len() - 4)
            }
        }
    }

    /// Whether no plugin has been named yet.
    pub open spec fn unnamed(&self) -> bool {
        self.base_name@.len() == 0
    }

    /// The identity of the plugin that `input` names.
    pub fn derive(input: &str) -> (r: PluginIdentity)
        ensures
            r.base_name@ == base_name_of(input@),
            r.file_name@ == file_name_of(input@),
            r.archive_name@ == archive_name_of(base_name_of(input@)),
            r.well_formed(),
    {
        proof {
            reveal_strlit(".esp");
            reveal_strlit(".esm");
            reveal_strlit(".esl");
        }
        let recognized = ends_with_ignoring_case(input, ".esp") || ends_with_ignoring_case(
            input,
            ".esm",
        ) || ends_with_ignoring_case(input, ".esl");
        let mut file_name = String::from_str(input);
        let base: &str = if recognized {
            let n = input.unicode_len();
            input.substring_char(0, n - 4)
        } else {
            file_name.append(".esp");
            proof {
                lemma_extension_kept(input@);
            }
            input
        };
        let mut archive_name = String::from_str(base);
        archive_name.append(" - Main.ba2");
        PluginIdentity { base_name: String::from_str(base), file_name, archive_name }
    }

    /// The identity that stands for "no plugin named yet": an empty base name
    /// and an empty file name.
    pub fn unset() -> (r: PluginIdentity)
        ensures
            r.base_name@.len() == 0,
            r.file_name@.len() == 0,
            r.archive_name@ == archive_name_of(Seq::<char>::empty()),
            r.well_formed(),
    {
        let mut archive_name = String::new();
        archive_name.append(" - Main.ba2");
        PluginIdentity { base_name: String::new(), file_name: String::new(), archive_name }
    }

    /// Whether no plugin has been named yet.
    pub fn is_unnamed(&self) -> (r: bool)
        ensures
            r == self.unnamed(),
    {
        self.base_name.as_str().unicode_len() == 0
    }
}

/// A name with `.esp` put behind it carries a plugin extension, and the name is
/// what stands before that extension.
pub proof fn lemma_extension_kept(input: Seq<char>)
    ensures
        has_plugin_extension(input + ".esp"@),
        (input + ".esp"@).subrange(0, (input + ".esp"@).len() - 4) == input,
{
    reveal_strlit(".esp");
    let whole = input + ".esp"@;
    let folded = ascii_lowered(whole);
    assert(folded.subrange(folded.len() - 4, folded.len() as int) =~= ".esp"@);
    assert(whole.subrange(0, whole.len() - 4) =~= input);
}

} // verus!
