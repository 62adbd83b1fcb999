//! Where the tools are: the editor, the game, and the second archiver. The
//! paths are chosen from what was named on the command line and what a look
//! at the working directory and the registry found.

use crate::error::{bare, quoting, BuildError, ErrorView, Failure};
use crate::facts::PathFact;
use crate::location::{locate_tool, Location};
use crate::protocol::Artifact;
use crate::text::chars_of;
use vstd::prelude::*;
use vstd::string::*;

verus! {

/// What a look at the working directory and the registry found.
#[derive(Debug, Clone)]
pub struct Discovery {
    /// Why the working directory could not be told, if it could not.
    pub working_directory_error: Option<String>,
    /// The places in the working directory at which the editor is looked for,
    /// in the order of [`editor_names`].
    pub editor_candidates: Vec<PathFact>,
    /// The editor's path as the registry holds it.
    pub editor_registered: Option<String>,
    /// The game's directory as the registry holds it.
    pub game_registered: Option<String>,
    /// The places at which BSArch is looked for, in the order of
    /// [`bsarch_places`].
    pub bsarch_candidates: Vec<PathFact>,
}

/// The paths of the tools.
#[derive(Debug, Clone)]
pub struct Paths {
    /// The editor's executable.
    pub fo4edit: String,
    /// The game's installation directory.
    pub fallout4: String,
    /// The content tool, below the game's directory.
    pub creation_kit: Location,
    /// Archive2, below the game's directory.
    pub archive2: Location,
    /// BSArch, where it is to be used and was found.
    pub bsarch: Option<String>,
}

/// `s` without its double quotes.
pub open spec fn without_quotes(s: Seq<char>) -> Seq<char>
    decreases s.len(),
{
    if s.len() == 0 {
        Seq::empty()
    } else if s.last() == '"' {
        without_quotes(s.drop_last())
    } else {
        without_quotes(s.drop_last()).push(s.last())
    }
}

/// The first of `candidates` that is there.
pub open spec fn first_present(candidates: Seq<PathFact>) -> Option<PathFact>
    decreases candidates.len(),
{
    if candidates.len() == 0 {
        None
    } else if candidates[0].present {
        Some(candidates[0])
    } else {
        first_present(candidates.drop_first())
    }
}

/// The editor's path: the one that was named; else the first place in the
/// working directory at which an editor lies; else the registered one,
/// without its quotes.
pub open spec fn editor_choice(named: Option<String>, found: Discovery) -> Result<
    Seq<char>,
    ErrorView,
> {
    match named {
        Some(path) => Ok(path@),
        None => match found.working_directory_error {
            Some(why) => Err(quoting(Failure::WorkingDirectoryUnknown, why@)),
            None => match first_present(found.editor_candidates@) {
                Some(place) => Ok(place.shown@),
                None => match found.editor_registered {
                    Some(value) => Ok(without_quotes(value@)),
                    None => Err(bare(Failure::EditorNotFound)),
                },
            },
        },
    }
}

/// The game's directory: the one that was named, else the registered one.
pub open spec fn game_choice(named: Option<String>, found: Discovery) -> Result<
    Seq<char>,
    ErrorView,
> {
    match named {
        Some(path) => Ok(path@),
        None => match found.game_registered {
            Some(path) => Ok(path@),
            None => Err(bare(Failure::GameNotFound)),
        },
    }
}

/// BSArch's path, where BSArch is to be used: the one that was named, else
/// the first place at which it lies.
pub open spec fn bsarch_choice(use_bsarch: bool, named: Option<String>, found: Discovery)
    -> Option<Seq<char>> {
    if !use_bsarch {
        None
    } else {
        match named {
            Some(path) => Some(path@),
            None => match first_present(found.bsarch_candidates@) {
                Some(place) => Some(place.shown@),
                None => None,
            },
        }
    }
}

/// The names under which the editor is looked for in the working directory.
pub fn editor_names() -> (r: Vec<String>)
    ensures
        r.deep_view() == seq!["FO4Edit64.exe"@, "xEdit64.exe"@, "FO4Edit.exe"@, "xEdit.exe"@],
{
    let mut out: Vec<String> = Vec::new();
    out.push(String::from_str("FO4Edit64.exe"));
    out.push(String::from_str("xEdit64.exe"));
    out.push(String::from_str("FO4Edit.exe"));
    out.push(String::from_str("xEdit.exe"));
    assert(out.deep_view() =~= seq![
        "FO4Edit64.exe"@,
        "xEdit64.exe"@,
        "FO4Edit.exe"@,
        "xEdit.exe"@,
    ]);
    out
}

/// The places, below the working directory, at which BSArch is looked for:
/// each a path of names.
pub fn bsarch_places() -> (r: Vec<Vec<String>>)
    ensures
        r.deep_view() == seq![
            seq!["tools"@, "BSArch"@, "bsarch.exe"@],
            seq!["BSArch"@, "bsarch.exe"@],
            seq!["bsarch.exe"@],
        ],
{
    let mut first: Vec<String> = Vec::new();
    first.push(String::from_str("tools"));
    first.push(String::from_str("BSArch"));
    first.push(String::from_str("bsarch.exe"));
    assert(first.deep_view() =~= seq!["tools"@, "BSArch"@, "bsarch.exe"@]);
    let mut second: Vec<String> = Vec::new();
    second.push(String::from_str("BSArch"));
    second.push(String::from_str("bsarch.exe"));
    assert(second.deep_view() =~= seq!["BSArch"@, "bsarch.exe"@]);
    let mut third: Vec<String> = Vec::new();
    third.push(String::from_str("bsarch.exe"));
    assert(third.deep_view() =~= seq!["bsarch.exe"@]);
    let mut out: Vec<Vec<String>> = Vec::new();
    out.push(first);
    out.push(second);
    out.push(third);
    assert(out.deep_view() =~= seq![
        seq!["tools"@, "BSArch"@, "bsarch.exe"@],
        seq!["BSArch"@, "bsarch.exe"@],
        seq!["bsarch.exe"@],
    ]);
    out
}

/// `value` without its double quotes.
pub fn unquote(value: &str) -> (r: String)
    ensures
        r@ == without_quotes(value@),
{
    let c = chars_of(value);
    let mut out = String::new();
    let mut i: usize = 0;
    assert(c@.subrange(0, 0) =~= Seq::<char>::empty());
    while i < c.len()
        invariant
            c@ == value@,
            i <= c.len(),
            out@ == without_quotes(c@.subrange(0, i as int)),
        decreases c.len() - i,
    {
        let ghost seen = c@.subrange(0, i + 1);
        assert(seen.drop_last() =~= c@.subrange(0, i as int));
        assert(seen.last() == c@[i as int]);
        if c[i] != '"' {
            let piece = value.substring_char(i, i + 1);
            assert(piece@ =~= seq![c@[i as int]]);
            out.append(piece);
            assert(out@ =~= without_quotes(seen));
        }
        i += 1;
    }
    assert(c@.subrange(0, i as int) =~= c@);
    out
}

/// The first of `candidates` that is there.
pub fn choose_first_present(candidates: &Vec<PathFact>) -> (r: Option<&PathFact>)
    ensures
        r matches Some(place) ==> first_present(candidates@) == Some(*place),
        r is None ==> first_present(candidates@) is None,
{
    let mut i: usize = 0;
    assert(candidates@.subrange(0, candidates@.len() as int) =~= candidates@);
    while i < candidates.len()
        invariant
            i <= candidates.len(),
            first_present(candidates@) == first_present(
                candidates@.subrange(i as int, candidates@.len() as int),
            ),
        decreases candidates.len() - i,
    {
        let ghost rest = candidates@.subrange(i as int, candidates@.len() as int);
        assert(rest[0] == candidates@[i as int]);
        assert(rest.drop_first() =~= candidates@.subrange(i + 1, candidates@.len() as int));
        if candidates[i].present {
            return Some(&candidates[i]);
        }
        i += 1;
    }
    None
}

impl Paths {
    /// Chooses the paths of the tools from what was named and what was found:
    /// a path that was named is taken as it is; the editor is else looked for
    /// in the working directory and then in the registry, the game in the
    /// registry, and BSArch, where it is to be used, at its usual places. The
    /// content tool and Archive2 lie below the game's directory.
    pub fn new(
        fo4edit_path: Option<String>,
        fallout4_path: Option<String>,
        use_bsarch: bool,
        bsarch_path: Option<String>,
        found: &Discovery,
    ) -> (r: Result<Self, BuildError>)
        ensures
            r matches Ok(paths) ==> {
                &&& editor_choice(fo4edit_path, *found) matches Ok(editor) && editor
                    == paths.fo4edit@
                &&& game_choice(fallout4_path, *found) matches Ok(game) && game == paths.fallout4@
                &&& paths.bsarch.deep_view() == bsarch_choice(use_bsarch, bsarch_path, *found)
                &&& paths.creation_kit.segments.deep_view() == seq!["CreationKit.exe"@]
                &&& paths.archive2.segments.deep_view() == seq![
                    "tools"@,
                    "archive2"@,
                    "archive2.exe"@,
                ]
            },
            r matches Err(e) ==> {
                ||| editor_choice(fo4edit_path, *found) matches Err(fault) && fault == e@
                ||| editor_choice(fo4edit_path, *found) is Ok && (game_choice(
                    fallout4_path,
                    *found,
                ) matches Err(fault) && fault == e@)
            },
    {
        let fo4edit = match fo4edit_path {
            Some(path) => path,
            None => {
                match &found.working_directory_error {
                    Some(why) => {
                        return Err(
                            BuildError::quoting(Failure::WorkingDirectoryUnknown, why.as_str()),
                        );
                    },
                    None => {},
                }
                match choose_first_present(&found.editor_candidates) {
                    Some(place) => String::from_str(place.shown.as_str()),
                    None => match &found.editor_registered {
                        Some(value) => unquote(value.as_str()),
                        None => {
                            return Err(BuildError::bare(Failure::EditorNotFound));
                        },
                    },
                }
            },
        };
        let fallout4 = match fallout4_path {
            Some(path) => path,
            None => match &found.game_registered {
                Some(path) => String::from_str(path.as_str()),
                None => {
                    return Err(BuildError::bare(Failure::GameNotFound));
                },
            },
        };
        let bsarch = if use_bsarch {
            match bsarch_path {
                Some(path) => Some(path),
                None => match choose_first_present(&found.bsarch_candidates) {
                    Some(place) => Some(String::from_str(place.shown.as_str())),
                    None => None,
                },
            }
        } else {
            None
        };
        Ok(
            Paths {
                fo4edit,
                fallout4,
                creation_kit: locate_tool(Artifact::CreationKit),
                archive2: locate_tool(Artifact::Archive2),
                bsarch,
            },
        )
    }
}

} // verus!
