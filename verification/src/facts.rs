//! What a look at the disk found. The values are plain: whoever performs the
//! build's file operations fills them in, and the rules read them.

use crate::names::CkAction;
use crate::text::{ends_with, is_suffix};
use vstd::prelude::*;
use vstd::string::*;

verus! {

/// Whether one of `names` ends with `extension`.
pub open spec fn has_files(names: Seq<Seq<char>>, extension: Seq<char>) -> bool {
    exists|i: int| 0 <= i < names.len() && is_suffix(#[trigger] names[i], extension)
}

/// Whether a directory with the entries `names` holds a file whose name ends
/// with `extension`.
pub fn directory_has_files(names: &Vec<String>, extension: &str) -> (r: bool)
    ensures
        r == has_files(names.deep_view(), extension@),
{
    let mut i: usize = 0;
    while i < names.len()
        invariant
            i <= names.len(),
            forall|k: int| 0 <= k < i ==> !is_suffix(#[trigger] names.deep_view()[k], extension@),
        decreases names.len() - i,
    {
        if ends_with(names[i].as_str(), extension) {
            assert(is_suffix(names.deep_view()[i as int], extension@));
            return true;
        }
        i += 1;
    }
    false
}

/// The state of the game's data directory, as far as the build depends on it.
#[derive(Debug, Clone)]
pub struct DataFacts {
    /// The plugin file is there.
    pub plugin_exists: bool,
    /// The plugin's archive is there.
    pub archive_exists: bool,
    /// The seed plugin `xPrevisPatch.esp` is there.
    pub seed_exists: bool,
    /// Names of the entries of `meshes\precombined`; empty where the
    /// directory is missing.
    pub precombined_names: Vec<String>,
    /// Names of the entries of `vis`; empty where the directory is missing.
    pub visibility_names: Vec<String>,
    /// `CombinedObjects.esp` is there.
    pub combined_objects_exists: bool,
    /// The plugin's geometry file is there.
    pub geometry_psg_exists: bool,
    /// The plugin's compressed geometry file is there.
    pub geometry_csg_exists: bool,
    /// The plugin's index file is there.
    pub cdx_exists: bool,
    /// `Previs.esp` is there.
    pub previs_exists: bool,
}

impl DataFacts {
    /// Precombined meshes are there.
    pub open spec fn precombined_present(&self) -> bool {
        has_files(self.precombined_names.deep_view(), ".nif"@)
    }

    /// Visibility files are there.
    pub open spec fn visibility_present(&self) -> bool {
        has_files(self.visibility_names.deep_view(), ".uvd"@)
    }

    /// The file that the content tool must leave behind after `action` is
    /// there.
    pub open spec fn output_present(&self, action: CkAction) -> bool {
        match action {
            CkAction::GeneratePrecombined => self.combined_objects_exists,
            CkAction::CompressPsg => self.geometry_csg_exists,
            CkAction::BuildCdx => self.cdx_exists,
            CkAction::GeneratePrevisData => self.previs_exists,
        }
    }

    /// Whether precombined meshes are there.
    pub fn has_precombined(&self) -> (r: bool)
        ensures
            r == self.precombined_present(),
    {
        directory_has_files(&self.precombined_names, ".nif")
    }

    /// Whether visibility files are there.
    pub fn has_visibility(&self) -> (r: bool)
        ensures
            r == self.visibility_present(),
    {
        directory_has_files(&self.visibility_names, ".uvd")
    }

    /// Whether the file that the content tool must leave behind after `action`
    /// is there.
    pub fn has_output(&self, action: CkAction) -> (r: bool)
        ensures
            r == self.output_present(action),
    {
        match action {
            CkAction::GeneratePrecombined => self.combined_objects_exists,
            CkAction::CompressPsg => self.geometry_csg_exists,
            CkAction::BuildCdx => self.cdx_exists,
            CkAction::GeneratePrevisData => self.previs_exists,
        }
    }
}

/// A path as it is shown to the operator, and whether something is there.
#[derive(Debug, Clone)]
pub struct PathFact {
    /// The path, as text.
    pub shown: String,
    /// Whether the path leads to something.
    pub present: bool,
}

/// What is installed: the tools and the configuration files of the content
/// tool's extension.
#[derive(Debug, Clone)]
pub struct InstallationFacts {
    /// The editor's executable.
    pub editor: PathFact,
    /// The game's executable.
    pub game_executable: PathFact,
    /// The content tool is there.
    pub creation_kit_present: bool,
    /// The loader of the content tool's extension is there.
    pub ckpe_loader_present: bool,
    /// The archiver is there.
    pub archive2_present: bool,
    /// `CreationKitPlatformExtended.ini` is there.
    pub platform_ini_present: bool,
    /// `CreationKitPlatformExtended.toml` is there.
    pub platform_toml_present: bool,
    /// `fallout4_test.ini` is there.
    pub legacy_ini_present: bool,
}

/// An editor script on disk.
#[derive(Debug, Clone)]
pub struct ScriptFacts {
    /// The script's path, as text.
    pub shown: String,
    /// Whether the script is there.
    pub present: bool,
    /// The script's lines; none where it could not be opened.
    pub lines: Option<Vec<String>>,
}

/// What the configuration file of the content tool's extension holds.
#[derive(Debug, Clone)]
pub enum ConfigContent {
    /// The file could not be read; the text says why.
    Unreadable(String),
    /// The lines of a file in INI form.
    Lines(Vec<String>),
    /// The two settings of a file in TOML form, as they stand in it.
    Toml { handle_limit: Option<bool>, log_file: Option<String> },
    /// The file is no TOML, or a setting has the wrong type; the text says
    /// why.
    TomlInvalid(String),
}

/// The editor scripts, the configuration file and the second archiver.
#[derive(Debug, Clone)]
pub struct ConfigurationFacts {
    /// The script that merges the combined objects.
    pub merge_combined: ScriptFacts,
    /// The script that merges the previs data.
    pub merge_previs: ScriptFacts,
    /// The configuration file's path, as text.
    pub config_shown: String,
    /// What the configuration file holds.
    pub config: ConfigContent,
    /// BSArch's path and whether it is there; none where no path is known.
    pub bsarch: Option<PathFact>,
}

} // verus!
