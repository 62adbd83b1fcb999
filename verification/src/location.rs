//! Where the files of the build lie: each as a path of names below the game
//! directory, the editor's directory or the directory for temporary files.

use crate::names::{
    cdx_name, disabled_overlay_name, geometry_csg_name, geometry_psg_name, overlay_name,
    overlay_text, run_log_name,
};
use crate::plugin::{archive_name_of, PluginIdentity};
use crate::protocol::Artifact;
use crate::tools::creation_kit::{CkpeSettings, ConfigVariant};
use vstd::prelude::*;
use vstd::string::*;

verus! {

/// The directories below which the files of the build lie.
#[derive(Debug, Copy, Clone, PartialEq, Eq, Structural)]
pub enum Root {
    /// The game's installation directory.
    Game,
    /// The directory that holds the editor's executable.
    Editor,
    /// The directory for temporary files.
    Temp,
}

/// A place: a directory and the names that lead from it to the file.
#[derive(Debug, Clone)]
pub struct Location {
    /// The directory from which the path starts.
    pub root: Root,
    /// The names of the path, outermost first.
    pub segments: Vec<String>,
}

/// The directory below which `artifact` lies.
pub open spec fn root_of(artifact: Artifact) -> Root {
    match artifact {
        Artifact::UnattendedLog | Artifact::RunLog | Artifact::PluginsList => Root::Temp,
        Artifact::ScriptFile(_) => Root::Editor,
        _ => Root::Game,
    }
}

/// The names that lead to `artifact` from its directory, for the plugin with
/// the given base name, file name and archive, and the given name of the
/// content tool's log.
pub open spec fn path_of(
    artifact: Artifact,
    base: Seq<char>,
    file: Seq<char>,
    archive: Seq<char>,
    log: Option<Seq<char>>,
) -> Seq<Seq<char>> {
    match artifact {
        Artifact::Plugin => seq!["Data"@, file],
        Artifact::Archive => seq!["Data"@, archive],
        Artifact::Seed => seq!["Data"@, "xPrevisPatch.esp"@],
        Artifact::CombinedObjects => seq!["Data"@, "CombinedObjects.esp"@],
        Artifact::Previs => seq!["Data"@, "Previs.esp"@],
        Artifact::GeometryPsg => seq!["Data"@, base + " - Geometry.psg"@],
        Artifact::GeometryCsg => seq!["Data"@, base + " - Geometry.csg"@],
        Artifact::Cdx => seq!["Data"@, base + ".cdx"@],
        Artifact::PrecombinedDir => seq!["Data"@, "meshes"@, "precombined"@],
        Artifact::VisDir => seq!["Data"@, "vis"@],
        Artifact::DataDir => seq!["Data"@],
        Artifact::CkLog => match log {
            Some(name) => seq![name],
            None => Seq::empty(),
        },
        Artifact::Overlay(i) => seq![overlay_text(i as int)],
        Artifact::DisabledOverlay(i) => seq![overlay_text(i as int) + "-PJMdisabled"@],
        Artifact::GameExecutable => seq!["Fallout4.exe"@],
        Artifact::CreationKit => seq!["CreationKit.exe"@],
        Artifact::CkpeLoader => seq!["winhttp.dll"@],
        Artifact::Archive2 => seq!["tools"@, "archive2"@, "archive2.exe"@],
        Artifact::Configuration(variant) => seq![variant.file_text()],
        Artifact::ScriptFile(script) => seq!["Edit Scripts"@, script.file_text()],
        Artifact::UnattendedLog => seq!["UnattendedScript.log"@],
        Artifact::RunLog => seq![base + ".log"@],
        Artifact::PluginsList => seq!["Plugins.txt"@],
    }
}

/// The path of one name.
fn one(name: String) -> (r: Vec<String>)
    ensures
        r.deep_view() == seq![name@],
{
    let mut out: Vec<String> = Vec::new();
    out.push(name);
    assert(out.deep_view() =~= seq![name@]);
    out
}

/// `path` with `name` behind it.
fn then(path: Vec<String>, name: String) -> (r: Vec<String>)
    ensures
        r.deep_view() == path.deep_view().push(name@),
{
    let mut out = path;
    let ghost before = out.deep_view();
    out.push(name);
    assert(out.deep_view() =~= before.push(name@)) by {
        assert forall|i: int| 0 <= i < before.len() implies out.deep_view()[i] == before[i] by {
            assert(out@[i] == path@[i]);
        }
    }
    out
}

/// The path of a file in the data directory.
fn in_data(name: String) -> (r: Vec<String>)
    ensures
        r.deep_view() == seq!["Data"@, name@],
{
    let out = then(one(String::from_str("Data")), name);
    assert(out.deep_view() =~= seq!["Data"@, name@]);
    out
}

/// Where `artifact` lies, for the given plugin and settings.
pub fn locate(artifact: Artifact, identity: &PluginIdentity, settings: &CkpeSettings) -> (r:
    Location)
    ensures
        r.root == root_of(artifact),
        r.segments.deep_view() == path_of(
            artifact,
            identity.base_name@,
            identity.file_name@,
            identity.archive_name@,
            settings.log_file.deep_view(),
        ),
{
    let base = identity.base_name.as_str();
    let root = match artifact {
        Artifact::UnattendedLog => Root::Temp,
        Artifact::RunLog => Root::Temp,
        Artifact::PluginsList => Root::Temp,
        Artifact::ScriptFile(_) => Root::Editor,
        _ => Root::Game,
    };
    let segments = match artifact {
        Artifact::Plugin => in_data(String::from_str(identity.file_name.as_str())),
        Artifact::Archive => in_data(String::from_str(identity.archive_name.as_str())),
        Artifact::Seed => in_data(String::from_str("xPrevisPatch.esp")),
        Artifact::CombinedObjects => in_data(String::from_str("CombinedObjects.esp")),
        Artifact::Previs => in_data(String::from_str("Previs.esp")),
        Artifact::GeometryPsg => in_data(geometry_psg_name(base)),
        Artifact::GeometryCsg => in_data(geometry_csg_name(base)),
        Artifact::Cdx => in_data(cdx_name(base)),
        Artifact::PrecombinedDir => {
            let out = then(in_data(String::from_str("meshes")), String::from_str("precombined"));
            assert(out.deep_view() =~= seq!["Data"@, "meshes"@, "precombined"@]);
            out
        },
        Artifact::VisDir => in_data(String::from_str("vis")),
        Artifact::DataDir => one(String::from_str("Data")),
        Artifact::CkLog => match &settings.log_file {
            Some(name) => one(String::from_str(name.as_str())),
            None => {
                let out: Vec<String> = Vec::new();
                assert(out.deep_view() =~= Seq::<Seq<char>>::empty());
                out
            },
        },
        Artifact::Overlay(i) => one(String::from_str(overlay_name(i))),
        Artifact::DisabledOverlay(i) => one(disabled_overlay_name(i)),
        Artifact::GameExecutable => one(String::from_str("Fallout4.exe")),
        Artifact::CreationKit => one(String::from_str("CreationKit.exe")),
        Artifact::CkpeLoader => one(String::from_str("winhttp.dll")),
        Artifact::Archive2 => {
            let out = then(
                then(one(String::from_str("tools")), String::from_str("archive2")),
                String::from_str("archive2.exe"),
            );
            assert(out.deep_view() =~= seq!["tools"@, "archive2"@, "archive2.exe"@]);
            out
        },
        Artifact::Configuration(variant) => one(String::from_str(variant.file_name())),
        Artifact::ScriptFile(script) => {
            let out = then(
                one(String::from_str("Edit Scripts")),
                String::from_str(script.file_name()),
            );
            assert(out.deep_view() =~= seq!["Edit Scripts"@, script.file_text()]);
            out
        },
        Artifact::UnattendedLog => one(String::from_str("UnattendedScript.log")),
        Artifact::RunLog => one(run_log_name(base)),
        Artifact::PluginsList => one(String::from_str("Plugins.txt")),
    };
    Location { root, segments }
}

/// Where `artifact` lies while no plugin is named and the content tool's log
/// is not known. The tools lie where they lie whatever the plugin.
pub fn locate_tool(artifact: Artifact) -> (r: Location)
    ensures
        r.root == root_of(artifact),
        r.segments.deep_view() == path_of(
            artifact,
            Seq::empty(),
            Seq::empty(),
            archive_name_of(Seq::empty()),
            None,
        ),
{
    let identity = PluginIdentity::unset();
    let settings = CkpeSettings::for_variant(ConfigVariant::PlatformIni);
    let r = locate(artifact, &identity, &settings);
    assert(identity.base_name@ =~= Seq::<char>::empty());
    assert(identity.file_name@ =~= Seq::<char>::empty());
    r
}

} // verus!
