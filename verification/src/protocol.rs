//! The exchange between the build's rules and whoever carries out its file
//! operations and runs its tools: the rules make a request, the other side
//! performs it and hands back a response.

use crate::facts::{ConfigurationFacts, DataFacts, InstallationFacts};
use crate::names::{CkAction, PackJob, Script};
use crate::tools::creation_kit::ConfigVariant;
use vstd::prelude::*;
use vstd::string::*;

verus! {

/// A file or directory that the build reads, writes, renames or removes.
#[derive(Debug, Copy, Clone, PartialEq, Eq, Structural)]
pub enum Artifact {
    /// The plugin file, in the data directory.
    Plugin,
    /// The plugin's archive, in the data directory.
    Archive,
    /// The seed plugin, in the data directory.
    Seed,
    /// `CombinedObjects.esp`, in the data directory.
    CombinedObjects,
    /// `Previs.esp`, in the data directory.
    Previs,
    /// The plugin's geometry file, in the data directory.
    GeometryPsg,
    /// The directory of precombined meshes, in the data directory.
    PrecombinedDir,
    /// The directory of visibility files, in the data directory.
    VisDir,
    /// The content tool's log, in the game directory.
    CkLog,
    /// An overlay library, in the game directory.
    Overlay(u8),
    /// An overlay library under the name with which it is set aside.
    DisabledOverlay(u8),
    /// The editor's log of an unattended run, among the temporary files.
    UnattendedLog,
    /// The plugin's compressed geometry file, in the data directory.
    GeometryCsg,
    /// The plugin's index file, in the data directory.
    Cdx,
    /// The data directory itself.
    DataDir,
    /// The game's executable, in the game directory.
    GameExecutable,
    /// The content tool, in the game directory.
    CreationKit,
    /// The loader of the content tool's extension, in the game directory.
    CkpeLoader,
    /// Archive2, below the game directory.
    Archive2,
    /// The configuration file of the given form, in the game directory.
    Configuration(ConfigVariant),
    /// An editor script, in the editor's directory of scripts.
    ScriptFile(Script),
    /// The run log, among the temporary files.
    RunLog,
    /// The list of plugins for the editor, among the temporary files.
    PluginsList,
}

impl Folder {
    /// The directory that holds the folder's files.
    pub open spec fn directory(self) -> Artifact {
        match self {
            Folder::Precombined => Artifact::PrecombinedDir,
            Folder::Vis => Artifact::VisDir,
        }
    }
}

/// A folder of the data directory that goes into the archive.
#[derive(Debug, Copy, Clone, PartialEq, Eq, Structural)]
pub enum Folder {
    /// The precombined meshes.
    Precombined,
    /// The visibility files.
    Vis,
}

/// The folders that go into the archive.
#[derive(Debug, Copy, Clone, PartialEq, Eq, Structural)]
pub struct PackSet {
    /// The precombined meshes are packed.
    pub precombined: bool,
    /// The visibility files are packed.
    pub vis: bool,
}

/// What the operator is told.
#[derive(Debug, Copy, Clone, PartialEq, Eq, Structural)]
pub enum Notice {
    /// The run begins.
    Banner,
    /// The run has ended well.
    Complete,
}

/// What the operator is warned of. None of these ends the run.
#[derive(Debug, Copy, Clone, PartialEq, Eq, Structural)]
pub enum Warning {
    /// The handle limit is not raised: the content tool may run out of
    /// reference handles.
    HandleLimitDisabled,
    /// The configuration does not hold the handle setting.
    HandleLimitNotFound,
    /// The content tool ended with the given exit status and left its output
    /// all the same.
    ExitIgnored(CkAction, i32),
    /// The editor's log of the merge of the combined objects does not say that
    /// there were no errors.
    MergeHadErrors,
    /// A step of the final cleanup failed.
    CleanupFailed,
}

/// What is written into the run log before a tool runs.
#[derive(Debug, Copy, Clone, PartialEq, Eq, Structural)]
pub enum Note {
    /// The content tool is about to run.
    ContentTool(CkAction),
    /// The editor is about to run a script.
    Editor(Script),
}

/// What the rules ask for next.
#[derive(Debug, Copy, Clone, PartialEq, Eq, Structural)]
pub enum Request {
    /// Nothing: the run is over.
    Finished,
    /// Ask the operator for the plugin's name. Answered by `Answer`, or by
    /// `Failed` where no answer could be read.
    AskPluginName,
    /// Ask the operator for the stage to resume from. Answered by `Answer`,
    /// or by `Failed`.
    AskStartStage,
    /// Ask the operator whether the seed plugin may be renamed to the plugin.
    /// Answered by `Answer`, or by `Failed`.
    AskToRenameSeed,
    /// Tell the operator. Answered by `Done`.
    Tell(Notice),
    /// Warn the operator. Answered by `Done`.
    Warn(Warning),
    /// Start the run log afresh, with the line that names the plugin.
    /// Answered by `Done`, or by `Failed`.
    StartRunLog,
    /// Look for the tools and the configuration files. Answered by
    /// `Installation`.
    SurveyInstallation,
    /// Look at the editor scripts, read the configuration file of the given
    /// form, and look for the second archiver. Answered by `Configuration`.
    SurveyConfiguration(ConfigVariant),
    /// Look at the data directory. Answered by `Data`.
    SurveyData,
    /// Look whether a file is there. Answered by `Found`.
    Look(Artifact),
    /// Read a file. Answered by `Text`, or by `Failed`.
    ReadText(Artifact),
    /// Remove a file. Answered by `Done`, or by `Failed`.
    Remove(Artifact),
    /// Remove a file if it is there. Answered by `Done`, or by `Failed`.
    RemoveIfPresent(Artifact),
    /// Remove a directory with all that is in it. Answered by `Done`, or by
    /// `Failed`.
    RemoveTree(Artifact),
    /// Remove a directory with all that is in it, if it is there. Answered by
    /// `Done`, or by `Failed`.
    RemoveTreeIfPresent(Artifact),
    /// Rename the first to the second. Answered by `Done`, or by `Failed`.
    Rename(Artifact, Artifact),
    /// Rename the first to the second if the first is there. Answered by
    /// `Done`, or by `Failed`.
    RenameIfPresent(Artifact, Artifact),
    /// Write the list of plugins for the editor's run of the script.
    /// Answered by `Done`, or by `Failed`.
    WritePluginsList(Script),
    /// Append a note to the run log. Answered by `Done`, or by `Failed`.
    AppendNote(Note),
    /// Append a file to the run log, if the file is there. Answered by
    /// `Done`, or by `Failed`.
    AppendFile(Artifact),
    /// Run the content tool and wait for it to end. Answered by `Exited`, or
    /// by `Failed` where it could not be started.
    RunCreationKit(CkAction),
    /// Start the editor on a script, without waiting for it. Answered by
    /// `Done`, or by `Failed` where it could not be started.
    StartEditor(Script),
    /// End the editor that was started. Answered by `Done`.
    StopEditor,
    /// Pack folders into a new archive with Archive2 and wait for it to end.
    /// Answered by `Exited`, or by `Failed`.
    Pack(PackSet),
    /// Extract the archive into the data directory with Archive2. Answered by
    /// `Exited`, or by `Failed`.
    Extract,
    /// Pack folders into the archive with BSArch. Answered by `Exited`, or by
    /// `Failed`.
    PackWithBsArch(PackJob, PackSet),
    /// Let the given number of seconds pass. Answered by `Done`.
    Pause(u64),
}

/// What came of a request.
#[derive(Debug, Clone)]
pub enum Response {
    /// Nothing was asked yet: the run begins.
    Begin,
    /// The request was carried out.
    Done,
    /// The request could not be carried out; the text is what the system
    /// reported.
    Failed(String),
    /// The operator's answer, as typed.
    Answer(String),
    /// What is installed.
    Installation(InstallationFacts),
    /// The scripts, the configuration and the second archiver.
    Configuration(ConfigurationFacts),
    /// The state of the data directory.
    Data(DataFacts),
    /// Whether the file is there.
    Found(bool),
    /// A file's content; none where the file is not there.
    Text(Option<String>),
    /// A tool ran and ended: whether it reported success, its exit status if
    /// it had one, and what it wrote to its error stream.
    Exited { success: bool, code: Option<i32>, errors: String },
}

impl Response {
    /// What the system or the tool reported, where the response says so.
    pub open spec fn report(self) -> Seq<char> {
        match self {
            Response::Failed(why) => why@,
            Response::Exited { errors, .. } => errors@,
            _ => Seq::empty(),
        }
    }

    /// What the system or the tool reported, where the response says so; the
    /// empty text otherwise.
    pub fn reported(&self) -> (r: &str)
        ensures
            r@ == self.report(),
    {
        proof {
            reveal_strlit("");
        }
        match self {
            Response::Failed(why) => why.as_str(),
            Response::Exited { errors, .. } => errors.as_str(),
            _ => {
                assert(""@ =~= Seq::<char>::empty());
                ""
            },
        }
    }
}

/// The exit status that counts for a tool that ended: its own, or -1 where it
/// had none.
pub open spec fn exit_status(code: Option<i32>) -> i32 {
    match code {
        Some(c) => c,
        None => -1i32,
    }
}

} // verus!
