//! What can go wrong in a build, and how each failure is worded.

use crate::names::{overlay_name, overlay_text, CkAction, PackJob, Script};
use crate::text::{decimal, int_text, occurs_at, occurs_in};
use vstd::prelude::*;
use vstd::string::*;

verus! {

/// The classes of failure.
#[derive(Debug, Copy, Clone, PartialEq, Eq, Structural)]
pub enum ErrorKind {
    /// A stage number that names no stage.
    InvalidStage,
    /// A tool, a script or a setting that the build needs is missing.
    ConfigurationMissing,
    /// What a stage needs on disk is not there, or what it must not find is.
    PrerequisiteUnmet,
    /// An external tool could not be started or reported failure.
    ExternalProcessFailed,
    /// An external tool ended without leaving its output.
    OutputArtifactMissing,
    /// A tool's log is missing, or lacks the mark of success, or bears a mark of failure.
    LogParseFailure,
    /// The operator declined or gave no answer.
    UserAborted,
    /// A file could not be read, written, renamed or removed.
    FileOperationFailed,
    /// The sequencer was handed a response that does not answer its request.
    Protocol,
}

/// A failure of the build. Where a failure's wording names a file, a setting
/// or what the system reported, that text is handed to [`Failure::message`] as
/// the subject and the detail.
#[derive(Debug, Copy, Clone, PartialEq, Eq, Structural)]
pub enum Failure {
    /// The start stage that was asked for is no stage.
    InvalidStage(i32),
    /// The operator's answer is no number.
    StageNotANumber,
    /// The operator's answer is the number of no stage.
    StageOutOfRange(i32),
    /// The operator named no plugin.
    NoPluginName,
    /// The operator's answer could not be read.
    InputUnreadable,
    /// The plugin file is not there; the subject is its name.
    PluginMissing,
    /// No precombined mesh is there.
    NoPrecombinedMeshes,
    /// Geometry compression was asked for outside a clean build.
    CompressNeedsClean,
    /// The geometry file is not there.
    NoGeometry,
    /// The index build was asked for outside a clean build.
    CdxNeedsClean,
    /// No visibility file is there.
    NoVisibilityFiles,
    /// The generated previs plugin is not there.
    NoPrevis,
    /// No editor is known: none was named, none lies in the working directory
    /// and none is registered.
    EditorNotFound,
    /// No installation of the game is known: none was named and none is
    /// registered.
    GameNotFound,
    /// The working directory could not be told.
    WorkingDirectoryUnknown,
    /// The editor is not there; the subject is its path.
    EditorMissing,
    /// The game's executable is not there; the subject is its path.
    GameMissing,
    /// The content tool is not there.
    CreationKitMissing,
    /// The compatibility patch is not there.
    CkpeMissing,
    /// The archiver is not there.
    Archive2Missing,
    /// None of the known configuration files is there.
    NoConfiguration,
    /// An editor script is not there; the subject is its path.
    ScriptMissing,
    /// An editor script is older than the build needs.
    ScriptOutdated(Script, i32),
    /// An editor script states no version.
    ScriptVersionUnknown(Script),
    /// The configuration file could not be read; the subject is its path.
    ConfigUnreadable,
    /// The TOML configuration file could not be read; the subject is its path.
    TomlUnreadable,
    /// The TOML configuration file is no TOML, or its settings have the wrong type.
    TomlInvalid,
    /// The configuration file cannot be searched for its settings; the subject
    /// is its path.
    ConfigUnsearchable,
    /// The content tool writes no log; the subject is the setting, the detail the file.
    LoggingNotConfigured,
    /// BSArch was asked for and is not at its path, the subject.
    BsArchNotFound,
    /// BSArch was asked for and no path to it is known.
    BsArchUnspecified,
    /// The plugin already has an archive, the subject.
    ArchiveExists,
    /// Neither the plugin nor the seed plugin is there.
    NoPluginNorSeed,
    /// The operator declined.
    Aborted,
    /// The seed plugin could not be renamed.
    SeedRename,
    /// Precombined meshes of an earlier build are in the way.
    PrecombinedNotEmpty,
    /// Visibility files of an earlier build are in the way.
    VisNotEmpty,
    /// The stale combined-objects plugin could not be removed.
    RemoveCombinedObjects,
    /// The stale geometry file could not be removed.
    RemoveGeometry,
    /// The content tool left no precombined mesh.
    NoPrecombinesCreated,
    /// The content tool's log could not be read.
    CkLogUnreadable,
    /// The content tool's log reports that the handle array ran out.
    OutOfHandles,
    /// The content tool left no geometry file in a clean build.
    GeometryNotCreated,
    /// An overlay library could not be set aside.
    DisableOverlay(u8),
    /// The content tool's stale log could not be removed; the subject is its path.
    RemoveCkLog,
    /// The run log could not be written; the detail is the whole message.
    RunLogUnwritable,
    /// The content tool could not be started.
    CreationKitLaunch,
    /// The content tool's log could not be copied; the subject is its path.
    CkLogCopy,
    /// The content tool left the declared output, the subject, undone.
    OutputMissing(CkAction, i32),
    /// An overlay library could not be put back.
    RestoreOverlay(u8),
    /// The list of plugins for the editor could not be written.
    ManifestUnwritable,
    /// The editor's stale log could not be removed.
    RemoveUnattendedLog,
    /// The editor could not be started.
    EditorLaunch,
    /// The editor's log could not be copied.
    EditorLogUnreadable,
    /// The editor's log lacks the completion mark.
    ScriptFailed(Script),
    /// The editor left no log.
    ScriptSilent(Script),
    /// The editor's log could not be read.
    UnattendedLogUnreadable,
    /// The archiver left no archive; the subject is the archive's name.
    ArchiveNotCreated,
    /// The archiver reported failure; the detail is what it wrote.
    Archive2Failed,
    /// The archiver could not be started.
    Archive2Launch,
    /// There is no archive to extract; the subject is its name.
    ArchiveAbsent,
    /// The archiver reported failure while extracting.
    ExtractionFailed,
    /// The archiver could not be started to extract.
    ExtractionLaunch,
    /// The extracted archive could not be removed.
    RemoveArchive,
    /// The packed precombined meshes could not be removed.
    RemovePrecombined,
    /// The packed visibility files could not be removed.
    RemoveVis,
    /// BSArch reported failure.
    BsArchFailed(PackJob, i32),
    /// BSArch could not be started; the detail is what the system reported,
    /// with BSArch's path behind it.
    BsArchLaunch(PackJob),
    /// The compressed geometry's source could not be removed.
    RemovePsg,
    /// The content tool left no compressed geometry.
    CsgNotCreated,
    /// The stale previs plugin could not be removed.
    RemovePrevis,
    /// The content tool left no visibility file.
    NoVisibilityCreated,
    /// The content tool left no previs plugin.
    PrevisNotCreated,
    /// The content tool's log reports an unfinished visibility task.
    VisibilityIncomplete,
    /// The editor's log does not say that the previs merge ended without errors.
    MergePrevisIncomplete,
    /// The editor left no log of the previs merge.
    MergePrevisSilent,
    /// The response handed in does not answer the request that was made.
    OutOfTurn,
}

impl Failure {
    /// The class that the failure belongs to.
    pub open spec fn kind_of(self) -> ErrorKind {
        match self {
            Failure::InvalidStage(..) => ErrorKind::InvalidStage,
            Failure::StageNotANumber => ErrorKind::InvalidStage,
            Failure::StageOutOfRange(..) => ErrorKind::InvalidStage,
            Failure::NoPluginName => ErrorKind::UserAborted,
            Failure::InputUnreadable => ErrorKind::UserAborted,
            Failure::PluginMissing => ErrorKind::PrerequisiteUnmet,
            Failure::NoPrecombinedMeshes => ErrorKind::PrerequisiteUnmet,
            Failure::CompressNeedsClean => ErrorKind::PrerequisiteUnmet,
            Failure::NoGeometry => ErrorKind::PrerequisiteUnmet,
            Failure::CdxNeedsClean => ErrorKind::PrerequisiteUnmet,
            Failure::NoVisibilityFiles => ErrorKind::PrerequisiteUnmet,
            Failure::NoPrevis => ErrorKind::PrerequisiteUnmet,
            Failure::EditorNotFound => ErrorKind::ConfigurationMissing,
            Failure::GameNotFound => ErrorKind::ConfigurationMissing,
            Failure::WorkingDirectoryUnknown => ErrorKind::ConfigurationMissing,
            Failure::EditorMissing => ErrorKind::ConfigurationMissing,
            Failure::GameMissing => ErrorKind::ConfigurationMissing,
            Failure::CreationKitMissing => ErrorKind::ConfigurationMissing,
            Failure::CkpeMissing => ErrorKind::ConfigurationMissing,
            Failure::Archive2Missing => ErrorKind::ConfigurationMissing,
            Failure::NoConfiguration => ErrorKind::ConfigurationMissing,
            Failure::ScriptMissing => ErrorKind::ConfigurationMissing,
            Failure::ScriptOutdated(..) => ErrorKind::ConfigurationMissing,
            Failure::ScriptVersionUnknown(..) => ErrorKind::ConfigurationMissing,
            Failure::ConfigUnreadable => ErrorKind::ConfigurationMissing,
            Failure::TomlUnreadable => ErrorKind::ConfigurationMissing,
            Failure::TomlInvalid => ErrorKind::ConfigurationMissing,
            Failure::ConfigUnsearchable => ErrorKind::ConfigurationMissing,
            Failure::LoggingNotConfigured => ErrorKind::ConfigurationMissing,
            Failure::BsArchNotFound => ErrorKind::ConfigurationMissing,
            Failure::BsArchUnspecified => ErrorKind::ConfigurationMissing,
            Failure::ArchiveExists => ErrorKind::PrerequisiteUnmet,
            Failure::NoPluginNorSeed => ErrorKind::PrerequisiteUnmet,
            Failure::Aborted => ErrorKind::UserAborted,
            Failure::SeedRename => ErrorKind::FileOperationFailed,
            Failure::PrecombinedNotEmpty => ErrorKind::PrerequisiteUnmet,
            Failure::VisNotEmpty => ErrorKind::PrerequisiteUnmet,
            Failure::RemoveCombinedObjects => ErrorKind::FileOperationFailed,
            Failure::RemoveGeometry => ErrorKind::FileOperationFailed,
            Failure::NoPrecombinesCreated => ErrorKind::OutputArtifactMissing,
            Failure::CkLogUnreadable => ErrorKind::FileOperationFailed,
            Failure::OutOfHandles => ErrorKind::LogParseFailure,
            Failure::GeometryNotCreated => ErrorKind::OutputArtifactMissing,
            Failure::DisableOverlay(..) => ErrorKind::FileOperationFailed,
            Failure::RemoveCkLog => ErrorKind::FileOperationFailed,
            Failure::RunLogUnwritable => ErrorKind::FileOperationFailed,
            Failure::CreationKitLaunch => ErrorKind::ExternalProcessFailed,
            Failure::CkLogCopy => ErrorKind::FileOperationFailed,
            Failure::OutputMissing(..) => ErrorKind::OutputArtifactMissing,
            Failure::RestoreOverlay(..) => ErrorKind::FileOperationFailed,
            Failure::ManifestUnwritable => ErrorKind::FileOperationFailed,
            Failure::RemoveUnattendedLog => ErrorKind::FileOperationFailed,
            Failure::EditorLaunch => ErrorKind::ExternalProcessFailed,
            Failure::EditorLogUnreadable => ErrorKind::FileOperationFailed,
            Failure::ScriptFailed(..) => ErrorKind::LogParseFailure,
            Failure::ScriptSilent(..) => ErrorKind::LogParseFailure,
            Failure::UnattendedLogUnreadable => ErrorKind::FileOperationFailed,
            Failure::ArchiveNotCreated => ErrorKind::OutputArtifactMissing,
            Failure::Archive2Failed => ErrorKind::ExternalProcessFailed,
            Failure::Archive2Launch => ErrorKind::ExternalProcessFailed,
            Failure::ArchiveAbsent => ErrorKind::PrerequisiteUnmet,
            Failure::ExtractionFailed => ErrorKind::ExternalProcessFailed,
            Failure::ExtractionLaunch => ErrorKind::ExternalProcessFailed,
            Failure::RemoveArchive => ErrorKind::FileOperationFailed,
            Failure::RemovePrecombined => ErrorKind::FileOperationFailed,
            Failure::RemoveVis => ErrorKind::FileOperationFailed,
            Failure::BsArchFailed(..) => ErrorKind::ExternalProcessFailed,
            Failure::BsArchLaunch(..) => ErrorKind::ExternalProcessFailed,
            Failure::RemovePsg => ErrorKind::FileOperationFailed,
            Failure::CsgNotCreated => ErrorKind::OutputArtifactMissing,
            Failure::RemovePrevis => ErrorKind::FileOperationFailed,
            Failure::NoVisibilityCreated => ErrorKind::OutputArtifactMissing,
            Failure::PrevisNotCreated => ErrorKind::OutputArtifactMissing,
            Failure::VisibilityIncomplete => ErrorKind::LogParseFailure,
            Failure::MergePrevisIncomplete => ErrorKind::LogParseFailure,
            Failure::MergePrevisSilent => ErrorKind::LogParseFailure,
            Failure::OutOfTurn => ErrorKind::Protocol,
        }
    }

    /// The failure's wording.
    pub open spec fn text(self, subject: Seq<char>, detail: Seq<char>) -> Seq<char> {
        match self {
            Failure::InvalidStage(n) => "ERROR - Invalid stage number: "@ + int_text(n as int),
            Failure::StageNotANumber => "Invalid stage number"@,
            Failure::StageOutOfRange(n) => "Invalid stage number: "@ + int_text(n as int),
            Failure::NoPluginName => "No plugin name entered"@,
            Failure::InputUnreadable => "Error reading input: "@ + detail,
            Failure::PluginMissing => "ERROR - Plugin "@ + subject + " does not exist"@,
            Failure::NoPrecombinedMeshes => "ERROR - No precombined meshes found. Run GeneratePrecombines first."@,
            Failure::CompressNeedsClean => "ERROR - CompressPSG is only available in Clean mode"@,
            Failure::NoGeometry => "ERROR - No Geometry file found (Geometry.psg). Run GeneratePrecombines first."@,
            Failure::CdxNeedsClean => "ERROR - BuildCDX is only available in Clean mode"@,
            Failure::NoVisibilityFiles => "ERROR - No visibility files found. Run GeneratePreVisData first."@,
            Failure::NoPrevis => "ERROR - Previs.esp not found. Run GeneratePreVisData first."@,
            Failure::EditorNotFound => "FO4Edit/xEdit not found. Please specify path with --fo4edit_path"@,
            Failure::GameNotFound => "Fallout 4 installation not found. Please specify path with --fallout4_path"@,
            Failure::WorkingDirectoryUnknown => "Error getting current directory: "@ + detail,
            Failure::EditorMissing => "ERROR - "@ + subject + " not found"@,
            Failure::GameMissing => "ERROR - Fallout4.exe not found at "@ + subject,
            Failure::CreationKitMissing => "ERROR - CreationKit.exe not found. Creation Kit must be installed"@,
            Failure::CkpeMissing => "ERROR - CKPE not installed. You may not get a successful Patch without it"@,
            Failure::Archive2Missing => "ERROR - Archive2.exe not found. Creation Kit not properly installed"@,
            Failure::NoConfiguration => "ERROR - CKPE not installed properly. No configuration file found"@,
            Failure::ScriptMissing => "ERROR - FO4Edit Script "@ + subject + " not found"@,
            Failure::ScriptOutdated(script, n) => "ERROR - FO4Edit Script "@ + script.file_text() + " is outdated (version "@ + int_text(n as int) + "). Please update."@,
            Failure::ScriptVersionUnknown(script) => "ERROR - Could not determine version of FO4Edit Script "@ + script.file_text(),
            Failure::ConfigUnreadable => "Error opening "@ + subject + ": "@ + detail,
            Failure::TomlUnreadable => "Error reading TOML file "@ + subject + ": "@ + detail,
            Failure::TomlInvalid => "Error parsing TOML file "@ + subject + ": "@ + detail,
            Failure::ConfigUnsearchable => "Error searching "@ + subject + " for its settings"@,
            Failure::LoggingNotConfigured => "ERROR - CK not set for logging redirection. "@ + subject + " not found or empty in "@ + detail,
            Failure::BsArchNotFound => "ERROR - BSArch enabled but not found at "@ + subject,
            Failure::BsArchUnspecified => "ERROR - BSArch enabled but path not specified"@,
            Failure::ArchiveExists => "ERROR - This Plugin already has an Archive: "@ + subject,
            Failure::NoPluginNorSeed => "ERROR - Specified Plugin or xPrevisPatch does not exist"@,
            Failure::Aborted => "Aborted by user"@,
            Failure::SeedRename => "Error renaming xPrevisPatch.esp: "@ + detail,
            Failure::PrecombinedNotEmpty => "ERROR - Precombine directory (Data\\meshes\\precombined) not empty"@,
            Failure::VisNotEmpty => "ERROR - Previs directory (Data\\vis) not empty"@,
            Failure::RemoveCombinedObjects => "Error removing CombinedObjects.esp: "@ + detail,
            Failure::RemoveGeometry => "Error removing Geometry.psg: "@ + detail,
            Failure::NoPrecombinesCreated => "ERROR - GeneratePrecombined failed to create any Precombines"@,
            Failure::CkLogUnreadable => "Error reading CK log file: "@ + detail,
            Failure::OutOfHandles => "ERROR - GeneratePrecombined ran out of Reference Handles"@,
            Failure::GeometryNotCreated => "ERROR - GeneratePrecombined failed to create psg file"@,
            Failure::DisableOverlay(index) => "Error disabling "@ + overlay_text(index as int) + ": "@ + detail,
            Failure::RemoveCkLog => "Error removing log file "@ + subject + ": "@ + detail,
            Failure::RunLogUnwritable => detail,
            Failure::CreationKitLaunch => "Error executing Creation Kit: "@ + detail,
            Failure::CkLogCopy => "Error reading CK log file "@ + subject + ": "@ + detail,
            Failure::OutputMissing(action, n) => "ERROR - "@ + action.name_text() + " failed to create file "@ + subject + " with exit status "@ + int_text(n as int),
            Failure::RestoreOverlay(index) => "Error re-enabling "@ + overlay_text(index as int) + ": "@ + detail,
            Failure::ManifestUnwritable => "Error creating plugins file: "@ + detail,
            Failure::RemoveUnattendedLog => "Error removing unattended log file: "@ + detail,
            Failure::EditorLaunch => "Error starting xEdit: "@ + detail,
            Failure::EditorLogUnreadable => "Error reading xEdit log file: "@ + detail,
            Failure::ScriptFailed(script) => "ERROR - FO4Edit script "@ + script.file_text() + " failed"@,
            Failure::ScriptSilent(script) => "ERROR - FO4Edit script "@ + script.file_text() + " did not produce a log file"@,
            Failure::UnattendedLogUnreadable => "Error reading unattended log file: "@ + detail,
            Failure::ArchiveNotCreated => "Archive was not created: "@ + subject,
            Failure::Archive2Failed => "Archive2 failed: "@ + detail,
            Failure::Archive2Launch => "Failed to execute Archive2: "@ + detail,
            Failure::ArchiveAbsent => "Archive does not exist: "@ + subject,
            Failure::ExtractionFailed => "Archive2 extraction failed: "@ + detail,
            Failure::ExtractionLaunch => "Failed to execute Archive2 extraction: "@ + detail,
            Failure::RemoveArchive => "Failed to remove existing archive: "@ + detail,
            Failure::RemovePrecombined => "Error removing precombined directory: "@ + detail,
            Failure::RemoveVis => "Error removing vis directory: "@ + detail,
            Failure::BsArchFailed(job, n) => "BSArch action '"@ + job.description_text() + "' failed with exit code: "@ + int_text(n as int) + "."@,
            Failure::BsArchLaunch(job) => "Failed to execute BSArch for action '"@ + job.description_text() + "': "@ + detail,
            Failure::RemovePsg => "Error removing PSG file: "@ + detail,
            Failure::CsgNotCreated => "ERROR - CompressPSG failed to create CSG file"@,
            Failure::RemovePrevis => "Error removing Previs.esp: "@ + detail,
            Failure::NoVisibilityCreated => "ERROR - GeneratePreVisData failed to create visibility files"@,
            Failure::PrevisNotCreated => "ERROR - GeneratePreVisData failed to create Previs.esp"@,
            Failure::VisibilityIncomplete => "ERROR - GeneratePreVisData visibility task did not complete"@,
            Failure::MergePrevisIncomplete => "ERROR - Merge Previs script did not complete successfully"@,
            Failure::MergePrevisSilent => "ERROR - Merge Previs script did not produce a log file"@,
            Failure::OutOfTurn => "ERROR - Response does not answer the request"@,
        }
    }

    /// The class that the failure belongs to.
    pub fn kind(&self) -> (r: ErrorKind)
        ensures
            r == self.kind_of(),
    {
        match self {
            Failure::InvalidStage(..) => ErrorKind::InvalidStage,
            Failure::StageNotANumber => ErrorKind::InvalidStage,
            Failure::StageOutOfRange(..) => ErrorKind::InvalidStage,
            Failure::NoPluginName => ErrorKind::UserAborted,
            Failure::InputUnreadable => ErrorKind::UserAborted,
            Failure::PluginMissing => ErrorKind::PrerequisiteUnmet,
            Failure::NoPrecombinedMeshes => ErrorKind::PrerequisiteUnmet,
            Failure::CompressNeedsClean => ErrorKind::PrerequisiteUnmet,
            Failure::NoGeometry => ErrorKind::PrerequisiteUnmet,
            Failure::CdxNeedsClean => ErrorKind::PrerequisiteUnmet,
            Failure::NoVisibilityFiles => ErrorKind::PrerequisiteUnmet,
            Failure::NoPrevis => ErrorKind::PrerequisiteUnmet,
            Failure::EditorNotFound => ErrorKind::ConfigurationMissing,
            Failure::GameNotFound => ErrorKind::ConfigurationMissing,
            Failure::WorkingDirectoryUnknown => ErrorKind::ConfigurationMissing,
            Failure::EditorMissing => ErrorKind::ConfigurationMissing,
            Failure::GameMissing => ErrorKind::ConfigurationMissing,
            Failure::CreationKitMissing => ErrorKind::ConfigurationMissing,
            Failure::CkpeMissing => ErrorKind::ConfigurationMissing,
            Failure::Archive2Missing => ErrorKind::ConfigurationMissing,
            Failure::NoConfiguration => ErrorKind::ConfigurationMissing,
            Failure::ScriptMissing => ErrorKind::ConfigurationMissing,
            Failure::ScriptOutdated(..) => ErrorKind::ConfigurationMissing,
            Failure::ScriptVersionUnknown(..) => ErrorKind::ConfigurationMissing,
            Failure::ConfigUnreadable => ErrorKind::ConfigurationMissing,
            Failure::TomlUnreadable => ErrorKind::ConfigurationMissing,
            Failure::TomlInvalid => ErrorKind::ConfigurationMissing,
            Failure::ConfigUnsearchable => ErrorKind::ConfigurationMissing,
            Failure::LoggingNotConfigured => ErrorKind::ConfigurationMissing,
            Failure::BsArchNotFound => ErrorKind::ConfigurationMissing,
            Failure::BsArchUnspecified => ErrorKind::ConfigurationMissing,
            Failure::ArchiveExists => ErrorKind::PrerequisiteUnmet,
            Failure::NoPluginNorSeed => ErrorKind::PrerequisiteUnmet,
            Failure::Aborted => ErrorKind::UserAborted,
            Failure::SeedRename => ErrorKind::FileOperationFailed,
            Failure::PrecombinedNotEmpty => ErrorKind::PrerequisiteUnmet,
            Failure::VisNotEmpty => ErrorKind::PrerequisiteUnmet,
            Failure::RemoveCombinedObjects => ErrorKind::FileOperationFailed,
            Failure::RemoveGeometry => ErrorKind::FileOperationFailed,
            Failure::NoPrecombinesCreated => ErrorKind::OutputArtifactMissing,
            Failure::CkLogUnreadable => ErrorKind::FileOperationFailed,
            Failure::OutOfHandles => ErrorKind::LogParseFailure,
            Failure::GeometryNotCreated => ErrorKind::OutputArtifactMissing,
            Failure::DisableOverlay(..) => ErrorKind::FileOperationFailed,
            Failure::RemoveCkLog => ErrorKind::FileOperationFailed,
            Failure::RunLogUnwritable => ErrorKind::FileOperationFailed,
            Failure::CreationKitLaunch => ErrorKind::ExternalProcessFailed,
            Failure::CkLogCopy => ErrorKind::FileOperationFailed,
            Failure::OutputMissing(..) => ErrorKind::OutputArtifactMissing,
            Failure::RestoreOverlay(..) => ErrorKind::FileOperationFailed,
            Failure::ManifestUnwritable => ErrorKind::FileOperationFailed,
            Failure::RemoveUnattendedLog => ErrorKind::FileOperationFailed,
            Failure::EditorLaunch => ErrorKind::ExternalProcessFailed,
            Failure::EditorLogUnreadable => ErrorKind::FileOperationFailed,
            Failure::ScriptFailed(..) => ErrorKind::LogParseFailure,
            Failure::ScriptSilent(..) => ErrorKind::LogParseFailure,
            Failure::UnattendedLogUnreadable => ErrorKind::FileOperationFailed,
            Failure::ArchiveNotCreated => ErrorKind::OutputArtifactMissing,
            Failure::Archive2Failed => ErrorKind::ExternalProcessFailed,
            Failure::Archive2Launch => ErrorKind::ExternalProcessFailed,
            Failure::ArchiveAbsent => ErrorKind::PrerequisiteUnmet,
            Failure::ExtractionFailed => ErrorKind::ExternalProcessFailed,
            Failure::ExtractionLaunch => ErrorKind::ExternalProcessFailed,
            Failure::RemoveArchive => ErrorKind::FileOperationFailed,
            Failure::RemovePrecombined => ErrorKind::FileOperationFailed,
            Failure::RemoveVis => ErrorKind::FileOperationFailed,
            Failure::BsArchFailed(..) => ErrorKind::ExternalProcessFailed,
            Failure::BsArchLaunch(..) => ErrorKind::ExternalProcessFailed,
            Failure::RemovePsg => ErrorKind::FileOperationFailed,
            Failure::CsgNotCreated => ErrorKind::OutputArtifactMissing,
            Failure::RemovePrevis => ErrorKind::FileOperationFailed,
            Failure::NoVisibilityCreated => ErrorKind::OutputArtifactMissing,
            Failure::PrevisNotCreated => ErrorKind::OutputArtifactMissing,
            Failure::VisibilityIncomplete => ErrorKind::LogParseFailure,
            Failure::MergePrevisIncomplete => ErrorKind::LogParseFailure,
            Failure::MergePrevisSilent => ErrorKind::LogParseFailure,
            Failure::OutOfTurn => ErrorKind::Protocol,
        }
    }

    /// The failure's wording, with `subject` and `detail` in their places.
    pub fn message(&self, subject: &str, detail: &str) -> (r: String)
        ensures
            r@ == self.text(subject@, detail@),
    {
        let mut out = String::new();
        match self {
            Failure::InvalidStage(n) => {
                out.append("ERROR - Invalid stage number: ");
                out.append(decimal(*n).as_str());
            },
            Failure::StageNotANumber => {
                out.append("Invalid stage number");
            },
            Failure::StageOutOfRange(n) => {
                out.append("Invalid stage number: ");
                out.append(decimal(*n).as_str());
            },
            Failure::NoPluginName => {
                out.append("No plugin name entered");
            },
            Failure::InputUnreadable => {
                out.append("Error reading input: ");
                out.append(detail);
            },
            Failure::PluginMissing => {
                out.append("ERROR - Plugin ");
                out.append(subject);
                out.append(" does not exist");
            },
            Failure::NoPrecombinedMeshes => {
                out.append("ERROR - No precombined meshes found. Run GeneratePrecombines first.");
            },
            Failure::CompressNeedsClean => {
                out.append("ERROR - CompressPSG is only available in Clean mode");
            },
            Failure::NoGeometry => {
                out.append("ERROR - No Geometry file found (Geometry.psg). Run GeneratePrecombines first.");
            },
            Failure::CdxNeedsClean => {
                out.append("ERROR - BuildCDX is only available in Clean mode");
            },
            Failure::NoVisibilityFiles => {
                out.append("ERROR - No visibility files found. Run GeneratePreVisData first.");
            },
            Failure::NoPrevis => {
                out.append("ERROR - Previs.esp not found. Run GeneratePreVisData first.");
            },
            Failure::EditorNotFound => {
                out.append("FO4Edit/xEdit not found. Please specify path with --fo4edit_path");
            },
            Failure::GameNotFound => {
                out.append(
                    "Fallout 4 installation not found. Please specify path with --fallout4_path",
                );
            },
            Failure::WorkingDirectoryUnknown => {
                out.append("Error getting current directory: ");
                out.append(detail);
            },
            Failure::EditorMissing => {
                out.append("ERROR - ");
                out.append(subject);
                out.append(" not found");
            },
            Failure::GameMissing => {
                out.append("ERROR - Fallout4.exe not found at ");
                out.append(subject);
            },
            Failure::CreationKitMissing => {
                out.append("ERROR - CreationKit.exe not found. Creation Kit must be installed");
            },
            Failure::CkpeMissing => {
                out.append("ERROR - CKPE not installed. You may not get a successful Patch without it");
            },
            Failure::Archive2Missing => {
                out.append("ERROR - Archive2.exe not found. Creation Kit not properly installed");
            },
            Failure::NoConfiguration => {
                out.append("ERROR - CKPE not installed properly. No configuration file found");
            },
            Failure::ScriptMissing => {
                out.append("ERROR - FO4Edit Script ");
                out.append(subject);
                out.append(" not found");
            },
            Failure::ScriptOutdated(script, n) => {
                out.append("ERROR - FO4Edit Script ");
                out.append(script.file_name());
                out.append(" is outdated (version ");
                out.append(decimal(*n).as_str());
                out.append("). Please update.");
            },
            Failure::ScriptVersionUnknown(script) => {
                out.append("ERROR - Could not determine version of FO4Edit Script ");
                out.append(script.file_name());
            },
            Failure::ConfigUnreadable => {
                out.append("Error opening ");
                out.append(subject);
                out.append(": ");
                out.append(detail);
            },
            Failure::TomlUnreadable => {
                out.append("Error reading TOML file ");
                out.append(subject);
                out.append(": ");
                out.append(detail);
            },
            Failure::TomlInvalid => {
                out.append("Error parsing TOML file ");
                out.append(subject);
                out.append(": ");
                out.append(detail);
            },
            Failure::ConfigUnsearchable => {
                out.append("Error searching ");
                out.append(subject);
                out.append(" for its settings");
            },
            Failure::LoggingNotConfigured => {
                out.append("ERROR - CK not set for logging redirection. ");
                out.append(subject);
                out.append(" not found or empty in ");
                out.append(detail);
            },
            Failure::BsArchNotFound => {
                out.append("ERROR - BSArch enabled but not found at ");
                out.append(subject);
            },
            Failure::BsArchUnspecified => {
                out.append("ERROR - BSArch enabled but path not specified");
            },
            Failure::ArchiveExists => {
                out.append("ERROR - This Plugin already has an Archive: ");
                out.append(subject);
            },
            Failure::NoPluginNorSeed => {
                out.append("ERROR - Specified Plugin or xPrevisPatch does not exist");
            },
            Failure::Aborted => {
                out.append("Aborted by user");
            },
            Failure::SeedRename => {
                out.append("Error renaming xPrevisPatch.esp: ");
                out.append(detail);
            },
            Failure::PrecombinedNotEmpty => {
                out.append("ERROR - Precombine directory (Data\\meshes\\precombined) not empty");
            },
            Failure::VisNotEmpty => {
                out.append("ERROR - Previs directory (Data\\vis) not empty");
            },
            Failure::RemoveCombinedObjects => {
                out.append("Error removing CombinedObjects.esp: ");
                out.append(detail);
            },
            Failure::RemoveGeometry => {
                out.append("Error removing Geometry.psg: ");
                out.append(detail);
            },
            Failure::NoPrecombinesCreated => {
                out.append("ERROR - GeneratePrecombined failed to create any Precombines");
            },
            Failure::CkLogUnreadable => {
                out.append("Error reading CK log file: ");
                out.append(detail);
            },
            Failure::OutOfHandles => {
                out.append("ERROR - GeneratePrecombined ran out of Reference Handles");
            },
            Failure::GeometryNotCreated => {
                out.append("ERROR - GeneratePrecombined failed to create psg file");
            },
            Failure::DisableOverlay(index) => {
                out.append("Error disabling ");
                out.append(overlay_name(*index));
                out.append(": ");
                out.append(detail);
            },
            Failure::RemoveCkLog => {
                out.append("Error removing log file ");
                out.append(subject);
                out.append(": ");
                out.append(detail);
            },
            Failure::RunLogUnwritable => {
                out.append(detail);
            },
            Failure::CreationKitLaunch => {
                out.append("Error executing Creation Kit: ");
                out.append(detail);
            },
            Failure::CkLogCopy => {
                out.append("Error reading CK log file ");
                out.append(subject);
                out.append(": ");
                out.append(detail);
            },
            Failure::OutputMissing(action, n) => {
                out.append("ERROR - ");
                out.append(action.name());
                out.append(" failed to create file ");
                out.append(subject);
                out.append(" with exit status ");
                out.append(decimal(*n).as_str());
            },
            Failure::RestoreOverlay(index) => {
                out.append("Error re-enabling ");
                out.append(overlay_name(*index));
                out.append(": ");
                out.append(detail);
            },
            Failure::ManifestUnwritable => {
                out.append("Error creating plugins file: ");
                out.append(detail);
            },
            Failure::RemoveUnattendedLog => {
                out.append("Error removing unattended log file: ");
                out.append(detail);
            },
            Failure::EditorLaunch => {
                out.append("Error starting xEdit: ");
                out.append(detail);
            },
            Failure::EditorLogUnreadable => {
                out.append("Error reading xEdit log file: ");
                out.append(detail);
            },
            Failure::ScriptFailed(script) => {
                out.append("ERROR - FO4Edit script ");
                out.append(script.file_name());
                out.append(" failed");
            },
            Failure::ScriptSilent(script) => {
                out.append("ERROR - FO4Edit script ");
                out.append(script.file_name());
                out.append(" did not produce a log file");
            },
            Failure::UnattendedLogUnreadable => {
                out.append("Error reading unattended log file: ");
                out.append(detail);
            },
            Failure::ArchiveNotCreated => {
                out.append("Archive was not created: ");
                out.append(subject);
            },
            Failure::Archive2Failed => {
                out.append("Archive2 failed: ");
                out.append(detail);
            },
            Failure::Archive2Launch => {
                out.append("Failed to execute Archive2: ");
                out.append(detail);
            },
            Failure::ArchiveAbsent => {
                out.append("Archive does not exist: ");
                out.append(subject);
            },
            Failure::ExtractionFailed => {
                out.append("Archive2 extraction failed: ");
                out.append(detail);
            },
            Failure::ExtractionLaunch => {
                out.append("Failed to execute Archive2 extraction: ");
                out.append(detail);
            },
            Failure::RemoveArchive => {
                out.append("Failed to remove existing archive: ");
                out.append(detail);
            },
            Failure::RemovePrecombined => {
                out.append("Error removing precombined directory: ");
                out.append(detail);
            },
            Failure::RemoveVis => {
                out.append("Error removing vis directory: ");
                out.append(detail);
            },
            Failure::BsArchFailed(job, n) => {
                out.append("BSArch action '");
                out.append(job.description());
                out.append("' failed with exit code: ");
                out.append(decimal(*n).as_str());
                out.append(".");
            },
            Failure::BsArchLaunch(job) => {
                out.append("Failed to execute BSArch for action '");
                out.append(job.description());
                out.append("': ");
                out.append(detail);
            },
            Failure::RemovePsg => {
                out.append("Error removing PSG file: ");
                out.append(detail);
            },
            Failure::CsgNotCreated => {
                out.append("ERROR - CompressPSG failed to create CSG file");
            },
            Failure::RemovePrevis => {
                out.append("Error removing Previs.esp: ");
                out.append(detail);
            },
            Failure::NoVisibilityCreated => {
                out.append("ERROR - GeneratePreVisData failed to create visibility files");
            },
            Failure::PrevisNotCreated => {
                out.append("ERROR - GeneratePreVisData failed to create Previs.esp");
            },
            Failure::VisibilityIncomplete => {
                out.append("ERROR - GeneratePreVisData visibility task did not complete");
            },
            Failure::MergePrevisIncomplete => {
                out.append("ERROR - Merge Previs script did not complete successfully");
            },
            Failure::MergePrevisSilent => {
                out.append("ERROR - Merge Previs script did not produce a log file");
            },
            Failure::OutOfTurn => {
                out.append("ERROR - Response does not answer the request");
            },
        }
        assert(out@ =~= self.text(subject@, detail@));
        out
    }
}

/// The wording of a missing geometry file says that no geometry file was
/// found, whatever the subject and the detail.
pub proof fn lemma_geometry_wording(subject: Seq<char>, detail: Seq<char>)
    ensures
        occurs_in(Failure::NoGeometry.text(subject, detail), "No Geometry file found"@),
{
    reveal_strlit("ERROR - No Geometry file found (Geometry.psg). Run GeneratePrecombines first.");
    reveal_strlit("No Geometry file found");
    let whole = Failure::NoGeometry.text(subject, detail);
    let phrase = "No Geometry file found"@;
    assert(whole.subrange(8, 8 + phrase.len() as int) =~= phrase);
    assert(occurs_at(whole, phrase, 8));
}

/// A failure together with the texts that its wording needs.
#[derive(Debug, Clone)]
pub struct BuildError {
    /// What went wrong.
    pub failure: Failure,
    /// The file or setting that the failure is about, where its wording names
    /// one.
    pub subject: String,
    /// What the system or the tool reported, where the wording quotes it.
    pub detail: String,
}

/// A [`BuildError`] with its texts as sequences of characters.
pub struct ErrorView {
    pub failure: Failure,
    pub subject: Seq<char>,
    pub detail: Seq<char>,
}

impl View for BuildError {
    type V = ErrorView;

    open spec fn view(&self) -> ErrorView {
        ErrorView { failure: self.failure, subject: self.subject@, detail: self.detail@ }
    }
}

/// The failure with nothing to name and nothing to quote.
pub open spec fn bare(failure: Failure) -> ErrorView {
    ErrorView { failure, subject: Seq::empty(), detail: Seq::empty() }
}

/// The failure about `subject`.
pub open spec fn about(failure: Failure, subject: Seq<char>) -> ErrorView {
    ErrorView { failure, subject, detail: Seq::empty() }
}

/// The failure with what was reported.
pub open spec fn quoting(failure: Failure, detail: Seq<char>) -> ErrorView {
    ErrorView { failure, subject: Seq::empty(), detail }
}

impl BuildError {
    /// The error for a failure whose wording names nothing and quotes nothing.
    pub fn bare(failure: Failure) -> (r: BuildError)
        ensures
            r@ == bare(failure),
    {
        BuildError { failure, subject: String::new(), detail: String::new() }
    }

    /// The error for a failure about `subject`.
    pub fn about(failure: Failure, subject: &str) -> (r: BuildError)
        ensures
            r@ == about(failure, subject@),
    {
        BuildError { failure, subject: String::from_str(subject), detail: String::new() }
    }

    /// The error for a failure that quotes `detail`.
    pub fn quoting(failure: Failure, detail: &str) -> (r: BuildError)
        ensures
            r@ == quoting(failure, detail@),
    {
        BuildError { failure, subject: String::new(), detail: String::from_str(detail) }
    }

    /// The error for a failure about `subject` that quotes `detail`.
    pub fn full(failure: Failure, subject: &str, detail: &str) -> (r: BuildError)
        ensures
            r@ == (ErrorView { failure, subject: subject@, detail: detail@ }),
    {
        BuildError {
            failure,
            subject: String::from_str(subject),
            detail: String::from_str(detail),
        }
    }

    /// The class that the error belongs to.
    pub fn kind(&self) -> (r: ErrorKind)
        ensures
            r == self.failure.kind_of(),
    {
        self.failure.kind()
    }

    /// The error's wording.
    pub fn message(&self) -> (r: String)
        ensures
            r@ == self.failure.text(self.subject@, self.detail@),
    {
        self.failure.message(self.subject.as_str(), self.detail.as_str())
    }
}

} // verus!
