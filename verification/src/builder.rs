//! The sequencer: it owns the order of the stages, decides where a run
//! starts, takes each stage through its steps, and ends the run on the first
//! failure or, after the last stage, with the cleanup.
//!
//! The sequencer performs nothing itself. It makes a request, is handed the
//! response, and makes the next request.

use crate::error::{BuildError, ErrorView, Failure};
use crate::facts::DataFacts;
use crate::names::{output_name, output_text, CkAction, PackJob, Script, OVERLAY_COUNT};
use crate::plugin::{archive_name_of, base_name_of, file_name_of, PluginIdentity};
use crate::protocol::{Artifact, Folder, Notice, PackSet, Request, Response, Warning};
use crate::stage::{stage_numbered, Args, BuildMode, BuildStage};
use crate::text::trimmed;
use crate::tools::archive::{
    add_first, add_next, add_request, add_to_archive, archive_request, bsarch_verdict, only,
    pack_next, pack_request, run_archive, run_bsarch, with_precombined, AddFlow, AddPhase,
    PackFlow, PackPhase,
};
use crate::tools::creation_kit::{
    ck_first, ck_next, ck_request, creation_kit_request, log_out_of_handles,
    log_visibility_incomplete, ran_out_of_handles, run_creation_kit, visibility_incomplete,
    CkFlow, CkPhase, CkpeSettings, ConfigVariant, SettingNames,
};
use crate::tools::xedit::{
    editor_first, editor_next, editor_request, log_clean, run_xedit_script,
    script_completed_cleanly, xedit_request, EditorFlow, EditorPhase,
};
use crate::ui::{prompt_for_plugin_name, prompt_for_stage, prompt_yes_no, says_yes, stage_asked};
use crate::validation::{
    check_configuration, check_installation, check_plugin_for, check_stage_prerequisites,
    config_values, configuration_fault, detected_variant, handle_limit_of, installation_fault,
    makes_archive, missing_prerequisite, start_obstacle, HandleLimit, PluginCheck,
};
use vstd::prelude::*;
use vstd::string::*;

verus! {

/// What of a run's options and state its course depends on.
#[derive(Debug, Copy, Clone)]
pub struct Config {
    /// The build mode.
    pub mode: BuildMode,
    /// The number of the stage to start from, where one was asked for.
    pub start_stage: Option<i32>,
    /// The operator is not to be asked.
    pub no_prompt: bool,
    /// The intermediate files are kept after the run.
    pub keep_files: bool,
    /// BSArch packs instead of Archive2.
    pub use_bsarch: bool,
    /// No plugin has been named yet.
    pub unnamed: bool,
    /// The name of the content tool's log is known.
    pub has_log: bool,
    /// How often the editor's log is looked for; without a bound where none.
    pub patience: Option<u32>,
}

/// Where a stage stands. Each phase waits for the response to the request
/// that [`stage_request`] gives for it.
#[derive(Debug, Copy, Clone, PartialEq, Eq, Structural)]
pub enum StagePhase {
    /// The data directory is being looked at before the stage starts.
    Entering,
    /// A file that an earlier run may have left is being removed; the number
    /// counts the files removed before.
    Clearing(u8),
    /// The content tool is at work.
    ContentTool(CkPhase),
    /// The editor is at work.
    Editor(EditorPhase),
    /// The data directory is being looked at for what the tool has left.
    Inspecting,
    /// The tool's log is being read. The flag says whether the data directory
    /// showed all that the stage must leave.
    ReadingLog(bool),
    /// The operator is being warned.
    Warning,
    /// Archive2 is packing the precombined meshes.
    Packing(PackPhase),
    /// BSArch is packing the given folders.
    PackingWithBsArch(PackSet),
    /// The visibility files are being added to the archive.
    Adding(AddPhase),
    /// What the stage has packed or compressed is being removed.
    Tidying,
}

/// A step of the cleanup after the last stage.
#[derive(Debug, Copy, Clone, PartialEq, Eq, Structural)]
pub enum CleanStep {
    /// The overlay library with the given index is put back, should it still
    /// be set aside.
    Restoring(u8),
    /// `CombinedObjects.esp` is removed.
    RemovingCombinedObjects,
    /// `Previs.esp` is removed.
    RemovingPrevis,
    /// The directory of visibility files is removed.
    RemovingVis,
}

/// Where a run stands. Each position but the first waits for the response to
/// the request that [`request_at`] gives for it.
#[derive(Debug, Copy, Clone, PartialEq, Eq, Structural)]
pub enum Position {
    /// Nothing has been asked yet.
    Start,
    /// The run log is being started.
    StartingLog,
    /// The operator is being told that the run begins.
    Greeting,
    /// The data directory is being looked at for what the stage that was
    /// asked for needs.
    ProbingStart(BuildStage),
    /// The operator is being asked for the plugin's name.
    AskingName,
    /// The data directory is being looked at for the plugin.
    ProbingPlugin,
    /// The operator is being asked for the stage to resume from.
    AskingStage,
    /// The installation is being looked at. The stage is the one the run
    /// starts from.
    Installing(BuildStage),
    /// The scripts and the configuration of the given form are being looked
    /// at.
    Configuring(BuildStage, ConfigVariant),
    /// The operator is being warned that the handle limit is not raised.
    WarningHandles(BuildStage, HandleLimit),
    /// The data directory is being looked at for the plugin and its archive.
    CheckingPlugin(BuildStage),
    /// The operator is being asked whether the seed plugin may be renamed.
    AskingSeed(BuildStage),
    /// The seed plugin is being renamed to the plugin.
    RenamingSeed(BuildStage),
    /// A stage is at work.
    InStage(BuildStage, StagePhase),
    /// The cleanup is at work.
    Cleaning(CleanStep),
    /// The operator is being told that a step of the cleanup failed.
    Reporting(CleanStep),
    /// The operator is being told that the run has ended well.
    Completing,
    /// The run has ended well.
    Finished,
    /// The run has ended with a failure.
    Failed(Failure),
}

/// What the content tool does in `stage`.
pub open spec fn action_of(stage: BuildStage) -> CkAction {
    match stage {
        BuildStage::CompressPsg => CkAction::CompressPsg,
        BuildStage::BuildCdx => CkAction::BuildCdx,
        BuildStage::GeneratePrevis => CkAction::GeneratePrevisData,
        _ => CkAction::GeneratePrecombined,
    }
}

/// The script that the editor runs in `stage`.
pub open spec fn script_of(stage: BuildStage) -> Script {
    match stage {
        BuildStage::MergePrevis => Script::MergePrevis,
        _ => Script::MergeCombinedObjects,
    }
}

/// What BSArch packs in `stage`.
pub open spec fn job_of(stage: BuildStage) -> PackJob {
    match stage {
        BuildStage::ArchiveVis => PackJob::Vis,
        _ => PackJob::Precombines,
    }
}

/// The file that `stage` removes before its tool runs, the `k`-th of them.
pub open spec fn stale_file(stage: BuildStage, k: u8) -> Artifact {
    match stage {
        BuildStage::GeneratePrevis => Artifact::Previs,
        _ => if k == 0 {
            Artifact::CombinedObjects
        } else {
            Artifact::GeometryPsg
        },
    }
}

/// The failure of `stage` where the `k`-th of its stale files cannot be
/// removed.
pub open spec fn stale_failure(stage: BuildStage, k: u8) -> Failure {
    match stage {
        BuildStage::GeneratePrevis => Failure::RemovePrevis,
        _ => if k == 0 {
            Failure::RemoveCombinedObjects
        } else {
            Failure::RemoveGeometry
        },
    }
}

/// What `stage` removes once it has packed or compressed it.
pub open spec fn tidy_request(stage: BuildStage) -> Request {
    match stage {
        BuildStage::CompressPsg => Request::Remove(Artifact::GeometryPsg),
        BuildStage::ArchiveVis => Request::RemoveTreeIfPresent(Artifact::VisDir),
        _ => Request::RemoveTreeIfPresent(Artifact::PrecombinedDir),
    }
}

/// The failure of `stage` where it cannot remove what it has packed or
/// compressed.
pub open spec fn tidy_failure(stage: BuildStage) -> Failure {
    match stage {
        BuildStage::CompressPsg => Failure::RemovePsg,
        BuildStage::ArchiveVis => Failure::RemoveVis,
        _ => Failure::RemovePrecombined,
    }
}

/// The log that `stage` reads after its tool has run.
pub open spec fn log_of(stage: BuildStage) -> Artifact {
    match stage {
        BuildStage::MergePrecombines | BuildStage::MergePrevis => Artifact::UnattendedLog,
        _ => Artifact::CkLog,
    }
}

/// The request that `stage` makes on entering `phase`.
pub open spec fn stage_request(stage: BuildStage, phase: StagePhase) -> Request {
    match phase {
        StagePhase::Entering => Request::SurveyData,
        StagePhase::Clearing(k) => Request::RemoveIfPresent(stale_file(stage, k)),
        StagePhase::ContentTool(at) => ck_request(action_of(stage), at),
        StagePhase::Editor(at) => editor_request(script_of(stage), at),
        StagePhase::Inspecting => Request::SurveyData,
        StagePhase::ReadingLog(_) => Request::ReadText(log_of(stage)),
        StagePhase::Warning => Request::Warn(Warning::MergeHadErrors),
        StagePhase::Packing(at) => pack_request(only(Folder::Precombined), at),
        StagePhase::PackingWithBsArch(set) => Request::PackWithBsArch(job_of(stage), set),
        StagePhase::Adding(at) => add_request(at),
        StagePhase::Tidying => tidy_request(stage),
    }
}

/// The request of a step of the cleanup.
pub open spec fn clean_request(step: CleanStep) -> Request {
    match step {
        CleanStep::Restoring(i) => Request::RenameIfPresent(
            Artifact::DisabledOverlay(i),
            Artifact::Overlay(i),
        ),
        CleanStep::RemovingCombinedObjects => Request::RemoveIfPresent(Artifact::CombinedObjects),
        CleanStep::RemovingPrevis => Request::RemoveIfPresent(Artifact::Previs),
        CleanStep::RemovingVis => Request::RemoveTreeIfPresent(Artifact::VisDir),
    }
}

/// The warning that goes with a handle limit that is not raised.
pub open spec fn handle_warning(limit: HandleLimit) -> Warning {
    match limit {
        HandleLimit::Disabled => Warning::HandleLimitDisabled,
        _ => Warning::HandleLimitNotFound,
    }
}

/// The request that a run makes on reaching `position`; once the run has
/// ended it asks for nothing more.
pub open spec fn request_at(position: Position) -> Request {
    match position {
        Position::Start => Request::Finished,
        Position::StartingLog => Request::StartRunLog,
        Position::Greeting => Request::Tell(Notice::Banner),
        Position::ProbingStart(_) => Request::SurveyData,
        Position::AskingName => Request::AskPluginName,
        Position::ProbingPlugin => Request::SurveyData,
        Position::AskingStage => Request::AskStartStage,
        Position::Installing(_) => Request::SurveyInstallation,
        Position::Configuring(_, variant) => Request::SurveyConfiguration(variant),
        Position::WarningHandles(_, limit) => Request::Warn(handle_warning(limit)),
        Position::CheckingPlugin(_) => Request::SurveyData,
        Position::AskingSeed(_) => Request::AskToRenameSeed,
        Position::RenamingSeed(_) => Request::Rename(Artifact::Seed, Artifact::Plugin),
        Position::InStage(stage, phase) => stage_request(stage, phase),
        Position::Cleaning(step) => clean_request(step),
        Position::Reporting(_) => Request::Warn(Warning::CleanupFailed),
        Position::Completing => Request::Tell(Notice::Complete),
        Position::Finished => Request::Finished,
        Position::Failed(_) => Request::Finished,
    }
}

/// Where a run that starts from `start` enters its first stage.
pub open spec fn enter(start: BuildStage, mode: BuildMode) -> Position {
    Position::InStage(start.first_from(mode), StagePhase::Entering)
}

/// Where a run goes once `stage` is done: into the stage that follows, or,
/// after the last stage, into the cleanup.
pub open spec fn leave(stage: BuildStage, mode: BuildMode) -> Position {
    match stage.following(mode) {
        Some(next) => Position::InStage(next, StagePhase::Entering),
        None => Position::Cleaning(CleanStep::Restoring(0)),
    }
}

/// Where a run goes once the operator has been greeted: to the look at what
/// the stage that was asked for needs; without such a stage to the question
/// for the plugin's name, if none is known, and else to the look for the
/// plugin. A number that names no stage ends the run.
pub open spec fn after_greeting(cfg: Config) -> Position {
    match cfg.start_stage {
        Some(n) => match stage_numbered(n as int) {
            Some(stage) => Position::ProbingStart(stage),
            None => Position::Failed(Failure::InvalidStage(n)),
        },
        None => if cfg.unnamed {
            Position::AskingName
        } else {
            Position::ProbingPlugin
        },
    }
}

/// What `stage` does once the data directory shows what it needs: the two
/// generating stages refuse to start over what an earlier run left, and
/// every stage goes to its first step.
pub open spec fn begin_stage(stage: BuildStage, cfg: Config, facts: DataFacts) -> Position {
    match stage {
        BuildStage::VerifyEnvironment => leave(stage, cfg.mode),
        BuildStage::GeneratePrecombines => if facts.precombined_present() {
            Position::Failed(Failure::PrecombinedNotEmpty)
        } else if facts.visibility_present() {
            Position::Failed(Failure::VisNotEmpty)
        } else {
            Position::InStage(stage, StagePhase::Clearing(0))
        },
        BuildStage::MergePrecombines | BuildStage::MergePrevis => Position::InStage(
            stage,
            StagePhase::Editor(editor_first()),
        ),
        BuildStage::ArchivePrecombines => if cfg.use_bsarch {
            Position::InStage(stage, StagePhase::PackingWithBsArch(only(Folder::Precombined)))
        } else {
            Position::InStage(stage, StagePhase::Packing(PackPhase::Packing))
        },
        BuildStage::CompressPsg | BuildStage::BuildCdx => Position::InStage(
            stage,
            StagePhase::ContentTool(ck_first()),
        ),
        BuildStage::GeneratePrevis => if facts.visibility_present() {
            Position::Failed(Failure::VisNotEmpty)
        } else {
            Position::InStage(stage, StagePhase::Clearing(0))
        },
        BuildStage::ArchiveVis => if cfg.use_bsarch {
            Position::InStage(
                stage,
                StagePhase::PackingWithBsArch(
                    if facts.precombined_present() {
                        with_precombined(Folder::Vis)
                    } else {
                        only(Folder::Vis)
                    },
                ),
            )
        } else {
            Position::InStage(stage, StagePhase::Adding(add_first()))
        },
    }
}

/// What `stage` makes of the data directory after its tool has run: each
/// stage fails where the tool did not leave what it must.
pub open spec fn inspect_stage(stage: BuildStage, cfg: Config, facts: DataFacts) -> Position {
    match stage {
        BuildStage::GeneratePrecombines => {
            let geometry = cfg.mode != BuildMode::Clean || facts.geometry_psg_exists;
            if !facts.precombined_present() {
                Position::Failed(Failure::NoPrecombinesCreated)
            } else if cfg.has_log {
                Position::InStage(stage, StagePhase::ReadingLog(geometry))
            } else if geometry {
                leave(stage, cfg.mode)
            } else {
                Position::Failed(Failure::GeometryNotCreated)
            }
        },
        BuildStage::CompressPsg => if facts.geometry_csg_exists {
            Position::InStage(stage, StagePhase::Tidying)
        } else {
            Position::Failed(Failure::CsgNotCreated)
        },
        BuildStage::GeneratePrevis => if !facts.visibility_present() {
            Position::Failed(Failure::NoVisibilityCreated)
        } else if !facts.previs_exists {
            Position::Failed(Failure::PrevisNotCreated)
        } else if cfg.has_log {
            Position::InStage(stage, StagePhase::ReadingLog(true))
        } else {
            leave(stage, cfg.mode)
        },
        _ => leave(stage, cfg.mode),
    }
}

/// What `stage` makes of its tool's log; `complete` says whether the data
/// directory showed all that the stage must leave. For the generating stages
/// a mark of failure in the content tool's log ends the run. Both merges
/// look for the editor's word that there were no errors: where it is missing,
/// the merge of the combined objects warns the operator and goes on, and the
/// merge of the previs data ends the run.
pub open spec fn judge_stage_log(
    stage: BuildStage,
    cfg: Config,
    complete: bool,
    log: Option<Seq<char>>,
) -> Position {
    match stage {
        BuildStage::GeneratePrecombines => if log is Some && log_out_of_handles(log->0) {
            Position::Failed(Failure::OutOfHandles)
        } else if complete {
            leave(stage, cfg.mode)
        } else {
            Position::Failed(Failure::GeometryNotCreated)
        },
        BuildStage::GeneratePrevis => if log is Some && log_visibility_incomplete(log->0) {
            Position::Failed(Failure::VisibilityIncomplete)
        } else {
            leave(stage, cfg.mode)
        },
        BuildStage::MergePrecombines => if log is Some && log_clean(log->0) {
            leave(stage, cfg.mode)
        } else {
            Position::InStage(stage, StagePhase::Warning)
        },
        BuildStage::MergePrevis => match log {
            Some(text) => if log_clean(text) {
                leave(stage, cfg.mode)
            } else {
                Position::Failed(Failure::MergePrevisIncomplete)
            },
            None => Position::Failed(Failure::MergePrevisSilent),
        },
        _ => leave(stage, cfg.mode),
    }
}

/// The failure of `stage` where its tool's log cannot be read.
pub open spec fn log_failure(stage: BuildStage) -> Failure {
    match stage {
        BuildStage::MergePrecombines | BuildStage::MergePrevis => Failure::UnattendedLogUnreadable,
        _ => Failure::CkLogUnreadable,
    }
}

/// Where `stage` goes once the content tool has done its work.
pub open spec fn after_content_tool(stage: BuildStage, cfg: Config) -> Position {
    match stage {
        BuildStage::BuildCdx => leave(stage, cfg.mode),
        _ => Position::InStage(stage, StagePhase::Inspecting),
    }
}

/// Where `stage` goes after `response` has come in, in `phase`.
pub open spec fn stage_advance(
    stage: BuildStage,
    phase: StagePhase,
    cfg: Config,
    response: Response,
) -> Position {
    match phase {
        StagePhase::Entering => match response {
            Response::Data(facts) => match missing_prerequisite(stage, cfg.mode, facts) {
                Some(failure) => Position::Failed(failure),
                None => begin_stage(stage, cfg, facts),
            },
            _ => Position::Failed(Failure::OutOfTurn),
        },
        StagePhase::Clearing(k) => match response {
            Response::Done => if stage == BuildStage::GeneratePrecombines && k == 0 {
                Position::InStage(stage, StagePhase::Clearing(1))
            } else {
                Position::InStage(stage, StagePhase::ContentTool(ck_first()))
            },
            Response::Failed(_) => Position::Failed(stale_failure(stage, k)),
            _ => Position::Failed(Failure::OutOfTurn),
        },
        StagePhase::ContentTool(at) => match ck_next(action_of(stage), cfg.has_log, at, response) {
            CkFlow::Next(next) => Position::InStage(stage, StagePhase::ContentTool(next)),
            CkFlow::Done(Some(failure)) => Position::Failed(failure),
            CkFlow::Done(None) => after_content_tool(stage, cfg),
        },
        StagePhase::Editor(at) => match editor_next(script_of(stage), cfg.patience, at, response) {
            EditorFlow::Next(next) => Position::InStage(stage, StagePhase::Editor(next)),
            EditorFlow::Done(Some(failure)) => Position::Failed(failure),
            EditorFlow::Done(None) => Position::InStage(stage, StagePhase::ReadingLog(true)),
        },
        StagePhase::Inspecting => match response {
            Response::Data(facts) => inspect_stage(stage, cfg, facts),
            _ => Position::Failed(Failure::OutOfTurn),
        },
        StagePhase::ReadingLog(complete) => match response {
            Response::Text(log) => judge_stage_log(stage, cfg, complete, log.deep_view()),
            Response::Failed(_) => Position::Failed(log_failure(stage)),
            _ => Position::Failed(Failure::OutOfTurn),
        },
        StagePhase::Warning => leave(stage, cfg.mode),
        StagePhase::Packing(at) => match pack_next(at, response) {
            PackFlow::Next(next) => Position::InStage(stage, StagePhase::Packing(next)),
            PackFlow::Done(Some(failure)) => Position::Failed(failure),
            PackFlow::Done(None) => Position::InStage(stage, StagePhase::Tidying),
        },
        StagePhase::PackingWithBsArch(_) => match bsarch_verdict(job_of(stage), response) {
            Some(failure) => Position::Failed(failure),
            None => leave(stage, cfg.mode),
        },
        StagePhase::Adding(at) => match add_next(Folder::Vis, at, response) {
            AddFlow::Next(next) => Position::InStage(stage, StagePhase::Adding(next)),
            AddFlow::Done(Some(failure)) => Position::Failed(failure),
            AddFlow::Done(None) => Position::InStage(stage, StagePhase::Tidying),
        },
        StagePhase::Tidying => match response {
            Response::Done => leave(stage, cfg.mode),
            Response::Failed(_) => Position::Failed(tidy_failure(stage)),
            _ => Position::Failed(Failure::OutOfTurn),
        },
    }
}

/// Where the cleanup goes after `step`: through the overlay libraries, then,
/// unless the intermediate files are kept, through the two working files and
/// the working directory, and then to the end of the run.
pub open spec fn after_clean(step: CleanStep, cfg: Config) -> Position {
    match step {
        CleanStep::Restoring(i) => if i + 1 < OVERLAY_COUNT {
            Position::Cleaning(CleanStep::Restoring((i + 1) as u8))
        } else if cfg.keep_files {
            Position::Completing
        } else {
            Position::Cleaning(CleanStep::RemovingCombinedObjects)
        },
        CleanStep::RemovingCombinedObjects => Position::Cleaning(CleanStep::RemovingPrevis),
        CleanStep::RemovingPrevis => Position::Cleaning(CleanStep::RemovingVis),
        CleanStep::RemovingVis => Position::Completing,
    }
}

/// Where a run goes after `response` has come in, at `position`. `checked`
/// is what the check of the scripts and the configuration came to; only the
/// position that waits for the look at them reads it.
///
/// The run starts its log and greets the operator; finds the stage to start
/// from; verifies the environment; checks the plugin; takes the stages in
/// scope from the start stage on through their steps, one after the other;
/// and cleans up. The first failure ends the run; a failed step of the
/// cleanup is reported and ends nothing.
pub open spec fn advance(
    position: Position,
    cfg: Config,
    response: Response,
    checked: Result<HandleLimit, Failure>,
) -> Position {
    match position {
        Position::Start => Position::StartingLog,
        Position::StartingLog => match response {
            Response::Done => Position::Greeting,
            Response::Failed(_) => Position::Failed(Failure::RunLogUnwritable),
            _ => Position::Failed(Failure::OutOfTurn),
        },
        Position::Greeting => after_greeting(cfg),
        Position::ProbingStart(stage) => match response {
            Response::Data(facts) => match missing_prerequisite(stage, cfg.mode, facts) {
                Some(failure) => Position::Failed(failure),
                None => Position::Installing(stage),
            },
            _ => Position::Failed(Failure::OutOfTurn),
        },
        Position::AskingName => match response {
            Response::Answer(text) => if trimmed(text@).len() == 0 {
                Position::Failed(Failure::NoPluginName)
            } else {
                Position::ProbingPlugin
            },
            Response::Failed(_) => Position::Failed(Failure::InputUnreadable),
            _ => Position::Failed(Failure::OutOfTurn),
        },
        Position::ProbingPlugin => match response {
            Response::Data(facts) => if facts.plugin_exists {
                Position::AskingStage
            } else {
                Position::Installing(BuildStage::VerifyEnvironment)
            },
            _ => Position::Failed(Failure::OutOfTurn),
        },
        Position::AskingStage => match response {
            Response::Answer(text) => match stage_asked(text@) {
                Ok(stage) => Position::Installing(stage),
                Err(failure) => Position::Failed(failure),
            },
            Response::Failed(_) => Position::Failed(Failure::InputUnreadable),
            _ => Position::Failed(Failure::OutOfTurn),
        },
        Position::Installing(start) => match response {
            Response::Installation(facts) => match installation_fault(facts) {
                Some(fault) => Position::Failed(fault.failure),
                None => match detected_variant(facts) {
                    Some(variant) => Position::Configuring(start, variant),
                    None => Position::Failed(Failure::NoConfiguration),
                },
            },
            _ => Position::Failed(Failure::OutOfTurn),
        },
        Position::Configuring(start, _) => match response {
            Response::Configuration(_) => match checked {
                Ok(HandleLimit::Raised) => Position::CheckingPlugin(start),
                Ok(limit) => Position::WarningHandles(start, limit),
                Err(failure) => Position::Failed(failure),
            },
            _ => Position::Failed(Failure::OutOfTurn),
        },
        Position::WarningHandles(start, _) => Position::CheckingPlugin(start),
        Position::CheckingPlugin(start) => match response {
            Response::Data(facts) => match start_obstacle(start, facts, cfg.no_prompt) {
                Some(failure) => Position::Failed(failure),
                None => if facts.plugin_exists {
                    enter(start, cfg.mode)
                } else {
                    Position::AskingSeed(start)
                },
            },
            _ => Position::Failed(Failure::OutOfTurn),
        },
        Position::AskingSeed(start) => match response {
            Response::Answer(text) => if says_yes(text@) {
                Position::RenamingSeed(start)
            } else {
                Position::Failed(Failure::Aborted)
            },
            Response::Failed(_) => Position::Failed(Failure::InputUnreadable),
            _ => Position::Failed(Failure::OutOfTurn),
        },
        Position::RenamingSeed(start) => match response {
            Response::Done => enter(start, cfg.mode),
            Response::Failed(_) => Position::Failed(Failure::SeedRename),
            _ => Position::Failed(Failure::OutOfTurn),
        },
        Position::InStage(stage, phase) => stage_advance(stage, phase, cfg, response),
        Position::Cleaning(step) => match response {
            Response::Done => after_clean(step, cfg),
            _ => Position::Reporting(step),
        },
        Position::Reporting(step) => after_clean(step, cfg),
        Position::Completing => Position::Finished,
        Position::Finished => Position::Finished,
        Position::Failed(failure) => Position::Failed(failure),
    }
}

/// The failure that a run has met at `position`, if it has met one. While the
/// content tool's overlays are put back the run goes on, the failure with it.
pub open spec fn failure_at(position: Position) -> Option<Failure> {
    match position {
        Position::Failed(failure) => Some(failure),
        Position::InStage(_, StagePhase::ContentTool(CkPhase::Restoring(_, Some(failure)))) => Some(
            failure,
        ),
        _ => None,
    }
}

/// The file or setting that the wording of `failure` names, for a failure
/// that the sequencer words itself.
pub open spec fn subject_text(failure: Failure, identity: PluginIdentity, settings: CkpeSettings)
    -> Seq<char> {
    match failure {
        Failure::PluginMissing => identity.file_name@,
        Failure::ArchiveExists => identity.archive_name@,
        Failure::ArchiveNotCreated => identity.archive_name@,
        Failure::ArchiveAbsent => identity.archive_name@,
        Failure::OutputMissing(action, _) => output_text(action, identity.base_name@),
        Failure::RemoveCkLog | Failure::CkLogCopy => match settings.log_file {
            Some(name) => name@,
            None => Seq::empty(),
        },
        _ => Seq::empty(),
    }
}

/// What the content tool does in `stage`.
fn action_for(stage: BuildStage) -> (r: CkAction)
    ensures
        r == action_of(stage),
{
    match stage {
        BuildStage::CompressPsg => CkAction::CompressPsg,
        BuildStage::BuildCdx => CkAction::BuildCdx,
        BuildStage::GeneratePrevis => CkAction::GeneratePrevisData,
        _ => CkAction::GeneratePrecombined,
    }
}

/// The script that the editor runs in `stage`.
fn script_for(stage: BuildStage) -> (r: Script)
    ensures
        r == script_of(stage),
{
    match stage {
        BuildStage::MergePrevis => Script::MergePrevis,
        _ => Script::MergeCombinedObjects,
    }
}

/// What BSArch packs in `stage`.
fn job_for(stage: BuildStage) -> (r: PackJob)
    ensures
        r == job_of(stage),
{
    match stage {
        BuildStage::ArchiveVis => PackJob::Vis,
        _ => PackJob::Precombines,
    }
}

/// The request that `stage` makes on entering `phase`.
fn request_in_stage(stage: BuildStage, phase: StagePhase) -> (r: Request)
    ensures
        r == stage_request(stage, phase),
{
    match phase {
        StagePhase::Entering => Request::SurveyData,
        StagePhase::Clearing(k) => {
            let stale = match stage {
                BuildStage::GeneratePrevis => Artifact::Previs,
                _ => {
                    if k == 0 {
                        Artifact::CombinedObjects
                    } else {
                        Artifact::GeometryPsg
                    }
                },
            };
            Request::RemoveIfPresent(stale)
        },
        StagePhase::ContentTool(at) => creation_kit_request(action_for(stage), at),
        StagePhase::Editor(at) => xedit_request(script_for(stage), at),
        StagePhase::Inspecting => Request::SurveyData,
        StagePhase::ReadingLog(_) => match stage {
            BuildStage::MergePrecombines => Request::ReadText(Artifact::UnattendedLog),
            BuildStage::MergePrevis => Request::ReadText(Artifact::UnattendedLog),
            _ => Request::ReadText(Artifact::CkLog),
        },
        StagePhase::Warning => Request::Warn(Warning::MergeHadErrors),
        StagePhase::Packing(at) => match at {
            PackPhase::Packing => Request::Pack(PackSet { precombined: true, vis: false }),
            PackPhase::Confirming => Request::SurveyData,
        },
        StagePhase::PackingWithBsArch(set) => Request::PackWithBsArch(job_for(stage), set),
        StagePhase::Adding(at) => archive_request(at),
        StagePhase::Tidying => match stage {
            BuildStage::CompressPsg => Request::Remove(Artifact::GeometryPsg),
            BuildStage::ArchiveVis => Request::RemoveTreeIfPresent(Artifact::VisDir),
            _ => Request::RemoveTreeIfPresent(Artifact::PrecombinedDir),
        },
    }
}

/// The request that a run makes on reaching `position`.
pub fn request_for(position: Position) -> (r: Request)
    ensures
        r == request_at(position),
{
    match position {
        Position::Start => Request::Finished,
        Position::StartingLog => Request::StartRunLog,
        Position::Greeting => Request::Tell(Notice::Banner),
        Position::ProbingStart(_) => Request::SurveyData,
        Position::AskingName => Request::AskPluginName,
        Position::ProbingPlugin => Request::SurveyData,
        Position::AskingStage => Request::AskStartStage,
        Position::Installing(_) => Request::SurveyInstallation,
        Position::Configuring(_, variant) => Request::SurveyConfiguration(variant),
        Position::WarningHandles(_, limit) => match limit {
            HandleLimit::Disabled => Request::Warn(Warning::HandleLimitDisabled),
            _ => Request::Warn(Warning::HandleLimitNotFound),
        },
        Position::CheckingPlugin(_) => Request::SurveyData,
        Position::AskingSeed(_) => Request::AskToRenameSeed,
        Position::RenamingSeed(_) => Request::Rename(Artifact::Seed, Artifact::Plugin),
        Position::InStage(stage, phase) => request_in_stage(stage, phase),
        Position::Cleaning(step) => match step {
            CleanStep::Restoring(i) => Request::RenameIfPresent(
                Artifact::DisabledOverlay(i),
                Artifact::Overlay(i),
            ),
            CleanStep::RemovingCombinedObjects => Request::RemoveIfPresent(
                Artifact::CombinedObjects,
            ),
            CleanStep::RemovingPrevis => Request::RemoveIfPresent(Artifact::Previs),
            CleanStep::RemovingVis => Request::RemoveTreeIfPresent(Artifact::VisDir),
        },
        Position::Reporting(_) => Request::Warn(Warning::CleanupFailed),
        Position::Completing => Request::Tell(Notice::Complete),
        Position::Finished => Request::Finished,
        Position::Failed(_) => Request::Finished,
    }
}

/// Where a run goes once `stage` is done.
fn leave_stage(stage: BuildStage, mode: BuildMode) -> (r: Position)
    ensures
        r == leave(stage, mode),
{
    match stage.next_to_run(mode) {
        Some(next) => Position::InStage(next, StagePhase::Entering),
        None => Position::Cleaning(CleanStep::Restoring(0)),
    }
}

/// What `stage` does once the data directory shows what it needs.
fn begin(stage: BuildStage, cfg: &Config, facts: &DataFacts) -> (r: Position)
    ensures
        r == begin_stage(stage, *cfg, *facts),
{
    match stage {
        BuildStage::VerifyEnvironment => leave_stage(stage, cfg.mode),
        BuildStage::GeneratePrecombines => {
            if facts.has_precombined() {
                Position::Failed(Failure::PrecombinedNotEmpty)
            } else if facts.has_visibility() {
                Position::Failed(Failure::VisNotEmpty)
            } else {
                Position::InStage(stage, StagePhase::Clearing(0))
            }
        },
        BuildStage::MergePrecombines => Position::InStage(
            stage,
            StagePhase::Editor(EditorPhase::Heading),
        ),
        BuildStage::MergePrevis => Position::InStage(
            stage,
            StagePhase::Editor(EditorPhase::Heading),
        ),
        BuildStage::ArchivePrecombines => {
            if cfg.use_bsarch {
                Position::InStage(
                    stage,
                    StagePhase::PackingWithBsArch(PackSet { precombined: true, vis: false }),
                )
            } else {
                Position::InStage(stage, StagePhase::Packing(PackPhase::Packing))
            }
        },
        BuildStage::CompressPsg => Position::InStage(
            stage,
            StagePhase::ContentTool(CkPhase::Disabling(0)),
        ),
        BuildStage::BuildCdx => Position::InStage(
            stage,
            StagePhase::ContentTool(CkPhase::Disabling(0)),
        ),
        BuildStage::GeneratePrevis => {
            if facts.has_visibility() {
                Position::Failed(Failure::VisNotEmpty)
            } else {
                Position::InStage(stage, StagePhase::Clearing(0))
            }
        },
        BuildStage::ArchiveVis => {
            if cfg.use_bsarch {
                let meshes = facts.has_precombined();
                Position::InStage(
                    stage,
                    StagePhase::PackingWithBsArch(PackSet { precombined: meshes, vis: true }),
                )
            } else {
                Position::InStage(stage, StagePhase::Adding(AddPhase::Looking))
            }
        },
    }
}

/// What `stage` makes of the data directory after its tool has run.
fn inspect(stage: BuildStage, cfg: &Config, facts: &DataFacts) -> (r: Position)
    ensures
        r == inspect_stage(stage, *cfg, *facts),
{
    match stage {
        BuildStage::GeneratePrecombines => {
            let geometry = cfg.mode != BuildMode::Clean || facts.geometry_psg_exists;
            if !facts.has_precombined() {
                Position::Failed(Failure::NoPrecombinesCreated)
            } else if cfg.has_log {
                Position::InStage(stage, StagePhase::ReadingLog(geometry))
            } else if geometry {
                leave_stage(stage, cfg.mode)
            } else {
                Position::Failed(Failure::GeometryNotCreated)
            }
        },
        BuildStage::CompressPsg => {
            if facts.geometry_csg_exists {
                Position::InStage(stage, StagePhase::Tidying)
            } else {
                Position::Failed(Failure::CsgNotCreated)
            }
        },
        BuildStage::GeneratePrevis => {
            if !facts.has_visibility() {
                Position::Failed(Failure::NoVisibilityCreated)
            } else if !facts.previs_exists {
                Position::Failed(Failure::PrevisNotCreated)
            } else if cfg.has_log {
                Position::InStage(stage, StagePhase::ReadingLog(true))
            } else {
                leave_stage(stage, cfg.mode)
            }
        },
        _ => leave_stage(stage, cfg.mode),
    }
}

/// What `stage` makes of its tool's log.
fn judge_log(stage: BuildStage, cfg: &Config, complete: bool, log: &Option<String>) -> (r: Position)
    ensures
        r == judge_stage_log(stage, *cfg, complete, log.deep_view()),
{
    match stage {
        BuildStage::GeneratePrecombines => {
            let out_of_handles = match log {
                Some(text) => ran_out_of_handles(text.as_str()),
                None => false,
            };
            if out_of_handles {
                Position::Failed(Failure::OutOfHandles)
            } else if complete {
                leave_stage(stage, cfg.mode)
            } else {
                Position::Failed(Failure::GeometryNotCreated)
            }
        },
        BuildStage::GeneratePrevis => {
            let incomplete = match log {
                Some(text) => visibility_incomplete(text.as_str()),
                None => false,
            };
            if incomplete {
                Position::Failed(Failure::VisibilityIncomplete)
            } else {
                leave_stage(stage, cfg.mode)
            }
        },
        BuildStage::MergePrecombines => {
            let clean = match log {
                Some(text) => script_completed_cleanly(text.as_str()),
                None => false,
            };
            if clean {
                leave_stage(stage, cfg.mode)
            } else {
                Position::InStage(stage, StagePhase::Warning)
            }
        },
        BuildStage::MergePrevis => match log {
            Some(text) => {
                if script_completed_cleanly(text.as_str()) {
                    leave_stage(stage, cfg.mode)
                } else {
                    Position::Failed(Failure::MergePrevisIncomplete)
                }
            },
            None => Position::Failed(Failure::MergePrevisSilent),
        },
        _ => leave_stage(stage, cfg.mode),
    }
}

/// Where `stage` goes after `response` has come in, in `phase`.
fn step_stage(stage: BuildStage, phase: StagePhase, cfg: &Config, response: &Response) -> (r:
    Position)
    ensures
        r == stage_advance(stage, phase, *cfg, *response),
{
    match phase {
        StagePhase::Entering => match response {
            Response::Data(facts) => match check_stage_prerequisites(stage, facts, &cfg.mode) {
                Err(failure) => Position::Failed(failure),
                Ok(()) => begin(stage, cfg, facts),
            },
            _ => Position::Failed(Failure::OutOfTurn),
        },
        StagePhase::Clearing(k) => match response {
            Response::Done => {
                let again = match stage {
                    BuildStage::GeneratePrecombines => k == 0,
                    _ => false,
                };
                if again {
                    Position::InStage(stage, StagePhase::Clearing(1))
                } else {
                    Position::InStage(stage, StagePhase::ContentTool(CkPhase::Disabling(0)))
                }
            },
            Response::Failed(_) => match stage {
                BuildStage::GeneratePrevis => Position::Failed(Failure::RemovePrevis),
                _ => {
                    if k == 0 {
                        Position::Failed(Failure::RemoveCombinedObjects)
                    } else {
                        Position::Failed(Failure::RemoveGeometry)
                    }
                },
            },
            _ => Position::Failed(Failure::OutOfTurn),
        },
        StagePhase::ContentTool(at) => match run_creation_kit(
            action_for(stage),
            cfg.has_log,
            at,
            response,
        ) {
            CkFlow::Next(next) => Position::InStage(stage, StagePhase::ContentTool(next)),
            CkFlow::Done(Some(failure)) => Position::Failed(failure),
            CkFlow::Done(None) => match stage {
                BuildStage::BuildCdx => leave_stage(stage, cfg.mode),
                _ => Position::InStage(stage, StagePhase::Inspecting),
            },
        },
        StagePhase::Editor(at) => match run_xedit_script(
            script_for(stage),
            cfg.patience,
            at,
            response,
        ) {
            EditorFlow::Next(next) => Position::InStage(stage, StagePhase::Editor(next)),
            EditorFlow::Done(Some(failure)) => Position::Failed(failure),
            EditorFlow::Done(None) => Position::InStage(stage, StagePhase::ReadingLog(true)),
        },
        StagePhase::Inspecting => match response {
            Response::Data(facts) => inspect(stage, cfg, facts),
            _ => Position::Failed(Failure::OutOfTurn),
        },
        StagePhase::ReadingLog(complete) => match response {
            Response::Text(log) => judge_log(stage, cfg, complete, log),
            Response::Failed(_) => match stage {
                BuildStage::MergePrecombines => Position::Failed(Failure::UnattendedLogUnreadable),
                BuildStage::MergePrevis => Position::Failed(Failure::UnattendedLogUnreadable),
                _ => Position::Failed(Failure::CkLogUnreadable),
            },
            _ => Position::Failed(Failure::OutOfTurn),
        },
        StagePhase::Warning => leave_stage(stage, cfg.mode),
        StagePhase::Packing(at) => match run_archive(at, response) {
            PackFlow::Next(next) => Position::InStage(stage, StagePhase::Packing(next)),
            PackFlow::Done(Some(failure)) => Position::Failed(failure),
            PackFlow::Done(None) => Position::InStage(stage, StagePhase::Tidying),
        },
        StagePhase::PackingWithBsArch(_) => match run_bsarch(job_for(stage), response) {
            Some(failure) => Position::Failed(failure),
            None => leave_stage(stage, cfg.mode),
        },
        StagePhase::Adding(at) => match add_to_archive(Folder::Vis, at, response) {
            AddFlow::Next(next) => Position::InStage(stage, StagePhase::Adding(next)),
            AddFlow::Done(Some(failure)) => Position::Failed(failure),
            AddFlow::Done(None) => Position::InStage(stage, StagePhase::Tidying),
        },
        StagePhase::Tidying => match response {
            Response::Done => leave_stage(stage, cfg.mode),
            Response::Failed(_) => match stage {
                BuildStage::CompressPsg => Position::Failed(Failure::RemovePsg),
                BuildStage::ArchiveVis => Position::Failed(Failure::RemoveVis),
                _ => Position::Failed(Failure::RemovePrecombined),
            },
            _ => Position::Failed(Failure::OutOfTurn),
        },
    }
}

/// Where the cleanup goes after `step`.
fn step_clean(step: CleanStep, cfg: &Config) -> (r: Position)
    ensures
        r == after_clean(step, *cfg),
{
    match step {
        CleanStep::Restoring(i) => {
            if i < OVERLAY_COUNT - 1 {
                Position::Cleaning(CleanStep::Restoring(i + 1))
            } else if cfg.keep_files {
                Position::Completing
            } else {
                Position::Cleaning(CleanStep::RemovingCombinedObjects)
            }
        },
        CleanStep::RemovingCombinedObjects => Position::Cleaning(CleanStep::RemovingPrevis),
        CleanStep::RemovingPrevis => Position::Cleaning(CleanStep::RemovingVis),
        CleanStep::RemovingVis => Position::Completing,
    }
}

/// Where a run goes after `response` has come in, at `position`. `checked`
/// is what the check of the scripts and the configuration came to.
pub fn advance_position(
    position: Position,
    cfg: &Config,
    response: &Response,
    checked: Result<HandleLimit, Failure>,
) -> (r: Position)
    ensures
        r == advance(position, *cfg, *response, checked),
{
    match position {
        Position::Start => Position::StartingLog,
        Position::StartingLog => match response {
            Response::Done => Position::Greeting,
            Response::Failed(_) => Position::Failed(Failure::RunLogUnwritable),
            _ => Position::Failed(Failure::OutOfTurn),
        },
        Position::Greeting => match cfg.start_stage {
            Some(n) => match BuildStage::from_i32(n) {
                Some(stage) => Position::ProbingStart(stage),
                None => Position::Failed(Failure::InvalidStage(n)),
            },
            None => {
                if cfg.unnamed {
                    Position::AskingName
                } else {
                    Position::ProbingPlugin
                }
            },
        },
        Position::ProbingStart(stage) => match response {
            Response::Data(facts) => match check_stage_prerequisites(stage, facts, &cfg.mode) {
                Err(failure) => Position::Failed(failure),
                Ok(()) => Position::Installing(stage),
            },
            _ => Position::Failed(Failure::OutOfTurn),
        },
        Position::AskingName => match response {
            Response::Answer(text) => match prompt_for_plugin_name(text.as_str()) {
                Ok(_) => Position::ProbingPlugin,
                Err(failure) => Position::Failed(failure),
            },
            Response::Failed(_) => Position::Failed(Failure::InputUnreadable),
            _ => Position::Failed(Failure::OutOfTurn),
        },
        Position::ProbingPlugin => match response {
            Response::Data(facts) => {
                if facts.plugin_exists {
                    Position::AskingStage
                } else {
                    Position::Installing(BuildStage::VerifyEnvironment)
                }
            },
            _ => Position::Failed(Failure::OutOfTurn),
        },
        Position::AskingStage => match response {
            Response::Answer(text) => match prompt_for_stage(text.as_str()) {
                Ok(stage) => Position::Installing(stage),
                Err(failure) => Position::Failed(failure),
            },
            Response::Failed(_) => Position::Failed(Failure::InputUnreadable),
            _ => Position::Failed(Failure::OutOfTurn),
        },
        Position::Installing(start) => match response {
            Response::Installation(facts) => {
                let mut scratch = CkpeSettings::for_variant(ConfigVariant::PlatformIni);
                match check_installation(facts, &mut scratch) {
                    Ok(variant) => Position::Configuring(start, variant),
                    Err(e) => Position::Failed(e.failure),
                }
            },
            _ => Position::Failed(Failure::OutOfTurn),
        },
        Position::Configuring(start, _) => match response {
            Response::Configuration(_) => match checked {
                Ok(HandleLimit::Raised) => Position::CheckingPlugin(start),
                Ok(limit) => Position::WarningHandles(start, limit),
                Err(failure) => Position::Failed(failure),
            },
            _ => Position::Failed(Failure::OutOfTurn),
        },
        Position::WarningHandles(start, _) => Position::CheckingPlugin(start),
        Position::CheckingPlugin(start) => match response {
            Response::Data(facts) => match check_plugin_for(start, facts, cfg.no_prompt) {
                Err(failure) => Position::Failed(failure),
                Ok(PluginCheck::Ready) => Position::InStage(
                    start.first_to_run(cfg.mode),
                    StagePhase::Entering,
                ),
                Ok(PluginCheck::AskToRenameSeed) => Position::AskingSeed(start),
            },
            _ => Position::Failed(Failure::OutOfTurn),
        },
        Position::AskingSeed(start) => match response {
            Response::Answer(text) => {
                if prompt_yes_no(text.as_str(), false) {
                    Position::RenamingSeed(start)
                } else {
                    Position::Failed(Failure::Aborted)
                }
            },
            Response::Failed(_) => Position::Failed(Failure::InputUnreadable),
            _ => Position::Failed(Failure::OutOfTurn),
        },
        Position::RenamingSeed(start) => match response {
            Response::Done => Position::InStage(start.first_to_run(cfg.mode), StagePhase::Entering),
            Response::Failed(_) => Position::Failed(Failure::SeedRename),
            _ => Position::Failed(Failure::OutOfTurn),
        },
        Position::InStage(stage, phase) => step_stage(stage, phase, cfg, response),
        Position::Cleaning(step) => match response {
            Response::Done => step_clean(step, cfg),
            _ => Position::Reporting(step),
        },
        Position::Reporting(step) => step_clean(step, cfg),
        Position::Completing => Position::Finished,
        Position::Finished => Position::Finished,
        Position::Failed(failure) => Position::Failed(failure),
    }
}

/// The failure that a run has met at `position`, if it has met one.
pub fn failure_of(position: Position) -> (r: Option<Failure>)
    ensures
        r == failure_at(position),
{
    match position {
        Position::Failed(failure) => Some(failure),
        Position::InStage(_, StagePhase::ContentTool(CkPhase::Restoring(_, Some(failure)))) => Some(
            failure,
        ),
        _ => None,
    }
}

/// What the check of the scripts and the configuration comes to for a run
/// that stands at `position` with the settings of the given names and is
/// handed `response`: the failure of the first fault, or how the handle
/// limit is set. At other positions nothing is checked.
pub open spec fn configuration_outcome(
    position: Position,
    response: Response,
    names: SettingNames,
    use_bsarch: bool,
) -> Result<HandleLimit, Failure> {
    if position is Configuring && response is Configuration {
        let facts = response->Configuration_0;
        match configuration_fault(facts, names, use_bsarch) {
            Some(fault) => Err(fault.failure),
            None => Ok(handle_limit_of(config_values(facts.config, names).0)),
        }
    } else {
        Err(Failure::OutOfTurn)
    }
}

/// Whether the response names the plugin: it is the operator's answer to the
/// question for the plugin's name, and holds more than white space.
pub open spec fn names_plugin(position: Position, response: Response) -> bool {
    position is AskingName && (response matches Response::Answer(text) && trimmed(text@).len() > 0)
}

/// How the plugin changes in a step: an answer that names the plugin sets
/// it, and nothing else touches it.
pub open spec fn plugin_follows(
    before: PluginIdentity,
    position: Position,
    response: Response,
    after: PluginIdentity,
) -> bool {
    if names_plugin(position, response) {
        let name = trimmed(response->Answer_0@);
        &&& after.base_name@ == base_name_of(name)
        &&& after.file_name@ == file_name_of(name)
        &&& after.archive_name@ == archive_name_of(base_name_of(name))
        &&& after.well_formed()
    } else {
        after == before
    }
}

/// How the settings change in a step from `position` to `next`: the look at
/// the installation sets the names of the configuration that is in place
/// where it finds no fault, the look at the configuration sets the name of
/// the content tool's log where it finds no fault, and nothing else touches
/// them.
pub open spec fn settings_follow(
    before: CkpeSettings,
    position: Position,
    response: Response,
    next: Position,
    after: CkpeSettings,
) -> bool {
    &&& if next is Configuring {
        after.names(next->Configuring_1)
    } else {
        after.setting_names() == before.setting_names()
    }
    &&& if position is Configuring && failure_at(next) is None {
        response matches Response::Configuration(facts) && after.log_file.deep_view()
            == config_values(facts.config, before.setting_names()).1
    } else {
        after.log_file == before.log_file
    }
}

/// The texts with which the run keeps a failure that it meets at `position`
/// on `response`, given the texts `kept`. For the checks of the environment
/// they are those of the fault that the check found; else the subject that
/// goes with the failure and, as detail, what the response reports.
pub open spec fn worded(
    kept: ErrorView,
    position: Position,
    response: Response,
    plugin: PluginIdentity,
    settings: CkpeSettings,
    use_bsarch: bool,
) -> bool {
    match position {
        Position::Installing(_) => response matches Response::Installation(facts)
            ==> installation_fault(facts) == Some(kept),
        Position::Configuring(_, _) => response matches Response::Configuration(facts)
            ==> configuration_fault(facts, settings.setting_names(), use_bsarch) == Some(kept),
        _ => kept.subject == subject_text(kept.failure, plugin, settings) && kept.detail
            == response.report(),
    }
}

/// How the failure that a run keeps changes in a step: the first failure that
/// the run meets is kept with its texts, and it is kept to the end.
pub open spec fn fault_follows(
    before: PrevisbineBuilder,
    response: Response,
    after: PrevisbineBuilder,
) -> bool {
    if failure_at(before.at()) is None && failure_at(after.at()) is Some {
        after.fault() matches Some(e) && e.failure == failure_at(after.at())->0 && worded(
            e@,
            before.at(),
            response,
            before.plugin(),
            before.ckpe(),
            before.options().use_bsarch,
        )
    } else {
        after.fault() == before.fault()
    }
}

/// The sequencer of one run: the run's options, the plugin, the settings of
/// the content tool's extension, and where the run stands.
pub struct PrevisbineBuilder {
    args: Args,
    ckpe_settings: CkpeSettings,
    identity: PluginIdentity,
    patience: Option<u32>,
    position: Position,
    error: Option<BuildError>,
}

impl PrevisbineBuilder {
    /// The run's options.
    pub closed spec fn options(&self) -> Args {
        self.args
    }

    /// The plugin that the run works on.
    pub closed spec fn plugin(&self) -> PluginIdentity {
        self.identity
    }

    /// The settings of the content tool's extension.
    pub closed spec fn ckpe(&self) -> CkpeSettings {
        self.ckpe_settings
    }

    /// How often the editor's log is looked for.
    pub closed spec fn looks(&self) -> Option<u32> {
        self.patience
    }

    /// Where the run stands.
    pub closed spec fn at(&self) -> Position {
        self.position
    }

    /// The failure that the run has met, with its texts.
    pub closed spec fn fault(&self) -> Option<BuildError> {
        self.error
    }

    /// What of the run's options and state its course depends on.
    pub open spec fn config_view(&self) -> Config {
        Config {
            mode: self.options().mode,
            start_stage: self.options().start_stage,
            no_prompt: self.options().no_prompt,
            keep_files: self.options().keep_files,
            use_bsarch: self.options().use_bsarch,
            unnamed: self.plugin().unnamed(),
            has_log: self.ckpe().log_file is Some,
            patience: self.looks(),
        }
    }

    /// A sequencer for a run with the given options, before its first step.
    /// The plugin is the one that the options name, if they name one; the
    /// settings are those of the first known form of configuration, until the
    /// run finds out which form is in place.
    pub fn new(args: Args) -> (r: Self)
        ensures
            r.options() == args,
            r.at() == Position::Start,
            r.fault() is None,
            r.looks() is None,
            r.ckpe().names(ConfigVariant::PlatformIni),
            r.ckpe().log_file is None,
            r.plugin().well_formed(),
            args.plugin matches Some(name) ==> {
                &&& r.plugin().base_name@ == base_name_of(name@)
                &&& r.plugin().file_name@ == file_name_of(name@)
                &&& r.plugin().archive_name@ == archive_name_of(base_name_of(name@))
            },
            args.plugin is None ==> r.plugin().unnamed() && r.plugin().file_name@.len() == 0,
    {
        let identity = match &args.plugin {
            Some(name) => PluginIdentity::derive(name.as_str()),
            None => PluginIdentity::unset(),
        };
        PrevisbineBuilder {
            args,
            ckpe_settings: CkpeSettings::for_variant(ConfigVariant::PlatformIni),
            identity,
            patience: None,
            position: Position::Start,
            error: None,
        }
    }

    /// The same sequencer with a bound on the number of looks for the
    /// editor's log. Without a bound a run looks until the log is there.
    pub fn with_patience(self, looks: u32) -> (r: Self)
        ensures
            r.looks() == Some(looks),
            r.options() == self.options(),
            r.plugin() == self.plugin(),
            r.ckpe() == self.ckpe(),
            r.at() == self.at(),
            r.fault() == self.fault(),
    {
        PrevisbineBuilder {
            args: self.args,
            ckpe_settings: self.ckpe_settings,
            identity: self.identity,
            patience: Some(looks),
            position: self.position,
            error: self.error,
        }
    }

    /// The run's options.
    pub fn args(&self) -> (r: &Args)
        ensures
            *r == self.options(),
    {
        &self.args
    }

    /// The plugin that the run works on.
    pub fn identity(&self) -> (r: &PluginIdentity)
        ensures
            *r == self.plugin(),
    {
        &self.identity
    }

    /// The settings of the content tool's extension.
    pub fn settings(&self) -> (r: &CkpeSettings)
        ensures
            *r == self.ckpe(),
    {
        &self.ckpe_settings
    }

    /// Where the run stands.
    pub fn position(&self) -> (r: Position)
        ensures
            r == self.at(),
    {
        self.position
    }

    /// The failure that the run has met, with its texts.
    pub fn error(&self) -> (r: &Option<BuildError>)
        ensures
            *r == self.fault(),
    {
        &self.error
    }

    /// Whether the run has ended, well or not.
    pub fn is_over(&self) -> (r: bool)
        ensures
            r == (self.at() is Finished || self.at() is Failed),
    {
        match self.position {
            Position::Finished => true,
            Position::Failed(_) => true,
            _ => false,
        }
    }

    /// What of the run's options and state its course depends on.
    pub fn config(&self) -> (r: Config)
        ensures
            r == self.config_view(),
    {
        Config {
            mode: self.args.mode,
            start_stage: self.args.start_stage,
            no_prompt: self.args.no_prompt,
            keep_files: self.args.keep_files,
            use_bsarch: self.args.use_bsarch,
            unnamed: self.identity.is_unnamed(),
            has_log: self.ckpe_settings.log_file.is_some(),
            patience: self.patience,
        }
    }

    /// The file or setting that the wording of `failure` names.
    fn subject_for(&self, failure: Failure) -> (r: String)
        ensures
            r@ == subject_text(failure, self.identity, self.ckpe_settings),
    {
        match failure {
            Failure::PluginMissing => String::from_str(self.identity.file_name.as_str()),
            Failure::ArchiveExists => String::from_str(self.identity.archive_name.as_str()),
            Failure::ArchiveNotCreated => String::from_str(self.identity.archive_name.as_str()),
            Failure::ArchiveAbsent => String::from_str(self.identity.archive_name.as_str()),
            Failure::OutputMissing(action, _) => output_name(
                action,
                self.identity.base_name.as_str(),
            ),
            Failure::RemoveCkLog => self.log_name(),
            Failure::CkLogCopy => self.log_name(),
            _ => String::new(),
        }
    }

    /// The name of the content tool's log, empty where it is not known.
    fn log_name(&self) -> (r: String)
        ensures
            r@ == match self.ckpe_settings.log_file {
                Some(name) => name@,
                None => Seq::empty(),
            },
    {
        match &self.ckpe_settings.log_file {
            Some(name) => String::from_str(name.as_str()),
            None => String::new(),
        }
    }

    /// Takes the run a step further: `response` is what came of the request
    /// made last, or `Begin` at the start; the result is the next request.
    ///
    /// The run goes where [`advance`] says, with the check of the
    /// configuration coming to what [`configuration_outcome`] says. The
    /// plugin, the settings and the failure kept are as [`plugin_follows`],
    /// [`settings_follow`] and [`fault_follows`] say.
    pub fn run(&mut self, response: Response) -> (request: Request)
        ensures
            final(self).at() == advance(
                old(self).at(),
                old(self).config_view(),
                response,
                configuration_outcome(
                    old(self).at(),
                    response,
                    old(self).ckpe().setting_names(),
                    old(self).options().use_bsarch,
                ),
            ),
            request == request_at(final(self).at()),
            final(self).options() == old(self).options(),
            final(self).looks() == old(self).looks(),
            plugin_follows(old(self).plugin(), old(self).at(), response, final(self).plugin()),
            settings_follow(
                old(self).ckpe(),
                old(self).at(),
                response,
                final(self).at(),
                final(self).ckpe(),
            ),
            fault_follows(*old(self), response, *final(self)),
    {
        let cfg = self.config();
        let before = self.position;
        let mut checked: Result<HandleLimit, Failure> = Err(Failure::OutOfTurn);
        let mut found: Option<BuildError> = None;
        match before {
            Position::AskingName => match &response {
                Response::Answer(text) => match prompt_for_plugin_name(text.as_str()) {
                    Ok(identity) => {
                        self.identity = identity;
                    },
                    Err(_) => {},
                },
                _ => {},
            },
            Position::Installing(_) => match &response {
                Response::Installation(facts) => match check_installation(
                    facts,
                    &mut self.ckpe_settings,
                ) {
                    Ok(_) => {},
                    Err(e) => {
                        found = Some(e);
                    },
                },
                _ => {},
            },
            Position::Configuring(_, _) => match &response {
                Response::Configuration(facts) => match check_configuration(
                    facts,
                    &mut self.ckpe_settings,
                    cfg.use_bsarch,
                ) {
                    Ok(limit) => {
                        checked = Ok(limit);
                    },
                    Err(e) => {
                        checked = Err(e.failure);
                        found = Some(e);
                    },
                },
                _ => {},
            },
            _ => {},
        }
        let next = advance_position(before, &cfg, &response, checked);
        if failure_of(before).is_none() {
            match failure_of(next) {
                Some(failure) => {
                    let error = match found {
                        Some(e) => e,
                        None => {
                            let subject = self.subject_for(failure);
                            BuildError::full(failure, subject.as_str(), response.reported())
                        },
                    };
                    self.error = Some(error);
                },
                None => {},
            }
        }
        self.position = next;
        request_for(next)
    }
}

/// Whether carrying out `request` starts an external tool.
pub open spec fn starts_tool(request: Request) -> bool {
    request is RunCreationKit || request is StartEditor || request is Pack || request is Extract
        || request is PackWithBsArch
}

/// A run that has ended stays ended and asks for nothing more.
pub proof fn lemma_end_is_final(
    position: Position,
    cfg: Config,
    response: Response,
    checked: Result<HandleLimit, Failure>,
)
    requires
        position is Finished || position is Failed,
    ensures
        advance(position, cfg, response, checked) == position,
        request_at(position) == Request::Finished,
{
}

/// The first failure ends the run: a run that has met a failure never goes on
/// with its stages, and the failure it ends with is the one it met first.
/// All it still does is to put back the overlays of the content tool.
pub proof fn lemma_failure_stays(
    position: Position,
    cfg: Config,
    response: Response,
    checked: Result<HandleLimit, Failure>,
)
    requires
        failure_at(position) is Some,
    ensures
        failure_at(advance(position, cfg, response, checked)) == failure_at(position),
        advance(position, cfg, response, checked) is Failed || (advance(
            position,
            cfg,
            response,
            checked,
        ) matches Position::InStage(_, StagePhase::ContentTool(CkPhase::Restoring(_, _)))),
{
}

/// A start stage that was asked for by a number outside 0 to 8 ends the run
/// with a failure of the class of invalid stages, before anything is looked
/// at.
pub proof fn lemma_unknown_stage_ends_run(cfg: Config, n: i32, response: Response)
    requires
        cfg.start_stage == Some(n),
        n < 0 || n > 8,
    ensures
        advance(Position::Greeting, cfg, response, Err(Failure::OutOfTurn)) == Position::Failed(
            Failure::InvalidStage(n),
        ),
        Failure::InvalidStage(n).kind_of() == crate::error::ErrorKind::InvalidStage,
{
}

/// A start stage that was asked for and lacks what it needs ends the run at
/// once: the failure names what is missing, and nothing more is asked for, so
/// that no tool is started.
pub proof fn lemma_start_stage_guarded(
    stage: BuildStage,
    cfg: Config,
    facts: DataFacts,
    failure: Failure,
)
    requires
        missing_prerequisite(stage, cfg.mode, facts) == Some(failure),
    ensures
        advance(
            Position::ProbingStart(stage),
            cfg,
            Response::Data(facts),
            Err(Failure::OutOfTurn),
        ) == Position::Failed(failure),
        request_at(Position::Failed(failure)) == Request::Finished,
{
}

/// External tools are started by stages only: none is started while the run
/// finds its start stage, verifies the environment or checks the plugin, and
/// none during the cleanup.
pub proof fn lemma_tools_start_in_stages(position: Position)
    requires
        starts_tool(request_at(position)),
    ensures
        position is InStage,
        position matches Position::InStage(_, phase) && !(phase is Entering),
{
}

/// A stage gets past its entry only where the data directory shows what the
/// stage needs: the step from a stage's entry into the stage's work is taken
/// on a look at the data directory that shows no prerequisite missing.
pub proof fn lemma_stage_guarded(
    stage: BuildStage,
    cfg: Config,
    response: Response,
    checked: Result<HandleLimit, Failure>,
)
    requires
        failure_at(
            advance(Position::InStage(stage, StagePhase::Entering), cfg, response, checked),
        ) is None,
    ensures
        response matches Response::Data(facts) && missing_prerequisite(stage, cfg.mode, facts)
            is None,
{
}

/// The work of a stage is entered from that stage's entry and from nowhere
/// else: a run stands in a phase of a stage's work only if it stood in that
/// stage before.
pub proof fn lemma_work_follows_entry(
    position: Position,
    cfg: Config,
    response: Response,
    checked: Result<HandleLimit, Failure>,
)
    requires
        advance(position, cfg, response, checked) matches Position::InStage(_, phase) && !(
        phase is Entering),
    ensures
        position matches Position::InStage(stage, _) && advance(position, cfg, response, checked)
            matches Position::InStage(same, _) && same == stage,
{
}

/// Where a stage leaves to: the entry of the stage that follows it, which is
/// in scope, or the cleanup.
pub proof fn lemma_leave(stage: BuildStage, mode: BuildMode)
    ensures
        match stage.following(mode) {
            Some(next) => leave(stage, mode) == Position::InStage(next, StagePhase::Entering)
                && next.in_scope(mode) && next != BuildStage::VerifyEnvironment,
            None => leave(stage, mode) == Position::Cleaning(CleanStep::Restoring(0)),
        },
{
    reveal_with_fuel(BuildStage::first_from, 4);
}

/// A step of a stage ends the run with a failure, or stays in the work of the
/// stage, or leaves the stage.
pub proof fn lemma_stage_step(
    stage: BuildStage,
    phase: StagePhase,
    cfg: Config,
    response: Response,
)
    ensures
        ({
            let next = stage_advance(stage, phase, cfg, response);
            ||| next is Failed
            ||| next == leave(stage, cfg.mode)
            ||| next matches Position::InStage(same, work) && same == stage && !(work is Entering)
        }),
{
}

/// The stages run in the order of the pipeline, one after the other: a run
/// enters a stage from the stage that it follows in a build of the mode, or,
/// the first one, from the check of the plugin. The stage entered is in
/// scope, so that the two stages of clean builds are passed over silently in
/// other builds.
pub proof fn lemma_stages_in_order(
    position: Position,
    cfg: Config,
    response: Response,
    checked: Result<HandleLimit, Failure>,
)
    requires
        advance(position, cfg, response, checked) matches Position::InStage(
            _,
            StagePhase::Entering,
        ),
    ensures
        ({
            let entered = advance(position, cfg, response, checked)->InStage_0;
            &&& entered.in_scope(cfg.mode)
            &&& entered != BuildStage::VerifyEnvironment
            &&& match position {
                Position::InStage(stage, _) => stage.following(cfg.mode) == Some(entered),
                Position::CheckingPlugin(start) | Position::RenamingSeed(start) => entered
                    == start.first_from(cfg.mode),
                _ => false,
            }
        }),
{
    match position {
        Position::InStage(stage, phase) => {
            lemma_stage_step(stage, phase, cfg, response);
            lemma_leave(stage, cfg.mode);
        },
        Position::CheckingPlugin(start) => {
            crate::stage::lemma_first_from(start, cfg.mode);
        },
        Position::RenamingSeed(start) => {
            crate::stage::lemma_first_from(start, cfg.mode);
        },
        Position::Cleaning(step) => {},
        Position::Reporting(step) => {},
        _ => {},
    }
}

/// The cleanup comes after the last stage and never fails a run: from the
/// cleanup a run goes on to its good end whatever the responses, and a run
/// gets into the cleanup only by leaving the last stage.
pub proof fn lemma_cleanup_ends_well(
    position: Position,
    cfg: Config,
    response: Response,
    checked: Result<HandleLimit, Failure>,
)
    ensures
        position is Cleaning || position is Reporting || position is Completing ==> {
            let next = advance(position, cfg, response, checked);
            next is Cleaning || next is Reporting || next is Completing || next is Finished
        },
        advance(position, cfg, response, checked) is Cleaning && !(position is Cleaning
            || position is Reporting) ==> position matches Position::InStage(
            BuildStage::ArchiveVis,
            _,
        ),
{
    reveal_with_fuel(BuildStage::first_from, 4);
}

/// An archive that is there does not stand against a run that is resumed
/// past the packing of the precombined meshes: with the plugin there, such a
/// run enters its first stage, whether the archive is there or not. Against a
/// run that is still to pack the precombined meshes the archive stands.
pub proof fn lemma_resume_past_the_archive(
    start: BuildStage,
    cfg: Config,
    facts: DataFacts,
    checked: Result<HandleLimit, Failure>,
)
    requires
        facts.plugin_exists,
    ensures
        !makes_archive(start) ==> advance(
            Position::CheckingPlugin(start),
            cfg,
            Response::Data(facts),
            checked,
        ) == enter(start, cfg.mode),
        makes_archive(start) && facts.archive_exists ==> advance(
            Position::CheckingPlugin(start),
            cfg,
            Response::Data(facts),
            checked,
        ) == Position::Failed(Failure::ArchiveExists),
        makes_archive(start) <==> start.ordinal() <= 3,
{
}

/// Whether carrying out `request` can change the game's directory: it
/// removes or renames a file, or runs a tool.
pub open spec fn touches_game_files(request: Request) -> bool {
    starts_tool(request) || request is Remove || request is RemoveIfPresent
        || request is RemoveTree || request is RemoveTreeIfPresent || request is Rename
        || request is RenameIfPresent
}

/// Until it enters its first stage a run leaves the game's directory as it
/// found it, but for the seed plugin, which it renames where the plugin is
/// missing: a resumed run comes to the entry of its stage over the files that
/// the run before it left.
pub proof fn lemma_resume_leaves_files_alone(position: Position)
    requires
        touches_game_files(request_at(position)),
    ensures
        position is RenamingSeed || position is Cleaning || (position matches Position::InStage(
            _,
            phase,
        ) && !(phase is Entering)),
{
}

/// A run that is resumed from a stage stands, when it enters that stage,
/// where a run from the beginning stands when it comes to it: either the
/// stage is the first of the run from the beginning, or the run from the
/// beginning enters it on leaving the stage that runs before it.
pub proof fn lemma_resume_joins(from: BuildStage, mode: BuildMode)
    requires
        from.runs(BuildStage::VerifyEnvironment, mode),
    ensures
        enter(from, mode) == Position::InStage(from, StagePhase::Entering),
        enter(BuildStage::VerifyEnvironment, mode) == enter(from, mode) || exists|
            before: BuildStage,
        |
            #![auto]
            before.runs(BuildStage::VerifyEnvironment, mode) && before.ordinal() < from.ordinal()
                && leave(before, mode) == enter(from, mode),
{
    reveal_with_fuel(BuildStage::first_from, 4);
    if from != BuildStage::GeneratePrecombines {
        let before = match from {
            BuildStage::MergePrecombines => BuildStage::GeneratePrecombines,
            BuildStage::ArchivePrecombines => BuildStage::MergePrecombines,
            BuildStage::CompressPsg => BuildStage::ArchivePrecombines,
            BuildStage::BuildCdx => BuildStage::CompressPsg,
            BuildStage::GeneratePrevis => if mode == BuildMode::Clean {
                BuildStage::BuildCdx
            } else {
                BuildStage::ArchivePrecombines
            },
            BuildStage::MergePrevis => BuildStage::GeneratePrevis,
            _ => BuildStage::MergePrevis,
        };
        assert(before.runs(BuildStage::VerifyEnvironment, mode) && before.ordinal()
            < from.ordinal() && leave(before, mode) == enter(from, mode));
    }
}

/// The stages that a run enters, in the order in which it enters them, when
/// it stands at `position` and is handed `responses` one by one. `cfgs` and
/// `checks` say, for each step, what the run's course depends on and what the
/// check of the configuration came to.
pub open spec fn stages_entered(
    position: Position,
    cfgs: Seq<Config>,
    responses: Seq<Response>,
    checks: Seq<Result<HandleLimit, Failure>>,
) -> Seq<BuildStage>
    decreases responses.len(),
{
    if responses.len() == 0 || cfgs.len() != responses.len() || checks.len() != responses.len() {
        Seq::empty()
    } else {
        let next = advance(position, cfgs[0], responses[0], checks[0]);
        let later = stages_entered(
            next,
            cfgs.drop_first(),
            responses.drop_first(),
            checks.drop_first(),
        );
        match next {
            Position::InStage(stage, StagePhase::Entering) => seq![stage] + later,
            _ => later,
        }
    }
}

/// Whether `part` is the beginning of `whole`.
pub open spec fn begins(whole: Seq<BuildStage>, part: Seq<BuildStage>) -> bool {
    part.len() <= whole.len() && whole.subrange(0, part.len() as int) == part
}

/// Whether the build mode is `mode` at every step.
pub open spec fn mode_stays(cfgs: Seq<Config>, mode: BuildMode) -> bool {
    forall|i: int| 0 <= i < cfgs.len() ==> (#[trigger] cfgs[i]).mode == mode
}

/// A run that is past its stages enters no stage any more.
pub proof fn lemma_no_stage_after_the_last(
    position: Position,
    cfgs: Seq<Config>,
    responses: Seq<Response>,
    checks: Seq<Result<HandleLimit, Failure>>,
)
    requires
        position is Cleaning || position is Reporting || position is Completing
            || position is Finished || position is Failed,
    ensures
        stages_entered(position, cfgs, responses, checks).len() == 0,
    decreases responses.len(),
{
    if responses.len() > 0 && cfgs.len() == responses.len() && checks.len() == responses.len() {
        let next = advance(position, cfgs[0], responses[0], checks[0]);
        lemma_cleanup_ends_well(position, cfgs[0], responses[0], checks[0]);
        lemma_no_stage_after_the_last(
            next,
            cfgs.drop_first(),
            responses.drop_first(),
            checks.drop_first(),
        );
    }
}

/// From within the stage that stands at place `k` of the schedule, a run
/// enters the stages that stand after it in the schedule, in their order and
/// without leaving one out, for as long as it goes.
pub proof fn lemma_stages_follow_schedule(
    start: BuildStage,
    mode: BuildMode,
    k: int,
    phase: StagePhase,
    cfgs: Seq<Config>,
    responses: Seq<Response>,
    checks: Seq<Result<HandleLimit, Failure>>,
)
    requires
        0 <= k < start.schedule(mode).len(),
        mode_stays(cfgs, mode),
    ensures
        begins(
            start.schedule(mode).subrange(k + 1, start.schedule(mode).len() as int),
            stages_entered(
                Position::InStage(start.schedule(mode)[k], phase),
                cfgs,
                responses,
                checks,
            ),
        ),
    decreases responses.len(),
{
    let schedule = start.schedule(mode);
    let stage = schedule[k];
    let position = Position::InStage(stage, phase);
    let ahead = schedule.subrange(k + 1, schedule.len() as int);
    let entered = stages_entered(position, cfgs, responses, checks);
    if responses.len() > 0 && cfgs.len() == responses.len() && checks.len() == responses.len() {
        let cfg = cfgs[0];
        assert(cfg.mode == mode);
        let next = advance(position, cfg, responses[0], checks[0]);
        let later = stages_entered(
            next,
            cfgs.drop_first(),
            responses.drop_first(),
            checks.drop_first(),
        );
        assert(mode_stays(cfgs.drop_first(), mode)) by {
            assert forall|i: int| 0 <= i < cfgs.drop_first().len() implies (
            #[trigger] cfgs.drop_first()[i]).mode == mode by {
                assert(cfgs.drop_first()[i] == cfgs[i + 1]);
            }
        }
        lemma_stage_step(stage, phase, cfg, responses[0]);
        lemma_leave(stage, mode);
        crate::stage::lemma_schedule_is_walked(start, mode, k);
        if next is Failed {
            lemma_no_stage_after_the_last(
                next,
                cfgs.drop_first(),
                responses.drop_first(),
                checks.drop_first(),
            );
            assert(ahead.subrange(0, 0) =~= entered);
        } else if next == leave(stage, mode) {
            if k + 1 < schedule.len() {
                assert(next == Position::InStage(schedule[k + 1], StagePhase::Entering));
                lemma_stages_follow_schedule(
                    start,
                    mode,
                    k + 1,
                    StagePhase::Entering,
                    cfgs.drop_first(),
                    responses.drop_first(),
                    checks.drop_first(),
                );
                let further = schedule.subrange(k + 2, schedule.len() as int);
                assert(entered == seq![schedule[k + 1]] + later);
                assert(ahead.subrange(0, entered.len() as int) =~= seq![schedule[k + 1]]
                    + further.subrange(0, later.len() as int));
            } else {
                lemma_no_stage_after_the_last(
                    next,
                    cfgs.drop_first(),
                    responses.drop_first(),
                    checks.drop_first(),
                );
                assert(ahead.subrange(0, 0) =~= entered);
            }
        } else {
            let work = next->InStage_1;
            lemma_stages_follow_schedule(
                start,
                mode,
                k,
                work,
                cfgs.drop_first(),
                responses.drop_first(),
                checks.drop_first(),
            );
            assert(entered == later);
        }
    } else {
        assert(ahead.subrange(0, 0) =~= entered);
    }
}

/// The stages that a run does are the beginning of its schedule: once the
/// plugin is checked, a run enters the stages in scope from its start stage
/// on, in the order of the pipeline and without leaving one out, until it
/// ends or fails.
pub proof fn lemma_run_follows_schedule(
    start: BuildStage,
    mode: BuildMode,
    cfgs: Seq<Config>,
    responses: Seq<Response>,
    checks: Seq<Result<HandleLimit, Failure>>,
)
    requires
        mode_stays(cfgs, mode),
    ensures
        begins(
            start.schedule(mode),
            stages_entered(Position::CheckingPlugin(start), cfgs, responses, checks),
        ),
        begins(
            start.schedule(mode),
            stages_entered(Position::RenamingSeed(start), cfgs, responses, checks),
        ),
{
    let schedule = start.schedule(mode);
    crate::stage::lemma_schedule(start, mode);
    crate::stage::lemma_first_from(start, mode);
    assert(schedule.contains(start.first_from(mode)));
    crate::stage::lemma_schedule_is_walked(start, mode, 0);
    lemma_checked_plugin_goes_on(
        Position::CheckingPlugin(start),
        start,
        mode,
        cfgs,
        responses,
        checks,
    );
    lemma_checked_plugin_goes_on(
        Position::RenamingSeed(start),
        start,
        mode,
        cfgs,
        responses,
        checks,
    );
}

/// Where a run stands after it has been handed `responses` one by one from
/// `position`. `cfgs` and `checks` say, for each step, what the run's course
/// depends on and what the check of the configuration came to.
pub open spec fn position_after(
    position: Position,
    cfgs: Seq<Config>,
    responses: Seq<Response>,
    checks: Seq<Result<HandleLimit, Failure>>,
) -> Position
    decreases responses.len(),
{
    if responses.len() == 0 || cfgs.len() != responses.len() || checks.len() != responses.len() {
        position
    } else {
        position_after(
            advance(position, cfgs[0], responses[0], checks[0]),
            cfgs.drop_first(),
            responses.drop_first(),
            checks.drop_first(),
        )
    }
}

/// A run that has failed does not end well, whatever it is handed.
pub proof fn lemma_failed_stays_failed(
    position: Position,
    cfgs: Seq<Config>,
    responses: Seq<Response>,
    checks: Seq<Result<HandleLimit, Failure>>,
)
    requires
        position is Failed,
    ensures
        position_after(position, cfgs, responses, checks) == position,
    decreases responses.len(),
{
    if responses.len() > 0 && cfgs.len() == responses.len() && checks.len() == responses.len() {
        lemma_failed_stays_failed(
            position,
            cfgs.drop_first(),
            responses.drop_first(),
            checks.drop_first(),
        );
    }
}

/// A run that ends well from within the stage at place `k` of the schedule
/// has entered every stage that stands after it in the schedule.
pub proof fn lemma_finished_from_stage(
    start: BuildStage,
    mode: BuildMode,
    k: int,
    phase: StagePhase,
    cfgs: Seq<Config>,
    responses: Seq<Response>,
    checks: Seq<Result<HandleLimit, Failure>>,
)
    requires
        0 <= k < start.schedule(mode).len(),
        mode_stays(cfgs, mode),
        position_after(
            Position::InStage(start.schedule(mode)[k], phase),
            cfgs,
            responses,
            checks,
        ) is Finished,
    ensures
        stages_entered(Position::InStage(start.schedule(mode)[k], phase), cfgs, responses, checks)
            == start.schedule(mode).subrange(k + 1, start.schedule(mode).len() as int),
    decreases responses.len(),
{
    let schedule = start.schedule(mode);
    let stage = schedule[k];
    let position = Position::InStage(stage, phase);
    let ahead = schedule.subrange(k + 1, schedule.len() as int);
    let entered = stages_entered(position, cfgs, responses, checks);
    assert(responses.len() > 0 && cfgs.len() == responses.len() && checks.len()
        == responses.len());
    let cfg = cfgs[0];
    assert(cfg.mode == mode);
    let next = advance(position, cfg, responses[0], checks[0]);
    let later_cfgs = cfgs.drop_first();
    let later_responses = responses.drop_first();
    let later_checks = checks.drop_first();
    let later = stages_entered(next, later_cfgs, later_responses, later_checks);
    assert(mode_stays(later_cfgs, mode)) by {
        assert forall|i: int| 0 <= i < later_cfgs.len() implies (#[trigger] later_cfgs[i]).mode
            == mode by {
            assert(later_cfgs[i] == cfgs[i + 1]);
        }
    }
    lemma_stage_step(stage, phase, cfg, responses[0]);
    lemma_leave(stage, mode);
    crate::stage::lemma_schedule_is_walked(start, mode, k);
    if next is Failed {
        lemma_failed_stays_failed(next, later_cfgs, later_responses, later_checks);
    } else if next == leave(stage, mode) {
        if k + 1 < schedule.len() {
            lemma_finished_from_stage(
                start,
                mode,
                k + 1,
                StagePhase::Entering,
                later_cfgs,
                later_responses,
                later_checks,
            );
            assert(entered == seq![schedule[k + 1]] + later);
            assert(ahead =~= seq![schedule[k + 1]] + schedule.subrange(
                k + 2,
                schedule.len() as int,
            ));
        } else {
            lemma_no_stage_after_the_last(next, later_cfgs, later_responses, later_checks);
            assert(ahead =~= entered);
        }
    } else {
        lemma_finished_from_stage(
            start,
            mode,
            k,
            next->InStage_1,
            later_cfgs,
            later_responses,
            later_checks,
        );
        assert(entered == later);
    }
}

/// A run that ends well has done its whole schedule: once the plugin is
/// checked, a run that comes to its good end has entered every stage in scope
/// from its start stage on, each once, in the order of the pipeline. So two
/// runs of the same mode that end well, one from the beginning and one
/// resumed, have both done every stage of the resumed run's schedule.
pub proof fn lemma_finished_run_did_its_schedule(
    start: BuildStage,
    mode: BuildMode,
    cfgs: Seq<Config>,
    responses: Seq<Response>,
    checks: Seq<Result<HandleLimit, Failure>>,
)
    requires
        mode_stays(cfgs, mode),
        position_after(Position::CheckingPlugin(start), cfgs, responses, checks) is Finished,
    ensures
        stages_entered(Position::CheckingPlugin(start), cfgs, responses, checks)
            == start.schedule(mode),
{
    crate::stage::lemma_schedule(start, mode);
    crate::stage::lemma_first_from(start, mode);
    assert(start.schedule(mode).contains(start.first_from(mode)));
    crate::stage::lemma_schedule_is_walked(start, mode, 0);
    lemma_finished_after_plugin_check(
        Position::CheckingPlugin(start),
        start,
        mode,
        cfgs,
        responses,
        checks,
    );
}

/// A run that ends well from the check of the plugin, or from the question
/// about the seed plugin, has entered every stage of its schedule.
proof fn lemma_finished_after_plugin_check(
    position: Position,
    start: BuildStage,
    mode: BuildMode,
    cfgs: Seq<Config>,
    responses: Seq<Response>,
    checks: Seq<Result<HandleLimit, Failure>>,
)
    requires
        position == Position::CheckingPlugin(start) || position == Position::AskingSeed(start)
            || position == Position::RenamingSeed(start),
        mode_stays(cfgs, mode),
        start.schedule(mode).len() > 0,
        start.schedule(mode)[0] == start.first_from(mode),
        position_after(position, cfgs, responses, checks) is Finished,
    ensures
        stages_entered(position, cfgs, responses, checks) == start.schedule(mode),
    decreases responses.len(),
{
    let schedule = start.schedule(mode);
    let entered = stages_entered(position, cfgs, responses, checks);
    assert(responses.len() > 0 && cfgs.len() == responses.len() && checks.len()
        == responses.len());
    let cfg = cfgs[0];
    assert(cfg.mode == mode);
    let next = advance(position, cfg, responses[0], checks[0]);
    let later_cfgs = cfgs.drop_first();
    let later_responses = responses.drop_first();
    let later_checks = checks.drop_first();
    let later = stages_entered(next, later_cfgs, later_responses, later_checks);
    assert(mode_stays(later_cfgs, mode)) by {
        assert forall|i: int| 0 <= i < later_cfgs.len() implies (#[trigger] later_cfgs[i]).mode
            == mode by {
            assert(later_cfgs[i] == cfgs[i + 1]);
        }
    }
    if next is Failed {
        lemma_failed_stays_failed(next, later_cfgs, later_responses, later_checks);
    } else if next == enter(start, mode) {
        lemma_finished_from_stage(
            start,
            mode,
            0,
            StagePhase::Entering,
            later_cfgs,
            later_responses,
            later_checks,
        );
        assert(entered == seq![schedule[0]] + later);
        assert(schedule =~= seq![schedule[0]] + schedule.subrange(1, schedule.len() as int));
    } else {
        lemma_finished_after_plugin_check(
            next,
            start,
            mode,
            later_cfgs,
            later_responses,
            later_checks,
        );
        assert(entered == later);
    }
}

/// From the check of the plugin a run enters its first stage, or asks for the
/// seed to be renamed and then enters it, or ends.
proof fn lemma_checked_plugin_goes_on(
    position: Position,
    start: BuildStage,
    mode: BuildMode,
    cfgs: Seq<Config>,
    responses: Seq<Response>,
    checks: Seq<Result<HandleLimit, Failure>>,
)
    requires
        position == Position::CheckingPlugin(start) || position == Position::AskingSeed(start)
            || position == Position::RenamingSeed(start),
        mode_stays(cfgs, mode),
        start.schedule(mode).len() > 0,
        start.schedule(mode)[0] == start.first_from(mode),
    ensures
        begins(start.schedule(mode), stages_entered(position, cfgs, responses, checks)),
    decreases responses.len(),
{
    let schedule = start.schedule(mode);
    let entered = stages_entered(position, cfgs, responses, checks);
    if responses.len() > 0 && cfgs.len() == responses.len() && checks.len() == responses.len() {
        let cfg = cfgs[0];
        assert(cfg.mode == mode);
        assert(mode_stays(cfgs.drop_first(), mode)) by {
            assert forall|i: int| 0 <= i < cfgs.drop_first().len() implies (
            #[trigger] cfgs.drop_first()[i]).mode == mode by {
                assert(cfgs.drop_first()[i] == cfgs[i + 1]);
            }
        }
        let next = advance(position, cfg, responses[0], checks[0]);
        let later = stages_entered(
            next,
            cfgs.drop_first(),
            responses.drop_first(),
            checks.drop_first(),
        );
        if next is Failed {
            lemma_no_stage_after_the_last(
                next,
                cfgs.drop_first(),
                responses.drop_first(),
                checks.drop_first(),
            );
            assert(schedule.subrange(0, 0) =~= entered);
        } else if next == enter(start, mode) {
            lemma_stages_follow_schedule(
                start,
                mode,
                0,
                StagePhase::Entering,
                cfgs.drop_first(),
                responses.drop_first(),
                checks.drop_first(),
            );
            let ahead = schedule.subrange(1, schedule.len() as int);
            assert(entered == seq![schedule[0]] + later);
            assert(schedule.subrange(0, entered.len() as int) =~= seq![schedule[0]]
                + ahead.subrange(0, later.len() as int));
        } else {
            lemma_checked_plugin_goes_on(
                next,
                start,
                mode,
                cfgs.drop_first(),
                responses.drop_first(),
                checks.drop_first(),
            );
            assert(entered == later);
        }
    } else {
        assert(schedule.subrange(0, 0) =~= entered);
    }
}

/// How far an unattended run of the editor has come. Each look for the log
/// counts, so that the number grows while the run waits.
pub open spec fn editor_rank(phase: EditorPhase) -> int {
    match phase {
        EditorPhase::Heading => 0,
        EditorPhase::Listing => 1,
        EditorPhase::ClearingLog => 2,
        EditorPhase::Starting => 3,
        EditorPhase::Waiting(looks) => 4 + 2 * looks,
        EditorPhase::Polling(looks) => 5 + 2 * looks,
        EditorPhase::Finishing => 8589934600,
        EditorPhase::Stopping => 8589934601,
        EditorPhase::Settling => 8589934602,
        EditorPhase::Copying => 8589934603,
        EditorPhase::Reading => 8589934604,
    }
}

/// How far the adding of a folder to the archive has come.
pub open spec fn add_rank(phase: AddPhase) -> int {
    match phase {
        AddPhase::Looking => 0,
        AddPhase::Extracting => 1,
        AddPhase::Settling => 2,
        AddPhase::Removing => 3,
        AddPhase::Surveying => 4,
        AddPhase::Packing(_, PackPhase::Packing, _) => 5,
        AddPhase::Packing(_, PackPhase::Confirming, _) => 6,
        AddPhase::Clearing => 7,
    }
}

/// How far a stage has come.
pub open spec fn phase_rank(phase: StagePhase) -> int {
    match phase {
        StagePhase::Entering => 0,
        StagePhase::Clearing(k) => if k == 0 {
            1
        } else {
            2
        },
        StagePhase::ContentTool(at) => 10 + crate::tools::creation_kit::ck_rank(at),
        StagePhase::Editor(at) => 40 + editor_rank(at),
        StagePhase::Inspecting => 8589934700,
        StagePhase::ReadingLog(_) => 8589934701,
        StagePhase::Warning => 8589934702,
        StagePhase::Packing(PackPhase::Packing) => 8589934703,
        StagePhase::Packing(PackPhase::Confirming) => 8589934704,
        StagePhase::PackingWithBsArch(_) => 8589934706,
        StagePhase::Adding(at) => 8589934707 + add_rank(at),
        StagePhase::Tidying => 8589934720,
    }
}

/// How far the cleanup has come.
pub open spec fn clean_rank(step: CleanStep) -> int {
    match step {
        CleanStep::Restoring(i) => if i < OVERLAY_COUNT {
            2 * i
        } else {
            2 * OVERLAY_COUNT
        },
        CleanStep::RemovingCombinedObjects => 14,
        CleanStep::RemovingPrevis => 16,
        CleanStep::RemovingVis => 18,
    }
}

/// How far a run has come: a number that grows with every step.
pub open spec fn rank(position: Position) -> int {
    match position {
        Position::Start => 0,
        Position::StartingLog => 1,
        Position::Greeting => 2,
        Position::ProbingStart(_) => 3,
        Position::AskingName => 3,
        Position::ProbingPlugin => 4,
        Position::AskingStage => 5,
        Position::Installing(_) => 6,
        Position::Configuring(_, _) => 7,
        Position::WarningHandles(_, _) => 8,
        Position::CheckingPlugin(_) => 9,
        Position::AskingSeed(_) => 10,
        Position::RenamingSeed(_) => 11,
        Position::InStage(stage, phase) => 12 + stage.ordinal() * 8589934800 + phase_rank(phase),
        Position::Cleaning(step) => 77309414000 + clean_rank(step),
        Position::Reporting(step) => 77309414001 + clean_rank(step),
        Position::Completing => 77309414100,
        Position::Finished => 77309414200,
        Position::Failed(_) => 77309414200,
    }
}

/// Whether a run at `position` may look for the editor's log for ever: it has
/// no patience set and has looked as often as it can count.
pub open spec fn waits_without_end(position: Position, cfg: Config) -> bool {
    cfg.patience is None && position == Position::InStage(
        position->InStage_0,
        StagePhase::Editor(EditorPhase::Polling(u32::MAX)),
    )
}

/// Every step of an unattended run of the editor takes it further, but for
/// the look that a run without patience repeats.
pub proof fn lemma_editor_advances(
    script: Script,
    patience: Option<u32>,
    phase: EditorPhase,
    response: Response,
)
    ensures
        0 <= editor_rank(phase) <= 8589934604,
        !(patience is None && phase == EditorPhase::Polling(u32::MAX)) ==> (editor_next(
            script,
            patience,
            phase,
            response,
        ) matches EditorFlow::Next(next) ==> editor_rank(phase) < editor_rank(next)),
{
}

/// Every step of the adding of a folder to the archive takes it further.
pub proof fn lemma_add_advances(folder: Folder, phase: AddPhase, response: Response)
    ensures
        0 <= add_rank(phase) <= 7,
        add_next(folder, phase, response) matches AddFlow::Next(next) ==> add_rank(phase)
            < add_rank(next),
{
}

/// Leaving a stage takes a run past every phase of the stage.
pub proof fn lemma_leave_advances(stage: BuildStage, phase: StagePhase, mode: BuildMode)
    ensures
        0 <= phase_rank(phase) <= 8589934720,
        rank(Position::InStage(stage, phase)) < rank(leave(stage, mode)),
{
    reveal_with_fuel(BuildStage::first_from, 4);
    match phase {
        StagePhase::ContentTool(at) => {
            crate::tools::creation_kit::lemma_ck_advances(
                CkAction::BuildCdx,
                true,
                at,
                Response::Done,
            );
        },
        StagePhase::Editor(at) => {
            lemma_editor_advances(Script::MergePrevis, None, at, Response::Done);
        },
        StagePhase::Adding(at) => {
            lemma_add_advances(Folder::Vis, at, Response::Done);
        },
        _ => {},
    }
}

/// Every step of a stage takes the run further, but for the look that a run
/// without patience repeats.
pub proof fn lemma_stage_advances(
    stage: BuildStage,
    phase: StagePhase,
    cfg: Config,
    response: Response,
)
    requires
        !waits_without_end(Position::InStage(stage, phase), cfg),
    ensures
        rank(Position::InStage(stage, phase)) < rank(stage_advance(stage, phase, cfg, response)),
{
    lemma_leave_advances(stage, phase, cfg.mode);
    let next = stage_advance(stage, phase, cfg, response);
    match phase {
        StagePhase::ContentTool(at) => {
            crate::tools::creation_kit::lemma_ck_advances(
                action_of(stage),
                cfg.has_log,
                at,
                response,
            );
        },
        StagePhase::Editor(at) => {
            lemma_editor_advances(script_of(stage), cfg.patience, at, response);
        },
        StagePhase::Adding(at) => {
            lemma_add_advances(Folder::Vis, at, response);
        },
        _ => {},
    }
    if next is Failed {
    } else if next == leave(stage, cfg.mode) {
    } else {
        lemma_stage_step(stage, phase, cfg, response);
        assert(next matches Position::InStage(same, work) && same == stage);
    }
}

/// A run comes to its end: every step takes it further, and it cannot go
/// further than its end. The one exception is the wait for the editor's log
/// of a run without patience, which the design leaves without a bound.
#[verifier::rlimit(50)]
pub proof fn lemma_run_advances(
    position: Position,
    cfg: Config,
    response: Response,
    checked: Result<HandleLimit, Failure>,
)
    ensures
        0 <= rank(position) <= 77309414200,
        !(position is Finished || position is Failed) && !waits_without_end(position, cfg) ==> rank(
            position,
        ) < rank(advance(position, cfg, response, checked)),
{
    match position {
        Position::InStage(stage, phase) => {
            lemma_leave_advances(stage, phase, cfg.mode);
            if !waits_without_end(position, cfg) {
                lemma_stage_advances(stage, phase, cfg, response);
            }
        },
        Position::CheckingPlugin(start) => {
            lemma_leave_advances(start.first_from(cfg.mode), StagePhase::Entering, cfg.mode);
        },
        Position::RenamingSeed(start) => {
            lemma_leave_advances(start.first_from(cfg.mode), StagePhase::Entering, cfg.mode);
        },
        _ => {},
    }
}

} // verus!
