//! The content tool: its extension's settings, its command line, and the
//! course of one invocation.

use crate::error::Failure;
use crate::names::{CkAction, OVERLAY_COUNT};
use crate::protocol::{exit_status, Artifact, Note, Request, Response, Warning};
use crate::stage::BuildMode;
use crate::text::{contains_text, occurs_in, split_words, words};
use vstd::prelude::*;
use vstd::string::*;

verus! {

/// The forms in which the content tool's extension keeps its configuration,
/// in the order in which they are looked for.
#[derive(Debug, Copy, Clone, PartialEq, Eq, Structural)]
pub enum ConfigVariant {
    /// `CreationKitPlatformExtended.ini`
    PlatformIni,
    /// `CreationKitPlatformExtended.toml`
    PlatformToml,
    /// `fallout4_test.ini`
    LegacyIni,
}

impl ConfigVariant {
    /// The configuration file's name.
    pub open spec fn file_text(self) -> Seq<char> {
        match self {
            ConfigVariant::PlatformIni => "CreationKitPlatformExtended.ini"@,
            ConfigVariant::PlatformToml => "CreationKitPlatformExtended.toml"@,
            ConfigVariant::LegacyIni => "fallout4_test.ini"@,
        }
    }

    /// The name of the setting that raises the limit on reference handles.
    pub open spec fn handle_text(self) -> Seq<char> {
        match self {
            ConfigVariant::LegacyIni => "BSHandleRefObjectPatch"@,
            _ => "bBSPointerHandleExtremly"@,
        }
    }

    /// The name of the setting that names the content tool's log file.
    pub open spec fn log_text(self) -> Seq<char> {
        match self {
            ConfigVariant::LegacyIni => "OutputFile"@,
            _ => "sOutputFile"@,
        }
    }

    /// The configuration file's name.
    pub fn file_name(&self) -> (r: &'static str)
        ensures
            r@ == self.file_text(),
    {
        match self {
            ConfigVariant::PlatformIni => "CreationKitPlatformExtended.ini",
            ConfigVariant::PlatformToml => "CreationKitPlatformExtended.toml",
            ConfigVariant::LegacyIni => "fallout4_test.ini",
        }
    }

    /// The name of the setting that raises the limit on reference handles.
    pub fn handle_setting(&self) -> (r: &'static str)
        ensures
            r@ == self.handle_text(),
    {
        match self {
            ConfigVariant::LegacyIni => "BSHandleRefObjectPatch",
            _ => "bBSPointerHandleExtremly",
        }
    }

    /// The name of the setting that names the content tool's log file.
    pub fn log_setting(&self) -> (r: &'static str)
        ensures
            r@ == self.log_text(),
    {
        match self {
            ConfigVariant::LegacyIni => "OutputFile",
            _ => "sOutputFile",
        }
    }
}

/// Where the content tool's extension is configured and under which names.
#[derive(Debug, Clone)]
pub struct CkpeSettings {
    /// Name of the configuration file.
    pub ini_file: String,
    /// Name of the setting that raises the limit on reference handles.
    pub handle_setting: String,
    /// Name of the setting that names the content tool's log file.
    pub log_setting: String,
    /// Name of the content tool's log file, once it has been read from the
    /// configuration.
    pub log_file: Option<String>,
}

/// The names by which a configuration is read: that of the file and those of
/// its two settings.
pub struct SettingNames {
    pub file: Seq<char>,
    pub handle: Seq<char>,
    pub log: Seq<char>,
}

impl ConfigVariant {
    /// The names by which a configuration of this form is read.
    pub open spec fn setting_names(self) -> SettingNames {
        SettingNames { file: self.file_text(), handle: self.handle_text(), log: self.log_text() }
    }
}

impl CkpeSettings {
    /// The names by which the configuration is read.
    pub open spec fn setting_names(&self) -> SettingNames {
        SettingNames {
            file: self.ini_file@,
            handle: self.handle_setting@,
            log: self.log_setting@,
        }
    }

    /// The settings name the file and the keys of `variant`.
    pub open spec fn names(&self, variant: ConfigVariant) -> bool {
        self.setting_names() == variant.setting_names()
    }

    /// The settings for a configuration of the given form, the log file not
    /// yet known.
    pub fn for_variant(variant: ConfigVariant) -> (r: CkpeSettings)
        ensures
            r.names(variant),
            r.log_file is None,
    {
        CkpeSettings {
            ini_file: String::from_str(variant.file_name()),
            handle_setting: String::from_str(variant.handle_setting()),
            log_setting: String::from_str(variant.log_setting()),
            log_file: None,
        }
    }
}

/// What follows the plugin on the content tool's command line.
pub open spec fn action_options(action: CkAction, mode: BuildMode) -> Seq<char> {
    match action {
        CkAction::GeneratePrecombined => if mode == BuildMode::Clean {
            "clean all"@
        } else {
            "filtered all"@
        },
        CkAction::GeneratePrevisData => "clean all"@,
        _ => ""@,
    }
}

/// The content tool's command line for `action` on the plugin file `plugin`.
pub open spec fn command_line(action: CkAction, mode: BuildMode, plugin: Seq<char>) -> Seq<char> {
    "-"@ + action.name_text() + ":\""@ + plugin + "\" "@ + action_options(action, mode)
}

/// The arguments with which the content tool is started for `action` on the
/// plugin file `plugin`: the command line, split at white space.
pub fn creation_kit_arguments(action: CkAction, mode: BuildMode, plugin: &str) -> (r: Vec<String>)
    ensures
        r.deep_view() == words(command_line(action, mode, plugin@)),
{
    let options = match action {
        CkAction::GeneratePrecombined => {
            if mode == BuildMode::Clean {
                "clean all"
            } else {
                "filtered all"
            }
        },
        CkAction::GeneratePrevisData => "clean all",
        _ => "",
    };
    let mut line = String::from_str("-");
    line.append(action.name());
    line.append(":\"");
    line.append(plugin);
    line.append("\" ");
    line.append(options);
    split_words(line.as_str())
}

/// Seconds left to the file system after the content tool has ended.
pub const SETTLE_SECONDS: u64 = 5;

/// Where one invocation of the content tool stands. Each phase waits for the
/// response to the request that [`ck_request`] gives for it.
#[derive(Debug, Copy, Clone, PartialEq, Eq, Structural)]
pub enum CkPhase {
    /// The overlay library with the given index is being set aside.
    Disabling(u8),
    /// The content tool's log of an earlier run is being removed.
    ClearingLog,
    /// The run log is being told what is about to run.
    Heading,
    /// The content tool is running.
    Running,
    /// The file system is left to settle; the number is the tool's exit
    /// status.
    Settling(i32),
    /// The content tool's log is being copied into the run log.
    CopyingLog(i32),
    /// The data directory is being looked at for the tool's output.
    Checking(i32),
    /// The operator is being warned that the exit status is passed over.
    Warning(i32),
    /// The overlay library with the given index is being put back. The
    /// failure, if any, is what the invocation will end with.
    Restoring(u8, Option<Failure>),
}

/// What an invocation of the content tool does next.
#[derive(Debug, Copy, Clone, PartialEq, Eq, Structural)]
pub enum CkFlow {
    /// It goes on in the given phase.
    Next(CkPhase),
    /// It has ended, with the given failure or well.
    Done(Option<Failure>),
}

/// The phase in which an invocation begins.
pub open spec fn ck_first() -> CkPhase {
    CkPhase::Disabling(0)
}

/// The request that an invocation makes on entering `phase`.
pub open spec fn ck_request(action: CkAction, phase: CkPhase) -> Request {
    match phase {
        CkPhase::Disabling(i) => Request::RenameIfPresent(
            Artifact::Overlay(i),
            Artifact::DisabledOverlay(i),
        ),
        CkPhase::ClearingLog => Request::RemoveIfPresent(Artifact::CkLog),
        CkPhase::Heading => Request::AppendNote(Note::ContentTool(action)),
        CkPhase::Running => Request::RunCreationKit(action),
        CkPhase::Settling(_) => Request::Pause(SETTLE_SECONDS),
        CkPhase::CopyingLog(_) => Request::AppendFile(Artifact::CkLog),
        CkPhase::Checking(_) => Request::SurveyData,
        CkPhase::Warning(status) => Request::Warn(Warning::ExitIgnored(action, status)),
        CkPhase::Restoring(i, _) => Request::RenameIfPresent(
            Artifact::DisabledOverlay(i),
            Artifact::Overlay(i),
        ),
    }
}

/// The phase in which the overlays are put back after `failure`.
pub open spec fn ck_give_up(failure: Failure) -> CkFlow {
    CkFlow::Next(CkPhase::Restoring(0, Some(failure)))
}

/// What an invocation of the content tool for `action` does after `response`
/// has come in, in `phase`. `has_log` says whether the name of the content
/// tool's log is known.
///
/// The overlays are set aside one by one; the stale log is removed; the run
/// log gets its note; the tool runs; the file system settles; the tool's log
/// is copied; the output is looked for. A failed step, a response that does
/// not answer the request, and a missing output each lead to the phase in
/// which the overlays are put back, and so does success.
pub open spec fn ck_next(action: CkAction, has_log: bool, phase: CkPhase, response: Response)
    -> CkFlow {
    match phase {
        CkPhase::Disabling(i) => match response {
            Response::Done => if i + 1 < OVERLAY_COUNT {
                CkFlow::Next(CkPhase::Disabling((i + 1) as u8))
            } else if has_log {
                CkFlow::Next(CkPhase::ClearingLog)
            } else {
                CkFlow::Next(CkPhase::Heading)
            },
            Response::Failed(_) => ck_give_up(Failure::DisableOverlay(i)),
            _ => ck_give_up(Failure::OutOfTurn),
        },
        CkPhase::ClearingLog => match response {
            Response::Done => CkFlow::Next(CkPhase::Heading),
            Response::Failed(_) => ck_give_up(Failure::RemoveCkLog),
            _ => ck_give_up(Failure::OutOfTurn),
        },
        CkPhase::Heading => match response {
            Response::Done => CkFlow::Next(CkPhase::Running),
            Response::Failed(_) => ck_give_up(Failure::RunLogUnwritable),
            _ => ck_give_up(Failure::OutOfTurn),
        },
        CkPhase::Running => match response {
            Response::Exited { code, .. } => CkFlow::Next(CkPhase::Settling(exit_status(code))),
            Response::Failed(_) => ck_give_up(Failure::CreationKitLaunch),
            _ => ck_give_up(Failure::OutOfTurn),
        },
        CkPhase::Settling(status) => match response {
            Response::Done => if has_log {
                CkFlow::Next(CkPhase::CopyingLog(status))
            } else {
                CkFlow::Next(CkPhase::Checking(status))
            },
            _ => ck_give_up(Failure::OutOfTurn),
        },
        CkPhase::CopyingLog(status) => match response {
            Response::Done => CkFlow::Next(CkPhase::Checking(status)),
            Response::Failed(_) => ck_give_up(Failure::CkLogCopy),
            _ => ck_give_up(Failure::OutOfTurn),
        },
        CkPhase::Checking(status) => match response {
            Response::Data(facts) => if !facts.output_present(action) {
                ck_give_up(Failure::OutputMissing(action, status))
            } else if status != 0 {
                CkFlow::Next(CkPhase::Warning(status))
            } else {
                CkFlow::Next(CkPhase::Restoring(0, None))
            },
            _ => ck_give_up(Failure::OutOfTurn),
        },
        CkPhase::Warning(_) => CkFlow::Next(CkPhase::Restoring(0, None)),
        CkPhase::Restoring(i, failure) => {
            let kept = if failure is Some {
                failure
            } else if response is Done {
                None
            } else if response is Failed {
                Some(Failure::RestoreOverlay(i))
            } else {
                Some(Failure::OutOfTurn)
            };
            if i + 1 < OVERLAY_COUNT {
                CkFlow::Next(CkPhase::Restoring((i + 1) as u8, kept))
            } else {
                CkFlow::Done(kept)
            }
        },
    }
}

/// The request that an invocation makes on entering `phase`.
pub fn creation_kit_request(action: CkAction, phase: CkPhase) -> (r: Request)
    ensures
        r == ck_request(action, phase),
{
    match phase {
        CkPhase::Disabling(i) => Request::RenameIfPresent(
            Artifact::Overlay(i),
            Artifact::DisabledOverlay(i),
        ),
        CkPhase::ClearingLog => Request::RemoveIfPresent(Artifact::CkLog),
        CkPhase::Heading => Request::AppendNote(Note::ContentTool(action)),
        CkPhase::Running => Request::RunCreationKit(action),
        CkPhase::Settling(_) => Request::Pause(SETTLE_SECONDS),
        CkPhase::CopyingLog(_) => Request::AppendFile(Artifact::CkLog),
        CkPhase::Checking(_) => Request::SurveyData,
        CkPhase::Warning(status) => Request::Warn(Warning::ExitIgnored(action, status)),
        CkPhase::Restoring(i, _) => Request::RenameIfPresent(
            Artifact::DisabledOverlay(i),
            Artifact::Overlay(i),
        ),
    }
}

/// Takes one invocation of the content tool a step further: given the phase
/// it is in and the response to that phase's request, says in which phase it
/// goes on or how it has ended.
pub fn run_creation_kit(action: CkAction, has_log: bool, phase: CkPhase, response: &Response) -> (r:
    CkFlow)
    ensures
        r == ck_next(action, has_log, phase, *response),
{
    match phase {
        CkPhase::Disabling(i) => match response {
            Response::Done => {
                if i < OVERLAY_COUNT - 1 {
                    CkFlow::Next(CkPhase::Disabling(i + 1))
                } else if has_log {
                    CkFlow::Next(CkPhase::ClearingLog)
                } else {
                    CkFlow::Next(CkPhase::Heading)
                }
            },
            Response::Failed(_) => give_up(Failure::DisableOverlay(i)),
            _ => give_up(Failure::OutOfTurn),
        },
        CkPhase::ClearingLog => match response {
            Response::Done => CkFlow::Next(CkPhase::Heading),
            Response::Failed(_) => give_up(Failure::RemoveCkLog),
            _ => give_up(Failure::OutOfTurn),
        },
        CkPhase::Heading => match response {
            Response::Done => CkFlow::Next(CkPhase::Running),
            Response::Failed(_) => give_up(Failure::RunLogUnwritable),
            _ => give_up(Failure::OutOfTurn),
        },
        CkPhase::Running => match response {
            Response::Exited { code, .. } => {
                let status: i32 = match code {
                    Some(c) => *c,
                    None => -1,
                };
                CkFlow::Next(CkPhase::Settling(status))
            },
            Response::Failed(_) => give_up(Failure::CreationKitLaunch),
            _ => give_up(Failure::OutOfTurn),
        },
        CkPhase::Settling(status) => match response {
            Response::Done => {
                if has_log {
                    CkFlow::Next(CkPhase::CopyingLog(status))
                } else {
                    CkFlow::Next(CkPhase::Checking(status))
                }
            },
            _ => give_up(Failure::OutOfTurn),
        },
        CkPhase::CopyingLog(status) => match response {
            Response::Done => CkFlow::Next(CkPhase::Checking(status)),
            Response::Failed(_) => give_up(Failure::CkLogCopy),
            _ => give_up(Failure::OutOfTurn),
        },
        CkPhase::Checking(status) => match response {
            Response::Data(facts) => {
                if !facts.has_output(action) {
                    give_up(Failure::OutputMissing(action, status))
                } else if status != 0 {
                    CkFlow::Next(CkPhase::Warning(status))
                } else {
                    CkFlow::Next(CkPhase::Restoring(0, None))
                }
            },
            _ => give_up(Failure::OutOfTurn),
        },
        CkPhase::Warning(_) => CkFlow::Next(CkPhase::Restoring(0, None)),
        CkPhase::Restoring(i, failure) => {
            let kept = match failure {
                Some(f) => Some(f),
                None => match response {
                    Response::Done => None,
                    Response::Failed(_) => Some(Failure::RestoreOverlay(i)),
                    _ => Some(Failure::OutOfTurn),
                },
            };
            if i < OVERLAY_COUNT - 1 {
                CkFlow::Next(CkPhase::Restoring(i + 1, kept))
            } else {
                CkFlow::Done(kept)
            }
        },
    }
}

/// The phase in which the overlays are put back after `failure`.
fn give_up(failure: Failure) -> (r: CkFlow)
    ensures
        r == ck_give_up(failure),
{
    CkFlow::Next(CkPhase::Restoring(0, Some(failure)))
}

/// How far an invocation has come: a number that grows with every step.
pub open spec fn ck_rank(phase: CkPhase) -> int {
    match phase {
        CkPhase::Disabling(i) => if i < OVERLAY_COUNT {
            i as int
        } else {
            OVERLAY_COUNT as int
        },
        CkPhase::ClearingLog => 7,
        CkPhase::Heading => 8,
        CkPhase::Running => 9,
        CkPhase::Settling(_) => 10,
        CkPhase::CopyingLog(_) => 11,
        CkPhase::Checking(_) => 12,
        CkPhase::Warning(_) => 13,
        CkPhase::Restoring(i, _) => if i < OVERLAY_COUNT {
            14 + i
        } else {
            14 + OVERLAY_COUNT
        },
    }
}

/// An invocation ends only after the last overlay library has been asked
/// back, whatever happened before.
pub proof fn lemma_ends_after_restoring(
    action: CkAction,
    has_log: bool,
    phase: CkPhase,
    response: Response,
)
    requires
        ck_next(action, has_log, phase, response) is Done,
    ensures
        phase matches CkPhase::Restoring(i, _) && i + 1 >= OVERLAY_COUNT,
{
}

/// The putting back starts with the first overlay library and goes through
/// them one by one: the phase that puts back a later one is entered from the
/// phase that puts back the one before it, and from nowhere else.
pub proof fn lemma_restoring_in_order(
    action: CkAction,
    has_log: bool,
    phase: CkPhase,
    response: Response,
)
    requires
        ck_next(action, has_log, phase, response) matches CkFlow::Next(CkPhase::Restoring(j, _))
            && j > 0,
    ensures
        phase matches CkPhase::Restoring(i, _) && i + 1 == ck_next(
            action,
            has_log,
            phase,
            response,
        )->Next_0->Restoring_0,
{
}

/// A failure that the invocation has met is what it ends with: nothing that
/// happens while the overlays are put back replaces it.
pub proof fn lemma_failure_kept(
    action: CkAction,
    has_log: bool,
    index: u8,
    failure: Failure,
    response: Response,
)
    ensures
        match ck_next(action, has_log, CkPhase::Restoring(index, Some(failure)), response) {
            CkFlow::Next(next) => next matches CkPhase::Restoring(_, kept) && kept == Some(
                failure,
            ),
            CkFlow::Done(kept) => kept == Some(failure),
        },
{
}

/// Every step takes the invocation further, so that it ends after at most 20
/// steps.
pub proof fn lemma_ck_advances(action: CkAction, has_log: bool, phase: CkPhase, response: Response)
    ensures
        0 <= ck_rank(phase) <= 20,
        ck_next(action, has_log, phase, response) matches CkFlow::Next(next) ==> ck_rank(phase)
            < ck_rank(next),
{
}

/// The output decides, not the exit status: where the declared output is
/// missing the invocation fails, even with exit status 0; where the output is
/// there it does not fail, whatever the exit status.
pub proof fn lemma_output_decides(action: CkAction, has_log: bool, status: i32, response: Response)
    requires
        response is Data,
    ensures
        !response->Data_0.output_present(action) ==> ck_next(
            action,
            has_log,
            CkPhase::Checking(status),
            response,
        ) == ck_give_up(Failure::OutputMissing(action, status)),
        response->Data_0.output_present(action) && status != 0 ==> ck_next(
            action,
            has_log,
            CkPhase::Checking(status),
            response,
        ) == CkFlow::Next(CkPhase::Warning(status)),
        response->Data_0.output_present(action) && status == 0 ==> ck_next(
            action,
            has_log,
            CkPhase::Checking(status),
            response,
        ) == CkFlow::Next(CkPhase::Restoring(0, None)),
{
}

/// The content tool's log says that the array of reference handles ran out.
pub open spec fn log_out_of_handles(log: Seq<char>) -> bool {
    occurs_in(log, "DEFAULT: OUT OF HANDLE ARRAY ENTRIES"@)
}

/// The content tool's log says that the visibility task did not complete.
pub open spec fn log_visibility_incomplete(log: Seq<char>) -> bool {
    occurs_in(log, "ERROR: visibility task did not complete."@)
}

/// Whether the content tool's log says that the array of reference handles
/// ran out.
pub fn ran_out_of_handles(log: &str) -> (r: bool)
    ensures
        r == log_out_of_handles(log@),
{
    contains_text(log, "DEFAULT: OUT OF HANDLE ARRAY ENTRIES")
}

/// Whether the content tool's log says that the visibility task did not
/// complete.
pub fn visibility_incomplete(log: &str) -> (r: bool)
    ensures
        r == log_visibility_incomplete(log@),
{
    contains_text(log, "ERROR: visibility task did not complete.")
}

} // verus!
