//! The editor: its command line, the course of one unattended run of a
//! script, and what its log says.

use crate::error::Failure;
use crate::names::Script;
use crate::protocol::{Artifact, Note, Request, Response};
use crate::text::{contains_text, occurs_in};
use vstd::prelude::*;
use vstd::string::*;

verus! {

/// The log says that the script ran to its end.
pub open spec fn log_completed(log: Seq<char>) -> bool {
    occurs_in(log, "Completed: "@)
}

/// The log says that the script ran to its end without errors.
pub open spec fn log_clean(log: Seq<char>) -> bool {
    occurs_in(log, "Completed: No Errors."@)
}

/// Whether the editor's log says that the script ran to its end.
pub fn script_completed(log: &str) -> (r: bool)
    ensures
        r == log_completed(log@),
{
    contains_text(log, "Completed: ")
}

/// Whether the editor's log says that the script ran to its end without
/// errors.
pub fn script_completed_cleanly(log: &str) -> (r: bool)
    ensures
        r == log_clean(log@),
{
    contains_text(log, "Completed: No Errors.")
}

/// The list of plugins that the editor loads for `script` on the plugin file
/// `plugin`: the plugin and the file that the script merges into it, each
/// marked as active, one per line.
pub fn plugins_list(script: Script, plugin: &str) -> (r: String)
    ensures
        r@ == "*"@ + plugin@ + "\n*"@ + script.source_text() + "\n"@,
{
    let mut out = String::from_str("*");
    out.append(plugin);
    out.append("\n*");
    out.append(script.source_name());
    out.append("\n");
    out
}

/// The arguments with which the editor is started for an unattended run of
/// `script` on the plugin file `plugin`. `list_path` is the path of the list
/// of plugins, `log_path` the path at which the editor is to leave its log.
pub fn xedit_arguments(script: Script, plugin: &str, list_path: &str, log_path: &str) -> (r: Vec<
    String,
>)
    ensures
        r.deep_view() == seq![
            "-fo4"@,
            "-autoexit"@,
            "-P:"@ + list_path@,
            "-Script:"@ + script.file_text(),
            "-Mod:"@ + plugin@,
            "-log:"@ + log_path@,
        ],
{
    let mut out: Vec<String> = Vec::new();
    out.push(String::from_str("-fo4"));
    out.push(String::from_str("-autoexit"));
    let mut list = String::from_str("-P:");
    list.append(list_path);
    out.push(list);
    let mut run = String::from_str("-Script:");
    run.append(script.file_name());
    out.push(run);
    let mut target = String::from_str("-Mod:");
    target.append(plugin);
    out.push(target);
    let mut log = String::from_str("-log:");
    log.append(log_path);
    out.push(log);
    assert(out.deep_view() =~= seq![
        "-fo4"@,
        "-autoexit"@,
        "-P:"@ + list_path@,
        "-Script:"@ + script.file_text(),
        "-Mod:"@ + plugin@,
        "-log:"@ + log_path@,
    ]);
    out
}

/// Seconds between two looks for the editor's log, and before the first one.
pub const POLL_SECONDS: u64 = 5;

/// Seconds left to the editor after its log has appeared.
pub const FINISH_SECONDS: u64 = 10;

/// Seconds left to the file system after the editor has been ended.
pub const SETTLE_SECONDS: u64 = 5;

/// Where one unattended run of the editor stands. Each phase waits for the
/// response to the request that [`editor_request`] gives for it.
#[derive(Debug, Copy, Clone, PartialEq, Eq, Structural)]
pub enum EditorPhase {
    /// The run log is being told what is about to run.
    Heading,
    /// The list of plugins is being written.
    Listing,
    /// The editor's log of an earlier run is being removed.
    ClearingLog,
    /// The editor is being started.
    Starting,
    /// Time passes before the next look for the log; the number counts the
    /// looks made so far.
    Waiting(u32),
    /// The editor's log is being looked for; the number counts the looks made
    /// before.
    Polling(u32),
    /// The editor is left to finish.
    Finishing,
    /// The editor is being ended.
    Stopping,
    /// The file system is left to settle.
    Settling,
    /// The editor's log is being copied into the run log.
    Copying,
    /// The editor's log is being read.
    Reading,
}

/// What an unattended run of the editor does next.
#[derive(Debug, Copy, Clone, PartialEq, Eq, Structural)]
pub enum EditorFlow {
    /// It goes on in the given phase.
    Next(EditorPhase),
    /// It has ended, with the given failure or well.
    Done(Option<Failure>),
}

/// The phase in which a run begins.
pub open spec fn editor_first() -> EditorPhase {
    EditorPhase::Heading
}

/// The request that a run makes on entering `phase`.
pub open spec fn editor_request(script: Script, phase: EditorPhase) -> Request {
    match phase {
        EditorPhase::Heading => Request::AppendNote(Note::Editor(script)),
        EditorPhase::Listing => Request::WritePluginsList(script),
        EditorPhase::ClearingLog => Request::RemoveIfPresent(Artifact::UnattendedLog),
        EditorPhase::Starting => Request::StartEditor(script),
        EditorPhase::Waiting(_) => Request::Pause(POLL_SECONDS),
        EditorPhase::Polling(_) => Request::Look(Artifact::UnattendedLog),
        EditorPhase::Finishing => Request::Pause(FINISH_SECONDS),
        EditorPhase::Stopping => Request::StopEditor,
        EditorPhase::Settling => Request::Pause(SETTLE_SECONDS),
        EditorPhase::Copying => Request::AppendFile(Artifact::UnattendedLog),
        EditorPhase::Reading => Request::ReadText(Artifact::UnattendedLog),
    }
}

/// What the log that the editor left says of the run of `script`.
pub open spec fn log_verdict(script: Script, log: Option<Seq<char>>) -> Option<Failure> {
    match log {
        Some(text) => if log_completed(text) {
            None
        } else {
            Some(Failure::ScriptFailed(script))
        },
        None => Some(Failure::ScriptSilent(script)),
    }
}

/// Whether `looks` looks for the log are as many as the run has patience for.
pub open spec fn patience_spent(patience: Option<u32>, looks: int) -> bool {
    patience matches Some(limit) && looks >= limit
}

/// What an unattended run of `script` does after `response` has come in, in
/// `phase`. `patience` bounds the number of looks for the editor's log; with
/// none the run looks until the log is there.
///
/// The editor does not end by itself: once its log has appeared it is left a
/// moment and then ended. The run fails where a step fails, where the log
/// does not appear within the patience given, and where the log lacks the
/// completion mark. A response that does not answer a look for the log ends
/// the looking.
pub open spec fn editor_next(
    script: Script,
    patience: Option<u32>,
    phase: EditorPhase,
    response: Response,
) -> EditorFlow {
    match phase {
        EditorPhase::Heading => match response {
            Response::Done => EditorFlow::Next(EditorPhase::Listing),
            Response::Failed(_) => EditorFlow::Done(Some(Failure::RunLogUnwritable)),
            _ => EditorFlow::Done(Some(Failure::OutOfTurn)),
        },
        EditorPhase::Listing => match response {
            Response::Done => EditorFlow::Next(EditorPhase::ClearingLog),
            Response::Failed(_) => EditorFlow::Done(Some(Failure::ManifestUnwritable)),
            _ => EditorFlow::Done(Some(Failure::OutOfTurn)),
        },
        EditorPhase::ClearingLog => match response {
            Response::Done => EditorFlow::Next(EditorPhase::Starting),
            Response::Failed(_) => EditorFlow::Done(Some(Failure::RemoveUnattendedLog)),
            _ => EditorFlow::Done(Some(Failure::OutOfTurn)),
        },
        EditorPhase::Starting => match response {
            Response::Done => EditorFlow::Next(EditorPhase::Waiting(0)),
            Response::Failed(_) => EditorFlow::Done(Some(Failure::EditorLaunch)),
            _ => EditorFlow::Done(Some(Failure::OutOfTurn)),
        },
        EditorPhase::Waiting(looks) => EditorFlow::Next(EditorPhase::Polling(looks)),
        EditorPhase::Polling(looks) => match response {
            Response::Found(true) => EditorFlow::Next(EditorPhase::Finishing),
            Response::Found(false) => if patience_spent(patience, looks + 1) {
                EditorFlow::Next(EditorPhase::Stopping)
            } else if looks < u32::MAX {
                EditorFlow::Next(EditorPhase::Waiting((looks + 1) as u32))
            } else {
                EditorFlow::Next(EditorPhase::Waiting(looks))
            },
            _ => EditorFlow::Next(EditorPhase::Stopping),
        },
        EditorPhase::Finishing => EditorFlow::Next(EditorPhase::Stopping),
        EditorPhase::Stopping => EditorFlow::Next(EditorPhase::Settling),
        EditorPhase::Settling => EditorFlow::Next(EditorPhase::Copying),
        EditorPhase::Copying => match response {
            Response::Done => EditorFlow::Next(EditorPhase::Reading),
            Response::Failed(_) => EditorFlow::Done(Some(Failure::EditorLogUnreadable)),
            _ => EditorFlow::Done(Some(Failure::OutOfTurn)),
        },
        EditorPhase::Reading => match response {
            Response::Text(log) => EditorFlow::Done(log_verdict(script, log.deep_view())),
            Response::Failed(_) => EditorFlow::Done(Some(Failure::EditorLogUnreadable)),
            _ => EditorFlow::Done(Some(Failure::OutOfTurn)),
        },
    }
}

/// The request that a run makes on entering `phase`.
pub fn xedit_request(script: Script, phase: EditorPhase) -> (r: Request)
    ensures
        r == editor_request(script, phase),
{
    match phase {
        EditorPhase::Heading => Request::AppendNote(Note::Editor(script)),
        EditorPhase::Listing => Request::WritePluginsList(script),
        EditorPhase::ClearingLog => Request::RemoveIfPresent(Artifact::UnattendedLog),
        EditorPhase::Starting => Request::StartEditor(script),
        EditorPhase::Waiting(_) => Request::Pause(POLL_SECONDS),
        EditorPhase::Polling(_) => Request::Look(Artifact::UnattendedLog),
        EditorPhase::Finishing => Request::Pause(FINISH_SECONDS),
        EditorPhase::Stopping => Request::StopEditor,
        EditorPhase::Settling => Request::Pause(SETTLE_SECONDS),
        EditorPhase::Copying => Request::AppendFile(Artifact::UnattendedLog),
        EditorPhase::Reading => Request::ReadText(Artifact::UnattendedLog),
    }
}

/// What the log that the editor left says of the run of `script`.
pub fn judge_log(script: Script, log: &Option<String>) -> (r: Option<Failure>)
    ensures
        r == log_verdict(script, log.deep_view()),
{
    match log {
        Some(text) => {
            if script_completed(text.as_str()) {
                None
            } else {
                Some(Failure::ScriptFailed(script))
            }
        },
        None => Some(Failure::ScriptSilent(script)),
    }
}

/// Takes one unattended run of the editor a step further: given the phase it
/// is in and the response to that phase's request, says in which phase it
/// goes on or how it has ended.
pub fn run_xedit_script(
    script: Script,
    patience: Option<u32>,
    phase: EditorPhase,
    response: &Response,
) -> (r: EditorFlow)
    ensures
        r == editor_next(script, patience, phase, *response),
{
    match phase {
        EditorPhase::Heading => match response {
            Response::Done => EditorFlow::Next(EditorPhase::Listing),
            Response::Failed(_) => EditorFlow::Done(Some(Failure::RunLogUnwritable)),
            _ => EditorFlow::Done(Some(Failure::OutOfTurn)),
        },
        EditorPhase::Listing => match response {
            Response::Done => EditorFlow::Next(EditorPhase::ClearingLog),
            Response::Failed(_) => EditorFlow::Done(Some(Failure::ManifestUnwritable)),
            _ => EditorFlow::Done(Some(Failure::OutOfTurn)),
        },
        EditorPhase::ClearingLog => match response {
            Response::Done => EditorFlow::Next(EditorPhase::Starting),
            Response::Failed(_) => EditorFlow::Done(Some(Failure::RemoveUnattendedLog)),
            _ => EditorFlow::Done(Some(Failure::OutOfTurn)),
        },
        EditorPhase::Starting => match response {
            Response::Done => EditorFlow::Next(EditorPhase::Waiting(0)),
            Response::Failed(_) => EditorFlow::Done(Some(Failure::EditorLaunch)),
            _ => EditorFlow::Done(Some(Failure::OutOfTurn)),
        },
        EditorPhase::Waiting(looks) => EditorFlow::Next(EditorPhase::Polling(looks)),
        EditorPhase::Polling(looks) => match response {
            Response::Found(true) => EditorFlow::Next(EditorPhase::Finishing),
            Response::Found(false) => {
                let spent = match patience {
                    Some(limit) => looks == u32::MAX || looks + 1 >= limit,
                    None => false,
                };
                if spent {
                    EditorFlow::Next(EditorPhase::Stopping)
                } else if looks < u32::MAX {
                    EditorFlow::Next(EditorPhase::Waiting(looks + 1))
                } else {
                    EditorFlow::Next(EditorPhase::Waiting(looks))
                }
            },
            _ => EditorFlow::Next(EditorPhase::Stopping),
        },
        EditorPhase::Finishing => EditorFlow::Next(EditorPhase::Stopping),
        EditorPhase::Stopping => EditorFlow::Next(EditorPhase::Settling),
        EditorPhase::Settling => EditorFlow::Next(EditorPhase::Copying),
        EditorPhase::Copying => match response {
            Response::Done => EditorFlow::Next(EditorPhase::Reading),
            Response::Failed(_) => EditorFlow::Done(Some(Failure::EditorLogUnreadable)),
            _ => EditorFlow::Done(Some(Failure::OutOfTurn)),
        },
        EditorPhase::Reading => match response {
            Response::Text(log) => EditorFlow::Done(judge_log(script, log)),
            Response::Failed(_) => EditorFlow::Done(Some(Failure::EditorLogUnreadable)),
            _ => EditorFlow::Done(Some(Failure::OutOfTurn)),
        },
    }
}

/// Once the editor has been started, the run does not end before the editor
/// has been asked to end: it ends only from the phases that copy and read the
/// log, which come after the phase that ends the editor.
pub proof fn lemma_editor_ended_before_done(
    script: Script,
    patience: Option<u32>,
    phase: EditorPhase,
    response: Response,
)
    requires
        editor_next(script, patience, phase, response) is Done,
    ensures
        phase is Heading || phase is Listing || phase is ClearingLog || phase is Starting
            || phase is Copying || phase is Reading,
        phase is Starting ==> !(response is Done),
{
}

/// The run succeeds only where the editor's log is there and bears the
/// completion mark.
pub proof fn lemma_success_needs_mark(
    script: Script,
    patience: Option<u32>,
    phase: EditorPhase,
    response: Response,
)
    requires
        editor_next(script, patience, phase, response) == EditorFlow::Done(None),
    ensures
        phase is Reading,
        response matches Response::Text(Some(log)) && log_completed(log@),
{
}

/// With patience for `limit` looks the run stops looking after the look that
/// makes `limit`.
pub proof fn lemma_patience_bounds_looks(script: Script, limit: u32, looks: u32)
    requires
        looks + 1 >= limit,
    ensures
        editor_next(script, Some(limit), EditorPhase::Polling(looks), Response::Found(false))
            == EditorFlow::Next(EditorPhase::Stopping),
{
}

} // verus!
