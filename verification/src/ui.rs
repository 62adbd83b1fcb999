//! What the operator is asked and how the answers are read.

use crate::error::Failure;
use crate::plugin::{archive_name_of, base_name_of, file_name_of, PluginIdentity};
use crate::protocol::{Note, Notice, Warning};
use crate::stage::{clean_menu, short_menu, stage_numbered, BuildMode, BuildStage};
use crate::text::{
    ascii_lower, char_lower, chars_of, decimal, int_text, parse_i32, parsed_i32, trim, trimmed,
};
use vstd::prelude::*;
use vstd::string::*;

verus! {

/// Reads the operator's answer to the question for the plugin's name: the
/// answer without white space around it names the plugin; an answer that
/// holds nothing else names none.
pub fn prompt_for_plugin_name(input: &str) -> (r: Result<PluginIdentity, Failure>)
    ensures
        trimmed(input@).len() == 0 <==> r is Err,
        r matches Err(failure) ==> failure == Failure::NoPluginName,
        r matches Ok(identity) ==> {
            &&& identity.base_name@ == base_name_of(trimmed(input@))
            &&& identity.file_name@ == file_name_of(trimmed(input@))
            &&& identity.archive_name@ == archive_name_of(base_name_of(trimmed(input@)))
            &&& identity.well_formed()
        },
{
    let name = trim(input);
    if name.unicode_len() == 0 {
        return Err(Failure::NoPluginName);
    }
    Ok(PluginIdentity::derive(name))
}

/// The stage that the answer `input` asks for.
pub open spec fn stage_asked(input: Seq<char>) -> Result<BuildStage, Failure> {
    match parsed_i32(trimmed(input)) {
        Some(n) => match stage_numbered(n as int) {
            Some(stage) => Ok(stage),
            None => Err(Failure::StageOutOfRange(n)),
        },
        None => Err(Failure::StageNotANumber),
    }
}

/// Reads the operator's answer to the question for the stage to resume from:
/// the answer without white space around it must be the number of a stage.
pub fn prompt_for_stage(input: &str) -> (r: Result<BuildStage, Failure>)
    ensures
        r == stage_asked(input@),
{
    match parse_i32(trim(input)) {
        Some(n) => match BuildStage::from_i32(n) {
            Some(stage) => Ok(stage),
            None => Err(Failure::StageOutOfRange(n)),
        },
        None => Err(Failure::StageNotANumber),
    }
}

/// Whether the answer `input` is a yes: its first character after leading
/// white space is `y` or `Y`.
pub open spec fn says_yes(input: Seq<char>) -> bool {
    trimmed(input).len() > 0 && ascii_lower(trimmed(input)[0]) == 'y'
}

/// Reads the operator's answer to a question that takes yes or no. Where the
/// operator is not to be asked, the answer counts as yes.
pub fn prompt_yes_no(input: &str, no_prompt: bool) -> (r: bool)
    ensures
        r == (no_prompt || says_yes(input@)),
{
    if no_prompt {
        return true;
    }
    let answer = chars_of(trim(input));
    answer.len() > 0 && char_lower(answer[0]) == 'y'
}

/// The stages from which a build of the given mode can be resumed, as they
/// are shown to the operator.
pub open spec fn stages_shown(mode: BuildMode) -> Seq<char> {
    "Available stages to resume from:\n"@ + (if mode == BuildMode::Clean {
        clean_menu()
    } else {
        short_menu()
    })
        + "Enter stage number (0-8) to resume from that stage, or any other key to exit.\n"@
}

/// The text that shows the operator the stages from which a build of the
/// given mode can be resumed.
pub fn display_stages(build_mode: &BuildMode) -> (r: String)
    ensures
        r@ == stages_shown(*build_mode),
{
    let mut out = String::from_str("Available stages to resume from:\n");
    let menu = BuildStage::display_stages(build_mode);
    out.append(menu.as_str());
    out.append("Enter stage number (0-8) to resume from that stage, or any other key to exit.\n");
    out
}

/// The line that offers `stage` for resumption.
pub open spec fn choice_line(stage: BuildStage) -> Seq<char> {
    "["@ + int_text(stage.ordinal()) + "] "@ + stage.description_text() + "\n"@
}

/// The question for the stage to resume from, in a build of the given mode:
/// the stages that do work and are in scope, one per line, between the
/// question and the prompt.
pub open spec fn stage_question(mode: BuildMode) -> Seq<char> {
    "Plugin already exists. Choose a stage to start from:\n"@ + choice_line(
        BuildStage::GeneratePrecombines,
    ) + choice_line(BuildStage::MergePrecombines) + choice_line(BuildStage::ArchivePrecombines)
        + (if mode == BuildMode::Clean {
        choice_line(BuildStage::CompressPsg) + choice_line(BuildStage::BuildCdx)
    } else {
        Seq::empty()
    }) + choice_line(BuildStage::GeneratePrevis) + choice_line(BuildStage::MergePrevis)
        + choice_line(BuildStage::ArchiveVis) + "Enter stage number (1-8): "@
}

/// Appends the line that offers `stage` for resumption.
fn append_choice(out: &mut String, stage: BuildStage)
    ensures
        final(out)@ == old(out)@ + choice_line(stage),
{
    let number = decimal(stage.number());
    out.append("[");
    out.append(number.as_str());
    out.append("] ");
    out.append(stage.description());
    out.append("\n");
    assert(out@ =~= old(out)@ + choice_line(stage));
}

/// The question for the stage to resume from, in a build of the given mode.
pub fn stage_prompt(build_mode: &BuildMode) -> (r: String)
    ensures
        r@ == stage_question(*build_mode),
{
    let mut out = String::from_str("Plugin already exists. Choose a stage to start from:\n");
    append_choice(&mut out, BuildStage::GeneratePrecombines);
    append_choice(&mut out, BuildStage::MergePrecombines);
    append_choice(&mut out, BuildStage::ArchivePrecombines);
    if *build_mode == BuildMode::Clean {
        append_choice(&mut out, BuildStage::CompressPsg);
        append_choice(&mut out, BuildStage::BuildCdx);
    }
    append_choice(&mut out, BuildStage::GeneratePrevis);
    append_choice(&mut out, BuildStage::MergePrevis);
    append_choice(&mut out, BuildStage::ArchiveVis);
    out.append("Enter stage number (1-8): ");
    assert(out@ =~= stage_question(*build_mode));
    out
}

/// The question for the plugin's name.
pub fn plugin_prompt() -> (r: &'static str)
    ensures
        r@ == "No plugin specified. Please enter a plugin name:\nEnter plugin name: "@,
{
    "No plugin specified. Please enter a plugin name:\nEnter plugin name: "
}

/// The question whether the seed plugin may be renamed to the plugin.
pub fn seed_prompt() -> (r: &'static str)
    ensures
        r@ == "Plugin does not exist, Rename xPrevisPatch.esp to this? [Y/N]\n[Y/N]? "@,
{
    "Plugin does not exist, Rename xPrevisPatch.esp to this? [Y/N]\n[Y/N]? "
}

/// The rule that is drawn in the run log under a note.
pub open spec fn rule_text() -> Seq<char> {
    "===================================="@
}

/// What `note` writes into the run log; `plugin` is the plugin's file name.
pub open spec fn note_text(note: Note, plugin: Seq<char>) -> Seq<char> {
    match note {
        Note::ContentTool(action) => "Running CK option "@ + action.name_text() + ":\n"@
            + rule_text(),
        Note::Editor(script) => "Running xEdit script "@ + script.file_text() + " against "@
            + plugin + "\n"@ + rule_text(),
    }
}

/// The two lines that `note` writes into the run log, without the end of the
/// second line; `plugin` is the plugin's file name.
pub fn note_lines(note: Note, plugin: &str) -> (r: String)
    ensures
        r@ == note_text(note, plugin@),
{
    let mut out = String::new();
    match note {
        Note::ContentTool(action) => {
            out.append("Running CK option ");
            out.append(action.name());
            out.append(":\n");
        },
        Note::Editor(script) => {
            out.append("Running xEdit script ");
            out.append(script.file_name());
            out.append(" against ");
            out.append(plugin);
            out.append("\n");
        },
    }
    out.append("====================================");
    assert(out@ =~= note_text(note, plugin@));
    out
}

/// The line with which the run log begins; `plugin` is the plugin's file
/// name.
pub fn run_log_opening(plugin: &str) -> (r: String)
    ensures
        r@ == "Starting Previsbine Builder for plugin "@ + plugin@,
{
    let mut out = String::from_str("Starting Previsbine Builder for plugin ");
    out.append(plugin);
    out
}

/// What the operator is told by `notice`.
pub open spec fn notice_text(notice: Notice) -> Seq<char> {
    match notice {
        Notice::Banner => "=================================================================\nAutomatic Previsbine Builder (V2.6)\nIf you use MO2 then this must be run from within MO2\n"@,
        Notice::Complete => "\nBuild complete!"@,
    }
}

/// What the operator is told by `notice`.
pub fn notice_lines(notice: Notice) -> (r: &'static str)
    ensures
        r@ == notice_text(notice),
{
    match notice {
        Notice::Banner => "=================================================================\nAutomatic Previsbine Builder (V2.6)\nIf you use MO2 then this must be run from within MO2\n",
        Notice::Complete => "\nBuild complete!",
    }
}

/// The wording of `warning`; `setting` is the name of the handle setting and
/// `detail` what the system reported.
pub open spec fn warning_text(warning: Warning, setting: Seq<char>, detail: Seq<char>) -> Seq<
    char,
> {
    match warning {
        Warning::HandleLimitDisabled => "WARNING - "@ + setting
            + " is disabled. You may run out of Reference Handles."@,
        Warning::HandleLimitNotFound => "WARNING - "@ + setting
            + " not found. You may run out of Reference Handles."@,
        Warning::ExitIgnored(action, status) => "WARNING - "@ + action.name_text()
            + " ended with error "@ + int_text(status as int)
            + " but seemed to finish so error ignored."@,
        Warning::MergeHadErrors => "WARNING - "@ + "Merge Precombines had errors"@,
        Warning::CleanupFailed => "WARNING - "@ + "Cleanup could not finish a step: "@ + detail,
    }
}

/// The wording of `warning`; `setting` is the name of the handle setting and
/// `detail` what the system reported.
pub fn warning_message(warning: Warning, setting: &str, detail: &str) -> (r: String)
    ensures
        r@ == warning_text(warning, setting@, detail@),
{
    let mut out = String::from_str("WARNING - ");
    match warning {
        Warning::HandleLimitDisabled => {
            out.append(setting);
            out.append(" is disabled. You may run out of Reference Handles.");
        },
        Warning::HandleLimitNotFound => {
            out.append(setting);
            out.append(" not found. You may run out of Reference Handles.");
        },
        Warning::ExitIgnored(action, status) => {
            let number = decimal(status);
            out.append(action.name());
            out.append(" ended with error ");
            out.append(number.as_str());
            out.append(" but seemed to finish so error ignored.");
        },
        Warning::MergeHadErrors => {
            out.append("Merge Precombines had errors");
        },
        Warning::CleanupFailed => {
            out.append("Cleanup could not finish a step: ");
            out.append(detail);
        },
    }
    assert(out@ =~= warning_text(warning, setting@, detail@));
    out
}

/// The files that a build of the given mode leaves for the plugin: the
/// plugin itself, in a clean build its compressed geometry and its index,
/// and its archive.
pub open spec fn produced(mode: BuildMode, base: Seq<char>, file: Seq<char>, archive: Seq<char>)
    -> Seq<Seq<char>> {
    if mode == BuildMode::Clean {
        seq![file, base + " - Geometry.csg"@, base + ".cdx"@, archive]
    } else {
        seq![file, archive]
    }
}

/// The names of the files that a build of the given mode leaves for the
/// plugin.
pub fn produced_artifacts(mode: BuildMode, identity: &PluginIdentity) -> (r: Vec<String>)
    ensures
        r.deep_view() == produced(
            mode,
            identity.base_name@,
            identity.file_name@,
            identity.archive_name@,
        ),
{
    let mut out: Vec<String> = Vec::new();
    out.push(String::from_str(identity.file_name.as_str()));
    if mode == BuildMode::Clean {
        let mut geometry = String::from_str(identity.base_name.as_str());
        geometry.append(" - Geometry.csg");
        out.push(geometry);
        let mut index = String::from_str(identity.base_name.as_str());
        index.append(".cdx");
        out.push(index);
    }
    out.push(String::from_str(identity.archive_name.as_str()));
    assert(out.deep_view() =~= produced(
        mode,
        identity.base_name@,
        identity.file_name@,
        identity.archive_name@,
    ));
    out
}

} // verus!
