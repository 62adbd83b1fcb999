//! The checks that guard the build: what each stage needs on disk before it
//! may start, whether the plugin can be worked on, and whether the tools and
//! their configuration are in place.

use crate::error::{about, bare, BuildError, ErrorView, Failure};
use crate::facts::{ConfigContent, ConfigurationFacts, DataFacts, InstallationFacts, ScriptFacts};
use crate::names::Script;
use crate::pattern::{escape, escaped, first_group, regex_compiles, regex_first_group};
use crate::stage::{BuildMode, BuildStage};
use crate::text::{ends_with, is_suffix, parse_i32, parsed_i32, same_text, trim, trimmed};
use crate::tools::creation_kit::{CkpeSettings, ConfigVariant, SettingNames};
use vstd::prelude::*;
use vstd::string::*;

verus! {

/// What `stage` needs before it may start in a build of the given mode:
/// `plugin` says that the plugin file is there, `meshes` that precombined
/// meshes are, `geometry` that the geometry file is, `visibility` that
/// visibility files are, and `previs` that the generated previs plugin is.
pub open spec fn prerequisites_met(
    stage: BuildStage,
    mode: BuildMode,
    plugin: bool,
    meshes: bool,
    geometry: bool,
    visibility: bool,
    previs: bool,
) -> bool {
    match stage {
        BuildStage::VerifyEnvironment => true,
        BuildStage::GeneratePrecombines => plugin,
        BuildStage::MergePrecombines => meshes,
        BuildStage::ArchivePrecombines => meshes,
        BuildStage::CompressPsg => mode == BuildMode::Clean && geometry,
        BuildStage::BuildCdx => mode == BuildMode::Clean,
        BuildStage::GeneratePrevis => plugin,
        BuildStage::MergePrevis => visibility && previs,
        BuildStage::ArchiveVis => visibility,
    }
}

/// The first thing that `stage` needs and `facts` do not show; nothing where
/// `facts` show all that it needs.
pub open spec fn missing_prerequisite(
    stage: BuildStage,
    mode: BuildMode,
    facts: DataFacts,
) -> Option<Failure> {
    match stage {
        BuildStage::VerifyEnvironment => None,
        BuildStage::GeneratePrecombines | BuildStage::GeneratePrevis => if facts.plugin_exists {
            None
        } else {
            Some(Failure::PluginMissing)
        },
        BuildStage::MergePrecombines | BuildStage::ArchivePrecombines => {
            if facts.precombined_present() {
                None
            } else {
                Some(Failure::NoPrecombinedMeshes)
            }
        },
        BuildStage::CompressPsg => if mode != BuildMode::Clean {
            Some(Failure::CompressNeedsClean)
        } else if !facts.geometry_psg_exists {
            Some(Failure::NoGeometry)
        } else {
            None
        },
        BuildStage::BuildCdx => if mode != BuildMode::Clean {
            Some(Failure::CdxNeedsClean)
        } else {
            None
        },
        BuildStage::MergePrevis => if !facts.visibility_present() {
            Some(Failure::NoVisibilityFiles)
        } else if !facts.previs_exists {
            Some(Failure::NoPrevis)
        } else {
            None
        },
        BuildStage::ArchiveVis => if facts.visibility_present() {
            None
        } else {
            Some(Failure::NoVisibilityFiles)
        },
    }
}

/// Checks that the data directory holds what `stage` needs before it may
/// start. The failure, if any, names what is missing; for a missing plugin
/// its wording takes the plugin's file name as subject.
pub fn check_stage_prerequisites(
    stage: BuildStage,
    facts: &DataFacts,
    build_mode: &BuildMode,
) -> (r: Result<(), Failure>)
    ensures
        r is Ok <==> prerequisites_met(
            stage,
            *build_mode,
            facts.plugin_exists,
            facts.precombined_present(),
            facts.geometry_psg_exists,
            facts.visibility_present(),
            facts.previs_exists,
        ),
        r is Ok <==> missing_prerequisite(stage, *build_mode, *facts) is None,
        r matches Err(failure) ==> missing_prerequisite(stage, *build_mode, *facts) == Some(
            failure,
        ),
{
    match stage {
        BuildStage::VerifyEnvironment => Ok(()),
        BuildStage::GeneratePrecombines => {
            if !facts.plugin_exists {
                return Err(Failure::PluginMissing);
            }
            Ok(())
        },
        BuildStage::MergePrecombines => {
            if !facts.has_precombined() {
                return Err(Failure::NoPrecombinedMeshes);
            }
            Ok(())
        },
        BuildStage::ArchivePrecombines => {
            if !facts.has_precombined() {
                return Err(Failure::NoPrecombinedMeshes);
            }
            Ok(())
        },
        BuildStage::CompressPsg => {
            if *build_mode != BuildMode::Clean {
                return Err(Failure::CompressNeedsClean);
            }
            if !facts.geometry_psg_exists {
                return Err(Failure::NoGeometry);
            }
            Ok(())
        },
        BuildStage::BuildCdx => {
            if *build_mode != BuildMode::Clean {
                return Err(Failure::CdxNeedsClean);
            }
            Ok(())
        },
        BuildStage::GeneratePrevis => {
            if !facts.plugin_exists {
                return Err(Failure::PluginMissing);
            }
            Ok(())
        },
        BuildStage::MergePrevis => {
            if !facts.has_visibility() {
                return Err(Failure::NoVisibilityFiles);
            }
            if !facts.previs_exists {
                return Err(Failure::NoPrevis);
            }
            Ok(())
        },
        BuildStage::ArchiveVis => {
            if !facts.has_visibility() {
                return Err(Failure::NoVisibilityFiles);
            }
            Ok(())
        },
    }
}

/// What is to be done about the plugin before the first stage.
#[derive(Debug, Copy, Clone, PartialEq, Eq, Structural)]
pub enum PluginCheck {
    /// The plugin is there.
    Ready,
    /// The plugin is missing and the seed plugin is there: the operator is to
    /// be asked whether the seed may be renamed to the plugin.
    AskToRenameSeed,
}

/// What stands against working on the plugin file; nothing where the file is
/// there or can be made from the seed plugin.
pub open spec fn file_obstacle(facts: DataFacts, no_prompt: bool) -> Option<Failure> {
    if facts.plugin_exists {
        None
    } else if !facts.seed_exists {
        Some(Failure::NoPluginNorSeed)
    } else if no_prompt {
        Some(Failure::PluginMissing)
    } else {
        None
    }
}

/// What stands against working on the plugin from scratch: an archive that
/// it already has, or what stands against its file.
pub open spec fn plugin_obstacle(facts: DataFacts, no_prompt: bool) -> Option<Failure> {
    if facts.archive_exists {
        Some(Failure::ArchiveExists)
    } else {
        file_obstacle(facts, no_prompt)
    }
}

/// Whether a run that starts from `start` is still to make the plugin's
/// archive: it starts at the stage that packs the precombined meshes or
/// before it.
pub open spec fn makes_archive(start: BuildStage) -> bool {
    start.ordinal() <= BuildStage::ArchivePrecombines.ordinal()
}

/// What stands against a run that starts from `start`. An archive stands
/// against a run that is still to make it; a run that is resumed past the
/// packing of the precombined meshes works on the archive that is there.
pub open spec fn start_obstacle(start: BuildStage, facts: DataFacts, no_prompt: bool) -> Option<
    Failure,
> {
    if makes_archive(start) {
        plugin_obstacle(facts, no_prompt)
    } else {
        file_obstacle(facts, no_prompt)
    }
}

/// Checks that the plugin file is there or can be made from the seed plugin.
/// The wording of `PluginMissing` takes the plugin's file name as subject.
pub fn check_plugin_file(facts: &DataFacts, no_prompt: bool) -> (r: Result<PluginCheck, Failure>)
    ensures
        r is Ok <==> file_obstacle(*facts, no_prompt) is None,
        r matches Err(failure) ==> file_obstacle(*facts, no_prompt) == Some(failure),
        r matches Ok(check) ==> (check == PluginCheck::Ready <==> facts.plugin_exists),
{
    if !facts.plugin_exists {
        if !facts.seed_exists {
            return Err(Failure::NoPluginNorSeed);
        }
        if no_prompt {
            return Err(Failure::PluginMissing);
        }
        return Ok(PluginCheck::AskToRenameSeed);
    }
    Ok(PluginCheck::Ready)
}

/// Checks that the plugin can be worked on from scratch: it has no archive
/// yet, and it is there or can be made from the seed plugin. The wording of
/// `ArchiveExists` takes the archive's name as subject, that of
/// `PluginMissing` the plugin's file name.
pub fn check_plugin(facts: &DataFacts, no_prompt: bool) -> (r: Result<PluginCheck, Failure>)
    ensures
        r is Ok <==> plugin_obstacle(*facts, no_prompt) is None,
        r matches Err(failure) ==> plugin_obstacle(*facts, no_prompt) == Some(failure),
        r matches Ok(check) ==> (check == PluginCheck::Ready <==> facts.plugin_exists),
{
    if facts.archive_exists {
        return Err(Failure::ArchiveExists);
    }
    check_plugin_file(facts, no_prompt)
}

/// Checks that a run that starts from `start` can work on the plugin: as
/// [`check_plugin`] for a run that is still to make the archive, as
/// [`check_plugin_file`] for a run that is resumed past that.
pub fn check_plugin_for(start: BuildStage, facts: &DataFacts, no_prompt: bool) -> (r: Result<
    PluginCheck,
    Failure,
>)
    ensures
        r is Ok <==> start_obstacle(start, *facts, no_prompt) is None,
        r matches Err(failure) ==> start_obstacle(start, *facts, no_prompt) == Some(failure),
        r matches Ok(check) ==> (check == PluginCheck::Ready <==> facts.plugin_exists),
{
    if start.number() <= 3 {
        check_plugin(facts, no_prompt)
    } else {
        check_plugin_file(facts, no_prompt)
    }
}

/// The form of configuration that is in place: the first of the known files
/// that is there.
pub open spec fn detected_variant(facts: InstallationFacts) -> Option<ConfigVariant> {
    if facts.platform_ini_present {
        Some(ConfigVariant::PlatformIni)
    } else if facts.platform_toml_present {
        Some(ConfigVariant::PlatformToml)
    } else if facts.legacy_ini_present {
        Some(ConfigVariant::LegacyIni)
    } else {
        None
    }
}

/// Finds out in which form the content tool's extension is configured, and
/// sets the names of the file and of its settings accordingly. The log file's
/// name is left as it was, and so are the names where no form is found.
pub fn detect_ckpe_configuration(
    facts: &InstallationFacts,
    ckpe_settings: &mut CkpeSettings,
) -> (r: Result<ConfigVariant, Failure>)
    ensures
        r is Ok <==> detected_variant(*facts) is Some,
        r matches Ok(variant) ==> {
            &&& detected_variant(*facts) == Some(variant)
            &&& final(ckpe_settings).names(variant)
        },
        r matches Err(failure) ==> {
            &&& failure == Failure::NoConfiguration
            &&& final(ckpe_settings).setting_names() == old(ckpe_settings).setting_names()
        },
        final(ckpe_settings).log_file == old(ckpe_settings).log_file,
{
    let variant = if facts.platform_ini_present {
        ConfigVariant::PlatformIni
    } else if facts.platform_toml_present {
        ConfigVariant::PlatformToml
    } else if facts.legacy_ini_present {
        ConfigVariant::LegacyIni
    } else {
        return Err(Failure::NoConfiguration);
    };
    ckpe_settings.ini_file = String::from_str(variant.file_name());
    ckpe_settings.handle_setting = String::from_str(variant.handle_setting());
    ckpe_settings.log_setting = String::from_str(variant.log_setting());
    Ok(variant)
}

/// The first part of the installation that is missing, in the order editor,
/// game, content tool, compatibility patch, archiver, configuration file.
pub open spec fn installation_fault(facts: InstallationFacts) -> Option<ErrorView> {
    if !facts.editor.present {
        Some(about(Failure::EditorMissing, facts.editor.shown@))
    } else if !facts.game_executable.present {
        Some(about(Failure::GameMissing, facts.game_executable.shown@))
    } else if !facts.creation_kit_present {
        Some(bare(Failure::CreationKitMissing))
    } else if !facts.ckpe_loader_present {
        Some(bare(Failure::CkpeMissing))
    } else if !facts.archive2_present {
        Some(bare(Failure::Archive2Missing))
    } else if detected_variant(facts) is None {
        Some(bare(Failure::NoConfiguration))
    } else {
        None
    }
}

/// Checks that the tools are installed and finds the configuration file,
/// failing on the first part that is missing. On success the settings name
/// the configuration that was found; on failure they are as they were.
pub fn check_installation(facts: &InstallationFacts, ckpe_settings: &mut CkpeSettings) -> (r:
    Result<ConfigVariant, BuildError>)
    ensures
        r is Ok <==> installation_fault(*facts) is None,
        r matches Ok(variant) ==> {
            &&& detected_variant(*facts) == Some(variant)
            &&& final(ckpe_settings).names(variant)
        },
        r matches Err(e) ==> {
            &&& installation_fault(*facts) == Some(e@)
            &&& final(ckpe_settings).setting_names() == old(ckpe_settings).setting_names()
        },
        final(ckpe_settings).log_file == old(ckpe_settings).log_file,
{
    if !facts.editor.present {
        return Err(BuildError::about(Failure::EditorMissing, facts.editor.shown.as_str()));
    }
    if !facts.game_executable.present {
        return Err(
            BuildError::about(Failure::GameMissing, facts.game_executable.shown.as_str()),
        );
    }
    if !facts.creation_kit_present {
        return Err(BuildError::bare(Failure::CreationKitMissing));
    }
    if !facts.ckpe_loader_present {
        return Err(BuildError::bare(Failure::CkpeMissing));
    }
    if !facts.archive2_present {
        return Err(BuildError::bare(Failure::Archive2Missing));
    }
    match detect_ckpe_configuration(facts, ckpe_settings) {
        Ok(variant) => Ok(variant),
        Err(failure) => Err(BuildError::bare(failure)),
    }
}

/// What `pattern` captures in each of `lines`.
pub open spec fn captures_of(pattern: Seq<char>, lines: Seq<Seq<char>>) -> Seq<Option<Seq<char>>> {
    Seq::new(lines.len(), |i: int| regex_first_group(pattern, lines[i]))
}

/// Whether `lines` can be searched with `pattern`: there is nothing to
/// search, or the pattern compiles.
pub open spec fn searchable(pattern: Seq<char>, lines: Seq<Seq<char>>) -> bool {
    lines.len() == 0 || regex_compiles(pattern)
}

/// Searches each of `lines` with `pattern` and hands back what the pattern
/// captures in each. The search fails where there are lines and the pattern
/// does not compile.
pub fn capture_lines(pattern: &str, lines: &Vec<String>) -> (r: Result<
    Vec<Option<String>>,
    regex::Error,
>)
    ensures
        r is Ok <==> searchable(pattern@, lines.deep_view()),
        r matches Ok(captures) ==> captures.deep_view() == captures_of(
            pattern@,
            lines.deep_view(),
        ),
{
    let mut out: Vec<Option<String>> = Vec::new();
    let mut i: usize = 0;
    while i < lines.len()
        invariant
            i <= lines.len(),
            out.len() == i,
            i > 0 ==> regex_compiles(pattern@),
            forall|k: int|
                0 <= k < i ==> (#[trigger] out@[k]).deep_view() == regex_first_group(
                    pattern@,
                    lines@[k]@,
                ),
        decreases lines.len() - i,
    {
        let found = first_group(pattern, lines[i].as_str())?;
        out.push(found);
        i += 1;
    }
    assert(out.deep_view() =~= captures_of(pattern@, lines.deep_view())) by {
        assert forall|k: int| 0 <= k < out.len() implies out.deep_view()[k] == captures_of(
            pattern@,
            lines.deep_view(),
        )[k] by {
            assert(out@[k].deep_view() == regex_first_group(pattern@, lines@[k]@));
        }
    }
    Ok(out)
}

/// The oldest version of the editor scripts that the build works with.
pub const MINIMUM_SCRIPT_VERSION: i32 = 10;

/// The pattern that finds a script's version in one of its lines.
pub open spec fn version_pattern() -> Seq<char> {
    "BatchVersion\\s*=\\s*(\\d+)"@
}

/// The first of `captures` that writes an `i32`, as that number.
pub open spec fn first_parsed(captures: Seq<Option<Seq<char>>>) -> Option<i32>
    decreases captures.len(),
{
    if captures.len() == 0 {
        None
    } else if captures[0] is Some && parsed_i32(captures[0]->0) is Some {
        parsed_i32(captures[0]->0)
    } else {
        first_parsed(captures.drop_first())
    }
}

/// What the version pattern captures in each of `lines`.
pub open spec fn version_captures(lines: Seq<Seq<char>>) -> Seq<Option<Seq<char>>> {
    captures_of(version_pattern(), lines)
}

/// The version that a script states, given what the version pattern captured
/// in each of its lines: the first capture that writes a number.
pub fn pick_version(captures: &Vec<Option<String>>) -> (r: Option<i32>)
    ensures
        r == first_parsed(captures.deep_view()),
{
    let ghost all = captures.deep_view();
    let mut i: usize = 0;
    assert(all.subrange(0, all.len() as int) =~= all);
    while i < captures.len()
        invariant
            all == captures.deep_view(),
            i <= captures.len(),
            first_parsed(all) == first_parsed(all.subrange(i as int, all.len() as int)),
        decreases captures.len() - i,
    {
        let ghost rest = all.subrange(i as int, all.len() as int);
        assert(rest[0] == captures@[i as int].deep_view());
        assert(rest.drop_first() =~= all.subrange(i + 1, all.len() as int));
        match &captures[i] {
            Some(capture) => {
                let parsed = parse_i32(capture.as_str());
                if parsed.is_some() {
                    return parsed;
                }
            },
            None => {},
        }
        i += 1;
    }
    None
}

/// The version that the script with the given lines states: the number in the
/// first line in which the version pattern captures one. The search fails
/// where there are lines and the version pattern does not compile.
pub fn script_version(lines: &Vec<String>) -> (r: Result<Option<i32>, regex::Error>)
    ensures
        r is Ok <==> searchable(version_pattern(), lines.deep_view()),
        r matches Ok(version) ==> version == first_parsed(version_captures(lines.deep_view())),
{
    let captures = capture_lines("BatchVersion\\s*=\\s*(\\d+)", lines)?;
    Ok(pick_version(&captures))
}

/// What is wrong with a script that states `version`.
pub open spec fn version_fault(script: Script, version: Option<i32>) -> Option<Failure> {
    match version {
        Some(v) => if v < MINIMUM_SCRIPT_VERSION {
            Some(Failure::ScriptOutdated(script, v))
        } else {
            None
        },
        None => Some(Failure::ScriptVersionUnknown(script)),
    }
}

/// Judges the version that a script states: it must state one, and one that
/// is not older than the build needs.
pub fn judge_version(script: Script, version: Option<i32>) -> (r: Result<(), Failure>)
    ensures
        r is Ok <==> version_fault(script, version) is None,
        r matches Err(failure) ==> version_fault(script, version) == Some(failure),
{
    match version {
        Some(v) => {
            if v < MINIMUM_SCRIPT_VERSION {
                Err(Failure::ScriptOutdated(script, v))
            } else {
                Ok(())
            }
        },
        None => Err(Failure::ScriptVersionUnknown(script)),
    }
}

/// What is wrong with an editor script: it is missing, or its version cannot
/// be told because its text could not be read, or states none, or cannot be
/// searched for one, or it states too old a one.
pub open spec fn script_fault(script: Script, facts: ScriptFacts) -> Option<ErrorView> {
    if !facts.present {
        Some(about(Failure::ScriptMissing, facts.shown@))
    } else {
        match facts.lines {
            Some(lines) => if !searchable(version_pattern(), lines.deep_view()) {
                Some(bare(Failure::ScriptVersionUnknown(script)))
            } else {
                match version_fault(script, first_parsed(version_captures(lines.deep_view()))) {
                    Some(failure) => Some(bare(failure)),
                    None => None,
                }
            },
            None => Some(bare(Failure::ScriptVersionUnknown(script))),
        }
    }
}

/// A script is without fault exactly where it is there, its text was read
/// and can be searched, and the first version that it states is not older
/// than the build needs.
pub proof fn lemma_script_in_order(script: Script, facts: ScriptFacts)
    ensures
        script_fault(script, facts) is None <==> {
            &&& facts.present
            &&& facts.lines matches Some(lines)
            &&& searchable(version_pattern(), lines.deep_view())
            &&& first_parsed(version_captures(lines.deep_view())) matches Some(version)
            &&& version >= MINIMUM_SCRIPT_VERSION
        },
{
}

/// Checks that an editor script is there and states a version that is recent
/// enough.
pub fn check_script(script: Script, facts: &ScriptFacts) -> (r: Result<(), BuildError>)
    ensures
        r is Ok <==> script_fault(script, *facts) is None,
        r matches Err(e) ==> script_fault(script, *facts) == Some(e@),
{
    if !facts.present {
        return Err(BuildError::about(Failure::ScriptMissing, facts.shown.as_str()));
    }
    match &facts.lines {
        Some(lines) => {
            let version = match script_version(lines) {
                Ok(version) => version,
                Err(_) => {
                    return Err(BuildError::bare(Failure::ScriptVersionUnknown(script)));
                },
            };
            match judge_version(script, version) {
                Ok(()) => Ok(()),
                Err(failure) => Err(BuildError::bare(failure)),
            }
        },
        None => Err(BuildError::bare(Failure::ScriptVersionUnknown(script))),
    }
}

/// Whether the handle setting of the given name holds `true` or `false`
/// rather than a number.
pub open spec fn modern_handle(setting: Seq<char>) -> bool {
    setting == "bBSPointerHandleExtremly"@
}

/// The pattern that finds the handle setting of the given name in a line.
pub open spec fn handle_pattern(setting: Seq<char>) -> Seq<char> {
    if modern_handle(setting) {
        escaped(setting) + "[\\s]*=[\\s]*(true|false)"@
    } else {
        escaped(setting) + "[\\s]*=[\\s]*(\\d+)"@
    }
}

/// The pattern that finds the log setting of the given name in a line.
pub open spec fn log_pattern(setting: Seq<char>) -> Seq<char> {
    escaped(setting) + "[\\s]*=[\\s]*(.+)"@
}

/// What a line's handle setting says, given the value captured in it: in the
/// modern form whether it reads `true`, in the old form whether the number is
/// other than 0; nothing for an old-form value that writes no `i32`.
pub open spec fn handle_value(capture: Seq<char>, modern: bool) -> Option<bool> {
    if modern {
        Some(trimmed(capture) == "true"@)
    } else {
        match parsed_i32(capture) {
            Some(v) => Some(v != 0),
            None => None,
        }
    }
}

/// The log file that a line names, given the value captured in it: the value
/// without white space around it, unless nothing is left of it.
pub open spec fn log_value(capture: Seq<char>) -> Option<Seq<char>> {
    let name = trimmed(capture);
    if name.len() > 0 {
        Some(name)
    } else {
        None
    }
}

/// What a line's handle setting says, given the value captured in it.
pub fn interpret_handle(capture: &str, modern: bool) -> (r: Option<bool>)
    ensures
        r == handle_value(capture@, modern),
{
    if modern {
        Some(same_text(trim(capture), "true"))
    } else {
        match parse_i32(capture) {
            Some(v) => Some(v != 0),
            None => None,
        }
    }
}

/// The log file that a line names, given the value captured in it.
pub fn interpret_log(capture: &str) -> (r: Option<String>)
    ensures
        r.deep_view() == log_value(capture@),
{
    let name = trim(capture);
    if name.unicode_len() > 0 {
        Some(String::from_str(name))
    } else {
        None
    }
}

/// What the last of the lines with a handle setting says, given what the
/// handle pattern captured in each line.
pub open spec fn last_handle(captures: Seq<Option<Seq<char>>>, modern: bool) -> Option<bool>
    decreases captures.len(),
{
    if captures.len() == 0 {
        None
    } else if captures.last() is Some && handle_value(captures.last()->0, modern) is Some {
        handle_value(captures.last()->0, modern)
    } else {
        last_handle(captures.drop_last(), modern)
    }
}

/// The log file that the last of the lines with a usable log setting names,
/// given what the log pattern captured in each line.
pub open spec fn last_log(captures: Seq<Option<Seq<char>>>) -> Option<Seq<char>>
    decreases captures.len(),
{
    if captures.len() == 0 {
        None
    } else if captures.last() is Some && log_value(captures.last()->0) is Some {
        log_value(captures.last()->0)
    } else {
        last_log(captures.drop_last())
    }
}

/// What the handle setting says, given what the handle pattern captured in
/// each line: what the last line that sets it says.
pub fn pick_handle(captures: &Vec<Option<String>>, modern: bool) -> (r: Option<bool>)
    ensures
        r == last_handle(captures.deep_view(), modern),
{
    let ghost all = captures.deep_view();
    let mut found: Option<bool> = None;
    let mut i: usize = 0;
    assert(all.subrange(0, 0) =~= Seq::<Option<Seq<char>>>::empty());
    while i < captures.len()
        invariant
            all == captures.deep_view(),
            i <= captures.len(),
            found == last_handle(all.subrange(0, i as int), modern),
        decreases captures.len() - i,
    {
        let ghost seen = all.subrange(0, i + 1);
        assert(seen.drop_last() =~= all.subrange(0, i as int));
        assert(seen.last() == captures@[i as int].deep_view());
        match &captures[i] {
            Some(capture) => {
                let value = interpret_handle(capture.as_str(), modern);
                if value.is_some() {
                    found = value;
                }
            },
            None => {},
        }
        i += 1;
    }
    assert(all.subrange(0, i as int) =~= all);
    found
}

/// The log file that the configuration names, given what the log pattern
/// captured in each line: what the last line that names one says.
pub fn pick_log(captures: &Vec<Option<String>>) -> (r: Option<String>)
    ensures
        r.deep_view() == last_log(captures.deep_view()),
{
    let ghost all = captures.deep_view();
    let mut found: Option<String> = None;
    let mut i: usize = 0;
    assert(all.subrange(0, 0) =~= Seq::<Option<Seq<char>>>::empty());
    while i < captures.len()
        invariant
            all == captures.deep_view(),
            i <= captures.len(),
            found.deep_view() == last_log(all.subrange(0, i as int)),
        decreases captures.len() - i,
    {
        let ghost seen = all.subrange(0, i + 1);
        assert(seen.drop_last() =~= all.subrange(0, i as int));
        assert(seen.last() == captures@[i as int].deep_view());
        match &captures[i] {
            Some(capture) => {
                let value = interpret_log(capture.as_str());
                if value.is_some() {
                    found = value;
                }
            },
            None => {},
        }
        i += 1;
    }
    assert(all.subrange(0, i as int) =~= all);
    found
}

/// The handle setting and the log file that a configuration in INI form
/// holds: of each, what the last line that sets it says.
pub open spec fn ini_values(lines: Seq<Seq<char>>, names: SettingNames) -> (
    Option<bool>,
    Option<Seq<char>>,
) {
    (
        last_handle(captures_of(handle_pattern(names.handle), lines), modern_handle(names.handle)),
        last_log(captures_of(log_pattern(names.log), lines)),
    )
}

/// Whether a configuration in INI form can be searched for its two settings.
pub open spec fn ini_searchable(lines: Seq<Seq<char>>, names: SettingNames) -> bool {
    searchable(handle_pattern(names.handle), lines) && searchable(log_pattern(names.log), lines)
}

/// Reads the handle setting and the log file's name from the lines of a
/// configuration in INI form. The reading fails where there are lines and
/// the pattern for one of the two settings does not compile.
pub fn read_ini_config(lines: &Vec<String>, ckpe_settings: &CkpeSettings) -> (r: Result<
    (Option<bool>, Option<String>),
    regex::Error,
>)
    ensures
        r is Ok <==> ini_searchable(lines.deep_view(), ckpe_settings.setting_names()),
        r matches Ok(found) ==> (found.0, found.1.deep_view()) == ini_values(
            lines.deep_view(),
            ckpe_settings.setting_names(),
        ),
{
    let modern = same_text(ckpe_settings.handle_setting.as_str(), "bBSPointerHandleExtremly");
    let mut handle_search = escape(ckpe_settings.handle_setting.as_str());
    if modern {
        handle_search.append("[\\s]*=[\\s]*(true|false)");
    } else {
        handle_search.append("[\\s]*=[\\s]*(\\d+)");
    }
    let mut log_search = escape(ckpe_settings.log_setting.as_str());
    log_search.append("[\\s]*=[\\s]*(.+)");
    let handles = capture_lines(handle_search.as_str(), lines)?;
    let logs = capture_lines(log_search.as_str(), lines)?;
    Ok((pick_handle(&handles, modern), pick_log(&logs)))
}

/// The log file that a configuration in TOML form names: the setting as it
/// stands, unless it is empty.
pub open spec fn toml_log_value(log_file: Option<Seq<char>>) -> Option<Seq<char>> {
    match log_file {
        Some(name) => if name.len() > 0 {
            Some(name)
        } else {
            None
        },
        None => None,
    }
}

/// The handle setting and the log file's name of a configuration in TOML
/// form, given the two settings as they stand in the file.
pub fn read_toml_config(handle_limit: Option<bool>, log_file: &Option<String>) -> (r: (
    Option<bool>,
    Option<String>,
))
    ensures
        r.0 == handle_limit,
        r.1.deep_view() == toml_log_value(log_file.deep_view()),
{
    let kept = match log_file {
        Some(name) => {
            if name.as_str().unicode_len() > 0 {
                Some(String::from_str(name.as_str()))
            } else {
                None
            }
        },
        None => None,
    };
    (handle_limit, kept)
}

/// Whether the limit on reference handles is raised.
#[derive(Debug, Copy, Clone, PartialEq, Eq, Structural)]
pub enum HandleLimit {
    /// The setting is switched on.
    Raised,
    /// The setting is switched off: the content tool may run out of handles.
    Disabled,
    /// The configuration does not hold the setting.
    NotFound,
}

/// What the handle setting amounts to.
pub open spec fn handle_limit_of(setting: Option<bool>) -> HandleLimit {
    match setting {
        Some(true) => HandleLimit::Raised,
        Some(false) => HandleLimit::Disabled,
        None => HandleLimit::NotFound,
    }
}

/// Whether the configuration file is in TOML form.
pub open spec fn in_toml_form(names: SettingNames) -> bool {
    is_suffix(names.file, ".toml"@)
}

/// Of the known forms of configuration only `CreationKitPlatformExtended.toml`
/// is in TOML form, and only `fallout4_test.ini` keeps its handle setting as
/// a number.
pub proof fn lemma_known_forms(variant: ConfigVariant)
    ensures
        in_toml_form(variant.setting_names()) <==> variant == ConfigVariant::PlatformToml,
        modern_handle(variant.setting_names().handle) <==> variant != ConfigVariant::LegacyIni,
{
    reveal_strlit(".toml");
    reveal_strlit("CreationKitPlatformExtended.ini");
    reveal_strlit("CreationKitPlatformExtended.toml");
    reveal_strlit("fallout4_test.ini");
    reveal_strlit("bBSPointerHandleExtremly");
    reveal_strlit("BSHandleRefObjectPatch");
    let file = variant.setting_names().file;
    match variant {
        ConfigVariant::PlatformToml => {
            assert(file.subrange(file.len() - 5, file.len() as int) =~= ".toml"@);
        },
        _ => {
            assert(file.subrange(file.len() - 5, file.len() as int)[4] != ".toml"@[4]);
        },
    }
    assert("BSHandleRefObjectPatch"@[0] != "bBSPointerHandleExtremly"@[0]);
}

/// Why the configuration's content cannot be used: it could not be read, or
/// it is not in the form that the file's name announces, or it cannot be
/// searched for its settings.
pub open spec fn content_fault(content: ConfigContent, shown: Seq<char>, names: SettingNames)
    -> Option<ErrorView> {
    match content {
        ConfigContent::Unreadable(why) => Some(
            ErrorView {
                failure: if in_toml_form(names) {
                    Failure::TomlUnreadable
                } else {
                    Failure::ConfigUnreadable
                },
                subject: shown,
                detail: why@,
            },
        ),
        ConfigContent::TomlInvalid(why) => if in_toml_form(names) {
            Some(ErrorView { failure: Failure::TomlInvalid, subject: shown, detail: why@ })
        } else {
            Some(bare(Failure::OutOfTurn))
        },
        ConfigContent::Lines(lines) => if in_toml_form(names) {
            Some(bare(Failure::OutOfTurn))
        } else if !ini_searchable(lines.deep_view(), names) {
            Some(about(Failure::ConfigUnsearchable, shown))
        } else {
            None
        },
        ConfigContent::Toml { .. } => if in_toml_form(names) {
            None
        } else {
            Some(bare(Failure::OutOfTurn))
        },
    }
}

/// The handle setting and the log file's name that the configuration holds.
pub open spec fn config_values(content: ConfigContent, names: SettingNames) -> (
    Option<bool>,
    Option<Seq<char>>,
) {
    match content {
        ConfigContent::Lines(lines) => ini_values(lines.deep_view(), names),
        ConfigContent::Toml { handle_limit, log_file } => (
            handle_limit,
            toml_log_value(log_file.deep_view()),
        ),
        _ => (None, None),
    }
}

/// Reads the handle setting and the log file's name from the configuration,
/// in the form that the file's name announces. `shown` is the file's path.
pub fn read_config(content: &ConfigContent, shown: &str, ckpe_settings: &CkpeSettings) -> (r:
    Result<(Option<bool>, Option<String>), BuildError>)
    ensures
        r is Ok <==> content_fault(*content, shown@, ckpe_settings.setting_names()) is None,
        r matches Ok(found) ==> (found.0, found.1.deep_view()) == config_values(
            *content,
            ckpe_settings.setting_names(),
        ),
        r matches Err(e) ==> content_fault(*content, shown@, ckpe_settings.setting_names())
            == Some(e@),
{
    let toml = ends_with(ckpe_settings.ini_file.as_str(), ".toml");
    match content {
        ConfigContent::Unreadable(why) => {
            let failure = if toml {
                Failure::TomlUnreadable
            } else {
                Failure::ConfigUnreadable
            };
            Err(BuildError::full(failure, shown, why.as_str()))
        },
        ConfigContent::TomlInvalid(why) => {
            if toml {
                Err(BuildError::full(Failure::TomlInvalid, shown, why.as_str()))
            } else {
                Err(BuildError::bare(Failure::OutOfTurn))
            }
        },
        ConfigContent::Lines(lines) => {
            if toml {
                return Err(BuildError::bare(Failure::OutOfTurn));
            }
            match read_ini_config(lines, ckpe_settings) {
                Ok(found) => Ok(found),
                Err(_) => Err(BuildError::about(Failure::ConfigUnsearchable, shown)),
            }
        },
        ConfigContent::Toml { handle_limit, log_file } => {
            if !toml {
                return Err(BuildError::bare(Failure::OutOfTurn));
            }
            Ok(read_toml_config(*handle_limit, log_file))
        },
    }
}

/// What is wrong about the second archiver, where it is to be used.
pub open spec fn bsarch_fault(facts: ConfigurationFacts, use_bsarch: bool) -> Option<ErrorView> {
    if !use_bsarch {
        None
    } else {
        match facts.bsarch {
            Some(path) => if path.present {
                None
            } else {
                Some(about(Failure::BsArchNotFound, path.shown@))
            },
            None => Some(bare(Failure::BsArchUnspecified)),
        }
    }
}

/// What is wrong with the scripts, the configuration or the second archiver:
/// the first fault in the order first script, second script, configuration
/// file, log setting, second archiver. The log setting is at fault where the
/// configuration does not hold it or holds it empty.
pub open spec fn configuration_fault(
    facts: ConfigurationFacts,
    names: SettingNames,
    use_bsarch: bool,
) -> Option<ErrorView> {
    if script_fault(Script::MergeCombinedObjects, facts.merge_combined) is Some {
        script_fault(Script::MergeCombinedObjects, facts.merge_combined)
    } else if script_fault(Script::MergePrevis, facts.merge_previs) is Some {
        script_fault(Script::MergePrevis, facts.merge_previs)
    } else if content_fault(facts.config, facts.config_shown@, names) is Some {
        content_fault(facts.config, facts.config_shown@, names)
    } else if config_values(facts.config, names).1 is None {
        Some(ErrorView {
            failure: Failure::LoggingNotConfigured,
            subject: names.log,
            detail: names.file,
        })
    } else {
        bsarch_fault(facts, use_bsarch)
    }
}

/// Checks the editor scripts, reads the configuration and checks the second
/// archiver, failing on the first fault. On success the settings name the
/// content tool's log file, and the result says how the handle limit is set;
/// on failure the settings are as they were.
pub fn check_configuration(
    facts: &ConfigurationFacts,
    ckpe_settings: &mut CkpeSettings,
    use_bsarch: bool,
) -> (r: Result<HandleLimit, BuildError>)
    ensures
        final(ckpe_settings).setting_names() == old(ckpe_settings).setting_names(),
        r is Ok <==> configuration_fault(*facts, old(ckpe_settings).setting_names(), use_bsarch)
            is None,
        r matches Ok(limit) ==> {
            &&& limit == handle_limit_of(
                config_values(facts.config, old(ckpe_settings).setting_names()).0,
            )
            &&& final(ckpe_settings).log_file.deep_view() == config_values(
                facts.config,
                old(ckpe_settings).setting_names(),
            ).1
        },
        r matches Err(e) ==> {
            &&& configuration_fault(*facts, old(ckpe_settings).setting_names(), use_bsarch)
                == Some(e@)
            &&& final(ckpe_settings).log_file == old(ckpe_settings).log_file
        },
{
    check_script(Script::MergeCombinedObjects, &facts.merge_combined)?;
    check_script(Script::MergePrevis, &facts.merge_previs)?;
    let found = read_config(&facts.config, facts.config_shown.as_str(), ckpe_settings)?;
    let limit = match found.0 {
        Some(true) => HandleLimit::Raised,
        Some(false) => HandleLimit::Disabled,
        None => HandleLimit::NotFound,
    };
    let log_file = match found.1 {
        Some(name) => name,
        None => {
            return Err(
                BuildError::full(
                    Failure::LoggingNotConfigured,
                    ckpe_settings.log_setting.as_str(),
                    ckpe_settings.ini_file.as_str(),
                ),
            );
        },
    };
    if use_bsarch {
        match &facts.bsarch {
            Some(path) => {
                if !path.present {
                    return Err(BuildError::about(Failure::BsArchNotFound, path.shown.as_str()));
                }
            },
            None => {
                return Err(BuildError::bare(Failure::BsArchUnspecified));
            },
        }
    }
    ckpe_settings.log_file = Some(log_file);
    Ok(limit)
}

/// What is wrong with the environment: the first fault of the installation,
/// or, where the installation is in order, the first fault of the scripts,
/// the configuration that was found, and the second archiver.
pub open spec fn environment_fault(
    installation: InstallationFacts,
    configuration: ConfigurationFacts,
    use_bsarch: bool,
) -> Option<ErrorView> {
    match installation_fault(installation) {
        Some(fault) => Some(fault),
        None => match detected_variant(installation) {
            Some(variant) => configuration_fault(
                configuration,
                variant.setting_names(),
                use_bsarch,
            ),
            None => Some(bare(Failure::NoConfiguration)),
        },
    }
}

/// The handle setting and the log file's name that the configuration found in
/// the installation holds.
pub open spec fn environment_values(
    installation: InstallationFacts,
    configuration: ConfigurationFacts,
) -> (Option<bool>, Option<Seq<char>>) {
    match detected_variant(installation) {
        Some(variant) => config_values(configuration.config, variant.setting_names()),
        None => (None, None),
    }
}

/// Checks that the tools, the editor scripts and the configuration are in
/// place, failing on the first fault in the order editor, game, content tool,
/// compatibility patch, archiver, configuration file, scripts, log setting,
/// second archiver.
///
/// On success the settings name the configuration that was found and the
/// content tool's log file, and the result says how the handle limit is set:
/// a limit that is not raised is no fault. On a fault of the installation the
/// settings are as they were; on a later fault they name the configuration
/// that was found and the log file is as it was.
pub fn verify_environment(
    installation: &InstallationFacts,
    configuration: &ConfigurationFacts,
    ckpe_settings: &mut CkpeSettings,
    use_bsarch: bool,
) -> (r: Result<HandleLimit, BuildError>)
    ensures
        r is Ok <==> environment_fault(*installation, *configuration, use_bsarch) is None,
        r matches Err(e) ==> {
            &&& environment_fault(*installation, *configuration, use_bsarch) == Some(e@)
            &&& final(ckpe_settings).log_file == old(ckpe_settings).log_file
        },
        r matches Ok(limit) ==> {
            &&& limit == handle_limit_of(environment_values(*installation, *configuration).0)
            &&& final(ckpe_settings).log_file.deep_view() == environment_values(
                *installation,
                *configuration,
            ).1
        },
        installation_fault(*installation) is Some ==> final(ckpe_settings).setting_names() == old(
            ckpe_settings,
        ).setting_names(),
        installation_fault(*installation) is None ==> (detected_variant(
            *installation,
        ) matches Some(variant) && final(ckpe_settings).names(variant)),
{
    let variant = check_installation(installation, ckpe_settings)?;
    check_configuration(configuration, ckpe_settings, use_bsarch)
}

/// An environment that is in order has all that the build needs: the editor,
/// the game, the content tool, the compatibility patch and the archiver are
/// there; a configuration file was found; both scripts are there and state a
/// version that is recent enough; the configuration names a log file; and
/// BSArch, where it is wanted, is there.
pub proof fn lemma_environment_in_order(
    installation: InstallationFacts,
    configuration: ConfigurationFacts,
    use_bsarch: bool,
)
    requires
        environment_fault(installation, configuration, use_bsarch) is None,
    ensures
        installation.editor.present,
        installation.game_executable.present,
        installation.creation_kit_present,
        installation.ckpe_loader_present,
        installation.archive2_present,
        detected_variant(installation) is Some,
        script_fault(Script::MergeCombinedObjects, configuration.merge_combined) is None,
        script_fault(Script::MergePrevis, configuration.merge_previs) is None,
        environment_values(installation, configuration).1 is Some,
        use_bsarch ==> (configuration.bsarch matches Some(path) && path.present),
{
}

/// Whether BSArch is wanted or not makes no difference to an environment in
/// which it is in place, and an environment that is in order without BSArch
/// fails with BSArch wanted exactly through the fault of BSArch.
pub proof fn lemma_bsarch_checked_last(
    installation: InstallationFacts,
    configuration: ConfigurationFacts,
)
    ensures
        environment_fault(installation, configuration, false) is None ==> environment_fault(
            installation,
            configuration,
            true,
        ) == bsarch_fault(configuration, true),
        environment_fault(installation, configuration, false) is Some ==> environment_fault(
            installation,
            configuration,
            true,
        ) == environment_fault(installation, configuration, false),
{
}

/// The handle setting never decides whether the environment is in order: two
/// configurations in which the same is read but for the handle setting are
/// at fault alike and name the same log file.
pub proof fn lemma_handle_limit_is_no_fault(
    installation: InstallationFacts,
    configuration: ConfigurationFacts,
    other: ConfigurationFacts,
    use_bsarch: bool,
)
    requires
        other.merge_combined == configuration.merge_combined,
        other.merge_previs == configuration.merge_previs,
        other.config_shown == configuration.config_shown,
        other.bsarch == configuration.bsarch,
        detected_variant(installation) is Some ==> ({
            let names = detected_variant(installation)->0.setting_names();
            &&& content_fault(other.config, other.config_shown@, names) == content_fault(
                configuration.config,
                configuration.config_shown@,
                names,
            )
            &&& config_values(other.config, names).1 == config_values(configuration.config, names).1
        }),
    ensures
        environment_fault(installation, configuration, use_bsarch) == environment_fault(
            installation,
            other,
            use_bsarch,
        ),
        environment_values(installation, configuration).1 == environment_values(
            installation,
            other,
        ).1,
{
}

/// In a configuration in TOML form the handle setting stands by itself: what
/// it is set to, or whether it is set at all, changes neither what is at
/// fault nor the log file that is named.
pub proof fn lemma_toml_handle_limit_is_no_fault(
    installation: InstallationFacts,
    configuration: ConfigurationFacts,
    handle_limit: Option<bool>,
    other_limit: Option<bool>,
    log_file: Option<String>,
    use_bsarch: bool,
)
    requires
        configuration.config == (ConfigContent::Toml { handle_limit, log_file }),
    ensures
        ({
            let other = ConfigurationFacts {
                config: ConfigContent::Toml { handle_limit: other_limit, log_file },
                ..configuration
            };
            &&& environment_fault(installation, configuration, use_bsarch) == environment_fault(
                installation,
                other,
                use_bsarch,
            )
            &&& environment_values(installation, configuration).1 == environment_values(
                installation,
                other,
            ).1
        }),
{
}

} // verus!
