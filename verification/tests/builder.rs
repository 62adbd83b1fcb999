use generate_previsbines::builder::{Position, PrevisbineBuilder, StagePhase};
use generate_previsbines::error::{ErrorKind, Failure};
use generate_previsbines::facts::{
    ConfigContent, ConfigurationFacts, DataFacts, InstallationFacts, PathFact, ScriptFacts,
};
use generate_previsbines::location::locate;
use generate_previsbines::names::{CkAction, PackJob, Script};
use generate_previsbines::protocol::{
    Artifact, Notice, PackSet, Request, Response, Warning,
};
use generate_previsbines::stage::{Args, BuildMode, BuildStage};
use generate_previsbines::tools::creation_kit::{creation_kit_arguments, ConfigVariant};
use std::collections::BTreeSet;

fn args(mode: BuildMode, plugin: Option<&str>, start_stage: Option<i32>) -> Args {
    Args {
        mode,
        plugin: plugin.map(|p| p.to_string()),
        fo4edit_path: None,
        fallout4_path: None,
        start_stage,
        no_prompt: false,
        keep_files: false,
        use_bsarch: false,
        bsarch_path: None,
    }
}

/// A stand-in for the disk, the tools and the operator.
struct World {
    files: BTreeSet<String>,
    archive: Option<BTreeSet<String>>,
    ck_log: Option<String>,
    editor_log: String,
    answers: Vec<String>,
    exit_status: i32,
    tool_leaves_output: bool,
    tool_leaves_geometry: bool,
    config_lines: Vec<String>,
    broken: Vec<Request>,
    requests: Vec<Request>,
    command_lines: Vec<Vec<String>>,
}

fn world() -> World {
    World {
        files: BTreeSet::new(),
        archive: None,
        ck_log: None,
        editor_log: "Completed: No Errors.".to_string(),
        answers: Vec::new(),
        exit_status: 0,
        tool_leaves_output: true,
        tool_leaves_geometry: true,
        config_lines: vec![
            "bBSPointerHandleExtremly=true".to_string(),
            "sOutputFile=CK.log".to_string(),
        ],
        broken: Vec::new(),
        requests: Vec::new(),
        command_lines: Vec::new(),
    }
}

impl World {
    fn with(mut self, names: &[&str]) -> World {
        for name in names {
            self.files.insert(name.to_string());
        }
        self
    }

    fn key(&self, builder: &PrevisbineBuilder, artifact: Artifact) -> String {
        locate(artifact, builder.identity(), builder.settings()).segments.join("/")
    }

    fn has(&self, name: &str) -> bool {
        self.files.contains(name)
    }

    fn listing(&self, directory: &str) -> Vec<String> {
        let prefix = format!("{}/", directory);
        self.files
            .iter()
            .filter(|f| f.starts_with(&prefix))
            .map(|f| f[prefix.len()..].to_string())
            .collect()
    }

    fn remove_tree(&mut self, directory: &str) {
        let prefix = format!("{}/", directory);
        self.files.retain(|f| !f.starts_with(&prefix));
    }

    fn data(&self, builder: &PrevisbineBuilder) -> DataFacts {
        DataFacts {
            plugin_exists: self.has(&self.key(builder, Artifact::Plugin)),
            archive_exists: self.archive.is_some(),
            seed_exists: self.has(&self.key(builder, Artifact::Seed)),
            precombined_names: self.listing(&self.key(builder, Artifact::PrecombinedDir)),
            visibility_names: self.listing(&self.key(builder, Artifact::VisDir)),
            combined_objects_exists: self.has(&self.key(builder, Artifact::CombinedObjects)),
            geometry_psg_exists: self.has(&self.key(builder, Artifact::GeometryPsg)),
            geometry_csg_exists: self.has(&self.key(builder, Artifact::GeometryCsg)),
            cdx_exists: self.has(&self.key(builder, Artifact::Cdx)),
            previs_exists: self.has(&self.key(builder, Artifact::Previs)),
        }
    }

    fn installation(&self) -> InstallationFacts {
        InstallationFacts {
            editor: PathFact { shown: "C:\\xEdit\\FO4Edit64.exe".to_string(), present: true },
            game_executable: PathFact { shown: "C:\\Game\\Fallout4.exe".to_string(), present: true },
            creation_kit_present: true,
            ckpe_loader_present: true,
            archive2_present: true,
            platform_ini_present: true,
            platform_toml_present: false,
            legacy_ini_present: false,
        }
    }

    fn configuration(&self) -> ConfigurationFacts {
        let script = |name: &str| ScriptFacts {
            shown: name.to_string(),
            present: true,
            lines: Some(vec!["BatchVersion = 10;".to_string()]),
        };
        ConfigurationFacts {
            merge_combined: script("a.pas"),
            merge_previs: script("b.pas"),
            config_shown: "C:\\Game\\CreationKitPlatformExtended.ini".to_string(),
            config: ConfigContent::Lines(self.config_lines.clone()),
            bsarch: Some(PathFact { shown: "D:\\bsarch.exe".to_string(), present: true }),
        }
    }

    fn run_content_tool(&mut self, builder: &PrevisbineBuilder, action: CkAction) -> Response {
        let mode = builder.args().mode;
        self.command_lines.push(creation_kit_arguments(
            action,
            mode,
            builder.identity().file_name.as_str(),
        ));
        if self.tool_leaves_output {
            match action {
                CkAction::GeneratePrecombined => {
                    self.files.insert(self.key(builder, Artifact::CombinedObjects));
                    self.files
                        .insert(format!("{}/0001.nif", self.key(builder, Artifact::PrecombinedDir)));
                    if mode == BuildMode::Clean && self.tool_leaves_geometry {
                        self.files.insert(self.key(builder, Artifact::GeometryPsg));
                    }
                }
                CkAction::CompressPsg => {
                    self.files.insert(self.key(builder, Artifact::GeometryCsg));
                }
                CkAction::BuildCdx => {
                    self.files.insert(self.key(builder, Artifact::Cdx));
                }
                CkAction::GeneratePrevisData => {
                    self.files.insert(self.key(builder, Artifact::Previs));
                    self.files.insert(format!("{}/c.uvd", self.key(builder, Artifact::VisDir)));
                }
            }
        }
        Response::Exited {
            success: self.exit_status == 0,
            code: Some(self.exit_status),
            errors: String::new(),
        }
    }

    fn pack(&mut self, builder: &PrevisbineBuilder, set: PackSet) -> Response {
        let mut held = BTreeSet::new();
        if set.precombined {
            for name in self.listing(&self.key(builder, Artifact::PrecombinedDir)) {
                held.insert(format!("{}/{}", self.key(builder, Artifact::PrecombinedDir), name));
            }
        }
        if set.vis {
            for name in self.listing(&self.key(builder, Artifact::VisDir)) {
                held.insert(format!("{}/{}", self.key(builder, Artifact::VisDir), name));
            }
        }
        self.archive = Some(held);
        Response::Exited { success: true, code: Some(0), errors: String::new() }
    }

    fn perform(&mut self, builder: &PrevisbineBuilder, request: Request) -> Response {
        self.requests.push(request);
        if self.broken.contains(&request) {
            return Response::Failed("denied".to_string());
        }
        match request {
            Request::AskPluginName | Request::AskStartStage | Request::AskToRenameSeed => {
                if self.answers.is_empty() {
                    Response::Failed("end of input".to_string())
                } else {
                    Response::Answer(self.answers.remove(0))
                }
            }
            Request::SurveyInstallation => Response::Installation(self.installation()),
            Request::SurveyConfiguration(_) => Response::Configuration(self.configuration()),
            Request::SurveyData => Response::Data(self.data(builder)),
            Request::Look(artifact) => Response::Found(match artifact {
                Artifact::UnattendedLog => true,
                other => self.has(&self.key(builder, other)),
            }),
            Request::ReadText(Artifact::CkLog) => Response::Text(self.ck_log.clone()),
            Request::ReadText(_) => Response::Text(Some(self.editor_log.clone())),
            Request::Remove(Artifact::Archive) => {
                self.archive = None;
                Response::Done
            }
            Request::Remove(artifact) | Request::RemoveIfPresent(artifact) => {
                let key = self.key(builder, artifact);
                self.files.remove(&key);
                Response::Done
            }
            Request::RemoveTree(artifact) | Request::RemoveTreeIfPresent(artifact) => {
                let key = self.key(builder, artifact);
                self.remove_tree(&key);
                Response::Done
            }
            Request::Rename(from, to) | Request::RenameIfPresent(from, to) => {
                let from = self.key(builder, from);
                if self.files.remove(&from) {
                    let to = self.key(builder, to);
                    self.files.insert(to);
                }
                Response::Done
            }
            Request::RunCreationKit(action) => self.run_content_tool(builder, action),
            Request::Pack(set) | Request::PackWithBsArch(_, set) => self.pack(builder, set),
            Request::Extract => {
                for name in self.archive.clone().unwrap_or_default() {
                    self.files.insert(name);
                }
                Response::Exited { success: true, code: Some(0), errors: String::new() }
            }
            _ => Response::Done,
        }
    }

    fn tools(&self) -> Vec<Request> {
        self.requests
            .iter()
            .copied()
            .filter(|r| {
                matches!(
                    r,
                    Request::RunCreationKit(_)
                        | Request::StartEditor(_)
                        | Request::Pack(_)
                        | Request::Extract
                        | Request::PackWithBsArch(_, _)
                )
            })
            .collect()
    }
}

/// Takes the run to its end, or to the position given.
fn drive(builder: &mut PrevisbineBuilder, world: &mut World, until: Option<Position>) {
    let mut response = Response::Begin;
    if builder.position() != Position::Start {
        response = world.perform(builder, generate_previsbines::builder::request_for(builder.position()));
    }
    for _ in 0..2000 {
        let request = builder.run(response);
        if request == Request::Finished || Some(builder.position()) == until {
            return;
        }
        response = world.perform(builder, request);
    }
    panic!("the run did not end");
}

fn message(builder: &PrevisbineBuilder) -> String {
    builder.error().as_ref().unwrap().message()
}

#[test]
fn a_clean_build_runs_every_stage_and_cleans_up() {
    let mut world = world().with(&["Data/Foo.esp", "d3d11.dll"]);
    let mut builder = PrevisbineBuilder::new(args(BuildMode::Clean, Some("Foo"), None));
    world.answers.push("1".to_string());
    drive(&mut builder, &mut world, None);

    assert_eq!(builder.position(), Position::Finished);
    assert!(builder.is_over());
    assert!(builder.error().is_none());
    assert_eq!(
        world.tools(),
        vec![
            Request::RunCreationKit(CkAction::GeneratePrecombined),
            Request::StartEditor(Script::MergeCombinedObjects),
            Request::Pack(PackSet { precombined: true, vis: false }),
            Request::RunCreationKit(CkAction::CompressPsg),
            Request::RunCreationKit(CkAction::BuildCdx),
            Request::RunCreationKit(CkAction::GeneratePrevisData),
            Request::StartEditor(Script::MergePrevis),
            Request::Extract,
            Request::Pack(PackSet { precombined: true, vis: true }),
        ]
    );
    let held: Vec<String> = world.archive.clone().unwrap().into_iter().collect();
    assert_eq!(held, vec!["Data/meshes/precombined/0001.nif", "Data/vis/c.uvd"]);
    let left: Vec<String> = world.files.iter().cloned().collect();
    assert_eq!(
        left,
        vec!["Data/Foo - Geometry.csg", "Data/Foo.cdx", "Data/Foo.esp", "d3d11.dll"]
    );
    assert_eq!(world.requests.last(), Some(&Request::Tell(Notice::Complete)));
    assert_eq!(builder.settings().log_file, Some("CK.log".to_string()));
}

#[test]
fn a_new_plugin_starts_with_the_environment() {
    let mut world = world().with(&["Data/xPrevisPatch.esp"]);
    world.answers.push("yes".to_string());
    let mut builder = PrevisbineBuilder::new(args(BuildMode::Filtered, Some("New.esp"), None));
    drive(&mut builder, &mut world, None);
    assert_eq!(builder.position(), Position::Finished);
    assert!(world.requests.contains(&Request::AskToRenameSeed));
    assert!(world.requests.contains(&Request::Rename(Artifact::Seed, Artifact::Plugin)));
    assert!(world.has("Data/New.esp"));
    assert!(!world.has("Data/xPrevisPatch.esp"));
    assert_eq!(world.tools().len(), 7);
}

#[test]
fn a_filtered_build_from_the_first_stage_uses_filtered_arguments() {
    let mut world = world().with(&["Data/Foo.esp"]);
    let mut builder = PrevisbineBuilder::new(args(BuildMode::Filtered, Some("Foo"), Some(1)));
    drive(
        &mut builder,
        &mut world,
        Some(Position::InStage(BuildStage::MergePrecombines, StagePhase::Entering)),
    );
    assert_eq!(
        builder.position(),
        Position::InStage(BuildStage::MergePrecombines, StagePhase::Entering)
    );
    assert_eq!(
        world.command_lines,
        vec![vec![
            "-GeneratePrecombined:\"Foo.esp\"".to_string(),
            "filtered".to_string(),
            "all".to_string()
        ]]
    );
    assert!(!world.has("Data/Foo - Geometry.psg"));
    assert!(builder.error().is_none());
}

#[test]
fn a_clean_build_wants_the_geometry_after_generating() {
    let mut world = world().with(&["Data/Foo.esp"]);
    world.tool_leaves_geometry = false;
    let mut builder = PrevisbineBuilder::new(args(BuildMode::Clean, Some("Foo"), Some(1)));
    drive(&mut builder, &mut world, None);
    assert_eq!(builder.position(), Position::Failed(Failure::GeometryNotCreated));
    assert_eq!(message(&builder), "ERROR - GeneratePrecombined failed to create psg file");
    assert_eq!(world.tools(), vec![Request::RunCreationKit(CkAction::GeneratePrecombined)]);
}

#[test]
fn another_build_does_not_look_for_the_geometry() {
    let mut world = world().with(&["Data/Foo.esp"]);
    world.tool_leaves_geometry = false;
    let mut builder = PrevisbineBuilder::new(args(BuildMode::Xbox, Some("Foo"), Some(1)));
    drive(&mut builder, &mut world, None);
    assert_eq!(builder.position(), Position::Finished);
}

#[test]
fn compress_psg_without_geometry_starts_no_tool() {
    let mut world = world().with(&["Data/Foo.esp"]);
    let mut builder = PrevisbineBuilder::new(args(BuildMode::Clean, Some("Foo"), Some(4)));
    drive(&mut builder, &mut world, None);
    assert_eq!(builder.position(), Position::Failed(Failure::NoGeometry));
    assert_eq!(
        message(&builder),
        "ERROR - No Geometry file found (Geometry.psg). Run GeneratePrecombines first."
    );
    assert!(message(&builder).contains("No Geometry file found"));
    assert_eq!(builder.error().as_ref().unwrap().kind(), ErrorKind::PrerequisiteUnmet);
    assert_eq!(world.tools(), Vec::<Request>::new());
    assert!(!world.requests.contains(&Request::SurveyInstallation));
}

#[test]
fn a_number_that_names_no_stage_ends_the_run() {
    for n in [9, -1, 100] {
        let mut world = world().with(&["Data/Foo.esp"]);
        let mut builder = PrevisbineBuilder::new(args(BuildMode::Clean, Some("Foo"), Some(n)));
        drive(&mut builder, &mut world, None);
        assert_eq!(builder.position(), Position::Failed(Failure::InvalidStage(n)));
        assert_eq!(message(&builder), format!("ERROR - Invalid stage number: {}", n));
        assert_eq!(builder.error().as_ref().unwrap().kind(), ErrorKind::InvalidStage);
        assert_eq!(world.requests, vec![Request::StartRunLog, Request::Tell(Notice::Banner)]);
    }
}

#[test]
fn clean_stages_asked_for_in_another_build_are_refused() {
    let mut world = world().with(&["Data/Foo.esp", "Data/Foo - Geometry.psg"]);
    let mut builder = PrevisbineBuilder::new(args(BuildMode::Filtered, Some("Foo"), Some(4)));
    drive(&mut builder, &mut world, None);
    assert_eq!(message(&builder), "ERROR - CompressPSG is only available in Clean mode");

    let mut builder = PrevisbineBuilder::new(args(BuildMode::Xbox, Some("Foo"), Some(5)));
    drive(&mut builder, &mut world, None);
    assert_eq!(message(&builder), "ERROR - BuildCDX is only available in Clean mode");
}

#[test]
fn the_operator_names_the_plugin_and_the_stage() {
    let mut world = world().with(&["Data/Bar.esm", "Data/vis/a.uvd", "Data/Previs.esp"]);
    world.answers = vec!["  Bar.esm \n".to_string(), "7\n".to_string()];
    let mut builder = PrevisbineBuilder::new(args(BuildMode::Filtered, None, None));
    drive(&mut builder, &mut world, None);
    assert_eq!(builder.identity().base_name, "Bar");
    assert_eq!(builder.identity().file_name, "Bar.esm");
    assert_eq!(builder.identity().archive_name, "Bar - Main.ba2");
    assert_eq!(builder.position(), Position::Finished);
    assert_eq!(
        world.tools(),
        vec![
            Request::StartEditor(Script::MergePrevis),
            Request::Pack(PackSet { precombined: false, vis: true }),
        ]
    );
    assert!(world.requests.contains(&Request::AskPluginName));
    assert!(world.requests.contains(&Request::AskStartStage));
}

#[test]
fn an_empty_answer_names_no_plugin() {
    let mut world = world();
    world.answers = vec!["   \n".to_string()];
    let mut builder = PrevisbineBuilder::new(args(BuildMode::Clean, None, None));
    drive(&mut builder, &mut world, None);
    assert_eq!(builder.position(), Position::Failed(Failure::NoPluginName));
    assert_eq!(message(&builder), "No plugin name entered");
    assert_eq!(builder.error().as_ref().unwrap().kind(), ErrorKind::UserAborted);
}

#[test]
fn an_answer_that_is_no_stage_ends_the_run() {
    for (answer, failure, text) in [
        ("x", Failure::StageNotANumber, "Invalid stage number"),
        ("12", Failure::StageOutOfRange(12), "Invalid stage number: 12"),
        ("", Failure::StageNotANumber, "Invalid stage number"),
    ] {
        let mut world = world().with(&["Data/Foo.esp"]);
        world.answers = vec![answer.to_string()];
        let mut builder = PrevisbineBuilder::new(args(BuildMode::Clean, Some("Foo"), None));
        drive(&mut builder, &mut world, None);
        assert_eq!(builder.position(), Position::Failed(failure));
        assert_eq!(message(&builder), text);
    }
}

#[test]
fn an_answer_that_cannot_be_read_ends_the_run() {
    let mut world = world().with(&["Data/Foo.esp"]);
    let mut builder = PrevisbineBuilder::new(args(BuildMode::Clean, Some("Foo"), None));
    drive(&mut builder, &mut world, None);
    assert_eq!(builder.position(), Position::Failed(Failure::InputUnreadable));
    assert_eq!(message(&builder), "Error reading input: end of input");
}

#[test]
fn declining_the_seed_aborts_the_run() {
    let mut world = world().with(&["Data/xPrevisPatch.esp"]);
    world.answers = vec!["n".to_string()];
    let mut builder = PrevisbineBuilder::new(args(BuildMode::Clean, Some("Foo"), None));
    drive(&mut builder, &mut world, None);
    assert_eq!(builder.position(), Position::Failed(Failure::Aborted));
    assert_eq!(message(&builder), "Aborted by user");
    assert!(world.has("Data/xPrevisPatch.esp"));
    assert_eq!(world.tools(), Vec::<Request>::new());
}

#[test]
fn without_prompts_a_missing_plugin_ends_the_run() {
    let mut world = world().with(&["Data/xPrevisPatch.esp"]);
    let mut options = args(BuildMode::Clean, Some("Foo"), None);
    options.no_prompt = true;
    let mut builder = PrevisbineBuilder::new(options);
    drive(&mut builder, &mut world, None);
    assert_eq!(message(&builder), "ERROR - Plugin Foo.esp does not exist");
    assert!(!world.requests.contains(&Request::AskToRenameSeed));
}

#[test]
fn a_plugin_with_an_archive_is_refused() {
    let mut world = world().with(&["Data/Foo.esp"]);
    world.archive = Some(BTreeSet::new());
    world.answers = vec!["1".to_string()];
    let mut builder = PrevisbineBuilder::new(args(BuildMode::Clean, Some("Foo"), None));
    drive(&mut builder, &mut world, None);
    assert_eq!(message(&builder), "ERROR - This Plugin already has an Archive: Foo - Main.ba2");
}

#[test]
fn leftovers_of_an_earlier_run_stop_the_generating_stages() {
    let mut world = world().with(&["Data/Foo.esp", "Data/meshes/precombined/old.nif"]);
    let mut builder = PrevisbineBuilder::new(args(BuildMode::Clean, Some("Foo"), Some(1)));
    drive(&mut builder, &mut world, None);
    assert_eq!(
        message(&builder),
        "ERROR - Precombine directory (Data\\meshes\\precombined) not empty"
    );

    let mut world = world_with_vis();
    let mut builder = PrevisbineBuilder::new(args(BuildMode::Clean, Some("Foo"), Some(1)));
    drive(&mut builder, &mut world, None);
    assert_eq!(message(&builder), "ERROR - Previs directory (Data\\vis) not empty");

    let mut world = world_with_vis();
    let mut builder = PrevisbineBuilder::new(args(BuildMode::Clean, Some("Foo"), Some(6)));
    drive(&mut builder, &mut world, None);
    assert_eq!(message(&builder), "ERROR - Previs directory (Data\\vis) not empty");
    assert_eq!(world.tools(), Vec::<Request>::new());
}

fn world_with_vis() -> World {
    world().with(&["Data/Foo.esp", "Data/vis/old.uvd"])
}

#[test]
fn a_missing_output_fails_the_run_after_the_overlays_are_back() {
    let mut world = world().with(&["Data/Foo.esp", "d3d9.dll"]);
    world.tool_leaves_output = false;
    let mut builder = PrevisbineBuilder::new(args(BuildMode::Clean, Some("Foo"), Some(1)));
    drive(&mut builder, &mut world, None);
    assert_eq!(
        builder.position(),
        Position::Failed(Failure::OutputMissing(CkAction::GeneratePrecombined, 0))
    );
    assert_eq!(
        message(&builder),
        "ERROR - GeneratePrecombined failed to create file CombinedObjects.esp with exit status 0"
    );
    assert_eq!(builder.error().as_ref().unwrap().kind(), ErrorKind::OutputArtifactMissing);
    assert!(world.has("d3d9.dll"));
    assert!(!world.has("d3d9.dll-PJMdisabled"));
    assert_eq!(
        world.requests.last(),
        Some(&Request::RenameIfPresent(Artifact::DisabledOverlay(5), Artifact::Overlay(5)))
    );
    assert_eq!(world.tools(), vec![Request::RunCreationKit(CkAction::GeneratePrecombined)]);
}

#[test]
fn a_bad_exit_status_is_passed_over_when_the_output_is_there() {
    let mut world = world().with(&["Data/Foo.esp"]);
    world.exit_status = 3;
    let mut builder = PrevisbineBuilder::new(args(BuildMode::Filtered, Some("Foo"), Some(1)));
    drive(&mut builder, &mut world, None);
    assert_eq!(builder.position(), Position::Finished);
    assert!(world
        .requests
        .contains(&Request::Warn(Warning::ExitIgnored(CkAction::GeneratePrecombined, 3))));
    assert!(world
        .requests
        .contains(&Request::Warn(Warning::ExitIgnored(CkAction::GeneratePrevisData, 3))));
}

#[test]
fn a_tool_that_does_not_start_fails_the_run_with_what_was_reported() {
    let mut world = world().with(&["Data/Foo.esp"]);
    world.broken.push(Request::RunCreationKit(CkAction::GeneratePrecombined));
    let mut builder = PrevisbineBuilder::new(args(BuildMode::Clean, Some("Foo"), Some(1)));
    drive(&mut builder, &mut world, None);
    assert_eq!(builder.position(), Position::Failed(Failure::CreationKitLaunch));
    assert_eq!(message(&builder), "Error executing Creation Kit: denied");
    assert_eq!(builder.error().as_ref().unwrap().kind(), ErrorKind::ExternalProcessFailed);
}

#[test]
fn the_content_tools_log_can_fail_the_generating_stages() {
    let mut world = world().with(&["Data/Foo.esp"]);
    world.ck_log = Some("...\nDEFAULT: OUT OF HANDLE ARRAY ENTRIES\n".to_string());
    let mut builder = PrevisbineBuilder::new(args(BuildMode::Clean, Some("Foo"), Some(1)));
    drive(&mut builder, &mut world, None);
    assert_eq!(message(&builder), "ERROR - GeneratePrecombined ran out of Reference Handles");
    assert_eq!(builder.error().as_ref().unwrap().kind(), ErrorKind::LogParseFailure);

    let mut world = world_for_previs();
    world.ck_log = Some("ERROR: visibility task did not complete.".to_string());
    let mut builder = PrevisbineBuilder::new(args(BuildMode::Clean, Some("Foo"), Some(6)));
    drive(&mut builder, &mut world, None);
    assert_eq!(message(&builder), "ERROR - GeneratePreVisData visibility task did not complete");
}

fn world_for_previs() -> World {
    world().with(&["Data/Foo.esp"])
}

#[test]
fn a_first_merge_without_the_word_of_no_errors_is_a_warning() {
    let merged = Position::InStage(BuildStage::ArchivePrecombines, StagePhase::Entering);
    for (log, warned) in [
        ("Completed: 3 Errors.", true),
        ("Completed: ", true),
        ("Error: odd\nCompleted: 1 Errors.", true),
        ("Completed: No Errors.", false),
        ("Error: odd\nCompleted: No Errors.", false),
    ] {
        let mut world = world().with(&["Data/Foo.esp", "Data/meshes/precombined/a.nif"]);
        world.editor_log = log.to_string();
        let mut builder = PrevisbineBuilder::new(args(BuildMode::Filtered, Some("Foo"), Some(2)));
        drive(&mut builder, &mut world, Some(merged));
        assert_eq!(builder.position(), merged, "{}", log);
        assert_eq!(
            world.requests.contains(&Request::Warn(Warning::MergeHadErrors)),
            warned,
            "{}",
            log
        );
        assert!(builder.error().is_none());
    }
}

#[test]
fn a_first_merge_whose_log_is_gone_is_a_warning() {
    let mut world = world().with(&["Data/Foo.esp", "Data/meshes/precombined/a.nif"]);
    let mut builder = PrevisbineBuilder::new(args(BuildMode::Filtered, Some("Foo"), Some(2)));
    drive(
        &mut builder,
        &mut world,
        Some(Position::InStage(BuildStage::MergePrecombines, StagePhase::ReadingLog(true))),
    );
    assert_eq!(builder.run(Response::Text(None)), Request::Warn(Warning::MergeHadErrors));
    assert_eq!(
        builder.run(Response::Done),
        Request::SurveyData
    );
    assert_eq!(
        builder.position(),
        Position::InStage(BuildStage::ArchivePrecombines, StagePhase::Entering)
    );
}

#[test]
fn errors_in_the_first_merge_are_a_warning() {
    let mut world = world().with(&["Data/Foo.esp", "Data/meshes/precombined/a.nif"]);
    world.editor_log = "Error: something\nCompleted: 1 Errors.".to_string();
    let mut builder = PrevisbineBuilder::new(args(BuildMode::Filtered, Some("Foo"), Some(2)));
    drive(
        &mut builder,
        &mut world,
        Some(Position::InStage(BuildStage::ArchivePrecombines, StagePhase::Entering)),
    );
    assert!(world.requests.contains(&Request::Warn(Warning::MergeHadErrors)));
    assert!(builder.error().is_none());
}

#[test]
fn the_second_merge_must_end_without_errors() {
    let mut world = world().with(&["Data/Foo.esp", "Data/vis/a.uvd", "Data/Previs.esp"]);
    world.editor_log = "Completed: 2 Errors.".to_string();
    let mut builder = PrevisbineBuilder::new(args(BuildMode::Filtered, Some("Foo"), Some(7)));
    drive(&mut builder, &mut world, None);
    assert_eq!(builder.position(), Position::Failed(Failure::MergePrevisIncomplete));
    assert_eq!(message(&builder), "ERROR - Merge Previs script did not complete successfully");
}

#[test]
fn a_failed_stage_leaves_the_working_files_for_a_resumed_run() {
    let mut world = world().with(&["Data/Foo.esp"]);
    world.editor_log = "no mark".to_string();
    let mut builder = PrevisbineBuilder::new(args(BuildMode::Filtered, Some("Foo"), Some(1)));
    drive(&mut builder, &mut world, None);
    assert_eq!(
        builder.position(),
        Position::Failed(Failure::ScriptFailed(Script::MergeCombinedObjects))
    );
    assert!(world.has("Data/CombinedObjects.esp"));
    assert!(world.has("Data/meshes/precombined/0001.nif"));
    assert!(!world.requests.contains(&Request::Tell(Notice::Complete)));
}

#[test]
fn a_resumed_run_joins_the_full_run() {
    let stop = Position::InStage(BuildStage::MergePrecombines, StagePhase::Entering);

    let mut full_world = world().with(&["Data/Foo.esp"]);
    let mut full = PrevisbineBuilder::new(args(BuildMode::Clean, Some("Foo"), Some(0)));
    drive(&mut full, &mut full_world, Some(stop));
    assert_eq!(full.position(), stop);

    let mut resumed_world = world();
    resumed_world.files = full_world.files.clone();
    let mut resumed = PrevisbineBuilder::new(args(BuildMode::Clean, Some("Foo"), Some(2)));
    drive(&mut resumed, &mut resumed_world, Some(stop));
    assert_eq!(resumed.position(), stop);
    assert_eq!(resumed_world.tools(), Vec::<Request>::new());

    full_world.requests.clear();
    drive(&mut full, &mut full_world, None);
    drive(&mut resumed, &mut resumed_world, None);
    let resumed_rest: Vec<Request> = resumed_world.requests
        [resumed_world.requests.len() - full_world.requests.len()..]
        .to_vec();
    assert_eq!(full_world.requests, resumed_rest);
    assert_eq!(full.position(), Position::Finished);
    assert_eq!(resumed.position(), Position::Finished);
    assert_eq!(full_world.files, resumed_world.files);
    assert_eq!(full_world.archive, resumed_world.archive);
}

#[test]
fn kept_files_are_not_removed() {
    let mut world = world().with(&["Data/Foo.esp"]);
    let mut options = args(BuildMode::Filtered, Some("Foo"), Some(1));
    options.keep_files = true;
    let mut builder = PrevisbineBuilder::new(options);
    drive(&mut builder, &mut world, None);
    assert_eq!(builder.position(), Position::Finished);
    assert!(world.has("Data/CombinedObjects.esp"));
    assert!(world.has("Data/Previs.esp"));
    let after_last_stage: Vec<Request> = world
        .requests
        .iter()
        .copied()
        .skip_while(|r| *r != Request::RemoveTreeIfPresent(Artifact::VisDir))
        .skip(1)
        .collect();
    let mut expected: Vec<Request> = (0..6)
        .map(|i| Request::RenameIfPresent(Artifact::DisabledOverlay(i), Artifact::Overlay(i)))
        .collect();
    expected.push(Request::Tell(Notice::Complete));
    assert_eq!(after_last_stage, expected);
}

#[test]
fn a_failed_cleanup_is_reported_and_does_not_fail_the_run() {
    let mut world = world().with(&["Data/Foo.esp", "Data/vis/a.uvd", "Data/Previs.esp"]);
    world.broken.push(Request::RemoveIfPresent(Artifact::CombinedObjects));
    let mut builder = PrevisbineBuilder::new(args(BuildMode::Filtered, Some("Foo"), Some(7)));
    drive(&mut builder, &mut world, None);
    assert_eq!(builder.position(), Position::Finished);
    assert!(builder.error().is_none());
    assert!(world.requests.contains(&Request::Warn(Warning::CleanupFailed)));
    assert!(!world.has("Data/Previs.esp"));
}

#[test]
fn a_lowered_handle_limit_is_a_warning() {
    let mut world = world().with(&["Data/Foo.esp", "Data/vis/a.uvd"]);
    world.config_lines =
        vec!["bBSPointerHandleExtremly=false".to_string(), "sOutputFile=x.log".to_string()];
    let mut builder = PrevisbineBuilder::new(args(BuildMode::Filtered, Some("Foo"), Some(8)));
    drive(&mut builder, &mut world, None);
    assert_eq!(builder.position(), Position::Finished);
    assert!(world.requests.contains(&Request::Warn(Warning::HandleLimitDisabled)));

    let mut world = world_with_config(&["sOutputFile=x.log"]);
    let mut builder = PrevisbineBuilder::new(args(BuildMode::Filtered, Some("Foo"), Some(8)));
    drive(&mut builder, &mut world, None);
    assert!(world.requests.contains(&Request::Warn(Warning::HandleLimitNotFound)));
}

fn world_with_config(lines: &[&str]) -> World {
    let mut w = world().with(&["Data/Foo.esp", "Data/vis/a.uvd"]);
    w.config_lines = lines.iter().map(|l| l.to_string()).collect();
    w
}

#[test]
fn a_configuration_without_log_setting_ends_the_run() {
    let mut world = world_with_config(&["bBSPointerHandleExtremly=true"]);
    let mut builder = PrevisbineBuilder::new(args(BuildMode::Filtered, Some("Foo"), Some(8)));
    drive(&mut builder, &mut world, None);
    assert_eq!(builder.position(), Position::Failed(Failure::LoggingNotConfigured));
    assert_eq!(
        message(&builder),
        "ERROR - CK not set for logging redirection. sOutputFile not found or empty in CreationKitPlatformExtended.ini"
    );
    assert_eq!(world.tools(), Vec::<Request>::new());
}

#[test]
fn bsarch_packs_without_extracting() {
    let mut world = world().with(&["Data/Foo.esp"]);
    let mut options = args(BuildMode::Xbox, Some("Foo"), Some(1));
    options.use_bsarch = true;
    let mut builder = PrevisbineBuilder::new(options);
    drive(&mut builder, &mut world, None);
    assert_eq!(builder.position(), Position::Finished);
    assert_eq!(
        world.tools(),
        vec![
            Request::RunCreationKit(CkAction::GeneratePrecombined),
            Request::StartEditor(Script::MergeCombinedObjects),
            Request::PackWithBsArch(PackJob::Precombines, PackSet { precombined: true, vis: false }),
            Request::RunCreationKit(CkAction::GeneratePrevisData),
            Request::StartEditor(Script::MergePrevis),
            Request::PackWithBsArch(PackJob::Vis, PackSet { precombined: true, vis: true }),
        ]
    );
    assert!(world.has("Data/meshes/precombined/0001.nif"));
}

#[test]
fn a_run_that_has_ended_asks_for_nothing_more() {
    let mut world = world().with(&["Data/Foo.esp"]);
    let mut builder = PrevisbineBuilder::new(args(BuildMode::Clean, Some("Foo"), Some(9)));
    drive(&mut builder, &mut world, None);
    let position = builder.position();
    assert_eq!(builder.run(Response::Done), Request::Finished);
    assert_eq!(builder.run(Response::Failed("late".to_string())), Request::Finished);
    assert_eq!(builder.position(), position);
    assert_eq!(message(&builder), "ERROR - Invalid stage number: 9");
}

#[test]
fn a_response_out_of_turn_ends_the_run() {
    let mut builder = PrevisbineBuilder::new(args(BuildMode::Clean, Some("Foo"), Some(1)));
    assert_eq!(builder.run(Response::Begin), Request::StartRunLog);
    assert_eq!(builder.run(Response::Found(true)), Request::Finished);
    assert_eq!(builder.position(), Position::Failed(Failure::OutOfTurn));
    assert_eq!(builder.error().as_ref().unwrap().kind(), ErrorKind::Protocol);
}

#[test]
fn patience_is_handed_to_the_editor() {
    let builder = PrevisbineBuilder::new(args(BuildMode::Clean, Some("Foo"), None));
    assert_eq!(builder.config().patience, None);
    let builder = builder.with_patience(12);
    assert_eq!(builder.config().patience, Some(12));
    assert_eq!(builder.config().mode, BuildMode::Clean);
    assert!(!builder.config().unnamed);
    assert!(!builder.config().has_log);
}

#[test]
fn the_configuration_that_is_found_names_the_settings() {
    let mut world = world().with(&["Data/Foo.esp"]);
    let mut builder = PrevisbineBuilder::new(args(BuildMode::Clean, Some("Foo"), Some(0)));
    drive(
        &mut builder,
        &mut world,
        Some(Position::Configuring(BuildStage::VerifyEnvironment, ConfigVariant::PlatformIni)),
    );
    assert_eq!(builder.settings().ini_file, "CreationKitPlatformExtended.ini");
    assert_eq!(builder.settings().log_file, None);
}

#[test]
fn a_step_that_fails_ends_the_run_with_its_own_failure() {
    let cases: Vec<(Request, Failure, &str)> = vec![
        (
            Request::Rename(Artifact::Seed, Artifact::Plugin),
            Failure::SeedRename,
            "Error renaming xPrevisPatch.esp: denied",
        ),
        (
            Request::RemoveIfPresent(Artifact::CombinedObjects),
            Failure::RemoveCombinedObjects,
            "Error removing CombinedObjects.esp: denied",
        ),
        (
            Request::RemoveIfPresent(Artifact::GeometryPsg),
            Failure::RemoveGeometry,
            "Error removing Geometry.psg: denied",
        ),
        (
            Request::ReadText(Artifact::CkLog),
            Failure::CkLogUnreadable,
            "Error reading CK log file: denied",
        ),
        (
            Request::WritePluginsList(Script::MergeCombinedObjects),
            Failure::ManifestUnwritable,
            "Error creating plugins file: denied",
        ),
        (
            Request::RemoveIfPresent(Artifact::UnattendedLog),
            Failure::RemoveUnattendedLog,
            "Error removing unattended log file: denied",
        ),
        (
            Request::AppendFile(Artifact::UnattendedLog),
            Failure::EditorLogUnreadable,
            "Error reading xEdit log file: denied",
        ),
        (
            Request::ReadText(Artifact::UnattendedLog),
            Failure::EditorLogUnreadable,
            "Error reading xEdit log file: denied",
        ),
        (
            Request::RemoveTreeIfPresent(Artifact::PrecombinedDir),
            Failure::RemovePrecombined,
            "Error removing precombined directory: denied",
        ),
        (
            Request::Remove(Artifact::GeometryPsg),
            Failure::RemovePsg,
            "Error removing PSG file: denied",
        ),
        (
            Request::RemoveIfPresent(Artifact::Previs),
            Failure::RemovePrevis,
            "Error removing Previs.esp: denied",
        ),
        (
            Request::Remove(Artifact::Archive),
            Failure::RemoveArchive,
            "Failed to remove existing archive: denied",
        ),
        (
            Request::RemoveTreeIfPresent(Artifact::VisDir),
            Failure::RemoveVis,
            "Error removing vis directory: denied",
        ),
        (
            Request::StartRunLog,
            Failure::RunLogUnwritable,
            "denied",
        ),
        (
            Request::AppendFile(Artifact::CkLog),
            Failure::CkLogCopy,
            "Error reading CK log file CK.log: denied",
        ),
        (
            Request::RemoveIfPresent(Artifact::CkLog),
            Failure::RemoveCkLog,
            "Error removing log file CK.log: denied",
        ),
    ];
    for (broken, failure, text) in cases {
        let mut world = world().with(&["Data/xPrevisPatch.esp"]);
        world.answers = vec!["y".to_string()];
        world.ck_log = Some("fine".to_string());
        world.broken.push(broken);
        let mut builder = PrevisbineBuilder::new(args(BuildMode::Clean, Some("Foo"), Some(0)));
        drive(&mut builder, &mut world, None);
        assert_eq!(builder.position(), Position::Failed(failure), "{:?}", broken);
        assert_eq!(message(&builder), text);
        assert_eq!(world.requests.iter().filter(|r| **r == broken).count(), 1);
    }
}

#[test]
fn the_editors_log_that_cannot_be_read_after_the_run_fails_the_merge() {
    let mut world = world().with(&["Data/Foo.esp", "Data/meshes/precombined/a.nif"]);
    let mut builder = PrevisbineBuilder::new(args(BuildMode::Filtered, Some("Foo"), Some(2)));
    drive(
        &mut builder,
        &mut world,
        Some(Position::InStage(BuildStage::MergePrecombines, StagePhase::ReadingLog(true))),
    );
    assert_eq!(builder.run(Response::Failed("locked".to_string())), Request::Finished);
    assert_eq!(builder.position(), Position::Failed(Failure::UnattendedLogUnreadable));
    assert_eq!(message(&builder), "Error reading unattended log file: locked");
}

#[test]
fn a_merge_of_previs_without_a_log_fails() {
    let mut world = world().with(&["Data/Foo.esp", "Data/vis/a.uvd", "Data/Previs.esp"]);
    let mut builder = PrevisbineBuilder::new(args(BuildMode::Filtered, Some("Foo"), Some(7)));
    drive(
        &mut builder,
        &mut world,
        Some(Position::InStage(BuildStage::MergePrevis, StagePhase::ReadingLog(true))),
    );
    assert_eq!(builder.run(Response::Text(None)), Request::Finished);
    assert_eq!(builder.position(), Position::Failed(Failure::MergePrevisSilent));
    assert_eq!(message(&builder), "ERROR - Merge Previs script did not produce a log file");
}

#[test]
fn a_tool_that_leaves_only_part_of_its_output_fails_the_stage() {
    let inspecting = |stage| Position::InStage(stage, StagePhase::Inspecting);
    let cases: Vec<(BuildStage, i32, Vec<&str>, Failure, &str)> = vec![
        (
            BuildStage::GeneratePrecombines,
            1,
            vec!["Data/Foo.esp", "Data/CombinedObjects.esp"],
            Failure::NoPrecombinesCreated,
            "ERROR - GeneratePrecombined failed to create any Precombines",
        ),
        (
            BuildStage::CompressPsg,
            4,
            vec!["Data/Foo.esp"],
            Failure::CsgNotCreated,
            "ERROR - CompressPSG failed to create CSG file",
        ),
        (
            BuildStage::GeneratePrevis,
            6,
            vec!["Data/Foo.esp", "Data/Previs.esp"],
            Failure::NoVisibilityCreated,
            "ERROR - GeneratePreVisData failed to create visibility files",
        ),
        (
            BuildStage::GeneratePrevis,
            6,
            vec!["Data/Foo.esp", "Data/vis/a.uvd"],
            Failure::PrevisNotCreated,
            "ERROR - GeneratePreVisData failed to create Previs.esp",
        ),
    ];
    for (stage, number, left, failure, text) in cases {
        let mut before = world().with(&["Data/Foo.esp", "Data/Foo - Geometry.psg"]);
        let mut builder = PrevisbineBuilder::new(args(BuildMode::Clean, Some("Foo"), Some(number)));
        drive(&mut builder, &mut before, Some(inspecting(stage)));
        assert_eq!(builder.position(), inspecting(stage));
        let after = world().with(&left);
        assert_eq!(builder.run(Response::Data(after.data(&builder))), Request::Finished);
        assert_eq!(builder.position(), Position::Failed(failure));
        assert_eq!(message(&builder), text);
    }
}

#[test]
fn a_run_resumed_past_the_archive_works_on_the_archive_that_is_there() {
    for number in 4..=8 {
        let mut world = world().with(&[
            "Data/Foo.esp",
            "Data/Foo - Geometry.psg",
            "Data/vis/a.uvd",
            "Data/Previs.esp",
        ]);
        if number == 6 {
            world.files.remove("Data/vis/a.uvd");
        }
        let mut held = BTreeSet::new();
        held.insert("Data/meshes/precombined/0001.nif".to_string());
        world.archive = Some(held);
        let stage = BuildStage::from_i32(number).unwrap();
        let mut builder = PrevisbineBuilder::new(args(BuildMode::Clean, Some("Foo"), Some(number)));
        drive(&mut builder, &mut world, Some(Position::InStage(stage, StagePhase::Entering)));
        assert_eq!(builder.position(), Position::InStage(stage, StagePhase::Entering));
        assert_eq!(world.tools(), Vec::<Request>::new());
        if number != 6 {
            continue;
        }
        drive(&mut builder, &mut world, None);
        assert_eq!(builder.position(), Position::Finished);
        let packed: Vec<String> = world.archive.clone().unwrap().into_iter().collect();
        assert_eq!(packed, vec!["Data/meshes/precombined/0001.nif", "Data/vis/c.uvd"]);
        assert!(!world.has("Data/meshes/precombined/0001.nif"));
    }
}

#[test]
fn a_run_resumed_before_the_archive_is_made_is_stopped_by_an_archive() {
    for number in 0..=3 {
        let mut world = world().with(&["Data/Foo.esp", "Data/meshes/precombined/a.nif"]);
        world.archive = Some(BTreeSet::new());
        let mut builder = PrevisbineBuilder::new(args(BuildMode::Clean, Some("Foo"), Some(number)));
        drive(&mut builder, &mut world, None);
        assert_eq!(builder.position(), Position::Failed(Failure::ArchiveExists));
        assert_eq!(world.tools(), Vec::<Request>::new());
    }
}

#[test]
fn a_run_resumed_at_previs_joins_the_full_run() {
    let stop = Position::InStage(BuildStage::GeneratePrevis, StagePhase::Entering);

    let mut full_world = world().with(&["Data/Foo.esp"]);
    let mut full = PrevisbineBuilder::new(args(BuildMode::Clean, Some("Foo"), Some(0)));
    drive(&mut full, &mut full_world, Some(stop));
    assert_eq!(full.position(), stop);

    let mut resumed_world = world();
    resumed_world.files = full_world.files.clone();
    resumed_world.archive = full_world.archive.clone();
    let before = (resumed_world.files.clone(), resumed_world.archive.clone());
    let mut resumed = PrevisbineBuilder::new(args(BuildMode::Clean, Some("Foo"), Some(6)));
    drive(&mut resumed, &mut resumed_world, Some(stop));
    assert_eq!(resumed.position(), stop);
    assert_eq!((resumed_world.files.clone(), resumed_world.archive.clone()), before);

    drive(&mut full, &mut full_world, None);
    drive(&mut resumed, &mut resumed_world, None);
    assert_eq!(full.position(), Position::Finished);
    assert_eq!(resumed.position(), Position::Finished);
    assert_eq!(full_world.files, resumed_world.files);
    assert_eq!(full_world.archive, resumed_world.archive);
}
