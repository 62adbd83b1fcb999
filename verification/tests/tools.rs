use generate_previsbines::error::Failure;
use generate_previsbines::facts::DataFacts;
use generate_previsbines::names::{
    disabled_overlay_name, output_name, overlay_name, CkAction, PackJob, Script,
};
use generate_previsbines::protocol::{Artifact, Folder, Note, PackSet, Request, Response, Warning};
use generate_previsbines::stage::BuildMode;
use generate_previsbines::tools::archive::{
    add_to_archive, archive2_arguments, archive_request, bsarch_arguments, extract_archive,
    extraction_arguments, folder_list, get_archive_qualifiers, run_archive, run_bsarch, AddFlow,
    AddPhase, ExtractFlow, ExtractPhase, PackFlow, PackPhase,
};
use generate_previsbines::tools::creation_kit::{
    creation_kit_arguments, creation_kit_request, ran_out_of_handles, run_creation_kit,
    visibility_incomplete, CkFlow, CkPhase,
};
use generate_previsbines::tools::xedit::{
    judge_log, plugins_list, run_xedit_script, script_completed, script_completed_cleanly,
    xedit_arguments, xedit_request, EditorFlow, EditorPhase,
};

fn strings(items: &[&str]) -> Vec<String> {
    items.iter().map(|s| s.to_string()).collect()
}

fn data(archive: bool, meshes: bool, output: bool) -> DataFacts {
    DataFacts {
        plugin_exists: true,
        archive_exists: archive,
        seed_exists: false,
        precombined_names: if meshes { strings(&["a.nif"]) } else { Vec::new() },
        visibility_names: strings(&["a.uvd"]),
        combined_objects_exists: output,
        geometry_psg_exists: output,
        geometry_csg_exists: output,
        cdx_exists: output,
        previs_exists: output,
    }
}

fn exited(code: i32) -> Response {
    Response::Exited { success: code == 0, code: Some(code), errors: String::new() }
}

/// Runs the content tool's machine with one response per request, as a driver
/// that answers every request the good way would, and returns the requests
/// made and the end.
fn drive_content_tool(
    action: CkAction,
    has_log: bool,
    answer: &dyn Fn(&Request) -> Response,
) -> (Vec<Request>, Option<Failure>) {
    let mut phase = CkPhase::Disabling(0);
    let mut requests = Vec::new();
    for _ in 0..40 {
        let request = creation_kit_request(action, phase);
        requests.push(request);
        match run_creation_kit(action, has_log, phase, &answer(&request)) {
            CkFlow::Next(next) => phase = next,
            CkFlow::Done(end) => return (requests, end),
        }
    }
    panic!("the content tool's run did not end");
}

#[test]
fn qualifiers_depend_on_the_mode() {
    assert_eq!(get_archive_qualifiers(&BuildMode::Xbox), "-compression=XBox");
    assert_eq!(get_archive_qualifiers(&BuildMode::Clean), "");
    assert_eq!(get_archive_qualifiers(&BuildMode::Filtered), "");
}

#[test]
fn folder_lists_are_joined_by_a_comma() {
    assert_eq!(folder_list(PackSet { precombined: true, vis: false }), "meshes\\precombined");
    assert_eq!(folder_list(PackSet { precombined: false, vis: true }), "vis");
    assert_eq!(folder_list(PackSet { precombined: true, vis: true }), "meshes\\precombined,vis");
    assert_eq!(folder_list(PackSet { precombined: false, vis: false }), "");
}

#[test]
fn archive2_is_told_folders_archive_and_format() {
    assert_eq!(
        archive2_arguments(
            PackSet { precombined: true, vis: false },
            "Foo - Main.ba2",
            &BuildMode::Clean
        ),
        strings(&["meshes\\precombined", "-c=Foo - Main.ba2", "", "-f=General", "-q"])
    );
    assert_eq!(
        archive2_arguments(
            PackSet { precombined: true, vis: true },
            "Foo - Main.ba2",
            &BuildMode::Xbox
        ),
        strings(&[
            "meshes\\precombined,vis",
            "-c=Foo - Main.ba2",
            "-compression=XBox",
            "-f=General",
            "-q"
        ])
    );
    assert_eq!(extraction_arguments("Foo - Main.ba2"), strings(&["Foo - Main.ba2", "-e=.", "-q"]));
}

#[test]
fn bsarch_is_told_paths_format_and_folders() {
    assert_eq!(
        bsarch_arguments(
            PackSet { precombined: false, vis: true },
            "C:\\Game\\Data",
            "C:\\Game\\Data\\Foo - Main.ba2",
            &BuildMode::Xbox
        ),
        strings(&["pack", "C:\\Game\\Data", "C:\\Game\\Data\\Foo - Main.ba2", "Xbox", "--include", "vis"])
    );
    assert_eq!(
        bsarch_arguments(
            PackSet { precombined: true, vis: true },
            "d",
            "a",
            &BuildMode::Filtered
        )[3..],
        strings(&["General", "--include", "meshes\\precombined,vis"])[..]
    );
}

#[test]
fn the_content_tool_gets_its_command_line_split_at_white_space() {
    assert_eq!(
        creation_kit_arguments(CkAction::GeneratePrecombined, BuildMode::Clean, "Foo.esp"),
        strings(&["-GeneratePrecombined:\"Foo.esp\"", "clean", "all"])
    );
    assert_eq!(
        creation_kit_arguments(CkAction::GeneratePrecombined, BuildMode::Filtered, "Foo.esp"),
        strings(&["-GeneratePrecombined:\"Foo.esp\"", "filtered", "all"])
    );
    assert_eq!(
        creation_kit_arguments(CkAction::GeneratePrecombined, BuildMode::Xbox, "Foo.esp"),
        strings(&["-GeneratePrecombined:\"Foo.esp\"", "filtered", "all"])
    );
    assert_eq!(
        creation_kit_arguments(CkAction::GeneratePrevisData, BuildMode::Filtered, "Foo.esp"),
        strings(&["-GeneratePreVisData:\"Foo.esp\"", "clean", "all"])
    );
    assert_eq!(
        creation_kit_arguments(CkAction::CompressPsg, BuildMode::Clean, "Foo.esp"),
        strings(&["-CompressPSG:\"Foo.esp\""])
    );
    assert_eq!(
        creation_kit_arguments(CkAction::BuildCdx, BuildMode::Clean, "My Mod.esm"),
        strings(&["-BuildCDX:\"My", "Mod.esm\""])
    );
}

#[test]
fn overlay_names_and_outputs_are_fixed() {
    let names: Vec<&str> = (0..6).map(overlay_name).collect();
    assert_eq!(
        names,
        vec!["d3d11.dll", "d3d10.dll", "d3d9.dll", "dxgi.dll", "enbimgui.dll", "d3dcompiler_46e.dll"]
    );
    assert_eq!(disabled_overlay_name(3), "dxgi.dll-PJMdisabled");
    assert_eq!(output_name(CkAction::GeneratePrecombined, "Foo"), "CombinedObjects.esp");
    assert_eq!(output_name(CkAction::CompressPsg, "Foo"), "Foo - Geometry.csg");
    assert_eq!(output_name(CkAction::BuildCdx, "Foo"), "Foo.cdx");
    assert_eq!(output_name(CkAction::GeneratePrevisData, "Foo"), "Previs.esp");
}

#[test]
fn a_good_run_of_the_content_tool_makes_its_requests_in_order() {
    let (requests, end) = drive_content_tool(CkAction::BuildCdx, true, &|request| match request {
        Request::RunCreationKit(_) => exited(0),
        Request::SurveyData => Response::Data(data(false, false, true)),
        _ => Response::Done,
    });
    assert_eq!(end, None);
    let mut expected = Vec::new();
    for i in 0..6 {
        expected.push(Request::RenameIfPresent(Artifact::Overlay(i), Artifact::DisabledOverlay(i)));
    }
    expected.push(Request::RemoveIfPresent(Artifact::CkLog));
    expected.push(Request::AppendNote(Note::ContentTool(CkAction::BuildCdx)));
    expected.push(Request::RunCreationKit(CkAction::BuildCdx));
    expected.push(Request::Pause(5));
    expected.push(Request::AppendFile(Artifact::CkLog));
    expected.push(Request::SurveyData);
    for i in 0..6 {
        expected.push(Request::RenameIfPresent(Artifact::DisabledOverlay(i), Artifact::Overlay(i)));
    }
    assert_eq!(requests, expected);
}

#[test]
fn without_a_log_name_the_content_tools_log_is_left_alone() {
    let (requests, end) = drive_content_tool(CkAction::CompressPsg, false, &|request| match request {
        Request::RunCreationKit(_) => exited(0),
        Request::SurveyData => Response::Data(data(false, false, true)),
        _ => Response::Done,
    });
    assert_eq!(end, None);
    assert!(!requests.contains(&Request::RemoveIfPresent(Artifact::CkLog)));
    assert!(!requests.contains(&Request::AppendFile(Artifact::CkLog)));
    assert_eq!(requests.len(), 6 + 4 + 6);
}

#[test]
fn a_bad_exit_status_with_the_output_there_is_a_warning() {
    let (requests, end) =
        drive_content_tool(CkAction::GeneratePrecombined, true, &|request| match request {
            Request::RunCreationKit(_) => exited(-1073741819),
            Request::SurveyData => Response::Data(data(false, false, true)),
            _ => Response::Done,
        });
    assert_eq!(end, None);
    assert!(requests.contains(&Request::Warn(Warning::ExitIgnored(
        CkAction::GeneratePrecombined,
        -1073741819
    ))));
}

#[test]
fn a_good_exit_status_without_the_output_is_a_failure() {
    let (requests, end) =
        drive_content_tool(CkAction::GeneratePrecombined, true, &|request| match request {
            Request::RunCreationKit(_) => exited(0),
            Request::SurveyData => Response::Data(data(false, true, false)),
            _ => Response::Done,
        });
    let failure = end.unwrap();
    assert_eq!(failure, Failure::OutputMissing(CkAction::GeneratePrecombined, 0));
    assert_eq!(failure.kind(), generate_previsbines::error::ErrorKind::OutputArtifactMissing);
    assert_eq!(
        failure.message("CombinedObjects.esp", ""),
        "ERROR - GeneratePrecombined failed to create file CombinedObjects.esp with exit status 0"
    );
    assert!(requests.iter().all(|r| !matches!(r, Request::Warn(_))));
    for i in 0..6 {
        assert!(requests
            .contains(&Request::RenameIfPresent(Artifact::DisabledOverlay(i), Artifact::Overlay(i))));
    }
}

#[test]
fn a_tool_without_exit_status_counts_as_minus_one() {
    let (_, end) = drive_content_tool(CkAction::BuildCdx, true, &|request| match request {
        Request::RunCreationKit(_) => {
            Response::Exited { success: false, code: None, errors: String::new() }
        }
        Request::SurveyData => Response::Data(data(false, false, false)),
        _ => Response::Done,
    });
    assert_eq!(end, Some(Failure::OutputMissing(CkAction::BuildCdx, -1)));
}

#[test]
fn the_overlays_are_put_back_after_every_failure() {
    let failing: Vec<(Request, Failure)> = vec![
        (
            Request::RenameIfPresent(Artifact::Overlay(2), Artifact::DisabledOverlay(2)),
            Failure::DisableOverlay(2),
        ),
        (Request::RemoveIfPresent(Artifact::CkLog), Failure::RemoveCkLog),
        (Request::AppendNote(Note::ContentTool(CkAction::BuildCdx)), Failure::RunLogUnwritable),
        (Request::RunCreationKit(CkAction::BuildCdx), Failure::CreationKitLaunch),
        (Request::AppendFile(Artifact::CkLog), Failure::CkLogCopy),
    ];
    for (broken, failure) in failing {
        let (requests, end) = drive_content_tool(CkAction::BuildCdx, true, &|request| {
            if *request == broken {
                Response::Failed("denied".to_string())
            } else {
                match request {
                    Request::RunCreationKit(_) => exited(0),
                    Request::SurveyData => Response::Data(data(false, false, true)),
                    _ => Response::Done,
                }
            }
        });
        assert_eq!(end, Some(failure));
        let at = requests.iter().position(|r| *r == broken).unwrap();
        let after: Vec<Request> = requests[at + 1..].to_vec();
        let restore: Vec<Request> = (0..6)
            .map(|i| Request::RenameIfPresent(Artifact::DisabledOverlay(i), Artifact::Overlay(i)))
            .collect();
        assert_eq!(after, restore);
    }
}

#[test]
fn an_overlay_that_cannot_be_put_back_fails_a_good_run() {
    let broken = Request::RenameIfPresent(Artifact::DisabledOverlay(1), Artifact::Overlay(1));
    let (requests, end) = drive_content_tool(CkAction::BuildCdx, true, &|request| {
        if *request == broken {
            Response::Failed("in use".to_string())
        } else {
            match request {
                Request::RunCreationKit(_) => exited(0),
                Request::SurveyData => Response::Data(data(false, false, true)),
                _ => Response::Done,
            }
        }
    });
    assert_eq!(end, Some(Failure::RestoreOverlay(1)));
    assert_eq!(
        Failure::RestoreOverlay(1).message("", "in use"),
        "Error re-enabling d3d10.dll: in use"
    );
    assert_eq!(
        requests.last(),
        Some(&Request::RenameIfPresent(Artifact::DisabledOverlay(5), Artifact::Overlay(5)))
    );
}

#[test]
fn the_first_failure_is_the_one_that_counts() {
    let (_, end) = drive_content_tool(CkAction::BuildCdx, true, &|request| match request {
        Request::RunCreationKit(_) => Response::Failed("not found".to_string()),
        Request::RenameIfPresent(Artifact::DisabledOverlay(_), _) => {
            Response::Failed("in use".to_string())
        }
        _ => Response::Done,
    });
    assert_eq!(end, Some(Failure::CreationKitLaunch));
}

#[test]
fn marks_in_the_content_tools_log_are_found() {
    assert!(ran_out_of_handles("a\nDEFAULT: OUT OF HANDLE ARRAY ENTRIES\nb"));
    assert!(!ran_out_of_handles("DEFAULT: out of handle array entries"));
    assert!(visibility_incomplete("x ERROR: visibility task did not complete. y"));
    assert!(!visibility_incomplete("ERROR: visibility task did not complete"));
}

#[test]
fn marks_in_the_editors_log_are_found() {
    assert!(script_completed("...\nCompleted: 3 Errors.\n"));
    assert!(!script_completed("Complete"));
    assert!(script_completed_cleanly("Completed: No Errors."));
    assert!(!script_completed_cleanly("Completed: 3 Errors."));
    assert!(script_completed_cleanly("Error: odd\nCompleted: No Errors.\n"));
    assert!(!script_completed_cleanly("Completed: no errors."));
}

#[test]
fn the_editors_log_decides_the_run() {
    assert_eq!(judge_log(Script::MergePrevis, &Some("Completed: No Errors.".to_string())), None);
    assert_eq!(
        judge_log(Script::MergePrevis, &Some("crashed".to_string())),
        Some(Failure::ScriptFailed(Script::MergePrevis))
    );
    assert_eq!(
        judge_log(Script::MergeCombinedObjects, &None),
        Some(Failure::ScriptSilent(Script::MergeCombinedObjects))
    );
    assert_eq!(
        Failure::ScriptFailed(Script::MergePrevis).message("", ""),
        "ERROR - FO4Edit script Batch_FO4MergePreVisAndAutoUpdateRefr.pas failed"
    );
    assert_eq!(
        Failure::ScriptSilent(Script::MergeCombinedObjects).message("", ""),
        "ERROR - FO4Edit script Batch_FO4MergeCombinedObjectsAndCheck.pas did not produce a log file"
    );
}

#[test]
fn the_editor_is_told_script_plugin_and_log() {
    assert_eq!(
        xedit_arguments(
            Script::MergeCombinedObjects,
            "Foo.esp",
            "C:\\Temp\\Plugins.txt",
            "C:\\Temp\\UnattendedScript.log"
        ),
        strings(&[
            "-fo4",
            "-autoexit",
            "-P:C:\\Temp\\Plugins.txt",
            "-Script:Batch_FO4MergeCombinedObjectsAndCheck.pas",
            "-Mod:Foo.esp",
            "-log:C:\\Temp\\UnattendedScript.log"
        ])
    );
    assert_eq!(plugins_list(Script::MergeCombinedObjects, "Foo.esp"), "*Foo.esp\n*CombinedObjects.esp\n");
    assert_eq!(plugins_list(Script::MergePrevis, "Foo.esm"), "*Foo.esm\n*Previs.esp\n");
}

fn drive_editor(
    script: Script,
    patience: Option<u32>,
    answer: &mut dyn FnMut(&Request) -> Response,
) -> (Vec<Request>, Option<Failure>) {
    let mut phase = EditorPhase::Heading;
    let mut requests = Vec::new();
    for _ in 0..200 {
        let request = xedit_request(script, phase);
        requests.push(request);
        match run_xedit_script(script, patience, phase, &answer(&request)) {
            EditorFlow::Next(next) => phase = next,
            EditorFlow::Done(end) => return (requests, end),
        }
    }
    panic!("the editor's run did not end");
}

#[test]
fn a_good_run_of_the_editor_waits_for_the_log_and_ends_the_editor() {
    let mut looks = 0;
    let (requests, end) = drive_editor(Script::MergePrevis, None, &mut |request| match request {
        Request::Look(_) => {
            looks += 1;
            Response::Found(looks == 3)
        }
        Request::ReadText(_) => Response::Text(Some("Completed: No Errors.".to_string())),
        _ => Response::Done,
    });
    assert_eq!(end, None);
    assert_eq!(
        requests,
        vec![
            Request::AppendNote(Note::Editor(Script::MergePrevis)),
            Request::WritePluginsList(Script::MergePrevis),
            Request::RemoveIfPresent(Artifact::UnattendedLog),
            Request::StartEditor(Script::MergePrevis),
            Request::Pause(5),
            Request::Look(Artifact::UnattendedLog),
            Request::Pause(5),
            Request::Look(Artifact::UnattendedLog),
            Request::Pause(5),
            Request::Look(Artifact::UnattendedLog),
            Request::Pause(10),
            Request::StopEditor,
            Request::Pause(5),
            Request::AppendFile(Artifact::UnattendedLog),
            Request::ReadText(Artifact::UnattendedLog),
        ]
    );
}

#[test]
fn the_editor_fails_without_the_completion_mark() {
    let (_, end) = drive_editor(Script::MergeCombinedObjects, None, &mut |request| match request {
        Request::Look(_) => Response::Found(true),
        Request::ReadText(_) => Response::Text(Some("Fatal: could not open".to_string())),
        _ => Response::Done,
    });
    assert_eq!(end, Some(Failure::ScriptFailed(Script::MergeCombinedObjects)));
}

#[test]
fn patience_bounds_the_looks_for_the_editors_log() {
    let mut looks = 0;
    let (requests, end) =
        drive_editor(Script::MergeCombinedObjects, Some(4), &mut |request| match request {
            Request::Look(_) => {
                looks += 1;
                Response::Found(false)
            }
            Request::ReadText(_) => Response::Text(None),
            _ => Response::Done,
        });
    assert_eq!(end, Some(Failure::ScriptSilent(Script::MergeCombinedObjects)));
    assert_eq!(looks, 4);
    assert!(requests.contains(&Request::StopEditor));
}

#[test]
fn without_patience_the_looks_go_on() {
    let mut looks = 0;
    let (_, end) = drive_editor(Script::MergeCombinedObjects, None, &mut |request| match request {
        Request::Look(_) => {
            looks += 1;
            Response::Found(looks == 60)
        }
        Request::ReadText(_) => Response::Text(Some("Completed: ".to_string())),
        _ => Response::Done,
    });
    assert_eq!(end, None);
    assert_eq!(looks, 60);
}

#[test]
fn an_editor_that_does_not_start_fails_the_run_at_once() {
    let (requests, end) = drive_editor(Script::MergePrevis, None, &mut |request| match request {
        Request::StartEditor(_) => Response::Failed("no such file".to_string()),
        _ => Response::Done,
    });
    assert_eq!(end, Some(Failure::EditorLaunch));
    assert_eq!(requests.last(), Some(&Request::StartEditor(Script::MergePrevis)));
    assert_eq!(Failure::EditorLaunch.message("", "no such file"), "Error starting xEdit: no such file");
}

#[test]
fn packing_wants_success_and_the_archive() {
    assert_eq!(run_archive(PackPhase::Packing, &exited(0)), PackFlow::Next(PackPhase::Confirming));
    assert_eq!(
        run_archive(PackPhase::Packing, &exited(1)),
        PackFlow::Done(Some(Failure::Archive2Failed))
    );
    assert_eq!(
        run_archive(PackPhase::Packing, &Response::Failed("x".to_string())),
        PackFlow::Done(Some(Failure::Archive2Launch))
    );
    assert_eq!(
        run_archive(PackPhase::Confirming, &Response::Data(data(true, false, false))),
        PackFlow::Done(None)
    );
    assert_eq!(
        run_archive(PackPhase::Confirming, &Response::Data(data(false, false, false))),
        PackFlow::Done(Some(Failure::ArchiveNotCreated))
    );
    assert_eq!(run_archive(PackPhase::Packing, &Response::Done), PackFlow::Done(Some(Failure::OutOfTurn)));
    assert_eq!(
        Failure::ArchiveNotCreated.message("Foo - Main.ba2", ""),
        "Archive was not created: Foo - Main.ba2"
    );
    assert_eq!(Failure::Archive2Failed.message("", "disk full"), "Archive2 failed: disk full");
}

#[test]
fn extracting_wants_an_archive_and_success() {
    assert_eq!(
        extract_archive(ExtractPhase::Looking, &Response::Data(data(false, false, false))),
        ExtractFlow::Done(Some(Failure::ArchiveAbsent))
    );
    assert_eq!(
        extract_archive(ExtractPhase::Looking, &Response::Data(data(true, false, false))),
        ExtractFlow::Next(ExtractPhase::Extracting)
    );
    assert_eq!(extract_archive(ExtractPhase::Extracting, &exited(0)), ExtractFlow::Done(None));
    assert_eq!(
        extract_archive(ExtractPhase::Extracting, &exited(2)),
        ExtractFlow::Done(Some(Failure::ExtractionFailed))
    );
    assert_eq!(
        extract_archive(ExtractPhase::Extracting, &Response::Failed("x".to_string())),
        ExtractFlow::Done(Some(Failure::ExtractionLaunch))
    );
    assert_eq!(
        Failure::ArchiveAbsent.message("Foo - Main.ba2", ""),
        "Archive does not exist: Foo - Main.ba2"
    );
}

#[test]
fn bsarch_is_judged_by_its_exit() {
    assert_eq!(run_bsarch(PackJob::Vis, &exited(0)), None);
    assert_eq!(run_bsarch(PackJob::Vis, &exited(3)), Some(Failure::BsArchFailed(PackJob::Vis, 3)));
    assert_eq!(
        run_bsarch(
            PackJob::Precombines,
            &Response::Exited { success: false, code: None, errors: String::new() }
        ),
        Some(Failure::BsArchFailed(PackJob::Precombines, -1))
    );
    assert_eq!(
        run_bsarch(PackJob::Precombines, &Response::Failed("x".to_string())),
        Some(Failure::BsArchLaunch(PackJob::Precombines))
    );
    assert_eq!(
        Failure::BsArchFailed(PackJob::Vis, 3).message("", ""),
        "BSArch action 'archiving vis files' failed with exit code: 3."
    );
    assert_eq!(
        Failure::BsArchLaunch(PackJob::Precombines)
            .message("", "denied. Path: D:\\bsarch.exe"),
        "Failed to execute BSArch for action 'archiving precombines': denied. Path: D:\\bsarch.exe"
    );
}

/// A data directory as the archivers see it: which folders hold files and
/// what the archive holds.
struct Shelf {
    archive: Option<Vec<Folder>>,
    disk: Vec<Folder>,
}

impl Shelf {
    fn facts(&self) -> DataFacts {
        DataFacts {
            plugin_exists: true,
            archive_exists: self.archive.is_some(),
            seed_exists: false,
            precombined_names: if self.disk.contains(&Folder::Precombined) {
                strings(&["m.nif"])
            } else {
                Vec::new()
            },
            visibility_names: if self.disk.contains(&Folder::Vis) {
                strings(&["v.uvd"])
            } else {
                Vec::new()
            },
            combined_objects_exists: false,
            geometry_psg_exists: false,
            geometry_csg_exists: false,
            cdx_exists: false,
            previs_exists: false,
        }
    }

    fn carry_out(&mut self, request: &Request) -> Response {
        match request {
            Request::SurveyData => Response::Data(self.facts()),
            Request::Pack(set) => {
                let mut held = Vec::new();
                if set.precombined && self.disk.contains(&Folder::Precombined) {
                    held.push(Folder::Precombined);
                }
                if set.vis && self.disk.contains(&Folder::Vis) {
                    held.push(Folder::Vis);
                }
                self.archive = Some(held);
                exited(0)
            }
            Request::Extract => {
                for folder in self.archive.clone().unwrap_or_default() {
                    if !self.disk.contains(&folder) {
                        self.disk.push(folder);
                    }
                }
                exited(0)
            }
            Request::Remove(Artifact::Archive) => {
                self.archive = None;
                Response::Done
            }
            Request::RemoveTree(Artifact::PrecombinedDir) => {
                self.disk.retain(|f| *f != Folder::Precombined);
                Response::Done
            }
            _ => Response::Done,
        }
    }
}

fn drive_adding(folder: Folder, shelf: &mut Shelf) -> (Vec<Request>, Option<Failure>) {
    let mut phase = AddPhase::Looking;
    let mut requests = Vec::new();
    for _ in 0..20 {
        let request = archive_request(phase);
        requests.push(request);
        let response = shelf.carry_out(&request);
        match add_to_archive(folder, phase, &response) {
            AddFlow::Next(next) => phase = next,
            AddFlow::Done(end) => return (requests, end),
        }
    }
    panic!("the adding did not end");
}

#[test]
fn adding_without_an_archive_is_packing_the_folder() {
    let mut shelf = Shelf { archive: None, disk: vec![Folder::Vis] };
    let (requests, end) = drive_adding(Folder::Vis, &mut shelf);
    assert_eq!(end, None);
    assert_eq!(
        requests,
        vec![
            Request::SurveyData,
            Request::Pack(PackSet { precombined: false, vis: true }),
            Request::SurveyData,
        ]
    );
    assert_eq!(shelf.archive, Some(vec![Folder::Vis]));

    let mut packed = Shelf { archive: None, disk: vec![Folder::Vis] };
    let mut phase = PackPhase::Packing;
    let mut pack_requests = Vec::new();
    let pack_end = loop {
        let request = match phase {
            PackPhase::Packing => Request::Pack(PackSet { precombined: false, vis: true }),
            PackPhase::Confirming => Request::SurveyData,
        };
        pack_requests.push(request);
        match run_archive(phase, &packed.carry_out(&request)) {
            PackFlow::Next(next) => phase = next,
            PackFlow::Done(end) => break end,
        }
    };
    assert_eq!(pack_end, end);
    assert_eq!(pack_requests[..], requests[1..]);
    assert_eq!(packed.archive, shelf.archive);
}

#[test]
fn adding_without_an_archive_leaves_stray_meshes_alone() {
    let mut shelf = Shelf { archive: None, disk: vec![Folder::Vis, Folder::Precombined] };
    let (requests, end) = drive_adding(Folder::Vis, &mut shelf);
    assert_eq!(end, None);
    assert!(!requests.contains(&Request::Extract));
    assert_eq!(shelf.archive, Some(vec![Folder::Vis]));
    assert!(shelf.disk.contains(&Folder::Precombined));
}

#[test]
fn adding_to_an_archive_keeps_what_it_held() {
    let mut shelf = Shelf { archive: Some(vec![Folder::Precombined]), disk: vec![Folder::Vis] };
    let (requests, end) = drive_adding(Folder::Vis, &mut shelf);
    assert_eq!(end, None);
    assert_eq!(
        requests,
        vec![
            Request::SurveyData,
            Request::Extract,
            Request::Pause(5),
            Request::Remove(Artifact::Archive),
            Request::SurveyData,
            Request::Pack(PackSet { precombined: true, vis: true }),
            Request::SurveyData,
            Request::RemoveTree(Artifact::PrecombinedDir),
        ]
    );
    assert_eq!(shelf.archive, Some(vec![Folder::Precombined, Folder::Vis]));
    assert!(!shelf.disk.contains(&Folder::Precombined));
}

#[test]
fn adding_to_an_empty_archive_packs_the_folder_alone() {
    let mut shelf = Shelf { archive: Some(Vec::new()), disk: vec![Folder::Vis] };
    let (requests, end) = drive_adding(Folder::Vis, &mut shelf);
    assert_eq!(end, None);
    assert!(requests.contains(&Request::Extract));
    assert!(requests.contains(&Request::Pack(PackSet { precombined: false, vis: true })));
    assert!(!requests.contains(&Request::RemoveTree(Artifact::PrecombinedDir)));
    assert_eq!(shelf.archive, Some(vec![Folder::Vis]));
}

#[test]
fn adding_stops_at_the_first_failure() {
    let responses = vec![
        (AddPhase::Extracting, exited(1), Failure::ExtractionFailed),
        (AddPhase::Removing, Response::Failed("x".to_string()), Failure::RemoveArchive),
        (AddPhase::Clearing, Response::Failed("x".to_string()), Failure::RemovePrecombined),
        (
            AddPhase::Packing(PackSet { precombined: true, vis: true }, PackPhase::Packing, true),
            exited(1),
            Failure::Archive2Failed,
        ),
    ];
    for (phase, response, failure) in responses {
        assert_eq!(add_to_archive(Folder::Vis, phase, &response), AddFlow::Done(Some(failure)));
    }
}
