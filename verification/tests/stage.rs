use generate_previsbines::stage::{BuildMode, BuildStage};

fn all_stages() -> Vec<BuildStage> {
    vec![
        BuildStage::VerifyEnvironment,
        BuildStage::GeneratePrecombines,
        BuildStage::MergePrecombines,
        BuildStage::ArchivePrecombines,
        BuildStage::CompressPsg,
        BuildStage::BuildCdx,
        BuildStage::GeneratePrevis,
        BuildStage::MergePrevis,
        BuildStage::ArchiveVis,
    ]
}

fn schedule(start: BuildStage, mode: BuildMode) -> Vec<BuildStage> {
    let mut stages = vec![start.first_to_run(mode)];
    while let Some(next) = stages[stages.len() - 1].next_to_run(mode) {
        stages.push(next);
    }
    stages
}

#[test]
fn from_i32_knows_the_nine_stages() {
    for (n, stage) in all_stages().into_iter().enumerate() {
        assert_eq!(BuildStage::from_i32(n as i32), Some(stage));
        assert_eq!(stage.number(), n as i32);
    }
}

#[test]
fn from_i32_knows_no_other_stage() {
    for n in [-1, 9, 10, 100, i32::MIN, i32::MAX] {
        assert_eq!(BuildStage::from_i32(n), None);
    }
}

#[test]
fn descriptions_name_the_stages() {
    assert_eq!(BuildStage::VerifyEnvironment.description(), "Verify Environment");
    assert_eq!(BuildStage::GeneratePrecombines.description(), "Generate Precombines");
    assert_eq!(BuildStage::MergePrecombines.description(), "Merge Precombines");
    assert_eq!(BuildStage::ArchivePrecombines.description(), "Archive Precombines");
    assert_eq!(BuildStage::CompressPsg.description(), "Compress PSG");
    assert_eq!(BuildStage::BuildCdx.description(), "Build CDX");
    assert_eq!(BuildStage::GeneratePrevis.description(), "Generate Previs");
    assert_eq!(BuildStage::MergePrevis.description(), "Merge Previs");
    assert_eq!(BuildStage::ArchiveVis.description(), "Archive Vis");
}

#[test]
fn display_stages_lists_all_stages_of_a_clean_build() {
    assert_eq!(
        BuildStage::display_stages(&BuildMode::Clean),
        "[1] Generate Precombines Via CK\n\
         [2] Merge PrecombineObjects.esp Via FO4Edit\n\
         [3] Create BA2 Archive from Precombines\n\
         [4] Compress PSG Via CK\n\
         [5] Build CDX Via CK\n\
         [6] Generate Previs Via CK\n\
         [7] Merge Previs.esp Via FO4Edit\n\
         [8] Add vis files to BA2 Archive\n"
    );
}

#[test]
fn display_stages_leaves_out_the_clean_stages_otherwise() {
    let expected = "[1] Generate Precombines Via CK\n\
         [2] Merge PrecombineObjects.esp Via FO4Edit\n\
         [3] Create BA2 Archive from Precombines\n\
         [6] Generate Previs Via CK\n\
         [7] Merge Previs.esp Via FO4Edit\n\
         [8] Add vis files to BA2 Archive\n";
    assert_eq!(BuildStage::display_stages(&BuildMode::Filtered), expected);
    assert_eq!(BuildStage::display_stages(&BuildMode::Xbox), expected);
}

#[test]
fn mode_names_are_lower_case() {
    assert_eq!(BuildMode::Clean.name(), "clean");
    assert_eq!(BuildMode::Filtered.name(), "filtered");
    assert_eq!(BuildMode::Xbox.name(), "xbox");
}

#[test]
fn clean_builds_run_every_stage() {
    assert_eq!(
        schedule(BuildStage::VerifyEnvironment, BuildMode::Clean),
        all_stages()[1..].to_vec()
    );
}

#[test]
fn other_builds_pass_over_the_clean_stages() {
    let expected = vec![
        BuildStage::GeneratePrecombines,
        BuildStage::MergePrecombines,
        BuildStage::ArchivePrecombines,
        BuildStage::GeneratePrevis,
        BuildStage::MergePrevis,
        BuildStage::ArchiveVis,
    ];
    assert_eq!(schedule(BuildStage::VerifyEnvironment, BuildMode::Filtered), expected);
    assert_eq!(schedule(BuildStage::VerifyEnvironment, BuildMode::Xbox), expected);
}

#[test]
fn a_resumed_run_does_the_rest_of_a_full_run() {
    for mode in [BuildMode::Clean, BuildMode::Filtered, BuildMode::Xbox] {
        let full = schedule(BuildStage::VerifyEnvironment, mode);
        for start in all_stages() {
            let resumed = schedule(start, mode);
            let expected: Vec<BuildStage> =
                full.iter().copied().filter(|s| s.number() >= start.number()).collect();
            assert_eq!(resumed, expected, "{:?} from {:?}", mode, start);
        }
    }
}

#[test]
fn a_run_resumed_from_a_clean_stage_starts_at_previs_otherwise() {
    assert_eq!(BuildStage::CompressPsg.first_to_run(BuildMode::Filtered), BuildStage::GeneratePrevis);
    assert_eq!(BuildStage::BuildCdx.first_to_run(BuildMode::Xbox), BuildStage::GeneratePrevis);
    assert_eq!(BuildStage::CompressPsg.first_to_run(BuildMode::Clean), BuildStage::CompressPsg);
}

#[test]
fn stages_follow_each_other_in_pipeline_order() {
    assert_eq!(BuildStage::VerifyEnvironment.next(), Some(BuildStage::GeneratePrecombines));
    assert_eq!(BuildStage::MergePrevis.next(), Some(BuildStage::ArchiveVis));
    assert_eq!(BuildStage::ArchiveVis.next(), None);
    assert_eq!(BuildStage::ArchiveVis.next_to_run(BuildMode::Clean), None);
    assert_eq!(
        BuildStage::ArchivePrecombines.next_to_run(BuildMode::Filtered),
        Some(BuildStage::GeneratePrevis)
    );
    assert!(BuildStage::CompressPsg.is_clean_only());
    assert!(BuildStage::BuildCdx.is_clean_only());
    assert!(!BuildStage::GeneratePrevis.is_clean_only());
}

#[test]
fn stages_are_ordered_as_the_pipeline_is() {
    let stages = all_stages();
    for (i, earlier) in stages.iter().enumerate() {
        for (j, later) in stages.iter().enumerate() {
            assert_eq!(earlier < later, i < j);
            assert_eq!(earlier.cmp(later), i.cmp(&j));
            assert_eq!(earlier < later, earlier.number() < later.number());
        }
    }
    assert_eq!(stages.iter().max(), Some(&BuildStage::ArchiveVis));
    assert_eq!(stages.iter().min(), Some(&BuildStage::VerifyEnvironment));
}
