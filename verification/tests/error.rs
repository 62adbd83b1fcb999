use generate_previsbines::error::{BuildError, ErrorKind, Failure};
use generate_previsbines::names::{CkAction, PackJob, Script};

#[test]
fn failures_belong_to_their_classes() {
    let cases = [
        (Failure::InvalidStage(12), ErrorKind::InvalidStage),
        (Failure::StageNotANumber, ErrorKind::InvalidStage),
        (Failure::StageOutOfRange(9), ErrorKind::InvalidStage),
        (Failure::EditorMissing, ErrorKind::ConfigurationMissing),
        (Failure::LoggingNotConfigured, ErrorKind::ConfigurationMissing),
        (Failure::ScriptOutdated(Script::MergePrevis, 3), ErrorKind::ConfigurationMissing),
        (Failure::PluginMissing, ErrorKind::PrerequisiteUnmet),
        (Failure::NoGeometry, ErrorKind::PrerequisiteUnmet),
        (Failure::PrecombinedNotEmpty, ErrorKind::PrerequisiteUnmet),
        (Failure::CreationKitLaunch, ErrorKind::ExternalProcessFailed),
        (Failure::Archive2Failed, ErrorKind::ExternalProcessFailed),
        (Failure::BsArchFailed(PackJob::Vis, 1), ErrorKind::ExternalProcessFailed),
        (Failure::OutputMissing(CkAction::BuildCdx, 0), ErrorKind::OutputArtifactMissing),
        (Failure::ArchiveNotCreated, ErrorKind::OutputArtifactMissing),
        (Failure::NoPrecombinesCreated, ErrorKind::OutputArtifactMissing),
        (Failure::ScriptFailed(Script::MergePrevis), ErrorKind::LogParseFailure),
        (Failure::ScriptSilent(Script::MergePrevis), ErrorKind::LogParseFailure),
        (Failure::OutOfHandles, ErrorKind::LogParseFailure),
        (Failure::Aborted, ErrorKind::UserAborted),
        (Failure::NoPluginName, ErrorKind::UserAborted),
        (Failure::RemoveArchive, ErrorKind::FileOperationFailed),
        (Failure::DisableOverlay(0), ErrorKind::FileOperationFailed),
        (Failure::OutOfTurn, ErrorKind::Protocol),
    ];
    for (failure, kind) in cases {
        assert_eq!(failure.kind(), kind, "{:?}", failure);
    }
}

#[test]
fn wordings_of_the_environment_checks() {
    assert_eq!(Failure::EditorMissing.message("C:\\x\\FO4Edit.exe", ""), "ERROR - C:\\x\\FO4Edit.exe not found");
    assert_eq!(
        Failure::GameMissing.message("C:\\g\\Fallout4.exe", ""),
        "ERROR - Fallout4.exe not found at C:\\g\\Fallout4.exe"
    );
    assert_eq!(
        Failure::ScriptMissing.message("C:\\x\\Edit Scripts\\a.pas", ""),
        "ERROR - FO4Edit Script C:\\x\\Edit Scripts\\a.pas not found"
    );
    assert_eq!(Failure::ConfigUnreadable.message("f.ini", "denied"), "Error opening f.ini: denied");
    assert_eq!(
        Failure::LoggingNotConfigured.message("OutputFile", "fallout4_test.ini"),
        "ERROR - CK not set for logging redirection. OutputFile not found or empty in fallout4_test.ini"
    );
    assert_eq!(
        Failure::ConfigUnsearchable.message("f.ini", ""),
        "Error searching f.ini for its settings"
    );
}

#[test]
fn wordings_of_the_prerequisites() {
    assert_eq!(
        Failure::NoPrecombinedMeshes.message("", ""),
        "ERROR - No precombined meshes found. Run GeneratePrecombines first."
    );
    assert_eq!(
        Failure::NoVisibilityFiles.message("", ""),
        "ERROR - No visibility files found. Run GeneratePreVisData first."
    );
    assert_eq!(
        Failure::NoPrevis.message("", ""),
        "ERROR - Previs.esp not found. Run GeneratePreVisData first."
    );
    assert_eq!(
        Failure::NoPluginNorSeed.message("", ""),
        "ERROR - Specified Plugin or xPrevisPatch does not exist"
    );
}

#[test]
fn wordings_of_the_stages() {
    assert_eq!(
        Failure::NoPrecombinesCreated.message("", ""),
        "ERROR - GeneratePrecombined failed to create any Precombines"
    );
    assert_eq!(Failure::CsgNotCreated.message("", ""), "ERROR - CompressPSG failed to create CSG file");
    assert_eq!(
        Failure::NoVisibilityCreated.message("", ""),
        "ERROR - GeneratePreVisData failed to create visibility files"
    );
    assert_eq!(
        Failure::PrevisNotCreated.message("", ""),
        "ERROR - GeneratePreVisData failed to create Previs.esp"
    );
    assert_eq!(
        Failure::MergePrevisSilent.message("", ""),
        "ERROR - Merge Previs script did not produce a log file"
    );
    assert_eq!(
        Failure::OutputMissing(CkAction::CompressPsg, -1).message("Foo - Geometry.csg", ""),
        "ERROR - CompressPSG failed to create file Foo - Geometry.csg with exit status -1"
    );
}

#[test]
fn wordings_of_file_operations_quote_the_system() {
    let cases = [
        (Failure::SeedRename, "Error renaming xPrevisPatch.esp: busy"),
        (Failure::RemoveCombinedObjects, "Error removing CombinedObjects.esp: busy"),
        (Failure::RemoveGeometry, "Error removing Geometry.psg: busy"),
        (Failure::RemovePsg, "Error removing PSG file: busy"),
        (Failure::RemovePrevis, "Error removing Previs.esp: busy"),
        (Failure::RemoveArchive, "Failed to remove existing archive: busy"),
        (Failure::RemovePrecombined, "Error removing precombined directory: busy"),
        (Failure::RemoveVis, "Error removing vis directory: busy"),
        (Failure::CkLogUnreadable, "Error reading CK log file: busy"),
        (Failure::UnattendedLogUnreadable, "Error reading unattended log file: busy"),
        (Failure::EditorLogUnreadable, "Error reading xEdit log file: busy"),
        (Failure::RemoveUnattendedLog, "Error removing unattended log file: busy"),
        (Failure::ManifestUnwritable, "Error creating plugins file: busy"),
        (Failure::DisableOverlay(0), "Error disabling d3d11.dll: busy"),
        (Failure::DisableOverlay(5), "Error disabling d3dcompiler_46e.dll: busy"),
        (Failure::ExtractionFailed, "Archive2 extraction failed: busy"),
        (Failure::ExtractionLaunch, "Failed to execute Archive2 extraction: busy"),
        (Failure::Archive2Launch, "Failed to execute Archive2: busy"),
        (Failure::RunLogUnwritable, "busy"),
    ];
    for (failure, text) in cases {
        assert_eq!(failure.message("", "busy"), text);
    }
    assert_eq!(
        Failure::RemoveCkLog.message("CK.log", "busy"),
        "Error removing log file CK.log: busy"
    );
    assert_eq!(
        Failure::CkLogCopy.message("CK.log", "busy"),
        "Error reading CK log file CK.log: busy"
    );
}

#[test]
fn errors_carry_their_texts() {
    let error = BuildError::full(Failure::TomlInvalid, "c.toml", "line 3");
    assert_eq!(error.failure, Failure::TomlInvalid);
    assert_eq!(error.subject, "c.toml");
    assert_eq!(error.detail, "line 3");
    assert_eq!(error.message(), "Error parsing TOML file c.toml: line 3");
    assert_eq!(error.kind(), ErrorKind::ConfigurationMissing);
    assert_eq!(BuildError::bare(Failure::Aborted).message(), "Aborted by user");
    assert_eq!(BuildError::about(Failure::PluginMissing, "A.esp").message(), "ERROR - Plugin A.esp does not exist");
    assert_eq!(BuildError::quoting(Failure::InputUnreadable, "eof").message(), "Error reading input: eof");
}
