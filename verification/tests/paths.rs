use generate_previsbines::error::Failure;
use generate_previsbines::facts::PathFact;
use generate_previsbines::location::{locate_tool, Root};
use generate_previsbines::paths::{
    bsarch_places, choose_first_present, editor_names, unquote, Discovery, Paths,
};
use generate_previsbines::protocol::Artifact;

fn place(shown: &str, present: bool) -> PathFact {
    PathFact { shown: shown.to_string(), present }
}

fn nothing_found() -> Discovery {
    Discovery {
        working_directory_error: None,
        editor_candidates: vec![
            place("FO4Edit64.exe", false),
            place("xEdit64.exe", false),
            place("FO4Edit.exe", false),
            place("xEdit.exe", false),
        ],
        editor_registered: None,
        game_registered: None,
        bsarch_candidates: vec![
            place("tools/BSArch/bsarch.exe", false),
            place("BSArch/bsarch.exe", false),
            place("bsarch.exe", false),
        ],
    }
}

#[test]
fn the_editor_is_looked_for_under_four_names() {
    assert_eq!(editor_names(), vec!["FO4Edit64.exe", "xEdit64.exe", "FO4Edit.exe", "xEdit.exe"]);
}

#[test]
fn bsarch_is_looked_for_at_three_places() {
    assert_eq!(
        bsarch_places(),
        vec![vec!["tools", "BSArch", "bsarch.exe"], vec!["BSArch", "bsarch.exe"], vec!["bsarch.exe"]]
    );
}

#[test]
fn unquote_takes_out_every_quote() {
    assert_eq!(unquote("\"C:\\xEdit\\FO4Edit.exe\""), "C:\\xEdit\\FO4Edit.exe");
    assert_eq!(unquote("a\"b\"\"c"), "abc");
    assert_eq!(unquote("\"\""), "");
    assert_eq!(unquote(""), "");
    assert_eq!(unquote("d\u{e9}j\u{e0} \"vu\""), "d\u{e9}j\u{e0} vu");
}

#[test]
fn the_first_candidate_that_is_there_is_chosen() {
    let candidates = vec![place("a", false), place("b", true), place("c", true)];
    assert_eq!(choose_first_present(&candidates).unwrap().shown, "b");
    assert!(choose_first_present(&vec![place("a", false)]).is_none());
    assert!(choose_first_present(&Vec::new()).is_none());
}

#[test]
fn named_paths_are_taken_as_they_are() {
    let paths = Paths::new(
        Some("E:\\x\\FO4Edit.exe".to_string()),
        Some("E:\\Game".to_string()),
        true,
        Some("E:\\b\\bsarch.exe".to_string()),
        &nothing_found(),
    )
    .unwrap();
    assert_eq!(paths.fo4edit, "E:\\x\\FO4Edit.exe");
    assert_eq!(paths.fallout4, "E:\\Game");
    assert_eq!(paths.bsarch, Some("E:\\b\\bsarch.exe".to_string()));
    assert_eq!(paths.creation_kit.root, Root::Game);
    assert_eq!(paths.creation_kit.segments, vec!["CreationKit.exe"]);
    assert_eq!(paths.archive2.segments, vec!["tools", "archive2", "archive2.exe"]);
}

#[test]
fn the_editor_in_the_working_directory_comes_before_the_registered_one() {
    let mut found = nothing_found();
    found.editor_candidates[2].present = true;
    found.editor_candidates[3].present = true;
    found.editor_registered = Some("\"R:\\FO4Edit.exe\"".to_string());
    let paths = Paths::new(None, Some("G".to_string()), false, None, &found).unwrap();
    assert_eq!(paths.fo4edit, "FO4Edit.exe");

    found.editor_candidates[2].present = false;
    found.editor_candidates[3].present = false;
    let paths = Paths::new(None, Some("G".to_string()), false, None, &found).unwrap();
    assert_eq!(paths.fo4edit, "R:\\FO4Edit.exe");
}

#[test]
fn an_editor_that_is_nowhere_is_an_error() {
    let error = Paths::new(None, Some("G".to_string()), false, None, &nothing_found()).unwrap_err();
    assert_eq!(error.failure, Failure::EditorNotFound);
    assert_eq!(
        error.message(),
        "FO4Edit/xEdit not found. Please specify path with --fo4edit_path"
    );
}

#[test]
fn an_unknown_working_directory_is_an_error_when_the_editor_is_looked_for() {
    let mut found = nothing_found();
    found.working_directory_error = Some("gone".to_string());
    found.editor_registered = Some("R".to_string());
    let error = Paths::new(None, Some("G".to_string()), false, None, &found).unwrap_err();
    assert_eq!(error.message(), "Error getting current directory: gone");
    assert!(Paths::new(Some("E".to_string()), Some("G".to_string()), false, None, &found).is_ok());
}

#[test]
fn the_game_is_taken_from_the_registry() {
    let mut found = nothing_found();
    let error = Paths::new(Some("E".to_string()), None, false, None, &found).unwrap_err();
    assert_eq!(error.failure, Failure::GameNotFound);
    assert_eq!(
        error.message(),
        "Fallout 4 installation not found. Please specify path with --fallout4_path"
    );
    found.game_registered = Some("C:\\Games\\Fallout 4".to_string());
    let paths = Paths::new(Some("E".to_string()), None, false, None, &found).unwrap();
    assert_eq!(paths.fallout4, "C:\\Games\\Fallout 4");
}

#[test]
fn the_editors_fault_comes_before_the_games() {
    let error = Paths::new(None, None, false, None, &nothing_found()).unwrap_err();
    assert_eq!(error.failure, Failure::EditorNotFound);
}

#[test]
fn bsarch_is_looked_for_only_when_it_is_to_be_used() {
    let mut found = nothing_found();
    found.bsarch_candidates[1].present = true;
    let with = Paths::new(Some("E".to_string()), Some("G".to_string()), true, None, &found).unwrap();
    assert_eq!(with.bsarch, Some("BSArch/bsarch.exe".to_string()));
    let without = Paths::new(
        Some("E".to_string()),
        Some("G".to_string()),
        false,
        Some("named".to_string()),
        &found,
    )
    .unwrap();
    assert_eq!(without.bsarch, None);
    let missing =
        Paths::new(Some("E".to_string()), Some("G".to_string()), true, None, &nothing_found()).unwrap();
    assert_eq!(missing.bsarch, None);
}

#[test]
fn tools_have_their_place_whatever_the_plugin() {
    assert_eq!(locate_tool(Artifact::GameExecutable).segments, vec!["Fallout4.exe"]);
    assert_eq!(locate_tool(Artifact::CkpeLoader).segments, vec!["winhttp.dll"]);
    assert_eq!(locate_tool(Artifact::Archive).segments, vec!["Data", " - Main.ba2"]);
}
