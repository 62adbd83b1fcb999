use generate_previsbines::plugin::PluginIdentity;

fn names(input: &str) -> (String, String, String) {
    let identity = PluginIdentity::derive(input);
    (identity.base_name, identity.file_name, identity.archive_name)
}

#[test]
fn a_bare_name_gets_the_default_extension() {
    assert_eq!(
        names("Foo"),
        ("Foo".to_string(), "Foo.esp".to_string(), "Foo - Main.ba2".to_string())
    );
}

#[test]
fn a_master_extension_is_kept() {
    assert_eq!(
        names("Foo.esm"),
        ("Foo".to_string(), "Foo.esm".to_string(), "Foo - Main.ba2".to_string())
    );
}

#[test]
fn a_light_extension_is_kept() {
    assert_eq!(
        names("Foo.esl"),
        ("Foo".to_string(), "Foo.esl".to_string(), "Foo - Main.ba2".to_string())
    );
}

#[test]
fn an_extension_in_capitals_is_recognised_and_kept_verbatim() {
    assert_eq!(
        names("Foo.ESP"),
        ("Foo".to_string(), "Foo.ESP".to_string(), "Foo - Main.ba2".to_string())
    );
    assert_eq!(
        names("Foo.eSm"),
        ("Foo".to_string(), "Foo.eSm".to_string(), "Foo - Main.ba2".to_string())
    );
}

#[test]
fn another_extension_is_part_of_the_name() {
    assert_eq!(
        names("Foo.txt"),
        ("Foo.txt".to_string(), "Foo.txt.esp".to_string(), "Foo.txt - Main.ba2".to_string())
    );
    assert_eq!(
        names("My.Mod.esp"),
        ("My.Mod".to_string(), "My.Mod.esp".to_string(), "My.Mod - Main.ba2".to_string())
    );
}

#[test]
fn only_the_last_extension_is_taken_off() {
    assert_eq!(
        names("Foo.esp.esp"),
        ("Foo.esp".to_string(), "Foo.esp.esp".to_string(), "Foo.esp - Main.ba2".to_string())
    );
}

#[test]
fn names_with_other_alphabets_keep_their_characters() {
    assert_eq!(
        names("\u{c9}t\u{e9}.esp"),
        (
            "\u{c9}t\u{e9}".to_string(),
            "\u{c9}t\u{e9}.esp".to_string(),
            "\u{c9}t\u{e9} - Main.ba2".to_string()
        )
    );
}

#[test]
fn an_extension_alone_names_no_plugin() {
    let identity = PluginIdentity::derive(".esp");
    assert_eq!(identity.base_name, "");
    assert_eq!(identity.file_name, ".esp");
    assert!(identity.is_unnamed());
}

#[test]
fn the_unset_identity_is_empty() {
    let identity = PluginIdentity::unset();
    assert_eq!(identity.base_name, "");
    assert_eq!(identity.file_name, "");
    assert_eq!(identity.archive_name, " - Main.ba2");
    assert!(identity.is_unnamed());
    assert!(!PluginIdentity::derive("Foo").is_unnamed());
}
