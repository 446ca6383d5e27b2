use debian_bridge_core::config::{Config, Icon, Program};
use debian_bridge_core::desktop::{
    entry_path_from, entry_path_in, file_name_of, invocation, DesktopEntry, DEFAULT_COMMENT,
};
use debian_bridge_core::error::AppError;
use debian_bridge_core::feature::Feature;
use debian_bridge_core::storage::{blank, LoadStep};

fn program(name: &str) -> Program {
    Program::new(
        name,
        "/tmp/pkg.deb",
        &vec![Feature::Display, Feature::Time],
        &Some(Icon::new("/i.png")),
        &Some("start".to_string()),
        &Some("libfoo".to_string()),
    )
}

#[test]
fn blank_texts() {
    assert!(blank(""));
    assert!(blank(" "));
    assert!(blank(" \t\r\n"));
    assert!(!blank("{}"));
    assert!(!blank("  x  "));
    assert!(!blank("\u{a0}"));
}

#[test]
fn absent_storage_is_initialised() {
    assert_eq!(Config::deserialize(None), LoadStep::Initialize(Config::new()));
}

#[test]
fn empty_storage_gives_the_empty_registry() {
    assert_eq!(Config::deserialize(Some("")), LoadStep::Ready(Config::new()));
    assert_eq!(Config::deserialize(Some("\n  \n")), LoadStep::Ready(Config::new()));
}

#[test]
fn stored_document_is_handed_to_the_decoder() {
    let text = "{\"programs\":[]}";
    assert_eq!(Config::deserialize(Some(text)), LoadStep::Decode(text.to_string()));
    assert_eq!(Config::deserialize(Some(" x")), LoadStep::Decode(" x".to_string()));
}

#[test]
fn malformed_document_is_an_io_failure() {
    assert_eq!(
        Config::restore(Err("expected value at line 1".to_string())),
        Err(AppError::IOFailure("expected value at line 1".to_string()))
    );
}

#[test]
fn restore_keeps_records_and_order() {
    let records = vec![program("b"), program("a"), program("c")];
    let config = Config::restore(Ok(records.clone())).unwrap();
    assert_eq!(config.programs, records);
    assert_eq!(config.list(), vec!["b", "a", "c"]);
    assert_eq!(Config::restore(Ok(vec![])), Ok(Config::new()));
}

#[test]
fn restore_of_what_a_registry_holds_gives_the_registry_back() {
    let mut config = Config::new();
    config.push(&program("a")).unwrap();
    config.push(&program("b")).unwrap();
    config.remove(&program("a")).unwrap();
    config.push(&program("c")).unwrap();
    let saved = config.clone();
    assert_eq!(Config::restore(Ok(saved.programs)), Ok(config));
}

#[test]
fn serialize_lists_the_records_in_order() {
    let mut config = Config::new();
    assert!(config.serialize().is_empty());
    config.push(&program("b")).unwrap();
    config.push(&program("a")).unwrap();
    assert_eq!(config.serialize(), vec![program("b"), program("a")]);
    assert_eq!(Config::restore(Ok(config.serialize())), Ok(config));
}

#[test]
fn restore_refuses_a_name_that_occurs_twice() {
    let records = vec![program("a"), program("b"), program("a")];
    assert_eq!(
        Config::restore(Ok(records)),
        Err(AppError::IOFailure(AppError::DuplicateProgram("a".to_string()).message()))
    );
}

#[test]
fn launcher_file_names() {
    assert_eq!(DEFAULT_COMMENT, "Application");
    assert_eq!(file_name_of("gimp"), "gimp.desktop");
    assert_eq!(invocation("debian_bridge", "gimp"), "debian_bridge run gimp");
    assert_eq!(entry_path_in("/home/a/Desktop", "gimp"), "/home/a/Desktop/gimp.desktop");
    assert_eq!(entry_path_in("/home/a/Desktop/", "gimp"), "/home/a/Desktop/gimp.desktop");
}

#[test]
fn launcher_path_follows_what_the_host_gave() {
    assert_eq!(entry_path_from(None, "gimp"), None);
    assert_eq!(
        entry_path_from(Some("/home/a/Desktop".to_string()), "gimp"),
        Some("/home/a/Desktop/gimp.desktop".to_string())
    );
    assert_eq!(
        entry_path_from(Some("/".to_string()), "vlc"),
        Some("/vlc.desktop".to_string())
    );
}

#[test]
fn launcher_entry_text() {
    let entry = DesktopEntry {
        name: "gimp".to_string(),
        comment: "An editor".to_string(),
        command: "debian_bridge run gimp".to_string(),
        icon: "/icons/gimp.png".to_string(),
    };
    assert_eq!(entry.file_name(), "gimp.desktop");
    assert_eq!(
        entry.render(),
        "[Desktop Entry]\n\
         Type=Application\n\
         Name=gimp\n\
         Comment=An editor\n\
         Exec=debian_bridge run gimp\n\
         Icon=/icons/gimp.png\n"
    );
}
