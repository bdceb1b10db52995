use file_organizer::paths::{parent_dir, should_dispatch, EventKind, FileEvent};
use file_organizer::rules::{classify, default_config, extension_of, Action, FileRule};

fn rule(ext: &str, folder: &str) -> FileRule {
    FileRule { extension: ext.to_string(), folder: folder.to_string() }
}

#[test]
fn transient_extension_is_ignored_even_with_matching_rule() {
    let rules = vec![rule("tmp", "Temporary"), rule("jpg", "Images")];
    assert!(matches!(classify("tmp", &rules), Action::Ignore));
    assert!(matches!(classify("crdownload", &rules), Action::Ignore));
    assert!(matches!(classify("part", &rules), Action::Ignore));
    assert!(matches!(classify("swp", &rules), Action::Ignore));
}

#[test]
fn first_matching_rule_wins() {
    let rules = vec![rule("jpg", "Pictures"), rule("jpg", "Images")];
    match classify("jpg", &rules) {
        Action::MoveTo(folder) => assert_eq!(folder, "Pictures"),
        _ => panic!("expected a move"),
    }
}

#[test]
fn unmatched_extension_is_unhandled() {
    let rules = vec![rule("jpg", "Images")];
    assert!(matches!(classify("unknownext", &rules), Action::Unhandled));
    assert!(matches!(classify("", &rules), Action::Unhandled));
}

#[test]
fn classification_is_case_sensitive() {
    let rules = vec![rule("jpg", "Images")];
    assert!(matches!(classify("JPG", &rules), Action::Unhandled));
}

#[test]
fn extension_is_after_last_dot() {
    assert_eq!(extension_of("photo.jpg"), "jpg");
    assert_eq!(extension_of("a.b.c"), "c");
    assert_eq!(extension_of("archive"), "");
    assert_eq!(extension_of("name."), "");
}

#[test]
fn default_config_holds_the_three_rules() {
    let c = default_config();
    assert_eq!(c.folder_to_watch, "Downloads");
    assert_eq!(c.file_rules.len(), 3);
    assert_eq!(c.file_rules[0].extension, "jpg");
    assert_eq!(c.file_rules[0].folder, "Images");
    assert_eq!(c.file_rules[1].extension, "pdf");
    assert_eq!(c.file_rules[1].folder, "Documents");
    assert_eq!(c.file_rules[2].extension, "zip");
    assert_eq!(c.file_rules[2].folder, "Archives");
}

#[test]
fn parent_is_everything_before_last_separator() {
    assert_eq!(parent_dir("root/a.txt"), Some("root"));
    assert_eq!(parent_dir("root/sub/a.txt"), Some("root/sub"));
    assert_eq!(parent_dir("a.txt"), None);
}

#[test]
fn create_event_at_root_is_dispatched() {
    let e = FileEvent { path: "root/new.jpg".to_string(), kind: EventKind::Create };
    assert!(should_dispatch(&e, "root"));
}

#[test]
fn event_from_nested_folder_is_discarded() {
    let e = FileEvent { path: "root/sub/new.jpg".to_string(), kind: EventKind::Create };
    assert!(!should_dispatch(&e, "root"));
}

#[test]
fn non_create_event_is_discarded() {
    let e = FileEvent { path: "root/new.jpg".to_string(), kind: EventKind::Other };
    assert!(!should_dispatch(&e, "root"));
}

#[test]
fn event_without_parent_is_discarded() {
    let e = FileEvent { path: "new.jpg".to_string(), kind: EventKind::Create };
    assert!(!should_dispatch(&e, "root"));
}
