use file_organizer::organizer::{
    has_duplicate_in, organize, Folder, Outcome, RootDir, StoredFile,
};
use file_organizer::rules::FileRule;

fn file(name: &str, bytes: &[u8]) -> StoredFile {
    StoredFile { name: name.to_string(), bytes: bytes.to_vec() }
}

fn jpg_rules() -> Vec<FileRule> {
    vec![FileRule { extension: "jpg".to_string(), folder: "Images".to_string() }]
}

#[test]
fn new_file_is_moved_into_a_fresh_folder() {
    let mut root = RootDir { files: vec![file("photo.jpg", b"pixels")], folders: Vec::new() };
    let o = organize(&mut root, "photo.jpg", &jpg_rules());
    match o {
        Outcome::Moved(folder) => assert_eq!(folder, "Images"),
        _ => panic!("expected a move"),
    }
    assert!(root.files.is_empty());
    assert_eq!(root.folders.len(), 1);
    assert_eq!(root.folders[0].name, "Images");
    assert_eq!(root.folders[0].files.len(), 1);
    assert_eq!(root.folders[0].files[0].name, "photo.jpg");
    assert_eq!(root.folders[0].files[0].bytes, b"pixels".to_vec());
}

#[test]
fn identical_content_is_quarantined() {
    let mut root = RootDir {
        files: vec![file("new.jpg", b"same pixels")],
        folders: vec![Folder { name: "Images".to_string(), files: vec![file("old.jpg", b"same pixels")] }],
    };
    let o = organize(&mut root, "new.jpg", &jpg_rules());
    assert!(matches!(o, Outcome::Quarantined));
    assert!(root.files.is_empty());
    assert_eq!(root.folders.len(), 2);
    assert_eq!(root.folders[0].name, "Images");
    assert_eq!(root.folders[0].files.len(), 1);
    assert_eq!(root.folders[0].files[0].name, "old.jpg");
    assert_eq!(root.folders[1].name, "Duplicates");
    assert_eq!(root.folders[1].files.len(), 1);
    assert_eq!(root.folders[1].files[0].name, "new.jpg");
}

#[test]
fn content_differing_by_one_byte_is_moved_not_quarantined() {
    let mut root = RootDir {
        files: vec![file("new.jpg", b"pixels B")],
        folders: vec![Folder { name: "Images".to_string(), files: vec![file("old.jpg", b"pixels A")] }],
    };
    let o = organize(&mut root, "new.jpg", &jpg_rules());
    assert!(matches!(o, Outcome::Moved(_)));
    assert_eq!(root.folders.len(), 1);
    assert_eq!(root.folders[0].files.len(), 2);
    assert_eq!(root.folders[0].files[1].name, "new.jpg");
}

#[test]
fn transient_file_stays_put_and_creates_nothing() {
    let mut root = RootDir { files: vec![file("draft.tmp", b"half written")], folders: Vec::new() };
    let o = organize(&mut root, "draft.tmp", &jpg_rules());
    assert!(matches!(o, Outcome::Ignored));
    assert_eq!(root.files.len(), 1);
    assert_eq!(root.files[0].name, "draft.tmp");
    assert!(root.folders.is_empty());
}

#[test]
fn unmatched_file_stays_put() {
    let mut root =
        RootDir { files: vec![file("archive.unknownext", b"data")], folders: Vec::new() };
    let o = organize(&mut root, "archive.unknownext", &jpg_rules());
    assert!(matches!(o, Outcome::Unhandled));
    assert_eq!(root.files.len(), 1);
    assert_eq!(root.files[0].name, "archive.unknownext");
    assert!(root.folders.is_empty());
}

#[test]
fn second_event_for_a_moved_file_is_a_noop() {
    let mut root = RootDir { files: vec![file("photo.jpg", b"pixels")], folders: Vec::new() };
    let rules = jpg_rules();
    let first = organize(&mut root, "photo.jpg", &rules);
    assert!(matches!(first, Outcome::Moved(_)));
    let second = organize(&mut root, "photo.jpg", &rules);
    assert!(matches!(second, Outcome::Missing));
    assert!(root.files.is_empty());
    assert_eq!(root.folders.len(), 1);
    assert_eq!(root.folders[0].files.len(), 1);
}

#[test]
fn duplicate_scan_finds_identical_bytes_under_another_name() {
    let folder_files = vec![file("a.jpg", b"known bytes")];
    assert!(has_duplicate_in(&folder_files, &b"known bytes".to_vec()));
    assert!(!has_duplicate_in(&folder_files, &b"known byteZ".to_vec()));
}

#[test]
fn quarantine_reuses_an_existing_duplicates_folder() {
    let mut root = RootDir {
        files: vec![file("new.jpg", b"same")],
        folders: vec![
            Folder { name: "Duplicates".to_string(), files: vec![file("earlier.jpg", b"x")] },
            Folder { name: "Images".to_string(), files: vec![file("old.jpg", b"same")] },
        ],
    };
    let o = organize(&mut root, "new.jpg", &jpg_rules());
    assert!(matches!(o, Outcome::Quarantined));
    assert_eq!(root.folders.len(), 2);
    assert_eq!(root.folders[0].name, "Duplicates");
    assert_eq!(root.folders[0].files.len(), 2);
    assert_eq!(root.folders[0].files[1].name, "new.jpg");
}
