use fileshare::names::{file_extension, is_safe_name, new_stored_filename, storage_path, stored_filename};

fn is_id_char(c: char) -> bool {
    c.is_ascii_alphanumeric() || c == '_' || c == '-'
}

#[test]
fn extension_is_after_last_dot() {
    assert_eq!(file_extension("photo.png"), Some("png"));
    assert_eq!(file_extension("archive.tar.gz"), Some("gz"));
    assert_eq!(file_extension("dir.d/clip.mp4"), Some("mp4"));
}

#[test]
fn trailing_separators_and_dot_components_are_ignored() {
    assert_eq!(file_extension("x.png/"), Some("png"));
    assert_eq!(file_extension("x.png/."), Some("png"));
    assert_eq!(file_extension("x.png//./"), Some("png"));
    assert_eq!(file_extension("d/x.png/./."), Some("png"));
    assert_eq!(file_extension("x.png/.."), None);
    assert_eq!(file_extension("/"), None);
    assert_eq!(file_extension("."), None);
    assert_eq!(file_extension("x.png/.b"), None);
    assert_eq!(stored_filename("abcd_-12", "x.png/"), "abcd_-12.png");
}

#[test]
fn names_without_extension() {
    assert_eq!(file_extension("README"), None);
    assert_eq!(file_extension(".bashrc"), None);
    assert_eq!(file_extension("trailing."), None);
    assert_eq!(file_extension("dir.d/file"), None);
    assert_eq!(file_extension(""), None);
    assert_eq!(file_extension(".."), None);
}

#[test]
fn stored_filename_keeps_extension() {
    assert_eq!(stored_filename("abcd_-12", "photo.png"), "abcd_-12.png");
    assert_eq!(stored_filename("abcd_-12", "README"), "abcd_-12");
    assert_eq!(stored_filename("abcd_-12", "x.tar.gz"), "abcd_-12.gz");
}

#[test]
fn new_name_preserves_extension() {
    let n = new_stored_filename("photo.png");
    assert_eq!(n.len(), 12);
    assert!(n.ends_with(".png"));
    assert!(n[..8].chars().all(is_id_char));
}

#[test]
fn new_name_without_extension_has_no_dot() {
    let n = new_stored_filename("notes");
    assert_eq!(n.len(), 8);
    assert!(!n.contains('.'));
    assert!(n.chars().all(is_id_char));
}

#[test]
fn new_names_are_random() {
    assert_ne!(new_stored_filename("a.txt"), new_stored_filename("a.txt"));
}

#[test]
fn new_names_are_safe() {
    for orig in ["photo.png", "x", "../../etc/passwd", "a.b/c.d"] {
        assert!(is_safe_name(&new_stored_filename(orig)));
    }
}

#[test]
fn unsafe_names_are_refused() {
    for name in ["", ".", "..", "../secret", "a/b", "a\\b", "..\\x", "x..y", "/etc/passwd"] {
        assert!(!is_safe_name(name), "{}", name);
        assert_eq!(storage_path(name), None);
    }
}

#[test]
fn safe_names_map_into_upload_dir() {
    assert!(is_safe_name("abcdefgh.png"));
    assert!(is_safe_name(".hidden"));
    assert_eq!(storage_path("abcdefgh.png"), Some("./uploads/abcdefgh.png".to_string()));
}
