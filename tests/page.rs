use fileshare::page::{file_info_page, file_url, has_prefix, info_page, modified_text, preview_tags};

#[test]
fn prefix_test() {
    assert!(has_prefix("image/png", "image/"));
    assert!(has_prefix("abc", ""));
    assert!(!has_prefix("imag", "image/"));
    assert!(!has_prefix("video/mp4", "image/"));
}

#[test]
fn raw_file_url() {
    assert_eq!(file_url("https://f.example", "abcdefgh.png"), "https://f.example/file/abcdefgh.png");
}

#[test]
fn image_preview_tags() {
    let t = preview_tags("image/png", "U");
    assert!(t.contains("<meta property=\"og:image\" content=\"U\" />"));
    assert!(t.contains("summary_large_image"));
    assert!(!t.contains("og:video"));
}

#[test]
fn video_preview_tags() {
    let t = preview_tags("video/mp4", "U");
    assert!(t.contains("<meta property=\"og:video\" content=\"U\"/>"));
    assert!(t.contains("<meta property=\"og:video:type\" content=\"video/mp4\"/>"));
    assert!(t.contains("twitter:player:stream"));
    assert!(!t.contains("og:image"));
}

#[test]
fn other_types_get_no_preview_tags() {
    assert_eq!(preview_tags("text/plain", "U"), "");
    assert_eq!(preview_tags("application/octet-stream", "U"), "");
}

#[test]
fn modified_time_text() {
    assert_eq!(modified_text(Some(1431648000)), "2015-05-15 00:00:00");
    assert_eq!(modified_text(Some(0)), "1970-01-01 00:00:00");
    assert_eq!(modified_text(Some(-1)), "1969-12-31 23:59:59");
    assert_eq!(modified_text(None), "Unknown");
    assert_eq!(modified_text(Some(i64::MAX)), "Unknown");
}

#[test]
fn page_layout() {
    let p = info_page("n.txt", "U", "text/plain", "1.00 KB", "T");
    assert!(p.starts_with("<!DOCTYPE html>"));
    assert!(p.contains("<title>n.txt</title>"));
    assert!(p.contains("<meta http-equiv=\"refresh\" content=\"0; url=U\" />"));
    assert!(p.contains("content=\"Size: 1.00 KB \u{b7} Last modified: T\""));
    assert!(p.contains("<a href=\"U\" download>"));
    assert!(!p.contains("og:image") && !p.contains("og:video"));
}

#[test]
fn info_page_for_png_has_image_tags() {
    let p = file_info_page("https://f.example", "abcdefgh.png", 1536, Some(0));
    assert!(p.contains("<meta property=\"og:image\" content=\"https://f.example/file/abcdefgh.png\" />"));
    assert!(p.contains("1.50 KB"));
    assert!(p.contains("1970-01-01 00:00:00"));
    assert!(!p.contains("og:video"));
}

#[test]
fn info_page_for_mp4_has_player_tags() {
    let p = file_info_page("https://f.example", "abcdefgh.mp4", 10, None);
    assert!(p.contains("og:video:type\" content=\"video/mp4\""));
    assert!(p.contains("twitter:player:stream\" content=\"https://f.example/file/abcdefgh.mp4\""));
    assert!(p.contains("Unknown"));
    assert!(!p.contains("og:image\""));
}

#[test]
fn info_page_for_text_has_neither() {
    let p = file_info_page("https://f.example", "abcdefgh.txt", 10, None);
    assert!(!p.contains("og:image") && !p.contains("og:video") && !p.contains("twitter:player"));
    let q = file_info_page("https://f.example", "abcdefgh", 10, None);
    assert!(!q.contains("og:image") && !q.contains("og:video"));
}
