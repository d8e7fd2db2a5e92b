use shorts_watch::extract::{classify_line, extract_video_id};
use shorts_watch::pipeline::detect_in_line;

#[test]
fn extracts_id_from_shorts_url() {
    assert_eq!(extract_video_id("https://www.youtube.com/shorts/abc_1-Z?feature=share").as_deref(), Some("abc_1-Z"));
}

#[test]
fn extract_is_total() {
    for s in ["", "not a url", "youtube.com/shorts/", "youtube.com/shorts/?x", "youtube.com/watch?v=abc", "\u{0}\u{ffff}(((", "youtube.com/shorts/é"] {
        assert_eq!(extract_video_id(s), None, "input {:?}", s);
    }
}

#[test]
fn extract_takes_leftmost_marker_with_id() {
    assert_eq!(
        extract_video_id("youtube.com/shorts//youtube.com/shorts/first youtube.com/shorts/second").as_deref(),
        Some("first")
    );
}

#[test]
fn sidecar_line_yields_url() {
    assert_eq!(
        classify_line("INFO scanned https://youtube.com/shorts/xyz789 done").as_deref(),
        Some("https://youtube.com/shorts/xyz789")
    );
    let d = detect_in_line("INFO scanned https://youtube.com/shorts/xyz789 done").unwrap();
    assert_eq!(d.url, "https://youtube.com/shorts/xyz789");
    assert_eq!(d.video_id.as_deref(), Some("xyz789"));
}

#[test]
fn sidecar_line_without_url() {
    assert_eq!(classify_line("DEBUG heartbeat"), None);
    assert_eq!(classify_line(""), None);
    assert!(detect_in_line("http:/ broken").is_none());
}

#[test]
fn sidecar_url_to_end_of_line() {
    assert_eq!(classify_line("see http://example.org/x").as_deref(), Some("http://example.org/x"));
    let d = detect_in_line("see http://example.org/x").unwrap();
    assert_eq!(d.video_id, None);
}
