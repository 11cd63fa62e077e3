use trailerfin::freshness::artifact_expiry_of;
use trailerfin::freshness::is_strm_expired;

fn content(s: &str) -> Option<String> {
    Some(s.to_string())
}

#[test]
fn test_expired_strm_file_with_expired_timestamp() {
    let url = format!("https://video.test/video.mp4?Expires={}\n", 100);
    assert!(is_strm_expired(&content(&url), 200));
}

#[test]
fn test_valid_strm_file_with_future_expiry() {
    let url = format!("https://video.test/video.mp4?Expires={}\n", 99999);
    assert!(!is_strm_expired(&content(&url), 100));
}

#[test]
fn test_strm_file_missing_expiry() {
    assert!(is_strm_expired(&content("https://video.test/video.mp4\n"), 0));
}

#[test]
fn test_strm_file_missing_entirely() {
    assert!(is_strm_expired(&None, 0));
}

#[test]
fn test_expiry_boundary_is_expired_at_exact_time() {
    let url = "https://video.test/video.mp4?Expires=500";
    assert!(is_strm_expired(&content(url), 500));
    assert!(!is_strm_expired(&content(url), 499));
}

#[test]
fn test_unparsable_expires_value_counts_as_expired() {
    assert!(is_strm_expired(&content("https://v.test/a.mp4?Expires=abc"), 0));
}

#[test]
fn test_later_parsable_expires_pair_wins() {
    let url = "https://v.test/a.mp4?Expires=abc&Expires=900";
    assert_eq!(artifact_expiry_of(&url.as_bytes().to_vec()), Some(900));
}

#[test]
fn test_expires_in_fragment_does_not_count() {
    assert!(is_strm_expired(&content("https://v.test/a.mp4#Expires=99999"), 0));
}

#[test]
fn test_first_expires_pair_wins() {
    let url = "https://v.test/a.mp4?Expires=7&other=1&Expires=9";
    assert_eq!(artifact_expiry_of(&url.as_bytes().to_vec()), Some(7));
}

#[test]
fn test_surrounding_whitespace_is_tolerated() {
    assert!(!is_strm_expired(&content("  https://v.test/a.mp4?Expires=42  \n"), 41));
}
