use trailerfin::scrape::Anchor;
use trailerfin::scrape::VideoCandidate;
use trailerfin::scrape::choose_video_anchor;
use trailerfin::scrape::get_direct_video_url_from_page;
use trailerfin::scrape::get_trailer_video_page_url;
use trailerfin::scrape::select_playback_url;

fn cand(definition: Option<&str>, mime: Option<&str>, url: Option<&str>) -> VideoCandidate {
    VideoCandidate {
        definition: definition.map(|s| s.to_string()),
        mime_type: mime.map(|s| s.to_string()),
        url: url.map(|s| s.to_string()),
    }
}

#[test]
fn test_quality_selection_prefers_1080_mp4() {
    let cands = vec![
        cand(Some("480p"), Some("MP4"), Some("https://v/480")),
        cand(Some("1080p"), Some("MP4"), Some("https://v/1080")),
        cand(Some("720p"), Some("MP4"), Some("https://v/720")),
        cand(Some("1080p"), Some("WEBM"), Some("https://v/1080w")),
    ];
    assert_eq!(select_playback_url(&cands), Some("https://v/1080#t=8".to_string()));
}

#[test]
fn test_quality_selection_unlabelled_mp4_is_selected() {
    let cands = vec![cand(None, Some("MP4"), Some("https://v/any"))];
    assert_eq!(select_playback_url(&cands), Some("https://v/any#t=8".to_string()));
}

#[test]
fn test_quality_selection_falls_back_to_first_raw_entry() {
    let cands = vec![
        cand(Some("1080p"), Some("WEBM"), Some("https://v/first")),
        cand(Some("720p"), Some("WEBM"), Some("https://v/second")),
    ];
    assert_eq!(select_playback_url(&cands), Some("https://v/first#t=8".to_string()));
}

#[test]
fn test_quality_selection_empty_list_selects_nothing() {
    assert_eq!(select_playback_url(&Vec::new()), None);
}

#[test]
fn test_quality_selection_later_equal_rank_wins() {
    let cands = vec![
        cand(Some("720p"), Some("MP4"), Some("https://v/a")),
        cand(Some("720p"), Some("MP4"), Some("https://v/b")),
    ];
    assert_eq!(select_playback_url(&cands), Some("https://v/b#t=8".to_string()));
}

fn anchor(text: &str, href: Option<&str>) -> Anchor {
    Anchor { text: text.to_string(), href: href.map(|s| s.to_string()) }
}

#[test]
fn test_anchor_choice_prefers_trailer_text() {
    let anchors = vec![
        anchor("Some clip", Some("/video/vi1/")),
        anchor("Official TRAILER", Some("/video/vi2/")),
    ];
    assert_eq!(choose_video_anchor(&anchors), Some("/video/vi2/".to_string()));
}

#[test]
fn test_anchor_choice_falls_back_to_first_anchor() {
    let anchors = vec![
        anchor("Some clip", Some("/video/vi1/")),
        anchor("Another clip", Some("/video/vi2/")),
    ];
    assert_eq!(choose_video_anchor(&anchors), Some("/video/vi1/".to_string()));
}

#[test]
fn test_anchor_choice_empty_list_selects_nothing() {
    assert_eq!(choose_video_anchor(&Vec::new()), None);
}

#[test]
fn test_listing_page_extraction_prefers_trailer_anchor() {
    let html = "<html><body>\
        <a href=\"/video/vi111/\">Clip of the week</a>\
        <a href=\"/video/vi222/\">Official Trailer</a>\
        <a href=\"/other/\">Trailer elsewhere</a>\
        </body></html>";
    assert_eq!(get_trailer_video_page_url(html), Some("/video/vi222/".to_string()));
}

#[test]
fn test_listing_page_without_video_anchor_yields_nothing() {
    let html = "<html><body><a href=\"/elsewhere/\">Trailer</a></body></html>";
    assert_eq!(get_trailer_video_page_url(html), None);
}

#[test]
fn test_detail_page_extraction_selects_best_candidate() {
    let html = "<html><head><script id=\"__NEXT_DATA__\" type=\"application/json\">\
{\"props\":{\"pageProps\":{\"videoPlaybackData\":{\"video\":{\"playbackURLs\":[\
{\"videoMimeType\":\"MP4\",\"videoDefinition\":\"480p\",\"url\":\"https://x/low.mp4\"},\
{\"videoMimeType\":\"MP4\",\"videoDefinition\":\"1080p\",\"url\":\"https://x/a.mp4\"}\
]}}}}}\
</script></head><body></body></html>";
    let r = get_direct_video_url_from_page(html).unwrap();
    assert_eq!(r, Some("https://x/a.mp4#t=8".to_string()));
}

#[test]
fn test_detail_page_without_data_block_yields_nothing() {
    let html = "<html><body>no data here</body></html>";
    assert_eq!(get_direct_video_url_from_page(html).unwrap(), None);
}

#[test]
fn test_detail_page_with_broken_json_is_an_error() {
    let html = "<html><head><script id=\"__NEXT_DATA__\">{not json</script></head></html>";
    assert!(get_direct_video_url_from_page(html).is_err());
}
