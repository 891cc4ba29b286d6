use multiroom::search::{initial_data, search_url, song_for, thumbnail_url, videos_in_page, SearchError};

const PAGE: &str = r#"<html><script>var ytInitialData = {"contents":{"twoColumnSearchResultsRenderer":{"primaryContents":{"sectionListRenderer":{"contents":[{"itemSectionRenderer":{"contents":[{"videoRenderer":{"videoId":"abc","title":{"runs":[{"text":"First"}]}}},{"adRenderer":{}},{"videoRenderer":{"videoId":"def","title":{"runs":[{"text":"Second"},{"text":"x"}]}}},{"videoRenderer":{"videoId":"ghi"}}]}}]}}}}};</script></html>"#;

#[test]
fn search_url_is_percent_encoded() {
    assert_eq!(search_url("lo-fi beats & chill"), "https://www.youtube.com/results?search_query=lo-fi%20beats%20%26%20chill");
    assert_eq!(search_url(""), "https://www.youtube.com/results?search_query=");
}

#[test]
fn initial_data_is_found() {
    let d = initial_data("x var ytInitialData = {\"a\":1}; y").unwrap();
    assert_eq!(d, "{\"a\":1}");
    assert!(initial_data("nothing here").is_none());
}

#[test]
fn videos_are_read_in_order() {
    let v = videos_in_page(PAGE).unwrap();
    assert_eq!(v, vec![("abc".to_string(), "First".to_string()), ("def".to_string(), "Second".to_string())]);
}

#[test]
fn page_errors_are_told_apart() {
    assert_eq!(videos_in_page("<html></html>"), Err(SearchError::NoInitialData));
    assert_eq!(videos_in_page("var ytInitialData = {\"contents\":{}};"), Err(SearchError::NoVideoArray));
    assert_eq!(videos_in_page("var ytInitialData = {nope};"), Err(SearchError::InvalidJson));
    assert_eq!(SearchError::NoVideoArray.message(), "Failed to extract video array");
}

#[test]
fn song_inlines_thumbnail() {
    let s = song_for("abc", "First", b"hi!");
    assert_eq!(s.url, "https://www.youtube.com/watch?v=abc");
    assert_eq!(s.title, "First");
    assert_eq!(s.thumbnail_b64, "data:image/jpeg;base64,aGkh");
    assert_eq!(thumbnail_url("abc"), "https://i.ytimg.com/vi/abc/mqdefault.jpg");
}

#[test]
fn encodings_follow_the_byte_rules() {
    assert_eq!(search_url("é~a.b_c-d"), "https://www.youtube.com/results?search_query=%C3%A9~a.b_c-d");
    assert_eq!(song_for("v", "t", b"h").thumbnail_b64, "data:image/jpeg;base64,aA==");
    assert_eq!(song_for("v", "t", b"hi").thumbnail_b64, "data:image/jpeg;base64,aGk=");
    assert_eq!(song_for("v", "t", &[0xfb, 0xff]).thumbnail_b64, "data:image/jpeg;base64,+/8=");
    assert_eq!(song_for("v", "t", b"").thumbnail_b64, "data:image/jpeg;base64,");
}
