use weibo_crawler::error::ErrorKind;
use weibo_crawler::feed::{extract_posts, posts_from_response};
use weibo_crawler::json::JsonValue;

// Three posts, newest first, as the feed returns them. The newest one
// carries two media items; the second one declares identifiers but has
// no descriptor map.
const FEED_BODY: &str = "{\"data\":{\"list\":[{\"text_raw\":\"third\",\"created_at\":\"Wed Jan 03 08:30:00 +0800 2024\",\"pic_ids\":[\"p1\",\"p2\"],\"pic_infos\":{\"p1\":{\"largest\":{\"url\":\"https://example.invalid/img/p1.jpg?x=1\"},\"type\":\"pic\"},\"p2\":{\"largest\":{\"url\":\"https://example.invalid/img/p2.jpg\"},\"type\":\"live\",\"video\":\"https://example.invalid/vid/p2.mp4\"}}},{\"text_raw\":\"second\",\"created_at\":\"Tue Jan 02 15:04:05 +0800 2024\",\"pic_ids\":[\"q1\"]},{\"text_raw\":\"first\",\"created_at\":\"Mon Jan 01 10:00:00 +0800 2024\",\"pic_ids\":[]}]}}";

#[test]
fn feed_extracts_posts_in_list_order() {
    let posts = posts_from_response(200, FEED_BODY, 5).unwrap();
    assert_eq!(posts.len(), 3);
    assert_eq!(posts[0].text_raw, "third");
    assert_eq!(posts[1].text_raw, "second");
    assert_eq!(posts[2].text_raw, "first");
}

#[test]
fn feed_resolves_media_descriptors() {
    let posts = posts_from_response(200, FEED_BODY, 5).unwrap();
    let pics = &posts[0].pics;
    assert_eq!(pics.len(), 2);
    assert_eq!(pics[0].pic_id, "p1");
    assert_eq!(pics[0].pic_type, "pic");
    assert_eq!(pics[0].url, "https://example.invalid/img/p1.jpg?x=1");
    assert_eq!(pics[1].url, "https://example.invalid/img/p2.jpg");
    assert_eq!(pics[1].video_url, "https://example.invalid/vid/p2.mp4");
}

#[test]
fn media_without_video_field_gets_empty_secondary_url() {
    let posts = posts_from_response(200, FEED_BODY, 5).unwrap();
    // `p1` has no `video` field: the secondary URL is the empty string,
    // not an absent value.
    assert_eq!(posts[0].pics[0].video_url, "");
}

#[test]
fn declared_ids_without_descriptor_map_yield_zero_media() {
    let posts = posts_from_response(200, FEED_BODY, 5).unwrap();
    // The second post declares `q1` but has no descriptor map.
    assert_eq!(posts[1].pics.len(), 0);
}

#[test]
fn max_count_takes_from_the_front() {
    let posts = posts_from_response(200, FEED_BODY, 2).unwrap();
    assert_eq!(posts.len(), 2);
    assert_eq!(posts[0].text_raw, "third");
    assert_eq!(posts[1].text_raw, "second");
}

#[test]
fn one_invalid_post_fails_the_whole_fetch() {
    // The middle post lacks `text_raw`: nothing is extracted, not even
    // the well-formed posts around it.
    let body = "{\"data\":{\"list\":[{\"text_raw\":\"ok\",\"created_at\":\"Wed Jan 03 08:30:00 +0800 2024\",\"pic_ids\":[]},{\"created_at\":\"Tue Jan 02 15:04:05 +0800 2024\",\"pic_ids\":[]},{\"text_raw\":\"also ok\",\"created_at\":\"Mon Jan 01 10:00:00 +0800 2024\",\"pic_ids\":[]}]}}";
    let e = posts_from_response(200, body, 5).unwrap_err();
    assert_eq!(e.kind, ErrorKind::Fetch);
    assert_eq!(e.cause, "failed to get text_raw");
}

#[test]
fn bad_status_is_fetch_error_with_status() {
    let e = posts_from_response(404, FEED_BODY, 5).unwrap_err();
    assert_eq!(e.kind, ErrorKind::Fetch);
    assert_eq!(e.cause, "bad feed status 404");
}

#[test]
fn unparsable_body_is_fetch_error() {
    let e = posts_from_response(200, "<html></html>", 5).unwrap_err();
    assert_eq!(e.kind, ErrorKind::Fetch);
    assert_eq!(e.cause, "malformed feed response");
}

#[test]
fn missing_list_is_fetch_error() {
    let e = posts_from_response(200, "{\"data\":{}}", 5).unwrap_err();
    assert_eq!(e.cause, "failed to get list");
}

#[test]
fn bad_created_at_is_fetch_error() {
    let body = "{\"data\":{\"list\":[{\"text_raw\":\"x\",\"created_at\":\"yesterday\",\"pic_ids\":[]}]}}";
    let e = posts_from_response(200, body, 5).unwrap_err();
    assert_eq!(e.kind, ErrorKind::Fetch);
    assert_eq!(e.cause, "invalid created_at");
}

#[test]
fn unresolved_descriptor_is_fetch_error() {
    let body = "{\"data\":{\"list\":[{\"text_raw\":\"x\",\"created_at\":\"Mon Jan 01 10:00:00 +0800 2024\",\"pic_ids\":[\"p9\"],\"pic_infos\":{}}]}}";
    let e = posts_from_response(200, body, 5).unwrap_err();
    assert_eq!(e.cause, "failed to get pic_info");
}

fn str_v(s: &str) -> JsonValue {
    JsonValue::Str(s.to_string())
}

#[test]
fn extract_posts_on_built_tree() {
    let post = JsonValue::Object(vec![
        ("text_raw".to_string(), str_v("built")),
        ("created_at".to_string(), str_v("Mon Jan 01 10:00:00 +0800 2024")),
        ("pic_ids".to_string(), JsonValue::Array(vec![str_v("a")])),
        // A descriptor map that is not an object behaves as an absent one.
        ("pic_infos".to_string(), JsonValue::Null),
    ]);
    let v = JsonValue::Object(vec![(
        "data".to_string(),
        JsonValue::Object(vec![("list".to_string(), JsonValue::Array(vec![post]))]),
    )]);
    let posts = extract_posts(&v, 5).unwrap();
    assert_eq!(posts.len(), 1);
    assert_eq!(posts[0].text_raw, "built");
    assert_eq!(posts[0].pics.len(), 0);
}

#[test]
fn extract_posts_rejects_non_string_pic_id() {
    let post = JsonValue::Object(vec![
        ("text_raw".to_string(), str_v("x")),
        ("created_at".to_string(), str_v("Mon Jan 01 10:00:00 +0800 2024")),
        ("pic_ids".to_string(), JsonValue::Array(vec![JsonValue::Number])),
    ]);
    let v = JsonValue::Object(vec![(
        "data".to_string(),
        JsonValue::Object(vec![("list".to_string(), JsonValue::Array(vec![post]))]),
    )]);
    let e = extract_posts(&v, 5).unwrap_err();
    assert_eq!(e.cause, "failed to get pic_id");
}
