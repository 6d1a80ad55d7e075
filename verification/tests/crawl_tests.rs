use weibo_crawler::crawl::{cycle_plan, INITIAL_WATERMARK};
use weibo_crawler::download::download_outcome;
use weibo_crawler::error::CrawlError;
use weibo_crawler::feed::posts_from_response;
use weibo_crawler::models::Weibo;

// Three posts, newest first; the newest carries two media items.
const FEED_BODY: &str = "{\"data\":{\"list\":[{\"text_raw\":\"third\",\"created_at\":\"Wed Jan 03 08:30:00 +0800 2024\",\"pic_ids\":[\"p1\",\"p2\"],\"pic_infos\":{\"p1\":{\"largest\":{\"url\":\"https://example.invalid/img/p1.jpg\"},\"type\":\"pic\"},\"p2\":{\"largest\":{\"url\":\"https://example.invalid/img/p2.jpg\"},\"type\":\"pic\"}}},{\"text_raw\":\"second\",\"created_at\":\"Tue Jan 02 15:04:05 +0800 2024\",\"pic_ids\":[]},{\"text_raw\":\"first\",\"created_at\":\"Mon Jan 01 10:00:00 +0800 2024\",\"pic_ids\":[]}]}}";

fn fetch_posts() -> Vec<Weibo> {
    posts_from_response(200, FEED_BODY, 5).unwrap()
}

#[test]
fn one_cycle_commits_oldest_first_and_advances_watermark() {
    let plan = cycle_plan(Ok(fetch_posts()), INITIAL_WATERMARK);
    assert_eq!(plan.new_posts.len(), 3);
    assert_eq!(plan.new_posts[0].text_raw, "first");
    assert_eq!(plan.new_posts[1].text_raw, "second");
    assert_eq!(plan.new_posts[2].text_raw, "third");
    // 2024-01-03 08:30:00 +08:00 as seconds since the epoch.
    assert_eq!(plan.new_watermark, 1704241800);
    assert_eq!(plan.new_watermark, plan.new_posts[2].created_at.instant());
}

#[test]
fn watermark_is_non_decreasing_across_cycles() {
    let plan1 = cycle_plan(Ok(fetch_posts()), INITIAL_WATERMARK);
    assert!(plan1.new_watermark >= INITIAL_WATERMARK);
    let plan2 = cycle_plan(Ok(fetch_posts()), plan1.new_watermark);
    assert!(plan2.new_watermark >= plan1.new_watermark);
}

#[test]
fn unchanged_feed_commits_nothing_again() {
    // Idempotence: a second cycle over the same feed response plans zero
    // appends and zero download attempts.
    let plan1 = cycle_plan(Ok(fetch_posts()), INITIAL_WATERMARK);
    let plan2 = cycle_plan(Ok(fetch_posts()), plan1.new_watermark);
    assert_eq!(plan2.new_posts.len(), 0);
    assert_eq!(plan2.new_watermark, plan1.new_watermark);
}

#[test]
fn only_posts_newer_than_watermark_are_committed() {
    let posts = fetch_posts();
    let t2 = posts[1].created_at.instant();
    let plan = cycle_plan(Ok(posts), t2);
    assert_eq!(plan.new_posts.len(), 1);
    assert_eq!(plan.new_posts[0].text_raw, "third");
}

#[test]
fn failed_fetch_leaves_watermark_untouched() {
    let plan = cycle_plan(Err(CrawlError::fetch("bad feed status 500")), INITIAL_WATERMARK);
    assert_eq!(plan.new_posts.len(), 0);
    assert_eq!(plan.new_watermark, INITIAL_WATERMARK);
}

#[test]
fn one_failed_download_does_not_drop_remaining_media() {
    // The plan lists every media item of a committed post; a failing
    // download classifies as an error on its own item only, and the
    // caller goes on with the next one.
    let plan = cycle_plan(Ok(fetch_posts()), INITIAL_WATERMARK);
    let pics = &plan.new_posts[2].pics;
    assert_eq!(pics.len(), 2);
    let first = download_outcome(404);
    assert!(first.is_err());
    assert_eq!(first.unwrap_err().cause, "bad download status 404");
    assert!(download_outcome(200).is_ok());
    // Both URLs are still there to try, whatever the first returned.
    assert_eq!(pics[0].url, "https://example.invalid/img/p1.jpg");
    assert_eq!(pics[1].url, "https://example.invalid/img/p2.jpg");
}

#[test]
fn initial_watermark_is_far_in_the_past() {
    // 2000-01-01 01:01:01 UTC.
    assert_eq!(INITIAL_WATERMARK, 946688461);
    let plan = cycle_plan(Ok(fetch_posts()), INITIAL_WATERMARK);
    assert!(plan.new_watermark > INITIAL_WATERMARK);
}
