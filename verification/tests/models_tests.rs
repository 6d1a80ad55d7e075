use weibo_crawler::models::{Weibo, WeiboPic};
use weibo_crawler::time::parse_weibo_created_at;

fn sample_pic() -> WeiboPic {
    WeiboPic {
        pic_id: "p1".to_string(),
        pic_type: "pic".to_string(),
        url: "https://example.invalid/p1.jpg".to_string(),
        video_url: String::new(),
    }
}

#[test]
fn pic_text_without_video() {
    assert_eq!(
        sample_pic().to_text(),
        "id: p1 type: pic url: https://example.invalid/p1.jpg"
    );
}

#[test]
fn pic_text_with_video() {
    let pic = WeiboPic {
        pic_id: "p2".to_string(),
        pic_type: "live".to_string(),
        url: "https://example.invalid/p2.jpg".to_string(),
        video_url: "https://example.invalid/p2.mp4".to_string(),
    };
    assert_eq!(
        pic.to_text(),
        "id: p2 type: live url: https://example.invalid/p2.jpg video_url: https://example.invalid/p2.mp4"
    );
}

#[test]
fn weibo_text_lists_count_and_media_lines() {
    let w = Weibo {
        text_raw: "hello".to_string(),
        created_at: parse_weibo_created_at("Tue Jan 02 15:04:05 +0800 2024").unwrap(),
        pics: vec![sample_pic(), sample_pic()],
    };
    assert_eq!(
        w.to_text(),
        "created_at: 2024-01-02 15:04:05 +08:00\ntext: hello\n2 pics: \nid: p1 type: pic url: https://example.invalid/p1.jpg\nid: p1 type: pic url: https://example.invalid/p1.jpg"
    );
}

#[test]
fn weibo_text_without_media() {
    let w = Weibo {
        text_raw: "plain".to_string(),
        created_at: parse_weibo_created_at("Mon Jan 01 10:00:00 +0800 2024").unwrap(),
        pics: vec![],
    };
    assert_eq!(
        w.to_text(),
        "created_at: 2024-01-01 10:00:00 +08:00\ntext: plain\n0 pics: \n"
    );
}

#[test]
fn log_block_ends_with_blank_line() {
    let w = Weibo {
        text_raw: "p".to_string(),
        created_at: parse_weibo_created_at("Mon Jan 01 10:00:00 +0800 2024").unwrap(),
        pics: vec![],
    };
    let block = w.to_log_block();
    assert!(block.ends_with("\n\n"));
    assert_eq!(block, format!("{}\n\n", w.to_text()));
}
