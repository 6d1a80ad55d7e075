use weibo_crawler::download::{download_outcome, file_name_of_url, media_file_path};
use weibo_crawler::error::ErrorKind;

#[test]
fn file_name_is_last_segment_without_query() {
    assert_eq!(
        file_name_of_url("https://example.invalid/img/large/abc123.jpg?Expires=9"),
        "abc123.jpg"
    );
}

#[test]
fn file_name_without_query() {
    assert_eq!(file_name_of_url("https://example.invalid/a/b.png"), "b.png");
}

#[test]
fn file_name_without_slash() {
    assert_eq!(file_name_of_url("plain.bin?x=1"), "plain.bin");
    assert_eq!(file_name_of_url("plain.bin"), "plain.bin");
}

#[test]
fn file_name_of_trailing_slash_is_empty() {
    assert_eq!(file_name_of_url("https://example.invalid/dir/"), "");
}

#[test]
fn media_path_joins_directory_and_name() {
    assert_eq!(
        media_file_path("data/medias", "https://example.invalid/x/y.gif?t=0"),
        "data/medias/y.gif"
    );
}

#[test]
fn download_success_statuses() {
    assert!(download_outcome(200).is_ok());
    assert!(download_outcome(204).is_ok());
}

#[test]
fn download_failure_is_download_error() {
    let e = download_outcome(403).unwrap_err();
    assert_eq!(e.kind, ErrorKind::Download);
    assert_eq!(e.describe(), "download error: bad download status 403");
}
