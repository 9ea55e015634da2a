use rustroom::models::{ImageRecord, UtcInstant};
use rustroom::paths::{find_image_by_path, gallery_url, histogram_source, load_image, strip_file_scheme};

fn record(id: i64, path: &str) -> ImageRecord {
    ImageRecord::from_columns(id, path.to_string(), format!("{}.prev", path), "2024-01-02T03:04:05Z", "{}".to_string())
}

#[test]
fn strips_file_scheme_only() {
    assert_eq!(strip_file_scheme("file:///home/me/a.jpg"), "/home/me/a.jpg");
    assert_eq!(strip_file_scheme("/home/me/a.jpg"), "/home/me/a.jpg");
    assert_eq!(strip_file_scheme("file:/x"), "file:/x");
    assert_eq!(strip_file_scheme("file://"), "");
}

#[test]
fn histogram_sources() {
    assert_eq!(histogram_source("file:///p/q.png"), Some("/p/q.png"));
    assert_eq!(histogram_source("http://example.com/a.png"), None);
    assert_eq!(histogram_source("https://example.com/a.png"), None);
    assert_eq!(histogram_source("/local/a.png"), Some("/local/a.png"));
    assert_eq!(histogram_source("file://http"), Some("http"));
}

#[test]
fn gallery_url_round_trip() {
    let url = gallery_url("/x/y.png");
    assert_eq!(url, "file:///x/y.png");
    assert_eq!(strip_file_scheme(&url), "/x/y.png");
}

#[test]
fn finds_first_record_with_path() {
    let gallery = vec![record(1, "/a.jpg"), record(2, "/b.jpg"), record(3, "/b.jpg")];
    assert_eq!(find_image_by_path(&gallery, "/b.jpg"), Some(1));
    assert_eq!(find_image_by_path(&gallery, "/a.jpg"), Some(0));
    assert_eq!(find_image_by_path(&gallery, "/c.jpg"), None);
    let url = gallery_url(&gallery[2].original_path);
    assert_eq!(find_image_by_path(&gallery, strip_file_scheme(&url)), Some(1));
}

#[test]
fn missing_image_does_not_load() {
    assert!(load_image("file:///nonexistent/dir/photo.png").is_none());
    assert!(load_image("").is_none());
}

#[test]
fn import_times() {
    assert_eq!(UtcInstant::from_rfc3339_or_epoch("2024-01-02T03:04:05Z"), UtcInstant { seconds: 1704164645, nanos: 0 });
    assert_eq!(UtcInstant::from_rfc3339_or_epoch("1996-12-19T16:39:57-08:00"), UtcInstant { seconds: 851042397, nanos: 0 });
    assert_eq!(
        UtcInstant::from_rfc3339_or_epoch("2024-01-02T03:04:05.5+01:00"),
        UtcInstant { seconds: 1704161045, nanos: 500_000_000 }
    );
    assert_eq!(UtcInstant::from_rfc3339_or_epoch("yesterday"), UtcInstant { seconds: 0, nanos: 0 });
    assert_eq!(UtcInstant::from_rfc3339_or_epoch(""), UtcInstant { seconds: 0, nanos: 0 });
}

#[test]
fn record_from_columns() {
    let r = ImageRecord::from_columns(9, "/o.jpg".to_string(), "/p.jpg".to_string(), "bad", "{\"Width\":1}".to_string());
    assert_eq!(r.id, 9);
    assert_eq!(r.original_path, "/o.jpg");
    assert_eq!(r.preview_path, "/p.jpg");
    assert_eq!(r.imported_at, UtcInstant { seconds: 0, nanos: 0 });
    assert_eq!(r.metadata_json, "{\"Width\":1}");
}
