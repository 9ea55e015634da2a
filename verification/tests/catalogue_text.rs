use rustroom::import::ImportTally;
use rustroom::library::{album_menu_label, all_photos_label};
use rustroom::metadata::{exif_field_kept, import_metadata_json, metadata_key_label, preview_file_name};
use rustroom::models::AlbumRecord;

#[test]
fn preview_names() {
    assert_eq!(preview_file_name("/photos/IMG_0001.JPG", 1700000000123), "IMG_0001_1700000000123.jpg");
    assert_eq!(preview_file_name("/photos/archive.tar.gz", 5), "archive.tar_5.jpg");
    assert_eq!(preview_file_name("noext", -5), "noext_-5.jpg");
    assert_eq!(preview_file_name("/", 42), "_42.jpg");
}

#[test]
fn exif_filter() {
    assert!(exif_field_kept("Make", "Canon"));
    assert!(!exif_field_kept("MakerNote", "Canon"));
    assert!(!exif_field_kept("UserComment", "hello"));
    assert!(!exif_field_kept("Model", "   \t"));
    assert!(!exif_field_kept("Model", ""));
    assert!(exif_field_kept("makernote", "x"));
}

#[test]
fn metadata_json_of_an_import() {
    let fields = vec![
        ("Make".to_string(), "Canon".to_string()),
        ("MakerNote".to_string(), "xyz".to_string()),
        ("UserComment".to_string(), "hi".to_string()),
        ("Model".to_string(), "  ".to_string()),
        ("ExposureTime".to_string(), "1/200 s".to_string()),
    ];
    let json = import_metadata_json("/a/b/photo.jpeg", 4000, 3000, &fields);
    assert_eq!(
        json,
        "{\"ExposureTime\":\"1/200 s\",\"Format\":\"JPEG\",\"Height\":3000,\"Make\":\"Canon\",\"Width\":4000}"
    );
}

#[test]
fn metadata_later_field_wins_and_no_extension() {
    let fields = vec![
        ("Make".to_string(), "Canon".to_string()),
        ("Make".to_string(), "Nikon".to_string()),
        ("Make".to_string(), " ".to_string()),
    ];
    let json = import_metadata_json("/a/b/photo", 1, 2, &fields);
    assert_eq!(json, "{\"Height\":2,\"Make\":\"Nikon\",\"Width\":1}");
}

#[test]
fn key_labels() {
    assert_eq!(metadata_key_label("width"), "Width:");
    assert_eq!(metadata_key_label("ISO"), "ISO:");
    assert_eq!(metadata_key_label("éclat"), "éclat:");
    assert_eq!(metadata_key_label(""), ":");
    assert_eq!(metadata_key_label("9mm"), "9mm:");
}

#[test]
fn import_tally() {
    let mut t = ImportTally::new();
    assert!(t.all_success);
    assert_eq!(t.record(Some(4), Some(9)), Some((4, 9)));
    assert!(t.all_success);
    assert_eq!(t.record(Some(5), None), None);
    assert_eq!(t.record(None, Some(9)), None);
    assert!(!t.all_success);
    assert_eq!(t.record(Some(6), Some(9)), Some((6, 9)));
    assert!(!t.all_success);
}

#[test]
fn menu_labels() {
    let album = AlbumRecord { id: 3, name: "Holidays".to_string() };
    assert_eq!(album_menu_label(&album, Some(3)), "★ Holidays");
    assert_eq!(album_menu_label(&album, Some(4)), "Holidays");
    assert_eq!(album_menu_label(&album, None), "Holidays");
    assert_eq!(all_photos_label(None), "★ All Photos");
    assert_eq!(all_photos_label(Some(3)), "🖼 All Photos");
}
