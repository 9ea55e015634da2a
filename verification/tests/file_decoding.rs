use std::io::Cursor;

use rustroom::histogram::file_histogram_counts;
use rustroom::metadata::{import_metadata_from_file, metadata_rows};

fn png_bytes(img: image::DynamicImage) -> Vec<u8> {
    let mut out = Cursor::new(Vec::new());
    img.write_to(&mut out, image::ImageFormat::Png).unwrap();
    out.into_inner()
}

fn grey_png() -> Vec<u8> {
    let grey = image::GrayImage::from_raw(3, 2, vec![0, 0, 5, 255, 5, 5]).unwrap();
    png_bytes(image::DynamicImage::ImageLuma8(grey))
}

#[test]
fn histogram_counts_of_a_png_file() {
    let bins = file_histogram_counts("/pics/grey.png", &grey_png()).unwrap();
    assert_eq!(bins.len(), 256);
    assert_eq!(bins[0], 2);
    assert_eq!(bins[5], 3);
    assert_eq!(bins[255], 1);
    assert_eq!(bins.iter().sum::<usize>(), 6);
}

#[test]
fn histogram_counts_need_a_decodable_file() {
    assert_eq!(file_histogram_counts("/pics/grey.png", b"not an image"), None);
    assert_eq!(file_histogram_counts("/pics/grey.jpg", &grey_png()), None);
    assert_eq!(file_histogram_counts("/pics/grey.unknown", &grey_png()), None);
    assert_eq!(file_histogram_counts("/pics/grey", &grey_png()), None);
}

#[test]
fn metadata_from_a_png_file() {
    let rgb = image::RgbImage::new(3, 2);
    let bytes = png_bytes(image::DynamicImage::ImageRgb8(rgb));
    assert_eq!(
        import_metadata_from_file("/a/pic.png", &bytes),
        Some("{\"Format\":\"PNG\",\"Height\":2,\"Width\":3}".to_string())
    );
    assert_eq!(import_metadata_from_file("/a/pic.png", b"garbage"), None);
}

#[test]
fn metadata_rows_of_stored_json() {
    let rows = metadata_rows("{\"width\":4000,\"Make\":\"Canon\",\"list\":[1,2],\"éclat\":null}").unwrap();
    assert_eq!(
        rows,
        vec![
            ("Make:".to_string(), "Canon".to_string()),
            ("List:".to_string(), "[1,2]".to_string()),
            ("Width:".to_string(), "4000".to_string()),
            ("éclat:".to_string(), "null".to_string()),
        ]
    );
}

#[test]
fn metadata_rows_of_other_text() {
    assert_eq!(metadata_rows("{"), None);
    assert_eq!(metadata_rows(""), None);
    assert_eq!(metadata_rows("[1, 2]"), Some(vec![]));
    assert_eq!(metadata_rows("{}"), Some(vec![]));
}

#[test]
fn import_plan_of_a_png_file() {
    let rgb = image::RgbImage::new(40, 20);
    let bytes = png_bytes(image::DynamicImage::ImageRgb8(rgb));
    let plan = rustroom::import::plan_import("/a/holiday.png", &bytes, 1700000000000).unwrap();
    assert_eq!(plan.preview_file_name, "holiday_1700000000000.jpg");
    assert_eq!(plan.metadata_json, "{\"Format\":\"PNG\",\"Height\":20,\"Width\":40}");
    let preview = image::load_from_memory_with_format(&plan.preview_jpeg, image::ImageFormat::Jpeg).unwrap();
    assert_eq!((preview.width(), preview.height()), (1920, 960));
}

#[test]
fn import_plan_fits_the_preview_to_the_frame() {
    let rgb = image::RgbImage::new(3840, 1080);
    let bytes = png_bytes(image::DynamicImage::ImageRgb8(rgb));
    let plan = rustroom::import::plan_import("/a/wide.png", &bytes, 0).unwrap();
    let preview = image::load_from_memory_with_format(&plan.preview_jpeg, image::ImageFormat::Jpeg).unwrap();
    assert_eq!((preview.width(), preview.height()), (1920, 540));
    assert_eq!(plan.metadata_json, "{\"Format\":\"PNG\",\"Height\":1080,\"Width\":3840}");
}

#[test]
fn import_plan_needs_a_decodable_file() {
    assert!(rustroom::import::plan_import("/a/x.png", b"nope", 0).is_none());
    assert!(rustroom::import::plan_import("/a/x", &grey_png(), 0).is_none());
}

#[test]
fn metadata_rows_show_string_content() {
    let rows = metadata_rows("{\"a\":\"x y\",\"b\":\"\",\"c\":true,\"d\":{\"e\":1}}").unwrap();
    assert_eq!(
        rows,
        vec![
            ("A:".to_string(), "x y".to_string()),
            ("B:".to_string(), "".to_string()),
            ("C:".to_string(), "true".to_string()),
            ("D:".to_string(), "{\"e\":1}".to_string()),
        ]
    );
}
