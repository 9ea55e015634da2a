use vstd::prelude::*;

verus! {

/// The grey levels (one byte per pixel, row by row) that the `image` crate decodes from the
/// bytes of a file, the format being chosen by the path's extension
/// (`ImageFormat::from_path`, `load_from_memory_with_format`, `to_luma8`); `None` when the
/// extension names no supported format or the bytes do not decode.
pub uninterp spec fn luma8_levels(path: Seq<char>, file: Seq<u8>) -> Option<Seq<u8>>;

/// The (width, height) that the `image` crate reads from the header of a file's bytes, the
/// format being chosen by the path's extension (`ImageFormat::from_path`,
/// `ImageReader::with_format`, `into_dimensions`); `None` when it cannot.
pub uninterp spec fn decoded_dimensions(path: Seq<char>, file: Seq<u8>) -> Option<(u32, u32)>;

/// Picks the format with `image::ImageFormat::from_path`, decodes the bytes with
/// `image::load_from_memory_with_format` and converts the image with `to_luma8`, returning
/// its raw grey levels. Claimed: the result is `luma8_levels` of the path and the bytes, a
/// function of those alone. Not claimed: which levels those are for given bytes.
#[verifier::external_body]
pub(crate) fn decode_luma8(path: &str, file: &[u8]) -> (r: Option<Vec<u8>>)
    ensures
        match r {
            Some(levels) => luma8_levels(path@, file@) == Some(levels@),
            None => luma8_levels(path@, file@).is_none(),
        },
{
    match image::ImageFormat::from_path(path) {
        Ok(format) => match image::load_from_memory_with_format(file, format) {
            Ok(img) => Some(img.to_luma8().into_raw()),
            Err(_) => None,
        },
        Err(_) => None,
    }
}

/// Picks the format with `image::ImageFormat::from_path` and reads the image size with
/// `image::ImageReader::with_format(..).into_dimensions()`. Claimed: the result is
/// `decoded_dimensions` of the path and the bytes. Not claimed: which size that is.
#[verifier::external_body]
pub(crate) fn decode_dimensions(path: &str, file: &[u8]) -> (r: Option<(u32, u32)>)
    ensures
        r == decoded_dimensions(path@, file@),
{
    match image::ImageFormat::from_path(path) {
        Ok(format) => match image::ImageReader::with_format(std::io::Cursor::new(file), format).into_dimensions() {
            Ok(size) => Some(size),
            Err(_) => None,
        },
        Err(_) => None,
    }
}


/// The JPEG bytes of the preview that the `image` crate makes from a file's bytes: the image
/// decoded (format by the path's extension), scaled with `thumbnail(1920, 1080)` to the largest
/// size that fits 1920×1080 at its aspect ratio (small images grow), and encoded as JPEG;
/// `None` when any step fails.
pub uninterp spec fn preview_jpeg_bytes(path: Seq<char>, file: Seq<u8>) -> Option<Seq<u8>>;

/// Picks the format with `image::ImageFormat::from_path`, decodes with
/// `image::load_from_memory_with_format`, scales with `DynamicImage::thumbnail(1920, 1080)`
/// and encodes with `DynamicImage::write_to(.., ImageFormat::Jpeg)` (the encoder that
/// `save` uses for a `.jpg` path). Claimed: the result is `preview_jpeg_bytes` of the path and
/// the bytes. Not claimed: which bytes those are.
#[verifier::external_body]
pub(crate) fn encode_preview_jpeg(path: &str, file: &[u8]) -> (r: Option<Vec<u8>>)
    ensures
        match r {
            Some(jpeg) => preview_jpeg_bytes(path@, file@) == Some(jpeg@),
            None => preview_jpeg_bytes(path@, file@).is_none(),
        },
{
    match image::ImageFormat::from_path(path) {
        Ok(format) => match image::load_from_memory_with_format(file, format) {
            Ok(img) => {
                let mut out = std::io::Cursor::new(Vec::new());
                match img.thumbnail(1920, 1080).write_to(&mut out, image::ImageFormat::Jpeg) {
                    Ok(()) => Some(out.into_inner()),
                    Err(_) => None,
                }
            },
            Err(_) => None,
        },
        Err(_) => None,
    }
}

} // verus!
