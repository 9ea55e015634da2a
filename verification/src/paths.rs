use vstd::prelude::*;

use crate::models::ImageRecord;
use crate::text::has_prefix;

verus! {

/// The scheme the image widgets put before a local path: `file://`.
pub open spec fn file_scheme() -> Seq<char> {
    seq!['f', 'i', 'l', 'e', ':', '/', '/']
}

/// The prefix that marks a web address: `http`.
pub open spec fn web_prefix() -> Seq<char> {
    seq!['h', 't', 't', 'p']
}

/// A local path with a leading `file://` removed; any other text unchanged.
pub open spec fn spec_strip_file_scheme(path: Seq<char>) -> Seq<char> {
    if file_scheme().is_prefix_of(path) {
        path.subrange(7, path.len() as int)
    } else {
        path
    }
}

/// Removes a leading `file://` from an image address, giving the path on disk.
pub fn strip_file_scheme(path: &str) -> (r: &str)
    ensures
        r@ == spec_strip_file_scheme(path@),
{
    let scheme = "file://";
    proof {
        reveal_strlit("file://");
    }
    assert(scheme@ == file_scheme());
    if has_prefix(path, scheme) {
        let n: usize = path.unicode_len();
        path.substring_char(7, n)
    } else {
        path
    }
}

/// The address under which the gallery shows a photo: `file://` followed by its path.
pub fn gallery_url(original_path: &str) -> (r: String)
    ensures
        r@ == file_scheme() + original_path@,
{
    let scheme = String::from_str("file://");
    proof {
        reveal_strlit("file://");
    }
    scheme.concat(original_path)
}

/// The file a histogram is read from: a `file://` address gives its path, a web address
/// (`http...`) gives none, any other text is a path as it stands.
pub open spec fn spec_histogram_source(path: Seq<char>) -> Option<Seq<char>> {
    if file_scheme().is_prefix_of(path) {
        Some(path.subrange(7, path.len() as int))
    } else if web_prefix().is_prefix_of(path) {
        None
    } else {
        Some(path)
    }
}

/// Where to read the image for a histogram; `None` for web images, which are skipped.
pub fn histogram_source(file_path: &str) -> (r: Option<&str>)
    ensures
        match r {
            Some(p) => spec_histogram_source(file_path@) == Some(p@),
            None => spec_histogram_source(file_path@).is_none(),
        },
{
    let scheme = "file://";
    let web = "http";
    proof {
        reveal_strlit("file://");
        reveal_strlit("http");
    }
    assert(scheme@ == file_scheme());
    assert(web@ == web_prefix());
    if has_prefix(file_path, scheme) {
        let n: usize = file_path.unicode_len();
        Some(file_path.substring_char(7, n))
    } else if has_prefix(file_path, web) {
        None
    } else {
        Some(file_path)
    }
}

/// A decoded photo of the `image` crate, carried through unopened.
#[verifier::external_type_specification]
#[verifier::external_body]
pub struct ExDynamicImage(image::DynamicImage);

/// Opens and decodes the image file at `path` with `image::open`, turning any error (a
/// missing file, an unknown format, a decoding failure) into `None`. What it returns depends
/// on the disk; nothing is claimed of it.
#[verifier::external_body]
fn open_image(path: &str) -> (img: Option<image::DynamicImage>) {
    image::open(path).ok()
}

/// Loads the image behind an address: a leading `file://` is removed and the rest is opened
/// as a path; `None` when it cannot be read or decoded.
pub fn load_image(file_path: &str) -> Option<image::DynamicImage> {
    let clean_path = strip_file_scheme(file_path);
    open_image(clean_path)
}

/// The position of the first record whose original path is `path`, if any.
pub fn find_image_by_path(gallery: &Vec<ImageRecord>, path: &str) -> (r: Option<usize>)
    ensures
        match r {
            Some(i) => {
                &&& i < gallery@.len()
                &&& gallery@[i as int].original_path@ == path@
                &&& forall|j: int| 0 <= j < i ==> gallery@[j].original_path@ != path@
            },
            None => forall|j: int| 0 <= j < gallery@.len() ==> gallery@[j].original_path@ != path@,
        },
{
    let target = String::from_str(path);
    let n: usize = gallery.len();
    for i in 0..n
        invariant
            n == gallery@.len(),
            target@ == path@,
            forall|j: int| 0 <= j < i ==> gallery@[j].original_path@ != path@,
    {
        if gallery[i].original_path == target {
            return Some(i);
        }
    }
    None
}

/// Opening a photo from the gallery finds its record again: the gallery address of a
/// record's path, stripped of its scheme, is that path, so the lookup that the side panels
/// make succeeds, at that record or at an earlier one with the same path.
pub proof fn lemma_gallery_url_round_trip(path: Seq<char>)
    ensures
        spec_strip_file_scheme(file_scheme() + path) == path,
{
    let u = file_scheme() + path;
    assert(u.subrange(0, 7) =~= file_scheme());
    assert(u.subrange(7, u.len() as int) =~= path);
}


/// Stripping removes exactly one leading `file://` and nothing else: an address with that
/// prefix is the prefix followed by the result; any other address comes back unchanged.
pub proof fn lemma_strip_removes_only_the_scheme(path: Seq<char>)
    ensures
        seq!['f', 'i', 'l', 'e', ':', '/', '/'].is_prefix_of(path) ==> seq!['f', 'i', 'l', 'e', ':', '/', '/']
            + spec_strip_file_scheme(path) == path,
        !seq!['f', 'i', 'l', 'e', ':', '/', '/'].is_prefix_of(path) ==> spec_strip_file_scheme(path) == path,
{
    if file_scheme().is_prefix_of(path) {
        assert(file_scheme() + path.subrange(7, path.len() as int) =~= path);
    }
}

} // verus!
