use vstd::prelude::*;

use crate::imaging::{decode_dimensions, decoded_dimensions};
use crate::text::{
    all_whitespace, spec_is_whitespace, decimal_text, is_blank, push_char, same_text, spec_decimal,
};

verus! {

// ---------------------------------------------------------------------------------------
// Paths (std::path), as far as the catalogue reads them
// ---------------------------------------------------------------------------------------

/// What `std::path::Path::file_stem` gives for a path, under the path syntax of the platform
/// the crate is built for: the file name without its last extension, or `None` when the path
/// names no file.
pub uninterp spec fn path_file_stem(path: Seq<char>) -> Option<Seq<char>>;

/// What `std::path::Path::extension` gives for a path, under the path syntax of the platform
/// the crate is built for: the text after the last `.` of the file name, or `None`.
pub uninterp spec fn path_extension(path: Seq<char>) -> Option<Seq<char>>;

/// What `str::to_uppercase` gives for a text: its Unicode upper-case form.
pub uninterp spec fn unicode_uppercase(text: Seq<char>) -> Seq<char>;

/// Calls `std::path::Path::file_stem` on the path and converts the stem to a `String`.
/// Claimed: the result is `path_file_stem` of the path's text, a function of that text alone.
/// Not claimed: which stem that is for a given path.
#[verifier::external_body]
fn file_stem_of(path: &str) -> (r: Option<String>)
    ensures
        match r {
            Some(s) => path_file_stem(path@) == Some(s@),
            None => path_file_stem(path@).is_none(),
        },
{
    match std::path::Path::new(path).file_stem() {
        Some(stem) => Some(stem.to_string_lossy().into_owned()),
        None => None,
    }
}

/// Calls `std::path::Path::extension` on the path and converts the extension to a
/// `String`. Claimed: the result is `path_extension` of the path's text. Not claimed: which
/// extension that is for a given path.
#[verifier::external_body]
fn extension_of(path: &str) -> (r: Option<String>)
    ensures
        match r {
            Some(s) => path_extension(path@) == Some(s@),
            None => path_extension(path@).is_none(),
        },
{
    match std::path::Path::new(path).extension() {
        Some(ext) => Some(ext.to_string_lossy().into_owned()),
        None => None,
    }
}

/// Calls `str::to_uppercase`. Claimed: the result is `unicode_uppercase` of the text. Not
/// claimed: the Unicode case mapping itself.
#[verifier::external_body]
fn to_uppercase(text: &str) -> (r: String)
    ensures
        r@ == unicode_uppercase(text@),
{
    text.to_uppercase()
}

// ---------------------------------------------------------------------------------------
// Preview file names
// ---------------------------------------------------------------------------------------

/// The name of the preview written for an imported photo: the photo's file stem (empty
/// when it has none), `_`, the import time in milliseconds since the epoch, and `.jpg`.
pub open spec fn spec_preview_file_name(original_path: Seq<char>, timestamp_millis: i64) -> Seq<char> {
    let stem = match path_file_stem(original_path) {
        Some(s) => s,
        None => seq![],
    };
    stem + seq!['_'] + spec_decimal(timestamp_millis as int) + seq!['.', 'j', 'p', 'g']
}

/// The file name of the preview for a photo imported at `timestamp_millis`.
pub fn preview_file_name(original_path: &str, timestamp_millis: i64) -> (r: String)
    ensures
        r@ == spec_preview_file_name(original_path@, timestamp_millis),
{
    let mut name = match file_stem_of(original_path) {
        Some(s) => s,
        None => String::new(),
    };
    push_char(&mut name, '_');
    let digits = decimal_text(timestamp_millis);
    name.append(digits.as_str());
    let suffix = ".jpg";
    proof {
        reveal_strlit(".jpg");
    }
    name.append(suffix);
    assert(name@ =~= spec_preview_file_name(original_path@, timestamp_millis));
    name
}

// ---------------------------------------------------------------------------------------
// The metadata object (serde_json)
// ---------------------------------------------------------------------------------------

/// A JSON object of `serde_json`, carried through unopened.
#[verifier::external_type_specification]
#[verifier::external_body]
#[verifier::reject_recursive_types(K)]
#[verifier::reject_recursive_types(V)]
pub struct ExJsonMap<K, V>(serde_json::Map<K, V>);

/// A JSON value of `serde_json`, carried through unopened.
#[verifier::external_type_specification]
#[verifier::external_body]
pub struct ExJsonValue(serde_json::Value);

/// A JSON object as the catalogue builds it: text keys, JSON values.
pub type JsonObject = serde_json::Map<String, serde_json::Value>;

/// The kinds of values the metadata object holds.
pub enum MetaValue {
    Number(nat),
    Text(Seq<char>),
}

/// What a `serde_json` object holds: its keys, each with its value.
pub uninterp spec fn json_entries(m: JsonObject) -> Map<Seq<char>, MetaValue>;

/// The compact JSON text that `serde_json` writes for an object with these entries.
pub uninterp spec fn json_object_text(entries: Map<Seq<char>, MetaValue>) -> Seq<char>;

/// The entries of an empty object.
pub open spec fn no_entries() -> Map<Seq<char>, MetaValue> {
    Map::empty()
}

/// Calls `serde_json::Map::new`. Claimed: the new object is empty.
#[verifier::external_body]
fn json_object_new() -> (m: JsonObject)
    ensures
        json_entries(m) == no_entries(),
{
    serde_json::Map::new()
}

/// Calls `serde_json::Map::insert` with the number `value` (`serde_json::Value::from`).
/// Claimed, as its documentation says: afterwards `key` maps to that number, replacing any
/// earlier value, and every other entry stays.
#[verifier::external_body]
fn json_insert_number(m: &mut JsonObject, key: String, value: u32)
    ensures
        json_entries(*final(m)) == json_entries(*old(m)).insert(key@, MetaValue::Number(value as nat)),
{
    m.insert(key, serde_json::Value::from(value));
}

/// Calls `serde_json::Map::insert` with the string `value` (`serde_json::Value::from`).
/// Claimed: afterwards `key` maps to that text, replacing any earlier value, and every other
/// entry stays.
#[verifier::external_body]
fn json_insert_text(m: &mut JsonObject, key: String, value: String)
    ensures
        json_entries(*final(m)) == json_entries(*old(m)).insert(key@, MetaValue::Text(value@)),
{
    m.insert(key, serde_json::Value::from(value));
}

/// Wraps the object in `serde_json::Value::Object` and writes it with `to_string`.
/// Claimed: the text is `json_object_text` of the object's entries. Not claimed: what that
/// text is on given entries.
#[verifier::external_body]
fn json_object_to_text(m: JsonObject) -> (r: String)
    ensures
        r@ == json_object_text(json_entries(m)),
{
    serde_json::Value::Object(m).to_string()
}

pub open spec fn key_width() -> Seq<char> {
    seq!['W', 'i', 'd', 't', 'h']
}

pub open spec fn key_height() -> Seq<char> {
    seq!['H', 'e', 'i', 'g', 'h', 't']
}

pub open spec fn key_format() -> Seq<char> {
    seq!['F', 'o', 'r', 'm', 'a', 't']
}

pub open spec fn tag_maker_note() -> Seq<char> {
    seq!['M', 'a', 'k', 'e', 'r', 'N', 'o', 't', 'e']
}

pub open spec fn tag_user_comment() -> Seq<char> {
    seq!['U', 's', 'e', 'r', 'C', 'o', 'm', 'm', 'e', 'n', 't']
}

/// Whether an EXIF field (tag name, displayed value) goes into the metadata: the maker
/// note and the user comment never do, nor a value that is blank once trimmed.
pub open spec fn spec_exif_field_kept(tag: Seq<char>, value: Seq<char>) -> bool {
    tag != tag_maker_note() && tag != tag_user_comment() && !all_whitespace(value)
}

/// Whether an EXIF field is recorded in a photo's metadata.
pub fn exif_field_kept(tag: &str, value: &str) -> (r: bool)
    ensures
        r == spec_exif_field_kept(tag@, value@),
{
    let maker_note = "MakerNote";
    let user_comment = "UserComment";
    proof {
        reveal_strlit("MakerNote");
        reveal_strlit("UserComment");
    }
    assert(maker_note@ =~= tag_maker_note());
    assert(user_comment@ =~= tag_user_comment());
    if same_text(tag, maker_note) || same_text(tag, user_comment) {
        return false;
    }
    !is_blank(value)
}

/// The text of an EXIF field pair.
pub open spec fn field_view(f: (String, String)) -> (Seq<char>, Seq<char>) {
    (f.0@, f.1@)
}

/// The entries before any EXIF field: the pixel size, and the upper-cased file extension
/// as the format when the path has one.
pub open spec fn base_entries(original_path: Seq<char>, width: u32, height: u32) -> Map<Seq<char>, MetaValue> {
    let sized = Map::<Seq<char>, MetaValue>::empty().insert(key_width(), MetaValue::Number(width as nat)).insert(
        key_height(),
        MetaValue::Number(height as nat),
    );
    match path_extension(original_path) {
        Some(ext) => sized.insert(key_format(), MetaValue::Text(unicode_uppercase(ext))),
        None => sized,
    }
}

/// The entries after adding the EXIF fields in order: each kept field sets its tag to its
/// value (a later field with the same tag wins); the others are skipped.
pub open spec fn with_exif_fields(
    base: Map<Seq<char>, MetaValue>,
    fields: Seq<(Seq<char>, Seq<char>)>,
) -> Map<Seq<char>, MetaValue>
    decreases fields.len(),
{
    if fields.len() == 0 {
        base
    } else {
        let before = with_exif_fields(base, fields.drop_last());
        let (tag, value) = fields.last();
        if spec_exif_field_kept(tag, value) {
            before.insert(tag, MetaValue::Text(value))
        } else {
            before
        }
    }
}

/// The metadata recorded for an imported photo.
pub open spec fn spec_metadata_entries(
    original_path: Seq<char>,
    width: u32,
    height: u32,
    exif_fields: Seq<(Seq<char>, Seq<char>)>,
) -> Map<Seq<char>, MetaValue> {
    with_exif_fields(base_entries(original_path, width, height), exif_fields)
}

/// Builds the metadata JSON stored with an imported photo: its width and height, its
/// format (the file extension in upper case, when there is one), and the EXIF fields that
/// are kept, given as (tag name, displayed value) in the order the EXIF reader lists them.
pub fn import_metadata_json(
    original_path: &str,
    width: u32,
    height: u32,
    exif_fields: &Vec<(String, String)>,
) -> (r: String)
    ensures
        r@ == json_object_text(
            spec_metadata_entries(original_path@, width, height, exif_fields@.map_values(|f: (String, String)| field_view(f))),
        ),
{
    let ghost fields = exif_fields@.map_values(|f: (String, String)| field_view(f));
    let mut map = json_object_new();
    let k_width = String::from_str("Width");
    let k_height = String::from_str("Height");
    let k_format = String::from_str("Format");
    proof {
        reveal_strlit("Width");
        reveal_strlit("Height");
        reveal_strlit("Format");
    }
    assert(k_width@ =~= key_width());
    assert(k_height@ =~= key_height());
    assert(k_format@ =~= key_format());
    json_insert_number(&mut map, k_width, width);
    json_insert_number(&mut map, k_height, height);
    match extension_of(original_path) {
        Some(ext) => {
            let upper = to_uppercase(ext.as_str());
            json_insert_text(&mut map, k_format, upper);
        },
        None => {},
    }
    assert(json_entries(map) =~= base_entries(original_path@, width, height));
    let n: usize = exif_fields.len();
    for i in 0..n
        invariant
            n == exif_fields@.len(),
            fields == exif_fields@.map_values(|f: (String, String)| field_view(f)),
            json_entries(map) == with_exif_fields(
                base_entries(original_path@, width, height),
                fields.take(i as int),
            ),
    {
        let tag = &exif_fields[i].0;
        let value = &exif_fields[i].1;
        proof {
            assert(fields.take(i + 1).drop_last() =~= fields.take(i as int));
            assert(fields.take(i + 1).last() == field_view(exif_fields@[i as int]));
        }
        if exif_field_kept(tag.as_str(), value.as_str()) {
            json_insert_text(&mut map, tag.clone(), value.clone());
        }
    }
    assert(fields.take(n as int) =~= fields);
    json_object_to_text(map)
}

/// Only kept EXIF fields reach the metadata: every entry is either one of the size and
/// format entries or the value of a kept EXIF field under its own tag, so the maker note,
/// the user comment and blank values are never recorded.
pub proof fn lemma_only_kept_fields_recorded(
    base: Map<Seq<char>, MetaValue>,
    fields: Seq<(Seq<char>, Seq<char>)>,
    key: Seq<char>,
)
    requires
        with_exif_fields(base, fields).dom().contains(key),
    ensures
        (base.dom().contains(key) && with_exif_fields(base, fields)[key] == base[key]) || (match with_exif_fields(base, fields)[key] {
            MetaValue::Text(v) => spec_exif_field_kept(key, v),
            MetaValue::Number(_) => false,
        }),
    decreases fields.len(),
{
    if fields.len() > 0 {
        let (tag, value) = fields.last();
        if !(spec_exif_field_kept(tag, value) && tag == key) {
            lemma_only_kept_fields_recorded(base, fields.drop_last(), key);
        }
    }
}

/// The maker note and the user comment are never part of an imported photo's metadata.
pub proof fn lemma_private_tags_never_recorded(
    original_path: Seq<char>,
    width: u32,
    height: u32,
    exif_fields: Seq<(Seq<char>, Seq<char>)>,
)
    ensures
        !spec_metadata_entries(original_path, width, height, exif_fields).dom().contains(tag_maker_note()),
        !spec_metadata_entries(original_path, width, height, exif_fields).dom().contains(tag_user_comment()),
{
    let base = base_entries(original_path, width, height);
    assert(!base.dom().contains(tag_maker_note())) by {
        assert(tag_maker_note() != key_width());
        assert(tag_maker_note() != key_height());
        assert(tag_maker_note() != key_format());
    }
    assert(!base.dom().contains(tag_user_comment())) by {
        assert(tag_user_comment() != key_width());
        assert(tag_user_comment() != key_height());
        assert(tag_user_comment() != key_format());
    }
    if spec_metadata_entries(original_path, width, height, exif_fields).dom().contains(tag_maker_note()) {
        lemma_only_kept_fields_recorded(base, exif_fields, tag_maker_note());
    }
    if spec_metadata_entries(original_path, width, height, exif_fields).dom().contains(tag_user_comment()) {
        lemma_only_kept_fields_recorded(base, exif_fields, tag_user_comment());
    }
}

/// The EXIF fields that `kamadak-exif` reads from a file's bytes, each as (tag name,
/// displayed value with its unit), in the reader's order; none when the bytes hold no EXIF
/// data the reader understands.
pub uninterp spec fn exif_display_fields(file: Seq<u8>) -> Seq<(Seq<char>, Seq<char>)>;

/// Runs `exif::Reader::read_from_container` over the bytes and renders each field as its
/// tag's name (`Tag`'s `Display`) and `display_value().with_unit(..)`; an unreadable
/// container gives no fields. Claimed: the pairs are `exif_display_fields` of the bytes, a
/// function of the bytes alone. Not claimed: which fields those are.
#[verifier::external_body]
fn read_exif_fields(file: &[u8]) -> (r: Vec<(String, String)>)
    ensures
        r@.map_values(|f: (String, String)| field_view(f)) == exif_display_fields(file@),
{
    match exif::Reader::new().read_from_container(&mut std::io::Cursor::new(file)) {
        Ok(exif_data) => exif_data.fields().map(
            |field| (field.tag.to_string(), field.display_value().with_unit(&exif_data).to_string()),
        ).collect(),
        Err(_) => Vec::new(),
    }
}

/// Builds the metadata JSON of a photo from its path and the bytes of its file: the size
/// read from the image header, the format from the extension, and the kept EXIF fields read
/// from the bytes. `None` exactly when the image size cannot be read.
pub fn import_metadata_from_file(original_path: &str, file: &[u8]) -> (r: Option<String>)
    ensures
        r.is_none() <==> decoded_dimensions(original_path@, file@).is_none(),
        match r {
            Some(json) => {
                let (width, height) = decoded_dimensions(original_path@, file@).unwrap();
                json@ == json_object_text(
                    spec_metadata_entries(original_path@, width, height, exif_display_fields(file@)),
                )
            },
            None => true,
        },
{
    match decode_dimensions(original_path, file) {
        Some((width, height)) => {
            let fields = read_exif_fields(file);
            Some(import_metadata_json(original_path, width, height, &fields))
        },
        None => None,
    }
}

/// Which EXIF fields are kept, exactly: every field is kept unless its tag is `MakerNote` or
/// `UserComment` or its value is blank (white space only, as `str::trim` removes it).
pub proof fn lemma_exif_field_kept_exactly(tag: Seq<char>, value: Seq<char>)
    ensures
        (tag != seq!['M', 'a', 'k', 'e', 'r', 'N', 'o', 't', 'e'] && tag != seq![
            'U',
            's',
            'e',
            'r',
            'C',
            'o',
            'm',
            'm',
            'e',
            'n',
            't',
        ] && (exists|i: int| 0 <= i < value.len() && !spec_is_whitespace(#[trigger] value[i])))
            ==> spec_exif_field_kept(tag, value),
        tag == seq!['M', 'a', 'k', 'e', 'r', 'N', 'o', 't', 'e'] ==> !spec_exif_field_kept(tag, value),
        tag == seq!['U', 's', 'e', 'r', 'C', 'o', 'm', 'm', 'e', 'n', 't'] ==> !spec_exif_field_kept(
            tag,
            value,
        ),
        (forall|i: int| 0 <= i < value.len() ==> spec_is_whitespace(#[trigger] value[i]))
            ==> !spec_exif_field_kept(tag, value),
{
}

/// A kept EXIF field is recorded: when field `i` is kept and no later kept field has the same
/// tag, the metadata maps that tag to that field's value as text.
pub proof fn lemma_kept_field_recorded(
    base: Map<Seq<char>, MetaValue>,
    fields: Seq<(Seq<char>, Seq<char>)>,
    i: int,
)
    requires
        0 <= i < fields.len(),
        spec_exif_field_kept(fields[i].0, fields[i].1),
        forall|j: int|
            i < j < fields.len() && (#[trigger] fields[j]).0 == fields[i].0 ==> !spec_exif_field_kept(
                fields[j].0,
                fields[j].1,
            ),
    ensures
        with_exif_fields(base, fields).dom().contains(fields[i].0),
        with_exif_fields(base, fields)[fields[i].0] == MetaValue::Text(fields[i].1),
    decreases fields.len(),
{
    let init = fields.drop_last();
    if i < fields.len() - 1 {
        assert forall|j: int|
            i < j < init.len() && (#[trigger] init[j]).0 == init[i].0 implies !spec_exif_field_kept(
            init[j].0,
            init[j].1,
        ) by {
            assert(init[j] == fields[j]);
        }
        lemma_kept_field_recorded(base, init, i);
        let last = fields.last();
        assert(last == fields[fields.len() - 1]);
    }
}

// ---------------------------------------------------------------------------------------
// Showing the metadata
// ---------------------------------------------------------------------------------------

/// The label of a metadata key: its first character upper-cased when it is an ASCII letter
/// (any other first character, and the rest of the key, stay as they are), then `:`.
pub open spec fn spec_key_label(key: Seq<char>) -> Seq<char> {
    let capitalised = if key.len() > 0 && 'a' <= key[0] <= 'z' {
        key.update(0, ((key[0] as u32) - 32) as char)
    } else {
        key
    };
    capitalised.push(':')
}

/// The label shown before a metadata value in the side panel.
pub fn metadata_key_label(key: &str) -> (r: String)
    ensures
        r@ == spec_key_label(key@),
{
    let n: usize = key.unicode_len();
    let mut label = String::new();
    let mut i: usize = 0;
    while i < n
        invariant
            n == key@.len(),
            i <= n,
            label@ =~= (if key@.len() > 0 && 'a' <= key@[0] <= 'z' {
                key@.update(0, ((key@[0] as u32) - 32) as char)
            } else {
                key@
            }).take(i as int),
        decreases n - i,
    {
        let c = key.get_char(i);
        if i == 0 && 'a' <= c && c <= 'z' {
            let upper = ((c as u32) - 32) as u8 as char;
            push_char(&mut label, upper);
        } else {
            push_char(&mut label, c);
        }
        i = i + 1;
    }
    push_char(&mut label, ':');
    label
}


/// The text of a JSON object entry as `serde_json` gives it: the key, the string content when
/// the value is a JSON string (`as_str`), and the value's compact JSON text (`to_string`).
pub open spec fn entry_view(e: (String, Option<String>, String)) -> (Seq<char>, Option<Seq<char>>, Seq<char>) {
    (
        e.0@,
        match e.1 {
            Some(s) => Some(s@),
            None => None,
        },
        e.2@,
    )
}

/// What `serde_json` reads from a text: `None` when the text is no JSON; `Some(None)` when it
/// is JSON but not an object; otherwise the object's entries in key order, each as
/// `entry_view` gives it.
pub uninterp spec fn json_object_fields(text: Seq<char>) -> Option<
    Option<Seq<(Seq<char>, Option<Seq<char>>, Seq<char>)>>,
>;

/// Parses the text with `serde_json::from_str::<Value>`, takes `as_object()`, and lists each
/// entry as its key, `as_str()` of its value, and `to_string()` of its value; a parse error
/// gives `None`. Claimed: the result is `json_object_fields` of the text. Not claimed: which
/// entries those are.
#[verifier::external_body]
fn parse_json_object(text: &str) -> (r: Option<Option<Vec<(String, Option<String>, String)>>>)
    ensures
        match r {
            None => json_object_fields(text@).is_none(),
            Some(None) => json_object_fields(text@) == Some(
                None::<Seq<(Seq<char>, Option<Seq<char>>, Seq<char>)>>,
            ),
            Some(Some(v)) => json_object_fields(text@) == Some(
                Some(v@.map_values(|e: (String, Option<String>, String)| entry_view(e))),
            ),
        },
{
    match serde_json::from_str::<serde_json::Value>(text) {
        Ok(value) => match value.as_object() {
            Some(obj) => Some(
                Some(
                    obj.iter().map(
                        |(key, v)| (key.clone(), v.as_str().map(|s| s.to_string()), v.to_string()),
                    ).collect(),
                ),
            ),
            None => Some(None),
        },
        Err(_) => None,
    }
}

/// The text the metadata panel shows for a value: a string's own content, any other value as
/// its compact JSON text.
pub open spec fn spec_value_text(entry: (Seq<char>, Option<Seq<char>>, Seq<char>)) -> Seq<char> {
    match entry.1 {
        Some(s) => s,
        None => entry.2,
    }
}

/// A JSON string is shown as its own content, whatever it holds; any other value as its
/// compact JSON text.
pub proof fn lemma_string_values_shown_as_content(
    key: Seq<char>,
    content: Option<Seq<char>>,
    json: Seq<char>,
)
    ensures
        content matches Some(s) ==> spec_value_text((key, content, json)) == s,
        content is None ==> spec_value_text((key, content, json)) == json,
{
}

/// The rows the metadata panel shows for a photo's stored metadata: `None` when the text is
/// no JSON (the panel says it failed to parse it); no rows when it is JSON but no object;
/// otherwise one row per entry of the object, in order, each the key's label
/// (`spec_key_label`) and the value's text (`spec_value_text`).
pub fn metadata_rows(metadata_json: &str) -> (r: Option<Vec<(String, String)>>)
    ensures
        r.is_none() <==> json_object_fields(metadata_json@).is_none(),
        match r {
            Some(rows) => match json_object_fields(metadata_json@).unwrap() {
                None => rows@.len() == 0,
                Some(entries) => {
                    &&& rows@.len() == entries.len()
                    &&& forall|i: int|
                        0 <= i < entries.len() ==> (#[trigger] rows@[i]).0@ == spec_key_label(entries[i].0)
                            && rows@[i].1@ == spec_value_text(entries[i])
                },
            },
            None => true,
        },
{
    match parse_json_object(metadata_json) {
        None => None,
        Some(None) => Some(Vec::new()),
        Some(Some(entries)) => {
            let ghost ev = entries@.map_values(|e: (String, Option<String>, String)| entry_view(e));
            let mut rows: Vec<(String, String)> = Vec::new();
            let n: usize = entries.len();
            for i in 0..n
                invariant
                    n == entries@.len(),
                    ev == entries@.map_values(|e: (String, Option<String>, String)| entry_view(e)),
                    rows@.len() == i,
                    forall|j: int|
                        0 <= j < i ==> (#[trigger] rows@[j]).0@ == spec_key_label(ev[j].0) && rows@[j].1@
                            == spec_value_text(ev[j]),
            {
                let label = metadata_key_label(entries[i].0.as_str());
                let text = match &entries[i].1 {
                    Some(s) => s.clone(),
                    None => entries[i].2.clone(),
                };
                assert(ev[i as int] == entry_view(entries@[i as int]));
                rows.push((label, text));
            }
            Some(rows)
        },
    }
}


/// The shape of a key's label: one character longer than the key and ending in `:`; every
/// character after the first is the key's own; the first is upper-cased when it is an ASCII
/// lower-case letter (`a`..`z` to `A`..`Z`) and kept otherwise.
pub proof fn lemma_key_label_shape(key: Seq<char>)
    ensures
        spec_key_label(key).len() == key.len() + 1,
        spec_key_label(key)[key.len() as int] == ':',
        forall|i: int| 1 <= i < key.len() ==> spec_key_label(key)[i] == key[i],
        key.len() > 0 && 'a' <= key[0] <= 'z' ==> spec_key_label(key)[0] as u32 == key[0] as u32 - 32,
        key.len() > 0 && !('a' <= key[0] <= 'z') ==> spec_key_label(key)[0] == key[0],
{
}

} // verus!
