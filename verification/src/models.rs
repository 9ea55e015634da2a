use vstd::prelude::*;

verus! {

/// An album of the catalogue.
#[derive(Debug, Clone)]
pub struct AlbumRecord {
    pub id: i64,
    pub name: String,
}

/// An instant in UTC: whole seconds since the Unix epoch and the nanoseconds past them.
#[derive(Debug, Clone, Copy, PartialEq, Eq, Structural)]
pub struct UtcInstant {
    pub seconds: i64,
    pub nanos: u32,
}

/// A photo of the catalogue, as read back from the database.
#[derive(Debug, Clone)]
pub struct ImageRecord {
    pub id: i64,
    pub original_path: String,
    pub preview_path: String,
    pub imported_at: UtcInstant,
    pub metadata_json: String,
}

/// What `chrono::DateTime::parse_from_rfc3339` makes of a text, taken to UTC:
/// `Some((seconds, nanoseconds))` since the epoch, or `None` where the text is no RFC 3339
/// date-and-time.
pub uninterp spec fn rfc3339_instant(text: Seq<char>) -> Option<(i64, u32)>;

/// Parses an RFC 3339 date-and-time with `chrono::DateTime::parse_from_rfc3339`, converts it
/// to UTC and returns its Unix seconds and sub-second nanoseconds. Claimed: the result is
/// `rfc3339_instant` of the text, a function of the text alone. Not claimed: what that value
/// is on any given text.
#[verifier::external_body]
fn parse_rfc3339(text: &str) -> (r: Option<(i64, u32)>)
    ensures
        r == rfc3339_instant(text@),
{
    match chrono::DateTime::parse_from_rfc3339(text) {
        Ok(t) => {
            let utc = t.with_timezone(&chrono::Utc);
            Some((utc.timestamp(), utc.timestamp_subsec_nanos()))
        },
        Err(_) => None,
    }
}

/// The Unix epoch, which stands for an import time that cannot be read.
pub open spec fn epoch() -> UtcInstant {
    UtcInstant { seconds: 0, nanos: 0 }
}

/// The import time stored as `text`: its instant when it parses as RFC 3339, else the epoch.
pub open spec fn spec_import_time(text: Seq<char>) -> UtcInstant {
    match rfc3339_instant(text) {
        Some((s, n)) => UtcInstant { seconds: s, nanos: n },
        None => epoch(),
    }
}

impl UtcInstant {
    /// Reads a stored import time: the RFC 3339 instant in UTC, or the epoch when the text
    /// does not parse.
    pub fn from_rfc3339_or_epoch(text: &str) -> (r: UtcInstant)
        ensures
            r == spec_import_time(text@),
    {
        match parse_rfc3339(text) {
            Some((s, n)) => UtcInstant { seconds: s, nanos: n },
            None => UtcInstant { seconds: 0, nanos: 0 },
        }
    }
}

impl ImageRecord {
    /// Builds a record from the columns of an `images` row, the import time given as its
    /// stored text.
    pub fn from_columns(
        id: i64,
        original_path: String,
        preview_path: String,
        imported_at_text: &str,
        metadata_json: String,
    ) -> (r: ImageRecord)
        ensures
            r.id == id,
            r.original_path@ == original_path@,
            r.preview_path@ == preview_path@,
            r.imported_at == spec_import_time(imported_at_text@),
            r.metadata_json@ == metadata_json@,
    {
        let imported_at = UtcInstant::from_rfc3339_or_epoch(imported_at_text);
        ImageRecord { id, original_path, preview_path, imported_at, metadata_json }
    }
}

} // verus!
