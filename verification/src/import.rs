use vstd::prelude::*;

use crate::imaging::{decoded_dimensions, encode_preview_jpeg, preview_jpeg_bytes};
use crate::metadata::{
    exif_display_fields, import_metadata_from_file, json_object_text, preview_file_name,
    spec_metadata_entries, spec_preview_file_name,
};

verus! {

/// The bookkeeping of one import run over several files: whether every file came in,
/// and which album links to make.
pub struct ImportTally {
    pub all_success: bool,
}

/// The album link `(image id, album id)` that an import outcome asks for: one when the file
/// was imported (its new id) and a target album was chosen.
pub open spec fn spec_album_link(imported: Option<i64>, target_album: Option<i64>) -> Option<(i64, i64)> {
    match (imported, target_album) {
        (Some(image_id), Some(album_id)) => Some((image_id, album_id)),
        _ => None,
    }
}

/// Whether every outcome of a run is a success.
pub open spec fn all_imported(outcomes: Seq<Option<i64>>) -> bool {
    forall|i: int| 0 <= i < outcomes.len() ==> (#[trigger] outcomes[i]).is_some()
}

impl ImportTally {
    /// The tally after the outcomes of a run, in order.
    pub open spec fn after_all(self, outcomes: Seq<Option<i64>>) -> Self
        decreases outcomes.len(),
    {
        if outcomes.len() == 0 {
            self
        } else {
            ImportTally {
                all_success: self.after_all(outcomes.drop_last()).all_success && outcomes.last().is_some(),
            }
        }
    }

    /// A run before any file: nothing has failed yet.
    pub fn new() -> (t: Self)
        ensures
            t.all_success,
    {
        ImportTally { all_success: true }
    }

    /// Records the outcome of importing one file (`Some(new id)` or `None` for a failure)
    /// and returns the album link to make for it, if any.
    pub fn record(&mut self, imported: Option<i64>, target_album: Option<i64>) -> (link: Option<(i64, i64)>)
        ensures
            final(self).all_success == (old(self).all_success && imported.is_some()),
            link == spec_album_link(imported, target_album),
    {
        match imported {
            Some(image_id) => match target_album {
                Some(album_id) => Some((image_id, album_id)),
                None => None,
            },
            None => {
                self.all_success = false;
                None
            },
        }
    }
}

/// A run reports success exactly when every file in it was imported.
pub proof fn lemma_run_succeeds_iff_all_imported(outcomes: Seq<Option<i64>>)
    ensures
        (ImportTally { all_success: true }).after_all(outcomes).all_success == all_imported(outcomes),
    decreases outcomes.len(),
{
    if outcomes.len() > 0 {
        let init = outcomes.drop_last();
        lemma_run_succeeds_iff_all_imported(init);
        if all_imported(outcomes) {
            assert forall|i: int| 0 <= i < init.len() implies (#[trigger] init[i]).is_some() by {
                assert(init[i] == outcomes[i]);
            }
            assert(outcomes[outcomes.len() - 1].is_some());
        } else {
            let k: int = choose|i: int| 0 <= i < outcomes.len() && !(#[trigger] outcomes[i]).is_some();
            if k < outcomes.len() - 1 {
                assert(init[k] == outcomes[k]);
            }
        }
    }
}


/// What importing one photo stores: the preview's file name and JPEG bytes, and the metadata
/// JSON of the catalogue row.
pub struct ImportPlan {
    pub preview_file_name: String,
    pub preview_jpeg: Vec<u8>,
    pub metadata_json: String,
}

/// Prepares the import of a photo from its path, the bytes of its file and the import time:
/// the preview (named after the file's stem and the time, and made from the bytes) and the
/// metadata (size, format, kept EXIF fields). `None` exactly when the image does not decode
/// into a preview or its size cannot be read.
pub fn plan_import(original_path: &str, file: &[u8], timestamp_millis: i64) -> (r: Option<ImportPlan>)
    ensures
        r.is_none() <==> (preview_jpeg_bytes(original_path@, file@).is_none() || decoded_dimensions(
            original_path@,
            file@,
        ).is_none()),
        match r {
            Some(plan) => {
                let (width, height) = decoded_dimensions(original_path@, file@).unwrap();
                &&& plan.preview_file_name@ == spec_preview_file_name(original_path@, timestamp_millis)
                &&& plan.preview_jpeg@ == preview_jpeg_bytes(original_path@, file@).unwrap()
                &&& plan.metadata_json@ == json_object_text(
                    spec_metadata_entries(original_path@, width, height, exif_display_fields(file@)),
                )
            },
            None => true,
        },
{
    let preview_jpeg = match encode_preview_jpeg(original_path, file) {
        Some(jpeg) => jpeg,
        None => return None,
    };
    let metadata_json = match import_metadata_from_file(original_path, file) {
        Some(json) => json,
        None => return None,
    };
    let preview_file_name = preview_file_name(original_path, timestamp_millis);
    Some(ImportPlan { preview_file_name, preview_jpeg, metadata_json })
}

} // verus!
