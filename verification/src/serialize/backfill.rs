//! The backfill of the photo of a row that was stored without one.

use crate::error::{Error, ErrorModel};
use crate::inmate::profile::image_key;
use crate::inmate::record::Record;
use crate::serialize::machine::{has_s3_upload_criteria, storage_eligible};
use vstd::prelude::*;

verus! {

/// The photo that a backfill is to put into object storage, for the row it
/// is meant for.
#[derive(Debug)]
pub struct BackfillUpload {
    pub inmate_id: i32,
    pub key: String,
    pub bytes: Vec<u8>,
}

/// The photo address that a backfill is to write into a row.
#[derive(Debug)]
pub struct ImageUrlUpdate {
    pub inmate_id: i32,
    pub img_url: String,
}

/// Why a backfill is refused for a record that still has no photo.
pub open spec fn no_photo_explanation() -> Seq<char> {
    "Can't update null img record because latest parse still didn't have image. This could have several different causes: slow or failing img uploads at Scott County, parsing failures, or internal logic failures"@
}

/// Why a backfill is refused where the photo cannot be stored.
pub open spec fn not_eligible_explanation() -> Seq<char> {
    "Record or env does not meet S3 upload criteria."@
}

/// Why a run of backfills is refused without an object storage.
pub open spec fn no_storage_explanation() -> Seq<char> {
    "No S3 client found. Cannot update null img records."@
}

/// Prepares the backfill of the photo of a stored row from a record that was
/// built anew. The row itself is not written again. A record that still has
/// no photo, or a photo that cannot be stored, is refused with an
/// `InternalError`; otherwise the photo is to be stored under the name that
/// its core attributes give.
pub fn update_null_img_record(inmate_id: i32, record: &Record, storage_available: bool) -> (r:
    Result<BackfillUpload, Error>)
    ensures
        match r {
            Ok(upload) => {
                &&& storage_eligible(record@.profile, storage_available)
                &&& upload.inmate_id == inmate_id
                &&& upload.key@ == image_key(record@.profile)
                &&& upload.bytes@ == record@.profile.img_blob->Some_0
            },
            Err(e) => {
                &&& !storage_eligible(record@.profile, storage_available)
                &&& e@ == ErrorModel::InternalError(
                    if record@.profile.img_blob is None {
                        no_photo_explanation()
                    } else {
                        not_eligible_explanation()
                    },
                )
            },
        },
{
    match &record.profile.img_blob {
        None => Err(
            Error::InternalError(
                "Can't update null img record because latest parse still didn't have image. This could have several different causes: slow or failing img uploads at Scott County, parsing failures, or internal logic failures".to_string(),
            ),
        ),
        Some(blob) => {
            if !has_s3_upload_criteria(&record.profile, storage_available) {
                return Err(
                    Error::InternalError(
                        "Record or env does not meet S3 upload criteria.".to_string(),
                    ),
                );
            }
            assert(blob.deep_view() =~= blob@);
            Ok(
                BackfillUpload {
                    inmate_id,
                    key: record.profile.get_hash_on_core_attributes(),
                    bytes: blob.clone(),
                },
            )
        },
    }
}

impl BackfillUpload {
    /// Takes the answer of the object storage. A stored photo leads to the
    /// update of the photo address of the row, and of nothing else; a failed
    /// upload is the caller's error, and nothing was written.
    pub fn uploaded(self, outcome: Result<(), Error>) -> (r: Result<ImageUrlUpdate, Error>)
        ensures
            match outcome {
                Ok(_) => r is Ok && r->Ok_0.inmate_id == self.inmate_id && r->Ok_0.img_url@
                    == self.key@,
                Err(e) => r is Err && r->Err_0 == e,
            },
    {
        match outcome {
            Ok(_) => Ok(ImageUrlUpdate { inmate_id: self.inmate_id, img_url: self.key }),
            Err(e) => Err(e),
        }
    }
}

/// Whether a run of backfills can start: it needs an object storage.
/// Without one it is refused with an `InternalError`.
pub fn update_null_img_records(storage_available: bool) -> (r: Result<(), Error>)
    ensures
        storage_available ==> r is Ok,
        !storage_available ==> r is Err && r->Err_0@ == ErrorModel::InternalError(
            no_storage_explanation(),
        ),
{
    if storage_available {
        Ok(())
    } else {
        Err(Error::InternalError("No S3 client found. Cannot update null img records.".to_string()))
    }
}

} // verus!
