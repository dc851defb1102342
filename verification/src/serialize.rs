//! Persisting records: the order of the writes of one transaction, what
//! each of them carries, and what follows from each answer of the store; the
//! backfill of photos; and the working off of batches.
//!
//! The store and the object storage are spoken to elsewhere. A `Serializer`
//! says which action comes next; whoever drives it carries the action out and
//! hands back the answer.

pub mod aliases;
pub mod backfill;
pub mod batch;
pub mod machine;
pub mod runs;

pub use aliases::{distinct_aliases, lemma_alias_worklist};
pub use backfill::{
    update_null_img_record, update_null_img_records, BackfillUpload, ImageUrlUpdate,
};
pub use batch::{reports_progress, Batch, BatchModel, BatchSummary};
pub use machine::{
    has_s3_upload_criteria, ActionModel, Phase, ReplyModel, Serializer, SerializerModel,
    StoreAction, StoreReply,
};
pub use runs::{
    lemma_failed_upload_is_compensated, lemma_refused_person_writes_nothing,
    lemma_unfailing_run_commits,
};
