//! The persisting of one record as a sequence of actions and answers.

use crate::error::{Error, ErrorModel};
use crate::inmate::bond::BondModel;
use crate::inmate::charge::{ChargeGrade, ChargeModel};
use crate::inmate::profile::{image_key, InmateProfile, ProfileModel};
use crate::inmate::record::{Record, RecordModel};
use crate::serialize::aliases::{alias_worklist, distinct_aliases};
use crate::text::texts;
use vstd::prelude::*;

verus! {

/// Whether a profile's photo can be handed to object storage: there are
/// bytes to store and a storage to store them in.
pub open spec fn storage_eligible(p: ProfileModel, storage_available: bool) -> bool {
    p.img_blob is Some && p.img_blob->Some_0.len() > 0 && storage_available
}

/// The photo address that is written with a new row: the name under which
/// the photo will be stored where it can be stored, else empty.
pub open spec fn planned_image_url(p: ProfileModel, storage_available: bool) -> Seq<char> {
    if storage_eligible(p, storage_available) {
        image_key(p)
    } else {
        Seq::<char>::empty()
    }
}

/// Returns true if the profile has what it takes to hand its photo to object
/// storage, false otherwise.
pub fn has_s3_upload_criteria(profile: &InmateProfile, storage_available: bool) -> (eligible: bool)
    ensures
        eligible == storage_eligible(profile@, storage_available),
{
    match &profile.img_blob {
        None => false,
        Some(bytes) => bytes.len() > 0 && storage_available,
    }
}

/// What is awaited from the store.
#[derive(Debug, Clone, Copy, PartialEq, Eq, Structural)]
pub enum Phase {
    /// The opening of the transaction.
    Beginning,
    /// The new row of the person, and its identity.
    InsertingInmate,
    /// The storing of the photo.
    Uploading,
    /// The emptying of the photo address after a failed upload.
    ClearingImageUrl,
    /// The identity of an alias.
    UpsertingAlias,
    /// The link between the person and an alias.
    LinkingAlias,
    /// The row that holds the photo's bytes.
    InsertingImage,
    /// The row of a bond.
    InsertingBond,
    /// The row of a charge.
    InsertingCharge,
    /// The commit of the transaction.
    Committing,
    /// The rollback of the transaction.
    RollingBack,
    /// Nothing: the outcome is known.
    Finished,
}

/// What is to be done next for a record.
#[derive(Debug)]
pub enum StoreAction {
    /// Open a transaction.
    Begin,
    /// Insert the row of the person from this profile, with this photo
    /// address, and report the identity of the row.
    InsertInmate { profile: InmateProfile, img_url: String },
    /// Put the photo's bytes into object storage under this name.
    UploadImage { key: String, bytes: Vec<u8> },
    /// Set the photo address of the person's row to empty.
    ClearImageUrl { inmate_id: i32 },
    /// Insert the alias, or find it if it exists, and report its identity.
    UpsertAlias { alias: String },
    /// Link the person to the alias.
    LinkAlias { inmate_id: i32, alias_id: i32 },
    /// Insert the row that holds the photo's bytes, if there are any.
    InsertImage { inmate_id: i32, blob: Option<Vec<u8>> },
    /// Insert the row of a bond.
    InsertBond { inmate_id: i32, bond_type: String, bond_amount: u64 },
    /// Insert the row of a charge.
    InsertCharge {
        inmate_id: i32,
        description: String,
        grade: ChargeGrade,
        offense_date: String,
    },
    /// Commit the transaction.
    Commit,
    /// Roll the transaction back.
    Rollback,
    /// Nothing is left to do: the outcome can be read.
    Finish,
}

/// What a `StoreAction` is, with its texts as sequences of characters.
pub ghost enum ActionModel {
    Begin,
    InsertInmate { profile: ProfileModel, img_url: Seq<char> },
    UploadImage { key: Seq<char>, bytes: Seq<u8> },
    ClearImageUrl { inmate_id: i32 },
    UpsertAlias { alias: Seq<char> },
    LinkAlias { inmate_id: i32, alias_id: i32 },
    InsertImage { inmate_id: i32, blob: Option<Seq<u8>> },
    InsertBond { inmate_id: i32, bond: BondModel },
    InsertCharge { inmate_id: i32, charge: ChargeModel },
    Commit,
    Rollback,
    Finish,
}

impl View for StoreAction {
    type V = ActionModel;

    open spec fn view(&self) -> ActionModel {
        match self {
            StoreAction::Begin => ActionModel::Begin,
            StoreAction::InsertInmate { profile, img_url } => ActionModel::InsertInmate {
                profile: profile@,
                img_url: img_url@,
            },
            StoreAction::UploadImage { key, bytes } => ActionModel::UploadImage {
                key: key@,
                bytes: bytes@,
            },
            StoreAction::ClearImageUrl { inmate_id } => ActionModel::ClearImageUrl {
                inmate_id: *inmate_id,
            },
            StoreAction::UpsertAlias { alias } => ActionModel::UpsertAlias { alias: alias@ },
            StoreAction::LinkAlias { inmate_id, alias_id } => ActionModel::LinkAlias {
                inmate_id: *inmate_id,
                alias_id: *alias_id,
            },
            StoreAction::InsertImage { inmate_id, blob } => ActionModel::InsertImage {
                inmate_id: *inmate_id,
                blob: blob.deep_view(),
            },
            StoreAction::InsertBond { inmate_id, bond_type, bond_amount } => {
                ActionModel::InsertBond {
                    inmate_id: *inmate_id,
                    bond: BondModel { bond_type: bond_type@, bond_amount: *bond_amount as nat },
                }
            },
            StoreAction::InsertCharge { inmate_id, description, grade, offense_date } => {
                ActionModel::InsertCharge {
                    inmate_id: *inmate_id,
                    charge: ChargeModel {
                        description: description@,
                        grade: *grade,
                        offense_date: offense_date@,
                    },
                }
            },
            StoreAction::Commit => ActionModel::Commit,
            StoreAction::Rollback => ActionModel::Rollback,
            StoreAction::Finish => ActionModel::Finish,
        }
    }
}

/// How the store, or the object storage, answered an action.
#[derive(Debug)]
pub enum StoreReply {
    /// The action was carried out.
    Done,
    /// The action was carried out and gave this identity.
    Id(i32),
    /// The action failed.
    Failed(Error),
}

/// What a `StoreReply` is.
pub ghost enum ReplyModel {
    Done,
    Id(i32),
    Failed(ErrorModel),
}

impl View for StoreReply {
    type V = ReplyModel;

    open spec fn view(&self) -> ReplyModel {
        match self {
            StoreReply::Done => ReplyModel::Done,
            StoreReply::Id(id) => ReplyModel::Id(*id),
            StoreReply::Failed(e) => ReplyModel::Failed(e@),
        }
    }
}

/// How the persisting of a record ended: with the identity of the person's
/// row, or with the error that undid it.
pub type OutcomeModel = Result<i32, ErrorModel>;

/// The state of the persisting of one record.
pub ghost struct SerializerModel {
    /// The record that is persisted.
    pub record: RecordModel,
    /// Whether there is an object storage.
    pub storage_available: bool,
    /// The aliases that are written.
    pub aliases: Seq<Seq<char>>,
    /// What is awaited.
    pub phase: Phase,
    /// The identity of the person's row, once it is known.
    pub inmate_id: i32,
    /// Which alias, bond or charge is being written.
    pub next: nat,
    /// The error that is being rolled back for.
    pub failure: Option<ErrorModel>,
    /// How it ended, once it has.
    pub outcome: Option<OutcomeModel>,
}

/// The explanation of the error for a store that inserts a person's row
/// without reporting its identity.
pub open spec fn missing_identity() -> Seq<char> {
    "Expect inmate id to be present in profile serialization."@
}

/// The state in which the persisting of a record starts, once the opening of
/// the transaction was asked for.
pub open spec fn initial(record: RecordModel, storage_available: bool) -> SerializerModel {
    SerializerModel {
        record,
        storage_available,
        aliases: alias_worklist(record.profile.aliases),
        phase: Phase::Beginning,
        inmate_id: 0,
        next: 0,
        failure: None,
        outcome: None,
    }
}

/// Ends the persisting with an outcome.
pub open spec fn finish(m: SerializerModel, outcome: OutcomeModel) -> (SerializerModel, ActionModel) {
    (
        SerializerModel { phase: Phase::Finished, failure: None, outcome: Some(outcome), ..m },
        ActionModel::Finish,
    )
}

/// Gives the record up: the transaction is rolled back, and the error is
/// kept for the outcome.
pub open spec fn abort(m: SerializerModel, e: ErrorModel) -> (SerializerModel, ActionModel) {
    (SerializerModel { phase: Phase::RollingBack, failure: Some(e), ..m }, ActionModel::Rollback)
}

/// Goes on with the charges from the `k`-th on, and with the commit after
/// the last.
pub open spec fn charges_from(m: SerializerModel, k: nat) -> (SerializerModel, ActionModel) {
    if k < m.record.charges.len() {
        (
            SerializerModel { phase: Phase::InsertingCharge, next: k, ..m },
            ActionModel::InsertCharge { inmate_id: m.inmate_id, charge: m.record.charges[k as int] },
        )
    } else {
        (SerializerModel { phase: Phase::Committing, next: 0, ..m }, ActionModel::Commit)
    }
}

/// Goes on with the bonds from the `k`-th on, and with the charges after the
/// last.
pub open spec fn bonds_from(m: SerializerModel, k: nat) -> (SerializerModel, ActionModel) {
    if k < m.record.bond.len() {
        (
            SerializerModel { phase: Phase::InsertingBond, next: k, ..m },
            ActionModel::InsertBond { inmate_id: m.inmate_id, bond: m.record.bond[k as int] },
        )
    } else {
        charges_from(m, 0)
    }
}

/// Goes on with the aliases from the `k`-th on, and with the row of the
/// photo after the last.
pub open spec fn aliases_from(m: SerializerModel, k: nat) -> (SerializerModel, ActionModel) {
    if k < m.aliases.len() {
        (
            SerializerModel { phase: Phase::UpsertingAlias, next: k, ..m },
            ActionModel::UpsertAlias { alias: m.aliases[k as int] },
        )
    } else {
        (
            SerializerModel { phase: Phase::InsertingImage, next: 0, ..m },
            ActionModel::InsertImage { inmate_id: m.inmate_id, blob: m.record.profile.img_blob },
        )
    }
}

/// What follows from an answer of the store: the next state and the next
/// action.
///
/// The person's row is inserted first. If the store refuses it, as it does
/// for a person it already holds, the transaction is rolled back and nothing
/// else is written. The photo is handed to object storage only after the row
/// was accepted; if that fails, the photo address of the row is emptied and
/// the record goes on. An alias whose identity cannot be had is passed over.
/// Any other failure rolls the transaction back.
pub open spec fn step(m: SerializerModel, reply: ReplyModel) -> (SerializerModel, ActionModel) {
    match m.phase {
        Phase::Beginning => match reply {
            ReplyModel::Failed(e) => finish(m, Err(e)),
            _ => (
                SerializerModel { phase: Phase::InsertingInmate, ..m },
                ActionModel::InsertInmate {
                    profile: m.record.profile,
                    img_url: planned_image_url(m.record.profile, m.storage_available),
                },
            ),
        },
        Phase::InsertingInmate => match reply {
            ReplyModel::Id(id) => {
                let known = SerializerModel { inmate_id: id, ..m };
                if storage_eligible(m.record.profile, m.storage_available) {
                    (
                        SerializerModel { phase: Phase::Uploading, ..known },
                        ActionModel::UploadImage {
                            key: image_key(m.record.profile),
                            bytes: m.record.profile.img_blob->Some_0,
                        },
                    )
                } else {
                    aliases_from(known, 0)
                }
            },
            ReplyModel::Failed(e) => abort(m, e),
            ReplyModel::Done => abort(m, ErrorModel::InternalError(missing_identity())),
        },
        Phase::Uploading => match reply {
            ReplyModel::Failed(_) => (
                SerializerModel { phase: Phase::ClearingImageUrl, ..m },
                ActionModel::ClearImageUrl { inmate_id: m.inmate_id },
            ),
            _ => aliases_from(m, 0),
        },
        Phase::ClearingImageUrl => match reply {
            ReplyModel::Failed(e) => abort(m, e),
            _ => aliases_from(m, 0),
        },
        Phase::UpsertingAlias => match reply {
            ReplyModel::Id(alias_id) => (
                SerializerModel { phase: Phase::LinkingAlias, ..m },
                ActionModel::LinkAlias { inmate_id: m.inmate_id, alias_id },
            ),
            _ => aliases_from(m, m.next + 1),
        },
        Phase::LinkingAlias => match reply {
            ReplyModel::Failed(e) => abort(m, e),
            _ => aliases_from(m, m.next + 1),
        },
        Phase::InsertingImage => match reply {
            ReplyModel::Failed(e) => abort(m, e),
            _ => bonds_from(m, 0),
        },
        Phase::InsertingBond => match reply {
            ReplyModel::Failed(e) => abort(m, e),
            _ => bonds_from(m, m.next + 1),
        },
        Phase::InsertingCharge => match reply {
            ReplyModel::Failed(e) => abort(m, e),
            _ => charges_from(m, m.next + 1),
        },
        Phase::Committing => match reply {
            ReplyModel::Failed(e) => finish(m, Err(e)),
            _ => finish(m, Ok(m.inmate_id)),
        },
        Phase::RollingBack => match m.failure {
            Some(e) => finish(m, Err(e)),
            None => finish(m, Err(ErrorModel::InternalError(missing_identity()))),
        },
        Phase::Finished => (m, ActionModel::Finish),
    }
}

/// The persisting of one record, step by step.
#[derive(Debug)]
pub struct Serializer {
    record: Record,
    storage_available: bool,
    aliases: Vec<String>,
    phase: Phase,
    inmate_id: i32,
    next: usize,
    failure: Option<Error>,
    outcome: Option<Result<i32, Error>>,
}

/// What an outcome is, with the explanation of its error as a sequence of
/// characters.
pub open spec fn outcome_model(outcome: Option<Result<i32, Error>>) -> Option<OutcomeModel> {
    match outcome {
        None => None,
        Some(Ok(id)) => Some(Ok(id)),
        Some(Err(e)) => Some(Err(e@)),
    }
}

impl View for Serializer {
    type V = SerializerModel;

    closed spec fn view(&self) -> SerializerModel {
        SerializerModel {
            record: self.record@,
            storage_available: self.storage_available,
            aliases: texts(self.aliases@),
            phase: self.phase,
            inmate_id: self.inmate_id,
            next: self.next as nat,
            failure: match self.failure {
                None => None,
                Some(e) => Some(e@),
            },
            outcome: outcome_model(self.outcome),
        }
    }
}

impl Serializer {
    /// Starts the persisting of a record. `storage_available` says whether
    /// there is an object storage to hand the photo to. The first action is
    /// always the opening of a transaction.
    pub fn new(record: Record, storage_available: bool) -> (start: (Serializer, StoreAction))
        ensures
            start.0@ == initial(record@, storage_available),
            start.1@ == ActionModel::Begin,
    {
        let aliases = distinct_aliases(&record.profile.aliases);
        (
            Serializer {
                record,
                storage_available,
                aliases,
                phase: Phase::Beginning,
                inmate_id: 0,
                next: 0,
                failure: None,
                outcome: None,
            },
            StoreAction::Begin,
        )
    }

    /// The record that is persisted.
    pub fn record(&self) -> (record: &Record)
        ensures
            record@ == self@.record,
    {
        &self.record
    }

    /// What is awaited from the store.
    pub fn phase(&self) -> (phase: Phase)
        ensures
            phase == self@.phase,
    {
        self.phase
    }

    /// Whether the outcome is known.
    pub fn is_finished(&self) -> (finished: bool)
        ensures
            finished == (self@.phase == Phase::Finished),
    {
        match self.phase {
            Phase::Finished => true,
            _ => false,
        }
    }

    /// How the persisting ended: the identity of the person's row, or the
    /// error that undid the record. `None` while it has not ended.
    pub fn into_outcome(self) -> (outcome: Option<Result<i32, Error>>)
        ensures
            outcome_model(outcome) == self@.outcome,
    {
        self.outcome
    }

    /// Ends the persisting with an outcome.
    fn finish(&mut self, outcome: Result<i32, Error>) -> (action: StoreAction)
        ensures
            (final(self)@, action@) == finish(old(self)@, outcome_model(Some(outcome))->Some_0),
    {
        self.phase = Phase::Finished;
        self.failure = None;
        self.outcome = Some(outcome);
        StoreAction::Finish
    }

    /// Gives the record up and asks for the rollback.
    fn abort(&mut self, e: Error) -> (action: StoreAction)
        ensures
            (final(self)@, action@) == abort(old(self)@, e@),
    {
        self.phase = Phase::RollingBack;
        self.failure = Some(e);
        StoreAction::Rollback
    }

    /// Goes on with the charges from the `k`-th on.
    fn charges_from(&mut self, k: usize) -> (action: StoreAction)
        ensures
            (final(self)@, action@) == charges_from(old(self)@, k as nat),
    {
        if k < self.record.charges.charges.len() {
            let charge = &self.record.charges.charges[k];
            let action = StoreAction::InsertCharge {
                inmate_id: self.inmate_id,
                description: charge.description.clone(),
                grade: charge.grade,
                offense_date: charge.offense_date.clone(),
            };
            self.phase = Phase::InsertingCharge;
            self.next = k;
            action
        } else {
            self.phase = Phase::Committing;
            self.next = 0;
            StoreAction::Commit
        }
    }

    /// Goes on with the bonds from the `k`-th on.
    fn bonds_from(&mut self, k: usize) -> (action: StoreAction)
        ensures
            (final(self)@, action@) == bonds_from(old(self)@, k as nat),
    {
        if k < self.record.bond.bonds.len() {
            let bond = &self.record.bond.bonds[k];
            let action = StoreAction::InsertBond {
                inmate_id: self.inmate_id,
                bond_type: bond.bond_type.clone(),
                bond_amount: bond.bond_amount,
            };
            self.phase = Phase::InsertingBond;
            self.next = k;
            action
        } else {
            self.charges_from(0)
        }
    }

    /// Goes on with the aliases from the `k`-th on.
    fn aliases_from(&mut self, k: usize) -> (action: StoreAction)
        ensures
            (final(self)@, action@) == aliases_from(old(self)@, k as nat),
    {
        if k < self.aliases.len() {
            let action = StoreAction::UpsertAlias { alias: self.aliases[k].clone() };
            self.phase = Phase::UpsertingAlias;
            self.next = k;
            action
        } else {
            let blob = match &self.record.profile.img_blob {
                None => None,
                Some(bytes) => Some(bytes.clone()),
            };
            self.phase = Phase::InsertingImage;
            self.next = 0;
            StoreAction::InsertImage { inmate_id: self.inmate_id, blob }
        }
    }

    /// Takes the answer to the opening of the transaction.
    fn after_begin(&mut self, reply: StoreReply) -> (action: StoreAction)
        requires
            old(self)@.phase == Phase::Beginning,
        ensures
            (final(self)@, action@) == step(old(self)@, reply@),
    {
        match reply {
            StoreReply::Failed(e) => self.finish(Err(e)),
            _ => {
                let img_url = if has_s3_upload_criteria(
                    &self.record.profile,
                    self.storage_available,
                ) {
                    self.record.profile.get_hash_on_core_attributes()
                } else {
                    String::new()
                };
                let profile = self.record.profile.duplicate();
                self.phase = Phase::InsertingInmate;
                StoreAction::InsertInmate { profile, img_url }
            },
        }
    }

    /// Takes the answer to the insert of the person's row.
    fn after_inmate(&mut self, reply: StoreReply) -> (action: StoreAction)
        requires
            old(self)@.phase == Phase::InsertingInmate,
        ensures
            (final(self)@, action@) == step(old(self)@, reply@),
    {
        match reply {
            StoreReply::Id(id) => {
                self.inmate_id = id;
                if has_s3_upload_criteria(&self.record.profile, self.storage_available) {
                    let key = self.record.profile.get_hash_on_core_attributes();
                    let bytes = match &self.record.profile.img_blob {
                        None => Vec::new(),
                        Some(blob) => {
                            assert(blob.deep_view() =~= blob@);
                            blob.clone()
                        },
                    };
                    self.phase = Phase::Uploading;
                    StoreAction::UploadImage { key, bytes }
                } else {
                    self.aliases_from(0)
                }
            },
            StoreReply::Failed(e) => self.abort(e),
            StoreReply::Done => self.abort(
                Error::InternalError(
                    "Expect inmate id to be present in profile serialization.".to_string(),
                ),
            ),
        }
    }

    /// Takes the answer to the storing of the photo.
    fn after_upload(&mut self, reply: StoreReply) -> (action: StoreAction)
        requires
            old(self)@.phase == Phase::Uploading,
        ensures
            (final(self)@, action@) == step(old(self)@, reply@),
    {
        match reply {
            StoreReply::Failed(_) => {
                self.phase = Phase::ClearingImageUrl;
                StoreAction::ClearImageUrl { inmate_id: self.inmate_id }
            },
            _ => self.aliases_from(0),
        }
    }

    /// Takes the answer to the upsert of an alias.
    fn after_alias(&mut self, reply: StoreReply) -> (action: StoreAction)
        requires
            old(self)@.phase == Phase::UpsertingAlias,
        ensures
            (final(self)@, action@) == step(old(self)@, reply@),
    {
        match reply {
            StoreReply::Id(alias_id) => {
                self.phase = Phase::LinkingAlias;
                StoreAction::LinkAlias { inmate_id: self.inmate_id, alias_id }
            },
            _ => self.next_alias(),
        }
    }

    /// Goes on with the bond after the current one.
    fn next_bond(&mut self) -> (action: StoreAction)
        ensures
            (final(self)@, action@) == bonds_from(old(self)@, old(self)@.next + 1),
    {
        if self.next < self.record.bond.bonds.len() {
            self.bonds_from(self.next + 1)
        } else {
            self.charges_from(0)
        }
    }

    /// Goes on with the charge after the current one.
    fn next_charge(&mut self) -> (action: StoreAction)
        ensures
            (final(self)@, action@) == charges_from(old(self)@, old(self)@.next + 1),
    {
        if self.next < self.record.charges.charges.len() {
            self.charges_from(self.next + 1)
        } else {
            self.phase = Phase::Committing;
            self.next = 0;
            StoreAction::Commit
        }
    }

    /// Ends the persisting after the rollback with the error that was kept.
    fn after_rollback(&mut self) -> (action: StoreAction)
        requires
            old(self)@.phase == Phase::RollingBack,
        ensures
            (final(self)@, action@) == step(old(self)@, ReplyModel::Done),
    {
        let held = self.failure.take();
        match held {
            Some(e) => self.finish(Err(e)),
            None => self.finish(
                Err(
                    Error::InternalError(
                        "Expect inmate id to be present in profile serialization.".to_string(),
                    ),
                ),
            ),
        }
    }

    /// Takes the store's answer to the last action and says what is to be
    /// done next.
    pub fn advance(&mut self, reply: StoreReply) -> (action: StoreAction)
        ensures
            (final(self)@, action@) == step(old(self)@, reply@),
    {
        match self.phase {
            Phase::Beginning => self.after_begin(reply),
            Phase::InsertingInmate => self.after_inmate(reply),
            Phase::Uploading => self.after_upload(reply),
            Phase::ClearingImageUrl => match reply {
                StoreReply::Failed(e) => self.abort(e),
                _ => self.aliases_from(0),
            },
            Phase::UpsertingAlias => self.after_alias(reply),
            Phase::LinkingAlias => match reply {
                StoreReply::Failed(e) => self.abort(e),
                _ => self.next_alias(),
            },
            Phase::InsertingImage => match reply {
                StoreReply::Failed(e) => self.abort(e),
                _ => self.bonds_from(0),
            },
            Phase::InsertingBond => match reply {
                StoreReply::Failed(e) => self.abort(e),
                _ => self.next_bond(),
            },
            Phase::InsertingCharge => match reply {
                StoreReply::Failed(e) => self.abort(e),
                _ => self.next_charge(),
            },
            Phase::Committing => match reply {
                StoreReply::Failed(e) => self.finish(Err(e)),
                _ => self.finish(Ok(self.inmate_id)),
            },
            Phase::RollingBack => self.after_rollback(),
            Phase::Finished => StoreAction::Finish,
        }
    }

    /// Goes on with the alias after the current one.
    fn next_alias(&mut self) -> (action: StoreAction)
        ensures
            (final(self)@, action@) == aliases_from(old(self)@, old(self)@.next + 1),
    {
        if self.next < self.aliases.len() {
            self.aliases_from(self.next + 1)
        } else {
            let blob = match &self.record.profile.img_blob {
                None => None,
                Some(bytes) => Some(bytes.clone()),
            };
            self.phase = Phase::InsertingImage;
            self.next = 0;
            StoreAction::InsertImage { inmate_id: self.inmate_id, blob }
        }
    }
}

} // verus!
