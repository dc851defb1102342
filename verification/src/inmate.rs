//! The domain records that extraction builds from one roster page: a person's
//! profile, their bonds and their charges.

pub mod bond;
pub mod charge;
pub mod profile;
pub mod record;

pub use bond::{Bond, BondInformation, BondModel};
pub use charge::{Charge, ChargeGrade, ChargeInformation, ChargeModel};
pub use profile::{DbInmateProfile, ImageFetch, InmateProfile, Label, ProfileModel};
pub use record::{Record, RecordModel};
