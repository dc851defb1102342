//! Incremental harvesting of jail-roster records: extraction of structured
//! person, bond and charge data from roster markup, and the decisions of the
//! synchronisation and persistence pipeline.

pub mod crawl;
pub mod digest;
pub mod error;
pub mod filter;
pub mod inmate;
pub mod markup;
pub mod serialize;
pub mod text;
pub mod utils;

pub use error::{Error, ErrorModel};
