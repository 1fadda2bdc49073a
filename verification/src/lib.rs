//! Explainable evidence chains: an ordered list of verifiable observations
//! and the aggregate count of the checks they passed.
//!
//! The specification (`passed_links`, `passed_count`, `EvidenceChain::finalized`)
//! and the laws about it live in the `chain` module.

pub mod category;
pub mod chain;
pub mod link;

pub use category::EvidenceCategory;
pub use chain::{EvidenceChain, EvidenceStrength};
pub use link::EvidenceLink;
