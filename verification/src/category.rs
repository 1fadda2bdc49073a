use vstd::prelude::*;

verus! {

/// Broad category of an evidence observation.
///
/// All variants are valid for any domain: the labels are intentionally general.
#[derive(Debug, Clone, Copy, PartialEq, Eq, Structural)]
pub enum EvidenceCategory {
    /// Shape or composition of the observed entity (counts, ratios, topology).
    Structure,
    /// Time-based observations (age, duration, gaps, timestamps).
    Temporal,
    /// Numerical or monetary observations (amounts, scores, percentages).
    Value,
    /// Pattern or history-based observations (reuse, frequency, sequences).
    Behavioral,
}

} // verus!
