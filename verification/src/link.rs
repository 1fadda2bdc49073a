use vstd::prelude::*;

use crate::category::EvidenceCategory;

verus! {

/// A single verifiable observation in an evidence chain.
///
/// Each link records *what* was observed (`observation`), *where* it can be
/// verified (`reference`), *how much* was measured (`metric_value` and
/// `metric_unit`) and *whether* it cleared the decision threshold
/// (`threshold`, `threshold_met`).
///
/// Measured values and thresholds are kept as the bit patterns of IEEE-754
/// binary64 numbers: the library carries them unchanged and never computes
/// with them.
#[derive(Debug, Clone)]
pub struct EvidenceLink {
    /// Broad category of this observation.
    pub category: EvidenceCategory,
    /// Human-readable description of the observed fact.
    pub observation: String,
    /// Verifiable pointer to the source: an ID, hash, URL, timestamp, etc.
    pub reference: String,
    /// Bit pattern of the numerical measurement of the observation (optional).
    pub metric_value: Option<u64>,
    /// Unit of `metric_value` (e.g. `"USD"`, `"blocks"`, `"ratio"`).
    pub metric_unit: Option<String>,
    /// Bit pattern of the decision threshold for this criterion (optional).
    pub threshold: Option<u64>,
    /// `true` if the measurement satisfies `threshold`, or if no threshold applies.
    pub threshold_met: bool,
}

impl EvidenceLink {
    /// Creates a new link with the minimum required fields.
    ///
    /// It carries no measurement and no threshold, and `threshold_met` is `true`:
    /// a link without a threshold counts as passed.
    pub fn new(category: EvidenceCategory, observation: &str, reference: &str) -> (link: Self)
        ensures
            link.category == category,
            link.observation@ == observation@,
            link.reference@ == reference@,
            link.metric_value is None,
            link.metric_unit is None,
            link.threshold is None,
            link.threshold_met,
    {
        EvidenceLink {
            category,
            observation: observation.to_owned(),
            reference: reference.to_owned(),
            metric_value: None,
            metric_unit: None,
            threshold: None,
            threshold_met: true,
        }
    }

    /// Attaches a measurement (the bit pattern of its value) and its unit to this link.
    ///
    /// Every other field is kept, so a threshold set before stays in place.
    pub fn with_metric(self, value: u64, unit: &str) -> (link: Self)
        ensures
            link.metric_value == Some(value),
            link.metric_unit matches Some(u) && u@ == unit@,
            link.category == self.category,
            link.observation == self.observation,
            link.reference == self.reference,
            link.threshold == self.threshold,
            link.threshold_met == self.threshold_met,
    {
        let mut link = self;
        link.metric_value = Some(value);
        link.metric_unit = Some(unit.to_owned());
        link
    }

    /// Records the decision threshold (the bit pattern of its value) and whether it was met.
    ///
    /// Every other field is kept, so a measurement set before stays in place.
    pub fn with_threshold(self, threshold: u64, met: bool) -> (link: Self)
        ensures
            link.threshold == Some(threshold),
            link.threshold_met == met,
            link.category == self.category,
            link.observation == self.observation,
            link.reference == self.reference,
            link.metric_value == self.metric_value,
            link.metric_unit == self.metric_unit,
    {
        let mut link = self;
        link.threshold = Some(threshold);
        link.threshold_met = met;
        link
    }
}

} // verus!
