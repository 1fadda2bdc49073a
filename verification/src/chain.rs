use vstd::prelude::*;

use crate::link::EvidenceLink;

verus! {

/// The links of `links` whose threshold was met, in their order.
pub open spec fn passed_links(links: Seq<EvidenceLink>) -> Seq<EvidenceLink> {
    links.filter(|l: EvidenceLink| l.threshold_met)
}

/// How many links of `links` met their threshold.
pub open spec fn passed_count(links: Seq<EvidenceLink>) -> nat {
    passed_links(links).len()
}

/// Aggregate pass count across all links of an [`EvidenceChain`].
///
/// Computed by [`EvidenceChain::finalize`]. The pass ratio is
/// `passed_checks / total_checks`, and 0 when `total_checks` is 0.
#[derive(Debug, Clone)]
pub struct EvidenceStrength {
    /// Total number of links in the chain.
    pub total_checks: usize,
    /// Number of links whose `threshold_met` is `true`.
    pub passed_checks: usize,
}

impl EvidenceStrength {
    /// The strength that the links `links` give.
    pub open spec fn of(links: Seq<EvidenceLink>) -> EvidenceStrength {
        EvidenceStrength {
            total_checks: links.len() as usize,
            passed_checks: passed_count(links) as usize,
        }
    }
}

/// An ordered chain of evidence links for a single decision.
///
/// Build the chain by adding links, then call [`finalize`](Self::finalize)
/// to compute the aggregate [`EvidenceStrength`].
///
/// `heuristic_id` and `heuristic_version` identify the rule or model that
/// produced this chain.
#[derive(Debug, Clone)]
pub struct EvidenceChain {
    /// Identifier of the rule or model that produced this chain.
    pub heuristic_id: String,
    /// Version of the rule or model.
    pub heuristic_version: String,
    /// Ordered list of evidence observations.
    pub links: Vec<EvidenceLink>,
    /// Aggregate strength, populated by [`finalize`](Self::finalize).
    pub strength: EvidenceStrength,
}

impl EvidenceChain {
    /// This chain with its strength recomputed from its links.
    pub open spec fn finalized(self) -> EvidenceChain {
        EvidenceChain {
            heuristic_id: self.heuristic_id,
            heuristic_version: self.heuristic_version,
            links: self.links,
            strength: EvidenceStrength::of(self.links@),
        }
    }

    /// Creates an empty chain for the given rule identifier and version.
    pub fn new(heuristic_id: &str, version: &str) -> (chain: Self)
        ensures
            chain.heuristic_id@ == heuristic_id@,
            chain.heuristic_version@ == version@,
            chain.links@ == Seq::<EvidenceLink>::empty(),
            chain.strength.total_checks == 0,
            chain.strength.passed_checks == 0,
    {
        EvidenceChain {
            heuristic_id: heuristic_id.to_owned(),
            heuristic_version: version.to_owned(),
            links: Vec::new(),
            strength: EvidenceStrength { total_checks: 0, passed_checks: 0 },
        }
    }

    /// Appends an evidence link at the end of the chain.
    ///
    /// The strength is not recomputed: call [`finalize`](Self::finalize) afterwards.
    pub fn add_link(&mut self, link: EvidenceLink)
        ensures
            final(self).links@ == old(self).links@.push(link),
            final(self).heuristic_id == old(self).heuristic_id,
            final(self).heuristic_version == old(self).heuristic_version,
            final(self).strength == old(self).strength,
    {
        self.links.push(link);
    }

    /// Recomputes [`EvidenceStrength`] from the current links.
    ///
    /// Idempotent: safe to call multiple times.
    pub fn finalize(&mut self)
        ensures
            *final(self) == old(self).finalized(),
            final(self).strength.total_checks == old(self).links@.len(),
            final(self).strength.passed_checks == passed_count(old(self).links@),
    {
        let total = self.links.len();
        let mut passed: usize = 0;
        let mut i: usize = 0;
        while i < total
            invariant
                total == self.links@.len(),
                i <= total,
                passed == passed_count(self.links@.take(i as int)),
                passed <= i,
            decreases total - i,
        {
            proof {
                assert(self.links@.take(i + 1) =~= self.links@.take(i as int).push(
                    self.links@[i as int],
                ));
                lemma_passed_count_push(self.links@.take(i as int), self.links@[i as int]);
            }
            if self.links[i].threshold_met {
                passed = passed + 1;
            }
            i = i + 1;
        }
        proof {
            assert(self.links@.take(total as int) =~= self.links@);
        }
        self.strength = EvidenceStrength { total_checks: total, passed_checks: passed };
    }
}

/// Adding one link adds one passed check if the link met its threshold, and none otherwise.
pub proof fn lemma_passed_count_push(links: Seq<EvidenceLink>, link: EvidenceLink)
    ensures
        passed_count(links.push(link)) == passed_count(links) + (if link.threshold_met {
            1nat
        } else {
            0nat
        }),
{
    reveal_with_fuel(Seq::filter, 1);
    assert(links.push(link).drop_last() =~= links);
}

/// A chain never has more passed checks than checks: its pass ratio lies between 0 and 1.
pub proof fn lemma_passed_at_most_total(links: Seq<EvidenceLink>)
    ensures
        passed_count(links) <= links.len(),
{
    links.lemma_filter_len(|l: EvidenceLink| l.threshold_met);
}

/// Every check passed (a pass ratio of 1, when there are links) exactly when every
/// link met its threshold.
pub proof fn lemma_all_passed_iff_full_strength(links: Seq<EvidenceLink>)
    ensures
        passed_count(links) == links.len() <==> (forall|i: int|
            0 <= i < links.len() ==> #[trigger] links[i].threshold_met),
    decreases links.len(),
{
    if links.len() > 0 {
        let init = links.drop_last();
        lemma_all_passed_iff_full_strength(init);
        lemma_passed_at_most_total(init);
        assert(init.push(links.last()) =~= links);
        lemma_passed_count_push(init, links.last());
        if forall|i: int| 0 <= i < links.len() ==> #[trigger] links[i].threshold_met {
            assert forall|i: int| 0 <= i < init.len() implies #[trigger] init[i].threshold_met by {
                assert(init[i] == links[i]);
            }
        } else {
            let j = choose|j: int| 0 <= j < links.len() && !#[trigger] links[j].threshold_met;
            if j < links.len() - 1 {
                assert(init[j] == links[j]);
            }
        }
    }
}

/// Finalizing an already finalized chain changes nothing.
pub proof fn lemma_finalize_idempotent(chain: EvidenceChain)
    ensures
        chain.finalized().finalized() == chain.finalized(),
{
}

} // verus!
