//! Workload suitability: per-dimension decisions on the evidence of a
//! target run, and the selection decision and blocked claims they lead to.

use crate::contracts::{
    SuitabilityConfidence, SuitabilityDecisionValue, SuitabilityDimensionDecision, SuitabilityDimensionKind,
    SuitabilityPolicyRules,
};
use crate::error::{LabError, LabResult};
use crate::evidence::catalog::{catalog_blocked_text, catalog_ids, catalog_next_evidence, claim_definition};
use crate::evidence::envelope::{fresh_artifact, report_envelope, Artifact, Claim, DataQuality, DataQualityLevel, Decision, Kind, Status};
use crate::rules::suitability::SuitabilityPayload;
use crate::run_validation::{copy_opt, opt_view};
use crate::text::{concat, owned, owned_all, sorted_unique, str_eq, strictly_sorted, views};
use vstd::prelude::*;

verus! {

/// One pressure artifact of a target run, as suitability reads it.
#[derive(Debug, Clone, PartialEq, Eq)]
pub struct TargetRunPressureEvidence {
    pub kind: String,
    pub status_state: String,
    pub evidence_class: String,
    pub effect_observed: bool,
    pub network_mode: Option<String>,
    pub network_endpoint_available: Option<bool>,
    pub network_traffic_generated_bytes: Option<u64>,
    pub artifact_ref: String,
}

/// The recorded status counts as measured.
pub open spec fn measuredish_spec(e: TargetRunPressureEvidence) -> bool {
    e.status_state@ == "measured"@ || e.status_state@ == "measured_partial"@
}

/// A measured endpoint-backed bounded transfer that moved data.
pub open spec fn bounded_transfer_spec(e: TargetRunPressureEvidence) -> bool {
    &&& e.kind@ == "network_io"@
    &&& measuredish_spec(e)
    &&& e.effect_observed
    &&& e.network_mode matches Some(m) && m@ == "bounded_transfer"@
    &&& e.network_endpoint_available == Some(true)
    &&& e.network_traffic_generated_bytes matches Some(b) && b > 0
}

impl TargetRunPressureEvidence {
    /// Whether the recorded status counts as measured.
    pub fn is_measuredish(&self) -> (r: bool)
        ensures
            r == measuredish_spec(*self),
    {
        str_eq(self.status_state.as_str(), "measured") || str_eq(self.status_state.as_str(), "measured_partial")
    }

    /// Whether this is a measured endpoint-backed bounded transfer that
    /// moved data.
    pub fn is_endpoint_backed_bounded_transfer(&self) -> (r: bool)
        ensures
            r == bounded_transfer_spec(*self),
    {
        let mode_ok = match &self.network_mode {
            Some(m) => str_eq(m.as_str(), "bounded_transfer"),
            None => false,
        };
        let bytes = match self.network_traffic_generated_bytes {
            Some(b) => b,
            None => 0,
        };
        str_eq(self.kind.as_str(), "network_io") && self.is_measuredish() && self.effect_observed && mode_ok
            && self.network_endpoint_available == Some(true) && bytes > 0
    }
}

/// A dimension without the evidence to decide it.
pub open spec fn unknown_dimension_spec(
    d: SuitabilityDimensionDecision,
    dimension: SuitabilityDimensionKind,
    reason: Seq<char>,
    refs: Seq<Seq<char>>,
    target_conditioned: bool,
    portable: bool,
) -> bool {
    &&& d.dimension == dimension
    &&& d.decision == SuitabilityDecisionValue::Unknown
    &&& d.requirement@ == "required evidence must be present"@
    &&& d.observed_demand is None
    &&& d.target_envelope is None
    &&& d.margin is None
    &&& d.confidence == SuitabilityConfidence::Low
    &&& d.target_conditioned == target_conditioned
    &&& d.portable_between_targets == portable
    &&& views(d.evidence_refs@) == refs
    &&& d.unknown_reason matches Some(r) && r@ == reason
    &&& views(d.next_evidence_needed@) == seq![reason]
}

/// A dimension without the evidence to decide it.
pub fn unknown_dimension(
    dimension: SuitabilityDimensionKind,
    reason: &str,
    evidence_refs: Vec<String>,
    target_conditioned: bool,
    portable_between_targets: bool,
) -> (d: SuitabilityDimensionDecision)
    ensures
        unknown_dimension_spec(d, dimension, reason@, views(evidence_refs@), target_conditioned, portable_between_targets),
{
    SuitabilityDimensionDecision {
        dimension,
        decision: SuitabilityDecisionValue::Unknown,
        requirement: owned("required evidence must be present"),
        observed_demand: None,
        target_envelope: None,
        margin: None,
        confidence: SuitabilityConfidence::Low,
        target_conditioned,
        portable_between_targets,
        evidence_refs,
        unknown_reason: Some(owned(reason)),
        next_evidence_needed: crate::text::single(reason),
    }
}

/// The pressure evidence of a kind, in order.
pub open spec fn matching_spec(pressure: Seq<TargetRunPressureEvidence>, kind: Seq<char>) -> Seq<TargetRunPressureEvidence>
    decreases pressure.len(),
{
    if pressure.len() == 0 {
        Seq::empty()
    } else if pressure.last().kind@ == kind {
        matching_spec(pressure.drop_last(), kind).push(pressure.last())
    } else {
        matching_spec(pressure.drop_last(), kind)
    }
}

/// The pressure evidence of a kind, in order.
pub fn matching_pressure<'a>(pressure: &'a Vec<TargetRunPressureEvidence>, kind: &str) -> (found: Vec<&'a TargetRunPressureEvidence>)
    ensures
        found@.len() == matching_spec(pressure@, kind@).len(),
        forall|j: int| 0 <= j < found@.len() ==> *found@[j] == matching_spec(pressure@, kind@)[j],
{
    let mut found: Vec<&TargetRunPressureEvidence> = Vec::new();
    let mut i: usize = 0;
    while i < pressure.len()
        invariant
            i <= pressure@.len(),
            found@.len() == matching_spec(pressure@.subrange(0, i as int), kind@).len(),
            forall|j: int| 0 <= j < found@.len() ==> *found@[j] == matching_spec(pressure@.subrange(0, i as int), kind@)[j],
        decreases pressure.len() - i,
    {
        proof {
            assert(pressure@.subrange(0, i + 1).drop_last() =~= pressure@.subrange(0, i as int));
            assert(pressure@.subrange(0, i + 1).last() == pressure@[i as int]);
        }
        if str_eq(pressure[i].kind.as_str(), kind) {
            found.push(&pressure[i]);
        }
        i = i + 1;
    }
    proof {
        assert(pressure@.subrange(0, pressure@.len() as int) =~= pressure@);
    }
    found
}

} // verus!

verus! {

/// `s` is one of the references or the artifact of one of the pressure
/// evidence items.
pub open spec fn pressure_ref(refs: Seq<Seq<char>>, pressure: Seq<TargetRunPressureEvidence>, s: Seq<char>) -> bool {
    refs.contains(s) || exists|j: int| 0 <= j < pressure.len() && (#[trigger] pressure[j]).artifact_ref@ == s
}

/// The references together with the pressure artifacts, sorted, without
/// repetition.
pub fn refs_with_pressure(evidence_refs: Vec<String>, pressure: &Vec<&TargetRunPressureEvidence>) -> (refs: Vec<String>)
    ensures
        strictly_sorted(views(refs@)),
        forall|s: Seq<char>| views(refs@).contains(s) <==> pressure_ref(views(evidence_refs@),
            pressure@.map_values(|p: &TargetRunPressureEvidence| *p), s),
{
    let ghost base = views(evidence_refs@);
    let ghost ps = pressure@.map_values(|p: &TargetRunPressureEvidence| *p);
    let mut all = evidence_refs;
    let mut i: usize = 0;
    while i < pressure.len()
        invariant
            i <= pressure@.len(),
            ps == pressure@.map_values(|p: &TargetRunPressureEvidence| *p),
            forall|s: Seq<char>| views(all@).contains(s) <==> pressure_ref(base, ps.subrange(0, i as int), s),
        decreases pressure.len() - i,
    {
        let ghost prev = views(all@);
        all.push(owned(pressure[i].artifact_ref.as_str()));
        proof {
            let before = ps.subrange(0, i as int);
            let after = ps.subrange(0, i + 1);
            assert(views(all@) =~= prev.push(ps[i as int].artifact_ref@));
            assert forall|s: Seq<char>| views(all@).contains(s) <==> pressure_ref(base, after, s) by {
                assert(prev.contains(s) <==> pressure_ref(base, before, s));
                assert(after[i as int] == ps[i as int]);
                if views(all@).contains(s) {
                    let w = choose|w: int| 0 <= w < views(all@).len() && views(all@)[w] == s;
                    if w < prev.len() {
                        assert(prev[w] == s);
                        assert(prev.contains(s));
                        if !base.contains(s) {
                            let j = choose|j: int| 0 <= j < before.len() && (#[trigger] before[j]).artifact_ref@ == s;
                            assert(after[j] == before[j]);
                        }
                    }
                }
                if pressure_ref(base, after, s) {
                    if base.contains(s) {
                        assert(pressure_ref(base, before, s));
                        let w = choose|w: int| 0 <= w < prev.len() && prev[w] == s;
                        assert(views(all@)[w] == s);
                    } else {
                        let j = choose|j: int| 0 <= j < after.len() && (#[trigger] after[j]).artifact_ref@ == s;
                        if j < i {
                            assert(before[j] == after[j]);
                            assert(pressure_ref(base, before, s));
                            let w = choose|w: int| 0 <= w < prev.len() && prev[w] == s;
                            assert(views(all@)[w] == s);
                        } else {
                            assert(views(all@)[prev.len() as int] == s);
                        }
                    }
                }
            }
        }
        i = i + 1;
    }
    proof {
        assert(ps.subrange(0, ps.len() as int) =~= ps);
    }
    sorted_unique(all)
}

/// A dimension decided marginal on run-backed evidence.
pub open spec fn marginal_spec(
    d: SuitabilityDimensionDecision,
    dimension: SuitabilityDimensionKind,
    requirement: Seq<char>,
    observed: Seq<char>,
    envelope: Seq<char>,
    margin: Seq<char>,
    confidence: SuitabilityConfidence,
    next: Seq<char>,
) -> bool {
    &&& d.dimension == dimension
    &&& d.decision == SuitabilityDecisionValue::Marginal
    &&& d.requirement@ == requirement
    &&& d.observed_demand matches Some(o) && o@ == observed
    &&& d.target_envelope matches Some(t) && t@ == envelope
    &&& d.margin matches Some(m) && m@ == margin
    &&& d.confidence == confidence
    &&& d.target_conditioned
    &&& !d.portable_between_targets
    &&& d.unknown_reason is None
    &&& views(d.next_evidence_needed@) == seq![next]
}

fn marginal(
    dimension: SuitabilityDimensionKind,
    requirement: &str,
    observed: String,
    envelope: &str,
    margin: &str,
    confidence: SuitabilityConfidence,
    evidence_refs: Vec<String>,
    next: &str,
) -> (d: SuitabilityDimensionDecision)
    ensures
        marginal_spec(d, dimension, requirement@, observed@, envelope@, margin@, confidence, next@),
        d.evidence_refs@ == evidence_refs@,
{
    SuitabilityDimensionDecision {
        dimension,
        decision: SuitabilityDecisionValue::Marginal,
        requirement: owned(requirement),
        observed_demand: Some(observed),
        target_envelope: Some(owned(envelope)),
        margin: Some(owned(margin)),
        confidence,
        target_conditioned: true,
        portable_between_targets: false,
        evidence_refs,
        unknown_reason: None,
        next_evidence_needed: crate::text::single(next),
    }
}

/// The evidence of a dimension decided on pressure evidence: the
/// references with the matching pressure artifacts, sorted.
pub open spec fn decided_refs(d: SuitabilityDimensionDecision, refs: Seq<Seq<char>>, matching: Seq<TargetRunPressureEvidence>) -> bool {
    &&& strictly_sorted(views(d.evidence_refs@))
    &&& forall|s: Seq<char>| views(d.evidence_refs@).contains(s) <==> pressure_ref(refs, matching, s)
}

/// The decision `decide_storage_io` makes from the pressure evidence and the
/// dimension's evidence references.
pub open spec fn storage_io_decided(d: SuitabilityDimensionDecision, pressure: Seq<TargetRunPressureEvidence>, evidence_refs: Seq<Seq<char>>) -> bool {
    let m = matching_spec(pressure, "storage_io"@);
    if m.len() == 0 {
        unknown_dimension_spec(d, SuitabilityDimensionKind::StorageIo, "storage_io pressure evidence is missing"@,
            evidence_refs, true, false)
    } else if exists|j: int| 0 <= j < m.len() && measuredish_spec(#[trigger] m[j]) && m[j].effect_observed {
        &&& marginal_spec(d, SuitabilityDimensionKind::StorageIo,
            "storage_io evidence must be run-backed and device-specific before it can meet"@,
            "bounded tempfile storage I/O smoke observed"@,
            "tempfile/page-cache evidence exists, but sustained device behavior is not established"@,
            "tempfile/page-cache smoke is not a storage-device meet"@, SuitabilityConfidence::Low,
            "collect device-backed sustained storage I/O evidence for storage-device meet"@)
        &&& decided_refs(d, evidence_refs, m)
    } else {
        &&& d.dimension == SuitabilityDimensionKind::StorageIo
        &&& d.decision == SuitabilityDecisionValue::Unknown
        &&& d.unknown_reason matches Some(r) && r@ == "storage_io evidence is present but insufficient for suitability"@
        &&& d.target_conditioned && !d.portable_between_targets
        &&& decided_refs(d, evidence_refs, m)
    }
}

/// The storage I/O dimension: unknown without storage pressure evidence;
/// marginal when a measured storage pressure observed an effect, since
/// tempfile evidence is not a device meet; unknown otherwise.
pub fn decide_storage_io(pressure: &Vec<TargetRunPressureEvidence>, evidence_refs: Vec<String>) -> (d: SuitabilityDimensionDecision)
    ensures
        storage_io_decided(d, pressure@, views(evidence_refs@)),
{
    let found = matching_pressure(pressure, "storage_io");
    let ghost m = matching_spec(pressure@, "storage_io"@);
    if found.len() == 0 {
        return unknown_dimension(SuitabilityDimensionKind::StorageIo, "storage_io pressure evidence is missing", evidence_refs, true, false);
    }
    proof {
        assert(found@.map_values(|p: &TargetRunPressureEvidence| *p) =~= m);
    }
    let refs = refs_with_pressure(evidence_refs, &found);
    let mut any = false;
    let mut j: usize = 0;
    while j < found.len()
        invariant
            j <= found@.len(),
            found@.len() == m.len(),
            forall|q: int| 0 <= q < found@.len() ==> *found@[q] == m[q],
            any == exists|q: int| 0 <= q < j && measuredish_spec(#[trigger] m[q]) && m[q].effect_observed,
        decreases found.len() - j,
    {
        assert(*found@[j as int] == m[j as int]);
        if found[j].is_measuredish() && found[j].effect_observed {
            any = true;
            assert(measuredish_spec(m[j as int]) && m[j as int].effect_observed);
        }
        j = j + 1;
    }
    if any {
        return marginal(
            SuitabilityDimensionKind::StorageIo,
            "storage_io evidence must be run-backed and device-specific before it can meet",
            owned("bounded tempfile storage I/O smoke observed"),
            "tempfile/page-cache evidence exists, but sustained device behavior is not established",
            "tempfile/page-cache smoke is not a storage-device meet",
            SuitabilityConfidence::Low,
            refs,
            "collect device-backed sustained storage I/O evidence for storage-device meet",
        );
    }
    unknown_dimension(SuitabilityDimensionKind::StorageIo, "storage_io evidence is present but insufficient for suitability", refs, true, false)
}

/// The decision `decide_latency_jitter` makes from the pressure evidence and the
/// dimension's evidence references.
pub open spec fn latency_jitter_decided(d: SuitabilityDimensionDecision, pressure: Seq<TargetRunPressureEvidence>, evidence_refs: Seq<Seq<char>>) -> bool {
    let m = matching_spec(pressure, "latency_jitter"@);
    if m.len() == 0 {
        unknown_dimension_spec(d, SuitabilityDimensionKind::LatencyJitter, "latency_jitter pressure evidence is missing"@,
            evidence_refs, true, false)
    } else if exists|j: int| 0 <= j < m.len() && measuredish_spec(#[trigger] m[j]) {
        &&& marginal_spec(d, SuitabilityDimensionKind::LatencyJitter,
            "latency_jitter evidence must be target-run backed and policy-thresholded before it can meet"@,
            "current-condition monotonic jitter distribution measured"@,
            "current-condition jitter evidence exists, but no workload latency SLO is established"@,
            "latency evidence is present without a policy threshold"@, SuitabilityConfidence::Low,
            "collect pressure-specific p95/p99 latency evidence with workload latency thresholds"@)
        &&& decided_refs(d, evidence_refs, m)
    } else {
        &&& d.dimension == SuitabilityDimensionKind::LatencyJitter
        &&& d.decision == SuitabilityDecisionValue::Unknown
        &&& d.unknown_reason matches Some(r) && r@ == "latency_jitter evidence is present but insufficient for suitability"@
        &&& decided_refs(d, evidence_refs, m)
    }
}

/// The latency jitter dimension: unknown without jitter evidence; marginal
/// when some jitter evidence was measured, since no latency threshold is
/// set; unknown otherwise.
pub fn decide_latency_jitter(pressure: &Vec<TargetRunPressureEvidence>, evidence_refs: Vec<String>) -> (d: SuitabilityDimensionDecision)
    ensures
        latency_jitter_decided(d, pressure@, views(evidence_refs@)),
{
    let found = matching_pressure(pressure, "latency_jitter");
    let ghost m = matching_spec(pressure@, "latency_jitter"@);
    if found.len() == 0 {
        return unknown_dimension(SuitabilityDimensionKind::LatencyJitter, "latency_jitter pressure evidence is missing", evidence_refs, true, false);
    }
    proof {
        assert(found@.map_values(|p: &TargetRunPressureEvidence| *p) =~= m);
    }
    let refs = refs_with_pressure(evidence_refs, &found);
    let mut any = false;
    let mut j: usize = 0;
    while j < found.len()
        invariant
            j <= found@.len(),
            found@.len() == m.len(),
            forall|q: int| 0 <= q < found@.len() ==> *found@[q] == m[q],
            any == exists|q: int| 0 <= q < j && measuredish_spec(#[trigger] m[q]),
        decreases found.len() - j,
    {
        assert(*found@[j as int] == m[j as int]);
        if found[j].is_measuredish() {
            any = true;
            assert(measuredish_spec(m[j as int]));
        }
        j = j + 1;
    }
    if any {
        return marginal(
            SuitabilityDimensionKind::LatencyJitter,
            "latency_jitter evidence must be target-run backed and policy-thresholded before it can meet",
            owned("current-condition monotonic jitter distribution measured"),
            "current-condition jitter evidence exists, but no workload latency SLO is established",
            "latency evidence is present without a policy threshold",
            SuitabilityConfidence::Low,
            refs,
            "collect pressure-specific p95/p99 latency evidence with workload latency thresholds",
        );
    }
    unknown_dimension(SuitabilityDimensionKind::LatencyJitter, "latency_jitter evidence is present but insufficient for suitability", refs, true, false)
}

/// The first evidence item that is an endpoint-backed bounded transfer.
pub open spec fn first_transfer(m: Seq<TargetRunPressureEvidence>) -> Option<TargetRunPressureEvidence>
    decreases m.len(),
{
    if m.len() == 0 {
        None
    } else if bounded_transfer_spec(m[0]) {
        Some(m[0])
    } else {
        first_transfer(m.drop_first())
    }
}

/// The decision `decide_network_io` makes from the pressure evidence and the
/// dimension's evidence references.
pub open spec fn network_io_decided(d: SuitabilityDimensionDecision, pressure: Seq<TargetRunPressureEvidence>, evidence_refs: Seq<Seq<char>>) -> bool {
    let m = matching_spec(pressure, "network_io"@);
    if m.len() == 0 {
        unknown_dimension_spec(d, SuitabilityDimensionKind::NetworkIo, "endpoint-backed network_io pressure evidence is missing"@,
            evidence_refs, true, false)
    } else {
        match first_transfer(m) {
            Some(e) => {
                &&& marginal_spec(d, SuitabilityDimensionKind::NetworkIo,
                    "network_io evidence must be endpoint-backed bounded_transfer before it can support suitability"@,
                    "bounded_transfer generated "@ + crate::text::decimal(e.network_traffic_generated_bytes.unwrap() as nat) + " bytes"@,
                    "endpoint-backed bounded transfer was observed under this run's network conditions"@,
                    "bounded transfer evidence present; no throughput, loss, or retry policy threshold supplied"@,
                    SuitabilityConfidence::Medium,
                    "add policy thresholds for throughput, loss, retry, and endpoint topology before claiming network meet"@)
                &&& decided_refs(d, evidence_refs, m)
            },
            None => {
                &&& d.dimension == SuitabilityDimensionKind::NetworkIo
                &&& d.decision == SuitabilityDecisionValue::Unknown
                &&& d.unknown_reason matches Some(r) && r@ == "network_io evidence is not endpoint-backed bounded_transfer; counter-only or failed endpoint evidence cannot support network suitability"@
                &&& decided_refs(d, evidence_refs, m)
            },
        }
    }
}

/// The network I/O dimension: unknown without network evidence; marginal,
/// with the transferred bytes of the first endpoint-backed bounded
/// transfer, when there is one; unknown otherwise.
pub fn decide_network_io(pressure: &Vec<TargetRunPressureEvidence>, evidence_refs: Vec<String>) -> (d: SuitabilityDimensionDecision)
    ensures
        network_io_decided(d, pressure@, views(evidence_refs@)),
{
    let found = matching_pressure(pressure, "network_io");
    let ghost m = matching_spec(pressure@, "network_io"@);
    if found.len() == 0 {
        return unknown_dimension(SuitabilityDimensionKind::NetworkIo, "endpoint-backed network_io pressure evidence is missing", evidence_refs, true, false);
    }
    proof {
        assert(found@.map_values(|p: &TargetRunPressureEvidence| *p) =~= m);
        assert(m.subrange(0, m.len() as int) =~= m);
    }
    let ghost refs0 = views(evidence_refs@);
    let refs = refs_with_pressure(evidence_refs, &found);
    let mut j: usize = 0;
    while j < found.len()
        invariant
            j <= found@.len(),
            found@.len() == m.len(),
            forall|q: int| 0 <= q < found@.len() ==> *found@[q] == m[q],
            refs0 == views(evidence_refs@),
            first_transfer(m) == first_transfer(m.subrange(j as int, m.len() as int)),
            m == matching_spec(pressure@, "network_io"@),
            strictly_sorted(views(refs@)),
            forall|s: Seq<char>| views(refs@).contains(s) <==> pressure_ref(views(evidence_refs@), m, s),
        decreases found.len() - j,
    {
        proof {
            let rest = m.subrange(j as int, m.len() as int);
            assert(rest[0] == m[j as int]);
            assert(rest.drop_first() =~= m.subrange(j + 1, m.len() as int));
        }
        assert(*found@[j as int] == m[j as int]);
        if found[j].is_endpoint_backed_bounded_transfer() {
            assert(first_transfer(m) == Some(m[j as int]));
            let bytes = match found[j].network_traffic_generated_bytes {
                Some(b) => b,
                None => 0,
            };
            let a = concat("bounded_transfer generated ", crate::text::decimal_string(bytes).as_str());
            let observed = concat(a.as_str(), " bytes");
            return marginal(
                SuitabilityDimensionKind::NetworkIo,
                "network_io evidence must be endpoint-backed bounded_transfer before it can support suitability",
                observed,
                "endpoint-backed bounded transfer was observed under this run's network conditions",
                "bounded transfer evidence present; no throughput, loss, or retry policy threshold supplied",
                SuitabilityConfidence::Medium,
                refs,
                "add policy thresholds for throughput, loss, retry, and endpoint topology before claiming network meet",
            );
        }
        j = j + 1;
    }
    unknown_dimension(
        SuitabilityDimensionKind::NetworkIo,
        "network_io evidence is not endpoint-backed bounded_transfer; counter-only or failed endpoint evidence cannot support network suitability",
        refs,
        true,
        false,
    )
}

} // verus!

verus! {

/// The names of a suitability artifact's inputs.
#[derive(Debug, Clone, PartialEq, Eq)]
pub struct SuitabilityArtifactContext {
    pub target_contract_ref: String,
    pub workload_ref: String,
    pub policy_ref: String,
    pub run_id: String,
}

/// The entries of `s`, each once, in the order of first mention.
pub open spec fn first_seen(s: Seq<SuitabilityDimensionKind>) -> Seq<SuitabilityDimensionKind>
    decreases s.len(),
{
    if s.len() == 0 {
        Seq::empty()
    } else {
        let p = first_seen(s.drop_last());
        if p.contains(s.last()) { p } else { p.push(s.last()) }
    }
}

/// The dimensions to decide: the required then the optional ones, each
/// once, in the order of first mention.
pub fn unique_dimensions(required: &Vec<SuitabilityDimensionKind>, optional: &Vec<SuitabilityDimensionKind>) -> (dims: Vec<SuitabilityDimensionKind>)
    ensures
        dims@ == first_seen(required@ + optional@),
        forall|i: int, j: int| 0 <= i < j < dims@.len() ==> dims@[i] != dims@[j],
        forall|d: SuitabilityDimensionKind| dims@.contains(d) <==> (required@.contains(d) || optional@.contains(d)),
{
    let all = {
        let mut v: Vec<SuitabilityDimensionKind> = Vec::new();
        let mut i: usize = 0;
        while i < required.len()
            invariant
                i <= required@.len(),
                v@ == required@.subrange(0, i as int),
            decreases required.len() - i,
        {
            v.push(required[i]);
            proof {
                assert(v@ =~= required@.subrange(0, i + 1));
            }
            i = i + 1;
        }
        let mut k: usize = 0;
        while k < optional.len()
            invariant
                i == required@.len(),
                k <= optional@.len(),
                v@ == required@ + optional@.subrange(0, k as int),
            decreases optional.len() - k,
        {
            v.push(optional[k]);
            proof {
                assert(v@ =~= required@ + optional@.subrange(0, k + 1));
            }
            k = k + 1;
        }
        proof {
            assert(required@.subrange(0, required@.len() as int) =~= required@);
            assert(optional@.subrange(0, optional@.len() as int) =~= optional@);
        }
        v
    };
    let ghost joined = all@;
    assert(joined == required@ + optional@);
    let mut dims: Vec<SuitabilityDimensionKind> = Vec::new();
    let mut i: usize = 0;
    while i < all.len()
        invariant
            i <= all@.len(),
            forall|a: int, b: int| 0 <= a < b < dims@.len() ==> dims@[a] != dims@[b],
            forall|d: SuitabilityDimensionKind| dims@.contains(d) <==> all@.subrange(0, i as int).contains(d),
            dims@ == first_seen(all@.subrange(0, i as int)),
        decreases all.len() - i,
    {
        let d = all[i];
        let mut seen = false;
        let mut k: usize = 0;
        while k < dims.len()
            invariant
                k <= dims@.len(),
                seen == dims@.subrange(0, k as int).contains(d),
            decreases dims.len() - k,
        {
            proof {
                assert(dims@.subrange(0, k + 1) =~= dims@.subrange(0, k as int).push(dims@[k as int]));
                crate::text::lemma_push_contains(dims@.subrange(0, k as int), dims@[k as int], d);
            }
            if dims[k] == d {
                seen = true;
            }
            k = k + 1;
        }
        proof {
            assert(dims@.subrange(0, dims@.len() as int) =~= dims@);
            assert(all@.subrange(0, i + 1) =~= all@.subrange(0, i as int).push(d));
            assert(all@.subrange(0, i + 1).drop_last() =~= all@.subrange(0, i as int));
        }
        let ghost before = dims@;
        if !seen {
            dims.push(d);
        }
        proof {
            assert forall|x: SuitabilityDimensionKind| dims@.contains(x) <==> all@.subrange(0, i + 1).contains(x) by {
                crate::text::lemma_push_contains(all@.subrange(0, i as int), d, x);
                crate::text::lemma_push_contains(before, d, x);
            }
        }
        i = i + 1;
    }
    proof {
        assert(all@.subrange(0, all@.len() as int) =~= all@);
        assert forall|d: SuitabilityDimensionKind| all@.contains(d) <==> (required@.contains(d) || optional@.contains(d)) by {
            if all@.contains(d) {
                let q = choose|q: int| 0 <= q < all@.len() && all@[q] == d;
                if q < required@.len() {
                    assert(required@[q] == d);
                } else {
                    assert(optional@[q - required@.len()] == d);
                }
            }
            if required@.contains(d) {
                let q = choose|q: int| 0 <= q < required@.len() && required@[q] == d;
                assert(all@[q] == d);
            }
            if optional@.contains(d) {
                let q = choose|q: int| 0 <= q < optional@.len() && optional@[q] == d;
                assert(all@[required@.len() + q] == d);
            }
        }
    }
    dims
}

/// The rule identifier suffix of a claim: every character other than an
/// ASCII letter or digit becomes an underscore.
pub open spec fn rule_id_suffix_spec(claim_id: Seq<char>) -> Seq<char> {
    claim_id.map_values(|c: char| if crate::target::is_ascii_alnum(c) { c } else { '_' })
}

/// The rule identifier suffix of a claim.
pub fn rule_id_suffix(claim_id: &str) -> (s: String)
    ensures
        s@ == rule_id_suffix_spec(claim_id@),
{
    let n = claim_id.unicode_len();
    let mut out = String::new();
    let mut i: usize = 0;
    while i < n
        invariant
            n == claim_id@.len(),
            i <= n,
            out@ == rule_id_suffix_spec(claim_id@.subrange(0, i as int)),
        decreases n - i,
    {
        let c = claim_id.get_char(i);
        if ('a' <= c && c <= 'z') || ('A' <= c && c <= 'Z') || ('0' <= c && c <= '9') {
            let piece = claim_id.substring_char(i, i + 1);
            assert(piece@ =~= seq![c]);
            out.append(piece);
        } else {
            proof {
                reveal_strlit("_");
            }
            out.append("_");
        }
        proof {
            assert(rule_id_suffix_spec(claim_id@.subrange(0, i + 1)) =~= rule_id_suffix_spec(claim_id@.subrange(0, i as int)).push(
                if crate::target::is_ascii_alnum(c) { c } else { '_' }));
        }
        i = i + 1;
    }
    proof {
        assert(claim_id@.subrange(0, n as int) =~= claim_id@);
    }
    out
}

/// The evidence that unblocks a claim: the catalog's, or a request to
/// collect evidence for a claim outside the catalog.
pub open spec fn claim_next_evidence_spec(claim_id: Seq<char>) -> Seq<Seq<char>> {
    if crate::evidence::catalog::catalog_ids().contains(claim_id) {
        crate::evidence::catalog::catalog_next_evidence(claim_id)
    } else {
        seq!["collect evidence to unblock: "@ + claim_id]
    }
}

/// The evidence that unblocks a claim.
pub fn next_evidence_for_claim_id(claim_id: &str) -> (items: Vec<String>)
    ensures
        views(items@) == claim_next_evidence_spec(claim_id@),
{
    match crate::evidence::catalog::claim_definition(claim_id) {
        Some(d) => crate::text::owned_all(&d.default_next_evidence),
        None => crate::text::single(concat("collect evidence to unblock: ", claim_id).as_str()),
    }
}

/// The evaluations a suitability policy projects: one blocked evaluation
/// per blocked claim, then the selection evaluation when ready.
pub open spec fn policy_evaluations_spec(
    evals: Seq<crate::rules::engine::RuleEvaluation>,
    blocked: Seq<Seq<char>>,
    ready: bool,
    refs: Seq<Seq<char>>,
) -> bool {
    &&& evals.len() == blocked.len() + (if ready { 1int } else { 0int })
    &&& forall|i: int| 0 <= i < blocked.len() ==> {
        &&& (#[trigger] evals[i]).rule_id@ == "suitability.policy.blocked."@ + rule_id_suffix_spec(blocked[i])
        &&& evals[i].claim_id@ == blocked[i]
        &&& !evals[i].matched
        &&& evals[i].decision == crate::evidence::envelope::Decision::Blocked
        &&& views(evals[i].evidence_refs@) == refs
        &&& evals[i].missing@.len() == 0
        &&& views(evals[i].next_evidence@) == claim_next_evidence_spec(blocked[i])
    }
    &&& ready ==> {
        let e = evals[blocked.len() as int];
        &&& e.rule_id@ == "suitability.policy.selection_ready"@
        &&& e.claim_id@ == crate::evidence::claim::SELECTION_READY@
        &&& e.matched
        &&& e.decision == crate::evidence::envelope::Decision::Provisional
        &&& views(e.evidence_refs@) == refs
        &&& e.missing@.len() == 0
        &&& e.next_evidence@.len() == 0
    }
}

/// The evaluations a suitability policy projects.
pub fn suitability_policy_evaluations(
    blocked_claims: &Vec<String>,
    selection_ready: bool,
    evidence_refs: &Vec<String>,
) -> (evals: Vec<crate::rules::engine::RuleEvaluation>)
    ensures
        policy_evaluations_spec(evals@, views(blocked_claims@), selection_ready, views(evidence_refs@)),
{
    let mut evals: Vec<crate::rules::engine::RuleEvaluation> = Vec::new();
    let mut i: usize = 0;
    while i < blocked_claims.len()
        invariant
            i <= blocked_claims@.len(),
            evals@.len() == i,
            forall|q: int| 0 <= q < i ==> {
                &&& (#[trigger] evals@[q]).rule_id@ == "suitability.policy.blocked."@ + rule_id_suffix_spec(blocked_claims@[q]@)
                &&& evals@[q].claim_id@ == blocked_claims@[q]@
                &&& !evals@[q].matched
                &&& evals@[q].decision == crate::evidence::envelope::Decision::Blocked
                &&& views(evals@[q].evidence_refs@) == views(evidence_refs@)
                &&& evals@[q].missing@.len() == 0
                &&& views(evals@[q].next_evidence@) == claim_next_evidence_spec(blocked_claims@[q]@)
            },
        decreases blocked_claims.len() - i,
    {
        let claim_id = blocked_claims[i].as_str();
        let suffix = rule_id_suffix(claim_id);
        evals.push(crate::rules::engine::RuleEvaluation {
            rule_id: concat("suitability.policy.blocked.", suffix.as_str()),
            claim_id: owned(claim_id),
            matched: false,
            decision: crate::evidence::envelope::Decision::Blocked,
            evidence_refs: crate::text::copy_all(evidence_refs),
            missing: Vec::new(),
            next_evidence: next_evidence_for_claim_id(claim_id),
        });
        i = i + 1;
    }
    if selection_ready {
        evals.push(crate::rules::engine::RuleEvaluation {
            rule_id: owned("suitability.policy.selection_ready"),
            claim_id: owned(crate::evidence::claim::SELECTION_READY),
            matched: true,
            decision: crate::evidence::envelope::Decision::Provisional,
            evidence_refs: crate::text::copy_all(evidence_refs),
            missing: Vec::new(),
            next_evidence: Vec::new(),
        });
    }
    proof {
        assert forall|q: int| 0 <= q < blocked_claims@.len() implies views(blocked_claims@)[q] == blocked_claims@[q]@ by {}
    }
    evals
}

/// Checks that a suitability policy has the policy schema and never turns
/// unknown evidence into a meet.
pub fn validate_policy(schema_version: &str, rules: &SuitabilityPolicyRules) -> (r: LabResult<()>)
    ensures
        schema_version@ != "lab.suitability_policy.v1"@ ==> (r matches Err(LabError::Validation(m))
            && m@ == "suitability policy schema_version must be lab.suitability_policy.v1"@),
        schema_version@ == "lab.suitability_policy.v1"@ && !(rules.unknown_required_dimension_blocks_selection
            && rules.unknown_never_becomes_meet) ==> (r matches Err(LabError::Policy(m))
            && m@ == "suitability policy cannot convert unknown evidence into meet"@),
        schema_version@ == "lab.suitability_policy.v1"@ && rules.unknown_required_dimension_blocks_selection
            && rules.unknown_never_becomes_meet ==> r is Ok,
{
    if !str_eq(schema_version, "lab.suitability_policy.v1") {
        return Err(LabError::Validation(owned("suitability policy schema_version must be lab.suitability_policy.v1")));
    }
    if !rules.unknown_required_dimension_blocks_selection || !rules.unknown_never_becomes_meet {
        return Err(LabError::Policy(owned("suitability policy cannot convert unknown evidence into meet")));
    }
    Ok(())
}

/// The overall decision over the required dimensions: fail if any fails,
/// else unknown if any is unknown, else marginal if any is marginal, else
/// meet.
pub open spec fn overall_decision_spec(dims: Seq<SuitabilityDimensionDecision>, required: Seq<SuitabilityDimensionKind>) -> SuitabilityDecisionValue {
    if exists|i: int| 0 <= i < dims.len() && required.contains((#[trigger] dims[i]).dimension) && dims[i].decision == SuitabilityDecisionValue::Fail {
        SuitabilityDecisionValue::Fail
    } else if exists|i: int| 0 <= i < dims.len() && required.contains((#[trigger] dims[i]).dimension) && dims[i].decision == SuitabilityDecisionValue::Unknown {
        SuitabilityDecisionValue::Unknown
    } else if exists|i: int| 0 <= i < dims.len() && required.contains((#[trigger] dims[i]).dimension) && dims[i].decision == SuitabilityDecisionValue::Marginal {
        SuitabilityDecisionValue::Marginal
    } else {
        SuitabilityDecisionValue::Meet
    }
}

/// Ready for selection: no required dimension fails or is unknown.
pub open spec fn selection_ready_spec(dims: Seq<SuitabilityDimensionDecision>, required: Seq<SuitabilityDimensionKind>) -> bool {
    forall|i: int| 0 <= i < dims.len() && required.contains((#[trigger] dims[i]).dimension) ==>
        dims[i].decision != SuitabilityDecisionValue::Fail && dims[i].decision != SuitabilityDecisionValue::Unknown
}

/// The overall decision and whether the target is ready for selection.
pub fn overall_decision(dims: &Vec<SuitabilityDimensionDecision>, required: &Vec<SuitabilityDimensionKind>) -> (r: (SuitabilityDecisionValue, bool))
    ensures
        r.0 == overall_decision_spec(dims@, required@),
        r.1 == selection_ready_spec(dims@, required@),
{
    let mut fail = false;
    let mut unknown = false;
    let mut marginal_seen = false;
    let mut i: usize = 0;
    while i < dims.len()
        invariant
            i <= dims@.len(),
            fail == exists|q: int| 0 <= q < i && required@.contains((#[trigger] dims@[q]).dimension) && dims@[q].decision == SuitabilityDecisionValue::Fail,
            unknown == exists|q: int| 0 <= q < i && required@.contains((#[trigger] dims@[q]).dimension) && dims@[q].decision == SuitabilityDecisionValue::Unknown,
            marginal_seen == exists|q: int| 0 <= q < i && required@.contains((#[trigger] dims@[q]).dimension) && dims@[q].decision == SuitabilityDecisionValue::Marginal,
        decreases dims.len() - i,
    {
        let mut req = false;
        let mut k: usize = 0;
        while k < required.len()
            invariant
                k <= required@.len(),
                req == required@.subrange(0, k as int).contains(dims@[i as int].dimension),
                i < dims@.len(),
            decreases required.len() - k,
        {
            proof {
                assert(required@.subrange(0, k + 1) =~= required@.subrange(0, k as int).push(required@[k as int]));
                crate::text::lemma_push_contains(required@.subrange(0, k as int), required@[k as int], dims@[i as int].dimension);
            }
            if required[k] == dims[i].dimension {
                req = true;
            }
            k = k + 1;
        }
        proof {
            assert(required@.subrange(0, required@.len() as int) =~= required@);
        }
        if req {
            if dims[i].decision == SuitabilityDecisionValue::Fail {
                fail = true;
            }
            if dims[i].decision == SuitabilityDecisionValue::Unknown {
                unknown = true;
            }
            if dims[i].decision == SuitabilityDecisionValue::Marginal {
                marginal_seen = true;
            }
        }
        i = i + 1;
    }
    let decision = if fail {
        SuitabilityDecisionValue::Fail
    } else if unknown {
        SuitabilityDecisionValue::Unknown
    } else if marginal_seen {
        SuitabilityDecisionValue::Marginal
    } else {
        SuitabilityDecisionValue::Meet
    };
    proof {
        if !(fail || unknown) {
            assert forall|q: int| 0 <= q < dims@.len() && required@.contains((#[trigger] dims@[q]).dimension) implies
                dims@[q].decision != SuitabilityDecisionValue::Fail && dims@[q].decision != SuitabilityDecisionValue::Unknown by {}
        }
    }
    (decision, !(fail || unknown))
}

} // verus!

verus! {

/// The claims a suitability decision always blocks, the selection claim
/// when not ready, and those the operating contract blocks.
pub open spec fn suitability_blocked(ready: bool, contract_blocked: Seq<Seq<char>>, s: Seq<char>) -> bool {
    ||| s == crate::evidence::claim::PRODUCTION_READY@
    ||| s == crate::evidence::claim::TARGET_SELECTION_PI4_SUFFICIENT@
    ||| s == crate::evidence::claim::BATTERY_SAFE@
    ||| s == crate::evidence::claim::REAL_TIME_PRESSURE_SAFE@
    ||| (!ready && s == crate::evidence::claim::SELECTION_READY@)
    ||| contract_blocked.contains(s)
}

/// The evidence a suitability decision cites.
pub open spec fn suitability_ref(
    context: SuitabilityArtifactContext,
    contract: crate::evidence::envelope::Artifact<crate::rules::operating_contract::OperatingContractPayload>,
    target_refs: Seq<Seq<char>>,
    s: Seq<char>,
) -> bool {
    ||| s == context.target_contract_ref@
    ||| s == context.workload_ref@
    ||| s == context.policy_ref@
    ||| views(contract.evidence_refs@).contains(s)
    ||| crate::rules::engine::is_evaluation_ref(contract.payload.evaluations@, s)
    ||| target_refs.contains(s)
}

/// Next evidence of the evaluations or of the operating contract.
pub open spec fn suitability_next(evaluations: Seq<crate::rules::engine::RuleEvaluation>, contract_next: Seq<Seq<char>>, s: Seq<char>) -> bool {
    crate::rules::engine::is_next_evidence(evaluations, s) || contract_next.contains(s)
}

fn push_all(out: &mut Vec<String>, items: &Vec<String>)
    ensures
        views(final(out)@) == views(old(out)@) + views(items@),
{
    crate::text::extend_all(out, items);
}

/// A sorted set of strings equal to the set of `p`.
pub open spec fn sorted_set(v: Seq<String>, p: spec_fn(Seq<char>) -> bool) -> bool {
    &&& strictly_sorted(views(v))
    &&& forall|s: Seq<char>| views(v).contains(s) <==> p(s)
}

/// The next evidence the suitability evaluations name, sorted, without
/// repetition.
pub fn suitability_next_evidence(evaluations: &Vec<crate::rules::engine::RuleEvaluation>) -> (items: Vec<String>)
    ensures
        strictly_sorted(views(items@)),
        forall|s: Seq<char>| views(items@).contains(s) <==> crate::rules::engine::is_next_evidence(evaluations@, s),
{
    crate::rules::engine::next_evidence(evaluations)
}

/// The suitability artifact over decided `dimensions`: its decision and
/// readiness follow the required dimensions, its blocked claims, rule
/// evaluations, references and next evidence follow the operating contract,
/// and its data quality follows the workload and what the target run lacks.
pub open spec fn suitability_artifact_spec(
    a: crate::evidence::envelope::Artifact<crate::rules::suitability::SuitabilityPayload>,
    dimensions: Seq<SuitabilityDimensionDecision>,
    required: Seq<SuitabilityDimensionKind>,
    target_contract: crate::evidence::envelope::Artifact<crate::rules::operating_contract::OperatingContractPayload>,
    workload_id: Seq<char>,
    target_id: Seq<char>,
    workload_quality: crate::contracts::WorkloadDataQuality,
    policy_id: Seq<char>,
    target_missing: Seq<Seq<char>>,
    target_refs: Seq<Seq<char>>,
    context: SuitabilityArtifactContext,
) -> bool {
    {
        let p = a.payload;
        let ready = selection_ready_spec(dimensions, required);
        &&& crate::evidence::envelope::report_envelope(a, crate::evidence::envelope::Kind::ReportSuitability, "SUITABILITY"@,
            context.run_id@, target_id,
            if ready { crate::evidence::envelope::Status::MeasuredPartial } else { crate::evidence::envelope::Status::Insufficient })
        &&& p.rule_set_id@ == "rules.suitability.v2.policy_projection"@
        &&& p.selection_ready == ready
        &&& crate::run_validation::opt_view(p.workload_id) == Some(workload_id)
        &&& crate::run_validation::opt_view(p.policy_id) == Some(policy_id)
        &&& p.overall_decision == Some(overall_decision_spec(dimensions, required))
        &&& p.dimensions@ == dimensions
        &&& sorted_set(p.blocked_claims@, |s: Seq<char>| suitability_blocked(ready, views(target_contract.payload.blocked_claims@), s))
        &&& policy_evaluations_spec(p.evaluations@, views(p.blocked_claims@), ready, views(a.evidence_refs@))
        &&& sorted_set(a.evidence_refs@, |s: Seq<char>| suitability_ref(context, target_contract, target_refs, s))
        &&& sorted_set(p.next_evidence@, |s: Seq<char>| suitability_next(p.evaluations@, views(target_contract.payload.next_evidence@), s))
        &&& crate::rules::engine::claims_of_evaluations(p.evaluations@, a.claims@)
        &&& a.data_quality.level == (if workload_quality.degraded || target_missing.len() > 0
            { crate::evidence::envelope::DataQualityLevel::Degraded } else { crate::evidence::envelope::DataQualityLevel::Partial })
        &&& views(a.data_quality.notes@) == views(workload_quality.notes@)
            + target_missing.map_values(|m: Seq<char>| "missing target run numeric evidence: "@ + m)
            + seq!["suitability decision read target run numeric evidence and v2 operating contract claim IDs"@]
    }
}

/// Builds the suitability artifact from decided dimensions.
fn suitability_artifact_from_dimensions(
    dimensions: Vec<SuitabilityDimensionDecision>,
    required: &Vec<SuitabilityDimensionKind>,
    target_contract: &crate::evidence::envelope::Artifact<crate::rules::operating_contract::OperatingContractPayload>,
    workload_id: String,
    target_id: String,
    workload_quality: crate::contracts::WorkloadDataQuality,
    policy_id: String,
    target_missing: &Vec<String>,
    target_refs: &Vec<String>,
    context: SuitabilityArtifactContext,
) -> (a: crate::evidence::envelope::Artifact<crate::rules::suitability::SuitabilityPayload>)
    ensures
        suitability_artifact_spec(a, dimensions@, required@, *target_contract, workload_id@, target_id@, workload_quality,
            policy_id@, views(target_missing@), views(target_refs@), context),
{
    let (overall, ready) = overall_decision(&dimensions, required);
    let mut blocked: Vec<String> = Vec::new();
    blocked.push(owned(crate::evidence::claim::PRODUCTION_READY));
    blocked.push(owned(crate::evidence::claim::TARGET_SELECTION_PI4_SUFFICIENT));
    blocked.push(owned(crate::evidence::claim::BATTERY_SAFE));
    blocked.push(owned(crate::evidence::claim::REAL_TIME_PRESSURE_SAFE));
    if !ready {
        blocked.push(owned(crate::evidence::claim::SELECTION_READY));
    }
    let ghost fixed = views(blocked@);
    push_all(&mut blocked, &target_contract.payload.blocked_claims);
    proof {
        let cb = views(target_contract.payload.blocked_claims@);
        assert forall|s: Seq<char>| views(blocked@).contains(s) <==> suitability_blocked(ready, cb, s) by {
            assert(views(blocked@) =~= fixed + cb);
            if views(blocked@).contains(s) {
                let k = choose|k: int| 0 <= k < views(blocked@).len() && views(blocked@)[k] == s;
                if k >= fixed.len() {
                    assert(cb[k - fixed.len()] == s);
                }
            }
            if s == crate::evidence::claim::PRODUCTION_READY@ { assert(views(blocked@)[0] == s); }
            if s == crate::evidence::claim::TARGET_SELECTION_PI4_SUFFICIENT@ { assert(views(blocked@)[1] == s); }
            if s == crate::evidence::claim::BATTERY_SAFE@ { assert(views(blocked@)[2] == s); }
            if s == crate::evidence::claim::REAL_TIME_PRESSURE_SAFE@ { assert(views(blocked@)[3] == s); }
            if !ready && s == crate::evidence::claim::SELECTION_READY@ { assert(views(blocked@)[4] == s); }
            if cb.contains(s) {
                let k = choose|k: int| 0 <= k < cb.len() && cb[k] == s;
                assert(views(blocked@)[fixed.len() + k] == s);
            }
        }
    }
    let blocked = sorted_unique(blocked);

    let mut refs: Vec<String> = Vec::new();
    refs.push(owned(context.target_contract_ref.as_str()));
    refs.push(owned(context.workload_ref.as_str()));
    refs.push(owned(context.policy_ref.as_str()));
    let ghost r0 = views(refs@);
    push_all(&mut refs, &target_contract.evidence_refs);
    let ghost r1 = views(refs@);
    let eval_refs = crate::rules::engine::evaluation_refs(&target_contract.payload.evaluations);
    push_all(&mut refs, &eval_refs);
    let ghost r2 = views(refs@);
    push_all(&mut refs, target_refs);
    proof {
        let ce = views(target_contract.evidence_refs@);
        let er = views(eval_refs@);
        let tr = views(target_refs@);
        assert(views(refs@) =~= r0 + ce + er + tr);
        assert forall|s: Seq<char>| views(refs@).contains(s) <==> suitability_ref(context, *target_contract, tr, s) by {
            let all = views(refs@);
            if all.contains(s) {
                let k = choose|k: int| 0 <= k < all.len() && all[k] == s;
                if k < 3 {
                } else if k < 3 + ce.len() {
                    assert(ce[k - 3] == s);
                } else if k < 3 + ce.len() + er.len() {
                    assert(er[k - 3 - ce.len()] == s);
                    assert(er.contains(s));
                } else {
                    assert(tr[k - 3 - ce.len() - er.len()] == s);
                }
            }
            if s == context.target_contract_ref@ { assert(all[0] == s); }
            if s == context.workload_ref@ { assert(all[1] == s); }
            if s == context.policy_ref@ { assert(all[2] == s); }
            if ce.contains(s) {
                let k = choose|k: int| 0 <= k < ce.len() && ce[k] == s;
                assert(all[3 + k] == s);
            }
            if crate::rules::engine::is_evaluation_ref(target_contract.payload.evaluations@, s) {
                assert(er.contains(s));
                let k = choose|k: int| 0 <= k < er.len() && er[k] == s;
                assert(all[3 + ce.len() + k] == s);
            }
            if tr.contains(s) {
                let k = choose|k: int| 0 <= k < tr.len() && tr[k] == s;
                assert(all[3 + ce.len() + er.len() + k] == s);
            }
        }
    }
    let refs = sorted_unique(refs);

    let evaluations = suitability_policy_evaluations(&blocked, ready, &refs);
    let eval_next = suitability_next_evidence(&evaluations);
    let mut next = eval_next;
    let ghost n0 = views(next@);
    push_all(&mut next, &target_contract.payload.next_evidence);
    proof {
        let cn = views(target_contract.payload.next_evidence@);
        assert(views(next@) =~= n0 + cn);
        assert forall|s: Seq<char>| views(next@).contains(s) <==> (crate::rules::engine::is_next_evidence(evaluations@, s) || cn.contains(s)) by {
            let all = views(next@);
            if all.contains(s) {
                let k = choose|k: int| 0 <= k < all.len() && all[k] == s;
                if k < n0.len() {
                    assert(n0[k] == s);
                    assert(n0.contains(s));
                } else {
                    assert(cn[k - n0.len()] == s);
                }
            }
            if crate::rules::engine::is_next_evidence(evaluations@, s) {
                assert(n0.contains(s));
                let k = choose|k: int| 0 <= k < n0.len() && n0[k] == s;
                assert(all[k] == s);
            }
            if cn.contains(s) {
                let k = choose|k: int| 0 <= k < cn.len() && cn[k] == s;
                assert(all[n0.len() + k] == s);
            }
        }
    }
    let next = sorted_unique(next);
    let ghost cn = views(target_contract.payload.next_evidence@);
    assert(sorted_set(next@, |s: Seq<char>| suitability_next(evaluations@, cn, s)));
    let claims = crate::rules::engine::claims_for_evaluations(&evaluations);

    let degraded = workload_quality.degraded || target_missing.len() > 0;
    let mut notes = workload_quality.notes;
    let ghost notes0 = views(notes@);
    let mut i: usize = 0;
    while i < target_missing.len()
        invariant
            i <= target_missing@.len(),
            views(notes@) == notes0 + views(target_missing@).subrange(0, i as int).map_values(|m: Seq<char>| "missing target run numeric evidence: "@ + m),
        decreases target_missing.len() - i,
    {
        let ghost prev = views(notes@);
        notes.push(concat("missing target run numeric evidence: ", target_missing[i].as_str()));
        proof {
            assert(views(target_missing@).subrange(0, i + 1) =~= views(target_missing@).subrange(0, i as int).push(target_missing@[i as int]@));
            assert(views(notes@) =~= prev.push("missing target run numeric evidence: "@ + target_missing@[i as int]@));
            assert(views(notes@) =~= notes0 + views(target_missing@).subrange(0, i + 1).map_values(|m: Seq<char>| "missing target run numeric evidence: "@ + m));
        }
        i = i + 1;
    }
    let ghost notes1 = views(notes@);
    notes.push(owned("suitability decision read target run numeric evidence and v2 operating contract claim IDs"));
    proof {
        assert(views(target_missing@).subrange(0, target_missing@.len() as int) =~= views(target_missing@));
        assert(views(notes@) =~= notes1.push("suitability decision read target run numeric evidence and v2 operating contract claim IDs"@));
    }
    let payload = crate::rules::suitability::SuitabilityPayload {
        rule_set_id: owned("rules.suitability.v2.policy_projection"),
        selection_ready: ready,
        workload_id: Some(workload_id),
        policy_id: Some(policy_id),
        overall_decision: Some(overall),
        dimensions,
        evaluations,
        blocked_claims: blocked,
        next_evidence: next,
    };
    let mut artifact = crate::evidence::envelope::fresh_artifact(
        crate::evidence::envelope::Kind::ReportSuitability,
        "SUITABILITY",
        owned(context.run_id.as_str()),
        target_id,
        if ready { crate::evidence::envelope::Status::MeasuredPartial } else { crate::evidence::envelope::Status::Insufficient },
        payload,
    );
    artifact.claims = claims;
    artifact.evidence_refs = refs;
    artifact.data_quality = crate::evidence::envelope::DataQuality {
        level: if degraded { crate::evidence::envelope::DataQualityLevel::Degraded } else { crate::evidence::envelope::DataQualityLevel::Partial },
        notes,
    };
    proof {
        assert(views(artifact.data_quality.notes@) == notes0
            + views(target_missing@).map_values(|m: Seq<char>| "missing target run numeric evidence: "@ + m)
            + seq!["suitability decision read target run numeric evidence and v2 operating contract claim IDs"@]);
        assert(sorted_set(artifact.payload.next_evidence@, |s: Seq<char>| suitability_next(artifact.payload.evaluations@, cn, s)));
    }
    artifact
}

} // verus!

verus! {

/// How a dimension resting on pressure evidence is decided.
pub open spec fn evidence_dimension_decided(
    d: SuitabilityDimensionDecision,
    dimension: SuitabilityDimensionKind,
    pressure: Seq<TargetRunPressureEvidence>,
    evidence_refs: Seq<Seq<char>>,
) -> bool {
    match dimension {
        SuitabilityDimensionKind::StorageIo => storage_io_decided(d, pressure, evidence_refs),
        SuitabilityDimensionKind::NetworkIo => network_io_decided(d, pressure, evidence_refs),
        SuitabilityDimensionKind::LatencyJitter => latency_jitter_decided(d, pressure, evidence_refs),
        SuitabilityDimensionKind::Observer => unknown_dimension_spec(d, dimension,
            "dimension is not measured by the local workload suitability v1 slice"@, evidence_refs, false, true),
        _ => false,
    }
}

/// Decides a dimension that rests on the target run's pressure evidence:
/// storage I/O, network I/O, latency jitter, and the unmeasured observer
/// dimension.  The CPU, thermal and memory dimensions rest on measured
/// magnitudes and are decided elsewhere: `None` for them.
pub fn decide_evidence_dimension(
    dimension: SuitabilityDimensionKind,
    pressure: &Vec<TargetRunPressureEvidence>,
    evidence_refs: Vec<String>,
) -> (d: Option<SuitabilityDimensionDecision>)
    ensures
        (dimension == SuitabilityDimensionKind::Cpu || dimension == SuitabilityDimensionKind::Thermal
            || dimension == SuitabilityDimensionKind::Memory) <==> d is None,
        d matches Some(x) ==> x.dimension == dimension,
        d matches Some(x) ==> evidence_dimension_decided(x, dimension, pressure@, views(evidence_refs@)),
{
    match dimension {
        SuitabilityDimensionKind::StorageIo => Some(decide_storage_io(pressure, evidence_refs)),
        SuitabilityDimensionKind::NetworkIo => Some(decide_network_io(pressure, evidence_refs)),
        SuitabilityDimensionKind::LatencyJitter => Some(decide_latency_jitter(pressure, evidence_refs)),
        SuitabilityDimensionKind::Observer => Some(unknown_dimension(
            dimension,
            "dimension is not measured by the local workload suitability v1 slice",
            evidence_refs,
            false,
            true,
        )),
        _ => None,
    }
}

/// How a dimension is decided: the CPU, thermal and memory dimensions by
/// the decisions made from measured magnitudes, the others from the
/// target run's pressure evidence.
pub open spec fn dimension_decided(
    d: SuitabilityDimensionDecision,
    dimension: SuitabilityDimensionKind,
    cpu: SuitabilityDimensionDecision,
    thermal: SuitabilityDimensionDecision,
    memory: SuitabilityDimensionDecision,
    pressure: Seq<TargetRunPressureEvidence>,
    evidence_refs: Seq<Seq<char>>,
) -> bool {
    &&& d.dimension == dimension
    &&& match dimension {
        SuitabilityDimensionKind::Cpu => d == cpu,
        SuitabilityDimensionKind::Thermal => d == thermal,
        SuitabilityDimensionKind::Memory => d == memory,
        _ => evidence_dimension_decided(d, dimension, pressure, evidence_refs),
    }
}

/// The references every dimension decision cites: the workload profile and
/// the operating contract.
pub open spec fn dimension_refs_spec(context: SuitabilityArtifactContext) -> Seq<Seq<char>> {
    seq![context.workload_ref@, context.target_contract_ref@]
}

fn dimension_refs(context: &SuitabilityArtifactContext) -> (refs: Vec<String>)
    ensures
        views(refs@) == dimension_refs_spec(*context),
{
    let mut refs: Vec<String> = Vec::new();
    refs.push(owned(context.workload_ref.as_str()));
    refs.push(owned(context.target_contract_ref.as_str()));
    proof {
        assert(views(refs@) =~= dimension_refs_spec(*context));
    }
    refs
}

/// Decides each dimension a policy names, required then optional, once, in
/// the order of first mention.  `cpu`, `thermal` and `memory` are the
/// decisions made from measured magnitudes.
pub fn decide_policy_dimensions(
    required: &Vec<SuitabilityDimensionKind>,
    optional: &Vec<SuitabilityDimensionKind>,
    cpu: SuitabilityDimensionDecision,
    thermal: SuitabilityDimensionDecision,
    memory: SuitabilityDimensionDecision,
    pressure: &Vec<TargetRunPressureEvidence>,
    context: &SuitabilityArtifactContext,
) -> (out: Vec<SuitabilityDimensionDecision>)
    requires
        cpu.dimension == SuitabilityDimensionKind::Cpu,
        thermal.dimension == SuitabilityDimensionKind::Thermal,
        memory.dimension == SuitabilityDimensionKind::Memory,
    ensures
        out@.len() == first_seen(required@ + optional@).len(),
        forall|i: int| 0 <= i < out@.len() ==> dimension_decided(#[trigger] out@[i], first_seen(required@ + optional@)[i],
            cpu, thermal, memory, pressure@, dimension_refs_spec(*context)),
{
    let dims = unique_dimensions(required, optional);
    let ghost c0 = cpu;
    let ghost t0 = thermal;
    let ghost m0 = memory;
    let mut cpu = Some(cpu);
    let mut thermal = Some(thermal);
    let mut memory = Some(memory);
    let mut out: Vec<SuitabilityDimensionDecision> = Vec::new();
    let mut i: usize = 0;
    while i < dims.len()
        invariant
            i <= dims@.len(),
            out@.len() == i,
            forall|a: int, b: int| 0 <= a < b < dims@.len() ==> dims@[a] != dims@[b],
            forall|j: int| 0 <= j < i ==> dimension_decided(#[trigger] out@[j], dims@[j], c0, t0, m0, pressure@,
                dimension_refs_spec(*context)),
            c0.dimension == SuitabilityDimensionKind::Cpu,
            t0.dimension == SuitabilityDimensionKind::Thermal,
            m0.dimension == SuitabilityDimensionKind::Memory,
            !dims@.subrange(0, i as int).contains(SuitabilityDimensionKind::Cpu) ==> cpu == Some(c0),
            !dims@.subrange(0, i as int).contains(SuitabilityDimensionKind::Thermal) ==> thermal == Some(t0),
            !dims@.subrange(0, i as int).contains(SuitabilityDimensionKind::Memory) ==> memory == Some(m0),
        decreases dims.len() - i,
    {
        let d = dims[i];
        proof {
            assert(!dims@.subrange(0, i as int).contains(d)) by {
                if dims@.subrange(0, i as int).contains(d) {
                    let k = choose|k: int| 0 <= k < i && dims@.subrange(0, i as int)[k] == d;
                    assert(dims@[k] == dims@[i as int]);
                }
            }
            assert(dims@.subrange(0, i + 1) =~= dims@.subrange(0, i as int).push(d));
        }
        let refs = dimension_refs(context);
        let x = match d {
            SuitabilityDimensionKind::Cpu => match cpu.take() {
                Some(v) => v,
                None => unknown_dimension(d, "dimension was decided twice", refs, false, true),
            },
            SuitabilityDimensionKind::Thermal => match thermal.take() {
                Some(v) => v,
                None => unknown_dimension(d, "dimension was decided twice", refs, false, true),
            },
            SuitabilityDimensionKind::Memory => match memory.take() {
                Some(v) => v,
                None => unknown_dimension(d, "dimension was decided twice", refs, false, true),
            },
            _ => match decide_evidence_dimension(d, pressure, refs) {
                Some(v) => v,
                None => unknown_dimension(d, "dimension is not decided from pressure evidence", Vec::new(), false, true),
            },
        };
        out.push(x);
        proof {
            assert forall|k: SuitabilityDimensionKind| k != d implies
                (dims@.subrange(0, i + 1).contains(k) <==> dims@.subrange(0, i as int).contains(k)) by {
                crate::text::lemma_push_contains(dims@.subrange(0, i as int), d, k);
            }
            assert(dims@.subrange(0, i + 1).contains(d)) by {
                assert(dims@.subrange(0, i + 1)[i as int] == d);
            }
        }
        i = i + 1;
    }
    out
}

/// Decides the suitability of a target for a workload under a policy:
/// the policy is checked first; then each dimension it names is decided
/// once, in the order of first mention, and the artifact is built over
/// those decisions, the operating contract, the workload's data quality
/// and what the target run's numeric evidence lacks and cites.  `cpu`,
/// `thermal` and `memory` are the decisions made from measured magnitudes.
pub fn decide_suitability_artifact_v2(
    policy_schema_version: &str,
    rules: &SuitabilityPolicyRules,
    required: &Vec<SuitabilityDimensionKind>,
    optional: &Vec<SuitabilityDimensionKind>,
    cpu: SuitabilityDimensionDecision,
    thermal: SuitabilityDimensionDecision,
    memory: SuitabilityDimensionDecision,
    pressure: &Vec<TargetRunPressureEvidence>,
    target_contract: &crate::evidence::envelope::Artifact<crate::rules::operating_contract::OperatingContractPayload>,
    workload_id: String,
    target_id: String,
    workload_quality: crate::contracts::WorkloadDataQuality,
    policy_id: String,
    target_missing: &Vec<String>,
    target_refs: &Vec<String>,
    context: SuitabilityArtifactContext,
) -> (r: LabResult<crate::evidence::envelope::Artifact<crate::rules::suitability::SuitabilityPayload>>)
    requires
        cpu.dimension == SuitabilityDimensionKind::Cpu,
        thermal.dimension == SuitabilityDimensionKind::Thermal,
        memory.dimension == SuitabilityDimensionKind::Memory,
    ensures
        policy_schema_version@ != "lab.suitability_policy.v1"@ ==> (r matches Err(LabError::Validation(m))
            && m@ == "suitability policy schema_version must be lab.suitability_policy.v1"@),
        policy_schema_version@ == "lab.suitability_policy.v1"@ && !(rules.unknown_required_dimension_blocks_selection
            && rules.unknown_never_becomes_meet) ==> (r matches Err(LabError::Policy(m))
            && m@ == "suitability policy cannot convert unknown evidence into meet"@),
        policy_schema_version@ == "lab.suitability_policy.v1"@ && rules.unknown_required_dimension_blocks_selection
            && rules.unknown_never_becomes_meet ==> (r matches Ok(a) && {
                let dims = a.payload.dimensions@;
                &&& dims.len() == first_seen(required@ + optional@).len()
                &&& forall|i: int| 0 <= i < dims.len() ==> dimension_decided(#[trigger] dims[i],
                    first_seen(required@ + optional@)[i], cpu, thermal, memory, pressure@, dimension_refs_spec(context))
                &&& suitability_artifact_spec(a, dims, required@, *target_contract, workload_id@, target_id@,
                    workload_quality, policy_id@, views(target_missing@), views(target_refs@), context)
            }),
{
    validate_policy(policy_schema_version, rules)?;
    let dimensions = decide_policy_dimensions(required, optional, cpu, thermal, memory, pressure, &context);
    Ok(suitability_artifact_from_dimensions(dimensions, required, target_contract, workload_id, target_id,
        workload_quality, policy_id, target_missing, target_refs, context))
}

} // verus!

verus! {

/// Unknown evidence never becomes a meet: when a required dimension is
/// unknown, the target is not ready for selection and the overall decision
/// is not a meet.
pub proof fn law_unknown_never_meets(dims: Seq<SuitabilityDimensionDecision>, required: Seq<SuitabilityDimensionKind>, i: int)
    requires
        0 <= i < dims.len(),
        required.contains(dims[i].dimension),
        dims[i].decision == SuitabilityDecisionValue::Unknown,
    ensures
        !selection_ready_spec(dims, required),
        overall_decision_spec(dims, required) != SuitabilityDecisionValue::Meet,
{
    assert(required.contains(dims[i].dimension) && dims[i].decision == SuitabilityDecisionValue::Unknown);
}

/// A target ready for selection has an overall decision of meet or
/// marginal, and one that is not has an overall decision of fail or
/// unknown.
pub proof fn law_ready_iff_meet_or_marginal(dims: Seq<SuitabilityDimensionDecision>, required: Seq<SuitabilityDimensionKind>)
    ensures
        selection_ready_spec(dims, required) <==> (overall_decision_spec(dims, required) == SuitabilityDecisionValue::Meet
            || overall_decision_spec(dims, required) == SuitabilityDecisionValue::Marginal),
{
    if !selection_ready_spec(dims, required) {
        let i = choose|i: int| !(0 <= i < dims.len() && required.contains((#[trigger] dims[i]).dimension) ==>
            dims[i].decision != SuitabilityDecisionValue::Fail && dims[i].decision != SuitabilityDecisionValue::Unknown);
        assert(required.contains(dims[i].dimension));
    }
}

} // verus!

verus! {

#[derive(Debug, Clone, PartialEq, Eq)]
pub struct ConstraintsPayload {
    pub source_suitability_id: String,
    pub workload_id: Option<String>,
    pub policy_id: Option<String>,
    pub allowed_patterns: Vec<String>,
    pub burst_only_patterns: Vec<String>,
    pub degraded_mode_triggers: Vec<String>,
    pub forbidden_patterns: Vec<String>,
    pub budget_constraints: Vec<String>,
    pub required_runtime_guards: Vec<String>,
    pub blocked_claims: Vec<String>,
    pub agent_instructions: Vec<String>,
    pub ci_rules: Vec<String>,
}

/// The name of a dimension as constraints spell it.
pub open spec fn dimension_name(d: SuitabilityDimensionKind) -> Seq<char> {
    match d {
        SuitabilityDimensionKind::Cpu => "Cpu"@,
        SuitabilityDimensionKind::Thermal => "Thermal"@,
        SuitabilityDimensionKind::Memory => "Memory"@,
        SuitabilityDimensionKind::StorageIo => "StorageIo"@,
        SuitabilityDimensionKind::NetworkIo => "NetworkIo"@,
        SuitabilityDimensionKind::LatencyJitter => "LatencyJitter"@,
        SuitabilityDimensionKind::Observer => "Observer"@,
    }
}

fn dimension_name_text(d: SuitabilityDimensionKind) -> (s: &'static str)
    ensures
        s@ == dimension_name(d),
{
    match d {
        SuitabilityDimensionKind::Cpu => "Cpu",
        SuitabilityDimensionKind::Thermal => "Thermal",
        SuitabilityDimensionKind::Memory => "Memory",
        SuitabilityDimensionKind::StorageIo => "StorageIo",
        SuitabilityDimensionKind::NetworkIo => "NetworkIo",
        SuitabilityDimensionKind::LatencyJitter => "LatencyJitter",
        SuitabilityDimensionKind::Observer => "Observer",
    }
}

/// What one decided dimension contributes to each list of constraints:
/// 0 allowed, 1 burst-only, 2 degraded-mode triggers, 3 forbidden,
/// 4 budgets, 5 runtime guards.
pub open spec fn contribution(d: SuitabilityDimensionDecision, bucket: int) -> Seq<Seq<char>> {
    let n = dimension_name(d.dimension);
    if bucket == 0 {
        if d.decision == SuitabilityDecisionValue::Meet { seq![n + " demand is within measured v2 policy envelope"@] } else { Seq::empty() }
    } else if bucket == 1 {
        if d.decision == SuitabilityDecisionValue::Marginal { seq![n + " remains burst-only"@] } else { Seq::empty() }
    } else if bucket == 2 {
        if d.decision == SuitabilityDecisionValue::Marginal {
            seq![n + " margin enters marginal band: "@ + (match d.margin { Some(m) => m@, None => "unknown"@ })]
        } else if d.decision == SuitabilityDecisionValue::Fail {
            seq![n + " suitability fails under current evidence"@]
        } else {
            Seq::empty()
        }
    } else if bucket == 3 {
        if d.decision == SuitabilityDecisionValue::Fail { seq!["default design relying on failed "@ + n + " suitability"@] } else { Seq::empty() }
    } else if bucket == 4 {
        match d.margin { Some(m) => seq![n + ": "@ + m@], None => Seq::empty() }
    } else {
        if d.decision == SuitabilityDecisionValue::Unknown { seq!["collect evidence before relying on "@ + n + " suitability"@] } else { Seq::empty() }
    }
}

/// The fixed entries of each list of constraints.
pub open spec fn fixed_constraints(bucket: int) -> Seq<Seq<char>> {
    if bucket == 1 {
        seq!["bounded burst workload execution only"@]
    } else if bucket == 3 {
        seq!["unbounded all-core default loop"@, "unbounded workload execution without duration and output limits"@]
    } else if bucket == 5 {
        seq!["preserve workload duration limits"@, "preserve stdout/stderr byte limits"@, "do not use SSH workload execution in v1"@]
    } else {
        Seq::empty()
    }
}

/// `s` is in a list of constraints drawn from the first `n` dimensions.
pub open spec fn in_bucket(dims: Seq<SuitabilityDimensionDecision>, n: int, bucket: int, s: Seq<char>) -> bool {
    fixed_constraints(bucket).contains(s) || exists|q: int| 0 <= q < n && (#[trigger] contribution(dims[q], bucket)).contains(s)
}

fn contribute(d: &SuitabilityDimensionDecision, bucket: u8) -> (items: Vec<String>)
    requires
        bucket <= 5,
    ensures
        views(items@) == contribution(*d, bucket as int),
{
    let n = dimension_name_text(d.dimension);
    if bucket == 0 {
        if d.decision == SuitabilityDecisionValue::Meet {
            return crate::text::single(concat(n, " demand is within measured v2 policy envelope").as_str());
        }
    } else if bucket == 1 {
        if d.decision == SuitabilityDecisionValue::Marginal {
            return crate::text::single(concat(n, " remains burst-only").as_str());
        }
    } else if bucket == 2 {
        if d.decision == SuitabilityDecisionValue::Marginal {
            let head = concat(n, " margin enters marginal band: ");
            let margin = match &d.margin {
                Some(m) => owned(m.as_str()),
                None => owned("unknown"),
            };
            return crate::text::single(concat(head.as_str(), margin.as_str()).as_str());
        } else if d.decision == SuitabilityDecisionValue::Fail {
            return crate::text::single(concat(n, " suitability fails under current evidence").as_str());
        }
    } else if bucket == 3 {
        if d.decision == SuitabilityDecisionValue::Fail {
            let head = concat("default design relying on failed ", n);
            return crate::text::single(concat(head.as_str(), " suitability").as_str());
        }
    } else if bucket == 4 {
        match &d.margin {
            Some(m) => {
                let head = concat(n, ": ");
                return crate::text::single(concat(head.as_str(), m.as_str()).as_str());
            },
            None => {},
        }
    } else {
        if d.decision == SuitabilityDecisionValue::Unknown {
            let head = concat("collect evidence before relying on ", n);
            return crate::text::single(concat(head.as_str(), " suitability").as_str());
        }
    }
    crate::text::no_strings()
}

fn fixed_list(bucket: u8) -> (items: Vec<String>)
    requires
        bucket <= 5,
    ensures
        views(items@) == fixed_constraints(bucket as int),
{
    if bucket == 1 {
        crate::text::owned_all(&crate::text::strs1("bounded burst workload execution only"))
    } else if bucket == 3 {
        crate::text::owned_all(&crate::text::strs2("unbounded all-core default loop",
            "unbounded workload execution without duration and output limits"))
    } else if bucket == 5 {
        crate::text::owned_all(&crate::text::strs3("preserve workload duration limits", "preserve stdout/stderr byte limits",
            "do not use SSH workload execution in v1"))
    } else {
        crate::text::no_strings()
    }
}

/// One list of constraints: its fixed entries and what every dimension
/// contributes, sorted, without repetition.
pub fn constraint_bucket(dims: &Vec<SuitabilityDimensionDecision>, bucket: u8) -> (items: Vec<String>)
    requires
        bucket <= 5,
    ensures
        strictly_sorted(views(items@)),
        forall|s: Seq<char>| views(items@).contains(s) <==> in_bucket(dims@, dims@.len() as int, bucket as int, s),
{
    let mut items = fixed_list(bucket);
    let mut i: usize = 0;
    while i < dims.len()
        invariant
            bucket <= 5,
            i <= dims@.len(),
            forall|s: Seq<char>| views(items@).contains(s) <==> in_bucket(dims@, i as int, bucket as int, s),
        decreases dims.len() - i,
    {
        let extra = contribute(&dims[i], bucket);
        let ghost prev = views(items@);
        crate::text::extend_all(&mut items, &extra);
        proof {
            let b = bucket as int;
            assert forall|s: Seq<char>| views(items@).contains(s) <==> in_bucket(dims@, i + 1, b, s) by {
                crate::text::lemma_concat_contains(prev, views(extra@), s);
                assert(prev.contains(s) <==> in_bucket(dims@, i as int, b, s));
                if in_bucket(dims@, i + 1, b, s) && !fixed_constraints(b).contains(s) {
                    let q = choose|q: int| 0 <= q < i + 1 && (#[trigger] contribution(dims@[q], b)).contains(s);
                    if q < i {
                        assert(in_bucket(dims@, i as int, b, s));
                    }
                }
                if in_bucket(dims@, i as int, b, s) && !fixed_constraints(b).contains(s) {
                    let q = choose|q: int| 0 <= q < i && (#[trigger] contribution(dims@[q], b)).contains(s);
                    assert(in_bucket(dims@, i + 1, b, s));
                }
                if views(extra@).contains(s) {
                    assert(contribution(dims@[i as int], b).contains(s));
                    assert(in_bucket(dims@, i + 1, b, s));
                }
            }
        }
        i = i + 1;
    }
    crate::text::sorted_unique(items)
}

/// The instructions a constraints pack gives an agent.
pub open spec fn agent_instructions_spec(selection_ready: bool) -> Seq<Seq<char>> {
    let base = seq![
        "Do not claim production readiness from this v2 workload suitability slice."@,
        "Treat unknown suitability dimensions as blocked until new evidence exists."@,
    ];
    if selection_ready {
        base
    } else {
        base.push("Do not select this target/workload pair as ready without resolving required unknowns or failures."@)
    }
}

/// The rules that a constraints pack asks CI to enforce.
pub open spec fn ci_rules_spec() -> Seq<Seq<char>> {
    seq![
        "blocked_claims_must_not_appear_in_agent_facing_claims"@,
        "unknown_required_dimensions_block_selection_readiness"@,
    ]
}

/// `items` is the sorted list of constraints of a bucket drawn from `dims`.
pub open spec fn constraint_list(items: Seq<String>, dims: Seq<SuitabilityDimensionDecision>, bucket: int) -> bool {
    &&& strictly_sorted(views(items))
    &&& forall|s: Seq<char>| views(items).contains(s) <==> in_bucket(dims, dims.len() as int, bucket, s)
}

/// `c` is the constraints pack derived from the suitability artifact `s`.
pub open spec fn constraints_from_suitability(s: Artifact<SuitabilityPayload>, c: ConstraintsPayload) -> bool {
    let dims = s.payload.dimensions@;
    &&& c.source_suitability_id@ == s.id@
    &&& opt_view(c.workload_id) == opt_view(s.payload.workload_id)
    &&& opt_view(c.policy_id) == opt_view(s.payload.policy_id)
    &&& constraint_list(c.allowed_patterns@, dims, 0)
    &&& constraint_list(c.burst_only_patterns@, dims, 1)
    &&& constraint_list(c.degraded_mode_triggers@, dims, 2)
    &&& constraint_list(c.forbidden_patterns@, dims, 3)
    &&& constraint_list(c.budget_constraints@, dims, 4)
    &&& constraint_list(c.required_runtime_guards@, dims, 5)
    &&& views(c.blocked_claims@) == views(s.payload.blocked_claims@)
    &&& views(c.agent_instructions@) == agent_instructions_spec(s.payload.selection_ready)
    &&& views(c.ci_rules@) == ci_rules_spec()
}

/// The constraints pack of a suitability decision: what each decided
/// dimension allows, limits or forbids, the runtime guards, the blocked
/// claims and the instructions for agents.
pub fn constraints_payload_from_suitability(suitability: &Artifact<SuitabilityPayload>) -> (c: ConstraintsPayload)
    ensures
        constraints_from_suitability(*suitability, c),
{
    let dims = &suitability.payload.dimensions;
    let allowed_patterns = constraint_bucket(dims, 0);
    let burst_only_patterns = constraint_bucket(dims, 1);
    let degraded_mode_triggers = constraint_bucket(dims, 2);
    let forbidden_patterns = constraint_bucket(dims, 3);
    let budget_constraints = constraint_bucket(dims, 4);
    let required_runtime_guards = constraint_bucket(dims, 5);
    let mut agent_instructions = crate::text::owned_all(&crate::text::strs2(
        "Do not claim production readiness from this v2 workload suitability slice.",
        "Treat unknown suitability dimensions as blocked until new evidence exists.",
    ));
    if !suitability.payload.selection_ready {
        let ghost before = views(agent_instructions@);
        agent_instructions.push(owned(
            "Do not select this target/workload pair as ready without resolving required unknowns or failures.",
        ));
        proof {
            assert(views(agent_instructions@) =~= before.push(
                "Do not select this target/workload pair as ready without resolving required unknowns or failures."@));
        }
    }
    let ci_rules = crate::text::owned_all(&crate::text::strs2(
        "blocked_claims_must_not_appear_in_agent_facing_claims",
        "unknown_required_dimensions_block_selection_readiness",
    ));
    ConstraintsPayload {
        source_suitability_id: owned(suitability.id.as_str()),
        workload_id: copy_opt(&suitability.payload.workload_id),
        policy_id: copy_opt(&suitability.payload.policy_id),
        allowed_patterns,
        burst_only_patterns,
        degraded_mode_triggers,
        forbidden_patterns,
        budget_constraints,
        required_runtime_guards,
        blocked_claims: crate::text::copy_all(&suitability.payload.blocked_claims),
        agent_instructions,
        ci_rules,
    }
}


/// A reference that a constraints pack cites: one of the suitability
/// artifact's own, or one of its evaluations'.
pub open spec fn constraints_ref(s: Artifact<SuitabilityPayload>, r: Seq<char>) -> bool {
    views(s.evidence_refs@).contains(r)
        || exists|i: int| 0 <= i < s.payload.evaluations@.len() && views(#[trigger] s.payload.evaluations@[i].evidence_refs@).contains(r)
}

fn constraints_evidence_refs(suitability: &Artifact<SuitabilityPayload>) -> (refs: Vec<String>)
    ensures
        strictly_sorted(views(refs@)),
        forall|r: Seq<char>| views(refs@).contains(r) <==> constraints_ref(*suitability, r),
{
    let mut refs = crate::text::copy_all(&suitability.evidence_refs);
    let evals = &suitability.payload.evaluations;
    let mut i: usize = 0;
    while i < evals.len()
        invariant
            i <= evals@.len(),
            evals@ == suitability.payload.evaluations@,
            forall|r: Seq<char>| views(refs@).contains(r) <==> (views(suitability.evidence_refs@).contains(r)
                || exists|k: int| 0 <= k < i && views(#[trigger] evals@[k].evidence_refs@).contains(r)),
        decreases evals.len() - i,
    {
        let ghost prev = views(refs@);
        crate::text::extend_all(&mut refs, &evals[i].evidence_refs);
        proof {
            assert forall|r: Seq<char>| views(refs@).contains(r) <==> (views(suitability.evidence_refs@).contains(r)
                || exists|k: int| 0 <= k < i + 1 && views(#[trigger] evals@[k].evidence_refs@).contains(r)) by {
                crate::text::lemma_concat_contains(prev, views(evals@[i as int].evidence_refs@), r);
                if exists|k: int| 0 <= k < i + 1 && views(#[trigger] evals@[k].evidence_refs@).contains(r) {
                    let k = choose|k: int| 0 <= k < i + 1 && views(#[trigger] evals@[k].evidence_refs@).contains(r);
                    if k < i {
                        assert(exists|k2: int| 0 <= k2 < i && views(#[trigger] evals@[k2].evidence_refs@).contains(r));
                    }
                }
            }
        }
        i = i + 1;
    }
    sorted_unique(refs)
}

/// `claims` block each of `blocked`, in order, citing `refs` and the
/// catalog's next evidence.
pub open spec fn blocked_claims_cited(claims: Seq<Claim>, blocked: Seq<Seq<char>>, refs: Seq<Seq<char>>) -> bool {
    &&& claims.len() == blocked.len()
    &&& forall|i: int| 0 <= i < claims.len() ==> {
        &&& (#[trigger] claims[i]).claim_id@ == blocked[i]
        &&& claims[i].decision == Decision::Blocked
        &&& views(claims[i].evidence_refs@) == refs
        &&& views(claims[i].next_evidence@) == catalog_next_evidence(blocked[i])
    }
}

fn blocked_claim_entries(blocked: &Vec<String>, refs: &Vec<String>) -> (claims: Vec<Claim>)
    ensures
        blocked_claims_cited(claims@, views(blocked@), views(refs@)),
{
    let mut claims: Vec<Claim> = Vec::new();
    let mut i: usize = 0;
    while i < blocked.len()
        invariant
            i <= blocked@.len(),
            claims@.len() == i,
            forall|k: int| 0 <= k < i ==> {
                &&& (#[trigger] claims@[k]).claim_id@ == blocked@[k]@
                &&& claims@[k].decision == Decision::Blocked
                &&& views(claims@[k].evidence_refs@) == views(refs@)
                &&& views(claims@[k].next_evidence@) == catalog_next_evidence(blocked@[k]@)
            },
        decreases blocked.len() - i,
    {
        let next_evidence = match claim_definition(blocked[i].as_str()) {
            Some(d) => crate::text::owned_all(&d.default_next_evidence),
            None => {
                proof {
                    let id = blocked@[i as int]@;
                    assert(catalog_ids()[0] != id && catalog_ids()[1] != id && catalog_ids()[2] != id);
                }
                crate::text::no_strings()
            },
        };
        claims.push(Claim {
            claim_id: owned(blocked[i].as_str()),
            decision: Decision::Blocked,
            evidence_refs: crate::text::copy_all(refs),
            next_evidence,
        });
        i = i + 1;
    }
    claims
}

/// Builds the constraints artifact of a suitability decision: the
/// constraints pack, the references it cites, and one blocked claim per
/// claim the decision blocks.
pub fn generate_constraints_artifact_v2(suitability: &Artifact<SuitabilityPayload>) -> (a: Artifact<ConstraintsPayload>)
    ensures
        report_envelope(a, Kind::ReportConstraints, "CONSTRAINTS"@, suitability.run_id@, suitability.target_id@,
            if suitability.payload.blocked_claims@.len() == 0 { Status::MeasuredPartial } else { Status::Insufficient }),
        constraints_from_suitability(*suitability, a.payload),
        strictly_sorted(views(a.evidence_refs@)),
        forall|r: Seq<char>| views(a.evidence_refs@).contains(r) <==> constraints_ref(*suitability, r),
        blocked_claims_cited(a.claims@, views(suitability.payload.blocked_claims@), views(a.evidence_refs@)),
        a.data_quality.level == DataQualityLevel::Partial,
        views(a.data_quality.notes@) == seq!["v2 constraints are generated from v2 suitability claim IDs"@],
{
    let payload = constraints_payload_from_suitability(suitability);
    let status = if payload.blocked_claims.len() == 0 { Status::MeasuredPartial } else { Status::Insufficient };
    let mut artifact = fresh_artifact(
        Kind::ReportConstraints,
        "CONSTRAINTS",
        owned(suitability.run_id.as_str()),
        owned(suitability.target_id.as_str()),
        status,
        payload,
    );
    let refs = constraints_evidence_refs(suitability);
    let claims = blocked_claim_entries(&artifact.payload.blocked_claims, &refs);
    artifact.evidence_refs = refs;
    artifact.claims = claims;
    artifact.data_quality = DataQuality {
        level: DataQualityLevel::Partial,
        notes: crate::text::single("v2 constraints are generated from v2 suitability claim IDs"),
    };
    artifact
}

/// One bullet line per item, each item behind `prefix`.
pub open spec fn bullet_lines(prefix: Seq<char>, items: Seq<Seq<char>>) -> Seq<char>
    decreases items.len(),
{
    if items.len() == 0 {
        Seq::empty()
    } else {
        bullet_lines(prefix, items.drop_last()) + "- "@ + prefix + items.last() + "\n"@
    }
}

/// The bullet line of a blocked claim: its identifier and its blocked
/// wording (the identifier itself outside the catalog).
pub open spec fn blocked_claim_line(claim_id: Seq<char>) -> Seq<char> {
    let text = if catalog_ids().contains(claim_id) { catalog_blocked_text(claim_id) } else { claim_id };
    "- `"@ + claim_id + "`: \""@ + text + "\"\n"@
}

/// The bullet lines of blocked claims, in order.
pub open spec fn blocked_claim_lines(items: Seq<Seq<char>>) -> Seq<char>
    decreases items.len(),
{
    if items.len() == 0 {
        Seq::empty()
    } else {
        blocked_claim_lines(items.drop_last()) + blocked_claim_line(items.last())
    }
}

/// The agent-facing markdown of a constraints pack.
pub open spec fn constraints_markdown(target_id: Seq<char>, pack: ConstraintsPayload, decision_ref: Seq<char>) -> Seq<char> {
    let workload = match pack.workload_id { Some(w) => w@, None => "unknown_workload"@ };
    "# Target Constraints for "@ + target_id + " / "@ + workload + "\n\n"@
        + "Source:\n"@ + "- suitability_artifact: "@ + decision_ref + "\n\n"@
        + "## Must obey\n\n"@
        + bullet_lines(Seq::empty(), views(pack.agent_instructions@))
        + bullet_lines(Seq::empty(), views(pack.required_runtime_guards@))
        + bullet_lines("Add degraded mode when "@, views(pack.degraded_mode_triggers@))
        + "\n## Budget constraints\n\n"@
        + (if pack.budget_constraints@.len() == 0 {
            "- No numeric budget constraint was established by this v2 decision.\n"@
        } else {
            bullet_lines(Seq::empty(), views(pack.budget_constraints@))
        })
        + "\n## Forbidden patterns\n\n"@
        + bullet_lines(Seq::empty(), views(pack.forbidden_patterns@))
        + "\n## Blocked claims\n\n"@
        + blocked_claim_lines(views(pack.blocked_claims@))
}

fn append_bullets(out: &mut String, prefix: &str, items: &Vec<String>)
    ensures
        final(out)@ == old(out)@ + bullet_lines(prefix@, views(items@)),
{
    let ghost start = out@;
    let mut i: usize = 0;
    while i < items.len()
        invariant
            i <= items@.len(),
            out@ == start + bullet_lines(prefix@, views(items@).take(i as int)),
        decreases items.len() - i,
    {
        proof {
            let t = views(items@).take(i + 1);
            assert(t.drop_last() =~= views(items@).take(i as int));
        }
        out.append("- ");
        out.append(prefix);
        out.append(items[i].as_str());
        out.append("\n");
        proof {
            let t = views(items@).take(i + 1);
            assert(out@ =~= start + bullet_lines(prefix@, t));
        }
        i = i + 1;
    }
    proof {
        assert(views(items@).take(items@.len() as int) =~= views(items@));
    }
}

fn append_blocked_claims(out: &mut String, items: &Vec<String>)
    ensures
        final(out)@ == old(out)@ + blocked_claim_lines(views(items@)),
{
    let ghost start = out@;
    let mut i: usize = 0;
    while i < items.len()
        invariant
            i <= items@.len(),
            out@ == start + blocked_claim_lines(views(items@).take(i as int)),
        decreases items.len() - i,
    {
        proof {
            let t = views(items@).take(i + 1);
            assert(t.drop_last() =~= views(items@).take(i as int));
        }
        let id = items[i].as_str();
        out.append("- `");
        out.append(id);
        out.append("`: \"");
        match claim_definition(id) {
            Some(d) => out.append(d.blocked_text),
            None => out.append(id),
        }
        out.append("\"\n");
        proof {
            let t = views(items@).take(i + 1);
            assert(out@ =~= start + blocked_claim_lines(t));
        }
        i = i + 1;
    }
    proof {
        assert(views(items@).take(items@.len() as int) =~= views(items@));
    }
}

/// Renders a constraints artifact as the markdown an agent reads.
pub fn render_agent_constraints_markdown(constraints: &Artifact<ConstraintsPayload>, decision_ref: &str) -> (md: String)
    ensures
        md@ == constraints_markdown(constraints.target_id@, constraints.payload, decision_ref@),
{
    let pack = &constraints.payload;
    let mut out = String::new();
    out.append("# Target Constraints for ");
    out.append(constraints.target_id.as_str());
    out.append(" / ");
    match &pack.workload_id {
        Some(w) => out.append(w.as_str()),
        None => out.append("unknown_workload"),
    }
    out.append("\n\n");
    out.append("Source:\n");
    out.append("- suitability_artifact: ");
    out.append(decision_ref);
    out.append("\n\n");
    out.append("## Must obey\n\n");
    append_bullets(&mut out, "", &pack.agent_instructions);
    append_bullets(&mut out, "", &pack.required_runtime_guards);
    append_bullets(&mut out, "Add degraded mode when ", &pack.degraded_mode_triggers);
    out.append("\n## Budget constraints\n\n");
    if pack.budget_constraints.len() == 0 {
        out.append("- No numeric budget constraint was established by this v2 decision.\n");
    } else {
        append_bullets(&mut out, "", &pack.budget_constraints);
    }
    out.append("\n## Forbidden patterns\n\n");
    append_bullets(&mut out, "", &pack.forbidden_patterns);
    out.append("\n## Blocked claims\n\n");
    append_blocked_claims(&mut out, &pack.blocked_claims);
    proof {
        reveal_strlit("");
        assert(""@ =~= Seq::<char>::empty());
    }
    out
}

#[derive(Debug, Clone, Copy, PartialEq, Eq, Structural)]
pub enum ConstraintCheckMode {
    CandidateContent,
    GeneratedConstraints,
}

#[derive(Debug, Clone, PartialEq, Eq)]
pub struct ConstraintCheckMatch {
    pub path: String,
    pub claim_id: String,
    pub blocked_claim: String,
}

#[derive(Debug, Clone, PartialEq, Eq)]
pub struct ConstraintCheckPayload {
    pub mode: ConstraintCheckMode,
    pub status: String,
    pub checked_path: String,
    pub matches: Vec<ConstraintCheckMatch>,
}

/// A match by its views: path, claim, blocked wording or reason.
pub type MatchView = (Seq<char>, Seq<char>, Seq<char>);

impl View for ConstraintCheckMatch {
    type V = MatchView;

    open spec fn view(&self) -> MatchView {
        (self.path@, self.claim_id@, self.blocked_claim@)
    }
}

/// The views of matches.
pub open spec fn mviews(m: Seq<ConstraintCheckMatch>) -> Seq<MatchView> {
    m.map_values(|x: ConstraintCheckMatch| x@)
}

/// The wording a blocked claim is searched for: its catalog wording, or
/// its identifier outside the catalog.
pub open spec fn searched_wording(claim_id: Seq<char>) -> Seq<char> {
    if catalog_ids().contains(claim_id) { catalog_blocked_text(claim_id) } else { claim_id }
}

/// The matches of blocked claims in a file's text, in claim order.
pub open spec fn text_matches(path: Seq<char>, text: Seq<char>, claims: Seq<Seq<char>>) -> Seq<MatchView>
    decreases claims.len(),
{
    if claims.len() == 0 {
        Seq::empty()
    } else {
        let prev = text_matches(path, text, claims.drop_last());
        let id = claims.last();
        let wording = searched_wording(id);
        if !crate::run_validation::is_blank(wording) && crate::text::contains_seq(text, wording) {
            prev.push((path, id, wording))
        } else {
            prev
        }
    }
}

/// Records every blocked claim whose wording a file's text contains.
pub fn scan_text_for_blocked_claims(
    path: &str,
    text: &str,
    blocked_claims: &Vec<String>,
    matches: &mut Vec<ConstraintCheckMatch>,
)
    ensures
        mviews(final(matches)@) == mviews(old(matches)@) + text_matches(path@, text@, views(blocked_claims@)),
{
    let ghost start = mviews(matches@);
    let mut i: usize = 0;
    while i < blocked_claims.len()
        invariant
            i <= blocked_claims@.len(),
            mviews(matches@) == start + text_matches(path@, text@, views(blocked_claims@).take(i as int)),
        decreases blocked_claims.len() - i,
    {
        proof {
            assert(views(blocked_claims@).take(i + 1).drop_last() =~= views(blocked_claims@).take(i as int));
        }
        let id = blocked_claims[i].as_str();
        let wording = match claim_definition(id) {
            Some(d) => owned(d.blocked_text),
            None => owned(id),
        };
        let ghost before = mviews(matches@);
        if !crate::run_validation::is_blank_str(wording.as_str()) && crate::text::contains(text, wording.as_str()) {
            matches.push(ConstraintCheckMatch { path: owned(path), claim_id: owned(id), blocked_claim: wording });
            proof {
                assert(mviews(matches@) =~= before.push((path@, id@, searched_wording(id@))));
            }
        }
        i = i + 1;
    }
    proof {
        assert(views(blocked_claims@).take(blocked_claims@.len() as int) =~= views(blocked_claims@));
    }
}

/// Records that a generated constraints file departs from its artifact.
pub fn push_generated_constraint_mismatch(path: &str, reason: &str, matches: &mut Vec<ConstraintCheckMatch>)
    ensures
        mviews(final(matches)@) == mviews(old(matches)@).push((path@, "report.constraints"@, reason@)),
{
    let ghost before = mviews(matches@);
    matches.push(ConstraintCheckMatch { path: owned(path), claim_id: owned("report.constraints"), blocked_claim: owned(reason) });
    proof {
        assert(mviews(matches@) =~= before.push((path@, "report.constraints"@, reason@)));
    }
}

/// The sections generated constraints markdown must hold.
pub open spec fn required_sections() -> Seq<Seq<char>> {
    seq!["# Target Constraints"@, "Source:"@, "## Must obey"@, "## Blocked claims"@]
}

/// The mismatches for the required sections a markdown text lacks.
pub open spec fn missing_sections(path: Seq<char>, text: Seq<char>, sections: Seq<Seq<char>>) -> Seq<MatchView>
    decreases sections.len(),
{
    if sections.len() == 0 {
        Seq::empty()
    } else {
        let prev = missing_sections(path, text, sections.drop_last());
        if crate::text::contains_seq(text, sections.last()) {
            prev
        } else {
            prev.push((path, "report.constraints"@, "generated constraints markdown is missing section "@ + sections.last()))
        }
    }
}

/// The mismatches for the blocked claim identifiers a markdown text lacks.
pub open spec fn missing_claim_ids(path: Seq<char>, text: Seq<char>, ids: Seq<Seq<char>>) -> Seq<MatchView>
    decreases ids.len(),
{
    if ids.len() == 0 {
        Seq::empty()
    } else {
        let prev = missing_claim_ids(path, text, ids.drop_last());
        if crate::text::contains_seq(text, ids.last()) {
            prev
        } else {
            prev.push((path, "report.constraints"@, "generated constraints markdown is missing blocked claim id "@ + ids.last()))
        }
    }
}

fn push_missing(path: &str, text: &str, items: &Vec<String>, section: bool, matches: &mut Vec<ConstraintCheckMatch>)
    ensures
        mviews(final(matches)@) == mviews(old(matches)@) + (if section {
            missing_sections(path@, text@, views(items@))
        } else {
            missing_claim_ids(path@, text@, views(items@))
        }),
{
    let ghost start = mviews(matches@);
    let mut i: usize = 0;
    while i < items.len()
        invariant
            i <= items@.len(),
            mviews(matches@) == start + (if section {
                missing_sections(path@, text@, views(items@).take(i as int))
            } else {
                missing_claim_ids(path@, text@, views(items@).take(i as int))
            }),
        decreases items.len() - i,
    {
        proof {
            assert(views(items@).take(i + 1).drop_last() =~= views(items@).take(i as int));
        }
        let item = items[i].as_str();
        if !crate::text::contains(text, item) {
            let reason = if section {
                concat("generated constraints markdown is missing section ", item)
            } else {
                concat("generated constraints markdown is missing blocked claim id ", item)
            };
            let ghost before = mviews(matches@);
            push_generated_constraint_mismatch(path, reason.as_str(), matches);
        }
        i = i + 1;
    }
    proof {
        assert(views(items@).take(items@.len() as int) =~= views(items@));
    }
}

/// Checks generated constraints markdown: it holds every required section
/// and names every blocked claim of its artifact.
pub fn check_generated_constraints_markdown(
    constraints: &Artifact<ConstraintsPayload>,
    path: &str,
    text: &str,
    matches: &mut Vec<ConstraintCheckMatch>,
)
    ensures
        mviews(final(matches)@) == mviews(old(matches)@) + missing_sections(path@, text@, required_sections())
            + missing_claim_ids(path@, text@, views(constraints.payload.blocked_claims@)),
{
    let sections = owned_all(&crate::text::strs4("# Target Constraints", "Source:", "## Must obey", "## Blocked claims"));
    proof {
        assert(views(sections@) =~= required_sections());
    }
    push_missing(path, text, &sections, true, matches);
    push_missing(path, text, &constraints.payload.blocked_claims, false, matches);
}

/// The label of a constraints artifact's kind as the JSON check compares it.
pub open spec fn constraints_kind_label(k: Kind) -> Seq<char> {
    if k == Kind::ReportConstraints { "report.constraints"@ } else { "other"@ }
}

/// One field mismatch, when the values differ.
pub open spec fn field_mismatch(path: Seq<char>, label: Seq<char>, expected: Seq<char>, actual: Seq<char>) -> Seq<MatchView> {
    if expected == actual {
        Seq::empty()
    } else {
        seq![(path, "report.constraints"@, "generated constraints JSON "@ + label + " mismatch: expected "@ + expected + ", got "@ + actual)]
    }
}

/// The mismatches between an expected constraints artifact and the one a
/// generated JSON file holds; a file that holds none is one mismatch.
pub open spec fn json_mismatches(
    path: Seq<char>,
    expected: Artifact<ConstraintsPayload>,
    generated: Option<Artifact<ConstraintsPayload>>,
) -> Seq<MatchView> {
    match generated {
        None => seq![(path, "report.constraints"@, "generated constraints JSON is not a report.constraints artifact"@)],
        Some(g) => artifact_field_mismatches(path, expected, g)
            + (if views(expected.payload.blocked_claims@) == views(g.payload.blocked_claims@) {
                Seq::empty()
            } else {
                seq![(path, "report.constraints"@, "generated constraints JSON blocked_claims mismatch"@)]
            }),
    }
}

/// The mismatches of the envelope and source fields of a generated
/// constraints artifact, in the order they are checked.
pub open spec fn artifact_field_mismatches(
    path: Seq<char>,
    expected: Artifact<ConstraintsPayload>,
    g: Artifact<ConstraintsPayload>,
) -> Seq<MatchView> {
    field_mismatch(path, "schema"@, expected.schema@, g.schema@)
        + field_mismatch(path, "kind"@, "report.constraints"@, constraints_kind_label(g.kind))
        + field_mismatch(path, "id"@, expected.id@, g.id@)
        + field_mismatch(path, "run_id"@, expected.run_id@, g.run_id@)
        + field_mismatch(path, "target_id"@, expected.target_id@, g.target_id@)
        + field_mismatch(path, "source_suitability_id"@, expected.payload.source_suitability_id@,
            g.payload.source_suitability_id@)
}

#[verifier::rlimit(30)]
fn push_artifact_field_mismatches(
    path: &str,
    expected: &Artifact<ConstraintsPayload>,
    g: &Artifact<ConstraintsPayload>,
    matches: &mut Vec<ConstraintCheckMatch>,
)
    ensures
        mviews(final(matches)@) == mviews(old(matches)@) + artifact_field_mismatches(path@, *expected, *g),
{
    let ghost start = mviews(matches@);
    push_field_mismatch(path, "schema", expected.schema.as_str(), g.schema.as_str(), matches);
    let ghost m1 = mviews(matches@);
    let kind = if g.kind == Kind::ReportConstraints { "report.constraints" } else { "other" };
    push_field_mismatch(path, "kind", "report.constraints", kind, matches);
    let ghost m2 = mviews(matches@);
    push_field_mismatch(path, "id", expected.id.as_str(), g.id.as_str(), matches);
    let ghost m3 = mviews(matches@);
    push_field_mismatch(path, "run_id", expected.run_id.as_str(), g.run_id.as_str(), matches);
    let ghost m4 = mviews(matches@);
    push_field_mismatch(path, "target_id", expected.target_id.as_str(), g.target_id.as_str(), matches);
    let ghost m5 = mviews(matches@);
    push_field_mismatch(path, "source_suitability_id", expected.payload.source_suitability_id.as_str(),
        g.payload.source_suitability_id.as_str(), matches);
    proof {
        let e = *expected;
        let gg = *g;
        let f1 = field_mismatch(path@, "schema"@, e.schema@, gg.schema@);
        let f2 = field_mismatch(path@, "kind"@, "report.constraints"@, constraints_kind_label(gg.kind));
        let f3 = field_mismatch(path@, "id"@, e.id@, gg.id@);
        let f4 = field_mismatch(path@, "run_id"@, e.run_id@, gg.run_id@);
        let f5 = field_mismatch(path@, "target_id"@, e.target_id@, gg.target_id@);
        let f6 = field_mismatch(path@, "source_suitability_id"@, e.payload.source_suitability_id@,
            gg.payload.source_suitability_id@);
        assert(m1 == start + f1);
        assert(m2 == m1 + f2);
        assert(m3 == m2 + f3);
        assert(m4 == m3 + f4);
        assert(m5 == m4 + f5);
        assert(mviews(matches@) == m5 + f6);
        assert(artifact_field_mismatches(path@, e, gg) == f1 + f2 + f3 + f4 + f5 + f6);
        assert(mviews(matches@) =~= start + (f1 + f2 + f3 + f4 + f5 + f6));
    }
}

fn push_field_mismatch(path: &str, label: &str, expected: &str, actual: &str, matches: &mut Vec<ConstraintCheckMatch>)
    ensures
        mviews(final(matches)@) == mviews(old(matches)@) + field_mismatch(path@, label@, expected@, actual@),
{
    let ghost start = mviews(matches@);
    if !str_eq(expected, actual) {
        let a = concat("generated constraints JSON ", label);
        let b = concat(a.as_str(), " mismatch: expected ");
        let c = concat(b.as_str(), expected);
        let d = concat(c.as_str(), ", got ");
        let reason = concat(d.as_str(), actual);
        push_generated_constraint_mismatch(path, reason.as_str(), matches);
    }
    proof {
        assert(mviews(matches@) =~= start + field_mismatch(path@, label@, expected@, actual@));
    }
}

fn same_strings(a: &Vec<String>, b: &Vec<String>) -> (r: bool)
    ensures
        r == (views(a@) == views(b@)),
{
    if a.len() != b.len() {
        proof {
            assert(views(a@).len() != views(b@).len());
        }
        return false;
    }
    let mut i: usize = 0;
    while i < a.len()
        invariant
            a@.len() == b@.len(),
            i <= a@.len(),
            forall|k: int| 0 <= k < i ==> views(a@)[k] == views(b@)[k],
        decreases a.len() - i,
    {
        if !str_eq(a[i].as_str(), b[i].as_str()) {
            proof {
                assert(views(a@)[i as int] != views(b@)[i as int]);
            }
            return false;
        }
        i = i + 1;
    }
    proof {
        assert(views(a@) =~= views(b@));
    }
    true
}

/// Checks a generated constraints JSON file against the artifact it should
/// hold: `generated` is what the file parsed as, none when it is not a
/// constraints artifact.
pub fn check_generated_constraints_json(
    expected: &Artifact<ConstraintsPayload>,
    path: &str,
    generated: Option<&Artifact<ConstraintsPayload>>,
    matches: &mut Vec<ConstraintCheckMatch>,
)
    ensures
        mviews(final(matches)@) == mviews(old(matches)@) + json_mismatches(path@, *expected,
            match generated { Some(g) => Some(*g), None => None }),
{
    let ghost start = mviews(matches@);
    match generated {
        None => {
            push_generated_constraint_mismatch(path, "generated constraints JSON is not a report.constraints artifact", matches);
        },
        Some(g) => {
            push_artifact_field_mismatches(path, expected, g, matches);
            let ghost m6 = mviews(matches@);
            if !same_strings(&expected.payload.blocked_claims, &g.payload.blocked_claims) {
                push_generated_constraint_mismatch(path, "generated constraints JSON blocked_claims mismatch", matches);
            }
            proof {
                let f7 = mviews(matches@).subrange(m6.len() as int, mviews(matches@).len() as int);
                assert(mviews(matches@) =~= m6 + f7);
                assert(json_mismatches(path@, *expected, Some(*g)) == artifact_field_mismatches(path@, *expected, *g) + f7);
                assert(mviews(matches@) =~= start + (artifact_field_mismatches(path@, *expected, *g) + f7));
            }
        },
    }
}

/// Whether a directory walk skips an entry with this name.
pub fn should_skip_path(file_name: &str) -> (r: bool)
    ensures
        r == (file_name@ == ".git"@ || file_name@ == "target"@ || file_name@ == "lab"@),
{
    str_eq(file_name, ".git") || str_eq(file_name, "target") || str_eq(file_name, "lab")
}

/// Whether a file with this extension is scanned for blocked claims.
pub fn should_scan_file(extension: &str) -> (r: bool)
    ensures
        r == (extension@ == "md"@ || extension@ == "txt"@ || extension@ == "rs"@ || extension@ == "json"@
            || extension@ == "yaml"@ || extension@ == "yml"@),
{
    str_eq(extension, "md") || str_eq(extension, "txt") || str_eq(extension, "rs") || str_eq(extension, "json")
        || str_eq(extension, "yaml") || str_eq(extension, "yml")
}

/// The result of a constraints check: it passes when nothing matched; a
/// match blocks the checked path as unsafe. The checked path's files were
/// scanned by the caller into `matches`.
pub fn check_constraints_v2(
    constraints: &Artifact<ConstraintsPayload>,
    checked_path: String,
    mode: ConstraintCheckMode,
    matches: Vec<ConstraintCheckMatch>,
) -> (a: Artifact<ConstraintCheckPayload>)
    ensures
        report_envelope(a, Kind::ReportConstraintsCheck, "CONSTRAINT-CHECK"@, constraints.run_id@, constraints.target_id@, a.status),
        a.payload.mode == mode,
        a.payload.checked_path@ == checked_path@,
        mviews(a.payload.matches@) == mviews(matches@),
        a.payload.status@ == (if matches@.len() == 0 { "pass"@ } else { "fail"@ }),
        matches@.len() == 0 ==> a.status == Status::MeasuredPartial,
        matches@.len() > 0 ==> (a.status matches Status::UnsafeBlocked { reason } && reason@ == "blocked constraints matched checked path"@),
        views(a.evidence_refs@) == views(constraints.evidence_refs@),
        a.claims@.len() == 0,
        a.data_quality.level == DataQualityLevel::Complete,
{
    let pass = matches.len() == 0;
    let ghost mv = mviews(matches@);
    let payload = ConstraintCheckPayload {
        mode,
        status: if pass { owned("pass") } else { owned("fail") },
        checked_path,
        matches,
    };
    let status = if pass {
        Status::MeasuredPartial
    } else {
        Status::UnsafeBlocked { reason: owned("blocked constraints matched checked path") }
    };
    let mut artifact = fresh_artifact(
        Kind::ReportConstraintsCheck,
        "CONSTRAINT-CHECK",
        owned(constraints.run_id.as_str()),
        owned(constraints.target_id.as_str()),
        status,
        payload,
    );
    artifact.evidence_refs = crate::text::copy_all(&constraints.evidence_refs);
    artifact
}

} // verus!

verus! {

/// A text that holds `s` still holds it with more text after it.
pub proof fn lemma_contains_extend(a: Seq<char>, b: Seq<char>, s: Seq<char>)
    requires
        crate::text::contains_seq(a, s),
    ensures
        crate::text::contains_seq(a + b, s),
{
    let i = choose|i: int| crate::text::occurs_at(a, s, i);
    assert((a + b).subrange(i, i + s.len()) =~= a.subrange(i, i + s.len()));
    assert(crate::text::occurs_at(a + b, s, i));
}

/// A text that holds `s` still holds it with more text before it.
pub proof fn lemma_contains_after(a: Seq<char>, b: Seq<char>, s: Seq<char>)
    requires
        crate::text::contains_seq(b, s),
    ensures
        crate::text::contains_seq(a + b, s),
{
    let i = choose|i: int| crate::text::occurs_at(b, s, i);
    assert((a + b).subrange(a.len() + i, a.len() + i + s.len()) =~= b.subrange(i, i + s.len()));
    assert(crate::text::occurs_at(a + b, s, a.len() + i));
}

/// A text holds its own prefixes.
pub proof fn lemma_contains_prefix(a: Seq<char>, s: Seq<char>)
    requires
        s.len() <= a.len(),
        a.subrange(0, s.len() as int) == s,
    ensures
        crate::text::contains_seq(a, s),
{
    assert(crate::text::occurs_at(a, s, 0));
}

/// The blocked claim lines hold every claim identifier they list.
pub proof fn lemma_blocked_lines_hold_ids(items: Seq<Seq<char>>, k: int)
    requires
        0 <= k < items.len(),
    ensures
        crate::text::contains_seq(blocked_claim_lines(items), items[k]),
    decreases items.len(),
{
    let prev = blocked_claim_lines(items.drop_last());
    let id = items.last();
    let text = if catalog_ids().contains(id) { catalog_blocked_text(id) } else { id };
    let line = "- `"@ + id + "`: \""@ + text + "\"\n"@;
    assert(blocked_claim_line(id) == line);
    if k == items.len() - 1 {
        assert(id.subrange(0, id.len() as int) =~= id);
        lemma_contains_prefix(id, id);
        lemma_contains_after("- `"@, id, id);
        lemma_contains_extend("- `"@ + id, "`: \""@, id);
        lemma_contains_extend("- `"@ + id + "`: \""@, text, id);
        lemma_contains_extend("- `"@ + id + "`: \""@ + text, "\"\n"@, id);
        lemma_contains_after(prev, line, id);
    } else {
        assert(items.drop_last()[k] == items[k]);
        lemma_blocked_lines_hold_ids(items.drop_last(), k);
        lemma_contains_extend(prev, line, items[k]);
    }
}

/// A text that holds every required section lacks none.
pub proof fn lemma_no_missing_sections(path: Seq<char>, text: Seq<char>, sections: Seq<Seq<char>>)
    requires
        forall|k: int| 0 <= k < sections.len() ==> crate::text::contains_seq(text, #[trigger] sections[k]),
    ensures
        missing_sections(path, text, sections) == Seq::<MatchView>::empty(),
    decreases sections.len(),
{
    if sections.len() > 0 {
        assert(crate::text::contains_seq(text, sections[sections.len() - 1]));
        assert forall|k: int| 0 <= k < sections.drop_last().len() implies
            crate::text::contains_seq(text, #[trigger] sections.drop_last()[k]) by {
            assert(sections.drop_last()[k] == sections[k]);
        }
        lemma_no_missing_sections(path, text, sections.drop_last());
    }
}

/// A text that holds every blocked claim identifier lacks none.
pub proof fn lemma_no_missing_claim_ids(path: Seq<char>, text: Seq<char>, ids: Seq<Seq<char>>)
    requires
        forall|k: int| 0 <= k < ids.len() ==> crate::text::contains_seq(text, #[trigger] ids[k]),
    ensures
        missing_claim_ids(path, text, ids) == Seq::<MatchView>::empty(),
    decreases ids.len(),
{
    if ids.len() > 0 {
        assert(crate::text::contains_seq(text, ids[ids.len() - 1]));
        assert forall|k: int| 0 <= k < ids.drop_last().len() implies
            crate::text::contains_seq(text, #[trigger] ids.drop_last()[k]) by {
            assert(ids.drop_last()[k] == ids[k]);
        }
        lemma_no_missing_claim_ids(path, text, ids.drop_last());
    }
}

/// The agent constraints markdown rendered from a constraints artifact
/// passes the generated-constraints markdown check against that artifact:
/// it holds every required section and every blocked claim identifier, so
/// the check adds no match.
pub proof fn law_rendered_constraints_pass_check(constraints: Artifact<ConstraintsPayload>, decision_ref: Seq<char>, path: Seq<char>)
    ensures
        missing_sections(path, constraints_markdown(constraints.target_id@, constraints.payload, decision_ref),
            required_sections()) == Seq::<MatchView>::empty(),
        missing_claim_ids(path, constraints_markdown(constraints.target_id@, constraints.payload, decision_ref),
            views(constraints.payload.blocked_claims@)) == Seq::<MatchView>::empty(),
{
    let pack = constraints.payload;
    let workload = match pack.workload_id { Some(w) => w@, None => "unknown_workload"@ };
    let budget = if pack.budget_constraints@.len() == 0 {
        "- No numeric budget constraint was established by this v2 decision.\n"@
    } else {
        bullet_lines(Seq::empty(), views(pack.budget_constraints@))
    };
    let p1 = "# Target Constraints for "@;
    let p5 = p1 + constraints.target_id@ + " / "@ + workload + "\n\n"@;
    let p6 = p5 + "Source:\n"@;
    let p9 = p6 + "- suitability_artifact: "@ + decision_ref + "\n\n"@;
    let p10 = p9 + "## Must obey\n\n"@;
    let p17 = p10 + bullet_lines(Seq::empty(), views(pack.agent_instructions@))
        + bullet_lines(Seq::empty(), views(pack.required_runtime_guards@))
        + bullet_lines("Add degraded mode when "@, views(pack.degraded_mode_triggers@))
        + "\n## Budget constraints\n\n"@ + budget + "\n## Forbidden patterns\n\n"@
        + bullet_lines(Seq::empty(), views(pack.forbidden_patterns@));
    let p18 = p17 + "\n## Blocked claims\n\n"@;
    let lines = blocked_claim_lines(views(pack.blocked_claims@));
    let md = p18 + lines;
    assert(md == constraints_markdown(constraints.target_id@, pack, decision_ref));
    reveal_strlit("# Target Constraints for ");
    reveal_strlit("# Target Constraints");
    reveal_strlit("Source:\n");
    reveal_strlit("Source:");
    reveal_strlit("## Must obey\n\n");
    reveal_strlit("## Must obey");
    reveal_strlit("\n## Blocked claims\n\n");
    reveal_strlit("## Blocked claims");
    // the title
    assert(p1.subrange(0, 20) =~= "# Target Constraints"@);
    lemma_contains_prefix(p1, "# Target Constraints"@);
    lemma_contains_extend(p1, constraints.target_id@ + " / "@ + workload + "\n\n"@, "# Target Constraints"@);
    assert(p1 + (constraints.target_id@ + " / "@ + workload + "\n\n"@) =~= p5);
    lemma_contains_extend(p5, md.subrange(p5.len() as int, md.len() as int), "# Target Constraints"@);
    assert(p5 + md.subrange(p5.len() as int, md.len() as int) =~= md);
    // the source
    assert("Source:\n"@.subrange(0, 7) =~= "Source:"@);
    lemma_contains_prefix("Source:\n"@, "Source:"@);
    lemma_contains_after(p5, "Source:\n"@, "Source:"@);
    lemma_contains_extend(p6, md.subrange(p6.len() as int, md.len() as int), "Source:"@);
    assert(p6 + md.subrange(p6.len() as int, md.len() as int) =~= md);
    // the rules
    assert("## Must obey\n\n"@.subrange(0, 12) =~= "## Must obey"@);
    lemma_contains_prefix("## Must obey\n\n"@, "## Must obey"@);
    lemma_contains_after(p9, "## Must obey\n\n"@, "## Must obey"@);
    lemma_contains_extend(p10, md.subrange(p10.len() as int, md.len() as int), "## Must obey"@);
    assert(p10 + md.subrange(p10.len() as int, md.len() as int) =~= md);
    // the blocked claims
    let bc = "\n## Blocked claims\n\n"@;
    assert(crate::text::occurs_at(bc, "## Blocked claims"@, 1)) by {
        assert(bc.subrange(1, 18) =~= "## Blocked claims"@);
    }
    lemma_contains_after(p17, bc, "## Blocked claims"@);
    lemma_contains_extend(p18, lines, "## Blocked claims"@);
    assert forall|k: int| 0 <= k < required_sections().len() implies
        crate::text::contains_seq(md, #[trigger] required_sections()[k]) by {
        if k == 0 {
        } else if k == 1 {
        } else if k == 2 {
        } else {
        }
    }
    lemma_no_missing_sections(path, md, required_sections());
    let ids = views(pack.blocked_claims@);
    assert forall|k: int| 0 <= k < ids.len() implies crate::text::contains_seq(md, #[trigger] ids[k]) by {
        lemma_blocked_lines_hold_ids(ids, k);
        lemma_contains_after(p18, lines, ids[k]);
    }
    lemma_no_missing_claim_ids(path, md, ids);
}

} // verus!

verus! {

/// What a generated constraints path turned out to be when read: a
/// directory, an unreadable file, a markdown file's text, or a JSON file's
/// constraints artifact (`None` when its text is not one).
pub enum GeneratedConstraintsFile {
    Directory,
    Unreadable,
    Markdown(String),
    Json(Option<Artifact<ConstraintsPayload>>),
}

/// The mismatches the generated-constraints self-check finds in a file.
pub open spec fn generated_file_matches(
    c: Artifact<ConstraintsPayload>,
    path: Seq<char>,
    file: GeneratedConstraintsFile,
) -> Seq<MatchView> {
    match file {
        GeneratedConstraintsFile::Directory => seq![(path, "report.constraints"@,
            "generated constraints self-check expects a generated file path"@)],
        GeneratedConstraintsFile::Unreadable => seq![(path, "report.constraints"@,
            "generated constraints self-check could not read the file"@)],
        GeneratedConstraintsFile::Markdown(t) => missing_sections(path, t@, required_sections())
            + missing_claim_ids(path, t@, views(c.payload.blocked_claims@)),
        GeneratedConstraintsFile::Json(g) => json_mismatches(path, c, g),
    }
}

/// Checks a generated constraints file against the artifact it was
/// generated from.
pub fn check_generated_constraints_file(
    constraints: &Artifact<ConstraintsPayload>,
    path: &str,
    file: &GeneratedConstraintsFile,
    matches: &mut Vec<ConstraintCheckMatch>,
)
    ensures
        mviews(final(matches)@) == mviews(old(matches)@) + generated_file_matches(*constraints, path@, *file),
{
    let ghost start = mviews(matches@);
    match file {
        GeneratedConstraintsFile::Directory => {
            push_generated_constraint_mismatch(path, "generated constraints self-check expects a generated file path", matches);
            proof {
                assert(mviews(matches@) =~= start + generated_file_matches(*constraints, path@, *file));
            }
        },
        GeneratedConstraintsFile::Unreadable => {
            push_generated_constraint_mismatch(path, "generated constraints self-check could not read the file", matches);
            proof {
                assert(mviews(matches@) =~= start + generated_file_matches(*constraints, path@, *file));
            }
        },
        GeneratedConstraintsFile::Markdown(text) => {
            check_generated_constraints_markdown(constraints, path, text.as_str(), matches);
            proof {
                assert(mviews(matches@) =~= start + generated_file_matches(*constraints, path@, *file));
            }
        },
        GeneratedConstraintsFile::Json(generated) => {
            let g = match generated {
                Some(a) => Some(a),
                None => None,
            };
            check_generated_constraints_json(constraints, path, g, matches);
        },
    }
}

/// The generated-constraints self-check of a file: pass when the file
/// matches the artifact it was generated from.
pub fn check_generated_constraints_v2(
    constraints: &Artifact<ConstraintsPayload>,
    checked_path: String,
    file: &GeneratedConstraintsFile,
) -> (a: Artifact<ConstraintCheckPayload>)
    ensures
        report_envelope(a, Kind::ReportConstraintsCheck, "CONSTRAINT-CHECK"@, constraints.run_id@, constraints.target_id@, a.status),
        a.payload.mode == ConstraintCheckMode::GeneratedConstraints,
        a.payload.checked_path@ == checked_path@,
        mviews(a.payload.matches@) == generated_file_matches(*constraints, checked_path@, *file),
        a.payload.status@ == (if generated_file_matches(*constraints, checked_path@, *file).len() == 0 { "pass"@ } else { "fail"@ }),
        generated_file_matches(*constraints, checked_path@, *file).len() == 0 ==> a.status == Status::MeasuredPartial,
        generated_file_matches(*constraints, checked_path@, *file).len() > 0 ==> (a.status matches Status::UnsafeBlocked { reason }
            && reason@ == "blocked constraints matched checked path"@),
        views(a.evidence_refs@) == views(constraints.evidence_refs@),
{
    let mut matches: Vec<ConstraintCheckMatch> = Vec::new();
    check_generated_constraints_file(constraints, checked_path.as_str(), file, &mut matches);
    proof {
        assert(mviews(Seq::<ConstraintCheckMatch>::empty()) =~= Seq::<MatchView>::empty());
        assert(mviews(matches@) =~= generated_file_matches(*constraints, checked_path@, *file));
        assert(mviews(matches@).len() == matches@.len());
    }
    check_constraints_v2(constraints, checked_path, ConstraintCheckMode::GeneratedConstraints, matches)
}

/// A markdown file holding exactly the agent constraints rendered from a
/// constraints artifact passes the generated-constraints self-check against
/// that artifact: no mismatch, so the check passes.
pub proof fn law_generated_constraints_file_passes(
    c: Artifact<ConstraintsPayload>,
    decision_ref: Seq<char>,
    path: Seq<char>,
    file: GeneratedConstraintsFile,
)
    requires
        file matches GeneratedConstraintsFile::Markdown(t) && t@ == constraints_markdown(c.target_id@, c.payload, decision_ref),
    ensures
        generated_file_matches(c, path, file).len() == 0,
{
    law_rendered_constraints_pass_check(c, decision_ref, path);
}

} // verus!

verus! {

/// A required dimension that is marginal, while none fails or is unknown,
/// makes the overall decision marginal.
pub proof fn law_marginal_required_dimension_is_marginal(
    dims: Seq<SuitabilityDimensionDecision>,
    required: Seq<SuitabilityDimensionKind>,
    i: int,
)
    requires
        forall|j: int| 0 <= j < dims.len() && required.contains(#[trigger] dims[j].dimension) ==>
            dims[j].decision != SuitabilityDecisionValue::Fail && dims[j].decision != SuitabilityDecisionValue::Unknown,
        0 <= i < dims.len(),
        required.contains(dims[i].dimension),
        dims[i].decision == SuitabilityDecisionValue::Marginal,
    ensures
        overall_decision_spec(dims, required) == SuitabilityDecisionValue::Marginal,
{
    assert(required.contains(dims[i].dimension) && dims[i].decision == SuitabilityDecisionValue::Marginal);
    if exists|j: int| 0 <= j < dims.len() && required.contains((#[trigger] dims[j]).dimension)
        && dims[j].decision == SuitabilityDecisionValue::Fail {
        let j = choose|j: int| 0 <= j < dims.len() && required.contains((#[trigger] dims[j]).dimension)
            && dims[j].decision == SuitabilityDecisionValue::Fail;
        assert(required.contains(dims[j].dimension));
    }
    if exists|j: int| 0 <= j < dims.len() && required.contains((#[trigger] dims[j]).dimension)
        && dims[j].decision == SuitabilityDecisionValue::Unknown {
        let j = choose|j: int| 0 <= j < dims.len() && required.contains((#[trigger] dims[j]).dimension)
            && dims[j].decision == SuitabilityDecisionValue::Unknown;
        assert(required.contains(dims[j].dimension));
    }
}

/// The overall decision is a meet only when every required dimension meets.
pub proof fn law_meet_needs_every_required_meet(
    dims: Seq<SuitabilityDimensionDecision>,
    required: Seq<SuitabilityDimensionKind>,
)
    ensures
        overall_decision_spec(dims, required) == SuitabilityDecisionValue::Meet ==>
            forall|j: int| 0 <= j < dims.len() && required.contains(#[trigger] dims[j].dimension) ==>
                dims[j].decision == SuitabilityDecisionValue::Meet,
{
    if overall_decision_spec(dims, required) == SuitabilityDecisionValue::Meet {
        assert forall|j: int| 0 <= j < dims.len() && required.contains(#[trigger] dims[j].dimension) implies
            dims[j].decision == SuitabilityDecisionValue::Meet by {
            let d = dims[j].decision;
            assert(required.contains(dims[j].dimension));
            if d == SuitabilityDecisionValue::Fail || d == SuitabilityDecisionValue::Unknown
                || d == SuitabilityDecisionValue::Marginal {
                assert(false);
            }
        }
    }
}

} // verus!
