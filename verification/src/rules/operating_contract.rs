//! The operating-contract rule table: which claims about a target the
//! probe evidence supports, and what is missing for the others.

use crate::evidence::claim;
use crate::evidence::envelope::{fresh_artifact, report_envelope, Artifact, DataQuality, DataQualityLevel, Decision, Kind, Status};
use crate::evidence::store::EvidenceStore;
use crate::rules::engine::{
    all_matched, blocked_claims, claim_of, claims_for_evaluations, claims_of_evaluations, every_matched, rule_report_parts, composite_seen, evaluate_rules, evaluation_of,
    is_blocked_claim, is_next_evidence, load_duration_seen, bounded_transfer_seen, next_evidence, none_blocked,
    observation_samples_seen, pred_holds, pressure_effect_seen, status_for_evaluations, Pred, Rule, RuleEvaluation,
};
use crate::evidence::store::ArtifactMeta;
use crate::evidence::store::has_kind;
use crate::text::{owned, str_views, strictly_sorted, views};
use vstd::prelude::*;

verus! {

#[derive(Debug, Clone, PartialEq, Eq)]
pub struct OperatingContractPayload {
    pub rule_set_id: String,
    pub evaluations: Vec<RuleEvaluation>,
    pub blocked_claims: Vec<String>,
    pub next_evidence: Vec<String>,
}

/// The identifier of the built-in operating-contract rule set.
pub const OPERATING_CONTRACT_RULE_SET: &'static str = "rules.operating_contract.v2";

/// The fixed parts of a rule: identifiers, decisions, evidence kinds and
/// next evidence.
pub open spec fn rule_shape(
    r: Rule,
    id: Seq<char>,
    claim_id: Seq<char>,
    on_match: Decision,
    on_miss: Decision,
    kinds: Seq<Kind>,
    next: Seq<Seq<char>>,
) -> bool {
    &&& r.id@ == id
    &&& r.claim_id@ == claim_id
    &&& r.on_match == on_match
    &&& r.on_miss == on_miss
    &&& r.evidence_kinds@ == kinds
    &&& str_views(r.next_evidence@) == next
}

/// The built-in operating-contract rules, in order.
pub open spec fn operating_contract_table(rules: Seq<Rule>) -> bool {
    &&& rules.len() == 7
    &&& rule_shape(rules[0], "operating.memory_storage_coupling_requires_composite"@, claim::COUPLING_MEMORY_TO_STORAGE@,
        Decision::Supported, Decision::Blocked, seq![Kind::Pressure, Kind::Composite],
        seq!["run paired memory/storage composite probe"@])
    &&& forall|arts: Seq<ArtifactMeta>| #[trigger] pred_holds(arts, rules[0].when)
        == (pressure_effect_seen(arts, "memory_pressure"@) && composite_seen(arts, "memory_storage_jitter"@))
    &&& rule_shape(rules[1], "operating.sustained_thermal_requires_soak"@, claim::THERMAL_SUSTAINED_SOAK@,
        Decision::Provisional, Decision::Blocked, seq![Kind::Load, Kind::Pressure],
        seq!["run approved sustained thermal soak with cooldown observation"@])
    &&& forall|arts: Seq<ArtifactMeta>| #[trigger] pred_holds(arts, rules[1].when)
        == (load_duration_seen(arts, 900) && pressure_effect_seen(arts, "thermal_pressure"@))
    &&& rule_shape(rules[2], "operating.storage_default_writes_require_bounded_probe"@, claim::STORAGE_DEFAULT_WRITES_BOUNDED@,
        Decision::Provisional, Decision::Blocked, seq![Kind::Pressure],
        seq!["run bounded storage I/O probe with cleanup verification"@])
    &&& forall|arts: Seq<ArtifactMeta>| #[trigger] pred_holds(arts, rules[2].when)
        == pressure_effect_seen(arts, "storage_io"@)
    &&& rule_shape(rules[3], "operating.network_background_io_requires_bounded_transfer"@, claim::NETWORK_BOUNDED_TRANSFER@,
        Decision::Provisional, Decision::Blocked, seq![Kind::Pressure],
        seq!["run endpoint-backed bounded network transfer"@])
    &&& forall|arts: Seq<ArtifactMeta>| #[trigger] pred_holds(arts, rules[3].when)
        == (pressure_effect_seen(arts, "network_io"@) && bounded_transfer_seen(arts))
    &&& rule_shape(rules[4], "operating.real_time_pressure_requires_jitter_evidence"@, claim::REAL_TIME_PRESSURE_SAFE@,
        Decision::Provisional, Decision::Blocked, seq![Kind::Pressure],
        seq!["run pressure-specific jitter probe and record p95/p99/max"@])
    &&& forall|arts: Seq<ArtifactMeta>| #[trigger] pred_holds(arts, rules[4].when)
        == pressure_effect_seen(arts, "latency_jitter"@)
    &&& rule_shape(rules[5], "operating.observer_cadence_requires_bounded_samples"@, claim::OBSERVER_CADENCE_BOUNDED@,
        Decision::Provisional, Decision::Blocked, seq![Kind::Observation, Kind::Pressure],
        seq!["record bounded observer cadence or observer pressure evidence"@])
    &&& forall|arts: Seq<ArtifactMeta>| #[trigger] pred_holds(arts, rules[5].when)
        == (pressure_effect_seen(arts, "observer_pressure"@) || observation_samples_seen(arts, 2))
    &&& rule_shape(rules[6], "operating.production_readiness_requires_run_report"@, claim::PRODUCTION_READY@,
        Decision::Provisional, Decision::Blocked, seq![Kind::ReportRun],
        seq!["generate v2 run report from the same operation sequence"@])
    &&& forall|arts: Seq<ArtifactMeta>| #[trigger] pred_holds(arts, rules[6].when)
        == has_kind(arts, Kind::ReportRun)
}

/// Both predicates hold.
pub fn all_of2(a: Pred, b: Pred) -> (p: Pred)
    ensures
        forall|arts: Seq<ArtifactMeta>| #[trigger] pred_holds(arts, p) == (pred_holds(arts, a) && pred_holds(arts, b)),
{
    let ghost (ga, gb) = (a, b);
    let preds = vec![a, b];
    let ghost gp = preds@;
    let p = Pred::All(preds);
    assert(p->All_0@ == gp);
    assert forall|arts: Seq<ArtifactMeta>| #[trigger] pred_holds(arts, p) == (pred_holds(arts, ga) && pred_holds(arts, gb)) by {
        assert(gp.len() == 2);
        assert(gp[0] == ga);
        assert(gp[1] == gb);
        if pred_holds(arts, p) {
            assert(pred_holds(arts, gp[0]));
            assert(pred_holds(arts, gp[1]));
        }
        if pred_holds(arts, ga) && pred_holds(arts, gb) {
            assert forall|i: int| 0 <= i < gp.len() implies pred_holds(arts, #[trigger] gp[i]) by {
                if i == 0 {} else {}
            }
        }
    }
    p
}

/// At least one of the predicates holds.
pub fn any_of2(a: Pred, b: Pred) -> (p: Pred)
    ensures
        forall|arts: Seq<ArtifactMeta>| #[trigger] pred_holds(arts, p) == (pred_holds(arts, a) || pred_holds(arts, b)),
{
    let ghost (ga, gb) = (a, b);
    let preds = vec![a, b];
    let ghost gp = preds@;
    let p = Pred::Any(preds);
    assert(p->Any_0@ == gp);
    assert forall|arts: Seq<ArtifactMeta>| #[trigger] pred_holds(arts, p) == (pred_holds(arts, ga) || pred_holds(arts, gb)) by {
        assert(gp.len() == 2);
        assert(gp[0] == ga);
        assert(gp[1] == gb);
        if pred_holds(arts, ga) {
            assert(pred_holds(arts, gp[0]));
        }
        if pred_holds(arts, gb) {
            assert(pred_holds(arts, gp[1]));
        }
        if pred_holds(arts, p) {
            let i = choose|i: int| 0 <= i < gp.len() && pred_holds(arts, #[trigger] gp[i]);
            if i == 0 {} else {}
        }
    }
    p
}

/// The built-in operating-contract rules.
pub fn operating_contract_rules() -> (rules: Vec<Rule>)
    ensures
        operating_contract_table(rules@),
{
    let rules = vec![
        Rule {
            id: "operating.memory_storage_coupling_requires_composite",
            claim_id: claim::COUPLING_MEMORY_TO_STORAGE,
            when: all_of2(Pred::PressureEffect("memory_pressure"), Pred::CompositeMeasured("memory_storage_jitter")),
            on_match: Decision::Supported,
            on_miss: Decision::Blocked,
            evidence_kinds: vec![Kind::Pressure, Kind::Composite],
            next_evidence: vec!["run paired memory/storage composite probe"],
        },
        Rule {
            id: "operating.sustained_thermal_requires_soak",
            claim_id: claim::THERMAL_SUSTAINED_SOAK,
            when: all_of2(Pred::LoadDurationAtLeastSeconds(900), Pred::PressureEffect("thermal_pressure")),
            on_match: Decision::Provisional,
            on_miss: Decision::Blocked,
            evidence_kinds: vec![Kind::Load, Kind::Pressure],
            next_evidence: vec!["run approved sustained thermal soak with cooldown observation"],
        },
        Rule {
            id: "operating.storage_default_writes_require_bounded_probe",
            claim_id: claim::STORAGE_DEFAULT_WRITES_BOUNDED,
            when: Pred::PressureEffect("storage_io"),
            on_match: Decision::Provisional,
            on_miss: Decision::Blocked,
            evidence_kinds: vec![Kind::Pressure],
            next_evidence: vec!["run bounded storage I/O probe with cleanup verification"],
        },
        Rule {
            id: "operating.network_background_io_requires_bounded_transfer",
            claim_id: claim::NETWORK_BOUNDED_TRANSFER,
            when: all_of2(Pred::PressureEffect("network_io"), Pred::NetworkBoundedTransfer),
            on_match: Decision::Provisional,
            on_miss: Decision::Blocked,
            evidence_kinds: vec![Kind::Pressure],
            next_evidence: vec!["run endpoint-backed bounded network transfer"],
        },
        Rule {
            id: "operating.real_time_pressure_requires_jitter_evidence",
            claim_id: claim::REAL_TIME_PRESSURE_SAFE,
            when: Pred::PressureEffect("latency_jitter"),
            on_match: Decision::Provisional,
            on_miss: Decision::Blocked,
            evidence_kinds: vec![Kind::Pressure],
            next_evidence: vec!["run pressure-specific jitter probe and record p95/p99/max"],
        },
        Rule {
            id: "operating.observer_cadence_requires_bounded_samples",
            claim_id: claim::OBSERVER_CADENCE_BOUNDED,
            when: any_of2(Pred::PressureEffect("observer_pressure"), Pred::ObservationSamplesAtLeast(2)),
            on_match: Decision::Provisional,
            on_miss: Decision::Blocked,
            evidence_kinds: vec![Kind::Observation, Kind::Pressure],
            next_evidence: vec!["record bounded observer cadence or observer pressure evidence"],
        },
        Rule {
            id: "operating.production_readiness_requires_run_report",
            claim_id: claim::PRODUCTION_READY,
            when: Pred::Present(Kind::ReportRun),
            on_match: Decision::Provisional,
            on_miss: Decision::Blocked,
            evidence_kinds: vec![Kind::ReportRun],
            next_evidence: vec!["generate v2 run report from the same operation sequence"],
        },
    ];
    proof {
        assert(rules@[0].evidence_kinds@ =~= seq![Kind::Pressure, Kind::Composite]);
        assert(str_views(rules@[0].next_evidence@) =~= seq!["run paired memory/storage composite probe"@]);
        assert(rules@[1].evidence_kinds@ =~= seq![Kind::Load, Kind::Pressure]);
        assert(str_views(rules@[1].next_evidence@) =~= seq!["run approved sustained thermal soak with cooldown observation"@]);
        assert(rules@[2].evidence_kinds@ =~= seq![Kind::Pressure]);
        assert(str_views(rules@[2].next_evidence@) =~= seq!["run bounded storage I/O probe with cleanup verification"@]);
        assert(rules@[3].evidence_kinds@ =~= seq![Kind::Pressure]);
        assert(str_views(rules@[3].next_evidence@) =~= seq!["run endpoint-backed bounded network transfer"@]);
        assert(rules@[4].evidence_kinds@ =~= seq![Kind::Pressure]);
        assert(str_views(rules@[4].next_evidence@) =~= seq!["run pressure-specific jitter probe and record p95/p99/max"@]);
        assert(rules@[5].evidence_kinds@ =~= seq![Kind::Observation, Kind::Pressure]);
        assert(str_views(rules@[5].next_evidence@) =~= seq!["record bounded observer cadence or observer pressure evidence"@]);
        assert(rules@[6].evidence_kinds@ =~= seq![Kind::ReportRun]);
        assert(str_views(rules@[6].next_evidence@) =~= seq!["generate v2 run report from the same operation sequence"@]);
    }
    rules
}


/// The operating-contract report of a rule table over the store: the
/// evaluations, the blocked claims and the next evidence; partially
/// measured when no claim is blocked, insufficient otherwise; complete data
/// quality when every rule matched.
pub fn operating_contract_from_rules_v2(
    store: &EvidenceStore,
    rule_set_id: String,
    rules: Vec<Rule>,
    run_id: String,
    target_id: String,
) -> (a: Artifact<OperatingContractPayload>)
    requires
        store.wf(),
    ensures
        report_envelope(a, Kind::ReportOperatingContract, "OPERATING-CONTRACT"@, run_id@, target_id@,
            if none_blocked(a.payload.evaluations@) { Status::MeasuredPartial } else { Status::Insufficient }),
        a.payload.rule_set_id@ == rule_set_id@,
        rule_report_parts(store.artifacts_spec(), rules@, a.payload.evaluations@, a.payload.blocked_claims@,
            a.payload.next_evidence@),
        claims_of_evaluations(a.payload.evaluations@, a.claims@),
        a.evidence_refs@.len() == 0,
        a.data_quality.level == (if every_matched(a.payload.evaluations@) { DataQualityLevel::Complete } else { DataQualityLevel::Partial }),
        views(a.data_quality.notes@) == seq!["v2 operating contract evaluated from rule table"@],
{
    let evaluations = evaluate_rules(store, &rules);
    let status = status_for_evaluations(&evaluations);
    let blocked = blocked_claims(&evaluations);
    let next = next_evidence(&evaluations);
    let claims = claims_for_evaluations(&evaluations);
    let complete = all_matched(&evaluations);
    let payload = OperatingContractPayload { rule_set_id, evaluations, blocked_claims: blocked, next_evidence: next };
    let mut artifact = fresh_artifact(Kind::ReportOperatingContract, "OPERATING-CONTRACT", run_id, target_id, status, payload);
    artifact.claims = claims;
    let notes = vec![owned("v2 operating contract evaluated from rule table")];
    proof {
        assert(views(notes@) =~= seq!["v2 operating contract evaluated from rule table"@]);
    }
    artifact.data_quality = DataQuality {
        level: if complete { DataQualityLevel::Complete } else { DataQualityLevel::Partial },
        notes,
    };
    artifact
}

/// The operating-contract report of the built-in rule table over the store.
pub fn evaluate_operating_contract_v2(
    store: &EvidenceStore,
    run_id: String,
    target_id: String,
) -> (a: Artifact<OperatingContractPayload>)
    requires
        store.wf(),
    ensures
        report_envelope(a, Kind::ReportOperatingContract, "OPERATING-CONTRACT"@, run_id@, target_id@,
            if none_blocked(a.payload.evaluations@) { Status::MeasuredPartial } else { Status::Insufficient }),
        a.payload.rule_set_id@ == OPERATING_CONTRACT_RULE_SET@,
        exists|rules: Seq<Rule>| operating_contract_table(rules)
            && rule_report_parts(store.artifacts_spec(), rules, a.payload.evaluations@, a.payload.blocked_claims@,
                a.payload.next_evidence@),
        claims_of_evaluations(a.payload.evaluations@, a.claims@),
        a.evidence_refs@.len() == 0,
        a.data_quality.level == (if every_matched(a.payload.evaluations@) { DataQualityLevel::Complete } else { DataQualityLevel::Partial }),
        views(a.data_quality.notes@) == seq!["v2 operating contract evaluated from rule table"@],
{
    let rules = operating_contract_rules();
    let ghost table = rules@;
    let a = operating_contract_from_rules_v2(store, owned(OPERATING_CONTRACT_RULE_SET), rules, run_id, target_id);
    assert(operating_contract_table(table));
    a
}

} // verus!
