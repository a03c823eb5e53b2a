//! The suitability rule table: whether the target can be selected for the
//! workload, and whether any readiness claim is in reach.

use crate::evidence::claim;
use crate::evidence::envelope::{fresh_artifact, report_envelope, Artifact, DataQuality, DataQualityLevel, Decision, Kind, Status};
use crate::evidence::store::{has_kind, ArtifactMeta, EvidenceStore};
use crate::rules::engine::{
    blocked_claims, claims_for_evaluations, claims_of_evaluations, evaluate_rules, next_evidence, pred_holds,
    rule_report_parts, Pred, Rule, RuleEvaluation,
};
use crate::rules::operating_contract::rule_shape;
use crate::text::{owned, str_eq, views};
use vstd::prelude::*;

verus! {

#[derive(Debug, Clone, PartialEq, Eq)]
pub struct SuitabilityPayload {
    pub rule_set_id: String,
    pub selection_ready: bool,
    pub workload_id: Option<String>,
    pub policy_id: Option<String>,
    pub overall_decision: Option<crate::contracts::SuitabilityDecisionValue>,
    pub dimensions: Vec<crate::contracts::SuitabilityDimensionDecision>,
    pub evaluations: Vec<RuleEvaluation>,
    pub blocked_claims: Vec<String>,
    pub next_evidence: Vec<String>,
}

/// The identifier of the built-in suitability rule set.
pub const SUITABILITY_RULE_SET: &'static str = "rules.suitability.v2";

/// The built-in suitability rules, in order.
pub open spec fn suitability_table(rules: Seq<Rule>) -> bool {
    &&& rules.len() == 2
    &&& rule_shape(rules[0], "suitability.requires_operating_contract_and_workload"@,
        claim::TARGET_SELECTION_PI4_SUFFICIENT@, Decision::Provisional, Decision::Blocked,
        seq![Kind::ReportOperatingContract, Kind::Workload],
        seq!["evaluate workload demand against v2 operating contract"@])
    &&& forall|arts: Seq<ArtifactMeta>| #[trigger] pred_holds(arts, rules[0].when)
        == (has_kind(arts, Kind::ReportOperatingContract) && has_kind(arts, Kind::Workload))
    &&& rule_shape(rules[1], "suitability.production_readiness_requires_suitability_evidence"@,
        claim::PRODUCTION_READY@, Decision::Provisional, Decision::Blocked,
        seq![Kind::ReportOperatingContract, Kind::Workload, Kind::ReportSuitability],
        seq!["record v2 suitability artifact before any readiness claim"@])
    &&& forall|arts: Seq<ArtifactMeta>| #[trigger] pred_holds(arts, rules[1].when)
        == (has_kind(arts, Kind::ReportOperatingContract) && has_kind(arts, Kind::Workload)
            && has_kind(arts, Kind::ReportSuitability))
}

/// The selection claim is not blocked by any evaluation.
pub open spec fn selection_ready_spec(evaluations: Seq<RuleEvaluation>) -> bool {
    forall|i: int| 0 <= i < evaluations.len() && (#[trigger] evaluations[i]).claim_id@ == claim::TARGET_SELECTION_PI4_SUFFICIENT@
        ==> evaluations[i].decision != Decision::Blocked
}

/// All three predicates hold.
pub fn all_of3(a: Pred, b: Pred, c: Pred) -> (p: Pred)
    ensures
        forall|arts: Seq<ArtifactMeta>| #[trigger] pred_holds(arts, p)
            == (pred_holds(arts, a) && pred_holds(arts, b) && pred_holds(arts, c)),
{
    let ghost (ga, gb, gc) = (a, b, c);
    let preds = vec![a, b, c];
    let ghost gp = preds@;
    let p = Pred::All(preds);
    assert(p->All_0@ == gp);
    assert forall|arts: Seq<ArtifactMeta>| #[trigger] pred_holds(arts, p)
        == (pred_holds(arts, ga) && pred_holds(arts, gb) && pred_holds(arts, gc)) by {
        assert(gp.len() == 3);
        assert(gp[0] == ga);
        assert(gp[1] == gb);
        assert(gp[2] == gc);
        if pred_holds(arts, p) {
            assert(pred_holds(arts, gp[0]));
            assert(pred_holds(arts, gp[1]));
            assert(pred_holds(arts, gp[2]));
        }
        if pred_holds(arts, ga) && pred_holds(arts, gb) && pred_holds(arts, gc) {
            assert forall|i: int| 0 <= i < gp.len() implies pred_holds(arts, #[trigger] gp[i]) by {
                if i == 0 {} else if i == 1 {} else {}
            }
        }
    }
    p
}

/// The built-in suitability rules.
pub fn suitability_rules() -> (rules: Vec<Rule>)
    ensures
        suitability_table(rules@),
{
    let rules = vec![
        Rule {
            id: "suitability.requires_operating_contract_and_workload",
            claim_id: claim::TARGET_SELECTION_PI4_SUFFICIENT,
            when: crate::rules::operating_contract::all_of2(
                Pred::Present(Kind::ReportOperatingContract),
                Pred::Present(Kind::Workload),
            ),
            on_match: Decision::Provisional,
            on_miss: Decision::Blocked,
            evidence_kinds: vec![Kind::ReportOperatingContract, Kind::Workload],
            next_evidence: vec!["evaluate workload demand against v2 operating contract"],
        },
        Rule {
            id: "suitability.production_readiness_requires_suitability_evidence",
            claim_id: claim::PRODUCTION_READY,
            when: all_of3(
                Pred::Present(Kind::ReportOperatingContract),
                Pred::Present(Kind::Workload),
                Pred::Present(Kind::ReportSuitability),
            ),
            on_match: Decision::Provisional,
            on_miss: Decision::Blocked,
            evidence_kinds: vec![Kind::ReportOperatingContract, Kind::Workload, Kind::ReportSuitability],
            next_evidence: vec!["record v2 suitability artifact before any readiness claim"],
        },
    ];
    proof {
        assert(rules@[0].evidence_kinds@ =~= seq![Kind::ReportOperatingContract, Kind::Workload]);
        assert(crate::text::str_views(rules@[0].next_evidence@) =~= seq!["evaluate workload demand against v2 operating contract"@]);
        assert(rules@[1].evidence_kinds@ =~= seq![Kind::ReportOperatingContract, Kind::Workload, Kind::ReportSuitability]);
        assert(crate::text::str_views(rules@[1].next_evidence@) =~= seq!["record v2 suitability artifact before any readiness claim"@]);
    }
    rules
}

/// Whether the selection claim is blocked by no evaluation.
fn selection_ready(evaluations: &Vec<RuleEvaluation>) -> (r: bool)
    ensures
        r == selection_ready_spec(evaluations@),
{
    let mut i: usize = 0;
    while i < evaluations.len()
        invariant
            i <= evaluations@.len(),
            forall|q: int| 0 <= q < i && (#[trigger] evaluations@[q]).claim_id@ == claim::TARGET_SELECTION_PI4_SUFFICIENT@
                ==> evaluations@[q].decision != Decision::Blocked,
        decreases evaluations.len() - i,
    {
        if str_eq(evaluations[i].claim_id.as_str(), claim::TARGET_SELECTION_PI4_SUFFICIENT)
            && evaluations[i].decision == Decision::Blocked {
            return false;
        }
        i = i + 1;
    }
    true
}

/// The suitability report of a rule table over the store: ready for
/// selection unless an evaluation of the selection claim is blocked.
pub fn suitability_from_rules_v2(
    store: &EvidenceStore,
    rule_set_id: String,
    rules: Vec<Rule>,
    run_id: String,
    target_id: String,
) -> (a: Artifact<SuitabilityPayload>)
    requires
        store.wf(),
    ensures
        a.payload.selection_ready == selection_ready_spec(a.payload.evaluations@),
        report_envelope(a, Kind::ReportSuitability, "SUITABILITY"@, run_id@, target_id@,
            if a.payload.selection_ready { Status::MeasuredPartial } else { Status::Insufficient }),
        a.payload.rule_set_id@ == rule_set_id@,
        rule_report_parts(store.artifacts_spec(), rules@, a.payload.evaluations@, a.payload.blocked_claims@,
            a.payload.next_evidence@),
        claims_of_evaluations(a.payload.evaluations@, a.claims@),
        a.evidence_refs@.len() == 0,
        a.data_quality.level == (if a.payload.selection_ready { DataQualityLevel::Complete } else { DataQualityLevel::Partial }),
        views(a.data_quality.notes@) == seq!["v2 suitability evaluated from rule table"@],
{
    let evaluations = evaluate_rules(store, &rules);
    let ready = selection_ready(&evaluations);
    let status = if ready { Status::MeasuredPartial } else { Status::Insufficient };
    let blocked = blocked_claims(&evaluations);
    let next = next_evidence(&evaluations);
    let claims = claims_for_evaluations(&evaluations);
    let payload = SuitabilityPayload {
        rule_set_id,
        selection_ready: ready,
        workload_id: None,
        policy_id: None,
        overall_decision: None,
        dimensions: Vec::new(),
        evaluations,
        blocked_claims: blocked,
        next_evidence: next,
    };
    let mut artifact = fresh_artifact(Kind::ReportSuitability, "SUITABILITY", run_id, target_id, status, payload);
    artifact.claims = claims;
    let notes = vec![owned("v2 suitability evaluated from rule table")];
    proof {
        assert(views(notes@) =~= seq!["v2 suitability evaluated from rule table"@]);
    }
    artifact.data_quality = DataQuality {
        level: if ready { DataQualityLevel::Complete } else { DataQualityLevel::Partial },
        notes,
    };
    artifact
}

/// The suitability report of the built-in rule table over the store.
pub fn evaluate_suitability_v2(store: &EvidenceStore, run_id: String, target_id: String) -> (a: Artifact<SuitabilityPayload>)
    requires
        store.wf(),
    ensures
        a.payload.selection_ready == selection_ready_spec(a.payload.evaluations@),
        report_envelope(a, Kind::ReportSuitability, "SUITABILITY"@, run_id@, target_id@,
            if a.payload.selection_ready { Status::MeasuredPartial } else { Status::Insufficient }),
        a.payload.rule_set_id@ == SUITABILITY_RULE_SET@,
        exists|rules: Seq<Rule>| suitability_table(rules)
            && rule_report_parts(store.artifacts_spec(), rules, a.payload.evaluations@, a.payload.blocked_claims@,
                a.payload.next_evidence@),
        claims_of_evaluations(a.payload.evaluations@, a.claims@),
        a.evidence_refs@.len() == 0,
        a.data_quality.level == (if a.payload.selection_ready { DataQualityLevel::Complete } else { DataQualityLevel::Partial }),
        views(a.data_quality.notes@) == seq!["v2 suitability evaluated from rule table"@],
{
    let rules = suitability_rules();
    let ghost table = rules@;
    let a = suitability_from_rules_v2(store, owned(SUITABILITY_RULE_SET), rules, run_id, target_id);
    assert(suitability_table(table));
    a
}

} // verus!
