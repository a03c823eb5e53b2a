//! The v2 run report: what a run directory's evidence supports, which
//! operating points were observed, controlled or blocked, and the claims
//! that follow.

use crate::contracts::{ExperimentRun, ExperimentTrial};
use crate::evidence::claim;
use crate::evidence::envelope::{fresh_artifact, report_envelope, Artifact, DataQuality, DataQualityLevel, Decision, Kind, Status};
use crate::evidence::store::EvidenceStore;
use crate::experiment::{copy_entries, pair_views};
use crate::report::{lookup, pack_status, pack_status_spec, RunEvidenceSummary, OP_BOUNDED_LOAD, OP_CONTROLLED_OPERATING_POINT,
    STATUS_COMPLETED};
use crate::rules::engine::{blocked_claims, claims_for_evaluations, claims_of_evaluations, is_blocked_claim, is_next_evidence,
    next_evidence, RuleEvaluation};
use crate::rules::operating_point::{operating_point_spec, operating_point_summary};
use crate::run_validation::RunValidationPayload;
use crate::text::{copy_all, extend_all, owned, owned_all, sorted_unique, str_eq, str_views, strictly_sorted, views};
use vstd::prelude::*;

verus! {

pub const RUN_REPORT_RULE_SET_ID: &'static str = "rules.run_report.v2";
pub const RUN_REPORT_RELATIVE_PATH: &'static str = "reports/run_report.v2.json";

#[derive(Debug, Clone, PartialEq, Eq)]
pub struct RunOperatingPointObserved {
    pub factor_id: String,
    pub level: String,
    pub evidence_refs: Vec<String>,
    pub claim_boundary: String,
}

#[derive(Debug, Clone, PartialEq, Eq)]
pub struct RunOperatingPointControlled {
    pub factor_id: String,
    pub level: String,
    pub evidence_refs: Vec<String>,
    pub claim_boundary: String,
}

#[derive(Debug, Clone, PartialEq, Eq)]
pub struct RunOperatingPointBlocked {
    pub factor_id: String,
    pub requested_level: Option<String>,
    pub coverage_status: String,
    pub reason: String,
    pub next_evidence: Vec<String>,
}

#[derive(Debug, Clone, PartialEq, Eq)]
pub struct RunOperatingPointSummary {
    pub coverage_status: String,
    pub observed_points: Vec<RunOperatingPointObserved>,
    pub controlled_points: Vec<RunOperatingPointControlled>,
    pub blocked_points: Vec<RunOperatingPointBlocked>,
}

#[derive(Debug, Clone, PartialEq, Eq)]
pub struct RunReportPayload {
    pub rule_set_id: String,
    pub report_status: String,
    pub operations_summary: Vec<(String, String)>,
    pub operation_audit_refs: Vec<(String, String)>,
    pub artifact_refs: Vec<String>,
    pub indexed_v2_artifact_refs: Vec<String>,
    pub audit_event_count: usize,
    pub restore_status: String,
    pub operating_point: RunOperatingPointSummary,
    pub evaluations: Vec<RuleEvaluation>,
    pub blocked_claims: Vec<String>,
    pub next_evidence: Vec<String>,
}

/// An evaluation with the given fields: the decision follows the match,
/// and what is missing is listed only on a miss.
pub open spec fn evaluation_fields(
    e: RuleEvaluation,
    rule_id: Seq<char>,
    claim_id: Seq<char>,
    matched: bool,
    on_match: Decision,
    on_miss: Decision,
    evidence_refs: Seq<Seq<char>>,
    missing_on_miss: Seq<Seq<char>>,
    next_evidence: Seq<Seq<char>>,
) -> bool {
    &&& e.rule_id@ == rule_id
    &&& e.claim_id@ == claim_id
    &&& e.matched == matched
    &&& e.decision == (if matched { on_match } else { on_miss })
    &&& views(e.evidence_refs@) == evidence_refs
    &&& views(e.missing@) == (if matched { Seq::empty() } else { missing_on_miss })
    &&& views(e.next_evidence@) == next_evidence
}

/// An evaluation decided by a fact of the run rather than by a predicate.
pub fn evaluation(
    rule_id: &str,
    claim_id: &str,
    matched: bool,
    on_match: Decision,
    on_miss: Decision,
    evidence_refs: Vec<String>,
    missing_on_miss: Vec<&str>,
    next_evidence: Vec<&str>,
) -> (e: RuleEvaluation)
    ensures
        evaluation_fields(e, rule_id@, claim_id@, matched, on_match, on_miss, views(evidence_refs@),
            str_views(missing_on_miss@), str_views(next_evidence@)),
{
    let missing = if matched {
        crate::text::no_strings()
    } else {
        owned_all(&missing_on_miss)
    };
    RuleEvaluation {
        rule_id: owned(rule_id),
        claim_id: owned(claim_id),
        matched,
        decision: if matched { on_match } else { on_miss },
        evidence_refs,
        missing,
        next_evidence: owned_all(&next_evidence),
    }
}

/// The view of an optional reference as a list of zero or one reference.
pub open spec fn opt_refs(o: Option<String>) -> Seq<Seq<char>> {
    match o {
        Some(s) => seq![s@],
        None => Seq::empty(),
    }
}

fn opt_list(o: &Option<String>) -> (v: Vec<String>)
    ensures
        views(v@) == opt_refs(*o),
{
    match o {
        Some(s) => crate::text::single(s.as_str()),
        None => crate::text::no_strings(),
    }
}

/// The evidence of the controlled points, in order.
pub open spec fn controlled_refs(points: Seq<RunOperatingPointControlled>) -> Seq<Seq<char>>
    decreases points.len(),
{
    if points.len() == 0 {
        Seq::empty()
    } else {
        controlled_refs(points.drop_last()) + views(points.last().evidence_refs@)
    }
}

fn controlled_ref_list(points: &Vec<RunOperatingPointControlled>) -> (v: Vec<String>)
    ensures
        views(v@) == controlled_refs(points@),
{
    let mut v: Vec<String> = Vec::new();
    let mut i: usize = 0;
    assert(views(v@) =~= controlled_refs(points@.subrange(0, 0)));
    while i < points.len()
        invariant
            i <= points@.len(),
            views(v@) == controlled_refs(points@.subrange(0, i as int)),
        decreases points.len() - i,
    {
        crate::text::extend_all(&mut v, &points[i].evidence_refs);
        proof {
            assert(points@.subrange(0, i + 1).drop_last() =~= points@.subrange(0, i as int));
        }
        i = i + 1;
    }
    proof {
        assert(points@.subrange(0, points@.len() as int) =~= points@);
    }
    v
}

/// The controlled point evaluation that applies when a controlled trial
/// completed without a bounded load of its own.
pub open spec fn controlled_without_load(summary: RunEvidenceSummary) -> bool {
    lookup(summary.operations_summary@, OP_CONTROLLED_OPERATING_POINT@) == Some(STATUS_COMPLETED@)
        && lookup(summary.operations_summary@, OP_BOUNDED_LOAD@) != Some(STATUS_COMPLETED@)
}

/// The evaluations of a run report, in order: the thirteen fixed claims,
/// then the experiment claim when an experiment was recorded, then the
/// controlled-point claim when a controlled trial ran without its own load.
pub open spec fn run_report_evaluations_spec(
    evals: Seq<RuleEvaluation>,
    summary: RunEvidenceSummary,
    operating_point: RunOperatingPointSummary,
    experiment_ref: Option<String>,
    experiment_completed: bool,
) -> bool {
    let extra_experiment: int = if experiment_ref is Some { 1 } else { 0 };
    let extra_controlled: int = if controlled_without_load(summary) { 1 } else { 0 };
    &&& evals.len() == 13 + extra_experiment + extra_controlled
    &&& evaluation_fields(evals[0], "report.run.target_inventory_collected"@, claim::RUN_TARGET_INVENTORY_COLLECTED@,
        summary.target_inventory_ref is Some, Decision::Supported, Decision::Blocked, opt_refs(summary.target_inventory_ref),
        seq!["read-only target inventory"@], seq!["collect read-only target inventory"@])
    &&& evaluation_fields(evals[1], "report.run.toolchain_inventory_collected"@, claim::RUN_TOOLCHAIN_INVENTORY_COLLECTED@,
        summary.toolchain_inventory_ref is Some, Decision::Supported, Decision::Blocked, opt_refs(summary.toolchain_inventory_ref),
        seq!["read-only toolchain inventory"@], seq!["collect read-only toolchain inventory"@])
    &&& evaluation_fields(evals[2], "report.run.tool_qualification_summary_generated"@, claim::RUN_TOOL_QUALIFICATION_SUMMARY_GENERATED@,
        summary.tool_qualification_summary_ref is Some, Decision::Supported, Decision::Blocked,
        opt_refs(summary.tool_qualification_summary_ref),
        seq!["tool qualification summary"@], seq!["generate tool qualification summary"@])
    &&& evaluation_fields(evals[3], "report.run.passive_observation_collected"@, claim::RUN_PASSIVE_OBSERVATION_COLLECTED@,
        summary.observation_ref is Some, Decision::Provisional, Decision::Blocked, opt_refs(summary.observation_ref),
        seq!["passive observation"@],
        seq!["collect passive observation"@, "run controlled operating point matrix before stronger claims"@])
    &&& evaluation_fields(evals[4], "report.run.bounded_load_completed"@, claim::RUN_BOUNDED_LOAD_COMPLETED@,
        summary.load_result_refs@.len() > 0, Decision::Supported, Decision::Blocked, views(summary.load_result_refs@),
        seq!["bounded CPU load result"@], seq!["run bounded CPU load with safety monitor"@])
    &&& evaluation_fields(evals[5], "report.run.operating_point_bounded_workload_measured"@,
        claim::OPERATING_POINT_BOUNDED_WORKLOAD_MEASURED@, operating_point.controlled_points@.len() > 0,
        Decision::Supported, Decision::Blocked, controlled_refs(operating_point.controlled_points@),
        seq!["completed bounded workload operating point"@], seq!["execute a supported controlled workload matrix"@])
    &&& evaluation_fields(evals[6], "report.run.fixed_cpu_frequency_verified"@, claim::OPERATING_POINT_FIXED_CPU_FREQUENCY_VERIFIED@,
        false, Decision::Supported, Decision::Blocked, Seq::empty(),
        seq!["fixed CPU frequency control evidence"@],
        seq!["approved privileged control plan"@, "controlled fixed-frequency matrix"@, "restore verification per point"@])
    &&& evaluation_fields(evals[7], "report.run.all_operating_points_measured"@, claim::OPERATING_POINT_ALL_POINTS_MEASURED@,
        operating_point.coverage_status@ == "controlled_full"@, Decision::Supported, Decision::Blocked, Seq::empty(),
        seq!["controlled full operating point coverage"@], seq!["controlled operating point matrix across required factors"@])
    &&& evaluation_fields(evals[8], "report.run.sustained_thermal_soak_measured"@, claim::THERMAL_SUSTAINED_SOAK@,
        false, Decision::Provisional, Decision::Blocked, Seq::empty(),
        seq!["sustained thermal soak evidence"@], seq!["run approved sustained thermal soak with cooldown observation"@])
    &&& evaluation_fields(evals[9], "report.run.observer_effect_bounded"@, claim::OBSERVER_CADENCE_BOUNDED@,
        false, Decision::Provisional, Decision::Blocked, Seq::empty(),
        seq!["observer effect calibration"@], seq!["run observer-off/on workload comparison"@])
    &&& evaluation_fields(evals[10], "report.run.battery_safe_measured"@, claim::BATTERY_SAFE@,
        false, Decision::Provisional, Decision::Blocked, Seq::empty(),
        seq!["target-local power evidence"@], seq!["collect target-local power or battery discharge evidence"@])
    &&& evaluation_fields(evals[11], "report.run.real_time_pressure_safe_measured"@, claim::REAL_TIME_PRESSURE_SAFE@,
        false, Decision::Provisional, Decision::Blocked, Seq::empty(),
        seq!["pressure-specific jitter evidence"@], seq!["run pressure-specific jitter probes"@])
    &&& evaluation_fields(evals[12], "report.run.production_ready"@, claim::PRODUCTION_READY@,
        false, Decision::Provisional, Decision::Blocked, Seq::empty(),
        seq!["production operating envelope"@],
        seq!["define production operating envelope"@, "run controlled long-duration validation"@,
            "record recovery and degradation behavior"@])
    &&& experiment_ref is Some ==> evaluation_fields(evals[13], "report.run.experiment_bounded_matrix_executed"@,
        claim::RUN_EXPERIMENT_BOUNDED_MATRIX_EXECUTED@, experiment_completed, Decision::Supported, Decision::Blocked,
        opt_refs(experiment_ref), seq!["completed experiment trial"@], seq!["execute a supported cpu_load_workers matrix"@])
    &&& controlled_without_load(summary) ==> evaluation_fields(evals[13 + extra_experiment],
        "report.run.controlled_operating_point_without_root_load"@, claim::RUN_BOUNDED_LOAD_COMPLETED@, true,
        Decision::Provisional, Decision::Blocked, Seq::empty(), Seq::empty(),
        seq!["repeat controlled trial with bounded load artifact"@])
}

/// The evaluations of a run report over the run's summary and operating
/// points; `experiment_ref` references the run's experiment when one was
/// recorded, and `experiment_completed` says whether one of its trials
/// completed.
pub fn run_report_evaluations(
    summary: &RunEvidenceSummary,
    operating_point: &RunOperatingPointSummary,
    experiment_ref: &Option<String>,
    experiment_completed: bool,
) -> (evals: Vec<RuleEvaluation>)
    ensures
        run_report_evaluations_spec(evals@, *summary, *operating_point, *experiment_ref, experiment_completed),
{
    let mut evals: Vec<RuleEvaluation> = Vec::new();
    evals.push(evaluation("report.run.target_inventory_collected", claim::RUN_TARGET_INVENTORY_COLLECTED,
        summary.target_inventory_ref.is_some(), Decision::Supported, Decision::Blocked, opt_list(&summary.target_inventory_ref),
        crate::text::strs1("read-only target inventory"), crate::text::strs1("collect read-only target inventory")));
    evals.push(evaluation("report.run.toolchain_inventory_collected", claim::RUN_TOOLCHAIN_INVENTORY_COLLECTED,
        summary.toolchain_inventory_ref.is_some(), Decision::Supported, Decision::Blocked, opt_list(&summary.toolchain_inventory_ref),
        crate::text::strs1("read-only toolchain inventory"), crate::text::strs1("collect read-only toolchain inventory")));
    evals.push(evaluation("report.run.tool_qualification_summary_generated", claim::RUN_TOOL_QUALIFICATION_SUMMARY_GENERATED,
        summary.tool_qualification_summary_ref.is_some(), Decision::Supported, Decision::Blocked,
        opt_list(&summary.tool_qualification_summary_ref),
        crate::text::strs1("tool qualification summary"), crate::text::strs1("generate tool qualification summary")));
    evals.push(evaluation("report.run.passive_observation_collected", claim::RUN_PASSIVE_OBSERVATION_COLLECTED,
        summary.observation_ref.is_some(), Decision::Provisional, Decision::Blocked, opt_list(&summary.observation_ref),
        crate::text::strs1("passive observation"),
        crate::text::strs2("collect passive observation", "run controlled operating point matrix before stronger claims")));
    evals.push(evaluation("report.run.bounded_load_completed", claim::RUN_BOUNDED_LOAD_COMPLETED,
        summary.load_result_refs.len() > 0, Decision::Supported, Decision::Blocked, crate::text::copy_all(&summary.load_result_refs),
        crate::text::strs1("bounded CPU load result"), crate::text::strs1("run bounded CPU load with safety monitor")));
    evals.push(evaluation("report.run.operating_point_bounded_workload_measured", claim::OPERATING_POINT_BOUNDED_WORKLOAD_MEASURED,
        operating_point.controlled_points.len() > 0, Decision::Supported, Decision::Blocked,
        controlled_ref_list(&operating_point.controlled_points),
        crate::text::strs1("completed bounded workload operating point"), crate::text::strs1("execute a supported controlled workload matrix")));
    evals.push(evaluation("report.run.fixed_cpu_frequency_verified", claim::OPERATING_POINT_FIXED_CPU_FREQUENCY_VERIFIED,
        false, Decision::Supported, Decision::Blocked, crate::text::no_strings(),
        crate::text::strs1("fixed CPU frequency control evidence"),
        crate::text::strs3("approved privileged control plan", "controlled fixed-frequency matrix", "restore verification per point")));
    evals.push(evaluation("report.run.all_operating_points_measured", claim::OPERATING_POINT_ALL_POINTS_MEASURED,
        str_eq(operating_point.coverage_status.as_str(), "controlled_full"), Decision::Supported, Decision::Blocked,
        crate::text::no_strings(),
        crate::text::strs1("controlled full operating point coverage"), crate::text::strs1("controlled operating point matrix across required factors")));
    evals.push(evaluation("report.run.sustained_thermal_soak_measured", claim::THERMAL_SUSTAINED_SOAK,
        false, Decision::Provisional, Decision::Blocked, crate::text::no_strings(),
        crate::text::strs1("sustained thermal soak evidence"), crate::text::strs1("run approved sustained thermal soak with cooldown observation")));
    evals.push(evaluation("report.run.observer_effect_bounded", claim::OBSERVER_CADENCE_BOUNDED,
        false, Decision::Provisional, Decision::Blocked, crate::text::no_strings(),
        crate::text::strs1("observer effect calibration"), crate::text::strs1("run observer-off/on workload comparison")));
    evals.push(evaluation("report.run.battery_safe_measured", claim::BATTERY_SAFE,
        false, Decision::Provisional, Decision::Blocked, crate::text::no_strings(),
        crate::text::strs1("target-local power evidence"), crate::text::strs1("collect target-local power or battery discharge evidence")));
    evals.push(evaluation("report.run.real_time_pressure_safe_measured", claim::REAL_TIME_PRESSURE_SAFE,
        false, Decision::Provisional, Decision::Blocked, crate::text::no_strings(),
        crate::text::strs1("pressure-specific jitter evidence"), crate::text::strs1("run pressure-specific jitter probes")));
    evals.push(evaluation("report.run.production_ready", claim::PRODUCTION_READY,
        false, Decision::Provisional, Decision::Blocked, crate::text::no_strings(),
        crate::text::strs1("production operating envelope"),
        crate::text::strs3("define production operating envelope", "run controlled long-duration validation", "record recovery and degradation behavior")));
    let ghost base = evals@;
    if experiment_ref.is_some() {
        evals.push(evaluation("report.run.experiment_bounded_matrix_executed", claim::RUN_EXPERIMENT_BOUNDED_MATRIX_EXECUTED,
            experiment_completed, Decision::Supported, Decision::Blocked, opt_list(experiment_ref),
            crate::text::strs1("completed experiment trial"), crate::text::strs1("execute a supported cpu_load_workers matrix")));
    }
    let ghost with_experiment = evals@;
    let controlled = crate::report::lookup_value(&summary.operations_summary, OP_CONTROLLED_OPERATING_POINT);
    let load = crate::report::lookup_value(&summary.operations_summary, OP_BOUNDED_LOAD);
    let controlled_done = match controlled {
        Some(v) => str_eq(v.as_str(), STATUS_COMPLETED),
        None => false,
    };
    let load_done = match load {
        Some(v) => str_eq(v.as_str(), STATUS_COMPLETED),
        None => false,
    };
    if controlled_done && !load_done {
        let none_missing: Vec<&str> = Vec::new();
        assert(str_views(none_missing@) =~= Seq::<Seq<char>>::empty());
        evals.push(evaluation("report.run.controlled_operating_point_without_root_load", claim::RUN_BOUNDED_LOAD_COMPLETED,
            true, Decision::Provisional, Decision::Blocked, crate::text::no_strings(),
            none_missing, crate::text::strs1("repeat controlled trial with bounded load artifact")));
    }
    proof {
        assert(controlled_done && !load_done <==> controlled_without_load(*summary));
        assert(evals@[0] == base[0]);
    }
    evals
}

/// An experiment was recorded and one of its trials completed.
pub open spec fn experiment_completed_spec(experiment: Option<ExperimentRun>) -> bool {
    match experiment {
        Some(e) => exists|i: int| 0 <= i < e.trials@.len() && (#[trigger] e.trials@[i]).status@ == "completed"@,
        None => false,
    }
}

fn has_completed_trial(e: &ExperimentRun) -> (r: bool)
    ensures
        r == exists|i: int| 0 <= i < e.trials@.len() && (#[trigger] e.trials@[i]).status@ == "completed"@,
{
    let mut i: usize = 0;
    while i < e.trials.len()
        invariant
            i <= e.trials@.len(),
            forall|k: int| 0 <= k < i ==> (#[trigger] e.trials@[k]).status@ != "completed"@,
        decreases e.trials.len() - i,
    {
        if str_eq(e.trials[i].status.as_str(), "completed") {
            assert(e.trials@[i as int].status@ == "completed"@);
            return true;
        }
        i = i + 1;
    }
    false
}

/// Whether a recorded experiment has a completed trial.
pub fn experiment_has_completed_trial(experiment: &Option<ExperimentRun>) -> (r: bool)
    ensures
        r == experiment_completed_spec(*experiment),
{
    match experiment {
        Some(e) => has_completed_trial(e),
        None => false,
    }
}

/// A reference the store indexes.
pub open spec fn indexed_ref(store: EvidenceStore, s: Seq<char>) -> bool {
    exists|i: int| 0 <= i < store.artifacts_spec().len() && (#[trigger] store.artifacts_spec()[i]).artifact_ref@ == s
}

/// The references of every indexed artifact, sorted, each once.
pub fn indexed_v2_artifact_refs(store: &EvidenceStore) -> (refs: Vec<String>)
    ensures
        strictly_sorted(views(refs@)),
        forall|s: Seq<char>| views(refs@).contains(s) <==> indexed_ref(*store, s),
{
    let all = store.all();
    let mut refs: Vec<String> = Vec::new();
    let mut i: usize = 0;
    while i < all.len()
        invariant
            i <= all@.len(),
            all@ == store.artifacts_spec(),
            refs@.len() == i,
            forall|k: int| 0 <= k < i ==> (#[trigger] refs@[k])@ == all@[k].artifact_ref@,
        decreases all.len() - i,
    {
        refs.push(owned(all[i].artifact_ref.as_str()));
        i = i + 1;
    }
    proof {
        assert forall|s: Seq<char>| views(refs@).contains(s) <==> indexed_ref(*store, s) by {
            if views(refs@).contains(s) {
                let k = choose|k: int| 0 <= k < views(refs@).len() && views(refs@)[k] == s;
                assert(store.artifacts_spec()[k].artifact_ref@ == s);
            }
            if indexed_ref(*store, s) {
                let k = choose|k: int| 0 <= k < store.artifacts_spec().len() && (#[trigger] store.artifacts_spec()[k]).artifact_ref@ == s;
                assert(views(refs@)[k] == s);
            }
        }
    }
    sorted_unique(refs)
}

/// The notes on what a run's evidence lacks: each missing inventory,
/// summary or observation, then every audit event recorded under another
/// run.
pub open spec fn summary_notes(summary: RunEvidenceSummary) -> Seq<Seq<char>> {
    (if summary.target_inventory_ref is None { seq!["target inventory artifact missing"@] } else { Seq::empty() })
        + (if summary.toolchain_inventory_ref is None { seq!["toolchain inventory artifact missing"@] } else { Seq::empty() })
        + (if summary.tool_qualification_summary_ref is None { seq!["tool qualification summary artifact missing"@] } else { Seq::empty() })
        + (if summary.observation_ref is None { seq!["passive observation artifact missing"@] } else { Seq::empty() })
        + views(summary.audit_run_id_mismatches@)
}

fn push_if(v: &mut Vec<String>, cond: bool, s: &str)
    ensures
        views(final(v)@) == views(old(v)@) + (if cond { seq![s@] } else { Seq::empty() }),
{
    let ghost before = views(v@);
    if cond {
        v.push(owned(s));
    }
    proof {
        assert(views(v@) =~= before + (if cond { seq![s@] } else { Seq::empty() }));
    }
}

/// The data quality of a run report: complete when nothing is missing,
/// partial with the notes otherwise.
pub fn data_quality_for_summary(summary: &RunEvidenceSummary) -> (q: DataQuality)
    ensures
        views(q.notes@) == summary_notes(*summary),
        q.level == (if summary_notes(*summary).len() == 0 { DataQualityLevel::Complete } else { DataQualityLevel::Partial }),
{
    let mut notes: Vec<String> = Vec::new();
    push_if(&mut notes, summary.target_inventory_ref.is_none(), "target inventory artifact missing");
    push_if(&mut notes, summary.toolchain_inventory_ref.is_none(), "toolchain inventory artifact missing");
    push_if(&mut notes, summary.tool_qualification_summary_ref.is_none(), "tool qualification summary artifact missing");
    push_if(&mut notes, summary.observation_ref.is_none(), "passive observation artifact missing");
    extend_all(&mut notes, &summary.audit_run_id_mismatches);
    proof {
        assert(views(notes@) =~= summary_notes(*summary));
    }
    let level = if notes.len() == 0 { DataQualityLevel::Complete } else { DataQualityLevel::Partial };
    DataQuality { level, notes }
}

/// The status of a run report: insufficient for an incomplete pack,
/// partially measured otherwise.
pub open spec fn run_report_status(summary: RunEvidenceSummary) -> Status {
    if pack_status_spec(summary) == "incomplete"@ { Status::Insufficient } else { Status::MeasuredPartial }
}

/// `a` is the run report of a run with the given evidence.
pub open spec fn run_report_spec(
    a: Artifact<RunReportPayload>,
    store: EvidenceStore,
    target_id: Seq<char>,
    summary: RunEvidenceSummary,
    artifact_refs: Seq<Seq<char>>,
    restore_status: Seq<char>,
    experiment_ref: Option<String>,
    experiment: Option<ExperimentRun>,
    validations: Seq<(String, RunValidationPayload)>,
) -> bool {
    let p = a.payload;
    &&& report_envelope(a, Kind::ReportRun, "RUN-REPORT"@, summary.run_id@, target_id, run_report_status(summary))
    &&& p.rule_set_id@ == RUN_REPORT_RULE_SET_ID@
    &&& p.report_status@ == pack_status_spec(summary)
    &&& pair_views(p.operations_summary@) == pair_views(summary.operations_summary@)
    &&& pair_views(p.operation_audit_refs@) == pair_views(summary.operation_audit_refs@)
    &&& views(p.artifact_refs@) == artifact_refs
    &&& strictly_sorted(views(p.indexed_v2_artifact_refs@))
    &&& (forall|s: Seq<char>| views(p.indexed_v2_artifact_refs@).contains(s) <==> indexed_ref(store, s))
    &&& p.audit_event_count == summary.audit_event_count
    &&& p.restore_status@ == restore_status
    &&& operating_point_spec(p.operating_point, summary, experiment_ref, experiment, validations)
    &&& run_report_evaluations_spec(p.evaluations@, summary, p.operating_point, experiment_ref, experiment_completed_spec(experiment))
    &&& strictly_sorted(views(p.blocked_claims@))
    &&& (forall|s: Seq<char>| views(p.blocked_claims@).contains(s) <==> is_blocked_claim(p.evaluations@, s))
    &&& strictly_sorted(views(p.next_evidence@))
    &&& (forall|s: Seq<char>| views(p.next_evidence@).contains(s) <==> is_next_evidence(p.evaluations@, s))
    &&& claims_of_evaluations(p.evaluations@, a.claims@)
    &&& views(a.evidence_refs@) == artifact_refs
    &&& views(a.data_quality.notes@) == summary_notes(summary)
    &&& a.data_quality.level == (if summary_notes(summary).len() == 0 { DataQualityLevel::Complete } else { DataQualityLevel::Partial })
}

/// The claim of one run-report evaluation: its decision and evidence, and
/// the catalog's default next evidence together with the evaluation's own,
/// sorted, without repetition.
pub fn claim_for_run_report_evaluation(evaluation: &RuleEvaluation) -> (claim: crate::evidence::envelope::Claim)
    ensures
        crate::rules::engine::claim_of(*evaluation, claim),
{
    crate::rules::engine::claim_for_evaluation(evaluation)
}

fn run_report_claims(evaluations: &Vec<RuleEvaluation>) -> (claims: Vec<crate::evidence::envelope::Claim>)
    ensures
        claims_of_evaluations(evaluations@, claims@),
{
    let mut claims: Vec<crate::evidence::envelope::Claim> = Vec::new();
    let mut i: usize = 0;
    while i < evaluations.len()
        invariant
            i <= evaluations@.len(),
            claims@.len() == i,
            forall|q: int| 0 <= q < i ==> crate::rules::engine::claim_of(evaluations@[q], #[trigger] claims@[q]),
        decreases evaluations.len() - i,
    {
        claims.push(claim_for_run_report_evaluation(&evaluations[i]));
        i = i + 1;
    }
    claims
}

/// The v2 run report of a run: what the run directory holds, its
/// operating points, the evaluations of the run-report claims and the
/// claims that follow. The run's summary, the references of its
/// artifacts, its restore status, its experiment and its run validations
/// are read from the run directory by the caller.
pub fn evaluate_run_report_v2(
    store: &EvidenceStore,
    target_id: String,
    summary: &RunEvidenceSummary,
    artifact_refs: Vec<String>,
    restore_status: String,
    experiment_ref: Option<String>,
    experiment: Option<ExperimentRun>,
    validations: &Vec<(String, RunValidationPayload)>,
) -> (a: Artifact<RunReportPayload>)
    ensures
        run_report_spec(a, *store, target_id@, *summary, views(artifact_refs@), restore_status@, experiment_ref, experiment,
            validations@),
{
    let report_status = pack_status(summary);
    let indexed = indexed_v2_artifact_refs(store);
    let operating_point = operating_point_summary(summary, &experiment_ref, &experiment, validations);
    let completed = experiment_has_completed_trial(&experiment);
    let evaluations = run_report_evaluations(summary, &operating_point, &experiment_ref, completed);
    let blocked = blocked_claims(&evaluations);
    let next = next_evidence(&evaluations);
    let claims = run_report_claims(&evaluations);
    let status = if str_eq(report_status.as_str(), "incomplete") { Status::Insufficient } else { Status::MeasuredPartial };
    let evidence_refs = copy_all(&artifact_refs);
    let payload = RunReportPayload {
        rule_set_id: owned(RUN_REPORT_RULE_SET_ID),
        report_status,
        operations_summary: copy_entries(&summary.operations_summary),
        operation_audit_refs: copy_entries(&summary.operation_audit_refs),
        artifact_refs,
        indexed_v2_artifact_refs: indexed,
        audit_event_count: summary.audit_event_count,
        restore_status,
        operating_point,
        evaluations,
        blocked_claims: blocked,
        next_evidence: next,
    };
    let mut artifact = fresh_artifact(Kind::ReportRun, "RUN-REPORT", owned(summary.run_id.as_str()), target_id, status, payload);
    artifact.claims = claims;
    artifact.evidence_refs = evidence_refs;
    artifact.data_quality = data_quality_for_summary(summary);
    artifact
}

} // verus!

verus! {

/// An experiment counts as completed exactly when one of its trials
/// completed: an experiment whose trials all failed, or that has none, is
/// not completed, and neither is a missing experiment.
pub proof fn law_completed_experiment_has_completed_trial(experiment: Option<ExperimentRun>)
    ensures
        experiment_completed_spec(experiment) <==> (experiment matches Some(e)
            && exists|i: int| 0 <= i < e.trials@.len() && (#[trigger] e.trials@[i]).status@ == "completed"@),
        (experiment matches Some(e) && forall|i: int| 0 <= i < e.trials@.len() ==> (#[trigger] e.trials@[i]).status@ != "completed"@)
            ==> !experiment_completed_spec(experiment),
{
}

} // verus!
