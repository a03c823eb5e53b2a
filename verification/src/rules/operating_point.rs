//! The operating points of a run: what was passively observed, which
//! factor levels were controlled, and which were blocked and why.

use crate::contracts::{ExperimentRun, ExperimentTrial};
use crate::report::RunEvidenceSummary;
use crate::rules::run_report::{RunOperatingPointBlocked, RunOperatingPointControlled, RunOperatingPointObserved, RunOperatingPointSummary};
use crate::run_validation::{copy_opt, has_run_set_identity_spec, opt_view, GovernorValidation, GovernorValidity, RunValidationPayload,
    LEGACY_RUN_VALIDATION_MISSING_RUN_SET_ID};
use crate::text::{concat, contains, contains_seq, copy_all, extend_all, insert_sorted_unique, join, join_seq, owned, owned_all,
    sorted_unique, str_eq, str_views, strictly_sorted, views};
use crate::workflow_profile::{supported_profile_spec, supported_validation_profile};
use vstd::prelude::*;

verus! {

/// A controlled point by its views: factor, level, references, boundary.
pub type ControlledView = (Seq<char>, Seq<char>, Seq<Seq<char>>, Seq<char>);

/// A blocked point by its views: factor, requested level, coverage status,
/// reason, next evidence.
pub type BlockedView = (Seq<char>, Option<Seq<char>>, Seq<char>, Seq<char>, Seq<Seq<char>>);

impl View for RunOperatingPointControlled {
    type V = ControlledView;

    open spec fn view(&self) -> ControlledView {
        (self.factor_id@, self.level@, views(self.evidence_refs@), self.claim_boundary@)
    }
}

impl View for RunOperatingPointBlocked {
    type V = BlockedView;

    open spec fn view(&self) -> BlockedView {
        (self.factor_id@, opt_view(self.requested_level), self.coverage_status@, self.reason@, views(self.next_evidence@))
    }
}

/// The views of controlled points.
pub open spec fn cviews(s: Seq<RunOperatingPointControlled>) -> Seq<ControlledView> {
    s.map_values(|p: RunOperatingPointControlled| p@)
}

/// The views of blocked points.
pub open spec fn bviews(s: Seq<RunOperatingPointBlocked>) -> Seq<BlockedView> {
    s.map_values(|p: RunOperatingPointBlocked| p@)
}

/// Some controlled point has the factor and level.
pub open spec fn has_key(c: Seq<ControlledView>, f: Seq<char>, l: Seq<char>) -> bool {
    exists|i: int| 0 <= i < c.len() && (#[trigger] c[i]).0 == f && c[i].1 == l
}

/// The boundary of a controlled workload point.
pub open spec fn workload_boundary() -> Seq<char> {
    "Workload intensity was controlled for this bounded trial; CPU frequency remains observed under current policy unless privileged frequency-control evidence exists."@
}

/// The boundary of a controlled governor point.
pub open spec fn governor_boundary() -> Seq<char> {
    "Governor control is treated as measured only through report.run_validation evidence linking plan, approval, apply, load, restore, and health-check artifacts."@
}

/// Factors whose sweep is blocked as unsafe.
pub open spec fn safety_blocked_spec(f: Seq<char>) -> bool {
    contains_seq(f, "thermal_stress"@) || contains_seq(f, "battery_drain"@) || contains_seq(f, "filesystem_pressure"@)
        || contains_seq(f, "storage_pressure"@) || contains_seq(f, "watchdog_reboot"@) || contains_seq(f, "memory_pressure_near_oom"@)
}

/// Whether a factor's sweep is blocked as unsafe.
pub fn is_safety_blocked_factor(factor_id: &str) -> (r: bool)
    ensures
        r == safety_blocked_spec(factor_id@),
{
    contains(factor_id, "thermal_stress") || contains(factor_id, "battery_drain") || contains(factor_id, "filesystem_pressure")
        || contains(factor_id, "storage_pressure") || contains(factor_id, "watchdog_reboot")
        || contains(factor_id, "memory_pressure_near_oom")
}

/// The coverage status of a blocked factor.
pub open spec fn blocked_status_spec(f: Seq<char>) -> Seq<char> {
    if safety_blocked_spec(f) { "blocked_unsafe"@ } else { "not_controllable"@ }
}

/// The coverage status of a blocked factor: unsafe, or not controllable.
pub fn blocked_status_for_factor(factor_id: &str) -> (s: &'static str)
    ensures
        s@ == blocked_status_spec(factor_id@),
{
    if is_safety_blocked_factor(factor_id) { "blocked_unsafe" } else { "not_controllable" }
}

/// The evidence that would unblock a factor.
pub open spec fn blocked_next_spec(f: Seq<char>) -> Seq<Seq<char>> {
    if safety_blocked_spec(f) {
        seq!["explicit risk boundary"@, "operator approval"@, "abort condition and recovery plan"@]
    } else if f == "governor"@ || f == "fixed_cpu_frequency"@ {
        seq![
            "approved privileged control plan"@,
            "plan/apply/restore integration in matrix runner"@,
            "restore verification evidence"@,
        ]
    } else {
        seq!["implemented controlled-factor runner support"@]
    }
}

/// The evidence that would unblock a factor.
pub fn next_evidence_for_blocked_factor(factor_id: &str) -> (items: Vec<String>)
    ensures
        views(items@) == blocked_next_spec(factor_id@),
{
    if is_safety_blocked_factor(factor_id) {
        return owned_all(&crate::text::strs3("explicit risk boundary", "operator approval", "abort condition and recovery plan"));
    }
    if str_eq(factor_id, "governor") || str_eq(factor_id, "fixed_cpu_frequency") {
        return owned_all(&crate::text::strs3(
            "approved privileged control plan",
            "plan/apply/restore integration in matrix runner",
            "restore verification evidence",
        ));
    }
    crate::text::single("implemented controlled-factor runner support")
}

/// The references a completed trial's controlled points cite: the
/// experiment's, then the trial's own.
pub open spec fn trial_refs(t: ExperimentTrial, experiment_ref: Option<Seq<char>>) -> Seq<Seq<char>> {
    (match experiment_ref { Some(r) => seq![r], None => Seq::empty() }) + views(t.artifact_refs@)
}

/// The controlled points after a completed trial's factors: one per new
/// `cpu_load_workers` level.
pub open spec fn completed_points(c: Seq<ControlledView>, factors: Seq<(String, String)>, refs: Seq<Seq<char>>) -> Seq<ControlledView>
    decreases factors.len(),
{
    if factors.len() == 0 {
        c
    } else {
        let prev = completed_points(c, factors.drop_last(), refs);
        let f = factors.last().0@;
        let l = factors.last().1@;
        if f == "cpu_load_workers"@ && !has_key(prev, f, l) {
            prev.push((f, l, refs, workload_boundary()))
        } else {
            prev
        }
    }
}

/// The blocked point of one factor of a trial that did not complete.
pub open spec fn trial_blocked_view(t: ExperimentTrial, f: Seq<char>, l: Seq<char>) -> BlockedView {
    (f, Some(l), blocked_status_spec(f),
        match t.failure { Some(m) => m@, None => "trial ended with status "@ + t.status@ },
        blocked_next_spec(f))
}

/// The blocked points of a trial that did not complete: every factor but
/// the workload level, which only a failed trial blocks.
pub open spec fn trial_blocked_points(t: ExperimentTrial, factors: Seq<(String, String)>) -> Seq<BlockedView>
    decreases factors.len(),
{
    if factors.len() == 0 {
        Seq::empty()
    } else {
        let prev = trial_blocked_points(t, factors.drop_last());
        let f = factors.last().0@;
        let l = factors.last().1@;
        if f == "cpu_load_workers"@ && t.status@ != "failed"@ {
            prev
        } else {
            prev.push(trial_blocked_view(t, f, l))
        }
    }
}

/// A trial status that blocks its factors.
pub open spec fn blocking_status(s: Seq<char>) -> bool {
    s == "blocked"@ || s == "failed"@ || s == "not_implemented"@
}

/// The controlled and blocked points an experiment's trials give, in
/// trial order.
pub open spec fn trials_points(trials: Seq<ExperimentTrial>, experiment_ref: Option<Seq<char>>) -> (Seq<ControlledView>, Seq<BlockedView>)
    decreases trials.len(),
{
    if trials.len() == 0 {
        (Seq::empty(), Seq::empty())
    } else {
        let prev = trials_points(trials.drop_last(), experiment_ref);
        let t = trials.last();
        if t.status@ == "completed"@ {
            (completed_points(prev.0, t.factors@, trial_refs(t, experiment_ref)), prev.1)
        } else if blocking_status(t.status@) {
            (prev.0, prev.1 + trial_blocked_points(t, t.factors@))
        } else {
            prev
        }
    }
}

fn has_point(points: &Vec<RunOperatingPointControlled>, f: &str, l: &str) -> (r: bool)
    ensures
        r == has_key(cviews(points@), f@, l@),
{
    let mut i: usize = 0;
    while i < points.len()
        invariant
            i <= points@.len(),
            forall|k: int| 0 <= k < i ==> !((#[trigger] cviews(points@)[k]).0 == f@ && cviews(points@)[k].1 == l@),
        decreases points.len() - i,
    {
        if str_eq(points[i].factor_id.as_str(), f) && str_eq(points[i].level.as_str(), l) {
            assert(cviews(points@)[i as int].0 == f@);
            return true;
        }
        i = i + 1;
    }
    false
}

/// Adds a controlled point for each new workload level of a completed
/// trial.
pub fn add_completed_trial_points(
    trial: &ExperimentTrial,
    experiment_ref: &Option<String>,
    controlled_points: &mut Vec<RunOperatingPointControlled>,
)
    ensures
        cviews(final(controlled_points)@) == completed_points(cviews(old(controlled_points)@), trial.factors@,
            trial_refs(*trial, opt_view(*experiment_ref))),
{
    let ghost refs = trial_refs(*trial, opt_view(*experiment_ref));
    let ghost c0 = cviews(controlled_points@);
    let factors = &trial.factors;
    let mut i: usize = 0;
    while i < factors.len()
        invariant
            i <= factors@.len(),
            factors@ == trial.factors@,
            refs == trial_refs(*trial, opt_view(*experiment_ref)),
            cviews(controlled_points@) == completed_points(c0, factors@.take(i as int), refs),
        decreases factors.len() - i,
    {
        proof {
            assert(factors@.take(i + 1).drop_last() =~= factors@.take(i as int));
        }
        let f = factors[i].0.as_str();
        let l = factors[i].1.as_str();
        if str_eq(f, "cpu_load_workers") && !has_point(controlled_points, f, l) {
            let mut evidence_refs: Vec<String> = Vec::new();
            match experiment_ref {
                Some(r) => evidence_refs.push(owned(r.as_str())),
                None => {},
            }
            extend_all(&mut evidence_refs, &trial.artifact_refs);
            let ghost before = cviews(controlled_points@);
            controlled_points.push(RunOperatingPointControlled {
                factor_id: owned(f),
                level: owned(l),
                evidence_refs,
                claim_boundary: owned(
                    "Workload intensity was controlled for this bounded trial; CPU frequency remains observed under current policy unless privileged frequency-control evidence exists.",
                ),
            });
            proof {
                assert(views(evidence_refs@) =~= refs);
                assert(cviews(controlled_points@) =~= before.push((f@, l@, refs, workload_boundary())));
            }
        }
        i = i + 1;
    }
    proof {
        assert(factors@.take(factors@.len() as int) =~= factors@);
    }
}

/// Adds a blocked point for each factor of a trial that did not complete,
/// but the workload level of a trial that did not fail.
pub fn add_blocked_trial_points(trial: &ExperimentTrial, blocked_points: &mut Vec<RunOperatingPointBlocked>)
    ensures
        bviews(final(blocked_points)@) == bviews(old(blocked_points)@) + trial_blocked_points(*trial, trial.factors@),
{
    let ghost b0 = bviews(blocked_points@);
    let factors = &trial.factors;
    let mut i: usize = 0;
    while i < factors.len()
        invariant
            i <= factors@.len(),
            factors@ == trial.factors@,
            bviews(blocked_points@) == b0 + trial_blocked_points(*trial, factors@.take(i as int)),
        decreases factors.len() - i,
    {
        proof {
            assert(factors@.take(i + 1).drop_last() =~= factors@.take(i as int));
        }
        let f = factors[i].0.as_str();
        let l = factors[i].1.as_str();
        if !(str_eq(f, "cpu_load_workers") && !str_eq(trial.status.as_str(), "failed")) {
            let reason = match &trial.failure {
                Some(m) => owned(m.as_str()),
                None => concat("trial ended with status ", trial.status.as_str()),
            };
            let ghost before = bviews(blocked_points@);
            blocked_points.push(RunOperatingPointBlocked {
                factor_id: owned(f),
                requested_level: Some(owned(l)),
                coverage_status: owned(blocked_status_for_factor(f)),
                reason,
                next_evidence: next_evidence_for_blocked_factor(f),
            });
            proof {
                assert(bviews(blocked_points@) =~= before.push(trial_blocked_view(*trial, f@, l@)));
            }
        } else {
            proof {
                assert(bviews(blocked_points@) =~= b0 + trial_blocked_points(*trial, factors@.take(i + 1)));
            }
        }
        i = i + 1;
    }
    proof {
        assert(factors@.take(factors@.len() as int) =~= factors@);
    }
}

fn add_trial_points(
    experiment: &ExperimentRun,
    experiment_ref: &Option<String>,
    controlled_points: &mut Vec<RunOperatingPointControlled>,
    blocked_points: &mut Vec<RunOperatingPointBlocked>,
)
    requires
        old(controlled_points)@.len() == 0,
        old(blocked_points)@.len() == 0,
    ensures
        (cviews(final(controlled_points)@), bviews(final(blocked_points)@)) == trials_points(experiment.trials@, opt_view(*experiment_ref)),
{
    let trials = &experiment.trials;
    let mut i: usize = 0;
    proof {
        assert(cviews(controlled_points@) =~= Seq::<ControlledView>::empty());
        assert(bviews(blocked_points@) =~= Seq::<BlockedView>::empty());
    }
    while i < trials.len()
        invariant
            i <= trials@.len(),
            trials@ == experiment.trials@,
            (cviews(controlled_points@), bviews(blocked_points@)) == trials_points(trials@.take(i as int), opt_view(*experiment_ref)),
        decreases trials.len() - i,
    {
        proof {
            assert(trials@.take(i + 1).drop_last() =~= trials@.take(i as int));
        }
        let trial = &trials[i];
        if str_eq(trial.status.as_str(), "completed") {
            add_completed_trial_points(trial, experiment_ref, controlled_points);
        } else if str_eq(trial.status.as_str(), "blocked") || str_eq(trial.status.as_str(), "failed")
            || str_eq(trial.status.as_str(), "not_implemented") {
            add_blocked_trial_points(trial, blocked_points);
        }
        i = i + 1;
    }
    proof {
        assert(trials@.take(trials@.len() as int) =~= trials@);
    }
}

/// The serialized label of a validity.
pub open spec fn validity_label(v: GovernorValidity) -> Seq<char> {
    crate::workflow_render::validity_name(v)
}

/// The serialized label of a validity.
pub fn validation_status_label(validity: GovernorValidity) -> (s: &'static str)
    ensures
        s@ == validity_label(validity),
{
    match validity {
        GovernorValidity::Measured => "measured",
        GovernorValidity::MeasuredPartial => "measured_partial",
        GovernorValidity::Insufficient => "insufficient",
        GovernorValidity::Refused => "refused",
        GovernorValidity::Contaminated => "contaminated",
        GovernorValidity::NotApplicable => "not_applicable",
        GovernorValidity::Unknown => "unknown",
    }
}

/// The coverage status of a governor a validation blocks.
pub open spec fn validation_coverage_spec(r: GovernorValidation, legacy: bool) -> Seq<char> {
    if legacy { "insufficient"@ } else { validity_label(r.validity) }
}

/// The coverage status of a governor a validation blocks: insufficient
/// without a run-set identity, else the validity's label.
pub fn validation_coverage_status(result: &GovernorValidation, legacy_identity: bool) -> (s: String)
    ensures
        s@ == validation_coverage_spec(*result, legacy_identity),
{
    if legacy_identity {
        return owned("insufficient");
    }
    owned(validation_status_label(result.validity))
}

/// Why a validation blocks a governor.
pub open spec fn validation_reason_spec(r: GovernorValidation, legacy: bool) -> Seq<char> {
    if legacy {
        LEGACY_RUN_VALIDATION_MISSING_RUN_SET_ID@
    } else if r.messages@.len() == 0 {
        "run validation classified governor evidence as "@ + validity_label(r.validity)
    } else {
        join_seq(views(r.messages@), "; "@)
    }
}

/// Why a validation blocks a governor: the missing run-set identity, its
/// messages, or its validity.
pub fn validation_reason(result: &GovernorValidation, legacy_identity: bool) -> (s: String)
    ensures
        s@ == validation_reason_spec(*result, legacy_identity),
{
    if legacy_identity {
        return owned(LEGACY_RUN_VALIDATION_MISSING_RUN_SET_ID);
    }
    if result.messages.len() == 0 {
        return concat("run validation classified governor evidence as ", validation_status_label(result.validity));
    }
    join(&result.messages, "; ")
}

/// The evidence that would unblock a governor a validation blocks.
pub open spec fn validation_next_spec(r: GovernorValidation, legacy: bool) -> Seq<Seq<char>> {
    if legacy {
        seq!["rerun report validate-run with v0.2.3+ run-set identity"@]
    } else if r.next_evidence@.len() == 0 {
        seq!["rerun governor sweep so plan, approval, apply, load, restore, and health-check evidence are linked"@]
    } else {
        views(r.next_evidence@)
    }
}

/// The evidence that would unblock a governor a validation blocks.
pub fn validation_next_evidence(result: &GovernorValidation, legacy_identity: bool) -> (items: Vec<String>)
    ensures
        views(items@) == validation_next_spec(*result, legacy_identity),
{
    if legacy_identity {
        return crate::text::single("rerun report validate-run with v0.2.3+ run-set identity");
    }
    if result.next_evidence.len() == 0 {
        return crate::text::single(
            "rerun governor sweep so plan, approval, apply, load, restore, and health-check evidence are linked",
        );
    }
    copy_all(&result.next_evidence)
}

/// A reference a measured governor result cites: the validation's own, or
/// one of the result's linked artifacts.
pub open spec fn validation_ref_spec(validation_ref: Seq<char>, r: GovernorValidation, s: Seq<char>) -> bool {
    s == validation_ref || opt_view(r.plan_ref) == Some(s) || opt_view(r.approval_ref) == Some(s)
        || opt_view(r.control_result_ref) == Some(s) || opt_view(r.load_ref) == Some(s)
        || opt_view(r.restore_result_ref) == Some(s) || opt_view(r.health_check_ref) == Some(s)
}

fn push_some(v: &mut Vec<String>, o: &Option<String>)
    ensures
        forall|s: Seq<char>| views(final(v)@).contains(s) <==> (views(old(v)@).contains(s) || opt_view(*o) == Some(s)),
{
    match o {
        Some(x) => {
            let ghost before = views(v@);
            v.push(owned(x.as_str()));
            proof {
                assert forall|s: Seq<char>| views(v@).contains(s) <==> (before.contains(s) || opt_view(*o) == Some(s)) by {
                    assert(views(v@) =~= before.push(x@));
                    crate::text::lemma_push_contains(before, x@, s);
                }
            }
        },
        None => {},
    }
}

/// The references a measured governor result cites, sorted, each once.
pub fn validation_evidence_refs(validation_ref: &str, result: &GovernorValidation) -> (refs: Vec<String>)
    ensures
        strictly_sorted(views(refs@)),
        forall|s: Seq<char>| views(refs@).contains(s) <==> validation_ref_spec(validation_ref@, *result, s),
{
    let mut refs = crate::text::single(validation_ref);
    push_some(&mut refs, &result.plan_ref);
    push_some(&mut refs, &result.approval_ref);
    push_some(&mut refs, &result.control_result_ref);
    push_some(&mut refs, &result.load_ref);
    push_some(&mut refs, &result.restore_result_ref);
    push_some(&mut refs, &result.health_check_ref);
    proof {
        assert forall|s: Seq<char>| views(refs@).contains(s) <==> validation_ref_spec(validation_ref@, *result, s) by {
            assert(seq![validation_ref@].contains(s) <==> s == validation_ref@) by {
                if s == validation_ref@ {
                    assert(seq![validation_ref@][0] == s);
                }
            }
        }
    }
    sorted_unique(refs)
}

/// The validation counts: its profile is one a run validation may be made
/// for.
pub open spec fn eligible(vals: Seq<(String, RunValidationPayload)>, k: int) -> bool {
    supported_profile_spec(vals[k].1.profile@)
}

/// The validation has no run-set identity.
pub open spec fn legacy_at(vals: Seq<(String, RunValidationPayload)>, k: int) -> bool {
    !has_run_set_identity_spec(vals[k].1)
}

/// Result `j` of validation `k` exists.
pub open spec fn result_in(vals: Seq<(String, RunValidationPayload)>, k: int, j: int) -> bool {
    0 <= k < vals.len() && 0 <= j < vals[k].1.governor_results@.len()
}

/// Result `j` of validation `k`.
pub open spec fn result_at(vals: Seq<(String, RunValidationPayload)>, k: int, j: int) -> GovernorValidation {
    vals[k].1.governor_results@[j]
}

/// Result `j` of validation `k` measures its governor.
pub open spec fn measured_at(vals: Seq<(String, RunValidationPayload)>, k: int, j: int) -> bool {
    result_in(vals, k, j) && eligible(vals, k) && result_at(vals, k, j).validity == GovernorValidity::Measured && !legacy_at(vals, k)
}

/// Result `j` of validation `k` blocks its governor.
pub open spec fn blocked_at(vals: Seq<(String, RunValidationPayload)>, k: int, j: int) -> bool {
    result_in(vals, k, j) && eligible(vals, k) && !(result_at(vals, k, j).validity == GovernorValidity::Measured && !legacy_at(vals, k))
}

/// Some result blocks the governor.
pub open spec fn governor_blocked(vals: Seq<(String, RunValidationPayload)>, g: Seq<char>) -> bool {
    exists|k: int, j: int| #[trigger] blocked_at(vals, k, j) && result_at(vals, k, j).governor@ == g
}

/// Some result measures the governor.
pub open spec fn governor_measured(vals: Seq<(String, RunValidationPayload)>, g: Seq<char>) -> bool {
    exists|k: int, j: int| #[trigger] measured_at(vals, k, j) && result_at(vals, k, j).governor@ == g
}

/// `(k2, j2)` comes before `(k, j)`.
pub open spec fn before(k2: int, j2: int, k: int, j: int) -> bool {
    k2 < k || (k2 == k && j2 < j)
}

/// Result `j` of validation `k` is the first that blocks its governor.
pub open spec fn first_blocked(vals: Seq<(String, RunValidationPayload)>, k: int, j: int) -> bool {
    &&& blocked_at(vals, k, j)
    &&& forall|k2: int, j2: int| #[trigger] blocked_at(vals, k2, j2) && before(k2, j2, k, j)
        ==> result_at(vals, k2, j2).governor@ != result_at(vals, k, j).governor@
}

/// The blocked point of a result.
pub open spec fn validation_blocked_view(vals: Seq<(String, RunValidationPayload)>, k: int, j: int) -> BlockedView {
    let r = result_at(vals, k, j);
    let legacy = legacy_at(vals, k);
    ("governor"@, Some(r.governor@), validation_coverage_spec(r, legacy), validation_reason_spec(r, legacy), validation_next_spec(r, legacy))
}

/// Some result before `(k, j)` blocks the governor.
pub open spec fn blocked_before(vals: Seq<(String, RunValidationPayload)>, g: Seq<char>, k: int, j: int) -> bool {
    exists|k2: int, j2: int| #[trigger] blocked_at(vals, k2, j2) && before(k2, j2, k, j) && result_at(vals, k2, j2).governor@ == g
}

/// Some result before `(k, j)` measures the governor.
pub open spec fn measured_before(vals: Seq<(String, RunValidationPayload)>, g: Seq<char>, k: int, j: int) -> bool {
    exists|k2: int, j2: int| #[trigger] measured_at(vals, k2, j2) && before(k2, j2, k, j) && result_at(vals, k2, j2).governor@ == g
}

proof fn lemma_before_next_validation(vals: Seq<(String, RunValidationPayload)>, g: Seq<char>, k: int)
    requires
        0 <= k < vals.len(),
    ensures
        blocked_before(vals, g, k, vals[k].1.governor_results@.len() as int) <==> blocked_before(vals, g, k + 1, 0),
        measured_before(vals, g, k, vals[k].1.governor_results@.len() as int) <==> measured_before(vals, g, k + 1, 0),
{
    let n = vals[k].1.governor_results@.len() as int;
    if blocked_before(vals, g, k + 1, 0) {
        let (k2, j2) = choose|k2: int, j2: int| #[trigger] blocked_at(vals, k2, j2) && before(k2, j2, k + 1, 0)
            && result_at(vals, k2, j2).governor@ == g;
        assert(before(k2, j2, k, n));
    }
    if measured_before(vals, g, k + 1, 0) {
        let (k2, j2) = choose|k2: int, j2: int| #[trigger] measured_at(vals, k2, j2) && before(k2, j2, k + 1, 0)
            && result_at(vals, k2, j2).governor@ == g;
        assert(before(k2, j2, k, n));
    }
}

proof fn lemma_before_step(vals: Seq<(String, RunValidationPayload)>, g: Seq<char>, k: int, j: int)
    requires
        result_in(vals, k, j),
    ensures
        blocked_before(vals, g, k, j + 1) <==> (blocked_before(vals, g, k, j) || (blocked_at(vals, k, j) && result_at(vals, k, j).governor@ == g)),
        measured_before(vals, g, k, j + 1) <==> (measured_before(vals, g, k, j) || (measured_at(vals, k, j) && result_at(vals, k, j).governor@ == g)),
{
    if blocked_before(vals, g, k, j + 1) {
        let (k2, j2) = choose|k2: int, j2: int| #[trigger] blocked_at(vals, k2, j2) && before(k2, j2, k, j + 1)
            && result_at(vals, k2, j2).governor@ == g;
        if !(k2 == k && j2 == j) {
            assert(before(k2, j2, k, j));
        }
    }
    if blocked_at(vals, k, j) && result_at(vals, k, j).governor@ == g {
        assert(before(k, j, k, j + 1));
    }
    if blocked_before(vals, g, k, j) {
        let (k2, j2) = choose|k2: int, j2: int| #[trigger] blocked_at(vals, k2, j2) && before(k2, j2, k, j)
            && result_at(vals, k2, j2).governor@ == g;
        assert(before(k2, j2, k, j + 1));
    }
    if measured_before(vals, g, k, j + 1) {
        let (k2, j2) = choose|k2: int, j2: int| #[trigger] measured_at(vals, k2, j2) && before(k2, j2, k, j + 1)
            && result_at(vals, k2, j2).governor@ == g;
        if !(k2 == k && j2 == j) {
            assert(before(k2, j2, k, j));
        }
    }
    if measured_at(vals, k, j) && result_at(vals, k, j).governor@ == g {
        assert(before(k, j, k, j + 1));
    }
    if measured_before(vals, g, k, j) {
        let (k2, j2) = choose|k2: int, j2: int| #[trigger] measured_at(vals, k2, j2) && before(k2, j2, k, j)
            && result_at(vals, k2, j2).governor@ == g;
        assert(before(k2, j2, k, j + 1));
    }
}

proof fn lemma_ineligible_no_results(vals: Seq<(String, RunValidationPayload)>, g: Seq<char>, k: int)
    requires
        0 <= k < vals.len(),
        !eligible(vals, k),
    ensures
        blocked_before(vals, g, k, 0) <==> blocked_before(vals, g, k + 1, 0),
        measured_before(vals, g, k, 0) <==> measured_before(vals, g, k + 1, 0),
{
    if blocked_before(vals, g, k + 1, 0) {
        let (k2, j2) = choose|k2: int, j2: int| #[trigger] blocked_at(vals, k2, j2) && before(k2, j2, k + 1, 0)
            && result_at(vals, k2, j2).governor@ == g;
        assert(before(k2, j2, k, 0));
    }
    if measured_before(vals, g, k + 1, 0) {
        let (k2, j2) = choose|k2: int, j2: int| #[trigger] measured_at(vals, k2, j2) && before(k2, j2, k + 1, 0)
            && result_at(vals, k2, j2).governor@ == g;
        assert(before(k2, j2, k, 0));
    }
    if blocked_before(vals, g, k, 0) {
        let (k2, j2) = choose|k2: int, j2: int| #[trigger] blocked_at(vals, k2, j2) && before(k2, j2, k, 0)
            && result_at(vals, k2, j2).governor@ == g;
        assert(before(k2, j2, k + 1, 0));
    }
    if measured_before(vals, g, k, 0) {
        let (k2, j2) = choose|k2: int, j2: int| #[trigger] measured_at(vals, k2, j2) && before(k2, j2, k, 0)
            && result_at(vals, k2, j2).governor@ == g;
        assert(before(k2, j2, k + 1, 0));
    }
}

proof fn lemma_before_all(vals: Seq<(String, RunValidationPayload)>, g: Seq<char>)
    ensures
        blocked_before(vals, g, vals.len() as int, 0) <==> governor_blocked(vals, g),
        measured_before(vals, g, vals.len() as int, 0) <==> governor_measured(vals, g),
        !blocked_before(vals, g, 0, 0),
        !measured_before(vals, g, 0, 0),
{
    if governor_blocked(vals, g) {
        let (k2, j2) = choose|k2: int, j2: int| #[trigger] blocked_at(vals, k2, j2) && result_at(vals, k2, j2).governor@ == g;
        assert(before(k2, j2, vals.len() as int, 0));
    }
    if governor_measured(vals, g) {
        let (k2, j2) = choose|k2: int, j2: int| #[trigger] measured_at(vals, k2, j2) && result_at(vals, k2, j2).governor@ == g;
        assert(before(k2, j2, vals.len() as int, 0));
    }
}

/// The governors the validations block, and those they measure, each
/// sorted without repetition.
fn governor_names(vals: &Vec<(String, RunValidationPayload)>) -> (r: (Vec<String>, Vec<String>))
    ensures
        strictly_sorted(views(r.0@)),
        forall|g: Seq<char>| views(r.0@).contains(g) <==> governor_blocked(vals@, g),
        strictly_sorted(views(r.1@)),
        forall|g: Seq<char>| views(r.1@).contains(g) <==> governor_measured(vals@, g),
{
    let mut blocked: Vec<String> = Vec::new();
    let mut measured: Vec<String> = Vec::new();
    let mut k: usize = 0;
    proof {
        assert forall|g: Seq<char>| !blocked_before(vals@, g, 0, 0) && !measured_before(vals@, g, 0, 0) by {
            lemma_before_all(vals@, g);
        }
    }
    while k < vals.len()
        invariant
            k <= vals@.len(),
            strictly_sorted(views(blocked@)),
            strictly_sorted(views(measured@)),
            forall|g: Seq<char>| views(blocked@).contains(g) <==> blocked_before(vals@, g, k as int, 0),
            forall|g: Seq<char>| views(measured@).contains(g) <==> measured_before(vals@, g, k as int, 0),
        decreases vals.len() - k,
    {
        let v = &vals[k].1;
        if supported_validation_profile(v.profile.as_str()) {
            let legacy = !v.has_run_set_identity();
            let results = &v.governor_results;
            let mut j: usize = 0;
            while j < results.len()
                invariant
                    k < vals@.len(),
                    j <= results@.len(),
                    results@ == vals@[k as int].1.governor_results@,
                    eligible(vals@, k as int),
                    legacy == legacy_at(vals@, k as int),
                    strictly_sorted(views(blocked@)),
                    strictly_sorted(views(measured@)),
                    forall|g: Seq<char>| views(blocked@).contains(g) <==> blocked_before(vals@, g, k as int, j as int),
                    forall|g: Seq<char>| views(measured@).contains(g) <==> measured_before(vals@, g, k as int, j as int),
                decreases results.len() - j,
            {
                let r = &results[j];
                let ghost kk = k as int;
                let ghost jj = j as int;
                proof {
                    assert(result_in(vals@, kk, jj));
                    assert(result_at(vals@, kk, jj) == *r);
                }
                if r.validity == GovernorValidity::Measured && !legacy {
                    let ghost old_m = views(measured@);
                    insert_sorted_unique(&mut measured, owned(r.governor.as_str()));
                    proof {
                        assert forall|g: Seq<char>| views(measured@).contains(g) <==> measured_before(vals@, g, kk, jj + 1) by {
                            lemma_before_step(vals@, g, kk, jj);
                        }
                        assert forall|g: Seq<char>| views(blocked@).contains(g) <==> blocked_before(vals@, g, kk, jj + 1) by {
                            lemma_before_step(vals@, g, kk, jj);
                        }
                    }
                } else {
                    insert_sorted_unique(&mut blocked, owned(r.governor.as_str()));
                    proof {
                        assert forall|g: Seq<char>| views(measured@).contains(g) <==> measured_before(vals@, g, kk, jj + 1) by {
                            lemma_before_step(vals@, g, kk, jj);
                        }
                        assert forall|g: Seq<char>| views(blocked@).contains(g) <==> blocked_before(vals@, g, kk, jj + 1) by {
                            lemma_before_step(vals@, g, kk, jj);
                        }
                    }
                }
                j = j + 1;
            }
            proof {
                assert forall|g: Seq<char>| #![auto] views(blocked@).contains(g) <==> blocked_before(vals@, g, k + 1, 0) by {
                    lemma_before_next_validation(vals@, g, k as int);
                }
                assert forall|g: Seq<char>| #![auto] views(measured@).contains(g) <==> measured_before(vals@, g, k + 1, 0) by {
                    lemma_before_next_validation(vals@, g, k as int);
                }
            }
        } else {
            proof {
                assert forall|g: Seq<char>| #![auto] views(blocked@).contains(g) <==> blocked_before(vals@, g, k + 1, 0) by {
                    lemma_ineligible_no_results(vals@, g, k as int);
                }
                assert forall|g: Seq<char>| #![auto] views(measured@).contains(g) <==> measured_before(vals@, g, k + 1, 0) by {
                    lemma_ineligible_no_results(vals@, g, k as int);
                }
            }
        }
        k = k + 1;
    }
    proof {
        assert forall|g: Seq<char>| #![auto] views(blocked@).contains(g) <==> governor_blocked(vals@, g) by {
            lemma_before_all(vals@, g);
        }
        assert forall|g: Seq<char>| #![auto] views(measured@).contains(g) <==> governor_measured(vals@, g) by {
            lemma_before_all(vals@, g);
        }
    }
    (blocked, measured)
}

proof fn lemma_first_blocked_unique(vals: Seq<(String, RunValidationPayload)>, k: int, j: int, k2: int, j2: int)
    requires
        first_blocked(vals, k, j),
        first_blocked(vals, k2, j2),
        result_at(vals, k, j).governor@ == result_at(vals, k2, j2).governor@,
    ensures
        k == k2 && j == j2,
{
    if before(k2, j2, k, j) {
        assert(blocked_at(vals, k2, j2));
    } else if before(k, j, k2, j2) {
        assert(blocked_at(vals, k, j));
    }
}

/// The position of the first result that blocks the governor.
pub open spec fn first_blocked_pos(vals: Seq<(String, RunValidationPayload)>, g: Seq<char>) -> (int, int) {
    choose|kj: (int, int)| first_blocked(vals, kj.0, kj.1) && result_at(vals, kj.0, kj.1).governor@ == g
}

/// The blocked point a validation gives a governor it blocks.
pub open spec fn governor_blocked_view(vals: Seq<(String, RunValidationPayload)>, g: Seq<char>) -> BlockedView {
    validation_blocked_view(vals, first_blocked_pos(vals, g).0, first_blocked_pos(vals, g).1)
}

fn first_blocked_point(vals: &Vec<(String, RunValidationPayload)>, g: &str) -> (p: RunOperatingPointBlocked)
    requires
        governor_blocked(vals@, g@),
    ensures
        p@ == governor_blocked_view(vals@, g@),
{
    let mut k: usize = 0;
    while k < vals.len()
        invariant
            k <= vals@.len(),
            governor_blocked(vals@, g@),
            !blocked_before(vals@, g@, k as int, 0),
        decreases vals.len() - k,
    {
        let v = &vals[k].1;
        if supported_validation_profile(v.profile.as_str()) {
            let legacy = !v.has_run_set_identity();
            let results = &v.governor_results;
            let mut j: usize = 0;
            while j < results.len()
                invariant
                    k < vals@.len(),
                    j <= results@.len(),
                    results@ == vals@[k as int].1.governor_results@,
                    eligible(vals@, k as int),
                    legacy == legacy_at(vals@, k as int),
                    !blocked_before(vals@, g@, k as int, j as int),
                decreases results.len() - j,
            {
                let r = &results[j];
                let ghost kk = k as int;
                let ghost jj = j as int;
                proof {
                    assert(result_in(vals@, kk, jj));
                    assert(result_at(vals@, kk, jj) == *r);
                    lemma_before_step(vals@, g@, kk, jj);
                }
                if !(r.validity == GovernorValidity::Measured && !legacy) && str_eq(r.governor.as_str(), g) {
                    let p = RunOperatingPointBlocked {
                        factor_id: owned("governor"),
                        requested_level: Some(owned(r.governor.as_str())),
                        coverage_status: validation_coverage_status(r, legacy),
                        reason: validation_reason(r, legacy),
                        next_evidence: validation_next_evidence(r, legacy),
                    };
                    proof {
                        assert forall|k2: int, j2: int| #[trigger] blocked_at(vals@, k2, j2) && before(k2, j2, kk, jj)
                            implies result_at(vals@, k2, j2).governor@ != result_at(vals@, kk, jj).governor@ by {
                        }
                        assert(first_blocked(vals@, kk, jj));
                        let w = (kk, jj);
                        assert(first_blocked(vals@, w.0, w.1) && result_at(vals@, w.0, w.1).governor@ == g@);
                        let kj = first_blocked_pos(vals@, g@);
                        assert(first_blocked(vals@, kj.0, kj.1) && result_at(vals@, kj.0, kj.1).governor@ == g@);
                        lemma_first_blocked_unique(vals@, kk, jj, kj.0, kj.1);
                    }
                    return p;
                }
                j = j + 1;
            }
            proof {
                lemma_before_next_validation(vals@, g@, k as int);
            }
        } else {
            proof {
                lemma_ineligible_no_results(vals@, g@, k as int);
            }
        }
        k = k + 1;
    }
    proof {
        lemma_before_all(vals@, g@);
    }
    assert(false);
    RunOperatingPointBlocked {
        factor_id: owned("governor"),
        requested_level: None,
        coverage_status: owned("unknown"),
        reason: owned("unknown"),
        next_evidence: Vec::new(),
    }
}

/// A reference the measured results of a governor cite.
pub open spec fn measured_ref(vals: Seq<(String, RunValidationPayload)>, g: Seq<char>, s: Seq<char>) -> bool {
    exists|k: int, j: int| #[trigger] measured_at(vals, k, j) && result_at(vals, k, j).governor@ == g
        && validation_ref_spec(vals[k].0@, result_at(vals, k, j), s)
}

/// A reference cited before `(k, j)`.
pub open spec fn measured_ref_before(vals: Seq<(String, RunValidationPayload)>, g: Seq<char>, s: Seq<char>, k: int, j: int) -> bool {
    exists|k2: int, j2: int| #[trigger] measured_at(vals, k2, j2) && before(k2, j2, k, j) && result_at(vals, k2, j2).governor@ == g
        && validation_ref_spec(vals[k2].0@, result_at(vals, k2, j2), s)
}

proof fn lemma_ref_step(vals: Seq<(String, RunValidationPayload)>, g: Seq<char>, s: Seq<char>, k: int, j: int)
    requires
        result_in(vals, k, j),
    ensures
        measured_ref_before(vals, g, s, k, j + 1) <==> (measured_ref_before(vals, g, s, k, j)
            || (measured_at(vals, k, j) && result_at(vals, k, j).governor@ == g && validation_ref_spec(vals[k].0@, result_at(vals, k, j), s))),
{
    if measured_ref_before(vals, g, s, k, j + 1) {
        let (k2, j2) = choose|k2: int, j2: int| #[trigger] measured_at(vals, k2, j2) && before(k2, j2, k, j + 1)
            && result_at(vals, k2, j2).governor@ == g && validation_ref_spec(vals[k2].0@, result_at(vals, k2, j2), s);
        if !(k2 == k && j2 == j) {
            assert(before(k2, j2, k, j));
        }
    }
    if measured_at(vals, k, j) && result_at(vals, k, j).governor@ == g && validation_ref_spec(vals[k].0@, result_at(vals, k, j), s) {
        assert(before(k, j, k, j + 1));
    }
    if measured_ref_before(vals, g, s, k, j) {
        let (k2, j2) = choose|k2: int, j2: int| #[trigger] measured_at(vals, k2, j2) && before(k2, j2, k, j)
            && result_at(vals, k2, j2).governor@ == g && validation_ref_spec(vals[k2].0@, result_at(vals, k2, j2), s);
        assert(before(k2, j2, k, j + 1));
    }
}

proof fn lemma_ref_next(vals: Seq<(String, RunValidationPayload)>, g: Seq<char>, s: Seq<char>, k: int)
    requires
        0 <= k < vals.len(),
    ensures
        measured_ref_before(vals, g, s, k, vals[k].1.governor_results@.len() as int) <==> measured_ref_before(vals, g, s, k + 1, 0),
        !eligible(vals, k) ==> (measured_ref_before(vals, g, s, k, 0) <==> measured_ref_before(vals, g, s, k + 1, 0)),
{
    let n = vals[k].1.governor_results@.len() as int;
    if measured_ref_before(vals, g, s, k + 1, 0) {
        let (k2, j2) = choose|k2: int, j2: int| #[trigger] measured_at(vals, k2, j2) && before(k2, j2, k + 1, 0)
            && result_at(vals, k2, j2).governor@ == g && validation_ref_spec(vals[k2].0@, result_at(vals, k2, j2), s);
        assert(before(k2, j2, k, n));
        if !eligible(vals, k) {
            assert(before(k2, j2, k, 0));
        }
    }
    if measured_ref_before(vals, g, s, k, n) {
        let (k2, j2) = choose|k2: int, j2: int| #[trigger] measured_at(vals, k2, j2) && before(k2, j2, k, n)
            && result_at(vals, k2, j2).governor@ == g && validation_ref_spec(vals[k2].0@, result_at(vals, k2, j2), s);
        assert(before(k2, j2, k + 1, 0));
    }
    if measured_ref_before(vals, g, s, k, 0) {
        let (k2, j2) = choose|k2: int, j2: int| #[trigger] measured_at(vals, k2, j2) && before(k2, j2, k, 0)
            && result_at(vals, k2, j2).governor@ == g && validation_ref_spec(vals[k2].0@, result_at(vals, k2, j2), s);
        assert(before(k2, j2, k + 1, 0));
    }
}

proof fn lemma_ref_all(vals: Seq<(String, RunValidationPayload)>, g: Seq<char>, s: Seq<char>)
    ensures
        measured_ref_before(vals, g, s, vals.len() as int, 0) <==> measured_ref(vals, g, s),
        !measured_ref_before(vals, g, s, 0, 0),
{
    if measured_ref(vals, g, s) {
        let (k2, j2) = choose|k2: int, j2: int| #[trigger] measured_at(vals, k2, j2) && result_at(vals, k2, j2).governor@ == g
            && validation_ref_spec(vals[k2].0@, result_at(vals, k2, j2), s);
        assert(before(k2, j2, vals.len() as int, 0));
    }
}

fn measured_refs(vals: &Vec<(String, RunValidationPayload)>, g: &str) -> (refs: Vec<String>)
    ensures
        strictly_sorted(views(refs@)),
        forall|s: Seq<char>| views(refs@).contains(s) <==> measured_ref(vals@, g@, s),
{
    let mut refs: Vec<String> = Vec::new();
    let mut k: usize = 0;
    proof {
        assert forall|s: Seq<char>| !measured_ref_before(vals@, g@, s, 0, 0) by {
            lemma_ref_all(vals@, g@, s);
        }
    }
    while k < vals.len()
        invariant
            k <= vals@.len(),
            forall|s: Seq<char>| views(refs@).contains(s) <==> measured_ref_before(vals@, g@, s, k as int, 0),
        decreases vals.len() - k,
    {
        let v = &vals[k].1;
        if supported_validation_profile(v.profile.as_str()) {
            let legacy = !v.has_run_set_identity();
            let results = &v.governor_results;
            let mut j: usize = 0;
            while j < results.len()
                invariant
                    k < vals@.len(),
                    j <= results@.len(),
                    results@ == vals@[k as int].1.governor_results@,
                    eligible(vals@, k as int),
                    legacy == legacy_at(vals@, k as int),
                    forall|s: Seq<char>| views(refs@).contains(s) <==> measured_ref_before(vals@, g@, s, k as int, j as int),
                decreases results.len() - j,
            {
                let r = &results[j];
                let ghost kk = k as int;
                let ghost jj = j as int;
                proof {
                    assert(result_in(vals@, kk, jj));
                    assert(result_at(vals@, kk, jj) == *r);
                }
                if r.validity == GovernorValidity::Measured && !legacy && str_eq(r.governor.as_str(), g) {
                    let ghost prev = views(refs@);
                    let extra = validation_evidence_refs(vals[k].0.as_str(), r);
                    extend_all(&mut refs, &extra);
                    proof {
                        assert forall|s: Seq<char>| views(refs@).contains(s) <==> measured_ref_before(vals@, g@, s, kk, jj + 1) by {
                            crate::text::lemma_concat_contains(prev, views(extra@), s);
                            lemma_ref_step(vals@, g@, s, kk, jj);
                        }
                    }
                } else {
                    proof {
                        assert forall|s: Seq<char>| views(refs@).contains(s) <==> measured_ref_before(vals@, g@, s, kk, jj + 1) by {
                            lemma_ref_step(vals@, g@, s, kk, jj);
                        }
                    }
                }
                j = j + 1;
            }
            proof {
                assert forall|s: Seq<char>| #![auto] views(refs@).contains(s) <==> measured_ref_before(vals@, g@, s, k + 1, 0) by {
                    lemma_ref_next(vals@, g@, s, k as int);
                }
            }
        } else {
            proof {
                assert forall|s: Seq<char>| #![auto] views(refs@).contains(s) <==> measured_ref_before(vals@, g@, s, k + 1, 0) by {
                    lemma_ref_next(vals@, g@, s, k as int);
                }
            }
        }
        k = k + 1;
    }
    proof {
        assert forall|s: Seq<char>| #![auto] views(refs@).contains(s) <==> measured_ref(vals@, g@, s) by {
            lemma_ref_all(vals@, g@, s);
        }
    }
    sorted_unique(refs)
}

fn list_contains(v: &Vec<String>, x: &str) -> (r: bool)
    ensures
        r == views(v@).contains(x@),
{
    let mut i: usize = 0;
    while i < v.len()
        invariant
            i <= v@.len(),
            forall|k: int| 0 <= k < i ==> views(v@)[k] != x@,
        decreases v.len() - i,
    {
        if str_eq(v[i].as_str(), x) {
            assert(views(v@)[i as int] == x@);
            return true;
        }
        i = i + 1;
    }
    false
}

/// The governors the validations block (or measure), sorted.
pub open spec fn sorted_names(vals: Seq<(String, RunValidationPayload)>, blocked: bool) -> Seq<Seq<char>> {
    choose|s: Seq<Seq<char>>| strictly_sorted(s) && forall|g: Seq<char>| s.contains(g)
        <==> (if blocked { governor_blocked(vals, g) } else { governor_measured(vals, g) })
}

/// The references a measured governor's controlled point cites, sorted.
pub open spec fn measured_ref_seq(vals: Seq<(String, RunValidationPayload)>, g: Seq<char>) -> Seq<Seq<char>> {
    choose|s: Seq<Seq<char>>| strictly_sorted(s) && forall|x: Seq<char>| s.contains(x) <==> measured_ref(vals, g, x)
}

/// The blocked points the validations give, one per blocked governor in
/// name order.
pub open spec fn validation_blocked_points(vals: Seq<(String, RunValidationPayload)>) -> Seq<BlockedView> {
    sorted_names(vals, true).map_values(|g: Seq<char>| governor_blocked_view(vals, g))
}

/// The controlled points after the measured governors `names`: one per
/// governor that no validation blocks and that has no point yet.
pub open spec fn validation_controlled(c: Seq<ControlledView>, names: Seq<Seq<char>>, vals: Seq<(String, RunValidationPayload)>)
    -> Seq<ControlledView>
    decreases names.len(),
{
    if names.len() == 0 {
        c
    } else {
        let prev = validation_controlled(c, names.drop_last(), vals);
        let g = names.last();
        if governor_blocked(vals, g) || has_key(prev, "governor"@, g) {
            prev
        } else {
            prev.push(("governor"@, g, measured_ref_seq(vals, g), governor_boundary()))
        }
    }
}

/// Adds the validations' operating points: a blocked point for each
/// governor some result blocks, and a controlled point for each governor
/// only measured, citing every artifact its measured results link.
pub fn add_validation_operating_points(
    vals: &Vec<(String, RunValidationPayload)>,
    controlled_points: &mut Vec<RunOperatingPointControlled>,
    blocked_points: &mut Vec<RunOperatingPointBlocked>,
)
    ensures
        bviews(final(blocked_points)@) == bviews(old(blocked_points)@) + validation_blocked_points(vals@),
        cviews(final(controlled_points)@) == validation_controlled(cviews(old(controlled_points)@), sorted_names(vals@, false), vals@),
{
    let (bn, mn) = governor_names(vals);
    proof {
        let sb = sorted_names(vals@, true);
        let sm = sorted_names(vals@, false);
        assert(strictly_sorted(views(bn@)) && forall|g: Seq<char>| views(bn@).contains(g)
            <==> (if true { governor_blocked(vals@, g) } else { governor_measured(vals@, g) }));
        assert(strictly_sorted(views(mn@)) && forall|g: Seq<char>| views(mn@).contains(g)
            <==> (if false { governor_blocked(vals@, g) } else { governor_measured(vals@, g) }));
        crate::text::lemma_sorted_set_determined(views(bn@), sb);
        crate::text::lemma_sorted_set_determined(views(mn@), sm);
    }
    let ghost b0 = bviews(blocked_points@);
    let mut i: usize = 0;
    while i < bn.len()
        invariant
            i <= bn@.len(),
            views(bn@) == sorted_names(vals@, true),
            forall|g: Seq<char>| views(bn@).contains(g) <==> governor_blocked(vals@, g),
            bviews(blocked_points@) == b0 + sorted_names(vals@, true).take(i as int).map_values(|g: Seq<char>| governor_blocked_view(vals@, g)),
        decreases bn.len() - i,
    {
        proof {
            assert(views(bn@).contains(views(bn@)[i as int]));
        }
        let p = first_blocked_point(vals, bn[i].as_str());
        let ghost before = bviews(blocked_points@);
        blocked_points.push(p);
        proof {
            assert(bviews(blocked_points@) =~= before.push(p@));
            assert(sorted_names(vals@, true).take(i + 1).map_values(|g: Seq<char>| governor_blocked_view(vals@, g))
                =~= sorted_names(vals@, true).take(i as int).map_values(|g: Seq<char>| governor_blocked_view(vals@, g))
                    .push(governor_blocked_view(vals@, views(bn@)[i as int])));
            assert(bviews(blocked_points@) =~= b0 + sorted_names(vals@, true).take(i + 1).map_values(|g: Seq<char>| governor_blocked_view(vals@, g)));
        }
        i = i + 1;
    }
    proof {
        assert(sorted_names(vals@, true).take(bn@.len() as int) =~= sorted_names(vals@, true));
    }
    let ghost c0 = cviews(controlled_points@);
    let mut m: usize = 0;
    while m < mn.len()
        invariant
            m <= mn@.len(),
            views(mn@) == sorted_names(vals@, false),
            forall|g: Seq<char>| views(bn@).contains(g) <==> governor_blocked(vals@, g),
            cviews(controlled_points@) == validation_controlled(c0, sorted_names(vals@, false).take(m as int), vals@),
        decreases mn.len() - m,
    {
        proof {
            assert(sorted_names(vals@, false).take(m + 1).drop_last() =~= sorted_names(vals@, false).take(m as int));
        }
        let g = mn[m].as_str();
        if !list_contains(&bn, g) && !has_point(controlled_points, "governor", g) {
            let refs = measured_refs(vals, g);
            proof {
                crate::text::lemma_sorted_set_determined(views(refs@), measured_ref_seq(vals@, g@));
            }
            let ghost before = cviews(controlled_points@);
            controlled_points.push(RunOperatingPointControlled {
                factor_id: owned("governor"),
                level: owned(g),
                evidence_refs: refs,
                claim_boundary: owned(
                    "Governor control is treated as measured only through report.run_validation evidence linking plan, approval, apply, load, restore, and health-check artifacts.",
                ),
            });
            proof {
                assert(cviews(controlled_points@) =~= before.push(("governor"@, g@, measured_ref_seq(vals@, g@), governor_boundary())));
            }
        }
        m = m + 1;
    }
    proof {
        assert(sorted_names(vals@, false).take(mn@.len() as int) =~= sorted_names(vals@, false));
    }
}

/// An observed point by its views: factor, level, references, boundary.
pub type ObservedView = (Seq<char>, Seq<char>, Seq<Seq<char>>, Seq<char>);

impl View for RunOperatingPointObserved {
    type V = ObservedView;

    open spec fn view(&self) -> ObservedView {
        (self.factor_id@, self.level@, views(self.evidence_refs@), self.claim_boundary@)
    }
}

/// The views of observed points.
pub open spec fn oviews(s: Seq<RunOperatingPointObserved>) -> Seq<ObservedView> {
    s.map_values(|p: RunOperatingPointObserved| p@)
}

/// The point a passive observation gives: the current policy's frequency,
/// observed.
pub open spec fn observed_spec(summary: RunEvidenceSummary) -> Seq<ObservedView> {
    match summary.observation_ref {
        Some(r) => seq![(
            "default_policy_frequency"@,
            "observed_current_policy"@,
            seq![r@],
            "Frequency/resource signals were passively observed under the current target policy; this is not a controlled sweep."@,
        )],
        None => Seq::empty(),
    }
}

/// The blocked point that says fixed CPU frequencies were not controlled.
pub open spec fn fixed_frequency_view() -> BlockedView {
    (
        "fixed_cpu_frequency"@,
        Some("all_fixed_cpu_frequencies"@),
        "not_controllable"@,
        "observed frequency variation is not a controlled fixed-frequency sweep"@,
        seq![
            "approved privileged frequency control"@,
            "controlled operating point matrix with fixed-frequency levels"@,
            "restore verification for every controlled point"@,
        ],
    )
}

/// Blocked points that always say whether fixed frequencies were
/// controlled: the fixed-frequency point is added unless one is there.
pub open spec fn with_fixed_frequency(b: Seq<BlockedView>) -> Seq<BlockedView> {
    if exists|i: int| 0 <= i < b.len() && (#[trigger] b[i]).0 == "fixed_cpu_frequency"@ {
        b
    } else {
        b.push(fixed_frequency_view())
    }
}

/// Adds the fixed-frequency blocked point unless one is there.
pub fn ensure_fixed_frequency_blocked(blocked_points: &mut Vec<RunOperatingPointBlocked>)
    ensures
        bviews(final(blocked_points)@) == with_fixed_frequency(bviews(old(blocked_points)@)),
{
    let ghost b0 = bviews(blocked_points@);
    let mut i: usize = 0;
    while i < blocked_points.len()
        invariant
            i <= blocked_points@.len(),
            bviews(blocked_points@) == b0,
            forall|k: int| 0 <= k < i ==> (#[trigger] b0[k]).0 != "fixed_cpu_frequency"@,
        decreases blocked_points.len() - i,
    {
        if str_eq(blocked_points[i].factor_id.as_str(), "fixed_cpu_frequency") {
            assert(b0[i as int].0 == "fixed_cpu_frequency"@);
            return;
        }
        i = i + 1;
    }
    let next = owned_all(&crate::text::strs3(
        "approved privileged frequency control",
        "controlled operating point matrix with fixed-frequency levels",
        "restore verification for every controlled point",
    ));
    blocked_points.push(RunOperatingPointBlocked {
        factor_id: owned("fixed_cpu_frequency"),
        requested_level: Some(owned("all_fixed_cpu_frequencies")),
        coverage_status: owned("not_controllable"),
        reason: owned("observed frequency variation is not a controlled fixed-frequency sweep"),
        next_evidence: next,
    });
    proof {
        assert(bviews(blocked_points@) =~= b0.push(fixed_frequency_view()));
    }
}

/// The coverage of a run's operating points: blocked as unsafe when a
/// point is, else a controlled subset, observation only, or nothing
/// controllable.
pub open spec fn coverage_spec(observed: nat, c: Seq<ControlledView>, b: Seq<BlockedView>) -> Seq<char> {
    if exists|i: int| 0 <= i < b.len() && (#[trigger] b[i]).2 == "blocked_unsafe"@ {
        "blocked_unsafe"@
    } else if c.len() > 0 {
        "controlled_subset"@
    } else if observed > 0 {
        "observational_only"@
    } else {
        "not_controllable"@
    }
}

/// The coverage of a run's operating points.
pub fn coverage_status(
    observed_points: &Vec<RunOperatingPointObserved>,
    controlled_points: &Vec<RunOperatingPointControlled>,
    blocked_points: &Vec<RunOperatingPointBlocked>,
) -> (s: &'static str)
    ensures
        s@ == coverage_spec(observed_points@.len(), cviews(controlled_points@), bviews(blocked_points@)),
{
    let mut i: usize = 0;
    while i < blocked_points.len()
        invariant
            i <= blocked_points@.len(),
            forall|k: int| 0 <= k < i ==> (#[trigger] bviews(blocked_points@)[k]).2 != "blocked_unsafe"@,
        decreases blocked_points.len() - i,
    {
        if str_eq(blocked_points[i].coverage_status.as_str(), "blocked_unsafe") {
            assert(bviews(blocked_points@)[i as int].2 == "blocked_unsafe"@);
            return "blocked_unsafe";
        }
        i = i + 1;
    }
    if controlled_points.len() > 0 {
        "controlled_subset"
    } else if observed_points.len() > 0 {
        "observational_only"
    } else {
        "not_controllable"
    }
}

/// `ops` are the operating points of a run with the given summary,
/// experiment and validations.
pub open spec fn operating_point_spec(
    ops: RunOperatingPointSummary,
    summary: RunEvidenceSummary,
    experiment_ref: Option<String>,
    experiment: Option<ExperimentRun>,
    validations: Seq<(String, RunValidationPayload)>,
) -> bool {
    let tp = match experiment {
        Some(e) => trials_points(e.trials@, opt_view(experiment_ref)),
        None => (Seq::<ControlledView>::empty(), Seq::<BlockedView>::empty()),
    };
    &&& oviews(ops.observed_points@) == observed_spec(summary)
    &&& cviews(ops.controlled_points@) == validation_controlled(tp.0, sorted_names(validations, false), validations)
    &&& bviews(ops.blocked_points@) == with_fixed_frequency(tp.1 + validation_blocked_points(validations))
    &&& ops.coverage_status@ == coverage_spec(ops.observed_points@.len(), cviews(ops.controlled_points@), bviews(ops.blocked_points@))
}

/// The operating points of a run: the passive observation, the points
/// the experiment's trials controlled or blocked, the governors the run
/// validations measured or blocked, and the fixed-frequency boundary.
/// `experiment_ref` references the run's experiment and `experiment` is
/// its content, when one was recorded; `validations` are the run's
/// validation artifacts with their references.
pub fn operating_point_summary(
    summary: &RunEvidenceSummary,
    experiment_ref: &Option<String>,
    experiment: &Option<ExperimentRun>,
    validations: &Vec<(String, RunValidationPayload)>,
) -> (ops: RunOperatingPointSummary)
    ensures
        operating_point_spec(ops, *summary, *experiment_ref, *experiment, validations@),
{
    let mut observed_points: Vec<RunOperatingPointObserved> = Vec::new();
    match &summary.observation_ref {
        Some(r) => {
            observed_points.push(RunOperatingPointObserved {
                factor_id: owned("default_policy_frequency"),
                level: owned("observed_current_policy"),
                evidence_refs: crate::text::single(r.as_str()),
                claim_boundary: owned(
                    "Frequency/resource signals were passively observed under the current target policy; this is not a controlled sweep.",
                ),
            });
        },
        None => {},
    }
    proof {
        assert(oviews(observed_points@) =~= observed_spec(*summary));
    }
    let mut controlled_points: Vec<RunOperatingPointControlled> = Vec::new();
    let mut blocked_points: Vec<RunOperatingPointBlocked> = Vec::new();
    match experiment {
        Some(e) => {
            add_trial_points(e, experiment_ref, &mut controlled_points, &mut blocked_points);
        },
        None => {
            proof {
                assert(cviews(controlled_points@) =~= Seq::<ControlledView>::empty());
                assert(bviews(blocked_points@) =~= Seq::<BlockedView>::empty());
            }
        },
    }
    add_validation_operating_points(validations, &mut controlled_points, &mut blocked_points);
    ensure_fixed_frequency_blocked(&mut blocked_points);
    let coverage = owned(coverage_status(&observed_points, &controlled_points, &blocked_points));
    RunOperatingPointSummary {
        coverage_status: coverage,
        observed_points,
        controlled_points,
        blocked_points,
    }
}

/// Every run's blocked points say that fixed CPU frequencies were not
/// controlled: a point for `fixed_cpu_frequency` is always among them.
pub proof fn law_fixed_frequency_always_blocked(b: Seq<BlockedView>)
    ensures
        exists|i: int| 0 <= i < with_fixed_frequency(b).len() && (#[trigger] with_fixed_frequency(b)[i]).0 == "fixed_cpu_frequency"@,
{
    if exists|i: int| 0 <= i < b.len() && (#[trigger] b[i]).0 == "fixed_cpu_frequency"@ {
        let i = choose|i: int| 0 <= i < b.len() && (#[trigger] b[i]).0 == "fixed_cpu_frequency"@;
        assert(with_fixed_frequency(b)[i].0 == "fixed_cpu_frequency"@);
    } else {
        let n = b.len() as int;
        assert(with_fixed_frequency(b)[n].0 == "fixed_cpu_frequency"@);
    }
}

/// A governor that any counted validation blocks never becomes a
/// controlled point: every governor point the validations add names a
/// governor they only measured.
pub proof fn law_blocked_governor_never_controlled(
    c: Seq<ControlledView>,
    names: Seq<Seq<char>>,
    vals: Seq<(String, RunValidationPayload)>,
)
    ensures
        validation_controlled(c, names, vals).len() >= c.len(),
        forall|i: int| c.len() <= i < validation_controlled(c, names, vals).len()
            ==> !governor_blocked(vals, (#[trigger] validation_controlled(c, names, vals)[i]).1)
                && validation_controlled(c, names, vals)[i].0 == "governor"@,
        forall|i: int| 0 <= i < c.len() ==> validation_controlled(c, names, vals)[i] == c[i],
    decreases names.len(),
{
    if names.len() > 0 {
        law_blocked_governor_never_controlled(c, names.drop_last(), vals);
    }
}

} // verus!
