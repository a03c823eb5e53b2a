//! Privileged cpufreq governor control: plan validation, approval binding,
//! apply with a restore lease, and restore with read-back verification.

use crate::contracts::{
    AppliedState, ApprovalRecord, CapturedState, ControlOperation, ControlPlan, ControlResult, ControlResultStatus,
    CpufreqPolicyState, Refusal, RefusalCode, RestoreAttempt, RestoreAttemptStatus, RestoreLease, RestoreStatus,
    RiskTier,
};
use crate::digest::{sha256_digest_text, sha256_text};
use crate::error::{error_text, LabError, LabResult};
use crate::ids::{new_id, now_unix_ms};
use crate::target::LOCAL_TARGET_ID;
use crate::text::{concat, owned, str_eq, decimal};
pub use crate::backend::{BackendCall, CpufreqBackend, RecordedBackend};
use vstd::prelude::*;

verus! {

pub const CPUFREQ_SET_GOVERNOR: &'static str = "linux.cpufreq.set_governor";
pub const DEFAULT_PRIV_HELPER: &'static str = "/usr/local/libexec/adc-lab-priv-helper";
pub const CONTROL_RESULT_SCHEMA: &'static str = "lab.control_result.v1";
pub const RESTORE_LEASE_SCHEMA: &'static str = "lab.restore_lease.v1";

/// The governors that control may set.
pub open spec fn allowed_governor(g: Seq<char>) -> bool {
    g == "performance"@ || g == "ondemand"@ || g == "powersave"@ || g == "schedutil"@ || g == "userspace"@
}

/// The governors that control may set, in order.
pub fn allowed_governors() -> (gs: Vec<&'static str>)
    ensures
        forall|g: Seq<char>| crate::text::str_views(gs@).contains(g) <==> allowed_governor(g),
{
    let gs = vec!["performance", "ondemand", "powersave", "schedutil", "userspace"];
    proof {
        let v = crate::text::str_views(gs@);
        assert(v =~= seq!["performance"@, "ondemand"@, "powersave"@, "schedutil"@, "userspace"@]);
        assert forall|g: Seq<char>| v.contains(g) <==> allowed_governor(g) by {
            if allowed_governor(g) {
                if g == "performance"@ { assert(v[0] == g); }
                else if g == "ondemand"@ { assert(v[1] == g); }
                else if g == "powersave"@ { assert(v[2] == g); }
                else if g == "schedutil"@ { assert(v[3] == g); }
                else { assert(v[4] == g); }
            }
        }
    }
    gs
}

/// Whether the governor is in the allowlist.
pub fn is_allowed_governor(governor: &str) -> (r: bool)
    ensures
        r == allowed_governor(governor@),
{
    str_eq(governor, "performance") || str_eq(governor, "ondemand") || str_eq(governor, "powersave")
        || str_eq(governor, "schedutil") || str_eq(governor, "userspace")
}

/// A refusal with the given code and message.
pub fn refusal(reason_code: RefusalCode, message: String) -> (r: Refusal)
    ensures
        r.reason_code == reason_code,
        r.message@ == message@,
{
    Refusal { reason_code, message }
}

/// A refusal with a fixed message.
fn refusal_text(reason_code: RefusalCode, message: &str) -> (r: Refusal)
    ensures
        r.reason_code == reason_code,
        r.message@ == message@,
{
    Refusal { reason_code, message: owned(message) }
}

/// The reason a plan is refused before any approval is consulted, if any.
pub open spec fn plan_refusal(plan: ControlPlan) -> Option<(RefusalCode, Seq<char>)> {
    if plan.operation.operation_id@ != CPUFREQ_SET_GOVERNOR@ {
        Some((RefusalCode::UnsupportedOperation, "operation is not allowlisted"@))
    } else if !allowed_governor(plan.operation.desired_state.governor@) {
        Some((RefusalCode::PolicyViolation, "governor is not in the allowlist"@))
    } else if plan.risk_tier != RiskTier::Tier2PrivilegedReversible || !plan.approval_required || !plan.restore_required {
        Some((RefusalCode::PolicyViolation, "cpufreq governor control must be tier2 with approval and restore"@))
    } else {
        None
    }
}

/// The outcome a refusal reason stands for.
pub open spec fn refusal_outcome(r: Result<(), Refusal>, reason: Option<(RefusalCode, Seq<char>)>) -> bool {
    match r {
        Ok(()) => reason is None,
        Err(f) => reason == Some((f.reason_code, f.message@)),
    }
}

/// Checks that a plan sets an allowlisted governor as a tier-2 operation
/// with approval and restore.
pub fn validate_control_plan(plan: &ControlPlan) -> (r: Result<(), Refusal>)
    ensures
        refusal_outcome(r, plan_refusal(*plan)),
{
    if !str_eq(plan.operation.operation_id.as_str(), CPUFREQ_SET_GOVERNOR) {
        return Err(refusal_text(RefusalCode::UnsupportedOperation, "operation is not allowlisted"));
    }
    if !is_allowed_governor(plan.operation.desired_state.governor.as_str()) {
        return Err(refusal_text(RefusalCode::PolicyViolation, "governor is not in the allowlist"));
    }
    if plan.risk_tier != RiskTier::Tier2PrivilegedReversible || !plan.approval_required || !plan.restore_required {
        return Err(refusal_text(
            RefusalCode::PolicyViolation,
            "cpufreq governor control must be tier2 with approval and restore",
        ));
    }
    Ok(())
}

/// The digest that binds an approval to a plan: `sha256:` and the lowercase
/// hex SHA-256 of the plan's canonical JSON.
pub fn canonical_plan_digest(plan_json: &[u8]) -> (digest: String)
    ensures
        digest@ == sha256_text(plan_json@),
{
    sha256_digest_text(plan_json)
}

/// Two operations are the same operation.
pub open spec fn same_operation(a: ControlOperation, b: ControlOperation) -> bool {
    a.operation_id@ == b.operation_id@ && a.desired_state.governor@ == b.desired_state.governor@
}

/// The approval lists the action.
pub open spec fn approves_action(approval: ApprovalRecord, action: Seq<char>) -> bool {
    exists|i: int| 0 <= i < approval.approved_actions@.len() && (#[trigger] approval.approved_actions@[i])@ == action
}

/// The approval's thermal abort bound covers the plan's.
pub open spec fn thermal_covered(approved: Option<i64>, planned: Option<i64>) -> bool {
    match (approved, planned) {
        (Some(a), Some(p)) => p <= a,
        (None, None) => true,
        _ => false,
    }
}

/// The reason an approval does not cover a plan whose canonical digest is
/// `digest`, if any.
pub open spec fn approval_refusal(plan: ControlPlan, approval: ApprovalRecord, digest: Seq<char>) -> Option<(RefusalCode, Seq<char>)> {
    if approval.target_id@ != plan.target_id@
        || approval.risk_tier != plan.risk_tier
        || !approval.restore_required
        || approval.approved_plan_id@ != plan.plan_id@
        || approval.approved_plan_digest@ != digest
        || !same_operation(approval.approved_operation, plan.operation)
        || !approves_action(approval, plan.operation.operation_id@) {
        Some((RefusalCode::ApprovalMismatch,
            "approval does not match plan id, digest, target, risk, restore, operation, or action"@))
    } else if approval.bounds.duration_seconds_max < plan.bounds.duration_seconds_max {
        Some((RefusalCode::ApprovalMismatch, "approval duration bound is narrower than plan"@))
    } else if !thermal_covered(approval.bounds.thermal_millicelsius_abort, plan.bounds.thermal_millicelsius_abort) {
        Some((RefusalCode::ApprovalMismatch, "approval thermal abort bound does not cover plan"@))
    } else {
        None
    }
}

fn lists_action(actions: &Vec<String>, action: &str) -> (r: bool)
    ensures
        r == exists|i: int| 0 <= i < actions@.len() && (#[trigger] actions@[i])@ == action@,
{
    let mut i: usize = 0;
    while i < actions.len()
        invariant
            i <= actions@.len(),
            forall|q: int| 0 <= q < i ==> (#[trigger] actions@[q])@ != action@,
        decreases actions.len() - i,
    {
        if str_eq(actions[i].as_str(), action) {
            return true;
        }
        i = i + 1;
    }
    false
}

/// Checks that an approval covers a plan: same target, risk, plan id,
/// plan digest and operation, the action listed, restore required, and
/// bounds at least as wide.  `plan_json` is the plan's canonical JSON.
pub fn approval_matches(plan: &ControlPlan, approval: &ApprovalRecord, plan_json: &[u8]) -> (r: Result<(), Refusal>)
    ensures
        refusal_outcome(r, approval_refusal(*plan, *approval, sha256_text(plan_json@))),
{
    let plan_digest = canonical_plan_digest(plan_json);
    if !str_eq(approval.target_id.as_str(), plan.target_id.as_str())
        || approval.risk_tier != plan.risk_tier
        || !approval.restore_required
        || !str_eq(approval.approved_plan_id.as_str(), plan.plan_id.as_str())
        || !str_eq(approval.approved_plan_digest.as_str(), plan_digest.as_str())
        || !str_eq(approval.approved_operation.operation_id.as_str(), plan.operation.operation_id.as_str())
        || !str_eq(approval.approved_operation.desired_state.governor.as_str(), plan.operation.desired_state.governor.as_str())
        || !lists_action(&approval.approved_actions, plan.operation.operation_id.as_str()) {
        return Err(refusal_text(
            RefusalCode::ApprovalMismatch,
            "approval does not match plan id, digest, target, risk, restore, operation, or action",
        ));
    }
    if approval.bounds.duration_seconds_max < plan.bounds.duration_seconds_max {
        return Err(refusal_text(RefusalCode::ApprovalMismatch, "approval duration bound is narrower than plan"));
    }
    let covered = match (approval.bounds.thermal_millicelsius_abort, plan.bounds.thermal_millicelsius_abort) {
        (Some(approved), Some(planned)) => planned <= approved,
        (None, None) => true,
        _ => false,
    };
    if !covered {
        return Err(refusal_text(RefusalCode::ApprovalMismatch, "approval thermal abort bound does not cover plan"));
    }
    Ok(())
}

/// The allowlisted locations of the privileged helper.
pub open spec fn allowed_helper_path(path: Seq<char>) -> bool {
    path == DEFAULT_PRIV_HELPER@ || path == "/usr/bin/adc-lab-priv-helper"@
}

/// Checks that the privileged helper path is one of the allowlisted
/// locations.
pub fn validate_priv_helper_path(path: &str) -> (r: LabResult<()>)
    ensures
        r is Ok <==> allowed_helper_path(path@),
        r matches Err(e) ==> e == LabError::Policy(e->Policy_0)
            && e->Policy_0@ == "privileged helper path is outside the adc-lab allowlist: "@ + path@,
{
    if str_eq(path, DEFAULT_PRIV_HELPER) || str_eq(path, "/usr/bin/adc-lab-priv-helper") {
        Ok(())
    } else {
        Err(LabError::Policy(concat("privileged helper path is outside the adc-lab allowlist: ", path)))
    }
}

/// The refusal of privileged control on a target other than the local one.
pub fn target_local_helper_refusal(target_id: &str) -> (r: Refusal)
    ensures
        r.reason_code == RefusalCode::PrivilegedApplyRequiresTargetLocalHelper,
        r.message@ == "privileged apply/restore is local-target only in this MVP; refused target_id="@ + target_id@,
{
    refusal(
        RefusalCode::PrivilegedApplyRequiresTargetLocalHelper,
        concat("privileged apply/restore is local-target only in this MVP; refused target_id=", target_id),
    )
}

} // verus!

verus! {

/// The fixed header of a control result: schema, a fresh `RESULT-`
/// identifier, and the plan, target, operation, risk tier and status.
pub open spec fn result_header(
    r: ControlResult,
    plan_id: Seq<char>,
    target_id: Seq<char>,
    operation_id: Seq<char>,
    risk_tier: RiskTier,
    status: ControlResultStatus,
) -> bool {
    &&& r.schema_version@ == CONTROL_RESULT_SCHEMA@
    &&& exists|n: nat| r.result_id@ == "RESULT"@ + seq!['-'] + decimal(n)
    &&& r.plan_id@ == plan_id
    &&& r.target_id@ == target_id
    &&& r.operation_id@ == operation_id
    &&& r.risk_tier == risk_tier
    &&& r.status == status
}

/// A stamped control result with the given fields.
fn control_result(
    plan_id: &str,
    target_id: &str,
    operation_id: &str,
    risk_tier: RiskTier,
    status: ControlResultStatus,
    refusal: Option<Refusal>,
    restore_lease: Option<RestoreLease>,
    restore_attempted: bool,
    restore_result: Option<RestoreAttempt>,
) -> (r: ControlResult)
    ensures
        result_header(r, plan_id@, target_id@, operation_id@, risk_tier, status),
        r.refusal == refusal,
        r.restore_lease == restore_lease,
        r.restore_attempted == restore_attempted,
        r.restore_result == restore_result,
{
    ControlResult {
        schema_version: owned(CONTROL_RESULT_SCHEMA),
        result_id: new_id("RESULT"),
        plan_id: owned(plan_id),
        target_id: owned(target_id),
        operation_id: owned(operation_id),
        risk_tier,
        status,
        refusal,
        restore_lease,
        restore_attempted,
        restore_result,
        time_unix_ms: now_unix_ms(),
    }
}

/// The result of a plan refused before any change.
pub fn refused_result(plan: &ControlPlan, refusal: Refusal) -> (r: ControlResult)
    ensures
        result_header(r, plan.plan_id@, plan.target_id@, plan.operation.operation_id@, plan.risk_tier, ControlResultStatus::Refused),
        r.refusal == Some(refusal),
        r.restore_lease is None,
        !r.restore_attempted,
        r.restore_result is None,
{
    control_result(
        plan.plan_id.as_str(),
        plan.target_id.as_str(),
        plan.operation.operation_id.as_str(),
        plan.risk_tier,
        ControlResultStatus::Refused,
        Some(refusal),
        None,
        false,
        None,
    )
}

/// The result of a plan that passed every check in a dry run.
pub fn dry_run_ok_result(plan: &ControlPlan) -> (r: ControlResult)
    ensures
        result_header(r, plan.plan_id@, plan.target_id@, plan.operation.operation_id@, plan.risk_tier, ControlResultStatus::DryRunOk),
        r.refusal is None,
        r.restore_lease is None,
        !r.restore_attempted,
        r.restore_result is None,
{
    control_result(
        plan.plan_id.as_str(),
        plan.target_id.as_str(),
        plan.operation.operation_id.as_str(),
        plan.risk_tier,
        ControlResultStatus::DryRunOk,
        None,
        None,
        false,
        None,
    )
}

/// The reason apply refuses a plan before touching the target, if any.
pub open spec fn apply_refusal(plan: ControlPlan, approval: Option<&ApprovalRecord>, digest: Seq<char>) -> Option<(RefusalCode, Seq<char>)> {
    if plan_refusal(plan) is Some {
        plan_refusal(plan)
    } else if plan.target_id@ != LOCAL_TARGET_ID@ {
        Some((RefusalCode::PrivilegedApplyRequiresTargetLocalHelper,
            "privileged apply/restore is local-target only in this MVP; refused target_id="@ + plan.target_id@))
    } else if plan.approval_required {
        match approval {
            None => Some((RefusalCode::ApprovalRequired, "tier2 operation requires approval artifact"@)),
            Some(a) => approval_refusal(plan, *a, digest),
        }
    } else {
        None
    }
}

/// A fresh restore lease for the plan over the captured policies.
pub open spec fn lease_for_plan(l: RestoreLease, plan: ControlPlan, captured: Seq<CpufreqPolicyState>, status: RestoreStatus) -> bool {
    &&& l.schema_version@ == RESTORE_LEASE_SCHEMA@
    &&& exists|n: nat| l.lease_id@ == "LEASE"@ + seq!['-'] + decimal(n)
    &&& l.target_id@ == plan.target_id@
    &&& l.operation_id@ == plan.operation.operation_id@
    &&& l.captured_state.cpufreq_policies@ == captured
    &&& l.applied_state.governor@ == plan.operation.desired_state.governor@
    &&& l.restore_required
    &&& l.restore_status == status
    &&& l.created_by_plan@ == plan.plan_id@
}

fn new_lease(plan: &ControlPlan, captured: Vec<CpufreqPolicyState>, status: RestoreStatus) -> (l: RestoreLease)
    ensures
        lease_for_plan(l, *plan, captured@, status),
{
    RestoreLease {
        schema_version: owned(RESTORE_LEASE_SCHEMA),
        lease_id: new_id("LEASE"),
        target_id: owned(plan.target_id.as_str()),
        operation_id: owned(plan.operation.operation_id.as_str()),
        captured_state: CapturedState { cpufreq_policies: captured },
        applied_state: AppliedState { governor: owned(plan.operation.desired_state.governor.as_str()) },
        restore_required: true,
        restore_status: status,
        created_by_plan: owned(plan.plan_id.as_str()),
        time_unix_ms: now_unix_ms(),
    }
}

/// The result of an apply whose pre-state could not be captured.
pub fn capture_failed_result(plan: &ControlPlan, err: &LabError) -> (r: ControlResult)
    ensures
        result_header(r, plan.plan_id@, plan.target_id@, plan.operation.operation_id@, plan.risk_tier, ControlResultStatus::Refused),
        r.refusal matches Some(f) && f.reason_code == RefusalCode::MissingSurface
            && f.message@ == "failed to capture pre-state: "@ + error_text(*err),
        r.restore_lease is None,
        !r.restore_attempted,
        r.restore_result is None,
{
    let text = err.message();
    refused_result(plan, refusal(RefusalCode::MissingSurface, concat("failed to capture pre-state: ", text.as_str())))
}

/// The result of an apply that changed the target and verified it: applied,
/// with a pending restore lease over the captured policies.
pub fn applied_result(plan: &ControlPlan, captured: Vec<CpufreqPolicyState>) -> (r: ControlResult)
    ensures
        result_header(r, plan.plan_id@, plan.target_id@, plan.operation.operation_id@, plan.risk_tier, ControlResultStatus::Applied),
        r.refusal is None,
        r.restore_lease matches Some(l) && lease_for_plan(l, *plan, captured@, RestoreStatus::Pending),
        !r.restore_attempted,
        r.restore_result is None,
{
    let lease = new_lease(plan, captured, RestoreStatus::Pending);
    control_result(
        plan.plan_id.as_str(),
        plan.target_id.as_str(),
        plan.operation.operation_id.as_str(),
        plan.risk_tier,
        ControlResultStatus::Applied,
        None,
        Some(lease),
        false,
        None,
    )
}

/// The result of an apply that failed after the pre-state was captured,
/// given the outcome of the restore that followed: failed, with the lease
/// restored or failed as the restore went.
pub fn failed_result_after_restore(
    plan: &ControlPlan,
    failure: Refusal,
    captured: Vec<CpufreqPolicyState>,
    restore_outcome: &LabResult<()>,
) -> (r: ControlResult)
    ensures
        result_header(r, plan.plan_id@, plan.target_id@, plan.operation.operation_id@, plan.risk_tier, ControlResultStatus::Failed),
        r.refusal == Some(failure),
        r.restore_attempted,
        match restore_outcome {
            Ok(()) => {
                &&& r.restore_lease matches Some(l) && lease_for_plan(l, *plan, captured@, RestoreStatus::Restored)
                &&& r.restore_result matches Some(a) && a.status == RestoreAttemptStatus::Succeeded
                    && a.message@ == "restore attempted after apply failure and succeeded"@
            },
            Err(e) => {
                &&& r.restore_lease matches Some(l) && lease_for_plan(l, *plan, captured@, RestoreStatus::Failed)
                &&& r.restore_result matches Some(a) && a.status == RestoreAttemptStatus::Failed
                    && a.message@ == "restore attempted after apply failure and failed: "@ + error_text(*e)
            },
        },
{
    let (restore_status, attempt) = match restore_outcome {
        Ok(()) => (
            RestoreStatus::Restored,
            RestoreAttempt {
                status: RestoreAttemptStatus::Succeeded,
                message: owned("restore attempted after apply failure and succeeded"),
            },
        ),
        Err(err) => {
            let text = err.message();
            (
                RestoreStatus::Failed,
                RestoreAttempt {
                    status: RestoreAttemptStatus::Failed,
                    message: concat("restore attempted after apply failure and failed: ", text.as_str()),
                },
            )
        },
    };
    let lease = new_lease(plan, captured, restore_status);
    control_result(
        plan.plan_id.as_str(),
        plan.target_id.as_str(),
        plan.operation.operation_id.as_str(),
        plan.risk_tier,
        ControlResultStatus::Failed,
        Some(failure),
        Some(lease),
        true,
        Some(attempt),
    )
}

/// The result of an apply that failed after the pre-state was captured:
/// the captured pre-state is restored through the backend, and the result
/// is failed, its lease restored or failed as the restore went.
pub fn failed_result_with_restore_attempt<B: CpufreqBackend>(
    plan: &ControlPlan,
    failure: Refusal,
    captured: Vec<CpufreqPolicyState>,
    backend: &mut RecordedBackend<B>,
) -> (r: ControlResult)
    ensures
        final(backend).backend() == old(backend).backend(),
        final(backend).calls() == old(backend).calls().push(BackendCall::Restore(captured@)),
        result_header(r, plan.plan_id@, plan.target_id@, plan.operation.operation_id@, plan.risk_tier, ControlResultStatus::Failed),
        r.refusal == Some(failure),
        r.restore_attempted,
        restored_after_failure(r, *plan, old(backend).backend(), failure.reason_code, failure.message@, captured@,
            seq![BackendCall::Restore(captured@)]),
{
    let restore_outcome = backend.restore(captured.as_slice());
    failed_result_after_restore(plan, failure, captured, &restore_outcome)
}

/// What a failed verification of the applied state is reported as, given
/// the verification's outcome; `None` when the state verified.
pub fn verification_failure(outcome: &LabResult<bool>) -> (r: Option<Refusal>)
    ensures
        match outcome {
            Ok(true) => r is None,
            Ok(false) => r matches Some(f) && f.reason_code == RefusalCode::PolicyViolation
                && f.message@ == "applied state did not verify"@,
            Err(e) => r matches Some(f) && f.reason_code == RefusalCode::PolicyViolation
                && f.message@ == "failed to verify applied state: "@ + error_text(*e),
        },
{
    match outcome {
        Ok(true) => None,
        Ok(false) => Some(refusal_text(RefusalCode::PolicyViolation, "applied state did not verify")),
        Err(err) => {
            let text = err.message();
            Some(refusal(RefusalCode::PolicyViolation, concat("failed to verify applied state: ", text.as_str())))
        },
    }
}


/// A plan to set the cpufreq governor of a target within a run: tier 2,
/// approval and restore required, bounded by the given duration and
/// thermal abort threshold (thousandths of a degree).
pub fn new_cpufreq_plan(
    run: &crate::run::RunContext,
    target: &crate::target::TargetSpec,
    governor: String,
    duration_seconds_max: u64,
    thermal_millicelsius_abort: Option<i64>,
) -> (p: ControlPlan)
    ensures
        p.schema_version@ == "lab.control_plan.v1"@,
        exists|n: nat| p.plan_id@ == "PLAN-"@ + decimal(n),
        p.run_id@ == run.run_id@,
        p.target_id@ == target.target_id@,
        p.risk_tier == crate::contracts::RiskTier::Tier2PrivilegedReversible,
        p.approval_required,
        p.restore_required,
        p.operation.operation_id@ == CPUFREQ_SET_GOVERNOR@,
        p.operation.desired_state.governor@ == governor@,
        p.bounds.duration_seconds_max == duration_seconds_max,
        p.bounds.thermal_millicelsius_abort == thermal_millicelsius_abort,
        p.created_by.kind == crate::contracts::ActorKind::Agent,
        p.created_by.id@ == "codex"@,
{
    let plan_id = new_id("PLAN");
    proof {
        reveal_strlit("PLAN");
        reveal_strlit("-");
        reveal_strlit("PLAN-");
        assert("PLAN"@ + seq!['-'] =~= "PLAN-"@);
    }
    ControlPlan {
        schema_version: owned("lab.control_plan.v1"),
        plan_id,
        run_id: owned(run.run_id.as_str()),
        target_id: owned(target.target_id.as_str()),
        risk_tier: crate::contracts::RiskTier::Tier2PrivilegedReversible,
        approval_required: true,
        restore_required: true,
        operation: crate::contracts::ControlOperation {
            operation_id: owned(CPUFREQ_SET_GOVERNOR),
            desired_state: crate::contracts::CpufreqDesiredState { governor },
        },
        bounds: crate::contracts::OperationBounds { duration_seconds_max, thermal_millicelsius_abort },
        created_by: crate::contracts::Actor::codex(),
        time_unix_ms: now_unix_ms(),
    }
}

/// A cpufreq backend over the policy directories under a base directory of
/// the file system.
#[derive(Debug, Clone)]
pub struct LinuxCpufreqBackend {
    pub base: String,
}

impl LinuxCpufreqBackend {
    /// A backend over the given base directory.
    pub fn new(base: String) -> (b: Self)
        ensures
            b.base@ == base@,
    {
        LinuxCpufreqBackend { base }
    }

    /// The backend over `/sys/devices/system/cpu/cpufreq`.
    pub fn system() -> (b: Self)
        ensures
            b.base@ == "/sys/devices/system/cpu/cpufreq"@,
    {
        LinuxCpufreqBackend { base: owned("/sys/devices/system/cpu/cpufreq") }
    }
}

/// Every policy runs `governor`.
pub fn all_run_governor(states: &Vec<CpufreqPolicyState>, governor: &str) -> (r: bool)
    ensures
        r == forall|i: int| 0 <= i < states@.len() ==> (#[trigger] states@[i]).governor@ == governor@,
{
    let mut i: usize = 0;
    while i < states.len()
        invariant
            i <= states@.len(),
            forall|k: int| 0 <= k < i ==> (#[trigger] states@[k]).governor@ == governor@,
        decreases states.len() - i,
    {
        if !str_eq(states[i].governor.as_str(), governor) {
            return false;
        }
        i = i + 1;
    }
    true
}

/// The state of one policy from the texts read from its directory: the
/// governor and frequencies trimmed, a frequency file that does not exist
/// absent.
pub fn policy_state(policy: String, governor_text: &str, min_text: Option<&str>, max_text: Option<&str>)
    -> (s: CpufreqPolicyState)
    ensures
        s.policy@ == policy@,
        s.governor@ == crate::run_validation::trim(governor_text@),
        match min_text { Some(t) => s.scaling_min_freq matches Some(v) && v@ == crate::run_validation::trim(t@), None => s.scaling_min_freq is None },
        match max_text { Some(t) => s.scaling_max_freq matches Some(v) && v@ == crate::run_validation::trim(t@), None => s.scaling_max_freq is None },
{
    CpufreqPolicyState {
        policy,
        governor: crate::run_validation::trim_str(governor_text),
        scaling_min_freq: match min_text { Some(t) => Some(crate::run_validation::trim_str(t)), None => None },
        scaling_max_freq: match max_text { Some(t) => Some(crate::run_validation::trim_str(t)), None => None },
    }
}

/// The names that start with `policy`, in order.
pub open spec fn policy_names(names: Seq<Seq<char>>) -> Seq<Seq<char>>
    decreases names.len(),
{
    if names.len() == 0 {
        Seq::empty()
    } else {
        let prev = policy_names(names.drop_last());
        if crate::text::is_prefix("policy"@, names.last()) { prev.push(names.last()) } else { prev }
    }
}

/// A name is among the policy names exactly when it is among the names
/// and starts with `policy`.
pub proof fn lemma_policy_names(names: Seq<Seq<char>>, s: Seq<char>)
    ensures
        policy_names(names).contains(s) <==> (names.contains(s) && crate::text::is_prefix("policy"@, s)),
    decreases names.len(),
{
    if names.len() > 0 {
        let init = names.drop_last();
        let last = names.last();
        lemma_policy_names(init, s);
        let prev = policy_names(init);
        let p = policy_names(names);
        let pushed = crate::text::is_prefix("policy"@, last);
        assert(names =~= init.push(last));
        if names.contains(s) && crate::text::is_prefix("policy"@, s) {
            let k = choose|k: int| 0 <= k < names.len() && #[trigger] names[k] == s;
            if k < names.len() - 1 {
                assert(init[k] == s);
                assert(init.contains(s));
                let j = choose|j: int| 0 <= j < prev.len() && #[trigger] prev[j] == s;
                if pushed { assert(p[j] == s); } else { assert(p[j] == s); }
            } else {
                assert(last == s);
                assert(p == prev.push(last));
                assert(p[p.len() - 1] == s);
            }
        }
        if p.contains(s) {
            let k = choose|k: int| 0 <= k < p.len() && #[trigger] p[k] == s;
            if pushed {
                assert(p == prev.push(last));
                if k < prev.len() {
                    assert(prev[k] == s);
                    let j = choose|j: int| 0 <= j < init.len() && #[trigger] init[j] == s;
                    assert(names[j] == s);
                } else {
                    assert(last == s);
                    assert(names[names.len() - 1] == s);
                }
            } else {
                assert(p == prev);
                assert(prev[k] == s);
                let j = choose|j: int| 0 <= j < init.len() && #[trigger] init[j] == s;
                assert(names[j] == s);
            }
        }
    }
}

/// The policy directories of a cpufreq base directory, from the names of
/// its entries: those whose names start with `policy`, sorted; refused
/// when there are none.
pub fn policy_dirs(entry_names: Vec<String>) -> (r: LabResult<Vec<String>>)
    ensures
        match r {
            Ok(found) => found@.len() > 0 && crate::text::strictly_sorted(crate::text::views(found@))
                && forall|s: Seq<char>| crate::text::views(found@).contains(s)
                    <==> policy_names(crate::text::views(entry_names@)).contains(s),
            Err(e) => (forall|s: Seq<char>| crate::text::views(entry_names@).contains(s) ==> !crate::text::is_prefix("policy"@, s))
                && (e matches LabError::MissingSurface(m) && m@ == "cpufreq policy directory"@),
        },
{
    let mut dirs: Vec<String> = Vec::new();
    let mut i: usize = 0;
    while i < entry_names.len()
        invariant
            i <= entry_names@.len(),
            dirs@.len() == crate::text::views(dirs@).len(),
            crate::text::views(dirs@) == policy_names(crate::text::views(entry_names@).take(i as int)),
        decreases entry_names.len() - i,
    {
        let ghost prev = dirs@;
        proof {
            let names = crate::text::views(entry_names@);
            assert(names.take(i + 1).drop_last() =~= names.take(i as int));
            assert(names.take(i + 1).last() == names[i as int]);
        }
        if crate::text::starts_with(entry_names[i].as_str(), "policy") {
            dirs.push(owned(entry_names[i].as_str()));
            proof {
                assert(dirs@ == prev.push(dirs@.last()));
                assert(crate::text::views(dirs@) =~= crate::text::views(prev).push(entry_names@[i as int]@));
            }
        }
        i = i + 1;
    }
    proof {
        assert(crate::text::views(entry_names@).take(entry_names@.len() as int) =~= crate::text::views(entry_names@));
        assert forall|s: Seq<char>| crate::text::views(dirs@).contains(s)
            <==> (crate::text::views(entry_names@).contains(s) && crate::text::is_prefix("policy"@, s)) by {
            lemma_policy_names(crate::text::views(entry_names@), s);
        }
    }
    if dirs.len() == 0 {
        proof {
            assert forall|s: Seq<char>| crate::text::views(entry_names@).contains(s) implies !crate::text::is_prefix("policy"@, s) by {
                if crate::text::is_prefix("policy"@, s) {
                    assert(crate::text::views(dirs@).contains(s));
                }
            }
        }
        return Err(LabError::MissingSurface(owned("cpufreq policy directory")));
    }
    let ghost first = crate::text::views(dirs@)[0];
    let ghost before = crate::text::views(dirs@);
    proof {
        assert(before == policy_names(crate::text::views(entry_names@)));
        assert(crate::text::views(dirs@).contains(first));
    }
    let sorted = crate::text::sorted_unique(dirs);
    proof {
        assert(crate::text::views(sorted@).contains(first));

    }
    Ok(sorted)
}

/// The result of an apply whose pre-state read failed with `e`.
pub open spec fn capture_failed_form(r: ControlResult, plan: ControlPlan, e: LabError) -> bool {
    &&& result_header(r, plan.plan_id@, plan.target_id@, plan.operation.operation_id@, plan.risk_tier, ControlResultStatus::Refused)
    &&& r.refusal matches Some(f) && f.reason_code == RefusalCode::MissingSurface
        && f.message@ == "failed to capture pre-state: "@ + error_text(e)
    &&& r.restore_lease is None
    &&& !r.restore_attempted
    &&& r.restore_result is None
}

/// The result of an apply that set and verified the governor over the
/// captured `states`.
pub open spec fn applied_form(r: ControlResult, plan: ControlPlan, states: Seq<CpufreqPolicyState>) -> bool {
    &&& result_header(r, plan.plan_id@, plan.target_id@, plan.operation.operation_id@, plan.risk_tier, ControlResultStatus::Applied)
    &&& r.refusal is None
    &&& r.restore_lease matches Some(l) && lease_for_plan(l, plan, states, RestoreStatus::Pending)
    &&& !r.restore_attempted
    &&& r.restore_result is None
}

/// The result of an apply that failed with `code` and `message` after
/// `states` were captured, the restore of `states` having given `restored`.
pub open spec fn failed_after_restore_form(
    r: ControlResult,
    plan: ControlPlan,
    code: RefusalCode,
    message: Seq<char>,
    states: Seq<CpufreqPolicyState>,
    restored: LabResult<()>,
) -> bool {
    &&& result_header(r, plan.plan_id@, plan.target_id@, plan.operation.operation_id@, plan.risk_tier, ControlResultStatus::Failed)
    &&& r.refusal matches Some(f) && f.reason_code == code && f.message@ == message
    &&& r.restore_attempted
    &&& match restored {
        Ok(()) => {
            &&& r.restore_lease matches Some(l) && lease_for_plan(l, plan, states, RestoreStatus::Restored)
            &&& r.restore_result matches Some(a) && a.status == RestoreAttemptStatus::Succeeded
                && a.message@ == "restore attempted after apply failure and succeeded"@
        },
        Err(e) => {
            &&& r.restore_lease matches Some(l) && lease_for_plan(l, plan, states, RestoreStatus::Failed)
            &&& r.restore_result matches Some(a) && a.status == RestoreAttemptStatus::Failed
                && a.message@ == "restore attempted after apply failure and failed: "@ + error_text(e)
        },
    }
}

/// A failure of the apply with `code` and `message` after `states` were
/// captured: the calls that follow are one restore of `states`, and the
/// result follows what it gave.
pub open spec fn restored_after_failure<B: CpufreqBackend>(
    r: ControlResult,
    plan: ControlPlan,
    backend: B,
    code: RefusalCode,
    message: Seq<char>,
    states: Seq<CpufreqPolicyState>,
    calls: Seq<BackendCall>,
) -> bool {
    &&& calls == seq![BackendCall::Restore(states)]
    &&& exists|rr: LabResult<()>| #[trigger] backend.restore_gives(states, rr)
        && failed_after_restore_form(r, plan, code, message, states, rr)
}

/// What a verification outcome is reported as: none when the state
/// verified, else the refusal's code and message.
pub open spec fn verification_failure_spec(outcome: LabResult<bool>) -> Option<(RefusalCode, Seq<char>)> {
    match outcome {
        Ok(true) => None,
        Ok(false) => Some((RefusalCode::PolicyViolation, "applied state did not verify"@)),
        Err(e) => Some((RefusalCode::PolicyViolation, "failed to verify applied state: "@ + error_text(e))),
    }
}

/// After the governor was verified with outcome `vr` over captured
/// `states`, with `calls` the calls made after the verification.
pub open spec fn after_verify<B: CpufreqBackend>(
    r: ControlResult,
    plan: ControlPlan,
    backend: B,
    states: Seq<CpufreqPolicyState>,
    vr: LabResult<bool>,
    calls: Seq<BackendCall>,
) -> bool {
    match verification_failure_spec(vr) {
        Some((code, message)) => restored_after_failure(r, plan, backend, code, message, states, calls),
        None => applied_form(r, plan, states) && calls.len() == 0,
    }
}

/// After the plan's governor was applied with outcome `ar` over captured
/// `states`, with `calls` the calls made after it: on failure the states
/// are restored; else the plan's governor is verified, and the result
/// follows the verification.
pub open spec fn after_apply<B: CpufreqBackend>(
    r: ControlResult,
    plan: ControlPlan,
    backend: B,
    states: Seq<CpufreqPolicyState>,
    ar: LabResult<()>,
    calls: Seq<BackendCall>,
) -> bool {
    match ar {
        Err(e) => restored_after_failure(r, plan, backend, RefusalCode::PolicyViolation,
            "failed to apply governor: "@ + error_text(e), states, calls),
        Ok(()) => {
            &&& calls.len() > 0
            &&& calls[0] == BackendCall::VerifyGovernor(plan.operation.desired_state.governor@)
            &&& exists|vr: LabResult<bool>| #[trigger] backend.verify_gives(plan.operation.desired_state.governor@, vr)
                && after_verify(r, plan, backend, states, vr, calls.drop_first())
        },
    }
}

/// After the pre-state was read with outcome `cr`, with `calls` the calls
/// made after the read: a failed read is refused as a missing surface with
/// no further call; else the plan's governor is handed to the backend, and
/// the result follows what it gave.
pub open spec fn after_capture<B: CpufreqBackend>(
    r: ControlResult,
    plan: ControlPlan,
    backend: B,
    cr: LabResult<Vec<CpufreqPolicyState>>,
    calls: Seq<BackendCall>,
) -> bool {
    match cr {
        Err(e) => capture_failed_form(r, plan, e) && calls.len() == 0,
        Ok(states) => {
            &&& calls.len() > 0
            &&& calls[0] == BackendCall::ApplyGovernor(plan.operation.desired_state.governor@)
            &&& exists|ar: LabResult<()>| #[trigger] backend.apply_gives(plan.operation.desired_state.governor@, ar)
                && after_apply(r, plan, backend, states@, ar, calls.drop_first())
        },
    }
}

/// The calls an accepted apply makes, and its result: the pre-state is
/// read first, and the rest follows what the read gave.
pub open spec fn apply_calls<B: CpufreqBackend>(r: ControlResult, plan: ControlPlan, backend: B, calls: Seq<BackendCall>) -> bool {
    &&& calls.len() > 0
    &&& calls[0] == BackendCall::Capture
    &&& exists|cr: LabResult<Vec<CpufreqPolicyState>>| #[trigger] backend.capture_gives(cr)
        && after_capture(r, plan, backend, cr, calls.drop_first())
}

/// The calls made through `backend` since `before`: its record goes on from
/// `before`.
pub open spec fn calls_since(before: Seq<BackendCall>, after: Seq<BackendCall>) -> Seq<BackendCall> {
    after.subrange(before.len() as int, after.len() as int)
}

/// The record `after` extends the record `before`.
pub open spec fn extends(before: Seq<BackendCall>, after: Seq<BackendCall>) -> bool {
    &&& before.len() <= after.len()
    &&& forall|i: int| 0 <= i < before.len() ==> after[i] == before[i]
}

/// Applies a governor plan: refused unless the plan is valid, for the
/// local target and covered by its approval; in a dry run nothing is
/// changed; otherwise the pre-state is captured, the governor applied and
/// verified, and on failure the pre-state is restored.  `plan_json` is the
/// plan's canonical JSON.
pub fn apply_control_plan<B: CpufreqBackend>(
    plan: &ControlPlan,
    approval: Option<&ApprovalRecord>,
    plan_json: &[u8],
    backend: &mut RecordedBackend<B>,
    dry_run: bool,
) -> (r: ControlResult)
    ensures
        final(backend).backend() == old(backend).backend(),
        extends(old(backend).calls(), final(backend).calls()),
        r.plan_id@ == plan.plan_id@,
        r.target_id@ == plan.target_id@,
        r.operation_id@ == plan.operation.operation_id@,
        r.risk_tier == plan.risk_tier,
        match apply_refusal(*plan, approval, sha256_text(plan_json@)) {
            Some((code, message)) => {
                &&& result_header(r, plan.plan_id@, plan.target_id@, plan.operation.operation_id@, plan.risk_tier, ControlResultStatus::Refused)
                &&& r.refusal matches Some(f) && f.reason_code == code && f.message@ == message
                &&& r.restore_lease is None
                &&& !r.restore_attempted
                &&& final(backend).calls() == old(backend).calls()
            },
            None => if dry_run {
                &&& result_header(r, plan.plan_id@, plan.target_id@, plan.operation.operation_id@, plan.risk_tier, ControlResultStatus::DryRunOk)
                &&& r.refusal is None
                &&& r.restore_lease is None
                &&& final(backend).calls() == old(backend).calls()
            } else {
                apply_calls(r, *plan, old(backend).backend(), calls_since(old(backend).calls(), final(backend).calls()))
            },
        },
{
    match validate_control_plan(plan) {
        Err(f) => return refused_result(plan, f),
        Ok(()) => {},
    }
    if !str_eq(plan.target_id.as_str(), LOCAL_TARGET_ID) {
        return refused_result(plan, target_local_helper_refusal(plan.target_id.as_str()));
    }
    if plan.approval_required {
        match approval {
            None => {
                return refused_result(
                    plan,
                    refusal_text(RefusalCode::ApprovalRequired, "tier2 operation requires approval artifact"),
                );
            },
            Some(a) => match approval_matches(plan, a, plan_json) {
                Err(f) => return refused_result(plan, f),
                Ok(()) => {},
            },
        }
    }
    if dry_run {
        return dry_run_ok_result(plan);
    }
    let ghost start = backend.calls();
    let ghost b = backend.backend();
    let read = backend.capture();
    let ghost after_read = backend.calls();
    let captured = match read {
        Ok(states) => states,
        Err(err) => {
            let r = capture_failed_result(plan, &err);
            proof {
                assert(calls_since(start, backend.calls()) =~= seq![BackendCall::Capture]);
                assert(calls_since(start, backend.calls()).drop_first() =~= Seq::<BackendCall>::empty());
                assert(after_capture(r, *plan, b, read, calls_since(start, backend.calls()).drop_first()));
                assert(extends(start, backend.calls()));
            }
            return r;
        },
    };
    let ghost states = captured@;
    let applied = backend.apply_governor(plan.operation.desired_state.governor.as_str());
    let ghost after_apply_call = backend.calls();
    match applied {
        Err(err) => {
            let text = err.message();
            let failure = refusal(RefusalCode::PolicyViolation, concat("failed to apply governor: ", text.as_str()));
            let r = failed_result_with_restore_attempt(plan, failure, captured, backend);
            proof {
                let tail = calls_since(start, backend.calls());
                assert(tail =~= seq![BackendCall::Capture, BackendCall::ApplyGovernor(plan.operation.desired_state.governor@),
                    BackendCall::Restore(states)]);
                assert(tail.drop_first().drop_first() =~= seq![BackendCall::Restore(states)]);
                assert(after_apply(r, *plan, b, states, applied, tail.drop_first().drop_first()));
                assert(after_capture(r, *plan, b, read, tail.drop_first()));
                assert(extends(start, backend.calls()));
            }
            return r;
        },
        Ok(()) => {},
    }
    let verified = backend.verify_governor(plan.operation.desired_state.governor.as_str());
    let r = match verification_failure(&verified) {
        Some(failure) => {
            failed_result_with_restore_attempt(plan, failure, captured, backend)
        },
        None => applied_result(plan, captured),
    };
    proof {
        let tail = calls_since(start, backend.calls());
        let g = plan.operation.desired_state.governor@;
        match verification_failure_spec(verified) {
            Some(_) => {
                assert(tail =~= seq![BackendCall::Capture, BackendCall::ApplyGovernor(g),
                    BackendCall::VerifyGovernor(g), BackendCall::Restore(states)]);
                assert(tail.drop_first().drop_first().drop_first() =~= seq![BackendCall::Restore(states)]);
            },
            None => {
                assert(tail =~= seq![BackendCall::Capture, BackendCall::ApplyGovernor(g), BackendCall::VerifyGovernor(g)]);
                assert(tail.drop_first().drop_first().drop_first() =~= Seq::<BackendCall>::empty());
            },
        }
        assert(after_verify(r, *plan, b, states, verified, tail.drop_first().drop_first().drop_first()));
        assert(after_apply(r, *plan, b, states, applied, tail.drop_first().drop_first()));
        assert(after_capture(r, *plan, b, read, tail.drop_first()));
        assert(extends(start, backend.calls()));
    }
    r
}

} // verus!

verus! {

/// A decimal digit of ASCII.
pub open spec fn is_ascii_digit(c: char) -> bool {
    '0' as int <= c as int <= '9' as int
}

/// Every character is an ASCII digit.
pub open spec fn all_ascii_digits(s: Seq<char>) -> bool {
    forall|i: int| 0 <= i < s.len() ==> is_ascii_digit(s[i])
}

/// A policy directory name: `policy` followed by one or more digits.
pub open spec fn policy_segment_ok(p: Seq<char>) -> bool {
    &&& crate::text::is_prefix("policy"@, p)
    &&& p.len() > "policy"@.len()
    &&& all_ascii_digits(p.subrange("policy"@.len() as int, p.len() as int))
}

/// A recorded frequency that is present but not a decimal number.
pub open spec fn frequency_malformed(value: Option<String>) -> bool {
    match value {
        Some(v) => v@.len() == 0 || !all_ascii_digits(v@),
        None => false,
    }
}

/// The reason a captured policy state cannot be restored, if any.
pub open spec fn policy_state_refusal(state: CpufreqPolicyState) -> Option<(RefusalCode, Seq<char>)> {
    if !policy_segment_ok(state.policy@) {
        Some((RefusalCode::PolicyViolation, "restore lease policy must match policy[0-9]+"@))
    } else if !allowed_governor(state.governor@) {
        Some((RefusalCode::PolicyViolation, "restore lease governor is not in the allowlist"@))
    } else if frequency_malformed(state.scaling_min_freq) {
        Some((RefusalCode::PolicyViolation, "restore lease scaling_min_freq must be numeric"@))
    } else if frequency_malformed(state.scaling_max_freq) {
        Some((RefusalCode::PolicyViolation, "restore lease scaling_max_freq must be numeric"@))
    } else {
        None
    }
}

/// The refusal of the first captured policy state that cannot be restored.
pub open spec fn states_refusal(states: Seq<CpufreqPolicyState>) -> Option<(RefusalCode, Seq<char>)>
    decreases states.len(),
{
    if states.len() == 0 {
        None
    } else {
        match states_refusal(states.drop_last()) {
            Some(r) => Some(r),
            None => policy_state_refusal(states.last()),
        }
    }
}

/// The reason a restore lease is refused, if any.
pub open spec fn lease_refusal(lease: RestoreLease) -> Option<(RefusalCode, Seq<char>)> {
    if lease.schema_version@ != RESTORE_LEASE_SCHEMA@ {
        Some((RefusalCode::InvalidPlan, "restore lease schema_version must be lab.restore_lease.v1"@))
    } else if lease.operation_id@ != CPUFREQ_SET_GOVERNOR@ {
        Some((RefusalCode::UnsupportedOperation, "restore lease operation is not allowlisted"@))
    } else if !lease.restore_required {
        Some((RefusalCode::InvalidPlan, "restore lease must require restore"@))
    } else if !allowed_governor(lease.applied_state.governor@) {
        Some((RefusalCode::PolicyViolation, "restore lease applied governor is not in the allowlist"@))
    } else if lease.captured_state.cpufreq_policies@.len() == 0 {
        Some((RefusalCode::MissingSurface, "restore lease has no captured cpufreq policy state"@))
    } else {
        states_refusal(lease.captured_state.cpufreq_policies@)
    }
}

fn all_digits_from(s: &str, start: usize) -> (r: bool)
    requires
        start <= s@.len(),
    ensures
        r == all_ascii_digits(s@.subrange(start as int, s@.len() as int)),
{
    let n = s.unicode_len();
    let mut i: usize = start;
    while i < n
        invariant
            n == s@.len(),
            start <= i <= n,
            forall|k: int| start <= k < i ==> is_ascii_digit(s@[k]),
        decreases n - i,
    {
        let c = s.get_char(i);
        if !('0' <= c && c <= '9') {
            assert(!is_ascii_digit(s@.subrange(start as int, n as int)[i - start]));
            return false;
        }
        i = i + 1;
    }
    true
}

/// Checks that a policy directory name is `policy` and digits.
pub fn validate_policy_segment(policy: &str) -> (r: Result<(), Refusal>)
    ensures
        r is Ok <==> policy_segment_ok(policy@),
        r matches Err(f) ==> f.reason_code == RefusalCode::PolicyViolation
            && f.message@ == "restore lease policy must match policy[0-9]+"@,
{
    proof {
        reveal_strlit("policy");
    }
    if !crate::text::starts_with(policy, "policy") || policy.unicode_len() <= 6 || !all_digits_from(policy, 6) {
        return Err(refusal_text(RefusalCode::PolicyViolation, "restore lease policy must match policy[0-9]+"));
    }
    Ok(())
}

/// Checks that a captured governor is in the allowlist.
pub fn validate_governor_value(governor: &str) -> (r: Result<(), Refusal>)
    ensures
        r is Ok <==> allowed_governor(governor@),
        r matches Err(f) ==> f.reason_code == RefusalCode::PolicyViolation
            && f.message@ == "restore lease governor is not in the allowlist"@,
{
    if is_allowed_governor(governor) {
        Ok(())
    } else {
        Err(refusal_text(RefusalCode::PolicyViolation, "restore lease governor is not in the allowlist"))
    }
}

/// Checks that a recorded frequency, when present, is a decimal number.
pub fn validate_optional_frequency(label: &str, value: &Option<String>) -> (r: Result<(), Refusal>)
    ensures
        r is Ok <==> !frequency_malformed(*value),
        r matches Err(f) ==> f.reason_code == RefusalCode::PolicyViolation
            && f.message@ == "restore lease "@ + label@ + " must be numeric"@,
{
    match value {
        Some(v) => {
            if v.unicode_len() == 0 || !all_digits_from(v.as_str(), 0) {
                proof {
                    assert(v@.subrange(0, v@.len() as int) =~= v@);
                }
                let head = concat("restore lease ", label);
                return Err(refusal(RefusalCode::PolicyViolation, concat(head.as_str(), " must be numeric")));
            }
            proof {
                assert(v@.subrange(0, v@.len() as int) =~= v@);
            }
            Ok(())
        },
        None => Ok(()),
    }
}

fn validate_policy_state(state: &CpufreqPolicyState) -> (r: Result<(), Refusal>)
    ensures
        refusal_outcome(r, policy_state_refusal(*state)),
{
    match validate_policy_segment(state.policy.as_str()) {
        Err(f) => return Err(f),
        Ok(()) => {},
    }
    match validate_governor_value(state.governor.as_str()) {
        Err(f) => return Err(f),
        Ok(()) => {},
    }
    proof {
        reveal_strlit("scaling_min_freq");
        reveal_strlit("scaling_max_freq");
        reveal_strlit("restore lease ");
        reveal_strlit(" must be numeric");
        reveal_strlit("restore lease scaling_min_freq must be numeric");
        reveal_strlit("restore lease scaling_max_freq must be numeric");
    }
    match validate_optional_frequency("scaling_min_freq", &state.scaling_min_freq) {
        Err(f) => {
            assert(f.message@ =~= "restore lease scaling_min_freq must be numeric"@);
            return Err(f);
        },
        Ok(()) => {},
    }
    match validate_optional_frequency("scaling_max_freq", &state.scaling_max_freq) {
        Err(f) => {
            assert(f.message@ =~= "restore lease scaling_max_freq must be numeric"@);
            return Err(f);
        },
        Ok(()) => {},
    }
    Ok(())
}

/// Checks that a restore lease may be restored: the lease schema, the
/// allowlisted operation and governor, restore required, and captured
/// policy states that name policy directories, allowlisted governors and
/// numeric frequencies.
pub fn validate_restore_lease(lease: &RestoreLease) -> (r: Result<(), Refusal>)
    ensures
        refusal_outcome(r, lease_refusal(*lease)),
{
    if !str_eq(lease.schema_version.as_str(), RESTORE_LEASE_SCHEMA) {
        return Err(refusal_text(RefusalCode::InvalidPlan, "restore lease schema_version must be lab.restore_lease.v1"));
    }
    if !str_eq(lease.operation_id.as_str(), CPUFREQ_SET_GOVERNOR) {
        return Err(refusal_text(RefusalCode::UnsupportedOperation, "restore lease operation is not allowlisted"));
    }
    if !lease.restore_required {
        return Err(refusal_text(RefusalCode::InvalidPlan, "restore lease must require restore"));
    }
    if !is_allowed_governor(lease.applied_state.governor.as_str()) {
        return Err(refusal_text(RefusalCode::PolicyViolation, "restore lease applied governor is not in the allowlist"));
    }
    let states = &lease.captured_state.cpufreq_policies;
    if states.len() == 0 {
        return Err(refusal_text(RefusalCode::MissingSurface, "restore lease has no captured cpufreq policy state"));
    }
    let mut i: usize = 0;
    while i < states.len()
        invariant
            i <= states@.len(),
            states@ == lease.captured_state.cpufreq_policies@,
            lease_refusal(*lease) == states_refusal(states@),
            states_refusal(states@.subrange(0, i as int)) is None,
        decreases states.len() - i,
    {
        proof {
            assert(states@.subrange(0, i + 1).drop_last() =~= states@.subrange(0, i as int));
        }
        match validate_policy_state(&states[i]) {
            Err(f) => {
                assert(states_refusal(states@.subrange(0, i + 1)) == Some((f.reason_code, f.message@)));
                proof {
                    lemma_states_refusal_prefix(states@, i as int + 1);
                }
                return Err(f);
            },
            Ok(()) => {},
        }
        i = i + 1;
    }
    proof {
        assert(states@.subrange(0, states@.len() as int) =~= states@);
    }
    Ok(())
}

/// The first refusal among the states is the first refusal of any prefix
/// that has one.
pub proof fn lemma_states_refusal_prefix(states: Seq<CpufreqPolicyState>, n: int)
    requires
        0 <= n <= states.len(),
        states_refusal(states.subrange(0, n)) is Some,
    ensures
        states_refusal(states) == states_refusal(states.subrange(0, n)),
    decreases states.len() - n,
{
    if n < states.len() {
        assert(states.subrange(0, n + 1).drop_last() =~= states.subrange(0, n));
        lemma_states_refusal_prefix(states, n + 1);
    } else {
        assert(states.subrange(0, n) =~= states);
    }
}

} // verus!

verus! {

/// The first captured state of the policy, searching from the front.
pub open spec fn find_policy(states: Seq<CpufreqPolicyState>, policy: Seq<char>) -> Option<CpufreqPolicyState>
    decreases states.len(),
{
    if states.len() == 0 {
        None
    } else if states[0].policy@ == policy {
        Some(states[0])
    } else {
        find_policy(states.drop_first(), policy)
    }
}

/// Why one expected policy state was not read back, if it was not.
pub open spec fn readback_mismatch(expected: CpufreqPolicyState, current: Seq<CpufreqPolicyState>) -> Option<Seq<char>> {
    match find_policy(current, expected.policy@) {
        None => Some("restored policy "@ + expected.policy@ + " was not found during verification"@),
        Some(actual) => if actual.governor@ != expected.governor@ {
            Some("restored policy "@ + expected.policy@ + " governor mismatch: expected "@ + expected.governor@
                + ", got "@ + actual.governor@)
        } else {
            None
        },
    }
}

/// Why the read-back state does not match what was restored: the first
/// expected policy that is missing or has another governor.
pub open spec fn restore_mismatch(expected: Seq<CpufreqPolicyState>, current: Seq<CpufreqPolicyState>) -> Option<Seq<char>>
    decreases expected.len(),
{
    if expected.len() == 0 {
        None
    } else {
        match restore_mismatch(expected.drop_last(), current) {
            Some(m) => Some(m),
            None => readback_mismatch(expected.last(), current),
        }
    }
}

fn find_policy_state<'a>(current: &'a Vec<CpufreqPolicyState>, policy: &str) -> (found: Option<&'a CpufreqPolicyState>)
    ensures
        match find_policy(current@, policy@) {
            None => found is None,
            Some(s) => found matches Some(f) && *f == s,
        },
{
    assert(current@.subrange(0, current@.len() as int) =~= current@);
    let mut i: usize = 0;
    while i < current.len()
        invariant
            i <= current@.len(),
            find_policy(current@, policy@) == find_policy(current@.subrange(i as int, current@.len() as int), policy@),
        decreases current.len() - i,
    {
        let ghost rest = current@.subrange(i as int, current@.len() as int);
        assert(rest[0] == current@[i as int]);
        if str_eq(current[i].policy.as_str(), policy) {
            return Some(&current[i]);
        }
        assert(rest.drop_first() =~= current@.subrange(i + 1, current@.len() as int));
        i = i + 1;
    }
    None
}

/// Compares the policies read back after a restore with the captured ones.
pub fn check_restored(expected: &Vec<CpufreqPolicyState>, current: &Vec<CpufreqPolicyState>) -> (r: LabResult<()>)
    ensures
        match restore_mismatch(expected@, current@) {
            None => r is Ok,
            Some(m) => r matches Err(e) && e == LabError::Policy(e->Policy_0) && e->Policy_0@ == m,
        },
{
    proof {
        assert(current@.subrange(0, current@.len() as int) =~= current@);
    }
    let mut i: usize = 0;
    while i < expected.len()
        invariant
            i <= expected@.len(),
            restore_mismatch(expected@.subrange(0, i as int), current@) is None,
        decreases expected.len() - i,
    {
        proof {
            assert(expected@.subrange(0, i + 1).drop_last() =~= expected@.subrange(0, i as int));
        }
        let want = &expected[i];
        match find_policy_state(current, want.policy.as_str()) {
            None => {
                let a = concat("restored policy ", want.policy.as_str());
                let m = concat(a.as_str(), " was not found during verification");
                proof {
                    lemma_restore_mismatch_prefix(expected@, current@, i as int + 1);
                }
                return Err(LabError::Policy(m));
            },
            Some(actual) => {
                if !str_eq(actual.governor.as_str(), want.governor.as_str()) {
                    let a = concat("restored policy ", want.policy.as_str());
                    let b = concat(a.as_str(), " governor mismatch: expected ");
                    let c = concat(b.as_str(), want.governor.as_str());
                    let d = concat(c.as_str(), ", got ");
                    let m = concat(d.as_str(), actual.governor.as_str());
                    proof {
                        lemma_restore_mismatch_prefix(expected@, current@, i as int + 1);
                    }
                    return Err(LabError::Policy(m));
                }
            },
        }
        i = i + 1;
    }
    proof {
        assert(expected@.subrange(0, expected@.len() as int) =~= expected@);
    }
    Ok(())
}

/// The first mismatch among the expected states is the first mismatch of
/// any prefix that has one.
pub proof fn lemma_restore_mismatch_prefix(expected: Seq<CpufreqPolicyState>, current: Seq<CpufreqPolicyState>, n: int)
    requires
        0 <= n <= expected.len(),
        restore_mismatch(expected.subrange(0, n), current) is Some,
    ensures
        restore_mismatch(expected, current) == restore_mismatch(expected.subrange(0, n), current),
    decreases expected.len() - n,
{
    if n < expected.len() {
        assert(expected.subrange(0, n + 1).drop_last() =~= expected.subrange(0, n));
        lemma_restore_mismatch_prefix(expected, current, n + 1);
    } else {
        assert(expected.subrange(0, n) =~= expected);
    }
}

/// Reads the policies back and compares them with the lease's captured
/// state.
fn verify_restored_state<B: CpufreqBackend>(lease: &RestoreLease, backend: &mut RecordedBackend<B>) -> (r: LabResult<()>)
    ensures
        final(backend).backend() == old(backend).backend(),
        final(backend).calls() == old(backend).calls().push(BackendCall::Capture),
        exists|cr: LabResult<Vec<CpufreqPolicyState>>| #[trigger] old(backend).backend().capture_gives(cr)
            && read_back_outcome(r, lease.captured_state.cpufreq_policies@, cr),
{
    let read = backend.capture();
    match read {
        Err(e) => Err(e),
        Ok(current) => check_restored(&lease.captured_state.cpufreq_policies, &current),
    }
}

/// What reading the policies back (with outcome `cr`) makes of a restore of
/// `expected`: the read's error, a mismatch as a policy error, or success.
pub open spec fn read_back_outcome(
    r: LabResult<()>,
    expected: Seq<CpufreqPolicyState>,
    cr: LabResult<Vec<CpufreqPolicyState>>,
) -> bool {
    match cr {
        Err(e) => r == Err::<(), LabError>(e),
        Ok(current) => match restore_mismatch(expected, current@) {
            None => r is Ok,
            Some(m) => r matches Err(LabError::Policy(p)) && p@ == m,
        },
    }
}

/// The result of a restore that was attempted and failed with `message`.
pub open spec fn restore_failed_form(r: ControlResult, lease: RestoreLease, message: Seq<char>) -> bool {
    &&& lease_result_header(r, lease, ControlResultStatus::Failed)
    &&& r.refusal matches Some(f) && f.reason_code == RefusalCode::PolicyViolation && f.message@ == message
    &&& r.restore_lease matches Some(l) && crate::contracts::same_lease(l, (RestoreLease { restore_status: RestoreStatus::Failed, ..lease }))
    &&& r.restore_attempted
    &&& r.restore_result matches Some(a) && a.status == RestoreAttemptStatus::Failed && a.message@ == message
}

/// The result of a restore that wrote the captured state and read it back.
pub open spec fn restored_form(r: ControlResult, lease: RestoreLease) -> bool {
    &&& lease_result_header(r, lease, ControlResultStatus::Restored)
    &&& r.refusal is None
    &&& r.restore_lease matches Some(l) && crate::contracts::same_lease(l, (RestoreLease { restore_status: RestoreStatus::Restored, ..lease }))
    &&& r.restore_attempted
    &&& r.restore_result matches Some(a) && a.status == RestoreAttemptStatus::Succeeded
        && a.message@ == "restore command completed and verified"@
}

/// After the lease's captured state was read back with outcome `cr`.
pub open spec fn after_read_back(r: ControlResult, lease: RestoreLease, cr: LabResult<Vec<CpufreqPolicyState>>) -> bool {
    match cr {
        Err(e) => restore_failed_form(r, lease, "restore verification failed: "@ + error_text(e)),
        Ok(current) => match restore_mismatch(lease.captured_state.cpufreq_policies@, current@) {
            None => restored_form(r, lease),
            Some(m) => restore_failed_form(r, lease, "restore verification failed: policy refused operation: "@ + m),
        },
    }
}

/// After the lease's captured state was handed to the backend's restore
/// with outcome `rr`: a failed write fails the restore; else the policies
/// are read back and compared with the captured ones.
pub open spec fn after_restore_write<B: CpufreqBackend>(
    r: ControlResult,
    lease: RestoreLease,
    backend: B,
    rr: LabResult<()>,
    calls: Seq<BackendCall>,
) -> bool {
    match rr {
        Err(e) => restore_failed_form(r, lease, "restore failed: "@ + error_text(e)) && calls.len() == 0,
        Ok(()) => {
            &&& calls == seq![BackendCall::Capture]
            &&& exists|cr: LabResult<Vec<CpufreqPolicyState>>| #[trigger] backend.capture_gives(cr)
                && after_read_back(r, lease, cr)
        },
    }
}

/// The calls an accepted restore makes, and its result: the lease's
/// captured state is written back first, and the rest follows what the
/// write gave.
pub open spec fn restore_calls<B: CpufreqBackend>(r: ControlResult, lease: RestoreLease, backend: B, calls: Seq<BackendCall>) -> bool {
    &&& calls.len() > 0
    &&& calls[0] == BackendCall::Restore(lease.captured_state.cpufreq_policies@)
    &&& exists|rr: LabResult<()>| #[trigger] backend.restore_gives(lease.captured_state.cpufreq_policies@, rr)
        && after_restore_write(r, lease, backend, rr, calls.drop_first())
}

/// The header of a result about a lease.
pub open spec fn lease_result_header(r: ControlResult, lease: RestoreLease, status: ControlResultStatus) -> bool {
    result_header(r, lease.created_by_plan@, lease.target_id@, lease.operation_id@, RiskTier::Tier2PrivilegedReversible, status)
}

/// The result of a restore refused before any change; the lease is
/// returned as it was.
pub fn restore_refused_result(lease: &RestoreLease, refusal: Refusal) -> (r: ControlResult)
    ensures
        lease_result_header(r, *lease, ControlResultStatus::Refused),
        r.refusal == Some(refusal),
        r.restore_lease matches Some(l) && crate::contracts::same_lease(l, *lease),
        !r.restore_attempted,
        r.restore_result is None,
{
    control_result(
        lease.created_by_plan.as_str(),
        lease.target_id.as_str(),
        lease.operation_id.as_str(),
        RiskTier::Tier2PrivilegedReversible,
        ControlResultStatus::Refused,
        Some(refusal),
        Some(lease.copied()),
        false,
        None,
    )
}

/// The result of a restore that was attempted and failed with `message`.
pub fn restore_failed_result(lease: &RestoreLease, message: String) -> (r: ControlResult)
    ensures
        lease_result_header(r, *lease, ControlResultStatus::Failed),
        r.refusal matches Some(f) && f.reason_code == RefusalCode::PolicyViolation && f.message@ == message@,
        r.restore_lease matches Some(l) && crate::contracts::same_lease(l, (RestoreLease { restore_status: RestoreStatus::Failed, ..*lease })),
        r.restore_attempted,
        r.restore_result matches Some(a) && a.status == RestoreAttemptStatus::Failed && a.message@ == message@,
{
    let failure = refusal(RefusalCode::PolicyViolation, message.clone());
    control_result(
        lease.created_by_plan.as_str(),
        lease.target_id.as_str(),
        lease.operation_id.as_str(),
        RiskTier::Tier2PrivilegedReversible,
        ControlResultStatus::Failed,
        Some(failure),
        Some(lease.with_status(RestoreStatus::Failed)),
        true,
        Some(RestoreAttempt { status: RestoreAttemptStatus::Failed, message }),
    )
}

/// The result of a restore that wrote the captured state and read it back.
pub fn restored_result(lease: &RestoreLease) -> (r: ControlResult)
    ensures
        lease_result_header(r, *lease, ControlResultStatus::Restored),
        r.refusal is None,
        r.restore_lease matches Some(l) && crate::contracts::same_lease(l, (RestoreLease { restore_status: RestoreStatus::Restored, ..*lease })),
        r.restore_attempted,
        r.restore_result matches Some(a) && a.status == RestoreAttemptStatus::Succeeded
            && a.message@ == "restore command completed and verified"@,
{
    control_result(
        lease.created_by_plan.as_str(),
        lease.target_id.as_str(),
        lease.operation_id.as_str(),
        RiskTier::Tier2PrivilegedReversible,
        ControlResultStatus::Restored,
        None,
        Some(lease.with_status(RestoreStatus::Restored)),
        true,
        Some(RestoreAttempt {
            status: RestoreAttemptStatus::Succeeded,
            message: owned("restore command completed and verified"),
        }),
    )
}

/// The result of a restore dry run: nothing written, the lease marked as a
/// dry run.
pub fn restore_dry_run_result(lease: &RestoreLease) -> (r: ControlResult)
    ensures
        lease_result_header(r, *lease, ControlResultStatus::DryRunOk),
        r.refusal is None,
        r.restore_lease matches Some(l) && crate::contracts::same_lease(l, (RestoreLease { restore_status: RestoreStatus::DryRun, ..*lease })),
        !r.restore_attempted,
        r.restore_result is None,
{
    control_result(
        lease.created_by_plan.as_str(),
        lease.target_id.as_str(),
        lease.operation_id.as_str(),
        RiskTier::Tier2PrivilegedReversible,
        ControlResultStatus::DryRunOk,
        None,
        Some(lease.with_status(RestoreStatus::DryRun)),
        false,
        None,
    )
}

/// The reason a restore is refused before touching the target, if any.
pub open spec fn restore_refusal(lease: RestoreLease) -> Option<(RefusalCode, Seq<char>)> {
    if lease_refusal(lease) is Some {
        lease_refusal(lease)
    } else if lease.target_id@ != LOCAL_TARGET_ID@ {
        Some((RefusalCode::PrivilegedApplyRequiresTargetLocalHelper,
            "privileged apply/restore is local-target only in this MVP; refused target_id="@ + lease.target_id@))
    } else {
        None
    }
}

/// Restores the state captured in a lease: refused unless the lease is
/// valid and for the local target; in a dry run nothing is written;
/// otherwise the captured governors are written back and read back, and the
/// result is restored only when every captured policy reads back with its
/// governor.
pub fn restore_lease<B: CpufreqBackend>(lease: &RestoreLease, backend: &mut RecordedBackend<B>, dry_run: bool) -> (r: ControlResult)
    ensures
        final(backend).backend() == old(backend).backend(),
        extends(old(backend).calls(), final(backend).calls()),
        match restore_refusal(*lease) {
            Some((code, message)) => {
                &&& lease_result_header(r, *lease, ControlResultStatus::Refused)
                &&& r.refusal is Some
                &&& r.refusal.unwrap().reason_code == code
                &&& r.refusal.unwrap().message@ == message
                &&& !r.restore_attempted
                &&& final(backend).calls() == old(backend).calls()
            },
            None => if dry_run {
                &&& lease_result_header(r, *lease, ControlResultStatus::DryRunOk)
                &&& !r.restore_attempted
                &&& r.restore_lease is Some
                &&& r.restore_lease.unwrap().restore_status == RestoreStatus::DryRun
                &&& final(backend).calls() == old(backend).calls()
            } else {
                restore_calls(r, *lease, old(backend).backend(), calls_since(old(backend).calls(), final(backend).calls()))
            },
        },
{
    match validate_restore_lease(lease) {
        Err(f) => return restore_refused_result(lease, f),
        Ok(()) => {},
    }
    if !str_eq(lease.target_id.as_str(), LOCAL_TARGET_ID) {
        return restore_refused_result(lease, target_local_helper_refusal(lease.target_id.as_str()));
    }
    if dry_run {
        return restore_dry_run_result(lease);
    }
    let ghost start = backend.calls();
    let ghost b = backend.backend();
    let ghost states = lease.captured_state.cpufreq_policies@;
    let wrote = backend.restore(lease.captured_state.cpufreq_policies.as_slice());
    match wrote {
        Ok(()) => {
            let checked = verify_restored_state(lease, backend);
            let ghost cr = choose|cr: LabResult<Vec<CpufreqPolicyState>>| #[trigger] b.capture_gives(cr)
                && read_back_outcome(checked, lease.captured_state.cpufreq_policies@, cr);
            let r = match checked {
                Ok(()) => restored_result(lease),
                Err(err) => {
                    let text = err.message();
                    restore_failed_result(lease, concat("restore verification failed: ", text.as_str()))
                },
            };
            proof {
                reveal_strlit("restore verification failed: ");
                reveal_strlit("policy refused operation: ");
                reveal_strlit("restore verification failed: policy refused operation: ");
                match cr {
                    Ok(current) => match restore_mismatch(lease.captured_state.cpufreq_policies@, current@) {
                        Some(m) => {
                            assert("restore verification failed: "@ + ("policy refused operation: "@ + m)
                                =~= "restore verification failed: policy refused operation: "@ + m);
                        },
                        None => {},
                    },
                    Err(_) => {},
                }
                let tail = calls_since(start, backend.calls());
                assert(tail =~= seq![BackendCall::Restore(states), BackendCall::Capture]);
                assert(tail.drop_first() =~= seq![BackendCall::Capture]);
                assert(after_read_back(r, *lease, cr));
                assert(after_restore_write(r, *lease, b, wrote, tail.drop_first()));
                assert(extends(start, backend.calls()));
            }
            r
        },
        Err(err) => {
            let text = err.message();
            let r = restore_failed_result(lease, concat("restore failed: ", text.as_str()));
            proof {
                let tail = calls_since(start, backend.calls());
                assert(tail =~= seq![BackendCall::Restore(states)]);
                assert(tail.drop_first() =~= Seq::<BackendCall>::empty());
                assert(after_restore_write(r, *lease, b, wrote, tail.drop_first()));
                assert(extends(start, backend.calls()));
            }
            r
        },
    }
}

} // verus!
