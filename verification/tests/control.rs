use adc_lab_core::contracts::{
    Actor, ActorKind, AppliedState, ApprovalBounds, ApprovalRecord, CapturedState, ControlOperation, ControlPlan,
    ControlResultStatus, CpufreqDesiredState, CpufreqPolicyState, OperationBounds, RefusalCode, RestoreAttemptStatus,
    RestoreLease, RestoreStatus, RiskTier,
};
use adc_lab_core::control::{
    apply_control_plan, canonical_plan_digest, restore_lease, validate_priv_helper_path, CpufreqBackend, RecordedBackend,
    CPUFREQ_SET_GOVERNOR, DEFAULT_PRIV_HELPER,
};
use adc_lab_core::error::{LabError, LabResult};
use adc_lab_core::target::LOCAL_TARGET_ID;

const PLAN_JSON: &[u8] = b"{\"plan_id\":\"PLAN-001\",\"target_id\":\"local-target\"}";
const REMOTE_PLAN_JSON: &[u8] = b"{\"plan_id\":\"PLAN-001\",\"target_id\":\"target55\"}";

#[derive(Clone)]
struct FakeBackend {
    states: Vec<CpufreqPolicyState>,
}

impl CpufreqBackend for FakeBackend {
    fn capture(&self) -> LabResult<Vec<CpufreqPolicyState>> {
        Ok(self.states.clone())
    }

    fn apply_governor(&self, _governor: &str) -> LabResult<()> {
        Ok(())
    }

    fn verify_governor(&self, _governor: &str) -> LabResult<bool> {
        Ok(true)
    }

    fn restore(&self, _states: &[CpufreqPolicyState]) -> LabResult<()> {
        Ok(())
    }
}

struct FailingApplyBackend {
    states: Vec<CpufreqPolicyState>,
}

impl CpufreqBackend for FailingApplyBackend {
    fn capture(&self) -> LabResult<Vec<CpufreqPolicyState>> {
        Ok(self.states.clone())
    }

    fn apply_governor(&self, _governor: &str) -> LabResult<()> {
        Err(LabError::Policy("simulated write failure".to_string()))
    }

    fn verify_governor(&self, _governor: &str) -> LabResult<bool> {
        Ok(false)
    }

    fn restore(&self, states: &[CpufreqPolicyState]) -> LabResult<()> {
        assert_eq!(states.len(), 1);
        Ok(())
    }
}

struct RestoreMismatchBackend {
    states: Vec<CpufreqPolicyState>,
}

impl CpufreqBackend for RestoreMismatchBackend {
    fn capture(&self) -> LabResult<Vec<CpufreqPolicyState>> {
        Ok(self.states.clone())
    }

    fn apply_governor(&self, _governor: &str) -> LabResult<()> {
        Ok(())
    }

    fn verify_governor(&self, _governor: &str) -> LabResult<bool> {
        Ok(true)
    }

    fn restore(&self, _states: &[CpufreqPolicyState]) -> LabResult<()> {
        Ok(())
    }
}

fn plan() -> ControlPlan {
    ControlPlan {
        schema_version: "lab.control_plan.v1".to_string(),
        plan_id: "PLAN-001".to_string(),
        run_id: "LAB-RUN-001".to_string(),
        target_id: LOCAL_TARGET_ID.to_string(),
        risk_tier: RiskTier::Tier2PrivilegedReversible,
        approval_required: true,
        restore_required: true,
        operation: ControlOperation {
            operation_id: CPUFREQ_SET_GOVERNOR.to_string(),
            desired_state: CpufreqDesiredState { governor: "performance".to_string() },
        },
        bounds: OperationBounds { duration_seconds_max: 60, thermal_millicelsius_abort: Some(75_000) },
        created_by: Actor::codex(),
        time_unix_ms: 1,
    }
}

fn lease() -> RestoreLease {
    RestoreLease {
        schema_version: "lab.restore_lease.v1".to_string(),
        lease_id: "LEASE-001".to_string(),
        target_id: LOCAL_TARGET_ID.to_string(),
        operation_id: CPUFREQ_SET_GOVERNOR.to_string(),
        captured_state: CapturedState {
            cpufreq_policies: vec![CpufreqPolicyState {
                policy: "policy0".to_string(),
                governor: "ondemand".to_string(),
                scaling_min_freq: Some("600000".to_string()),
                scaling_max_freq: Some("1800000".to_string()),
            }],
        },
        applied_state: AppliedState { governor: "performance".to_string() },
        restore_required: true,
        restore_status: RestoreStatus::Pending,
        created_by_plan: "PLAN-001".to_string(),
        time_unix_ms: 1,
    }
}

fn approval() -> ApprovalRecord {
    let plan = plan();
    ApprovalRecord {
        schema_version: "lab.approval_record.v1".to_string(),
        approval_id: "APPROVAL-001".to_string(),
        target_id: plan.target_id.clone(),
        risk_tier: RiskTier::Tier2PrivilegedReversible,
        operation_summary: "Set CPU governor".to_string(),
        approved_plan_id: plan.plan_id.clone(),
        approved_plan_digest: canonical_plan_digest(PLAN_JSON),
        approved_operation: plan.operation.clone(),
        approved_by: Actor { kind: ActorKind::Human, id: "operator".to_string() },
        bounds: ApprovalBounds { duration_seconds_max: 60, thermal_millicelsius_abort: Some(75_000) },
        restore_required: true,
        approved_actions: vec![CPUFREQ_SET_GOVERNOR.to_string()],
        time_unix_ms: 1,
    }
}

#[test]
fn contract_validation_apply_requires_approval() {
    let result = apply_control_plan(&plan(), None, PLAN_JSON, &mut RecordedBackend::new(&FakeBackend { states: Vec::new() }), false);
    assert_eq!(result.status, ControlResultStatus::Refused);
    assert_eq!(result.refusal.unwrap().reason_code, RefusalCode::ApprovalRequired);
}

#[test]
fn contract_validation_apply_creates_restore_lease() {
    let result = apply_control_plan(
        &plan(),
        Some(&approval()),
        PLAN_JSON,
        &mut RecordedBackend::new(&FakeBackend {
            states: vec![CpufreqPolicyState {
                policy: "policy0".to_string(),
                governor: "ondemand".to_string(),
                scaling_min_freq: Some("600000".to_string()),
                scaling_max_freq: Some("1800000".to_string()),
            }],
        }),
        false,
    );
    assert_eq!(result.status, ControlResultStatus::Applied);
    assert!(result.restore_lease.is_some());
}

#[test]
fn contract_validation_apply_rejects_non_local_privileged_plan() {
    let mut remote_plan = plan();
    remote_plan.target_id = "target55".to_string();
    let mut approval = approval();
    approval.target_id = remote_plan.target_id.clone();
    approval.approved_plan_digest = canonical_plan_digest(REMOTE_PLAN_JSON);
    let result =
        apply_control_plan(&remote_plan, Some(&approval), REMOTE_PLAN_JSON, &mut RecordedBackend::new(&FakeBackend { states: Vec::new() }), false);
    assert_eq!(result.status, ControlResultStatus::Refused);
    assert_eq!(result.refusal.unwrap().reason_code, RefusalCode::PrivilegedApplyRequiresTargetLocalHelper);
}

#[test]
fn contract_validation_approval_is_bound_to_plan_digest() {
    let mut approval = approval();
    approval.approved_plan_digest = "sha256:not-the-plan".to_string();
    let result = apply_control_plan(&plan(), Some(&approval), PLAN_JSON, &mut RecordedBackend::new(&FakeBackend { states: Vec::new() }), true);
    assert_eq!(result.status, ControlResultStatus::Refused);
    assert_eq!(result.refusal.unwrap().reason_code, RefusalCode::ApprovalMismatch);
}

#[test]
fn contract_validation_apply_failure_attempts_restore() {
    let result = apply_control_plan(
        &plan(),
        Some(&approval()),
        PLAN_JSON,
        &mut RecordedBackend::new(&FailingApplyBackend {
            states: vec![CpufreqPolicyState {
                policy: "policy0".to_string(),
                governor: "ondemand".to_string(),
                scaling_min_freq: None,
                scaling_max_freq: None,
            }],
        }),
        false,
    );
    assert_eq!(result.status, ControlResultStatus::Failed);
    assert!(result.restore_attempted);
    assert_eq!(result.restore_result.unwrap().status, RestoreAttemptStatus::Succeeded);
    assert_eq!(result.restore_lease.unwrap().restore_status, RestoreStatus::Restored);
}

#[test]
fn contract_validation_restore_rejects_forged_policy_segment() {
    let mut lease = lease();
    lease.captured_state.cpufreq_policies[0].policy = "../policy0".to_string();
    let result = restore_lease(&lease, &mut RecordedBackend::new(&FakeBackend { states: Vec::new() }), true);
    assert_eq!(result.status, ControlResultStatus::Refused);
    assert_eq!(result.refusal.unwrap().reason_code, RefusalCode::PolicyViolation);
}

#[test]
fn contract_validation_restore_rejects_absolute_policy_segment() {
    let mut lease = lease();
    lease.captured_state.cpufreq_policies[0].policy = "/sys/policy0".to_string();
    let result = restore_lease(&lease, &mut RecordedBackend::new(&FakeBackend { states: Vec::new() }), true);
    assert_eq!(result.status, ControlResultStatus::Refused);
    assert_eq!(result.refusal.unwrap().reason_code, RefusalCode::PolicyViolation);
}

#[test]
fn contract_validation_restore_rejects_forged_governor() {
    let mut lease = lease();
    lease.captured_state.cpufreq_policies[0].governor = "bad value".to_string();
    let result = restore_lease(&lease, &mut RecordedBackend::new(&FakeBackend { states: Vec::new() }), true);
    assert_eq!(result.status, ControlResultStatus::Refused);
    assert_eq!(result.refusal.unwrap().reason_code, RefusalCode::PolicyViolation);
}

#[test]
fn contract_validation_restore_rejects_governor_with_newline() {
    let mut lease = lease();
    lease.captured_state.cpufreq_policies[0].governor = "performance\nbad".to_string();
    let result = restore_lease(&lease, &mut RecordedBackend::new(&FakeBackend { states: Vec::new() }), true);
    assert_eq!(result.status, ControlResultStatus::Refused);
    assert_eq!(result.refusal.unwrap().reason_code, RefusalCode::PolicyViolation);
}

#[test]
fn contract_validation_restore_rejects_wrong_schema_version() {
    let mut lease = lease();
    lease.schema_version = "lab.restore_lease.v0".to_string();
    let result = restore_lease(&lease, &mut RecordedBackend::new(&FakeBackend { states: Vec::new() }), true);
    assert_eq!(result.status, ControlResultStatus::Refused);
    assert_eq!(result.refusal.unwrap().reason_code, RefusalCode::InvalidPlan);
}

#[test]
fn contract_validation_restore_rejects_non_numeric_frequency() {
    let mut lease = lease();
    lease.captured_state.cpufreq_policies[0].scaling_min_freq = Some("600000 bad".to_string());
    let result = restore_lease(&lease, &mut RecordedBackend::new(&FakeBackend { states: Vec::new() }), true);
    assert_eq!(result.status, ControlResultStatus::Refused);
    assert_eq!(result.refusal.unwrap().reason_code, RefusalCode::PolicyViolation);
}

#[test]
fn contract_validation_restore_requires_restore_required_true() {
    let mut lease = lease();
    lease.restore_required = false;
    let result = restore_lease(&lease, &mut RecordedBackend::new(&FakeBackend { states: Vec::new() }), true);
    assert_eq!(result.status, ControlResultStatus::Refused);
    assert_eq!(result.refusal.unwrap().reason_code, RefusalCode::InvalidPlan);
}

#[test]
fn contract_validation_restore_verifies_read_back_state() {
    let result = restore_lease(
        &lease(),
        &mut RecordedBackend::new(&RestoreMismatchBackend {
            states: vec![CpufreqPolicyState {
                policy: "policy0".to_string(),
                governor: "performance".to_string(),
                scaling_min_freq: None,
                scaling_max_freq: None,
            }],
        }),
        false,
    );
    assert_eq!(result.status, ControlResultStatus::Failed);
    assert!(result.restore_attempted);
    assert_eq!(result.restore_result.unwrap().status, RestoreAttemptStatus::Failed);
}

#[test]
fn contract_validation_priv_helper_path_is_allowlisted() {
    assert!(validate_priv_helper_path(DEFAULT_PRIV_HELPER).is_ok());
    assert!(validate_priv_helper_path("/tmp/adc-lab-priv-helper").is_err());
    assert!(validate_priv_helper_path("adc-lab-priv-helper").is_err());
}

#[test]
fn plan_digest_is_sha256_of_canonical_bytes() {
    assert_eq!(
        canonical_plan_digest(b""),
        "sha256:e3b0c44298fc1c149afbf4c8996fb92427ae41e4649b934ca495991b7852b855"
    );
}

#[test]
fn dry_run_with_matching_approval_is_ok() {
    let result = apply_control_plan(&plan(), Some(&approval()), PLAN_JSON, &mut RecordedBackend::new(&FakeBackend { states: Vec::new() }), true);
    assert_eq!(result.status, ControlResultStatus::DryRunOk);
    assert!(result.refusal.is_none());
}

struct RecordingBackend {
    states: Vec<CpufreqPolicyState>,
    verify_ok: bool,
    calls: std::cell::RefCell<Vec<String>>,
    restored: std::cell::RefCell<Vec<Vec<CpufreqPolicyState>>>,
}

impl CpufreqBackend for RecordingBackend {
    fn capture(&self) -> LabResult<Vec<CpufreqPolicyState>> {
        self.calls.borrow_mut().push("capture".to_string());
        Ok(self.states.clone())
    }

    fn apply_governor(&self, governor: &str) -> LabResult<()> {
        self.calls.borrow_mut().push(format!("apply {governor}"));
        Ok(())
    }

    fn verify_governor(&self, governor: &str) -> LabResult<bool> {
        self.calls.borrow_mut().push(format!("verify {governor}"));
        Ok(self.verify_ok)
    }

    fn restore(&self, states: &[CpufreqPolicyState]) -> LabResult<()> {
        self.calls.borrow_mut().push("restore".to_string());
        self.restored.borrow_mut().push(states.to_vec());
        Ok(())
    }
}

fn recording(verify_ok: bool) -> RecordingBackend {
    RecordingBackend {
        states: lease().captured_state.cpufreq_policies,
        verify_ok,
        calls: std::cell::RefCell::new(Vec::new()),
        restored: std::cell::RefCell::new(Vec::new()),
    }
}

#[test]
fn apply_hands_the_plan_governor_to_the_backend() {
    let backend = recording(true);
    let result = apply_control_plan(&plan(), Some(&approval()), PLAN_JSON, &mut RecordedBackend::new(&backend), false);
    assert_eq!(result.status, ControlResultStatus::Applied);
    assert_eq!(
        *backend.calls.borrow(),
        vec!["capture".to_string(), "apply performance".to_string(), "verify performance".to_string()]
    );
    let lease = result.restore_lease.unwrap();
    assert_eq!(lease.captured_state.cpufreq_policies, backend.states);
    assert_eq!(lease.restore_status, RestoreStatus::Pending);
}

#[test]
fn failed_verification_restores_exactly_the_captured_states() {
    let backend = recording(false);
    let result = apply_control_plan(&plan(), Some(&approval()), PLAN_JSON, &mut RecordedBackend::new(&backend), false);
    assert_eq!(result.status, ControlResultStatus::Failed);
    assert!(result.restore_attempted);
    assert_eq!(result.restore_result.unwrap().status, RestoreAttemptStatus::Succeeded);
    assert_eq!(result.restore_lease.unwrap().restore_status, RestoreStatus::Restored);
    assert_eq!(result.refusal.unwrap().message, "applied state did not verify");
    assert_eq!(*backend.restored.borrow(), vec![backend.states.clone()]);
}

#[test]
fn dry_run_never_calls_the_backend() {
    let backend = recording(true);
    let result = apply_control_plan(&plan(), Some(&approval()), PLAN_JSON, &mut RecordedBackend::new(&backend), true);
    assert_eq!(result.status, ControlResultStatus::DryRunOk);
    assert!(backend.calls.borrow().is_empty());
}

#[test]
fn restore_writes_the_lease_state_then_reads_it_back() {
    let backend = recording(true);
    let result = restore_lease(&lease(), &mut RecordedBackend::new(&backend), false);
    assert_eq!(result.status, ControlResultStatus::Restored);
    assert_eq!(*backend.calls.borrow(), vec!["restore".to_string(), "capture".to_string()]);
    assert_eq!(*backend.restored.borrow(), vec![lease().captured_state.cpufreq_policies]);
}

#[test]
fn refused_requests_never_reach_the_backend() {
    let backend = recording(true);
    let result = apply_control_plan(&plan(), None, PLAN_JSON, &mut RecordedBackend::new(&backend), false);
    assert_eq!(result.status, ControlResultStatus::Refused);
    let mut remote_plan = plan();
    remote_plan.target_id = "target55".to_string();
    let result = apply_control_plan(&remote_plan, Some(&approval()), PLAN_JSON, &mut RecordedBackend::new(&backend), false);
    assert_eq!(result.refusal.unwrap().reason_code, RefusalCode::PrivilegedApplyRequiresTargetLocalHelper);
    let mut forged = lease();
    forged.captured_state.cpufreq_policies[0].policy = "../policy0".to_string();
    let result = restore_lease(&forged, &mut RecordedBackend::new(&backend), false);
    assert_eq!(result.status, ControlResultStatus::Refused);
    let result = restore_lease(&lease(), &mut RecordedBackend::new(&backend), true);
    assert_eq!(result.status, ControlResultStatus::DryRunOk);
    assert!(backend.calls.borrow().is_empty());
}
