use adc_lab_core::contracts::{
    Actor, ActorKind, ApprovalBounds, ApprovalRecord, ControlPlan, ControlResult, ControlResultStatus,
    LoadRestoreOnAbortStatus, LoadSafetyMonitorResult, Refusal, RefusalCode,
};
use adc_lab_core::control::{canonical_plan_digest, new_cpufreq_plan, refused_result, CPUFREQ_SET_GOVERNOR};
use adc_lab_core::evidence::envelope::Status;
use adc_lab_core::load::LoadResult;
use adc_lab_core::probe::{load_artifact_v2, OperatingPointSnapshot};
use adc_lab_core::run::RunContext;
use adc_lab_core::run_validation::{
    validate_fullset_run_set, ApprovalEntry, ControlResultEntry, GovernorValidity, LoadEntry, PlanEntry,
    RunValidationInput, ValidationIndex,
};
use adc_lab_core::target::TargetSpec;

const RUN: &str = "artifact://lab/runs/LAB-RUN-001";

fn test_run() -> RunContext {
    RunContext { run_id: "LAB-RUN-001".to_string(), run_dir: "/lab/runs/LAB-RUN-001".to_string() }
}

fn plan_for(governor: &str) -> ControlPlan {
    new_cpufreq_plan(&test_run(), &TargetSpec::parse("local").unwrap(), governor.to_string(), 60, Some(75_000))
}

fn plan_json(plan: &ControlPlan) -> Vec<u8> {
    format!("{{\"plan_id\":\"{}\",\"governor\":\"{}\"}}", plan.plan_id, plan.operation.desired_state.governor).into_bytes()
}

fn approval_for(plan: &ControlPlan) -> ApprovalRecord {
    ApprovalRecord {
        schema_version: "lab.approval_record.v1".to_string(),
        approval_id: "APPROVAL-1".to_string(),
        target_id: plan.target_id.clone(),
        risk_tier: plan.risk_tier,
        operation_summary: "approve".to_string(),
        approved_plan_id: plan.plan_id.clone(),
        approved_plan_digest: canonical_plan_digest(&plan_json(plan)),
        approved_operation: plan.operation.clone(),
        approved_by: Actor { kind: ActorKind::Human, id: "operator".to_string() },
        bounds: ApprovalBounds { duration_seconds_max: 60, thermal_millicelsius_abort: Some(75_000) },
        restore_required: true,
        approved_actions: vec![CPUFREQ_SET_GOVERNOR.to_string()],
        time_unix_ms: 1,
    }
}

fn result_for(plan: &ControlPlan, id: &str, status: ControlResultStatus) -> ControlResult {
    ControlResult {
        schema_version: "lab.control_result.v1".to_string(),
        result_id: id.to_string(),
        plan_id: plan.plan_id.clone(),
        target_id: plan.target_id.clone(),
        operation_id: plan.operation.operation_id.clone(),
        risk_tier: plan.risk_tier,
        status,
        refusal: None,
        restore_lease: None,
        restore_attempted: status == ControlResultStatus::Restored,
        restore_result: None,
        time_unix_ms: 1,
    }
}

fn completed_load() -> LoadResult {
    LoadResult {
        schema_version: "lab.load_result.v1".to_string(),
        result_id: "LOAD-RESULT-1".to_string(),
        load_id: "LOAD-1".to_string(),
        target_id: "local-target".to_string(),
        status: "completed".to_string(),
        workers: 1,
        duration_ms: 1000,
        abort_reason: None,
        max_observed_temp_millicelsius: Some(55_000),
        worker_iterations: vec![1],
        safety_monitor: LoadSafetyMonitorResult {
            sample_interval_ms: 100,
            samples: 10,
            thermal_surface_available: true,
            operator_abort_observed: false,
            restore_on_abort_status: LoadRestoreOnAbortStatus::NotRequired,
        },
        time_unix_ms: 1,
    }
}

fn plan_entry(plan: &ControlPlan) -> PlanEntry {
    PlanEntry {
        artifact_ref: format!("{RUN}/plans/{}.json", plan.plan_id),
        value: plan.clone(),
        canonical_json: plan_json(plan),
    }
}

fn input(governor: &str) -> RunValidationInput {
    RunValidationInput {
        subject_run: test_run(),
        include_runs: Vec::new(),
        requested_governors: vec![governor.to_string()],
        workflow_recommendation_ref: None,
        collect_plan_ref: None,
        collect_plan_digest: None,
        target_id: None,
        target_class: None,
        allow_version_skew: false,
    }
}

/// An index with a plan, its approval, an applied and a restored result, a
/// healthy check and a load whose control context is `control`.
fn applied_index(plan: &ControlPlan, control: Option<(String, String)>) -> ValidationIndex {
    let mut index = ValidationIndex::empty();
    index.plans.push(plan_entry(plan));
    index.approvals.push(ApprovalEntry {
        artifact_ref: format!("{RUN}/approvals/APPROVAL-1.json"),
        value: approval_for(plan),
    });
    index.results.push(ControlResultEntry {
        artifact_ref: format!("{RUN}/plans/RESULT-1.result.json"),
        value: result_for(plan, "RESULT-1", ControlResultStatus::Applied),
    });
    index.results.push(ControlResultEntry {
        artifact_ref: format!("{RUN}/plans/RESULT-2.result.json"),
        value: result_for(plan, "RESULT-2", ControlResultStatus::Restored),
    });
    index.record_health_check(format!("{RUN}/health/restore_health_check.json"), true);
    let mut load = load_artifact_v2("LAB-RUN-001".to_string(), completed_load());
    if let Some((control_ref, governor)) = control {
        load.payload.control_result_ref = Some(control_ref);
        load.payload.operating_point_snapshot = Some(OperatingPointSnapshot { governor: Some(governor) });
    }
    index.loads.push(LoadEntry { artifact_ref: format!("{RUN}/load/cpu.LOAD-RESULT-1.v2.json"), value: load });
    index
}

#[test]
fn fullset_validation_marks_approval_mismatch_refused() {
    let plan = plan_for("performance");
    let mut wrong_plan = plan.clone();
    wrong_plan.plan_id = "PLAN-WRONG".to_string();
    let mut index = ValidationIndex::empty();
    index.plans.push(plan_entry(&plan));
    index.approvals.push(ApprovalEntry {
        artifact_ref: format!("{RUN}/approvals/APPROVAL-1.json"),
        value: approval_for(&wrong_plan),
    });
    let refused = refused_result(
        &plan,
        Refusal { reason_code: RefusalCode::ApprovalMismatch, message: "approval does not match".to_string() },
    );
    index.results.push(ControlResultEntry {
        artifact_ref: format!("{RUN}/plans/{}.result.json", refused.result_id),
        value: refused,
    });
    let validation = validate_fullset_run_set(input("performance"), &index, Vec::new(), Vec::new());
    let result = &validation.payload.governor_results[0];
    assert_eq!(result.validity, GovernorValidity::Refused);
    assert!(result.messages[0].contains("approval mismatch"));
    assert!(matches!(validation.status, Status::UnsafeBlocked { .. }));
}

#[test]
fn fullset_validation_marks_unlinked_load_contaminated() {
    let plan = plan_for("ondemand");
    let index = applied_index(&plan, None);
    let validation = validate_fullset_run_set(input("ondemand"), &index, Vec::new(), Vec::new());
    let result = &validation.payload.governor_results[0];
    assert_eq!(result.validity, GovernorValidity::Contaminated);
    assert!(result.messages[0].contains("explicit control-result"));
}

#[test]
fn fullset_validation_rejects_load_with_wrong_control_ref() {
    let plan = plan_for("powersave");
    let index = applied_index(
        &plan,
        Some((format!("{RUN}/plans/RESULT-WRONG.result.json"), "powersave".to_string())),
    );
    let validation = validate_fullset_run_set(input("powersave"), &index, Vec::new(), Vec::new());
    let result = &validation.payload.governor_results[0];
    assert_eq!(result.validity, GovernorValidity::Contaminated);
}

#[test]
fn fullset_validation_accepts_linked_load_with_restore_and_health() {
    let plan = plan_for("powersave");
    let index = applied_index(&plan, Some((format!("{RUN}/plans/RESULT-1.result.json"), "powersave".to_string())));
    let validation = validate_fullset_run_set(input("powersave"), &index, Vec::new(), Vec::new());
    let result = &validation.payload.governor_results[0];
    assert_eq!(result.validity, GovernorValidity::Measured);
    assert!(matches!(validation.status, Status::Measured));
}
