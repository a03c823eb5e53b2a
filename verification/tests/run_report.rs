use adc_lab_core::contracts::{ExperimentRun, ExperimentTrial};
use adc_lab_core::evidence::claim;
use adc_lab_core::evidence::envelope::{Decision, Kind, Status};
use adc_lab_core::evidence::store::EvidenceStore;
use adc_lab_core::report::{audit_run_id_mismatch, run_evidence_summary, RunEvidenceSummary};
use adc_lab_core::rules::operating_point::{
    coverage_status, is_safety_blocked_factor, next_evidence_for_blocked_factor, operating_point_summary,
    validation_evidence_refs,
};
use adc_lab_core::rules::run_report::{evaluate_run_report_v2, experiment_has_completed_trial, RunReportPayload};
use adc_lab_core::evidence::envelope::Artifact;
use adc_lab_core::run_validation::{
    GovernorValidation, GovernorValidity, RunValidationPayload, RunValidationVersionSet, VersionSkewPolicyResult,
    FULLSET_PROFILE, LEGACY_RUN_VALIDATION_MISSING_RUN_SET_ID,
};

fn s(x: &str) -> String {
    x.to_string()
}

fn core_summary() -> RunEvidenceSummary {
    run_evidence_summary(
        s("LAB-RUN-001"),
        Some(s("artifact://lab/runs/LAB-RUN-001/inventory/target_inventory.json")),
        Some(s("artifact://lab/runs/LAB-RUN-001/toolchain/toolchain_inventory.json")),
        Some(s("artifact://lab/runs/LAB-RUN-001/tools/tool_qualification_summary.json")),
        Some(s("artifact://lab/runs/LAB-RUN-001/observations/observe.json")),
        Vec::new(),
        false,
        false,
        &vec![s("inventory"), s("toolchain.discover"), s("tool.qualify_inventory"), s("observe")],
        4,
        Vec::new(),
    )
}

fn core_refs() -> Vec<String> {
    vec![
        s("artifact://lab/runs/LAB-RUN-001/audit.jsonl"),
        s("artifact://lab/runs/LAB-RUN-001/inventory/target_inventory.json"),
        s("artifact://lab/runs/LAB-RUN-001/observations/observe.json"),
        s("artifact://lab/runs/LAB-RUN-001/toolchain/toolchain_inventory.json"),
        s("artifact://lab/runs/LAB-RUN-001/tools/tool_qualification_summary.json"),
    ]
}

fn validation(validity: GovernorValidity, legacy: bool) -> RunValidationPayload {
    RunValidationPayload {
        profile: s(FULLSET_PROFILE),
        requested_governors: vec![s("performance")],
        workflow_recommendation_ref: None,
        collect_plan_ref: None,
        collect_plan_digest: None,
        subject_run_set_id: if legacy { s(LEGACY_RUN_VALIDATION_MISSING_RUN_SET_ID) } else { s("RUN-SET-test") },
        included_run_refs: if legacy { Vec::new() } else { vec![s("artifact://lab/runs/LAB-RUN-001/")] },
        validation_profile: s(FULLSET_PROFILE),
        expected_governors: vec![s("performance")],
        target_id: s("local-target"),
        target_class: s("raspberry_pi_4"),
        version_set: RunValidationVersionSet { records: Vec::new(), skew_detected: false, skew_reasons: Vec::new() },
        version_skew_policy: VersionSkewPolicyResult::NoSkewDetected,
        version_skew_override: false,
        governor_results: vec![GovernorValidation {
            governor: s("performance"),
            validity,
            plan_ref: Some(s("artifact://lab/runs/LAB-RUN-001/plans/performance.json")),
            approval_ref: Some(s("artifact://lab/runs/LAB-RUN-001/approvals/performance.json")),
            control_result_ref: Some(s("artifact://lab/runs/LAB-RUN-001/plans/performance.result.json")),
            load_ref: Some(s("artifact://lab/runs/LAB-RUN-001/load/performance.v2.json")),
            restore_result_ref: Some(s("artifact://lab/runs/LAB-RUN-001/restore/performance.result.json")),
            health_check_ref: Some(s("artifact://lab/runs/LAB-RUN-001/health/restore_health_check.json")),
            messages: vec![if legacy { s("legacy v0.2.2 validation") } else { s("test validation") }],
            next_evidence: if legacy { Vec::new() } else { vec![s("rerun governor sweep")] },
        }],
        overall_validity: validity,
        gaps: Vec::new(),
        audit_refs: vec![s("artifact://lab/runs/LAB-RUN-001/audit.jsonl")],
    }
}

fn report(
    summary: &RunEvidenceSummary,
    experiment: Option<ExperimentRun>,
    validations: &Vec<(String, RunValidationPayload)>,
) -> Artifact<RunReportPayload> {
    let store = EvidenceStore::new(vec![s("runs/LAB-RUN-001")]);
    let experiment_ref = experiment
        .as_ref()
        .map(|_| s("artifact://lab/runs/LAB-RUN-001/experiments/experiment_run.json"));
    evaluate_run_report_v2(
        &store,
        s("local-target"),
        summary,
        core_refs(),
        s("not_applicable"),
        experiment_ref,
        experiment,
        validations,
    )
}

fn completed_experiment() -> ExperimentRun {
    ExperimentRun {
        schema_version: s("lab.experiment_run.v1"),
        run_id: s("LAB-RUN-001"),
        matrix_id: s("MATRIX-LOAD"),
        target_id: s("local-target"),
        dry_run: false,
        trials: vec![ExperimentTrial {
            trial_id: s("TRIAL-001"),
            factors: vec![(s("cpu_load_workers"), s("1"))],
            status: s("completed"),
            artifact_refs: vec![
                s("artifact://lab/runs/LAB-RUN-001/experiments/trials/TRIAL-001/load_result.json"),
                s("artifact://lab/runs/LAB-RUN-001/experiments/trials/TRIAL-001/observation.json"),
            ],
            failure: None,
            started_at_unix_ms: Some(1),
            ended_at_unix_ms: Some(2),
        }],
        time_unix_ms: 3,
    }
}

#[test]
fn run_report_preserves_read_only_blocked_claims() {
    let summary = core_summary();
    let report = report(&summary, None, &Vec::new());

    assert_eq!(report.kind, Kind::ReportRun);
    assert_eq!(report.payload.report_status, "observational_read_only");
    assert_eq!(report.payload.operating_point.coverage_status, "observational_only");
    assert!(report.claims.iter().any(|claim| {
        claim.claim_id == claim::OPERATING_POINT_FIXED_CPU_FREQUENCY_VERIFIED && claim.decision == Decision::Blocked
    }));
    assert!(report
        .claims
        .iter()
        .any(|claim| { claim.claim_id == claim::PRODUCTION_READY && claim.decision == Decision::Blocked }));
}

#[test]
fn run_report_records_completed_experiment_operating_point() {
    let summary = run_evidence_summary(
        s("LAB-RUN-001"),
        Some(s("artifact://lab/runs/LAB-RUN-001/inventory/target_inventory.json")),
        Some(s("artifact://lab/runs/LAB-RUN-001/toolchain/toolchain_inventory.json")),
        Some(s("artifact://lab/runs/LAB-RUN-001/tools/tool_qualification_summary.json")),
        Some(s("artifact://lab/runs/LAB-RUN-001/observations/observe.json")),
        Vec::new(),
        false,
        experiment_has_completed_trial(&Some(completed_experiment())),
        &vec![s("inventory"), s("toolchain.discover"), s("tool.qualify_inventory"), s("observe")],
        4,
        Vec::new(),
    );
    let report = report(&summary, Some(completed_experiment()), &Vec::new());

    assert_eq!(report.payload.operating_point.coverage_status, "controlled_subset");
    assert!(report.claims.iter().any(|claim| {
        claim.claim_id == claim::OPERATING_POINT_BOUNDED_WORKLOAD_MEASURED && claim.decision == Decision::Supported
    }));
    assert!(report.claims.iter().any(|claim| {
        claim.claim_id == claim::RUN_EXPERIMENT_BOUNDED_MATRIX_EXECUTED && claim.decision == Decision::Supported
    }));
}

#[test]
fn run_report_projects_measured_governor_validation_as_controlled_point() {
    let summary = core_summary();
    let validations = vec![(
        s("artifact://lab/runs/LAB-RUN-001/reports/run_validation.v2.json"),
        validation(GovernorValidity::Measured, false),
    )];
    let report = report(&summary, None, &validations);

    assert!(report
        .payload
        .operating_point
        .controlled_points
        .iter()
        .any(|point| point.factor_id == "governor" && point.level == "performance"));
    assert!(!report.payload.operating_point.blocked_points.iter().any(|point| point.factor_id == "governor"));
}

#[test]
fn run_report_projects_contaminated_governor_validation_as_blocked_point() {
    let summary = core_summary();
    let validations = vec![(
        s("artifact://lab/runs/LAB-RUN-001/reports/run_validation.v2.json"),
        validation(GovernorValidity::Contaminated, false),
    )];
    let report = report(&summary, None, &validations);

    assert!(!report.payload.operating_point.controlled_points.iter().any(|point| point.factor_id == "governor"));
    assert!(report.payload.operating_point.blocked_points.iter().any(|point| {
        point.factor_id == "governor"
            && point.requested_level.as_deref() == Some("performance")
            && point.coverage_status == "contaminated"
    }));
}

#[test]
fn run_report_blocks_legacy_validation_missing_run_set_identity() {
    let summary = core_summary();
    let validations = vec![(
        s("artifact://lab/runs/LAB-RUN-001/reports/run_validation.v2.json"),
        validation(GovernorValidity::Measured, true),
    )];
    let report = report(&summary, None, &validations);

    assert!(!report.payload.operating_point.controlled_points.iter().any(|point| point.factor_id == "governor"));
    assert!(report.payload.operating_point.blocked_points.iter().any(|point| {
        point.factor_id == "governor"
            && point.requested_level.as_deref() == Some("performance")
            && point.coverage_status == "insufficient"
            && point.reason == LEGACY_RUN_VALIDATION_MISSING_RUN_SET_ID
    }));
}

#[test]
fn measured_governor_point_cites_every_linked_artifact_sorted() {
    let summary = core_summary();
    let validations = vec![(
        s("artifact://lab/runs/LAB-RUN-001/reports/run_validation.v2.json"),
        validation(GovernorValidity::Measured, false),
    )];
    let ops = operating_point_summary(&summary, &None, &None, &validations);
    let point = ops.controlled_points.iter().find(|p| p.factor_id == "governor").unwrap();
    assert_eq!(
        point.evidence_refs,
        vec![
            s("artifact://lab/runs/LAB-RUN-001/approvals/performance.json"),
            s("artifact://lab/runs/LAB-RUN-001/health/restore_health_check.json"),
            s("artifact://lab/runs/LAB-RUN-001/load/performance.v2.json"),
            s("artifact://lab/runs/LAB-RUN-001/plans/performance.json"),
            s("artifact://lab/runs/LAB-RUN-001/plans/performance.result.json"),
            s("artifact://lab/runs/LAB-RUN-001/reports/run_validation.v2.json"),
            s("artifact://lab/runs/LAB-RUN-001/restore/performance.result.json"),
        ]
    );
}

#[test]
fn governor_blocked_by_one_validation_is_not_controlled_by_another() {
    let summary = core_summary();
    let validations = vec![
        (s("artifact://a"), validation(GovernorValidity::Measured, false)),
        (s("artifact://b"), validation(GovernorValidity::Refused, false)),
    ];
    let ops = operating_point_summary(&summary, &None, &None, &validations);
    assert!(!ops.controlled_points.iter().any(|p| p.factor_id == "governor"));
    let blocked: Vec<_> = ops.blocked_points.iter().filter(|p| p.factor_id == "governor").collect();
    assert_eq!(blocked.len(), 1);
    assert_eq!(blocked[0].coverage_status, "refused");
    assert_eq!(blocked[0].reason, "test validation");
}

#[test]
fn fixed_frequency_point_is_always_blocked() {
    let summary = core_summary();
    let ops = operating_point_summary(&summary, &None, &None, &Vec::new());
    let fixed: Vec<_> = ops.blocked_points.iter().filter(|p| p.factor_id == "fixed_cpu_frequency").collect();
    assert_eq!(fixed.len(), 1);
    assert_eq!(fixed[0].coverage_status, "not_controllable");
    assert_eq!(fixed[0].requested_level.as_deref(), Some("all_fixed_cpu_frequencies"));
}

#[test]
fn failed_trial_blocks_workload_and_unsafe_factor() {
    let summary = core_summary();
    let experiment = ExperimentRun {
        trials: vec![ExperimentTrial {
            trial_id: s("TRIAL-002"),
            factors: vec![(s("cpu_load_workers"), s("4")), (s("thermal_stress_level"), s("high"))],
            status: s("failed"),
            artifact_refs: Vec::new(),
            failure: None,
            started_at_unix_ms: None,
            ended_at_unix_ms: None,
        }],
        ..completed_experiment()
    };
    let ops = operating_point_summary(&summary, &Some(s("artifact://exp")), &Some(experiment), &Vec::new());
    assert_eq!(ops.coverage_status, "blocked_unsafe");
    assert!(ops.controlled_points.is_empty());
    let workload = ops.blocked_points.iter().find(|p| p.factor_id == "cpu_load_workers").unwrap();
    assert_eq!(workload.reason, "trial ended with status failed");
    assert_eq!(workload.coverage_status, "not_controllable");
    let thermal = ops.blocked_points.iter().find(|p| p.factor_id == "thermal_stress_level").unwrap();
    assert_eq!(thermal.coverage_status, "blocked_unsafe");
    assert_eq!(
        thermal.next_evidence,
        vec![s("explicit risk boundary"), s("operator approval"), s("abort condition and recovery plan")]
    );
}

#[test]
fn safety_factors_and_next_evidence() {
    assert!(is_safety_blocked_factor("memory_pressure_near_oom"));
    assert!(!is_safety_blocked_factor("governor"));
    assert_eq!(
        next_evidence_for_blocked_factor("governor"),
        vec![
            s("approved privileged control plan"),
            s("plan/apply/restore integration in matrix runner"),
            s("restore verification evidence"),
        ]
    );
    assert_eq!(next_evidence_for_blocked_factor("other"), vec![s("implemented controlled-factor runner support")]);
}

#[test]
fn coverage_is_not_controllable_without_points() {
    assert_eq!(coverage_status(&Vec::new(), &Vec::new(), &Vec::new()), "not_controllable");
}

#[test]
fn validation_refs_are_sorted_without_repeats() {
    let v = validation(GovernorValidity::Measured, false);
    let refs = validation_evidence_refs("artifact://lab/runs/LAB-RUN-001/plans/performance.json", &v.governor_results[0]);
    assert_eq!(refs.len(), 6);
    let mut sorted = refs.clone();
    sorted.sort();
    assert_eq!(refs, sorted);
}

#[test]
fn run_summary_maps_operations_and_audit_refs() {
    let summary = core_summary();
    assert_eq!(
        summary.operations_summary,
        vec![
            (s("bounded_load"), s("not_run")),
            (s("controlled_operating_point"), s("not_run")),
            (s("inventory"), s("completed")),
            (s("passive_observe"), s("completed")),
            (s("privileged_control"), s("not_run")),
            (s("sustained_thermal"), s("not_run")),
            (s("toolchain_discovery"), s("completed")),
        ]
    );
    assert_eq!(summary.operation_audit_refs.len(), 4);
    assert_eq!(summary.operation_audit_refs[0].0, "inventory");
    assert!(summary.operation_audit_refs.iter().all(|(_, r)| r == "artifact://lab/runs/LAB-RUN-001/audit.jsonl"));
}

#[test]
fn run_report_status_is_insufficient_for_incomplete_pack() {
    let summary = run_evidence_summary(
        s("LAB-RUN-002"), None, None, None, None, Vec::new(), false, false, &Vec::new(), 0, Vec::new(),
    );
    let report = report(&summary, None, &Vec::new());
    assert_eq!(report.payload.report_status, "incomplete");
    assert_eq!(report.status, Status::Insufficient);
    assert_eq!(report.data_quality.notes.len(), 4);
}

#[test]
fn audit_mismatch_note_names_line_and_runs() {
    assert_eq!(
        audit_run_id_mismatch(3, "LAB-RUN-OTHER", "LAB-RUN-001"),
        "audit event line 3 run_id LAB-RUN-OTHER does not match manifest run_id LAB-RUN-001"
    );
}
