use adc_lab_core::capability_profile::{
    capability_blocked_claims, manifest_has_identity_inconsistency, next_evidence_needed, supported_claims,
    target_capability_profile, validate_workload_profile, TargetCapabilityStatus, WorkloadProfile,
    WorkloadRequirements,
};
use adc_lab_core::contracts::{
    LoadRestoreOnAbortStatus, LoadSafetyMonitorResult, WorkloadClaimBoundary, WorkloadClass,
};
use adc_lab_core::load::LoadResult;
use adc_lab_core::observe::{ObservationResult, ObservationSample, Signal};
use adc_lab_core::contracts::{RunDataQuality, RunManifest};
use adc_lab_core::error::LabError;

fn manifest(inconsistent: Vec<&str>) -> RunManifest {
    RunManifest {
        schema_version: "lab.run_manifest.v1".to_string(),
        run_id: "LAB-RUN-001".to_string(),
        target_id: "local-target".to_string(),
        target: "local".to_string(),
        mode: "read_only_familiarization".to_string(),
        started_at_unix_ms: 1,
        ended_at_unix_ms: 2,
        adc_lab_version: "0.1.0".to_string(),
        adc_lab_git_sha: "unknown".to_string(),
        adc_lab_target_version: "0.1.0".to_string(),
        adc_lab_target_git_sha: "unknown".to_string(),
        release_tag: "v0.1.0".to_string(),
        release_asset: "asset".to_string(),
        release_asset_sha256: "unknown".to_string(),
        binary_sha256: Vec::new(),
        operations_summary: Vec::new(),
        operation_audit_refs: Vec::new(),
        artifacts: Vec::new(),
        audit_ref: "artifact://lab/runs/LAB-RUN-001/audit.jsonl".to_string(),
        claim_trace_ref: None,
        data_quality: RunDataQuality {
            missing: Vec::new(),
            inconsistent: inconsistent.into_iter().map(str::to_string).collect(),
            notes: Vec::new(),
        },
    }
}

#[test]
fn capability_profile_blocks_selection_claims() {
    let blocked = capability_blocked_claims(None);
    assert!(blocked.contains(&"Pi4 is sufficient for this workload".to_string()));
    assert!(blocked.contains(&"sustained production ready".to_string()));
    assert_eq!(blocked.len(), 7);
}

#[test]
fn capability_profile_blocks_formal_comparison_when_toolchain_identity_is_inconsistent() {
    let m = manifest(vec!["adc-lab version 0.1.0 does not match adc-lab-target version 0.2.0"]);
    assert!(manifest_has_identity_inconsistency(Some(&m)));
    let blocked = capability_blocked_claims(Some(&m));
    assert!(blocked
        .iter()
        .any(|claim| claim == "formal comparison requires matching adc-lab and adc-lab-target release identity"));
    let needed = next_evidence_needed(2, 1, Some(&m));
    assert_eq!(needed.last().unwrap(), "rerun with matching release binary identity and checksums");
    assert!(!manifest_has_identity_inconsistency(Some(&manifest(vec!["disk nearly full"]))));
}

#[test]
fn capability_profile_rejects_bad_workload_schema_version() {
    let error = validate_workload_profile("lab.workload_profile.v0", "w", "d", 1, 1).unwrap_err();
    assert!(error.message().contains("schema_version"));
}

#[test]
fn workload_profile_needs_identity_duration_and_requirements() {
    assert!(validate_workload_profile("lab.workload_profile.v1", "w", "d", 1, 1).is_ok());
    assert_eq!(
        validate_workload_profile("lab.workload_profile.v1", " ", "d", 1, 1).unwrap_err(),
        LabError::Validation("workload_id must be non-empty".to_string())
    );
    assert_eq!(
        validate_workload_profile("lab.workload_profile.v1", "w", "d", 0, 1).unwrap_err(),
        LabError::Validation("workload duration_seconds must be > 0".to_string())
    );
    assert_eq!(
        validate_workload_profile("lab.workload_profile.v1", "w", "d", 1, 0).unwrap_err(),
        LabError::Validation("workload measurement_requirements must be non-empty".to_string())
    );
}

#[test]
fn supported_claims_follow_counts() {
    assert!(supported_claims(0, 0, 0).is_empty());
    assert_eq!(
        supported_claims(2, 1, 0),
        vec![
            "target produced passive observation samples under the current target policy".to_string(),
            "target completed bounded workload short-smoke artifact(s) without recorded abort".to_string(),
        ]
    );
    assert_eq!(
        supported_claims(0, 1, 1),
        vec!["target produced bounded workload result artifact(s), but aborts block completion claims".to_string()]
    );
    assert_eq!(next_evidence_needed(0, 0, None).len(), 7);
}

fn workload() -> WorkloadProfile {
    WorkloadProfile {
        schema_version: "lab.workload_profile.v1".to_string(),
        workload_id: "bounded_cpu_load_2_workers_60s".to_string(),
        description: "Bounded CPU load with 2 workers for 60 seconds".to_string(),
        workload_class: WorkloadClass::SyntheticCpu,
        duration_seconds: 60,
        requirements: WorkloadRequirements {
            thermal_millicelsius_max: Some(75_000),
            max_abort_count: Some(0),
            memory_mb_max: None,
            latency_p95_micros_max: None,
        },
        measurement_requirements: vec![
            "cpu_busy_percent".to_string(),
            "temperature_celsius".to_string(),
            "frequency_khz".to_string(),
            "memory_available_kb".to_string(),
        ],
        claim_boundary: WorkloadClaimBoundary::SyntheticShortSmokeOnly,
    }
}

#[test]
fn capability_profile_extracts_observe_and_load_results() {
    let observation = ObservationResult {
        schema_version: "lab.observation_result.v1".to_string(),
        target_id: "pi4-demo".to_string(),
        duration_ms: 1_000,
        signals: vec![Signal::Cpu, Signal::Freq, Signal::Thermal, Signal::Memory],
        samples: vec![
            ObservationSample {
                sample_index: 0,
                cpu_total_ticks: Some(10),
                cpu_idle_ticks: Some(9),
                memory_available_kb: Some(1_024_000),
                avg_cpu_freq_khz: Some(600_000),
                max_temp_millicelsius: Some(45_000),
            },
            ObservationSample {
                sample_index: 1,
                cpu_total_ticks: Some(20),
                cpu_idle_ticks: Some(18),
                memory_available_kb: Some(1_000_000),
                avg_cpu_freq_khz: Some(1_800_000),
                max_temp_millicelsius: Some(54_000),
            },
        ],
    };
    let load = LoadResult {
        schema_version: "lab.load_result.v1".to_string(),
        result_id: "LOAD-RESULT-001".to_string(),
        load_id: "LOAD-001".to_string(),
        target_id: "pi4-demo".to_string(),
        status: "completed".to_string(),
        workers: 2,
        duration_ms: 60_000,
        abort_reason: None,
        max_observed_temp_millicelsius: Some(55_000),
        worker_iterations: vec![10, 11],
        safety_monitor: LoadSafetyMonitorResult {
            sample_interval_ms: 100,
            samples: 10,
            thermal_surface_available: true,
            operator_abort_observed: false,
            restore_on_abort_status: LoadRestoreOnAbortStatus::NotRequired,
        },
        time_unix_ms: 1,
    };
    let profile = target_capability_profile(
        "pi4-demo".to_string(),
        workload(),
        None,
        Some(manifest(Vec::new())),
        vec!["artifact://lab/runs/LAB-RUN-001/loads/LOAD-001.result.json".to_string()],
        vec![load],
        vec!["artifact://lab/runs/LAB-RUN-001/observations/observe.json".to_string()],
        vec![observation],
    )
    .unwrap();
    assert_eq!(profile.capability_status, TargetCapabilityStatus::MeasuredShortSmoke);
    assert_eq!(profile.observed_results.max_temp_millicelsius, Some(55_000));
    assert_eq!(profile.observed_results.abort_count, 0);
    assert_eq!(profile.observed_results.cpu_frequency_range_khz, Some(vec![600_000, 1_800_000]));
    assert_eq!(profile.observed_results.memory_available_kb_min, Some(1_000_000));
    assert_eq!(profile.observed_results.max_load_duration_ms, 60_000);
    assert_eq!(profile.observed_results.max_observation_duration_ms, 1_000);
    assert_eq!(profile.observed_results.load_result_count, 1);
    assert_eq!(profile.observed_results.observation_sample_count, 2);
    assert!(profile.evidence_refs.iter().all(|artifact| artifact.starts_with("artifact://lab/runs/")));
}
