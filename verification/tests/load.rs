use adc_lab_core::error::LabError;
use adc_lab_core::load::{
    new_cpu_load_plan, new_cpu_load_plan_with_operator_abort, validate_cpu_load_run, LOAD_SAFETY_MONITOR_INTERVAL_MS,
    MAX_CPU_LOAD_DURATION_SECONDS,
};

#[test]
fn contract_validation_cpu_load_rejects_operator_abort_mismatch() {
    let plan = new_cpu_load_plan_with_operator_abort("local-target".to_string(), 1, 1, 0, None, true, 4).unwrap();
    let error = validate_cpu_load_run(&plan, false).unwrap_err();
    assert!(error.message().contains("operator abort"));
}

#[test]
fn contract_validation_cpu_load_rejects_monitor_contract_mismatch() {
    let mut plan = new_cpu_load_plan("local-target".to_string(), 1, 1, 0, Some(75_000), 4).unwrap();
    plan.safety_monitor.thermal_abort_millicelsius = Some(80_000);
    let error = validate_cpu_load_run(&plan, false).unwrap_err();
    assert!(error.message().contains("thermal abort"));
}

#[test]
fn contract_validation_cpu_load_rejects_unbounded_duration() {
    let error = new_cpu_load_plan("local-target".to_string(), 1, MAX_CPU_LOAD_DURATION_SECONDS + 1, 0, None, 4).unwrap_err();
    assert!(error.message().contains("duration"));
}

#[test]
fn contract_validation_cpu_load_rejects_worker_excess() {
    let available = 4;
    let error = new_cpu_load_plan("local-target".to_string(), available + 1, 1, 0, None, available).unwrap_err();
    assert!(error.message().contains("workers"));
    assert_eq!(
        error,
        LabError::Policy("cpu load workers must be <= available parallelism (4) by default policy".to_string())
    );
}

#[test]
fn sub_second_load_runs_for_one_second_with_policy_monitor() {
    let plan = new_cpu_load_plan("local-target".to_string(), 1, 0, 100_000_000, None, 4).unwrap();
    assert_eq!(plan.duration_seconds, 1);
    assert_eq!(plan.safety_monitor.sample_interval_ms, LOAD_SAFETY_MONITOR_INTERVAL_MS);
    assert!(plan.load_id.starts_with("LOAD-"));
    assert!(validate_cpu_load_run(&plan, false).is_ok());
}

#[test]
fn zero_workers_and_zero_duration_are_invalid() {
    assert_eq!(
        new_cpu_load_plan("t".to_string(), 0, 1, 0, None, 4).unwrap_err(),
        LabError::Validation("workers must be >= 1".to_string())
    );
    assert_eq!(
        new_cpu_load_plan("t".to_string(), 1, 0, 0, None, 4).unwrap_err(),
        LabError::Validation("duration must be > 0".to_string())
    );
}
