use adc_lab_core::build_info::build_info;
use adc_lab_core::contracts::{
    ClaimDecision, ExperimentFactor, ExperimentMatrix, FactorKind,
    PrivilegeProviderAvailability, PrivilegeProviderTransport, PrivilegeSetupPlanKind,
};
use adc_lab_core::control::{CPUFREQ_SET_GOVERNOR, DEFAULT_PRIV_HELPER};
use adc_lab_core::experiment::run_experiment_matrix;
use adc_lab_core::privilege::{
    privilege_install_plan, privilege_provider_status, OPTION_A_PROVIDER_ID, OPTION_B_PROVIDER_ID,
};

#[test]
fn build_info_has_required_fields() {
    let value = build_info("adc-lab");
    assert_eq!(value.name, "adc-lab");
    assert!(!value.version.is_empty());
    assert!(!value.git_sha.is_empty());
    assert!(!value.target_triple.is_empty());
    assert!(!value.build_profile.is_empty());
}

#[test]
fn contract_validation_matrix_expands_trials() {
    let matrix = ExperimentMatrix {
        schema_version: "lab.experiment_matrix.v1".to_string(),
        matrix_id: "MATRIX-001".to_string(),
        description: "smoke".to_string(),
        factors: vec![ExperimentFactor {
            name: "governor".to_string(),
            kind: FactorKind::ControlledFactor,
            levels: vec!["ondemand".to_string(), "performance".to_string()],
        }],
        warmup_seconds: 0,
        cooldown_seconds: 0,
        repetitions: 2,
        order: "listed".to_string(),
    };
    let (run, trace) =
        run_experiment_matrix(&matrix, "LAB-RUN-001".to_string(), "pi4".to_string(), true);
    assert_eq!(run.trials.len(), 4);
    assert_eq!(trace.claims.len(), 2);
}

#[test]
fn contract_validation_non_dry_matrix_does_not_claim_execution() {
    let matrix = ExperimentMatrix {
        schema_version: "lab.experiment_matrix.v1".to_string(),
        matrix_id: "MATRIX-001".to_string(),
        description: "smoke".to_string(),
        factors: vec![ExperimentFactor {
            name: "governor".to_string(),
            kind: FactorKind::ControlledFactor,
            levels: vec!["ondemand".to_string()],
        }],
        warmup_seconds: 0,
        cooldown_seconds: 0,
        repetitions: 1,
        order: "listed".to_string(),
    };
    let (run, trace) =
        run_experiment_matrix(&matrix, "LAB-RUN-001".to_string(), "pi4".to_string(), false);
    assert_eq!(run.trials[0].status, "not_implemented");
    assert!(trace
        .claims
        .iter()
        .all(|claim| claim.decision != ClaimDecision::Supported));
}

#[test]
fn privilege_provider_status_keeps_option_a_active_and_option_b_disabled() {
    let status = privilege_provider_status("local-target".to_string());
    assert_eq!(status.schema_version, "lab.privilege_provider_status.v1");
    assert_eq!(status.active_provider_id, OPTION_A_PROVIDER_ID);

    let option_a = status
        .providers
        .iter()
        .find(|provider| provider.provider_id == OPTION_A_PROVIDER_ID)
        .unwrap();
    assert_eq!(option_a.availability, PrivilegeProviderAvailability::Active);
    assert_eq!(option_a.transport, PrivilegeProviderTransport::SudoExec);
    assert_eq!(option_a.endpoint, DEFAULT_PRIV_HELPER);
    assert_eq!(option_a.operations_allowed, vec![CPUFREQ_SET_GOVERNOR]);
    assert!(option_a.default_enabled);

    let option_b = status
        .providers
        .iter()
        .find(|provider| provider.provider_id == OPTION_B_PROVIDER_ID)
        .unwrap();
    assert_eq!(
        option_b.availability,
        PrivilegeProviderAvailability::PlannedDisabled
    );
    assert_eq!(option_b.transport, PrivilegeProviderTransport::UnixSocket);
    assert!(option_b.operations_allowed.is_empty());
    assert!(!option_b.default_enabled);
}

#[test]
fn privilege_install_plan_is_instruction_only_for_fixed_helper() {
    let plan = privilege_install_plan("local-target".to_string(), None);
    assert_eq!(plan.schema_version, "lab.privilege_setup_plan.v1");
    assert_eq!(plan.plan_kind, PrivilegeSetupPlanKind::Install);
    assert_eq!(plan.helper_path, DEFAULT_PRIV_HELPER);
    assert!(plan.commands.iter().any(|command| command
        .contains("sudo install -o root -g root -m 0755 ./adc-lab-priv-helper")));
    assert!(plan
        .verification_commands
        .iter()
        .any(|command| command.contains("sudo -n")));
}
