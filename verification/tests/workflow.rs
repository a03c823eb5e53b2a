use adc_lab_core::error::LabError;
use adc_lab_core::run_validation::GovernorValidity;
use adc_lab_core::workflow::{
    cpu_thermal_characterization_steps, target_local_execution_guide, target_operating_contract_collect_plan,
    target_operating_contract_workflow_recommendation, validate_workflow_goal, WorkflowCollectPlanInput,
    WorkflowRecommendationInput, WorkflowRecommendationMode,
};
use adc_lab_core::workflow_profile::WorkflowProfileDepth;
use adc_lab_core::workflow_render::{render_codex_agent_instructions, render_collect_plan_agent_instructions};

fn s(x: &str) -> String {
    x.to_string()
}

fn plan_input(goal: &str, target: &str, depth: Option<WorkflowProfileDepth>) -> WorkflowCollectPlanInput {
    WorkflowCollectPlanInput {
        run_id: s("LAB-RUN-001"),
        goal: s(goal),
        profile_depth: depth,
        target: s(target),
        target_id: s("pi4"),
        target_class: s("raspberry_pi_4"),
        planned_run_dir: s("runs/LAB-RUN-001"),
        collect_plan_path: s("runs/LAB-RUN-001/workflow/collect_plan.json"),
        agent_instructions_path: s("runs/LAB-RUN-001/workflow/AGENT.md"),
        handoff_dir: s("handoff"),
        workflow_recommendation_path: s("runs/LAB-RUN-001/workflow/recommendation.json"),
        workflow_recommendation_ref: Some(s("artifact://rec")),
        workflow_recommendation_digest: None,
        workload_demand_path: s("inputs/workload_demand.json"),
        suitability_policy_path: s("inputs/policy.yaml"),
        expected_governors: Vec::new(),
        recommendation_mode: WorkflowRecommendationMode::OfflineRecommendation,
        network_endpoint: None,
    }
}

fn ids(steps: &[adc_lab_core::workflow::WorkflowCollectPlanStep]) -> Vec<&str> {
    steps.iter().map(|step| step.step_id.as_str()).collect()
}

#[test]
fn smoke_plan_for_local_target_lists_steps_in_order() {
    let plan = target_operating_contract_collect_plan(plan_input("target-operating-contract-smoke", "local", None)).unwrap();
    assert_eq!(
        ids(&plan.payload.steps),
        vec![
            "workflow_recommendation",
            "capability_check",
            "read_only_inventory",
            "toolchain_discover",
            "observe_baseline",
            "cpu_ladder",
            "pressure_probe_set",
            "composite_probe",
            "workload_demand",
            "governor_sweep_prepare",
            "governor_sweep_approve",
            "governor_sweep_run",
            "run_validation",
            "operating_contract",
            "suitability",
            "constraints",
            "constraints_self_check",
            "handoff_prepare",
            "archive",
            "checksum",
        ]
    );
    assert!(plan.payload.target_local_execution_guide.is_none());
    let validation = plan.payload.steps.iter().find(|step| step.step_id == "run_validation").unwrap();
    assert!(!validation.command_argv.contains(&s("--include-run")));
    assert!(validation.command_argv.contains(&s("ondemand,performance,powersave")));
    assert_eq!(plan.payload.expected_final_artifacts.last().unwrap(), "handoff/LAB-RUN-001.tgz");
    assert!(!plan.payload.packaging_is_target_evidence);
    assert!(plan.id.starts_with("WORKFLOW-COLLECT-PLAN-"));
}

#[test]
fn ssh_plan_stages_and_retrieves_workload_and_runs_sweep_target_local() {
    let mut input = plan_input("target-operating-contract-smoke", "ssh://pi@pi4.local", None);
    input.expected_governors = vec![s("performance")];
    let plan = target_operating_contract_collect_plan(input).unwrap();
    let order = ids(&plan.payload.steps);
    let w = order.iter().position(|id| *id == "workload_demand").unwrap();
    assert_eq!(order[w - 2], "prepare_target_local_workload_plan_dir");
    assert_eq!(order[w - 1], "stage_target_local_workload_plan");
    assert_eq!(order[w + 1], "prepare_target_local_workload_retrieval_parent");
    assert_eq!(order[w + 3], "retrieve_target_local_workload_demand");
    let run = plan.payload.steps.iter().find(|step| step.step_id == "governor_sweep_run").unwrap();
    assert_eq!(run.execution_location, "target_local");
    assert_eq!(run.command_argv[5], "local");
    assert!(run.requires_privileged_helper);
    assert!(run.command_argv.contains(&s("adc-lab-target-local-LAB-RUN-001")));
    let validation = plan.payload.steps.iter().find(|step| step.step_id == "run_validation").unwrap();
    assert_eq!(validation.command_argv[5], "--include-run");
    assert_eq!(validation.command_argv[6], "runs/LAB-RUN-001/included/target-local-governor-sweep");
    let guide = plan.payload.target_local_execution_guide.unwrap();
    assert_eq!(guide.ssh_invocation_template[1], "pi@pi4.local");
    assert_eq!(guide.failure_diagnostics.len(), 5);
}

#[test]
fn characterization_plan_uses_cpu_thermal_steps() {
    let plan = target_operating_contract_collect_plan(plan_input("target-characterization-full", "local", None)).unwrap();
    let order = ids(&plan.payload.steps);
    assert_eq!(order[4], "observe_baseline_60s");
    assert!(order.contains(&"sustained_bounded_load_300s"));
    assert!(!order.contains(&"cpu_ladder"));
    let sustained = plan.payload.steps.iter().find(|step| step.step_id == "sustained_bounded_load_300s").unwrap();
    assert_eq!(sustained.claim_gate, "sustained_300s_not_24h_safety");
    assert_eq!(sustained.validation_after_step.len(), 4);
}

#[test]
fn collect_plan_refuses_bad_goal_and_bad_target() {
    match target_operating_contract_collect_plan(plan_input("something-else", "local", None)) {
        Err(LabError::Validation(_)) => {}
        other => panic!("unexpected {:?}", other.map(|a| a.id)),
    }
    match target_operating_contract_collect_plan(plan_input("target-operating-contract-smoke", "ftp://x", None)) {
        Err(LabError::InvalidTarget(m)) => assert_eq!(m, "ftp://x"),
        other => panic!("unexpected {:?}", other.map(|a| a.id)),
    }
    match target_operating_contract_collect_plan(plan_input(
        "target-operating-contract-smoke",
        "local",
        Some(WorkflowProfileDepth::CharacterizationFull),
    )) {
        Err(LabError::Validation(m)) => {
            assert_eq!(m, "target-operating-contract-smoke requires --profile-depth smoke")
        }
        other => panic!("unexpected {:?}", other.map(|a| a.id)),
    }
}

#[test]
fn every_step_keeps_outcomes_disjoint() {
    let plan = target_operating_contract_collect_plan(plan_input("target-operating-contract-smoke", "ssh://pi4", None)).unwrap();
    for step in &plan.payload.steps {
        for outcome in &step.continue_on {
            assert!(!step.stop_on.contains(outcome), "{}", step.step_id);
        }
        if step.requires_privileged_helper {
            assert_eq!(step.step_id, "governor_sweep_run");
        }
    }
}

#[test]
fn recommendation_adds_runner_note_for_ssh() {
    let input = WorkflowRecommendationInput {
        run_id: s("LAB-RUN-001"),
        goal: s("target-operating-contract-fullset"),
        profile_depth: Some(WorkflowProfileDepth::Smoke),
        target: s("ssh://pi4"),
        target_id: s("pi4"),
        target_class: s("raspberry_pi_4"),
        recommendation_mode: WorkflowRecommendationMode::CapabilityCheckedRecommendation,
    };
    let rec = target_operating_contract_workflow_recommendation(input).unwrap();
    assert_eq!(rec.payload.must_use.len(), 4);
    assert_eq!(rec.payload.effective_profile, "target-operating-contract-smoke");
    assert_eq!(rec.payload.source_of_truth_chain[0], "workflow.recommendation");
    let md = render_codex_agent_instructions(&rec, false);
    assert!(md.starts_with("# adc-lab Controller Agent Instructions\n\n## Workflow Authority\n\n"));
    assert!(md.contains("## SSH Target Runner Boundary"));
    assert!(md.contains("- next_step: collect plan PR after it is available;"));
    assert!(md.contains("- `reports/GAPS.md`\n"));
}

#[test]
fn legacy_goal_without_depth_is_refused() {
    let input = WorkflowRecommendationInput {
        run_id: s("LAB-RUN-001"),
        goal: s("target-operating-contract-fullset"),
        profile_depth: None,
        target: s("local"),
        target_id: s("pi4"),
        target_class: s("raspberry_pi_4"),
        recommendation_mode: WorkflowRecommendationMode::OfflineRecommendation,
    };
    assert!(matches!(target_operating_contract_workflow_recommendation(input), Err(LabError::Validation(_))));
}

#[test]
fn validate_goal_names_supported_profiles() {
    assert!(validate_workflow_goal("target-characterization-full").is_ok());
    match validate_workflow_goal("x") {
        Err(LabError::Validation(m)) => assert_eq!(
            m,
            "unsupported workflow profile x; expected target-operating-contract-smoke, target-characterization-full, or legacy target-operating-contract-fullset with --profile-depth"
        ),
        _ => panic!("expected refusal"),
    }
}

#[test]
fn rendered_plan_lists_json_argv_and_outcomes() {
    let plan = target_operating_contract_collect_plan(plan_input("target-operating-contract-smoke", "local", None)).unwrap();
    let md = render_collect_plan_agent_instructions(&plan);
    assert!(md.starts_with("# adc-lab Collect Plan Instructions\n\n"));
    assert!(md.contains("### `archive`\n\n- phase: `handoff`\n"));
    assert!(md.contains("- continue_on: `[\"measured\",\"insufficient\",\"not_applicable\"]`\n"));
    assert!(md.contains("- argv: `[\"sha256sum\",\"handoff/LAB-RUN-001.tgz\"]`\n"));
    assert!(md.contains("  - `handoff/LAB-RUN-001.tgz`\n"));
    assert!(!md.contains("For target_local execution"));
    assert!(md.ends_with("does not change measurement validity.\n"));
}

#[test]
fn rendered_argv_escapes_quotes() {
    let mut input = plan_input("target-operating-contract-smoke", "local", None);
    input.handoff_dir = s("hand\"off");
    let plan = target_operating_contract_collect_plan(input).unwrap();
    let md = render_collect_plan_agent_instructions(&plan);
    assert!(md.contains("[\"mkdir\",\"-p\",\"hand\\\"off\"]"));
}

#[test]
fn characterization_steps_cool_down_after_load() {
    let steps = cpu_thermal_characterization_steps("local", "runs/R");
    assert_eq!(steps.len(), 14);
    assert_eq!(steps[2].command_argv[10], "75");
    assert_eq!(steps[2].continue_on, vec![GovernorValidity::Measured, GovernorValidity::Insufficient]);
    assert_eq!(
        steps[0].validation_after_step[0],
        "duration=60s; workers=not_applicable; abort_temp_c=not_applicable_read_only; cooldown_expectation=baseline_context"
    );
}

#[test]
fn local_target_has_no_guide() {
    assert!(target_local_execution_guide(false, "local").is_none());
    assert!(target_local_execution_guide(true, "pi4").is_some());
}
