use adc_lab_core::contracts::{
    SuitabilityConfidence, SuitabilityDecisionValue, SuitabilityDimensionDecision, SuitabilityDimensionKind,
};
use adc_lab_core::evidence::envelope::{fresh_artifact, Kind, Status};
use adc_lab_core::suitability::{
    check_generated_constraints_markdown, check_generated_constraints_v2, decide_policy_dimensions,
    GeneratedConstraintsFile, render_agent_constraints_markdown,
    unique_dimensions, ConstraintsPayload, SuitabilityArtifactContext, TargetRunPressureEvidence,
};

fn measured(dimension: SuitabilityDimensionKind, decision: SuitabilityDecisionValue) -> SuitabilityDimensionDecision {
    SuitabilityDimensionDecision {
        dimension,
        decision,
        requirement: "measured".to_string(),
        observed_demand: None,
        target_envelope: None,
        margin: None,
        confidence: SuitabilityConfidence::Medium,
        target_conditioned: true,
        portable_between_targets: false,
        evidence_refs: Vec::new(),
        unknown_reason: None,
        next_evidence_needed: Vec::new(),
    }
}

fn context() -> SuitabilityArtifactContext {
    SuitabilityArtifactContext {
        target_contract_ref: "artifact://contract".to_string(),
        workload_ref: "artifact://workload".to_string(),
        policy_ref: "artifact://policy".to_string(),
        run_id: "LAB-RUN-1".to_string(),
    }
}

#[test]
fn policy_dimensions_are_decided_once_in_first_seen_order() {
    let required = vec![SuitabilityDimensionKind::Cpu, SuitabilityDimensionKind::StorageIo, SuitabilityDimensionKind::Cpu];
    let optional = vec![SuitabilityDimensionKind::Observer, SuitabilityDimensionKind::StorageIo, SuitabilityDimensionKind::Thermal];
    assert_eq!(unique_dimensions(&required, &optional), vec![SuitabilityDimensionKind::Cpu, SuitabilityDimensionKind::StorageIo, SuitabilityDimensionKind::Observer, SuitabilityDimensionKind::Thermal]);
    let pressure: Vec<TargetRunPressureEvidence> = Vec::new();
    let dims = decide_policy_dimensions(
        &required,
        &optional,
        measured(SuitabilityDimensionKind::Cpu, SuitabilityDecisionValue::Meet),
        measured(SuitabilityDimensionKind::Thermal, SuitabilityDecisionValue::Marginal),
        measured(SuitabilityDimensionKind::Memory, SuitabilityDecisionValue::Fail),
        &pressure,
        &context(),
    );
    let kinds: Vec<_> = dims.iter().map(|d| d.dimension).collect();
    assert_eq!(kinds, vec![SuitabilityDimensionKind::Cpu, SuitabilityDimensionKind::StorageIo, SuitabilityDimensionKind::Observer, SuitabilityDimensionKind::Thermal]);
    assert_eq!(dims[0], measured(SuitabilityDimensionKind::Cpu, SuitabilityDecisionValue::Meet));
    assert_eq!(dims[1].decision, SuitabilityDecisionValue::Unknown);
    assert_eq!(dims[1].unknown_reason.as_deref(), Some("storage_io pressure evidence is missing"));
    assert_eq!(dims[1].evidence_refs, vec!["artifact://workload".to_string(), "artifact://contract".to_string()]);
    assert_eq!(dims[3].decision, SuitabilityDecisionValue::Marginal);
}

#[test]
fn rendered_agent_constraints_pass_the_markdown_check() {
    let payload = ConstraintsPayload {
        source_suitability_id: "SUITABILITY-1".to_string(),
        workload_id: Some("w".to_string()),
        policy_id: None,
        allowed_patterns: Vec::new(),
        burst_only_patterns: Vec::new(),
        degraded_mode_triggers: vec!["thermal margin shrinks".to_string()],
        forbidden_patterns: vec!["unbounded retries".to_string()],
        budget_constraints: Vec::new(),
        required_runtime_guards: vec!["watch memory".to_string()],
        blocked_claims: vec!["target.selection.production_ready".to_string(), "custom.claim".to_string()],
        agent_instructions: vec!["read the constraints".to_string()],
        ci_rules: Vec::new(),
    };
    let constraints =
        fresh_artifact(Kind::ReportConstraints, "CONSTRAINTS", "LAB-RUN-1".to_string(), "pi4".to_string(), Status::MeasuredPartial, payload);
    let md = render_agent_constraints_markdown(&constraints, "artifact://suitability");
    let mut matches = Vec::new();
    check_generated_constraints_markdown(&constraints, "AGENTS.md", &md, &mut matches);
    assert!(matches.is_empty());
    check_generated_constraints_markdown(&constraints, "AGENTS.md", "# Target Constraints\n", &mut matches);
    assert!(!matches.is_empty());
    let check = check_generated_constraints_v2(&constraints, "AGENTS.md".to_string(), &GeneratedConstraintsFile::Markdown(md));
    assert_eq!(check.payload.status, "pass");
    assert!(check.payload.matches.is_empty());
    assert_eq!(check.status, Status::MeasuredPartial);
    assert_eq!(check.run_id, "LAB-RUN-1");
    let dir = check_generated_constraints_v2(&constraints, "out".to_string(), &GeneratedConstraintsFile::Directory);
    assert_eq!(dir.payload.status, "fail");
    assert_eq!(dir.payload.matches[0].blocked_claim, "generated constraints self-check expects a generated file path");
}
