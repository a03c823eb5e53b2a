//! Workflow authority: the recommendation of how a target operating
//! contract is collected, and the executable collect plan, a list of argv
//! steps with their claim gates and continuation rules.

use crate::build_info::{build_info, BUILD_VERSION, UNKNOWN};
use crate::contracts::BuildInfo;
use crate::error::{LabError, LabResult};
use crate::evidence::envelope::{fresh_artifact, Artifact, DataQuality, DataQualityLevel, Kind, Status, ARTIFACT_SCHEMA_V2};
use crate::run_validation::{copy_opt, opt_view, GovernorValidity};
use crate::target::{parsed_target, TargetSpec, TargetTransport};
use crate::text::{concat, copy_all, extend_all, join, join_seq, owned, owned_all, starts_with, is_prefix, str_eq, str_views, views};
use crate::workflow_profile::{
    depth_claim_boundary, depth_coverage, depth_name, depth_profile, depth_safety_caps, depth_summary, resolve_workflow_profile,
    resolved_depth, supported_profile_spec, supported_validation_profile, WorkflowProfileDepth, WORKFLOW_PROFILE_CHARACTERIZATION_FULL,
    WORKFLOW_PROFILE_LEGACY_FULLSET, WORKFLOW_PROFILE_SMOKE,
};
use vstd::prelude::*;

verus! {

pub const WORKFLOW_ID_TARGET_OPERATING_CONTRACT_FULLSET_V023: &'static str = "target-operating-contract-fullset.v0.2.3";

pub const COLLECT_PLAN_DEFERRED_NEXT_STEP: &'static str =
    "collect plan PR after it is available; stop before claim-producing full-set execution and report adc-lab version/capability mismatch";

pub const THERMAL_ABORT_C: &'static str = "75";

#[derive(Debug, Clone, Copy, PartialEq, Eq, Structural)]
pub enum WorkflowRecommendationMode {
    OfflineRecommendation,
    CapabilityCheckedRecommendation,
}

#[derive(Debug, Clone, Copy, PartialEq, Eq, Structural)]
pub struct WorkflowVersionPolicy {
    pub claim_producing_run_requires_no_skew: bool,
    pub allow_skew_override_records_gap: bool,
    pub skew_blocks_fullset_measured_claims: bool,
}

#[derive(Debug, Clone, PartialEq, Eq)]
pub struct WorkflowEvidencePolicy {
    pub recommendation_is_target_measurement_evidence: bool,
    pub raw_primitives_are_claim_producing: bool,
    pub causal_linkage_required: bool,
    pub forbidden_linkage_sources: Vec<String>,
}

#[derive(Debug, Clone, PartialEq, Eq)]
pub struct WorkflowRecommendationPayload {
    pub goal: String,
    pub effective_profile: String,
    pub profile_depth: WorkflowProfileDepth,
    pub profile_summary: String,
    pub claim_boundary: String,
    pub coverage: String,
    pub safety_caps: String,
    pub workflow_id: String,
    pub recommendation_mode: WorkflowRecommendationMode,
    pub controller_adc_lab: BuildInfo,
    pub target: String,
    pub target_id: String,
    pub target_class: String,
    pub source_of_truth_chain: Vec<String>,
    pub must_use: Vec<String>,
    pub must_not_use_for_claims: Vec<String>,
    pub forbidden_patterns: Vec<String>,
    pub expected_outputs: Vec<String>,
    pub version_policy: WorkflowVersionPolicy,
    pub evidence_policy: WorkflowEvidencePolicy,
    pub next_step: String,
}

#[derive(Debug, Clone, PartialEq, Eq)]
pub struct WorkflowCollectPlanStep {
    pub step_id: String,
    pub phase: String,
    pub command_argv: Vec<String>,
    pub working_directory_policy: String,
    pub execution_location: String,
    pub requires_target_local: bool,
    pub requires_controller: bool,
    pub requires_approval_policy: bool,
    pub requires_privileged_helper: bool,
    pub expected_artifact_kinds: Vec<String>,
    pub expected_artifact_paths_or_globs: Vec<String>,
    pub claim_gate: String,
    pub continue_on: Vec<GovernorValidity>,
    pub stop_on: Vec<GovernorValidity>,
    pub validation_after_step: Vec<String>,
    pub human_summary: String,
}

#[derive(Debug, Clone, PartialEq, Eq)]
pub struct WorkflowContinuationRule {
    pub outcome: GovernorValidity,
    pub semantics: String,
}

#[derive(Debug, Clone, PartialEq, Eq)]
pub struct WorkflowTargetLocalEnvRequirement {
    pub name: String,
    pub value: String,
    pub required_when: String,
}

#[derive(Debug, Clone, PartialEq, Eq)]
pub struct WorkflowTargetLocalFailureDiagnostic {
    pub category: String,
    pub signal: String,
    pub operator_action: String,
}

#[derive(Debug, Clone, PartialEq, Eq)]
pub struct WorkflowTargetLocalExecutionGuide {
    pub applies_to_execution_location: String,
    pub working_directory_policy: String,
    pub path_prepend: Vec<String>,
    pub env: Vec<WorkflowTargetLocalEnvRequirement>,
    pub argv_semantics: String,
    pub ssh_invocation_template: Vec<String>,
    pub failure_diagnostics: Vec<WorkflowTargetLocalFailureDiagnostic>,
}

#[derive(Debug, Clone, PartialEq, Eq)]
pub struct WorkflowCollectPlanPayload {
    pub goal: String,
    pub effective_profile: String,
    pub profile_depth: WorkflowProfileDepth,
    pub profile_summary: String,
    pub claim_boundary: String,
    pub coverage: String,
    pub safety_caps: String,
    pub workflow_id: String,
    pub recommendation_mode: WorkflowRecommendationMode,
    pub controller_adc_lab: BuildInfo,
    pub target: String,
    pub target_id: String,
    pub target_class: String,
    pub workflow_recommendation_ref: Option<String>,
    pub workflow_recommendation_digest: Option<String>,
    pub planned_run_dir: String,
    pub source_of_truth_chain: Vec<String>,
    pub steps: Vec<WorkflowCollectPlanStep>,
    pub continuation_semantics: Vec<WorkflowContinuationRule>,
    pub target_local_execution_guide: Option<WorkflowTargetLocalExecutionGuide>,
    pub expected_final_artifacts: Vec<String>,
    pub packaging_is_target_evidence: bool,
    pub packaging_failure_blocks_handoff: bool,
}

pub struct WorkflowRecommendationInput {
    pub run_id: String,
    pub goal: String,
    pub profile_depth: Option<WorkflowProfileDepth>,
    pub target: String,
    pub target_id: String,
    pub target_class: String,
    pub recommendation_mode: WorkflowRecommendationMode,
}

pub struct WorkflowCollectPlanInput {
    pub run_id: String,
    pub goal: String,
    pub profile_depth: Option<WorkflowProfileDepth>,
    pub target: String,
    pub target_id: String,
    pub target_class: String,
    pub planned_run_dir: String,
    pub collect_plan_path: String,
    pub agent_instructions_path: String,
    pub handoff_dir: String,
    pub workflow_recommendation_path: String,
    pub workflow_recommendation_ref: Option<String>,
    pub workflow_recommendation_digest: Option<String>,
    pub workload_demand_path: String,
    pub suitability_policy_path: String,
    pub expected_governors: Vec<String>,
    pub recommendation_mode: WorkflowRecommendationMode,
    pub network_endpoint: Option<String>,
}

/// A collect plan step as a value: every field by its view.
pub struct StepModel {
    pub step_id: Seq<char>,
    pub phase: Seq<char>,
    pub command_argv: Seq<Seq<char>>,
    pub working_directory_policy: Seq<char>,
    pub execution_location: Seq<char>,
    pub requires_target_local: bool,
    pub requires_controller: bool,
    pub requires_approval_policy: bool,
    pub requires_privileged_helper: bool,
    pub expected_artifact_kinds: Seq<Seq<char>>,
    pub expected_artifact_paths_or_globs: Seq<Seq<char>>,
    pub claim_gate: Seq<char>,
    pub continue_on: Seq<GovernorValidity>,
    pub stop_on: Seq<GovernorValidity>,
    pub validation_after_step: Seq<Seq<char>>,
    pub human_summary: Seq<char>,
}

impl View for WorkflowCollectPlanStep {
    type V = StepModel;

    open spec fn view(&self) -> StepModel {
        StepModel {
            step_id: self.step_id@,
            phase: self.phase@,
            command_argv: views(self.command_argv@),
            working_directory_policy: self.working_directory_policy@,
            execution_location: self.execution_location@,
            requires_target_local: self.requires_target_local,
            requires_controller: self.requires_controller,
            requires_approval_policy: self.requires_approval_policy,
            requires_privileged_helper: self.requires_privileged_helper,
            expected_artifact_kinds: views(self.expected_artifact_kinds@),
            expected_artifact_paths_or_globs: views(self.expected_artifact_paths_or_globs@),
            claim_gate: self.claim_gate@,
            continue_on: self.continue_on@,
            stop_on: self.stop_on@,
            validation_after_step: views(self.validation_after_step@),
            human_summary: self.human_summary@,
        }
    }
}

/// The models of a list of steps.
pub open spec fn step_models(steps: Seq<WorkflowCollectPlanStep>) -> Seq<StepModel> {
    steps.map_values(|s: WorkflowCollectPlanStep| s@)
}

/// A plan step run on the controller.
fn collect_step(
    step_id: &str,
    phase: &str,
    command_argv: Vec<String>,
    working_directory_policy: &str,
    requires_target_local: bool,
    requires_approval_policy: bool,
    requires_privileged_helper: bool,
    expected_artifact_kinds: Vec<String>,
    expected_artifact_paths_or_globs: Vec<String>,
    claim_gate: &str,
    continue_on: Vec<GovernorValidity>,
    stop_on: Vec<GovernorValidity>,
    validation_after_step: Vec<String>,
    human_summary: &str,
) -> (s: WorkflowCollectPlanStep)
    ensures
        s@ == (StepModel {
            step_id: step_id@,
            phase: phase@,
            command_argv: views(command_argv@),
            working_directory_policy: working_directory_policy@,
            execution_location: "controller"@,
            requires_target_local,
            requires_controller: true,
            requires_approval_policy,
            requires_privileged_helper,
            expected_artifact_kinds: views(expected_artifact_kinds@),
            expected_artifact_paths_or_globs: views(expected_artifact_paths_or_globs@),
            claim_gate: claim_gate@,
            continue_on: continue_on@,
            stop_on: stop_on@,
            validation_after_step: views(validation_after_step@),
            human_summary: human_summary@,
        }),
{
    collect_step_at(step_id, phase, command_argv, working_directory_policy, "controller", true,
        requires_target_local, requires_approval_policy, requires_privileged_helper, expected_artifact_kinds,
        expected_artifact_paths_or_globs, claim_gate, continue_on, stop_on, validation_after_step, human_summary)
}

#[allow(clippy::too_many_arguments)]
fn collect_step_at(
    step_id: &str,
    phase: &str,
    command_argv: Vec<String>,
    working_directory_policy: &str,
    execution_location: &str,
    requires_controller: bool,
    requires_target_local: bool,
    requires_approval_policy: bool,
    requires_privileged_helper: bool,
    expected_artifact_kinds: Vec<String>,
    expected_artifact_paths_or_globs: Vec<String>,
    claim_gate: &str,
    continue_on: Vec<GovernorValidity>,
    stop_on: Vec<GovernorValidity>,
    validation_after_step: Vec<String>,
    human_summary: &str,
) -> (s: WorkflowCollectPlanStep)
    ensures
        s@ == (StepModel {
            step_id: step_id@,
            phase: phase@,
            command_argv: views(command_argv@),
            working_directory_policy: working_directory_policy@,
            execution_location: execution_location@,
            requires_target_local,
            requires_controller,
            requires_approval_policy,
            requires_privileged_helper,
            expected_artifact_kinds: views(expected_artifact_kinds@),
            expected_artifact_paths_or_globs: views(expected_artifact_paths_or_globs@),
            claim_gate: claim_gate@,
            continue_on: continue_on@,
            stop_on: stop_on@,
            validation_after_step: views(validation_after_step@),
            human_summary: human_summary@,
        }),
{
    WorkflowCollectPlanStep {
        step_id: owned(step_id),
        phase: owned(phase),
        command_argv,
        working_directory_policy: owned(working_directory_policy),
        execution_location: owned(execution_location),
        requires_target_local,
        requires_controller,
        requires_approval_policy,
        requires_privileged_helper,
        expected_artifact_kinds,
        expected_artifact_paths_or_globs,
        claim_gate: owned(claim_gate),
        continue_on,
        stop_on,
        validation_after_step,
        human_summary: owned(human_summary),
    }
}

/// A read-only observation step of the CPU/thermal characterization.
pub open spec fn observe_model(
    id: Seq<char>,
    target: Seq<char>,
    run_dir: Seq<char>,
    duration: Seq<char>,
    cooldown: Seq<char>,
    summary: Seq<char>,
) -> StepModel {
    StepModel {
        step_id: id,
        phase: "read_only"@,
        command_argv: seq!["adc-lab"@, "observe"@, "--target"@, target, "--duration"@, duration, "--sample-interval"@, "1s"@,
            "--run-dir"@, run_dir, "--json"@],
        working_directory_policy: "repository_root"@,
        execution_location: "controller"@,
        requires_target_local: false,
        requires_controller: true,
        requires_approval_policy: false,
        requires_privileged_helper: false,
        expected_artifact_kinds: seq!["observation"@],
        expected_artifact_paths_or_globs: Seq::empty(),
        claim_gate: "cpu_thermal_context_not_claim_producing"@,
        continue_on: seq![GovernorValidity::Measured, GovernorValidity::Insufficient],
        stop_on: seq![GovernorValidity::Refused, GovernorValidity::Unknown],
        validation_after_step: seq![
            "duration="@ + duration + "; workers=not_applicable; abort_temp_c=not_applicable_read_only; cooldown_expectation="@ + cooldown,
            "passive observation is context, not a controlled CPU/thermal claim by itself"@,
        ],
        human_summary: summary,
    }
}

/// A bounded CPU load step of the CPU/thermal characterization; the 300s
/// sustained step carries its own claim gate and notes.
pub open spec fn load_model(
    id: Seq<char>,
    target: Seq<char>,
    run_dir: Seq<char>,
    workers: Seq<char>,
    duration: Seq<char>,
    cooldown: Seq<char>,
    summary: Seq<char>,
) -> StepModel {
    let sustained = duration == "300s"@;
    StepModel {
        step_id: id,
        phase: "load"@,
        command_argv: seq!["adc-lab"@, "load"@, "cpu"@, "--target"@, target, "--workers"@, workers, "--duration"@, duration,
            "--abort-temp-c"@, THERMAL_ABORT_C@, "--run-dir"@, run_dir, "--json"@],
        working_directory_policy: "repository_root"@,
        execution_location: "controller"@,
        requires_target_local: false,
        requires_controller: true,
        requires_approval_policy: false,
        requires_privileged_helper: false,
        expected_artifact_kinds: seq!["load"@],
        expected_artifact_paths_or_globs: Seq::empty(),
        claim_gate: if sustained { "sustained_300s_not_24h_safety"@ } else { "cpu_ladder_or_repeatability_not_production_safety"@ },
        continue_on: seq![GovernorValidity::Measured, GovernorValidity::Insufficient],
        stop_on: seq![GovernorValidity::Refused, GovernorValidity::Contaminated],
        validation_after_step: seq![
            "duration="@ + duration + "; workers="@ + workers + "; abort_temp_c="@ + THERMAL_ABORT_C@ + "C; cooldown_expectation="@ + cooldown,
            "thermal abort threshold and operator abort handling bound this experiment"@,
        ] + (if sustained {
            seq![
                "300s bounded evidence does not support 24h sustained thermal safety"@,
                "optional approved 900s profile remains disabled by default"@,
            ]
        } else {
            Seq::empty()
        }),
        human_summary: summary,
    }
}

#[allow(clippy::too_many_arguments)]
fn step(
    step_id: &str,
    phase: &str,
    command_argv: Vec<String>,
    expected_artifact_kinds: Vec<String>,
    claim_gate: &str,
    continue_on: Vec<GovernorValidity>,
    stop_on: Vec<GovernorValidity>,
    validation_after_step: Vec<String>,
    human_summary: &str,
) -> (s: WorkflowCollectPlanStep)
    ensures
        s@ == (StepModel {
            step_id: step_id@,
            phase: phase@,
            command_argv: views(command_argv@),
            working_directory_policy: "repository_root"@,
            execution_location: "controller"@,
            requires_target_local: false,
            requires_controller: true,
            requires_approval_policy: false,
            requires_privileged_helper: false,
            expected_artifact_kinds: views(expected_artifact_kinds@),
            expected_artifact_paths_or_globs: Seq::empty(),
            claim_gate: claim_gate@,
            continue_on: continue_on@,
            stop_on: stop_on@,
            validation_after_step: views(validation_after_step@),
            human_summary: human_summary@,
        }),
{
    let no_paths: Vec<String> = Vec::new();
    proof {
        assert(views(no_paths@) =~= Seq::<Seq<char>>::empty());
    }
    collect_step(step_id, phase, command_argv, "repository_root", false, false, false,
        expected_artifact_kinds, no_paths, claim_gate, continue_on, stop_on, validation_after_step, human_summary)
}

fn observe_step(step_id: &str, target: &str, run_dir: &str, duration: &str, cooldown_expectation: &str, human_summary: &str)
    -> (s: WorkflowCollectPlanStep)
    ensures
        s@ == observe_model(step_id@, target@, run_dir@, duration@, cooldown_expectation@, human_summary@),
{
    let argv_items: Vec<&str> = vec!["adc-lab", "observe", "--target", target, "--duration", duration, "--sample-interval", "1s",
        "--run-dir", run_dir, "--json"];
    let kinds_items: Vec<&str> = vec!["observation"];
    let a = concat("duration=", duration);
    let b = concat(a.as_str(), "; workers=not_applicable; abort_temp_c=not_applicable_read_only; cooldown_expectation=");
    let note = concat(b.as_str(), cooldown_expectation);
    let note_items: Vec<&str> = vec![note.as_str(), "passive observation is context, not a controlled CPU/thermal claim by itself"];
    let cont: Vec<GovernorValidity> = vec![GovernorValidity::Measured, GovernorValidity::Insufficient];
    let stop: Vec<GovernorValidity> = vec![GovernorValidity::Refused, GovernorValidity::Unknown];
    let ghost m = observe_model(step_id@, target@, run_dir@, duration@, cooldown_expectation@, human_summary@);
    proof {
        assert(str_views(argv_items@) =~= m.command_argv);
        assert(str_views(kinds_items@) =~= m.expected_artifact_kinds);
        assert(str_views(note_items@) =~= m.validation_after_step);
        assert(cont@ =~= m.continue_on);
        assert(stop@ =~= m.stop_on);
    }
    step(step_id, "read_only", owned_all(&argv_items), owned_all(&kinds_items), "cpu_thermal_context_not_claim_producing", cont, stop,
        owned_all(&note_items), human_summary)
}

fn load_step(
    step_id: &str,
    target: &str,
    run_dir: &str,
    workers: &str,
    duration: &str,
    cooldown_expectation: &str,
    human_summary: &str,
) -> (s: WorkflowCollectPlanStep)
    ensures
        s@ == load_model(step_id@, target@, run_dir@, workers@, duration@, cooldown_expectation@, human_summary@),
{
    let ghost m = load_model(step_id@, target@, run_dir@, workers@, duration@, cooldown_expectation@, human_summary@);
    let argv_items: Vec<&str> = vec!["adc-lab", "load", "cpu", "--target", target, "--workers", workers, "--duration", duration,
        "--abort-temp-c", THERMAL_ABORT_C, "--run-dir", run_dir, "--json"];
    let kinds_items: Vec<&str> = vec!["load"];
    let a = concat("duration=", duration);
    let b = concat(a.as_str(), "; workers=");
    let c = concat(b.as_str(), workers);
    let d = concat(c.as_str(), "; abort_temp_c=");
    let e = concat(d.as_str(), THERMAL_ABORT_C);
    let f = concat(e.as_str(), "C; cooldown_expectation=");
    let note = concat(f.as_str(), cooldown_expectation);
    let note_items: Vec<&str> = vec![note.as_str(), "thermal abort threshold and operator abort handling bound this experiment"];
    proof {
        assert(str_views(argv_items@) =~= m.command_argv);
        assert(str_views(kinds_items@) =~= m.expected_artifact_kinds);
    }
    let mut notes = owned_all(&note_items);
    let sustained = str_eq(duration, "300s");
    let claim_gate = if sustained {
        let extra_items: Vec<&str> = vec![
            "300s bounded evidence does not support 24h sustained thermal safety",
            "optional approved 900s profile remains disabled by default",
        ];
        extend_all(&mut notes, &owned_all(&extra_items));
        "sustained_300s_not_24h_safety"
    } else {
        "cpu_ladder_or_repeatability_not_production_safety"
    };
    proof {
        assert(views(notes@) =~= m.validation_after_step);
    }
    let cont: Vec<GovernorValidity> = vec![GovernorValidity::Measured, GovernorValidity::Insufficient];
    let stop: Vec<GovernorValidity> = vec![GovernorValidity::Refused, GovernorValidity::Contaminated];
    proof {
        assert(cont@ =~= m.continue_on);
        assert(stop@ =~= m.stop_on);
    }
    step(step_id, "load", owned_all(&argv_items), owned_all(&kinds_items), claim_gate, cont, stop, notes, human_summary)
}

/// The bounded CPU/thermal characterization: baselines, a worker ladder,
/// repeatability trials and a sustained load, each followed by cooldown
/// observation.
pub open spec fn characterization_models(t: Seq<char>, r: Seq<char>) -> Seq<StepModel> {
    seq![
        observe_model("observe_baseline_60s"@, t, r, "60s"@, "baseline_context"@,
            "Collect a 60s passive baseline before CPU/thermal characterization."@),
        observe_model("observe_baseline_300s"@, t, r, "300s"@, "baseline_context"@,
            "Collect a 300s passive baseline; this is still context, not sustained safety evidence."@),
        load_model("cpu_ladder_1_worker_60s"@, t, r, "1"@, "60s"@, "ladder_set_cooldown_after_4_worker_point"@,
            "Run the 1-worker point in the bounded CPU/thermal ladder."@),
        load_model("cpu_ladder_2_worker_60s"@, t, r, "2"@, "60s"@, "ladder_set_cooldown_after_4_worker_point"@,
            "Run the 2-worker point in the bounded CPU/thermal ladder."@),
        load_model("cpu_ladder_4_worker_60s"@, t, r, "4"@, "60s"@, "cooldown_after_ladder"@,
            "Run the 4-worker point in the bounded CPU/thermal ladder."@),
        observe_model("cooldown_after_ladder"@, t, r, "60s"@, "cooldown_after_ladder"@,
            "Observe cooldown after the CPU ladder before repeatability trials."@),
        load_model("cpu_repeatability_4_worker_1"@, t, r, "4"@, "60s"@, "cooldown_after_repeatability_1"@,
            "Run 4-worker repeatability trial 1 of 3."@),
        observe_model("cooldown_after_repeatability_1"@, t, r, "60s"@, "cooldown_between_repeatability_trials"@,
            "Observe cooldown after repeatability trial 1."@),
        load_model("cpu_repeatability_4_worker_2"@, t, r, "4"@, "60s"@, "cooldown_after_repeatability_2"@,
            "Run 4-worker repeatability trial 2 of 3."@),
        observe_model("cooldown_after_repeatability_2"@, t, r, "60s"@, "cooldown_between_repeatability_trials"@,
            "Observe cooldown after repeatability trial 2."@),
        load_model("cpu_repeatability_4_worker_3"@, t, r, "4"@, "60s"@, "cooldown_before_sustained_bounded_load"@,
            "Run 4-worker repeatability trial 3 of 3."@),
        observe_model("cooldown_before_sustained_bounded_load"@, t, r, "60s"@, "cooldown_before_sustained_bounded_load"@,
            "Observe cooldown before the sustained bounded load step."@),
        load_model("sustained_bounded_load_300s"@, t, r, "4"@, "300s"@, "cooldown_after_sustained_load"@,
            "Run a 4-worker 300s sustained bounded load; this does not support 24h sustained safety."@),
        observe_model("cooldown_after_sustained_load"@, t, r, "120s"@, "cooldown_after_sustained_load"@,
            "Observe cooldown after the 300s sustained bounded load."@),
    ]
}

/// The CPU/thermal characterization steps for a target and run directory.
pub fn cpu_thermal_characterization_steps(target: &str, run_dir: &str) -> (steps: Vec<WorkflowCollectPlanStep>)
    ensures
        step_models(steps@) == characterization_models(target@, run_dir@),
{
    let mut steps: Vec<WorkflowCollectPlanStep> = Vec::new();
    steps.push(observe_step("observe_baseline_60s", target, run_dir, "60s", "baseline_context",
        "Collect a 60s passive baseline before CPU/thermal characterization."));
    steps.push(observe_step("observe_baseline_300s", target, run_dir, "300s", "baseline_context",
        "Collect a 300s passive baseline; this is still context, not sustained safety evidence."));
    steps.push(load_step("cpu_ladder_1_worker_60s", target, run_dir, "1", "60s", "ladder_set_cooldown_after_4_worker_point",
        "Run the 1-worker point in the bounded CPU/thermal ladder."));
    steps.push(load_step("cpu_ladder_2_worker_60s", target, run_dir, "2", "60s", "ladder_set_cooldown_after_4_worker_point",
        "Run the 2-worker point in the bounded CPU/thermal ladder."));
    steps.push(load_step("cpu_ladder_4_worker_60s", target, run_dir, "4", "60s", "cooldown_after_ladder",
        "Run the 4-worker point in the bounded CPU/thermal ladder."));
    steps.push(observe_step("cooldown_after_ladder", target, run_dir, "60s", "cooldown_after_ladder",
        "Observe cooldown after the CPU ladder before repeatability trials."));
    steps.push(load_step("cpu_repeatability_4_worker_1", target, run_dir, "4", "60s", "cooldown_after_repeatability_1",
        "Run 4-worker repeatability trial 1 of 3."));
    steps.push(observe_step("cooldown_after_repeatability_1", target, run_dir, "60s", "cooldown_between_repeatability_trials",
        "Observe cooldown after repeatability trial 1."));
    steps.push(load_step("cpu_repeatability_4_worker_2", target, run_dir, "4", "60s", "cooldown_after_repeatability_2",
        "Run 4-worker repeatability trial 2 of 3."));
    steps.push(observe_step("cooldown_after_repeatability_2", target, run_dir, "60s", "cooldown_between_repeatability_trials",
        "Observe cooldown after repeatability trial 2."));
    steps.push(load_step("cpu_repeatability_4_worker_3", target, run_dir, "4", "60s", "cooldown_before_sustained_bounded_load",
        "Run 4-worker repeatability trial 3 of 3."));
    steps.push(observe_step("cooldown_before_sustained_bounded_load", target, run_dir, "60s", "cooldown_before_sustained_bounded_load",
        "Observe cooldown before the sustained bounded load step."));
    steps.push(load_step("sustained_bounded_load_300s", target, run_dir, "4", "300s", "cooldown_after_sustained_load",
        "Run a 4-worker 300s sustained bounded load; this does not support 24h sustained safety."));
    steps.push(observe_step("cooldown_after_sustained_load", target, run_dir, "120s", "cooldown_after_sustained_load",
        "Observe cooldown after the 300s sustained bounded load."));
    proof {
        assert(step_models(steps@) =~= characterization_models(target@, run_dir@));
    }
    steps
}


/// The paths, arguments and notes a collect plan is assembled from.
pub struct PlanVars {
    pub goal: Seq<char>,
    pub target: Seq<char>,
    pub target_id: Seq<char>,
    pub target_class: Seq<char>,
    pub run_dir: Seq<char>,
    pub run_id: Seq<char>,
    pub rec_path: Seq<char>,
    pub collect_plan_path: Seq<char>,
    pub handoff_dir: Seq<char>,
    pub workload_demand_in: Seq<char>,
    pub policy_in: Seq<char>,
    pub endpoint: Seq<char>,
    pub governor_arg: Seq<char>,
    pub effective_profile: Seq<char>,
    pub depth_str: Seq<char>,
    pub reports_dir: Seq<char>,
    pub tl_run_dir: Seq<char>,
    pub retrieved_tl_run_dir: Seq<char>,
    pub tl_wl_run_dir: Seq<char>,
    pub tl_wl_inputs_dir: Seq<char>,
    pub retrieved_tl_wl_run_dir: Seq<char>,
    pub retrieved_parent_dir: Seq<char>,
    pub tl_wl_scp_source: Seq<char>,
    pub gov_run_dir: Seq<char>,
    pub gov_reports_dir: Seq<char>,
    pub gov_approvals_dir: Seq<char>,
    pub local_target: Seq<char>,
    pub local_wd: Seq<char>,
    pub local_loc: Seq<char>,
    pub wl_run_dir: Seq<char>,
    pub policy_request_path: Seq<char>,
    pub policy_path: Seq<char>,
    pub validation_path: Seq<char>,
    pub gov_validation_path: Seq<char>,
    pub gaps_path: Seq<char>,
    pub gov_gaps_path: Seq<char>,
    pub contract_path: Seq<char>,
    pub ctrl_wl_plan_path: Seq<char>,
    pub wl_plan_path: Seq<char>,
    pub tl_wl_plan_scp_dest: Seq<char>,
    pub wl_demand_path: Seq<char>,
    pub wl_step_output: Seq<char>,
    pub suitability_path: Seq<char>,
    pub constraints_path: Seq<char>,
    pub constraints_md_path: Seq<char>,
    pub archive_path: Seq<char>,
    pub doctor_path: Seq<char>,
    pub inventory_path: Seq<char>,
    pub toolchain_path: Seq<char>,
    pub observe_path: Seq<char>,
    pub observe_glob: Seq<char>,
    pub include_note: Seq<char>,
    pub wl_note: Seq<char>,
    pub reset_note: Seq<char>,
    pub ssh: bool,
}

/// The values a collect plan is assembled from, for a request, the
/// target's endpoint and transport, the governors argument and the depth.
pub open spec fn plan_vars(input: WorkflowCollectPlanInput, endpoint: Seq<char>, ssh: bool, governor_arg: Seq<char>, depth: WorkflowProfileDepth) -> PlanVars {
    let goal = input.goal@;
    let target = input.target@;
    let target_id = input.target_id@;
    let target_class = input.target_class@;
    let run_dir = input.planned_run_dir@;
    let run_id = input.run_id@;
    let rec_path = input.workflow_recommendation_path@;
    let collect_plan_path = input.collect_plan_path@;
    let handoff_dir = input.handoff_dir@;
    let workload_demand_in = input.workload_demand_path@;
    let policy_in = input.suitability_policy_path@;
    let endpoint = endpoint;
    let governor_arg = governor_arg;
    let effective_profile = depth_profile(depth);
    let depth_str = depth_name(depth);
    let reports_dir = run_dir + "/reports"@;
    let tl_run_dir = "adc-lab-target-local-"@ + run_id;
    let retrieved_tl_run_dir = run_dir + "/included/target-local-governor-sweep"@;
    let tl_wl_run_dir = "adc-lab-target-local-workload-"@ + run_id;
    let tl_wl_inputs_dir = tl_wl_run_dir + "/inputs"@;
    let retrieved_tl_wl_run_dir = run_dir + "/included/target-local-workload-demand"@;
    let retrieved_parent_dir = run_dir + "/included"@;
    let tl_wl_scp_source = endpoint + ":"@ + tl_wl_run_dir;
    let gov_run_dir = if ssh { tl_run_dir } else { run_dir };
    let gov_reports_dir = gov_run_dir + "/reports"@;
    let gov_approvals_dir = gov_run_dir + "/approvals"@;
    let local_target = if ssh { "local"@ } else { target };
    let local_wd = if ssh { "target_local_repository_root"@ } else { "repository_root"@ };
    let local_loc = if ssh { "target_local"@ } else { "controller"@ };
    let wl_run_dir = if ssh { tl_wl_run_dir } else { run_dir };
    let policy_request_path = gov_approvals_dir + "/governor_sweep_policy_request.v2.json"@;
    let policy_path = gov_approvals_dir + "/governor_sweep_policy.v2.json"@;
    let validation_path = reports_dir + "/run_validation.v2.json"@;
    let gov_validation_path = gov_reports_dir + "/run_validation.v2.json"@;
    let gaps_path = reports_dir + "/GAPS.md"@;
    let gov_gaps_path = gov_reports_dir + "/GAPS.md"@;
    let contract_path = reports_dir + "/target_operating_contract.v2.json"@;
    let ctrl_wl_plan_path = run_dir + "/inputs/workload_run_plan.yaml"@;
    let wl_plan_path = if ssh { tl_wl_inputs_dir + "/workload_run_plan.yaml"@ } else { ctrl_wl_plan_path };
    let tl_wl_plan_scp_dest = endpoint + ":"@ + wl_plan_path;
    let wl_demand_path = if ssh { retrieved_tl_wl_run_dir + "/reports/workload_demand_profile.json"@ } else { workload_demand_in };
    let wl_step_output = if ssh { tl_wl_run_dir + "/reports/workload_demand_profile.json"@ } else { workload_demand_in };
    let suitability_path = reports_dir + "/suitability.v2.json"@;
    let constraints_path = reports_dir + "/constraints.v2.json"@;
    let constraints_md_path = reports_dir + "/agent_constraints.md"@;
    let archive_path = handoff_dir + "/"@ + run_id + ".tgz"@;
    let doctor_path = run_dir + "/privilege/privilege_doctor.json"@;
    let inventory_path = run_dir + "/inventory/target_inventory.json"@;
    let toolchain_path = run_dir + "/toolchain/toolchain_inventory.json"@;
    let observe_path = run_dir + "/observations/observe.json"@;
    let observe_glob = run_dir + "/observations/observe_baseline.*.v2.json"@;
    let include_note = "copy or mount the target-local governor run into "@ + retrieved_tl_run_dir + " before validation; directory co-presence alone is not causal evidence"@;
    let wl_note = if ssh { "stage "@ + ctrl_wl_plan_path + " on the target as "@ + wl_plan_path + ", then retrieve the target-local workload run into "@ + retrieved_tl_wl_run_dir + " before suitability"@ } else { "local workload demand stays in the primary run directory"@ };
    let reset_note = "rerun policy: delete only the deterministic retrieved workload path "@ + retrieved_tl_wl_run_dir + " before scp"@;
    PlanVars {
        goal,
        target,
        target_id,
        target_class,
        run_dir,
        run_id,
        rec_path,
        collect_plan_path,
        handoff_dir,
        workload_demand_in,
        policy_in,
        endpoint,
        governor_arg,
        effective_profile,
        depth_str,
        reports_dir,
        tl_run_dir,
        retrieved_tl_run_dir,
        tl_wl_run_dir,
        tl_wl_inputs_dir,
        retrieved_tl_wl_run_dir,
        retrieved_parent_dir,
        tl_wl_scp_source,
        gov_run_dir,
        gov_reports_dir,
        gov_approvals_dir,
        local_target,
        local_wd,
        local_loc,
        wl_run_dir,
        policy_request_path,
        policy_path,
        validation_path,
        gov_validation_path,
        gaps_path,
        gov_gaps_path,
        contract_path,
        ctrl_wl_plan_path,
        wl_plan_path,
        tl_wl_plan_scp_dest,
        wl_demand_path,
        wl_step_output,
        suitability_path,
        constraints_path,
        constraints_md_path,
        archive_path,
        doctor_path,
        inventory_path,
        toolchain_path,
        observe_path,
        observe_glob,
        include_note,
        wl_note,
        reset_note,
        ssh,
    }
}

/// The `workflow_recommendation` step of a collect plan.
pub open spec fn model_workflow_recommendation(v: PlanVars) -> StepModel {
    StepModel {
        step_id: "workflow_recommendation"@,
        phase: "authority"@,
        command_argv: seq!["adc-lab"@, "workflow"@, "recommend"@, "--goal"@, v.goal, "--profile-depth"@, v.depth_str, "--target"@, v.target, "--target-id"@, v.target_id, "--target-class"@, v.target_class, "--out"@, v.rec_path, "--json"@],
        working_directory_policy: "repository_root"@,
        execution_location: "controller"@,
        requires_target_local: false,
        requires_controller: true,
        requires_approval_policy: false,
        requires_privileged_helper: false,
        expected_artifact_kinds: seq!["workflow.recommendation"@],
        expected_artifact_paths_or_globs: seq![v.rec_path],
        claim_gate: "authority_only_not_measurement"@,
        continue_on: seq![GovernorValidity::NotApplicable],
        stop_on: seq![GovernorValidity::Refused, GovernorValidity::Unknown],
        validation_after_step: Seq::<Seq<char>>::empty(),
        human_summary: "Create the workflow authority artifact for this collection."@,
    }
}

/// The `capability_check` step of a collect plan.
pub open spec fn model_capability_check(v: PlanVars) -> StepModel {
    StepModel {
        step_id: "capability_check"@,
        phase: "capability"@,
        command_argv: seq!["adc-lab"@, "privilege"@, "doctor"@, "--target"@, v.target, "--run-dir"@, v.run_dir, "--json"@],
        working_directory_policy: "repository_root"@,
        execution_location: "controller"@,
        requires_target_local: true,
        requires_controller: true,
        requires_approval_policy: false,
        requires_privileged_helper: false,
        expected_artifact_kinds: seq!["lab.privilege_doctor.v1"@],
        expected_artifact_paths_or_globs: seq![v.doctor_path],
        claim_gate: "preflight_only"@,
        continue_on: seq![GovernorValidity::Measured, GovernorValidity::Insufficient],
        stop_on: seq![GovernorValidity::Refused, GovernorValidity::Unknown],
        validation_after_step: seq!["review helper readiness before privileged sweep"@],
        human_summary: "Check target-local helper readiness before any privileged sweep."@,
    }
}

/// The `read_only_inventory` step of a collect plan.
pub open spec fn model_read_only_inventory(v: PlanVars) -> StepModel {
    StepModel {
        step_id: "read_only_inventory"@,
        phase: "read_only"@,
        command_argv: seq!["adc-lab"@, "inventory"@, "--target"@, v.target, "--run-dir"@, v.run_dir, "--json"@],
        working_directory_policy: "repository_root"@,
        execution_location: "controller"@,
        requires_target_local: false,
        requires_controller: true,
        requires_approval_policy: false,
        requires_privileged_helper: false,
        expected_artifact_kinds: seq!["lab.target_inventory.v1"@],
        expected_artifact_paths_or_globs: seq![v.inventory_path],
        claim_gate: "read_only_inventory_required"@,
        continue_on: seq![GovernorValidity::Measured, GovernorValidity::Insufficient],
        stop_on: seq![GovernorValidity::Refused, GovernorValidity::Unknown],
        validation_after_step: seq!["target identity and hardware claims require this read-only artifact"@],
        human_summary: "Collect read-only target inventory before claim-producing reports."@,
    }
}

/// The `toolchain_discover` step of a collect plan.
pub open spec fn model_toolchain_discover(v: PlanVars) -> StepModel {
    StepModel {
        step_id: "toolchain_discover"@,
        phase: "read_only"@,
        command_argv: seq!["adc-lab"@, "toolchain"@, "discover"@, "--target"@, v.target, "--run-dir"@, v.run_dir, "--json"@],
        working_directory_policy: "repository_root"@,
        execution_location: "controller"@,
        requires_target_local: false,
        requires_controller: true,
        requires_approval_policy: false,
        requires_privileged_helper: false,
        expected_artifact_kinds: seq!["lab.toolchain_inventory.v1"@],
        expected_artifact_paths_or_globs: seq![v.toolchain_path],
        claim_gate: "read_only_toolchain_required"@,
        continue_on: seq![GovernorValidity::Measured, GovernorValidity::Insufficient],
        stop_on: seq![GovernorValidity::Refused, GovernorValidity::Unknown],
        validation_after_step: seq!["tool availability claims require this read-only artifact"@],
        human_summary: "Collect read-only toolchain inventory before workload or pressure claims."@,
    }
}

/// The head steps of a collect plan, in order.
pub open spec fn head_models(v: PlanVars) -> Seq<StepModel> {
    seq![model_workflow_recommendation(v), model_capability_check(v), model_read_only_inventory(v), model_toolchain_discover(v)]
}

/// The `observe_baseline` step of a collect plan.
pub open spec fn model_observe_baseline(v: PlanVars) -> StepModel {
    StepModel {
        step_id: "observe_baseline"@,
        phase: "read_only"@,
        command_argv: seq!["adc-lab"@, "observe"@, "--target"@, v.target, "--duration"@, "30s"@, "--sample-interval"@, "1s"@, "--artifact-label"@, "observe_baseline"@, "--run-dir"@, v.run_dir, "--json"@],
        working_directory_policy: "repository_root"@,
        execution_location: "controller"@,
        requires_target_local: false,
        requires_controller: true,
        requires_approval_policy: false,
        requires_privileged_helper: false,
        expected_artifact_kinds: seq!["observation"@],
        expected_artifact_paths_or_globs: seq![v.observe_path, v.observe_glob],
        claim_gate: "baseline_observation_required"@,
        continue_on: seq![GovernorValidity::Measured, GovernorValidity::Insufficient],
        stop_on: seq![GovernorValidity::Refused, GovernorValidity::Unknown],
        validation_after_step: seq!["baseline observation is context, not a controlled sweep"@],
        human_summary: "Collect passive baseline observation before pressure or suitability reports."@,
    }
}

/// The `cpu_ladder` step of a collect plan.
pub open spec fn model_cpu_ladder(v: PlanVars) -> StepModel {
    StepModel {
        step_id: "cpu_ladder"@,
        phase: "load"@,
        command_argv: seq!["adc-lab"@, "load"@, "cpu"@, "--target"@, v.target, "--workers"@, "1"@, "--duration"@, "10s"@, "--run-dir"@, v.run_dir, "--json"@],
        working_directory_policy: "repository_root"@,
        execution_location: "controller"@,
        requires_target_local: false,
        requires_controller: true,
        requires_approval_policy: false,
        requires_privileged_helper: false,
        expected_artifact_kinds: seq!["load"@],
        expected_artifact_paths_or_globs: Seq::<Seq<char>>::empty(),
        claim_gate: "bounded_load_seed_not_full_ladder"@,
        continue_on: seq![GovernorValidity::Measured, GovernorValidity::Insufficient],
        stop_on: seq![GovernorValidity::Refused, GovernorValidity::Contaminated],
        validation_after_step: seq!["this bounded load seed does not prove all CPU ladder points; expand only through typed plan revisions"@],
        human_summary: "Run a bounded CPU load seed so full-set coverage includes load evidence."@,
    }
}

/// The `pressure_probe_set` step of a collect plan.
pub open spec fn model_pressure_probe_set(v: PlanVars) -> StepModel {
    StepModel {
        step_id: "pressure_probe_set"@,
        phase: "pressure"@,
        command_argv: seq!["adc-lab"@, "pressure"@, "run"@, "--target"@, v.target, "--kind"@, "memory_pressure"@, "--duration"@, "5s"@, "--workers"@, "1"@, "--run-dir"@, v.run_dir, "--json"@],
        working_directory_policy: "repository_root"@,
        execution_location: "controller"@,
        requires_target_local: false,
        requires_controller: true,
        requires_approval_policy: false,
        requires_privileged_helper: false,
        expected_artifact_kinds: seq!["pressure"@],
        expected_artifact_paths_or_globs: Seq::<Seq<char>>::empty(),
        claim_gate: "pressure_probe_required_for_pressure_claims"@,
        continue_on: seq![GovernorValidity::Measured, GovernorValidity::Insufficient],
        stop_on: seq![GovernorValidity::Refused, GovernorValidity::Contaminated],
        validation_after_step: seq!["run additional pressure kinds only through typed plan revisions"@],
        human_summary: "Run the first bounded pressure probe; characterization-full expands pressure coverage."@,
    }
}

/// The `composite_probe` step of a collect plan.
pub open spec fn model_composite_probe(v: PlanVars) -> StepModel {
    StepModel {
        step_id: "composite_probe"@,
        phase: "pressure"@,
        command_argv: seq!["adc-lab"@, "pressure"@, "composite"@, "--target"@, v.target, "--scenario"@, "memory_storage_jitter"@, "--duration"@, "5s"@, "--workers"@, "1"@, "--run-dir"@, v.run_dir, "--json"@],
        working_directory_policy: "repository_root"@,
        execution_location: "controller"@,
        requires_target_local: false,
        requires_controller: true,
        requires_approval_policy: false,
        requires_privileged_helper: false,
        expected_artifact_kinds: seq!["composite"@],
        expected_artifact_paths_or_globs: Seq::<Seq<char>>::empty(),
        claim_gate: "composite_probe_required_for_coupling_claims"@,
        continue_on: seq![GovernorValidity::Measured, GovernorValidity::Insufficient],
        stop_on: seq![GovernorValidity::Refused, GovernorValidity::Contaminated],
        validation_after_step: seq!["composite status must be measured before coupling claims are supported"@],
        human_summary: "Run the bounded composite pressure probe for coupling coverage."@,
    }
}

/// The smoke steps of a collect plan, in order.
pub open spec fn smoke_models(v: PlanVars) -> Seq<StepModel> {
    seq![model_observe_baseline(v), model_cpu_ladder(v), model_pressure_probe_set(v), model_composite_probe(v)]
}

/// The `prepare_target_local_workload_plan_dir` step of a collect plan.
pub open spec fn model_prepare_target_local_workload_plan_dir(v: PlanVars) -> StepModel {
    StepModel {
        step_id: "prepare_target_local_workload_plan_dir"@,
        phase: "workload"@,
        command_argv: seq!["mkdir"@, "-p"@, v.tl_wl_inputs_dir],
        working_directory_policy: "target_local_repository_root"@,
        execution_location: "target_local"@,
        requires_target_local: true,
        requires_controller: false,
        requires_approval_policy: false,
        requires_privileged_helper: false,
        expected_artifact_kinds: Seq::<Seq<char>>::empty(),
        expected_artifact_paths_or_globs: seq![v.tl_wl_inputs_dir],
        claim_gate: "workload_plan_staging_required_for_target_local_workload"@,
        continue_on: seq![GovernorValidity::NotApplicable],
        stop_on: seq![GovernorValidity::Refused],
        validation_after_step: seq!["create the target-local workload input directory before scp staging"@, "run this argv on the target-local host; it is not a remote shell step"@],
        human_summary: "Create the target-local workload run input directory before staging the workload plan."@,
    }
}

/// The `stage_target_local_workload_plan` step of a collect plan.
pub open spec fn model_stage_target_local_workload_plan(v: PlanVars) -> StepModel {
    StepModel {
        step_id: "stage_target_local_workload_plan"@,
        phase: "workload"@,
        command_argv: seq!["scp"@, v.ctrl_wl_plan_path, v.tl_wl_plan_scp_dest],
        working_directory_policy: "repository_root"@,
        execution_location: "operator_handoff"@,
        requires_target_local: true,
        requires_controller: true,
        requires_approval_policy: false,
        requires_privileged_helper: false,
        expected_artifact_kinds: Seq::<Seq<char>>::empty(),
        expected_artifact_paths_or_globs: seq![v.wl_plan_path],
        claim_gate: "workload_plan_staging_required_for_target_local_workload"@,
        continue_on: seq![GovernorValidity::NotApplicable],
        stop_on: seq![GovernorValidity::Refused],
        validation_after_step: seq!["stage the exact controller workload run plan path to the target-local workload run path"@, "this staging step is handoff plumbing, not target measurement evidence"@],
        human_summary: "Stage the workload run plan onto the target before target-local workload demand collection."@,
    }
}

/// The staging steps of a collect plan, in order.
pub open spec fn staging_models(v: PlanVars) -> Seq<StepModel> {
    seq![model_prepare_target_local_workload_plan_dir(v), model_stage_target_local_workload_plan(v)]
}

/// The `workload_demand` step of a collect plan.
pub open spec fn model_workload_demand(v: PlanVars) -> StepModel {
    StepModel {
        step_id: "workload_demand"@,
        phase: "workload"@,
        command_argv: seq!["adc-lab"@, "workload"@, "run"@, "--target"@, v.local_target, "--plan"@, v.wl_plan_path, "--target-id"@, v.target_id, "--run-dir"@, v.wl_run_dir, "--execution-mode"@, "target-local"@, "--json"@],
        working_directory_policy: v.local_wd,
        execution_location: v.local_loc,
        requires_target_local: v.ssh,
        requires_controller: !v.ssh,
        requires_approval_policy: false,
        requires_privileged_helper: false,
        expected_artifact_kinds: seq!["workload"@],
        expected_artifact_paths_or_globs: seq![v.wl_step_output],
        claim_gate: "workload_demand_required_for_suitability"@,
        continue_on: seq![GovernorValidity::Measured, GovernorValidity::Insufficient],
        stop_on: seq![GovernorValidity::Refused, GovernorValidity::Unknown],
        validation_after_step: seq!["operator must provide the workload run plan; refused workload artifacts cannot support suitability claims"@, v.wl_note],
        human_summary: "Generate or preserve workload demand evidence using an explicit workload plan path."@,
    }
}

/// The workload steps of a collect plan, in order.
pub open spec fn workload_models(v: PlanVars) -> Seq<StepModel> {
    seq![model_workload_demand(v)]
}

/// The `prepare_target_local_workload_retrieval_parent` step of a collect plan.
pub open spec fn model_prepare_target_local_workload_retrieval_parent(v: PlanVars) -> StepModel {
    StepModel {
        step_id: "prepare_target_local_workload_retrieval_parent"@,
        phase: "workload"@,
        command_argv: seq!["mkdir"@, "-p"@, v.retrieved_parent_dir],
        working_directory_policy: "repository_root"@,
        execution_location: "operator_handoff"@,
        requires_target_local: false,
        requires_controller: true,
        requires_approval_policy: false,
        requires_privileged_helper: false,
        expected_artifact_kinds: Seq::<Seq<char>>::empty(),
        expected_artifact_paths_or_globs: seq![v.retrieved_parent_dir],
        claim_gate: "handoff_only_not_target_evidence"@,
        continue_on: seq![GovernorValidity::NotApplicable],
        stop_on: seq![GovernorValidity::Refused],
        validation_after_step: seq!["create the included-run parent before workload demand retrieval"@],
        human_summary: "Create the included-run parent directory before retrieving target-local workload demand."@,
    }
}

/// The `reset_target_local_workload_retrieval_destination` step of a collect plan.
pub open spec fn model_reset_target_local_workload_retrieval_destination(v: PlanVars) -> StepModel {
    StepModel {
        step_id: "reset_target_local_workload_retrieval_destination"@,
        phase: "workload"@,
        command_argv: seq!["rm"@, "-rf"@, v.retrieved_tl_wl_run_dir],
        working_directory_policy: "repository_root"@,
        execution_location: "operator_handoff"@,
        requires_target_local: false,
        requires_controller: true,
        requires_approval_policy: false,
        requires_privileged_helper: false,
        expected_artifact_kinds: Seq::<Seq<char>>::empty(),
        expected_artifact_paths_or_globs: Seq::<Seq<char>>::empty(),
        claim_gate: "handoff_only_not_target_evidence"@,
        continue_on: seq![GovernorValidity::NotApplicable],
        stop_on: seq![GovernorValidity::Refused],
        validation_after_step: seq![v.reset_note, "this cleanup is controller-side handoff plumbing, not target evidence"@],
        human_summary: "Reset only the deterministic retrieved workload demand destination before scp so reruns keep the same layout."@,
    }
}

/// The `retrieve_target_local_workload_demand` step of a collect plan.
pub open spec fn model_retrieve_target_local_workload_demand(v: PlanVars) -> StepModel {
    StepModel {
        step_id: "retrieve_target_local_workload_demand"@,
        phase: "workload"@,
        command_argv: seq!["scp"@, "-r"@, v.tl_wl_scp_source, v.retrieved_tl_wl_run_dir],
        working_directory_policy: "repository_root"@,
        execution_location: "operator_handoff"@,
        requires_target_local: true,
        requires_controller: true,
        requires_approval_policy: false,
        requires_privileged_helper: false,
        expected_artifact_kinds: seq!["workload"@],
        expected_artifact_paths_or_globs: seq![v.wl_demand_path],
        claim_gate: "workload_demand_required_for_suitability"@,
        continue_on: seq![GovernorValidity::Measured, GovernorValidity::Insufficient],
        stop_on: seq![GovernorValidity::Refused, GovernorValidity::Unknown],
        validation_after_step: seq!["retrieval is a handoff step, not target measurement evidence"@, "decide suitability consumes the retrieved workload demand path exactly"@, "destination is removed before scp so existing directories cannot change the copied layout"@],
        human_summary: "Retrieve the target-local workload demand run into the deterministic included-run path before suitability."@,
    }
}

/// The retrieval steps of a collect plan, in order.
pub open spec fn retrieval_models(v: PlanVars) -> Seq<StepModel> {
    seq![model_prepare_target_local_workload_retrieval_parent(v), model_reset_target_local_workload_retrieval_destination(v), model_retrieve_target_local_workload_demand(v)]
}

/// The `governor_sweep_prepare` step of a collect plan.
pub open spec fn model_governor_sweep_prepare(v: PlanVars) -> StepModel {
    StepModel {
        step_id: "governor_sweep_prepare"@,
        phase: "approval"@,
        command_argv: seq!["adc-lab"@, "control"@, "governor-sweep"@, "prepare"@, "--target"@, v.local_target, "--governors"@, v.governor_arg, "--duration-seconds-max"@, "60"@, "--run-dir"@, v.gov_run_dir, "--out"@, v.policy_request_path, "--json"@],
        working_directory_policy: v.local_wd,
        execution_location: v.local_loc,
        requires_target_local: true,
        requires_controller: !v.ssh,
        requires_approval_policy: false,
        requires_privileged_helper: false,
        expected_artifact_kinds: seq!["control.governor_sweep_policy"@],
        expected_artifact_paths_or_globs: seq![v.policy_request_path],
        claim_gate: "human_approval_required_before_apply"@,
        continue_on: seq![GovernorValidity::Insufficient],
        stop_on: seq![GovernorValidity::Refused, GovernorValidity::Contaminated],
        validation_after_step: seq!["human reviews requested governors, target, duration, and expiry"@, "ssh controller workflows execute governor sweep argv on the target-local adc-lab with --target local"@],
        human_summary: "Prepare the bounded governor sweep policy request."@,
    }
}

/// The `governor_sweep_approve` step of a collect plan.
pub open spec fn model_governor_sweep_approve(v: PlanVars) -> StepModel {
    StepModel {
        step_id: "governor_sweep_approve"@,
        phase: "approval"@,
        command_argv: seq!["adc-lab"@, "control"@, "governor-sweep"@, "approve"@, "--request"@, v.policy_request_path, "--approved-by"@, "operator"@, "--run-dir"@, v.gov_run_dir, "--out"@, v.policy_path, "--json"@],
        working_directory_policy: v.local_wd,
        execution_location: v.local_loc,
        requires_target_local: true,
        requires_controller: !v.ssh,
        requires_approval_policy: true,
        requires_privileged_helper: false,
        expected_artifact_kinds: seq!["control.governor_sweep_policy"@],
        expected_artifact_paths_or_globs: seq![v.policy_path],
        claim_gate: "human_approval_required"@,
        continue_on: seq![GovernorValidity::Measured],
        stop_on: seq![GovernorValidity::Refused, GovernorValidity::Contaminated],
        validation_after_step: seq!["approved policy digest must match the request"@],
        human_summary: "Record out-of-band human approval bound to the sweep policy digest."@,
    }
}

/// The `governor_sweep_run` step of a collect plan.
pub open spec fn model_governor_sweep_run(v: PlanVars) -> StepModel {
    StepModel {
        step_id: "governor_sweep_run"@,
        phase: "control"@,
        command_argv: seq!["adc-lab"@, "control"@, "governor-sweep"@, "run"@, "--target"@, v.local_target, "--governors"@, v.governor_arg, "--approval-policy"@, v.policy_path, "--duration-seconds-max"@, "60"@, "--load-duration"@, "1s"@, "--restore-after-each"@, "--run-dir"@, v.gov_run_dir, "--allow-non-measured"@, "--json"@],
        working_directory_policy: v.local_wd,
        execution_location: v.local_loc,
        requires_target_local: true,
        requires_controller: !v.ssh,
        requires_approval_policy: true,
        requires_privileged_helper: true,
        expected_artifact_kinds: seq!["report.run_validation"@, "control_result"@, "load"@, "lab.restore_lease.v1"@],
        expected_artifact_paths_or_globs: seq![v.gov_validation_path, v.gov_gaps_path],
        claim_gate: "claim_gate_requires_report_run_validation"@,
        continue_on: seq![GovernorValidity::Measured, GovernorValidity::Insufficient],
        stop_on: seq![GovernorValidity::Refused, GovernorValidity::Contaminated],
        validation_after_step: seq!["non-measured sweep evidence is preserved but cannot support full-set claims"@, "for ssh controller workflows, retrieve the target-local run directory before controller-side validation"@],
        human_summary: "Run the approved bounded governor sweep and preserve validation gaps."@,
    }
}

/// The `run_validation` step of a collect plan.
pub open spec fn model_run_validation(v: PlanVars) -> StepModel {
    StepModel {
        step_id: "run_validation"@,
        phase: "validation"@,
        command_argv: seq!["adc-lab"@, "report"@, "validate-run"@, "--run"@, v.run_dir] + (if v.ssh { seq!["--include-run"@, v.retrieved_tl_run_dir] } else { Seq::empty() }) + seq!["--profile"@, v.effective_profile, "--expected-governors"@, v.governor_arg, "--workflow-recommendation"@, v.rec_path, "--collect-plan"@, v.collect_plan_path, "--target-id"@, v.target_id, "--target-class"@, v.target_class, "--out"@, v.validation_path, "--gaps-out"@, v.gaps_path, "--allow-non-measured"@, "--json"@],
        working_directory_policy: "repository_root"@,
        execution_location: "controller"@,
        requires_target_local: true,
        requires_controller: true,
        requires_approval_policy: false,
        requires_privileged_helper: false,
        expected_artifact_kinds: seq!["report.run_validation"@],
        expected_artifact_paths_or_globs: seq![v.validation_path, v.gaps_path],
        claim_gate: "required_fullset_validation"@,
        continue_on: seq![GovernorValidity::Measured, GovernorValidity::Insufficient],
        stop_on: seq![GovernorValidity::Refused, GovernorValidity::Contaminated, GovernorValidity::Unknown],
        validation_after_step: seq!["selection_ready remains false unless overall validity is measured"@] + (if v.ssh { seq![v.include_note] } else { Seq::empty() }),
        human_summary: "Validate the run set using typed collect-plan and recommendation refs."@,
    }
}

/// The `operating_contract` step of a collect plan.
pub open spec fn model_operating_contract(v: PlanVars) -> StepModel {
    StepModel {
        step_id: "operating_contract"@,
        phase: "reporting"@,
        command_argv: seq!["adc-lab"@, "report"@, "operating-contract"@, "--run"@, v.run_dir] + (if v.ssh { seq!["--include-run"@, v.retrieved_tl_run_dir] } else { Seq::empty() }) + seq!["--target-id"@, v.target_id, "--target-class"@, v.target_class, "--validation"@, v.validation_path, "--strict-fullset"@, "--json"@],
        working_directory_policy: "repository_root"@,
        execution_location: "controller"@,
        requires_target_local: false,
        requires_controller: true,
        requires_approval_policy: false,
        requires_privileged_helper: false,
        expected_artifact_kinds: seq!["report.operating_contract"@],
        expected_artifact_paths_or_globs: seq![v.contract_path],
        claim_gate: "downstream_claims_require_matching_run_validation"@,
        continue_on: seq![GovernorValidity::Measured, GovernorValidity::Insufficient],
        stop_on: seq![GovernorValidity::Refused, GovernorValidity::Contaminated],
        validation_after_step: seq!["Phase 5 will add strict operating-contract validation gate"@],
        human_summary: "Generate the operating contract from validated evidence available in the run."@,
    }
}

/// The `suitability` step of a collect plan.
pub open spec fn model_suitability(v: PlanVars) -> StepModel {
    StepModel {
        step_id: "suitability"@,
        phase: "suitability"@,
        command_argv: seq!["adc-lab"@, "decide"@, "suitability"@, "--target-run"@, v.run_dir, "--target-contract"@, v.contract_path, "--workload-demand"@, v.wl_demand_path, "--policy"@, v.policy_in, "--out"@, v.suitability_path, "--json"@],
        working_directory_policy: "repository_root"@,
        execution_location: "controller"@,
        requires_target_local: false,
        requires_controller: true,
        requires_approval_policy: false,
        requires_privileged_helper: false,
        expected_artifact_kinds: seq!["report.suitability"@],
        expected_artifact_paths_or_globs: seq![v.suitability_path],
        claim_gate: "operator_provided_inputs_required"@,
        continue_on: seq![GovernorValidity::Measured, GovernorValidity::Insufficient],
        stop_on: seq![GovernorValidity::Refused, GovernorValidity::Unknown],
        validation_after_step: seq!["operator must provide workload demand JSON and suitability policy YAML"@],
        human_summary: "Evaluate suitability using explicit input paths, not discovered files."@,
    }
}

/// The `constraints` step of a collect plan.
pub open spec fn model_constraints(v: PlanVars) -> StepModel {
    StepModel {
        step_id: "constraints"@,
        phase: "constraints"@,
        command_argv: seq!["adc-lab"@, "constraints"@, "generate"@, "--decision"@, v.suitability_path, "--out"@, v.constraints_path, "--agent-instructions-out"@, v.constraints_md_path, "--json"@],
        working_directory_policy: "repository_root"@,
        execution_location: "controller"@,
        requires_target_local: false,
        requires_controller: true,
        requires_approval_policy: false,
        requires_privileged_helper: false,
        expected_artifact_kinds: seq!["report.constraints"@],
        expected_artifact_paths_or_globs: seq![v.constraints_path, v.constraints_md_path],
        claim_gate: "generated_constraints_are_negative_or_explanatory"@,
        continue_on: seq![GovernorValidity::Measured, GovernorValidity::Insufficient],
        stop_on: seq![GovernorValidity::Refused, GovernorValidity::Unknown],
        validation_after_step: seq!["run constraints self-check against the generated markdown before handoff"@],
        human_summary: "Generate Agent-facing constraints from the suitability artifact."@,
    }
}

/// The `constraints_self_check` step of a collect plan.
pub open spec fn model_constraints_self_check(v: PlanVars) -> StepModel {
    StepModel {
        step_id: "constraints_self_check"@,
        phase: "constraints"@,
        command_argv: seq!["adc-lab"@, "constraints"@, "self-check"@, "--constraints"@, v.constraints_path, "--path"@, v.constraints_md_path, "--json"@],
        working_directory_policy: "repository_root"@,
        execution_location: "controller"@,
        requires_target_local: false,
        requires_controller: true,
        requires_approval_policy: false,
        requires_privileged_helper: false,
        expected_artifact_kinds: seq!["report.constraints_check"@],
        expected_artifact_paths_or_globs: Seq::<Seq<char>>::empty(),
        claim_gate: "generated_constraints_are_negative_or_explanatory"@,
        continue_on: seq![GovernorValidity::Measured, GovernorValidity::MeasuredPartial],
        stop_on: seq![GovernorValidity::Insufficient, GovernorValidity::Refused, GovernorValidity::Contaminated, GovernorValidity::Unknown],
        validation_after_step: seq!["self-check must pass before handing generated constraints to an Agent"@],
        human_summary: "Verify generated constraints before handoff; blocked claims are allowed only in generated negative or explanatory sections."@,
    }
}

/// The `handoff_prepare` step of a collect plan.
pub open spec fn model_handoff_prepare(v: PlanVars) -> StepModel {
    StepModel {
        step_id: "handoff_prepare"@,
        phase: "handoff"@,
        command_argv: seq!["mkdir"@, "-p"@, v.handoff_dir],
        working_directory_policy: "repository_root"@,
        execution_location: "operator_handoff"@,
        requires_target_local: false,
        requires_controller: true,
        requires_approval_policy: false,
        requires_privileged_helper: false,
        expected_artifact_kinds: Seq::<Seq<char>>::empty(),
        expected_artifact_paths_or_globs: Seq::<Seq<char>>::empty(),
        claim_gate: "handoff_only_not_target_evidence"@,
        continue_on: seq![GovernorValidity::NotApplicable],
        stop_on: seq![GovernorValidity::Refused],
        validation_after_step: seq!["create archive output directory outside the run directory"@],
        human_summary: "Create the handoff directory outside the run directory before packaging."@,
    }
}

/// The `archive` step of a collect plan.
pub open spec fn model_archive(v: PlanVars) -> StepModel {
    StepModel {
        step_id: "archive"@,
        phase: "handoff"@,
        command_argv: seq!["tar"@, "-czf"@, v.archive_path, "-C"@, v.run_dir, "."@],
        working_directory_policy: "repository_root"@,
        execution_location: "operator_handoff"@,
        requires_target_local: false,
        requires_controller: true,
        requires_approval_policy: false,
        requires_privileged_helper: false,
        expected_artifact_kinds: Seq::<Seq<char>>::empty(),
        expected_artifact_paths_or_globs: seq![v.archive_path],
        claim_gate: "handoff_only_not_target_evidence"@,
        continue_on: seq![GovernorValidity::Measured, GovernorValidity::Insufficient, GovernorValidity::NotApplicable],
        stop_on: seq![GovernorValidity::Refused],
        validation_after_step: seq!["packaging failure blocks handoff completion but not measurement validity"@],
        human_summary: "Package the run directory for handoff; this is not measurement evidence."@,
    }
}

/// The `checksum` step of a collect plan.
pub open spec fn model_checksum(v: PlanVars) -> StepModel {
    StepModel {
        step_id: "checksum"@,
        phase: "handoff"@,
        command_argv: seq!["sha256sum"@, v.archive_path],
        working_directory_policy: "repository_root"@,
        execution_location: "operator_handoff"@,
        requires_target_local: false,
        requires_controller: true,
        requires_approval_policy: false,
        requires_privileged_helper: false,
        expected_artifact_kinds: Seq::<Seq<char>>::empty(),
        expected_artifact_paths_or_globs: Seq::<Seq<char>>::empty(),
        claim_gate: "handoff_only_not_target_evidence"@,
        continue_on: seq![GovernorValidity::Measured, GovernorValidity::Insufficient, GovernorValidity::NotApplicable],
        stop_on: seq![GovernorValidity::Refused],
        validation_after_step: seq!["record checksum stdout in the handoff notes"@],
        human_summary: "Create a checksum for the handoff archive; stdout is the handoff record."@,
    }
}

/// The tail steps of a collect plan, in order.
pub open spec fn tail_models(v: PlanVars) -> Seq<StepModel> {
    seq![model_governor_sweep_prepare(v), model_governor_sweep_approve(v), model_governor_sweep_run(v), model_run_validation(v), model_operating_contract(v), model_suitability(v), model_constraints(v), model_constraints_self_check(v), model_handoff_prepare(v), model_archive(v), model_checksum(v)]
}

struct PlanStrings {
    goal: String,
    target: String,
    target_id: String,
    target_class: String,
    run_dir: String,
    run_id: String,
    rec_path: String,
    collect_plan_path: String,
    handoff_dir: String,
    workload_demand_in: String,
    policy_in: String,
    endpoint: String,
    governor_arg: String,
    effective_profile: String,
    depth_str: String,
    reports_dir: String,
    tl_run_dir: String,
    retrieved_tl_run_dir: String,
    tl_wl_run_dir: String,
    tl_wl_inputs_dir: String,
    retrieved_tl_wl_run_dir: String,
    retrieved_parent_dir: String,
    tl_wl_scp_source: String,
    gov_run_dir: String,
    gov_reports_dir: String,
    gov_approvals_dir: String,
    local_target: String,
    local_wd: String,
    local_loc: String,
    wl_run_dir: String,
    policy_request_path: String,
    policy_path: String,
    validation_path: String,
    gov_validation_path: String,
    gaps_path: String,
    gov_gaps_path: String,
    contract_path: String,
    ctrl_wl_plan_path: String,
    wl_plan_path: String,
    tl_wl_plan_scp_dest: String,
    wl_demand_path: String,
    wl_step_output: String,
    suitability_path: String,
    constraints_path: String,
    constraints_md_path: String,
    archive_path: String,
    doctor_path: String,
    inventory_path: String,
    toolchain_path: String,
    observe_path: String,
    observe_glob: String,
    include_note: String,
    wl_note: String,
    reset_note: String,
    ssh: bool,
}

impl PlanStrings {
    spec fn vars(&self) -> PlanVars {
        PlanVars {
            goal: self.goal@,
            target: self.target@,
            target_id: self.target_id@,
            target_class: self.target_class@,
            run_dir: self.run_dir@,
            run_id: self.run_id@,
            rec_path: self.rec_path@,
            collect_plan_path: self.collect_plan_path@,
            handoff_dir: self.handoff_dir@,
            workload_demand_in: self.workload_demand_in@,
            policy_in: self.policy_in@,
            endpoint: self.endpoint@,
            governor_arg: self.governor_arg@,
            effective_profile: self.effective_profile@,
            depth_str: self.depth_str@,
            reports_dir: self.reports_dir@,
            tl_run_dir: self.tl_run_dir@,
            retrieved_tl_run_dir: self.retrieved_tl_run_dir@,
            tl_wl_run_dir: self.tl_wl_run_dir@,
            tl_wl_inputs_dir: self.tl_wl_inputs_dir@,
            retrieved_tl_wl_run_dir: self.retrieved_tl_wl_run_dir@,
            retrieved_parent_dir: self.retrieved_parent_dir@,
            tl_wl_scp_source: self.tl_wl_scp_source@,
            gov_run_dir: self.gov_run_dir@,
            gov_reports_dir: self.gov_reports_dir@,
            gov_approvals_dir: self.gov_approvals_dir@,
            local_target: self.local_target@,
            local_wd: self.local_wd@,
            local_loc: self.local_loc@,
            wl_run_dir: self.wl_run_dir@,
            policy_request_path: self.policy_request_path@,
            policy_path: self.policy_path@,
            validation_path: self.validation_path@,
            gov_validation_path: self.gov_validation_path@,
            gaps_path: self.gaps_path@,
            gov_gaps_path: self.gov_gaps_path@,
            contract_path: self.contract_path@,
            ctrl_wl_plan_path: self.ctrl_wl_plan_path@,
            wl_plan_path: self.wl_plan_path@,
            tl_wl_plan_scp_dest: self.tl_wl_plan_scp_dest@,
            wl_demand_path: self.wl_demand_path@,
            wl_step_output: self.wl_step_output@,
            suitability_path: self.suitability_path@,
            constraints_path: self.constraints_path@,
            constraints_md_path: self.constraints_md_path@,
            archive_path: self.archive_path@,
            doctor_path: self.doctor_path@,
            inventory_path: self.inventory_path@,
            toolchain_path: self.toolchain_path@,
            observe_path: self.observe_path@,
            observe_glob: self.observe_glob@,
            include_note: self.include_note@,
            wl_note: self.wl_note@,
            reset_note: self.reset_note@,
            ssh: self.ssh,
        }
    }
}

fn plan_strings(input: &WorkflowCollectPlanInput, endpoint: &str, ssh: bool, governor_arg: &str, depth: WorkflowProfileDepth) -> (p: PlanStrings)
    ensures
        p.vars() == plan_vars(*input, endpoint@, ssh, governor_arg@, depth),
{
    let goal = owned(input.goal.as_str());
    let target = owned(input.target.as_str());
    let target_id = owned(input.target_id.as_str());
    let target_class = owned(input.target_class.as_str());
    let run_dir = owned(input.planned_run_dir.as_str());
    let run_id = owned(input.run_id.as_str());
    let rec_path = owned(input.workflow_recommendation_path.as_str());
    let collect_plan_path = owned(input.collect_plan_path.as_str());
    let handoff_dir = owned(input.handoff_dir.as_str());
    let workload_demand_in = owned(input.workload_demand_path.as_str());
    let policy_in = owned(input.suitability_policy_path.as_str());
    let endpoint = owned(endpoint);
    let governor_arg = owned(governor_arg);
    let effective_profile = owned(depth.effective_profile());
    let depth_str = owned(depth.as_str());
    let reports_dir = concat(run_dir.as_str(), "/reports");
    let tl_run_dir = concat("adc-lab-target-local-", run_id.as_str());
    let retrieved_tl_run_dir = concat(run_dir.as_str(), "/included/target-local-governor-sweep");
    let tl_wl_run_dir = concat("adc-lab-target-local-workload-", run_id.as_str());
    let tl_wl_inputs_dir = concat(tl_wl_run_dir.as_str(), "/inputs");
    let retrieved_tl_wl_run_dir = concat(run_dir.as_str(), "/included/target-local-workload-demand");
    let retrieved_parent_dir = concat(run_dir.as_str(), "/included");
    let tl_wl_scp_source = concat(concat(endpoint.as_str(), ":").as_str(), tl_wl_run_dir.as_str());
    let gov_run_dir = if ssh { owned(tl_run_dir.as_str()) } else { owned(run_dir.as_str()) };
    let gov_reports_dir = concat(gov_run_dir.as_str(), "/reports");
    let gov_approvals_dir = concat(gov_run_dir.as_str(), "/approvals");
    let local_target = if ssh { owned("local") } else { owned(target.as_str()) };
    let local_wd = if ssh { owned("target_local_repository_root") } else { owned("repository_root") };
    let local_loc = if ssh { owned("target_local") } else { owned("controller") };
    let wl_run_dir = if ssh { owned(tl_wl_run_dir.as_str()) } else { owned(run_dir.as_str()) };
    let policy_request_path = concat(gov_approvals_dir.as_str(), "/governor_sweep_policy_request.v2.json");
    let policy_path = concat(gov_approvals_dir.as_str(), "/governor_sweep_policy.v2.json");
    let validation_path = concat(reports_dir.as_str(), "/run_validation.v2.json");
    let gov_validation_path = concat(gov_reports_dir.as_str(), "/run_validation.v2.json");
    let gaps_path = concat(reports_dir.as_str(), "/GAPS.md");
    let gov_gaps_path = concat(gov_reports_dir.as_str(), "/GAPS.md");
    let contract_path = concat(reports_dir.as_str(), "/target_operating_contract.v2.json");
    let ctrl_wl_plan_path = concat(run_dir.as_str(), "/inputs/workload_run_plan.yaml");
    let wl_plan_path = if ssh { concat(tl_wl_inputs_dir.as_str(), "/workload_run_plan.yaml") } else { owned(ctrl_wl_plan_path.as_str()) };
    let tl_wl_plan_scp_dest = concat(concat(endpoint.as_str(), ":").as_str(), wl_plan_path.as_str());
    let wl_demand_path = if ssh { concat(retrieved_tl_wl_run_dir.as_str(), "/reports/workload_demand_profile.json") } else { owned(workload_demand_in.as_str()) };
    let wl_step_output = if ssh { concat(tl_wl_run_dir.as_str(), "/reports/workload_demand_profile.json") } else { owned(workload_demand_in.as_str()) };
    let suitability_path = concat(reports_dir.as_str(), "/suitability.v2.json");
    let constraints_path = concat(reports_dir.as_str(), "/constraints.v2.json");
    let constraints_md_path = concat(reports_dir.as_str(), "/agent_constraints.md");
    let archive_path = concat(concat(concat(handoff_dir.as_str(), "/").as_str(), run_id.as_str()).as_str(), ".tgz");
    let doctor_path = concat(run_dir.as_str(), "/privilege/privilege_doctor.json");
    let inventory_path = concat(run_dir.as_str(), "/inventory/target_inventory.json");
    let toolchain_path = concat(run_dir.as_str(), "/toolchain/toolchain_inventory.json");
    let observe_path = concat(run_dir.as_str(), "/observations/observe.json");
    let observe_glob = concat(run_dir.as_str(), "/observations/observe_baseline.*.v2.json");
    let include_note = concat(concat("copy or mount the target-local governor run into ", retrieved_tl_run_dir.as_str()).as_str(), " before validation; directory co-presence alone is not causal evidence");
    let wl_note = if ssh { concat(concat(concat(concat(concat(concat("stage ", ctrl_wl_plan_path.as_str()).as_str(), " on the target as ").as_str(), wl_plan_path.as_str()).as_str(), ", then retrieve the target-local workload run into ").as_str(), retrieved_tl_wl_run_dir.as_str()).as_str(), " before suitability") } else { owned("local workload demand stays in the primary run directory") };
    let reset_note = concat(concat("rerun policy: delete only the deterministic retrieved workload path ", retrieved_tl_wl_run_dir.as_str()).as_str(), " before scp");
    PlanStrings {
        goal,
        target,
        target_id,
        target_class,
        run_dir,
        run_id,
        rec_path,
        collect_plan_path,
        handoff_dir,
        workload_demand_in,
        policy_in,
        endpoint,
        governor_arg,
        effective_profile,
        depth_str,
        reports_dir,
        tl_run_dir,
        retrieved_tl_run_dir,
        tl_wl_run_dir,
        tl_wl_inputs_dir,
        retrieved_tl_wl_run_dir,
        retrieved_parent_dir,
        tl_wl_scp_source,
        gov_run_dir,
        gov_reports_dir,
        gov_approvals_dir,
        local_target,
        local_wd,
        local_loc,
        wl_run_dir,
        policy_request_path,
        policy_path,
        validation_path,
        gov_validation_path,
        gaps_path,
        gov_gaps_path,
        contract_path,
        ctrl_wl_plan_path,
        wl_plan_path,
        tl_wl_plan_scp_dest,
        wl_demand_path,
        wl_step_output,
        suitability_path,
        constraints_path,
        constraints_md_path,
        archive_path,
        doctor_path,
        inventory_path,
        toolchain_path,
        observe_path,
        observe_glob,
        include_note,
        wl_note,
        reset_note,
        ssh,
    }
}

fn step_workflow_recommendation(p: &PlanStrings) -> (s: WorkflowCollectPlanStep)
    ensures
        s@ == model_workflow_recommendation(p.vars()),
{
    let mut argv: Vec<String> = Vec::new();
    let argv_0: Vec<&str> = vec!["adc-lab", "workflow", "recommend", "--goal", p.goal.as_str(), "--profile-depth", p.depth_str.as_str(), "--target", p.target.as_str(), "--target-id", p.target_id.as_str(), "--target-class", p.target_class.as_str(), "--out", p.rec_path.as_str(), "--json"];
    proof { assert(str_views(argv_0@) =~= seq!["adc-lab"@, "workflow"@, "recommend"@, "--goal"@, p.vars().goal, "--profile-depth"@, p.vars().depth_str, "--target"@, p.vars().target, "--target-id"@, p.vars().target_id, "--target-class"@, p.vars().target_class, "--out"@, p.vars().rec_path, "--json"@]); }
    extend_all(&mut argv, &owned_all(&argv_0));
    let mut kinds: Vec<String> = Vec::new();
    let kinds_0: Vec<&str> = vec!["workflow.recommendation"];
    proof { assert(str_views(kinds_0@) =~= seq!["workflow.recommendation"@]); }
    extend_all(&mut kinds, &owned_all(&kinds_0));
    let mut paths: Vec<String> = Vec::new();
    let paths_0: Vec<&str> = vec![p.rec_path.as_str()];
    proof { assert(str_views(paths_0@) =~= seq![p.vars().rec_path]); }
    extend_all(&mut paths, &owned_all(&paths_0));
    let mut notes: Vec<String> = Vec::new();
    let cont: Vec<GovernorValidity> = vec![GovernorValidity::NotApplicable];
    proof { assert(cont@ =~= seq![GovernorValidity::NotApplicable]); }
    let stop: Vec<GovernorValidity> = vec![GovernorValidity::Refused, GovernorValidity::Unknown];
    proof { assert(stop@ =~= seq![GovernorValidity::Refused, GovernorValidity::Unknown]); }
    proof {
        assert(views(argv@) =~= model_workflow_recommendation(p.vars()).command_argv);
        assert(views(kinds@) =~= model_workflow_recommendation(p.vars()).expected_artifact_kinds);
        assert(views(paths@) =~= model_workflow_recommendation(p.vars()).expected_artifact_paths_or_globs);
        assert(views(notes@) =~= model_workflow_recommendation(p.vars()).validation_after_step);
    }
    collect_step("workflow_recommendation", "authority", argv, "repository_root", false, false, false, kinds, paths,
        "authority_only_not_measurement", cont, stop, notes, "Create the workflow authority artifact for this collection.")
}

fn step_capability_check(p: &PlanStrings) -> (s: WorkflowCollectPlanStep)
    ensures
        s@ == model_capability_check(p.vars()),
{
    let mut argv: Vec<String> = Vec::new();
    let argv_0: Vec<&str> = vec!["adc-lab", "privilege", "doctor", "--target", p.target.as_str(), "--run-dir", p.run_dir.as_str(), "--json"];
    proof { assert(str_views(argv_0@) =~= seq!["adc-lab"@, "privilege"@, "doctor"@, "--target"@, p.vars().target, "--run-dir"@, p.vars().run_dir, "--json"@]); }
    extend_all(&mut argv, &owned_all(&argv_0));
    let mut kinds: Vec<String> = Vec::new();
    let kinds_0: Vec<&str> = vec!["lab.privilege_doctor.v1"];
    proof { assert(str_views(kinds_0@) =~= seq!["lab.privilege_doctor.v1"@]); }
    extend_all(&mut kinds, &owned_all(&kinds_0));
    let mut paths: Vec<String> = Vec::new();
    let paths_0: Vec<&str> = vec![p.doctor_path.as_str()];
    proof { assert(str_views(paths_0@) =~= seq![p.vars().doctor_path]); }
    extend_all(&mut paths, &owned_all(&paths_0));
    let mut notes: Vec<String> = Vec::new();
    let notes_0: Vec<&str> = vec!["review helper readiness before privileged sweep"];
    proof { assert(str_views(notes_0@) =~= seq!["review helper readiness before privileged sweep"@]); }
    extend_all(&mut notes, &owned_all(&notes_0));
    let cont: Vec<GovernorValidity> = vec![GovernorValidity::Measured, GovernorValidity::Insufficient];
    proof { assert(cont@ =~= seq![GovernorValidity::Measured, GovernorValidity::Insufficient]); }
    let stop: Vec<GovernorValidity> = vec![GovernorValidity::Refused, GovernorValidity::Unknown];
    proof { assert(stop@ =~= seq![GovernorValidity::Refused, GovernorValidity::Unknown]); }
    proof {
        assert(views(argv@) =~= model_capability_check(p.vars()).command_argv);
        assert(views(kinds@) =~= model_capability_check(p.vars()).expected_artifact_kinds);
        assert(views(paths@) =~= model_capability_check(p.vars()).expected_artifact_paths_or_globs);
        assert(views(notes@) =~= model_capability_check(p.vars()).validation_after_step);
    }
    collect_step("capability_check", "capability", argv, "repository_root", true, false, false, kinds, paths,
        "preflight_only", cont, stop, notes, "Check target-local helper readiness before any privileged sweep.")
}

fn step_read_only_inventory(p: &PlanStrings) -> (s: WorkflowCollectPlanStep)
    ensures
        s@ == model_read_only_inventory(p.vars()),
{
    let mut argv: Vec<String> = Vec::new();
    let argv_0: Vec<&str> = vec!["adc-lab", "inventory", "--target", p.target.as_str(), "--run-dir", p.run_dir.as_str(), "--json"];
    proof { assert(str_views(argv_0@) =~= seq!["adc-lab"@, "inventory"@, "--target"@, p.vars().target, "--run-dir"@, p.vars().run_dir, "--json"@]); }
    extend_all(&mut argv, &owned_all(&argv_0));
    let mut kinds: Vec<String> = Vec::new();
    let kinds_0: Vec<&str> = vec!["lab.target_inventory.v1"];
    proof { assert(str_views(kinds_0@) =~= seq!["lab.target_inventory.v1"@]); }
    extend_all(&mut kinds, &owned_all(&kinds_0));
    let mut paths: Vec<String> = Vec::new();
    let paths_0: Vec<&str> = vec![p.inventory_path.as_str()];
    proof { assert(str_views(paths_0@) =~= seq![p.vars().inventory_path]); }
    extend_all(&mut paths, &owned_all(&paths_0));
    let mut notes: Vec<String> = Vec::new();
    let notes_0: Vec<&str> = vec!["target identity and hardware claims require this read-only artifact"];
    proof { assert(str_views(notes_0@) =~= seq!["target identity and hardware claims require this read-only artifact"@]); }
    extend_all(&mut notes, &owned_all(&notes_0));
    let cont: Vec<GovernorValidity> = vec![GovernorValidity::Measured, GovernorValidity::Insufficient];
    proof { assert(cont@ =~= seq![GovernorValidity::Measured, GovernorValidity::Insufficient]); }
    let stop: Vec<GovernorValidity> = vec![GovernorValidity::Refused, GovernorValidity::Unknown];
    proof { assert(stop@ =~= seq![GovernorValidity::Refused, GovernorValidity::Unknown]); }
    proof {
        assert(views(argv@) =~= model_read_only_inventory(p.vars()).command_argv);
        assert(views(kinds@) =~= model_read_only_inventory(p.vars()).expected_artifact_kinds);
        assert(views(paths@) =~= model_read_only_inventory(p.vars()).expected_artifact_paths_or_globs);
        assert(views(notes@) =~= model_read_only_inventory(p.vars()).validation_after_step);
    }
    collect_step("read_only_inventory", "read_only", argv, "repository_root", false, false, false, kinds, paths,
        "read_only_inventory_required", cont, stop, notes, "Collect read-only target inventory before claim-producing reports.")
}

fn step_toolchain_discover(p: &PlanStrings) -> (s: WorkflowCollectPlanStep)
    ensures
        s@ == model_toolchain_discover(p.vars()),
{
    let mut argv: Vec<String> = Vec::new();
    let argv_0: Vec<&str> = vec!["adc-lab", "toolchain", "discover", "--target", p.target.as_str(), "--run-dir", p.run_dir.as_str(), "--json"];
    proof { assert(str_views(argv_0@) =~= seq!["adc-lab"@, "toolchain"@, "discover"@, "--target"@, p.vars().target, "--run-dir"@, p.vars().run_dir, "--json"@]); }
    extend_all(&mut argv, &owned_all(&argv_0));
    let mut kinds: Vec<String> = Vec::new();
    let kinds_0: Vec<&str> = vec!["lab.toolchain_inventory.v1"];
    proof { assert(str_views(kinds_0@) =~= seq!["lab.toolchain_inventory.v1"@]); }
    extend_all(&mut kinds, &owned_all(&kinds_0));
    let mut paths: Vec<String> = Vec::new();
    let paths_0: Vec<&str> = vec![p.toolchain_path.as_str()];
    proof { assert(str_views(paths_0@) =~= seq![p.vars().toolchain_path]); }
    extend_all(&mut paths, &owned_all(&paths_0));
    let mut notes: Vec<String> = Vec::new();
    let notes_0: Vec<&str> = vec!["tool availability claims require this read-only artifact"];
    proof { assert(str_views(notes_0@) =~= seq!["tool availability claims require this read-only artifact"@]); }
    extend_all(&mut notes, &owned_all(&notes_0));
    let cont: Vec<GovernorValidity> = vec![GovernorValidity::Measured, GovernorValidity::Insufficient];
    proof { assert(cont@ =~= seq![GovernorValidity::Measured, GovernorValidity::Insufficient]); }
    let stop: Vec<GovernorValidity> = vec![GovernorValidity::Refused, GovernorValidity::Unknown];
    proof { assert(stop@ =~= seq![GovernorValidity::Refused, GovernorValidity::Unknown]); }
    proof {
        assert(views(argv@) =~= model_toolchain_discover(p.vars()).command_argv);
        assert(views(kinds@) =~= model_toolchain_discover(p.vars()).expected_artifact_kinds);
        assert(views(paths@) =~= model_toolchain_discover(p.vars()).expected_artifact_paths_or_globs);
        assert(views(notes@) =~= model_toolchain_discover(p.vars()).validation_after_step);
    }
    collect_step("toolchain_discover", "read_only", argv, "repository_root", false, false, false, kinds, paths,
        "read_only_toolchain_required", cont, stop, notes, "Collect read-only toolchain inventory before workload or pressure claims.")
}

fn push_head_steps(steps: &mut Vec<WorkflowCollectPlanStep>, p: &PlanStrings)
    ensures
        step_models(final(steps)@) == step_models(old(steps)@) + head_models(p.vars()),
{
    let ghost start = step_models(steps@);
    steps.push(step_workflow_recommendation(p));
    steps.push(step_capability_check(p));
    steps.push(step_read_only_inventory(p));
    steps.push(step_toolchain_discover(p));
    proof {
        assert(step_models(steps@) =~= start + head_models(p.vars()));
    }
}

fn step_observe_baseline(p: &PlanStrings) -> (s: WorkflowCollectPlanStep)
    ensures
        s@ == model_observe_baseline(p.vars()),
{
    let mut argv: Vec<String> = Vec::new();
    let argv_0: Vec<&str> = vec!["adc-lab", "observe", "--target", p.target.as_str(), "--duration", "30s", "--sample-interval", "1s", "--artifact-label", "observe_baseline", "--run-dir", p.run_dir.as_str(), "--json"];
    proof { assert(str_views(argv_0@) =~= seq!["adc-lab"@, "observe"@, "--target"@, p.vars().target, "--duration"@, "30s"@, "--sample-interval"@, "1s"@, "--artifact-label"@, "observe_baseline"@, "--run-dir"@, p.vars().run_dir, "--json"@]); }
    extend_all(&mut argv, &owned_all(&argv_0));
    let mut kinds: Vec<String> = Vec::new();
    let kinds_0: Vec<&str> = vec!["observation"];
    proof { assert(str_views(kinds_0@) =~= seq!["observation"@]); }
    extend_all(&mut kinds, &owned_all(&kinds_0));
    let mut paths: Vec<String> = Vec::new();
    let paths_0: Vec<&str> = vec![p.observe_path.as_str(), p.observe_glob.as_str()];
    proof { assert(str_views(paths_0@) =~= seq![p.vars().observe_path, p.vars().observe_glob]); }
    extend_all(&mut paths, &owned_all(&paths_0));
    let mut notes: Vec<String> = Vec::new();
    let notes_0: Vec<&str> = vec!["baseline observation is context, not a controlled sweep"];
    proof { assert(str_views(notes_0@) =~= seq!["baseline observation is context, not a controlled sweep"@]); }
    extend_all(&mut notes, &owned_all(&notes_0));
    let cont: Vec<GovernorValidity> = vec![GovernorValidity::Measured, GovernorValidity::Insufficient];
    proof { assert(cont@ =~= seq![GovernorValidity::Measured, GovernorValidity::Insufficient]); }
    let stop: Vec<GovernorValidity> = vec![GovernorValidity::Refused, GovernorValidity::Unknown];
    proof { assert(stop@ =~= seq![GovernorValidity::Refused, GovernorValidity::Unknown]); }
    proof {
        assert(views(argv@) =~= model_observe_baseline(p.vars()).command_argv);
        assert(views(kinds@) =~= model_observe_baseline(p.vars()).expected_artifact_kinds);
        assert(views(paths@) =~= model_observe_baseline(p.vars()).expected_artifact_paths_or_globs);
        assert(views(notes@) =~= model_observe_baseline(p.vars()).validation_after_step);
    }
    collect_step("observe_baseline", "read_only", argv, "repository_root", false, false, false, kinds, paths,
        "baseline_observation_required", cont, stop, notes, "Collect passive baseline observation before pressure or suitability reports.")
}

fn step_cpu_ladder(p: &PlanStrings) -> (s: WorkflowCollectPlanStep)
    ensures
        s@ == model_cpu_ladder(p.vars()),
{
    let mut argv: Vec<String> = Vec::new();
    let argv_0: Vec<&str> = vec!["adc-lab", "load", "cpu", "--target", p.target.as_str(), "--workers", "1", "--duration", "10s", "--run-dir", p.run_dir.as_str(), "--json"];
    proof { assert(str_views(argv_0@) =~= seq!["adc-lab"@, "load"@, "cpu"@, "--target"@, p.vars().target, "--workers"@, "1"@, "--duration"@, "10s"@, "--run-dir"@, p.vars().run_dir, "--json"@]); }
    extend_all(&mut argv, &owned_all(&argv_0));
    let mut kinds: Vec<String> = Vec::new();
    let kinds_0: Vec<&str> = vec!["load"];
    proof { assert(str_views(kinds_0@) =~= seq!["load"@]); }
    extend_all(&mut kinds, &owned_all(&kinds_0));
    let mut paths: Vec<String> = Vec::new();
    let mut notes: Vec<String> = Vec::new();
    let notes_0: Vec<&str> = vec!["this bounded load seed does not prove all CPU ladder points; expand only through typed plan revisions"];
    proof { assert(str_views(notes_0@) =~= seq!["this bounded load seed does not prove all CPU ladder points; expand only through typed plan revisions"@]); }
    extend_all(&mut notes, &owned_all(&notes_0));
    let cont: Vec<GovernorValidity> = vec![GovernorValidity::Measured, GovernorValidity::Insufficient];
    proof { assert(cont@ =~= seq![GovernorValidity::Measured, GovernorValidity::Insufficient]); }
    let stop: Vec<GovernorValidity> = vec![GovernorValidity::Refused, GovernorValidity::Contaminated];
    proof { assert(stop@ =~= seq![GovernorValidity::Refused, GovernorValidity::Contaminated]); }
    proof {
        assert(views(argv@) =~= model_cpu_ladder(p.vars()).command_argv);
        assert(views(kinds@) =~= model_cpu_ladder(p.vars()).expected_artifact_kinds);
        assert(views(paths@) =~= model_cpu_ladder(p.vars()).expected_artifact_paths_or_globs);
        assert(views(notes@) =~= model_cpu_ladder(p.vars()).validation_after_step);
    }
    collect_step("cpu_ladder", "load", argv, "repository_root", false, false, false, kinds, paths,
        "bounded_load_seed_not_full_ladder", cont, stop, notes, "Run a bounded CPU load seed so full-set coverage includes load evidence.")
}

fn step_pressure_probe_set(p: &PlanStrings) -> (s: WorkflowCollectPlanStep)
    ensures
        s@ == model_pressure_probe_set(p.vars()),
{
    let mut argv: Vec<String> = Vec::new();
    let argv_0: Vec<&str> = vec!["adc-lab", "pressure", "run", "--target", p.target.as_str(), "--kind", "memory_pressure", "--duration", "5s", "--workers", "1", "--run-dir", p.run_dir.as_str(), "--json"];
    proof { assert(str_views(argv_0@) =~= seq!["adc-lab"@, "pressure"@, "run"@, "--target"@, p.vars().target, "--kind"@, "memory_pressure"@, "--duration"@, "5s"@, "--workers"@, "1"@, "--run-dir"@, p.vars().run_dir, "--json"@]); }
    extend_all(&mut argv, &owned_all(&argv_0));
    let mut kinds: Vec<String> = Vec::new();
    let kinds_0: Vec<&str> = vec!["pressure"];
    proof { assert(str_views(kinds_0@) =~= seq!["pressure"@]); }
    extend_all(&mut kinds, &owned_all(&kinds_0));
    let mut paths: Vec<String> = Vec::new();
    let mut notes: Vec<String> = Vec::new();
    let notes_0: Vec<&str> = vec!["run additional pressure kinds only through typed plan revisions"];
    proof { assert(str_views(notes_0@) =~= seq!["run additional pressure kinds only through typed plan revisions"@]); }
    extend_all(&mut notes, &owned_all(&notes_0));
    let cont: Vec<GovernorValidity> = vec![GovernorValidity::Measured, GovernorValidity::Insufficient];
    proof { assert(cont@ =~= seq![GovernorValidity::Measured, GovernorValidity::Insufficient]); }
    let stop: Vec<GovernorValidity> = vec![GovernorValidity::Refused, GovernorValidity::Contaminated];
    proof { assert(stop@ =~= seq![GovernorValidity::Refused, GovernorValidity::Contaminated]); }
    proof {
        assert(views(argv@) =~= model_pressure_probe_set(p.vars()).command_argv);
        assert(views(kinds@) =~= model_pressure_probe_set(p.vars()).expected_artifact_kinds);
        assert(views(paths@) =~= model_pressure_probe_set(p.vars()).expected_artifact_paths_or_globs);
        assert(views(notes@) =~= model_pressure_probe_set(p.vars()).validation_after_step);
    }
    collect_step("pressure_probe_set", "pressure", argv, "repository_root", false, false, false, kinds, paths,
        "pressure_probe_required_for_pressure_claims", cont, stop, notes, "Run the first bounded pressure probe; characterization-full expands pressure coverage.")
}

fn step_composite_probe(p: &PlanStrings) -> (s: WorkflowCollectPlanStep)
    ensures
        s@ == model_composite_probe(p.vars()),
{
    let mut argv: Vec<String> = Vec::new();
    let argv_0: Vec<&str> = vec!["adc-lab", "pressure", "composite", "--target", p.target.as_str(), "--scenario", "memory_storage_jitter", "--duration", "5s", "--workers", "1", "--run-dir", p.run_dir.as_str(), "--json"];
    proof { assert(str_views(argv_0@) =~= seq!["adc-lab"@, "pressure"@, "composite"@, "--target"@, p.vars().target, "--scenario"@, "memory_storage_jitter"@, "--duration"@, "5s"@, "--workers"@, "1"@, "--run-dir"@, p.vars().run_dir, "--json"@]); }
    extend_all(&mut argv, &owned_all(&argv_0));
    let mut kinds: Vec<String> = Vec::new();
    let kinds_0: Vec<&str> = vec!["composite"];
    proof { assert(str_views(kinds_0@) =~= seq!["composite"@]); }
    extend_all(&mut kinds, &owned_all(&kinds_0));
    let mut paths: Vec<String> = Vec::new();
    let mut notes: Vec<String> = Vec::new();
    let notes_0: Vec<&str> = vec!["composite status must be measured before coupling claims are supported"];
    proof { assert(str_views(notes_0@) =~= seq!["composite status must be measured before coupling claims are supported"@]); }
    extend_all(&mut notes, &owned_all(&notes_0));
    let cont: Vec<GovernorValidity> = vec![GovernorValidity::Measured, GovernorValidity::Insufficient];
    proof { assert(cont@ =~= seq![GovernorValidity::Measured, GovernorValidity::Insufficient]); }
    let stop: Vec<GovernorValidity> = vec![GovernorValidity::Refused, GovernorValidity::Contaminated];
    proof { assert(stop@ =~= seq![GovernorValidity::Refused, GovernorValidity::Contaminated]); }
    proof {
        assert(views(argv@) =~= model_composite_probe(p.vars()).command_argv);
        assert(views(kinds@) =~= model_composite_probe(p.vars()).expected_artifact_kinds);
        assert(views(paths@) =~= model_composite_probe(p.vars()).expected_artifact_paths_or_globs);
        assert(views(notes@) =~= model_composite_probe(p.vars()).validation_after_step);
    }
    collect_step("composite_probe", "pressure", argv, "repository_root", false, false, false, kinds, paths,
        "composite_probe_required_for_coupling_claims", cont, stop, notes, "Run the bounded composite pressure probe for coupling coverage.")
}

fn push_smoke_steps(steps: &mut Vec<WorkflowCollectPlanStep>, p: &PlanStrings)
    ensures
        step_models(final(steps)@) == step_models(old(steps)@) + smoke_models(p.vars()),
{
    let ghost start = step_models(steps@);
    steps.push(step_observe_baseline(p));
    steps.push(step_cpu_ladder(p));
    steps.push(step_pressure_probe_set(p));
    steps.push(step_composite_probe(p));
    proof {
        assert(step_models(steps@) =~= start + smoke_models(p.vars()));
    }
}

fn step_prepare_target_local_workload_plan_dir(p: &PlanStrings) -> (s: WorkflowCollectPlanStep)
    ensures
        s@ == model_prepare_target_local_workload_plan_dir(p.vars()),
{
    let mut argv: Vec<String> = Vec::new();
    let argv_0: Vec<&str> = vec!["mkdir", "-p", p.tl_wl_inputs_dir.as_str()];
    proof { assert(str_views(argv_0@) =~= seq!["mkdir"@, "-p"@, p.vars().tl_wl_inputs_dir]); }
    extend_all(&mut argv, &owned_all(&argv_0));
    let mut kinds: Vec<String> = Vec::new();
    let mut paths: Vec<String> = Vec::new();
    let paths_0: Vec<&str> = vec![p.tl_wl_inputs_dir.as_str()];
    proof { assert(str_views(paths_0@) =~= seq![p.vars().tl_wl_inputs_dir]); }
    extend_all(&mut paths, &owned_all(&paths_0));
    let mut notes: Vec<String> = Vec::new();
    let notes_0: Vec<&str> = vec!["create the target-local workload input directory before scp staging", "run this argv on the target-local host; it is not a remote shell step"];
    proof { assert(str_views(notes_0@) =~= seq!["create the target-local workload input directory before scp staging"@, "run this argv on the target-local host; it is not a remote shell step"@]); }
    extend_all(&mut notes, &owned_all(&notes_0));
    let cont: Vec<GovernorValidity> = vec![GovernorValidity::NotApplicable];
    proof { assert(cont@ =~= seq![GovernorValidity::NotApplicable]); }
    let stop: Vec<GovernorValidity> = vec![GovernorValidity::Refused];
    proof { assert(stop@ =~= seq![GovernorValidity::Refused]); }
    proof {
        assert(views(argv@) =~= model_prepare_target_local_workload_plan_dir(p.vars()).command_argv);
        assert(views(kinds@) =~= model_prepare_target_local_workload_plan_dir(p.vars()).expected_artifact_kinds);
        assert(views(paths@) =~= model_prepare_target_local_workload_plan_dir(p.vars()).expected_artifact_paths_or_globs);
        assert(views(notes@) =~= model_prepare_target_local_workload_plan_dir(p.vars()).validation_after_step);
    }
    collect_step_at("prepare_target_local_workload_plan_dir", "workload", argv, "target_local_repository_root", "target_local",
        false, true, false, false, kinds, paths,
        "workload_plan_staging_required_for_target_local_workload", cont, stop, notes, "Create the target-local workload run input directory before staging the workload plan.")
}

fn step_stage_target_local_workload_plan(p: &PlanStrings) -> (s: WorkflowCollectPlanStep)
    ensures
        s@ == model_stage_target_local_workload_plan(p.vars()),
{
    let mut argv: Vec<String> = Vec::new();
    let argv_0: Vec<&str> = vec!["scp", p.ctrl_wl_plan_path.as_str(), p.tl_wl_plan_scp_dest.as_str()];
    proof { assert(str_views(argv_0@) =~= seq!["scp"@, p.vars().ctrl_wl_plan_path, p.vars().tl_wl_plan_scp_dest]); }
    extend_all(&mut argv, &owned_all(&argv_0));
    let mut kinds: Vec<String> = Vec::new();
    let mut paths: Vec<String> = Vec::new();
    let paths_0: Vec<&str> = vec![p.wl_plan_path.as_str()];
    proof { assert(str_views(paths_0@) =~= seq![p.vars().wl_plan_path]); }
    extend_all(&mut paths, &owned_all(&paths_0));
    let mut notes: Vec<String> = Vec::new();
    let notes_0: Vec<&str> = vec!["stage the exact controller workload run plan path to the target-local workload run path", "this staging step is handoff plumbing, not target measurement evidence"];
    proof { assert(str_views(notes_0@) =~= seq!["stage the exact controller workload run plan path to the target-local workload run path"@, "this staging step is handoff plumbing, not target measurement evidence"@]); }
    extend_all(&mut notes, &owned_all(&notes_0));
    let cont: Vec<GovernorValidity> = vec![GovernorValidity::NotApplicable];
    proof { assert(cont@ =~= seq![GovernorValidity::NotApplicable]); }
    let stop: Vec<GovernorValidity> = vec![GovernorValidity::Refused];
    proof { assert(stop@ =~= seq![GovernorValidity::Refused]); }
    proof {
        assert(views(argv@) =~= model_stage_target_local_workload_plan(p.vars()).command_argv);
        assert(views(kinds@) =~= model_stage_target_local_workload_plan(p.vars()).expected_artifact_kinds);
        assert(views(paths@) =~= model_stage_target_local_workload_plan(p.vars()).expected_artifact_paths_or_globs);
        assert(views(notes@) =~= model_stage_target_local_workload_plan(p.vars()).validation_after_step);
    }
    collect_step_at("stage_target_local_workload_plan", "workload", argv, "repository_root", "operator_handoff",
        true, true, false, false, kinds, paths,
        "workload_plan_staging_required_for_target_local_workload", cont, stop, notes, "Stage the workload run plan onto the target before target-local workload demand collection.")
}

fn push_staging_steps(steps: &mut Vec<WorkflowCollectPlanStep>, p: &PlanStrings)
    ensures
        step_models(final(steps)@) == step_models(old(steps)@) + staging_models(p.vars()),
{
    let ghost start = step_models(steps@);
    steps.push(step_prepare_target_local_workload_plan_dir(p));
    steps.push(step_stage_target_local_workload_plan(p));
    proof {
        assert(step_models(steps@) =~= start + staging_models(p.vars()));
    }
}

fn step_workload_demand(p: &PlanStrings) -> (s: WorkflowCollectPlanStep)
    ensures
        s@ == model_workload_demand(p.vars()),
{
    let mut argv: Vec<String> = Vec::new();
    let argv_0: Vec<&str> = vec!["adc-lab", "workload", "run", "--target", p.local_target.as_str(), "--plan", p.wl_plan_path.as_str(), "--target-id", p.target_id.as_str(), "--run-dir", p.wl_run_dir.as_str(), "--execution-mode", "target-local", "--json"];
    proof { assert(str_views(argv_0@) =~= seq!["adc-lab"@, "workload"@, "run"@, "--target"@, p.vars().local_target, "--plan"@, p.vars().wl_plan_path, "--target-id"@, p.vars().target_id, "--run-dir"@, p.vars().wl_run_dir, "--execution-mode"@, "target-local"@, "--json"@]); }
    extend_all(&mut argv, &owned_all(&argv_0));
    let mut kinds: Vec<String> = Vec::new();
    let kinds_0: Vec<&str> = vec!["workload"];
    proof { assert(str_views(kinds_0@) =~= seq!["workload"@]); }
    extend_all(&mut kinds, &owned_all(&kinds_0));
    let mut paths: Vec<String> = Vec::new();
    let paths_0: Vec<&str> = vec![p.wl_step_output.as_str()];
    proof { assert(str_views(paths_0@) =~= seq![p.vars().wl_step_output]); }
    extend_all(&mut paths, &owned_all(&paths_0));
    let mut notes: Vec<String> = Vec::new();
    let notes_0: Vec<&str> = vec!["operator must provide the workload run plan; refused workload artifacts cannot support suitability claims", p.wl_note.as_str()];
    proof { assert(str_views(notes_0@) =~= seq!["operator must provide the workload run plan; refused workload artifacts cannot support suitability claims"@, p.vars().wl_note]); }
    extend_all(&mut notes, &owned_all(&notes_0));
    let cont: Vec<GovernorValidity> = vec![GovernorValidity::Measured, GovernorValidity::Insufficient];
    proof { assert(cont@ =~= seq![GovernorValidity::Measured, GovernorValidity::Insufficient]); }
    let stop: Vec<GovernorValidity> = vec![GovernorValidity::Refused, GovernorValidity::Unknown];
    proof { assert(stop@ =~= seq![GovernorValidity::Refused, GovernorValidity::Unknown]); }
    proof {
        assert(views(argv@) =~= model_workload_demand(p.vars()).command_argv);
        assert(views(kinds@) =~= model_workload_demand(p.vars()).expected_artifact_kinds);
        assert(views(paths@) =~= model_workload_demand(p.vars()).expected_artifact_paths_or_globs);
        assert(views(notes@) =~= model_workload_demand(p.vars()).validation_after_step);
    }
    collect_step_at("workload_demand", "workload", argv, p.local_wd.as_str(), p.local_loc.as_str(),
        !p.ssh, p.ssh, false, false, kinds, paths,
        "workload_demand_required_for_suitability", cont, stop, notes, "Generate or preserve workload demand evidence using an explicit workload plan path.")
}

fn push_workload_steps(steps: &mut Vec<WorkflowCollectPlanStep>, p: &PlanStrings)
    ensures
        step_models(final(steps)@) == step_models(old(steps)@) + workload_models(p.vars()),
{
    let ghost start = step_models(steps@);
    steps.push(step_workload_demand(p));
    proof {
        assert(step_models(steps@) =~= start + workload_models(p.vars()));
    }
}

fn step_prepare_target_local_workload_retrieval_parent(p: &PlanStrings) -> (s: WorkflowCollectPlanStep)
    ensures
        s@ == model_prepare_target_local_workload_retrieval_parent(p.vars()),
{
    let mut argv: Vec<String> = Vec::new();
    let argv_0: Vec<&str> = vec!["mkdir", "-p", p.retrieved_parent_dir.as_str()];
    proof { assert(str_views(argv_0@) =~= seq!["mkdir"@, "-p"@, p.vars().retrieved_parent_dir]); }
    extend_all(&mut argv, &owned_all(&argv_0));
    let mut kinds: Vec<String> = Vec::new();
    let mut paths: Vec<String> = Vec::new();
    let paths_0: Vec<&str> = vec![p.retrieved_parent_dir.as_str()];
    proof { assert(str_views(paths_0@) =~= seq![p.vars().retrieved_parent_dir]); }
    extend_all(&mut paths, &owned_all(&paths_0));
    let mut notes: Vec<String> = Vec::new();
    let notes_0: Vec<&str> = vec!["create the included-run parent before workload demand retrieval"];
    proof { assert(str_views(notes_0@) =~= seq!["create the included-run parent before workload demand retrieval"@]); }
    extend_all(&mut notes, &owned_all(&notes_0));
    let cont: Vec<GovernorValidity> = vec![GovernorValidity::NotApplicable];
    proof { assert(cont@ =~= seq![GovernorValidity::NotApplicable]); }
    let stop: Vec<GovernorValidity> = vec![GovernorValidity::Refused];
    proof { assert(stop@ =~= seq![GovernorValidity::Refused]); }
    proof {
        assert(views(argv@) =~= model_prepare_target_local_workload_retrieval_parent(p.vars()).command_argv);
        assert(views(kinds@) =~= model_prepare_target_local_workload_retrieval_parent(p.vars()).expected_artifact_kinds);
        assert(views(paths@) =~= model_prepare_target_local_workload_retrieval_parent(p.vars()).expected_artifact_paths_or_globs);
        assert(views(notes@) =~= model_prepare_target_local_workload_retrieval_parent(p.vars()).validation_after_step);
    }
    collect_step_at("prepare_target_local_workload_retrieval_parent", "workload", argv, "repository_root", "operator_handoff",
        true, false, false, false, kinds, paths,
        "handoff_only_not_target_evidence", cont, stop, notes, "Create the included-run parent directory before retrieving target-local workload demand.")
}

fn step_reset_target_local_workload_retrieval_destination(p: &PlanStrings) -> (s: WorkflowCollectPlanStep)
    ensures
        s@ == model_reset_target_local_workload_retrieval_destination(p.vars()),
{
    let mut argv: Vec<String> = Vec::new();
    let argv_0: Vec<&str> = vec!["rm", "-rf", p.retrieved_tl_wl_run_dir.as_str()];
    proof { assert(str_views(argv_0@) =~= seq!["rm"@, "-rf"@, p.vars().retrieved_tl_wl_run_dir]); }
    extend_all(&mut argv, &owned_all(&argv_0));
    let mut kinds: Vec<String> = Vec::new();
    let mut paths: Vec<String> = Vec::new();
    let mut notes: Vec<String> = Vec::new();
    let notes_0: Vec<&str> = vec![p.reset_note.as_str(), "this cleanup is controller-side handoff plumbing, not target evidence"];
    proof { assert(str_views(notes_0@) =~= seq![p.vars().reset_note, "this cleanup is controller-side handoff plumbing, not target evidence"@]); }
    extend_all(&mut notes, &owned_all(&notes_0));
    let cont: Vec<GovernorValidity> = vec![GovernorValidity::NotApplicable];
    proof { assert(cont@ =~= seq![GovernorValidity::NotApplicable]); }
    let stop: Vec<GovernorValidity> = vec![GovernorValidity::Refused];
    proof { assert(stop@ =~= seq![GovernorValidity::Refused]); }
    proof {
        assert(views(argv@) =~= model_reset_target_local_workload_retrieval_destination(p.vars()).command_argv);
        assert(views(kinds@) =~= model_reset_target_local_workload_retrieval_destination(p.vars()).expected_artifact_kinds);
        assert(views(paths@) =~= model_reset_target_local_workload_retrieval_destination(p.vars()).expected_artifact_paths_or_globs);
        assert(views(notes@) =~= model_reset_target_local_workload_retrieval_destination(p.vars()).validation_after_step);
    }
    collect_step_at("reset_target_local_workload_retrieval_destination", "workload", argv, "repository_root", "operator_handoff",
        true, false, false, false, kinds, paths,
        "handoff_only_not_target_evidence", cont, stop, notes, "Reset only the deterministic retrieved workload demand destination before scp so reruns keep the same layout.")
}

fn step_retrieve_target_local_workload_demand(p: &PlanStrings) -> (s: WorkflowCollectPlanStep)
    ensures
        s@ == model_retrieve_target_local_workload_demand(p.vars()),
{
    let mut argv: Vec<String> = Vec::new();
    let argv_0: Vec<&str> = vec!["scp", "-r", p.tl_wl_scp_source.as_str(), p.retrieved_tl_wl_run_dir.as_str()];
    proof { assert(str_views(argv_0@) =~= seq!["scp"@, "-r"@, p.vars().tl_wl_scp_source, p.vars().retrieved_tl_wl_run_dir]); }
    extend_all(&mut argv, &owned_all(&argv_0));
    let mut kinds: Vec<String> = Vec::new();
    let kinds_0: Vec<&str> = vec!["workload"];
    proof { assert(str_views(kinds_0@) =~= seq!["workload"@]); }
    extend_all(&mut kinds, &owned_all(&kinds_0));
    let mut paths: Vec<String> = Vec::new();
    let paths_0: Vec<&str> = vec![p.wl_demand_path.as_str()];
    proof { assert(str_views(paths_0@) =~= seq![p.vars().wl_demand_path]); }
    extend_all(&mut paths, &owned_all(&paths_0));
    let mut notes: Vec<String> = Vec::new();
    let notes_0: Vec<&str> = vec!["retrieval is a handoff step, not target measurement evidence", "decide suitability consumes the retrieved workload demand path exactly", "destination is removed before scp so existing directories cannot change the copied layout"];
    proof { assert(str_views(notes_0@) =~= seq!["retrieval is a handoff step, not target measurement evidence"@, "decide suitability consumes the retrieved workload demand path exactly"@, "destination is removed before scp so existing directories cannot change the copied layout"@]); }
    extend_all(&mut notes, &owned_all(&notes_0));
    let cont: Vec<GovernorValidity> = vec![GovernorValidity::Measured, GovernorValidity::Insufficient];
    proof { assert(cont@ =~= seq![GovernorValidity::Measured, GovernorValidity::Insufficient]); }
    let stop: Vec<GovernorValidity> = vec![GovernorValidity::Refused, GovernorValidity::Unknown];
    proof { assert(stop@ =~= seq![GovernorValidity::Refused, GovernorValidity::Unknown]); }
    proof {
        assert(views(argv@) =~= model_retrieve_target_local_workload_demand(p.vars()).command_argv);
        assert(views(kinds@) =~= model_retrieve_target_local_workload_demand(p.vars()).expected_artifact_kinds);
        assert(views(paths@) =~= model_retrieve_target_local_workload_demand(p.vars()).expected_artifact_paths_or_globs);
        assert(views(notes@) =~= model_retrieve_target_local_workload_demand(p.vars()).validation_after_step);
    }
    collect_step_at("retrieve_target_local_workload_demand", "workload", argv, "repository_root", "operator_handoff",
        true, true, false, false, kinds, paths,
        "workload_demand_required_for_suitability", cont, stop, notes, "Retrieve the target-local workload demand run into the deterministic included-run path before suitability.")
}

fn push_retrieval_steps(steps: &mut Vec<WorkflowCollectPlanStep>, p: &PlanStrings)
    ensures
        step_models(final(steps)@) == step_models(old(steps)@) + retrieval_models(p.vars()),
{
    let ghost start = step_models(steps@);
    steps.push(step_prepare_target_local_workload_retrieval_parent(p));
    steps.push(step_reset_target_local_workload_retrieval_destination(p));
    steps.push(step_retrieve_target_local_workload_demand(p));
    proof {
        assert(step_models(steps@) =~= start + retrieval_models(p.vars()));
    }
}

fn step_governor_sweep_prepare(p: &PlanStrings) -> (s: WorkflowCollectPlanStep)
    ensures
        s@ == model_governor_sweep_prepare(p.vars()),
{
    let mut argv: Vec<String> = Vec::new();
    let argv_0: Vec<&str> = vec!["adc-lab", "control", "governor-sweep", "prepare", "--target", p.local_target.as_str(), "--governors", p.governor_arg.as_str(), "--duration-seconds-max", "60", "--run-dir", p.gov_run_dir.as_str(), "--out", p.policy_request_path.as_str(), "--json"];
    proof { assert(str_views(argv_0@) =~= seq!["adc-lab"@, "control"@, "governor-sweep"@, "prepare"@, "--target"@, p.vars().local_target, "--governors"@, p.vars().governor_arg, "--duration-seconds-max"@, "60"@, "--run-dir"@, p.vars().gov_run_dir, "--out"@, p.vars().policy_request_path, "--json"@]); }
    extend_all(&mut argv, &owned_all(&argv_0));
    let mut kinds: Vec<String> = Vec::new();
    let kinds_0: Vec<&str> = vec!["control.governor_sweep_policy"];
    proof { assert(str_views(kinds_0@) =~= seq!["control.governor_sweep_policy"@]); }
    extend_all(&mut kinds, &owned_all(&kinds_0));
    let mut paths: Vec<String> = Vec::new();
    let paths_0: Vec<&str> = vec![p.policy_request_path.as_str()];
    proof { assert(str_views(paths_0@) =~= seq![p.vars().policy_request_path]); }
    extend_all(&mut paths, &owned_all(&paths_0));
    let mut notes: Vec<String> = Vec::new();
    let notes_0: Vec<&str> = vec!["human reviews requested governors, target, duration, and expiry", "ssh controller workflows execute governor sweep argv on the target-local adc-lab with --target local"];
    proof { assert(str_views(notes_0@) =~= seq!["human reviews requested governors, target, duration, and expiry"@, "ssh controller workflows execute governor sweep argv on the target-local adc-lab with --target local"@]); }
    extend_all(&mut notes, &owned_all(&notes_0));
    let cont: Vec<GovernorValidity> = vec![GovernorValidity::Insufficient];
    proof { assert(cont@ =~= seq![GovernorValidity::Insufficient]); }
    let stop: Vec<GovernorValidity> = vec![GovernorValidity::Refused, GovernorValidity::Contaminated];
    proof { assert(stop@ =~= seq![GovernorValidity::Refused, GovernorValidity::Contaminated]); }
    proof {
        assert(views(argv@) =~= model_governor_sweep_prepare(p.vars()).command_argv);
        assert(views(kinds@) =~= model_governor_sweep_prepare(p.vars()).expected_artifact_kinds);
        assert(views(paths@) =~= model_governor_sweep_prepare(p.vars()).expected_artifact_paths_or_globs);
        assert(views(notes@) =~= model_governor_sweep_prepare(p.vars()).validation_after_step);
    }
    collect_step_at("governor_sweep_prepare", "approval", argv, p.local_wd.as_str(), p.local_loc.as_str(),
        !p.ssh, true, false, false, kinds, paths,
        "human_approval_required_before_apply", cont, stop, notes, "Prepare the bounded governor sweep policy request.")
}

fn step_governor_sweep_approve(p: &PlanStrings) -> (s: WorkflowCollectPlanStep)
    ensures
        s@ == model_governor_sweep_approve(p.vars()),
{
    let mut argv: Vec<String> = Vec::new();
    let argv_0: Vec<&str> = vec!["adc-lab", "control", "governor-sweep", "approve", "--request", p.policy_request_path.as_str(), "--approved-by", "operator", "--run-dir", p.gov_run_dir.as_str(), "--out", p.policy_path.as_str(), "--json"];
    proof { assert(str_views(argv_0@) =~= seq!["adc-lab"@, "control"@, "governor-sweep"@, "approve"@, "--request"@, p.vars().policy_request_path, "--approved-by"@, "operator"@, "--run-dir"@, p.vars().gov_run_dir, "--out"@, p.vars().policy_path, "--json"@]); }
    extend_all(&mut argv, &owned_all(&argv_0));
    let mut kinds: Vec<String> = Vec::new();
    let kinds_0: Vec<&str> = vec!["control.governor_sweep_policy"];
    proof { assert(str_views(kinds_0@) =~= seq!["control.governor_sweep_policy"@]); }
    extend_all(&mut kinds, &owned_all(&kinds_0));
    let mut paths: Vec<String> = Vec::new();
    let paths_0: Vec<&str> = vec![p.policy_path.as_str()];
    proof { assert(str_views(paths_0@) =~= seq![p.vars().policy_path]); }
    extend_all(&mut paths, &owned_all(&paths_0));
    let mut notes: Vec<String> = Vec::new();
    let notes_0: Vec<&str> = vec!["approved policy digest must match the request"];
    proof { assert(str_views(notes_0@) =~= seq!["approved policy digest must match the request"@]); }
    extend_all(&mut notes, &owned_all(&notes_0));
    let cont: Vec<GovernorValidity> = vec![GovernorValidity::Measured];
    proof { assert(cont@ =~= seq![GovernorValidity::Measured]); }
    let stop: Vec<GovernorValidity> = vec![GovernorValidity::Refused, GovernorValidity::Contaminated];
    proof { assert(stop@ =~= seq![GovernorValidity::Refused, GovernorValidity::Contaminated]); }
    proof {
        assert(views(argv@) =~= model_governor_sweep_approve(p.vars()).command_argv);
        assert(views(kinds@) =~= model_governor_sweep_approve(p.vars()).expected_artifact_kinds);
        assert(views(paths@) =~= model_governor_sweep_approve(p.vars()).expected_artifact_paths_or_globs);
        assert(views(notes@) =~= model_governor_sweep_approve(p.vars()).validation_after_step);
    }
    collect_step_at("governor_sweep_approve", "approval", argv, p.local_wd.as_str(), p.local_loc.as_str(),
        !p.ssh, true, true, false, kinds, paths,
        "human_approval_required", cont, stop, notes, "Record out-of-band human approval bound to the sweep policy digest.")
}

fn step_governor_sweep_run(p: &PlanStrings) -> (s: WorkflowCollectPlanStep)
    ensures
        s@ == model_governor_sweep_run(p.vars()),
{
    let mut argv: Vec<String> = Vec::new();
    let argv_0: Vec<&str> = vec!["adc-lab", "control", "governor-sweep", "run", "--target", p.local_target.as_str(), "--governors", p.governor_arg.as_str(), "--approval-policy", p.policy_path.as_str(), "--duration-seconds-max", "60", "--load-duration", "1s", "--restore-after-each", "--run-dir", p.gov_run_dir.as_str(), "--allow-non-measured", "--json"];
    proof { assert(str_views(argv_0@) =~= seq!["adc-lab"@, "control"@, "governor-sweep"@, "run"@, "--target"@, p.vars().local_target, "--governors"@, p.vars().governor_arg, "--approval-policy"@, p.vars().policy_path, "--duration-seconds-max"@, "60"@, "--load-duration"@, "1s"@, "--restore-after-each"@, "--run-dir"@, p.vars().gov_run_dir, "--allow-non-measured"@, "--json"@]); }
    extend_all(&mut argv, &owned_all(&argv_0));
    let mut kinds: Vec<String> = Vec::new();
    let kinds_0: Vec<&str> = vec!["report.run_validation", "control_result", "load", "lab.restore_lease.v1"];
    proof { assert(str_views(kinds_0@) =~= seq!["report.run_validation"@, "control_result"@, "load"@, "lab.restore_lease.v1"@]); }
    extend_all(&mut kinds, &owned_all(&kinds_0));
    let mut paths: Vec<String> = Vec::new();
    let paths_0: Vec<&str> = vec![p.gov_validation_path.as_str(), p.gov_gaps_path.as_str()];
    proof { assert(str_views(paths_0@) =~= seq![p.vars().gov_validation_path, p.vars().gov_gaps_path]); }
    extend_all(&mut paths, &owned_all(&paths_0));
    let mut notes: Vec<String> = Vec::new();
    let notes_0: Vec<&str> = vec!["non-measured sweep evidence is preserved but cannot support full-set claims", "for ssh controller workflows, retrieve the target-local run directory before controller-side validation"];
    proof { assert(str_views(notes_0@) =~= seq!["non-measured sweep evidence is preserved but cannot support full-set claims"@, "for ssh controller workflows, retrieve the target-local run directory before controller-side validation"@]); }
    extend_all(&mut notes, &owned_all(&notes_0));
    let cont: Vec<GovernorValidity> = vec![GovernorValidity::Measured, GovernorValidity::Insufficient];
    proof { assert(cont@ =~= seq![GovernorValidity::Measured, GovernorValidity::Insufficient]); }
    let stop: Vec<GovernorValidity> = vec![GovernorValidity::Refused, GovernorValidity::Contaminated];
    proof { assert(stop@ =~= seq![GovernorValidity::Refused, GovernorValidity::Contaminated]); }
    proof {
        assert(views(argv@) =~= model_governor_sweep_run(p.vars()).command_argv);
        assert(views(kinds@) =~= model_governor_sweep_run(p.vars()).expected_artifact_kinds);
        assert(views(paths@) =~= model_governor_sweep_run(p.vars()).expected_artifact_paths_or_globs);
        assert(views(notes@) =~= model_governor_sweep_run(p.vars()).validation_after_step);
    }
    collect_step_at("governor_sweep_run", "control", argv, p.local_wd.as_str(), p.local_loc.as_str(),
        !p.ssh, true, true, true, kinds, paths,
        "claim_gate_requires_report_run_validation", cont, stop, notes, "Run the approved bounded governor sweep and preserve validation gaps.")
}

fn step_run_validation(p: &PlanStrings) -> (s: WorkflowCollectPlanStep)
    ensures
        s@ == model_run_validation(p.vars()),
{
    let mut argv: Vec<String> = Vec::new();
    let argv_0: Vec<&str> = vec!["adc-lab", "report", "validate-run", "--run", p.run_dir.as_str()];
    proof { assert(str_views(argv_0@) =~= seq!["adc-lab"@, "report"@, "validate-run"@, "--run"@, p.vars().run_dir]); }
    extend_all(&mut argv, &owned_all(&argv_0));
    if p.ssh {
        let argv_1: Vec<&str> = vec!["--include-run", p.retrieved_tl_run_dir.as_str()];
        proof { assert(str_views(argv_1@) =~= seq!["--include-run"@, p.vars().retrieved_tl_run_dir]); }
        extend_all(&mut argv, &owned_all(&argv_1));
    }
    let argv_2: Vec<&str> = vec!["--profile", p.effective_profile.as_str(), "--expected-governors", p.governor_arg.as_str(), "--workflow-recommendation", p.rec_path.as_str(), "--collect-plan", p.collect_plan_path.as_str(), "--target-id", p.target_id.as_str(), "--target-class", p.target_class.as_str(), "--out", p.validation_path.as_str(), "--gaps-out", p.gaps_path.as_str(), "--allow-non-measured", "--json"];
    proof { assert(str_views(argv_2@) =~= seq!["--profile"@, p.vars().effective_profile, "--expected-governors"@, p.vars().governor_arg, "--workflow-recommendation"@, p.vars().rec_path, "--collect-plan"@, p.vars().collect_plan_path, "--target-id"@, p.vars().target_id, "--target-class"@, p.vars().target_class, "--out"@, p.vars().validation_path, "--gaps-out"@, p.vars().gaps_path, "--allow-non-measured"@, "--json"@]); }
    extend_all(&mut argv, &owned_all(&argv_2));
    let mut kinds: Vec<String> = Vec::new();
    let kinds_0: Vec<&str> = vec!["report.run_validation"];
    proof { assert(str_views(kinds_0@) =~= seq!["report.run_validation"@]); }
    extend_all(&mut kinds, &owned_all(&kinds_0));
    let mut paths: Vec<String> = Vec::new();
    let paths_0: Vec<&str> = vec![p.validation_path.as_str(), p.gaps_path.as_str()];
    proof { assert(str_views(paths_0@) =~= seq![p.vars().validation_path, p.vars().gaps_path]); }
    extend_all(&mut paths, &owned_all(&paths_0));
    let mut notes: Vec<String> = Vec::new();
    let notes_0: Vec<&str> = vec!["selection_ready remains false unless overall validity is measured"];
    proof { assert(str_views(notes_0@) =~= seq!["selection_ready remains false unless overall validity is measured"@]); }
    extend_all(&mut notes, &owned_all(&notes_0));
    if p.ssh {
        let notes_1: Vec<&str> = vec![p.include_note.as_str()];
        proof { assert(str_views(notes_1@) =~= seq![p.vars().include_note]); }
        extend_all(&mut notes, &owned_all(&notes_1));
    }
    let cont: Vec<GovernorValidity> = vec![GovernorValidity::Measured, GovernorValidity::Insufficient];
    proof { assert(cont@ =~= seq![GovernorValidity::Measured, GovernorValidity::Insufficient]); }
    let stop: Vec<GovernorValidity> = vec![GovernorValidity::Refused, GovernorValidity::Contaminated, GovernorValidity::Unknown];
    proof { assert(stop@ =~= seq![GovernorValidity::Refused, GovernorValidity::Contaminated, GovernorValidity::Unknown]); }
    proof {
        assert(views(argv@) =~= model_run_validation(p.vars()).command_argv);
        assert(views(kinds@) =~= model_run_validation(p.vars()).expected_artifact_kinds);
        assert(views(paths@) =~= model_run_validation(p.vars()).expected_artifact_paths_or_globs);
        assert(views(notes@) =~= model_run_validation(p.vars()).validation_after_step);
    }
    collect_step("run_validation", "validation", argv, "repository_root", true, false, false, kinds, paths,
        "required_fullset_validation", cont, stop, notes, "Validate the run set using typed collect-plan and recommendation refs.")
}

fn step_operating_contract(p: &PlanStrings) -> (s: WorkflowCollectPlanStep)
    ensures
        s@ == model_operating_contract(p.vars()),
{
    let mut argv: Vec<String> = Vec::new();
    let argv_0: Vec<&str> = vec!["adc-lab", "report", "operating-contract", "--run", p.run_dir.as_str()];
    proof { assert(str_views(argv_0@) =~= seq!["adc-lab"@, "report"@, "operating-contract"@, "--run"@, p.vars().run_dir]); }
    extend_all(&mut argv, &owned_all(&argv_0));
    if p.ssh {
        let argv_1: Vec<&str> = vec!["--include-run", p.retrieved_tl_run_dir.as_str()];
        proof { assert(str_views(argv_1@) =~= seq!["--include-run"@, p.vars().retrieved_tl_run_dir]); }
        extend_all(&mut argv, &owned_all(&argv_1));
    }
    let argv_2: Vec<&str> = vec!["--target-id", p.target_id.as_str(), "--target-class", p.target_class.as_str(), "--validation", p.validation_path.as_str(), "--strict-fullset", "--json"];
    proof { assert(str_views(argv_2@) =~= seq!["--target-id"@, p.vars().target_id, "--target-class"@, p.vars().target_class, "--validation"@, p.vars().validation_path, "--strict-fullset"@, "--json"@]); }
    extend_all(&mut argv, &owned_all(&argv_2));
    let mut kinds: Vec<String> = Vec::new();
    let kinds_0: Vec<&str> = vec!["report.operating_contract"];
    proof { assert(str_views(kinds_0@) =~= seq!["report.operating_contract"@]); }
    extend_all(&mut kinds, &owned_all(&kinds_0));
    let mut paths: Vec<String> = Vec::new();
    let paths_0: Vec<&str> = vec![p.contract_path.as_str()];
    proof { assert(str_views(paths_0@) =~= seq![p.vars().contract_path]); }
    extend_all(&mut paths, &owned_all(&paths_0));
    let mut notes: Vec<String> = Vec::new();
    let notes_0: Vec<&str> = vec!["Phase 5 will add strict operating-contract validation gate"];
    proof { assert(str_views(notes_0@) =~= seq!["Phase 5 will add strict operating-contract validation gate"@]); }
    extend_all(&mut notes, &owned_all(&notes_0));
    let cont: Vec<GovernorValidity> = vec![GovernorValidity::Measured, GovernorValidity::Insufficient];
    proof { assert(cont@ =~= seq![GovernorValidity::Measured, GovernorValidity::Insufficient]); }
    let stop: Vec<GovernorValidity> = vec![GovernorValidity::Refused, GovernorValidity::Contaminated];
    proof { assert(stop@ =~= seq![GovernorValidity::Refused, GovernorValidity::Contaminated]); }
    proof {
        assert(views(argv@) =~= model_operating_contract(p.vars()).command_argv);
        assert(views(kinds@) =~= model_operating_contract(p.vars()).expected_artifact_kinds);
        assert(views(paths@) =~= model_operating_contract(p.vars()).expected_artifact_paths_or_globs);
        assert(views(notes@) =~= model_operating_contract(p.vars()).validation_after_step);
    }
    collect_step("operating_contract", "reporting", argv, "repository_root", false, false, false, kinds, paths,
        "downstream_claims_require_matching_run_validation", cont, stop, notes, "Generate the operating contract from validated evidence available in the run.")
}

fn step_suitability(p: &PlanStrings) -> (s: WorkflowCollectPlanStep)
    ensures
        s@ == model_suitability(p.vars()),
{
    let mut argv: Vec<String> = Vec::new();
    let argv_0: Vec<&str> = vec!["adc-lab", "decide", "suitability", "--target-run", p.run_dir.as_str(), "--target-contract", p.contract_path.as_str(), "--workload-demand", p.wl_demand_path.as_str(), "--policy", p.policy_in.as_str(), "--out", p.suitability_path.as_str(), "--json"];
    proof { assert(str_views(argv_0@) =~= seq!["adc-lab"@, "decide"@, "suitability"@, "--target-run"@, p.vars().run_dir, "--target-contract"@, p.vars().contract_path, "--workload-demand"@, p.vars().wl_demand_path, "--policy"@, p.vars().policy_in, "--out"@, p.vars().suitability_path, "--json"@]); }
    extend_all(&mut argv, &owned_all(&argv_0));
    let mut kinds: Vec<String> = Vec::new();
    let kinds_0: Vec<&str> = vec!["report.suitability"];
    proof { assert(str_views(kinds_0@) =~= seq!["report.suitability"@]); }
    extend_all(&mut kinds, &owned_all(&kinds_0));
    let mut paths: Vec<String> = Vec::new();
    let paths_0: Vec<&str> = vec![p.suitability_path.as_str()];
    proof { assert(str_views(paths_0@) =~= seq![p.vars().suitability_path]); }
    extend_all(&mut paths, &owned_all(&paths_0));
    let mut notes: Vec<String> = Vec::new();
    let notes_0: Vec<&str> = vec!["operator must provide workload demand JSON and suitability policy YAML"];
    proof { assert(str_views(notes_0@) =~= seq!["operator must provide workload demand JSON and suitability policy YAML"@]); }
    extend_all(&mut notes, &owned_all(&notes_0));
    let cont: Vec<GovernorValidity> = vec![GovernorValidity::Measured, GovernorValidity::Insufficient];
    proof { assert(cont@ =~= seq![GovernorValidity::Measured, GovernorValidity::Insufficient]); }
    let stop: Vec<GovernorValidity> = vec![GovernorValidity::Refused, GovernorValidity::Unknown];
    proof { assert(stop@ =~= seq![GovernorValidity::Refused, GovernorValidity::Unknown]); }
    proof {
        assert(views(argv@) =~= model_suitability(p.vars()).command_argv);
        assert(views(kinds@) =~= model_suitability(p.vars()).expected_artifact_kinds);
        assert(views(paths@) =~= model_suitability(p.vars()).expected_artifact_paths_or_globs);
        assert(views(notes@) =~= model_suitability(p.vars()).validation_after_step);
    }
    collect_step("suitability", "suitability", argv, "repository_root", false, false, false, kinds, paths,
        "operator_provided_inputs_required", cont, stop, notes, "Evaluate suitability using explicit input paths, not discovered files.")
}

fn step_constraints(p: &PlanStrings) -> (s: WorkflowCollectPlanStep)
    ensures
        s@ == model_constraints(p.vars()),
{
    let mut argv: Vec<String> = Vec::new();
    let argv_0: Vec<&str> = vec!["adc-lab", "constraints", "generate", "--decision", p.suitability_path.as_str(), "--out", p.constraints_path.as_str(), "--agent-instructions-out", p.constraints_md_path.as_str(), "--json"];
    proof { assert(str_views(argv_0@) =~= seq!["adc-lab"@, "constraints"@, "generate"@, "--decision"@, p.vars().suitability_path, "--out"@, p.vars().constraints_path, "--agent-instructions-out"@, p.vars().constraints_md_path, "--json"@]); }
    extend_all(&mut argv, &owned_all(&argv_0));
    let mut kinds: Vec<String> = Vec::new();
    let kinds_0: Vec<&str> = vec!["report.constraints"];
    proof { assert(str_views(kinds_0@) =~= seq!["report.constraints"@]); }
    extend_all(&mut kinds, &owned_all(&kinds_0));
    let mut paths: Vec<String> = Vec::new();
    let paths_0: Vec<&str> = vec![p.constraints_path.as_str(), p.constraints_md_path.as_str()];
    proof { assert(str_views(paths_0@) =~= seq![p.vars().constraints_path, p.vars().constraints_md_path]); }
    extend_all(&mut paths, &owned_all(&paths_0));
    let mut notes: Vec<String> = Vec::new();
    let notes_0: Vec<&str> = vec!["run constraints self-check against the generated markdown before handoff"];
    proof { assert(str_views(notes_0@) =~= seq!["run constraints self-check against the generated markdown before handoff"@]); }
    extend_all(&mut notes, &owned_all(&notes_0));
    let cont: Vec<GovernorValidity> = vec![GovernorValidity::Measured, GovernorValidity::Insufficient];
    proof { assert(cont@ =~= seq![GovernorValidity::Measured, GovernorValidity::Insufficient]); }
    let stop: Vec<GovernorValidity> = vec![GovernorValidity::Refused, GovernorValidity::Unknown];
    proof { assert(stop@ =~= seq![GovernorValidity::Refused, GovernorValidity::Unknown]); }
    proof {
        assert(views(argv@) =~= model_constraints(p.vars()).command_argv);
        assert(views(kinds@) =~= model_constraints(p.vars()).expected_artifact_kinds);
        assert(views(paths@) =~= model_constraints(p.vars()).expected_artifact_paths_or_globs);
        assert(views(notes@) =~= model_constraints(p.vars()).validation_after_step);
    }
    collect_step("constraints", "constraints", argv, "repository_root", false, false, false, kinds, paths,
        "generated_constraints_are_negative_or_explanatory", cont, stop, notes, "Generate Agent-facing constraints from the suitability artifact.")
}

fn step_constraints_self_check(p: &PlanStrings) -> (s: WorkflowCollectPlanStep)
    ensures
        s@ == model_constraints_self_check(p.vars()),
{
    let mut argv: Vec<String> = Vec::new();
    let argv_0: Vec<&str> = vec!["adc-lab", "constraints", "self-check", "--constraints", p.constraints_path.as_str(), "--path", p.constraints_md_path.as_str(), "--json"];
    proof { assert(str_views(argv_0@) =~= seq!["adc-lab"@, "constraints"@, "self-check"@, "--constraints"@, p.vars().constraints_path, "--path"@, p.vars().constraints_md_path, "--json"@]); }
    extend_all(&mut argv, &owned_all(&argv_0));
    let mut kinds: Vec<String> = Vec::new();
    let kinds_0: Vec<&str> = vec!["report.constraints_check"];
    proof { assert(str_views(kinds_0@) =~= seq!["report.constraints_check"@]); }
    extend_all(&mut kinds, &owned_all(&kinds_0));
    let mut paths: Vec<String> = Vec::new();
    let mut notes: Vec<String> = Vec::new();
    let notes_0: Vec<&str> = vec!["self-check must pass before handing generated constraints to an Agent"];
    proof { assert(str_views(notes_0@) =~= seq!["self-check must pass before handing generated constraints to an Agent"@]); }
    extend_all(&mut notes, &owned_all(&notes_0));
    let cont: Vec<GovernorValidity> = vec![GovernorValidity::Measured, GovernorValidity::MeasuredPartial];
    proof { assert(cont@ =~= seq![GovernorValidity::Measured, GovernorValidity::MeasuredPartial]); }
    let stop: Vec<GovernorValidity> = vec![GovernorValidity::Insufficient, GovernorValidity::Refused, GovernorValidity::Contaminated, GovernorValidity::Unknown];
    proof { assert(stop@ =~= seq![GovernorValidity::Insufficient, GovernorValidity::Refused, GovernorValidity::Contaminated, GovernorValidity::Unknown]); }
    proof {
        assert(views(argv@) =~= model_constraints_self_check(p.vars()).command_argv);
        assert(views(kinds@) =~= model_constraints_self_check(p.vars()).expected_artifact_kinds);
        assert(views(paths@) =~= model_constraints_self_check(p.vars()).expected_artifact_paths_or_globs);
        assert(views(notes@) =~= model_constraints_self_check(p.vars()).validation_after_step);
    }
    collect_step("constraints_self_check", "constraints", argv, "repository_root", false, false, false, kinds, paths,
        "generated_constraints_are_negative_or_explanatory", cont, stop, notes, "Verify generated constraints before handoff; blocked claims are allowed only in generated negative or explanatory sections.")
}

fn step_handoff_prepare(p: &PlanStrings) -> (s: WorkflowCollectPlanStep)
    ensures
        s@ == model_handoff_prepare(p.vars()),
{
    let mut argv: Vec<String> = Vec::new();
    let argv_0: Vec<&str> = vec!["mkdir", "-p", p.handoff_dir.as_str()];
    proof { assert(str_views(argv_0@) =~= seq!["mkdir"@, "-p"@, p.vars().handoff_dir]); }
    extend_all(&mut argv, &owned_all(&argv_0));
    let mut kinds: Vec<String> = Vec::new();
    let mut paths: Vec<String> = Vec::new();
    let mut notes: Vec<String> = Vec::new();
    let notes_0: Vec<&str> = vec!["create archive output directory outside the run directory"];
    proof { assert(str_views(notes_0@) =~= seq!["create archive output directory outside the run directory"@]); }
    extend_all(&mut notes, &owned_all(&notes_0));
    let cont: Vec<GovernorValidity> = vec![GovernorValidity::NotApplicable];
    proof { assert(cont@ =~= seq![GovernorValidity::NotApplicable]); }
    let stop: Vec<GovernorValidity> = vec![GovernorValidity::Refused];
    proof { assert(stop@ =~= seq![GovernorValidity::Refused]); }
    proof {
        assert(views(argv@) =~= model_handoff_prepare(p.vars()).command_argv);
        assert(views(kinds@) =~= model_handoff_prepare(p.vars()).expected_artifact_kinds);
        assert(views(paths@) =~= model_handoff_prepare(p.vars()).expected_artifact_paths_or_globs);
        assert(views(notes@) =~= model_handoff_prepare(p.vars()).validation_after_step);
    }
    collect_step_at("handoff_prepare", "handoff", argv, "repository_root", "operator_handoff",
        true, false, false, false, kinds, paths,
        "handoff_only_not_target_evidence", cont, stop, notes, "Create the handoff directory outside the run directory before packaging.")
}

fn step_archive(p: &PlanStrings) -> (s: WorkflowCollectPlanStep)
    ensures
        s@ == model_archive(p.vars()),
{
    let mut argv: Vec<String> = Vec::new();
    let argv_0: Vec<&str> = vec!["tar", "-czf", p.archive_path.as_str(), "-C", p.run_dir.as_str(), "."];
    proof { assert(str_views(argv_0@) =~= seq!["tar"@, "-czf"@, p.vars().archive_path, "-C"@, p.vars().run_dir, "."@]); }
    extend_all(&mut argv, &owned_all(&argv_0));
    let mut kinds: Vec<String> = Vec::new();
    let mut paths: Vec<String> = Vec::new();
    let paths_0: Vec<&str> = vec![p.archive_path.as_str()];
    proof { assert(str_views(paths_0@) =~= seq![p.vars().archive_path]); }
    extend_all(&mut paths, &owned_all(&paths_0));
    let mut notes: Vec<String> = Vec::new();
    let notes_0: Vec<&str> = vec!["packaging failure blocks handoff completion but not measurement validity"];
    proof { assert(str_views(notes_0@) =~= seq!["packaging failure blocks handoff completion but not measurement validity"@]); }
    extend_all(&mut notes, &owned_all(&notes_0));
    let cont: Vec<GovernorValidity> = vec![GovernorValidity::Measured, GovernorValidity::Insufficient, GovernorValidity::NotApplicable];
    proof { assert(cont@ =~= seq![GovernorValidity::Measured, GovernorValidity::Insufficient, GovernorValidity::NotApplicable]); }
    let stop: Vec<GovernorValidity> = vec![GovernorValidity::Refused];
    proof { assert(stop@ =~= seq![GovernorValidity::Refused]); }
    proof {
        assert(views(argv@) =~= model_archive(p.vars()).command_argv);
        assert(views(kinds@) =~= model_archive(p.vars()).expected_artifact_kinds);
        assert(views(paths@) =~= model_archive(p.vars()).expected_artifact_paths_or_globs);
        assert(views(notes@) =~= model_archive(p.vars()).validation_after_step);
    }
    collect_step_at("archive", "handoff", argv, "repository_root", "operator_handoff",
        true, false, false, false, kinds, paths,
        "handoff_only_not_target_evidence", cont, stop, notes, "Package the run directory for handoff; this is not measurement evidence.")
}

fn step_checksum(p: &PlanStrings) -> (s: WorkflowCollectPlanStep)
    ensures
        s@ == model_checksum(p.vars()),
{
    let mut argv: Vec<String> = Vec::new();
    let argv_0: Vec<&str> = vec!["sha256sum", p.archive_path.as_str()];
    proof { assert(str_views(argv_0@) =~= seq!["sha256sum"@, p.vars().archive_path]); }
    extend_all(&mut argv, &owned_all(&argv_0));
    let mut kinds: Vec<String> = Vec::new();
    let mut paths: Vec<String> = Vec::new();
    let mut notes: Vec<String> = Vec::new();
    let notes_0: Vec<&str> = vec!["record checksum stdout in the handoff notes"];
    proof { assert(str_views(notes_0@) =~= seq!["record checksum stdout in the handoff notes"@]); }
    extend_all(&mut notes, &owned_all(&notes_0));
    let cont: Vec<GovernorValidity> = vec![GovernorValidity::Measured, GovernorValidity::Insufficient, GovernorValidity::NotApplicable];
    proof { assert(cont@ =~= seq![GovernorValidity::Measured, GovernorValidity::Insufficient, GovernorValidity::NotApplicable]); }
    let stop: Vec<GovernorValidity> = vec![GovernorValidity::Refused];
    proof { assert(stop@ =~= seq![GovernorValidity::Refused]); }
    proof {
        assert(views(argv@) =~= model_checksum(p.vars()).command_argv);
        assert(views(kinds@) =~= model_checksum(p.vars()).expected_artifact_kinds);
        assert(views(paths@) =~= model_checksum(p.vars()).expected_artifact_paths_or_globs);
        assert(views(notes@) =~= model_checksum(p.vars()).validation_after_step);
    }
    collect_step_at("checksum", "handoff", argv, "repository_root", "operator_handoff",
        true, false, false, false, kinds, paths,
        "handoff_only_not_target_evidence", cont, stop, notes, "Create a checksum for the handoff archive; stdout is the handoff record.")
}

fn push_tail_steps(steps: &mut Vec<WorkflowCollectPlanStep>, p: &PlanStrings)
    ensures
        step_models(final(steps)@) == step_models(old(steps)@) + tail_models(p.vars()),
{
    let ghost start = step_models(steps@);
    steps.push(step_governor_sweep_prepare(p));
    steps.push(step_governor_sweep_approve(p));
    steps.push(step_governor_sweep_run(p));
    steps.push(step_run_validation(p));
    steps.push(step_operating_contract(p));
    steps.push(step_suitability(p));
    steps.push(step_constraints(p));
    steps.push(step_constraints_self_check(p));
    steps.push(step_handoff_prepare(p));
    steps.push(step_archive(p));
    steps.push(step_checksum(p));
    proof {
        assert(step_models(steps@) =~= start + tail_models(p.vars()));
    }
}


/// The steps of a collect plan: authority and read-only preflight, the
/// depth's characterization, target-local workload demand (staged onto and
/// retrieved from an SSH target), the approval-bound governor sweep,
/// validation and reports, and handoff packaging.
pub open spec fn plan_models(v: PlanVars, depth: WorkflowProfileDepth) -> Seq<StepModel> {
    head_models(v)
        + (if depth == WorkflowProfileDepth::CharacterizationFull {
            characterization_models(v.target, v.run_dir)
        } else {
            smoke_models(v)
        })
        + (if v.ssh { staging_models(v) } else { Seq::empty() })
        + workload_models(v)
        + (if v.ssh { retrieval_models(v) } else { Seq::empty() })
        + tail_models(v)
}

/// The governors a full-set sweep covers when none are requested.
pub open spec fn default_governors_spec() -> Seq<Seq<char>> {
    seq!["ondemand"@, "performance"@, "powersave"@]
}

fn default_fullset_governors() -> (g: Vec<String>)
    ensures
        views(g@) == default_governors_spec(),
{
    let items: Vec<&str> = vec!["ondemand", "performance", "powersave"];
    proof {
        assert(str_views(items@) =~= default_governors_spec());
    }
    owned_all(&items)
}

/// The governors a collect plan sweeps: the requested ones, or the
/// defaults when none are requested.
pub open spec fn plan_governors(requested: Seq<String>) -> Seq<Seq<char>> {
    if requested.len() == 0 { default_governors_spec() } else { views(requested) }
}

/// The chain of artifacts a collection is traced through.
pub open spec fn source_of_truth_spec() -> Seq<Seq<char>> {
    seq![
        "workflow.recommendation"@,
        "workflow.collect_plan"@,
        "report.run_validation"@,
        "report.operating_contract"@,
        "report.suitability"@,
        "report.constraints"@,
    ]
}

fn source_of_truth_chain() -> (c: Vec<String>)
    ensures
        views(c@) == source_of_truth_spec(),
{
    let items: Vec<&str> = vec![
        "workflow.recommendation",
        "workflow.collect_plan",
        "report.run_validation",
        "report.operating_contract",
        "report.suitability",
        "report.constraints",
    ];
    proof {
        assert(str_views(items@) =~= source_of_truth_spec());
    }
    owned_all(&items)
}

/// What each outcome of a step means for continuing the collection.
pub open spec fn continuation_spec(rules: Seq<WorkflowContinuationRule>) -> bool {
    &&& rules.len() == 5
    &&& rules[0].outcome == GovernorValidity::Insufficient
    &&& rules[0].semantics@ == "preserve evidence; continue unless this step is a required validation gate"@
    &&& rules[1].outcome == GovernorValidity::Refused
    &&& rules[1].semantics@ == "preserve refusal; continue only when exploratory continuation is explicit"@
    &&& rules[2].outcome == GovernorValidity::Contaminated
    &&& rules[2].semantics@ == "preserve evidence; do not use for claim-producing downstream steps"@
    &&& rules[3].outcome == GovernorValidity::Unknown
    &&& rules[3].semantics@ == "preserve gap; downstream selection_ready remains false for required dimensions"@
    &&& rules[4].outcome == GovernorValidity::NotApplicable
    &&& rules[4].semantics@ == "preserve boundary and continue only if the claim gate does not require it"@
}

fn continuation_semantics() -> (rules: Vec<WorkflowContinuationRule>)
    ensures
        continuation_spec(rules@),
{
    let mut rules: Vec<WorkflowContinuationRule> = Vec::new();
    rules.push(WorkflowContinuationRule {
        outcome: GovernorValidity::Insufficient,
        semantics: owned("preserve evidence; continue unless this step is a required validation gate"),
    });
    rules.push(WorkflowContinuationRule {
        outcome: GovernorValidity::Refused,
        semantics: owned("preserve refusal; continue only when exploratory continuation is explicit"),
    });
    rules.push(WorkflowContinuationRule {
        outcome: GovernorValidity::Contaminated,
        semantics: owned("preserve evidence; do not use for claim-producing downstream steps"),
    });
    rules.push(WorkflowContinuationRule {
        outcome: GovernorValidity::Unknown,
        semantics: owned("preserve gap; downstream selection_ready remains false for required dimensions"),
    });
    rules.push(WorkflowContinuationRule {
        outcome: GovernorValidity::NotApplicable,
        semantics: owned("preserve boundary and continue only if the claim gate does not require it"),
    });
    rules
}

/// A failure diagnostic with the given category, signal and action.
pub open spec fn diagnostic_is(d: WorkflowTargetLocalFailureDiagnostic, category: Seq<char>, signal: Seq<char>, action: Seq<char>) -> bool {
    d.category@ == category && d.signal@ == signal && d.operator_action@ == action
}

/// The guide for running target-local steps on an SSH endpoint.
pub open spec fn guide_spec(g: WorkflowTargetLocalExecutionGuide, endpoint: Seq<char>) -> bool {
    &&& g.applies_to_execution_location@ == "target_local"@
    &&& g.working_directory_policy@ == "target_local_repository_root"@
    &&& views(g.path_prepend@) == seq!["$HOME/.local/bin"@, "/usr/local/bin"@, "/usr/bin"@, "/bin"@]
    &&& g.env@.len() == 2
    &&& g.env@[0].name@ == "PATH"@
    &&& g.env@[0].value@ == "$HOME/.local/bin:/usr/local/bin:/usr/bin:/bin:$PATH"@
    &&& g.env@[0].required_when@ == "before executing target_local command_argv steps"@
    &&& g.env@[1].name@ == "ADC_LAB_TARGET_RUNNER"@
    &&& g.env@[1].value@ == "/home/<target-user>/.local/bin/adc-lab-target"@
    &&& g.env@[1].required_when@ == "controller-side ssh commands when default adc-lab-target is not on the non-interactive SSH PATH"@
    &&& g.argv_semantics@ == "preserve command_argv as ordered arguments; quote each remote arg independently and never concatenate argv into a shell script"@
    &&& views(g.ssh_invocation_template@) == seq![
        "ssh"@,
        endpoint,
        "env"@,
        "PATH=$HOME/.local/bin:/usr/local/bin:/usr/bin:/bin:$PATH"@,
        "<command_argv entries, shell-quoted one-by-one>"@,
    ]
    &&& g.failure_diagnostics@.len() == 5
    &&& diagnostic_is(g.failure_diagnostics@[0], "command_not_found"@,
        "ssh exit 127 or remote stderr reports adc-lab-target not found"@,
        "check ADC_LAB_TARGET_RUNNER and install location before treating evidence as missing"@)
    &&& diagnostic_is(g.failure_diagnostics@[1], "path_missing"@,
        "default adc-lab-target lookup fails while release installer path is expected under ~/.local/bin"@,
        "set ADC_LAB_TARGET_RUNNER=/home/<target-user>/.local/bin/adc-lab-target"@)
    &&& diagnostic_is(g.failure_diagnostics@[2], "permission_denied"@,
        "ssh exit 126 or remote stderr reports Permission denied"@,
        "fix target runner execute permission or SSH access; do not retry through a shell wrapper"@)
    &&& diagnostic_is(g.failure_diagnostics@[3], "helper_unavailable"@,
        "control refusal reason privileged_apply_requires_target_local_helper"@,
        "preserve refusal evidence; privileged apply/restore must remain target-local typed helper work"@)
    &&& diagnostic_is(g.failure_diagnostics@[4], "version_skew"@,
        "report.run_validation gap blocked_by_version_skew or version_skew_override_still_blocked"@,
        "record the skew; full-set measured and selection-ready claims remain blocked"@)
}

fn target_local_failure_diagnostic(category: &str, signal: &str, operator_action: &str) -> (d: WorkflowTargetLocalFailureDiagnostic)
    ensures
        diagnostic_is(d, category@, signal@, operator_action@),
{
    WorkflowTargetLocalFailureDiagnostic {
        category: owned(category),
        signal: owned(signal),
        operator_action: owned(operator_action),
    }
}

/// How to run target-local steps on an SSH target; none for a local one.
pub fn target_local_execution_guide(target_is_ssh: bool, endpoint: &str) -> (g: Option<WorkflowTargetLocalExecutionGuide>)
    ensures
        g is Some <==> target_is_ssh,
        g matches Some(x) ==> guide_spec(x, endpoint@),
{
    if !target_is_ssh {
        return None;
    }
    let prepend_items: Vec<&str> = vec!["$HOME/.local/bin", "/usr/local/bin", "/usr/bin", "/bin"];
    let template_items: Vec<&str> = vec![
        "ssh",
        endpoint,
        "env",
        "PATH=$HOME/.local/bin:/usr/local/bin:/usr/bin:/bin:$PATH",
        "<command_argv entries, shell-quoted one-by-one>",
    ];
    let mut env: Vec<WorkflowTargetLocalEnvRequirement> = Vec::new();
    env.push(WorkflowTargetLocalEnvRequirement {
        name: owned("PATH"),
        value: owned("$HOME/.local/bin:/usr/local/bin:/usr/bin:/bin:$PATH"),
        required_when: owned("before executing target_local command_argv steps"),
    });
    env.push(WorkflowTargetLocalEnvRequirement {
        name: owned("ADC_LAB_TARGET_RUNNER"),
        value: owned("/home/<target-user>/.local/bin/adc-lab-target"),
        required_when: owned("controller-side ssh commands when default adc-lab-target is not on the non-interactive SSH PATH"),
    });
    let mut diagnostics: Vec<WorkflowTargetLocalFailureDiagnostic> = Vec::new();
    diagnostics.push(target_local_failure_diagnostic(
        "command_not_found",
        "ssh exit 127 or remote stderr reports adc-lab-target not found",
        "check ADC_LAB_TARGET_RUNNER and install location before treating evidence as missing",
    ));
    diagnostics.push(target_local_failure_diagnostic(
        "path_missing",
        "default adc-lab-target lookup fails while release installer path is expected under ~/.local/bin",
        "set ADC_LAB_TARGET_RUNNER=/home/<target-user>/.local/bin/adc-lab-target",
    ));
    diagnostics.push(target_local_failure_diagnostic(
        "permission_denied",
        "ssh exit 126 or remote stderr reports Permission denied",
        "fix target runner execute permission or SSH access; do not retry through a shell wrapper",
    ));
    diagnostics.push(target_local_failure_diagnostic(
        "helper_unavailable",
        "control refusal reason privileged_apply_requires_target_local_helper",
        "preserve refusal evidence; privileged apply/restore must remain target-local typed helper work",
    ));
    diagnostics.push(target_local_failure_diagnostic(
        "version_skew",
        "report.run_validation gap blocked_by_version_skew or version_skew_override_still_blocked",
        "record the skew; full-set measured and selection-ready claims remain blocked",
    ));
    proof {
        assert(str_views(prepend_items@) =~= seq!["$HOME/.local/bin"@, "/usr/local/bin"@, "/usr/bin"@, "/bin"@]);
        assert(str_views(template_items@) =~= seq![
            "ssh"@,
            endpoint@,
            "env"@,
            "PATH=$HOME/.local/bin:/usr/local/bin:/usr/bin:/bin:$PATH"@,
            "<command_argv entries, shell-quoted one-by-one>"@,
        ]);
    }
    Some(WorkflowTargetLocalExecutionGuide {
        applies_to_execution_location: owned("target_local"),
        working_directory_policy: owned("target_local_repository_root"),
        path_prepend: owned_all(&prepend_items),
        env,
        argv_semantics: owned(
            "preserve command_argv as ordered arguments; quote each remote arg independently and never concatenate argv into a shell script",
        ),
        ssh_invocation_template: owned_all(&template_items),
        failure_diagnostics: diagnostics,
    })
}

/// The message that refuses an unsupported workflow goal.
pub open spec fn unsupported_goal_message(goal: Seq<char>) -> Seq<char> {
    "unsupported workflow profile "@ + goal + "; expected "@ + WORKFLOW_PROFILE_SMOKE@ + ", "@
        + WORKFLOW_PROFILE_CHARACTERIZATION_FULL@ + ", or legacy "@ + WORKFLOW_PROFILE_LEGACY_FULLSET@ + " with --profile-depth"@
}

/// Accepts a goal that names a supported workflow profile.
pub fn validate_workflow_goal(goal: &str) -> (r: LabResult<()>)
    ensures
        supported_profile_spec(goal@) ==> r is Ok,
        !supported_profile_spec(goal@) ==> (r matches Err(LabError::Validation(m)) && m@ == unsupported_goal_message(goal@)),
{
    if supported_validation_profile(goal) {
        Ok(())
    } else {
        let a = concat("unsupported workflow profile ", goal);
        let b = concat(a.as_str(), "; expected ");
        let c = concat(b.as_str(), WORKFLOW_PROFILE_SMOKE);
        let d = concat(c.as_str(), ", ");
        let e = concat(d.as_str(), WORKFLOW_PROFILE_CHARACTERIZATION_FULL);
        let f = concat(e.as_str(), ", or legacy ");
        let g = concat(f.as_str(), WORKFLOW_PROFILE_LEGACY_FULLSET);
        Err(LabError::Validation(concat(g.as_str(), " with --profile-depth")))
    }
}

/// The envelope of a workflow artifact: a fresh identifier with the given
/// prefix, not-applicable status with the given reason, and complete data
/// quality with the given notes.
pub open spec fn workflow_envelope<P>(
    a: Artifact<P>,
    kind: Kind,
    id_prefix: Seq<char>,
    run_id: Seq<char>,
    target_id: Seq<char>,
    reason: Seq<char>,
    notes: Seq<Seq<char>>,
) -> bool {
    &&& a.schema@ == ARTIFACT_SCHEMA_V2@
    &&& a.kind == kind
    &&& exists|n: nat| a.id@ == id_prefix + seq!['-'] + crate::text::decimal(n)
    &&& a.run_id@ == run_id
    &&& a.target_id@ == target_id
    &&& (a.status matches Status::NotApplicable { reason: r } && r@ == reason)
    &&& a.bounds is None
    &&& a.factors.controlled@.len() == 0
    &&& a.factors.observed@.len() == 0
    &&& a.factors.confounders@.len() == 0
    &&& a.metrics@.len() == 0
    &&& a.claims@.len() == 0
    &&& a.evidence_refs@.len() == 0
    &&& a.data_quality.level == DataQualityLevel::Complete
    &&& views(a.data_quality.notes@) == notes
}

/// The controller's build identity as a workflow records it.
pub open spec fn controller_build(b: BuildInfo) -> bool {
    &&& b.name@ == "adc-lab"@
    &&& b.version@ == BUILD_VERSION@
    &&& b.git_sha@ == UNKNOWN@
    &&& b.target_triple@ == UNKNOWN@
    &&& b.build_profile@ == UNKNOWN@
}

/// What a recommendation requires the collection to use.
pub open spec fn must_use_spec(ssh: bool) -> Seq<Seq<char>> {
    let base = seq![
        "adc-lab collect plan or equivalent workflow.collect_plan artifact"@,
        "adc-lab control governor-sweep prepare/approve/run for governor evidence"@,
        "adc-lab report validate-run before controlled-governor operating-contract claims"@,
    ];
    if ssh {
        base.push("For SSH targets, set ADC_LAB_TARGET_RUNNER=/home/<target-user>/.local/bin/adc-lab-target when the release installer default is not on the non-interactive SSH PATH."@)
    } else {
        base
    }
}

/// The recommendation payload for a request at a depth.
pub open spec fn recommendation_payload_spec(p: WorkflowRecommendationPayload, input: WorkflowRecommendationInput, d: WorkflowProfileDepth) -> bool {
    &&& p.goal@ == input.goal@
    &&& p.effective_profile@ == depth_profile(d)
    &&& p.profile_depth == d
    &&& p.profile_summary@ == depth_summary(d)
    &&& p.claim_boundary@ == depth_claim_boundary(d)
    &&& p.coverage@ == depth_coverage(d)
    &&& p.safety_caps@ == depth_safety_caps(d)
    &&& p.workflow_id@ == WORKFLOW_ID_TARGET_OPERATING_CONTRACT_FULLSET_V023@
    &&& p.recommendation_mode == input.recommendation_mode
    &&& controller_build(p.controller_adc_lab)
    &&& p.target@ == input.target@
    &&& p.target_id@ == input.target_id@
    &&& p.target_class@ == input.target_class@
    &&& views(p.source_of_truth_chain@) == source_of_truth_spec()
    &&& views(p.must_use@) == must_use_spec(is_prefix("ssh://"@, input.target@))
    &&& views(p.must_not_use_for_claims@) == seq![
        "manual plan/approval/lease discovery by filename order"@,
        "raw primitive control artifacts without report.run_validation"@,
        "static v0.2.1 target-operating-contract full-set harness"@,
    ]
    &&& views(p.forbidden_patterns@) == seq![
        "find PLAN-*.json | sort"@,
        "find APPROVAL-*.json | sort"@,
        "find LEASE-*.json | sort"@,
        "tail -n 1 for artifact selection"@,
        "ls -t for artifact selection"@,
        "mtime/newest/latest artifact inference"@,
    ]
    &&& views(p.expected_outputs@) == seq![
        "reports/run_validation.v2.json"@,
        "reports/GAPS.md"@,
        "reports/target_operating_contract.v2.json"@,
    ]
    &&& p.version_policy == (WorkflowVersionPolicy {
        claim_producing_run_requires_no_skew: true,
        allow_skew_override_records_gap: true,
        skew_blocks_fullset_measured_claims: true,
    })
    &&& !p.evidence_policy.recommendation_is_target_measurement_evidence
    &&& !p.evidence_policy.raw_primitives_are_claim_producing
    &&& p.evidence_policy.causal_linkage_required
    &&& views(p.evidence_policy.forbidden_linkage_sources@) == seq![
        "filename_order"@,
        "mtime"@,
        "directory_co_presence"@,
        "static_prompt_version_choreography"@,
    ]
    &&& p.next_step@ == "run adc-lab collect plan for an executable handoff contract"@
}

/// The workflow recommendation for collecting a target operating
/// contract: the profile, the surfaces that must and must not be used,
/// the expected outputs, and the version and evidence policies.
pub fn target_operating_contract_workflow_recommendation(input: WorkflowRecommendationInput)
    -> (r: LabResult<Artifact<WorkflowRecommendationPayload>>)
    ensures
        resolved_depth(input.goal@, input.profile_depth) is None ==> r matches Err(LabError::Validation(_)),
        resolved_depth(input.goal@, input.profile_depth) matches Some(d) ==> (r matches Ok(a)
            && workflow_envelope(a, Kind::WorkflowRecommendation, "WORKFLOW-RECOMMENDATION"@, input.run_id@, input.target_id@,
                "workflow authority artifact; not target measurement evidence"@,
                seq!["workflow authority only"@, "not target measurement evidence"@])
            && recommendation_payload_spec(a.payload, input, d)),
{
    let profile = match resolve_workflow_profile(input.goal.as_str(), input.profile_depth) {
        Ok(p) => p,
        Err(e) => {
            return Err(e);
        },
    };
    let ghost d = profile.depth;
    let target_is_ssh = starts_with(input.target.as_str(), "ssh://");
    let must_use_items: Vec<&str> = vec![
        "adc-lab collect plan or equivalent workflow.collect_plan artifact",
        "adc-lab control governor-sweep prepare/approve/run for governor evidence",
        "adc-lab report validate-run before controlled-governor operating-contract claims",
    ];
    proof {
        assert(str_views(must_use_items@) =~= seq![
            "adc-lab collect plan or equivalent workflow.collect_plan artifact"@,
            "adc-lab control governor-sweep prepare/approve/run for governor evidence"@,
            "adc-lab report validate-run before controlled-governor operating-contract claims"@,
        ]);
    }
    let mut must_use = owned_all(&must_use_items);
    if target_is_ssh {
        must_use.push(owned(
            "For SSH targets, set ADC_LAB_TARGET_RUNNER=/home/<target-user>/.local/bin/adc-lab-target when the release installer default is not on the non-interactive SSH PATH.",
        ));
    }
    let not_for_claims: Vec<&str> = vec![
        "manual plan/approval/lease discovery by filename order",
        "raw primitive control artifacts without report.run_validation",
        "static v0.2.1 target-operating-contract full-set harness",
    ];
    let forbidden: Vec<&str> = vec![
        "find PLAN-*.json | sort",
        "find APPROVAL-*.json | sort",
        "find LEASE-*.json | sort",
        "tail -n 1 for artifact selection",
        "ls -t for artifact selection",
        "mtime/newest/latest artifact inference",
    ];
    let outputs: Vec<&str> = vec![
        "reports/run_validation.v2.json",
        "reports/GAPS.md",
        "reports/target_operating_contract.v2.json",
    ];
    let linkage: Vec<&str> = vec!["filename_order", "mtime", "directory_co_presence", "static_prompt_version_choreography"];
    let notes: Vec<&str> = vec!["workflow authority only", "not target measurement evidence"];
    proof {
        assert(views(must_use@) =~= must_use_spec(is_prefix("ssh://"@, input.target@)));
        assert(str_views(not_for_claims@) =~= seq![
            "manual plan/approval/lease discovery by filename order"@,
            "raw primitive control artifacts without report.run_validation"@,
            "static v0.2.1 target-operating-contract full-set harness"@,
        ]);
        assert(str_views(forbidden@) =~= seq![
            "find PLAN-*.json | sort"@,
            "find APPROVAL-*.json | sort"@,
            "find LEASE-*.json | sort"@,
            "tail -n 1 for artifact selection"@,
            "ls -t for artifact selection"@,
            "mtime/newest/latest artifact inference"@,
        ]);
        assert(str_views(outputs@) =~= seq![
            "reports/run_validation.v2.json"@,
            "reports/GAPS.md"@,
            "reports/target_operating_contract.v2.json"@,
        ]);
        assert(str_views(linkage@) =~= seq![
            "filename_order"@,
            "mtime"@,
            "directory_co_presence"@,
            "static_prompt_version_choreography"@,
        ]);
        assert(str_views(notes@) =~= seq!["workflow authority only"@, "not target measurement evidence"@]);
    }
    let payload = WorkflowRecommendationPayload {
        goal: profile.requested_profile,
        effective_profile: profile.effective_profile,
        profile_depth: profile.depth,
        profile_summary: owned(profile.summary),
        claim_boundary: owned(profile.claim_boundary),
        coverage: owned(profile.coverage),
        safety_caps: owned(profile.safety_caps),
        workflow_id: owned(WORKFLOW_ID_TARGET_OPERATING_CONTRACT_FULLSET_V023),
        recommendation_mode: input.recommendation_mode,
        controller_adc_lab: build_info("adc-lab"),
        target: owned(input.target.as_str()),
        target_id: owned(input.target_id.as_str()),
        target_class: owned(input.target_class.as_str()),
        source_of_truth_chain: source_of_truth_chain(),
        must_use,
        must_not_use_for_claims: owned_all(&not_for_claims),
        forbidden_patterns: owned_all(&forbidden),
        expected_outputs: owned_all(&outputs),
        version_policy: WorkflowVersionPolicy {
            claim_producing_run_requires_no_skew: true,
            allow_skew_override_records_gap: true,
            skew_blocks_fullset_measured_claims: true,
        },
        evidence_policy: WorkflowEvidencePolicy {
            recommendation_is_target_measurement_evidence: false,
            raw_primitives_are_claim_producing: false,
            causal_linkage_required: true,
            forbidden_linkage_sources: owned_all(&linkage),
        },
        next_step: owned("run adc-lab collect plan for an executable handoff contract"),
    };
    let mut artifact = fresh_artifact(
        Kind::WorkflowRecommendation,
        "WORKFLOW-RECOMMENDATION",
        owned(input.run_id.as_str()),
        owned(input.target_id.as_str()),
        Status::NotApplicable { reason: owned("workflow authority artifact; not target measurement evidence") },
        payload,
    );
    artifact.data_quality = DataQuality { level: DataQualityLevel::Complete, notes: owned_all(&notes) };
    Ok(artifact)
}

/// The values a collect plan for `input` is assembled from, once its
/// depth and target are resolved.
pub open spec fn collect_plan_vars(input: WorkflowCollectPlanInput, d: WorkflowProfileDepth, ssh: bool, endpoint: Seq<char>) -> PlanVars {
    plan_vars(input, endpoint, ssh, join_seq(plan_governors(input.expected_governors@), ","@), d)
}

/// The collect plan payload for a request at a depth, for a target with
/// the given transport and endpoint.
pub open spec fn collect_plan_payload_spec(
    p: WorkflowCollectPlanPayload,
    input: WorkflowCollectPlanInput,
    d: WorkflowProfileDepth,
    ssh: bool,
    endpoint: Seq<char>,
) -> bool {
    let v = collect_plan_vars(input, d, ssh, endpoint);
    &&& p.goal@ == input.goal@
    &&& p.effective_profile@ == depth_profile(d)
    &&& p.profile_depth == d
    &&& p.profile_summary@ == depth_summary(d)
    &&& p.claim_boundary@ == depth_claim_boundary(d)
    &&& p.coverage@ == depth_coverage(d)
    &&& p.safety_caps@ == depth_safety_caps(d)
    &&& p.workflow_id@ == WORKFLOW_ID_TARGET_OPERATING_CONTRACT_FULLSET_V023@
    &&& p.recommendation_mode == input.recommendation_mode
    &&& controller_build(p.controller_adc_lab)
    &&& p.target@ == input.target@
    &&& p.target_id@ == input.target_id@
    &&& p.target_class@ == input.target_class@
    &&& opt_view(p.workflow_recommendation_ref) == opt_view(input.workflow_recommendation_ref)
    &&& opt_view(p.workflow_recommendation_digest) == opt_view(input.workflow_recommendation_digest)
    &&& p.planned_run_dir@ == input.planned_run_dir@
    &&& views(p.source_of_truth_chain@) == source_of_truth_spec()
    &&& step_models(p.steps@) == plan_models(v, d)
    &&& continuation_spec(p.continuation_semantics@)
    &&& (p.target_local_execution_guide is Some <==> ssh)
    &&& (p.target_local_execution_guide matches Some(g) ==> guide_spec(g, endpoint))
    &&& views(p.expected_final_artifacts@) == seq![
        input.workflow_recommendation_path@,
        input.collect_plan_path@,
        input.agent_instructions_path@,
        v.validation_path,
        v.gaps_path,
        v.contract_path,
        v.wl_demand_path,
        v.suitability_path,
        v.constraints_path,
        v.constraints_md_path,
        v.archive_path,
    ]
    &&& !p.packaging_is_target_evidence
    &&& p.packaging_failure_blocks_handoff
}

/// The executable collect plan for a target operating contract: every step
/// an argv array with its execution location, requirements, claim gate
/// and continuation outcomes.
pub fn target_operating_contract_collect_plan(input: WorkflowCollectPlanInput)
    -> (r: LabResult<Artifact<WorkflowCollectPlanPayload>>)
    ensures
        resolved_depth(input.goal@, input.profile_depth) is None ==> r matches Err(LabError::Validation(_)),
        resolved_depth(input.goal@, input.profile_depth) is Some && parsed_target(input.target@) is None
            ==> (r matches Err(LabError::InvalidTarget(m)) && m@ == input.target@),
        resolved_depth(input.goal@, input.profile_depth) matches Some(d) ==> (parsed_target(input.target@) matches Some(t) ==> (
            r matches Ok(a)
            && workflow_envelope(a, Kind::WorkflowCollectPlan, "WORKFLOW-COLLECT-PLAN"@, input.run_id@, input.target_id@,
                "workflow handoff artifact; not target measurement evidence"@,
                seq![
                    "workflow handoff only"@,
                    "commands are argv arrays, not shell fragments"@,
                    "packaging steps are not target evidence"@,
                ])
            && collect_plan_payload_spec(a.payload, input, d, t.0, t.1))),
{
    let profile = match resolve_workflow_profile(input.goal.as_str(), input.profile_depth) {
        Ok(p) => p,
        Err(e) => {
            return Err(e);
        },
    };
    let target_spec = match TargetSpec::parse(input.target.as_str()) {
        Ok(t) => t,
        Err(e) => {
            return Err(e);
        },
    };
    let ssh = match target_spec.transport {
        TargetTransport::Ssh => true,
        TargetTransport::Local => false,
    };
    let depth = profile.depth;
    let governors = if input.expected_governors.len() == 0 {
        default_fullset_governors()
    } else {
        copy_all(&input.expected_governors)
    };
    let governor_arg = join(&governors, ",");
    let p = plan_strings(&input, target_spec.endpoint.as_str(), ssh, governor_arg.as_str(), depth);
    let ghost v = p.vars();
    let mut steps: Vec<WorkflowCollectPlanStep> = Vec::new();
    push_head_steps(&mut steps, &p);
    if depth == WorkflowProfileDepth::CharacterizationFull {
        let ghost before = step_models(steps@);
        let mut extra = cpu_thermal_characterization_steps(p.target.as_str(), p.run_dir.as_str());
        let ghost extra_models = step_models(extra@);
        steps.append(&mut extra);
        proof {
            assert(step_models(steps@) =~= before + extra_models);
        }
    } else {
        push_smoke_steps(&mut steps, &p);
    }
    let ghost after_middle = step_models(steps@);
    if ssh {
        push_staging_steps(&mut steps, &p);
    }
    proof {
        assert(step_models(steps@) =~= after_middle + (if v.ssh { staging_models(v) } else { Seq::empty() }));
    }
    push_workload_steps(&mut steps, &p);
    let ghost after_workload = step_models(steps@);
    if ssh {
        push_retrieval_steps(&mut steps, &p);
    }
    proof {
        assert(step_models(steps@) =~= after_workload + (if v.ssh { retrieval_models(v) } else { Seq::empty() }));
    }
    push_tail_steps(&mut steps, &p);
    proof {
        assert(step_models(steps@) =~= plan_models(v, depth));
    }
    let final_items: Vec<&str> = vec![
        input.workflow_recommendation_path.as_str(),
        input.collect_plan_path.as_str(),
        input.agent_instructions_path.as_str(),
        p.validation_path.as_str(),
        p.gaps_path.as_str(),
        p.contract_path.as_str(),
        p.wl_demand_path.as_str(),
        p.suitability_path.as_str(),
        p.constraints_path.as_str(),
        p.constraints_md_path.as_str(),
        p.archive_path.as_str(),
    ];
    let note_items: Vec<&str> = vec![
        "workflow handoff only",
        "commands are argv arrays, not shell fragments",
        "packaging steps are not target evidence",
    ];
    proof {
        assert(str_views(final_items@) =~= seq![
            input.workflow_recommendation_path@,
            input.collect_plan_path@,
            input.agent_instructions_path@,
            v.validation_path,
            v.gaps_path,
            v.contract_path,
            v.wl_demand_path,
            v.suitability_path,
            v.constraints_path,
            v.constraints_md_path,
            v.archive_path,
        ]);
        assert(str_views(note_items@) =~= seq![
            "workflow handoff only"@,
            "commands are argv arrays, not shell fragments"@,
            "packaging steps are not target evidence"@,
        ]);
    }
    let payload = WorkflowCollectPlanPayload {
        goal: profile.requested_profile,
        effective_profile: profile.effective_profile,
        profile_depth: profile.depth,
        profile_summary: owned(profile.summary),
        claim_boundary: owned(profile.claim_boundary),
        coverage: owned(profile.coverage),
        safety_caps: owned(profile.safety_caps),
        workflow_id: owned(WORKFLOW_ID_TARGET_OPERATING_CONTRACT_FULLSET_V023),
        recommendation_mode: input.recommendation_mode,
        controller_adc_lab: build_info("adc-lab"),
        target: owned(input.target.as_str()),
        target_id: owned(input.target_id.as_str()),
        target_class: owned(input.target_class.as_str()),
        workflow_recommendation_ref: copy_opt(&input.workflow_recommendation_ref),
        workflow_recommendation_digest: copy_opt(&input.workflow_recommendation_digest),
        planned_run_dir: owned(input.planned_run_dir.as_str()),
        source_of_truth_chain: source_of_truth_chain(),
        steps,
        continuation_semantics: continuation_semantics(),
        target_local_execution_guide: target_local_execution_guide(ssh, target_spec.endpoint.as_str()),
        expected_final_artifacts: owned_all(&final_items),
        packaging_is_target_evidence: false,
        packaging_failure_blocks_handoff: true,
    };
    let mut artifact = fresh_artifact(
        Kind::WorkflowCollectPlan,
        "WORKFLOW-COLLECT-PLAN",
        owned(input.run_id.as_str()),
        owned(input.target_id.as_str()),
        Status::NotApplicable { reason: owned("workflow handoff artifact; not target measurement evidence") },
        payload,
    );
    artifact.data_quality = DataQuality { level: DataQualityLevel::Complete, notes: owned_all(&note_items) };
    Ok(artifact)
}

/// A step needs the privileged helper only when it runs the approved
/// governor sweep.
pub open spec fn privileged_only_in_sweep_run(m: StepModel) -> bool {
    m.requires_privileged_helper ==> m.step_id == "governor_sweep_run"@
}

/// No outcome both continues and stops a step.
pub open spec fn outcomes_disjoint(m: StepModel) -> bool {
    forall|i: int, j: int| 0 <= i < m.continue_on.len() && 0 <= j < m.stop_on.len() ==> m.continue_on[i] != m.stop_on[j]
}

/// A handoff step packages what was collected: it runs as operator
/// handoff and its claim gate says it is not target evidence.
pub open spec fn handoff_is_not_evidence(m: StepModel) -> bool {
    m.phase == "handoff"@ ==> m.claim_gate == "handoff_only_not_target_evidence"@ && m.execution_location == "operator_handoff"@
}

/// What every step of a collect plan keeps.
pub open spec fn step_law(m: StepModel) -> bool {
    privileged_only_in_sweep_run(m) && outcomes_disjoint(m) && handoff_is_not_evidence(m)
}

/// Every step of `steps` keeps the step law.
pub open spec fn all_steps_lawful(steps: Seq<StepModel>) -> bool {
    forall|i: int| 0 <= i < steps.len() ==> #[trigger] step_law(steps[i])
}

proof fn lemma_lawful_concat(a: Seq<StepModel>, b: Seq<StepModel>)
    requires
        all_steps_lawful(a),
        all_steps_lawful(b),
    ensures
        all_steps_lawful(a + b),
{
    assert forall|i: int| 0 <= i < (a + b).len() implies #[trigger] step_law((a + b)[i]) by {
        if i < a.len() {
            assert((a + b)[i] == a[i]);
        } else {
            assert((a + b)[i] == b[i - a.len()]);
        }
    }
}

proof fn lemma_phases_distinct()
    ensures
        "authority"@ != "handoff"@,
        "capability"@ != "handoff"@,
        "read_only"@ != "handoff"@,
        "load"@ != "handoff"@,
        "pressure"@ != "handoff"@,
        "workload"@ != "handoff"@,
        "approval"@ != "handoff"@,
        "control"@ != "handoff"@,
        "validation"@ != "handoff"@,
        "reporting"@ != "handoff"@,
        "suitability"@ != "handoff"@,
        "constraints"@ != "handoff"@,
{
    reveal_strlit("handoff");
    reveal_strlit("authority");
    reveal_strlit("capability");
    reveal_strlit("read_only");
    reveal_strlit("load");
    reveal_strlit("pressure");
    reveal_strlit("workload");
    reveal_strlit("approval");
    reveal_strlit("control");
    reveal_strlit("validation");
    reveal_strlit("reporting");
    reveal_strlit("suitability");
    reveal_strlit("constraints");
    assert("authority"@[0] != "handoff"@[0]);
    assert("capability"@[0] != "handoff"@[0]);
    assert("read_only"@[0] != "handoff"@[0]);
    assert("load"@[0] != "handoff"@[0]);
    assert("pressure"@[0] != "handoff"@[0]);
    assert("workload"@[0] != "handoff"@[0]);
    assert("approval"@[0] != "handoff"@[0]);
    assert("control"@[0] != "handoff"@[0]);
    assert("validation"@[0] != "handoff"@[0]);
    assert("reporting"@[0] != "handoff"@[0]);
    assert("suitability"@[0] != "handoff"@[0]);
    assert("constraints"@[0] != "handoff"@[0]);
}

proof fn lemma_groups_lawful(v: PlanVars)
    ensures
        all_steps_lawful(head_models(v)),
        all_steps_lawful(smoke_models(v)),
        all_steps_lawful(staging_models(v)),
        all_steps_lawful(workload_models(v)),
        all_steps_lawful(retrieval_models(v)),
        all_steps_lawful(tail_models(v)),
        all_steps_lawful(characterization_models(v.target, v.run_dir)),
{
    lemma_phases_distinct();
    assert(all_steps_lawful(head_models(v)));
    assert(all_steps_lawful(smoke_models(v)));
    assert(all_steps_lawful(staging_models(v)));
    assert(all_steps_lawful(workload_models(v)));
    assert(all_steps_lawful(retrieval_models(v)));
    assert(all_steps_lawful(tail_models(v)));
    assert(all_steps_lawful(characterization_models(v.target, v.run_dir)));
}

/// Every collect plan keeps the step law: only the approved governor sweep
/// needs the privileged helper, no outcome both continues and stops a
/// step, and packaging steps are handoff work, never target evidence.
pub proof fn law_collect_plan_steps(v: PlanVars, depth: WorkflowProfileDepth)
    ensures
        all_steps_lawful(plan_models(v, depth)),
{
    lemma_groups_lawful(v);
    let middle = if depth == WorkflowProfileDepth::CharacterizationFull {
        characterization_models(v.target, v.run_dir)
    } else {
        smoke_models(v)
    };
    let staging: Seq<StepModel> = if v.ssh { staging_models(v) } else { Seq::empty() };
    let retrieval: Seq<StepModel> = if v.ssh { retrieval_models(v) } else { Seq::empty() };
    assert(all_steps_lawful(Seq::<StepModel>::empty()));
    lemma_lawful_concat(head_models(v), middle);
    lemma_lawful_concat(head_models(v) + middle, staging);
    lemma_lawful_concat(head_models(v) + middle + staging, workload_models(v));
    lemma_lawful_concat(head_models(v) + middle + staging + workload_models(v), retrieval);
    lemma_lawful_concat(head_models(v) + middle + staging + workload_models(v) + retrieval, tail_models(v));
}

/// Every collect plan opens with the workflow authority step and closes
/// with the same eleven steps in order: sweep prepare, approval and run,
/// run validation, operating contract, suitability, constraints and their
/// self-check, then the handoff directory, archive and checksum.
pub proof fn law_collect_plan_order(v: PlanVars, depth: WorkflowProfileDepth)
    ensures
        plan_models(v, depth).len() >= 15,
        plan_models(v, depth)[0] == model_workflow_recommendation(v),
        plan_models(v, depth).subrange(plan_models(v, depth).len() - 11, plan_models(v, depth).len() as int) == tail_models(v),
{
    let m = plan_models(v, depth);
    let pre = m.subrange(0, m.len() - 11);
    assert(m.subrange(m.len() - 11, m.len() as int) =~= tail_models(v));
}

/// On an SSH target the governor sweep runs on the target itself: its
/// prepare, approval and run steps execute target-local without the
/// controller, and prepare and run address the target as `local`.
pub proof fn law_ssh_sweep_runs_target_local(input: WorkflowCollectPlanInput, depth: WorkflowProfileDepth, endpoint: Seq<char>)
    ensures
        ({
            let t = tail_models(collect_plan_vars(input, depth, true, endpoint));
            &&& t[0].execution_location == "target_local"@ && !t[0].requires_controller
            &&& t[1].execution_location == "target_local"@ && !t[1].requires_controller
            &&& t[2].execution_location == "target_local"@ && !t[2].requires_controller
            &&& t[0].command_argv[4] == "--target"@ && t[0].command_argv[5] == "local"@
            &&& t[2].command_argv[4] == "--target"@ && t[2].command_argv[5] == "local"@
        }),
{
}

} // verus!
