//! The lab's typed records: inventories, plans, approvals, leases, results,
//! workload and suitability records, experiment matrices and manifests.
//! Maps keyed by string are carried as vectors of key/value pairs in key
//! order.

use vstd::prelude::*;

verus! {

pub const POLICY_VERSION: &'static str = "default-lab-policy-v1";

#[derive(Debug, Clone, PartialEq, Eq)]
pub struct BuildInfo {
    pub name: String,
    pub version: String,
    pub git_sha: String,
    pub target_triple: String,
    pub build_profile: String,
}

#[derive(Debug, Clone, PartialEq, Eq)]
pub struct ReleaseBinaryManifest {
    pub name: String,
    pub sha256: String,
}

#[derive(Debug, Clone, PartialEq, Eq)]
pub struct ReleaseManifest {
    pub schema_version: String,
    pub version: String,
    pub git_sha: String,
    pub target_triple: String,
    pub binaries: Vec<ReleaseBinaryManifest>,
}

#[derive(Debug, Clone, Copy, PartialEq, Eq, Structural)]
pub enum ActorKind {
    Agent,
    Human,
    System,
}

#[derive(Debug, Clone, PartialEq, Eq)]
pub struct Actor {
    pub kind: ActorKind,
    pub id: String,
}

impl Actor {
    /// The agent actor that lab commands record by default.
    pub fn codex() -> (actor: Self)
        ensures
            actor.kind == ActorKind::Agent,
            actor.id@ == "codex"@,
    {
        Actor { kind: ActorKind::Agent, id: "codex".to_owned() }
    }
}

#[derive(Debug, Clone, Copy, PartialEq, Eq, Structural)]
pub enum RiskTier {
    Tier0ReadOnlyObservation,
    Tier1LowRiskReversibleNonRoot,
    Tier2PrivilegedReversible,
    Tier3HardToRestore,
    Tier4NormallyProhibited,
}

#[derive(Debug, Clone, Copy, PartialEq, Eq, Structural)]
pub enum ToolCategory {
    Observation,
    Control,
    Load,
    Probe,
    ReportNormalizer,
    Restore,
    HealthCheck,
    ObservationControl,
}

#[derive(Debug, Clone, Copy, PartialEq, Eq, Structural)]
pub enum PrivilegeLevel {
    NoPrivilege,
    User,
    SudoHelper,
    Root,
}

#[derive(Debug, Clone, Copy, PartialEq, Eq, Structural)]
pub enum PrivilegeProviderKind {
    SudoHelperOptionA,
    SystemdUnixSocketOptionB,
}

#[derive(Debug, Clone, Copy, PartialEq, Eq, Structural)]
pub enum PrivilegeProviderAvailability {
    Active,
    Installed,
    PlannedDisabled,
    Missing,
    Disabled,
}

#[derive(Debug, Clone, Copy, PartialEq, Eq, Structural)]
pub enum PrivilegeProviderTransport {
    SudoExec,
    UnixSocket,
}

#[derive(Debug, Clone, PartialEq, Eq)]
pub struct PrivilegeProviderDescriptor {
    pub provider_id: String,
    pub provider_kind: PrivilegeProviderKind,
    pub availability: PrivilegeProviderAvailability,
    pub transport: PrivilegeProviderTransport,
    pub endpoint: String,
    pub root_boundary: String,
    pub operations_allowed: Vec<String>,
    pub approval_required: bool,
    pub audit_required: bool,
    pub restore_required: bool,
    pub default_enabled: bool,
    pub safety_notes: Vec<String>,
}

#[derive(Debug, Clone, PartialEq, Eq)]
pub struct PrivilegeProviderStatus {
    pub schema_version: String,
    pub target_id: String,
    pub active_provider_id: String,
    pub providers: Vec<PrivilegeProviderDescriptor>,
    pub time_unix_ms: u64,
}

#[derive(Debug, Clone, Copy, PartialEq, Eq, Structural)]
pub enum QualificationStatus {
    Builtin,
    NeedsControlTest,
    ExternalUnqualified,
    AgentCreatedUnqualified,
    Qualified,
    Refused,
}

#[derive(Debug, Clone, Copy, PartialEq, Eq, Structural)]
pub enum ToolSource {
    Builtin,
    External,
    AgentCreated,
    Missing,
}

#[derive(Debug, Clone, PartialEq, Eq)]
pub struct SoftwareStack {
    pub os: String,
    pub kernel: String,
    pub arch: String,
    pub board: String,
}

#[derive(Debug, Clone, PartialEq, Eq)]
pub struct HardwareInventory {
    pub cpu_count: usize,
    pub memory_total_kb: Option<u64>,
    pub thermal_zones: usize,
    pub cpufreq_policies: usize,
}

#[derive(Debug, Clone, PartialEq, Eq)]
pub struct ControlSurfaceSummary {
    pub surface_id: String,
    pub available: bool,
    pub requires_privilege: bool,
}

#[derive(Debug, Clone, PartialEq, Eq)]
pub struct TargetInventory {
    pub schema_version: String,
    pub target_id: String,
    pub target: String,
    pub collected_by: String,
    pub time_unix_ms: u64,
    pub software_stack: SoftwareStack,
    pub hardware: HardwareInventory,
    pub control_surfaces: Vec<ControlSurfaceSummary>,
}

#[derive(Debug, Clone, PartialEq, Eq)]
pub struct HealthCheck {
    pub schema_version: String,
    pub target_id: String,
    pub status: String,
    pub inventory_available: bool,
    pub toolchain_available: bool,
}

#[derive(Debug, Clone, PartialEq, Eq)]
pub struct ToolInfo {
    pub tool_id: String,
    pub category: ToolCategory,
    pub available: bool,
    pub privilege: PrivilegeLevel,
    pub qualification: QualificationStatus,
}

#[derive(Debug, Clone, PartialEq, Eq)]
pub struct ToolchainInventory {
    pub schema_version: String,
    pub target_id: String,
    pub software_stack: SoftwareStack,
    pub tools: Vec<ToolInfo>,
}

#[derive(Debug, Clone, PartialEq, Eq)]
pub struct ControlSurfaceInventory {
    pub schema_version: String,
    pub target_id: String,
    pub surfaces: Vec<ControlSurfaceSummary>,
}

#[derive(Debug, Clone, Copy, PartialEq, Eq, Structural)]
pub enum ContractEvidenceStatus {
    Measured,
    MeasuredPartial,
    NotControllable,
    UnsafeToRunWithReason,
    NotApplicableWithReason,
    Insufficient,
}

#[derive(Debug, Clone, Copy, PartialEq, Eq, Structural)]
pub enum ResourcePressureKind {
    MemoryPressure,
    StorageIo,
    NetworkIo,
    LatencyJitter,
    CpuPressure,
    ThermalPressure,
    ObserverPressure,
}

#[derive(Debug, Clone, PartialEq, Eq)]
pub struct ContractFactor {
    pub factor_id: String,
    pub value: String,
}

#[derive(Debug, Clone, PartialEq, Eq)]
pub struct PressureSafety {
    pub duration_seconds_max: u64,
    pub memory_bytes_max: u64,
    pub storage_bytes_max: u64,
    pub network_bytes_max: u64,
    pub abort_conditions: Vec<String>,
    pub cleanup: Vec<String>,
    pub cleanup_verified: bool,
}

#[derive(Debug, Clone, Copy, PartialEq, Eq, Structural)]
pub enum ResourcePressureEvidenceClass {
    Smoke,
    PressureInduced,
    PairedPressure,
    BoundaryProbe,
    NotApplicable,
}

#[derive(Debug, Clone, PartialEq, Eq)]
pub struct PressureIntensity {
    pub requested: String,
    pub relative_to_target: String,
    pub pressure_effect_observed: bool,
}

#[derive(Debug, Clone, PartialEq, Eq)]
pub struct PressureEffect {
    pub observed: bool,
    pub basis: Vec<String>,
}

#[derive(Debug, Clone, Copy, PartialEq, Eq, Structural)]
pub enum NetworkPressureMode {
    CounterOnly,
    EndpointAttempt,
    BoundedTransfer,
}

#[derive(Debug, Clone, PartialEq, Eq)]
pub struct NetworkPressureEvidence {
    pub network_mode: NetworkPressureMode,
    pub endpoint_available: bool,
    pub traffic_generated_bytes: u64,
    pub selection_claim_allowed: bool,
}

#[derive(Debug, Clone, PartialEq, Eq)]
pub struct PressureCondition {
    pub pressure_kind: String,
    pub governor: Option<String>,
    pub workers: Option<String>,
    pub duration: String,
}

#[derive(Debug, Clone, PartialEq, Eq)]
pub struct ContractEvidenceGap {
    pub reason: String,
    pub needed_probe: String,
    pub blocking_missing_evidence: Vec<String>,
    pub next_action: String,
    pub owner_surface: String,
}

#[derive(Debug, Clone, Copy, PartialEq, Eq, Structural)]
pub enum CompositeBoundaryScenario {
    MemoryStorageJitter,
}

#[derive(Debug, Clone, Copy, PartialEq, Eq, Structural)]
pub enum ResourceCouplingEvidenceClass {
    IngredientsOnly,
    CompositeMeasured,
    CouplingNotMeasured,
}

#[derive(Debug, Clone, Copy, PartialEq, Eq, Structural)]
pub enum PrivilegeDoctorStatus {
    Ready,
    Degraded,
    OperatorSetupRequired,
    UnsupportedTarget,
}

#[derive(Debug, Clone, Copy, PartialEq, Eq, Structural)]
pub enum PrivilegeDoctorCheckStatus {
    Pass,
    Fail,
    Warning,
    NotApplicable,
}

#[derive(Debug, Clone, PartialEq, Eq)]
pub struct PrivilegeDoctorCheck {
    pub check_id: String,
    pub status: PrivilegeDoctorCheckStatus,
    pub summary: String,
    pub evidence: Vec<String>,
}

#[derive(Debug, Clone, PartialEq, Eq)]
pub struct PrivilegeDoctorReport {
    pub schema_version: String,
    pub target_id: String,
    pub helper_path: String,
    pub helper_installed: bool,
    pub root_owned: Option<bool>,
    pub world_writable: Option<bool>,
    pub sudo_non_interactive_available: bool,
    pub helper_version: Option<String>,
    pub status: PrivilegeDoctorStatus,
    pub checks: Vec<PrivilegeDoctorCheck>,
    pub next_action: String,
    pub time_unix_ms: u64,
}

#[derive(Debug, Clone, Copy, PartialEq, Eq, Structural)]
pub enum PrivilegeSetupPlanKind {
    Install,
    Uninstall,
}

#[derive(Debug, Clone, PartialEq, Eq)]
pub struct PrivilegeSetupPlan {
    pub schema_version: String,
    pub plan_id: String,
    pub target_id: String,
    pub plan_kind: PrivilegeSetupPlanKind,
    pub helper_path: String,
    pub operator_steps: Vec<String>,
    pub commands: Vec<String>,
    pub verification_commands: Vec<String>,
    pub warnings: Vec<String>,
    pub time_unix_ms: u64,
}

#[derive(Debug, Clone, PartialEq, Eq)]
pub struct CpufreqDesiredState {
    pub governor: String,
}

#[derive(Debug, Clone, PartialEq, Eq)]
pub struct ControlOperation {
    pub operation_id: String,
    pub desired_state: CpufreqDesiredState,
}

#[derive(Debug, Clone, PartialEq, Eq)]
pub struct CpufreqPolicyState {
    pub policy: String,
    pub governor: String,
    pub scaling_min_freq: Option<String>,
    pub scaling_max_freq: Option<String>,
}

#[derive(Debug, Clone, PartialEq, Eq)]
pub struct CapturedState {
    pub cpufreq_policies: Vec<CpufreqPolicyState>,
}

#[derive(Debug, Clone, PartialEq, Eq)]
pub struct AppliedState {
    pub governor: String,
}

#[derive(Debug, Clone, Copy, PartialEq, Eq, Structural)]
pub enum RestoreStatus {
    Pending,
    Restored,
    Failed,
    DryRun,
}

#[derive(Debug, Clone, Copy, PartialEq, Eq, Structural)]
pub enum RestoreAttemptStatus {
    Succeeded,
    Failed,
}

#[derive(Debug, Clone, PartialEq, Eq)]
pub struct RestoreAttempt {
    pub status: RestoreAttemptStatus,
    pub message: String,
}

#[derive(Debug, Clone, PartialEq, Eq)]
pub struct RestoreLease {
    pub schema_version: String,
    pub lease_id: String,
    pub target_id: String,
    pub operation_id: String,
    pub captured_state: CapturedState,
    pub applied_state: AppliedState,
    pub restore_required: bool,
    pub restore_status: RestoreStatus,
    pub created_by_plan: String,
    pub time_unix_ms: u64,
}

#[derive(Debug, Clone, Copy, PartialEq, Eq, Structural)]
pub enum ControlResultStatus {
    Refused,
    DryRunOk,
    Applied,
    Restored,
    Failed,
}

#[derive(Debug, Clone, Copy, PartialEq, Eq, Structural)]
pub enum RefusalCode {
    UnsupportedOperation,
    ApprovalRequired,
    ApprovalMismatch,
    PrivilegedApplyRequiresTargetLocalHelper,
    PolicyViolation,
    InvalidPlan,
    MissingSurface,
}

#[derive(Debug, Clone, PartialEq, Eq)]
pub struct Refusal {
    pub reason_code: RefusalCode,
    pub message: String,
}

#[derive(Debug, Clone, PartialEq, Eq)]
pub struct ControlResult {
    pub schema_version: String,
    pub result_id: String,
    pub plan_id: String,
    pub target_id: String,
    pub operation_id: String,
    pub risk_tier: RiskTier,
    pub status: ControlResultStatus,
    pub refusal: Option<Refusal>,
    pub restore_lease: Option<RestoreLease>,
    pub restore_attempted: bool,
    pub restore_result: Option<RestoreAttempt>,
    pub time_unix_ms: u64,
}

#[derive(Debug, Clone, Copy, PartialEq, Eq, Structural)]
pub enum LoadRestoreOnAbortPolicy {
    NotRequired,
}

#[derive(Debug, Clone, Copy, PartialEq, Eq, Structural)]
pub enum LoadRestoreOnAbortStatus {
    NotRequired,
    NotConfigured,
    Attempted,
    Succeeded,
    Failed,
}

#[derive(Debug, Clone, PartialEq, Eq)]
pub struct LoadSafetyMonitorResult {
    pub sample_interval_ms: u64,
    pub samples: u64,
    pub thermal_surface_available: bool,
    pub operator_abort_observed: bool,
    pub restore_on_abort_status: LoadRestoreOnAbortStatus,
}

#[derive(Debug, Clone, Copy, PartialEq, Eq, Structural)]
pub enum WorkloadClass {
    IdleObserve,
    SyntheticCpu,
    ApplicationWorkload,
}

#[derive(Debug, Clone, Copy, PartialEq, Eq, Structural)]
pub enum WorkloadClaimBoundary {
    ExploratoryOnly,
    SyntheticShortSmokeOnly,
    NotSelectionEvidence,
}

#[derive(Debug, Clone, Copy, PartialEq, Eq, Structural)]
pub enum WorkloadExecutionMode {
    Local,
    TargetLocal,
}

#[derive(Debug, Clone, Copy, PartialEq, Eq, Structural)]
pub enum WorkloadRunStatus {
    Completed,
    Failed,
    Aborted,
    Refused,
}

#[derive(Debug, Clone, Copy, PartialEq, Eq, Structural)]
pub enum WorkloadDemandScope {
    ProcessScoped,
    SystemWideOnly,
}

#[derive(Debug, Clone, PartialEq, Eq)]
pub struct WorkloadEnvironmentVariable {
    pub name: String,
    pub value: String,
}

#[derive(Debug, Clone, PartialEq, Eq)]
pub struct WorkloadEnvironmentPolicy {
    pub inherit: bool,
    pub allowed: Vec<WorkloadEnvironmentVariable>,
}

#[derive(Debug, Clone, PartialEq, Eq)]
pub struct WorkloadExecution {
    pub executable_path: String,
    pub args: Vec<String>,
    pub working_directory: String,
    pub expected_executable_sha256: Option<String>,
    pub require_executable_sha256: bool,
    pub reject_setuid: bool,
    pub reject_world_writable: bool,
    pub environment_policy: WorkloadEnvironmentPolicy,
}

#[derive(Debug, Clone, PartialEq, Eq)]
pub struct WorkloadObservationConfig {
    pub sample_interval_ms: u64,
    pub process_scoped: bool,
    pub system_context: bool,
}

#[derive(Debug, Clone, PartialEq, Eq)]
pub struct WorkloadDataQuality {
    pub degraded: bool,
    pub missing: Vec<String>,
    pub notes: Vec<String>,
}

#[derive(Debug, Clone, PartialEq, Eq)]
pub struct WorkloadRunResult {
    pub schema_version: String,
    pub run_id: String,
    pub workload_id: String,
    pub target_id: String,
    pub execution_mode: WorkloadExecutionMode,
    pub status: WorkloadRunStatus,
    pub reason: Option<String>,
    pub exit_code: Option<i32>,
    pub signal: Option<i32>,
    pub started_at_unix_ms: u64,
    pub ended_at_unix_ms: u64,
    pub duration_ms: u64,
    pub stdout_ref: Option<String>,
    pub stderr_ref: Option<String>,
    pub stdout_truncated: bool,
    pub stderr_truncated: bool,
    pub process_ids: Vec<u32>,
    pub audit_refs: Vec<String>,
    pub data_quality: WorkloadDataQuality,
    pub time_unix_ms: u64,
}

#[derive(Debug, Clone, PartialEq, Eq)]
pub struct WorkloadFixtureResult {
    pub schema_version: String,
    pub fixture: String,
    pub duration_ms: u64,
    pub memory_bytes_touched: u64,
    pub storage_bytes_written_and_cleaned: u64,
    pub iterations: u64,
    pub claim_boundary: Vec<String>,
}

#[derive(Debug, Clone, Copy, PartialEq, Eq, PartialOrd, Ord, Structural)]
pub enum SuitabilityDimensionKind {
    Cpu,
    Thermal,
    Memory,
    StorageIo,
    NetworkIo,
    LatencyJitter,
    Observer,
}

#[derive(Debug, Clone, Copy, PartialEq, Eq, Structural)]
pub enum SuitabilityDecisionValue {
    Meet,
    Marginal,
    Fail,
    Unknown,
}

#[derive(Debug, Clone, Copy, PartialEq, Eq, Structural)]
pub enum SuitabilityConfidence {
    Low,
    Medium,
    High,
}

#[derive(Debug, Clone, PartialEq, Eq)]
pub struct SuitabilityPolicyRules {
    pub unknown_required_dimension_blocks_selection: bool,
    pub unknown_never_becomes_meet: bool,
}

#[derive(Debug, Clone, PartialEq, Eq)]
pub struct MemorySuitabilityPolicy {
    pub min_memory_margin_mb: u64,
}

#[derive(Debug, Clone, PartialEq, Eq)]
pub struct SuitabilityDimensionDecision {
    pub dimension: SuitabilityDimensionKind,
    pub decision: SuitabilityDecisionValue,
    pub requirement: String,
    pub observed_demand: Option<String>,
    pub target_envelope: Option<String>,
    pub margin: Option<String>,
    pub confidence: SuitabilityConfidence,
    pub target_conditioned: bool,
    pub portable_between_targets: bool,
    pub evidence_refs: Vec<String>,
    pub unknown_reason: Option<String>,
    pub next_evidence_needed: Vec<String>,
}

#[derive(Debug, Clone, Copy, PartialEq, Eq, Structural)]
pub enum FactorKind {
    ControlledFactor,
    ObservedCovariate,
    UncontrolledConfounder,
}

#[derive(Debug, Clone, PartialEq, Eq)]
pub struct ExperimentFactor {
    pub name: String,
    pub kind: FactorKind,
    pub levels: Vec<String>,
}

#[derive(Debug, Clone, PartialEq, Eq)]
pub struct ExperimentMatrix {
    pub schema_version: String,
    pub matrix_id: String,
    pub description: String,
    pub factors: Vec<ExperimentFactor>,
    pub warmup_seconds: u64,
    pub cooldown_seconds: u64,
    pub repetitions: u64,
    pub order: String,
}

#[derive(Debug, Clone, PartialEq, Eq)]
pub struct ExperimentTrial {
    pub trial_id: String,
    pub factors: Vec<(String, String)>,
    pub status: String,
    pub artifact_refs: Vec<String>,
    pub failure: Option<String>,
    pub started_at_unix_ms: Option<u64>,
    pub ended_at_unix_ms: Option<u64>,
}

#[derive(Debug, Clone, PartialEq, Eq)]
pub struct ExperimentRun {
    pub schema_version: String,
    pub run_id: String,
    pub matrix_id: String,
    pub target_id: String,
    pub dry_run: bool,
    pub trials: Vec<ExperimentTrial>,
    pub time_unix_ms: u64,
}

#[derive(Debug, Clone, PartialEq, Eq)]
pub struct AuditEvent {
    pub schema_version: String,
    pub event_id: String,
    pub run_id: String,
    pub target_id: String,
    pub actor: Actor,
    pub operation: String,
    pub operation_id: Option<String>,
    pub risk_tier: RiskTier,
    pub approval_ref: Option<String>,
    pub restore_lease_ref: Option<String>,
    pub result: String,
    pub policy_version: String,
    pub time_unix_ms: u64,
}

#[derive(Debug, Clone, PartialEq, Eq)]
pub struct RunArtifactRef {
    pub name: String,
    pub artifact_ref: String,
    pub schema_version: String,
}

#[derive(Debug, Clone, PartialEq, Eq)]
pub struct RunDataQuality {
    pub missing: Vec<String>,
    pub inconsistent: Vec<String>,
    pub notes: Vec<String>,
}

#[derive(Debug, Clone, PartialEq, Eq)]
pub struct RunManifest {
    pub schema_version: String,
    pub run_id: String,
    pub target_id: String,
    pub target: String,
    pub mode: String,
    pub started_at_unix_ms: u64,
    pub ended_at_unix_ms: u64,
    pub adc_lab_version: String,
    pub adc_lab_git_sha: String,
    pub adc_lab_target_version: String,
    pub adc_lab_target_git_sha: String,
    pub release_tag: String,
    pub release_asset: String,
    pub release_asset_sha256: String,
    pub binary_sha256: Vec<(String, String)>,
    pub operations_summary: Vec<(String, String)>,
    pub operation_audit_refs: Vec<(String, String)>,
    pub artifacts: Vec<RunArtifactRef>,
    pub audit_ref: String,
    pub claim_trace_ref: Option<String>,
    pub data_quality: RunDataQuality,
}

#[derive(Debug, Clone, PartialEq, Eq)]
pub struct ToolQualification {
    pub schema_version: String,
    pub tool_id: String,
    pub category: ToolCategory,
    pub privilege: PrivilegeLevel,
    pub source: ToolSource,
    pub available: bool,
    pub status: QualificationStatus,
    pub evidence_accepted: bool,
    pub dry_run_required: bool,
    pub qualification_scope: String,
    pub tool_version: Option<String>,
    pub tool_sha256: Option<String>,
    pub output_schema_ref: Option<String>,
    pub dry_run_ref: Option<String>,
    pub manual_comparison_ref: Option<String>,
    pub static_safety_review_ref: Option<String>,
    pub validated_output_bytes: Option<u64>,
    pub evidence_refs: Vec<String>,
    pub checks: Vec<String>,
    pub limitations: Vec<String>,
    pub reason: String,
    pub time_unix_ms: u64,
}

#[derive(Debug, Clone, PartialEq, Eq)]
pub struct ToolQualificationSummary {
    pub schema_version: String,
    pub target_id: String,
    pub tools: Vec<ToolQualificationSummaryEntry>,
    pub qualification_refs: Vec<String>,
    pub evidence_accepted_tool_ids: Vec<String>,
    pub evidence_rejected_tool_ids: Vec<String>,
    pub missing_tool_ids: Vec<String>,
    pub time_unix_ms: u64,
}

#[derive(Debug, Clone, PartialEq, Eq)]
pub struct ToolQualificationSummaryEntry {
    pub tool_id: String,
    pub status: String,
    pub evidence_accepted: bool,
}

/// Bounds of a privileged control operation.  Temperatures are carried in
/// thousandths of a degree Celsius.
#[derive(Debug, Clone, PartialEq, Eq)]
pub struct OperationBounds {
    pub duration_seconds_max: u64,
    pub thermal_millicelsius_abort: Option<i64>,
}

#[derive(Debug, Clone, PartialEq, Eq)]
pub struct ControlPlan {
    pub schema_version: String,
    pub plan_id: String,
    pub run_id: String,
    pub target_id: String,
    pub risk_tier: RiskTier,
    pub approval_required: bool,
    pub restore_required: bool,
    pub operation: ControlOperation,
    pub bounds: OperationBounds,
    pub created_by: Actor,
    pub time_unix_ms: u64,
}

/// Bounds an operator approved.  Temperatures are carried in thousandths of a
/// degree Celsius.
#[derive(Debug, Clone, PartialEq, Eq)]
pub struct ApprovalBounds {
    pub duration_seconds_max: u64,
    pub thermal_millicelsius_abort: Option<i64>,
}

#[derive(Debug, Clone, PartialEq, Eq)]
pub struct ApprovalRecord {
    pub schema_version: String,
    pub approval_id: String,
    pub target_id: String,
    pub risk_tier: RiskTier,
    pub operation_summary: String,
    pub approved_plan_id: String,
    pub approved_plan_digest: String,
    pub approved_operation: ControlOperation,
    pub approved_by: Actor,
    pub bounds: ApprovalBounds,
    pub restore_required: bool,
    pub approved_actions: Vec<String>,
    pub time_unix_ms: u64,
}

#[derive(Debug, Clone, Copy, PartialEq, Eq, Structural)]
pub enum ClaimDecision {
    Supported,
    Provisional,
    Blocked,
}

#[derive(Debug, Clone, PartialEq, Eq)]
pub struct ClaimTraceEntry {
    pub claim: String,
    pub decision: ClaimDecision,
    pub evidence_refs: Vec<String>,
    pub next_evidence_needed: Vec<String>,
}

#[derive(Debug, Clone, PartialEq, Eq)]
pub struct ClaimEvidenceTrace {
    pub schema_version: String,
    pub run_id: String,
    pub target_id: String,
    pub claims: Vec<ClaimTraceEntry>,
    pub time_unix_ms: u64,
}

} // verus!

verus! {

impl CpufreqPolicyState {
    /// An equal copy.
    pub fn copied(&self) -> (r: Self)
        ensures
            r == *self,
    {
        CpufreqPolicyState {
            policy: self.policy.clone(),
            governor: self.governor.clone(),
            scaling_min_freq: match &self.scaling_min_freq {
                Some(v) => Some(v.clone()),
                None => None,
            },
            scaling_max_freq: match &self.scaling_max_freq {
                Some(v) => Some(v.clone()),
                None => None,
            },
        }
    }
}

/// An equal copy of a list of policy states.
pub fn copy_policy_states(states: &Vec<CpufreqPolicyState>) -> (r: Vec<CpufreqPolicyState>)
    ensures
        r@ == states@,
{
    let mut r: Vec<CpufreqPolicyState> = Vec::new();
    let mut i: usize = 0;
    while i < states.len()
        invariant
            i <= states@.len(),
            r@ == states@.subrange(0, i as int),
        decreases states.len() - i,
    {
        r.push(states[i].copied());
        proof {
            assert(r@ =~= states@.subrange(0, i + 1));
        }
        i = i + 1;
    }
    proof {
        assert(states@.subrange(0, states@.len() as int) =~= states@);
    }
    r
}

/// Two leases agree in every field, the captured policies compared by
/// their contents.
pub open spec fn same_lease(a: RestoreLease, b: RestoreLease) -> bool {
    &&& a.schema_version == b.schema_version
    &&& a.lease_id == b.lease_id
    &&& a.target_id == b.target_id
    &&& a.operation_id == b.operation_id
    &&& a.captured_state.cpufreq_policies@ == b.captured_state.cpufreq_policies@
    &&& a.applied_state == b.applied_state
    &&& a.restore_required == b.restore_required
    &&& a.restore_status == b.restore_status
    &&& a.created_by_plan == b.created_by_plan
    &&& a.time_unix_ms == b.time_unix_ms
}

impl RestoreLease {
    /// A copy that agrees in every field.
    pub fn copied(&self) -> (r: Self)
        ensures
            same_lease(r, *self),
    {
        RestoreLease {
            schema_version: self.schema_version.clone(),
            lease_id: self.lease_id.clone(),
            target_id: self.target_id.clone(),
            operation_id: self.operation_id.clone(),
            captured_state: CapturedState { cpufreq_policies: copy_policy_states(&self.captured_state.cpufreq_policies) },
            applied_state: AppliedState { governor: self.applied_state.governor.clone() },
            restore_required: self.restore_required,
            restore_status: self.restore_status,
            created_by_plan: self.created_by_plan.clone(),
            time_unix_ms: self.time_unix_ms,
        }
    }

    /// An equal copy with another restore status.
    pub fn with_status(&self, restore_status: RestoreStatus) -> (r: Self)
        ensures
            same_lease(r, (RestoreLease { restore_status, ..*self })),
    {
        let mut r = self.copied();
        r.restore_status = restore_status;
        r
    }
}

} // verus!
