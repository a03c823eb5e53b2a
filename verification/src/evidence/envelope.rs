//! The `lab.artifact.v2` envelope shared by all v2 artifacts.

use crate::ids::{new_id, now_unix_ms};
use crate::text::owned;
use vstd::prelude::*;

verus! {

pub const ARTIFACT_SCHEMA_V2: &'static str = "lab.artifact.v2";

#[derive(Debug, Clone, Copy, PartialEq, Eq, Structural)]
pub enum Kind {
    Inventory,
    Observation,
    Pressure,
    Composite,
    ControlResult,
    Load,
    Workload,
    ReportRun,
    ReportOperatingContract,
    ReportSuitability,
    ReportConstraints,
    ReportConstraintsCheck,
    ReportRunValidation,
    ControlGovernorSweepPolicy,
    WorkflowRecommendation,
    WorkflowCollectPlan,
}

/// The serialized label of a kind.
pub open spec fn kind_label_spec(kind: Kind) -> Seq<char> {
    match kind {
        Kind::Inventory => "inventory"@,
        Kind::Observation => "observation"@,
        Kind::Pressure => "pressure"@,
        Kind::Composite => "composite"@,
        Kind::ControlResult => "control_result"@,
        Kind::Load => "load"@,
        Kind::Workload => "workload"@,
        Kind::ReportRun => "report.run"@,
        Kind::ReportOperatingContract => "report.operating_contract"@,
        Kind::ReportSuitability => "report.suitability"@,
        Kind::ReportConstraints => "report.constraints"@,
        Kind::ReportConstraintsCheck => "report.constraints_check"@,
        Kind::ReportRunValidation => "report.run_validation"@,
        Kind::ControlGovernorSweepPolicy => "control.governor_sweep_policy"@,
        Kind::WorkflowRecommendation => "workflow.recommendation"@,
        Kind::WorkflowCollectPlan => "workflow.collect_plan"@,
    }
}

/// The serialized label of a kind.
pub fn kind_label(kind: &Kind) -> (label: &'static str)
    ensures
        label@ == kind_label_spec(*kind),
{
    match kind {
        Kind::Inventory => "inventory",
        Kind::Observation => "observation",
        Kind::Pressure => "pressure",
        Kind::Composite => "composite",
        Kind::ControlResult => "control_result",
        Kind::Load => "load",
        Kind::Workload => "workload",
        Kind::ReportRun => "report.run",
        Kind::ReportOperatingContract => "report.operating_contract",
        Kind::ReportSuitability => "report.suitability",
        Kind::ReportConstraints => "report.constraints",
        Kind::ReportConstraintsCheck => "report.constraints_check",
        Kind::ReportRunValidation => "report.run_validation",
        Kind::ControlGovernorSweepPolicy => "control.governor_sweep_policy",
        Kind::WorkflowRecommendation => "workflow.recommendation",
        Kind::WorkflowCollectPlan => "workflow.collect_plan",
    }
}

#[derive(Debug, Clone, PartialEq, Eq)]
pub enum Status {
    Measured,
    MeasuredPartial,
    Insufficient,
    NotApplicable { reason: String },
    Refused { code: EvidenceRefusalCode, message: String },
    UnsafeBlocked { reason: String },
}

/// The status counts as measured evidence.
pub open spec fn measured_spec(status: Status) -> bool {
    status is Measured || status is MeasuredPartial
}

/// Whether the status counts as measured evidence (measured or partially
/// measured).
pub fn is_measured_status(status: &Status) -> (r: bool)
    ensures
        r == measured_spec(*status),
{
    match status {
        Status::Measured => true,
        Status::MeasuredPartial => true,
        _ => false,
    }
}

#[derive(Debug, Clone, Copy, PartialEq, Eq, Structural)]
pub enum EvidenceRefusalCode {
    InvalidArtifact,
    PolicyViolation,
    UnsupportedOperation,
    MissingEvidence,
}

#[derive(Debug, Clone, Copy, PartialEq, Eq, Structural)]
pub enum Decision {
    Supported,
    Provisional,
    Blocked,
}

#[derive(Debug, Clone, PartialEq, Eq)]
pub struct Claim {
    pub claim_id: String,
    pub decision: Decision,
    pub evidence_refs: Vec<String>,
    pub next_evidence: Vec<String>,
}

#[derive(Debug, Clone, PartialEq, Eq)]
pub struct Bounds {
    pub duration_seconds_max: Option<u64>,
    pub notes: Vec<String>,
}

#[derive(Debug, Clone, PartialEq, Eq)]
pub struct Factors {
    pub controlled: Vec<String>,
    pub observed: Vec<String>,
    pub confounders: Vec<String>,
}

impl Factors {
    /// No controlled, observed or confounding factors.
    pub fn empty() -> (f: Self)
        ensures
            f.controlled@.len() == 0,
            f.observed@.len() == 0,
            f.confounders@.len() == 0,
    {
        Factors { controlled: Vec::new(), observed: Vec::new(), confounders: Vec::new() }
    }
}

/// A metric value, in thousandths of its unit.
#[derive(Debug, Clone, PartialEq, Eq)]
pub struct Metric {
    pub name: String,
    pub value_milli: i64,
    pub unit: Option<String>,
}

#[derive(Debug, Clone, Copy, PartialEq, Eq, Structural)]
pub enum DataQualityLevel {
    Complete,
    Partial,
    Degraded,
}

#[derive(Debug, Clone, PartialEq, Eq)]
pub struct DataQuality {
    pub level: DataQualityLevel,
    pub notes: Vec<String>,
}

impl DataQuality {
    /// Complete data quality with no notes.
    pub fn complete() -> (q: Self)
        ensures
            q.level == DataQualityLevel::Complete,
            q.notes@.len() == 0,
    {
        DataQuality { level: DataQualityLevel::Complete, notes: Vec::new() }
    }
}

#[derive(Debug, Clone, PartialEq, Eq)]
pub struct Artifact<P> {
    pub schema: String,
    pub kind: Kind,
    pub id: String,
    pub run_id: String,
    pub target_id: String,
    pub status: Status,
    pub bounds: Option<Bounds>,
    pub factors: Factors,
    pub metrics: Vec<Metric>,
    pub claims: Vec<Claim>,
    pub evidence_refs: Vec<String>,
    pub data_quality: DataQuality,
    pub payload: P,
    pub time_unix_ms: u64,
}

/// The envelope fields that `Artifact::new` sets from its arguments and
/// defaults.
pub open spec fn fresh_envelope<P>(
    a: Artifact<P>,
    kind: Kind,
    id: Seq<char>,
    run_id: Seq<char>,
    target_id: Seq<char>,
    status: Status,
    payload: P,
    time_unix_ms: u64,
) -> bool {
    &&& a.schema@ == ARTIFACT_SCHEMA_V2@
    &&& a.kind == kind
    &&& a.id@ == id
    &&& a.run_id@ == run_id
    &&& a.target_id@ == target_id
    &&& a.status == status
    &&& a.bounds is None
    &&& a.factors.controlled@.len() == 0
    &&& a.factors.observed@.len() == 0
    &&& a.factors.confounders@.len() == 0
    &&& a.metrics@.len() == 0
    &&& a.claims@.len() == 0
    &&& a.evidence_refs@.len() == 0
    &&& a.data_quality.level == DataQualityLevel::Complete
    &&& a.data_quality.notes@.len() == 0
    &&& a.payload == payload
    &&& a.time_unix_ms == time_unix_ms
}

/// The envelope of a freshly stamped report: a new identifier with the
/// given prefix, the given identity and status, and empty bounds, factors
/// and metrics.  Claims, evidence references and data quality are the
/// report's own.
pub open spec fn report_envelope<P>(
    a: Artifact<P>,
    kind: Kind,
    id_prefix: Seq<char>,
    run_id: Seq<char>,
    target_id: Seq<char>,
    status: Status,
) -> bool {
    &&& a.schema@ == ARTIFACT_SCHEMA_V2@
    &&& a.kind == kind
    &&& exists|n: nat| a.id@ == id_prefix + seq!['-'] + crate::text::decimal(n)
    &&& a.run_id@ == run_id
    &&& a.target_id@ == target_id
    &&& a.status == status
    &&& a.bounds is None
    &&& a.factors.controlled@.len() == 0
    &&& a.factors.observed@.len() == 0
    &&& a.factors.confounders@.len() == 0
    &&& a.metrics@.len() == 0
}

impl<P> Artifact<P> {
    /// A v2 artifact with the given identity, status and payload, and empty
    /// bounds, factors, metrics, claims and evidence references.
    pub fn new(
        kind: Kind,
        id: String,
        run_id: String,
        target_id: String,
        status: Status,
        payload: P,
        time_unix_ms: u64,
    ) -> (a: Self)
        ensures
            fresh_envelope(a, kind, id@, run_id@, target_id@, status, payload, time_unix_ms),
    {
        Artifact {
            schema: owned(ARTIFACT_SCHEMA_V2),
            kind,
            id,
            run_id,
            target_id,
            status,
            bounds: None,
            factors: Factors::empty(),
            metrics: Vec::new(),
            claims: Vec::new(),
            evidence_refs: Vec::new(),
            data_quality: DataQuality::complete(),
            payload,
            time_unix_ms,
        }
    }
}

/// A fresh artifact stamped with a new identifier with the given prefix and
/// the current time.
pub fn fresh_artifact<P>(
    kind: Kind,
    id_prefix: &str,
    run_id: String,
    target_id: String,
    status: Status,
    payload: P,
) -> (a: Artifact<P>)
    ensures
        fresh_envelope(a, kind, a.id@, run_id@, target_id@, status, payload, a.time_unix_ms),
        exists|n: nat| a.id@ == id_prefix@ + seq!['-'] + crate::text::decimal(n),
{
    let id = new_id(id_prefix);
    let now = now_unix_ms();
    Artifact::new(kind, id, run_id, target_id, status, payload, now)
}

} // verus!
