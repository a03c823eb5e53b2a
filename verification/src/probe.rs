//! Payloads of the v2 probe artifacts (observation, load, pressure,
//! composite, workload).  Temperatures are carried in thousandths of a
//! degree Celsius.

use crate::contracts::{ContractEvidenceStatus, ContractFactor, ResourceCouplingEvidenceClass, ResourcePressureEvidenceClass};
use crate::evidence::envelope::{Artifact, Bounds, Factors, Kind, Metric, Status};
use crate::load::LoadResult;
use crate::observe::{signal_label, ObservationResult};
use crate::platform_contract::{
    metric_ids, network_mode_label, network_mode_spec, pressure_kind_label, scenario_label, CompositeBoundaryResult,
    ResourceMetric, ResourcePressureResult,
};
use crate::text::{concat, copy_all, decimal, owned, views};
use vstd::prelude::*;

verus! {

#[derive(Debug, Clone, PartialEq, Eq)]
pub struct ObservationPayload {
    pub source_schema_version: String,
    pub duration_ms: u64,
    pub sample_count: usize,
    pub signals: Vec<String>,
}

/// The operating point recorded with a load run.
#[derive(Debug, Clone, PartialEq, Eq)]
pub struct OperatingPointSnapshot {
    pub governor: Option<String>,
}

#[derive(Debug, Clone, PartialEq, Eq)]
pub struct LoadPayload {
    pub source_schema_version: String,
    pub load_id: String,
    pub status: String,
    pub workers: usize,
    pub duration_ms: u64,
    pub max_observed_temp_millicelsius: Option<i64>,
    pub operator_abort_observed: bool,
    pub control_result_ref: Option<String>,
    pub operating_point_snapshot: Option<OperatingPointSnapshot>,
}

#[derive(Debug, Clone, PartialEq, Eq)]
pub struct PressurePayload {
    pub source_schema_version: String,
    pub pressure_kind: String,
    pub evidence_class: String,
    pub effect_observed: bool,
    pub duration_ms: u64,
    pub network_mode: Option<String>,
    pub network_endpoint_available: Option<bool>,
    pub network_traffic_generated_bytes: Option<u64>,
}

#[derive(Debug, Clone, PartialEq, Eq)]
pub struct CompositePayload {
    pub source_schema_version: String,
    pub scenario: String,
    pub coupling_evidence_class: String,
    pub phase_count: usize,
    pub duration_ms: u64,
}

#[derive(Debug, Clone, PartialEq, Eq)]
pub struct WorkloadPayload {
    pub source_schema_version: String,
    pub workload_id: String,
    pub execution_mode: String,
    pub demand_scope: String,
    pub degraded_data_quality: bool,
}

/// The envelope status of a v1 contract status: measured stays measured,
/// not applicable and unsafe carry a fixed reason, and not controllable or
/// insufficient evidence is insufficient.
pub fn status_from_contract(status: &ContractEvidenceStatus) -> (s: Status)
    ensures
        match *status {
            ContractEvidenceStatus::Measured => s == Status::Measured,
            ContractEvidenceStatus::MeasuredPartial => s == Status::MeasuredPartial,
            ContractEvidenceStatus::NotApplicableWithReason => s matches Status::NotApplicable { reason }
                && reason@ == "v1 contract marked not applicable"@,
            ContractEvidenceStatus::UnsafeToRunWithReason => s matches Status::UnsafeBlocked { reason }
                && reason@ == "v1 contract marked unsafe to run"@,
            _ => s == Status::Insufficient,
        },
{
    match status {
        ContractEvidenceStatus::Measured => Status::Measured,
        ContractEvidenceStatus::MeasuredPartial => Status::MeasuredPartial,
        ContractEvidenceStatus::NotApplicableWithReason => Status::NotApplicable {
            reason: owned("v1 contract marked not applicable"),
        },
        ContractEvidenceStatus::UnsafeToRunWithReason => Status::UnsafeBlocked {
            reason: owned("v1 contract marked unsafe to run"),
        },
        ContractEvidenceStatus::NotControllable => Status::Insufficient,
        ContractEvidenceStatus::Insufficient => Status::Insufficient,
    }
}

/// The run identifier of a run directory: its name, else `LAB-RUN-v2`.
pub fn run_id_from_dir(dir_name: Option<String>) -> (id: String)
    ensures
        id@ == match dir_name {
            Some(n) => n@,
            None => "LAB-RUN-v2"@,
        },
{
    match dir_name {
        Some(n) => n,
        None => owned("LAB-RUN-v2"),
    }
}

/// `a / b` rounded up.
pub open spec fn ceil_div(a: u64, b: u64) -> u64 {
    if a % b == 0 { (a / b) as u64 } else { (a / b + 1) as u64 }
}

fn seconds_ceil(ms: u64) -> (s: u64)
    ensures
        s == ceil_div(ms, 1000),
{
    if ms % 1000 == 0 { ms / 1000 } else { ms / 1000 + 1 }
}

/// The lowercase names of signals.
pub open spec fn signal_labels(v: Seq<crate::observe::Signal>) -> Seq<Seq<char>> {
    v.map_values(|s: crate::observe::Signal| signal_label(s))
}

/// The v2 artifact wrapping an observation: measured, with a new
/// `OBSERVATION-` identifier and the observation's duration as its bound.
pub fn observation_artifact_v2(run_id: String, result: ObservationResult) -> (a: Artifact<ObservationPayload>)
    ensures
        a.kind == Kind::Observation,
        exists|n: nat| a.id@ == "OBSERVATION-"@ + decimal(n),
        a.run_id@ == run_id@,
        a.target_id@ == result.target_id@,
        a.status == Status::Measured,
        a.payload.source_schema_version@ == result.schema_version@,
        a.payload.duration_ms == result.duration_ms,
        a.payload.sample_count == result.samples@.len(),
        views(a.payload.signals@) == signal_labels(result.signals@),
        a.bounds matches Some(b) && b.duration_seconds_max == Some(ceil_div(result.duration_ms, 1000))
            && views(b.notes@) == seq!["wrapped from v1 observation result"@],
{
    let mut signals: Vec<String> = Vec::new();
    let mut i: usize = 0;
    while i < result.signals.len()
        invariant
            i <= result.signals@.len(),
            views(signals@) == signal_labels(result.signals@).take(i as int),
        decreases result.signals.len() - i,
    {
        let ghost prev = signals@;
        signals.push(owned(result.signals[i].label()));
        proof {
            assert(views(signals@) =~= views(prev).push(signal_label(result.signals@[i as int])));
            assert(signal_labels(result.signals@).take(i + 1) =~= signal_labels(result.signals@).take(i as int).push(signal_label(result.signals@[i as int])));
        }
        i = i + 1;
    }
    proof {
        assert(signal_labels(result.signals@).take(result.signals@.len() as int) =~= signal_labels(result.signals@));
    }
    let payload = ObservationPayload {
        source_schema_version: result.schema_version,
        duration_ms: result.duration_ms,
        sample_count: result.samples.len(),
        signals,
    };
    let mut a = crate::evidence::envelope::fresh_artifact(Kind::Observation, "OBSERVATION", run_id, result.target_id,
        Status::Measured, payload);
    proof {
        reveal_strlit("OBSERVATION");
        reveal_strlit("OBSERVATION-");
        assert("OBSERVATION"@ + seq!['-'] =~= "OBSERVATION-"@);
    }
    a.bounds = Some(Bounds {
        duration_seconds_max: Some(seconds_ceil(a.payload.duration_ms)),
        notes: crate::text::single("wrapped from v1 observation result"),
    });
    a
}

/// The envelope status of a load result: measured when it completed, in
/// part when it was aborted for a reason, insufficient otherwise.
pub open spec fn load_status_spec(r: LoadResult) -> Status {
    if r.status@ == "completed"@ {
        Status::Measured
    } else if r.abort_reason is Some {
        Status::MeasuredPartial
    } else {
        Status::Insufficient
    }
}

/// The v2 artifact wrapping a load result, under the result's identifier,
/// with the load's duration as its bound.
pub fn load_artifact_v2(run_id: String, result: LoadResult) -> (a: Artifact<LoadPayload>)
    ensures
        a.kind == Kind::Load,
        a.id@ == result.result_id@,
        a.run_id@ == run_id@,
        a.target_id@ == result.target_id@,
        a.status == load_status_spec(result),
        a.payload.source_schema_version@ == result.schema_version@,
        a.payload.load_id@ == result.load_id@,
        a.payload.status@ == result.status@,
        a.payload.workers == result.workers,
        a.payload.duration_ms == result.duration_ms,
        a.payload.max_observed_temp_millicelsius == result.max_observed_temp_millicelsius,
        a.payload.operator_abort_observed == result.safety_monitor.operator_abort_observed,
        a.payload.control_result_ref is None,
        a.payload.operating_point_snapshot is None,
        a.bounds matches Some(b) && b.duration_seconds_max == Some(ceil_div(result.duration_ms, 1000))
            && views(b.notes@) == seq!["wrapped from v1 load result"@],
        a.metrics@.len() == 0,
        a.evidence_refs@.len() == 0,
{
    let status = if crate::text::str_eq(result.status.as_str(), "completed") {
        Status::Measured
    } else if result.abort_reason.is_some() {
        Status::MeasuredPartial
    } else {
        Status::Insufficient
    };
    let payload = LoadPayload {
        source_schema_version: result.schema_version,
        load_id: result.load_id,
        status: result.status,
        workers: result.workers,
        duration_ms: result.duration_ms,
        max_observed_temp_millicelsius: result.max_observed_temp_millicelsius,
        operator_abort_observed: result.safety_monitor.operator_abort_observed,
        control_result_ref: None,
        operating_point_snapshot: None,
    };
    let mut a = Artifact::new(Kind::Load, result.result_id, run_id, result.target_id, status, payload,
        crate::ids::now_unix_ms());
    a.bounds = Some(Bounds {
        duration_seconds_max: Some(seconds_ceil(a.payload.duration_ms)),
        notes: crate::text::single("wrapped from v1 load result"),
    });
    a
}

/// A factor written as `name=value`.
pub open spec fn factor_text(f: ContractFactor) -> Seq<char> {
    f.factor_id@ + "="@ + f.value@
}

/// Factors written as `name=value`, in order.
pub open spec fn factor_texts(v: Seq<ContractFactor>) -> Seq<Seq<char>> {
    v.map_values(|f: ContractFactor| factor_text(f))
}

fn factor_strings(v: &Vec<ContractFactor>) -> (r: Vec<String>)
    ensures
        views(r@) == factor_texts(v@),
{
    let mut r: Vec<String> = Vec::new();
    let mut i: usize = 0;
    while i < v.len()
        invariant
            i <= v@.len(),
            views(r@) == factor_texts(v@).take(i as int),
        decreases v.len() - i,
    {
        let a = concat(v[i].factor_id.as_str(), "=");
        let t = concat(a.as_str(), v[i].value.as_str());
        let ghost prev = r@;
        r.push(t);
        proof {
            assert(views(r@) =~= views(prev).push(factor_text(v@[i as int])));
            assert(factor_texts(v@).take(i + 1) =~= factor_texts(v@).take(i as int).push(factor_text(v@[i as int])));
        }
        i = i + 1;
    }
    proof {
        assert(factor_texts(v@).take(v@.len() as int) =~= factor_texts(v@));
    }
    r
}

/// The measured metrics of a probe as envelope metrics: those without a
/// value left out, each keeping its name, value and unit.
pub open spec fn measured_metrics(ms: Seq<ResourceMetric>) -> Seq<(Seq<char>, i64, Seq<char>)>
    decreases ms.len(),
{
    if ms.len() == 0 {
        Seq::empty()
    } else {
        let prev = measured_metrics(ms.drop_last());
        match ms.last().value_milli {
            Some(v) => prev.push((ms.last().metric_id@, v, ms.last().unit@)),
            None => prev,
        }
    }
}

/// Envelope metrics as plain values (each has a unit).
pub open spec fn envelope_metrics(ms: Seq<Metric>) -> Seq<(Seq<char>, i64, Seq<char>)> {
    ms.map_values(|m: Metric| (m.name@, m.value_milli, match m.unit { Some(u) => u@, None => Seq::empty() }))
}

fn measured_metric_list(ms: &Vec<ResourceMetric>) -> (r: Vec<Metric>)
    ensures
        envelope_metrics(r@) == measured_metrics(ms@),
        forall|i: int| 0 <= i < r@.len() ==> (#[trigger] r@[i]).unit is Some,
{
    let mut r: Vec<Metric> = Vec::new();
    let mut i: usize = 0;
    while i < ms.len()
        invariant
            i <= ms@.len(),
            envelope_metrics(r@) == measured_metrics(ms@.take(i as int)),
            forall|k: int| 0 <= k < r@.len() ==> (#[trigger] r@[k]).unit is Some,
        decreases ms.len() - i,
    {
        proof {
            assert(ms@.take(i + 1).drop_last() =~= ms@.take(i as int));
        }
        match ms[i].value_milli {
            Some(v) => {
                let ghost prev = r@;
                r.push(Metric { name: owned(ms[i].metric_id.as_str()), value_milli: v, unit: Some(owned(ms[i].unit.as_str())) });
                proof {
                    assert(envelope_metrics(r@) =~= envelope_metrics(prev).push((ms@[i as int].metric_id@, v, ms@[i as int].unit@)));
                }
            },
            None => {},
        }
        i = i + 1;
    }
    proof {
        assert(ms@.take(ms@.len() as int) =~= ms@);
    }
    r
}

/// The lowercase name of a pressure evidence class.
pub open spec fn evidence_class_name(c: ResourcePressureEvidenceClass) -> Seq<char> {
    match c {
        ResourcePressureEvidenceClass::Smoke => "smoke"@,
        ResourcePressureEvidenceClass::PressureInduced => "pressureinduced"@,
        ResourcePressureEvidenceClass::PairedPressure => "pairedpressure"@,
        ResourcePressureEvidenceClass::BoundaryProbe => "boundaryprobe"@,
        ResourcePressureEvidenceClass::NotApplicable => "notapplicable"@,
    }
}

fn evidence_class_text(c: &ResourcePressureEvidenceClass) -> (s: &'static str)
    ensures
        s@ == evidence_class_name(*c),
{
    match c {
        ResourcePressureEvidenceClass::Smoke => "smoke",
        ResourcePressureEvidenceClass::PressureInduced => "pressureinduced",
        ResourcePressureEvidenceClass::PairedPressure => "pairedpressure",
        ResourcePressureEvidenceClass::BoundaryProbe => "boundaryprobe",
        ResourcePressureEvidenceClass::NotApplicable => "notapplicable",
    }
}

/// The v2 artifact wrapping a pressure probe's result, under the result's
/// identifier: its status mapped, its safety bound, its factors written as
/// `name=value`, its measured metrics and its network evidence.
pub fn pressure_artifact_v2(run_id: String, result: ResourcePressureResult) -> (a: Artifact<PressurePayload>)
    ensures
        a.kind == Kind::Pressure,
        a.id@ == result.result_id@,
        a.run_id@ == run_id@,
        a.target_id@ == result.target_id@,
        a.payload.source_schema_version@ == result.schema_version@,
        a.payload.pressure_kind@ == pressure_kind_label(result.pressure_kind),
        a.payload.evidence_class@ == evidence_class_name(result.evidence_class),
        a.payload.effect_observed == result.pressure_effect.observed,
        a.payload.duration_ms == result.duration_ms,
        match result.network_evidence {
            Some(n) => a.payload.network_mode matches Some(m) && m@ == network_mode_spec(n.network_mode)
                && a.payload.network_endpoint_available == Some(n.endpoint_available)
                && a.payload.network_traffic_generated_bytes == Some(n.traffic_generated_bytes),
            None => a.payload.network_mode is None && a.payload.network_endpoint_available is None
                && a.payload.network_traffic_generated_bytes is None,
        },
        a.bounds matches Some(b) && b.duration_seconds_max == Some(result.safety.duration_seconds_max)
            && views(b.notes@) == views(result.safety.abort_conditions@),
        views(a.factors.controlled@) == factor_texts(result.controlled_factors@),
        views(a.factors.observed@) == factor_texts(result.observed_covariates@),
        views(a.factors.confounders@) == views(result.uncontrolled_confounders@),
        envelope_metrics(a.metrics@) == measured_metrics(result.metrics@),
        views(a.evidence_refs@) == views(result.evidence_refs@),
{
    let status = status_from_contract(&result.status);
    let (mode, available, generated) = match &result.network_evidence {
        Some(n) => (Some(owned(network_mode_label(&n.network_mode))), Some(n.endpoint_available), Some(n.traffic_generated_bytes)),
        None => (None, None, None),
    };
    let payload = PressurePayload {
        source_schema_version: copy_string(&result.schema_version),
        pressure_kind: owned(result.pressure_kind.as_str()),
        evidence_class: owned(evidence_class_text(&result.evidence_class)),
        effect_observed: result.pressure_effect.observed,
        duration_ms: result.duration_ms,
        network_mode: mode,
        network_endpoint_available: available,
        network_traffic_generated_bytes: generated,
    };
    let mut a = Artifact::new(Kind::Pressure, copy_string(&result.result_id), run_id, copy_string(&result.target_id),
        status, payload, crate::ids::now_unix_ms());
    a.bounds = Some(Bounds {
        duration_seconds_max: Some(result.safety.duration_seconds_max),
        notes: copy_all(&result.safety.abort_conditions),
    });
    a.factors = Factors {
        controlled: factor_strings(&result.controlled_factors),
        observed: factor_strings(&result.observed_covariates),
        confounders: copy_all(&result.uncontrolled_confounders),
    };
    a.metrics = measured_metric_list(&result.metrics);
    a.evidence_refs = copy_all(&result.evidence_refs);
    a
}

fn copy_string(s: &String) -> (r: String)
    ensures
        r@ == s@,
{
    owned(s.as_str())
}

/// The lowercase name of a coupling evidence class.
pub open spec fn coupling_class_name(c: ResourceCouplingEvidenceClass) -> Seq<char> {
    match c {
        ResourceCouplingEvidenceClass::IngredientsOnly => "ingredientsonly"@,
        ResourceCouplingEvidenceClass::CompositeMeasured => "compositemeasured"@,
        ResourceCouplingEvidenceClass::CouplingNotMeasured => "couplingnotmeasured"@,
    }
}

/// The v2 artifact wrapping a composite probe's result, under the result's
/// identifier: its status mapped, its safety bound and its factors.
pub fn composite_artifact_v2(run_id: String, result: CompositeBoundaryResult) -> (a: Artifact<CompositePayload>)
    ensures
        a.kind == Kind::Composite,
        a.id@ == result.result_id@,
        a.run_id@ == run_id@,
        a.target_id@ == result.target_id@,
        a.payload.source_schema_version@ == result.schema_version@,
        a.payload.scenario@ == scenario_label(result.scenario),
        a.payload.coupling_evidence_class@ == coupling_class_name(result.coupling_evidence_class),
        a.payload.phase_count == result.phases@.len(),
        a.payload.duration_ms == result.duration_ms,
        a.bounds matches Some(b) && b.duration_seconds_max == Some(result.safety.duration_seconds_max)
            && views(b.notes@) == views(result.safety.abort_conditions@),
        views(a.factors.controlled@) == factor_texts(result.controlled_factors@),
        views(a.factors.observed@) == factor_texts(result.observed_covariates@),
        views(a.factors.confounders@) == views(result.uncontrolled_confounders@),
        a.metrics@.len() == 0,
        views(a.evidence_refs@) == views(result.evidence_refs@),
{
    let status = status_from_contract(&result.status);
    let coupling = match result.coupling_evidence_class {
        ResourceCouplingEvidenceClass::IngredientsOnly => "ingredientsonly",
        ResourceCouplingEvidenceClass::CompositeMeasured => "compositemeasured",
        ResourceCouplingEvidenceClass::CouplingNotMeasured => "couplingnotmeasured",
    };
    let payload = CompositePayload {
        source_schema_version: copy_string(&result.schema_version),
        scenario: owned(result.scenario.as_str()),
        coupling_evidence_class: owned(coupling),
        phase_count: result.phases.len(),
        duration_ms: result.duration_ms,
    };
    let mut a = Artifact::new(Kind::Composite, copy_string(&result.result_id), run_id, copy_string(&result.target_id),
        status, payload, crate::ids::now_unix_ms());
    a.bounds = Some(Bounds {
        duration_seconds_max: Some(result.safety.duration_seconds_max),
        notes: copy_all(&result.safety.abort_conditions),
    });
    a.factors = Factors {
        controlled: factor_strings(&result.controlled_factors),
        observed: factor_strings(&result.observed_covariates),
        confounders: copy_all(&result.uncontrolled_confounders),
    };
    a.evidence_refs = copy_all(&result.evidence_refs);
    a
}

/// The lowercase name of an execution mode.
pub open spec fn execution_mode_name(m: crate::contracts::WorkloadExecutionMode) -> Seq<char> {
    match m {
        crate::contracts::WorkloadExecutionMode::Local => "local"@,
        crate::contracts::WorkloadExecutionMode::TargetLocal => "targetlocal"@,
    }
}

/// The lowercase name of a demand scope.
pub open spec fn demand_scope_name(s: crate::contracts::WorkloadDemandScope) -> Seq<char> {
    match s {
        crate::contracts::WorkloadDemandScope::ProcessScoped => "processscoped"@,
        crate::contracts::WorkloadDemandScope::SystemWideOnly => "systemwideonly"@,
    }
}

/// The v2 artifact wrapping a workload demand profile, under the
/// profile's identifier: measured in part (and degraded) when the
/// profile's data quality is degraded, measured (and complete) otherwise.
pub fn workload_artifact_v2(profile: crate::workload::WorkloadDemandProfile) -> (a: Artifact<WorkloadPayload>)
    ensures
        a.kind == Kind::Workload,
        a.id@ == profile.profile_id@,
        a.run_id@ == profile.run_id@,
        a.target_id@ == profile.target_id@,
        a.status == (if profile.data_quality.degraded { Status::MeasuredPartial } else { Status::Measured }),
        a.payload.source_schema_version@ == profile.schema_version@,
        a.payload.workload_id@ == profile.workload_id@,
        a.payload.execution_mode@ == execution_mode_name(profile.execution_mode),
        a.payload.demand_scope@ == demand_scope_name(profile.demand_scope),
        a.payload.degraded_data_quality == profile.data_quality.degraded,
        a.data_quality.level == (if profile.data_quality.degraded {
            crate::evidence::envelope::DataQualityLevel::Degraded
        } else {
            crate::evidence::envelope::DataQualityLevel::Complete
        }),
        views(a.data_quality.notes@) == views(profile.data_quality.notes@),
        views(a.evidence_refs@) == views(profile.evidence_refs@),
{
    let degraded = profile.data_quality.degraded;
    let mode = match profile.execution_mode {
        crate::contracts::WorkloadExecutionMode::Local => "local",
        crate::contracts::WorkloadExecutionMode::TargetLocal => "targetlocal",
    };
    let scope = match profile.demand_scope {
        crate::contracts::WorkloadDemandScope::ProcessScoped => "processscoped",
        crate::contracts::WorkloadDemandScope::SystemWideOnly => "systemwideonly",
    };
    let payload = WorkloadPayload {
        source_schema_version: profile.schema_version,
        workload_id: profile.workload_id,
        execution_mode: owned(mode),
        demand_scope: owned(scope),
        degraded_data_quality: degraded,
    };
    let mut a = Artifact::new(Kind::Workload, profile.profile_id, profile.run_id, profile.target_id,
        if degraded { Status::MeasuredPartial } else { Status::Measured }, payload, crate::ids::now_unix_ms());
    a.data_quality = crate::evidence::envelope::DataQuality {
        level: if degraded {
            crate::evidence::envelope::DataQualityLevel::Degraded
        } else {
            crate::evidence::envelope::DataQualityLevel::Complete
        },
        notes: profile.data_quality.notes,
    };
    a.evidence_refs = profile.evidence_refs;
    a
}

} // verus!
