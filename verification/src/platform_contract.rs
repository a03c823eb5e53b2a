//! Bounded resource-pressure probes: their options and limits, the labels of
//! their kinds, the results they report and the decisions those results
//! rest on.  Measured quantities are carried in thousandths of their unit.

use crate::contracts::{
    CompositeBoundaryScenario, ContractEvidenceGap, ContractEvidenceStatus, ContractFactor, NetworkPressureEvidence,
    NetworkPressureMode, PressureCondition, PressureEffect, PressureIntensity, PressureSafety,
    ResourceCouplingEvidenceClass, ResourcePressureEvidenceClass, ResourcePressureKind,
};
use crate::error::{LabError, LabResult};
use crate::load::refused_as;
use crate::procfs::{all_digits, digits_value, is_digit, line_key, line_value, parse_u64, parse_u64_spec, split_whitespace, strip_colons_str, words};
use crate::run_validation::{split_chars, split_on, trim, trim_str};
use crate::text::{concat, copy_all, decimal, decimal_string, digit_char, digit_str, owned, owned_all, starts_with, str_eq, str_views, views};
use vstd::prelude::*;

verus! {

pub const MAX_PRESSURE_DURATION_SECONDS: u64 = 30;
pub const MAX_PRESSURE_MEMORY_BYTES: u64 = 134217728;
pub const MAX_PRESSURE_STORAGE_BYTES: u64 = 67108864;
pub const MAX_PRESSURE_NETWORK_BYTES: u64 = 1048576;

/// The label of a pressure kind.
pub open spec fn pressure_kind_label(kind: ResourcePressureKind) -> Seq<char> {
    match kind {
        ResourcePressureKind::MemoryPressure => "memory_pressure"@,
        ResourcePressureKind::StorageIo => "storage_io"@,
        ResourcePressureKind::NetworkIo => "network_io"@,
        ResourcePressureKind::LatencyJitter => "latency_jitter"@,
        ResourcePressureKind::CpuPressure => "cpu_pressure"@,
        ResourcePressureKind::ThermalPressure => "thermal_pressure"@,
        ResourcePressureKind::ObserverPressure => "observer_pressure"@,
    }
}

impl ResourcePressureKind {
    /// The kind's label.
    pub fn as_str(&self) -> (s: &'static str)
        ensures
            s@ == pressure_kind_label(*self),
    {
        match self {
            ResourcePressureKind::MemoryPressure => "memory_pressure",
            ResourcePressureKind::StorageIo => "storage_io",
            ResourcePressureKind::NetworkIo => "network_io",
            ResourcePressureKind::LatencyJitter => "latency_jitter",
            ResourcePressureKind::CpuPressure => "cpu_pressure",
            ResourcePressureKind::ThermalPressure => "thermal_pressure",
            ResourcePressureKind::ObserverPressure => "observer_pressure",
        }
    }

    /// The kind with the given label; any other text is refused.
    pub fn from_str(value: &str) -> (r: LabResult<ResourcePressureKind>)
        ensures
            match r {
                Ok(k) => pressure_kind_label(k) == value@,
                Err(e) => (forall|k: ResourcePressureKind| pressure_kind_label(k) != value@)
                    && (e matches LabError::Validation(m) && m@ == "unknown pressure kind "@ + value@),
            },
    {
        if str_eq(value, "memory_pressure") {
            Ok(ResourcePressureKind::MemoryPressure)
        } else if str_eq(value, "storage_io") {
            Ok(ResourcePressureKind::StorageIo)
        } else if str_eq(value, "network_io") {
            Ok(ResourcePressureKind::NetworkIo)
        } else if str_eq(value, "latency_jitter") {
            Ok(ResourcePressureKind::LatencyJitter)
        } else if str_eq(value, "cpu_pressure") {
            Ok(ResourcePressureKind::CpuPressure)
        } else if str_eq(value, "thermal_pressure") {
            Ok(ResourcePressureKind::ThermalPressure)
        } else if str_eq(value, "observer_pressure") {
            Ok(ResourcePressureKind::ObserverPressure)
        } else {
            Err(LabError::Validation(concat("unknown pressure kind ", value)))
        }
    }
}

/// The label of a composite scenario.
pub open spec fn scenario_label(scenario: CompositeBoundaryScenario) -> Seq<char> {
    match scenario {
        CompositeBoundaryScenario::MemoryStorageJitter => "memory_storage_jitter"@,
    }
}

impl CompositeBoundaryScenario {
    /// The scenario's label.
    pub fn as_str(&self) -> (s: &'static str)
        ensures
            s@ == scenario_label(*self),
    {
        match self {
            CompositeBoundaryScenario::MemoryStorageJitter => "memory_storage_jitter",
        }
    }

    /// The scenario with the given label; any other text is refused.
    pub fn from_str(value: &str) -> (r: LabResult<CompositeBoundaryScenario>)
        ensures
            match r {
                Ok(s) => scenario_label(s) == value@,
                Err(e) => value@ != "memory_storage_jitter"@
                    && (e matches LabError::Validation(m) && m@ == "unknown composite scenario "@ + value@),
            },
    {
        if str_eq(value, "memory_storage_jitter") {
            Ok(CompositeBoundaryScenario::MemoryStorageJitter)
        } else {
            Err(LabError::Validation(concat("unknown composite scenario ", value)))
        }
    }
}

/// The label of a network pressure mode.
pub open spec fn network_mode_spec(mode: NetworkPressureMode) -> Seq<char> {
    match mode {
        NetworkPressureMode::CounterOnly => "counter_only"@,
        NetworkPressureMode::EndpointAttempt => "endpoint_attempt"@,
        NetworkPressureMode::BoundedTransfer => "bounded_transfer"@,
    }
}

/// The label of a network pressure mode.
pub fn network_mode_label(mode: &NetworkPressureMode) -> (s: &'static str)
    ensures
        s@ == network_mode_spec(*mode),
{
    match mode {
        NetworkPressureMode::CounterOnly => "counter_only",
        NetworkPressureMode::EndpointAttempt => "endpoint_attempt",
        NetworkPressureMode::BoundedTransfer => "bounded_transfer",
    }
}

/// The options of a pressure probe.  The duration is whole seconds plus
/// nanoseconds; a thermal abort threshold is in thousandths of a degree.
#[derive(Debug, Clone)]
pub struct PressureProbeOptions {
    pub duration_secs: u64,
    pub duration_nanos: u32,
    pub workers: usize,
    pub abort_temp_millicelsius: Option<i64>,
    pub memory_bytes: u64,
    pub storage_bytes: u64,
    pub network_bytes: u64,
    pub network_endpoint: Option<String>,
    pub storage_dir: Option<String>,
}

impl Default for PressureProbeOptions {
    /// One second, one worker, 8 MiB of memory, 1 MiB of storage, no network.
    fn default() -> (o: Self)
        ensures
            o.duration_secs == 1,
            o.duration_nanos == 0,
            o.workers == 1,
            o.abort_temp_millicelsius is None,
            o.memory_bytes == 8388608,
            o.storage_bytes == 1048576,
            o.network_bytes == 0,
            o.network_endpoint is None,
            o.storage_dir is None,
    {
        PressureProbeOptions {
            duration_secs: 1,
            duration_nanos: 0,
            workers: 1,
            abort_temp_millicelsius: None,
            memory_bytes: 8388608,
            storage_bytes: 1048576,
            network_bytes: 0,
            network_endpoint: None,
            storage_dir: None,
        }
    }
}

/// The whole seconds of a probe's duration, counted as at least one.
pub open spec fn duration_seconds_at_least_one(options: PressureProbeOptions) -> u64 {
    if options.duration_secs == 0 { 1 } else { options.duration_secs }
}

/// The first limit that the options exceed, as `(is a policy refusal,
/// message)`; none when all are within the limits.
pub open spec fn pressure_options_error(options: PressureProbeOptions) -> Option<(bool, Seq<char>)> {
    if duration_seconds_at_least_one(options) > MAX_PRESSURE_DURATION_SECONDS {
        Some((true, "pressure duration must be <= 30s"@))
    } else if options.memory_bytes > MAX_PRESSURE_MEMORY_BYTES {
        Some((true, "pressure memory bytes must be <= 134217728"@))
    } else if options.storage_bytes > MAX_PRESSURE_STORAGE_BYTES {
        Some((true, "pressure storage bytes must be <= 67108864"@))
    } else if options.network_bytes > MAX_PRESSURE_NETWORK_BYTES {
        Some((true, "pressure network bytes must be <= 1048576"@))
    } else if options.workers == 0 {
        Some((false, "workers must be >= 1"@))
    } else {
        None
    }
}

/// Checks a probe's options against the pressure limits.
pub fn validate_pressure_options(options: &PressureProbeOptions) -> (r: LabResult<()>)
    ensures
        match pressure_options_error(*options) {
            None => r is Ok,
            Some(f) => r matches Err(e) && refused_as(e, f),
        },
{
    let duration_seconds = if options.duration_secs == 0 { 1 } else { options.duration_secs };
    if duration_seconds > MAX_PRESSURE_DURATION_SECONDS {
        return Err(LabError::Policy(owned("pressure duration must be <= 30s")));
    }
    if options.memory_bytes > MAX_PRESSURE_MEMORY_BYTES {
        return Err(LabError::Policy(owned("pressure memory bytes must be <= 134217728")));
    }
    if options.storage_bytes > MAX_PRESSURE_STORAGE_BYTES {
        return Err(LabError::Policy(owned("pressure storage bytes must be <= 67108864")));
    }
    if options.network_bytes > MAX_PRESSURE_NETWORK_BYTES {
        return Err(LabError::Policy(owned("pressure network bytes must be <= 1048576")));
    }
    if options.workers == 0 {
        return Err(LabError::Validation(owned("workers must be >= 1")));
    }
    Ok(())
}

/// A measured quantity of a probe, in thousandths of its unit; none when it
/// could not be measured.
#[derive(Debug, Clone, PartialEq, Eq)]
pub struct ResourceMetric {
    pub metric_id: String,
    pub value_milli: Option<i64>,
    pub unit: String,
    pub note: Option<String>,
}

/// What a probe did to a resource other than the one it pressed.
#[derive(Debug, Clone, PartialEq, Eq)]
pub struct ResourceSideEffect {
    pub resource: String,
    pub status: ContractEvidenceStatus,
    pub summary: String,
    pub metrics: Vec<ResourceMetric>,
}

/// The result of one bounded pressure probe.
#[derive(Debug, Clone, PartialEq, Eq)]
pub struct ResourcePressureResult {
    pub schema_version: String,
    pub result_id: String,
    pub target_id: String,
    pub pressure_kind: ResourcePressureKind,
    pub status: ContractEvidenceStatus,
    pub evidence_class: ResourcePressureEvidenceClass,
    pub intensity: PressureIntensity,
    pub pressure_effect: PressureEffect,
    pub network_evidence: Option<NetworkPressureEvidence>,
    pub condition: PressureCondition,
    pub duration_ms: u64,
    pub controlled_factors: Vec<ContractFactor>,
    pub observed_covariates: Vec<ContractFactor>,
    pub uncontrolled_confounders: Vec<String>,
    pub metrics: Vec<ResourceMetric>,
    pub side_effects: Vec<ResourceSideEffect>,
    pub safety: PressureSafety,
    pub evidence_refs: Vec<String>,
    pub claim_supported: Vec<String>,
    pub claim_blocked: Vec<String>,
    pub next_evidence_needed: Vec<ContractEvidenceGap>,
    pub time_unix_ms: u64,
}

/// One phase of a composite probe.
#[derive(Debug, Clone, PartialEq, Eq)]
pub struct CompositeBoundaryPhase {
    pub phase_id: String,
    pub pressure_kind: String,
    pub status: ContractEvidenceStatus,
    pub summary: String,
    pub metrics: Vec<ResourceMetric>,
}

/// The result of a composite probe that presses several resources in turn.
#[derive(Debug, Clone, PartialEq, Eq)]
pub struct CompositeBoundaryResult {
    pub schema_version: String,
    pub result_id: String,
    pub target_id: String,
    pub scenario: CompositeBoundaryScenario,
    pub status: ContractEvidenceStatus,
    pub coupling_evidence_class: ResourceCouplingEvidenceClass,
    pub duration_ms: u64,
    pub controlled_factors: Vec<ContractFactor>,
    pub observed_covariates: Vec<ContractFactor>,
    pub uncontrolled_confounders: Vec<String>,
    pub phases: Vec<CompositeBoundaryPhase>,
    pub safety: PressureSafety,
    pub evidence_refs: Vec<String>,
    pub claim_supported: Vec<String>,
    pub claim_blocked: Vec<String>,
    pub next_evidence_needed: Vec<ContractEvidenceGap>,
    pub time_unix_ms: u64,
}

/// A metric with the given name, value, unit and note.
pub fn metric(metric_id: &str, value_milli: Option<i64>, unit: &str, note: Option<String>) -> (m: ResourceMetric)
    ensures
        m.metric_id@ == metric_id@,
        m.value_milli == value_milli,
        m.unit@ == unit@,
        m.note == note,
{
    ResourceMetric { metric_id: owned(metric_id), value_milli, unit: owned(unit), note }
}

/// The value of the first metric with the given name.
pub open spec fn metric_value_spec(metrics: Seq<ResourceMetric>, metric_id: Seq<char>) -> Option<i64>
    decreases metrics.len(),
{
    if metrics.len() == 0 {
        None
    } else if metrics[0].metric_id@ == metric_id {
        metrics[0].value_milli
    } else {
        metric_value_spec(metrics.drop_first(), metric_id)
    }
}

/// The value of the first metric with the given name; none when no metric
/// has it or the first that has it holds no value.
pub fn metric_value(metrics: &Vec<ResourceMetric>, metric_id: &str) -> (v: Option<i64>)
    ensures
        v == metric_value_spec(metrics@, metric_id@),
{
    let mut i: usize = 0;
    assert(metrics@.subrange(0, metrics@.len() as int) =~= metrics@);
    while i < metrics.len()
        invariant
            i <= metrics@.len(),
            metric_value_spec(metrics@, metric_id@) == metric_value_spec(metrics@.subrange(i as int, metrics@.len() as int), metric_id@),
        decreases metrics.len() - i,
    {
        let ghost rest = metrics@.subrange(i as int, metrics@.len() as int);
        assert(rest.drop_first() =~= metrics@.subrange(i + 1, metrics@.len() as int));
        if str_eq(metrics[i].metric_id.as_str(), metric_id) {
            return metrics[i].value_milli;
        }
        i = i + 1;
    }
    None
}

/// A factor with the given name and value.
pub fn factor(factor_id: &str, value: String) -> (f: ContractFactor)
    ensures
        f.factor_id@ == factor_id@,
        f.value@ == value@,
{
    ContractFactor { factor_id: owned(factor_id), value }
}

/// A side effect on `resource`.
pub fn side_effect(resource: &str, status: ContractEvidenceStatus, summary: &str, metrics: Vec<ResourceMetric>)
    -> (e: ResourceSideEffect)
    ensures
        e.resource@ == resource@,
        e.status == status,
        e.summary@ == summary@,
        e.metrics == metrics,
{
    ResourceSideEffect { resource: owned(resource), status, summary: owned(summary), metrics }
}

/// An evidence gap: why a claim is blocked and what would close it.
pub fn evidence_gap(
    reason: &str,
    needed_probe: &str,
    blocking_missing_evidence: &Vec<&str>,
    next_action: &str,
    owner_surface: &str,
) -> (g: ContractEvidenceGap)
    ensures
        g.reason@ == reason@,
        g.needed_probe@ == needed_probe@,
        views(g.blocking_missing_evidence@) == str_views(blocking_missing_evidence@),
        g.next_action@ == next_action@,
        g.owner_surface@ == owner_surface@,
{
    ContractEvidenceGap {
        reason: owned(reason),
        needed_probe: owned(needed_probe),
        blocking_missing_evidence: owned_all(blocking_missing_evidence),
        next_action: owned(next_action),
        owner_surface: owned(owner_surface),
    }
}

/// The abort conditions every single-kind probe runs under.
pub open spec fn probe_abort_conditions() -> Seq<Seq<char>> {
    seq!["duration ceiling"@, "operator can terminate adc-lab command"@, "thermal abort when configured"@]
}

/// The safety record of a probe run with `options`.
pub fn safety(options: &PressureProbeOptions, cleanup_verified: bool, cleanup: Vec<String>) -> (s: PressureSafety)
    ensures
        s.duration_seconds_max == duration_seconds_at_least_one(*options),
        s.memory_bytes_max == options.memory_bytes,
        s.storage_bytes_max == options.storage_bytes,
        s.network_bytes_max == options.network_bytes,
        views(s.abort_conditions@) == probe_abort_conditions(),
        s.cleanup == cleanup,
        s.cleanup_verified == cleanup_verified,
{
    let conditions = owned_all(&crate::text::strs3(
        "duration ceiling",
        "operator can terminate adc-lab command",
        "thermal abort when configured",
    ));
    proof {
        assert(views(conditions@) =~= probe_abort_conditions());
    }
    PressureSafety {
        duration_seconds_max: if options.duration_secs == 0 { 1 } else { options.duration_secs },
        memory_bytes_max: options.memory_bytes,
        storage_bytes_max: options.storage_bytes,
        network_bytes_max: options.network_bytes,
        abort_conditions: conditions,
        cleanup,
        cleanup_verified,
    }
}

/// The gap recorded for a blocked claim of a single-kind probe.
pub open spec fn blocked_claim_gap(gap: ContractEvidenceGap, claim: Seq<char>) -> bool {
    &&& gap.reason@ == claim
    &&& gap.needed_probe@ == "target-specific pressure or boundary probe"@
    &&& views(gap.blocking_missing_evidence@) == seq![claim]
    &&& gap.next_action@ == "collect bounded target evidence before allowing this claim"@
    &&& gap.owner_surface@ == "adc-lab"@
}

/// The identity of a probe's result: a new `PRESSURE-` identifier, its
/// target, kind, status and duration, the condition naming the kind, the
/// governor seen and the duration, and one evidence gap per blocked claim.
pub open spec fn result_identity(
    r: ResourcePressureResult,
    target_id: Seq<char>,
    kind: ResourcePressureKind,
    status: ContractEvidenceStatus,
    duration_ms: u64,
    governor: Option<String>,
    claim_blocked: Seq<Seq<char>>,
) -> bool {
    &&& r.schema_version@ == "lab.resource_pressure_result.v1"@
    &&& exists|n: nat| r.result_id@ == "PRESSURE-"@ + decimal(n)
    &&& r.target_id@ == target_id
    &&& r.pressure_kind == kind
    &&& r.status == status
    &&& r.condition.governor == governor
    &&& r.condition.duration@ == decimal(duration_ms as nat) + "ms"@
    &&& r.duration_ms == duration_ms
    &&& r.evidence_refs@.len() == 0
    &&& views(r.claim_blocked@) == claim_blocked
    &&& r.next_evidence_needed@.len() == claim_blocked.len()
    &&& forall|i: int| 0 <= i < claim_blocked.len()
        ==> blocked_claim_gap(#[trigger] r.next_evidence_needed@[i], claim_blocked[i])
}

/// The result of a probe as first assembled: a smoke-class result with no
/// observed effect, its intensity the duration.
pub open spec fn assembled_result(
    r: ResourcePressureResult,
    target_id: Seq<char>,
    kind: ResourcePressureKind,
    status: ContractEvidenceStatus,
    duration_ms: u64,
    governor: Option<String>,
    claim_blocked: Seq<Seq<char>>,
) -> bool {
    &&& result_identity(r, target_id, kind, status, duration_ms, governor, claim_blocked)
    &&& r.condition.pressure_kind@ == pressure_kind_label(kind)
    &&& r.evidence_class == ResourcePressureEvidenceClass::Smoke
    &&& r.intensity.requested@ == decimal(duration_ms as nat) + "ms"@
    &&& r.intensity.relative_to_target@ == "not normalized to target capacity"@
    &&& !r.intensity.pressure_effect_observed
    &&& !r.pressure_effect.observed
    &&& r.pressure_effect.basis@.len() == 0
    &&& r.network_evidence is None
    &&& r.condition.workers is None
}

fn blocked_claim_gaps(claim_blocked: &Vec<String>) -> (gaps: Vec<ContractEvidenceGap>)
    ensures
        gaps@.len() == claim_blocked@.len(),
        forall|i: int| 0 <= i < claim_blocked@.len() ==> blocked_claim_gap(#[trigger] gaps@[i], claim_blocked@[i]@),
{
    let mut gaps: Vec<ContractEvidenceGap> = Vec::new();
    let mut i: usize = 0;
    while i < claim_blocked.len()
        invariant
            i <= claim_blocked@.len(),
            gaps@.len() == i,
            forall|k: int| 0 <= k < i ==> blocked_claim_gap(#[trigger] gaps@[k], claim_blocked@[k]@),
        decreases claim_blocked.len() - i,
    {
        let claim = claim_blocked[i].as_str();
        let blocking: Vec<&str> = vec![claim];
        let gap = evidence_gap(
            claim,
            "target-specific pressure or boundary probe",
            &blocking,
            "collect bounded target evidence before allowing this claim",
            "adc-lab",
        );
        proof {
            assert(str_views(blocking@) =~= seq![claim@]);
        }
        gaps.push(gap);
        i = i + 1;
    }
    gaps
}

/// Assembles a probe's result: stamped with a new `PRESSURE-` identifier and
/// the current time, the condition naming the kind, the governor seen and
/// the duration, and an evidence gap for each blocked claim.
pub fn result(
    target_id: String,
    pressure_kind: ResourcePressureKind,
    status: ContractEvidenceStatus,
    duration_ms: u64,
    governor: Option<String>,
    controlled_factors: Vec<ContractFactor>,
    observed_covariates: Vec<ContractFactor>,
    uncontrolled_confounders: Vec<String>,
    metrics: Vec<ResourceMetric>,
    side_effects: Vec<ResourceSideEffect>,
    safety: PressureSafety,
    claim_supported: Vec<String>,
    claim_blocked: Vec<String>,
) -> (r: ResourcePressureResult)
    ensures
        assembled_result(r, target_id@, pressure_kind, status, duration_ms, governor, views(claim_blocked@)),
        r.controlled_factors == controlled_factors,
        r.observed_covariates == observed_covariates,
        r.uncontrolled_confounders == uncontrolled_confounders,
        r.metrics == metrics,
        r.side_effects == side_effects,
        r.safety == safety,
        r.claim_supported == claim_supported,
{
    let digits = decimal_string(duration_ms);
    let duration_label = concat(digits.as_str(), "ms");
    let next_evidence_needed = blocked_claim_gaps(&claim_blocked);
    let result_id = crate::ids::new_id("PRESSURE");
    proof {
        reveal_strlit("PRESSURE");
        reveal_strlit("-");
        reveal_strlit("PRESSURE-");
        assert("PRESSURE"@ + seq!['-'] =~= "PRESSURE-"@);
    }
    let label = owned(pressure_kind.as_str());
    ResourcePressureResult {
        schema_version: owned("lab.resource_pressure_result.v1"),
        result_id,
        target_id,
        pressure_kind,
        status,
        evidence_class: ResourcePressureEvidenceClass::Smoke,
        intensity: PressureIntensity {
            requested: owned(duration_label.as_str()),
            relative_to_target: owned("not normalized to target capacity"),
            pressure_effect_observed: false,
        },
        pressure_effect: PressureEffect { observed: false, basis: Vec::new() },
        network_evidence: None,
        condition: PressureCondition { pressure_kind: label, governor, workers: None, duration: duration_label },
        duration_ms,
        controlled_factors,
        observed_covariates,
        uncontrolled_confounders,
        metrics,
        side_effects,
        safety,
        evidence_refs: Vec::new(),
        claim_supported,
        claim_blocked,
        next_evidence_needed,
        time_unix_ms: crate::ids::now_unix_ms(),
    }
}

/// The entry of one line of a `/proc` key/value text: its first word without
/// trailing colons and its second word as a number, when it has both.
pub open spec fn key_value_line(line: Seq<char>) -> Option<(Seq<char>, u64)> {
    let w = words(line);
    match line_value(w) {
        Some(v) => Some((line_key(w), v)),
        None => None,
    }
}

/// The entries of the lines of a `/proc` key/value text, in order.
pub open spec fn key_value_entries(lines: Seq<Seq<char>>) -> Seq<(Seq<char>, u64)>
    decreases lines.len(),
{
    if lines.len() == 0 {
        Seq::empty()
    } else {
        let prev = key_value_entries(lines.drop_last());
        match key_value_line(lines.last()) {
            Some(e) => prev.push(e),
            None => prev,
        }
    }
}

/// Views of key/value entries.
pub open spec fn entry_views(v: Seq<(String, u64)>) -> Seq<(Seq<char>, u64)> {
    v.map_values(|e: (String, u64)| (e.0@, e.1))
}

/// The entries of a `/proc` key/value text such as `meminfo` or `vmstat`,
/// in the order of its lines.
pub fn parse_proc_key_values(text: &str) -> (entries: Vec<(String, u64)>)
    ensures
        entry_views(entries@) == key_value_entries(split_on(text@, '\n')),
{
    let lines = split_chars(text, '\n');
    let mut entries: Vec<(String, u64)> = Vec::new();
    let mut i: usize = 0;
    while i < lines.len()
        invariant
            i <= lines@.len(),
            views(lines@) == split_on(text@, '\n'),
            entry_views(entries@) == key_value_entries(views(lines@).take(i as int)),
        decreases lines.len() - i,
    {
        let ghost prev = entries@;
        proof {
            assert(views(lines@).take(i + 1).drop_last() =~= views(lines@).take(i as int));
        }
        let w = split_whitespace(lines[i].as_str());
        if w.len() > 1 {
            match parse_u64(w[1].as_str()) {
                Some(v) => {
                    let key = strip_colons_str(w[0].as_str());
                    entries.push((owned(key), v));
                    proof {
                        assert(entries@ == prev.push(entries@.last()));
                        assert(entry_views(entries@) =~= entry_views(prev).push((line_key(views(w@)), v)));
                    }
                },
                None => {},
            }
        }
        i = i + 1;
    }
    proof {
        assert(views(lines@).take(lines@.len() as int) =~= views(lines@));
    }
    entries
}

/// The value of `key` in key/value entries: the last entry with it wins.
pub open spec fn entry_value(entries: Seq<(Seq<char>, u64)>, key: Seq<char>) -> Option<u64>
    decreases entries.len(),
{
    if entries.len() == 0 {
        None
    } else if entries.last().0 == key {
        Some(entries.last().1)
    } else {
        entry_value(entries.drop_last(), key)
    }
}

/// The value of `key` in key/value entries; the last entry with it wins.
pub fn key_value(entries: &Vec<(String, u64)>, key: &str) -> (v: Option<u64>)
    ensures
        v == entry_value(entry_views(entries@), key@),
{
    let mut i: usize = entries.len();
    assert(entry_views(entries@).take(entries@.len() as int) =~= entry_views(entries@));
    while i > 0
        invariant
            i <= entries@.len(),
            entry_value(entry_views(entries@), key@) == entry_value(entry_views(entries@).take(i as int), key@),
        decreases i,
    {
        proof {
            assert(entry_views(entries@).take(i as int).drop_last() =~= entry_views(entries@).take(i - 1));
        }
        if str_eq(entries[i - 1].0.as_str(), key) {
            return Some(entries[i - 1].1);
        }
        i = i - 1;
    }
    None
}

/// The entries of a `/proc/meminfo` text.
pub fn meminfo_values(text: &str) -> (entries: Vec<(String, u64)>)
    ensures
        entry_views(entries@) == key_value_entries(split_on(text@, '\n')),
{
    parse_proc_key_values(text)
}

/// The entries of a `/proc/vmstat` text.
pub fn vmstat_values(text: &str) -> (entries: Vec<(String, u64)>)
    ensures
        entry_views(entries@) == key_value_entries(split_on(text@, '\n')),
{
    parse_proc_key_values(text)
}

/// `a + b`, held at `u64::MAX`.
pub open spec fn sat_add(a: u64, b: u64) -> u64 {
    if a + b > u64::MAX { u64::MAX } else { (a + b) as u64 }
}

/// A word of a line as a number, zero when it is not one.
pub open spec fn number_or_zero(w: Seq<Seq<char>>, i: int) -> u64 {
    match parse_u64_spec(w[i]) {
        Some(v) => v,
        None => 0,
    }
}

/// Whether a `/proc/diskstats` line counts: it has at least 14 words and
/// names no loop or RAM device.
pub open spec fn disk_line_counts(w: Seq<Seq<char>>) -> bool {
    w.len() >= 14 && !crate::text::is_prefix("loop"@, w[2]) && !crate::text::is_prefix("ram"@, w[2])
}

/// The sectors read and written over the counted lines of `/proc/diskstats`,
/// each sum held at `u64::MAX`.
pub open spec fn diskstats_sum(lines: Seq<Seq<char>>) -> (u64, u64)
    decreases lines.len(),
{
    if lines.len() == 0 {
        (0, 0)
    } else {
        let prev = diskstats_sum(lines.drop_last());
        let w = words(lines.last());
        if disk_line_counts(w) {
            (sat_add(prev.0, number_or_zero(w, 5)), sat_add(prev.1, number_or_zero(w, 9)))
        } else {
            prev
        }
    }
}

fn word_number(w: &Vec<String>, i: usize) -> (v: u64)
    requires
        i < w@.len(),
    ensures
        v == number_or_zero(views(w@), i as int),
{
    match parse_u64(w[i].as_str()) {
        Some(v) => v,
        None => 0,
    }
}

/// The sectors read and written by the block devices of a `/proc/diskstats`
/// text, loop and RAM devices left out.
pub fn diskstats_totals(text: &str) -> (totals: (u64, u64))
    ensures
        totals == diskstats_sum(split_on(text@, '\n')),
{
    let lines = split_chars(text, '\n');
    let mut read_sectors: u64 = 0;
    let mut written_sectors: u64 = 0;
    let mut i: usize = 0;
    while i < lines.len()
        invariant
            i <= lines@.len(),
            views(lines@) == split_on(text@, '\n'),
            (read_sectors, written_sectors) == diskstats_sum(views(lines@).take(i as int)),
        decreases lines.len() - i,
    {
        proof {
            assert(views(lines@).take(i + 1).drop_last() =~= views(lines@).take(i as int));
        }
        let w = split_whitespace(lines[i].as_str());
        if w.len() >= 14 && !starts_with(w[2].as_str(), "loop") && !starts_with(w[2].as_str(), "ram") {
            read_sectors = read_sectors.saturating_add(word_number(&w, 5));
            written_sectors = written_sectors.saturating_add(word_number(&w, 9));
        }
        i = i + 1;
    }
    proof {
        assert(views(lines@).take(lines@.len() as int) =~= views(lines@));
    }
    (read_sectors, written_sectors)
}

/// The position of the first `c` in `s`.
pub open spec fn first_index(s: Seq<char>, c: char) -> Option<int> {
    if exists|i: int| 0 <= i < s.len() && s[i] == c {
        Some(choose|i: int| 0 <= i < s.len() && s[i] == c && forall|j: int| 0 <= j < i ==> s[j] != c)
    } else {
        None
    }
}

fn find_char(s: &str, c: char) -> (r: Option<usize>)
    ensures
        match r {
            Some(i) => i < s@.len() && s@[i as int] == c && forall|j: int| 0 <= j < i ==> s@[j] != c,
            None => forall|j: int| 0 <= j < s@.len() ==> s@[j] != c,
        },
{
    let n = s.unicode_len();
    let mut i: usize = 0;
    while i < n
        invariant
            n == s@.len(),
            i <= n,
            forall|j: int| 0 <= j < i ==> s@[j] != c,
        decreases n - i,
    {
        if s.get_char(i) == c {
            return Some(i);
        }
        i = i + 1;
    }
    None
}

/// The interface name and counters of a `/proc/net/dev` line: the text
/// before and after its first colon.
pub open spec fn netdev_split(line: Seq<char>) -> Option<(Seq<char>, Seq<char>)> {
    if exists|i: int| 0 <= i < line.len() && line[i] == ':' {
        let i = choose|i: int| 0 <= i < line.len() && line[i] == ':' && forall|j: int| 0 <= j < i ==> line[j] != ':';
        Some((line.subrange(0, i), line.subrange(i + 1, line.len() as int)))
    } else {
        None
    }
}

/// Whether a `/proc/net/dev` line counts: it has a colon, names no loopback
/// interface and has at least 16 counters.
pub open spec fn net_line_counts(line: Seq<char>) -> bool {
    match netdev_split(line) {
        Some((iface, data)) => trim(iface) != "lo"@ && words(data).len() >= 16,
        None => false,
    }
}

/// The bytes received and sent over the counted interface lines of
/// `/proc/net/dev` (its two header lines skipped), each sum held at
/// `u64::MAX`.
pub open spec fn netdev_sum(lines: Seq<Seq<char>>) -> (u64, u64)
    decreases lines.len(),
{
    if lines.len() <= 2 {
        (0, 0)
    } else {
        let prev = netdev_sum(lines.drop_last());
        let line = lines.last();
        if net_line_counts(line) {
            let w = words(netdev_split(line).unwrap().1);
            (sat_add(prev.0, number_or_zero(w, 0)), sat_add(prev.1, number_or_zero(w, 8)))
        } else {
            prev
        }
    }
}

/// The bytes received and sent by the interfaces of a `/proc/net/dev`
/// text, loopback left out.
pub fn netdev_totals(text: &str) -> (totals: (u64, u64))
    ensures
        totals == netdev_sum(split_on(text@, '\n')),
{
    let lines = split_chars(text, '\n');
    let mut rx: u64 = 0;
    let mut tx: u64 = 0;
    let mut i: usize = 0;
    while i < lines.len()
        invariant
            i <= lines@.len(),
            views(lines@) == split_on(text@, '\n'),
            (rx, tx) == netdev_sum(views(lines@).take(i as int)),
        decreases lines.len() - i,
    {
        proof {
            assert(views(lines@).take(i + 1).drop_last() =~= views(lines@).take(i as int));
        }
        if i >= 2 {
            let line = lines[i].as_str();
            let n = line.unicode_len();
            match find_char(line, ':') {
                Some(k) => {
                    let iface = line.substring_char(0, k);
                    let data = line.substring_char(k + 1, n);
                    let ghost lv = line@;
                    proof {
                        assert(exists|j: int| 0 <= j < lv.len() && lv[j] == ':');
                        let c = choose|j: int| 0 <= j < lv.len() && lv[j] == ':' && forall|m: int| 0 <= m < j ==> lv[m] != ':';
                        assert(c == k as int) by {
                            if c < k { } else if c > k { }
                        }
                        assert(netdev_split(lv) == Some((iface@, data@)));
                    }
                    let name = trim_str(iface);
                    let values = split_whitespace(data);
                    if !str_eq(name.as_str(), "lo") && values.len() >= 16 {
                        rx = rx.saturating_add(word_number(&values, 0));
                        tx = tx.saturating_add(word_number(&values, 8));
                    }
                },
                None => {
                    proof {
                        assert(!(exists|j: int| 0 <= j < line@.len() && line@[j] == ':'));
                    }
                },
            }
        }
        i = i + 1;
    }
    proof {
        assert(views(lines@).take(lines@.len() as int) =~= views(lines@));
    }
    (rx, tx)
}

/// The change of a counter between two readings, when both were taken.
pub open spec fn delta_spec(before: Option<u64>, after: Option<u64>) -> Option<int> {
    match (before, after) {
        (Some(b), Some(a)) => Some(a - b),
        _ => None,
    }
}

/// The change of a counter between two readings, when both were taken.
pub fn optional_delta_u64(before: Option<u64>, after: Option<u64>) -> (d: Option<i128>)
    ensures
        match d {
            Some(v) => delta_spec(before, after) == Some(v as int),
            None => delta_spec(before, after) is None,
        },
{
    match (before, after) {
        (Some(b), Some(a)) => Some(a as i128 - b as i128),
        _ => None,
    }
}

/// The change between two fixed-point readings, when both were taken.
pub fn optional_delta_milli(before: Option<i64>, after: Option<i64>) -> (d: Option<i128>)
    ensures
        match d {
            Some(v) => before is Some && after is Some && v == after.unwrap() - before.unwrap(),
            None => before is None || after is None,
        },
{
    match (before, after) {
        (Some(b), Some(a)) => Some(a as i128 - b as i128),
        _ => None,
    }
}

/// Whether a change was measured and is above zero.
pub open spec fn positive_spec(d: Option<int>) -> bool {
    match d {
        Some(v) => v > 0,
        None => false,
    }
}

/// Whether a change was measured and is above zero.
pub fn positive_delta(d: Option<i128>) -> (r: bool)
    ensures
        r == (d is Some && d.unwrap() > 0),
{
    match d {
        Some(v) => v > 0,
        None => false,
    }
}

/// A value in thousandths, held within the range of `i64`.
pub open spec fn clamp_i64(v: int) -> i64 {
    if v > i64::MAX { i64::MAX } else if v < i64::MIN { i64::MIN } else { v as i64 }
}

/// A count as a metric value in thousandths, held within `i64`.
pub fn count_milli(n: i128) -> (v: i64)
    requires
        -0x1_0000_0000_0000_0000 <= n <= 0x1_0000_0000_0000_0000,
    ensures
        v == clamp_i64(n * 1000),
{
    let m = n * 1000;
    if m > i64::MAX as i128 {
        i64::MAX
    } else if m < i64::MIN as i128 {
        i64::MIN
    } else {
        m as i64
    }
}

/// A value in thousandths held within the range of `i64`.
pub fn clamp_milli(m: i128) -> (v: i64)
    ensures
        v == clamp_i64(m as int),
{
    if m > i64::MAX as i128 {
        i64::MAX
    } else if m < i64::MIN as i128 {
        i64::MIN
    } else {
        m as i64
    }
}

/// A measured change as a metric value in thousandths.
pub fn delta_metric_value(d: Option<i128>) -> (v: Option<i64>)
    requires
        d is Some ==> -0x1_0000_0000_0000_0000 <= d.unwrap() <= 0x1_0000_0000_0000_0000,
    ensures
        v == (match d { Some(n) => Some(clamp_i64(n * 1000)), None => None::<i64> }),
{
    match d {
        Some(n) => Some(count_milli(n)),
        None => None,
    }
}

/// Three decimal digits of `n` (below 1000), leading zeros kept.
pub open spec fn three_digits(n: int) -> Seq<char> {
    seq![digit_char(n / 100), digit_char((n / 10) % 10), digit_char(n % 10)]
}

/// A value given in thousandths, written with three decimals.
pub open spec fn milli_text(v: int) -> Seq<char> {
    let a = if v < 0 { -v } else { v };
    (if v < 0 { "-"@ } else { Seq::<char>::empty() }) + decimal((a / 1000) as nat) + "."@ + three_digits(a % 1000)
}

/// A value given in thousandths, written with three decimals.
pub fn milli_string(v: i128) -> (s: String)
    requires
        -18446744073709551616000 < v < 18446744073709551616000,
    ensures
        s@ == milli_text(v as int),
{
    let a: i128 = if v < 0 { -v } else { v };
    let whole = (a / 1000) as u128;
    let frac = (a % 1000) as u64;
    proof {
        assert(whole < 0x1_0000_0000_0000_0000) by {
            assert(a < 18446744073709551616000);
        }
    }
    let head = decimal_string(whole as u64);
    let mut s = if v < 0 { concat("-", head.as_str()) } else { head };
    s.append(".");
    s.append(digit_str(frac / 100));
    s.append(digit_str((frac / 10) % 10));
    s.append(digit_str(frac % 10));
    proof {
        reveal_strlit("-");
        reveal_strlit(".");
        assert(s@ =~= milli_text(v as int));
    }
    s
}

/// A measured change written with three decimals, or `unavailable`.
pub open spec fn optional_milli_text(d: Option<int>) -> Seq<char> {
    match d {
        Some(v) => milli_text(v),
        None => "unavailable"@,
    }
}

/// A measured change (a count) written with three decimals, or `unavailable`.
pub fn format_optional_count(d: Option<i128>) -> (s: String)
    requires
        d is Some ==> -0x1_0000_0000_0000_0000 < d.unwrap() < 0x1_0000_0000_0000_0000,
    ensures
        s@ == optional_milli_text(match d { Some(n) => Some(n * 1000), None => None::<int> }),
{
    match d {
        Some(n) => milli_string(n * 1000),
        None => owned("unavailable"),
    }
}

/// A measured value in thousandths written with three decimals, or `unavailable`.
pub fn format_optional_milli(d: Option<i128>) -> (s: String)
    requires
        d is Some ==> -0x1_0000_0000_0000_0000 < d.unwrap() < 0x1_0000_0000_0000_0000,
    ensures
        s@ == optional_milli_text(match d { Some(n) => Some(n as int), None => None::<int> }),
{
    match d {
        Some(n) => milli_string(n),
        None => owned("unavailable"),
    }
}

/// How an allocation compares with the memory of the machine: the share of
/// `MemTotal` (in KiB) it takes, in thousandths of a percent rounded half
/// up; `MemTotal unavailable` when the entry is missing or zero.
pub open spec fn relative_to_memtotal_spec(bytes: u64, mem_total_kb: Option<u64>) -> Seq<char> {
    match mem_total_kb {
        None => "MemTotal unavailable"@,
        Some(kb) => {
            let total = if kb * 1024 > u64::MAX { u64::MAX as int } else { kb * 1024 };
            if total == 0 {
                "MemTotal unavailable"@
            } else {
                milli_text((bytes * 100000 * 2 + total) / (2 * total)) + "% of MemTotal"@
            }
        },
    }
}

/// How an allocation of `bytes` compares with `MemTotal` in `meminfo`.
pub fn bytes_relative_to_memtotal(bytes: u64, meminfo: &Vec<(String, u64)>) -> (s: String)
    ensures
        s@ == relative_to_memtotal_spec(bytes, entry_value(entry_views(meminfo@), "MemTotal"@)),
{
    match key_value(meminfo, "MemTotal") {
        None => owned("MemTotal unavailable"),
        Some(kb) => {
            let total: u64 = if kb > u64::MAX / 1024 { u64::MAX } else { kb * 1024 };
            if total == 0 {
                return owned("MemTotal unavailable");
            }
            let t = total as u128;
            let q = ((bytes as u128) * 200000 + t) / (2 * t);
            proof {
                let b = bytes as int;
                let ti = t as int;
                let qi = q as int;
                assert(b * 200000 <= 0xffff_ffff_ffff_ffff * 200000) by (nonlinear_arith)
                    requires b <= 0xffff_ffff_ffff_ffff;
                assert(qi * (2 * ti) <= b * 200000 + ti) by (nonlinear_arith)
                    requires ti > 0, qi == (b * 200000 + ti) / (2 * ti);
                assert(qi * 2 <= b * 200000 + ti) by (nonlinear_arith)
                    requires ti > 0, qi >= 0, qi * (2 * ti) <= b * 200000 + ti, ti >= 1;
                assert(qi < 18446744073709551616000) by (nonlinear_arith)
                    requires ti >= 1024, qi >= 0, qi * (2 * ti) <= b * 200000 + ti,
                        b <= 0xffff_ffff_ffff_ffff, ti <= 0xffff_ffff_ffff_ffff;
            }
            let text = milli_string(q as i128);
            proof {
                assert(bytes * 100000 * 2 == (bytes as u128) * 200000);
            }
            concat(text.as_str(), "% of MemTotal")
        },
    }
}

/// The thousandths that one to three fraction digits stand for.
pub open spec fn fraction_milli(f: Seq<char>) -> int {
    if f.len() == 1 { digits_value(f) * 100 } else if f.len() == 2 { digits_value(f) * 10 } else { digits_value(f) }
}

/// A decimal number with at most three fraction digits, in thousandths:
/// digits as `str::parse::<u64>` reads them, optionally a point and one to
/// three digits; none for any other text or a whole part above 9e15.
pub open spec fn parse_milli_spec(s: Seq<char>) -> Option<i64> {
    match first_index(s, '.') {
        None => match parse_u64_spec(s) {
            Some(w) => if w <= 9_000_000_000_000_000 { Some((w * 1000) as i64) } else { None },
            None => None,
        },
        Some(i) => {
            let f = s.subrange(i + 1, s.len() as int);
            match parse_u64_spec(s.subrange(0, i)) {
                Some(w) => if w <= 9_000_000_000_000_000 && 1 <= f.len() <= 3 && all_digits(f) {
                    Some((w * 1000 + fraction_milli(f)) as i64)
                } else {
                    None
                },
                None => None,
            }
        },
    }
}

proof fn lemma_first_index(s: Seq<char>, c: char, k: int)
    requires
        0 <= k < s.len(),
        s[k] == c,
        forall|j: int| 0 <= j < k ==> s[j] != c,
    ensures
        first_index(s, c) == Some(k),
{
    let i = choose|i: int| 0 <= i < s.len() && s[i] == c && forall|j: int| 0 <= j < i ==> s[j] != c;
    assert(i == k) by {
        if i < k { assert(s[i] != c); } else if i > k { assert(s[k] != c); }
    }
}

/// Parses a decimal number with at most three fraction digits into
/// thousandths.
pub fn parse_milli(s: &str) -> (r: Option<i64>)
    ensures
        r == parse_milli_spec(s@),
{
    let n = s.unicode_len();
    match find_char(s, '.') {
        None => {
            match parse_u64(s) {
                Some(w) => if w <= 9_000_000_000_000_000 { Some((w * 1000) as i64) } else { None },
                None => None,
            }
        },
        Some(i) => {
            proof {
                lemma_first_index(s@, '.', i as int);
            }
            let whole = s.substring_char(0, i);
            let frac = s.substring_char(i + 1, n);
            let fl = frac.unicode_len();
            match parse_u64(whole) {
                Some(w) => {
                    if w > 9_000_000_000_000_000 || fl < 1 || fl > 3 {
                        return None;
                    }
                    let mut v: u64 = 0;
                    let mut k: usize = 0;
                    while k < fl
                        invariant
                            i < s@.len(),
                            first_index(s@, '.') == Some(i as int),
                            frac@ == s@.subrange(i + 1, s@.len() as int),
                            whole@ == s@.subrange(0, i as int),
                            parse_u64_spec(whole@) == Some(w),
                            w <= 9_000_000_000_000_000,
                            fl == frac@.len(),
                            1 <= fl <= 3,
                            k <= fl,
                            v as int == digits_value(frac@.take(k as int)),
                            k == 0 ==> v < 1,
                            k == 1 ==> v < 10,
                            k == 2 ==> v < 100,
                            k == 3 ==> v < 1000,
                            forall|j: int| 0 <= j < k ==> is_digit(#[trigger] frac@[j]),
                        decreases fl - k,
                    {
                        let c = frac.get_char(k);
                        proof {
                            assert(frac@.take(k + 1).drop_last() =~= frac@.take(k as int));
                        }
                        if !('0' <= c && c <= '9') {
                            proof {
                                assert(!is_digit(frac@[k as int]));
                                assert(!all_digits(frac@));
                            }
                            return None;
                        }
                        let d: u64 = (c as u32 - '0' as u32) as u64;
                        v = v * 10 + d;
                        k = k + 1;
                    }
                    proof {
                        assert(frac@.take(fl as int) =~= frac@);
                    }
                    let scaled: u64 = if fl == 1 { v * 100 } else if fl == 2 { v * 10 } else { v };
                    Some((w * 1000 + scaled) as i64)
                },
                None => None,
            }
        },
    }
}

/// The first line that starts with `some `.
pub open spec fn first_some_line(lines: Seq<Seq<char>>) -> Option<Seq<char>>
    decreases lines.len(),
{
    if lines.len() == 0 {
        None
    } else if crate::text::is_prefix("some "@, lines[0]) {
        Some(lines[0])
    } else {
        first_some_line(lines.drop_first())
    }
}

/// The first `avg10=` value among words that reads as a number.
pub open spec fn first_avg10(ws: Seq<Seq<char>>) -> Option<i64>
    decreases ws.len(),
{
    if ws.len() == 0 {
        None
    } else if crate::text::is_prefix("avg10="@, ws[0]) && parse_milli_spec(ws[0].subrange(6, ws[0].len() as int)) is Some {
        parse_milli_spec(ws[0].subrange(6, ws[0].len() as int))
    } else {
        first_avg10(ws.drop_first())
    }
}

/// The ten-second average of the `some` line of `/proc/pressure/memory`,
/// in thousandths.
pub open spec fn memory_psi_spec(text: Seq<char>) -> Option<i64> {
    match first_some_line(split_on(text, '\n')) {
        Some(line) => first_avg10(words(line)),
        None => None,
    }
}

/// The ten-second average of the `some` line of a `/proc/pressure/memory`
/// text, in thousandths.
pub fn memory_psi_avg10(text: &str) -> (v: Option<i64>)
    ensures
        v == memory_psi_spec(text@),
{
    let lines = split_chars(text, '\n');
    let mut i: usize = 0;
    assert(views(lines@).subrange(0, lines@.len() as int) =~= views(lines@));
    while i < lines.len()
        invariant
            i <= lines@.len(),
            views(lines@) == split_on(text@, '\n'),
            first_some_line(views(lines@)) == first_some_line(views(lines@).subrange(i as int, lines@.len() as int)),
        decreases lines.len() - i,
    {
        let ghost rest = views(lines@).subrange(i as int, lines@.len() as int);
        assert(rest.drop_first() =~= views(lines@).subrange(i + 1, lines@.len() as int));
        if starts_with(lines[i].as_str(), "some ") {
            assert(first_some_line(rest) == Some(lines@[i as int]@));
            let ws = split_whitespace(lines[i].as_str());
            let mut j: usize = 0;
            proof {
                reveal_strlit("avg10=");
                assert(views(ws@).subrange(0, ws@.len() as int) =~= views(ws@));
            }
            while j < ws.len()
                invariant
                    j <= ws@.len(),
                    "avg10="@.len() == 6,
                    memory_psi_spec(text@) == first_avg10(views(ws@)),
                    first_avg10(views(ws@)) == first_avg10(views(ws@).subrange(j as int, ws@.len() as int)),
                decreases ws.len() - j,
            {
                let ghost wrest = views(ws@).subrange(j as int, ws@.len() as int);
                assert(wrest.drop_first() =~= views(ws@).subrange(j + 1, ws@.len() as int));
                let w = ws[j].as_str();
                if starts_with(w, "avg10=") {
                    let value = w.substring_char(6, w.unicode_len());
                    let parsed = parse_milli(value);
                    if parsed.is_some() {
                        return parsed;
                    }
                }
                j = j + 1;
            }
            return None;
        }
        i = i + 1;
    }
    None
}

/// The names of metrics, in order.
pub open spec fn metric_ids(ms: Seq<ResourceMetric>) -> Seq<Seq<char>> {
    ms.map_values(|m: ResourceMetric| m.metric_id@)
}

/// The values of metrics, in order.
pub open spec fn metric_values(ms: Seq<ResourceMetric>) -> Seq<Option<i64>> {
    ms.map_values(|m: ResourceMetric| m.value_milli)
}

/// A change as a metric value: thousandths of the count, held within `i64`.
pub open spec fn delta_value(d: Option<int>) -> Option<i64> {
    match d {
        Some(n) => Some(clamp_i64(n * 1000)),
        None => None,
    }
}

/// The change of a `/proc` key between two readings.
pub open spec fn entry_delta(before: Seq<(String, u64)>, after: Seq<(String, u64)>, key: Seq<char>) -> Option<int> {
    delta_spec(entry_value(entry_views(before), key), entry_value(entry_views(after), key))
}

/// The change of a fixed-point reading, when both were taken.
pub open spec fn milli_delta(before: Option<i64>, after: Option<i64>) -> Option<int> {
    match (before, after) {
        (Some(b), Some(a)) => Some(a - b),
        _ => None,
    }
}

/// Whether reclaim, faults or memory pressure stall rose between two
/// readings of `/proc/vmstat` and of the memory pressure average.
pub open spec fn memory_effect_spec(
    before_vm: Seq<(String, u64)>,
    after_vm: Seq<(String, u64)>,
    before_psi: Option<i64>,
    after_psi: Option<i64>,
) -> bool {
    ||| positive_spec(entry_delta(before_vm, after_vm, "pgscan_kswapd"@))
    ||| positive_spec(entry_delta(before_vm, after_vm, "pgsteal_kswapd"@))
    ||| positive_spec(entry_delta(before_vm, after_vm, "pgmajfault"@))
    ||| positive_spec(milli_delta(before_psi, after_psi))
}

fn entry_delta_exec(before: &Vec<(String, u64)>, after: &Vec<(String, u64)>, key: &str) -> (d: Option<i128>)
    ensures
        match d {
            Some(v) => entry_delta(before@, after@, key@) == Some(v as int)
                && -0x1_0000_0000_0000_0000 < v < 0x1_0000_0000_0000_0000,
            None => entry_delta(before@, after@, key@) is None,
        },
{
    optional_delta_u64(key_value(before, key), key_value(after, key))
}

fn milli_delta_exec(before: Option<i64>, after: Option<i64>) -> (d: Option<i128>)
    ensures
        match d {
            Some(v) => milli_delta(before, after) == Some(v as int)
                && -0x1_0000_0000_0000_0000 < v < 0x1_0000_0000_0000_0000,
            None => milli_delta(before, after) is None,
        },
{
    optional_delta_milli(before, after)
}

/// The claims a memory probe supports: induced pressure, or only a smoke run.
pub open spec fn memory_supported_spec(effect: bool) -> Seq<Seq<char>> {
    if effect {
        seq!["bounded anonymous allocation produced memory pressure indicators and was released"@]
    } else {
        seq!["bounded anonymous allocation smoke was applied and released; memory pressure effect remains unproven"@]
    }
}

/// The claims a memory probe leaves blocked.
pub open spec fn memory_blocked_spec() -> Seq<Seq<char>> {
    seq![
        "safe resident memory budget still requires laddered trials"@,
        "storage latency under memory pressure requires paired memory+storage evidence"@,
    ]
}

/// The result of a bounded anonymous-memory probe: `options.memory_bytes`
/// were touched page by page (their checksum given), held for the
/// duration and released, with `/proc/meminfo`, `/proc/vmstat` and the
/// memory pressure average read before and after.  The effect counts as
/// observed when reclaim, major faults or the pressure average rose.
pub fn memory_pressure_result(
    target_id: String,
    options: &PressureProbeOptions,
    elapsed_ms: u64,
    governor: Option<String>,
    touched_checksum: u64,
    before_mem: &Vec<(String, u64)>,
    after_mem: &Vec<(String, u64)>,
    before_vm: &Vec<(String, u64)>,
    after_vm: &Vec<(String, u64)>,
    before_psi: Option<i64>,
    after_psi: Option<i64>,
) -> (r: ResourcePressureResult)
    ensures
        ({
            let effect = memory_effect_spec(before_vm@, after_vm@, before_psi, after_psi);
            let status = if effect { ContractEvidenceStatus::MeasuredPartial } else { ContractEvidenceStatus::Insufficient };
            &&& result_identity(r, target_id@, ResourcePressureKind::MemoryPressure, status, elapsed_ms, governor,
                memory_blocked_spec())
            &&& r.condition.pressure_kind@ == "memory_pressure"@
            &&& r.network_evidence is None
            &&& r.evidence_class == (if effect { ResourcePressureEvidenceClass::PressureInduced } else { ResourcePressureEvidenceClass::Smoke })
            &&& r.intensity.requested@ == decimal(options.memory_bytes as nat) + " anonymous bytes touched"@
            &&& r.intensity.relative_to_target@ == relative_to_memtotal_spec(options.memory_bytes,
                entry_value(entry_views(before_mem@), "MemTotal"@))
            &&& r.intensity.pressure_effect_observed == effect
            &&& r.pressure_effect.observed == effect
            &&& views(r.pressure_effect.basis@) == seq![
                "mem_available_delta_kb="@ + optional_milli_text(delta_value_int(entry_delta(before_mem@, after_mem@, "MemAvailable"@))),
                "pgscan_delta="@ + optional_milli_text(delta_value_int(entry_delta(before_vm@, after_vm@, "pgscan_kswapd"@))),
                "pgsteal_delta="@ + optional_milli_text(delta_value_int(entry_delta(before_vm@, after_vm@, "pgsteal_kswapd"@))),
                "major_faults_delta="@ + optional_milli_text(delta_value_int(entry_delta(before_vm@, after_vm@, "pgmajfault"@))),
                "memory_psi_some_avg10_delta="@ + optional_milli_text(milli_delta(before_psi, after_psi)),
            ]
            &&& r.condition.workers matches Some(w) && w@ == "n/a"@
            &&& views(r.claim_supported@) == memory_supported_spec(effect)
            &&& metric_ids(r.metrics@) == seq!["anonymous_bytes_touched"@, "mem_available_delta_kb"@, "pgscan_delta"@,
                "pgsteal_delta"@, "major_faults_delta"@, "memory_psi_some_avg10_delta"@, "touch_checksum"@]
            &&& metric_values(r.metrics@) == seq![
                Some(clamp_i64(options.memory_bytes * 1000)),
                delta_value(entry_delta(before_mem@, after_mem@, "MemAvailable"@)),
                delta_value(entry_delta(before_vm@, after_vm@, "pgscan_kswapd"@)),
                delta_value(entry_delta(before_vm@, after_vm@, "pgsteal_kswapd"@)),
                delta_value(entry_delta(before_vm@, after_vm@, "pgmajfault"@)),
                match milli_delta(before_psi, after_psi) { Some(d) => Some(clamp_i64(d)), None => None },
                Some(clamp_i64(touched_checksum * 1000)),
            ]
            &&& r.safety.cleanup_verified
            &&& r.safety.duration_seconds_max == duration_seconds_at_least_one(*options)
            &&& r.safety.memory_bytes_max == options.memory_bytes
        }),
{
    let bytes = options.memory_bytes;
    let mem_available_delta = entry_delta_exec(before_mem, after_mem, "MemAvailable");
    let pgscan_delta = entry_delta_exec(before_vm, after_vm, "pgscan_kswapd");
    let pgsteal_delta = entry_delta_exec(before_vm, after_vm, "pgsteal_kswapd");
    let major_faults_delta = entry_delta_exec(before_vm, after_vm, "pgmajfault");
    let psi_delta = milli_delta_exec(before_psi, after_psi);
    let effect = positive_delta(pgscan_delta) || positive_delta(pgsteal_delta) || positive_delta(major_faults_delta)
        || positive_delta(psi_delta);
    let basis = vec![
        concat("mem_available_delta_kb=", format_optional_count(mem_available_delta).as_str()),
        concat("pgscan_delta=", format_optional_count(pgscan_delta).as_str()),
        concat("pgsteal_delta=", format_optional_count(pgsteal_delta).as_str()),
        concat("major_faults_delta=", format_optional_count(major_faults_delta).as_str()),
        concat("memory_psi_some_avg10_delta=", format_optional_milli(psi_delta).as_str()),
    ];
    let psi_value: Option<i64> = match psi_delta {
        Some(d) => Some(clamp_milli(d)),
        None => None,
    };
    let metrics = vec![
        metric("anonymous_bytes_touched", Some(count_milli(bytes as i128)), "bytes",
            Some(owned("bounded user-space anonymous allocation"))),
        metric("mem_available_delta_kb", delta_metric_value(mem_available_delta), "KiB", None),
        metric("pgscan_delta", delta_metric_value(pgscan_delta), "count", None),
        metric("pgsteal_delta", delta_metric_value(pgsteal_delta), "count", None),
        metric("major_faults_delta", delta_metric_value(major_faults_delta), "count", None),
        metric("memory_psi_some_avg10_delta", psi_value, "ratio",
            Some(owned("null when /proc/pressure/memory is unavailable"))),
        metric("touch_checksum", Some(count_milli(touched_checksum as i128)), "count", None),
    ];
    let memory_status = if effect { ContractEvidenceStatus::MeasuredPartial } else { ContractEvidenceStatus::Insufficient };
    let supported = if effect {
        crate::text::single("bounded anonymous allocation produced memory pressure indicators and was released")
    } else {
        crate::text::single("bounded anonymous allocation smoke was applied and released; memory pressure effect remains unproven")
    };
    let blocked = owned_all(&crate::text::strs2(
        "safe resident memory budget still requires laddered trials",
        "storage latency under memory pressure requires paired memory+storage evidence",
    ));
    proof {
        assert(views(blocked@) =~= memory_blocked_spec());
    }
    let mut r = result(
        target_id,
        ResourcePressureKind::MemoryPressure,
        memory_status,
        elapsed_ms,
        governor,
        vec![factor("anonymous_memory_bytes", decimal_string(bytes))],
        vec![factor("meminfo", owned("before_after")), factor("vmstat", owned("before_after"))],
        owned_all(&crate::text::strs2("kernel reclaim policy", "background memory activity")),
        metrics,
        vec![
            side_effect("storage", memory_status,
                "anonymous allocation records reclaim/page-cache indicators; storage latency coupling requires paired memory+storage evidence",
                Vec::new()),
            side_effect("cpu", ContractEvidenceStatus::MeasuredPartial,
                "page touching consumes CPU during the bounded pressure window", Vec::new()),
        ],
        safety(options, true, crate::text::single("allocation released by process scope")),
        supported,
        blocked,
    );
    r.evidence_class = if effect { ResourcePressureEvidenceClass::PressureInduced } else { ResourcePressureEvidenceClass::Smoke };
    let requested = concat(decimal_string(bytes).as_str(), " anonymous bytes touched");
    r.intensity = PressureIntensity {
        requested,
        relative_to_target: bytes_relative_to_memtotal(bytes, before_mem),
        pressure_effect_observed: effect,
    };
    r.pressure_effect = PressureEffect { observed: effect, basis };
    r.condition.workers = Some(owned("n/a"));
    proof {
        assert(views(r.pressure_effect.basis@) =~= seq![
            "mem_available_delta_kb="@ + optional_milli_text(delta_value_int(entry_delta(before_mem@, after_mem@, "MemAvailable"@))),
            "pgscan_delta="@ + optional_milli_text(delta_value_int(entry_delta(before_vm@, after_vm@, "pgscan_kswapd"@))),
            "pgsteal_delta="@ + optional_milli_text(delta_value_int(entry_delta(before_vm@, after_vm@, "pgsteal_kswapd"@))),
            "major_faults_delta="@ + optional_milli_text(delta_value_int(entry_delta(before_vm@, after_vm@, "pgmajfault"@))),
            "memory_psi_some_avg10_delta="@ + optional_milli_text(milli_delta(before_psi, after_psi)),
        ]);
        assert(metric_ids(r.metrics@) =~= seq!["anonymous_bytes_touched"@, "mem_available_delta_kb"@, "pgscan_delta"@,
            "pgsteal_delta"@, "major_faults_delta"@, "memory_psi_some_avg10_delta"@, "touch_checksum"@]);
        assert(metric_values(r.metrics@) =~= seq![
            Some(clamp_i64(options.memory_bytes * 1000)),
            delta_value(entry_delta(before_mem@, after_mem@, "MemAvailable"@)),
            delta_value(entry_delta(before_vm@, after_vm@, "pgscan_kswapd"@)),
            delta_value(entry_delta(before_vm@, after_vm@, "pgsteal_kswapd"@)),
            delta_value(entry_delta(before_vm@, after_vm@, "pgmajfault"@)),
            match milli_delta(before_psi, after_psi) { Some(d) => Some(clamp_i64(d)), None => None },
            Some(clamp_i64(touched_checksum * 1000)),
        ]);
    }
    r
}

/// A change of a count in thousandths, for writing with three decimals.
pub open spec fn delta_value_int(d: Option<int>) -> Option<int> {
    match d {
        Some(n) => Some(n * 1000),
        None => None,
    }
}

/// Whether a storage probe observed an effect: bytes were written and read
/// back, and a sector count rose or a latency was taken.
pub open spec fn storage_effect_spec(
    written: u64,
    read_bytes: u64,
    write_ms_milli: i64,
    read_ms_milli: i64,
    before_disk: Option<(u64, u64)>,
    after_disk: Option<(u64, u64)>,
) -> bool {
    &&& written > 0
    &&& read_bytes > 0
    &&& (positive_spec(delta_spec(disk_part(before_disk, false), disk_part(after_disk, false)))
        || positive_spec(delta_spec(disk_part(before_disk, true), disk_part(after_disk, true)))
        || write_ms_milli >= 0 || read_ms_milli >= 0)
}

/// The sectors written (or, without `write`, read) of a diskstats reading.
pub open spec fn disk_part(d: Option<(u64, u64)>, write: bool) -> Option<u64> {
    match d {
        Some(p) => Some(if write { p.1 } else { p.0 }),
        None => None,
    }
}

fn disk_part_exec(d: Option<(u64, u64)>, write: bool) -> (r: Option<u64>)
    ensures
        r == disk_part(d, write),
{
    match d {
        Some(p) => Some(if write { p.1 } else { p.0 }),
        None => None,
    }
}

/// The claims a storage probe leaves blocked.
pub open spec fn storage_blocked_spec() -> Seq<Seq<char>> {
    seq![
        "sustained storage cadence and flash-wear claims require longer evidence"@,
        "page-cache/storage behavior under memory pressure requires paired pressure evidence"@,
    ]
}

/// The result of a bounded tempfile probe: `written` bytes were written
/// and synced, `read_bytes` read back, the file removed (`cleanup_verified`
/// when it was gone after, `removed_path` naming it), with
/// `/proc/diskstats` and `/proc/meminfo` read before and after.
pub fn storage_io_result(
    target_id: String,
    options: &PressureProbeOptions,
    elapsed_ms: u64,
    governor: Option<String>,
    written: u64,
    read_bytes: u64,
    write_ms_milli: i64,
    read_ms_milli: i64,
    before_disk: Option<(u64, u64)>,
    after_disk: Option<(u64, u64)>,
    before_mem: &Vec<(String, u64)>,
    after_mem: &Vec<(String, u64)>,
    cleanup_verified: bool,
    removed_path: &str,
) -> (r: ResourcePressureResult)
    ensures
        ({
            let effect = storage_effect_spec(written, read_bytes, write_ms_milli, read_ms_milli, before_disk, after_disk);
            &&& result_identity(r, target_id@, ResourcePressureKind::StorageIo, ContractEvidenceStatus::MeasuredPartial,
                elapsed_ms, governor, storage_blocked_spec())
            &&& r.condition.pressure_kind@ == "storage_io"@
            &&& r.network_evidence is None
            &&& r.evidence_class == ResourcePressureEvidenceClass::Smoke
            &&& r.intensity.requested@ == decimal(options.storage_bytes as nat) + " tempfile bytes"@
            &&& r.intensity.pressure_effect_observed == effect
            &&& r.pressure_effect.observed == effect
            &&& views(r.pressure_effect.basis@) == seq![
                "bytes_written="@ + decimal(written as nat),
                "bytes_read="@ + decimal(read_bytes as nat),
                "write_latency_ms="@ + milli_text(write_ms_milli as int),
                "read_latency_ms="@ + milli_text(read_ms_milli as int),
                "disk_write_sectors_delta="@ + optional_milli_text(delta_value_int(
                    delta_spec(disk_part(before_disk, true), disk_part(after_disk, true)))),
            ]
            &&& r.condition.workers matches Some(w) && w@ == "n/a"@
            &&& views(r.claim_supported@) == seq!["bounded tempfile I/O smoke completed with cleanup verification"@]
            &&& metric_ids(r.metrics@) == seq!["bytes_written"@, "bytes_read"@, "write_latency_ms"@, "read_latency_ms"@,
                "disk_read_sectors_delta"@, "disk_write_sectors_delta"@, "mem_available_delta_kb"@]
            &&& metric_values(r.metrics@) == seq![
                Some(clamp_i64(written * 1000)),
                Some(clamp_i64(read_bytes * 1000)),
                Some(write_ms_milli),
                Some(read_ms_milli),
                delta_value(delta_spec(disk_part(before_disk, false), disk_part(after_disk, false))),
                delta_value(delta_spec(disk_part(before_disk, true), disk_part(after_disk, true))),
                delta_value(entry_delta(before_mem@, after_mem@, "MemAvailable"@)),
            ]
            &&& r.safety.cleanup_verified == cleanup_verified
            &&& views(r.safety.cleanup@) == seq!["removed "@ + removed_path@]
        }),
{
    let read_delta = optional_delta_u64(disk_part_exec(before_disk, false), disk_part_exec(after_disk, false));
    let write_delta = optional_delta_u64(disk_part_exec(before_disk, true), disk_part_exec(after_disk, true));
    let mem_delta = entry_delta_exec(before_mem, after_mem, "MemAvailable");
    let effect = written > 0 && read_bytes > 0
        && (positive_delta(write_delta) || positive_delta(read_delta) || write_ms_milli >= 0 || read_ms_milli >= 0);
    let metrics = vec![
        metric("bytes_written", Some(count_milli(written as i128)), "bytes", None),
        metric("bytes_read", Some(count_milli(read_bytes as i128)), "bytes", None),
        metric("write_latency_ms", Some(write_ms_milli), "ms", None),
        metric("read_latency_ms", Some(read_ms_milli), "ms", None),
        metric("disk_read_sectors_delta", delta_metric_value(read_delta), "sectors", None),
        metric("disk_write_sectors_delta", delta_metric_value(write_delta), "sectors", None),
        metric("mem_available_delta_kb", delta_metric_value(mem_delta), "KiB", None),
    ];
    let blocked = owned_all(&crate::text::strs2(
        "sustained storage cadence and flash-wear claims require longer evidence",
        "page-cache/storage behavior under memory pressure requires paired pressure evidence",
    ));
    proof {
        assert(views(blocked@) =~= storage_blocked_spec());
    }
    let cleanup = crate::text::single(concat("removed ", removed_path).as_str());
    let mut r = result(
        target_id,
        ResourcePressureKind::StorageIo,
        ContractEvidenceStatus::MeasuredPartial,
        elapsed_ms,
        governor,
        vec![factor("tempfile_bytes", decimal_string(options.storage_bytes))],
        vec![factor("diskstats", owned("before_after")), factor("meminfo", owned("before_after"))],
        owned_all(&crate::text::strs2("filesystem cache state", "storage device firmware")),
        metrics,
        vec![
            side_effect("memory", ContractEvidenceStatus::MeasuredPartial,
                "tempfile I/O can consume page cache and alter MemAvailable", Vec::new()),
            side_effect("latency", ContractEvidenceStatus::MeasuredPartial,
                "write/read latency measured for bounded tempfile path", Vec::new()),
        ],
        safety(options, cleanup_verified, cleanup),
        crate::text::single("bounded tempfile I/O smoke completed with cleanup verification"),
        blocked,
    );
    r.evidence_class = ResourcePressureEvidenceClass::Smoke;
    r.intensity = PressureIntensity {
        requested: concat(decimal_string(options.storage_bytes).as_str(), " tempfile bytes"),
        relative_to_target: owned("bounded tempfile smoke; not normalized to device endurance or sustained bandwidth"),
        pressure_effect_observed: effect,
    };
    let basis = vec![
        concat("bytes_written=", decimal_string(written).as_str()),
        concat("bytes_read=", decimal_string(read_bytes).as_str()),
        concat("write_latency_ms=", milli_string(write_ms_milli as i128).as_str()),
        concat("read_latency_ms=", milli_string(read_ms_milli as i128).as_str()),
        concat("disk_write_sectors_delta=", format_optional_count(write_delta).as_str()),
    ];
    r.pressure_effect = PressureEffect { observed: effect, basis };
    r.condition.workers = Some(owned("n/a"));
    proof {
        assert(views(r.pressure_effect.basis@) =~= seq![
            "bytes_written="@ + decimal(written as nat),
            "bytes_read="@ + decimal(read_bytes as nat),
            "write_latency_ms="@ + milli_text(write_ms_milli as int),
            "read_latency_ms="@ + milli_text(read_ms_milli as int),
            "disk_write_sectors_delta="@ + optional_milli_text(delta_value_int(
                delta_spec(disk_part(before_disk, true), disk_part(after_disk, true)))),
        ]);
        assert(metric_ids(r.metrics@) =~= seq!["bytes_written"@, "bytes_read"@, "write_latency_ms"@, "read_latency_ms"@,
            "disk_read_sectors_delta"@, "disk_write_sectors_delta"@, "mem_available_delta_kb"@]);
        assert(metric_values(r.metrics@) =~= seq![
            Some(clamp_i64(written * 1000)),
            Some(clamp_i64(read_bytes * 1000)),
            Some(write_ms_milli),
            Some(read_ms_milli),
            delta_value(delta_spec(disk_part(before_disk, false), disk_part(after_disk, false))),
            delta_value(delta_spec(disk_part(before_disk, true), disk_part(after_disk, true))),
            delta_value(entry_delta(before_mem@, after_mem@, "MemAvailable"@)),
        ]);
        assert(views(r.safety.cleanup@) =~= seq!["removed "@ + removed_path@]);
    }
    r
}

/// The result of a monotonic-jitter probe under the current condition; its
/// metrics (sample count, p50, p95, p99 and maximum lateness) were taken
/// from the samples by the caller.
pub fn latency_jitter_result(
    target_id: String,
    options: &PressureProbeOptions,
    elapsed_ms: u64,
    governor: Option<String>,
    jitter_metrics: Vec<ResourceMetric>,
) -> (r: ResourcePressureResult)
    ensures
        result_identity(r, target_id@, ResourcePressureKind::LatencyJitter, ContractEvidenceStatus::MeasuredPartial,
            elapsed_ms, governor, seq![
                "pressure-specific p95/p99 claims require paired pressure runs"@,
                "real-time-ish claims require condition-specific CPU/memory/storage/network/observer jitter evidence"@,
            ]),
        r.network_evidence is None,
        r.evidence_class == ResourcePressureEvidenceClass::Smoke,
        r.intensity.requested@ == "1ms monotonic loop under current condition"@,
        !r.intensity.pressure_effect_observed,
        !r.pressure_effect.observed,
        r.pressure_effect.basis@.len() == 4,
        r.condition.pressure_kind@ == "current_condition"@,
        r.condition.workers matches Some(w) && w@ == "n/a"@,
        r.metrics == jitter_metrics,
        views(r.claim_supported@) == seq!["current-condition monotonic jitter distribution was measured"@],
        r.safety.cleanup_verified,
{
    let blocked = owned_all(&crate::text::strs2(
        "pressure-specific p95/p99 claims require paired pressure runs",
        "real-time-ish claims require condition-specific CPU/memory/storage/network/observer jitter evidence",
    ));
    let mut r = result(
        target_id,
        ResourcePressureKind::LatencyJitter,
        ContractEvidenceStatus::MeasuredPartial,
        elapsed_ms,
        governor,
        vec![factor("loop_interval_ms", owned("1"))],
        vec![factor("monotonic_clock", owned("instant"))],
        owned_all(&crate::text::strs2("scheduler noise", "interrupt load")),
        jitter_metrics,
        vec![side_effect("cpu", ContractEvidenceStatus::MeasuredPartial,
            "jitter loop wakes at 1ms cadence during the bounded duration", Vec::new())],
        safety(options, true, crate::text::single("no persistent state")),
        crate::text::single("current-condition monotonic jitter distribution was measured"),
        blocked,
    );
    r.evidence_class = ResourcePressureEvidenceClass::Smoke;
    r.intensity = PressureIntensity {
        requested: owned("1ms monotonic loop under current condition"),
        relative_to_target: owned("current-condition jitter only; not normalized to a real-time workload"),
        pressure_effect_observed: false,
    };
    r.pressure_effect = PressureEffect {
        observed: false,
        basis: owned_all(&crate::text::strs4(
            "jitter_p50_ms measured under current condition",
            "jitter_p95_ms measured under current condition",
            "jitter_p99_ms measured under current condition",
            "no concurrent pressure was injected by this probe",
        )),
    };
    r.condition.pressure_kind = owned("current_condition");
    r.condition.workers = Some(owned("n/a"));
    proof {
        assert(views(r.pressure_effect.basis@).len() == 4);
    }
    r
}

/// How the write loop of an endpoint transfer ended.
#[derive(Debug, Clone, PartialEq, Eq)]
pub enum TransferEnd {
    /// Every requested byte was written.
    Finished,
    /// A write accepted no bytes.
    Stalled,
    /// A write failed with this error.
    Failed(String),
}

/// What became of the optional endpoint of a network probe.
#[derive(Debug, Clone, PartialEq, Eq)]
pub enum NetworkAttempt {
    /// No endpoint was configured.
    NotConfigured,
    /// Resolving or connecting failed with this error, after the given time.
    ConnectFailed { error: String, latency_milli: i64 },
    /// The connection was made after the given time; `generated` bytes were
    /// written before the write loop ended as `end` (no loop is run when no
    /// bytes are requested).
    Connected { latency_milli: i64, generated: u64, end: TransferEnd },
}

/// The endpoint status a network probe reports.
pub open spec fn endpoint_status_spec(attempt: NetworkAttempt, network_bytes: u64) -> Seq<char> {
    match attempt {
        NetworkAttempt::NotConfigured => "not_configured"@,
        NetworkAttempt::ConnectFailed { error, .. } => "connect_failed:"@ + error@,
        NetworkAttempt::Connected { generated, end, .. } => if network_bytes == 0 {
            "connected"@
        } else if generated == network_bytes {
            "bounded_transfer_completed:"@ + decimal(generated as nat)
        } else {
            match end {
                TransferEnd::Stalled => "transfer_stalled_after_"@ + decimal(generated as nat) + "_bytes"@,
                TransferEnd::Failed(e) => "transfer_failed_after_"@ + decimal(generated as nat) + "_bytes:"@ + e@,
                TransferEnd::Finished => "connected"@,
            }
        },
    }
}

/// Whether the bounded transfer completed.
pub open spec fn bounded_transfer_spec(attempt: NetworkAttempt, network_bytes: u64) -> bool {
    attempt matches NetworkAttempt::Connected { generated, .. } && network_bytes > 0 && generated == network_bytes
}

/// The bytes the probe generated.
pub open spec fn generated_spec(attempt: NetworkAttempt) -> u64 {
    match attempt {
        NetworkAttempt::Connected { generated, .. } => generated,
        _ => 0,
    }
}

/// The connect latency the probe recorded.
pub open spec fn latency_spec(attempt: NetworkAttempt) -> Option<i64> {
    match attempt {
        NetworkAttempt::NotConfigured => None,
        NetworkAttempt::ConnectFailed { latency_milli, .. } => Some(latency_milli),
        NetworkAttempt::Connected { latency_milli, .. } => Some(latency_milli),
    }
}

/// The mode of a network probe.
pub open spec fn network_mode_of(attempt: NetworkAttempt, network_bytes: u64) -> NetworkPressureMode {
    if bounded_transfer_spec(attempt, network_bytes) {
        NetworkPressureMode::BoundedTransfer
    } else if attempt is NotConfigured {
        NetworkPressureMode::CounterOnly
    } else {
        NetworkPressureMode::EndpointAttempt
    }
}

/// The status of a network probe: not applicable without an endpoint;
/// measured in part when the bounded transfer completed and the interface
/// counters were read before and after; insufficient when the endpoint was
/// reached or the counters were read; otherwise not applicable.
pub open spec fn network_status_spec(
    attempt: NetworkAttempt,
    network_bytes: u64,
    before: Option<(u64, u64)>,
    after: Option<(u64, u64)>,
) -> ContractEvidenceStatus {
    if attempt is NotConfigured {
        ContractEvidenceStatus::NotApplicableWithReason
    } else if bounded_transfer_spec(attempt, network_bytes) && before is Some && after is Some {
        ContractEvidenceStatus::MeasuredPartial
    } else if attempt is Connected || (before is Some && after is Some) {
        ContractEvidenceStatus::Insufficient
    } else {
        ContractEvidenceStatus::NotApplicableWithReason
    }
}

/// The claim a network probe supports.
pub open spec fn network_supported_spec(attempt: NetworkAttempt, network_bytes: u64) -> Seq<char> {
    if bounded_transfer_spec(attempt, network_bytes) {
        "endpoint-backed bounded network transfer completed"@
    } else if !(attempt is NotConfigured) {
        "network endpoint attempt completed, but bounded transfer evidence remains insufficient"@
    } else {
        "network interface rx/tx counters were observed; network I/O boundary was not measured without an endpoint"@
    }
}

/// The evidence class of a network probe.
pub open spec fn network_class_spec(attempt: NetworkAttempt, network_bytes: u64) -> ResourcePressureEvidenceClass {
    if bounded_transfer_spec(attempt, network_bytes) {
        ResourcePressureEvidenceClass::BoundaryProbe
    } else if !(attempt is NotConfigured) {
        ResourcePressureEvidenceClass::Smoke
    } else {
        ResourcePressureEvidenceClass::NotApplicable
    }
}

fn endpoint_status(attempt: &NetworkAttempt, network_bytes: u64) -> (s: String)
    ensures
        s@ == endpoint_status_spec(*attempt, network_bytes),
{
    match attempt {
        NetworkAttempt::NotConfigured => owned("not_configured"),
        NetworkAttempt::ConnectFailed { error, .. } => concat("connect_failed:", error.as_str()),
        NetworkAttempt::Connected { generated, end, .. } => {
            if network_bytes == 0 {
                owned("connected")
            } else if *generated == network_bytes {
                concat("bounded_transfer_completed:", decimal_string(*generated).as_str())
            } else {
                match end {
                    TransferEnd::Stalled => {
                        let a = concat("transfer_stalled_after_", decimal_string(*generated).as_str());
                        concat(a.as_str(), "_bytes")
                    },
                    TransferEnd::Failed(e) => {
                        let a = concat("transfer_failed_after_", decimal_string(*generated).as_str());
                        let b = concat(a.as_str(), "_bytes:");
                        concat(b.as_str(), e.as_str())
                    },
                    TransferEnd::Finished => owned("connected"),
                }
            }
        },
    }
}

/// The result of a network probe: the interface counters of
/// `/proc/net/dev` read before and after the probe's duration, and what
/// became of the optional endpoint.
pub fn network_io_result(
    target_id: String,
    options: &PressureProbeOptions,
    elapsed_ms: u64,
    governor: Option<String>,
    before: Option<(u64, u64)>,
    after: Option<(u64, u64)>,
    attempt: NetworkAttempt,
) -> (r: ResourcePressureResult)
    requires
        (options.network_endpoint is None) == (attempt is NotConfigured),
    ensures
        ({
            let bounded = bounded_transfer_spec(attempt, options.network_bytes);
            let mode = network_mode_of(attempt, options.network_bytes);
            &&& result_identity(r, target_id@, ResourcePressureKind::NetworkIo,
                network_status_spec(attempt, options.network_bytes, before, after), elapsed_ms, governor, seq![
                    "background upload cadence and retry/backoff require endpoint-specific trials"@,
                    "bounded transfer, packet loss, and retry behavior are not measured by counter-only evidence"@,
                ])
            &&& r.condition.pressure_kind@ == "network_io"@
            &&& r.evidence_class == network_class_spec(attempt, options.network_bytes)
            &&& r.intensity.requested@ == "network_bytes_max="@ + decimal(options.network_bytes as nat)
            &&& r.intensity.pressure_effect_observed == bounded
            &&& r.pressure_effect.observed == bounded
            &&& views(r.pressure_effect.basis@) == seq![
                "network_mode="@ + network_mode_spec(mode),
                "endpoint_status="@ + endpoint_status_spec(attempt, options.network_bytes),
                "traffic_generated_bytes="@ + decimal(generated_spec(attempt) as nat),
                "connect_latency_ms="@ + optional_milli_text(match latency_spec(attempt) { Some(v) => Some(v as int), None => None }),
            ]
            &&& r.network_evidence == Some(NetworkPressureEvidence {
                network_mode: mode,
                endpoint_available: attempt is Connected,
                traffic_generated_bytes: generated_spec(attempt),
                selection_claim_allowed: false,
            })
            &&& r.condition.workers matches Some(w) && w@ == "n/a"@
            &&& views(r.claim_supported@) == seq![network_supported_spec(attempt, options.network_bytes)]
            &&& metric_ids(r.metrics@) == seq!["rx_bytes_delta"@, "tx_bytes_delta"@, "traffic_generated_bytes"@,
                "connect_latency_ms"@]
            &&& metric_values(r.metrics@) == seq![
                delta_value(delta_spec(disk_part(before, false), disk_part(after, false))),
                delta_value(delta_spec(disk_part(before, true), disk_part(after, true))),
                Some(clamp_i64(generated_spec(attempt) * 1000)),
                latency_spec(attempt),
            ]
            &&& r.safety.cleanup_verified
        }),
{
    let network_bytes = options.network_bytes;
    let status_text = endpoint_status(&attempt, network_bytes);
    let (endpoint_available, generated, latency) = match &attempt {
        NetworkAttempt::NotConfigured => (false, 0u64, None),
        NetworkAttempt::ConnectFailed { latency_milli, .. } => (false, 0u64, Some(*latency_milli)),
        NetworkAttempt::Connected { latency_milli, generated, .. } => (true, *generated, Some(*latency_milli)),
    };
    let configured = match &attempt {
        NetworkAttempt::NotConfigured => false,
        _ => true,
    };
    let bounded = endpoint_available && network_bytes > 0 && generated == network_bytes;
    let mode = if bounded {
        NetworkPressureMode::BoundedTransfer
    } else if !configured {
        NetworkPressureMode::CounterOnly
    } else {
        NetworkPressureMode::EndpointAttempt
    };
    let counters = before.is_some() && after.is_some();
    let status = if !configured {
        ContractEvidenceStatus::NotApplicableWithReason
    } else if bounded && counters {
        ContractEvidenceStatus::MeasuredPartial
    } else if endpoint_available || counters {
        ContractEvidenceStatus::Insufficient
    } else {
        ContractEvidenceStatus::NotApplicableWithReason
    };
    let rx_delta = optional_delta_u64(disk_part_exec(before, false), disk_part_exec(after, false));
    let tx_delta = optional_delta_u64(disk_part_exec(before, true), disk_part_exec(after, true));
    let metrics = vec![
        metric("rx_bytes_delta", delta_metric_value(rx_delta), "bytes", None),
        metric("tx_bytes_delta", delta_metric_value(tx_delta), "bytes", None),
        metric("traffic_generated_bytes", Some(count_milli(generated as i128)), "bytes", None),
        metric("connect_latency_ms", latency, "ms", Some(status_text.clone())),
    ];
    let endpoint_label = match &options.network_endpoint {
        Some(e) => e.clone(),
        None => owned("none"),
    };
    let blocked = owned_all(&crate::text::strs2(
        "background upload cadence and retry/backoff require endpoint-specific trials",
        "bounded transfer, packet loss, and retry behavior are not measured by counter-only evidence",
    ));
    let supported = if bounded {
        crate::text::single("endpoint-backed bounded network transfer completed")
    } else if configured {
        crate::text::single("network endpoint attempt completed, but bounded transfer evidence remains insufficient")
    } else {
        crate::text::single("network interface rx/tx counters were observed; network I/O boundary was not measured without an endpoint")
    };
    let mut r = result(
        target_id,
        ResourcePressureKind::NetworkIo,
        status,
        elapsed_ms,
        governor,
        vec![factor("network_endpoint", endpoint_label), factor("network_bytes_max", decimal_string(network_bytes))],
        vec![factor("proc_net_dev", owned("before_after"))],
        owned_all(&crate::text::strs2("LAN load", "remote endpoint availability")),
        metrics,
        vec![
            side_effect("cpu",
                if bounded { ContractEvidenceStatus::MeasuredPartial } else { ContractEvidenceStatus::Insufficient },
                "bounded network transfer executes socket writes on CPU when endpoint-backed", Vec::new()),
            side_effect("latency",
                if latency.is_some() { ContractEvidenceStatus::MeasuredPartial } else { ContractEvidenceStatus::NotApplicableWithReason },
                "connect latency is recorded when an endpoint is configured", Vec::new()),
        ],
        safety(options, true, crate::text::single("closed optional TCP socket")),
        supported,
        blocked,
    );
    r.evidence_class = if bounded {
        ResourcePressureEvidenceClass::BoundaryProbe
    } else if configured {
        ResourcePressureEvidenceClass::Smoke
    } else {
        ResourcePressureEvidenceClass::NotApplicable
    };
    r.intensity = PressureIntensity {
        requested: concat("network_bytes_max=", decimal_string(network_bytes).as_str()),
        relative_to_target: if bounded {
            owned("endpoint-backed bounded transfer; LAN topology and endpoint behavior remain confounders")
        } else if configured {
            owned("endpoint attempt only; bounded transfer did not complete")
        } else {
            owned("counter-only observation; no endpoint configured")
        },
        pressure_effect_observed: bounded,
    };
    let latency_wide: Option<i128> = match latency {
        Some(v) => Some(v as i128),
        None => None,
    };
    let basis = vec![
        concat("network_mode=", network_mode_label(&mode)),
        concat("endpoint_status=", status_text.as_str()),
        concat("traffic_generated_bytes=", decimal_string(generated).as_str()),
        concat("connect_latency_ms=", format_optional_milli(latency_wide).as_str()),
    ];
    r.pressure_effect = PressureEffect { observed: bounded, basis };
    r.network_evidence = Some(NetworkPressureEvidence {
        network_mode: mode,
        endpoint_available,
        traffic_generated_bytes: generated,
        selection_claim_allowed: false,
    });
    r.condition.workers = Some(owned("n/a"));
    proof {
        assert(views(r.pressure_effect.basis@) =~= seq![
            "network_mode="@ + network_mode_spec(mode),
            "endpoint_status="@ + endpoint_status_spec(attempt, options.network_bytes),
            "traffic_generated_bytes="@ + decimal(generated_spec(attempt) as nat),
            "connect_latency_ms="@ + optional_milli_text(match latency_spec(attempt) { Some(v) => Some(v as int), None => None }),
        ]);
        assert(metric_ids(r.metrics@) =~= seq!["rx_bytes_delta"@, "tx_bytes_delta"@, "traffic_generated_bytes"@,
            "connect_latency_ms"@]);
        assert(metric_values(r.metrics@) =~= seq![
            delta_value(delta_spec(disk_part(before, false), disk_part(after, false))),
            delta_value(delta_spec(disk_part(before, true), disk_part(after, true))),
            Some(clamp_i64(generated_spec(attempt) * 1000)),
            latency_spec(attempt),
        ]);
    }
    r
}

/// The sum of counts.
pub open spec fn sum_counts(v: Seq<u64>) -> int
    decreases v.len(),
{
    if v.len() == 0 { 0 } else { sum_counts(v.drop_last()) + v.last() }
}

proof fn lemma_sum_counts_prefix(v: Seq<u64>, i: int)
    requires
        0 <= i <= v.len(),
    ensures
        0 <= sum_counts(v.take(i)) <= sum_counts(v),
    decreases v.len() - i,
{
    if i < v.len() {
        lemma_sum_counts_prefix(v, i + 1);
        assert(v.take(i + 1).drop_last() =~= v.take(i));
        lemma_sum_counts_nonneg(v.take(i));
    } else {
        assert(v.take(i) =~= v);
        lemma_sum_counts_nonneg(v);
    }
}

proof fn lemma_sum_counts_nonneg(v: Seq<u64>)
    ensures
        sum_counts(v) >= 0,
    decreases v.len(),
{
    if v.len() > 0 {
        lemma_sum_counts_nonneg(v.drop_last());
    }
}

fn total_iterations(v: &Vec<u64>) -> (t: u64)
    requires
        sum_counts(v@) <= u64::MAX,
    ensures
        t == sum_counts(v@),
{
    let mut t: u64 = 0;
    let mut i: usize = 0;
    while i < v.len()
        invariant
            i <= v@.len(),
            sum_counts(v@) <= u64::MAX,
            t == sum_counts(v@.take(i as int)),
        decreases v.len() - i,
    {
        proof {
            assert(v@.take(i + 1).drop_last() =~= v@.take(i as int));
            lemma_sum_counts_prefix(v@, i + 1);
        }
        t = t + v[i];
        i = i + 1;
    }
    proof {
        assert(v@.take(v@.len() as int) =~= v@);
    }
    t
}

/// What a bounded CPU load run reported.
#[derive(Debug, Clone, PartialEq, Eq)]
pub struct CpuLoadOutcome {
    pub status: String,
    pub duration_ms: u64,
    pub worker_iterations: Vec<u64>,
    pub max_observed_temp_millicelsius: Option<i64>,
    pub abort_reason: Option<String>,
}

/// The status of a CPU probe: measured in part when the load completed,
/// unsafe to run otherwise.
pub open spec fn cpu_status_spec(load: CpuLoadOutcome) -> ContractEvidenceStatus {
    if load.status@ == "completed"@ {
        ContractEvidenceStatus::MeasuredPartial
    } else {
        ContractEvidenceStatus::UnsafeToRunWithReason
    }
}

/// The result of a bounded CPU probe: a CPU load of `options.workers`
/// workers ran for the duration, the hottest thermal zone read before and
/// after (in thousandths of a degree).
pub fn cpu_pressure_result(
    target_id: String,
    options: &PressureProbeOptions,
    elapsed_ms: u64,
    governor: Option<String>,
    temp_before: Option<i64>,
    temp_after: Option<i64>,
    load: &CpuLoadOutcome,
) -> (r: ResourcePressureResult)
    requires
        sum_counts(load.worker_iterations@) <= u64::MAX,
    ensures
        ({
            let iterations = sum_counts(load.worker_iterations@);
            &&& result_identity(r, target_id@, ResourcePressureKind::CpuPressure, cpu_status_spec(*load), elapsed_ms,
                governor, seq!["sustained all-core safety requires repeated and longer thermal soak evidence"@])
            &&& r.condition.pressure_kind@ == "cpu_pressure"@
            &&& r.network_evidence is None
            &&& r.evidence_class == ResourcePressureEvidenceClass::BoundaryProbe
            &&& r.intensity.requested@ == decimal(options.workers as nat) + " worker(s) for "@
                + decimal(duration_seconds_at_least_one(*options) as nat) + "s"@
            &&& r.intensity.pressure_effect_observed == (iterations > 0)
            &&& r.pressure_effect.observed == (iterations > 0)
            &&& views(r.pressure_effect.basis@) == seq![
                "worker_iterations="@ + decimal(iterations as nat),
                "temp_delta_c="@ + optional_milli_text(milli_delta(temp_before, temp_after)),
                "load_status="@ + load.status@,
            ]
            &&& r.condition.workers matches Some(w) && w@ == decimal(options.workers as nat)
            &&& views(r.claim_supported@) == seq!["bounded CPU pressure was executed"@]
            &&& metric_ids(r.metrics@) == seq!["workers"@, "worker_iterations"@, "duration_ms"@, "temp_before_c"@,
                "temp_after_c"@, "max_observed_temp_c"@]
            &&& metric_values(r.metrics@) == seq![
                Some(clamp_i64(options.workers * 1000)),
                Some(clamp_i64(iterations * 1000)),
                Some(clamp_i64(load.duration_ms * 1000)),
                temp_before,
                temp_after,
                load.max_observed_temp_millicelsius,
            ]
            &&& r.safety.cleanup_verified
        }),
{
    let iterations = total_iterations(&load.worker_iterations);
    let metrics = vec![
        metric("workers", Some(count_milli(options.workers as i128)), "count", None),
        metric("worker_iterations", Some(count_milli(iterations as i128)), "count", None),
        metric("duration_ms", Some(count_milli(load.duration_ms as i128)), "ms", Some(load.status.clone())),
        metric("temp_before_c", temp_before, "C", None),
        metric("temp_after_c", temp_after, "C", None),
        metric("max_observed_temp_c", load.max_observed_temp_millicelsius, "C", load.abort_reason.clone()),
    ];
    let status = if str_eq(load.status.as_str(), "completed") {
        ContractEvidenceStatus::MeasuredPartial
    } else {
        ContractEvidenceStatus::UnsafeToRunWithReason
    };
    let temp_delta = milli_delta_exec(temp_before, temp_after);
    let workers_text = decimal_string(options.workers as u64);
    let mut r = result(
        target_id,
        ResourcePressureKind::CpuPressure,
        status,
        elapsed_ms,
        governor,
        vec![factor("workers", workers_text.clone())],
        vec![factor("thermal", owned("safety_monitor")), factor("frequency", owned("observed_policy"))],
        owned_all(&crate::text::strs2("governor policy", "ambient temperature")),
        metrics,
        vec![
            side_effect("thermal", ContractEvidenceStatus::MeasuredPartial,
                "CPU load records thermal monitor samples when thermal zones are visible", Vec::new()),
            side_effect("latency", ContractEvidenceStatus::Insufficient,
                "latency side effect requires paired jitter probe under CPU load", Vec::new()),
        ],
        safety(options, true, crate::text::single("CPU workers stopped after bounded duration")),
        crate::text::single("bounded CPU pressure was executed"),
        crate::text::single("sustained all-core safety requires repeated and longer thermal soak evidence"),
    );
    r.evidence_class = ResourcePressureEvidenceClass::BoundaryProbe;
    let seconds = if options.duration_secs == 0 { 1 } else { options.duration_secs };
    let a = concat(workers_text.as_str(), " worker(s) for ");
    let b = concat(a.as_str(), decimal_string(seconds).as_str());
    r.intensity = PressureIntensity {
        requested: concat(b.as_str(), "s"),
        relative_to_target: owned("bounded CPU burst; not a sustained thermal soak"),
        pressure_effect_observed: iterations > 0,
    };
    let basis = vec![
        concat("worker_iterations=", decimal_string(iterations).as_str()),
        concat("temp_delta_c=", format_optional_milli(temp_delta).as_str()),
        concat("load_status=", load.status.as_str()),
    ];
    r.pressure_effect = PressureEffect { observed: iterations > 0, basis };
    r.condition.workers = Some(workers_text);
    proof {
        assert(views(r.pressure_effect.basis@) =~= seq![
            "worker_iterations="@ + decimal(iterations as nat),
            "temp_delta_c="@ + optional_milli_text(milli_delta(temp_before, temp_after)),
            "load_status="@ + load.status@,
        ]);
        assert(metric_ids(r.metrics@) =~= seq!["workers"@, "worker_iterations"@, "duration_ms"@, "temp_before_c"@,
            "temp_after_c"@, "max_observed_temp_c"@]);
        assert(metric_values(r.metrics@) =~= seq![
            Some(clamp_i64(options.workers * 1000)),
            Some(clamp_i64(iterations * 1000)),
            Some(clamp_i64(load.duration_ms * 1000)),
            temp_before,
            temp_after,
            load.max_observed_temp_millicelsius,
        ]);
    }
    r
}

/// Whether a metric named `max_observed_temp_c` holds a value.
pub open spec fn thermal_visible_spec(metrics: Seq<ResourceMetric>) -> bool {
    exists|i: int| 0 <= i < metrics.len() && (#[trigger] metrics[i]).metric_id@ == "max_observed_temp_c"@
        && metrics[i].value_milli is Some
}

/// A thermal probe's result from the CPU probe it ran: the kind becomes
/// thermal with a new identifier, measured in part when a thermal reading
/// was taken during the load (not applicable otherwise), its claims those
/// of the thermal surface.
pub fn thermal_pressure_result(cpu: ResourcePressureResult) -> (r: ResourcePressureResult)
    ensures
        ({
            let visible = thermal_visible_spec(cpu.metrics@);
            &&& r.pressure_kind == ResourcePressureKind::ThermalPressure
            &&& exists|n: nat| r.result_id@ == "PRESSURE-"@ + decimal(n)
            &&& r.status == (if visible { ContractEvidenceStatus::MeasuredPartial } else { ContractEvidenceStatus::NotApplicableWithReason })
            &&& r.evidence_class == ResourcePressureEvidenceClass::BoundaryProbe
            &&& r.intensity.pressure_effect_observed == visible
            &&& r.pressure_effect.observed == visible
            &&& views(r.pressure_effect.basis@) == views(cpu.pressure_effect.basis@)
                .push("thermal_visible="@ + (if visible { "true"@ } else { "false"@ }))
            &&& views(r.claim_supported@) == seq!["thermal surface was evaluated during bounded CPU pressure"@]
            &&& views(r.claim_blocked@) == seq!["5/15/30 minute soak and near-boundary thermal claims need approved longer evidence"@]
            &&& r.metrics == cpu.metrics
            &&& r.target_id == cpu.target_id
            &&& r.condition == cpu.condition
            &&& r.next_evidence_needed == cpu.next_evidence_needed
            &&& r.safety == cpu.safety
            &&& r.duration_ms == cpu.duration_ms
        }),
{
    let mut visible = false;
    let mut i: usize = 0;
    while i < cpu.metrics.len()
        invariant
            i <= cpu.metrics@.len(),
            visible == exists|k: int| 0 <= k < i && (#[trigger] cpu.metrics@[k]).metric_id@ == "max_observed_temp_c"@
                && cpu.metrics@[k].value_milli is Some,
        decreases cpu.metrics.len() - i,
    {
        if str_eq(cpu.metrics[i].metric_id.as_str(), "max_observed_temp_c") && cpu.metrics[i].value_milli.is_some() {
            visible = true;
        }
        i = i + 1;
    }
    let ghost basis0 = views(cpu.pressure_effect.basis@);
    let mut r = cpu;
    r.pressure_kind = ResourcePressureKind::ThermalPressure;
    let id = crate::ids::new_id("PRESSURE");
    proof {
        reveal_strlit("PRESSURE");
        reveal_strlit("-");
        reveal_strlit("PRESSURE-");
        assert("PRESSURE"@ + seq!['-'] =~= "PRESSURE-"@);
    }
    r.result_id = id;
    r.status = if visible { ContractEvidenceStatus::MeasuredPartial } else { ContractEvidenceStatus::NotApplicableWithReason };
    r.evidence_class = ResourcePressureEvidenceClass::BoundaryProbe;
    r.intensity.pressure_effect_observed = visible;
    r.pressure_effect.observed = visible;
    let note = concat("thermal_visible=", if visible { "true" } else { "false" });
    let ghost before_push = r.pressure_effect.basis@;
    r.pressure_effect.basis.push(note);
    proof {
        assert(views(r.pressure_effect.basis@) =~= views(before_push).push(note@));
    }
    r.claim_supported = crate::text::single("thermal surface was evaluated during bounded CPU pressure");
    r.claim_blocked = crate::text::single("5/15/30 minute soak and near-boundary thermal claims need approved longer evidence");
    r.time_unix_ms = crate::ids::now_unix_ms();
    r
}

/// The result of an observer probe: lateness p99 of a bounded jitter loop
/// (in thousandths of a millisecond) without and with the observer, the
/// observer's samples and loop time, and one temporary artifact written and
/// removed.
pub fn observer_pressure_result(
    target_id: String,
    options: &PressureProbeOptions,
    elapsed_ms: u64,
    governor: Option<String>,
    sample_count: u64,
    observer_ms_milli: i64,
    artifact_write_ms_milli: i64,
    baseline_p99: Option<i64>,
    observed_p99: Option<i64>,
    cleanup_verified: bool,
    removed_path: &str,
) -> (r: ResourcePressureResult)
    ensures
        ({
            let effect = milli_delta(baseline_p99, observed_p99) is Some || sample_count > 0;
            &&& result_identity(r, target_id@, ResourcePressureKind::ObserverPressure,
                ContractEvidenceStatus::MeasuredPartial, elapsed_ms, governor,
                seq!["default low-overhead claims require cadence-specific repeated evidence"@])
            &&& r.condition.pressure_kind@ == "observer_pressure"@
            &&& r.network_evidence is None
            &&& r.evidence_class == ResourcePressureEvidenceClass::PairedPressure
            &&& r.intensity.requested@ == decimal(sample_count as nat) + " observer samples plus one artifact write"@
            &&& r.intensity.pressure_effect_observed == effect
            &&& r.pressure_effect.observed == effect
            &&& views(r.pressure_effect.basis@) == seq![
                "observer_samples="@ + decimal(sample_count as nat),
                "artifact_write_latency_ms="@ + milli_text(artifact_write_ms_milli as int),
                "observer_jitter_p99_delta_ms="@ + optional_milli_text(milli_delta(baseline_p99, observed_p99)),
            ]
            &&& r.condition.workers matches Some(w) && w@ == "n/a"@
            &&& views(r.claim_supported@) == seq!["bounded observer sampling and artifact-write overhead were measured"@]
            &&& metric_ids(r.metrics@) == seq!["observer_samples"@, "observer_loop_ms"@, "artifact_write_latency_ms"@,
                "baseline_jitter_p99_ms"@, "observer_jitter_p99_ms"@, "observer_jitter_p99_delta_ms"@]
            &&& metric_values(r.metrics@) == seq![
                Some(clamp_i64(sample_count * 1000)),
                Some(observer_ms_milli),
                Some(artifact_write_ms_milli),
                baseline_p99,
                observed_p99,
                match milli_delta(baseline_p99, observed_p99) { Some(d) => Some(clamp_i64(d)), None => None },
            ]
            &&& r.safety.cleanup_verified == cleanup_verified
            &&& views(r.safety.cleanup@) == seq!["removed "@ + removed_path@]
        }),
{
    let jitter_delta = milli_delta_exec(baseline_p99, observed_p99);
    let delta_value: Option<i64> = match jitter_delta {
        Some(d) => Some(clamp_milli(d)),
        None => None,
    };
    let metrics = vec![
        metric("observer_samples", Some(count_milli(sample_count as i128)), "count", None),
        metric("observer_loop_ms", Some(observer_ms_milli), "ms", None),
        metric("artifact_write_latency_ms", Some(artifact_write_ms_milli), "ms", None),
        metric("baseline_jitter_p99_ms", baseline_p99, "ms", None),
        metric("observer_jitter_p99_ms", observed_p99, "ms", None),
        metric("observer_jitter_p99_delta_ms", delta_value, "ms", None),
    ];
    let effect = jitter_delta.is_some() || sample_count > 0;
    let cleanup = crate::text::single(concat("removed ", removed_path).as_str());
    let mut r = result(
        target_id,
        ResourcePressureKind::ObserverPressure,
        ContractEvidenceStatus::MeasuredPartial,
        elapsed_ms,
        governor,
        vec![factor("observer_sample_sleep_ms", owned("10"))],
        vec![factor("artifact_write", owned("temp_json"))],
        owned_all(&crate::text::strs2("scheduler noise", "filesystem cache state")),
        metrics,
        vec![
            side_effect("latency", ContractEvidenceStatus::MeasuredPartial,
                "observer-on p99 jitter compared against a bounded baseline", Vec::new()),
            side_effect("storage", ContractEvidenceStatus::MeasuredPartial,
                "small artifact write latency measured and cleaned up", Vec::new()),
        ],
        safety(options, cleanup_verified, cleanup),
        crate::text::single("bounded observer sampling and artifact-write overhead were measured"),
        crate::text::single("default low-overhead claims require cadence-specific repeated evidence"),
    );
    r.evidence_class = ResourcePressureEvidenceClass::PairedPressure;
    r.intensity = PressureIntensity {
        requested: concat(decimal_string(sample_count).as_str(), " observer samples plus one artifact write"),
        relative_to_target: owned("bounded observer-off/on comparison; not a production logging cadence"),
        pressure_effect_observed: effect,
    };
    let basis = vec![
        concat("observer_samples=", decimal_string(sample_count).as_str()),
        concat("artifact_write_latency_ms=", milli_string(artifact_write_ms_milli as i128).as_str()),
        concat("observer_jitter_p99_delta_ms=", format_optional_milli(jitter_delta).as_str()),
    ];
    r.pressure_effect = PressureEffect { observed: effect, basis };
    r.condition.workers = Some(owned("n/a"));
    proof {
        assert(views(r.pressure_effect.basis@) =~= seq![
            "observer_samples="@ + decimal(sample_count as nat),
            "artifact_write_latency_ms="@ + milli_text(artifact_write_ms_milli as int),
            "observer_jitter_p99_delta_ms="@ + optional_milli_text(milli_delta(baseline_p99, observed_p99)),
        ]);
        assert(metric_ids(r.metrics@) =~= seq!["observer_samples"@, "observer_loop_ms"@, "artifact_write_latency_ms"@,
            "baseline_jitter_p99_ms"@, "observer_jitter_p99_ms"@, "observer_jitter_p99_delta_ms"@]);
        assert(metric_values(r.metrics@) =~= seq![
            Some(clamp_i64(sample_count * 1000)),
            Some(observer_ms_milli),
            Some(artifact_write_ms_milli),
            baseline_p99,
            observed_p99,
            match milli_delta(baseline_p99, observed_p99) { Some(d) => Some(clamp_i64(d)), None => None },
        ]);
        assert(views(r.safety.cleanup@) =~= seq!["removed "@ + removed_path@]);
    }
    r
}

/// A metric as plain values: name, value, unit and note.
pub open spec fn metric_view(m: ResourceMetric) -> (Seq<char>, Option<i64>, Seq<char>, Option<Seq<char>>) {
    (m.metric_id@, m.value_milli, m.unit@, match m.note { Some(n) => Some(n@), None => None })
}

/// Metrics as plain values.
pub open spec fn metrics_view(ms: Seq<ResourceMetric>) -> Seq<(Seq<char>, Option<i64>, Seq<char>, Option<Seq<char>>)> {
    ms.map_values(|m: ResourceMetric| metric_view(m))
}

/// A copy of metrics.
pub fn copy_metrics(v: &Vec<ResourceMetric>) -> (r: Vec<ResourceMetric>)
    ensures
        metrics_view(r@) == metrics_view(v@),
        r@.len() == v@.len(),
{
    let mut r: Vec<ResourceMetric> = Vec::new();
    let mut i: usize = 0;
    while i < v.len()
        invariant
            i <= v@.len(),
            r@.len() == i,
            metrics_view(r@) == metrics_view(v@).take(i as int),
        decreases v.len() - i,
    {
        let m = &v[i];
        let note = match &m.note {
            Some(n) => Some(owned(n.as_str())),
            None => None,
        };
        let ghost prev = r@;
        r.push(ResourceMetric { metric_id: owned(m.metric_id.as_str()), value_milli: m.value_milli, unit: owned(m.unit.as_str()), note });
        proof {
            assert(r@ == prev.push(r@.last()));
            assert(metrics_view(r@) =~= metrics_view(v@).take(i + 1));
        }
        i = i + 1;
    }
    proof {
        assert(metrics_view(v@).take(v@.len() as int) =~= metrics_view(v@));
    }
    r
}

/// Whether the memory phase of a composite probe and at least one of the
/// other phases observed an effect: the storage phase, or a rise of the
/// lateness p99 under pressure over the baseline.
pub open spec fn composite_effect_spec(
    memory_effect: bool,
    storage_effect: bool,
    baseline_p99: Option<i64>,
    pressure_p99: Option<i64>,
) -> bool {
    memory_effect && (storage_effect || positive_spec(milli_delta(baseline_p99, pressure_p99)))
}

/// The names of the phases of a composite probe, in order.
pub open spec fn phase_ids(phases: Seq<CompositeBoundaryPhase>) -> Seq<Seq<char>> {
    phases.map_values(|p: CompositeBoundaryPhase| p.phase_id@)
}

/// `a / b` rounded up.
pub open spec fn div_ceil_spec(a: u64, b: u64) -> u64 {
    if a % b == 0 { (a / b) as u64 } else { (a / b + 1) as u64 }
}

/// The result of the memory+storage+jitter composite probe: a baseline
/// jitter run, then an anonymous allocation touched and held (meminfo,
/// vmstat and the memory pressure average read before and after touching)
/// while a storage run and a second jitter run took place, then the
/// allocation released and `MemAvailable` read again after a pause.
pub fn memory_storage_jitter_result(
    target_id: String,
    options: &PressureProbeOptions,
    elapsed_ms: u64,
    baseline: &ResourcePressureResult,
    storage: &ResourcePressureResult,
    jitter_under_pressure: &ResourcePressureResult,
    touched_checksum: u64,
    before_mem: &Vec<(String, u64)>,
    after_touch_mem: &Vec<(String, u64)>,
    recovery_mem: &Vec<(String, u64)>,
    before_vm: &Vec<(String, u64)>,
    after_touch_vm: &Vec<(String, u64)>,
    before_psi: Option<i64>,
    after_touch_psi: Option<i64>,
) -> (r: CompositeBoundaryResult)
    ensures
        ({
            let memory_effect = memory_effect_spec(before_vm@, after_touch_vm@, before_psi, after_touch_psi);
            let effect = composite_effect_spec(memory_effect, storage.pressure_effect.observed,
                metric_value_spec(baseline.metrics@, "jitter_p99_ms"@),
                metric_value_spec(jitter_under_pressure.metrics@, "jitter_p99_ms"@));
            &&& r.schema_version@ == "lab.composite_boundary_result.v1"@
            &&& exists|n: nat| r.result_id@ == "COMPOSITE-"@ + decimal(n)
            &&& r.target_id@ == target_id@
            &&& r.scenario == CompositeBoundaryScenario::MemoryStorageJitter
            &&& r.status == (if effect { ContractEvidenceStatus::MeasuredPartial } else { ContractEvidenceStatus::Insufficient })
            &&& r.coupling_evidence_class == ResourceCouplingEvidenceClass::CompositeMeasured
            &&& r.duration_ms == elapsed_ms
            &&& phase_ids(r.phases@) == seq!["baseline_jitter"@, "memory_hold"@, "storage_under_memory"@,
                "jitter_after_memory_storage"@, "recovery"@]
            &&& r.phases@[0].status == baseline.status && metrics_view(r.phases@[0].metrics@) == metrics_view(baseline.metrics@)
            &&& r.phases@[1].status == (if memory_effect { ContractEvidenceStatus::MeasuredPartial } else { ContractEvidenceStatus::Insufficient })
            &&& r.phases@[2].status == storage.status && metrics_view(r.phases@[2].metrics@) == metrics_view(storage.metrics@)
            &&& r.phases@[3].status == jitter_under_pressure.status
            &&& metrics_view(r.phases@[3].metrics@) == metrics_view(jitter_under_pressure.metrics@).push(metric_view(r.phases@[3].metrics@.last()))
            &&& r.phases@[3].metrics@.last().metric_id@ == "jitter_p99_delta_ms"@
            &&& r.phases@[3].metrics@.last().value_milli == (match milli_delta(
                metric_value_spec(baseline.metrics@, "jitter_p99_ms"@),
                metric_value_spec(jitter_under_pressure.metrics@, "jitter_p99_ms"@)) {
                    Some(d) => Some(clamp_i64(d)), None => None })
            &&& r.phases@[4].status == ContractEvidenceStatus::MeasuredPartial
            &&& r.phases@[4].metrics@.len() == 1
            &&& r.phases@[4].metrics@[0].value_milli == delta_value(entry_delta(before_mem@, recovery_mem@, "MemAvailable"@))
            &&& r.safety.duration_seconds_max == div_ceil_spec(elapsed_ms, 1000)
            &&& r.safety.memory_bytes_max == options.memory_bytes
            &&& r.safety.storage_bytes_max == options.storage_bytes
            &&& r.safety.network_bytes_max == 0
            &&& r.safety.cleanup_verified == storage.safety.cleanup_verified
            &&& r.evidence_refs@.len() == 0
            &&& views(r.claim_supported@) == seq!["phase-based memory+storage+jitter composite probe completed in one target process"@]
            &&& views(r.claim_blocked@) == seq![
                "memory resident budget remains blocked until laddered pressure produces reclaim/PSI/fault evidence"@,
                "simultaneous storage+jitter execution and sustained storage cadence remain unmeasured"@,
            ]
            &&& r.next_evidence_needed@.len() == 2
        }),
{
    let bytes = options.memory_bytes;
    let mem_available_delta = entry_delta_exec(before_mem, after_touch_mem, "MemAvailable");
    let pgscan_delta = entry_delta_exec(before_vm, after_touch_vm, "pgscan_kswapd");
    let pgsteal_delta = entry_delta_exec(before_vm, after_touch_vm, "pgsteal_kswapd");
    let major_faults_delta = entry_delta_exec(before_vm, after_touch_vm, "pgmajfault");
    let psi_delta = milli_delta_exec(before_psi, after_touch_psi);
    let memory_effect = positive_delta(pgscan_delta) || positive_delta(pgsteal_delta)
        || positive_delta(major_faults_delta) || positive_delta(psi_delta);
    let recovery_delta = entry_delta_exec(before_mem, recovery_mem, "MemAvailable");
    let baseline_p99 = metric_value(&baseline.metrics, "jitter_p99_ms");
    let pressure_p99 = metric_value(&jitter_under_pressure.metrics, "jitter_p99_ms");
    let jitter_delta = milli_delta_exec(baseline_p99, pressure_p99);
    let effect = memory_effect && (storage.pressure_effect.observed || positive_delta(jitter_delta));
    let psi_value: Option<i64> = match psi_delta {
        Some(d) => Some(clamp_milli(d)),
        None => None,
    };
    let jitter_value: Option<i64> = match jitter_delta {
        Some(d) => Some(clamp_milli(d)),
        None => None,
    };
    let mut jitter_metrics = copy_metrics(&jitter_under_pressure.metrics);
    let ghost jm0 = jitter_metrics@;
    jitter_metrics.push(metric("jitter_p99_delta_ms", jitter_value, "ms",
        Some(owned("under-pressure p99 minus baseline p99"))));
    let memory_status = if memory_effect { ContractEvidenceStatus::MeasuredPartial } else { ContractEvidenceStatus::Insufficient };
    let phases = vec![
        CompositeBoundaryPhase {
            phase_id: owned("baseline_jitter"),
            pressure_kind: owned("latency_jitter"),
            status: baseline.status,
            summary: owned("baseline monotonic jitter before memory/storage pressure"),
            metrics: copy_metrics(&baseline.metrics),
        },
        CompositeBoundaryPhase {
            phase_id: owned("memory_hold"),
            pressure_kind: owned("memory_pressure"),
            status: memory_status,
            summary: owned("anonymous memory was allocated, touched, and held while storage and jitter phases ran"),
            metrics: vec![
                metric("anonymous_bytes_touched", Some(count_milli(bytes as i128)), "bytes", None),
                metric("mem_available_delta_kb", delta_metric_value(mem_available_delta), "KiB", None),
                metric("pgscan_delta", delta_metric_value(pgscan_delta), "count", None),
                metric("pgsteal_delta", delta_metric_value(pgsteal_delta), "count", None),
                metric("major_faults_delta", delta_metric_value(major_faults_delta), "count", None),
                metric("memory_psi_some_avg10_delta", psi_value, "ratio",
                    Some(owned("null when /proc/pressure/memory is unavailable"))),
                metric("touch_checksum", Some(count_milli(touched_checksum as i128)), "count", None),
            ],
        },
        CompositeBoundaryPhase {
            phase_id: owned("storage_under_memory"),
            pressure_kind: owned("storage_io"),
            status: storage.status,
            summary: owned("bounded tempfile write/read ran while anonymous memory allocation was held"),
            metrics: copy_metrics(&storage.metrics),
        },
        CompositeBoundaryPhase {
            phase_id: owned("jitter_after_memory_storage"),
            pressure_kind: owned("latency_jitter"),
            status: jitter_under_pressure.status,
            summary: owned("monotonic jitter ran while anonymous allocation remained held after storage I/O"),
            metrics: jitter_metrics,
        },
        CompositeBoundaryPhase {
            phase_id: owned("recovery"),
            pressure_kind: owned("recovery"),
            status: ContractEvidenceStatus::MeasuredPartial,
            summary: owned("memory allocation was released and MemAvailable was sampled after a short recovery pause"),
            metrics: vec![metric("mem_available_recovery_delta_kb", delta_metric_value(recovery_delta), "KiB",
                Some(owned("post-release MemAvailable minus baseline MemAvailable")))],
        },
    ];
    let result_id = crate::ids::new_id("COMPOSITE");
    proof {
        reveal_strlit("COMPOSITE");
        reveal_strlit("-");
        reveal_strlit("COMPOSITE-");
        assert("COMPOSITE"@ + seq!['-'] =~= "COMPOSITE-"@);
    }
    let seconds_max = if elapsed_ms % 1000 == 0 { elapsed_ms / 1000 } else { elapsed_ms / 1000 + 1 };
    let gap_one = evidence_gap(
        "memory pressure effect was not necessarily induced by the bounded allocation",
        "larger approved memory ladder with recovery",
        &crate::text::strs3("pressure_effect_observed", "recovery repeat", "page-cache side effect"),
        "run approved ladder before resident-memory design budgets",
        "operator_approval",
    );
    let gap_two = evidence_gap(
        "storage and jitter phases are sequential under held memory, not concurrent",
        "concurrent storage+jitter composite runner",
        &crate::text::strs2("storage I/O while jitter loop runs", "tail latency under active I/O"),
        "add a concurrent paired-pressure runner before real-time-ish storage claims",
        "adc-lab",
    );
    let r = CompositeBoundaryResult {
        schema_version: owned("lab.composite_boundary_result.v1"),
        result_id,
        target_id,
        scenario: CompositeBoundaryScenario::MemoryStorageJitter,
        status: if effect { ContractEvidenceStatus::MeasuredPartial } else { ContractEvidenceStatus::Insufficient },
        coupling_evidence_class: ResourceCouplingEvidenceClass::CompositeMeasured,
        duration_ms: elapsed_ms,
        controlled_factors: vec![
            factor("anonymous_memory_bytes", decimal_string(bytes)),
            factor("tempfile_bytes", decimal_string(options.storage_bytes)),
            factor("jitter_interval_ms", owned("1")),
        ],
        observed_covariates: vec![
            factor("meminfo", owned("before_touch_recovery")),
            factor("vmstat", owned("before_after_touch")),
            factor("storage_latency", owned("write_read_ms")),
            factor("jitter", owned("baseline_and_under_pressure")),
        ],
        uncontrolled_confounders: owned_all(&crate::text::strs3(
            "kernel reclaim policy",
            "filesystem cache state",
            "background scheduler and interrupt load",
        )),
        phases,
        safety: PressureSafety {
            duration_seconds_max: seconds_max,
            memory_bytes_max: options.memory_bytes,
            storage_bytes_max: options.storage_bytes,
            network_bytes_max: 0,
            abort_conditions: owned_all(&crate::text::strs2(
                "duration ceiling for each component phase",
                "operator can terminate adc-lab command",
            )),
            cleanup: owned_all(&crate::text::strs2(
                "allocation released by process scope",
                "storage tempfile cleanup delegated to storage phase",
            )),
            cleanup_verified: storage.safety.cleanup_verified,
        },
        evidence_refs: Vec::new(),
        claim_supported: crate::text::single("phase-based memory+storage+jitter composite probe completed in one target process"),
        claim_blocked: owned_all(&crate::text::strs2(
            "memory resident budget remains blocked until laddered pressure produces reclaim/PSI/fault evidence",
            "simultaneous storage+jitter execution and sustained storage cadence remain unmeasured",
        )),
        next_evidence_needed: vec![gap_one, gap_two],
        time_unix_ms: crate::ids::now_unix_ms(),
    };
    proof {
        assert(phase_ids(r.phases@) =~= seq!["baseline_jitter"@, "memory_hold"@, "storage_under_memory"@,
            "jitter_after_memory_storage"@, "recovery"@]);
        assert(r.phases@[3].metrics@ =~= jm0.push(r.phases@[3].metrics@.last()));
        assert(metrics_view(r.phases@[3].metrics@) =~= metrics_view(jm0).push(metric_view(r.phases@[3].metrics@.last())));
        assert(views(r.claim_blocked@) =~= seq![
            "memory resident budget remains blocked until laddered pressure produces reclaim/PSI/fault evidence"@,
            "simultaneous storage+jitter execution and sustained storage cadence remain unmeasured"@,
        ]);
    }
    r
}

} // verus!
