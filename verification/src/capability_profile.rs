//! The claims a target capability profile supports and blocks, and the
//! evidence it asks for, from the counts of its observed results and the
//! run manifest's data quality.

use crate::contracts::RunManifest;
use crate::error::{LabError, LabResult};
use crate::run_validation::{is_blank, is_blank_str};
use crate::text::{concat, contains, contains_seq, owned, owned_all, str_eq, str_views, views};
use vstd::prelude::*;

verus! {

/// A run manifest records an inconsistent release or run identity.
pub open spec fn identity_inconsistent_spec(manifest: Option<RunManifest>) -> bool {
    match manifest {
        Some(m) => names_identity(m.data_quality.inconsistent@),
        None => false,
    }
}

fn item_names_identity(item: &str) -> (r: bool)
    ensures
        r == (contains_seq(item@, "adc-lab version"@) || contains_seq(item@, "adc-lab git_sha"@)
            || contains_seq(item@, "release manifest version"@) || contains_seq(item@, "run_id"@)),
{
    contains(item, "adc-lab version") || contains(item, "adc-lab git_sha") || contains(item, "release manifest version")
        || contains(item, "run_id")
}

/// Some item names an adc-lab version or revision, a release manifest
/// version or a run identifier.
pub open spec fn names_identity(items: Seq<String>) -> bool {
    exists|i: int| 0 <= i < items.len() && {
        let item = (#[trigger] items[i])@;
        contains_seq(item, "adc-lab version"@) || contains_seq(item, "adc-lab git_sha"@)
            || contains_seq(item, "release manifest version"@) || contains_seq(item, "run_id"@)
    }
}

fn any_names_identity(items: &Vec<String>) -> (r: bool)
    ensures
        r == names_identity(items@),
{
    let mut i: usize = 0;
    while i < items.len()
        invariant
            i <= items@.len(),
            forall|k: int| 0 <= k < i ==> {
                let item = (#[trigger] items@[k])@;
                !(contains_seq(item, "adc-lab version"@) || contains_seq(item, "adc-lab git_sha"@)
                    || contains_seq(item, "release manifest version"@) || contains_seq(item, "run_id"@))
            },
        decreases items.len() - i,
    {
        if item_names_identity(items[i].as_str()) {
            return true;
        }
        i = i + 1;
    }
    false
}

/// Whether a run manifest records an inconsistent adc-lab version or
/// revision, release manifest version or run identifier.
pub fn manifest_has_identity_inconsistency(manifest: Option<&RunManifest>) -> (r: bool)
    ensures
        r == identity_inconsistent_spec(match manifest { Some(m) => Some(*m), None => None }),
{
    match manifest {
        Some(m) => any_names_identity(&m.data_quality.inconsistent),
        None => false,
    }
}

/// What a profile's observed results support: passive samples, and
/// bounded workload results, completed only when none aborted.
pub open spec fn supported_claims_spec(observation_samples: u64, load_results: u64, aborts: u64) -> Seq<Seq<char>> {
    (if observation_samples > 0 {
        seq!["target produced passive observation samples under the current target policy"@]
    } else {
        Seq::empty()
    }) + (if load_results > 0 && aborts == 0 {
        seq!["target completed bounded workload short-smoke artifact(s) without recorded abort"@]
    } else if load_results > 0 {
        seq!["target produced bounded workload result artifact(s), but aborts block completion claims"@]
    } else {
        Seq::empty()
    })
}

/// The claims the observed results support.
pub fn supported_claims(observation_sample_count: u64, load_result_count: u64, abort_count: u64) -> (claims: Vec<String>)
    ensures
        views(claims@) == supported_claims_spec(observation_sample_count, load_result_count, abort_count),
{
    let mut claims: Vec<String> = Vec::new();
    if observation_sample_count > 0 {
        claims.push(owned("target produced passive observation samples under the current target policy"));
    }
    let ghost first = views(claims@);
    if load_result_count > 0 && abort_count == 0 {
        claims.push(owned("target completed bounded workload short-smoke artifact(s) without recorded abort"));
    } else if load_result_count > 0 {
        claims.push(owned("target produced bounded workload result artifact(s), but aborts block completion claims"));
    }
    proof {
        assert(views(claims@) =~= supported_claims_spec(observation_sample_count, load_result_count, abort_count));
    }
    claims
}

/// The claims a capability profile always blocks, and the formal
/// comparison when the release identity is inconsistent.
pub open spec fn profile_blocked_spec(inconsistent: bool) -> Seq<Seq<char>> {
    let base = seq![
        "Pi4 is sufficient for this workload"@,
        "Pi5 is required for this workload"@,
        "battery safe"@,
        "sustained production ready"@,
        "all operating points measured"@,
        "fixed-frequency behavior verified"@,
        "low overhead under all operating points"@,
    ];
    if inconsistent {
        base.push("formal comparison requires matching adc-lab and adc-lab-target release identity"@)
    } else {
        base
    }
}

/// The claims a capability profile blocks.
pub fn capability_blocked_claims(manifest: Option<&RunManifest>) -> (claims: Vec<String>)
    ensures
        views(claims@) == profile_blocked_spec(identity_inconsistent_spec(match manifest { Some(m) => Some(*m), None => None })),
{
    let items: Vec<&str> = vec![
        "Pi4 is sufficient for this workload",
        "Pi5 is required for this workload",
        "battery safe",
        "sustained production ready",
        "all operating points measured",
        "fixed-frequency behavior verified",
        "low overhead under all operating points",
    ];
    proof {
        assert(str_views(items@) =~= profile_blocked_spec(false));
    }
    let mut claims = owned_all(&items);
    if manifest_has_identity_inconsistency(manifest) {
        claims.push(owned("formal comparison requires matching adc-lab and adc-lab-target release identity"));
        proof {
            assert(views(claims@) =~= profile_blocked_spec(true));
        }
    }
    claims
}

/// The evidence a capability profile asks for next.
pub open spec fn next_needed_spec(observation_samples: u64, load_results: u64, inconsistent: bool) -> Seq<Seq<char>> {
    (if observation_samples == 0 { seq!["passive observation artifact for the workload run"@] } else { Seq::empty() })
        + (if load_results == 0 { seq!["bounded workload result artifact"@] } else { Seq::empty() })
        + seq![
            "Pi4/Pi5 same-suite target comparison"@,
            "30 minute sustained thermal run"@,
            "controlled operating point sweep"@,
            "latency/jitter measurement"@,
            "battery/power and storage/write evidence"@,
        ]
        + (if inconsistent { seq!["rerun with matching release binary identity and checksums"@] } else { Seq::empty() })
}

/// The evidence a capability profile asks for next.
pub fn next_evidence_needed(observation_sample_count: u64, load_result_count: u64, manifest: Option<&RunManifest>)
    -> (needed: Vec<String>)
    ensures
        views(needed@) == next_needed_spec(observation_sample_count, load_result_count,
            identity_inconsistent_spec(match manifest { Some(m) => Some(*m), None => None })),
{
    let mut needed: Vec<String> = Vec::new();
    if observation_sample_count == 0 {
        needed.push(owned("passive observation artifact for the workload run"));
    }
    let ghost first = views(needed@);
    proof {
        assert(first =~= (if observation_sample_count == 0 { seq!["passive observation artifact for the workload run"@] }
            else { Seq::empty() }));
    }
    if load_result_count == 0 {
        needed.push(owned("bounded workload result artifact"));
    }
    proof {
        assert(views(needed@) =~= first + (if load_result_count == 0 { seq!["bounded workload result artifact"@] }
            else { Seq::empty() }));
    }
    let fixed: Vec<&str> = vec![
        "Pi4/Pi5 same-suite target comparison",
        "30 minute sustained thermal run",
        "controlled operating point sweep",
        "latency/jitter measurement",
        "battery/power and storage/write evidence",
    ];
    proof {
        assert(str_views(fixed@) =~= seq![
            "Pi4/Pi5 same-suite target comparison"@,
            "30 minute sustained thermal run"@,
            "controlled operating point sweep"@,
            "latency/jitter measurement"@,
            "battery/power and storage/write evidence"@,
        ]);
    }
    crate::text::extend_all(&mut needed, &owned_all(&fixed));
    let ghost before = views(needed@);
    if manifest_has_identity_inconsistency(manifest) {
        needed.push(owned("rerun with matching release binary identity and checksums"));
    }
    proof {
        assert(views(needed@) =~= next_needed_spec(observation_sample_count, load_result_count,
            identity_inconsistent_spec(match manifest { Some(m) => Some(*m), None => None })));
    }
    needed
}

/// Why a workload profile is refused, if it is.
pub open spec fn workload_profile_refusal(
    schema_version: Seq<char>,
    workload_id: Seq<char>,
    description: Seq<char>,
    duration_seconds: u64,
    measurement_requirements: nat,
) -> Option<Seq<char>> {
    if schema_version != "lab.workload_profile.v1"@ {
        Some("unsupported workload profile schema_version "@ + schema_version)
    } else if is_blank(workload_id) {
        Some("workload_id must be non-empty"@)
    } else if is_blank(description) {
        Some("workload description must be non-empty"@)
    } else if duration_seconds == 0 {
        Some("workload duration_seconds must be > 0"@)
    } else if measurement_requirements == 0 {
        Some("workload measurement_requirements must be non-empty"@)
    } else {
        None
    }
}

/// Accepts a workload profile with the supported schema, an identifier, a
/// description, a duration and at least one measurement requirement.
pub fn validate_workload_profile(
    schema_version: &str,
    workload_id: &str,
    description: &str,
    duration_seconds: u64,
    measurement_requirements: usize,
) -> (r: LabResult<()>)
    ensures
        match workload_profile_refusal(schema_version@, workload_id@, description@, duration_seconds, measurement_requirements as nat) {
            Some(m) => r matches Err(LabError::Validation(got)) && got@ == m,
            None => r is Ok,
        },
{
    if !str_eq(schema_version, "lab.workload_profile.v1") {
        return Err(LabError::Validation(concat("unsupported workload profile schema_version ", schema_version)));
    }
    if is_blank_str(workload_id) {
        return Err(LabError::Validation(owned("workload_id must be non-empty")));
    }
    if is_blank_str(description) {
        return Err(LabError::Validation(owned("workload description must be non-empty")));
    }
    if duration_seconds == 0 {
        return Err(LabError::Validation(owned("workload duration_seconds must be > 0")));
    }
    if measurement_requirements == 0 {
        return Err(LabError::Validation(owned("workload measurement_requirements must be non-empty")));
    }
    Ok(())
}

/// What a workload requires of the target.  The thermal ceiling is in
/// thousandths of a degree and the latency ceiling in thousandths of a
/// millisecond.
#[derive(Debug, Clone, PartialEq, Eq)]
pub struct WorkloadRequirements {
    pub thermal_millicelsius_max: Option<i64>,
    pub max_abort_count: Option<u64>,
    pub memory_mb_max: Option<u64>,
    pub latency_p95_micros_max: Option<i64>,
}

/// A workload whose capability on a target is profiled.
#[derive(Debug, Clone, PartialEq, Eq)]
pub struct WorkloadProfile {
    pub schema_version: String,
    pub workload_id: String,
    pub description: String,
    pub workload_class: crate::contracts::WorkloadClass,
    pub duration_seconds: u64,
    pub requirements: WorkloadRequirements,
    pub measurement_requirements: Vec<String>,
    pub claim_boundary: crate::contracts::WorkloadClaimBoundary,
}

/// What a run's load results and observations show of a target.  The
/// temperature is in thousandths of a degree.
#[derive(Debug, Clone, PartialEq, Eq)]
pub struct ObservedCapabilityResults {
    pub max_temp_millicelsius: Option<i64>,
    pub abort_count: u64,
    pub cpu_frequency_range_khz: Option<Vec<u64>>,
    pub memory_available_kb_min: Option<u64>,
    pub max_load_duration_ms: u64,
    pub max_observation_duration_ms: u64,
    pub load_result_count: u64,
    pub observation_sample_count: u64,
}

/// How far a run's evidence goes toward a workload's capability.
#[derive(Debug, Clone, Copy, PartialEq, Eq, Structural)]
pub enum TargetCapabilityStatus {
    NoEvidence,
    ExploratoryPartial,
    MeasuredShortSmoke,
    InsufficientForSelection,
}

/// The capability profile of a target for a workload.
#[derive(Debug, Clone, PartialEq, Eq)]
pub struct TargetCapabilityProfile {
    pub schema_version: String,
    pub target_id: String,
    pub workload_id: String,
    pub evidence_pack_ref: Option<String>,
    pub capability_status: TargetCapabilityStatus,
    pub selection_ready: bool,
    pub supported_claims: Vec<String>,
    pub blocked_claims: Vec<String>,
    pub next_evidence_needed: Vec<String>,
    pub observed_results: ObservedCapabilityResults,
    pub evidence_refs: Vec<String>,
    pub time_unix_ms: u64,
}

/// Whether a load result counts as aborted: it records an abort reason or
/// did not complete.
pub open spec fn load_aborted(r: crate::load::LoadResult) -> bool {
    r.abort_reason is Some || r.status@ != "completed"@
}

/// The number of aborted load results.
pub open spec fn abort_count_spec(loads: Seq<crate::load::LoadResult>) -> nat
    decreases loads.len(),
{
    if loads.len() == 0 { 0 } else { abort_count_spec(loads.drop_last()) + if load_aborted(loads.last()) { 1nat } else { 0nat } }
}

/// The longest load duration, zero when there is none.
pub open spec fn max_load_duration(loads: Seq<crate::load::LoadResult>) -> u64
    decreases loads.len(),
{
    if loads.len() == 0 { 0 } else {
        let p = max_load_duration(loads.drop_last());
        if p >= loads.last().duration_ms { p } else { loads.last().duration_ms }
    }
}

/// The hottest reading of the loads' maxima.
pub open spec fn load_max_temp(loads: Seq<crate::load::LoadResult>) -> Option<i64>
    decreases loads.len(),
{
    if loads.len() == 0 { None } else {
        let p = load_max_temp(loads.drop_last());
        match (p, loads.last().max_observed_temp_millicelsius) {
            (Some(a), Some(b)) => Some(if a >= b { a } else { b }),
            (None, Some(b)) => Some(b),
            _ => p,
        }
    }
}

/// All samples of the observations, in order.
pub open spec fn all_samples(obs: Seq<crate::observe::ObservationResult>) -> Seq<crate::observe::ObservationSample>
    decreases obs.len(),
{
    if obs.len() == 0 { Seq::empty() } else { all_samples(obs.drop_last()) + obs.last().samples@ }
}

/// The longest observation duration, zero when there is none.
pub open spec fn max_observation_duration(obs: Seq<crate::observe::ObservationResult>) -> u64
    decreases obs.len(),
{
    if obs.len() == 0 { 0 } else {
        let p = max_observation_duration(obs.drop_last());
        if p >= obs.last().duration_ms { p } else { obs.last().duration_ms }
    }
}

/// A running maximum or minimum of optional readings.
pub open spec fn fold_opt(p: Option<u64>, v: Option<u64>, highest: bool) -> Option<u64> {
    match (p, v) {
        (Some(a), Some(b)) => Some(if highest { if a >= b { a } else { b } } else { if a <= b { a } else { b } }),
        (None, Some(b)) => Some(b),
        _ => p,
    }
}

/// The temperature, frequency range and available memory seen in samples,
/// starting from a temperature already seen.
pub open spec fn sample_fold(samples: Seq<crate::observe::ObservationSample>, start_temp: Option<i64>)
    -> (Option<i64>, Option<u64>, Option<u64>, Option<u64>)
    decreases samples.len(),
{
    if samples.len() == 0 {
        (start_temp, None, None, None)
    } else {
        let (t, lo, hi, mem) = sample_fold(samples.drop_last(), start_temp);
        let x = samples.last();
        (
            match (t, x.max_temp_millicelsius) {
                (Some(a), Some(b)) => Some(if a >= b { a } else { b }),
                (None, Some(b)) => Some(b),
                _ => t,
            },
            fold_opt(lo, x.avg_cpu_freq_khz, false),
            fold_opt(hi, x.avg_cpu_freq_khz, true),
            fold_opt(mem, x.memory_available_kb, false),
        )
    }
}

fn loads_fold(loads: &Vec<crate::load::LoadResult>) -> (r: (Option<i64>, u64, u64))
    requires
        loads@.len() < u64::MAX,
    ensures
        r.0 == load_max_temp(loads@),
        r.1 == abort_count_spec(loads@),
        r.2 == max_load_duration(loads@),
{
    let mut t: Option<i64> = None;
    let mut aborts: u64 = 0;
    let mut longest: u64 = 0;
    let mut i: usize = 0;
    while i < loads.len()
        invariant
            i <= loads@.len(),
            loads@.len() < u64::MAX,
            aborts <= i,
            t == load_max_temp(loads@.take(i as int)),
            aborts == abort_count_spec(loads@.take(i as int)),
            longest == max_load_duration(loads@.take(i as int)),
        decreases loads.len() - i,
    {
        proof {
            assert(loads@.take(i + 1).drop_last() =~= loads@.take(i as int));
        }
        let x = &loads[i];
        t = match (t, x.max_observed_temp_millicelsius) {
            (Some(a), Some(b)) => Some(if a >= b { a } else { b }),
            (None, Some(b)) => Some(b),
            _ => t,
        };
        if x.abort_reason.is_some() || !str_eq(x.status.as_str(), "completed") {
            aborts = aborts + 1;
        }
        if x.duration_ms > longest {
            longest = x.duration_ms;
        }
        i = i + 1;
    }
    proof {
        assert(loads@.take(loads@.len() as int) =~= loads@);
    }
    (t, aborts, longest)
}

/// What a run's load results and observations show: the hottest reading
/// of either, the aborted loads, the frequency range and lowest available
/// memory the samples saw, the longest load and observation, and how many
/// load results and samples there are.
pub fn observed_capability_results(
    loads: &Vec<crate::load::LoadResult>,
    observations: &Vec<crate::observe::ObservationResult>,
) -> (r: ObservedCapabilityResults)
    requires
        loads@.len() < u64::MAX,
        all_samples(observations@).len() < u64::MAX,
    ensures
        ({
            let folded = sample_fold(all_samples(observations@), load_max_temp(loads@));
            &&& r.max_temp_millicelsius == folded.0
            &&& r.abort_count == abort_count_spec(loads@)
            &&& match (folded.1, folded.2) {
                (Some(lo), Some(hi)) => r.cpu_frequency_range_khz matches Some(v) && v@ == seq![lo, hi],
                _ => r.cpu_frequency_range_khz is None,
            }
            &&& r.memory_available_kb_min == folded.3
            &&& r.max_load_duration_ms == max_load_duration(loads@)
            &&& r.max_observation_duration_ms == max_observation_duration(observations@)
            &&& r.load_result_count == loads@.len()
            &&& r.observation_sample_count == all_samples(observations@).len()
        }),
{
    let (load_temp, aborts, longest_load) = loads_fold(loads);
    let mut t = load_temp;
    let mut lo: Option<u64> = None;
    let mut hi: Option<u64> = None;
    let mut mem: Option<u64> = None;
    let mut count: u64 = 0;
    let mut longest_obs: u64 = 0;
    let mut i: usize = 0;
    while i < observations.len()
        invariant
            i <= observations@.len(),
            all_samples(observations@).len() < u64::MAX,
            count == all_samples(observations@.take(i as int)).len(),
            (t, lo, hi, mem) == sample_fold(all_samples(observations@.take(i as int)), load_temp),
            longest_obs == max_observation_duration(observations@.take(i as int)),
        decreases observations.len() - i,
    {
        proof {
            assert(observations@.take(i + 1).drop_last() =~= observations@.take(i as int));
            lemma_samples_prefix(observations@, i + 1);
        }
        let obs = &observations[i];
        let ghost before = all_samples(observations@.take(i as int));
        let mut j: usize = 0;
        while j < obs.samples.len()
            invariant
                j <= obs.samples@.len(),
                before.len() + obs.samples@.len() <= all_samples(observations@).len(),
                all_samples(observations@).len() < u64::MAX,
                count == before.len() + j,
                (t, lo, hi, mem) == sample_fold(before + obs.samples@.take(j as int), load_temp),
            decreases obs.samples.len() - j,
        {
            proof {
                assert((before + obs.samples@.take(j + 1)).drop_last() =~= before + obs.samples@.take(j as int));
                assert((before + obs.samples@.take(j + 1)).last() == obs.samples@[j as int]);
            }
            let x = &obs.samples[j];
            t = match (t, x.max_temp_millicelsius) {
                (Some(a), Some(b)) => Some(if a >= b { a } else { b }),
                (None, Some(b)) => Some(b),
                _ => t,
            };
            lo = match (lo, x.avg_cpu_freq_khz) {
                (Some(a), Some(b)) => Some(if a <= b { a } else { b }),
                (None, Some(b)) => Some(b),
                _ => lo,
            };
            hi = match (hi, x.avg_cpu_freq_khz) {
                (Some(a), Some(b)) => Some(if a >= b { a } else { b }),
                (None, Some(b)) => Some(b),
                _ => hi,
            };
            mem = match (mem, x.memory_available_kb) {
                (Some(a), Some(b)) => Some(if a <= b { a } else { b }),
                (None, Some(b)) => Some(b),
                _ => mem,
            };
            count = count + 1;
            j = j + 1;
        }
        proof {
            assert(obs.samples@.take(obs.samples@.len() as int) =~= obs.samples@);
            assert(all_samples(observations@.take(i + 1)) =~= before + obs.samples@);
        }
        if obs.duration_ms > longest_obs {
            longest_obs = obs.duration_ms;
        }
        i = i + 1;
    }
    proof {
        assert(observations@.take(observations@.len() as int) =~= observations@);
    }
    let range = match (lo, hi) {
        (Some(a), Some(b)) => Some(vec![a, b]),
        _ => None,
    };
    ObservedCapabilityResults {
        max_temp_millicelsius: t,
        abort_count: aborts,
        cpu_frequency_range_khz: range,
        memory_available_kb_min: mem,
        max_load_duration_ms: longest_load,
        max_observation_duration_ms: longest_obs,
        load_result_count: loads.len() as u64,
        observation_sample_count: count,
    }
}

proof fn lemma_samples_prefix(obs: Seq<crate::observe::ObservationResult>, k: int)
    requires
        0 <= k <= obs.len(),
    ensures
        all_samples(obs.take(k)).len() <= all_samples(obs).len(),
    decreases obs.len() - k,
{
    if k < obs.len() {
        lemma_samples_prefix(obs, k + 1);
        assert(obs.take(k + 1).drop_last() =~= obs.take(k));
    } else {
        assert(obs.take(k) =~= obs);
    }
}

/// Whether the observed results meet a workload's requirements for a
/// short smoke: long enough for the workload's class, within the abort
/// count (with some load run) and thermal ceiling it sets, no memory or
/// latency requirement (those are not measured), and some evidence.
pub open spec fn short_smoke_met(w: WorkloadProfile, o: ObservedCapabilityResults) -> bool {
    let required = if w.duration_seconds * 1000 > u64::MAX { u64::MAX as int } else { w.duration_seconds * 1000 };
    let long_enough = match w.workload_class {
        crate::contracts::WorkloadClass::SyntheticCpu => o.max_load_duration_ms >= required,
        crate::contracts::WorkloadClass::IdleObserve => o.max_observation_duration_ms >= required,
        crate::contracts::WorkloadClass::ApplicationWorkload => o.max_load_duration_ms >= required
            || o.max_observation_duration_ms >= required,
    };
    &&& long_enough
    &&& (w.requirements.max_abort_count matches Some(m) ==> o.abort_count <= m && o.load_result_count > 0)
    &&& (w.requirements.thermal_millicelsius_max matches Some(m) ==>
        (o.max_temp_millicelsius matches Some(t) && t <= m))
    &&& w.requirements.memory_mb_max is None
    &&& w.requirements.latency_p95_micros_max is None
    &&& (o.load_result_count > 0 || o.observation_sample_count > 0)
}

/// Whether the observed results meet a workload's requirements for a short smoke.
pub fn requirements_met_for_short_smoke(workload: &WorkloadProfile, observed: &ObservedCapabilityResults) -> (r: bool)
    ensures
        r == short_smoke_met(*workload, *observed),
{
    let required: u64 = if workload.duration_seconds > u64::MAX / 1000 { u64::MAX } else { workload.duration_seconds * 1000 };
    let long_enough = match workload.workload_class {
        crate::contracts::WorkloadClass::SyntheticCpu => observed.max_load_duration_ms >= required,
        crate::contracts::WorkloadClass::IdleObserve => observed.max_observation_duration_ms >= required,
        crate::contracts::WorkloadClass::ApplicationWorkload => {
            let longest = if observed.max_load_duration_ms >= observed.max_observation_duration_ms {
                observed.max_load_duration_ms
            } else {
                observed.max_observation_duration_ms
            };
            longest >= required
        },
    };
    if !long_enough {
        return false;
    }
    match workload.requirements.max_abort_count {
        Some(m) => {
            if observed.abort_count > m || observed.load_result_count == 0 {
                return false;
            }
        },
        None => {},
    }
    match workload.requirements.thermal_millicelsius_max {
        Some(m) => match observed.max_temp_millicelsius {
            None => return false,
            Some(t) => if t > m { return false; },
        },
        None => {},
    }
    if workload.requirements.memory_mb_max.is_some() || workload.requirements.latency_p95_micros_max.is_some() {
        return false;
    }
    observed.load_result_count > 0 || observed.observation_sample_count > 0
}

/// The capability status: no evidence without loads or samples; a
/// measured short smoke when the requirements are met; exploratory
/// otherwise.
pub open spec fn capability_status_spec(w: WorkloadProfile, o: ObservedCapabilityResults) -> TargetCapabilityStatus {
    if o.load_result_count == 0 && o.observation_sample_count == 0 {
        TargetCapabilityStatus::NoEvidence
    } else if short_smoke_met(w, o) {
        TargetCapabilityStatus::MeasuredShortSmoke
    } else {
        TargetCapabilityStatus::ExploratoryPartial
    }
}

/// The capability status of a target for a workload.
pub fn capability_status(workload: &WorkloadProfile, observed: &ObservedCapabilityResults) -> (s: TargetCapabilityStatus)
    ensures
        s == capability_status_spec(*workload, *observed),
{
    let has_load = observed.load_result_count > 0;
    let has_observation = observed.observation_sample_count > 0;
    if !has_load && !has_observation {
        return TargetCapabilityStatus::NoEvidence;
    }
    if requirements_met_for_short_smoke(workload, observed) {
        TargetCapabilityStatus::MeasuredShortSmoke
    } else {
        TargetCapabilityStatus::ExploratoryPartial
    }
}

/// The capability profile of a target for a workload, from what the run
/// holds: the run manifest's reference (when it exists) and the manifest,
/// and each load result and observation with its reference.  It is never
/// ready for selection; its evidence references are sorted, each once.
pub fn target_capability_profile(
    target_id: String,
    workload: WorkloadProfile,
    evidence_pack_ref: Option<String>,
    manifest: Option<RunManifest>,
    load_refs: Vec<String>,
    loads: Vec<crate::load::LoadResult>,
    observation_refs: Vec<String>,
    observations: Vec<crate::observe::ObservationResult>,
) -> (r: LabResult<TargetCapabilityProfile>)
    requires
        loads@.len() < u64::MAX,
        all_samples(observations@).len() < u64::MAX,
    ensures
        match workload_profile_refusal(workload.schema_version@, workload.workload_id@, workload.description@,
            workload.duration_seconds, workload.measurement_requirements@.len()) {
            Some(m) => r matches Err(LabError::Validation(got)) && got@ == m,
            None => r matches Ok(p) && {
                let o = p.observed_results;
                &&& p.schema_version@ == "lab.target_capability_profile.v1"@
                &&& p.target_id == target_id
                &&& p.workload_id == workload.workload_id
                &&& p.evidence_pack_ref == evidence_pack_ref
                &&& p.capability_status == capability_status_spec(workload, o)
                &&& !p.selection_ready
                &&& o.load_result_count == loads@.len()
                &&& o.observation_sample_count == all_samples(observations@).len()
                &&& o.abort_count == abort_count_spec(loads@)
                &&& views(p.supported_claims@) == supported_claims_spec(o.observation_sample_count, o.load_result_count, o.abort_count)
                &&& views(p.blocked_claims@) == profile_blocked_spec(identity_inconsistent_spec(manifest))
                &&& views(p.next_evidence_needed@) == next_needed_spec(o.observation_sample_count, o.load_result_count,
                    identity_inconsistent_spec(manifest))
                &&& crate::text::strictly_sorted(views(p.evidence_refs@))
                &&& forall|s: Seq<char>| views(p.evidence_refs@).contains(s) <==> (
                    crate::run_validation::opt_view(evidence_pack_ref) == Some(s)
                    || views(load_refs@).contains(s) || views(observation_refs@).contains(s))
            },
        },
{
    validate_workload_profile(workload.schema_version.as_str(), workload.workload_id.as_str(),
        workload.description.as_str(), workload.duration_seconds, workload.measurement_requirements.len())?;
    let observed = observed_capability_results(&loads, &observations);
    let status = capability_status(&workload, &observed);
    let mut refs: Vec<String> = Vec::new();
    match &evidence_pack_ref {
        Some(r) => refs.push(owned(r.as_str())),
        None => {},
    }
    let ghost head = views(refs@);
    crate::text::extend_all(&mut refs, &load_refs);
    crate::text::extend_all(&mut refs, &observation_refs);
    let ghost all = views(refs@);
    let evidence_refs = crate::text::sorted_unique(refs);
    proof {
        assert forall|s: Seq<char>| views(evidence_refs@).contains(s) <==> (
            crate::run_validation::opt_view(evidence_pack_ref) == Some(s)
            || views(load_refs@).contains(s) || views(observation_refs@).contains(s)) by {
            let a = views(load_refs@);
            let b = views(observation_refs@);
            assert(all =~= head + a + b);
            if all.contains(s) {
                let k = choose|k: int| 0 <= k < all.len() && all[k] == s;
                if k < head.len() {
                } else if k < head.len() + a.len() {
                    assert(a[k - head.len()] == s);
                } else {
                    assert(b[k - head.len() - a.len()] == s);
                }
            }
            if crate::run_validation::opt_view(evidence_pack_ref) == Some(s) {
                assert(all[0] == s);
            }
            if a.contains(s) {
                let k = choose|k: int| 0 <= k < a.len() && a[k] == s;
                assert(all[head.len() + k] == s);
            }
            if b.contains(s) {
                let k = choose|k: int| 0 <= k < b.len() && b[k] == s;
                assert(all[head.len() + a.len() + k] == s);
            }
        }
    }
    let manifest_ref: Option<&RunManifest> = match &manifest {
        Some(m) => Some(m),
        None => None,
    };
    let supported = supported_claims(observed.observation_sample_count, observed.load_result_count, observed.abort_count);
    let blocked = capability_blocked_claims(manifest_ref);
    let needed = next_evidence_needed(observed.observation_sample_count, observed.load_result_count, manifest_ref);
    Ok(TargetCapabilityProfile {
        schema_version: owned("lab.target_capability_profile.v1"),
        target_id,
        workload_id: workload.workload_id,
        evidence_pack_ref,
        capability_status: status,
        selection_ready: false,
        supported_claims: supported,
        blocked_claims: blocked,
        next_evidence_needed: needed,
        observed_results: observed,
        evidence_refs,
        time_unix_ms: crate::ids::now_unix_ms(),
    })
}

} // verus!
