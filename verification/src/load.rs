//! Bounded CPU load: the plan a load run follows and the checks that hold
//! a run to its plan before any worker starts.

use crate::contracts::{Actor, ActorKind, LoadRestoreOnAbortPolicy, LoadRestoreOnAbortStatus, LoadSafetyMonitorResult};
use crate::error::{LabError, LabResult};
use crate::ids::{new_id, now_unix_ms};
use crate::text::{concat, decimal, decimal_string, owned, str_eq};
use vstd::prelude::*;

verus! {

/// The longest CPU load the default policy allows, in seconds.
pub const MAX_CPU_LOAD_DURATION_SECONDS: u64 = 300;
/// How often the safety monitor samples during a load, in milliseconds.
pub const LOAD_SAFETY_MONITOR_INTERVAL_MS: u64 = 100;

#[derive(Debug, Clone, PartialEq, Eq)]
pub struct LoadSafetyMonitorPlan {
    pub sample_interval_ms: u64,
    pub thermal_abort_millicelsius: Option<i64>,
    pub operator_abort_enabled: bool,
    pub restore_on_abort: LoadRestoreOnAbortPolicy,
}

/// A bounded CPU load. Temperatures are in thousandths of a degree
/// Celsius.
#[derive(Debug, Clone, PartialEq, Eq)]
pub struct LoadPlan {
    pub schema_version: String,
    pub load_id: String,
    pub target_id: String,
    pub load_kind: String,
    pub workers: usize,
    pub duration_seconds: u64,
    pub abort_temp_millicelsius: Option<i64>,
    pub safety_monitor: LoadSafetyMonitorPlan,
    pub created_by: Actor,
    pub time_unix_ms: u64,
}

/// Why a load plan is refused, if it is, as whether the policy refuses it
/// (else it is invalid) and the message: no workers, no duration, longer
/// than the policy allows, or more workers than the machine runs in
/// parallel.
pub open spec fn load_plan_refusal(workers: usize, duration_secs: u64, duration_nanos: u32, max_workers: usize) -> Option<(bool, Seq<char>)> {
    let seconds = if duration_secs == 0 { 1 } else { duration_secs as int };
    if workers == 0 {
        Some((false, "workers must be >= 1"@))
    } else if duration_secs == 0 && duration_nanos == 0 {
        Some((false, "duration must be > 0"@))
    } else if seconds > MAX_CPU_LOAD_DURATION_SECONDS {
        Some((true, "cpu load duration must be <= 300s by default policy"@))
    } else if workers > max_workers {
        Some((true, "cpu load workers must be <= available parallelism ("@ + decimal(max_workers as nat)
            + ") by default policy"@))
    } else {
        None
    }
}

/// `e` is the refusal `(policy, message)`.
pub open spec fn refused_as(e: LabError, refusal: (bool, Seq<char>)) -> bool {
    if refusal.0 {
        e matches LabError::Policy(m) && m@ == refusal.1
    } else {
        e matches LabError::Validation(m) && m@ == refusal.1
    }
}

/// A CPU load plan for the given workers and duration (whole seconds and
/// the remaining nanoseconds), with the safety monitor set to the runtime
/// policy. `max_workers` is the machine's available parallelism.
pub fn new_cpu_load_plan_with_operator_abort(
    target_id: String,
    workers: usize,
    duration_secs: u64,
    duration_nanos: u32,
    abort_temp_millicelsius: Option<i64>,
    operator_abort_enabled: bool,
    max_workers: usize,
) -> (r: LabResult<LoadPlan>)
    ensures
        match load_plan_refusal(workers, duration_secs, duration_nanos, max_workers) {
            Some(e) => r matches Err(got) && refused_as(got, e),
            None => r matches Ok(p) && {
                &&& p.schema_version@ == "lab.load_plan.v1"@
                &&& exists|n: nat| p.load_id@ == "LOAD-"@ + decimal(n)
                &&& p.target_id@ == target_id@
                &&& p.load_kind@ == "cpu"@
                &&& p.workers == workers
                &&& p.duration_seconds == (if duration_secs == 0 { 1 } else { duration_secs })
                &&& p.abort_temp_millicelsius == abort_temp_millicelsius
                &&& p.safety_monitor == (LoadSafetyMonitorPlan {
                    sample_interval_ms: LOAD_SAFETY_MONITOR_INTERVAL_MS,
                    thermal_abort_millicelsius: abort_temp_millicelsius,
                    operator_abort_enabled,
                    restore_on_abort: LoadRestoreOnAbortPolicy::NotRequired,
                })
                &&& p.created_by.kind == ActorKind::Agent
                &&& p.created_by.id@ == "codex"@
            },
        },
{
    if workers == 0 {
        return Err(LabError::Validation(owned("workers must be >= 1")));
    }
    if duration_secs == 0 && duration_nanos == 0 {
        return Err(LabError::Validation(owned("duration must be > 0")));
    }
    let duration_seconds = if duration_secs == 0 { 1 } else { duration_secs };
    if duration_seconds > MAX_CPU_LOAD_DURATION_SECONDS {
        return Err(LabError::Policy(owned("cpu load duration must be <= 300s by default policy")));
    }
    if workers > max_workers {
        let n = decimal_string(max_workers as u64);
        let a = concat("cpu load workers must be <= available parallelism (", n.as_str());
        return Err(LabError::Policy(concat(a.as_str(), ") by default policy")));
    }
    let load_id = new_id("LOAD");
    proof {
        reveal_strlit("LOAD");
        reveal_strlit("-");
        reveal_strlit("LOAD-");
        assert("LOAD"@ + seq!['-'] =~= "LOAD-"@);
    }
    Ok(LoadPlan {
        schema_version: owned("lab.load_plan.v1"),
        load_id,
        target_id,
        load_kind: owned("cpu"),
        workers,
        duration_seconds,
        abort_temp_millicelsius,
        safety_monitor: LoadSafetyMonitorPlan {
            sample_interval_ms: LOAD_SAFETY_MONITOR_INTERVAL_MS,
            thermal_abort_millicelsius: abort_temp_millicelsius,
            operator_abort_enabled,
            restore_on_abort: LoadRestoreOnAbortPolicy::NotRequired,
        },
        created_by: Actor::codex(),
        time_unix_ms: now_unix_ms(),
    })
}

/// A CPU load plan without operator abort.
pub fn new_cpu_load_plan(
    target_id: String,
    workers: usize,
    duration_secs: u64,
    duration_nanos: u32,
    abort_temp_millicelsius: Option<i64>,
    max_workers: usize,
) -> (r: LabResult<LoadPlan>)
    ensures
        match load_plan_refusal(workers, duration_secs, duration_nanos, max_workers) {
            Some(e) => r matches Err(got) && refused_as(got, e),
            None => r matches Ok(p) && p.workers == workers && !p.safety_monitor.operator_abort_enabled
                && p.target_id@ == target_id@ && p.abort_temp_millicelsius == abort_temp_millicelsius
                && p.duration_seconds == (if duration_secs == 0 { 1 } else { duration_secs }),
        },
{
    new_cpu_load_plan_with_operator_abort(target_id, workers, duration_secs, duration_nanos, abort_temp_millicelsius, false, max_workers)
}

/// Why a load run is refused before it starts, if it is: a kind other
/// than CPU, or a safety monitor or operator-abort setting that departs
/// from the plan or the runtime.
pub open spec fn load_run_refusal(plan: LoadPlan, operator_abort_file_present: bool) -> Option<Seq<char>> {
    if plan.load_kind@ != "cpu"@ {
        Some("only cpu load is supported"@)
    } else if plan.safety_monitor.sample_interval_ms != LOAD_SAFETY_MONITOR_INTERVAL_MS {
        Some("load safety monitor interval does not match runtime policy"@)
    } else if plan.safety_monitor.thermal_abort_millicelsius != plan.abort_temp_millicelsius {
        Some("load safety monitor thermal abort does not match load plan"@)
    } else if plan.safety_monitor.operator_abort_enabled != operator_abort_file_present {
        Some("operator abort plan/runtime option mismatch"@)
    } else {
        None
    }
}

/// Holds a load run to its plan: `operator_abort_file_present` says
/// whether the runtime watches an operator abort file.
pub fn validate_cpu_load_run(plan: &LoadPlan, operator_abort_file_present: bool) -> (r: LabResult<()>)
    ensures
        match load_run_refusal(*plan, operator_abort_file_present) {
            Some(m) => r matches Err(LabError::Validation(got)) && got@ == m,
            None => r is Ok,
        },
{
    if !str_eq(plan.load_kind.as_str(), "cpu") {
        return Err(LabError::Validation(owned("only cpu load is supported")));
    }
    if plan.safety_monitor.sample_interval_ms != LOAD_SAFETY_MONITOR_INTERVAL_MS {
        return Err(LabError::Validation(owned("load safety monitor interval does not match runtime policy")));
    }
    if plan.safety_monitor.thermal_abort_millicelsius != plan.abort_temp_millicelsius {
        return Err(LabError::Validation(owned("load safety monitor thermal abort does not match load plan")));
    }
    if plan.safety_monitor.operator_abort_enabled != operator_abort_file_present {
        return Err(LabError::Validation(owned("operator abort plan/runtime option mismatch")));
    }
    Ok(())
}

/// What the runtime needs besides the plan: the operator abort file it
/// watches, if any.
#[derive(Debug, Clone, Default)]
pub struct CpuLoadRuntimeOptions {
    pub operator_abort_file: Option<String>,
}

/// The safety monitor's record while a load runs.
#[derive(Debug, Clone, PartialEq, Eq)]
pub struct LoadMonitorState {
    pub samples: u64,
    pub max_temp_millicelsius: Option<i64>,
    pub thermal_surface_available: bool,
    pub operator_abort_observed: bool,
    pub abort_reason: Option<String>,
}

impl LoadMonitorState {
    /// No sample taken yet.
    pub fn start() -> (s: Self)
        ensures
            s.samples == 0,
            s.max_temp_millicelsius is None,
            !s.thermal_surface_available,
            !s.operator_abort_observed,
            s.abort_reason is None,
    {
        LoadMonitorState {
            samples: 0,
            max_temp_millicelsius: None,
            thermal_surface_available: false,
            operator_abort_observed: false,
            abort_reason: None,
        }
    }
}

/// Thousandths of a degree written as degrees with one decimal, rounded
/// half up.
pub open spec fn tenths_text(milli: int) -> Seq<char> {
    let a = if milli < 0 { -milli } else { milli };
    let tenths = (a + 50) / 100;
    (if milli < 0 && tenths > 0 { "-"@ } else { Seq::<char>::empty() }) + decimal((tenths / 10) as nat) + "."@
        + seq![crate::text::digit_char(tenths % 10)]
}

pub fn tenths_string(milli: i64) -> (s: String)
    ensures
        s@ == tenths_text(milli as int),
{
    let a: u64 = if milli < 0 { (-(milli as i128)) as u64 } else { milli as u64 };
    let tenths: u64 = a / 100 + if a % 100 >= 50 { 1 } else { 0 };
    proof {
        assert(tenths == (a + 50) / 100);
    }
    let head = decimal_string(tenths / 10);
    let mut s = if milli < 0 && tenths > 0 { concat("-", head.as_str()) } else { head };
    s.append(".");
    s.append(crate::text::digit_str(tenths % 10));
    proof {
        reveal_strlit("-");
        reveal_strlit(".");
        assert(s@ =~= tenths_text(milli as int));
    }
    s
}

/// The higher of a recorded maximum and a new reading.
pub open spec fn raised_max(m: Option<i64>, t: i64) -> Option<i64> {
    match m {
        Some(v) => Some(if v >= t { v } else { t }),
        None => Some(t),
    }
}

/// Takes one safety-monitor sample and says whether the load must stop.
/// When the operator abort was requested the load aborts; otherwise a
/// temperature reading marks the thermal surface available, raises the
/// maximum, and aborts the load when it reaches the plan's threshold.
pub fn monitor_step(state: &mut LoadMonitorState, plan: &LoadPlan, abort_requested: bool, temp: Option<i64>) -> (stop: bool)
    requires
        old(state).samples < u64::MAX,
    ensures
        final(state).samples == old(state).samples + 1,
        abort_requested ==> {
            &&& stop
            &&& final(state).operator_abort_observed
            &&& final(state).abort_reason matches Some(r) && r@ == "operator_abort"@
            &&& final(state).max_temp_millicelsius == old(state).max_temp_millicelsius
            &&& final(state).thermal_surface_available == old(state).thermal_surface_available
        },
        !abort_requested ==> final(state).operator_abort_observed == old(state).operator_abort_observed,
        !abort_requested && temp is None ==> {
            &&& !stop
            &&& final(state).max_temp_millicelsius == old(state).max_temp_millicelsius
            &&& final(state).thermal_surface_available == old(state).thermal_surface_available
            &&& final(state).abort_reason == old(state).abort_reason
        },
        !abort_requested && temp is Some ==> {
            let t = temp.unwrap();
            &&& final(state).thermal_surface_available
            &&& final(state).max_temp_millicelsius == raised_max(old(state).max_temp_millicelsius, t)
            &&& stop == (plan.abort_temp_millicelsius matches Some(limit) && t >= limit)
            &&& stop ==> (final(state).abort_reason matches Some(r) && r@ == "thermal_abort_at_"@ + tenths_text(t as int) + "c"@)
            &&& !stop ==> final(state).abort_reason == old(state).abort_reason
        },
{
    state.samples = state.samples + 1;
    if abort_requested {
        state.operator_abort_observed = true;
        state.abort_reason = Some(owned("operator_abort"));
        return true;
    }
    match temp {
        None => false,
        Some(t) => {
            state.thermal_surface_available = true;
            state.max_temp_millicelsius = match state.max_temp_millicelsius {
                Some(m) => Some(if m >= t { m } else { t }),
                None => Some(t),
            };
            match plan.abort_temp_millicelsius {
                Some(limit) => {
                    if t >= limit {
                        let a = concat("thermal_abort_at_", tenths_string(t).as_str());
                        state.abort_reason = Some(concat(a.as_str(), "c"));
                        true
                    } else {
                        false
                    }
                },
                None => false,
            }
        },
    }
}

/// The result of a CPU load run.  Temperatures are in thousandths of a
/// degree Celsius.
#[derive(Debug, Clone, PartialEq, Eq)]
pub struct LoadResult {
    pub schema_version: String,
    pub result_id: String,
    pub load_id: String,
    pub target_id: String,
    pub status: String,
    pub workers: usize,
    pub duration_ms: u64,
    pub abort_reason: Option<String>,
    pub max_observed_temp_millicelsius: Option<i64>,
    pub worker_iterations: Vec<u64>,
    pub safety_monitor: LoadSafetyMonitorResult,
    pub time_unix_ms: u64,
}

/// The result of a load run from its plan, the monitor's final record, the
/// time it took and each worker's iteration count: aborted when the
/// monitor recorded an abort reason, completed otherwise.
pub fn load_result(plan: &LoadPlan, monitor: LoadMonitorState, duration_ms: u64, worker_iterations: Vec<u64>)
    -> (r: LoadResult)
    ensures
        r.schema_version@ == "lab.load_result.v1"@,
        exists|n: nat| r.result_id@ == "LOAD-RESULT-"@ + decimal(n),
        r.load_id@ == plan.load_id@,
        r.target_id@ == plan.target_id@,
        r.status@ == (if monitor.abort_reason is Some { "aborted"@ } else { "completed"@ }),
        r.workers == plan.workers,
        r.duration_ms == duration_ms,
        r.abort_reason == monitor.abort_reason,
        r.max_observed_temp_millicelsius == monitor.max_temp_millicelsius,
        r.worker_iterations == worker_iterations,
        r.safety_monitor == (LoadSafetyMonitorResult {
            sample_interval_ms: plan.safety_monitor.sample_interval_ms,
            samples: monitor.samples,
            thermal_surface_available: monitor.thermal_surface_available,
            operator_abort_observed: monitor.operator_abort_observed,
            restore_on_abort_status: LoadRestoreOnAbortStatus::NotRequired,
        }),
{
    let id = new_id("LOAD-RESULT");
    proof {
        reveal_strlit("LOAD-RESULT");
        reveal_strlit("-");
        reveal_strlit("LOAD-RESULT-");
        assert("LOAD-RESULT"@ + seq!['-'] =~= "LOAD-RESULT-"@);
    }
    let status = if monitor.abort_reason.is_some() { owned("aborted") } else { owned("completed") };
    LoadResult {
        schema_version: owned("lab.load_result.v1"),
        result_id: id,
        load_id: owned(plan.load_id.as_str()),
        target_id: owned(plan.target_id.as_str()),
        status,
        workers: plan.workers,
        duration_ms,
        abort_reason: monitor.abort_reason,
        max_observed_temp_millicelsius: monitor.max_temp_millicelsius,
        worker_iterations,
        safety_monitor: LoadSafetyMonitorResult {
            sample_interval_ms: plan.safety_monitor.sample_interval_ms,
            samples: monitor.samples,
            thermal_surface_available: monitor.thermal_surface_available,
            operator_abort_observed: monitor.operator_abort_observed,
            restore_on_abort_status: LoadRestoreOnAbortStatus::NotRequired,
        },
        time_unix_ms: now_unix_ms(),
    }
}

} // verus!
