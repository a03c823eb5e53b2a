//! Bounded local workload runs: the plan and its checks, the decisions of
//! the run's watch loop, and the demand profile summarized from the
//! samples taken while the workload ran.  Temperatures are in thousandths
//! of a degree Celsius.

use crate::contracts::{
    WorkloadDataQuality, WorkloadDemandScope, WorkloadExecution, WorkloadExecutionMode, WorkloadObservationConfig,
    WorkloadRunResult, WorkloadRunStatus,
};
use crate::digest::{sha256_digest_text, sha256_text};
use crate::error::{LabError, LabResult};
use crate::procfs::ProcSnapshot;
use crate::run_validation::is_blank;
use crate::text::{concat, decimal, owned, owned_all, str_eq, views};
use vstd::prelude::*;

verus! {

/// The longest workload run the policy allows, in seconds.
pub const MAX_WORKLOAD_DURATION_SECONDS: u64 = 300;

/// The bounds of a workload run.
#[derive(Debug, Clone, PartialEq, Eq)]
pub struct WorkloadBounds {
    pub duration_seconds_max: u64,
    pub stdout_bytes_max: u64,
    pub stderr_bytes_max: u64,
    pub memory_bytes_max: u64,
    pub storage_bytes_max: u64,
    pub thermal_abort_millicelsius: Option<i64>,
    pub operator_abort_file: Option<String>,
}

/// A plan to run a workload on the local target.
#[derive(Debug, Clone, PartialEq, Eq)]
pub struct WorkloadRunPlan {
    pub schema_version: String,
    pub workload_id: String,
    pub workload_name: String,
    pub target: String,
    pub execution: WorkloadExecution,
    pub bounds: WorkloadBounds,
    pub observation: WorkloadObservationConfig,
    pub claim_boundary: Vec<String>,
}

/// Where a local workload run writes, and under which run and target.
#[derive(Debug, Clone)]
pub struct LocalWorkloadRunOptions {
    pub run_id: String,
    pub target_id: String,
    pub execution_mode: WorkloadExecutionMode,
    pub stdout_path: String,
    pub stderr_path: String,
}

/// What the file system says of a plan's executable and working directory.
#[derive(Debug)]
pub struct WorkloadFileFacts {
    /// The executable path's last component.
    pub executable_name: Option<String>,
    pub executable_is_absolute: bool,
    /// Whether the executable is a regular file, and its permission bits;
    /// or the error of reading its metadata.
    pub executable_metadata: LabResult<(bool, u32)>,
    /// Whether the working directory is absolute and an existing directory.
    pub working_directory_ok: bool,
    /// The executable's bytes, read when the plan expects a digest.
    pub executable_contents: Option<LabResult<Vec<u8>>>,
}

/// Whether an executable name is a shell.
pub open spec fn is_shell(name: Seq<char>) -> bool {
    name == "sh"@ || name == "bash"@ || name == "dash"@ || name == "zsh"@ || name == "fish"@
}

/// A plan runs a shell with a command string: its executable is a shell
/// and one of its arguments is `-c`.
pub open spec fn shell_command_spec(name: Option<String>, args: Seq<String>) -> bool {
    is_shell(match name { Some(n) => n@, None => Seq::empty() }) && views(args).contains("-c"@)
}

/// Refuses a plan that runs a shell with a command string.
pub fn reject_shell_execution(executable_name: &Option<String>, args: &Vec<String>) -> (r: LabResult<()>)
    ensures
        match r {
            Ok(_) => !shell_command_spec(*executable_name, args@),
            Err(e) => shell_command_spec(*executable_name, args@)
                && (e matches LabError::Policy(m) && m@ == "workload plan must not execute shell command strings"@),
        },
{
    let shell = match executable_name {
        Some(n) => {
            let name = n.as_str();
            str_eq(name, "sh") || str_eq(name, "bash") || str_eq(name, "dash") || str_eq(name, "zsh")
                || str_eq(name, "fish")
        },
        None => {
            proof {
                reveal_strlit("sh");
                reveal_strlit("bash");
                reveal_strlit("dash");
                reveal_strlit("zsh");
                reveal_strlit("fish");
                assert("sh"@.len() == 2);
                assert("bash"@.len() == 4);
                assert("dash"@.len() == 4);
                assert("zsh"@.len() == 3);
                assert("fish"@.len() == 4);
                assert(!is_shell(Seq::<char>::empty()));
            }
            false
        },
    };
    if !shell {
        return Ok(());
    }
    let mut i: usize = 0;
    while i < args.len()
        invariant
            i <= args@.len(),
            is_shell(match *executable_name { Some(n) => n@, None => Seq::<char>::empty() }),
            forall|k: int| 0 <= k < i ==> views(args@)[k] != "-c"@,
        decreases args.len() - i,
    {
        if str_eq(args[i].as_str(), "-c") {
            proof {
                assert(views(args@)[i as int] == "-c"@);
            }
            return Err(LabError::Policy(owned("workload plan must not execute shell command strings")));
        }
        i = i + 1;
    }
    proof {
        assert(!views(args@).contains("-c"@));
    }
    Ok(())
}

/// Why a workload plan is refused, if it is: `(1, message)` for a policy
/// refusal, `(0, message)` for an invalid plan, `(2, _)` when reading the
/// executable's metadata failed and `(3, _)` when reading its bytes failed.
pub open spec fn workload_plan_refusal(plan: WorkloadRunPlan, facts: WorkloadFileFacts) -> Option<(int, Seq<char>)> {
    if plan.schema_version@ != "lab.workload_run_plan.v1"@ {
        Some((0, "workload plan schema_version must be lab.workload_run_plan.v1"@))
    } else if is_blank(plan.workload_id@) {
        Some((0, "workload_id is required"@))
    } else if plan.bounds.duration_seconds_max == 0 || plan.bounds.duration_seconds_max > MAX_WORKLOAD_DURATION_SECONDS {
        Some((1, "workload duration must be 1..=300s"@))
    } else if plan.observation.sample_interval_ms == 0 {
        Some((0, "sample_interval_ms must be > 0"@))
    } else if !plan.observation.process_scoped {
        Some((1, "workload run v1 requires process-scoped observation"@))
    } else if shell_command_spec(facts.executable_name, plan.execution.args@) {
        Some((1, "workload plan must not execute shell command strings"@))
    } else if !facts.executable_is_absolute {
        Some((1, "workload executable_path must be absolute"@))
    } else {
        match facts.executable_metadata {
            Err(_) => Some((2, Seq::empty())),
            Ok((is_file, mode)) => if !is_file {
                Some((0, "workload executable_path must point to a file"@))
            } else if plan.execution.reject_setuid && mode & 0o4000 != 0 {
                Some((1, "workload executable setuid bit is refused"@))
            } else if plan.execution.reject_world_writable && mode & 0o002 != 0 {
                Some((1, "workload executable world-writable mode is refused"@))
            } else if !facts.working_directory_ok {
                Some((1, "workload working_directory must be an existing absolute directory"@))
            } else if plan.execution.require_executable_sha256 && plan.execution.expected_executable_sha256 is None {
                Some((1, "workload executable sha256 is required by plan policy"@))
            } else {
                match plan.execution.expected_executable_sha256 {
                    None => None,
                    Some(expected) => match facts.executable_contents {
                        Some(Ok(bytes)) => if sha256_text(bytes@) != expected@ {
                            Some((1, "workload executable sha256 mismatch"@))
                        } else {
                            None
                        },
                        _ => Some((3, Seq::empty())),
                    },
                }
            },
        }
    }
}

/// `e` is the refusal `r`; a passed-through read error is the one the
/// facts hold.
pub open spec fn workload_refused_as(e: LabError, r: (int, Seq<char>), facts: WorkloadFileFacts) -> bool {
    if r.0 == 0 {
        e matches LabError::Validation(m) && m@ == r.1
    } else if r.0 == 1 {
        e matches LabError::Policy(m) && m@ == r.1
    } else if r.0 == 2 {
        facts.executable_metadata == Err::<(bool, u32), LabError>(e)
    } else {
        facts.executable_contents == Some(Err::<Vec<u8>, LabError>(e))
    }
}

/// Checks a workload plan against the run policy and what the file system
/// says of its executable and working directory.
pub fn validate_workload_plan(plan: &WorkloadRunPlan, facts: WorkloadFileFacts) -> (r: LabResult<()>)
    requires
        plan.execution.expected_executable_sha256 is Some ==> facts.executable_contents is Some,
    ensures
        match workload_plan_refusal(*plan, facts) {
            None => r is Ok,
            Some(refusal) => r matches Err(e) && workload_refused_as(e, refusal, facts),
        },
{
    if !str_eq(plan.schema_version.as_str(), "lab.workload_run_plan.v1") {
        return Err(LabError::Validation(owned("workload plan schema_version must be lab.workload_run_plan.v1")));
    }
    if crate::run_validation::is_blank_str(plan.workload_id.as_str()) {
        return Err(LabError::Validation(owned("workload_id is required")));
    }
    if plan.bounds.duration_seconds_max == 0 || plan.bounds.duration_seconds_max > MAX_WORKLOAD_DURATION_SECONDS {
        return Err(LabError::Policy(owned("workload duration must be 1..=300s")));
    }
    if plan.observation.sample_interval_ms == 0 {
        return Err(LabError::Validation(owned("sample_interval_ms must be > 0")));
    }
    if !plan.observation.process_scoped {
        return Err(LabError::Policy(owned("workload run v1 requires process-scoped observation")));
    }
    if reject_shell_execution(&facts.executable_name, &plan.execution.args).is_err() {
        return Err(LabError::Policy(owned("workload plan must not execute shell command strings")));
    }
    if !facts.executable_is_absolute {
        return Err(LabError::Policy(owned("workload executable_path must be absolute")));
    }
    let ghost original = facts;
    let WorkloadFileFacts { executable_name, executable_is_absolute, executable_metadata, working_directory_ok, executable_contents } = facts;
    let (is_file, mode) = match executable_metadata {
        Err(e) => return Err(e),
        Ok(m) => m,
    };
    if !is_file {
        return Err(LabError::Validation(owned("workload executable_path must point to a file")));
    }
    if plan.execution.reject_setuid && mode & 0o4000 != 0 {
        return Err(LabError::Policy(owned("workload executable setuid bit is refused")));
    }
    if plan.execution.reject_world_writable && mode & 0o002 != 0 {
        return Err(LabError::Policy(owned("workload executable world-writable mode is refused")));
    }
    if !working_directory_ok {
        return Err(LabError::Policy(owned("workload working_directory must be an existing absolute directory")));
    }
    if plan.execution.require_executable_sha256 && plan.execution.expected_executable_sha256.is_none() {
        return Err(LabError::Policy(owned("workload executable sha256 is required by plan policy")));
    }
    match &plan.execution.expected_executable_sha256 {
        None => Ok(()),
        Some(expected) => match executable_contents {
            Some(Ok(bytes)) => {
                let actual = sha256_digest_text(bytes.as_slice());
                if !str_eq(actual.as_str(), expected.as_str()) {
                    Err(LabError::Policy(owned("workload executable sha256 mismatch")))
                } else {
                    Ok(())
                }
            },
            Some(Err(e)) => Err(e),
            None => Err(LabError::Validation(owned("workload executable was not read"))),
        },
    }
}

/// The process snapshot of a workload from the texts of its `/proc/<pid>`
/// `stat`, `status` and `io` files (those that could be read): refused when
/// the `stat` text does not parse, or when neither CPU time, resident
/// memory nor I/O bytes could be read.
pub fn proc_snapshot_from_texts(stat: Option<&str>, status: Option<&str>, io: Option<&str>) -> (r: LabResult<ProcSnapshot>)
    ensures
        match stat {
            Some(t) => match crate::procfs::proc_stat_spec(t@) {
                Err(m) => r matches Err(LabError::Validation(e)) && e@ == m,
                Ok(_) => true,
            },
            None => true,
        },
        r matches Ok(snap) ==> {
            &&& (match stat {
                Some(t) => crate::procfs::proc_stat_spec(t@) matches Ok((u, st))
                    && snap.utime_ticks == Some(u) && snap.stime_ticks == Some(st),
                None => snap.utime_ticks is None && snap.stime_ticks is None,
            })
            &&& !(snap.utime_ticks is None && snap.stime_ticks is None && snap.rss_kb is None
                && snap.read_bytes is None && snap.write_bytes is None)
        },
        r matches Err(LabError::MissingSurface(m)) ==> m@ == "process-scoped /proc/<pid> snapshot unavailable"@,
{
    let mut snapshot = ProcSnapshot::empty();
    match stat {
        Some(t) => {
            let (utime, stime) = crate::procfs::parse_proc_stat(t)?;
            snapshot.utime_ticks = Some(utime);
            snapshot.stime_ticks = Some(stime);
        },
        None => {},
    }
    let ghost after_stat = snapshot;
    match status {
        Some(t) => crate::procfs::parse_proc_status(t, &mut snapshot),
        None => {},
    }
    match io {
        Some(t) => crate::procfs::parse_proc_io(t, &mut snapshot),
        None => {},
    }
    proof {
        lemma_lines_keep_ticks(after_stat, status, io, snapshot);
    }
    if snapshot.utime_ticks.is_none() && snapshot.stime_ticks.is_none() && snapshot.rss_kb.is_none()
        && snapshot.read_bytes.is_none() && snapshot.write_bytes.is_none() {
        return Err(LabError::MissingSurface(owned("process-scoped /proc/<pid> snapshot unavailable")));
    }
    Ok(snapshot)
}

proof fn lemma_lines_keep_ticks(start: ProcSnapshot, status: Option<&str>, io: Option<&str>, end: ProcSnapshot)
    requires
        end == ({
            let mid = match status {
                Some(t) => crate::procfs::lines_read(start, crate::run_validation::split_on(t@, '\n'), false),
                None => start,
            };
            match io {
                Some(t) => crate::procfs::lines_read(mid, crate::run_validation::split_on(t@, '\n'), true),
                None => mid,
            }
        }),
    ensures
        end.utime_ticks == start.utime_ticks,
        end.stime_ticks == start.stime_ticks,
{
    match status {
        Some(t) => lemma_lines_ticks(start, crate::run_validation::split_on(t@, '\n'), false),
        None => {},
    }
    let mid = match status {
        Some(t) => crate::procfs::lines_read(start, crate::run_validation::split_on(t@, '\n'), false),
        None => start,
    };
    match io {
        Some(t) => lemma_lines_ticks(mid, crate::run_validation::split_on(t@, '\n'), true),
        None => {},
    }
}

proof fn lemma_lines_ticks(snap: ProcSnapshot, lines: Seq<Seq<char>>, io: bool)
    ensures
        crate::procfs::lines_read(snap, lines, io).utime_ticks == snap.utime_ticks,
        crate::procfs::lines_read(snap, lines, io).stime_ticks == snap.stime_ticks,
    decreases lines.len(),
{
    if lines.len() > 0 {
        lemma_lines_ticks(snap, lines.drop_last(), io);
    }
}

/// One sample taken while a workload runs.
#[derive(Debug, Clone, Copy, PartialEq, Eq)]
pub struct WorkloadSample {
    pub elapsed_ms: u64,
    pub proc: Option<ProcSnapshot>,
    pub temp_millicelsius: Option<i64>,
    pub freq_khz: Option<u64>,
    pub mem_available_kb: Option<u64>,
    pub cpu_ticks: Option<(u64, u64)>,
}

/// The sum of two readings, when both were taken and it fits.
pub open spec fn opt_sum_spec(left: Option<u64>, right: Option<u64>) -> Option<u64> {
    match (left, right) {
        (Some(a), Some(b)) => if a + b <= u64::MAX { Some((a + b) as u64) } else { None },
        _ => None,
    }
}

/// The sum of two readings, when both were taken.
pub fn opt_sum(left: Option<u64>, right: Option<u64>) -> (r: Option<u64>)
    requires
        left is Some && right is Some ==> left.unwrap() + right.unwrap() <= u64::MAX,
    ensures
        r == opt_sum_spec(left, right),
{
    match (left, right) {
        (Some(a), Some(b)) => Some(a + b),
        _ => None,
    }
}

/// How much a counter grew, when both readings were taken and it did not
/// shrink.
pub open spec fn delta_spec(first: Option<u64>, last: Option<u64>) -> Option<u64> {
    match (first, last) {
        (Some(f), Some(l)) => if l >= f { Some((l - f) as u64) } else { None },
        _ => None,
    }
}

/// How much a counter grew between two readings.
pub fn delta(first: Option<u64>, last: Option<u64>) -> (r: Option<u64>)
    ensures
        r == delta_spec(first, last),
{
    match (first, last) {
        (Some(f), Some(l)) => if l >= f { Some(l - f) } else { None },
        _ => None,
    }
}

/// The CPU ticks a process used between two snapshots, when both user and
/// system time were read, neither shrank and their sum fits.
pub open spec fn ticks_between(first: ProcSnapshot, last: ProcSnapshot) -> Option<u64> {
    opt_sum_spec(delta_spec(first.utime_ticks, last.utime_ticks), delta_spec(first.stime_ticks, last.stime_ticks))
}

fn ticks_between_exec(first: ProcSnapshot, last: ProcSnapshot) -> (r: Option<u64>)
    ensures
        r == ticks_between(first, last),
{
    let u = delta(first.utime_ticks, last.utime_ticks);
    let s = delta(first.stime_ticks, last.stime_ticks);
    match (u, s) {
        (Some(a), Some(b)) => if a <= u64::MAX - b { Some(a + b) } else { None },
        _ => None,
    }
}

/// Process CPU percent in thousandths of a percent, rounded half up, for
/// `ticks` of 10 ms over `elapsed_ms`.
pub open spec fn cpu_percent_milli(ticks: u64, elapsed_ms: u64) -> int {
    (ticks * 10 * 100000 * 2 + elapsed_ms) / (2 * elapsed_ms)
}

fn cpu_percent_milli_exec(ticks: u64, elapsed_ms: u64) -> (p: u128)
    requires
        elapsed_ms > 0,
    ensures
        p == cpu_percent_milli(ticks, elapsed_ms),
{
    let t = ticks as u128;
    let e = elapsed_ms as u128;
    proof {
        assert(t * 2000000 <= 0xffff_ffff_ffff_ffff * 2000000) by (nonlinear_arith) requires t <= 0xffff_ffff_ffff_ffff;
    }
    (t * 2000000 + e) / (2 * e)
}

/// The highest process CPU percent over consecutive sample pairs that both
/// hold a snapshot, some time apart, and whose ticks could be counted.
pub open spec fn peak_cpu_spec(samples: Seq<WorkloadSample>) -> Option<int>
    decreases samples.len(),
{
    if samples.len() < 2 {
        None
    } else {
        let prev = peak_cpu_spec(samples.drop_last());
        let a = samples[samples.len() - 2];
        let b = samples.last();
        let here: Option<int> = match (a.proc, b.proc) {
            (Some(pa), Some(pb)) => {
                let elapsed = if b.elapsed_ms >= a.elapsed_ms { b.elapsed_ms - a.elapsed_ms } else { 0 };
                if elapsed == 0 {
                    None
                } else {
                    match ticks_between(pa, pb) {
                        Some(t) => Some(cpu_percent_milli(t, elapsed as u64)),
                        None => None,
                    }
                }
            },
            _ => None,
        };
        match (prev, here) {
            (Some(p), Some(h)) => Some(if p >= h { p } else { h }),
            (None, Some(h)) => Some(h),
            _ => prev,
        }
    }
}

/// The highest process CPU percent over consecutive sample pairs, in
/// thousandths of a percent.
pub fn peak_process_cpu_percent(samples: &Vec<WorkloadSample>) -> (p: Option<u128>)
    ensures
        match p {
            Some(v) => peak_cpu_spec(samples@) == Some(v as int),
            None => peak_cpu_spec(samples@) is None,
        },
{
    let mut peak: Option<u128> = None;
    let mut i: usize = 1;
    if samples.len() < 2 {
        return None;
    }
    while i < samples.len()
        invariant
            1 <= i <= samples@.len(),
            match peak {
                Some(v) => peak_cpu_spec(samples@.take(i as int)) == Some(v as int),
                None => peak_cpu_spec(samples@.take(i as int)) is None,
            },
        decreases samples.len() - i,
    {
        proof {
            let t = samples@.take(i + 1);
            assert(t.drop_last() =~= samples@.take(i as int));
            assert(t[t.len() - 2] == samples@[i - 1]);
            assert(t.last() == samples@[i as int]);
        }
        let a = samples[i - 1];
        let b = samples[i];
        let here: Option<u128> = match (a.proc, b.proc) {
            (Some(pa), Some(pb)) => {
                let elapsed = if b.elapsed_ms >= a.elapsed_ms { b.elapsed_ms - a.elapsed_ms } else { 0 };
                if elapsed == 0 {
                    None
                } else {
                    match ticks_between_exec(pa, pb) {
                        Some(t) => Some(cpu_percent_milli_exec(t, elapsed)),
                        None => None,
                    }
                }
            },
            _ => None,
        };
        peak = match (peak, here) {
            (Some(p), Some(h)) => Some(if p >= h { p } else { h }),
            (None, Some(h)) => Some(h),
            _ => peak,
        };
        i = i + 1;
    }
    proof {
        assert(samples@.take(samples@.len() as int) =~= samples@);
    }
    peak
}

/// The process demand of a workload run.  CPU time is in milliseconds
/// (ten per tick); percents are in thousandths of a percent.
#[derive(Debug, Clone, PartialEq, Eq)]
pub struct WorkloadDemand {
    pub process_cpu_utime_ticks: Option<u64>,
    pub process_cpu_stime_ticks: Option<u64>,
    pub process_cpu_time_ms: Option<u64>,
    pub process_cpu_percent_avg_milli: Option<u128>,
    pub process_cpu_percent_peak_milli: Option<u128>,
    pub rss_peak_kb: Option<u64>,
    pub vmhwm_peak_kb: Option<u64>,
    pub read_bytes: Option<u64>,
    pub write_bytes: Option<u64>,
    pub cancelled_write_bytes: Option<u64>,
    pub voluntary_ctxt_switches: Option<u64>,
    pub nonvoluntary_ctxt_switches: Option<u64>,
    pub duty_cycle: String,
    pub child_process_accounting_status: String,
}

/// How the target responded while the workload ran.
#[derive(Debug, Clone, PartialEq, Eq)]
pub struct WorkloadTargetConditionedResponse {
    pub portable_between_targets: bool,
    pub thermal_max_millicelsius: Option<i64>,
    pub thermal_margin_millicelsius: Option<i64>,
    pub freq_range_khz: Option<Vec<u64>>,
    pub abort_reason: Option<String>,
}

/// The system around the workload while it ran; the CPU percent is in
/// thousandths of a percent.
#[derive(Debug, Clone, PartialEq, Eq)]
pub struct WorkloadSystemContext {
    pub system_cpu_percent_avg_milli: Option<u128>,
    pub system_memory_available_min_kb: Option<u64>,
    pub background_activity_confounder: String,
}

/// The demand profile of a workload run.
#[derive(Debug, Clone, PartialEq, Eq)]
pub struct WorkloadDemandProfile {
    pub schema_version: String,
    pub profile_id: String,
    pub run_id: String,
    pub workload_id: String,
    pub target_id: String,
    pub execution_mode: WorkloadExecutionMode,
    pub demand_scope: WorkloadDemandScope,
    pub workload_demand: WorkloadDemand,
    pub target_conditioned_response: WorkloadTargetConditionedResponse,
    pub system_context: WorkloadSystemContext,
    pub data_quality: WorkloadDataQuality,
    pub evidence_refs: Vec<String>,
    pub time_unix_ms: u64,
}

/// What a workload run produced: its result and its demand profile.
#[derive(Debug, Clone, PartialEq, Eq)]
pub struct LocalWorkloadRunArtifacts {
    pub result: WorkloadRunResult,
    pub demand_profile: WorkloadDemandProfile,
}

/// The snapshots among samples, in order.
pub open spec fn proc_snapshots(samples: Seq<WorkloadSample>) -> Seq<ProcSnapshot>
    decreases samples.len(),
{
    if samples.len() == 0 {
        Seq::empty()
    } else {
        let prev = proc_snapshots(samples.drop_last());
        match samples.last().proc {
            Some(p) => prev.push(p),
            None => prev,
        }
    }
}

fn proc_snapshot_list(samples: &Vec<WorkloadSample>) -> (r: Vec<ProcSnapshot>)
    ensures
        r@ == proc_snapshots(samples@),
{
    let mut r: Vec<ProcSnapshot> = Vec::new();
    let mut i: usize = 0;
    while i < samples.len()
        invariant
            i <= samples@.len(),
            r@ == proc_snapshots(samples@.take(i as int)),
        decreases samples.len() - i,
    {
        proof {
            assert(samples@.take(i + 1).drop_last() =~= samples@.take(i as int));
        }
        match samples[i].proc {
            Some(p) => r.push(p),
            None => {},
        }
        i = i + 1;
    }
    proof {
        assert(samples@.take(samples@.len() as int) =~= samples@);
    }
    r
}

/// The larger of a running maximum and a reading.
pub open spec fn max_opt(m: Option<u64>, v: Option<u64>) -> Option<u64> {
    match (m, v) {
        (Some(a), Some(b)) => Some(if a >= b { a } else { b }),
        (None, Some(b)) => Some(b),
        _ => m,
    }
}

/// The largest resident set (or, with `hwm`, peak resident set) among
/// snapshots.
pub open spec fn peak_memory(snaps: Seq<ProcSnapshot>, hwm: bool) -> Option<u64>
    decreases snaps.len(),
{
    if snaps.len() == 0 {
        None
    } else {
        max_opt(peak_memory(snaps.drop_last(), hwm), if hwm { snaps.last().vmhwm_kb } else { snaps.last().rss_kb })
    }
}

fn peak_memory_exec(snaps: &Vec<ProcSnapshot>, hwm: bool) -> (r: Option<u64>)
    ensures
        r == peak_memory(snaps@, hwm),
{
    let mut m: Option<u64> = None;
    let mut i: usize = 0;
    while i < snaps.len()
        invariant
            i <= snaps@.len(),
            m == peak_memory(snaps@.take(i as int), hwm),
        decreases snaps.len() - i,
    {
        proof {
            assert(snaps@.take(i + 1).drop_last() =~= snaps@.take(i as int));
        }
        let v = if hwm { snaps[i].vmhwm_kb } else { snaps[i].rss_kb };
        m = match (m, v) {
            (Some(a), Some(b)) => Some(if a >= b { a } else { b }),
            (None, Some(b)) => Some(b),
            _ => m,
        };
        i = i + 1;
    }
    proof {
        assert(snaps@.take(snaps@.len() as int) =~= snaps@);
    }
    m
}

/// The demand of a run with no process snapshot.
pub open spec fn is_empty_demand(d: WorkloadDemand) -> bool {
    &&& d.process_cpu_utime_ticks is None
    &&& d.process_cpu_stime_ticks is None
    &&& d.process_cpu_time_ms is None
    &&& d.process_cpu_percent_avg_milli is None
    &&& d.process_cpu_percent_peak_milli is None
    &&& d.rss_peak_kb is None
    &&& d.vmhwm_peak_kb is None
    &&& d.read_bytes is None
    &&& d.write_bytes is None
    &&& d.cancelled_write_bytes is None
    &&& d.voluntary_ctxt_switches is None
    &&& d.nonvoluntary_ctxt_switches is None
    &&& d.duty_cycle@ == "unknown"@
    &&& d.child_process_accounting_status@ == "unsupported"@
}

/// The demand of a run with no process snapshot.
pub fn empty_demand() -> (d: WorkloadDemand)
    ensures
        is_empty_demand(d),
{
    WorkloadDemand {
        process_cpu_utime_ticks: None,
        process_cpu_stime_ticks: None,
        process_cpu_time_ms: None,
        process_cpu_percent_avg_milli: None,
        process_cpu_percent_peak_milli: None,
        rss_peak_kb: None,
        vmhwm_peak_kb: None,
        read_bytes: None,
        write_bytes: None,
        cancelled_write_bytes: None,
        voluntary_ctxt_switches: None,
        nonvoluntary_ctxt_switches: None,
        duty_cycle: owned("unknown"),
        child_process_accounting_status: owned("unsupported"),
    }
}

/// The CPU time of `ticks` ticks of 10 ms, when it fits.
pub open spec fn cpu_time_ms_spec(ticks: Option<u64>) -> Option<u64> {
    match ticks {
        Some(t) => if t * 10 <= u64::MAX { Some((t * 10) as u64) } else { None },
        None => None,
    }
}

/// The demand of a workload run, from the first and last samples that hold
/// a process snapshot: the CPU ticks used between them, the CPU time and
/// average percent over `duration_ms`, the peak percent over consecutive
/// samples, the peak resident memory, and the last I/O and
/// context-switch counters.
pub fn summarize_demand(samples: &Vec<WorkloadSample>, duration_ms: u64) -> (d: WorkloadDemand)
    ensures
        ({
            let snaps = proc_snapshots(samples@);
            if snaps.len() == 0 {
                is_empty_demand(d)
            } else {
                let first = snaps[0];
                let last = snaps.last();
                let total = ticks_between(first, last);
                &&& d.process_cpu_utime_ticks == delta_spec(first.utime_ticks, last.utime_ticks)
                &&& d.process_cpu_stime_ticks == delta_spec(first.stime_ticks, last.stime_ticks)
                &&& d.process_cpu_time_ms == cpu_time_ms_spec(total)
                &&& d.process_cpu_percent_avg_milli == (match total {
                    Some(t) => if duration_ms > 0 { Some(cpu_percent_milli(t, duration_ms) as u128) } else { None },
                    None => None,
                })
                &&& d.process_cpu_percent_peak_milli == (match peak_cpu_spec(samples@) {
                    Some(v) => Some(v as u128),
                    None => None,
                })
                &&& d.rss_peak_kb == peak_memory(snaps, false)
                &&& d.vmhwm_peak_kb == peak_memory(snaps, true)
                &&& d.read_bytes == last.read_bytes
                &&& d.write_bytes == last.write_bytes
                &&& d.cancelled_write_bytes == last.cancelled_write_bytes
                &&& d.voluntary_ctxt_switches == last.voluntary_ctxt_switches
                &&& d.nonvoluntary_ctxt_switches == last.nonvoluntary_ctxt_switches
                &&& d.duty_cycle@ == "bounded_burst"@
                &&& d.child_process_accounting_status@ == "unsupported"@
            }
        }),
{
    let snaps = proc_snapshot_list(samples);
    if snaps.len() == 0 {
        return empty_demand();
    }
    let first = snaps[0];
    let last = snaps[snaps.len() - 1];
    let utime_delta = delta(first.utime_ticks, last.utime_ticks);
    let stime_delta = delta(first.stime_ticks, last.stime_ticks);
    let total = ticks_between_exec(first, last);
    let cpu_ms: Option<u64> = match total {
        Some(t) => if t <= u64::MAX / 10 { Some(t * 10) } else { None },
        None => None,
    };
    let avg: Option<u128> = match total {
        Some(t) => if duration_ms > 0 { Some(cpu_percent_milli_exec(t, duration_ms)) } else { None },
        None => None,
    };
    let peak = peak_process_cpu_percent(samples);
    WorkloadDemand {
        process_cpu_utime_ticks: utime_delta,
        process_cpu_stime_ticks: stime_delta,
        process_cpu_time_ms: cpu_ms,
        process_cpu_percent_avg_milli: avg,
        process_cpu_percent_peak_milli: peak,
        rss_peak_kb: peak_memory_exec(&snaps, false),
        vmhwm_peak_kb: peak_memory_exec(&snaps, true),
        read_bytes: last.read_bytes,
        write_bytes: last.write_bytes,
        cancelled_write_bytes: last.cancelled_write_bytes,
        voluntary_ctxt_switches: last.voluntary_ctxt_switches,
        nonvoluntary_ctxt_switches: last.nonvoluntary_ctxt_switches,
        duty_cycle: owned("bounded_burst"),
        child_process_accounting_status: owned("unsupported"),
    }
}

/// The hottest reading among samples.
pub open spec fn max_temp(samples: Seq<WorkloadSample>) -> Option<i64>
    decreases samples.len(),
{
    if samples.len() == 0 {
        None
    } else {
        let prev = max_temp(samples.drop_last());
        match (prev, samples.last().temp_millicelsius) {
            (Some(a), Some(b)) => Some(if a >= b { a } else { b }),
            (None, Some(b)) => Some(b),
            _ => prev,
        }
    }
}

/// The lowest (or, with `highest`, the highest) frequency among samples.
pub open spec fn freq_bound(samples: Seq<WorkloadSample>, highest: bool) -> Option<u64>
    decreases samples.len(),
{
    if samples.len() == 0 {
        None
    } else {
        let prev = freq_bound(samples.drop_last(), highest);
        match (prev, samples.last().freq_khz) {
            (Some(a), Some(b)) => Some(if highest { if a >= b { a } else { b } } else { if a <= b { a } else { b } }),
            (None, Some(b)) => Some(b),
            _ => prev,
        }
    }
}

/// The lowest available memory among samples.
pub open spec fn min_available(samples: Seq<WorkloadSample>) -> Option<u64>
    decreases samples.len(),
{
    if samples.len() == 0 {
        None
    } else {
        let prev = min_available(samples.drop_last());
        match (prev, samples.last().mem_available_kb) {
            (Some(a), Some(b)) => Some(if a <= b { a } else { b }),
            (None, Some(b)) => Some(b),
            _ => prev,
        }
    }
}

fn sample_extremes(samples: &Vec<WorkloadSample>) -> (r: (Option<i64>, Option<u64>, Option<u64>, Option<u64>))
    ensures
        r.0 == max_temp(samples@),
        r.1 == freq_bound(samples@, false),
        r.2 == freq_bound(samples@, true),
        r.3 == min_available(samples@),
{
    let mut t: Option<i64> = None;
    let mut lo: Option<u64> = None;
    let mut hi: Option<u64> = None;
    let mut mem: Option<u64> = None;
    let mut i: usize = 0;
    while i < samples.len()
        invariant
            i <= samples@.len(),
            t == max_temp(samples@.take(i as int)),
            lo == freq_bound(samples@.take(i as int), false),
            hi == freq_bound(samples@.take(i as int), true),
            mem == min_available(samples@.take(i as int)),
        decreases samples.len() - i,
    {
        proof {
            assert(samples@.take(i + 1).drop_last() =~= samples@.take(i as int));
        }
        let x = samples[i];
        t = match (t, x.temp_millicelsius) {
            (Some(a), Some(b)) => Some(if a >= b { a } else { b }),
            (None, Some(b)) => Some(b),
            _ => t,
        };
        lo = match (lo, x.freq_khz) {
            (Some(a), Some(b)) => Some(if a <= b { a } else { b }),
            (None, Some(b)) => Some(b),
            _ => lo,
        };
        hi = match (hi, x.freq_khz) {
            (Some(a), Some(b)) => Some(if a >= b { a } else { b }),
            (None, Some(b)) => Some(b),
            _ => hi,
        };
        mem = match (mem, x.mem_available_kb) {
            (Some(a), Some(b)) => Some(if a <= b { a } else { b }),
            (None, Some(b)) => Some(b),
            _ => mem,
        };
        i = i + 1;
    }
    proof {
        assert(samples@.take(samples@.len() as int) =~= samples@);
    }
    (t, lo, hi, mem)
}

/// How the target responded: the hottest reading, the margin left under
/// the thermal abort threshold (held within `i64`), the range of
/// frequencies seen, and why the run was aborted, if it was.
pub fn summarize_response(
    samples: &Vec<WorkloadSample>,
    thermal_abort_millicelsius: Option<i64>,
    abort_reason: Option<String>,
) -> (r: WorkloadTargetConditionedResponse)
    ensures
        !r.portable_between_targets,
        r.thermal_max_millicelsius == max_temp(samples@),
        r.thermal_margin_millicelsius == (match (thermal_abort_millicelsius, max_temp(samples@)) {
            (Some(limit), Some(t)) => Some(crate::platform_contract::clamp_i64(limit - t)),
            _ => None,
        }),
        match (freq_bound(samples@, false), freq_bound(samples@, true)) {
            (Some(lo), Some(hi)) => r.freq_range_khz matches Some(v) && v@ == seq![lo, hi],
            _ => r.freq_range_khz is None,
        },
        r.abort_reason == abort_reason,
{
    let (t, lo, hi, _) = sample_extremes(samples);
    let margin = match (thermal_abort_millicelsius, t) {
        (Some(limit), Some(m)) => Some(crate::platform_contract::clamp_milli(limit as i128 - m as i128)),
        _ => None,
    };
    let range = match (lo, hi) {
        (Some(a), Some(b)) => Some(vec![a, b]),
        _ => None,
    };
    WorkloadTargetConditionedResponse {
        portable_between_targets: false,
        thermal_max_millicelsius: t,
        thermal_margin_millicelsius: margin,
        freq_range_khz: range,
        abort_reason,
    }
}

/// The first CPU tick reading among samples.
pub open spec fn first_ticks(samples: Seq<WorkloadSample>) -> Option<(u64, u64)>
    decreases samples.len(),
{
    if samples.len() == 0 {
        None
    } else if samples[0].cpu_ticks is Some {
        samples[0].cpu_ticks
    } else {
        first_ticks(samples.drop_first())
    }
}

/// The last CPU tick reading among samples.
pub open spec fn last_ticks(samples: Seq<WorkloadSample>) -> Option<(u64, u64)>
    decreases samples.len(),
{
    if samples.len() == 0 {
        None
    } else if samples.last().cpu_ticks is Some {
        samples.last().cpu_ticks
    } else {
        last_ticks(samples.drop_last())
    }
}

/// The system's CPU use between the first and last tick readings, in
/// thousandths of a percent rounded half up; none when either is missing,
/// a counter went back, no tick passed, or more idle than total ticks
/// passed.
pub open spec fn system_cpu_spec(samples: Seq<WorkloadSample>) -> Option<int> {
    match (first_ticks(samples), last_ticks(samples)) {
        (Some(f), Some(l)) => if l.0 >= f.0 && l.1 >= f.1 && l.0 - f.0 > 0 && l.1 - f.1 <= l.0 - f.0 {
            let total = l.0 - f.0;
            let busy = total - (l.1 - f.1);
            Some((busy * 100000 * 2 + total) / (2 * total))
        } else {
            None
        },
        _ => None,
    }
}

fn first_ticks_exec(samples: &Vec<WorkloadSample>) -> (r: Option<(u64, u64)>)
    ensures
        r == first_ticks(samples@),
{
    let mut i: usize = 0;
    assert(samples@.subrange(0, samples@.len() as int) =~= samples@);
    while i < samples.len()
        invariant
            i <= samples@.len(),
            first_ticks(samples@) == first_ticks(samples@.subrange(i as int, samples@.len() as int)),
        decreases samples.len() - i,
    {
        let ghost rest = samples@.subrange(i as int, samples@.len() as int);
        assert(rest.drop_first() =~= samples@.subrange(i + 1, samples@.len() as int));
        if samples[i].cpu_ticks.is_some() {
            return samples[i].cpu_ticks;
        }
        i = i + 1;
    }
    None
}

fn last_ticks_exec(samples: &Vec<WorkloadSample>) -> (r: Option<(u64, u64)>)
    ensures
        r == last_ticks(samples@),
{
    let mut j: usize = samples.len();
    assert(samples@.take(samples@.len() as int) =~= samples@);
    while j > 0
        invariant
            j <= samples@.len(),
            last_ticks(samples@) == last_ticks(samples@.take(j as int)),
        decreases j,
    {
        assert(samples@.take(j as int).drop_last() =~= samples@.take(j - 1));
        if samples[j - 1].cpu_ticks.is_some() {
            return samples[j - 1].cpu_ticks;
        }
        j = j - 1;
    }
    None
}

/// The system's CPU use over the run, in thousandths of a percent.
pub fn system_cpu_percent(samples: &Vec<WorkloadSample>) -> (p: Option<u128>)
    ensures
        match p {
            Some(v) => system_cpu_spec(samples@) == Some(v as int),
            None => system_cpu_spec(samples@) is None,
        },
{
    let first = first_ticks_exec(samples);
    let last = last_ticks_exec(samples);
    match (first, last) {
        (Some(f), Some(l)) => {
            if l.0 >= f.0 && l.1 >= f.1 && l.0 - f.0 > 0 && l.1 - f.1 <= l.0 - f.0 {
                let total = (l.0 - f.0) as u128;
                let busy = total - (l.1 - f.1) as u128;
                proof {
                    assert(busy * 200000 <= 0xffff_ffff_ffff_ffff * 200000) by (nonlinear_arith)
                        requires busy <= 0xffff_ffff_ffff_ffff;
                }
                Some((busy * 200000 + total) / (2 * total))
            } else {
                None
            }
        },
        _ => None,
    }
}

/// The system around the run: its CPU use and lowest available memory.
pub fn summarize_system_context(samples: &Vec<WorkloadSample>) -> (c: WorkloadSystemContext)
    ensures
        match c.system_cpu_percent_avg_milli {
            Some(v) => system_cpu_spec(samples@) == Some(v as int),
            None => system_cpu_spec(samples@) is None,
        },
        c.system_memory_available_min_kb == min_available(samples@),
        c.background_activity_confounder@ == "measured_partial"@,
{
    let (_, _, _, mem) = sample_extremes(samples);
    WorkloadSystemContext {
        system_cpu_percent_avg_milli: system_cpu_percent(samples),
        system_memory_available_min_kb: mem,
        background_activity_confounder: owned("measured_partial"),
    }
}

/// Why the watch loop stops a workload run.
#[derive(Debug, Clone, PartialEq, Eq)]
pub struct WatchStop {
    pub status: WorkloadRunStatus,
    pub reason: Option<String>,
    /// Whether the process must be killed.
    pub kill: bool,
    pub stdout_truncated: bool,
    pub stderr_truncated: bool,
}

/// What the watch loop read after taking a sample.
#[derive(Debug, Clone, Copy, PartialEq, Eq)]
pub struct WatchReadings {
    /// Whether the operator abort file exists (when one is configured).
    pub abort_file_exists: bool,
    pub temp_millicelsius: Option<i64>,
    pub stdout_len: u64,
    pub stderr_len: u64,
    /// Whether the process has exited, and then whether it succeeded.
    pub exited: Option<bool>,
    pub deadline_passed: bool,
}

/// Decides one round of a workload run's watch loop: the run stops, in
/// this order, when the operator abort file exists, when the temperature
/// reaches the thermal threshold, when an output exceeds its limit (which
/// marks it truncated), when the process exits (failed when it did not
/// succeed), and when the deadline has passed; otherwise it goes on.
pub fn watch_step(bounds: &WorkloadBounds, readings: WatchReadings) -> (stop: Option<WatchStop>)
    ensures
        bounds.operator_abort_file is Some && readings.abort_file_exists ==> (stop matches Some(w)
            && w.status == WorkloadRunStatus::Aborted && w.kill
            && (w.reason matches Some(r) && r@ == "operator_abort"@)),
        !(bounds.operator_abort_file is Some && readings.abort_file_exists) ==> {
            let hot = bounds.thermal_abort_millicelsius matches Some(limit)
                && (readings.temp_millicelsius matches Some(t) && t >= limit);
            &&& hot ==> (stop matches Some(w) && w.status == WorkloadRunStatus::Aborted && w.kill
                && (w.reason matches Some(r) && r@ == "thermal_abort_at_"@
                    + crate::load::tenths_text(readings.temp_millicelsius.unwrap() as int) + "c"@))
            &&& !hot && readings.stdout_len > bounds.stdout_bytes_max ==> (stop matches Some(w)
                && w.status == WorkloadRunStatus::Aborted && w.kill && w.stdout_truncated && !w.stderr_truncated
                && (w.reason matches Some(r) && r@ == "stdout_limit_exceeded"@))
            &&& !hot && readings.stdout_len <= bounds.stdout_bytes_max && readings.stderr_len > bounds.stderr_bytes_max
                ==> (stop matches Some(w) && w.status == WorkloadRunStatus::Aborted && w.kill && w.stderr_truncated
                && !w.stdout_truncated && (w.reason matches Some(r) && r@ == "stderr_limit_exceeded"@))
            &&& !hot && readings.stdout_len <= bounds.stdout_bytes_max && readings.stderr_len <= bounds.stderr_bytes_max
                ==> match readings.exited {
                    Some(true) => stop matches Some(w) && w.status == WorkloadRunStatus::Completed && !w.kill
                        && w.reason is None && !w.stdout_truncated && !w.stderr_truncated,
                    Some(false) => stop matches Some(w) && w.status == WorkloadRunStatus::Failed && !w.kill
                        && (w.reason matches Some(r) && r@ == "process_exit_nonzero"@),
                    None => if readings.deadline_passed {
                        stop matches Some(w) && w.status == WorkloadRunStatus::Aborted && w.kill
                            && (w.reason matches Some(r) && r@ == "duration_limit_exceeded"@)
                    } else {
                        stop is None
                    },
                }
        },
{
    let stop_with = |status: WorkloadRunStatus, reason: &str, kill: bool| -> (w: WatchStop)
        ensures
            w.status == status,
            w.reason matches Some(r) && r@ == reason@,
            w.kill == kill,
            !w.stdout_truncated,
            !w.stderr_truncated,
    {
        WatchStop { status, reason: Some(owned(reason)), kill, stdout_truncated: false, stderr_truncated: false }
    };
    if bounds.operator_abort_file.is_some() && readings.abort_file_exists {
        return Some(stop_with(WorkloadRunStatus::Aborted, "operator_abort", true));
    }
    match (bounds.thermal_abort_millicelsius, readings.temp_millicelsius) {
        (Some(limit), Some(t)) => {
            if t >= limit {
                let a = concat("thermal_abort_at_", crate::load::tenths_string(t).as_str());
                let reason = concat(a.as_str(), "c");
                return Some(stop_with(WorkloadRunStatus::Aborted, reason.as_str(), true));
            }
        },
        _ => {},
    }
    if readings.stdout_len > bounds.stdout_bytes_max {
        let mut w = stop_with(WorkloadRunStatus::Aborted, "stdout_limit_exceeded", true);
        w.stdout_truncated = true;
        return Some(w);
    }
    if readings.stderr_len > bounds.stderr_bytes_max {
        let mut w = stop_with(WorkloadRunStatus::Aborted, "stderr_limit_exceeded", true);
        w.stderr_truncated = true;
        return Some(w);
    }
    match readings.exited {
        Some(true) => {
            return Some(WatchStop {
                status: WorkloadRunStatus::Completed,
                reason: None,
                kill: false,
                stdout_truncated: false,
                stderr_truncated: false,
            });
        },
        Some(false) => {
            return Some(stop_with(WorkloadRunStatus::Failed, "process_exit_nonzero", false));
        },
        None => {},
    }
    if readings.deadline_passed {
        return Some(stop_with(WorkloadRunStatus::Aborted, "duration_limit_exceeded", true));
    }
    None
}

/// Some sample holds a process snapshot.
pub open spec fn any_proc(samples: Seq<WorkloadSample>) -> bool {
    exists|i: int| 0 <= i < samples.len() && (#[trigger] samples[i]).proc is Some
}

fn any_proc_exec(samples: &Vec<WorkloadSample>) -> (r: bool)
    ensures
        r == any_proc(samples@),
{
    let mut i: usize = 0;
    while i < samples.len()
        invariant
            i <= samples@.len(),
            forall|k: int| 0 <= k < i ==> (#[trigger] samples@[k]).proc is None,
        decreases samples.len() - i,
    {
        if samples[i].proc.is_some() {
            return true;
        }
        i = i + 1;
    }
    false
}

/// The data quality of a workload run: degraded unless it completed, the
/// process demand missing when no sample held a process snapshot, and a
/// note on incomplete evidence unless it completed.
pub open spec fn run_quality_spec(q: WorkloadDataQuality, completed: bool, any_snapshot: bool) -> bool {
    &&& q.degraded == !completed
    &&& views(q.missing@) == (if any_snapshot { Seq::empty() } else { seq!["process-scoped demand unavailable from /proc/<pid>"@] })
    &&& views(q.notes@) == seq![
            "process CPU time assumes CLK_TCK=100 for v1 Linux targets"@,
            "child process demand is not aggregated in v1"@,
        ] + (if completed { Seq::empty() } else { seq!["workload demand profile was generated from incomplete run evidence"@] })
}

fn run_quality(completed: bool, any_snapshot: bool) -> (q: WorkloadDataQuality)
    ensures
        run_quality_spec(q, completed, any_snapshot),
{
    let missing = if any_snapshot {
        Vec::new()
    } else {
        crate::text::single("process-scoped demand unavailable from /proc/<pid>")
    };
    let mut notes = owned_all(&crate::text::strs2(
        "process CPU time assumes CLK_TCK=100 for v1 Linux targets",
        "child process demand is not aggregated in v1",
    ));
    let ghost base = views(notes@);
    if !completed {
        notes.push(owned("workload demand profile was generated from incomplete run evidence"));
    }
    proof {
        if completed {
            assert(views(notes@) =~= base + Seq::<Seq<char>>::empty());
        } else {
            assert(views(notes@) =~= base + seq!["workload demand profile was generated from incomplete run evidence"@]);
        }
        assert(views(missing@) =~= (if any_snapshot { Seq::empty() } else { seq!["process-scoped demand unavailable from /proc/<pid>"@] }));
    }
    WorkloadDataQuality { degraded: !completed, missing, notes }
}

fn copy_quality(q: &WorkloadDataQuality) -> (r: WorkloadDataQuality)
    ensures
        r.degraded == q.degraded,
        views(r.missing@) == views(q.missing@),
        views(r.notes@) == views(q.notes@),
{
    WorkloadDataQuality {
        degraded: q.degraded,
        missing: crate::text::copy_all(&q.missing),
        notes: crate::text::copy_all(&q.notes),
    }
}

/// How a workload process ended and what became of its outputs.
#[derive(Debug, Clone, PartialEq, Eq)]
pub struct WorkloadRunEnd {
    pub status: WorkloadRunStatus,
    pub reason: Option<String>,
    pub exit_code: Option<i32>,
    pub signal: Option<i32>,
    pub started_at_unix_ms: u64,
    pub ended_at_unix_ms: u64,
    pub duration_ms: u64,
    pub stdout_truncated: bool,
    pub stderr_truncated: bool,
    pub pid: u32,
}

/// The artifacts of a finished workload run: its result, and its demand
/// profile summarized from the samples (process-scoped when a sample held
/// a process snapshot), both carrying the run's data quality.
pub fn finish_workload_run(
    plan: &WorkloadRunPlan,
    options: &LocalWorkloadRunOptions,
    samples: &Vec<WorkloadSample>,
    end: WorkloadRunEnd,
) -> (a: LocalWorkloadRunArtifacts)
    ensures
        ({
            let completed = end.status == WorkloadRunStatus::Completed;
            let r = a.result;
            let p = a.demand_profile;
            &&& r.schema_version@ == "lab.workload_run_result.v1"@
            &&& r.run_id@ == options.run_id@
            &&& r.workload_id@ == plan.workload_id@
            &&& r.target_id@ == options.target_id@
            &&& r.execution_mode == options.execution_mode
            &&& r.status == end.status
            &&& r.reason == end.reason
            &&& r.exit_code == end.exit_code
            &&& r.signal == end.signal
            &&& r.started_at_unix_ms == end.started_at_unix_ms
            &&& r.ended_at_unix_ms == end.ended_at_unix_ms
            &&& r.duration_ms == end.duration_ms
            &&& r.stdout_ref is None && r.stderr_ref is None
            &&& r.stdout_truncated == end.stdout_truncated
            &&& r.stderr_truncated == end.stderr_truncated
            &&& r.process_ids@ == seq![end.pid]
            &&& r.audit_refs@.len() == 0
            &&& run_quality_spec(r.data_quality, completed, any_proc(samples@))
            &&& p.schema_version@ == "lab.workload_demand_profile.v1"@
            &&& exists|n: nat| p.profile_id@ == "WORKLOAD-DEMAND-"@ + decimal(n)
            &&& p.run_id@ == options.run_id@
            &&& p.workload_id@ == plan.workload_id@
            &&& p.target_id@ == options.target_id@
            &&& p.execution_mode == options.execution_mode
            &&& p.demand_scope == (if any_proc(samples@) { WorkloadDemandScope::ProcessScoped } else { WorkloadDemandScope::SystemWideOnly })
            &&& p.target_conditioned_response.thermal_max_millicelsius == max_temp(samples@)
            &&& crate::run_validation::opt_view(p.target_conditioned_response.abort_reason) == crate::run_validation::opt_view(end.reason)
            &&& p.system_context.system_memory_available_min_kb == min_available(samples@)
            &&& run_quality_spec(p.data_quality, completed, any_proc(samples@))
            &&& p.evidence_refs@.len() == 0
        }),
{
    let completed = end.status == WorkloadRunStatus::Completed;
    let any_snapshot = any_proc_exec(samples);
    let quality = run_quality(completed, any_snapshot);
    let demand = summarize_demand(samples, end.duration_ms);
    let reason_copy = match &end.reason {
        Some(r) => Some(owned(r.as_str())),
        None => None,
    };
    let response = summarize_response(samples, plan.bounds.thermal_abort_millicelsius, reason_copy);
    let system_context = summarize_system_context(samples);
    let result = WorkloadRunResult {
        schema_version: owned("lab.workload_run_result.v1"),
        run_id: owned(options.run_id.as_str()),
        workload_id: owned(plan.workload_id.as_str()),
        target_id: owned(options.target_id.as_str()),
        execution_mode: options.execution_mode,
        status: end.status,
        reason: end.reason,
        exit_code: end.exit_code,
        signal: end.signal,
        started_at_unix_ms: end.started_at_unix_ms,
        ended_at_unix_ms: end.ended_at_unix_ms,
        duration_ms: end.duration_ms,
        stdout_ref: None,
        stderr_ref: None,
        stdout_truncated: end.stdout_truncated,
        stderr_truncated: end.stderr_truncated,
        process_ids: vec![end.pid],
        audit_refs: Vec::new(),
        data_quality: copy_quality(&quality),
        time_unix_ms: crate::ids::now_unix_ms(),
    };
    let profile_id = crate::ids::new_id("WORKLOAD-DEMAND");
    proof {
        reveal_strlit("WORKLOAD-DEMAND");
        reveal_strlit("-");
        reveal_strlit("WORKLOAD-DEMAND-");
        assert("WORKLOAD-DEMAND"@ + seq!['-'] =~= "WORKLOAD-DEMAND-"@);
    }
    let profile = WorkloadDemandProfile {
        schema_version: owned("lab.workload_demand_profile.v1"),
        profile_id,
        run_id: owned(options.run_id.as_str()),
        workload_id: owned(plan.workload_id.as_str()),
        target_id: owned(options.target_id.as_str()),
        execution_mode: options.execution_mode,
        demand_scope: if any_snapshot { WorkloadDemandScope::ProcessScoped } else { WorkloadDemandScope::SystemWideOnly },
        workload_demand: demand,
        target_conditioned_response: response,
        system_context,
        data_quality: quality,
        evidence_refs: Vec::new(),
        time_unix_ms: crate::ids::now_unix_ms(),
    };
    proof {
        assert(result.process_ids@ =~= seq![end.pid]);
    }
    LocalWorkloadRunArtifacts { result, demand_profile: profile }
}

/// The artifacts of a workload run refused before it started: refused,
/// degraded, and naming the reason.
pub fn refused_workload_artifacts(run_id: String, workload_id: String, target_id: String, reason: String)
    -> (a: LocalWorkloadRunArtifacts)
    ensures
        a.result.status == WorkloadRunStatus::Refused,
        a.result.reason matches Some(r) && r@ == reason@,
        a.result.run_id@ == run_id@,
        a.result.workload_id@ == workload_id@,
        a.result.target_id@ == target_id@,
        a.result.execution_mode == WorkloadExecutionMode::Local,
        a.result.duration_ms == 0,
        a.result.exit_code is None && a.result.signal is None,
        a.result.process_ids@.len() == 0,
        a.result.data_quality.degraded,
        views(a.result.data_quality.missing@) == seq!["workload run v1 is local-target only"@],
        views(a.result.data_quality.notes@) == seq![reason@],
        a.demand_profile.demand_scope == WorkloadDemandScope::SystemWideOnly,
        is_empty_demand(a.demand_profile.workload_demand),
        a.demand_profile.target_conditioned_response.abort_reason matches Some(r) && r@ == reason@,
        a.demand_profile.system_context.background_activity_confounder@ == "not_measured_refused_run"@,
        a.demand_profile.data_quality.degraded,
        exists|n: nat| a.demand_profile.profile_id@ == "WORKLOAD-DEMAND-"@ + decimal(n),
{
    let quality = WorkloadDataQuality {
        degraded: true,
        missing: crate::text::single("workload run v1 is local-target only"),
        notes: crate::text::single(reason.as_str()),
    };
    let now = crate::ids::now_unix_ms();
    let result = WorkloadRunResult {
        schema_version: owned("lab.workload_run_result.v1"),
        run_id: owned(run_id.as_str()),
        workload_id: owned(workload_id.as_str()),
        target_id: owned(target_id.as_str()),
        execution_mode: WorkloadExecutionMode::Local,
        status: WorkloadRunStatus::Refused,
        reason: Some(owned(reason.as_str())),
        exit_code: None,
        signal: None,
        started_at_unix_ms: now,
        ended_at_unix_ms: now,
        duration_ms: 0,
        stdout_ref: None,
        stderr_ref: None,
        stdout_truncated: false,
        stderr_truncated: false,
        process_ids: Vec::new(),
        audit_refs: Vec::new(),
        data_quality: copy_quality(&quality),
        time_unix_ms: now,
    };
    let profile_id = crate::ids::new_id("WORKLOAD-DEMAND");
    proof {
        reveal_strlit("WORKLOAD-DEMAND");
        reveal_strlit("-");
        reveal_strlit("WORKLOAD-DEMAND-");
        assert("WORKLOAD-DEMAND"@ + seq!['-'] =~= "WORKLOAD-DEMAND-"@);
    }
    let profile = WorkloadDemandProfile {
        schema_version: owned("lab.workload_demand_profile.v1"),
        profile_id,
        run_id,
        workload_id,
        target_id,
        execution_mode: WorkloadExecutionMode::Local,
        demand_scope: WorkloadDemandScope::SystemWideOnly,
        workload_demand: empty_demand(),
        target_conditioned_response: WorkloadTargetConditionedResponse {
            portable_between_targets: false,
            thermal_max_millicelsius: None,
            thermal_margin_millicelsius: None,
            freq_range_khz: None,
            abort_reason: Some(reason),
        },
        system_context: WorkloadSystemContext {
            system_cpu_percent_avg_milli: None,
            system_memory_available_min_kb: None,
            background_activity_confounder: owned("not_measured_refused_run"),
        },
        data_quality: quality,
        evidence_refs: Vec::new(),
        time_unix_ms: now,
    };
    LocalWorkloadRunArtifacts { result, demand_profile: profile }
}

} // verus!

verus! {

/// The reported thermal maximum is the hottest reading: no sample read
/// hotter, one sample read exactly that, and there is none only when no
/// sample has a reading.
pub proof fn law_max_temp_is_hottest_reading(samples: Seq<WorkloadSample>)
    ensures
        max_temp(samples) is None <==> forall|i: int| 0 <= i < samples.len() ==> (#[trigger] samples[i]).temp_millicelsius is None,
        max_temp(samples) matches Some(t) ==> {
            &&& forall|i: int| 0 <= i < samples.len() && (#[trigger] samples[i]).temp_millicelsius is Some
                ==> samples[i].temp_millicelsius.unwrap() <= t
            &&& exists|i: int| 0 <= i < samples.len() && (#[trigger] samples[i]).temp_millicelsius == Some(t)
        },
    decreases samples.len(),
{
    if samples.len() > 0 {
        let prefix = samples.drop_last();
        law_max_temp_is_hottest_reading(prefix);
        assert forall|i: int| 0 <= i < prefix.len() implies #[trigger] prefix[i] == samples[i] by {}
        let last = samples.len() - 1;
        assert(samples[last] == samples.last());
        if max_temp(prefix) is Some {
            let a = max_temp(prefix).unwrap();
            let k = choose|k: int| 0 <= k < prefix.len() && (#[trigger] prefix[k]).temp_millicelsius == Some(a);
            assert(samples[k].temp_millicelsius == Some(a));
        }
        if max_temp(prefix) is None && samples.last().temp_millicelsius is None {
            assert forall|i: int| 0 <= i < samples.len() implies (#[trigger] samples[i]).temp_millicelsius is None by {
                if i < prefix.len() {
                    assert(prefix[i].temp_millicelsius is None);
                }
            }
        }
        if max_temp(samples) is None {
            assert(samples[last].temp_millicelsius is None);
        }
        if max_temp(samples) is Some {
            let t = max_temp(samples).unwrap();
            assert forall|i: int| 0 <= i < samples.len() && (#[trigger] samples[i]).temp_millicelsius is Some
                implies samples[i].temp_millicelsius.unwrap() <= t by {
                if i < prefix.len() {
                    assert(prefix[i].temp_millicelsius is Some);
                    assert(max_temp(prefix) is Some);
                }
            }
        }
    }
}

} // verus!
