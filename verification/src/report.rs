//! The evidence a run directory holds, summarized for reports and run
//! manifests.

use crate::error::{LabError, LabResult};
use crate::experiment::pair_views;
use crate::run_validation::opt_view;
use crate::text::{concat, copy_all, decimal, decimal_string, owned, sorted_unique, str_eq, strictly_sorted, views};
use vstd::prelude::*;

verus! {

pub const OP_INVENTORY: &'static str = "inventory";
pub const OP_TOOLCHAIN_DISCOVERY: &'static str = "toolchain_discovery";
pub const OP_PASSIVE_OBSERVE: &'static str = "passive_observe";
pub const OP_BOUNDED_LOAD: &'static str = "bounded_load";
pub const OP_PRIVILEGED_CONTROL: &'static str = "privileged_control";
pub const OP_CONTROLLED_OPERATING_POINT: &'static str = "controlled_operating_point";
pub const OP_SUSTAINED_THERMAL: &'static str = "sustained_thermal";
pub const STATUS_COMPLETED: &'static str = "completed";
pub const STATUS_NOT_RUN: &'static str = "not_run";

/// What a run directory holds.  The two maps are lists of key and value,
/// sorted by key, each key once.
#[derive(Debug, Clone)]
pub struct RunEvidenceSummary {
    pub run_id: String,
    pub target_inventory_ref: Option<String>,
    pub toolchain_inventory_ref: Option<String>,
    pub tool_qualification_summary_ref: Option<String>,
    pub observation_ref: Option<String>,
    pub load_result_refs: Vec<String>,
    pub operations_summary: Vec<(String, String)>,
    pub operation_audit_refs: Vec<(String, String)>,
    pub audit_event_count: usize,
    pub audit_run_id_mismatches: Vec<String>,
}

/// The value of the first entry with the key.
pub open spec fn lookup(entries: Seq<(String, String)>, key: Seq<char>) -> Option<Seq<char>>
    decreases entries.len(),
{
    if entries.len() == 0 {
        None
    } else if entries[0].0@ == key {
        Some(entries[0].1@)
    } else {
        lookup(entries.drop_first(), key)
    }
}

/// The value of the first entry with the key.
pub fn lookup_value<'a>(entries: &'a Vec<(String, String)>, key: &str) -> (r: Option<&'a String>)
    ensures
        match lookup(entries@, key@) {
            None => r is None,
            Some(v) => r matches Some(s) && s@ == v,
        },
{
    assert(entries@.subrange(0, entries@.len() as int) =~= entries@);
    let mut i: usize = 0;
    while i < entries.len()
        invariant
            i <= entries@.len(),
            lookup(entries@, key@) == lookup(entries@.subrange(i as int, entries@.len() as int), key@),
        decreases entries.len() - i,
    {
        let ghost rest = entries@.subrange(i as int, entries@.len() as int);
        assert(rest[0] == entries@[i as int]);
        assert(rest.drop_first() =~= entries@.subrange(i + 1, entries@.len() as int));
        if str_eq(entries[i].0.as_str(), key) {
            return Some(&entries[i].1);
        }
        i = i + 1;
    }
    None
}

/// Whether an operation was completed.
pub fn status_if(completed: bool) -> (s: String)
    ensures
        s@ == (if completed { STATUS_COMPLETED@ } else { STATUS_NOT_RUN@ }),
{
    if completed { owned(STATUS_COMPLETED) } else { owned(STATUS_NOT_RUN) }
}

/// The recorded status of an operation; not run when nothing was recorded.
pub open spec fn operation_status_spec(summary: RunEvidenceSummary, operation: Seq<char>) -> Seq<char> {
    match lookup(summary.operations_summary@, operation) {
        Some(v) => v,
        None => STATUS_NOT_RUN@,
    }
}

/// The recorded status of an operation; not run when nothing was recorded.
pub fn operation_status(summary: &RunEvidenceSummary, operation: &str) -> (s: String)
    ensures
        s@ == operation_status_spec(*summary, operation@),
{
    match lookup_value(&summary.operations_summary, operation) {
        Some(v) => owned(v.as_str()),
        None => owned(STATUS_NOT_RUN),
    }
}

/// The status of the evidence pack of a run.
pub open spec fn pack_status_spec(summary: RunEvidenceSummary) -> Seq<char> {
    if !(summary.target_inventory_ref is Some && summary.toolchain_inventory_ref is Some && summary.observation_ref is Some) {
        "incomplete"@
    } else if operation_status_spec(summary, OP_CONTROLLED_OPERATING_POINT@) == STATUS_COMPLETED@ {
        "controlled_operating_point_subset"@
    } else if operation_status_spec(summary, OP_BOUNDED_LOAD@) == STATUS_COMPLETED@ {
        "exploratory_short_smoke"@
    } else {
        "observational_read_only"@
    }
}

/// The status of the evidence pack: incomplete without the core
/// inventories and observation, else by the strongest operation completed.
pub fn pack_status(summary: &RunEvidenceSummary) -> (s: String)
    ensures
        s@ == pack_status_spec(*summary),
{
    let has_core = summary.target_inventory_ref.is_some() && summary.toolchain_inventory_ref.is_some()
        && summary.observation_ref.is_some();
    if !has_core {
        return owned("incomplete");
    }
    let controlled = operation_status(summary, OP_CONTROLLED_OPERATING_POINT);
    if str_eq(controlled.as_str(), STATUS_COMPLETED) {
        return owned("controlled_operating_point_subset");
    }
    let load = operation_status(summary, OP_BOUNDED_LOAD);
    if str_eq(load.as_str(), STATUS_COMPLETED) {
        return owned("exploratory_short_smoke");
    }
    owned("observational_read_only")
}

/// The mode of a run: a short smoke when a bounded load was completed,
/// read-only familiarization otherwise.
pub fn run_mode(summary: &RunEvidenceSummary) -> (s: String)
    ensures
        s@ == (if operation_status_spec(*summary, OP_BOUNDED_LOAD@) == STATUS_COMPLETED@ {
            "exploratory_short_smoke"@ } else { "read_only_familiarization"@ }),
{
    let load = operation_status(summary, OP_BOUNDED_LOAD);
    if str_eq(load.as_str(), STATUS_COMPLETED) {
        owned("exploratory_short_smoke")
    } else {
        owned("read_only_familiarization")
    }
}

/// The platform part of a release asset name for a target triple.
pub fn asset_triple(target_triple: &str) -> (s: String)
    ensures
        s@ == (if target_triple@ == "aarch64-unknown-linux-gnu"@ { "linux-aarch64"@ }
            else if target_triple@ == "x86_64-unknown-linux-gnu"@ { "linux-x86_64"@ }
            else { target_triple@ }),
{
    if str_eq(target_triple, "aarch64-unknown-linux-gnu") {
        owned("linux-aarch64")
    } else if str_eq(target_triple, "x86_64-unknown-linux-gnu") {
        owned("linux-x86_64")
    } else {
        owned(target_triple)
    }
}

/// The reference of a run's audit log.
pub open spec fn audit_ref_spec(run_id: Seq<char>) -> Seq<char> {
    "artifact://lab/runs/"@ + run_id + "/audit.jsonl"@
}

/// The status word of an operation.
pub open spec fn status_word(completed: bool) -> Seq<char> {
    if completed { STATUS_COMPLETED@ } else { STATUS_NOT_RUN@ }
}

/// The operations summary of a run, sorted by operation.
pub open spec fn operations_spec(
    inventory: bool,
    toolchain: bool,
    observed: bool,
    loaded: bool,
    controlled: bool,
    experiment_completed: bool,
) -> Seq<(Seq<char>, Seq<char>)> {
    seq![
        (OP_BOUNDED_LOAD@, status_word(loaded)),
        (OP_CONTROLLED_OPERATING_POINT@, status_word(experiment_completed)),
        (OP_INVENTORY@, status_word(inventory)),
        (OP_PASSIVE_OBSERVE@, status_word(observed)),
        (OP_PRIVILEGED_CONTROL@, status_word(controlled)),
        (OP_SUSTAINED_THERMAL@, STATUS_NOT_RUN@),
        (OP_TOOLCHAIN_DISCOVERY@, status_word(toolchain)),
    ]
}

/// The keys of key and value entries.
pub open spec fn entry_keys(e: Seq<(Seq<char>, Seq<char>)>) -> Seq<Seq<char>> {
    e.map_values(|p: (Seq<char>, Seq<char>)| p.0)
}

fn entry(k: &str, v: String) -> (e: (String, String))
    ensures
        e.0@ == k@,
        e.1@ == v@,
{
    (owned(k), v)
}

/// The summary of what a run directory holds: which evidence exists, the
/// status of each operation, and the audit log's operations, each
/// referencing the log. `control_result_present` says whether a control
/// result exists and `experiment_completed` whether an experiment trial
/// completed; `audit_operations` are the operations the audit events
/// record, in order.
pub fn run_evidence_summary(
    run_id: String,
    target_inventory_ref: Option<String>,
    toolchain_inventory_ref: Option<String>,
    tool_qualification_summary_ref: Option<String>,
    observation_ref: Option<String>,
    load_result_refs: Vec<String>,
    control_result_present: bool,
    experiment_completed: bool,
    audit_operations: &Vec<String>,
    audit_event_count: usize,
    audit_run_id_mismatches: Vec<String>,
) -> (s: RunEvidenceSummary)
    ensures
        s.run_id@ == run_id@,
        opt_view(s.target_inventory_ref) == opt_view(target_inventory_ref),
        opt_view(s.toolchain_inventory_ref) == opt_view(toolchain_inventory_ref),
        opt_view(s.tool_qualification_summary_ref) == opt_view(tool_qualification_summary_ref),
        opt_view(s.observation_ref) == opt_view(observation_ref),
        views(s.load_result_refs@) == views(load_result_refs@),
        pair_views(s.operations_summary@) == operations_spec(target_inventory_ref is Some, toolchain_inventory_ref is Some,
            observation_ref is Some, load_result_refs@.len() > 0, control_result_present, experiment_completed),
        strictly_sorted(entry_keys(pair_views(s.operation_audit_refs@))),
        forall|k: Seq<char>| entry_keys(pair_views(s.operation_audit_refs@)).contains(k) <==> views(audit_operations@).contains(k),
        forall|i: int| 0 <= i < s.operation_audit_refs@.len() ==> (#[trigger] s.operation_audit_refs@[i]).1@ == audit_ref_spec(run_id@),
        s.audit_event_count == audit_event_count,
        views(s.audit_run_id_mismatches@) == views(audit_run_id_mismatches@),
{
    let mut operations_summary: Vec<(String, String)> = Vec::new();
    operations_summary.push(entry(OP_BOUNDED_LOAD, status_if(load_result_refs.len() > 0)));
    operations_summary.push(entry(OP_CONTROLLED_OPERATING_POINT, status_if(experiment_completed)));
    operations_summary.push(entry(OP_INVENTORY, status_if(target_inventory_ref.is_some())));
    operations_summary.push(entry(OP_PASSIVE_OBSERVE, status_if(observation_ref.is_some())));
    operations_summary.push(entry(OP_PRIVILEGED_CONTROL, status_if(control_result_present)));
    operations_summary.push(entry(OP_SUSTAINED_THERMAL, owned(STATUS_NOT_RUN)));
    operations_summary.push(entry(OP_TOOLCHAIN_DISCOVERY, status_if(toolchain_inventory_ref.is_some())));
    proof {
        assert(pair_views(operations_summary@) =~= operations_spec(target_inventory_ref is Some, toolchain_inventory_ref is Some,
            observation_ref is Some, load_result_refs@.len() > 0, control_result_present, experiment_completed));
    }
    let a = concat("artifact://lab/runs/", run_id.as_str());
    let audit_ref = concat(a.as_str(), "/audit.jsonl");
    let names = sorted_unique(copy_all(audit_operations));
    let mut operation_audit_refs: Vec<(String, String)> = Vec::new();
    let mut i: usize = 0;
    while i < names.len()
        invariant
            i <= names@.len(),
            audit_ref@ == audit_ref_spec(run_id@),
            operation_audit_refs@.len() == i,
            forall|k: int| 0 <= k < i ==> (#[trigger] operation_audit_refs@[k]).0@ == names@[k]@
                && operation_audit_refs@[k].1@ == audit_ref_spec(run_id@),
        decreases names.len() - i,
    {
        operation_audit_refs.push((owned(names[i].as_str()), owned(audit_ref.as_str())));
        i = i + 1;
    }
    proof {
        assert(entry_keys(pair_views(operation_audit_refs@)) =~= views(names@));
    }
    RunEvidenceSummary {
        run_id,
        target_inventory_ref,
        toolchain_inventory_ref,
        tool_qualification_summary_ref,
        observation_ref,
        load_result_refs,
        operations_summary,
        operation_audit_refs,
        audit_event_count,
        audit_run_id_mismatches,
    }
}

/// The note for an audit event recorded under another run.
pub open spec fn audit_mismatch_spec(line: nat, run_id: Seq<char>, expected: Seq<char>) -> Seq<char> {
    "audit event line "@ + decimal(line) + " run_id "@ + run_id + " does not match manifest run_id "@ + expected
}

/// The note for the audit event on a line (counted from one) whose run
/// differs from the run it is filed under.
pub fn audit_run_id_mismatch(line: u64, run_id: &str, expected_run_id: &str) -> (s: String)
    ensures
        s@ == audit_mismatch_spec(line as nat, run_id@, expected_run_id@),
{
    let n = decimal_string(line);
    let a = concat("audit event line ", n.as_str());
    let b = concat(a.as_str(), " run_id ");
    let c = concat(b.as_str(), run_id);
    let d = concat(c.as_str(), " does not match manifest run_id ");
    concat(d.as_str(), expected_run_id)
}

/// The release identity of a run: the controller's and the target's build
/// identities, the release naming, and the digest of each binary (a list
/// of name and digest, sorted by name, each name once).
#[derive(Debug, Clone)]
pub struct ReleaseIdentity {
    pub adc_lab_version: String,
    pub adc_lab_git_sha: String,
    pub adc_lab_target_version: String,
    pub adc_lab_target_git_sha: String,
    pub release_tag: String,
    pub release_asset: String,
    pub release_asset_sha256: String,
    pub binary_sha256: Vec<(String, String)>,
}

/// A setting from the environment when it is set and not blank.
pub open spec fn setting(v: Option<String>) -> Option<Seq<char>> {
    match v {
        Some(s) => if crate::run_validation::is_blank(s@) { None } else { Some(s@) },
        None => None,
    }
}

fn setting_exec(v: Option<String>) -> (r: Option<String>)
    ensures
        opt_view(r) == setting(v),
{
    match v {
        Some(s) => if crate::run_validation::is_blank_str(s.as_str()) { None } else { Some(s) },
        None => None,
    }
}

/// The digest a release manifest records for a binary: that of the last
/// entry with its name.
pub open spec fn manifest_digest(binaries: Seq<crate::contracts::ReleaseBinaryManifest>, name: Seq<char>) -> Option<Seq<char>>
    decreases binaries.len(),
{
    if binaries.len() == 0 {
        None
    } else if binaries.last().name@ == name {
        Some(binaries.last().sha256@)
    } else {
        manifest_digest(binaries.drop_last(), name)
    }
}

/// The digest recorded for a binary: the release manifest's, else for the
/// controller the digest of the running executable, else `unknown`.
pub open spec fn binary_digest(manifest: Option<crate::contracts::ReleaseManifest>, exe_sha256: Option<String>, name: Seq<char>)
    -> Seq<char>
{
    let from_manifest = match manifest {
        Some(m) => manifest_digest(m.binaries@, name),
        None => None,
    };
    match from_manifest {
        Some(d) => d,
        None => if name == "adc-lab"@ {
            match exe_sha256 { Some(e) => e@, None => "unknown"@ }
        } else {
            "unknown"@
        },
    }
}

/// The binaries a release identity names: the controller, the target
/// helper, and those of the release manifest.
pub open spec fn binary_named(manifest: Option<crate::contracts::ReleaseManifest>, name: Seq<char>) -> bool {
    name == "adc-lab"@ || name == "adc-lab-target"@
        || (manifest matches Some(m) && exists|i: int| 0 <= i < m.binaries@.len() && (#[trigger] m.binaries@[i]).name@ == name)
}

fn manifest_digest_exec(binaries: &Vec<crate::contracts::ReleaseBinaryManifest>, name: &str) -> (r: Option<String>)
    ensures
        opt_view(r) == manifest_digest(binaries@, name@),
{
    let mut i: usize = binaries.len();
    assert(binaries@.take(binaries@.len() as int) =~= binaries@);
    while i > 0
        invariant
            i <= binaries@.len(),
            manifest_digest(binaries@, name@) == manifest_digest(binaries@.take(i as int), name@),
        decreases i,
    {
        assert(binaries@.take(i as int).drop_last() =~= binaries@.take(i - 1));
        if str_eq(binaries[i - 1].name.as_str(), name) {
            return Some(owned(binaries[i - 1].sha256.as_str()));
        }
        i = i - 1;
    }
    None
}

/// The release identity of a run from the controller's build identity, the
/// target helper's (when its version file was found), the release manifest
/// (when one was found), the release settings of the environment and the
/// digest of the running executable: a setting that is not set or blank
/// falls back to one derived from the controller's version.
pub fn release_identity(
    controller: &crate::contracts::BuildInfo,
    target_build_info: Option<crate::contracts::BuildInfo>,
    manifest: Option<crate::contracts::ReleaseManifest>,
    env_release_tag: Option<String>,
    env_release_asset: Option<String>,
    env_release_asset_sha256: Option<String>,
    exe_sha256: Option<String>,
) -> (r: ReleaseIdentity)
    ensures
        r.adc_lab_version@ == controller.version@,
        r.adc_lab_git_sha@ == controller.git_sha@,
        r.adc_lab_target_version@ == (match target_build_info { Some(t) => t.version@, None => "unknown"@ }),
        r.adc_lab_target_git_sha@ == (match target_build_info { Some(t) => t.git_sha@, None => "unknown"@ }),
        r.release_tag@ == (match setting(env_release_tag) { Some(t) => t, None => "v"@ + controller.version@ }),
        r.release_asset@ == (match setting(env_release_asset) {
            Some(t) => t,
            None => "adc-lab-v"@ + controller.version@ + "-"@ + asset_triple_spec(controller.target_triple@) + ".tar.gz"@,
        }),
        r.release_asset_sha256@ == (match setting(env_release_asset_sha256) { Some(t) => t, None => "unknown"@ }),
        strictly_sorted(entry_keys(pair_views(r.binary_sha256@))),
        forall|k: Seq<char>| entry_keys(pair_views(r.binary_sha256@)).contains(k) <==> binary_named(manifest, k),
        forall|i: int| 0 <= i < r.binary_sha256@.len()
            ==> (#[trigger] r.binary_sha256@[i]).1@ == binary_digest(manifest, exe_sha256, r.binary_sha256@[i].0@),
{
    let tag = match setting_exec(env_release_tag) {
        Some(t) => t,
        None => concat("v", controller.version.as_str()),
    };
    let asset = match setting_exec(env_release_asset) {
        Some(t) => t,
        None => {
            let a = concat("adc-lab-v", controller.version.as_str());
            let b = concat(a.as_str(), "-");
            let c = concat(b.as_str(), asset_triple(controller.target_triple.as_str()).as_str());
            concat(c.as_str(), ".tar.gz")
        },
    };
    let asset_sha = match setting_exec(env_release_asset_sha256) {
        Some(t) => t,
        None => owned("unknown"),
    };
    let mut names: Vec<String> = Vec::new();
    names.push(owned("adc-lab"));
    names.push(owned("adc-lab-target"));
    proof {
        assert(views(names@) =~= seq!["adc-lab"@, "adc-lab-target"@]);
        assert forall|k: Seq<char>| views(names@).contains(k) <==> (k == "adc-lab"@ || k == "adc-lab-target"@) by {
            if views(names@).contains(k) {
                let q = choose|q: int| 0 <= q < views(names@).len() && views(names@)[q] == k;
            }
            if k == "adc-lab"@ { assert(views(names@)[0] == k); }
            if k == "adc-lab-target"@ { assert(views(names@)[1] == k); }
        }
    }
    let empty: Vec<crate::contracts::ReleaseBinaryManifest> = Vec::new();
    let binaries: &Vec<crate::contracts::ReleaseBinaryManifest> = match &manifest {
        Some(m) => &m.binaries,
        None => &empty,
    };
    let mut i: usize = 0;
    while i < binaries.len()
        invariant
            i <= binaries@.len(),
            binaries@ == (match manifest { Some(m) => m.binaries@, None => Seq::<crate::contracts::ReleaseBinaryManifest>::empty() }),
            forall|k: Seq<char>| views(names@).contains(k) <==> (k == "adc-lab"@ || k == "adc-lab-target"@
                || exists|j: int| 0 <= j < i && (#[trigger] binaries@[j]).name@ == k),
        decreases binaries.len() - i,
    {
        let ghost prev = views(names@);
        names.push(owned(binaries[i].name.as_str()));
        proof {
            assert(views(names@) =~= prev.push(binaries@[i as int].name@));
            assert forall|k: Seq<char>| views(names@).contains(k) <==> (k == "adc-lab"@ || k == "adc-lab-target"@
                || exists|j: int| 0 <= j < i + 1 && (#[trigger] binaries@[j]).name@ == k) by {
                if views(names@).contains(k) {
                    let q = choose|q: int| 0 <= q < views(names@).len() && views(names@)[q] == k;
                    if q < prev.len() {
                        assert(prev[q] == k);
                        assert(prev.contains(k));
                        if !(k == "adc-lab"@ || k == "adc-lab-target"@) {
                            let j = choose|j: int| 0 <= j < i && (#[trigger] binaries@[j]).name@ == k;
                            assert(binaries@[j].name@ == k);
                        }
                    } else {
                        assert(binaries@[i as int].name@ == k);
                    }
                }
                if exists|j: int| 0 <= j < i + 1 && (#[trigger] binaries@[j]).name@ == k {
                    let j = choose|j: int| 0 <= j < i + 1 && (#[trigger] binaries@[j]).name@ == k;
                    if j < i {
                        assert(prev.contains(k));
                        let q = choose|q: int| 0 <= q < prev.len() && prev[q] == k;
                        assert(views(names@)[q] == k);
                    } else {
                        assert(views(names@)[prev.len() as int] == k);
                    }
                }
                if k == "adc-lab"@ || k == "adc-lab-target"@ {
                    assert(prev.contains(k));
                    let q = choose|q: int| 0 <= q < prev.len() && prev[q] == k;
                    assert(views(names@)[q] == k);
                }
            }
        }
        i = i + 1;
    }
    let keys = sorted_unique(names);
    let mut entries: Vec<(String, String)> = Vec::new();
    let mut j: usize = 0;
    while j < keys.len()
        invariant
            j <= keys@.len(),
            entries@.len() == j,
            binaries@ == (match manifest { Some(m) => m.binaries@, None => Seq::<crate::contracts::ReleaseBinaryManifest>::empty() }),
            forall|q: int| 0 <= q < j ==> (#[trigger] entries@[q]).0@ == keys@[q]@
                && entries@[q].1@ == binary_digest(manifest, exe_sha256, keys@[q]@),
        decreases keys.len() - j,
    {
        let key = keys[j].as_str();
        let value = match manifest_digest_exec(binaries, key) {
            Some(d) => d,
            None => if str_eq(key, "adc-lab") {
                match &exe_sha256 {
                    Some(e) => owned(e.as_str()),
                    None => owned("unknown"),
                }
            } else {
                owned("unknown")
            },
        };
        entries.push((owned(key), value));
        j = j + 1;
    }
    proof {
        assert(entry_keys(pair_views(entries@)) =~= views(keys@));
        assert forall|k: Seq<char>| entry_keys(pair_views(entries@)).contains(k) <==> binary_named(manifest, k) by {
            assert(views(keys@).contains(k) <==> views(names@).contains(k));
        }
    }
    ReleaseIdentity {
        adc_lab_version: owned(controller.version.as_str()),
        adc_lab_git_sha: owned(controller.git_sha.as_str()),
        adc_lab_target_version: match &target_build_info {
            Some(t) => owned(t.version.as_str()),
            None => owned("unknown"),
        },
        adc_lab_target_git_sha: match &target_build_info {
            Some(t) => owned(t.git_sha.as_str()),
            None => owned("unknown"),
        },
        release_tag: tag,
        release_asset: asset,
        release_asset_sha256: asset_sha,
        binary_sha256: entries,
    }
}

/// The platform part of a release asset name for a target triple.
pub open spec fn asset_triple_spec(t: Seq<char>) -> Seq<char> {
    if t == "aarch64-unknown-linux-gnu"@ { "linux-aarch64"@ }
    else if t == "x86_64-unknown-linux-gnu"@ { "linux-x86_64"@ }
    else { t }
}

/// Whether a release manifest found for the run names another version or
/// commit than the controller's build.
pub fn release_manifest_version_mismatch(manifest: Option<&crate::contracts::ReleaseManifest>, identity: &ReleaseIdentity)
    -> (r: bool)
    ensures
        r == (manifest matches Some(m) && (m.version@ != identity.adc_lab_version@ || m.git_sha@ != identity.adc_lab_git_sha@)),
{
    match manifest {
        None => false,
        Some(m) => !str_eq(m.version.as_str(), identity.adc_lab_version.as_str())
            || !str_eq(m.git_sha.as_str(), identity.adc_lab_git_sha.as_str()),
    }
}

/// `s` alone when `cond` holds, nothing otherwise.
pub open spec fn when(cond: bool, s: Seq<char>) -> Seq<Seq<char>> {
    if cond { seq![s] } else { Seq::empty() }
}

/// The entries have the key.
pub open spec fn has_key(entries: Seq<(String, String)>, key: Seq<char>) -> bool {
    lookup(entries, key) is Some
}

/// What a run's evidence is missing: core artifacts, audit events of the
/// read-only operations, the operations not run, wakeups, and release
/// identity that was not recorded.
pub open spec fn run_missing_spec(summary: RunEvidenceSummary, identity: ReleaseIdentity) -> Seq<Seq<char>> {
    missing_evidence_spec(summary) + missing_operations_spec(summary, identity)
}

/// The core artifacts and read-only audit events a run's evidence lacks.
pub open spec fn missing_evidence_spec(summary: RunEvidenceSummary) -> Seq<Seq<char>> {
    when(summary.target_inventory_ref is None, "target inventory artifact missing"@)
    + when(summary.toolchain_inventory_ref is None, "toolchain inventory artifact missing"@)
    + when(summary.observation_ref is None, "passive observation artifact missing"@)
    + when(summary.tool_qualification_summary_ref is None, "tool qualification summary artifact missing"@)
    + when(!has_key(summary.operation_audit_refs@, "inventory"@), "audit event missing for inventory"@)
    + when(!has_key(summary.operation_audit_refs@, "toolchain.discover"@), "audit event missing for toolchain.discover"@)
    + when(!has_key(summary.operation_audit_refs@, "tool.qualify_inventory"@), "audit event missing for tool.qualify_inventory"@)
    + when(!has_key(summary.operation_audit_refs@, "observe"@), "audit event missing for observe"@)
}

/// The operations a run did not run, and the release identity it did not record.
pub open spec fn missing_operations_spec(summary: RunEvidenceSummary, identity: ReleaseIdentity) -> Seq<Seq<char>> {
    when(operation_status_spec(summary, OP_CONTROLLED_OPERATING_POINT@) == STATUS_NOT_RUN@, "controlled operating point experiment was not run"@)
    + when(operation_status_spec(summary, OP_PRIVILEGED_CONTROL@) == STATUS_NOT_RUN@, "privileged control operation was not run"@)
    + when(operation_status_spec(summary, OP_SUSTAINED_THERMAL@) == STATUS_NOT_RUN@, "sustained thermal and recovery envelope were not measured"@)
    + seq!["wakeups were not measured"@]
    + when(identity.release_asset_sha256@ == "unknown"@, "release asset sha256 was not recorded"@)
    + when(identity.adc_lab_target_version@ == "unknown"@, "adc-lab-target version was not recorded"@)
}

/// What is inconsistent in a run's evidence: a load without its audit
/// event, audit events filed under another run, and build identities that
/// disagree.
pub open spec fn run_inconsistent_spec(summary: RunEvidenceSummary, identity: ReleaseIdentity, manifest_mismatch: bool)
    -> Seq<Seq<char>>
{
    when(summary.load_result_refs@.len() > 0 && !has_key(summary.operation_audit_refs@, "load.cpu"@)
        && !has_key(summary.operation_audit_refs@, "experiment.trial"@),
        "bounded load artifact exists without load.cpu or experiment.trial audit event"@)
    + views(summary.audit_run_id_mismatches@)
    + when(identity.adc_lab_target_version@ != "unknown"@ && identity.adc_lab_target_version@ != identity.adc_lab_version@,
        "adc-lab version "@ + identity.adc_lab_version@ + " does not match adc-lab-target version "@ + identity.adc_lab_target_version@)
    + when(identity.adc_lab_target_git_sha@ != "unknown"@ && identity.adc_lab_target_git_sha@ != identity.adc_lab_git_sha@,
        "adc-lab git_sha "@ + identity.adc_lab_git_sha@ + " does not match adc-lab-target git_sha "@ + identity.adc_lab_target_git_sha@)
    + when(manifest_mismatch, "release manifest version/git_sha does not match adc-lab binary build identity"@)
}

fn push_when(v: &mut Vec<String>, cond: bool, s: &str)
    ensures
        views(final(v)@) == views(old(v)@) + when(cond, s@),
{
    let ghost start = views(v@);
    if cond {
        v.push(owned(s));
        proof {
            assert(views(v@) =~= start + seq![s@]);
        }
    } else {
        proof {
            assert(views(v@) =~= start + Seq::<Seq<char>>::empty());
        }
    }
}

fn missing_evidence(summary: &RunEvidenceSummary) -> (v: Vec<String>)
    ensures
        views(v@) == missing_evidence_spec(*summary),
{
    let mut missing: Vec<String> = Vec::new();
    push_when(&mut missing, summary.target_inventory_ref.is_none(), "target inventory artifact missing");
    push_when(&mut missing, summary.toolchain_inventory_ref.is_none(), "toolchain inventory artifact missing");
    push_when(&mut missing, summary.observation_ref.is_none(), "passive observation artifact missing");
    push_when(&mut missing, summary.tool_qualification_summary_ref.is_none(), "tool qualification summary artifact missing");
    let refs = &summary.operation_audit_refs;
    push_when(&mut missing, lookup_value(refs, "inventory").is_none(), "audit event missing for inventory");
    push_when(&mut missing, lookup_value(refs, "toolchain.discover").is_none(), "audit event missing for toolchain.discover");
    push_when(&mut missing, lookup_value(refs, "tool.qualify_inventory").is_none(), "audit event missing for tool.qualify_inventory");
    push_when(&mut missing, lookup_value(refs, "observe").is_none(), "audit event missing for observe");
    proof {
        assert(views(missing@) =~= missing_evidence_spec(*summary));
    }
    missing
}

fn missing_operations(summary: &RunEvidenceSummary, identity: &ReleaseIdentity) -> (v: Vec<String>)
    ensures
        views(v@) == missing_operations_spec(*summary, *identity),
{
    let mut missing: Vec<String> = Vec::new();
    push_when(&mut missing, str_eq(operation_status(summary, OP_CONTROLLED_OPERATING_POINT).as_str(), STATUS_NOT_RUN),
        "controlled operating point experiment was not run");
    push_when(&mut missing, str_eq(operation_status(summary, OP_PRIVILEGED_CONTROL).as_str(), STATUS_NOT_RUN),
        "privileged control operation was not run");
    push_when(&mut missing, str_eq(operation_status(summary, OP_SUSTAINED_THERMAL).as_str(), STATUS_NOT_RUN),
        "sustained thermal and recovery envelope were not measured");
    push_when(&mut missing, true, "wakeups were not measured");
    push_when(&mut missing, str_eq(identity.release_asset_sha256.as_str(), "unknown"), "release asset sha256 was not recorded");
    push_when(&mut missing, str_eq(identity.adc_lab_target_version.as_str(), "unknown"), "adc-lab-target version was not recorded");
    proof {
        assert(views(missing@) =~= missing_operations_spec(*summary, *identity));
    }
    missing
}

/// The data quality of a run manifest: what the run's evidence is
/// missing, what is inconsistent in it (`manifest_mismatch` says whether a
/// release manifest found for the run disagrees with the controller's
/// build), and a note when a bounded load was run.
#[verifier::rlimit(30)]
pub fn run_data_quality(summary: &RunEvidenceSummary, identity: &ReleaseIdentity, manifest_mismatch: bool)
    -> (q: crate::contracts::RunDataQuality)
    ensures
        views(q.missing@) == run_missing_spec(*summary, *identity),
        views(q.inconsistent@) == run_inconsistent_spec(*summary, *identity, manifest_mismatch),
        views(q.notes@) == when(summary.load_result_refs@.len() > 0, "bounded non-root CPU load short-smoke was run"@),
{
    let mut missing = missing_evidence(summary);
    let rest = missing_operations(summary, identity);
    let ghost first = views(missing@);
    crate::text::extend_all(&mut missing, &rest);
    let refs = &summary.operation_audit_refs;
    let mut inconsistent: Vec<String> = Vec::new();
    push_when(&mut inconsistent,
        summary.load_result_refs.len() > 0 && lookup_value(refs, "load.cpu").is_none()
            && lookup_value(refs, "experiment.trial").is_none(),
        "bounded load artifact exists without load.cpu or experiment.trial audit event");
    crate::text::extend_all(&mut inconsistent, &summary.audit_run_id_mismatches);
    let version_mismatch = !str_eq(identity.adc_lab_target_version.as_str(), "unknown")
        && !str_eq(identity.adc_lab_target_version.as_str(), identity.adc_lab_version.as_str());
    let a = concat("adc-lab version ", identity.adc_lab_version.as_str());
    let b = concat(a.as_str(), " does not match adc-lab-target version ");
    let version_note = concat(b.as_str(), identity.adc_lab_target_version.as_str());
    push_when(&mut inconsistent, version_mismatch, version_note.as_str());
    let sha_mismatch = !str_eq(identity.adc_lab_target_git_sha.as_str(), "unknown")
        && !str_eq(identity.adc_lab_target_git_sha.as_str(), identity.adc_lab_git_sha.as_str());
    let c = concat("adc-lab git_sha ", identity.adc_lab_git_sha.as_str());
    let d = concat(c.as_str(), " does not match adc-lab-target git_sha ");
    let sha_note = concat(d.as_str(), identity.adc_lab_target_git_sha.as_str());
    push_when(&mut inconsistent, sha_mismatch, sha_note.as_str());
    push_when(&mut inconsistent, manifest_mismatch,
        "release manifest version/git_sha does not match adc-lab binary build identity");
    proof {
        assert(views(inconsistent@) =~= run_inconsistent_spec(*summary, *identity, manifest_mismatch));
    }
    let mut notes: Vec<String> = Vec::new();
    push_when(&mut notes, summary.load_result_refs.len() > 0, "bounded non-root CPU load short-smoke was run");
    proof {
        assert(views(notes@) =~= when(summary.load_result_refs@.len() > 0, "bounded non-root CPU load short-smoke was run"@));
    }
    crate::contracts::RunDataQuality { missing, inconsistent, notes }
}

/// The artifacts a run manifest lists when present, as name, path inside
/// the run directory and schema.
pub open spec fn known_artifacts_spec() -> Seq<(Seq<char>, Seq<char>, Seq<char>)> {
    seq![
        ("run_context"@, "run_context.json"@, "lab.run_context.v1"@),
        ("target_inventory"@, "inventory/target_inventory.json"@, "lab.target_inventory.v1"@),
        ("toolchain_inventory"@, "toolchain/toolchain_inventory.json"@, "lab.toolchain_inventory.v1"@),
        ("passive_observe"@, "observations/observe.json"@, "lab.observation_result.v1"@),
        ("report_run"@, "reports/run_report.v2.json"@, "lab.artifact.v2"@),
        ("tool_qualification_summary"@, "tools/tool_qualification_summary.json"@, "lab.tool_qualification_summary.v1"@),
        ("adc_lab_version"@, "tools/adc-lab.version.json"@, "lab.build_info.v1"@),
        ("adc_lab_target_version"@, "tools/adc-lab-target.version.json"@, "lab.build_info.v1"@),
        ("audit_log"@, "audit.jsonl"@, "lab.audit_event.v1"@),
    ]
}

fn known_artifact_table() -> (t: Vec<(&'static str, &'static str, &'static str)>)
    ensures
        t@.len() == 9,
        forall|i: int| 0 <= i < 9 ==> (#[trigger] t@[i]).0@ == known_artifacts_spec()[i].0
            && t@[i].1@ == known_artifacts_spec()[i].1 && t@[i].2@ == known_artifacts_spec()[i].2,
{
    vec![
        ("run_context", "run_context.json", "lab.run_context.v1"),
        ("target_inventory", "inventory/target_inventory.json", "lab.target_inventory.v1"),
        ("toolchain_inventory", "toolchain/toolchain_inventory.json", "lab.toolchain_inventory.v1"),
        ("passive_observe", "observations/observe.json", "lab.observation_result.v1"),
        ("report_run", "reports/run_report.v2.json", "lab.artifact.v2"),
        ("tool_qualification_summary", "tools/tool_qualification_summary.json", "lab.tool_qualification_summary.v1"),
        ("adc_lab_version", "tools/adc-lab.version.json", "lab.build_info.v1"),
        ("adc_lab_target_version", "tools/adc-lab-target.version.json", "lab.build_info.v1"),
        ("audit_log", "audit.jsonl", "lab.audit_event.v1"),
    ]
}

/// The paths, inside the run directory, of the artifacts a run manifest
/// lists when present, in order.
pub fn known_artifact_paths() -> (paths: Vec<String>)
    ensures
        paths@.len() == 9,
        forall|i: int| 0 <= i < 9 ==> (#[trigger] paths@[i])@ == known_artifacts_spec()[i].1,
{
    let table = known_artifact_table();
    let mut paths: Vec<String> = Vec::new();
    let mut i: usize = 0;
    while i < table.len()
        invariant
            table@.len() == 9,
            forall|k: int| 0 <= k < 9 ==> (#[trigger] table@[k]).1@ == known_artifacts_spec()[k].1,
            i <= 9,
            paths@.len() == i,
            forall|k: int| 0 <= k < i ==> (#[trigger] paths@[k])@ == known_artifacts_spec()[k].1,
        decreases table.len() - i,
    {
        paths.push(owned(table[i].1));
        i = i + 1;
    }
    paths
}

/// The listed artifacts of a run, from the reference of each known
/// artifact that exists (in the order of `known_artifact_paths`): each
/// present one with its name and schema, in order.
pub open spec fn listed_artifacts(found: Seq<Option<String>>, n: int) -> Seq<(Seq<char>, Seq<char>, Seq<char>)>
    decreases n,
{
    if n <= 0 {
        Seq::empty()
    } else {
        let prev = listed_artifacts(found, n - 1);
        match found[n - 1] {
            Some(r) => prev.push((known_artifacts_spec()[n - 1].0, r@, known_artifacts_spec()[n - 1].2)),
            None => prev,
        }
    }
}

/// Artifact references as plain values.
pub open spec fn artifact_ref_views(v: Seq<crate::contracts::RunArtifactRef>) -> Seq<(Seq<char>, Seq<char>, Seq<char>)> {
    v.map_values(|a: crate::contracts::RunArtifactRef| (a.name@, a.artifact_ref@, a.schema_version@))
}

/// The artifacts a run manifest lists.
pub fn known_run_artifacts(found: &Vec<Option<String>>) -> (artifacts: Vec<crate::contracts::RunArtifactRef>)
    requires
        found@.len() == 9,
    ensures
        artifact_ref_views(artifacts@) == listed_artifacts(found@, 9),
{
    let table = known_artifact_table();
    let mut artifacts: Vec<crate::contracts::RunArtifactRef> = Vec::new();
    let mut i: usize = 0;
    while i < 9
        invariant
            found@.len() == 9,
            table@.len() == 9,
            forall|k: int| 0 <= k < 9 ==> (#[trigger] table@[k]).0@ == known_artifacts_spec()[k].0
                && table@[k].2@ == known_artifacts_spec()[k].2,
            i <= 9,
            artifact_ref_views(artifacts@) == listed_artifacts(found@, i as int),
        decreases 9 - i,
    {
        match &found[i] {
            Some(r) => {
                let ghost prev = artifacts@;
                artifacts.push(crate::contracts::RunArtifactRef {
                    name: owned(table[i].0),
                    artifact_ref: owned(r.as_str()),
                    schema_version: owned(table[i].2),
                });
                proof {
                    assert(artifact_ref_views(artifacts@) =~= artifact_ref_views(prev).push(
                        (known_artifacts_spec()[i as int].0, r@, known_artifacts_spec()[i as int].2)));
                }
            },
            None => {},
        }
        i = i + 1;
    }
    artifacts
}

/// A reference is to a load result.
pub open spec fn is_load_result_ref(r: Seq<char>) -> bool {
    ||| (crate::text::contains_seq(r, "/load/"@) && crate::text::is_suffix(".v2.json"@, r))
    ||| crate::text::is_suffix("/load_result.json"@, r)
    ||| (crate::text::contains_seq(r, "/loads/"@) && crate::text::is_suffix(".result.json"@, r))
}

/// A reference is to a control result.
pub open spec fn is_control_result_ref(r: Seq<char>) -> bool {
    crate::text::contains_seq(r, "/plans/"@) && crate::text::is_suffix(".result.json"@, r)
}

/// The references that satisfy `load` (else the control-result test), in order.
pub open spec fn filtered_refs(refs: Seq<Seq<char>>, load: bool) -> Seq<Seq<char>>
    decreases refs.len(),
{
    if refs.len() == 0 {
        Seq::empty()
    } else {
        let prev = filtered_refs(refs.drop_last(), load);
        if (load && is_load_result_ref(refs.last())) || (!load && is_control_result_ref(refs.last())) {
            prev.push(refs.last())
        } else {
            prev
        }
    }
}

fn filter_refs(refs: &Vec<String>, load: bool) -> (r: Vec<String>)
    ensures
        views(r@) == filtered_refs(views(refs@), load),
{
    let mut out: Vec<String> = Vec::new();
    let mut i: usize = 0;
    while i < refs.len()
        invariant
            i <= refs@.len(),
            views(out@) == filtered_refs(views(refs@).take(i as int), load),
        decreases refs.len() - i,
    {
        proof {
            assert(views(refs@).take(i + 1).drop_last() =~= views(refs@).take(i as int));
        }
        let x = refs[i].as_str();
        let keep = if load {
            (crate::text::contains(x, "/load/") && crate::text::ends_with(x, ".v2.json"))
                || crate::text::ends_with(x, "/load_result.json")
                || (crate::text::contains(x, "/loads/") && crate::text::ends_with(x, ".result.json"))
        } else {
            crate::text::contains(x, "/plans/") && crate::text::ends_with(x, ".result.json")
        };
        if keep {
            let ghost prev = views(out@);
            out.push(owned(x));
            proof {
                assert(views(out@) =~= prev.push(x@));
            }
        }
        i = i + 1;
    }
    proof {
        assert(views(refs@).take(refs@.len() as int) =~= views(refs@));
    }
    out
}

/// The references to load results among a run's artifact references.
pub fn load_result_artifact_refs(refs: &Vec<String>) -> (r: Vec<String>)
    ensures
        views(r@) == filtered_refs(views(refs@), true),
{
    filter_refs(refs, true)
}

/// The references to control results among a run's artifact references.
pub fn control_result_artifact_refs(refs: &Vec<String>) -> (r: Vec<String>)
    ensures
        views(r@) == filtered_refs(views(refs@), false),
{
    filter_refs(refs, false)
}

/// The restore status of a run: a lease recorded when its lease directory
/// exists and holds an entry, not required otherwise.
pub fn restore_status(lease_dir_exists: bool, lease_dir_has_entry: bool) -> (s: String)
    ensures
        s@ == (if lease_dir_exists && lease_dir_has_entry { "pending_or_recorded"@ } else { "not_required"@ }),
{
    if lease_dir_exists && lease_dir_has_entry { owned("pending_or_recorded") } else { owned("not_required") }
}

/// The manifest of a run: its summary, the controller's build, the
/// release identity and the data quality, with the artifacts found, the
/// audit log's reference (its conventional reference when the log was not
/// found) and the run report's reference when one exists.
pub fn run_manifest(
    summary: RunEvidenceSummary,
    target_id: String,
    target: String,
    started_at_unix_ms: u64,
    ended_at_unix_ms: u64,
    controller_build_info: crate::contracts::BuildInfo,
    artifacts: Vec<crate::contracts::RunArtifactRef>,
    audit_ref_found: Option<String>,
    claim_trace_ref: Option<String>,
    identity: ReleaseIdentity,
    data_quality: crate::contracts::RunDataQuality,
) -> (m: crate::contracts::RunManifest)
    ensures
        m.schema_version@ == "lab.run_manifest.v1"@,
        m.run_id@ == summary.run_id@,
        m.target_id == target_id,
        m.target == target,
        m.mode@ == (if operation_status_spec(summary, OP_BOUNDED_LOAD@) == STATUS_COMPLETED@ {
            "exploratory_short_smoke"@ } else { "read_only_familiarization"@ }),
        m.started_at_unix_ms == started_at_unix_ms,
        m.ended_at_unix_ms == ended_at_unix_ms,
        m.adc_lab_version == controller_build_info.version,
        m.adc_lab_git_sha == controller_build_info.git_sha,
        m.adc_lab_target_version == identity.adc_lab_target_version,
        m.adc_lab_target_git_sha == identity.adc_lab_target_git_sha,
        m.release_tag == identity.release_tag,
        m.release_asset == identity.release_asset,
        m.release_asset_sha256 == identity.release_asset_sha256,
        m.binary_sha256 == identity.binary_sha256,
        m.operations_summary == summary.operations_summary,
        m.operation_audit_refs == summary.operation_audit_refs,
        m.artifacts == artifacts,
        m.audit_ref@ == (match audit_ref_found { Some(r) => r@, None => audit_ref_spec(summary.run_id@) }),
        m.claim_trace_ref == claim_trace_ref,
        m.data_quality == data_quality,
{
    let mode = run_mode(&summary);
    let audit_ref = match audit_ref_found {
        Some(r) => r,
        None => {
            let a = concat("artifact://lab/runs/", summary.run_id.as_str());
            concat(a.as_str(), "/audit.jsonl")
        },
    };
    crate::contracts::RunManifest {
        schema_version: owned("lab.run_manifest.v1"),
        run_id: summary.run_id,
        target_id,
        target,
        mode,
        started_at_unix_ms,
        ended_at_unix_ms,
        adc_lab_version: controller_build_info.version,
        adc_lab_git_sha: controller_build_info.git_sha,
        adc_lab_target_version: identity.adc_lab_target_version,
        adc_lab_target_git_sha: identity.adc_lab_target_git_sha,
        release_tag: identity.release_tag,
        release_asset: identity.release_asset,
        release_asset_sha256: identity.release_asset_sha256,
        binary_sha256: identity.binary_sha256,
        operations_summary: summary.operations_summary,
        operation_audit_refs: summary.operation_audit_refs,
        artifacts,
        audit_ref,
        claim_trace_ref,
        data_quality,
    }
}

/// The string fields of an audit event line that the run summary reads.
#[derive(Debug, Clone)]
pub struct AuditLineFields {
    pub operation: Option<String>,
    pub run_id: Option<String>,
}

/// What an audit line holds: its top-level `operation` and `run_id`
/// members where they are strings, or the text of the JSON parse error.
pub open spec fn audit_line_fields(line: Seq<char>) -> Result<(Option<Seq<char>>, Option<Seq<char>>), Seq<char>> {
    match crate::json::json_string_members(line, seq!["operation"@, "run_id"@]) {
        Ok(m) => Ok((m.1[0], m.1[1])),
        Err(e) => Err(e),
    }
}

/// Reads the `operation` and `run_id` members of an audit line.
pub fn parse_audit_line(line: &str) -> (r: Result<AuditLineFields, String>)
    ensures
        (match (r, audit_line_fields(line@)) {
            (Ok(f), Ok(g)) => opt_view(f.operation) == g.0 && opt_view(f.run_id) == g.1,
            (Err(m), Err(n)) => m@ == n,
            _ => false,
        }),
{
    let keys = crate::text::strs2("operation", "run_id");
    assert(keys@.len() == 2) by {
        assert(crate::text::str_views(keys@).len() == keys@.len());
    }
    match crate::json::string_members(line, &keys) {
        Ok(m) => {
            let ghost all = m.strings@;
            let mut strings = m.strings;
            let run_id = strings.pop().unwrap();
            let operation = strings.pop().unwrap();
            proof {
                assert(crate::json::opt_views(all)[0] == opt_view(all[0]));
                assert(crate::json::opt_views(all)[1] == opt_view(all[1]));
            }
            Ok(AuditLineFields { operation, run_id })
        },
        Err(e) => Err(e),
    }
}

/// What the audit log of a run says: the operations its events record, how
/// many events it holds and which events were filed under another run.
#[derive(Debug, Clone)]
pub struct AuditFacts {
    pub operations: Vec<String>,
    pub event_count: usize,
    pub run_id_mismatches: Vec<String>,
}

/// The facts of an audit log's lines (numbered from one), skipping blank
/// lines; none when a line does not parse, with that line's parse error.
pub open spec fn audit_facts_spec(lines: Seq<Seq<char>>, expected: Seq<char>)
    -> Result<(Seq<Seq<char>>, nat, Seq<Seq<char>>), Seq<char>>
    decreases lines.len(),
{
    if lines.len() == 0 {
        Ok((Seq::empty(), 0, Seq::empty()))
    } else {
        match audit_facts_spec(lines.drop_last(), expected) {
            Err(e) => Err(e),
            Ok((ops, count, mismatches)) => {
                let line = lines.last();
                if crate::run_validation::is_blank(line) {
                    Ok((ops, count, mismatches))
                } else {
                    match audit_line_fields(line) {
                        Err(e) => Err(e),
                        Ok((op, run)) => Ok((
                            match op { Some(o) => ops.push(o), None => ops },
                            count + 1,
                            match run {
                                Some(r) => if r != expected {
                                    mismatches.push(audit_mismatch_spec(lines.len(), r, expected))
                                } else {
                                    mismatches
                                },
                                None => mismatches,
                            },
                        )),
                    }
                }
            },
        }
    }
}

proof fn lemma_audit_error_persists(lines: Seq<Seq<char>>, expected: Seq<char>, k: int)
    requires
        0 <= k <= lines.len(),
        audit_facts_spec(lines.take(k), expected) is Err,
    ensures
        audit_facts_spec(lines, expected) == audit_facts_spec(lines.take(k), expected),
    decreases lines.len() - k,
{
    if k < lines.len() {
        assert(lines.take(k + 1).drop_last() =~= lines.take(k));
        lemma_audit_error_persists(lines, expected, k + 1);
    } else {
        assert(lines.take(k) =~= lines);
    }
}

/// The facts of a run's audit log from its lines (none when the log does
/// not exist): a line that does not parse as JSON fails with its error.
pub fn audit_facts(log_lines: Option<&Vec<String>>, expected_run_id: &str) -> (r: LabResult<AuditFacts>)
    requires
        log_lines matches Some(l) ==> l@.len() < u64::MAX,
    ensures
        match log_lines {
            None => r matches Ok(f) && f.operations@.len() == 0 && f.event_count == 0 && f.run_id_mismatches@.len() == 0,
            Some(l) => match audit_facts_spec(views(l@), expected_run_id@) {
                Ok((ops, count, mismatches)) => r matches Ok(f) && views(f.operations@) == ops
                    && f.event_count == count && views(f.run_id_mismatches@) == mismatches,
                Err(e) => r matches Err(LabError::Json(m)) && m@ == e,
            },
        },
{
    let lines = match log_lines {
        None => return Ok(AuditFacts { operations: Vec::new(), event_count: 0, run_id_mismatches: Vec::new() }),
        Some(l) => l,
    };
    let mut operations: Vec<String> = Vec::new();
    let mut event_count: usize = 0;
    let mut mismatches: Vec<String> = Vec::new();
    let mut i: usize = 0;
    proof {
        assert(views(lines@).take(0) =~= Seq::<Seq<char>>::empty());
        assert(views(operations@) =~= Seq::<Seq<char>>::empty());
        assert(views(mismatches@) =~= Seq::<Seq<char>>::empty());
    }
    while i < lines.len()
        invariant
            log_lines == Some(lines),
            i <= lines@.len(),
            lines@.len() < u64::MAX,
            event_count <= i,
            audit_facts_spec(views(lines@).take(i as int), expected_run_id@)
                == Ok::<(Seq<Seq<char>>, nat, Seq<Seq<char>>), Seq<char>>((views(operations@), event_count as nat, views(mismatches@))),
        decreases lines.len() - i,
    {
        proof {
            assert(views(lines@).take(i + 1).drop_last() =~= views(lines@).take(i as int));
            assert(views(lines@).take(i + 1).last() == lines@[i as int]@);
        }
        let line = lines[i].as_str();
        if !crate::run_validation::is_blank_str(line) {
            event_count = event_count + 1;
            match parse_audit_line(line) {
                Err(e) => {
                    proof {
                        let t = views(lines@).take(i + 1);
                        assert(t.last() == line@);
                        assert(!crate::run_validation::is_blank(t.last()));
                        assert(audit_line_fields(t.last()) == Err::<(Option<Seq<char>>, Option<Seq<char>>), Seq<char>>(e@));
                        assert(audit_facts_spec(t, expected_run_id@) == Err::<(Seq<Seq<char>>, nat, Seq<Seq<char>>), Seq<char>>(e@));
                        lemma_audit_error_persists(views(lines@), expected_run_id@, i + 1);
                        assert(views(lines@).take(lines@.len() as int) =~= views(lines@));
                    }
                    return Err(LabError::Json(e));
                },
                Ok(fields) => {
                    match fields.operation {
                        Some(o) => {
                            let ghost prev = views(operations@);
                            operations.push(o);
                            proof {
                                assert(views(operations@) =~= prev.push(operations@.last()@));
                            }
                        },
                        None => {},
                    }
                    match fields.run_id {
                        Some(r) => {
                            if !str_eq(r.as_str(), expected_run_id) {
                                let note = audit_run_id_mismatch((i + 1) as u64, r.as_str(), expected_run_id);
                                let ghost prev = views(mismatches@);
                                mismatches.push(note);
                                proof {
                                    assert(views(mismatches@) =~= prev.push(note@));
                                }
                            }
                        },
                        None => {},
                    }
                },
            }
        }
        i = i + 1;
    }
    proof {
        assert(views(lines@).take(lines@.len() as int) =~= views(lines@));
    }
    Ok(AuditFacts { operations, event_count, run_id_mismatches: mismatches })
}

} // verus!
