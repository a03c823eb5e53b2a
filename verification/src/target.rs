//! Target specifications: the local machine or an SSH endpoint, and the
//! runner program used on SSH targets.

use crate::error::{LabError, LabResult};
use crate::text::{concat, contains, contains_seq, ends_with, is_prefix, is_suffix, owned, starts_with, str_eq};
use vstd::prelude::*;

verus! {

/// The target identifier of the local machine.
pub const LOCAL_TARGET_ID: &'static str = "local-target";
/// The runner program used on SSH targets by default.
pub const DEFAULT_SSH_RUNNER: &'static str = "adc-lab-target";

#[derive(Debug, Clone, Copy, PartialEq, Eq, Structural)]
pub enum TargetTransport {
    Local,
    Ssh,
}

#[derive(Debug, Clone, PartialEq, Eq)]
pub struct TargetSpec {
    pub raw: String,
    pub transport: TargetTransport,
    pub endpoint: String,
    pub target_id: String,
}

/// An ASCII letter or digit.
pub open spec fn is_ascii_alnum(c: char) -> bool {
    ('a' as int <= c as int <= 'z' as int) || ('A' as int <= c as int <= 'Z' as int) || ('0' as int <= c as int <= '9' as int)
}

fn ascii_alnum(c: char) -> (r: bool)
    ensures
        r == is_ascii_alnum(c),
{
    ('a' <= c && c <= 'z') || ('A' <= c && c <= 'Z') || ('0' <= c && c <= '9')
}

/// A character allowed in an SSH endpoint.
pub open spec fn endpoint_char(c: char) -> bool {
    is_ascii_alnum(c) || c == '.' || c == '_' || c == '-' || c == '@'
}

/// An SSH endpoint that cannot be read as an option: no leading dash, and
/// only letters, digits, dots, underscores, dashes and at signs.
pub open spec fn safe_ssh_endpoint(e: Seq<char>) -> bool {
    &&& !(e.len() > 0 && e[0] == '-')
    &&& forall|i: int| 0 <= i < e.len() ==> endpoint_char(e[i])
}

/// Whether an SSH endpoint is safe to pass to `ssh`.
pub fn is_safe_ssh_endpoint(endpoint: &str) -> (r: bool)
    ensures
        r == safe_ssh_endpoint(endpoint@),
{
    let n = endpoint.unicode_len();
    if n > 0 && endpoint.get_char(0) == '-' {
        return false;
    }
    let mut i: usize = 0;
    while i < n
        invariant
            n == endpoint@.len(),
            i <= n,
            forall|k: int| 0 <= k < i ==> endpoint_char(endpoint@[k]),
        decreases n - i,
    {
        let c = endpoint.get_char(i);
        if !(ascii_alnum(c) || c == '.' || c == '_' || c == '-' || c == '@') {
            return false;
        }
        i = i + 1;
    }
    true
}

/// The target identifier of an SSH endpoint: every character other than an
/// ASCII letter or digit becomes a dash.
pub open spec fn ssh_target_id(endpoint: Seq<char>) -> Seq<char> {
    endpoint.map_values(|c: char| if is_ascii_alnum(c) { c } else { '-' })
}

fn ssh_target_id_of(endpoint: &str) -> (id: String)
    ensures
        id@ == ssh_target_id(endpoint@),
{
    let n = endpoint.unicode_len();
    let mut id = String::new();
    let mut i: usize = 0;
    while i < n
        invariant
            n == endpoint@.len(),
            i <= n,
            id@ == ssh_target_id(endpoint@.subrange(0, i as int)),
        decreases n - i,
    {
        let c = endpoint.get_char(i);
        let mapped = if ascii_alnum(c) { c } else { '-' };
        if ascii_alnum(c) {
            let piece = endpoint.substring_char(i, i + 1);
            assert(piece@ =~= seq![c]);
            id.append(piece);
        } else {
            proof {
                reveal_strlit("-");
            }
            id.append("-");
        }
        proof {
            assert(ssh_target_id(endpoint@.subrange(0, i + 1)) =~= ssh_target_id(endpoint@.subrange(0, i as int)).push(mapped));
        }
        i = i + 1;
    }
    proof {
        assert(endpoint@.subrange(0, n as int) =~= endpoint@);
    }
    id
}

/// What a target string names: whether it is reached over SSH, and its
/// endpoint; none for a target that is refused.
pub open spec fn parsed_target(raw: Seq<char>) -> Option<(bool, Seq<char>)> {
    if raw == "local"@ || raw == "local://"@ {
        Some((false, "local"@))
    } else if is_prefix("ssh://"@, raw) {
        let endpoint = raw.subrange("ssh://"@.len() as int, raw.len() as int);
        if endpoint.len() > 0 && safe_ssh_endpoint(endpoint) {
            Some((true, endpoint))
        } else {
            None
        }
    } else {
        None
    }
}

impl TargetSpec {
    /// Parses `local`, `local://` or `ssh://<endpoint>` with a safe,
    /// nonempty endpoint.
    pub fn parse(raw: &str) -> (r: LabResult<Self>)
        ensures
            (raw@ == "local"@ || raw@ == "local://"@) ==> (r matches Ok(t) && t.raw@ == raw@
                && t.transport == TargetTransport::Local && t.endpoint@ == "local"@ && t.target_id@ == LOCAL_TARGET_ID@),
            !(raw@ == "local"@ || raw@ == "local://"@) && is_prefix("ssh://"@, raw@) ==> {
                let endpoint = raw@.subrange("ssh://"@.len() as int, raw@.len() as int);
                if endpoint.len() > 0 && safe_ssh_endpoint(endpoint) {
                    r matches Ok(t) && t.raw@ == raw@ && t.transport == TargetTransport::Ssh
                        && t.endpoint@ == endpoint && t.target_id@ == ssh_target_id(endpoint)
                } else {
                    r matches Err(LabError::InvalidTarget(m)) && m@ == raw@
                }
            },
            !(raw@ == "local"@ || raw@ == "local://"@) && !is_prefix("ssh://"@, raw@) ==>
                (r matches Err(LabError::InvalidTarget(m)) && m@ == raw@),
            parsed_target(raw@) is None ==> (r matches Err(LabError::InvalidTarget(m)) && m@ == raw@),
            parsed_target(raw@) matches Some(t) ==> (r matches Ok(spec) && (spec.transport == TargetTransport::Ssh) == t.0
                && spec.endpoint@ == t.1),
    {
        if str_eq(raw, "local") || str_eq(raw, "local://") {
            return Ok(TargetSpec {
                raw: owned(raw),
                transport: TargetTransport::Local,
                endpoint: owned("local"),
                target_id: owned(LOCAL_TARGET_ID),
            });
        }
        if starts_with(raw, "ssh://") {
            proof {
                reveal_strlit("ssh://");
            }
            let endpoint = raw.substring_char(6, raw.unicode_len());
            if endpoint.unicode_len() == 0 || !is_safe_ssh_endpoint(endpoint) {
                return Err(LabError::InvalidTarget(owned(raw)));
            }
            return Ok(TargetSpec {
                raw: owned(raw),
                transport: TargetTransport::Ssh,
                endpoint: owned(endpoint),
                target_id: ssh_target_id_of(endpoint),
            });
        }
        Err(LabError::InvalidTarget(owned(raw)))
    }
}

/// A character allowed in a runner program path.
pub open spec fn runner_char(c: char) -> bool {
    is_ascii_alnum(c) || c == '/' || c == '.' || c == '_' || c == '-'
}

/// The runner path is one of the allowed locations of the target runner:
/// the system bin directories, a user's `~/.local/bin`, or a staged runner
/// under a user's `~/.local/share/adc-lab/runners/`.
pub open spec fn allowed_runner_path(v: Seq<char>) -> bool {
    ||| v == "/usr/local/bin/adc-lab-target"@
    ||| v == "/usr/bin/adc-lab-target"@
    ||| (is_prefix("/home/"@, v) && is_suffix("/.local/bin/adc-lab-target"@, v))
    ||| (is_prefix("/home/"@, v) && contains_seq(v, "/.local/share/adc-lab/runners/"@) && is_suffix("/adc-lab-target"@, v))
}

/// The last named component of a path split at `/`: the last piece that
/// is neither empty nor `.` (`Path::file_name` skips empty and `.`
/// components).
pub open spec fn last_named_segment(parts: Seq<Seq<char>>) -> Option<Seq<char>>
    decreases parts.len(),
{
    if parts.len() == 0 {
        None
    } else if parts.last().len() > 0 && parts.last() != "."@ {
        Some(parts.last())
    } else {
        last_named_segment(parts.drop_last())
    }
}

/// The file name of a path is `adc-lab-target`.
pub open spec fn file_name_is_runner(v: Seq<char>) -> bool {
    last_named_segment(crate::run_validation::split_on(v, '/')) == Some("adc-lab-target"@)
}

fn file_name_is_runner_exec(value: &str) -> (r: bool)
    ensures
        r == file_name_is_runner(value@),
{
    let parts = crate::run_validation::split_chars(value, '/');
    let mut i: usize = parts.len();
    assert(crate::text::views(parts@).subrange(0, i as int) =~= crate::text::views(parts@));
    while i > 0
        invariant
            i <= parts@.len(),
            crate::text::views(parts@) == crate::run_validation::split_on(value@, '/'),
            last_named_segment(crate::text::views(parts@)) == last_named_segment(crate::text::views(parts@).subrange(0, i as int)),
        decreases i,
    {
        let ghost pre = crate::text::views(parts@).subrange(0, i as int);
        assert(pre.drop_last() =~= crate::text::views(parts@).subrange(0, i - 1));
        let p = parts[i - 1].as_str();
        if p.unicode_len() > 0 && !str_eq(p, ".") {
            return str_eq(p, "adc-lab-target");
        }
        i = i - 1;
    }
    false
}

/// Some component of the path, split at `/`, is `..`.
fn has_parent_component(value: &str) -> (r: bool)
    ensures
        r == crate::run_validation::split_on(value@, '/').contains(".."@),
{
    let parts = crate::run_validation::split_chars(value, '/');
    let mut i: usize = 0;
    while i < parts.len()
        invariant
            i <= parts@.len(),
            crate::text::views(parts@) == crate::run_validation::split_on(value@, '/'),
            forall|k: int| 0 <= k < i ==> crate::text::views(parts@)[k] != ".."@,
        decreases parts.len() - i,
    {
        if str_eq(parts[i].as_str(), "..") {
            assert(crate::text::views(parts@)[i as int] == ".."@);
            return true;
        }
        i = i + 1;
    }
    proof {
        if crate::text::views(parts@).contains(".."@) {
            let k = choose|k: int| 0 <= k < crate::text::views(parts@).len() && crate::text::views(parts@)[k] == ".."@;
            assert(false);
        }
    }
    false
}

/// Which refusal a runner program earns, if any.
pub open spec fn runner_refusal(v: Seq<char>) -> Option<Seq<char>> {
    if v == DEFAULT_SSH_RUNNER@ {
        None
    } else if v.len() == 0 || exists|i: int| 0 <= i < v.len() && !runner_char(v[i]) {
        Some("ADC_LAB_TARGET_RUNNER must be a fixed adc-lab-target path, not a shell fragment"@)
    } else if !(is_prefix("/"@, v) && file_name_is_runner(v)) {
        Some("ADC_LAB_TARGET_RUNNER must be adc-lab-target or an allowed absolute adc-lab-target path"@)
    } else if crate::run_validation::split_on(v, '/').contains(".."@) {
        Some("ADC_LAB_TARGET_RUNNER path must not contain a .. component"@)
    } else if allowed_runner_path(v) {
        None
    } else {
        Some("ADC_LAB_TARGET_RUNNER path is outside the adc-lab-target allowlist"@)
    }
}

/// Checks the runner program configured for SSH targets: the default
/// name, or an allowed absolute path of the runner with no `..` component;
/// never a shell fragment.
pub fn validate_ssh_runner_program(value: &str) -> (r: LabResult<()>)
    ensures
        match runner_refusal(value@) {
            None => r is Ok,
            Some(m) => r matches Err(LabError::Policy(p)) && p@ == m,
        },
{
    if str_eq(value, DEFAULT_SSH_RUNNER) {
        return Ok(());
    }
    let n = value.unicode_len();
    let mut bad = n == 0;
    let mut i: usize = 0;
    while i < n
        invariant
            n == value@.len(),
            i <= n,
            bad == (n == 0 || exists|k: int| 0 <= k < i && !runner_char(value@[k])),
        decreases n - i,
    {
        let c = value.get_char(i);
        if !(ascii_alnum(c) || c == '/' || c == '.' || c == '_' || c == '-') {
            bad = true;
        }
        i = i + 1;
    }
    if bad {
        return Err(LabError::Policy(owned("ADC_LAB_TARGET_RUNNER must be a fixed adc-lab-target path, not a shell fragment")));
    }
    if !(starts_with(value, "/") && file_name_is_runner_exec(value)) {
        return Err(LabError::Policy(owned(
            "ADC_LAB_TARGET_RUNNER must be adc-lab-target or an allowed absolute adc-lab-target path",
        )));
    }
    if has_parent_component(value) {
        return Err(LabError::Policy(owned("ADC_LAB_TARGET_RUNNER path must not contain a .. component")));
    }
    let system = str_eq(value, "/usr/local/bin/adc-lab-target") || str_eq(value, "/usr/bin/adc-lab-target");
    let user_local = starts_with(value, "/home/") && ends_with(value, "/.local/bin/adc-lab-target");
    let staged = starts_with(value, "/home/") && contains(value, "/.local/share/adc-lab/runners/")
        && ends_with(value, "/adc-lab-target");
    if system || user_local || staged {
        Ok(())
    } else {
        Err(LabError::Policy(owned("ADC_LAB_TARGET_RUNNER path is outside the adc-lab-target allowlist")))
    }
}

/// The runner program for SSH targets: the configured one when it passes
/// the checks, the default when none is configured.
pub fn ssh_runner_program(configured: Option<String>) -> (r: LabResult<String>)
    ensures
        match configured {
            None => r matches Ok(p) && p@ == DEFAULT_SSH_RUNNER@,
            Some(v) => match runner_refusal(v@) {
                None => r matches Ok(p) && p@ == v@,
                Some(m) => r matches Err(LabError::Policy(p)) && p@ == m,
            },
        },
{
    match configured {
        Some(v) => {
            validate_ssh_runner_program(v.as_str())?;
            Ok(v)
        },
        None => Ok(owned(DEFAULT_SSH_RUNNER)),
    }
}

/// The user of an SSH endpoint: what stands before its first `@`, when
/// that is not empty.
pub open spec fn endpoint_user_spec(endpoint: Seq<char>) -> Option<Seq<char>> {
    if exists|i: int| 0 <= i < endpoint.len() && endpoint[i] == '@' {
        let k = choose|i: int| 0 <= i < endpoint.len() && endpoint[i] == '@' && forall|j: int| 0 <= j < i ==> endpoint[j] != '@';
        if k > 0 { Some(endpoint.subrange(0, k)) } else { None }
    } else {
        None
    }
}

/// The user of an SSH endpoint, when it names one.
pub fn ssh_endpoint_user(endpoint: &str) -> (r: Option<String>)
    ensures
        match r {
            Some(u) => endpoint_user_spec(endpoint@) == Some(u@),
            None => endpoint_user_spec(endpoint@) is None,
        },
{
    let n = endpoint.unicode_len();
    let mut i: usize = 0;
    while i < n
        invariant
            n == endpoint@.len(),
            i <= n,
            forall|j: int| 0 <= j < i ==> endpoint@[j] != '@',
        decreases n - i,
    {
        if endpoint.get_char(i) == '@' {
            proof {
                let k = choose|k: int| 0 <= k < endpoint@.len() && endpoint@[k] == '@'
                    && forall|j: int| 0 <= j < k ==> endpoint@[j] != '@';
                if k < i {
                    assert(endpoint@[k] != '@');
                } else if k > i {
                    assert(endpoint@[i as int] != '@');
                }
            }
            if i == 0 {
                return None;
            }
            return Some(owned(endpoint.substring_char(0, i)));
        }
        i = i + 1;
    }
    None
}

/// Why an SSH runner version check failed, from its exit status and
/// standard error (matched without regard to ASCII case).
pub open spec fn failure_category_spec(exit_code: Option<i32>, stderr: Seq<char>) -> Seq<char> {
    let lower = crate::text::ascii_lower(stderr);
    if exit_code == Some(126i32) || contains_seq(lower, "permission denied"@) {
        "permission_denied"@
    } else if exit_code == Some(127i32) || contains_seq(lower, "not found"@) || contains_seq(lower, "no such file"@) {
        "command_not_found"@
    } else {
        "runner_version_failed"@
    }
}

/// Why an SSH runner version check failed.
pub fn ssh_runner_failure_category(exit_code: Option<i32>, stderr: &str) -> (c: &'static str)
    ensures
        c@ == failure_category_spec(exit_code, stderr@),
{
    let lower = crate::text::ascii_lower_chars(stderr);
    let permission = crate::text::chars_of("permission denied");
    let not_found = crate::text::chars_of("not found");
    let no_such = crate::text::chars_of("no such file");
    if exit_code == Some(126i32) || crate::text::contains_chars(&lower, &permission) {
        "permission_denied"
    } else if exit_code == Some(127i32) || crate::text::contains_chars(&lower, &not_found)
        || crate::text::contains_chars(&lower, &no_such) {
        "command_not_found"
    } else {
        "runner_version_failed"
    }
}

/// What a failed runner lookup says about the runner's path.
pub open spec fn path_diagnostic_spec(runner: Seq<char>, category: Seq<char>) -> Seq<char> {
    if runner == "adc-lab-target"@ && category == "command_not_found"@ {
        "non_interactive_path_missing_or_runner_not_installed"@
    } else if category == "command_not_found"@ {
        "configured_runner_missing"@
    } else if category == "permission_denied"@ {
        "runner_permission_or_ssh_access_denied"@
    } else {
        "not_path_lookup"@
    }
}

/// What a failed runner lookup says about the runner's path.
pub fn ssh_runner_path_diagnostic(runner: &str, failure_category: &str) -> (d: &'static str)
    ensures
        d@ == path_diagnostic_spec(runner@, failure_category@),
{
    if str_eq(runner, "adc-lab-target") && str_eq(failure_category, "command_not_found") {
        "non_interactive_path_missing_or_runner_not_installed"
    } else if str_eq(failure_category, "command_not_found") {
        "configured_runner_missing"
    } else if str_eq(failure_category, "permission_denied") {
        "runner_permission_or_ssh_access_denied"
    } else {
        "not_path_lookup"
    }
}

/// The diagnostic of a failed SSH runner version check.
pub open spec fn failure_diagnostic_spec(endpoint: Seq<char>, runner: Seq<char>, exit_code: Option<i32>, stderr: Seq<char>) -> Seq<char> {
    let user = match endpoint_user_spec(endpoint) { Some(u) => u, None => "<target-user>"@ };
    let category = failure_category_spec(exit_code, stderr);
    "failure_category="@ + category
        + "; path_diagnostic="@ + path_diagnostic_spec(runner, category)
        + "; exit_code="@ + (match exit_code { Some(c) => crate::text::signed_decimal(c as int), None => "unknown"@ })
        + "; tried_runner="@ + runner
        + "; default_runner=adc-lab-target; remote_endpoint="@ + endpoint
        + "; remote_user="@ + user
        + "; remote_path=unknown (non-interactive SSH PATH is not captured by this version check); suggested_ADC_LAB_TARGET_RUNNER=/home/"@
        + user
        + "/.local/bin/adc-lab-target; release installer default is ~/.local/bin/adc-lab-target, but non-interactive SSH PATH may omit ~/.local/bin; remote stderr: "@
        + crate::run_validation::trim(stderr)
}

/// The diagnostic of a failed SSH runner version check: the failure's
/// category and what it says about the runner's path, the exit status,
/// the runner tried, the endpoint and its user, the runner path to
/// configure, and the trimmed standard error.
pub fn ssh_runner_failure_diagnostic(endpoint: &str, runner: &str, exit_code: Option<i32>, stderr: &str) -> (d: String)
    ensures
        d@ == failure_diagnostic_spec(endpoint@, runner@, exit_code, stderr@),
{
    let user = match ssh_endpoint_user(endpoint) {
        Some(u) => u,
        None => owned("<target-user>"),
    };
    let category = ssh_runner_failure_category(exit_code, stderr);
    let path = ssh_runner_path_diagnostic(runner, category);
    let code = match exit_code {
        Some(c) => crate::text::signed_decimal_string(c),
        None => owned("unknown"),
    };
    let trimmed = crate::run_validation::trim_str(stderr);
    let a = concat("failure_category=", category);
    let b = concat(a.as_str(), "; path_diagnostic=");
    let c = concat(b.as_str(), path);
    let d = concat(c.as_str(), "; exit_code=");
    let e = concat(d.as_str(), code.as_str());
    let f = concat(e.as_str(), "; tried_runner=");
    let g = concat(f.as_str(), runner);
    let h = concat(g.as_str(), "; default_runner=adc-lab-target; remote_endpoint=");
    let i = concat(h.as_str(), endpoint);
    let j = concat(i.as_str(), "; remote_user=");
    let k = concat(j.as_str(), user.as_str());
    let l = concat(k.as_str(),
        "; remote_path=unknown (non-interactive SSH PATH is not captured by this version check); suggested_ADC_LAB_TARGET_RUNNER=/home/");
    let m = concat(l.as_str(), user.as_str());
    let o = concat(m.as_str(),
        "/.local/bin/adc-lab-target; release installer default is ~/.local/bin/adc-lab-target, but non-interactive SSH PATH may omit ~/.local/bin; remote stderr: ");
    concat(o.as_str(), trimmed.as_str())
}

} // verus!
