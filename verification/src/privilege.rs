//! The privileged helper: which providers of privilege exist, whether the
//! local helper is ready, and the operator's setup and removal plans.

use crate::contracts::{
    PrivilegeDoctorCheck, PrivilegeDoctorCheckStatus, PrivilegeDoctorReport, PrivilegeDoctorStatus,
    PrivilegeProviderAvailability, PrivilegeProviderDescriptor, PrivilegeProviderKind, PrivilegeProviderStatus,
    PrivilegeProviderTransport, PrivilegeSetupPlan, PrivilegeSetupPlanKind,
};
use crate::control::{CPUFREQ_SET_GOVERNOR, DEFAULT_PRIV_HELPER};
use crate::ids::{new_id, now_unix_ms};
use crate::text::{concat, owned, owned_all, strs1, strs2, strs4, views};
use vstd::prelude::*;

verus! {

pub const OPTION_A_PROVIDER_ID: &'static str = "option_a_sudo_helper";
pub const OPTION_B_PROVIDER_ID: &'static str = "option_b_systemd_unix_socket";
pub const OPTION_B_PLANNED_SOCKET: &'static str = "/run/adc-lab/privileged.sock";
pub const PROVIDER_STATUS_SCHEMA: &'static str = "lab.privilege_provider_status.v1";
pub const DOCTOR_SCHEMA: &'static str = "lab.privilege_doctor.v1";
pub const SETUP_PLAN_SCHEMA: &'static str = "lab.privilege_setup_plan.v1";

/// The sudo helper provider as the status describes it.
pub open spec fn option_a_spec(p: PrivilegeProviderDescriptor) -> bool {
    &&& p.provider_id@ == OPTION_A_PROVIDER_ID@
    &&& p.provider_kind == PrivilegeProviderKind::SudoHelperOptionA
    &&& p.availability == PrivilegeProviderAvailability::Active
    &&& p.transport == PrivilegeProviderTransport::SudoExec
    &&& p.endpoint@ == DEFAULT_PRIV_HELPER@
    &&& p.root_boundary@ == "root-owned helper invoked through sudo; no shell or arbitrary command input"@
    &&& views(p.operations_allowed@) == seq![CPUFREQ_SET_GOVERNOR@]
    &&& p.approval_required && p.audit_required && p.restore_required
    &&& p.default_enabled
    &&& views(p.safety_notes@) == seq!["controller CLI has no public helper path override"@,
        "privileged apply and restore remain local-target only in this MVP"@]
}

/// The planned socket provider as the status describes it.
pub open spec fn option_b_spec(p: PrivilegeProviderDescriptor) -> bool {
    &&& p.provider_id@ == OPTION_B_PROVIDER_ID@
    &&& p.provider_kind == PrivilegeProviderKind::SystemdUnixSocketOptionB
    &&& p.availability == PrivilegeProviderAvailability::PlannedDisabled
    &&& p.transport == PrivilegeProviderTransport::UnixSocket
    &&& p.endpoint@ == OPTION_B_PLANNED_SOCKET@
    &&& p.root_boundary@ == "planned root-owned provider over a bounded Unix socket; not installed or started in PR10"@
    &&& p.operations_allowed@.len() == 0
    &&& p.approval_required && p.audit_required && p.restore_required
    &&& !p.default_enabled
    &&& views(p.safety_notes@) == seq!["no systemd unit, socket listener, or daemon is installed by PR10"@,
        "not an active privileged transport and not evidence of remote privileged apply"@]
}

/// The active provider: the root-owned helper invoked through sudo.
pub fn option_a_provider() -> (p: PrivilegeProviderDescriptor)
    ensures
        option_a_spec(p),
{
    PrivilegeProviderDescriptor {
        provider_id: owned(OPTION_A_PROVIDER_ID),
        provider_kind: PrivilegeProviderKind::SudoHelperOptionA,
        availability: PrivilegeProviderAvailability::Active,
        transport: PrivilegeProviderTransport::SudoExec,
        endpoint: owned(DEFAULT_PRIV_HELPER),
        root_boundary: owned("root-owned helper invoked through sudo; no shell or arbitrary command input"),
        operations_allowed: crate::text::single(CPUFREQ_SET_GOVERNOR),
        approval_required: true,
        audit_required: true,
        restore_required: true,
        default_enabled: true,
        safety_notes: owned_all(&strs2(
            "controller CLI has no public helper path override",
            "privileged apply and restore remain local-target only in this MVP",
        )),
    }
}

/// The planned provider over a Unix socket: disabled, allowing nothing.
pub fn option_b_provider() -> (p: PrivilegeProviderDescriptor)
    ensures
        option_b_spec(p),
{
    PrivilegeProviderDescriptor {
        provider_id: owned(OPTION_B_PROVIDER_ID),
        provider_kind: PrivilegeProviderKind::SystemdUnixSocketOptionB,
        availability: PrivilegeProviderAvailability::PlannedDisabled,
        transport: PrivilegeProviderTransport::UnixSocket,
        endpoint: owned(OPTION_B_PLANNED_SOCKET),
        root_boundary: owned("planned root-owned provider over a bounded Unix socket; not installed or started in PR10"),
        operations_allowed: Vec::new(),
        approval_required: true,
        audit_required: true,
        restore_required: true,
        default_enabled: false,
        safety_notes: owned_all(&strs2(
            "no systemd unit, socket listener, or daemon is installed by PR10",
            "not an active privileged transport and not evidence of remote privileged apply",
        )),
    }
}

/// The providers of privilege for a target: the sudo helper active, the
/// socket provider planned and disabled.
pub fn privilege_provider_status(target_id: String) -> (s: PrivilegeProviderStatus)
    ensures
        s.schema_version@ == PROVIDER_STATUS_SCHEMA@,
        s.target_id@ == target_id@,
        s.active_provider_id@ == OPTION_A_PROVIDER_ID@,
        s.providers@.len() == 2,
        option_a_spec(s.providers@[0]),
        option_b_spec(s.providers@[1]),
{
    PrivilegeProviderStatus {
        schema_version: owned(PROVIDER_STATUS_SCHEMA),
        target_id,
        active_provider_id: owned(OPTION_A_PROVIDER_ID),
        providers: vec![option_a_provider(), option_b_provider()],
        time_unix_ms: now_unix_ms(),
    }
}

/// What was found of the local helper.
#[derive(Debug, Clone)]
pub struct HelperProbe {
    pub installed: bool,
    pub root_owned: Option<bool>,
    pub world_writable: Option<bool>,
    pub helper_version: Option<String>,
    pub sudo_non_interactive_available: bool,
}

/// A doctor check.
pub fn check(check_id: &str, status: PrivilegeDoctorCheckStatus, summary: &str, evidence: Vec<String>) -> (c: PrivilegeDoctorCheck)
    ensures
        c.check_id@ == check_id@,
        c.status == status,
        c.summary@ == summary@,
        c.evidence@ == evidence@,
{
    PrivilegeDoctorCheck { check_id: owned(check_id), status, summary: owned(summary), evidence }
}

/// The readiness of the local helper: ready when installed, root-owned,
/// not world-writable and runnable through non-interactive sudo; degraded
/// when installed and answering with a version; otherwise setup is needed.
pub open spec fn doctor_status_spec(probe: HelperProbe) -> PrivilegeDoctorStatus {
    if probe.installed && probe.root_owned == Some(true) && probe.world_writable == Some(false)
        && probe.sudo_non_interactive_available {
        PrivilegeDoctorStatus::Ready
    } else if probe.installed && probe.helper_version is Some {
        PrivilegeDoctorStatus::Degraded
    } else {
        PrivilegeDoctorStatus::OperatorSetupRequired
    }
}

/// The status of a check of an optional property that passes when it
/// equals `good`.
pub open spec fn tri_check(value: Option<bool>, good: bool) -> PrivilegeDoctorCheckStatus {
    match value {
        Some(v) => if v == good { PrivilegeDoctorCheckStatus::Pass } else { PrivilegeDoctorCheckStatus::Fail },
        None => PrivilegeDoctorCheckStatus::NotApplicable,
    }
}

fn tri_status(value: Option<bool>, good: bool) -> (s: PrivilegeDoctorCheckStatus)
    ensures
        s == tri_check(value, good),
{
    match value {
        Some(v) => if v == good { PrivilegeDoctorCheckStatus::Pass } else { PrivilegeDoctorCheckStatus::Fail },
        None => PrivilegeDoctorCheckStatus::NotApplicable,
    }
}

fn flag_evidence(label: &str, value: Option<bool>) -> (v: Vec<String>)
    ensures
        views(v@) == match value {
            Some(b) => seq![label@ + (if b { "true"@ } else { "false"@ })],
            None => Seq::<Seq<char>>::empty(),
        },
{
    match value {
        Some(b) => crate::text::single(concat(label, if b { "true" } else { "false" }).as_str()),
        None => crate::text::no_strings(),
    }
}

/// The doctor's report on the privileged helper of a target.  Only the
/// local target is probed; `probe` holds what was found of its helper and
/// is not consulted for another target.
pub fn privilege_doctor(target_id: String, local_target: bool, probe: &HelperProbe) -> (r: PrivilegeDoctorReport)
    ensures
        r.schema_version@ == DOCTOR_SCHEMA@,
        r.target_id@ == target_id@,
        r.helper_path@ == DEFAULT_PRIV_HELPER@,
        !local_target ==> {
            &&& r.status == PrivilegeDoctorStatus::UnsupportedTarget
            &&& !r.helper_installed
            &&& r.root_owned is None
            &&& r.world_writable is None
            &&& !r.sudo_non_interactive_available
            &&& r.helper_version is None
            &&& r.checks@.len() == 1
            &&& r.checks@[0].check_id@ == "target.local_only"@
            &&& r.checks@[0].status == PrivilegeDoctorCheckStatus::NotApplicable
            &&& r.next_action@ == "run privilege doctor on the target host after operator setup"@
        },
        local_target ==> {
            &&& r.status == doctor_status_spec(*probe)
            &&& r.helper_installed == probe.installed
            &&& r.root_owned == probe.root_owned
            &&& r.world_writable == probe.world_writable
            &&& r.sudo_non_interactive_available == probe.sudo_non_interactive_available
            &&& crate::run_validation::opt_view(r.helper_version) == crate::run_validation::opt_view(probe.helper_version)
            &&& r.checks@.len() == 5
            &&& r.checks@[0].check_id@ == "helper.exists"@
            &&& r.checks@[0].status == (if probe.installed { PrivilegeDoctorCheckStatus::Pass } else { PrivilegeDoctorCheckStatus::Fail })
            &&& r.checks@[1].check_id@ == "helper.root_owned"@
            &&& r.checks@[1].status == tri_check(probe.root_owned, true)
            &&& r.checks@[2].check_id@ == "helper.not_world_writable"@
            &&& r.checks@[2].status == tri_check(probe.world_writable, false)
            &&& r.checks@[3].check_id@ == "helper.version"@
            &&& r.checks@[3].status == (if probe.helper_version is Some { PrivilegeDoctorCheckStatus::Pass }
                else if probe.installed { PrivilegeDoctorCheckStatus::Warning } else { PrivilegeDoctorCheckStatus::NotApplicable })
            &&& r.checks@[4].check_id@ == "sudo.non_interactive"@
            &&& r.checks@[4].status == (if probe.sudo_non_interactive_available { PrivilegeDoctorCheckStatus::Pass }
                else { PrivilegeDoctorCheckStatus::Fail })
            &&& r.next_action@ == (match r.status {
                PrivilegeDoctorStatus::Ready => "privileged helper is ready for non-interactive typed apply/restore"@,
                PrivilegeDoctorStatus::Degraded => "repair helper ownership/mode or sudoers before Agent control execution"@,
                _ => "run adc-lab privilege install-plan and complete operator setup"@,
            })
        },
{
    if !local_target {
        return PrivilegeDoctorReport {
            schema_version: owned(DOCTOR_SCHEMA),
            target_id,
            helper_path: owned(DEFAULT_PRIV_HELPER),
            helper_installed: false,
            root_owned: None,
            world_writable: None,
            sudo_non_interactive_available: false,
            helper_version: None,
            status: PrivilegeDoctorStatus::UnsupportedTarget,
            checks: vec![check(
                "target.local_only",
                PrivilegeDoctorCheckStatus::NotApplicable,
                "privilege doctor is local-target only in this slice",
                Vec::new(),
            )],
            next_action: owned("run privilege doctor on the target host after operator setup"),
            time_unix_ms: now_unix_ms(),
        };
    }
    let installed = probe.installed;
    let version_check = match &probe.helper_version {
        Some(v) => (PrivilegeDoctorCheckStatus::Pass, crate::text::single(concat("version=", v.as_str()).as_str())),
        None => (if installed { PrivilegeDoctorCheckStatus::Warning } else { PrivilegeDoctorCheckStatus::NotApplicable },
            crate::text::no_strings()),
    };
    let sudo_line = concat(concat("sudo -n ", DEFAULT_PRIV_HELPER).as_str(), " --version");
    let checks = vec![
        check(
            "helper.exists",
            if installed { PrivilegeDoctorCheckStatus::Pass } else { PrivilegeDoctorCheckStatus::Fail },
            if installed { "helper path exists" } else { "helper path is missing" },
            crate::text::single(DEFAULT_PRIV_HELPER),
        ),
        check("helper.root_owned", tri_status(probe.root_owned, true), "helper root ownership check",
            flag_evidence("root_owned=", probe.root_owned)),
        check("helper.not_world_writable", tri_status(probe.world_writable, false), "helper world-writable mode check",
            flag_evidence("world_writable=", probe.world_writable)),
        check("helper.version", version_check.0, "helper version command check", version_check.1),
        check(
            "sudo.non_interactive",
            if probe.sudo_non_interactive_available { PrivilegeDoctorCheckStatus::Pass } else { PrivilegeDoctorCheckStatus::Fail },
            "sudo -n helper execution check",
            crate::text::single(sudo_line.as_str()),
        ),
    ];
    let status = if installed && probe.root_owned == Some(true) && probe.world_writable == Some(false)
        && probe.sudo_non_interactive_available {
        PrivilegeDoctorStatus::Ready
    } else if installed && probe.helper_version.is_some() {
        PrivilegeDoctorStatus::Degraded
    } else {
        PrivilegeDoctorStatus::OperatorSetupRequired
    };
    let next_action = match status {
        PrivilegeDoctorStatus::Ready => owned("privileged helper is ready for non-interactive typed apply/restore"),
        PrivilegeDoctorStatus::Degraded => owned("repair helper ownership/mode or sudoers before Agent control execution"),
        _ => owned("run adc-lab privilege install-plan and complete operator setup"),
    };
    PrivilegeDoctorReport {
        schema_version: owned(DOCTOR_SCHEMA),
        target_id,
        helper_path: owned(DEFAULT_PRIV_HELPER),
        helper_installed: installed,
        root_owned: probe.root_owned,
        world_writable: probe.world_writable,
        sudo_non_interactive_available: probe.sudo_non_interactive_available,
        helper_version: match &probe.helper_version {
            Some(v) => Some(owned(v.as_str())),
            None => None,
        },
        status,
        checks,
        next_action,
        time_unix_ms: now_unix_ms(),
    }
}

/// The operator's instructions to install the fixed helper from
/// `helper_source` (`./adc-lab-priv-helper` when none is given).  The plan
/// is instructions only.
pub fn privilege_install_plan(target_id: String, helper_source: Option<String>) -> (p: PrivilegeSetupPlan)
    ensures
        p.schema_version@ == SETUP_PLAN_SCHEMA@,
        exists|n: nat| p.plan_id@ == "PRIV-PLAN"@ + seq!['-'] + crate::text::decimal(n),
        p.target_id@ == target_id@,
        p.plan_kind == PrivilegeSetupPlanKind::Install,
        p.helper_path@ == DEFAULT_PRIV_HELPER@,
        views(p.commands@) == seq![
            "sudo install -o root -g root -m 0755 "@ + (match helper_source { Some(s) => s@, None => "./adc-lab-priv-helper"@ })
                + " "@ + DEFAULT_PRIV_HELPER@,
            "sudo visudo -f /etc/sudoers.d/adc-lab"@],
        views(p.verification_commands@) == seq!["adc-lab privilege doctor --target local"@,
            "sudo -n "@ + DEFAULT_PRIV_HELPER@ + " --version"@],
        views(p.operator_steps@) == seq![
            "Verify the helper binary came from a checked release asset or local build."@,
            "Install the helper as root-owned executable at the fixed adc-lab helper path."@,
            "Optionally add a lab-target-only sudoers rule for the fixed helper path."@,
            "Run adc-lab privilege doctor --target local before Agent control execution."@],
        views(p.warnings@) == seq![
            "This plan is instructions only; adc-lab does not install privileged files."@,
            "sudoers, if used, must be limited to the fixed adc-lab helper path on lab targets."@],
{
    let source = match helper_source {
        Some(s) => s,
        None => owned("./adc-lab-priv-helper"),
    };
    let a = concat("sudo install -o root -g root -m 0755 ", source.as_str());
    let b = concat(a.as_str(), " ");
    let install = concat(b.as_str(), DEFAULT_PRIV_HELPER);
    let commands = vec![install, owned("sudo visudo -f /etc/sudoers.d/adc-lab")];
    let sudo_check = concat(concat("sudo -n ", DEFAULT_PRIV_HELPER).as_str(), " --version");
    let verification = vec![owned("adc-lab privilege doctor --target local"), sudo_check];
    proof {
        assert(views(commands@) =~= seq![commands@[0]@, commands@[1]@]);
        assert(views(verification@) =~= seq![verification@[0]@, verification@[1]@]);
    }
    PrivilegeSetupPlan {
        schema_version: owned(SETUP_PLAN_SCHEMA),
        plan_id: new_id("PRIV-PLAN"),
        target_id,
        plan_kind: PrivilegeSetupPlanKind::Install,
        helper_path: owned(DEFAULT_PRIV_HELPER),
        operator_steps: owned_all(&strs4(
            "Verify the helper binary came from a checked release asset or local build.",
            "Install the helper as root-owned executable at the fixed adc-lab helper path.",
            "Optionally add a lab-target-only sudoers rule for the fixed helper path.",
            "Run adc-lab privilege doctor --target local before Agent control execution.",
        )),
        commands,
        verification_commands: verification,
        warnings: owned_all(&strs2(
            "This plan is instructions only; adc-lab does not install privileged files.",
            "sudoers, if used, must be limited to the fixed adc-lab helper path on lab targets.",
        )),
        time_unix_ms: now_unix_ms(),
    }
}

/// The operator's instructions to remove the fixed helper.  The plan is
/// instructions only.
pub fn privilege_uninstall_plan(target_id: String) -> (p: PrivilegeSetupPlan)
    ensures
        p.schema_version@ == SETUP_PLAN_SCHEMA@,
        exists|n: nat| p.plan_id@ == "PRIV-PLAN"@ + seq!['-'] + crate::text::decimal(n),
        p.target_id@ == target_id@,
        p.plan_kind == PrivilegeSetupPlanKind::Uninstall,
        p.helper_path@ == DEFAULT_PRIV_HELPER@,
        views(p.commands@) == seq!["sudo rm -f /etc/sudoers.d/adc-lab"@, "sudo rm -f "@ + DEFAULT_PRIV_HELPER@],
        views(p.verification_commands@) == seq!["adc-lab privilege doctor --target local"@,
            "test ! -e "@ + DEFAULT_PRIV_HELPER@],
        views(p.operator_steps@) == seq![
            "Confirm no approved control operation is in progress."@,
            "Remove the optional sudoers entry if it was installed."@,
            "Remove the fixed helper binary."@,
            "Run adc-lab privilege doctor --target local and expect operator setup required."@],
        views(p.warnings@) == seq![
            "Keep the release asset or source binary if reinstall may be needed."@,
            "This plan is instructions only; adc-lab does not remove privileged files."@],
{
    let commands = vec![owned("sudo rm -f /etc/sudoers.d/adc-lab"), concat("sudo rm -f ", DEFAULT_PRIV_HELPER)];
    let verification = vec![owned("adc-lab privilege doctor --target local"), concat("test ! -e ", DEFAULT_PRIV_HELPER)];
    proof {
        assert(views(commands@) =~= seq![commands@[0]@, commands@[1]@]);
        assert(views(verification@) =~= seq![verification@[0]@, verification@[1]@]);
    }
    PrivilegeSetupPlan {
        schema_version: owned(SETUP_PLAN_SCHEMA),
        plan_id: new_id("PRIV-PLAN"),
        target_id,
        plan_kind: PrivilegeSetupPlanKind::Uninstall,
        helper_path: owned(DEFAULT_PRIV_HELPER),
        operator_steps: owned_all(&strs4(
            "Confirm no approved control operation is in progress.",
            "Remove the optional sudoers entry if it was installed.",
            "Remove the fixed helper binary.",
            "Run adc-lab privilege doctor --target local and expect operator setup required.",
        )),
        commands,
        verification_commands: verification,
        warnings: owned_all(&strs2(
            "Keep the release asset or source binary if reinstall may be needed.",
            "This plan is instructions only; adc-lab does not remove privileged files.",
        )),
        time_unix_ms: now_unix_ms(),
    }
}

} // verus!
