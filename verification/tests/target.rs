use adc_lab_core::error::LabError;
use adc_lab_core::target::{
    ssh_endpoint_user, ssh_runner_failure_category, ssh_runner_failure_diagnostic, ssh_runner_path_diagnostic,
    TargetSpec, TargetTransport,
};

#[test]
fn parse_local_and_ssh_targets() {
    let local = TargetSpec::parse("local").unwrap();
    assert_eq!(local.transport, TargetTransport::Local);
    assert_eq!(local.endpoint, "local");
    let ssh = TargetSpec::parse("ssh://pi@pi4.local").unwrap();
    assert_eq!(ssh.transport, TargetTransport::Ssh);
    assert_eq!(ssh.endpoint, "pi@pi4.local");
    assert_eq!(TargetSpec::parse("ssh://-oProxyCommand=x").unwrap_err(), LabError::InvalidTarget("ssh://-oProxyCommand=x".to_string()));
    assert_eq!(TargetSpec::parse("ftp://x").unwrap_err(), LabError::InvalidTarget("ftp://x".to_string()));
}

#[test]
fn endpoint_user_is_before_first_at() {
    assert_eq!(ssh_endpoint_user("pi@pi4.local"), Some("pi".to_string()));
    assert_eq!(ssh_endpoint_user("@pi4"), None);
    assert_eq!(ssh_endpoint_user("pi4"), None);
}

#[test]
fn failure_categories_follow_exit_code_and_stderr() {
    assert_eq!(ssh_runner_failure_category(Some(126), ""), "permission_denied");
    assert_eq!(ssh_runner_failure_category(Some(1), "bash: Permission Denied"), "permission_denied");
    assert_eq!(ssh_runner_failure_category(Some(127), ""), "command_not_found");
    assert_eq!(ssh_runner_failure_category(None, "adc-lab-target: NOT FOUND"), "command_not_found");
    assert_eq!(ssh_runner_failure_category(Some(2), "boom"), "runner_version_failed");
    assert_eq!(
        ssh_runner_path_diagnostic("adc-lab-target", "command_not_found"),
        "non_interactive_path_missing_or_runner_not_installed"
    );
    assert_eq!(ssh_runner_path_diagnostic("/opt/runner", "command_not_found"), "configured_runner_missing");
    assert_eq!(ssh_runner_path_diagnostic("x", "runner_version_failed"), "not_path_lookup");
}

#[test]
fn failure_diagnostic_names_user_and_runner() {
    let d = ssh_runner_failure_diagnostic("pi@pi4", "adc-lab-target", Some(127), "  sh: adc-lab-target: not found\n");
    assert_eq!(
        d,
        "failure_category=command_not_found; path_diagnostic=non_interactive_path_missing_or_runner_not_installed; exit_code=127; tried_runner=adc-lab-target; default_runner=adc-lab-target; remote_endpoint=pi@pi4; remote_user=pi; remote_path=unknown (non-interactive SSH PATH is not captured by this version check); suggested_ADC_LAB_TARGET_RUNNER=/home/pi/.local/bin/adc-lab-target; release installer default is ~/.local/bin/adc-lab-target, but non-interactive SSH PATH may omit ~/.local/bin; remote stderr: sh: adc-lab-target: not found"
    );
    let d = ssh_runner_failure_diagnostic("pi4", "r", None, "");
    assert!(d.contains("exit_code=unknown"));
    assert!(d.contains("remote_user=<target-user>"));
}
