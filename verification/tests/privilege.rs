use adc_lab_core::contracts::PrivilegeDoctorStatus;
use adc_lab_core::privilege::{privilege_doctor, HelperProbe};

#[test]
fn privilege_doctor_remote_target_is_unsupported_without_probe() {
    let probe = HelperProbe {
        installed: true,
        root_owned: Some(true),
        world_writable: Some(false),
        helper_version: Some("0.1.0".to_string()),
        sudo_non_interactive_available: true,
    };
    let report = privilege_doctor("target55".to_string(), false, &probe);
    assert_eq!(report.schema_version, "lab.privilege_doctor.v1");
    assert_eq!(report.status, PrivilegeDoctorStatus::UnsupportedTarget);
    assert!(!report.sudo_non_interactive_available);
}
