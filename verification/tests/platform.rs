use adc_lab_core::contracts::{ContractEvidenceStatus, NetworkPressureMode};
use adc_lab_core::platform_contract::{network_io_result, NetworkAttempt, PressureProbeOptions};

#[test]
fn contract_validation_network_without_endpoint_is_not_unsupported() {
    let options = PressureProbeOptions { duration_secs: 0, duration_nanos: 1_000_000, ..PressureProbeOptions::default() };
    let result = network_io_result(
        "local-target".to_string(),
        &options,
        1,
        None,
        Some((10, 20)),
        Some((10, 20)),
        NetworkAttempt::NotConfigured,
    );
    assert_ne!(format!("{:?}", result.status), "UnsupportedByAdcLab");
    assert!(matches!(result.status, ContractEvidenceStatus::NotApplicableWithReason));
    let network = result.network_evidence.as_ref().unwrap();
    assert!(matches!(network.network_mode, NetworkPressureMode::CounterOnly));
    assert!(!network.endpoint_available);
    assert_eq!(network.traffic_generated_bytes, 0);
    assert!(!network.selection_claim_allowed);
}
