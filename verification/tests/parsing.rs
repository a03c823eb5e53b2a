use adc_lab_core::error::LabError;
use adc_lab_core::evidence::catalog::claim_definition;
use adc_lab_core::evidence::envelope::Kind;
use adc_lab_core::evidence::store::{kind_from_label, EvidenceStore};
use adc_lab_core::observe::{duration_within_bound, parse_duration};
use adc_lab_core::report::parse_audit_line;
use adc_lab_core::run::{recorded_run_id, run_id_from_run_dir, run_id_from_texts};
use adc_lab_core::run_validation::is_approval_record;
use adc_lab_core::target::validate_ssh_runner_program;

fn parts(path: &str) -> Vec<String> {
    let mut out = vec!["/".to_string()];
    out.extend(path.split('/').filter(|p| !p.is_empty()).map(str::to_string));
    out
}

#[test]
fn durations_parse_into_seconds_and_nanoseconds() {
    assert_eq!(parse_duration("5s").unwrap(), (5, 0));
    assert_eq!(parse_duration("1h 30m").unwrap(), (5400, 0));
    assert_eq!(parse_duration("1500ms").unwrap(), (1, 500_000_000));
    assert_eq!(parse_duration("0").unwrap(), (0, 0));
    assert!(matches!(parse_duration("soon"), Err(LabError::InvalidDuration(_))));
}

#[test]
fn durations_that_could_overflow_are_refused_before_parsing() {
    assert!(!duration_within_bound("18446744073709551615s 1000000000ns"));
    assert_eq!(
        parse_duration("18446744073709551615s 1000000000ns").unwrap_err(),
        LabError::InvalidDuration("duration text is too large".to_string())
    );
    assert!(duration_within_bound("123456789012ns"));
    assert_eq!(parse_duration("123456789012ns").unwrap(), (123, 456_789_012));
    assert_eq!(parse_duration("99999999999ns").unwrap(), (99, 999_999_999));
    assert_eq!(parse_duration("18000000000000000000ns").unwrap(), (18_000_000_000, 0));
    assert!(!duration_within_bound("18446744073709551615s"));
    assert!(!duration_within_bound("1000000000000y"));
}

#[test]
fn run_id_prefers_context_then_manifest_then_directory() {
    let ctx = r#"{"schema_version":"lab.run_context.v1","run_id":"LAB-RUN-CTX"}"#;
    let blank_ctx = r#"{"schema_version":"lab.run_context.v1","run_id":"  "}"#;
    let extra_ctx = r#"{"schema_version":"lab.run_context.v1","run_id":"LAB-RUN-CTX","x":1}"#;
    let manifest = r#"{"run_id":"LAB-RUN-MAN","target_id":"t"}"#;
    let dir = Some("LAB-RUN-DIR".to_string());
    assert_eq!(run_id_from_texts(Some(ctx), Some(manifest), dir.clone()), "LAB-RUN-CTX");
    assert_eq!(run_id_from_texts(Some(blank_ctx), Some(manifest), dir.clone()), "LAB-RUN-MAN");
    assert_eq!(run_id_from_texts(None, Some(manifest), dir.clone()), "LAB-RUN-MAN");
    assert_eq!(run_id_from_texts(Some(extra_ctx), Some(manifest), dir.clone()), "LAB-RUN-DIR");
    assert_eq!(run_id_from_texts(Some("{not json"), Some(manifest), dir.clone()), "LAB-RUN-DIR");
    assert_eq!(run_id_from_texts(None, Some(r#"{"run_id":""}"#), dir.clone()), "LAB-RUN-DIR");
    assert_eq!(run_id_from_texts(None, None, None), "LAB-RUN-unknown");
    assert!(recorded_run_id(Some(extra_ctx), None).is_err());
    assert_eq!(recorded_run_id(None, Some(r#"{"run_id":7}"#)).unwrap(), None);
}

#[test]
fn blank_recorded_run_id_falls_back_to_the_directory() {
    assert_eq!(run_id_from_run_dir(Some(" ".to_string()), Some("LAB-RUN-7".to_string())), "LAB-RUN-7");
    assert_eq!(run_id_from_run_dir(Some("LAB-RUN-1".to_string()), Some("LAB-RUN-7".to_string())), "LAB-RUN-1");
}

#[test]
fn approval_files_are_selected_by_schema() {
    assert_eq!(is_approval_record(r#"{"schema_version":"lab.approval_record.v1"}"#), Ok(true));
    assert_eq!(is_approval_record(r#"{"schema_version":"lab.control_plan.v1"}"#), Ok(false));
    assert_eq!(is_approval_record(r#"[1,2]"#), Ok(false));
    assert!(is_approval_record("{").is_err());
}

#[test]
fn audit_lines_give_operation_and_run() {
    let fields = parse_audit_line(r#"{"operation":"evidence.write","run_id":"LAB-RUN-1"}"#).unwrap();
    assert_eq!(fields.operation.as_deref(), Some("evidence.write"));
    assert_eq!(fields.run_id.as_deref(), Some("LAB-RUN-1"));
    assert!(parse_audit_line("nope").is_err());
}

#[test]
fn store_indexes_only_v2_artifacts() {
    let mut store = EvidenceStore::new(vec!["/lab/runs/LAB-RUN-1".to_string()]);
    let run_dir = parts("/lab/runs/LAB-RUN-1");
    let path = parts("/lab/runs/LAB-RUN-1/loads/LOAD-1.json");
    let v2 = r#"{"schema":"lab.artifact.v2","kind":"load","id":"LOAD-1","run_id":"LAB-RUN-1","target_id":"local-target"}"#;
    store
        .index_artifact_text(&run_dir, &path, "/lab/runs/LAB-RUN-1/loads/LOAD-1.json", Ok(()), v2, None)
        .unwrap();
    let v1 = r#"{"schema_version":"lab.load_result.v1"}"#;
    store
        .index_artifact_text(&run_dir, &path, "/lab/runs/LAB-RUN-1/loads/LOAD-1.json", Ok(()), v1, None)
        .unwrap();
    assert_eq!(store.all().len(), 1);
    let meta = &store.all()[0];
    assert_eq!(meta.kind, Kind::Load);
    assert_eq!(meta.id, "LOAD-1");
    assert_eq!(meta.artifact_ref, "artifact://lab/runs/LAB-RUN-1/loads/LOAD-1.json");
    assert_eq!(store.iter(Kind::Load).len(), 1);
}

#[test]
fn store_refuses_malformed_and_headless_artifacts() {
    let mut store = EvidenceStore::new(Vec::new());
    let run_dir = parts("/r");
    let path = parts("/r/a.json");
    match store.index_artifact_text(&run_dir, &path, "/r/a.json", Ok(()), "{", None) {
        Err(LabError::Validation(m)) => assert!(m.starts_with("malformed JSON artifact at /r/a.json: ")),
        other => panic!("unexpected {other:?}"),
    }
    let headless = r#"{"schema":"lab.artifact.v2","kind":"nonsense","id":"X","run_id":"R","target_id":"T"}"#;
    assert!(matches!(
        store.index_artifact_text(&run_dir, &path, "/r/a.json", Ok(()), headless, None),
        Err(LabError::Json(_))
    ));
    assert!(store.all().is_empty());
    assert_eq!(kind_from_label("report.constraints"), Some(Kind::ReportConstraints));
    assert_eq!(kind_from_label("report"), None);
}

#[test]
fn runner_file_name_follows_path_components() {
    assert!(validate_ssh_runner_program("adc-lab-target").is_ok());
    assert!(validate_ssh_runner_program("/usr/bin/adc-lab-target").is_ok());
    assert_eq!(
        validate_ssh_runner_program("/usr/bin/adc-lab-target/.").unwrap_err(),
        LabError::Policy("ADC_LAB_TARGET_RUNNER path is outside the adc-lab-target allowlist".to_string())
    );
    assert_eq!(
        validate_ssh_runner_program("/usr/bin/other").unwrap_err(),
        LabError::Policy(
            "ADC_LAB_TARGET_RUNNER must be adc-lab-target or an allowed absolute adc-lab-target path".to_string()
        )
    );
}

#[test]
fn runner_paths_that_climb_out_are_refused() {
    for ok in [
        "adc-lab-target",
        "/usr/local/bin/adc-lab-target",
        "/home/pi/.local/bin/adc-lab-target",
        "/home/pi/.local/share/adc-lab/runners/0.2.3/adc-lab-target",
    ] {
        assert!(validate_ssh_runner_program(ok).is_ok(), "{ok}");
    }
    for bad in ["/tmp/adc-lab-target", "bin/adc-lab-target", "/usr/bin/adc-lab-target;id"] {
        assert!(matches!(validate_ssh_runner_program(bad), Err(LabError::Policy(_))), "{bad}");
    }
    assert_eq!(
        validate_ssh_runner_program("/home/../tmp/.local/bin/adc-lab-target").unwrap_err(),
        LabError::Policy("ADC_LAB_TARGET_RUNNER path must not contain a .. component".to_string())
    );
}

#[test]
fn catalog_definitions_carry_their_supported_wording() {
    let d = claim_definition("target.selection.production_ready").unwrap();
    assert_eq!(d.supported_text, "The target is production-ready for the stated workload and operating envelope.");
    assert!(claim_definition("unknown.claim").is_none());
}
