use adc_lab_core::error::LabError;
use adc_lab_core::procfs::{parse_proc_io, parse_proc_stat, parse_proc_status, parse_u64, split_whitespace, ProcSnapshot};
use adc_lab_core::qualification::{qualify_tool, ToolBounds, ToolManifest, ToolManifestQualification};
use adc_lab_core::contracts::QualificationStatus;

#[test]
fn contract_validation_proc_stat_parser_handles_spaces_in_comm() {
    let text = "123 (name with spaces) S 1 2 3 4 5 6 7 8 9 10 130 140 15 16 17";
    let (utime, stime) = parse_proc_stat(text).unwrap();
    assert_eq!(utime, 130);
    assert_eq!(stime, 140);
}

#[test]
fn proc_stat_uses_last_closing_paren() {
    let text = "9 (a) b) R 1 2 3 4 5 6 7 8 9 10 7 8";
    assert_eq!(parse_proc_stat(text).unwrap(), (7, 8));
}

#[test]
fn proc_stat_errors_name_the_missing_field() {
    assert_eq!(
        parse_proc_stat("no paren here").unwrap_err(),
        LabError::Validation("could not parse /proc/<pid>/stat comm field".to_string())
    );
    assert_eq!(
        parse_proc_stat("1 (x) S 1 2").unwrap_err(),
        LabError::Validation("missing utime in /proc/<pid>/stat".to_string())
    );
    assert_eq!(
        parse_proc_stat("1 (x) S 1 2 3 4 5 6 7 8 9 10 11 zz").unwrap_err(),
        LabError::Validation("missing stime in /proc/<pid>/stat".to_string())
    );
}

#[test]
fn parse_u64_matches_std() {
    for s in ["0", "+7", "18446744073709551615", "18446744073709551616", "", "+", "-1", "1 ", "12a", "007"] {
        assert_eq!(parse_u64(s), s.parse::<u64>().ok(), "{s:?}");
    }
}

#[test]
fn split_whitespace_matches_std() {
    for s in ["", "  a  b\tc\n", "one", " x\u{a0}y "] {
        let expected: Vec<String> = s.split_whitespace().map(str::to_string).collect();
        assert_eq!(split_whitespace(s), expected);
    }
}

#[test]
fn status_and_io_fill_their_fields() {
    let mut snap = ProcSnapshot::empty();
    parse_proc_status(
        "Name:\tx\nVmHWM:\t  2048 kB\nVmRSS:\t  1024 kB\nvoluntary_ctxt_switches:\t5\nnonvoluntary_ctxt_switches:\t6\n",
        &mut snap,
    );
    assert_eq!(snap.rss_kb, Some(1024));
    assert_eq!(snap.vmhwm_kb, Some(2048));
    assert_eq!(snap.voluntary_ctxt_switches, Some(5));
    assert_eq!(snap.nonvoluntary_ctxt_switches, Some(6));
    parse_proc_io("rchar: 1\nread_bytes: 4096\r\nwrite_bytes: 8192\ncancelled_write_bytes: 0\n", &mut snap);
    assert_eq!(snap.read_bytes, Some(4096));
    assert_eq!(snap.write_bytes, Some(8192));
    assert_eq!(snap.cancelled_write_bytes, Some(0));
    assert_eq!(snap.utime_ticks, None);
}

fn manifest(dry_run_required: bool, compare_with_manual_sample: bool) -> ToolManifest {
    ToolManifest {
        tool_id: "agent_tool".to_string(),
        kind: "observation".to_string(),
        writes_target_state: false,
        requires_privilege: false,
        bounded: ToolBounds { duration_seconds_max: 30, output_bytes_max: 1024 },
        expected_overhead: "low".to_string(),
        failure_modes: vec!["surface missing".to_string()],
        qualification: ToolManifestQualification { dry_run_required, compare_with_manual_sample },
    }
}

#[test]
fn contract_validation_manifest_only_never_qualifies_tool() {
    let report = qualify_tool(manifest(false, false)).unwrap();
    assert_eq!(report.status, QualificationStatus::AgentCreatedUnqualified);
    assert!(!report.evidence_accepted);
    assert!(report.checks.contains(&"qualification_evidence_missing".to_string()));
}

#[test]
fn contract_validation_required_qualification_evidence_stays_unqualified() {
    let report = qualify_tool(manifest(true, true)).unwrap();
    assert_eq!(report.status, QualificationStatus::AgentCreatedUnqualified);
    assert!(!report.evidence_accepted);
}

#[test]
fn manifest_without_id_or_bounds_is_invalid() {
    let mut m = manifest(false, false);
    m.tool_id = "  ".to_string();
    assert_eq!(qualify_tool(m).unwrap_err(), LabError::Validation("tool_id is required".to_string()));
    let mut m = manifest(false, false);
    m.bounded.output_bytes_max = 0;
    assert_eq!(
        qualify_tool(m).unwrap_err(),
        LabError::Validation("tool bounds must include non-zero duration and output bytes".to_string())
    );
}
