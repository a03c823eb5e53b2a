//! Qualification of tools that are not built in: a manifest alone never
//! makes a tool's output acceptable as evidence.

use crate::contracts::{PrivilegeLevel, QualificationStatus, ToolCategory, ToolQualification, ToolSource};
use crate::error::{LabError, LabResult};
use crate::ids::now_unix_ms;
use crate::run_validation::{is_blank, is_blank_str};
use crate::text::{owned, owned_all, str_views, views};
use vstd::prelude::*;

verus! {

#[derive(Debug, Clone, PartialEq, Eq)]
pub struct ToolBounds {
    pub duration_seconds_max: u64,
    pub output_bytes_max: u64,
}

#[derive(Debug, Clone, PartialEq, Eq)]
pub struct ToolManifestQualification {
    pub dry_run_required: bool,
    pub compare_with_manual_sample: bool,
}

#[derive(Debug, Clone, PartialEq, Eq)]
pub struct ToolManifest {
    pub tool_id: String,
    pub kind: String,
    pub writes_target_state: bool,
    pub requires_privilege: bool,
    pub bounded: ToolBounds,
    pub expected_overhead: String,
    pub failure_modes: Vec<String>,
    pub qualification: ToolManifestQualification,
}

/// Why a manifest alone leaves a tool unqualified.
pub open spec fn manifest_limitation() -> Seq<char> {
    "agent-created or external tools are not accepted as evidence until dry-run, comparison evidence, version/hash capture, and output validation are recorded"@
}

/// The checks a manifest passes.
pub open spec fn manifest_checks() -> Seq<Seq<char>> {
    seq!["manifest_parsed"@, "bounds_present"@, "failure_modes_declared"@, "qualification_evidence_missing"@]
}

/// Qualifies a tool from its manifest: an identified, bounded manifest is
/// recorded as an agent-created tool whose evidence is not accepted;
/// qualification evidence beyond the manifest is always missing here.
/// The tool writes target state as a control tool and needs the privileged
/// helper when it asks for privilege.
pub fn qualify_tool(manifest: ToolManifest) -> (r: LabResult<ToolQualification>)
    ensures
        is_blank(manifest.tool_id@) ==> (r matches Err(LabError::Validation(m)) && m@ == "tool_id is required"@),
        !is_blank(manifest.tool_id@) && (manifest.bounded.duration_seconds_max == 0 || manifest.bounded.output_bytes_max == 0)
            ==> (r matches Err(LabError::Validation(m)) && m@ == "tool bounds must include non-zero duration and output bytes"@),
        !is_blank(manifest.tool_id@) && manifest.bounded.duration_seconds_max != 0 && manifest.bounded.output_bytes_max != 0
            ==> (r matches Ok(q) && {
                &&& q.schema_version@ == "lab.tool_qualification.v1"@
                &&& q.tool_id@ == manifest.tool_id@
                &&& q.category == (if manifest.writes_target_state { ToolCategory::Control } else { ToolCategory::Observation })
                &&& q.privilege == (if manifest.requires_privilege { PrivilegeLevel::SudoHelper } else { PrivilegeLevel::NoPrivilege })
                &&& q.source == ToolSource::AgentCreated
                &&& q.status == QualificationStatus::AgentCreatedUnqualified
                &&& !q.evidence_accepted
                &&& q.dry_run_required == manifest.qualification.dry_run_required
                &&& q.qualification_scope@ == "manifest_only"@
                &&& views(q.checks@) == manifest_checks()
                &&& views(q.limitations@) == seq![manifest_limitation()]
                &&& q.reason@ == manifest_limitation()
                &&& q.evidence_refs@.len() == 0
            }),
{
    if is_blank_str(manifest.tool_id.as_str()) {
        return Err(LabError::Validation(owned("tool_id is required")));
    }
    if manifest.bounded.duration_seconds_max == 0 || manifest.bounded.output_bytes_max == 0 {
        return Err(LabError::Validation(owned("tool bounds must include non-zero duration and output bytes")));
    }
    let check_items: Vec<&str> = vec!["manifest_parsed", "bounds_present", "failure_modes_declared", "qualification_evidence_missing"];
    proof {
        assert(str_views(check_items@) =~= manifest_checks());
    }
    let limitation = "agent-created or external tools are not accepted as evidence until dry-run, comparison evidence, version/hash capture, and output validation are recorded";
    Ok(ToolQualification {
        schema_version: owned("lab.tool_qualification.v1"),
        tool_id: manifest.tool_id,
        category: if manifest.writes_target_state { ToolCategory::Control } else { ToolCategory::Observation },
        privilege: if manifest.requires_privilege { PrivilegeLevel::SudoHelper } else { PrivilegeLevel::NoPrivilege },
        source: ToolSource::AgentCreated,
        available: true,
        status: QualificationStatus::AgentCreatedUnqualified,
        evidence_accepted: false,
        dry_run_required: manifest.qualification.dry_run_required,
        qualification_scope: owned("manifest_only"),
        tool_version: None,
        tool_sha256: None,
        output_schema_ref: None,
        dry_run_ref: None,
        manual_comparison_ref: None,
        static_safety_review_ref: None,
        validated_output_bytes: None,
        evidence_refs: Vec::new(),
        checks: owned_all(&check_items),
        limitations: crate::text::single(limitation),
        reason: owned(limitation),
        time_unix_ms: now_unix_ms(),
    })
}

} // verus!
