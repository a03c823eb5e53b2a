//! Workflow profiles: which depth of characterization a workflow runs, and
//! what its evidence may and may not support.

use crate::error::{LabError, LabResult};
use crate::text::{concat, owned, str_eq};
use vstd::prelude::*;

verus! {

pub const WORKFLOW_PROFILE_LEGACY_FULLSET: &'static str = "target-operating-contract-fullset";
pub const WORKFLOW_PROFILE_SMOKE: &'static str = "target-operating-contract-smoke";
pub const WORKFLOW_PROFILE_CHARACTERIZATION_FULL: &'static str = "target-characterization-full";

#[derive(Debug, Clone, Copy, PartialEq, Eq, Structural)]
pub enum WorkflowProfileDepth {
    Smoke,
    CharacterizationFull,
}

/// The name of a depth.
pub open spec fn depth_name(d: WorkflowProfileDepth) -> Seq<char> {
    match d {
        WorkflowProfileDepth::Smoke => "smoke"@,
        WorkflowProfileDepth::CharacterizationFull => "characterization-full"@,
    }
}

/// The profile a depth runs.
pub open spec fn depth_profile(d: WorkflowProfileDepth) -> Seq<char> {
    match d {
        WorkflowProfileDepth::Smoke => WORKFLOW_PROFILE_SMOKE@,
        WorkflowProfileDepth::CharacterizationFull => WORKFLOW_PROFILE_CHARACTERIZATION_FULL@,
    }
}

impl WorkflowProfileDepth {
    /// The depth with the given name.
    pub fn parse(value: &str) -> (r: LabResult<Self>)
        ensures
            value@ == "smoke"@ ==> r == Ok::<Self, LabError>(WorkflowProfileDepth::Smoke),
            value@ == "characterization-full"@ ==> r == Ok::<Self, LabError>(WorkflowProfileDepth::CharacterizationFull),
            value@ != "smoke"@ && value@ != "characterization-full"@ ==> (r matches Err(LabError::Validation(m))
                && m@ == "unsupported profile depth "@ + value@ + "; expected smoke or characterization-full"@),
    {
        proof {
            reveal_strlit("smoke");
            reveal_strlit("characterization-full");
            assert("smoke"@.len() == 5);
            assert("characterization-full"@.len() == 21);
            assert("smoke"@ != "characterization-full"@);
        }
        if str_eq(value, "smoke") {
            Ok(WorkflowProfileDepth::Smoke)
        } else if str_eq(value, "characterization-full") {
            Ok(WorkflowProfileDepth::CharacterizationFull)
        } else {
            let head = concat("unsupported profile depth ", value);
            Err(LabError::Validation(concat(head.as_str(), "; expected smoke or characterization-full")))
        }
    }

    /// The name of the depth.
    pub fn as_str(self) -> (s: &'static str)
        ensures
            s@ == depth_name(self),
    {
        match self {
            WorkflowProfileDepth::Smoke => "smoke",
            WorkflowProfileDepth::CharacterizationFull => "characterization-full",
        }
    }

    /// The profile the depth runs.
    pub fn effective_profile(self) -> (s: &'static str)
        ensures
            s@ == depth_profile(self),
    {
        match self {
            WorkflowProfileDepth::Smoke => WORKFLOW_PROFILE_SMOKE,
            WorkflowProfileDepth::CharacterizationFull => WORKFLOW_PROFILE_CHARACTERIZATION_FULL,
        }
    }
}

/// A resolved workflow profile with what its evidence may claim.
#[derive(Debug, Clone)]
pub struct WorkflowProfile {
    pub requested_profile: String,
    pub effective_profile: String,
    pub depth: WorkflowProfileDepth,
    pub summary: &'static str,
    pub claim_boundary: &'static str,
    pub coverage: &'static str,
    pub safety_caps: &'static str,
}

/// The profiles a run validation may be made for.
pub open spec fn supported_profile_spec(profile: Seq<char>) -> bool {
    profile == WORKFLOW_PROFILE_LEGACY_FULLSET@ || profile == WORKFLOW_PROFILE_SMOKE@
        || profile == WORKFLOW_PROFILE_CHARACTERIZATION_FULL@
}

/// Whether a run validation may be made for the profile.
pub fn supported_validation_profile(profile: &str) -> (r: bool)
    ensures
        r == supported_profile_spec(profile@),
{
    str_eq(profile, WORKFLOW_PROFILE_LEGACY_FULLSET) || str_eq(profile, WORKFLOW_PROFILE_SMOKE)
        || str_eq(profile, WORKFLOW_PROFILE_CHARACTERIZATION_FULL)
}

/// Whether a profile names a depth whose validations measure.
pub fn measured_validation_profile(profile: &str) -> (r: bool)
    ensures
        r == (profile@ == WORKFLOW_PROFILE_SMOKE@ || profile@ == WORKFLOW_PROFILE_CHARACTERIZATION_FULL@),
{
    str_eq(profile, WORKFLOW_PROFILE_SMOKE) || str_eq(profile, WORKFLOW_PROFILE_CHARACTERIZATION_FULL)
}

/// The depth a profile fixes, when the explicit depth agrees with it.
pub fn require_matching_depth(
    requested_profile: &str,
    explicit_depth: Option<WorkflowProfileDepth>,
    expected: WorkflowProfileDepth,
) -> (r: LabResult<WorkflowProfileDepth>)
    ensures
        match explicit_depth {
            Some(actual) if actual != expected => r matches Err(LabError::Validation(m))
                && m@ == requested_profile@ + " requires --profile-depth "@ + depth_name(expected),
            _ => r == Ok::<WorkflowProfileDepth, LabError>(expected),
        },
{
    match explicit_depth {
        Some(actual) => {
            if actual != expected {
                let head = concat(requested_profile, " requires --profile-depth ");
                return Err(LabError::Validation(concat(head.as_str(), expected.as_str())));
            }
        },
        None => {},
    }
    Ok(expected)
}

/// The summary text of a depth.
pub open spec fn depth_summary(d: WorkflowProfileDepth) -> Seq<char> {
    match d {
        WorkflowProfileDepth::Smoke => "smoke profile: workflow correctness, runner preflight, read-only identity, short seed probes, target-local workload demand, and governor-validation smoke"@,
        WorkflowProfileDepth::CharacterizationFull => "characterization-full profile: bounded deeper target characterization with explicit duration, coverage, and safety caps"@,
    }
}

/// The claim boundary text of a depth.
pub open spec fn depth_claim_boundary(d: WorkflowProfileDepth) -> Seq<char> {
    match d {
        WorkflowProfileDepth::Smoke => "smoke evidence is not deep target characterization and must not support production, selection, 24h safety, or Pi4/Pi5 sufficiency claims"@,
        WorkflowProfileDepth::CharacterizationFull => "characterization-full is still bounded laboratory evidence; production readiness, 24h safety, battery safety, and target selection remain blocked without matching downstream evidence"@,
    }
}

/// The coverage text of a depth.
pub open spec fn depth_coverage(d: WorkflowProfileDepth) -> Seq<char> {
    match d {
        WorkflowProfileDepth::Smoke => "coverage: preflight, inventory, toolchain, 30s observe baseline, 10s CPU seed, bounded pressure/composite smoke, target-local workload demand, governor sweep smoke"@,
        WorkflowProfileDepth::CharacterizationFull => "coverage: repeated observation, CPU ladder, sustained bounded load, pressure/composite coverage, endpoint-backed network where configured, target-local workload demand, suitability, constraints, and persisted self-check"@,
    }
}

/// The safety caps text of a depth.
pub open spec fn depth_safety_caps(d: WorkflowProfileDepth) -> Seq<char> {
    match d {
        WorkflowProfileDepth::Smoke => "safety caps: short bounded durations, explicit worker counts, operator approval for governor sweep, restore-after-each, thermal abort where control paths support it"@,
        WorkflowProfileDepth::CharacterizationFull => "safety caps: explicit duration limits, worker limits, thermal abort thresholds, cooldown expectations, approval-bound control, restore validation, and no arbitrary root shell"@,
    }
}

/// The descriptive texts of a resolved profile are those of its depth.
pub open spec fn profile_texts(p: WorkflowProfile, d: WorkflowProfileDepth) -> bool {
    &&& p.summary@ == depth_summary(d)
    &&& p.claim_boundary@ == depth_claim_boundary(d)
    &&& p.coverage@ == depth_coverage(d)
    &&& p.safety_caps@ == depth_safety_caps(d)
}

/// The resolved profile of a depth.
pub fn profile_for_depth(requested_profile: String, depth: WorkflowProfileDepth) -> (p: WorkflowProfile)
    ensures
        p.requested_profile@ == requested_profile@,
        p.effective_profile@ == depth_profile(depth),
        p.depth == depth,
        profile_texts(p, depth),
{
    match depth {
        WorkflowProfileDepth::Smoke => WorkflowProfile {
            requested_profile,
            effective_profile: owned(WORKFLOW_PROFILE_SMOKE),
            depth,
            summary: "smoke profile: workflow correctness, runner preflight, read-only identity, short seed probes, target-local workload demand, and governor-validation smoke",
            claim_boundary: "smoke evidence is not deep target characterization and must not support production, selection, 24h safety, or Pi4/Pi5 sufficiency claims",
            coverage: "coverage: preflight, inventory, toolchain, 30s observe baseline, 10s CPU seed, bounded pressure/composite smoke, target-local workload demand, governor sweep smoke",
            safety_caps: "safety caps: short bounded durations, explicit worker counts, operator approval for governor sweep, restore-after-each, thermal abort where control paths support it",
        },
        WorkflowProfileDepth::CharacterizationFull => WorkflowProfile {
            requested_profile,
            effective_profile: owned(WORKFLOW_PROFILE_CHARACTERIZATION_FULL),
            depth,
            summary: "characterization-full profile: bounded deeper target characterization with explicit duration, coverage, and safety caps",
            claim_boundary: "characterization-full is still bounded laboratory evidence; production readiness, 24h safety, battery safety, and target selection remain blocked without matching downstream evidence",
            coverage: "coverage: repeated observation, CPU ladder, sustained bounded load, pressure/composite coverage, endpoint-backed network where configured, target-local workload demand, suitability, constraints, and persisted self-check",
            safety_caps: "safety caps: explicit duration limits, worker limits, thermal abort thresholds, cooldown expectations, approval-bound control, restore validation, and no arbitrary root shell",
        },
    }
}

/// The depth a requested profile resolves to: the smoke and
/// characterization profiles fix their depth, the legacy full-set profile
/// takes the explicit one; anything else is refused.
pub open spec fn resolved_depth(requested: Seq<char>, explicit_depth: Option<WorkflowProfileDepth>) -> Option<WorkflowProfileDepth> {
    if requested == WORKFLOW_PROFILE_SMOKE@ {
        match explicit_depth {
            Some(d) if d != WorkflowProfileDepth::Smoke => None,
            _ => Some(WorkflowProfileDepth::Smoke),
        }
    } else if requested == WORKFLOW_PROFILE_CHARACTERIZATION_FULL@ {
        match explicit_depth {
            Some(d) if d != WorkflowProfileDepth::CharacterizationFull => None,
            _ => Some(WorkflowProfileDepth::CharacterizationFull),
        }
    } else if requested == WORKFLOW_PROFILE_LEGACY_FULLSET@ {
        explicit_depth
    } else {
        None
    }
}

/// Resolves a requested profile and an explicit depth to a workflow
/// profile.
pub fn resolve_workflow_profile(requested_profile: &str, explicit_depth: Option<WorkflowProfileDepth>) -> (r: LabResult<WorkflowProfile>)
    ensures
        match resolved_depth(requested_profile@, explicit_depth) {
            Some(d) => r matches Ok(p) && p.depth == d && p.requested_profile@ == requested_profile@
                && p.effective_profile@ == depth_profile(d) && profile_texts(p, d),
            None => r matches Err(LabError::Validation(_)),
        },
{
    let depth = if str_eq(requested_profile, WORKFLOW_PROFILE_SMOKE) {
        require_matching_depth(requested_profile, explicit_depth, WorkflowProfileDepth::Smoke)?
    } else if str_eq(requested_profile, WORKFLOW_PROFILE_CHARACTERIZATION_FULL) {
        require_matching_depth(requested_profile, explicit_depth, WorkflowProfileDepth::CharacterizationFull)?
    } else if str_eq(requested_profile, WORKFLOW_PROFILE_LEGACY_FULLSET) {
        match explicit_depth {
            Some(d) => d,
            None => {
                return Err(LabError::Validation(owned(
                    "legacy target-operating-contract-fullset requires --profile-depth smoke or --profile-depth characterization-full; prefer target-operating-contract-smoke or target-characterization-full",
                )));
            },
        }
    } else {
        let a = concat("unsupported workflow profile ", requested_profile);
        let b = concat(a.as_str(), "; expected target-operating-contract-smoke, target-characterization-full, or legacy target-operating-contract-fullset with --profile-depth");
        return Err(LabError::Validation(b));
    };
    Ok(profile_for_depth(owned(requested_profile), depth))
}

} // verus!
