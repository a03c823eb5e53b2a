//! Full-set validation of governor control evidence: each requested
//! governor is traced from plan through approval, apply, linked load,
//! restore and post-restore health check.

use crate::text::str_eq;
use vstd::prelude::*;

verus! {

pub const FULLSET_PROFILE: &'static str = "target-operating-contract-fullset";
pub const LEGACY_RUN_VALIDATION_MISSING_RUN_SET_ID: &'static str =
    "legacy_run_validation_missing_run_set_identity";

#[derive(Debug, Clone, Copy, PartialEq, Eq, Structural)]
pub enum GovernorValidity {
    Measured,
    MeasuredPartial,
    Insufficient,
    Refused,
    Contaminated,
    NotApplicable,
    Unknown,
}

#[derive(Debug, Clone, PartialEq, Eq)]
pub struct GovernorValidation {
    pub governor: String,
    pub validity: GovernorValidity,
    pub plan_ref: Option<String>,
    pub approval_ref: Option<String>,
    pub control_result_ref: Option<String>,
    pub load_ref: Option<String>,
    pub restore_result_ref: Option<String>,
    pub health_check_ref: Option<String>,
    pub messages: Vec<String>,
    pub next_evidence: Vec<String>,
}

#[derive(Debug, Clone, PartialEq, Eq)]
pub struct RunValidationGap {
    pub code: String,
    pub governor: Option<String>,
    pub message: String,
    pub evidence_refs: Vec<String>,
}

#[derive(Debug, Clone, PartialEq, Eq)]
pub struct RunValidationPayload {
    pub profile: String,
    pub requested_governors: Vec<String>,
    pub workflow_recommendation_ref: Option<String>,
    pub collect_plan_ref: Option<String>,
    pub collect_plan_digest: Option<String>,
    pub subject_run_set_id: String,
    pub included_run_refs: Vec<String>,
    pub validation_profile: String,
    pub expected_governors: Vec<String>,
    pub target_id: String,
    pub target_class: String,
    pub version_set: RunValidationVersionSet,
    pub version_skew_policy: VersionSkewPolicyResult,
    pub version_skew_override: bool,
    pub governor_results: Vec<GovernorValidation>,
    pub overall_validity: GovernorValidity,
    pub gaps: Vec<RunValidationGap>,
    pub audit_refs: Vec<String>,
}
#[derive(Debug, Clone, Copy, PartialEq, Eq, Structural)]
pub enum ToolVersionRole {
    ControllerAdcLab,
    TargetLocalAdcLab,
    TargetRunner,
    PrivilegedHelper,
    ReleaseManifest,
}
#[derive(Debug, Clone, PartialEq, Eq)]
pub struct ToolVersionRecord {
    pub role: ToolVersionRole,
    pub tool_name: String,
    pub version: String,
    pub git_sha: String,
    pub target_triple: String,
    pub build_profile: String,
    pub artifact_ref: String,
}
#[derive(Debug, Clone, PartialEq, Eq)]
pub struct RunValidationVersionSet {
    pub records: Vec<ToolVersionRecord>,
    pub skew_detected: bool,
    pub skew_reasons: Vec<String>,
}
#[derive(Debug, Clone, Copy, PartialEq, Eq, Structural)]
pub enum VersionSkewPolicyResult {
    NoSkewDetected,
    BlockedByVersionSkew,
    OverrideRecordedStillBlocked,
}
#[derive(Debug, Clone, Copy, PartialEq, Eq, Structural)]
pub enum GovernorSweepPolicyState {
    Requested,
    Approved,
}


} // verus!

verus! {

/// Whether a character is white space in the sense of `char::is_whitespace`
/// (the Unicode `White_Space` property).
pub open spec fn is_white_space(c: char) -> bool {
    let n = c as int;
    (0x09 <= n <= 0x0D) || n == 0x20 || n == 0x85 || n == 0xA0 || n == 0x1680
        || (0x2000 <= n <= 0x200A) || n == 0x2028 || n == 0x2029 || n == 0x202F
        || n == 0x205F || n == 0x3000
}

/// The string is empty after trimming white space.
pub open spec fn is_blank(s: Seq<char>) -> bool {
    forall|i: int| 0 <= i < s.len() ==> is_white_space(s[i])
}

/// The validation names the run set it was computed over.
pub open spec fn has_run_set_identity_spec(p: RunValidationPayload) -> bool {
    &&& p.subject_run_set_id@ != LEGACY_RUN_VALIDATION_MISSING_RUN_SET_ID@
    &&& !is_blank(p.subject_run_set_id@)
    &&& p.included_run_refs@.len() > 0
}

} // verus!

verus! {

/// Whether a character is white space (`char::is_whitespace`).
pub fn is_white_space_char(c: char) -> (r: bool)
    ensures
        r == is_white_space(c),
{
    ('\u{09}' <= c && c <= '\u{0D}') || c == ' ' || c == '\u{85}' || c == '\u{A0}' || c == '\u{1680}'
        || ('\u{2000}' <= c && c <= '\u{200A}') || c == '\u{2028}' || c == '\u{2029}' || c == '\u{202F}'
        || c == '\u{205F}' || c == '\u{3000}'
}

/// Whether the string is empty once white space is trimmed from both ends.
pub fn is_blank_str(s: &str) -> (r: bool)
    ensures
        r == is_blank(s@),
{
    let n = s.unicode_len();
    let mut i: usize = 0;
    while i < n
        invariant
            n == s@.len(),
            i <= n,
            forall|k: int| 0 <= k < i ==> is_white_space(s@[k]),
        decreases n - i,
    {
        if !is_white_space_char(s.get_char(i)) {
            return false;
        }
        i = i + 1;
    }
    true
}

impl RunValidationPayload {
    /// Whether the validation names a run set: an identity that is neither
    /// the legacy placeholder nor blank, and at least one included run.
    pub fn has_run_set_identity(&self) -> (r: bool)
        ensures
            r == has_run_set_identity_spec(*self),
    {
        !crate::text::str_eq(self.subject_run_set_id.as_str(), LEGACY_RUN_VALIDATION_MISSING_RUN_SET_ID)
            && !is_blank_str(self.subject_run_set_id.as_str())
            && self.included_run_refs.len() > 0
    }
}

} // verus!

verus! {

/// A control plan found in a run, with the canonical JSON its approvals
/// are bound to.
#[derive(Debug, Clone)]
pub struct PlanEntry {
    pub artifact_ref: String,
    pub value: crate::contracts::ControlPlan,
    pub canonical_json: Vec<u8>,
}

/// An approval record found in a run.
#[derive(Debug, Clone)]
pub struct ApprovalEntry {
    pub artifact_ref: String,
    pub value: crate::contracts::ApprovalRecord,
}

/// A control result found in a run.
#[derive(Debug, Clone)]
pub struct ControlResultEntry {
    pub artifact_ref: String,
    pub value: crate::contracts::ControlResult,
}

/// A load artifact found in a run.
#[derive(Debug, Clone)]
pub struct LoadEntry {
    pub artifact_ref: String,
    pub value: crate::evidence::envelope::Artifact<crate::probe::LoadPayload>,
}

/// The control evidence of the runs under validation, in the order in
/// which the runs and their files were read.
#[derive(Debug, Clone)]
pub struct ValidationIndex {
    pub plans: Vec<PlanEntry>,
    pub approvals: Vec<ApprovalEntry>,
    pub results: Vec<ControlResultEntry>,
    pub loads: Vec<LoadEntry>,
    pub health_check_ref: Option<String>,
    pub health_check_ok: bool,
    pub audit_refs: Vec<String>,
}

/// The first element that satisfies `p`.
pub open spec fn first_match<T>(s: Seq<T>, p: spec_fn(T) -> bool) -> Option<T>
    decreases s.len(),
{
    if s.len() == 0 {
        None
    } else if p(s[0]) {
        Some(s[0])
    } else {
        first_match(s.drop_first(), p)
    }
}

/// One step of a front-to-back search.
pub proof fn lemma_first_match_step<T>(s: Seq<T>, i: int, p: spec_fn(T) -> bool)
    requires
        0 <= i < s.len(),
    ensures
        first_match(s.subrange(i, s.len() as int), p)
            == (if p(s[i]) { Some(s[i]) } else { first_match(s.subrange(i + 1, s.len() as int), p) }),
{
    let rest = s.subrange(i, s.len() as int);
    assert(rest[0] == s[i]);
    assert(rest.drop_first() =~= s.subrange(i + 1, s.len() as int));
}

/// The view of an optional string.
pub open spec fn opt_view(o: Option<String>) -> Option<Seq<char>> {
    match o {
        Some(s) => Some(s@),
        None => None,
    }
}

/// The plan sets the governor.
pub open spec fn plan_for_governor(e: PlanEntry, governor: Seq<char>) -> bool {
    e.value.operation.desired_state.governor@ == governor
}

/// The approval is bound to the plan by id, digest and operation.
pub open spec fn approval_binds(a: ApprovalEntry, plan: PlanEntry) -> bool {
    &&& a.value.approved_plan_id@ == plan.value.plan_id@
    &&& a.value.approved_plan_digest@ == crate::digest::sha256_text(plan.canonical_json@)
    &&& crate::control::same_operation(a.value.approved_operation, plan.value.operation)
}

/// The result belongs to the plan and has the status.
pub open spec fn result_with(e: ControlResultEntry, plan_id: Seq<char>, status: crate::contracts::ControlResultStatus) -> bool {
    e.value.plan_id@ == plan_id && e.value.status == status
}

/// The load names the control result and, when it records a governor,
/// the governor.
pub open spec fn load_linked(e: LoadEntry, control_result_ref: Seq<char>, governor: Seq<char>) -> bool {
    &&& e.value.payload.control_result_ref matches Some(r) && r@ == control_result_ref
    &&& match e.value.payload.operating_point_snapshot {
        Some(snap) => match snap.governor {
            Some(g) => g@ == governor,
            None => true,
        },
        None => true,
    }
}

/// The first plan for the governor.
pub open spec fn plan_spec(index: ValidationIndex, governor: Seq<char>) -> Option<PlanEntry> {
    first_match(index.plans@, |e: PlanEntry| plan_for_governor(e, governor))
}

/// The first approval bound to the plan.
pub open spec fn approval_spec(index: ValidationIndex, plan: PlanEntry) -> Option<ApprovalEntry> {
    first_match(index.approvals@, |a: ApprovalEntry| approval_binds(a, plan))
}

/// The first result of the plan with the status.
pub open spec fn result_spec(index: ValidationIndex, plan_id: Seq<char>, status: crate::contracts::ControlResultStatus) -> Option<ControlResultEntry> {
    first_match(index.results@, |e: ControlResultEntry| result_with(e, plan_id, status))
}

/// The result that speaks for the plan: the first refused one, else the
/// first failed, applied, dry-run and restored one, in that order.
pub open spec fn primary_result_spec(index: ValidationIndex, plan_id: Seq<char>) -> Option<ControlResultEntry> {
    if result_spec(index, plan_id, crate::contracts::ControlResultStatus::Refused) is Some {
        result_spec(index, plan_id, crate::contracts::ControlResultStatus::Refused)
    } else if result_spec(index, plan_id, crate::contracts::ControlResultStatus::Failed) is Some {
        result_spec(index, plan_id, crate::contracts::ControlResultStatus::Failed)
    } else if result_spec(index, plan_id, crate::contracts::ControlResultStatus::Applied) is Some {
        result_spec(index, plan_id, crate::contracts::ControlResultStatus::Applied)
    } else if result_spec(index, plan_id, crate::contracts::ControlResultStatus::DryRunOk) is Some {
        result_spec(index, plan_id, crate::contracts::ControlResultStatus::DryRunOk)
    } else {
        result_spec(index, plan_id, crate::contracts::ControlResultStatus::Restored)
    }
}

/// The first load linked to the control result for the governor.
pub open spec fn linked_load_spec(index: ValidationIndex, control_result_ref: Seq<char>, governor: Seq<char>) -> Option<LoadEntry> {
    first_match(index.loads@, |e: LoadEntry| load_linked(e, control_result_ref, governor))
}

/// The first load artifact of the load kind.
pub open spec fn any_load_spec(index: ValidationIndex) -> Option<LoadEntry> {
    first_match(index.loads@, |e: LoadEntry| e.value.kind == crate::evidence::envelope::Kind::Load)
}

fn find_plan<'a>(index: &'a ValidationIndex, governor: &str) -> (r: Option<&'a PlanEntry>)
    ensures
        match plan_spec(*index, governor@) {
            None => r is None,
            Some(p) => r matches Some(q) && *q == p,
        },
{
    let ghost p = |e: PlanEntry| plan_for_governor(e, governor@);
    let s = &index.plans;
    assert(s@.subrange(0, s@.len() as int) =~= s@);
    let mut i: usize = 0;
    while i < s.len()
        invariant
            s == &index.plans,
            i <= s@.len(),
            plan_spec(*index, governor@) == first_match(s@.subrange(i as int, s@.len() as int), |e: PlanEntry| plan_for_governor(e, governor@)),
        decreases s.len() - i,
    {
        proof {
            lemma_first_match_step(s@, i as int, |e: PlanEntry| plan_for_governor(e, governor@));
        }
        if str_eq(s[i].value.operation.desired_state.governor.as_str(), governor) {
            return Some(&s[i]);
        }
        i = i + 1;
    }
    None
}

fn matching_approval<'a>(index: &'a ValidationIndex, plan: &PlanEntry) -> (r: Option<&'a ApprovalEntry>)
    ensures
        match approval_spec(*index, *plan) {
            None => r is None,
            Some(p) => r matches Some(q) && *q == p,
        },
{
    let digest = crate::control::canonical_plan_digest(plan.canonical_json.as_slice());
    let s = &index.approvals;
    assert(s@.subrange(0, s@.len() as int) =~= s@);
    let mut i: usize = 0;
    while i < s.len()
        invariant
            s == &index.approvals,
            digest@ == crate::digest::sha256_text(plan.canonical_json@),
            i <= s@.len(),
            approval_spec(*index, *plan) == first_match(s@.subrange(i as int, s@.len() as int), |a: ApprovalEntry| approval_binds(a, *plan)),
        decreases s.len() - i,
    {
        proof {
            lemma_first_match_step(s@, i as int, |a: ApprovalEntry| approval_binds(a, *plan));
        }
        let a = &s[i].value;
        if str_eq(a.approved_plan_id.as_str(), plan.value.plan_id.as_str())
            && str_eq(a.approved_plan_digest.as_str(), digest.as_str())
            && str_eq(a.approved_operation.operation_id.as_str(), plan.value.operation.operation_id.as_str())
            && str_eq(a.approved_operation.desired_state.governor.as_str(), plan.value.operation.desired_state.governor.as_str()) {
            return Some(&s[i]);
        }
        i = i + 1;
    }
    None
}

fn find_result<'a>(index: &'a ValidationIndex, plan_id: &str, status: crate::contracts::ControlResultStatus) -> (r: Option<&'a ControlResultEntry>)
    ensures
        match result_spec(*index, plan_id@, status) {
            None => r is None,
            Some(p) => r matches Some(q) && *q == p,
        },
{
    let s = &index.results;
    assert(s@.subrange(0, s@.len() as int) =~= s@);
    let mut i: usize = 0;
    while i < s.len()
        invariant
            s == &index.results,
            i <= s@.len(),
            result_spec(*index, plan_id@, status) == first_match(s@.subrange(i as int, s@.len() as int), |e: ControlResultEntry| result_with(e, plan_id@, status)),
        decreases s.len() - i,
    {
        proof {
            lemma_first_match_step(s@, i as int, |e: ControlResultEntry| result_with(e, plan_id@, status));
        }
        if str_eq(s[i].value.plan_id.as_str(), plan_id) && s[i].value.status == status {
            return Some(&s[i]);
        }
        i = i + 1;
    }
    None
}

/// The result that speaks for the plan.
fn primary_control_result<'a>(index: &'a ValidationIndex, plan_id: &str) -> (r: Option<&'a ControlResultEntry>)
    ensures
        match primary_result_spec(*index, plan_id@) {
            None => r is None,
            Some(p) => r matches Some(q) && *q == p,
        },
{
    let refused = find_result(index, plan_id, crate::contracts::ControlResultStatus::Refused);
    if refused.is_some() {
        return refused;
    }
    let failed = find_result(index, plan_id, crate::contracts::ControlResultStatus::Failed);
    if failed.is_some() {
        return failed;
    }
    let applied = find_result(index, plan_id, crate::contracts::ControlResultStatus::Applied);
    if applied.is_some() {
        return applied;
    }
    let dry_run = find_result(index, plan_id, crate::contracts::ControlResultStatus::DryRunOk);
    if dry_run.is_some() {
        return dry_run;
    }
    find_result(index, plan_id, crate::contracts::ControlResultStatus::Restored)
}

fn load_link_matches(e: &LoadEntry, control_result_ref: &str, governor: &str) -> (r: bool)
    ensures
        r == load_linked(*e, control_result_ref@, governor@),
{
    let linked = match &e.value.payload.control_result_ref {
        Some(recorded) => str_eq(recorded.as_str(), control_result_ref),
        None => false,
    };
    let governor_ok = match &e.value.payload.operating_point_snapshot {
        Some(snap) => match &snap.governor {
            Some(g) => str_eq(g.as_str(), governor),
            None => true,
        },
        None => true,
    };
    linked && governor_ok
}

fn linked_load<'a>(index: &'a ValidationIndex, control_result_ref: &str, governor: &str) -> (r: Option<&'a LoadEntry>)
    ensures
        match linked_load_spec(*index, control_result_ref@, governor@) {
            None => r is None,
            Some(p) => r matches Some(q) && *q == p,
        },
{
    let s = &index.loads;
    assert(s@.subrange(0, s@.len() as int) =~= s@);
    let mut i: usize = 0;
    while i < s.len()
        invariant
            s == &index.loads,
            i <= s@.len(),
            linked_load_spec(*index, control_result_ref@, governor@) == first_match(s@.subrange(i as int, s@.len() as int), |e: LoadEntry| load_linked(e, control_result_ref@, governor@)),
        decreases s.len() - i,
    {
        proof {
            lemma_first_match_step(s@, i as int, |e: LoadEntry| load_linked(e, control_result_ref@, governor@));
        }
        if load_link_matches(&s[i], control_result_ref, governor) {
            return Some(&s[i]);
        }
        i = i + 1;
    }
    None
}

fn find_any_load<'a>(index: &'a ValidationIndex) -> (r: Option<&'a LoadEntry>)
    ensures
        match any_load_spec(*index) {
            None => r is None,
            Some(p) => r matches Some(q) && *q == p,
        },
{
    let s = &index.loads;
    assert(s@.subrange(0, s@.len() as int) =~= s@);
    let mut i: usize = 0;
    while i < s.len()
        invariant
            s == &index.loads,
            i <= s@.len(),
            any_load_spec(*index) == first_match(s@.subrange(i as int, s@.len() as int), |e: LoadEntry| e.value.kind == crate::evidence::envelope::Kind::Load),
        decreases s.len() - i,
    {
        proof {
            lemma_first_match_step(s@, i as int, |e: LoadEntry| e.value.kind == crate::evidence::envelope::Kind::Load);
        }
        if s[i].value.kind == crate::evidence::envelope::Kind::Load {
            return Some(&s[i]);
        }
        i = i + 1;
    }
    None
}

} // verus!

verus! {

/// A governor validation with the given fields.
pub open spec fn validation_is(
    v: GovernorValidation,
    governor: Seq<char>,
    validity: GovernorValidity,
    plan_ref: Option<Seq<char>>,
    approval_ref: Option<Seq<char>>,
    control_result_ref: Option<Seq<char>>,
    load_ref: Option<Seq<char>>,
    restore_result_ref: Option<Seq<char>>,
    health_check_ref: Option<Seq<char>>,
    messages: Seq<Seq<char>>,
    next_evidence: Seq<Seq<char>>,
) -> bool {
    &&& v.governor@ == governor
    &&& v.validity == validity
    &&& opt_view(v.plan_ref) == plan_ref
    &&& opt_view(v.approval_ref) == approval_ref
    &&& opt_view(v.control_result_ref) == control_result_ref
    &&& opt_view(v.load_ref) == load_ref
    &&& opt_view(v.restore_result_ref) == restore_result_ref
    &&& opt_view(v.health_check_ref) == health_check_ref
    &&& crate::text::views(v.messages@) == messages
    &&& crate::text::views(v.next_evidence@) == next_evidence
}

/// How a refused control result is described.
pub open spec fn refusal_message_spec(result: crate::contracts::ControlResult) -> Seq<char> {
    match result.refusal {
        None => "control apply was refused"@,
        Some(f) => if f.reason_code == crate::contracts::RefusalCode::ApprovalMismatch {
            "control apply refused by approval mismatch: "@ + f.message@
        } else {
            "control apply refused: "@ + f.message@
        },
    }
}

/// How a refused control result is described.
pub fn refusal_message(result: &crate::contracts::ControlResult) -> (m: String)
    ensures
        m@ == refusal_message_spec(*result),
{
    match &result.refusal {
        None => crate::text::owned("control apply was refused"),
        Some(f) => match f.reason_code {
            crate::contracts::RefusalCode::ApprovalMismatch =>
                crate::text::concat("control apply refused by approval mismatch: ", f.message.as_str()),
            _ => crate::text::concat("control apply refused: ", f.message.as_str()),
        },
    }
}

/// The reference of an entry, when there is one.
pub open spec fn ref_of_plan(e: Option<PlanEntry>) -> Option<Seq<char>> {
    match e { Some(x) => Some(x.artifact_ref@), None => None }
}

pub open spec fn ref_of_approval(e: Option<ApprovalEntry>) -> Option<Seq<char>> {
    match e { Some(x) => Some(x.artifact_ref@), None => None }
}

pub open spec fn ref_of_result(e: Option<ControlResultEntry>) -> Option<Seq<char>> {
    match e { Some(x) => Some(x.artifact_ref@), None => None }
}

pub open spec fn ref_of_load(e: Option<LoadEntry>) -> Option<Seq<char>> {
    match e { Some(x) => Some(x.artifact_ref@), None => None }
}

/// What the full-set validation concludes for one requested governor.
pub open spec fn governor_validation_spec(index: ValidationIndex, governor: Seq<char>, v: GovernorValidation) -> bool {
    match plan_spec(index, governor) {
        None => validation_is(v, governor, GovernorValidity::Unknown, None, None, None, None, None, None,
            seq!["no control plan for requested governor"@], seq!["collect typed governor control evidence"@]),
        Some(plan) => {
            let approval_ref = ref_of_approval(approval_spec(index, plan));
            let primary = primary_result_spec(index, plan.value.plan_id@);
            let control_ref = ref_of_result(primary);
            let health = opt_view(index.health_check_ref);
            let plan_ref = Some(plan.artifact_ref@);
            if primary matches Some(r) && r.value.status == crate::contracts::ControlResultStatus::Refused {
                validation_is(v, governor, GovernorValidity::Refused, plan_ref, approval_ref, control_ref, None, None, health,
                    seq![refusal_message_spec(primary.unwrap().value)],
                    seq!["collect matching approval and rerun control apply"@])
            } else if primary matches Some(r) && r.value.status == crate::contracts::ControlResultStatus::Failed {
                validation_is(v, governor, GovernorValidity::Insufficient, plan_ref, approval_ref, control_ref, None, None, health,
                    seq!["control apply failed"@], seq!["rerun apply and restore with verified result"@])
            } else if !(primary matches Some(r) && r.value.status == crate::contracts::ControlResultStatus::Applied) {
                validation_is(v, governor, GovernorValidity::Insufficient, plan_ref, approval_ref, control_ref, None, None, health,
                    seq!["no applied control result for requested governor"@], seq!["apply the matching governor plan"@])
            } else {
                let applied = primary.unwrap();
                let restore_ref = ref_of_result(result_spec(index, plan.value.plan_id@, crate::contracts::ControlResultStatus::Restored));
                match linked_load_spec(index, applied.artifact_ref@, governor) {
                    None => validation_is(v, governor,
                        if any_load_spec(index) is Some { GovernorValidity::Contaminated } else { GovernorValidity::Insufficient },
                        plan_ref, approval_ref, Some(applied.artifact_ref@), ref_of_load(any_load_spec(index)), restore_ref, health,
                        seq!["bounded load evidence is missing an explicit control-result or operating-point link"@],
                        seq!["rerun load through governor sweep so load evidence carries a control link"@]),
                    Some(load) => if restore_ref is None || health is None || !index.health_check_ok {
                        validation_is(v, governor, GovernorValidity::MeasuredPartial, plan_ref, approval_ref,
                            Some(applied.artifact_ref@), Some(load.artifact_ref@), restore_ref, health,
                            seq!["load is linked, but restore or healthy post-restore evidence is incomplete"@],
                            seq!["restore and run post-restore health check"@])
                    } else {
                        validation_is(v, governor, GovernorValidity::Measured, plan_ref, approval_ref,
                            Some(applied.artifact_ref@), Some(load.artifact_ref@), restore_ref, health,
                            seq!["governor evidence is fully linked and restored"@], Seq::empty())
                    },
                }
            }
        },
    }
}

/// A copy of an optional string.
pub fn copy_opt(o: &Option<String>) -> (r: Option<String>)
    ensures
        opt_view(r) == opt_view(*o),
{
    match o {
        Some(s) => Some(crate::text::owned(s.as_str())),
        None => None,
    }
}

fn approval_ref_of(e: Option<&ApprovalEntry>) -> (r: Option<String>)
    ensures
        opt_view(r) == match e { Some(x) => Some(x.artifact_ref@), None => None::<Seq<char>> },
{
    match e {
        Some(x) => Some(crate::text::owned(x.artifact_ref.as_str())),
        None => None,
    }
}

fn result_ref_of(e: Option<&ControlResultEntry>) -> (r: Option<String>)
    ensures
        opt_view(r) == match e { Some(x) => Some(x.artifact_ref@), None => None::<Seq<char>> },
{
    match e {
        Some(x) => Some(crate::text::owned(x.artifact_ref.as_str())),
        None => None,
    }
}

fn load_ref_of(e: Option<&LoadEntry>) -> (r: Option<String>)
    ensures
        opt_view(r) == match e { Some(x) => Some(x.artifact_ref@), None => None::<Seq<char>> },
{
    match e {
        Some(x) => Some(crate::text::owned(x.artifact_ref.as_str())),
        None => None,
    }
}

/// A validation for a governor without a plan.
pub fn governor_result(governor: &str, validity: GovernorValidity, messages: Vec<String>) -> (v: GovernorValidation)
    ensures
        validation_is(v, governor@, validity, None, None, None, None, None, None, crate::text::views(messages@),
            seq!["collect typed governor control evidence"@]),
{
    GovernorValidation {
        governor: crate::text::owned(governor),
        validity,
        plan_ref: None,
        approval_ref: None,
        control_result_ref: None,
        load_ref: None,
        restore_result_ref: None,
        health_check_ref: None,
        messages,
        next_evidence: crate::text::single("collect typed governor control evidence"),
    }
}

/// Traces one requested governor from plan through approval, apply,
/// linked load, restore and post-restore health check.
pub fn validate_governor(index: &ValidationIndex, governor: &str) -> (v: GovernorValidation)
    ensures
        governor_validation_spec(*index, governor@, v),
{
    let plan = match find_plan(index, governor) {
        None => {
            return governor_result(governor, GovernorValidity::Unknown, crate::text::single("no control plan for requested governor"));
        },
        Some(p) => p,
    };
    let approval = matching_approval(index, plan);
    let control_result = primary_control_result(index, plan.value.plan_id.as_str());
    let approval_ref = approval_ref_of(approval);
    let control_result_ref = result_ref_of(control_result);
    let plan_ref = Some(crate::text::owned(plan.artifact_ref.as_str()));
    match control_result {
        Some(result) => {
            if result.value.status == crate::contracts::ControlResultStatus::Refused {
                let message = refusal_message(&result.value);
                let messages = vec![message];
                assert(crate::text::views(messages@) =~= seq![refusal_message_spec(result.value)]);
                return GovernorValidation {
                    governor: crate::text::owned(governor),
                    validity: GovernorValidity::Refused,
                    plan_ref,
                    approval_ref,
                    control_result_ref,
                    load_ref: None,
                    restore_result_ref: None,
                    health_check_ref: copy_opt(&index.health_check_ref),
                    messages,
                    next_evidence: crate::text::single("collect matching approval and rerun control apply"),
                };
            }
            if result.value.status == crate::contracts::ControlResultStatus::Failed {
                return GovernorValidation {
                    governor: crate::text::owned(governor),
                    validity: GovernorValidity::Insufficient,
                    plan_ref,
                    approval_ref,
                    control_result_ref,
                    load_ref: None,
                    restore_result_ref: None,
                    health_check_ref: copy_opt(&index.health_check_ref),
                    messages: crate::text::single("control apply failed"),
                    next_evidence: crate::text::single("rerun apply and restore with verified result"),
                };
            }
        },
        None => {},
    }
    let applied = match control_result {
        Some(result) => {
            if result.value.status == crate::contracts::ControlResultStatus::Applied {
                result
            } else {
                return GovernorValidation {
                    governor: crate::text::owned(governor),
                    validity: GovernorValidity::Insufficient,
                    plan_ref,
                    approval_ref,
                    control_result_ref,
                    load_ref: None,
                    restore_result_ref: None,
                    health_check_ref: copy_opt(&index.health_check_ref),
                    messages: crate::text::single("no applied control result for requested governor"),
                    next_evidence: crate::text::single("apply the matching governor plan"),
                };
            }
        },
        None => {
            return GovernorValidation {
                governor: crate::text::owned(governor),
                validity: GovernorValidity::Insufficient,
                plan_ref,
                approval_ref,
                control_result_ref,
                load_ref: None,
                restore_result_ref: None,
                health_check_ref: copy_opt(&index.health_check_ref),
                messages: crate::text::single("no applied control result for requested governor"),
                next_evidence: crate::text::single("apply the matching governor plan"),
            };
        },
    };
    let linked = linked_load(index, applied.artifact_ref.as_str(), governor);
    let any_load = find_any_load(index);
    let restore_result = find_result(index, plan.value.plan_id.as_str(), crate::contracts::ControlResultStatus::Restored);
    let restore_ref = result_ref_of(restore_result);
    let health_ref = copy_opt(&index.health_check_ref);
    let load = match linked {
        None => {
            return GovernorValidation {
                governor: crate::text::owned(governor),
                validity: if any_load.is_some() { GovernorValidity::Contaminated } else { GovernorValidity::Insufficient },
                plan_ref,
                approval_ref,
                control_result_ref: Some(crate::text::owned(applied.artifact_ref.as_str())),
                load_ref: load_ref_of(any_load),
                restore_result_ref: restore_ref,
                health_check_ref: health_ref,
                messages: crate::text::single("bounded load evidence is missing an explicit control-result or operating-point link"),
                next_evidence: crate::text::single("rerun load through governor sweep so load evidence carries a control link"),
            };
        },
        Some(l) => l,
    };
    if restore_ref.is_none() || health_ref.is_none() || !index.health_check_ok {
        return GovernorValidation {
            governor: crate::text::owned(governor),
            validity: GovernorValidity::MeasuredPartial,
            plan_ref,
            approval_ref,
            control_result_ref: Some(crate::text::owned(applied.artifact_ref.as_str())),
            load_ref: Some(crate::text::owned(load.artifact_ref.as_str())),
            restore_result_ref: restore_ref,
            health_check_ref: health_ref,
            messages: crate::text::single("load is linked, but restore or healthy post-restore evidence is incomplete"),
            next_evidence: crate::text::single("restore and run post-restore health check"),
        };
    }
    GovernorValidation {
        governor: crate::text::owned(governor),
        validity: GovernorValidity::Measured,
        plan_ref,
        approval_ref,
        control_result_ref: Some(crate::text::owned(applied.artifact_ref.as_str())),
        load_ref: Some(crate::text::owned(load.artifact_ref.as_str())),
        restore_result_ref: restore_ref,
        health_check_ref: health_ref,
        messages: crate::text::single("governor evidence is fully linked and restored"),
        next_evidence: crate::text::no_strings(),
    }
}

} // verus!

verus! {

/// The lowercase name of a validity, as gap codes spell it.
pub open spec fn validity_code(v: GovernorValidity) -> Seq<char> {
    match v {
        GovernorValidity::Measured => "measured"@,
        GovernorValidity::MeasuredPartial => "measuredpartial"@,
        GovernorValidity::Insufficient => "insufficient"@,
        GovernorValidity::Refused => "refused"@,
        GovernorValidity::Contaminated => "contaminated"@,
        GovernorValidity::NotApplicable => "notapplicable"@,
        GovernorValidity::Unknown => "unknown"@,
    }
}

fn validity_code_text(v: GovernorValidity) -> (s: &'static str)
    ensures
        s@ == validity_code(v),
{
    match v {
        GovernorValidity::Measured => "measured",
        GovernorValidity::MeasuredPartial => "measuredpartial",
        GovernorValidity::Insufficient => "insufficient",
        GovernorValidity::Refused => "refused",
        GovernorValidity::Contaminated => "contaminated",
        GovernorValidity::NotApplicable => "notapplicable",
        GovernorValidity::Unknown => "unknown",
    }
}

/// The one-element list of a present string, or the empty list.
pub open spec fn opt_seq(o: Option<String>) -> Seq<Seq<char>> {
    match o {
        Some(s) => seq![s@],
        None => Seq::empty(),
    }
}

/// The evidence references of a validation, in chain order: plan,
/// approval, control result, load, restore result, health check.
pub open spec fn evidence_refs_spec(v: GovernorValidation) -> Seq<Seq<char>> {
    opt_seq(v.plan_ref) + opt_seq(v.approval_ref) + opt_seq(v.control_result_ref) + opt_seq(v.load_ref)
        + opt_seq(v.restore_result_ref) + opt_seq(v.health_check_ref)
}

fn push_opt(out: &mut Vec<String>, o: &Option<String>)
    ensures
        crate::text::views(final(out)@) == crate::text::views(old(out)@) + opt_seq(*o),
{
    match o {
        Some(s) => {
            let ghost prev = out@;
            out.push(crate::text::owned(s.as_str()));
            assert(crate::text::views(out@) =~= crate::text::views(prev) + seq![s@]);
        },
        None => {
            assert(crate::text::views(out@) =~= crate::text::views(out@) + Seq::<Seq<char>>::empty());
        },
    }
}

/// The evidence references of a validation, in chain order.
pub fn governor_evidence_refs(result: &GovernorValidation) -> (refs: Vec<String>)
    ensures
        crate::text::views(refs@) == evidence_refs_spec(*result),
{
    let mut refs: Vec<String> = Vec::new();
    assert(crate::text::views(refs@) =~= Seq::<Seq<char>>::empty());
    push_opt(&mut refs, &result.plan_ref);
    push_opt(&mut refs, &result.approval_ref);
    push_opt(&mut refs, &result.control_result_ref);
    push_opt(&mut refs, &result.load_ref);
    push_opt(&mut refs, &result.restore_result_ref);
    push_opt(&mut refs, &result.health_check_ref);
    assert(crate::text::views(refs@) =~= evidence_refs_spec(*result));
    refs
}

/// A gap with the given fields.
pub open spec fn gap_is(g: RunValidationGap, code: Seq<char>, governor: Option<Seq<char>>, message: Seq<char>, refs: Seq<Seq<char>>) -> bool {
    &&& g.code@ == code
    &&& opt_view(g.governor) == governor
    &&& g.message@ == message
    &&& crate::text::views(g.evidence_refs@) == refs
}

/// The gap a validation leaves: none when measured, otherwise one gap
/// coded by its validity, with its messages and evidence.
pub open spec fn gaps_spec(v: GovernorValidation, gaps: Seq<RunValidationGap>) -> bool {
    if v.validity == GovernorValidity::Measured {
        gaps.len() == 0
    } else {
        &&& gaps.len() == 1
        &&& gap_is(gaps[0], validity_code(v.validity), Some(v.governor@),
            crate::text::join_seq(crate::text::views(v.messages@), "; "@), evidence_refs_spec(v))
    }
}

/// The gaps a validation leaves.
pub fn gaps_for_result(result: &GovernorValidation) -> (gaps: Vec<RunValidationGap>)
    ensures
        gaps_spec(*result, gaps@),
{
    if result.validity == GovernorValidity::Measured {
        return Vec::new();
    }
    let gap = RunValidationGap {
        code: crate::text::owned(validity_code_text(result.validity)),
        governor: Some(crate::text::owned(result.governor.as_str())),
        message: crate::text::join(&result.messages, "; "),
        evidence_refs: governor_evidence_refs(result),
    };
    vec![gap]
}

/// The validity of the whole set: unknown when nothing was requested;
/// measured when every governor is; contaminated when any is contaminated
/// or refused; else partial, insufficient or unknown by the best present.
pub open spec fn overall_validity_spec(results: Seq<GovernorValidation>) -> GovernorValidity {
    if results.len() == 0 {
        GovernorValidity::Unknown
    } else if forall|i: int| 0 <= i < results.len() ==> (#[trigger] results[i]).validity == GovernorValidity::Measured {
        GovernorValidity::Measured
    } else if exists|i: int| 0 <= i < results.len() && ((#[trigger] results[i]).validity == GovernorValidity::Contaminated
        || results[i].validity == GovernorValidity::Refused) {
        GovernorValidity::Contaminated
    } else if exists|i: int| 0 <= i < results.len() && (#[trigger] results[i]).validity == GovernorValidity::MeasuredPartial {
        GovernorValidity::MeasuredPartial
    } else if exists|i: int| 0 <= i < results.len() && (#[trigger] results[i]).validity == GovernorValidity::Insufficient {
        GovernorValidity::Insufficient
    } else {
        GovernorValidity::Unknown
    }
}

/// The validity of the whole set of governor validations.
pub fn overall_validity(results: &Vec<GovernorValidation>) -> (v: GovernorValidity)
    ensures
        v == overall_validity_spec(results@),
{
    if results.len() == 0 {
        return GovernorValidity::Unknown;
    }
    let mut all_measured = true;
    let mut contaminated = false;
    let mut partial = false;
    let mut insufficient = false;
    let mut i: usize = 0;
    while i < results.len()
        invariant
            i <= results@.len(),
            all_measured == forall|q: int| 0 <= q < i ==> (#[trigger] results@[q]).validity == GovernorValidity::Measured,
            contaminated == exists|q: int| 0 <= q < i && ((#[trigger] results@[q]).validity == GovernorValidity::Contaminated
                || results@[q].validity == GovernorValidity::Refused),
            partial == exists|q: int| 0 <= q < i && (#[trigger] results@[q]).validity == GovernorValidity::MeasuredPartial,
            insufficient == exists|q: int| 0 <= q < i && (#[trigger] results@[q]).validity == GovernorValidity::Insufficient,
        decreases results.len() - i,
    {
        let v = results[i].validity;
        if v != GovernorValidity::Measured {
            all_measured = false;
        }
        if v == GovernorValidity::Contaminated || v == GovernorValidity::Refused {
            contaminated = true;
        }
        if v == GovernorValidity::MeasuredPartial {
            partial = true;
        }
        if v == GovernorValidity::Insufficient {
            insufficient = true;
        }
        proof {
            assert(results@[i as int].validity == v);
        }
        i = i + 1;
    }
    if all_measured {
        GovernorValidity::Measured
    } else if contaminated {
        GovernorValidity::Contaminated
    } else if partial {
        GovernorValidity::MeasuredPartial
    } else if insufficient {
        GovernorValidity::Insufficient
    } else {
        GovernorValidity::Unknown
    }
}

/// What version skew means for the validation.
pub open spec fn version_skew_policy_spec(skew_detected: bool, allow_version_skew: bool) -> VersionSkewPolicyResult {
    if !skew_detected {
        VersionSkewPolicyResult::NoSkewDetected
    } else if allow_version_skew {
        VersionSkewPolicyResult::OverrideRecordedStillBlocked
    } else {
        VersionSkewPolicyResult::BlockedByVersionSkew
    }
}

/// What version skew means for the validation: an override is recorded,
/// but skew still blocks.
pub fn version_skew_policy(version_set: &RunValidationVersionSet, allow_version_skew: bool) -> (p: VersionSkewPolicyResult)
    ensures
        p == version_skew_policy_spec(version_set.skew_detected, allow_version_skew),
{
    if !version_set.skew_detected {
        VersionSkewPolicyResult::NoSkewDetected
    } else if allow_version_skew {
        VersionSkewPolicyResult::OverrideRecordedStillBlocked
    } else {
        VersionSkewPolicyResult::BlockedByVersionSkew
    }
}

/// The status of a validation artifact with the given overall validity.
pub open spec fn status_for_validity(validity: GovernorValidity, s: crate::evidence::envelope::Status) -> bool {
    match validity {
        GovernorValidity::Measured => s == crate::evidence::envelope::Status::Measured,
        GovernorValidity::MeasuredPartial => s == crate::evidence::envelope::Status::MeasuredPartial,
        GovernorValidity::NotApplicable => s matches crate::evidence::envelope::Status::NotApplicable { reason }
            && reason@ == "full-set validation is not applicable"@,
        GovernorValidity::Refused => s matches crate::evidence::envelope::Status::Refused { code, message }
            && code == crate::evidence::envelope::EvidenceRefusalCode::PolicyViolation
            && message@ == "full-set validation includes refused control evidence"@,
        GovernorValidity::Contaminated => s matches crate::evidence::envelope::Status::UnsafeBlocked { reason }
            && reason@ == "full-set validation contains contaminated evidence"@,
        _ => s == crate::evidence::envelope::Status::Insufficient,
    }
}

/// The status of a validation artifact with the given overall validity.
pub fn envelope_status(validity: &GovernorValidity) -> (s: crate::evidence::envelope::Status)
    ensures
        status_for_validity(*validity, s),
{
    match validity {
        GovernorValidity::Measured => crate::evidence::envelope::Status::Measured,
        GovernorValidity::MeasuredPartial => crate::evidence::envelope::Status::MeasuredPartial,
        GovernorValidity::NotApplicable => crate::evidence::envelope::Status::NotApplicable {
            reason: crate::text::owned("full-set validation is not applicable"),
        },
        GovernorValidity::Refused => crate::evidence::envelope::Status::Refused {
            code: crate::evidence::envelope::EvidenceRefusalCode::PolicyViolation,
            message: crate::text::owned("full-set validation includes refused control evidence"),
        },
        GovernorValidity::Contaminated => crate::evidence::envelope::Status::UnsafeBlocked {
            reason: crate::text::owned("full-set validation contains contaminated evidence"),
        },
        GovernorValidity::Insufficient => crate::evidence::envelope::Status::Insufficient,
        GovernorValidity::Unknown => crate::evidence::envelope::Status::Insufficient,
    }
}

} // verus!

verus! {

/// `s` without its leading white space.
pub open spec fn trim_start(s: Seq<char>) -> Seq<char>
    decreases s.len(),
{
    if s.len() > 0 && is_white_space(s[0]) {
        trim_start(s.drop_first())
    } else {
        s
    }
}

/// `s` without its trailing white space.
pub open spec fn trim_end(s: Seq<char>) -> Seq<char>
    decreases s.len(),
{
    if s.len() > 0 && is_white_space(s.last()) {
        trim_end(s.drop_last())
    } else {
        s
    }
}

/// `s` without leading and trailing white space (`str::trim`).
pub open spec fn trim(s: Seq<char>) -> Seq<char> {
    trim_end(trim_start(s))
}

/// The pieces of `s` between occurrences of `sep` (`str::split`).
pub open spec fn split_on(s: Seq<char>, sep: char) -> Seq<Seq<char>>
    decreases s.len(),
{
    if s.len() == 0 {
        seq![Seq::empty()]
    } else {
        let parts = split_on(s.drop_last(), sep);
        if s.last() == sep {
            parts.push(Seq::empty())
        } else {
            parts.update(parts.len() - 1, parts.last().push(s.last()))
        }
    }
}

pub proof fn lemma_split_nonempty(s: Seq<char>, sep: char)
    ensures
        split_on(s, sep).len() >= 1,
    decreases s.len(),
{
    if s.len() > 0 {
        lemma_split_nonempty(s.drop_last(), sep);
    }
}

/// Trimming the start drops exactly the leading white space.
pub proof fn lemma_trim_start(s: Seq<char>, a: int)
    requires
        0 <= a <= s.len(),
        forall|k: int| 0 <= k < a ==> is_white_space(s[k]),
        a == s.len() || !is_white_space(s[a]),
    ensures
        trim_start(s) == s.subrange(a, s.len() as int),
    decreases a,
{
    if a == 0 {
        assert(s.subrange(0, s.len() as int) =~= s);
    } else {
        let t = s.drop_first();
        assert forall|k: int| 0 <= k < a - 1 implies is_white_space(t[k]) by {
            assert(t[k] == s[k + 1]);
        }
        if a - 1 < t.len() {
            assert(t[a - 1] == s[a]);
        }
        lemma_trim_start(t, a - 1);
        assert(t.subrange(a - 1, t.len() as int) =~= s.subrange(a, s.len() as int));
    }
}

/// Trimming the end drops exactly the trailing white space.
pub proof fn lemma_trim_end(s: Seq<char>, b: int)
    requires
        0 <= b <= s.len(),
        forall|k: int| b <= k < s.len() ==> is_white_space(s[k]),
        b == 0 || !is_white_space(s[b - 1]),
    ensures
        trim_end(s) == s.subrange(0, b),
    decreases s.len() - b,
{
    if b == s.len() {
        assert(s.subrange(0, b) =~= s);
    } else {
        let t = s.drop_last();
        assert forall|k: int| b <= k < t.len() implies is_white_space(t[k]) by {
            assert(t[k] == s[k]);
        }
        if b > 0 {
            assert(t[b - 1] == s[b - 1]);
        }
        lemma_trim_end(t, b);
        assert(t.subrange(0, b) =~= s.subrange(0, b));
    }
}

/// The string with leading and trailing white space removed.
pub fn trim_str(s: &str) -> (r: String)
    ensures
        r@ == trim(s@),
{
    let n = s.unicode_len();
    let mut a: usize = 0;
    while a < n && is_white_space_char(s.get_char(a))
        invariant
            n == s@.len(),
            a <= n,
            forall|k: int| 0 <= k < a ==> is_white_space(s@[k]),
        decreases n - a,
    {
        a = a + 1;
    }
    proof {
        lemma_trim_start(s@, a as int);
    }
    let ghost t = s@.subrange(a as int, n as int);
    let mut b: usize = n;
    while b > a && is_white_space_char(s.get_char(b - 1))
        invariant
            n == s@.len(),
            a <= b <= n,
            t == s@.subrange(a as int, n as int),
            forall|k: int| b <= k < n ==> is_white_space(s@[k]),
        decreases b - a,
    {
        b = b - 1;
    }
    proof {
        assert forall|k: int| b - a <= k < t.len() implies is_white_space(t[k]) by {
            assert(t[k] == s@[k + a]);
        }
        if b - a > 0 {
            assert(t[b - a - 1] == s@[b - 1]);
        }
        lemma_trim_end(t, (b - a) as int);
        assert(t.subrange(0, (b - a) as int) =~= s@.subrange(a as int, b as int));
    }
    let sub = s.substring_char(a, b);
    crate::text::owned(sub)
}

/// The pieces of `s` between occurrences of `sep`.
pub fn split_chars(s: &str, sep: char) -> (parts: Vec<String>)
    ensures
        crate::text::views(parts@) == split_on(s@, sep),
{
    let n = s.unicode_len();
    let mut parts: Vec<String> = Vec::new();
    let mut start: usize = 0;
    let mut i: usize = 0;
    proof {
        assert(s@.subrange(0, 0) =~= Seq::<char>::empty());
        assert(crate::text::views(parts@).push(s@.subrange(0, 0)) =~= seq![Seq::<char>::empty()]);
    }
    while i < n
        invariant
            n == s@.len(),
            start <= i <= n,
            crate::text::views(parts@).push(s@.subrange(start as int, i as int)) == split_on(s@.subrange(0, i as int), sep),
        decreases n - i,
    {
        let c = s.get_char(i);
        let ghost pre = s@.subrange(0, i as int);
        let ghost post = s@.subrange(0, i + 1);
        proof {
            assert(post.drop_last() =~= pre);
            assert(post.last() == c);
            lemma_split_nonempty(pre, sep);
        }
        if c == sep {
            let piece = s.substring_char(start, i);
            let ghost prev = parts@;
            parts.push(crate::text::owned(piece));
            proof {
                assert(crate::text::views(parts@) =~= crate::text::views(prev).push(s@.subrange(start as int, i as int)));
                assert(s@.subrange(i + 1, i + 1) =~= Seq::<char>::empty());
            }
            start = i + 1;
        } else {
            proof {
                let old_parts = crate::text::views(parts@).push(s@.subrange(start as int, i as int));
                assert(s@.subrange(start as int, i + 1) =~= s@.subrange(start as int, i as int).push(c));
                assert(crate::text::views(parts@).push(s@.subrange(start as int, i + 1))
                    =~= old_parts.update(old_parts.len() - 1, old_parts.last().push(c)));
            }
        }
        i = i + 1;
    }
    let last = s.substring_char(start, n);
    let ghost prev = parts@;
    parts.push(crate::text::owned(last));
    proof {
        assert(crate::text::views(parts@) =~= crate::text::views(prev).push(s@.subrange(start as int, n as int)));
        assert(s@.subrange(0, n as int) =~= s@);
    }
    parts
}

/// The pieces of `s` between commas.
pub fn split_commas(s: &str) -> (parts: Vec<String>)
    ensures
        crate::text::views(parts@) == split_on(s@, ','),
{
    split_chars(s, ',')
}

/// `g` is a nonblank trimmed piece among the first `n` comma-separated
/// pieces of `item`.
pub open spec fn in_first_pieces(item: Seq<char>, n: int, g: Seq<char>) -> bool {
    exists|q: int| 0 <= q < n && g == trim(#[trigger] split_on(item, ',')[q]) && g.len() > 0
}

/// A governor named by the requested list: a nonblank comma-separated
/// piece of an item, trimmed.
pub open spec fn is_governor_token(items: Seq<Seq<char>>, g: Seq<char>) -> bool {
    exists|i: int, j: int| 0 <= i < items.len() && 0 <= j < split_on(items[i], ',').len()
        && g == trim(#[trigger] split_on(items[i], ',')[j]) && g.len() > 0
}

/// The requested governors: the items split at commas, trimmed, without
/// blanks, sorted and without repetition.
pub fn normalize_governors(governors: Vec<String>) -> (r: Vec<String>)
    ensures
        crate::text::strictly_sorted(crate::text::views(r@)),
        forall|g: Seq<char>| crate::text::views(r@).contains(g) <==> is_governor_token(crate::text::views(governors@), g),
{
    let ghost items = crate::text::views(governors@);
    let mut tokens: Vec<String> = Vec::new();
    let mut i: usize = 0;
    while i < governors.len()
        invariant
            items == crate::text::views(governors@),
            i <= governors@.len(),
            forall|g: Seq<char>| crate::text::views(tokens@).contains(g) <==> is_governor_token(items.subrange(0, i as int), g),
        decreases governors.len() - i,
    {
        let parts = split_commas(governors[i].as_str());
        let ghost before = items.subrange(0, i as int);
        let ghost after = items.subrange(0, i + 1);
        let ghost start_tokens = crate::text::views(tokens@);
        let mut j: usize = 0;
        while j < parts.len()
            invariant
                items == crate::text::views(governors@),
                i < governors@.len(),
                before == items.subrange(0, i as int),
                after == items.subrange(0, i + 1),
                crate::text::views(parts@) == split_on(items[i as int], ','),
                j <= parts@.len(),
                forall|g: Seq<char>| crate::text::views(tokens@).contains(g) <==> (is_governor_token(before, g)
                    || in_first_pieces(items[i as int], j as int, g)),
            decreases parts.len() - j,
        {
            let t = trim_str(parts[j].as_str());
            let ghost tv = t@;
            let ghost prev = crate::text::views(tokens@);
            assert(crate::text::views(parts@)[j as int] == parts@[j as int]@);
            if t.unicode_len() > 0 {
                tokens.push(t);
                proof {
                    assert(crate::text::views(tokens@) =~= prev.push(trim(split_on(items[i as int], ',')[j as int])));
                }
            }
            proof {
                let cur = trim(split_on(items[i as int], ',')[j as int]);
                assert(tv == cur);
                assert(cur.len() > 0 ==> crate::text::views(tokens@) == prev.push(cur));
                assert(cur.len() == 0 ==> crate::text::views(tokens@) == prev);
                assert forall|g: Seq<char>| crate::text::views(tokens@).contains(g) <==> (is_governor_token(before, g)
                    || in_first_pieces(items[i as int], j + 1, g)) by {
                    let old_side = is_governor_token(before, g) || in_first_pieces(items[i as int], j as int, g);
                    assert(prev.contains(g) <==> old_side);
                    if crate::text::views(tokens@).contains(g) {
                        let w = choose|w: int| 0 <= w < crate::text::views(tokens@).len() && crate::text::views(tokens@)[w] == g;
                        if w < prev.len() {
                            assert(prev[w] == g);
                            assert(prev.contains(g));
                        } else {
                            assert(g == cur && g.len() > 0);
                            assert(g == trim(split_on(items[i as int], ',')[j as int]));
                            assert(in_first_pieces(items[i as int], j + 1, g));
                        }
                    }
                    if in_first_pieces(items[i as int], j + 1, g) {
                        let q = choose|q: int| 0 <= q < j + 1 && g == trim(#[trigger] split_on(items[i as int], ',')[q]) && g.len() > 0;
                        if q < j {
                            assert(in_first_pieces(items[i as int], j as int, g));
                            assert(old_side);
                            let w = choose|w: int| 0 <= w < prev.len() && prev[w] == g;
                            assert(crate::text::views(tokens@)[w] == g);
                        } else {
                            assert(crate::text::views(tokens@)[prev.len() as int] == g);
                        }
                    }
                    if is_governor_token(before, g) {
                        assert(old_side);
                        let w = choose|w: int| 0 <= w < prev.len() && prev[w] == g;
                        assert(crate::text::views(tokens@)[w] == g);
                    }
                }
            }
            let ghost jn: int = j + 1;
            j = j + 1;
            assert(j as int == jn);
            assert(forall|g: Seq<char>| crate::text::views(tokens@).contains(g) <==> (is_governor_token(before, g)
                || in_first_pieces(items[i as int], jn, g)));
            assert forall|g: Seq<char>| crate::text::views(tokens@).contains(g) <==> (is_governor_token(before, g)
                || in_first_pieces(items[i as int], j as int, g)) by {
                assert(crate::text::views(tokens@).contains(g) <==> (is_governor_token(before, g)
                    || in_first_pieces(items[i as int], jn, g)));
            }
        }
        proof {
            assert forall|g: Seq<char>| crate::text::views(tokens@).contains(g) <==> is_governor_token(after, g) by {
                if is_governor_token(after, g) {
                    let (x, y) = choose|x: int, y: int| 0 <= x < after.len() && 0 <= y < split_on(after[x], ',').len()
                        && g == trim(#[trigger] split_on(after[x], ',')[y]) && g.len() > 0;
                    if x < i {
                        assert(before[x] == after[x]);
                        assert(is_governor_token(before, g));
                    } else {
                        assert(after[x] == items[i as int]);
                    }
                }
                if is_governor_token(before, g) {
                    let (x, y) = choose|x: int, y: int| 0 <= x < before.len() && 0 <= y < split_on(before[x], ',').len()
                        && g == trim(#[trigger] split_on(before[x], ',')[y]) && g.len() > 0;
                    assert(after[x] == before[x]);
                }
                if in_first_pieces(items[i as int], parts@.len() as int, g) {
                    let q = choose|q: int| 0 <= q < parts@.len() && g == trim(#[trigger] split_on(items[i as int], ',')[q]) && g.len() > 0;
                    assert(after[i as int] == items[i as int]);
                    assert(g == trim(split_on(after[i as int], ',')[q]));
                }
            }
        }
        i = i + 1;
    }
    proof {
        assert(items.subrange(0, items.len() as int) =~= items);
    }
    crate::text::sorted_unique(tokens)
}

} // verus!

verus! {

/// The message that version skew adds under a policy.
pub open spec fn skew_message(policy: VersionSkewPolicyResult) -> Seq<char> {
    match policy {
        VersionSkewPolicyResult::OverrideRecordedStillBlocked =>
            "version skew override was recorded, but full-set measured claims remain blocked"@,
        _ => "version skew blocks full-set measured claims by default"@,
    }
}

/// The gap code that version skew adds under a policy.
pub open spec fn skew_code(policy: VersionSkewPolicyResult) -> Seq<char> {
    match policy {
        VersionSkewPolicyResult::OverrideRecordedStillBlocked => "version_skew_override_still_blocked"@,
        _ => "blocked_by_version_skew"@,
    }
}

/// The next evidence that version skew asks for.
pub open spec fn skew_next_evidence() -> Seq<char> {
    "rerun controller and target-local workflow with matching adc-lab versions"@
}

/// A validation as version skew leaves it: no longer measured unless it
/// was contaminated, refused or not applicable, with the skew message and
/// next evidence appended.
pub open spec fn skew_adjusted(before: GovernorValidation, after: GovernorValidation, message: Seq<char>) -> bool {
    &&& after.governor@ == before.governor@
    &&& after.validity == (if before.validity == GovernorValidity::Contaminated || before.validity == GovernorValidity::Refused
        || before.validity == GovernorValidity::NotApplicable { before.validity } else { GovernorValidity::Insufficient })
    &&& opt_view(after.plan_ref) == opt_view(before.plan_ref)
    &&& opt_view(after.approval_ref) == opt_view(before.approval_ref)
    &&& opt_view(after.control_result_ref) == opt_view(before.control_result_ref)
    &&& opt_view(after.load_ref) == opt_view(before.load_ref)
    &&& opt_view(after.restore_result_ref) == opt_view(before.restore_result_ref)
    &&& opt_view(after.health_check_ref) == opt_view(before.health_check_ref)
    &&& crate::text::views(after.messages@) == crate::text::views(before.messages@).push(message)
    &&& crate::text::views(after.next_evidence@) == crate::text::views(before.next_evidence@).push(skew_next_evidence())
}

/// The references of the version records, in order.
pub open spec fn record_refs(records: Seq<ToolVersionRecord>) -> Seq<Seq<char>> {
    records.map_values(|r: ToolVersionRecord| r.artifact_ref@)
}

fn skew_adjust(v: GovernorValidation, message: &str) -> (r: GovernorValidation)
    ensures
        skew_adjusted(v, r, message@),
{
    let mut r = v;
    if r.validity != GovernorValidity::Contaminated && r.validity != GovernorValidity::Refused
        && r.validity != GovernorValidity::NotApplicable {
        r.validity = GovernorValidity::Insufficient;
    }
    let ghost m0 = r.messages@;
    let ghost n0 = r.next_evidence@;
    r.messages.push(crate::text::owned(message));
    r.next_evidence.push(crate::text::owned("rerun controller and target-local workflow with matching adc-lab versions"));
    proof {
        assert(crate::text::views(r.messages@) =~= crate::text::views(m0).push(message@));
        assert(crate::text::views(r.next_evidence@) =~= crate::text::views(n0).push(skew_next_evidence()));
    }
    r
}

fn record_ref_list(records: &Vec<ToolVersionRecord>) -> (refs: Vec<String>)
    ensures
        crate::text::views(refs@) == record_refs(records@),
{
    let mut refs: Vec<String> = Vec::new();
    let mut i: usize = 0;
    while i < records.len()
        invariant
            i <= records@.len(),
            crate::text::views(refs@) == record_refs(records@).subrange(0, i as int),
        decreases records.len() - i,
    {
        let ghost prev = refs@;
        refs.push(crate::text::owned(records[i].artifact_ref.as_str()));
        proof {
            assert(crate::text::views(refs@) =~= crate::text::views(prev).push(records@[i as int].artifact_ref@));
            assert(crate::text::views(refs@) =~= record_refs(records@).subrange(0, i + 1));
        }
        i = i + 1;
    }
    proof {
        assert(record_refs(records@).subrange(0, records@.len() as int) =~= record_refs(records@));
    }
    refs
}

/// Applies the version skew policy: with skew, every validation is
/// adjusted and gets a skew gap that names the skew reasons and the
/// version records.
pub fn apply_version_skew_policy(
    results: &mut Vec<GovernorValidation>,
    gaps: &mut Vec<RunValidationGap>,
    policy: &VersionSkewPolicyResult,
    version_set: &RunValidationVersionSet,
)
    ensures
        *policy == VersionSkewPolicyResult::NoSkewDetected ==> final(results)@ == old(results)@ && final(gaps)@ == old(gaps)@,
        *policy != VersionSkewPolicyResult::NoSkewDetected ==> {
            &&& final(results)@.len() == old(results)@.len()
            &&& forall|i: int| 0 <= i < old(results)@.len() ==>
                skew_adjusted(old(results)@[i], #[trigger] final(results)@[i], skew_message(*policy))
            &&& final(gaps)@.len() == old(gaps)@.len() + old(results)@.len()
            &&& final(gaps)@.subrange(0, old(gaps)@.len() as int) == old(gaps)@
            &&& forall|i: int| 0 <= i < old(results)@.len() ==> gap_is(#[trigger] final(gaps)@[old(gaps)@.len() + i],
                skew_code(*policy), Some(old(results)@[i].governor@),
                skew_message(*policy) + ": "@ + crate::text::join_seq(crate::text::views(version_set.skew_reasons@), "; "@),
                record_refs(version_set.records@))
        },
{
    let (code, message) = match policy {
        VersionSkewPolicyResult::NoSkewDetected => {
            return;
        },
        VersionSkewPolicyResult::BlockedByVersionSkew => (
            "blocked_by_version_skew",
            "version skew blocks full-set measured claims by default",
        ),
        VersionSkewPolicyResult::OverrideRecordedStillBlocked => (
            "version_skew_override_still_blocked",
            "version skew override was recorded, but full-set measured claims remain blocked",
        ),
    };
    assert(code@ == skew_code(*policy) && message@ == skew_message(*policy));
    let reasons = crate::text::join(&version_set.skew_reasons, "; ");
    let head = crate::text::concat(message, ": ");
    let gap_message = crate::text::concat(head.as_str(), reasons.as_str());
    let mut taken: Vec<GovernorValidation> = Vec::new();
    std::mem::swap(results, &mut taken);
    let ghost orig = taken@;
    let ghost gaps0 = gaps@;
    let n = taken.len();
    let mut k: usize = 0;
    while k < n
        invariant
            n == orig.len(),
            k <= n,
            taken@ == orig.subrange(k as int, n as int),
            results@.len() == k,
            forall|i: int| 0 <= i < k ==> skew_adjusted(orig[i], #[trigger] results@[i], message@),
            gaps@.len() == gaps0.len() + k,
            gaps@.subrange(0, gaps0.len() as int) == gaps0,
            forall|i: int| 0 <= i < k ==> gap_is(#[trigger] gaps@[gaps0.len() + i], code@, Some(orig[i].governor@),
                gap_message@, record_refs(version_set.records@)),
            gap_message@ == message@ + ": "@ + crate::text::join_seq(crate::text::views(version_set.skew_reasons@), "; "@),
        decreases n - k,
    {
        let v = taken.remove(0);
        assert(v == orig[k as int]);
        let gap = RunValidationGap {
            code: crate::text::owned(code),
            governor: Some(crate::text::owned(v.governor.as_str())),
            message: crate::text::owned(gap_message.as_str()),
            evidence_refs: record_ref_list(&version_set.records),
        };
        let ghost g_prev = gaps@;
        gaps.push(gap);
        results.push(skew_adjust(v, message));
        proof {
            assert(taken@ =~= orig.subrange(k + 1, n as int));
            assert(gaps@.subrange(0, gaps0.len() as int) =~= g_prev.subrange(0, gaps0.len() as int));
        }
        k = k + 1;
    }
}

} // verus!

verus! {

/// `vs` lists, sorted and once each, exactly the strings with property `p`.
pub open spec fn sorted_set_of(vs: Seq<Seq<char>>, p: spec_fn(Seq<char>) -> bool) -> bool {
    &&& crate::text::strictly_sorted(vs)
    &&& forall|s: Seq<char>| vs.contains(s) <==> p(s)
}

/// A version other than `unknown` recorded by some record.
pub open spec fn known_version(records: Seq<ToolVersionRecord>, s: Seq<char>) -> bool {
    exists|i: int| 0 <= i < records.len() && (#[trigger] records[i]).version@ == s && s != "unknown"@
}

/// A git revision other than `unknown` recorded by some record.
pub open spec fn known_git_sha(records: Seq<ToolVersionRecord>, s: Seq<char>) -> bool {
    exists|i: int| 0 <= i < records.len() && (#[trigger] records[i]).git_sha@ == s && s != "unknown"@
}

/// The skew reasons of a record set: one for versions and one for git
/// revisions, each when more than one distinct known value was recorded.
pub open spec fn skew_reasons_spec(versions: Seq<Seq<char>>, shas: Seq<Seq<char>>) -> Seq<Seq<char>> {
    (if versions.len() > 1 {
        seq!["version mismatch across workflow tools: "@ + crate::text::join_seq(versions, ", "@)]
    } else {
        Seq::empty()
    }) + (if shas.len() > 1 {
        seq!["git_sha mismatch across workflow tools: "@ + crate::text::join_seq(shas, ", "@)]
    } else {
        Seq::empty()
    })
}

fn known_values(records: &Vec<ToolVersionRecord>, of_sha: bool) -> (vs: Vec<String>)
    ensures
        crate::text::strictly_sorted(crate::text::views(vs@)),
        forall|s: Seq<char>| crate::text::views(vs@).contains(s) <==>
            (if of_sha { known_git_sha(records@, s) } else { known_version(records@, s) }),
{
    let mut all: Vec<String> = Vec::new();
    let mut i: usize = 0;
    while i < records.len()
        invariant
            i <= records@.len(),
            forall|s: Seq<char>| crate::text::views(all@).contains(s) <==>
                (if of_sha { known_git_sha(records@.subrange(0, i as int), s) } else { known_version(records@.subrange(0, i as int), s) }),
        decreases records.len() - i,
    {
        let value = if of_sha { records[i].git_sha.as_str() } else { records[i].version.as_str() };
        let ghost prev = crate::text::views(all@);
        let ghost before = records@.subrange(0, i as int);
        let ghost after = records@.subrange(0, i + 1);
        if !str_eq(value, "unknown") {
            all.push(crate::text::owned(value));
        }
        proof {
            assert forall|s: Seq<char>| crate::text::views(all@).contains(s) <==>
                (if of_sha { known_git_sha(after, s) } else { known_version(after, s) }) by {
                assert(after[i as int] == records@[i as int]);
                assert(prev.contains(s) <==> (if of_sha { known_git_sha(before, s) } else { known_version(before, s) }));
                if crate::text::views(all@).contains(s) {
                    let w = choose|w: int| 0 <= w < crate::text::views(all@).len() && crate::text::views(all@)[w] == s;
                    if w < prev.len() {
                        assert(prev[w] == s);
                        assert(prev.contains(s));
                        if of_sha {
                            let q = choose|q: int| 0 <= q < before.len() && (#[trigger] before[q]).git_sha@ == s && s != "unknown"@;
                            assert(after[q] == before[q]);
                        } else {
                            let q = choose|q: int| 0 <= q < before.len() && (#[trigger] before[q]).version@ == s && s != "unknown"@;
                            assert(after[q] == before[q]);
                        }
                    }
                }
                if of_sha && known_git_sha(after, s) {
                    let q = choose|q: int| 0 <= q < after.len() && (#[trigger] after[q]).git_sha@ == s && s != "unknown"@;
                    if q < i {
                        assert(before[q] == after[q]);
                        assert(known_git_sha(before, s));
                        let w = choose|w: int| 0 <= w < prev.len() && prev[w] == s;
                        assert(crate::text::views(all@)[w] == s);
                    } else {
                        assert(crate::text::views(all@)[prev.len() as int] == s);
                    }
                }
                if !of_sha && known_version(after, s) {
                    let q = choose|q: int| 0 <= q < after.len() && (#[trigger] after[q]).version@ == s && s != "unknown"@;
                    if q < i {
                        assert(before[q] == after[q]);
                        assert(known_version(before, s));
                        let w = choose|w: int| 0 <= w < prev.len() && prev[w] == s;
                        assert(crate::text::views(all@)[w] == s);
                    } else {
                        assert(crate::text::views(all@)[prev.len() as int] == s);
                    }
                }
            }
        }
        i = i + 1;
    }
    proof {
        assert(records@.subrange(0, records@.len() as int) =~= records@);
    }
    crate::text::sorted_unique(all)
}

/// The version set of the workflow tools that recorded their builds:
/// skew is detected when more than one distinct known version or git
/// revision was recorded.
pub fn version_set_from_records(records: Vec<ToolVersionRecord>) -> (set: RunValidationVersionSet)
    ensures
        set.records@ == records@,
        exists|versions: Seq<Seq<char>>, shas: Seq<Seq<char>>|
            sorted_set_of(versions, |s: Seq<char>| known_version(records@, s))
            && sorted_set_of(shas, |s: Seq<char>| known_git_sha(records@, s))
            && crate::text::views(set.skew_reasons@) == #[trigger] skew_reasons_spec(versions, shas),
        set.skew_detected == (set.skew_reasons@.len() > 0),
{
    let versions = known_values(&records, false);
    let shas = known_values(&records, true);
    let mut reasons: Vec<String> = Vec::new();
    if versions.len() > 1 {
        let listed = crate::text::join(&versions, ", ");
        reasons.push(crate::text::concat("version mismatch across workflow tools: ", listed.as_str()));
    }
    let ghost mid = crate::text::views(reasons@);
    if shas.len() > 1 {
        let listed = crate::text::join(&shas, ", ");
        reasons.push(crate::text::concat("git_sha mismatch across workflow tools: ", listed.as_str()));
    }
    proof {
        let vs = crate::text::views(versions@);
        let hs = crate::text::views(shas@);
        assert(crate::text::views(reasons@) =~= skew_reasons_spec(vs, hs));
        assert(sorted_set_of(vs, |s: Seq<char>| known_version(records@, s)));
        assert(sorted_set_of(hs, |s: Seq<char>| known_git_sha(records@, s)));
    }
    let detected = reasons.len() > 0;
    RunValidationVersionSet { records, skew_detected: detected, skew_reasons: reasons }
}

} // verus!

verus! {

/// The label of a run in its run set: identifier, colon, directory.
pub open spec fn run_label(run: crate::run::RunContext) -> Seq<char> {
    run.run_id@ + ":"@ + run.run_dir@
}

/// `s` labels one of the runs.
pub open spec fn labels_a_run(runs: Seq<crate::run::RunContext>, s: Seq<char>) -> bool {
    exists|i: int| 0 <= i < runs.len() && run_label(#[trigger] runs[i]) == s
}

/// The first `n` characters of `s`, or all of them.
pub open spec fn take_at_most(s: Seq<char>, n: int) -> Seq<char> {
    s.subrange(0, if n < s.len() { n } else { s.len() as int })
}

/// The run-set identifier of the sorted, distinct run labels: `RUN-SET-`
/// and the hex SHA-256 of the labels joined by newlines, cut to 24
/// characters.
pub open spec fn run_set_id_spec(labels: Seq<Seq<char>>) -> Seq<char> {
    take_at_most("RUN-SET-"@ + crate::digest::hex_lower(crate::digest::sha256_of(
        vstd::utf8::encode_utf8(crate::text::join_seq(labels, "\n"@)))), 24)
}

/// The identifier of a set of runs, independent of their order and of
/// repetitions.
pub fn run_set_id(runs: &Vec<crate::run::RunContext>) -> (id: String)
    ensures
        exists|labels: Seq<Seq<char>>| sorted_set_of(labels, |s: Seq<char>| labels_a_run(runs@, s))
            && id@ == #[trigger] run_set_id_spec(labels),
{
    let mut values: Vec<String> = Vec::new();
    let mut i: usize = 0;
    while i < runs.len()
        invariant
            i <= runs@.len(),
            crate::text::views(values@) == runs@.subrange(0, i as int).map_values(|r: crate::run::RunContext| run_label(r)),
        decreases runs.len() - i,
    {
        let head = crate::text::concat(runs[i].run_id.as_str(), ":");
        let label = crate::text::concat(head.as_str(), runs[i].run_dir.as_str());
        let ghost prev = values@;
        let ghost lv = label@;
        assert(lv == run_label(runs@[i as int]));
        values.push(label);
        proof {
            assert(crate::text::views(values@) =~= crate::text::views(prev).push(lv));
            assert(crate::text::views(values@) =~= runs@.subrange(0, i + 1).map_values(|r: crate::run::RunContext| run_label(r)));
        }
        i = i + 1;
    }
    let ghost all_labels = crate::text::views(values@);
    proof {
        assert(runs@.subrange(0, runs@.len() as int) =~= runs@);
    }
    let sorted = crate::text::sorted_unique(values);
    let joined = crate::text::join(&sorted, "\n");
    let hex = crate::digest::sha256_hex_of_str(joined.as_str());
    let full = crate::text::concat("RUN-SET-", hex.as_str());
    let id = crate::text::take_chars(full.as_str(), 24);
    proof {
        let labels = crate::text::views(sorted@);
        assert forall|s: Seq<char>| labels.contains(s) <==> labels_a_run(runs@, s) by {
            if labels.contains(s) {
                assert(all_labels.contains(s));
                let k = choose|k: int| 0 <= k < all_labels.len() && all_labels[k] == s;
                assert(run_label(runs@[k]) == s);
            }
            if labels_a_run(runs@, s) {
                let k = choose|k: int| 0 <= k < runs@.len() && run_label(#[trigger] runs@[k]) == s;
                assert(all_labels[k] == s);
                assert(all_labels.contains(s));
            }
        }
        assert(sorted_set_of(labels, |s: Seq<char>| labels_a_run(runs@, s)));
        assert(id@ == run_set_id_spec(labels));
    }
    id
}

/// The target of the validated evidence: that of the first plan, else of
/// the first control result, else of the first load.
pub open spec fn index_target_spec(index: ValidationIndex) -> Seq<char> {
    if index.plans@.len() > 0 {
        index.plans@[0].value.target_id@
    } else if index.results@.len() > 0 {
        index.results@[0].value.target_id@
    } else if index.loads@.len() > 0 {
        index.loads@[0].value.target_id@
    } else {
        "unknown-target"@
    }
}

/// The target of the validated evidence.
pub fn target_id_from_index(index: &ValidationIndex) -> (id: String)
    ensures
        id@ == index_target_spec(*index),
{
    if index.plans.len() > 0 {
        crate::text::owned(index.plans[0].value.target_id.as_str())
    } else if index.results.len() > 0 {
        crate::text::owned(index.results[0].value.target_id.as_str())
    } else if index.loads.len() > 0 {
        crate::text::owned(index.loads[0].value.target_id.as_str())
    } else {
        crate::text::owned("unknown-target")
    }
}

impl ValidationIndex {
    /// An index with no evidence.
    pub fn empty() -> (index: Self)
        ensures
            index.plans@.len() == 0,
            index.approvals@.len() == 0,
            index.results@.len() == 0,
            index.loads@.len() == 0,
            index.health_check_ref is None,
            !index.health_check_ok,
            index.audit_refs@.len() == 0,
    {
        ValidationIndex {
            plans: Vec::new(),
            approvals: Vec::new(),
            results: Vec::new(),
            loads: Vec::new(),
            health_check_ref: None,
            health_check_ok: false,
            audit_refs: Vec::new(),
        }
    }

    /// Records a post-restore health check: a healthy check replaces any
    /// earlier one, an unhealthy one is kept only when none was recorded.
    pub fn record_health_check(&mut self, health_ref: String, healthy: bool)
        ensures
            (healthy || old(self).health_check_ref is None) ==> (opt_view(final(self).health_check_ref) == Some(health_ref@)
                && final(self).health_check_ok == healthy),
            !(healthy || old(self).health_check_ref is None) ==> (final(self).health_check_ref == old(self).health_check_ref
                && final(self).health_check_ok == old(self).health_check_ok),
            final(self).plans == old(self).plans,
            final(self).approvals == old(self).approvals,
            final(self).results == old(self).results,
            final(self).loads == old(self).loads,
            final(self).audit_refs == old(self).audit_refs,
    {
        if healthy || self.health_check_ref.is_none() {
            self.health_check_ref = Some(health_ref);
            self.health_check_ok = healthy;
        }
    }
}

} // verus!

verus! {

/// What a full-set validation is asked to check.
#[derive(Debug, Clone)]
pub struct RunValidationInput {
    pub subject_run: crate::run::RunContext,
    pub include_runs: Vec<crate::run::RunContext>,
    pub requested_governors: Vec<String>,
    pub workflow_recommendation_ref: Option<String>,
    pub collect_plan_ref: Option<String>,
    pub collect_plan_digest: Option<String>,
    pub target_id: Option<String>,
    pub target_class: Option<String>,
    pub allow_version_skew: bool,
}

/// The gaps of a list of validations, in order: one for each validation
/// that is not measured.
pub open spec fn result_gaps(results: Seq<GovernorValidation>, gaps: Seq<RunValidationGap>) -> bool
    decreases results.len(),
{
    if results.len() == 0 {
        gaps.len() == 0
    } else {
        let k: int = if results.last().validity == GovernorValidity::Measured { 0 } else { 1 };
        &&& gaps.len() >= k
        &&& result_gaps(results.drop_last(), gaps.subrange(0, gaps.len() - k))
        &&& gaps_spec(results.last(), gaps.subrange(gaps.len() - k, gaps.len() as int))
    }
}

/// A validation's evidence reference.
pub open spec fn is_validation_ref(results: Seq<GovernorValidation>, s: Seq<char>) -> bool {
    exists|i: int| 0 <= i < results.len() && evidence_refs_spec(#[trigger] results[i]).contains(s)
}

/// The target a validation reports: the requested one unless it is the
/// placeholder `unknown-target`, else the target of the evidence.
pub open spec fn validation_target(requested: Option<String>, index: ValidationIndex) -> Seq<char> {
    match requested {
        Some(t) => if t@ != "unknown-target"@ { t@ } else { index_target_spec(index) },
        None => index_target_spec(index),
    }
}

/// The governor validations after the version skew policy.
pub open spec fn skew_applied(pre: Seq<GovernorValidation>, post: Seq<GovernorValidation>, policy: VersionSkewPolicyResult) -> bool {
    if policy == VersionSkewPolicyResult::NoSkewDetected {
        post == pre
    } else {
        &&& post.len() == pre.len()
        &&& forall|i: int| 0 <= i < pre.len() ==> skew_adjusted(pre[i], #[trigger] post[i], skew_message(policy))
    }
}

/// The gaps after the version skew policy.
pub open spec fn skew_gaps_applied(
    pre: Seq<GovernorValidation>,
    pre_gaps: Seq<RunValidationGap>,
    post_gaps: Seq<RunValidationGap>,
    policy: VersionSkewPolicyResult,
    version_set: RunValidationVersionSet,
) -> bool {
    if policy == VersionSkewPolicyResult::NoSkewDetected {
        post_gaps == pre_gaps
    } else {
        &&& post_gaps.len() == pre_gaps.len() + pre.len()
        &&& post_gaps.subrange(0, pre_gaps.len() as int) == pre_gaps
        &&& forall|i: int| 0 <= i < pre.len() ==> gap_is(#[trigger] post_gaps[pre_gaps.len() + i],
            skew_code(policy), Some(pre[i].governor@),
            skew_message(policy) + ": "@ + crate::text::join_seq(crate::text::views(version_set.skew_reasons@), "; "@),
            record_refs(version_set.records@))
    }
}

fn validate_requested(index: &ValidationIndex, requested: &Vec<String>) -> (out: (Vec<GovernorValidation>, Vec<RunValidationGap>))
    ensures
        out.0@.len() == requested@.len(),
        forall|i: int| 0 <= i < requested@.len() ==> governor_validation_spec(*index, requested@[i]@, #[trigger] out.0@[i]),
        result_gaps(out.0@, out.1@),
{
    let mut results: Vec<GovernorValidation> = Vec::new();
    let mut gaps: Vec<RunValidationGap> = Vec::new();
    let mut i: usize = 0;
    while i < requested.len()
        invariant
            i <= requested@.len(),
            results@.len() == i,
            forall|q: int| 0 <= q < i ==> governor_validation_spec(*index, requested@[q]@, #[trigger] results@[q]),
            result_gaps(results@, gaps@),
        decreases requested.len() - i,
    {
        let result = validate_governor(index, requested[i].as_str());
        let added = gaps_for_result(&result);
        let ghost g0 = gaps@;
        let ghost r0 = results@;
        let ghost a = added@;
        let mut added = added;
        gaps.append(&mut added);
        results.push(result);
        proof {
            assert(results@.drop_last() =~= r0);
            let k: int = if results@.last().validity == GovernorValidity::Measured { 0 } else { 1 };
            assert(a.len() == k);
            assert(gaps@.subrange(0, gaps@.len() - k) =~= g0);
            assert(gaps@.subrange(gaps@.len() - k, gaps@.len() as int) =~= a);
        }
        i = i + 1;
    }
    (results, gaps)
}

fn validation_refs(results: &Vec<GovernorValidation>) -> (refs: Vec<String>)
    ensures
        crate::text::strictly_sorted(crate::text::views(refs@)),
        forall|s: Seq<char>| crate::text::views(refs@).contains(s) <==> is_validation_ref(results@, s),
{
    let mut all: Vec<String> = Vec::new();
    let mut i: usize = 0;
    while i < results.len()
        invariant
            i <= results@.len(),
            forall|s: Seq<char>| crate::text::views(all@).contains(s) <==> is_validation_ref(results@.subrange(0, i as int), s),
        decreases results.len() - i,
    {
        let refs = governor_evidence_refs(&results[i]);
        let ghost prev = crate::text::views(all@);
        let ghost before = results@.subrange(0, i as int);
        let ghost after = results@.subrange(0, i + 1);
        crate::text::extend_all(&mut all, &refs);
        proof {
            let extra = evidence_refs_spec(results@[i as int]);
            assert forall|s: Seq<char>| crate::text::views(all@).contains(s) <==> is_validation_ref(after, s) by {
                assert(prev.contains(s) <==> is_validation_ref(before, s));
                assert(after[i as int] == results@[i as int]);
                if crate::text::views(all@).contains(s) {
                    let w = choose|w: int| 0 <= w < crate::text::views(all@).len() && crate::text::views(all@)[w] == s;
                    if w < prev.len() {
                        assert(prev[w] == s);
                        assert(prev.contains(s));
                        let q = choose|q: int| 0 <= q < before.len() && evidence_refs_spec(#[trigger] before[q]).contains(s);
                        assert(after[q] == before[q]);
                    } else {
                        assert(extra[w - prev.len()] == s);
                        assert(extra.contains(s));
                    }
                }
                if is_validation_ref(after, s) {
                    let q = choose|q: int| 0 <= q < after.len() && evidence_refs_spec(#[trigger] after[q]).contains(s);
                    if q < i {
                        assert(before[q] == after[q]);
                        assert(is_validation_ref(before, s));
                        let w = choose|w: int| 0 <= w < prev.len() && prev[w] == s;
                        assert(crate::text::views(all@)[w] == s);
                    } else {
                        let w = choose|w: int| 0 <= w < extra.len() && extra[w] == s;
                        assert(crate::text::views(all@)[prev.len() + w] == s);
                    }
                }
            }
        }
        i = i + 1;
    }
    proof {
        assert(results@.subrange(0, results@.len() as int) =~= results@);
    }
    crate::text::sorted_unique(all)
}

} // verus!

verus! {

/// The runs a validation covers: the subject run, then the included ones.
pub open spec fn validated_runs(input: RunValidationInput) -> Seq<crate::run::RunContext> {
    seq![input.subject_run] + input.include_runs@
}

fn copy_run(run: &crate::run::RunContext) -> (r: crate::run::RunContext)
    ensures
        r.run_id@ == run.run_id@,
        r.run_dir@ == run.run_dir@,
{
    crate::run::RunContext { run_id: crate::text::owned(run.run_id.as_str()), run_dir: crate::text::owned(run.run_dir.as_str()) }
}

/// Validates the full set of requested governors over the evidence of a
/// run set.  The caller has read the runs into `index`, collected the
/// version records of their tools and the references of the runs.
pub fn validate_fullset_run_set(
    input: RunValidationInput,
    index: &ValidationIndex,
    version_records: Vec<ToolVersionRecord>,
    included_run_refs: Vec<String>,
) -> (a: crate::evidence::envelope::Artifact<RunValidationPayload>)
    ensures
        ({
            let p = a.payload;
            &&& a.schema@ == crate::evidence::envelope::ARTIFACT_SCHEMA_V2@
            &&& a.kind == crate::evidence::envelope::Kind::ReportRunValidation
            &&& exists|n: nat| a.id@ == "RUN-VALIDATION"@ + seq!['-'] + crate::text::decimal(n)
            &&& a.run_id@ == input.subject_run.run_id@
            &&& a.target_id@ == validation_target(input.target_id, *index)
            &&& status_for_validity(p.overall_validity, a.status)
            &&& p.profile@ == FULLSET_PROFILE@
            &&& p.validation_profile@ == FULLSET_PROFILE@
            &&& sorted_set_of(crate::text::views(p.requested_governors@),
                |g: Seq<char>| is_governor_token(crate::text::views(input.requested_governors@), g))
            &&& crate::text::views(p.expected_governors@) == crate::text::views(p.requested_governors@)
            &&& opt_view(p.workflow_recommendation_ref) == opt_view(input.workflow_recommendation_ref)
            &&& opt_view(p.collect_plan_ref) == opt_view(input.collect_plan_ref)
            &&& opt_view(p.collect_plan_digest) == opt_view(input.collect_plan_digest)
            &&& exists|labels: Seq<Seq<char>>| sorted_set_of(labels, |s: Seq<char>| labels_a_run(validated_runs(input), s))
                && p.subject_run_set_id@ == #[trigger] run_set_id_spec(labels)
            &&& p.included_run_refs@ == included_run_refs@
            &&& p.target_id@ == validation_target(input.target_id, *index)
            &&& p.target_class@ == (match input.target_class { Some(c) => c@, None => "unknown-target-class"@ })
            &&& p.version_set.records@ == version_records@
            &&& p.version_set.skew_detected == (p.version_set.skew_reasons@.len() > 0)
            &&& exists|versions: Seq<Seq<char>>, shas: Seq<Seq<char>>|
                sorted_set_of(versions, |s: Seq<char>| known_version(version_records@, s))
                && sorted_set_of(shas, |s: Seq<char>| known_git_sha(version_records@, s))
                && crate::text::views(p.version_set.skew_reasons@) == #[trigger] skew_reasons_spec(versions, shas)
            &&& p.version_skew_policy == version_skew_policy_spec(p.version_set.skew_detected, input.allow_version_skew)
            &&& p.version_skew_override == input.allow_version_skew
            &&& exists|pre: Seq<GovernorValidation>, pre_gaps: Seq<RunValidationGap>| {
                &&& pre.len() == p.requested_governors@.len()
                &&& forall|i: int| 0 <= i < pre.len() ==> governor_validation_spec(*index, p.requested_governors@[i]@, #[trigger] pre[i])
                &&& result_gaps(pre, pre_gaps)
                &&& skew_applied(pre, p.governor_results@, p.version_skew_policy)
                &&& skew_gaps_applied(pre, pre_gaps, p.gaps@, p.version_skew_policy, p.version_set)
            }
            &&& p.overall_validity == overall_validity_spec(p.governor_results@)
            &&& crate::text::views(p.audit_refs@) == crate::text::views(index.audit_refs@)
            &&& crate::text::strictly_sorted(crate::text::views(a.evidence_refs@))
            &&& forall|s: Seq<char>| crate::text::views(a.evidence_refs@).contains(s) <==> is_validation_ref(p.governor_results@, s)
            &&& a.data_quality.level == (if a.status is Measured { crate::evidence::envelope::DataQualityLevel::Complete }
                else { crate::evidence::envelope::DataQualityLevel::Degraded })
            &&& crate::text::views(a.data_quality.notes@) == seq!["target operating contract full-set validation"@]
            &&& a.claims@.len() == 0
            &&& a.metrics@.len() == 0
            &&& a.bounds is None
        }),
{
    let mut runs: Vec<crate::run::RunContext> = Vec::new();
    runs.push(copy_run(&input.subject_run));
    let mut k: usize = 0;
    while k < input.include_runs.len()
        invariant
            k <= input.include_runs@.len(),
            runs@.len() == k + 1,
            runs@[0].run_id@ == input.subject_run.run_id@ && runs@[0].run_dir@ == input.subject_run.run_dir@,
            forall|q: int| 0 <= q < k ==> (#[trigger] runs@[q + 1]).run_id@ == input.include_runs@[q].run_id@
                && runs@[q + 1].run_dir@ == input.include_runs@[q].run_dir@,
        decreases input.include_runs.len() - k,
    {
        runs.push(copy_run(&input.include_runs[k]));
        k = k + 1;
    }
    let requested = normalize_governors(input.requested_governors);
    let (mut governor_results, mut gaps) = validate_requested(index, &requested);
    let ghost pre = governor_results@;
    let ghost pre_gaps = gaps@;
    let version_set = version_set_from_records(version_records);
    let policy = version_skew_policy(&version_set, input.allow_version_skew);
    apply_version_skew_policy(&mut governor_results, &mut gaps, &policy, &version_set);
    let overall = overall_validity(&governor_results);
    let target_id = match &input.target_id {
        Some(t) => if !str_eq(t.as_str(), "unknown-target") { crate::text::owned(t.as_str()) } else { target_id_from_index(index) },
        None => target_id_from_index(index),
    };
    let target_class = match &input.target_class {
        Some(c) => crate::text::owned(c.as_str()),
        None => crate::text::owned("unknown-target-class"),
    };
    let subject_run_set_id = run_set_id(&runs);
    proof {
        assert forall|s: Seq<char>| labels_a_run(runs@, s) <==> labels_a_run(validated_runs(input), s) by {
            let vr = validated_runs(input);
            if labels_a_run(runs@, s) {
                let q = choose|q: int| 0 <= q < runs@.len() && run_label(#[trigger] runs@[q]) == s;
                if q == 0 {
                    assert(run_label(vr[0]) == s);
                } else {
                    assert(runs@[(q - 1) + 1].run_id@ == input.include_runs@[q - 1].run_id@);
                    assert(run_label(vr[q]) == s);
                }
            }
            if labels_a_run(vr, s) {
                let q = choose|q: int| 0 <= q < vr.len() && run_label(#[trigger] vr[q]) == s;
                if q == 0 {
                    assert(run_label(runs@[0]) == s);
                } else {
                    assert(runs@[(q - 1) + 1].run_id@ == input.include_runs@[q - 1].run_id@);
                    assert(run_label(runs@[q]) == s);
                }
            }
        }
        let labels = choose|labels: Seq<Seq<char>>| sorted_set_of(labels, |s: Seq<char>| labels_a_run(runs@, s))
            && subject_run_set_id@ == #[trigger] run_set_id_spec(labels);
        assert(sorted_set_of(labels, |s: Seq<char>| labels_a_run(validated_runs(input), s)));
    }
    let audit_refs = crate::text::copy_all(&index.audit_refs);
    let status = envelope_status(&overall);
    let evidence_refs = validation_refs(&governor_results);
    let complete = match status {
        crate::evidence::envelope::Status::Measured => true,
        _ => false,
    };
    let expected = crate::text::copy_all(&requested);
    let payload = RunValidationPayload {
        profile: crate::text::owned(FULLSET_PROFILE),
        requested_governors: requested,
        workflow_recommendation_ref: copy_opt(&input.workflow_recommendation_ref),
        collect_plan_ref: copy_opt(&input.collect_plan_ref),
        collect_plan_digest: copy_opt(&input.collect_plan_digest),
        subject_run_set_id,
        included_run_refs,
        validation_profile: crate::text::owned(FULLSET_PROFILE),
        expected_governors: expected,
        target_id: crate::text::owned(target_id.as_str()),
        target_class,
        version_set,
        version_skew_policy: policy,
        version_skew_override: input.allow_version_skew,
        governor_results,
        overall_validity: overall,
        gaps,
        audit_refs,
    };
    let mut artifact = crate::evidence::envelope::fresh_artifact(
        crate::evidence::envelope::Kind::ReportRunValidation,
        "RUN-VALIDATION",
        crate::text::owned(input.subject_run.run_id.as_str()),
        target_id,
        status,
        payload,
    );
    artifact.evidence_refs = evidence_refs;
    artifact.data_quality = crate::evidence::envelope::DataQuality {
        level: if complete { crate::evidence::envelope::DataQualityLevel::Complete } else { crate::evidence::envelope::DataQualityLevel::Degraded },
        notes: crate::text::single("target operating contract full-set validation"),
    };
    artifact
}

} // verus!

verus! {

/// The run-set identifier depends only on which runs are in the set: two
/// lists of runs with the same labels, in any order and with any
/// repetitions, get the same identifier.
pub proof fn law_run_set_id_ignores_order(
    runs_a: Seq<crate::run::RunContext>,
    runs_b: Seq<crate::run::RunContext>,
    labels_a: Seq<Seq<char>>,
    labels_b: Seq<Seq<char>>,
)
    requires
        forall|s: Seq<char>| labels_a_run(runs_a, s) <==> labels_a_run(runs_b, s),
        sorted_set_of(labels_a, |s: Seq<char>| labels_a_run(runs_a, s)),
        sorted_set_of(labels_b, |s: Seq<char>| labels_a_run(runs_b, s)),
    ensures
        run_set_id_spec(labels_a) == run_set_id_spec(labels_b),
{
    crate::text::lemma_sorted_set_determined(labels_a, labels_b);
}

/// Version skew leaves no governor measured: whatever a validation was,
/// after the skew adjustment it is not measured.
pub proof fn law_skew_blocks_measured(before: GovernorValidation, after: GovernorValidation, message: Seq<char>)
    requires
        skew_adjusted(before, after, message),
    ensures
        after.validity != GovernorValidity::Measured,
{
}

/// The whole set is measured exactly when at least one governor was
/// requested and every one of them is measured.
pub proof fn law_overall_measured_iff_all_measured(results: Seq<GovernorValidation>)
    ensures
        (overall_validity_spec(results) == GovernorValidity::Measured) <==> (results.len() > 0
            && forall|i: int| 0 <= i < results.len() ==> (#[trigger] results[i]).validity == GovernorValidity::Measured),
{
}

} // verus!

verus! {

/// The run-set identifier a validation written before run sets existed is
/// read with.
pub fn legacy_run_set_id() -> (s: String)
    ensures
        s@ == LEGACY_RUN_VALIDATION_MISSING_RUN_SET_ID@,
{
    crate::text::owned(LEGACY_RUN_VALIDATION_MISSING_RUN_SET_ID)
}

/// The validation profile a validation without one is read with.
pub fn default_validation_profile() -> (s: String)
    ensures
        s@ == FULLSET_PROFILE@,
{
    crate::text::owned(FULLSET_PROFILE)
}

/// The target a validation without one is read with.
pub fn unknown_target_id() -> (s: String)
    ensures
        s@ == "unknown-target"@,
{
    crate::text::owned("unknown-target")
}

/// The target class a validation without one is read with.
pub fn unknown_target_class() -> (s: String)
    ensures
        s@ == "unknown-target-class"@,
{
    crate::text::owned("unknown-target-class")
}

} // verus!

verus! {

/// The version record of a build identity file.
pub fn build_info_record(info: crate::contracts::BuildInfo, role: ToolVersionRole, artifact_ref: String) -> (r: ToolVersionRecord)
    ensures
        r.role == role,
        r.tool_name == info.name,
        r.version == info.version,
        r.git_sha == info.git_sha,
        r.target_triple == info.target_triple,
        r.build_profile == info.build_profile,
        r.artifact_ref == artifact_ref,
{
    ToolVersionRecord {
        role,
        tool_name: info.name,
        version: info.version,
        git_sha: info.git_sha,
        target_triple: info.target_triple,
        build_profile: info.build_profile,
        artifact_ref,
    }
}

/// The version record of a release manifest.
pub fn release_manifest_record(manifest: crate::contracts::ReleaseManifest, artifact_ref: String) -> (r: ToolVersionRecord)
    ensures
        r.role == ToolVersionRole::ReleaseManifest,
        r.tool_name@ == "release-manifest"@,
        r.version == manifest.version,
        r.git_sha == manifest.git_sha,
        r.target_triple == manifest.target_triple,
        r.build_profile@ == "release"@,
        r.artifact_ref == artifact_ref,
{
    ToolVersionRecord {
        role: ToolVersionRole::ReleaseManifest,
        tool_name: crate::text::owned("release-manifest"),
        version: manifest.version,
        git_sha: manifest.git_sha,
        target_triple: manifest.target_triple,
        build_profile: crate::text::owned("release"),
        artifact_ref,
    }
}

/// The version record of the privileged helper a doctor report names;
/// none when the report records no helper version.
pub fn privilege_helper_record(report: crate::contracts::PrivilegeDoctorReport, artifact_ref: String)
    -> (r: Option<ToolVersionRecord>)
    ensures
        match report.helper_version {
            None => r is None,
            Some(v) => r matches Some(rec) && rec.role == ToolVersionRole::PrivilegedHelper
                && rec.tool_name@ == "adc-lab-priv-helper"@ && rec.version == v && rec.git_sha@ == "unknown"@
                && rec.target_triple@ == "unknown"@ && rec.build_profile@ == "unknown"@ && rec.artifact_ref == artifact_ref,
        },
{
    match report.helper_version {
        None => None,
        Some(version) => Some(ToolVersionRecord {
            role: ToolVersionRole::PrivilegedHelper,
            tool_name: crate::text::owned("adc-lab-priv-helper"),
            version,
            git_sha: crate::text::owned("unknown"),
            target_triple: crate::text::owned("unknown"),
            build_profile: crate::text::owned("unknown"),
            artifact_ref,
        }),
    }
}

/// The tool identity files one run of a run set holds, each with its
/// reference: the controller's and the target runner's build identities,
/// the release manifest and the privilege doctor report.
pub struct RunToolFiles {
    pub controller: Option<(crate::contracts::BuildInfo, String)>,
    pub target_runner: Option<(crate::contracts::BuildInfo, String)>,
    pub release_manifest: Option<(crate::contracts::ReleaseManifest, String)>,
    pub privilege_doctor: Option<(crate::contracts::PrivilegeDoctorReport, String)>,
}

/// The roles of the version records of one run: the first run's
/// controller identity is the controller's, a later run's is a
/// target-local controller's.
pub open spec fn run_record_roles(first: bool, f: RunToolFiles) -> Seq<ToolVersionRole> {
    (if f.controller is Some { seq![if first { ToolVersionRole::ControllerAdcLab } else { ToolVersionRole::TargetLocalAdcLab }] } else { Seq::empty() })
    + (if f.target_runner is Some { seq![ToolVersionRole::TargetRunner] } else { Seq::empty() })
    + (if f.release_manifest is Some { seq![ToolVersionRole::ReleaseManifest] } else { Seq::empty() })
    + (if f.privilege_doctor matches Some((r, _)) && r.helper_version is Some { seq![ToolVersionRole::PrivilegedHelper] } else { Seq::empty() })
}

/// The roles of the version records of runs, in order.
pub open spec fn runs_record_roles(files: Seq<RunToolFiles>) -> Seq<ToolVersionRole>
    decreases files.len(),
{
    if files.len() == 0 { Seq::empty() } else { runs_record_roles(files.drop_last()) + run_record_roles(files.len() == 1, files.last()) }
}

/// The roles of version records.
pub open spec fn record_roles(v: Seq<ToolVersionRecord>) -> Seq<ToolVersionRole> {
    v.map_values(|r: ToolVersionRecord| r.role)
}

/// The version set of a run set: a record for each identity file each run
/// holds (in run order, and within a run the controller's, the target
/// runner's, the release manifest's and the privileged helper's), with the
/// version skew found among them.
pub fn version_set_for_runs(files: &Vec<RunToolFiles>) -> (set: RunValidationVersionSet)
    ensures
        record_roles(set.records@) == runs_record_roles(files@),
{
    let mut records: Vec<ToolVersionRecord> = Vec::new();
    let mut i: usize = 0;
    while i < files.len()
        invariant
            i <= files@.len(),
            record_roles(records@) == runs_record_roles(files@.take(i as int)),
        decreases files.len() - i,
    {
        proof {
            assert(files@.take(i + 1).drop_last() =~= files@.take(i as int));
            assert(files@.take(i + 1).last() == files@[i as int]);
        }
        let mine = run_records(&files[i], i == 0);
        let ghost start = record_roles(records@);
        let mut k: usize = 0;
        while k < mine.len()
            invariant
                k <= mine@.len(),
                record_roles(records@) == start + record_roles(mine@).take(k as int),
            decreases mine.len() - k,
        {
            let ghost prev = records@;
            records.push(mine[k].clone_record());
            proof {
                assert(records@ == prev.push(records@.last()));
                assert(record_roles(records@) =~= record_roles(prev).push(mine@[k as int].role));
                assert(record_roles(mine@).take(k + 1) =~= record_roles(mine@).take(k as int).push(mine@[k as int].role));
            }
            k = k + 1;
        }
        proof {
            assert(record_roles(mine@).take(mine@.len() as int) =~= record_roles(mine@));
        }
        i = i + 1;
    }
    proof {
        assert(files@.take(files@.len() as int) =~= files@);
    }
    version_set_from_records(records)
}

fn copy_build_info(b: &crate::contracts::BuildInfo) -> (c: crate::contracts::BuildInfo)
    ensures
        c.name@ == b.name@ && c.version@ == b.version@ && c.git_sha@ == b.git_sha@
            && c.target_triple@ == b.target_triple@ && c.build_profile@ == b.build_profile@,
{
    crate::contracts::BuildInfo {
        name: crate::text::owned(b.name.as_str()),
        version: crate::text::owned(b.version.as_str()),
        git_sha: crate::text::owned(b.git_sha.as_str()),
        target_triple: crate::text::owned(b.target_triple.as_str()),
        build_profile: crate::text::owned(b.build_profile.as_str()),
    }
}

fn run_records(f: &RunToolFiles, first: bool) -> (mine: Vec<ToolVersionRecord>)
    ensures
        record_roles(mine@) == run_record_roles(first, *f),
{
    let mut mine: Vec<ToolVersionRecord> = Vec::new();
    match &f.controller {
        Some((info, r)) => {
            let role = if first { ToolVersionRole::ControllerAdcLab } else { ToolVersionRole::TargetLocalAdcLab };
            mine.push(build_info_record(copy_build_info(info), role, crate::text::owned(r.as_str())));
        },
        None => {},
    }
    match &f.target_runner {
        Some((info, r)) => mine.push(build_info_record(copy_build_info(info), ToolVersionRole::TargetRunner,
            crate::text::owned(r.as_str()))),
        None => {},
    }
    match &f.release_manifest {
        Some((m, r)) => mine.push(ToolVersionRecord {
            role: ToolVersionRole::ReleaseManifest,
            tool_name: crate::text::owned("release-manifest"),
            version: crate::text::owned(m.version.as_str()),
            git_sha: crate::text::owned(m.git_sha.as_str()),
            target_triple: crate::text::owned(m.target_triple.as_str()),
            build_profile: crate::text::owned("release"),
            artifact_ref: crate::text::owned(r.as_str()),
        }),
        None => {},
    }
    match &f.privilege_doctor {
        Some((report, r)) => match &report.helper_version {
            Some(v) => mine.push(ToolVersionRecord {
                role: ToolVersionRole::PrivilegedHelper,
                tool_name: crate::text::owned("adc-lab-priv-helper"),
                version: crate::text::owned(v.as_str()),
                git_sha: crate::text::owned("unknown"),
                target_triple: crate::text::owned("unknown"),
                build_profile: crate::text::owned("unknown"),
                artifact_ref: crate::text::owned(r.as_str()),
            }),
            None => {},
        },
        None => {},
    }
    proof {
        assert(record_roles(mine@) =~= run_record_roles(first, *f));
    }
    mine
}

impl ToolVersionRecord {
    /// A copy of the record.
    pub fn clone_record(&self) -> (r: ToolVersionRecord)
        ensures
            r.role == self.role,
            r.tool_name@ == self.tool_name@,
            r.version@ == self.version@,
            r.git_sha@ == self.git_sha@,
            r.target_triple@ == self.target_triple@,
            r.build_profile@ == self.build_profile@,
            r.artifact_ref@ == self.artifact_ref@,
    {
        ToolVersionRecord {
            role: self.role,
            tool_name: crate::text::owned(self.tool_name.as_str()),
            version: crate::text::owned(self.version.as_str()),
            git_sha: crate::text::owned(self.git_sha.as_str()),
            target_triple: crate::text::owned(self.target_triple.as_str()),
            build_profile: crate::text::owned(self.build_profile.as_str()),
            artifact_ref: crate::text::owned(self.artifact_ref.as_str()),
        }
    }
}

/// The references of a run set's runs: the run context's reference where
/// it exists, else `run-dir:` and the run directory.
pub fn run_refs(runs: &Vec<crate::run::RunContext>, context_refs: &Vec<Option<String>>) -> (refs: Vec<String>)
    requires
        context_refs@.len() == runs@.len(),
    ensures
        refs@.len() == runs@.len(),
        forall|i: int| 0 <= i < runs@.len() ==> (#[trigger] refs@[i])@ == (match context_refs@[i] {
            Some(r) => r@,
            None => "run-dir:"@ + runs@[i].run_dir@,
        }),
{
    let mut refs: Vec<String> = Vec::new();
    let mut i: usize = 0;
    while i < runs.len()
        invariant
            context_refs@.len() == runs@.len(),
            i <= runs@.len(),
            refs@.len() == i,
            forall|k: int| 0 <= k < i ==> (#[trigger] refs@[k])@ == (match context_refs@[k] {
                Some(r) => r@,
                None => "run-dir:"@ + runs@[k].run_dir@,
            }),
        decreases runs.len() - i,
    {
        let r = match &context_refs[i] {
            Some(c) => crate::text::owned(c.as_str()),
            None => crate::text::concat("run-dir:", runs[i].run_dir.as_str()),
        };
        refs.push(r);
        i = i + 1;
    }
    refs
}

/// The `sha256:<hex>` digest of a file's bytes.
pub fn digest_file_sha256(bytes: &[u8]) -> (d: String)
    ensures
        d@ == crate::digest::sha256_text(bytes@),
{
    crate::digest::sha256_digest_text(bytes)
}

/// The name of a validity outcome as Rust's debug form writes it.
pub open spec fn validity_debug(v: GovernorValidity) -> Seq<char> {
    match v {
        GovernorValidity::Measured => "Measured"@,
        GovernorValidity::MeasuredPartial => "MeasuredPartial"@,
        GovernorValidity::Insufficient => "Insufficient"@,
        GovernorValidity::Refused => "Refused"@,
        GovernorValidity::Contaminated => "Contaminated"@,
        GovernorValidity::NotApplicable => "NotApplicable"@,
        GovernorValidity::Unknown => "Unknown"@,
    }
}

/// One gap as a markdown bullet.
pub open spec fn gap_line(g: RunValidationGap) -> Seq<char> {
    "- `"@ + g.code@ + "`"@ + (match g.governor { Some(gov) => " for `"@ + gov@ + "`"@, None => Seq::empty() })
        + ": "@ + g.message@ + "\n"@
}

/// The gap bullets of gaps, in order.
pub open spec fn gap_lines(gaps: Seq<RunValidationGap>) -> Seq<char>
    decreases gaps.len(),
{
    if gaps.len() == 0 { Seq::empty() } else { gap_lines(gaps.drop_last()) + gap_line(gaps.last()) }
}

/// The markdown summary of a run validation's gaps.
pub open spec fn gaps_markdown(id: Seq<char>, profile: Seq<char>, validity: GovernorValidity, gaps: Seq<RunValidationGap>) -> Seq<char> {
    "# Run Validation Gaps\n\n"@ + "- validation_id: `"@ + id + "`\n"@ + "- profile: `"@ + profile + "`\n"@
        + "- overall_validity: `"@ + validity_debug(validity) + "`\n\n"@
        + if gaps.len() == 0 { "No validation gaps were found.\n"@ } else { gap_lines(gaps) }
}

/// Renders a run validation's gaps as markdown: its identifier, profile and
/// overall validity, then one bullet per gap (or a line saying there are
/// none).
pub fn render_run_validation_gaps(validation: &crate::evidence::envelope::Artifact<RunValidationPayload>) -> (out: String)
    ensures
        out@ == gaps_markdown(validation.id@, validation.payload.profile@, validation.payload.overall_validity,
            validation.payload.gaps@),
{
    let validity = match validation.payload.overall_validity {
        GovernorValidity::Measured => "Measured",
        GovernorValidity::MeasuredPartial => "MeasuredPartial",
        GovernorValidity::Insufficient => "Insufficient",
        GovernorValidity::Refused => "Refused",
        GovernorValidity::Contaminated => "Contaminated",
        GovernorValidity::NotApplicable => "NotApplicable",
        GovernorValidity::Unknown => "Unknown",
    };
    let mut out = crate::text::owned("# Run Validation Gaps\n\n");
    out.append("- validation_id: `");
    out.append(validation.id.as_str());
    out.append("`\n");
    out.append("- profile: `");
    out.append(validation.payload.profile.as_str());
    out.append("`\n");
    out.append("- overall_validity: `");
    out.append(validity);
    out.append("`\n\n");
    let ghost head = out@;
    let gaps = &validation.payload.gaps;
    if gaps.len() == 0 {
        out.append("No validation gaps were found.\n");
        return out;
    }
    let mut i: usize = 0;
    while i < gaps.len()
        invariant
            i <= gaps@.len(),
            out@ == head + gap_lines(gaps@.take(i as int)),
        decreases gaps.len() - i,
    {
        proof {
            assert(gaps@.take(i + 1).drop_last() =~= gaps@.take(i as int));
        }
        let g = &gaps[i];
        out.append("- `");
        out.append(g.code.as_str());
        out.append("`");
        match &g.governor {
            Some(gov) => {
                out.append(" for `");
                out.append(gov.as_str());
                out.append("`");
            },
            None => {},
        }
        out.append(": ");
        out.append(g.message.as_str());
        out.append("\n");
        proof {
            assert(out@ =~= head + gap_lines(gaps@.take(i + 1)));
        }
        i = i + 1;
    }
    proof {
        assert(gaps@.take(gaps@.len() as int) =~= gaps@);
    }
    out
}


/// Whether an approvals file holds an approval record: its top-level
/// `schema_version` member is `lab.approval_record.v1`; an error when the
/// text is not JSON.  Other files are skipped.
pub fn is_approval_record(text: &str) -> (r: Result<bool, String>)
    ensures
        match crate::json::json_string_members(text@, seq!["schema_version"@]) {
            Ok(m) => r == Ok::<bool, String>(m.1[0] == Some("lab.approval_record.v1"@)),
            Err(e) => r matches Err(x) && x@ == e,
        },
{
    let keys = crate::text::strs1("schema_version");
    assert(keys@.len() == 1) by {
        assert(crate::text::str_views(keys@).len() == keys@.len());
    }
    match crate::json::string_members(text, &keys) {
        Err(e) => Err(e),
        Ok(m) => {
            let ghost all = m.strings@;
            proof {
                assert(crate::json::opt_views(all)[0] == opt_view(all[0]));
            }
            let mut strings = m.strings;
            match strings.pop().unwrap() {
                Some(v) => Ok(crate::text::str_eq(v.as_str(), "lab.approval_record.v1")),
                None => Ok(false),
            }
        },
    }
}

} // verus!

verus! {

/// A refused or contaminated governor taints the whole set: the overall
/// validity is contaminated, whatever the other governors show.
pub proof fn law_refused_or_contaminated_taints_the_set(results: Seq<GovernorValidation>, i: int)
    requires
        0 <= i < results.len(),
        results[i].validity == GovernorValidity::Contaminated || results[i].validity == GovernorValidity::Refused,
    ensures
        overall_validity_spec(results) == GovernorValidity::Contaminated,
{
    assert(results[i].validity != GovernorValidity::Measured);
    assert((results[i].validity == GovernorValidity::Contaminated || results[i].validity == GovernorValidity::Refused));
}

/// The set is measured only when every governor is measured.
pub proof fn law_measured_set_needs_every_governor(results: Seq<GovernorValidation>)
    ensures
        overall_validity_spec(results) == GovernorValidity::Measured ==>
            results.len() > 0 && forall|j: int| 0 <= j < results.len() ==> (#[trigger] results[j]).validity == GovernorValidity::Measured,
{
}

} // verus!
