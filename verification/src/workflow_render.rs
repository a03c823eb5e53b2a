//! Markdown instructions for the agents that carry out a workflow: one
//! rendered from a collect plan, one from a recommendation.

use crate::evidence::envelope::Artifact;
use crate::run_validation::GovernorValidity;
use crate::text::{is_prefix, join_seq, owned, starts_with, str_eq, views};
use crate::workflow::{WorkflowCollectPlanPayload, WorkflowCollectPlanStep, WorkflowRecommendationPayload, COLLECT_PLAN_DEFERRED_NEXT_STEP};
use crate::workflow_profile::depth_name;
use vstd::prelude::*;

verus! {

/// A lowercase hexadecimal digit.
pub open spec fn hex_digit(n: int) -> char {
    if n < 10 { ((48 + n) as u8) as char } else { ((87 + n) as u8) as char }
}

/// How JSON writes one character of a string: quote and backslash behind a
/// backslash, the usual short escapes, other control characters as
/// `\u00xx`, everything else as itself.
pub open spec fn json_char(c: char) -> Seq<char> {
    if c == '"' {
        seq!['\\', '"']
    } else if c == '\\' {
        seq!['\\', '\\']
    } else if c == '\u{8}' {
        seq!['\\', 'b']
    } else if c == '\t' {
        seq!['\\', 't']
    } else if c == '\n' {
        seq!['\\', 'n']
    } else if c == '\u{c}' {
        seq!['\\', 'f']
    } else if c == '\r' {
        seq!['\\', 'r']
    } else if (c as int) < 32 {
        seq!['\\', 'u', '0', '0', hex_digit((c as int) / 16), hex_digit((c as int) % 16)]
    } else {
        seq![c]
    }
}

/// The escaped characters of a string.
pub open spec fn json_escaped(s: Seq<char>) -> Seq<char>
    decreases s.len(),
{
    if s.len() == 0 {
        Seq::empty()
    } else {
        json_escaped(s.drop_last()) + json_char(s.last())
    }
}

/// A JSON string literal.
pub open spec fn json_quoted(s: Seq<char>) -> Seq<char> {
    seq!['"'] + json_escaped(s) + seq!['"']
}

/// A compact JSON array of strings.
pub open spec fn json_string_array(items: Seq<Seq<char>>) -> Seq<char> {
    "["@ + join_seq(items.map_values(|s: Seq<char>| json_quoted(s)), ","@) + "]"@
}

/// Compact JSON text of a list of strings.
///
/// Calls `serde_json::to_string` on the list. The contract states the
/// compact serialization that serde_json's serializer writes for a
/// sequence of strings: brackets, commas between elements, and each string
/// quoted with the escapes of its escape table. Serializing strings does
/// not fail; the fallback is never taken.
#[verifier::external_body]
fn json_strings(items: &Vec<String>) -> (r: String)
    ensures
        r@ == json_string_array(views(items@)),
{
    serde_json::to_string(items).unwrap_or_else(|_| "[]".to_string())
}

/// The serialized name of a validity outcome.
pub open spec fn validity_name(v: GovernorValidity) -> Seq<char> {
    match v {
        GovernorValidity::Measured => "measured"@,
        GovernorValidity::MeasuredPartial => "measured_partial"@,
        GovernorValidity::Insufficient => "insufficient"@,
        GovernorValidity::Refused => "refused"@,
        GovernorValidity::Contaminated => "contaminated"@,
        GovernorValidity::NotApplicable => "not_applicable"@,
        GovernorValidity::Unknown => "unknown"@,
    }
}

fn validity_name_text(v: GovernorValidity) -> (s: &'static str)
    ensures
        s@ == validity_name(v),
{
    match v {
        GovernorValidity::Measured => "measured",
        GovernorValidity::MeasuredPartial => "measured_partial",
        GovernorValidity::Insufficient => "insufficient",
        GovernorValidity::Refused => "refused",
        GovernorValidity::Contaminated => "contaminated",
        GovernorValidity::NotApplicable => "not_applicable",
        GovernorValidity::Unknown => "unknown",
    }
}

/// The serialized names of a list of outcomes.
pub open spec fn validity_names(vs: Seq<GovernorValidity>) -> Seq<Seq<char>> {
    vs.map_values(|v: GovernorValidity| validity_name(v))
}

fn validities_json(vs: &Vec<GovernorValidity>) -> (r: String)
    ensures
        r@ == json_string_array(validity_names(vs@)),
{
    let mut names: Vec<String> = Vec::new();
    let mut i: usize = 0;
    while i < vs.len()
        invariant
            i <= vs@.len(),
            names@.len() == i,
            forall|j: int| 0 <= j < i ==> (#[trigger] names@[j])@ == validity_name(vs@[j]),
        decreases vs.len() - i,
    {
        names.push(owned(validity_name_text(vs[i])));
        i = i + 1;
    }
    proof {
        assert(views(names@) =~= validity_names(vs@));
    }
    json_strings(&names)
}

/// The lines listing expected paths.
pub open spec fn path_lines(paths: Seq<Seq<char>>) -> Seq<char>
    decreases paths.len(),
{
    if paths.len() == 0 {
        Seq::empty()
    } else {
        path_lines(paths.drop_last()) + "  - `"@ + paths.last() + "`\n"@
    }
}

/// The heading and identity lines of a step's block.
pub open spec fn step_head(s: WorkflowCollectPlanStep) -> Seq<char> {
    "### `"@ + s.step_id@ + "`\n\n"@
        + "- phase: `"@ + s.phase@ + "`\n"@
        + "- execution_location: `"@ + s.execution_location@ + "`\n"@
        + "- claim_gate: `"@ + s.claim_gate@ + "`\n"@
}

/// The outcome and argv lines of a step's block.
pub open spec fn step_lists(s: WorkflowCollectPlanStep) -> Seq<char> {
    "- continue_on: `"@ + json_string_array(validity_names(s.continue_on@)) + "`\n"@
        + "- stop_on: `"@ + json_string_array(validity_names(s.stop_on@)) + "`\n"@
        + "- argv: `"@ + json_string_array(views(s.command_argv@)) + "`\n"@
}

/// The expected-paths lines of a step's block, when it has any.
pub open spec fn step_paths(s: WorkflowCollectPlanStep) -> Seq<char> {
    if s.expected_artifact_paths_or_globs@.len() == 0 {
        Seq::empty()
    } else {
        "- expected_paths:\n"@ + path_lines(views(s.expected_artifact_paths_or_globs@))
    }
}

/// The markdown block of one step.
pub open spec fn step_block(s: WorkflowCollectPlanStep) -> Seq<char> {
    step_head(s) + step_lists(s) + step_paths(s) + "- summary: "@ + s.human_summary@ + "\n\n"@
}

/// The markdown blocks of steps, in order.
pub open spec fn step_blocks(steps: Seq<WorkflowCollectPlanStep>) -> Seq<char>
    decreases steps.len(),
{
    if steps.len() == 0 {
        Seq::empty()
    } else {
        step_blocks(steps.drop_last()) + step_block(steps.last())
    }
}

/// Some step runs target-local.
pub open spec fn has_target_local_step(steps: Seq<WorkflowCollectPlanStep>) -> bool {
    exists|i: int| 0 <= i < steps.len() && (#[trigger] steps[i]).execution_location@ == "target_local"@
}

/// The identity lines of the collect plan instructions.
pub open spec fn plan_identity(p: WorkflowCollectPlanPayload) -> Seq<char> {
    "# adc-lab Collect Plan Instructions\n\n"@
        + "Use this workflow.collect_plan artifact as the executable handoff contract.\n\n"@
        + "- goal: `"@ + p.goal@ + "`\n"@
        + "- effective_profile: `"@ + p.effective_profile@ + "`\n"@
        + "- profile_depth: `"@ + depth_name(p.profile_depth) + "`\n"@
        + "- profile_summary: "@ + p.profile_summary@ + "\n"@
        + "- coverage: "@ + p.coverage@ + "\n"@
        + "- safety_caps: "@ + p.safety_caps@ + "\n"@
}

/// The target lines of the collect plan instructions.
pub open spec fn plan_target(p: WorkflowCollectPlanPayload) -> Seq<char> {
    "- workflow_id: `"@ + p.workflow_id@ + "`\n"@
        + "- target: `"@ + p.target@ + "`\n"@
        + "- target_id: `"@ + p.target_id@ + "`\n"@
        + "- target_class: `"@ + p.target_class@ + "`\n"@
        + "- planned_run_dir: `"@ + p.planned_run_dir@ + "`\n\n"@
}

/// The boundary lines of the collect plan instructions.
pub open spec fn plan_boundary(p: WorkflowCollectPlanPayload) -> Seq<char> {
    "Do not fall back to a static prompt or hand-written shell harness when this collect plan is available.\n"@
        + p.claim_boundary@ + "\n"@
        + "If a required workflow surface is missing, stop and report adc-lab version/capability mismatch.\n"@
        + "Do not infer artifact relationships from path names, timestamps, or directory co-presence.\n\n"@
}

/// The SSH runner lines of the collect plan instructions.
pub open spec fn plan_ssh(p: WorkflowCollectPlanPayload) -> Seq<char> {
    if is_prefix("ssh://"@, p.target@) {
        "## SSH Target Runner Boundary\n\n"@
            + "Set `ADC_LAB_TARGET_RUNNER=/home/<target-user>/.local/bin/adc-lab-target` when the release installer default is not on the non-interactive SSH PATH.\n"@
            + "The release installer installs user binaries under `~/.local/bin` by default; non-interactive SSH PATH may omit that directory.\n"@
            + "Do not treat adc-lab or adc-lab-target as missing merely because command -v fails under the default non-interactive SSH PATH.\n\n"@
    } else {
        Seq::empty()
    }
}

/// The PATH line for target-local steps, when the plan has any.
pub open spec fn plan_local(p: WorkflowCollectPlanPayload) -> Seq<char> {
    if has_target_local_step(p.steps@) {
        "For target_local execution, run `export PATH=\"$HOME/.local/bin:/usr/local/bin:/usr/bin:/bin:$PATH\"` before executing target-local argv steps.\n\n"@
    } else {
        Seq::empty()
    }
}

/// The instructions rendered from a collect plan.
pub open spec fn collect_plan_instructions(p: WorkflowCollectPlanPayload) -> Seq<char> {
    plan_identity(p) + plan_target(p) + plan_boundary(p) + plan_ssh(p) + plan_local(p)
        + "## Steps\n\n"@
        + step_blocks(p.steps@)
        + "Packaging steps are handoff steps, not target evidence. Packaging failure blocks final handoff completion but does not change measurement validity.\n"@
}

fn append_plan_identity(out: &mut String, payload: &WorkflowCollectPlanPayload)
    ensures
        final(out)@ == old(out)@ + plan_identity(*payload),
{
    let ghost start = out@;
    out.append("# adc-lab Collect Plan Instructions\n\n");
    out.append("Use this workflow.collect_plan artifact as the executable handoff contract.\n\n");
    out.append("- goal: `");
    out.append(payload.goal.as_str());
    out.append("`\n");
    out.append("- effective_profile: `");
    out.append(payload.effective_profile.as_str());
    out.append("`\n");
    out.append("- profile_depth: `");
    out.append(payload.profile_depth.as_str());
    out.append("`\n");
    out.append("- profile_summary: ");
    out.append(payload.profile_summary.as_str());
    out.append("\n");
    out.append("- coverage: ");
    out.append(payload.coverage.as_str());
    out.append("\n");
    out.append("- safety_caps: ");
    out.append(payload.safety_caps.as_str());
    out.append("\n");
    proof {
        assert(out@ =~= start + plan_identity(*payload));
    }
}

fn append_plan_target(out: &mut String, payload: &WorkflowCollectPlanPayload)
    ensures
        final(out)@ == old(out)@ + plan_target(*payload),
{
    let ghost start = out@;
    out.append("- workflow_id: `");
    out.append(payload.workflow_id.as_str());
    out.append("`\n");
    out.append("- target: `");
    out.append(payload.target.as_str());
    out.append("`\n");
    out.append("- target_id: `");
    out.append(payload.target_id.as_str());
    out.append("`\n");
    out.append("- target_class: `");
    out.append(payload.target_class.as_str());
    out.append("`\n");
    out.append("- planned_run_dir: `");
    out.append(payload.planned_run_dir.as_str());
    out.append("`\n\n");
    proof {
        assert(out@ =~= start + plan_target(*payload));
    }
}

fn append_plan_notes(out: &mut String, payload: &WorkflowCollectPlanPayload)
    ensures
        final(out)@ == old(out)@ + plan_boundary(*payload) + plan_ssh(*payload) + plan_local(*payload),
{
    let ghost start = out@;
    out.append("Do not fall back to a static prompt or hand-written shell harness when this collect plan is available.\n");
    out.append(payload.claim_boundary.as_str());
    out.append("\n");
    out.append("If a required workflow surface is missing, stop and report adc-lab version/capability mismatch.\n");
    out.append("Do not infer artifact relationships from path names, timestamps, or directory co-presence.\n\n");
    proof {
        assert(out@ =~= start + plan_boundary(*payload));
    }
    let ghost mid = out@;
    if starts_with(payload.target.as_str(), "ssh://") {
        out.append("## SSH Target Runner Boundary\n\n");
        out.append("Set `ADC_LAB_TARGET_RUNNER=/home/<target-user>/.local/bin/adc-lab-target` when the release installer default is not on the non-interactive SSH PATH.\n");
        out.append("The release installer installs user binaries under `~/.local/bin` by default; non-interactive SSH PATH may omit that directory.\n");
        out.append("Do not treat adc-lab or adc-lab-target as missing merely because command -v fails under the default non-interactive SSH PATH.\n\n");
    }
    proof {
        assert(out@ =~= mid + plan_ssh(*payload));
    }
    let ghost mid2 = out@;
    let steps = &payload.steps;
    let mut any_local = false;
    let mut k: usize = 0;
    while k < steps.len()
        invariant
            k <= steps@.len(),
            any_local <==> exists|j: int| 0 <= j < k && (#[trigger] steps@[j]).execution_location@ == "target_local"@,
        decreases steps.len() - k,
    {
        if str_eq(steps[k].execution_location.as_str(), "target_local") {
            any_local = true;
        }
        k = k + 1;
    }
    if any_local {
        out.append("For target_local execution, run `export PATH=\"$HOME/.local/bin:/usr/local/bin:/usr/bin:/bin:$PATH\"` before executing target-local argv steps.\n\n");
    }
    proof {
        assert(out@ =~= mid2 + plan_local(*payload));
        assert(out@ =~= start + plan_boundary(*payload) + plan_ssh(*payload) + plan_local(*payload));
    }
}

fn append_step_head(out: &mut String, s: &WorkflowCollectPlanStep)
    ensures
        final(out)@ == old(out)@ + step_head(*s),
{
    let ghost start = out@;
    out.append("### `");
    out.append(s.step_id.as_str());
    out.append("`\n\n");
    out.append("- phase: `");
    out.append(s.phase.as_str());
    out.append("`\n");
    out.append("- execution_location: `");
    out.append(s.execution_location.as_str());
    out.append("`\n");
    out.append("- claim_gate: `");
    out.append(s.claim_gate.as_str());
    out.append("`\n");
    proof {
        assert(out@ =~= start + step_head(*s));
    }
}

fn append_step_lists(out: &mut String, s: &WorkflowCollectPlanStep)
    ensures
        final(out)@ == old(out)@ + step_lists(*s),
{
    let ghost start = out@;
    let cont = validities_json(&s.continue_on);
    out.append("- continue_on: `");
    out.append(cont.as_str());
    out.append("`\n");
    let stop = validities_json(&s.stop_on);
    out.append("- stop_on: `");
    out.append(stop.as_str());
    out.append("`\n");
    let argv = json_strings(&s.command_argv);
    out.append("- argv: `");
    out.append(argv.as_str());
    out.append("`\n");
    proof {
        assert(out@ =~= start + step_lists(*s));
    }
}

fn append_step_paths(out: &mut String, s: &WorkflowCollectPlanStep)
    ensures
        final(out)@ == old(out)@ + step_paths(*s),
{
    let ghost start = out@;
    if s.expected_artifact_paths_or_globs.len() > 0 {
        out.append("- expected_paths:\n");
        let paths = &s.expected_artifact_paths_or_globs;
        let ghost base = out@;
        let mut i: usize = 0;
        while i < paths.len()
            invariant
                i <= paths@.len(),
                out@ == base + path_lines(views(paths@).take(i as int)),
            decreases paths.len() - i,
        {
            proof {
                assert(views(paths@).take(i + 1).drop_last() =~= views(paths@).take(i as int));
            }
            out.append("  - `");
            out.append(paths[i].as_str());
            out.append("`\n");
            proof {
                assert(out@ =~= base + path_lines(views(paths@).take(i + 1)));
            }
            i = i + 1;
        }
        proof {
            assert(views(paths@).take(paths@.len() as int) =~= views(paths@));
            assert(out@ =~= start + step_paths(*s));
        }
    } else {
        proof {
            assert(out@ =~= start + step_paths(*s));
        }
    }
}

fn append_step_block(out: &mut String, s: &WorkflowCollectPlanStep)
    ensures
        final(out)@ == old(out)@ + step_block(*s),
{
    let ghost start = out@;
    append_step_head(out, s);
    append_step_lists(out, s);
    append_step_paths(out, s);
    out.append("- summary: ");
    out.append(s.human_summary.as_str());
    out.append("\n\n");
    proof {
        assert(out@ =~= start + step_block(*s));
    }
}

/// Renders a collect plan as the markdown instructions an agent follows.
pub fn render_collect_plan_agent_instructions(collect_plan: &Artifact<WorkflowCollectPlanPayload>) -> (md: String)
    ensures
        md@ == collect_plan_instructions(collect_plan.payload),
{
    let payload = &collect_plan.payload;
    let mut out = String::new();
    append_plan_identity(&mut out, payload);
    append_plan_target(&mut out, payload);
    append_plan_notes(&mut out, payload);
    out.append("## Steps\n\n");
    let ghost base = out@;
    let steps = &payload.steps;
    let mut i: usize = 0;
    while i < steps.len()
        invariant
            i <= steps@.len(),
            out@ == base + step_blocks(steps@.take(i as int)),
        decreases steps.len() - i,
    {
        proof {
            assert(steps@.take(i + 1).drop_last() =~= steps@.take(i as int));
        }
        append_step_block(&mut out, &steps[i]);
        proof {
            assert(out@ =~= base + step_blocks(steps@.take(i + 1)));
        }
        i = i + 1;
    }
    proof {
        assert(steps@.take(steps@.len() as int) =~= steps@);
    }
    out.append("Packaging steps are handoff steps, not target evidence. Packaging failure blocks final handoff completion but does not change measurement validity.\n");
    proof {
        assert(out@ =~= collect_plan_instructions(collect_plan.payload));
    }
    out
}

/// One bullet line per item, the item in backticks.
pub open spec fn code_lines(items: Seq<Seq<char>>) -> Seq<char>
    decreases items.len(),
{
    if items.len() == 0 {
        Seq::empty()
    } else {
        code_lines(items.drop_last()) + "- `"@ + items.last() + "`\n"@
    }
}

/// One bullet line per item.
pub open spec fn plain_lines(items: Seq<Seq<char>>) -> Seq<char>
    decreases items.len(),
{
    if items.len() == 0 {
        Seq::empty()
    } else {
        plain_lines(items.drop_last()) + "- "@ + items.last() + "\n"@
    }
}

fn append_lines(out: &mut String, items: &Vec<String>, code: bool)
    ensures
        final(out)@ == old(out)@ + (if code { code_lines(views(items@)) } else { plain_lines(views(items@)) }),
{
    let ghost start = out@;
    let mut i: usize = 0;
    while i < items.len()
        invariant
            i <= items@.len(),
            out@ == start + (if code { code_lines(views(items@).take(i as int)) } else { plain_lines(views(items@).take(i as int)) }),
        decreases items.len() - i,
    {
        proof {
            assert(views(items@).take(i + 1).drop_last() =~= views(items@).take(i as int));
        }
        if code {
            out.append("- `");
            out.append(items[i].as_str());
            out.append("`\n");
        } else {
            out.append("- ");
            out.append(items[i].as_str());
            out.append("\n");
        }
        proof {
            if code {
                assert(out@ =~= start + code_lines(views(items@).take(i + 1)));
            } else {
                assert(out@ =~= start + plain_lines(views(items@).take(i + 1)));
            }
        }
        i = i + 1;
    }
    proof {
        assert(views(items@).take(items@.len() as int) =~= views(items@));
    }
}

/// The opening of the controller instructions: the workflow's profile.
pub open spec fn codex_profile(p: WorkflowRecommendationPayload) -> Seq<char> {
    "# adc-lab Controller Agent Instructions\n\n"@
        + "## Workflow Authority\n\n"@
        + "Use adc-lab workflow outputs as the source of truth for Target Operating Contract full-set collection.\n\n"@
        + "- goal: `"@ + p.goal@ + "`\n"@
        + "- effective_profile: `"@ + p.effective_profile@ + "`\n"@
        + "- profile_depth: `"@ + depth_name(p.profile_depth) + "`\n"@
        + "- profile_summary: "@ + p.profile_summary@ + "\n"@
        + "- coverage: "@ + p.coverage@ + "\n"@
        + "- safety_caps: "@ + p.safety_caps@ + "\n"@
}

/// The workflow, controller build and target lines of the controller
/// instructions.
pub open spec fn codex_target(p: WorkflowRecommendationPayload) -> Seq<char> {
    "- workflow_id: `"@ + p.workflow_id@ + "`\n"@
        + "- adc_lab_version: `"@ + p.controller_adc_lab.version@ + "`\n"@
        + "- adc_lab_git_sha: `"@ + p.controller_adc_lab.git_sha@ + "`\n"@
        + "- target: `"@ + p.target@ + "`\n"@
        + "- target_id: `"@ + p.target_id@ + "`\n"@
        + "- target_class: `"@ + p.target_class@ + "`\n\n"@
}

/// The identity section of the controller instructions.
pub open spec fn codex_identity(p: WorkflowRecommendationPayload) -> Seq<char> {
    codex_profile(p) + codex_target(p)
}

fn append_codex_profile(out: &mut String, p: &WorkflowRecommendationPayload)
    ensures
        final(out)@ == old(out)@ + codex_profile(*p),
{
    let ghost start = out@;
    out.append("# adc-lab Controller Agent Instructions\n\n");
    out.append("## Workflow Authority\n\n");
    out.append("Use adc-lab workflow outputs as the source of truth for Target Operating Contract full-set collection.\n\n");
    out.append("- goal: `");
    out.append(p.goal.as_str());
    out.append("`\n");
    out.append("- effective_profile: `");
    out.append(p.effective_profile.as_str());
    out.append("`\n");
    out.append("- profile_depth: `");
    out.append(p.profile_depth.as_str());
    out.append("`\n");
    out.append("- profile_summary: ");
    out.append(p.profile_summary.as_str());
    out.append("\n");
    out.append("- coverage: ");
    out.append(p.coverage.as_str());
    out.append("\n");
    out.append("- safety_caps: ");
    out.append(p.safety_caps.as_str());
    out.append("\n");
    proof {
        assert(out@ =~= start + codex_profile(*p));
    }
}

fn append_codex_target(out: &mut String, p: &WorkflowRecommendationPayload)
    ensures
        final(out)@ == old(out)@ + codex_target(*p),
{
    let ghost start = out@;
    out.append("- workflow_id: `");
    out.append(p.workflow_id.as_str());
    out.append("`\n");
    out.append("- adc_lab_version: `");
    out.append(p.controller_adc_lab.version.as_str());
    out.append("`\n");
    out.append("- adc_lab_git_sha: `");
    out.append(p.controller_adc_lab.git_sha.as_str());
    out.append("`\n");
    out.append("- target: `");
    out.append(p.target.as_str());
    out.append("`\n");
    out.append("- target_id: `");
    out.append(p.target_id.as_str());
    out.append("`\n");
    out.append("- target_class: `");
    out.append(p.target_class.as_str());
    out.append("`\n\n");
    proof {
        assert(out@ =~= start + codex_target(*p));
    }
}

/// The fallbacks the controller instructions forbid.
pub open spec fn codex_forbidden_fallbacks() -> Seq<char> {
    "## Forbidden Fallbacks\n\n"@
        + "- Do not fall back to a static prompt or hand-written shell harness when adc-lab workflow surfaces are available.\n"@
        + "- If a required workflow surface is missing, stop and report adc-lab version/capability mismatch.\n"@
        + "- Do not infer artifact relationships from filenames, timestamps, or directory co-presence.\n"@
        + "- Do not use raw primitive control artifacts for controlled-governor full-set claims without matching report.run_validation.\n\n"@
}

/// The SSH runner section of the controller instructions.
pub open spec fn codex_ssh_section() -> Seq<char> {
    "## SSH Target Runner Boundary\n\n"@
        + "- Set `ADC_LAB_TARGET_RUNNER=/home/<target-user>/.local/bin/adc-lab-target` when the installed target runner is under the release installer default path.\n"@
        + "- The release installer installs `adc-lab-target` under `~/.local/bin`; non-interactive SSH PATH may omit that directory.\n"@
        + "- Do not treat adc-lab or adc-lab-target as missing merely because command -v fails under the default non-interactive SSH PATH.\n"@
        + "- For target_local execution, run `export PATH=\"$HOME/.local/bin:/usr/local/bin:/usr/bin:/bin:$PATH\"` before executing target-local argv steps.\n\n"@
}

/// The claim boundaries of the controller instructions.
pub open spec fn codex_claim_boundaries(claim_boundary: Seq<char>) -> Seq<char> {
    "## Claim Boundaries\n\n"@
        + "- This prompt is not target measurement evidence.\n"@
        + "- "@ + claim_boundary + "\n"@
        + "- Insufficient, refused, contaminated, not applicable, and unknown outcomes remain valid evidence boundaries.\n"@
        + "- Version skew blocks full-set measured claims unless a later validation artifact explicitly records the allowed exploratory override, and even then full-set selection remains not ready.\n"@
        + "- No Agent root shell, arbitrary sysfs writes, remote privileged apply/restore, Pi4/Pi5 selection claim, or production-style claim is authorized by this prompt.\n"@
}

/// The next step the controller instructions name.
pub open spec fn codex_next_step(collect_plan_available: bool) -> Seq<char> {
    if collect_plan_available {
        "run adc-lab collect plan, then follow the emitted argv-array steps"@
    } else {
        COLLECT_PLAN_DEFERRED_NEXT_STEP@
    }
}

/// The workflow section of the controller instructions.
pub open spec fn codex_workflow(p: WorkflowRecommendationPayload, collect_plan_available: bool) -> Seq<char> {
    "## Source Of Truth Chain\n\n"@
        + code_lines(views(p.source_of_truth_chain@))
        + "\n"@
        + "## Required Workflow\n\n"@
        + plain_lines(views(p.must_use@))
        + "- next_step: "@ + codex_next_step(collect_plan_available) + "\n\n"@
}

/// The closing sections of the controller instructions.
pub open spec fn codex_tail(p: WorkflowRecommendationPayload) -> Seq<char> {
    codex_forbidden_fallbacks()
        + (if is_prefix("ssh://"@, p.target@) { codex_ssh_section() } else { Seq::empty() })
        + "## Expected Outputs\n\n"@
        + code_lines(views(p.expected_outputs@))
        + "\n"@
        + codex_claim_boundaries(p.claim_boundary@)
}

/// The controller instructions rendered from a recommendation.
pub open spec fn codex_instructions(p: WorkflowRecommendationPayload, collect_plan_available: bool) -> Seq<char> {
    codex_identity(p) + codex_workflow(p, collect_plan_available) + codex_tail(p)
}

fn append_codex_workflow(out: &mut String, p: &WorkflowRecommendationPayload, collect_plan_available: bool)
    ensures
        final(out)@ == old(out)@ + codex_workflow(*p, collect_plan_available),
{
    let ghost start = out@;
    let next_step = if collect_plan_available {
        "run adc-lab collect plan, then follow the emitted argv-array steps"
    } else {
        COLLECT_PLAN_DEFERRED_NEXT_STEP
    };
    out.append("## Source Of Truth Chain\n\n");
    append_lines(out, &p.source_of_truth_chain, true);
    out.append("\n");
    out.append("## Required Workflow\n\n");
    append_lines(out, &p.must_use, false);
    out.append("- next_step: ");
    out.append(next_step);
    out.append("\n\n");
    proof {
        assert(out@ =~= start + codex_workflow(*p, collect_plan_available));
    }
}

fn append_codex_tail(out: &mut String, p: &WorkflowRecommendationPayload)
    ensures
        final(out)@ == old(out)@ + codex_tail(*p),
{
    let ghost start = out@;
    out.append("## Forbidden Fallbacks\n\n");
    out.append("- Do not fall back to a static prompt or hand-written shell harness when adc-lab workflow surfaces are available.\n");
    out.append("- If a required workflow surface is missing, stop and report adc-lab version/capability mismatch.\n");
    out.append("- Do not infer artifact relationships from filenames, timestamps, or directory co-presence.\n");
    out.append("- Do not use raw primitive control artifacts for controlled-governor full-set claims without matching report.run_validation.\n\n");
    proof {
        assert(out@ =~= start + codex_forbidden_fallbacks());
    }
    let ghost mid = out@;
    if starts_with(p.target.as_str(), "ssh://") {
        out.append("## SSH Target Runner Boundary\n\n");
        out.append("- Set `ADC_LAB_TARGET_RUNNER=/home/<target-user>/.local/bin/adc-lab-target` when the installed target runner is under the release installer default path.\n");
        out.append("- The release installer installs `adc-lab-target` under `~/.local/bin`; non-interactive SSH PATH may omit that directory.\n");
        out.append("- Do not treat adc-lab or adc-lab-target as missing merely because command -v fails under the default non-interactive SSH PATH.\n");
        out.append("- For target_local execution, run `export PATH=\"$HOME/.local/bin:/usr/local/bin:/usr/bin:/bin:$PATH\"` before executing target-local argv steps.\n\n");
    }
    proof {
        assert(out@ =~= mid + (if is_prefix("ssh://"@, p.target@) { codex_ssh_section() } else { Seq::empty() }));
    }
    let ghost mid2 = out@;
    out.append("## Expected Outputs\n\n");
    append_lines(out, &p.expected_outputs, true);
    out.append("\n");
    proof {
        assert(out@ =~= mid2 + "## Expected Outputs\n\n"@ + code_lines(views(p.expected_outputs@)) + "\n"@);
    }
    let ghost mid3 = out@;
    out.append("## Claim Boundaries\n\n");
    out.append("- This prompt is not target measurement evidence.\n");
    out.append("- ");
    out.append(p.claim_boundary.as_str());
    out.append("\n");
    out.append("- Insufficient, refused, contaminated, not applicable, and unknown outcomes remain valid evidence boundaries.\n");
    out.append("- Version skew blocks full-set measured claims unless a later validation artifact explicitly records the allowed exploratory override, and even then full-set selection remains not ready.\n");
    out.append("- No Agent root shell, arbitrary sysfs writes, remote privileged apply/restore, Pi4/Pi5 selection claim, or production-style claim is authorized by this prompt.\n");
    proof {
        assert(out@ =~= mid3 + codex_claim_boundaries(p.claim_boundary@));
        assert(out@ =~= start + codex_tail(*p));
    }
}

/// Renders the instructions for a controller agent from a workflow
/// recommendation; the next step names the collect plan when one is
/// available.
pub fn render_codex_agent_instructions(recommendation: &Artifact<WorkflowRecommendationPayload>, collect_plan_available: bool)
    -> (md: String)
    ensures
        md@ == codex_instructions(recommendation.payload, collect_plan_available),
{
    let payload = &recommendation.payload;
    let mut out = String::new();
    append_codex_profile(&mut out, payload);
    append_codex_target(&mut out, payload);
    append_codex_workflow(&mut out, payload, collect_plan_available);
    append_codex_tail(&mut out, payload);
    proof {
        assert(out@ =~= codex_instructions(recommendation.payload, collect_plan_available));
    }
    out
}

} // verus!
