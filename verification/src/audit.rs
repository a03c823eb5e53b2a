//! Audit events: what an actor did to a target within a run, under which
//! approval and restore lease, and with what result.

use crate::contracts::{Actor, AuditEvent, RiskTier, POLICY_VERSION};
use crate::ids::{new_id, now_unix_ms};
use crate::run::RunContext;
use crate::text::{decimal, owned};
use vstd::prelude::*;

verus! {

/// What an audit event records besides its run.
#[derive(Debug, Clone)]
pub struct AuditInput {
    pub target_id: String,
    pub actor: Actor,
    pub operation: String,
    pub operation_id: Option<String>,
    pub risk_tier: RiskTier,
    pub approval_ref: Option<String>,
    pub restore_lease_ref: Option<String>,
    pub result: String,
}

/// The audit event of `input` within `run`: a new `EVT-` identifier, the
/// run's identifier, the input's fields and the policy version.
pub fn audit_event(run: &RunContext, input: AuditInput) -> (e: AuditEvent)
    ensures
        e.schema_version@ == "lab.audit_event.v1"@,
        exists|n: nat| e.event_id@ == "EVT-"@ + decimal(n),
        e.run_id@ == run.run_id@,
        e.target_id == input.target_id,
        e.actor == input.actor,
        e.operation == input.operation,
        e.operation_id == input.operation_id,
        e.risk_tier == input.risk_tier,
        e.approval_ref == input.approval_ref,
        e.restore_lease_ref == input.restore_lease_ref,
        e.result == input.result,
        e.policy_version@ == POLICY_VERSION@,
{
    let event_id = new_id("EVT");
    proof {
        reveal_strlit("EVT");
        reveal_strlit("-");
        reveal_strlit("EVT-");
        assert("EVT"@ + seq!['-'] =~= "EVT-"@);
    }
    AuditEvent {
        schema_version: owned("lab.audit_event.v1"),
        event_id,
        run_id: owned(run.run_id.as_str()),
        target_id: input.target_id,
        actor: input.actor,
        operation: input.operation,
        operation_id: input.operation_id,
        risk_tier: input.risk_tier,
        approval_ref: input.approval_ref,
        restore_lease_ref: input.restore_lease_ref,
        result: input.result,
        policy_version: owned(POLICY_VERSION),
        time_unix_ms: now_unix_ms(),
    }
}

} // verus!
