//! The catalog of claims with their supported and blocked wording and the
//! evidence that unblocks them by default.

use crate::evidence::claim;
use crate::text::{str_eq, str_views};
use vstd::prelude::*;

verus! {

#[derive(Debug, Clone, PartialEq, Eq)]
pub struct ClaimDefinition {
    pub claim_id: &'static str,
    pub supported_text: &'static str,
    pub blocked_text: &'static str,
    pub default_next_evidence: Vec<&'static str>,
}

/// The identifiers of the cataloged claims, in catalog order.
pub open spec fn catalog_ids() -> Seq<Seq<char>> {
    seq![
        claim::TARGET_SELECTION_PI4_SUFFICIENT@,
        claim::PRODUCTION_READY@,
        claim::COUPLING_MEMORY_TO_STORAGE@,
    ]
}

/// The default next evidence of a claim; empty for claims outside the
/// catalog.
pub open spec fn catalog_next_evidence(claim_id: Seq<char>) -> Seq<Seq<char>> {
    if claim_id == claim::TARGET_SELECTION_PI4_SUFFICIENT@ {
        seq![
            "collect workload demand profile"@,
            "evaluate suitability policy against target evidence"@,
        ]
    } else if claim_id == claim::PRODUCTION_READY@ {
        seq![
            "define production operating envelope"@,
            "run controlled long-duration validation"@,
            "record recovery and degradation behavior"@,
        ]
    } else if claim_id == claim::COUPLING_MEMORY_TO_STORAGE@ {
        seq![
            "run baseline, pressure-only, paired-pressure, and recovery phases"@,
            "record pressure effect and side effects"@,
        ]
    } else {
        Seq::empty()
    }
}

/// The supported wording of a cataloged claim.
pub open spec fn catalog_supported_text(claim_id: Seq<char>) -> Seq<char> {
    if claim_id == claim::TARGET_SELECTION_PI4_SUFFICIENT@ {
        "Pi4 is sufficient for the stated workload under the recorded policy and evidence."@
    } else if claim_id == claim::PRODUCTION_READY@ {
        "The target is production-ready for the stated workload and operating envelope."@
    } else {
        "Memory pressure coupling to storage behavior is measured for this scenario."@
    }
}

/// The blocked wording of a cataloged claim.
pub open spec fn catalog_blocked_text(claim_id: Seq<char>) -> Seq<char> {
    if claim_id == claim::TARGET_SELECTION_PI4_SUFFICIENT@ {
        "Do not claim Pi4 sufficiency without workload demand, target evidence, and suitability policy margins."@
    } else if claim_id == claim::PRODUCTION_READY@ {
        "Do not claim production readiness from exploratory lab evidence."@
    } else {
        "Do not claim memory-to-storage coupling without paired pressure and recovery evidence."@
    }
}

/// Every cataloged claim, in catalog order.
pub fn all_claims() -> (claims: Vec<ClaimDefinition>)
    ensures
        claims@.len() == catalog_ids().len(),
        forall|i: int| 0 <= i < claims@.len() ==> {
            &&& (#[trigger] claims@[i]).claim_id@ == catalog_ids()[i]
            &&& str_views(claims@[i].default_next_evidence@) == catalog_next_evidence(catalog_ids()[i])
            &&& claims@[i].blocked_text@ == catalog_blocked_text(catalog_ids()[i])
            &&& claims@[i].supported_text@ == catalog_supported_text(catalog_ids()[i])
        },
{
    let mut claims: Vec<ClaimDefinition> = Vec::new();
    let mut next1: Vec<&'static str> = Vec::new();
    next1.push("collect workload demand profile");
    next1.push("evaluate suitability policy against target evidence");
    claims.push(ClaimDefinition {
        claim_id: claim::TARGET_SELECTION_PI4_SUFFICIENT,
        supported_text: "Pi4 is sufficient for the stated workload under the recorded policy and evidence.",
        blocked_text: "Do not claim Pi4 sufficiency without workload demand, target evidence, and suitability policy margins.",
        default_next_evidence: next1,
    });
    let mut next2: Vec<&'static str> = Vec::new();
    next2.push("define production operating envelope");
    next2.push("run controlled long-duration validation");
    next2.push("record recovery and degradation behavior");
    claims.push(ClaimDefinition {
        claim_id: claim::PRODUCTION_READY,
        supported_text: "The target is production-ready for the stated workload and operating envelope.",
        blocked_text: "Do not claim production readiness from exploratory lab evidence.",
        default_next_evidence: next2,
    });
    let mut next3: Vec<&'static str> = Vec::new();
    next3.push("run baseline, pressure-only, paired-pressure, and recovery phases");
    next3.push("record pressure effect and side effects");
    claims.push(ClaimDefinition {
        claim_id: claim::COUPLING_MEMORY_TO_STORAGE,
        supported_text: "Memory pressure coupling to storage behavior is measured for this scenario.",
        blocked_text: "Do not claim memory-to-storage coupling without paired pressure and recovery evidence.",
        default_next_evidence: next3,
    });
    proof {
        reveal_strlit("target.selection.pi4_sufficient");
        reveal_strlit("target.selection.production_ready");
        reveal_strlit("coupling.memory_to_storage");
        assert(claim::PRODUCTION_READY@.len() != claim::TARGET_SELECTION_PI4_SUFFICIENT@.len());
        assert(claim::COUPLING_MEMORY_TO_STORAGE@.len() != claim::TARGET_SELECTION_PI4_SUFFICIENT@.len());
        assert(claim::COUPLING_MEMORY_TO_STORAGE@.len() != claim::PRODUCTION_READY@.len());
        assert(str_views(claims@[0].default_next_evidence@) =~= catalog_next_evidence(catalog_ids()[0]));
        assert(str_views(claims@[1].default_next_evidence@) =~= catalog_next_evidence(catalog_ids()[1]));
        assert(str_views(claims@[2].default_next_evidence@) =~= catalog_next_evidence(catalog_ids()[2]));
    }
    claims
}

/// The catalog entry of a claim, when the claim is cataloged.
pub fn claim_definition(claim_id: &str) -> (found: Option<ClaimDefinition>)
    ensures
        found is Some <==> catalog_ids().contains(claim_id@),
        found matches Some(d) ==> d.claim_id@ == claim_id@
            && str_views(d.default_next_evidence@) == catalog_next_evidence(claim_id@)
            && d.blocked_text@ == catalog_blocked_text(claim_id@)
            && d.supported_text@ == catalog_supported_text(claim_id@),
{
    let mut claims = all_claims();
    let mut i: usize = 0;
    while i < claims.len()
        invariant
            claims@.len() == catalog_ids().len(),
            forall|k: int| 0 <= k < claims@.len() ==> {
                &&& (#[trigger] claims@[k]).claim_id@ == catalog_ids()[k]
                &&& str_views(claims@[k].default_next_evidence@) == catalog_next_evidence(catalog_ids()[k])
                &&& claims@[k].blocked_text@ == catalog_blocked_text(catalog_ids()[k])
                &&& claims@[k].supported_text@ == catalog_supported_text(catalog_ids()[k])
            },
            i <= claims@.len(),
            forall|k: int| 0 <= k < i ==> catalog_ids()[k] != claim_id@,
        decreases claims.len() - i,
    {
        if str_eq(claims[i].claim_id, claim_id) {
            let d = claims.remove(i);
            return Some(d);
        }
        i = i + 1;
    }
    assert(!catalog_ids().contains(claim_id@));
    None
}

/// Looking up a cataloged claim finds the catalog's own entry: the catalog
/// identifiers are pairwise distinct, so the entry `all_claims` lists at a
/// position is the only one with its identifier, and `claim_definition` of
/// that identifier gives the same texts and next evidence.
pub proof fn law_claim_definition_round_trip(k: int)
    requires
        0 <= k < catalog_ids().len(),
    ensures
        catalog_ids().contains(catalog_ids()[k]),
        forall|j: int| 0 <= j < catalog_ids().len() && catalog_ids()[j] == catalog_ids()[k] ==> j == k,
{
    reveal_strlit("target.selection.pi4_sufficient");
    reveal_strlit("target.selection.production_ready");
    reveal_strlit("coupling.memory_to_storage");
    let ids = catalog_ids();
    assert(ids[0] != ids[1]) by { assert(ids[0][18] != ids[1][18]); }
    assert(ids[0] != ids[2]) by { assert(ids[0][0] != ids[2][0]); }
    assert(ids[1] != ids[2]) by { assert(ids[1][0] != ids[2][0]); }
    assert(ids.contains(ids[k]));
}

} // verus!
