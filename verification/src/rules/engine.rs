//! The rule engine: predicates over the evidence store, rule tables, and
//! the claims derived from rule evaluations.

use crate::evidence::catalog::{catalog_ids, catalog_next_evidence, claim_definition};
use crate::evidence::envelope::{kind_label, kind_label_spec, measured_spec, is_measured_status, Claim, Decision, Kind, Status};
use crate::evidence::store::{lemma_of_kind_contains, lemma_has_kind, has_kind, of_kind, ArtifactMeta, EvidenceStore, LoadedArtifact, LoadedPayload};
use crate::run_validation::{FULLSET_PROFILE, GovernorValidity, RunValidationPayload, has_run_set_identity_spec};
use crate::text::{copy_all, extend_all, owned, owned_all, sorted_unique, str_eq, str_views, strictly_sorted, views};
use vstd::prelude::*;

verus! {

/// A predicate over the indexed evidence.
#[derive(Debug)]
pub enum Pred {
    Present(Kind),
    PressureEffect(&'static str),
    CompositeMeasured(&'static str),
    LoadDurationAtLeastSeconds(u64),
    NetworkBoundedTransfer,
    ObservationSamplesAtLeast(usize),
    RunValidationMeasured,
    All(Vec<Pred>),
    Any(Vec<Pred>),
    Not(Box<Pred>),
}

/// A rule: when the predicate holds, the claim gets `on_match`, else
/// `on_miss`.
#[derive(Debug)]
pub struct Rule {
    pub id: &'static str,
    pub claim_id: &'static str,
    pub when: Pred,
    pub on_match: Decision,
    pub on_miss: Decision,
    pub evidence_kinds: Vec<Kind>,
    pub next_evidence: Vec<&'static str>,
}

#[derive(Debug, Clone, PartialEq, Eq)]
pub struct RuleEvaluation {
    pub rule_id: String,
    pub claim_id: String,
    pub matched: bool,
    pub decision: Decision,
    pub evidence_refs: Vec<String>,
    pub missing: Vec<String>,
    pub next_evidence: Vec<String>,
}

/// Some artifact of kind `k` satisfies `f`.
pub open spec fn any_of_kind(arts: Seq<ArtifactMeta>, k: Kind, f: spec_fn(ArtifactMeta) -> bool) -> bool {
    exists|i: int| 0 <= i < arts.len() && arts[i].kind == k && f(arts[i])
}

/// A parsed, measured pressure artifact of the given pressure kind that
/// observed a pressure effect.
pub open spec fn pressure_effect_fact(m: ArtifactMeta, pressure_kind: Seq<char>) -> bool {
    match m.loaded {
        Some(l) => measured_spec(l.status) && match l.payload {
            LoadedPayload::Pressure(p) => p.pressure_kind@ == pressure_kind && p.effect_observed,
            _ => false,
        },
        None => false,
    }
}

/// A parsed, measured composite artifact of the scenario whose coupling was
/// measured.
pub open spec fn composite_fact(m: ArtifactMeta, scenario: Seq<char>) -> bool {
    match m.loaded {
        Some(l) => measured_spec(l.status) && match l.payload {
            LoadedPayload::Composite(c) => c.scenario@ == scenario
                && c.coupling_evidence_class@ == "composite_measured"@,
            _ => false,
        },
        None => false,
    }
}

/// `seconds * 1000`, saturating at `u64::MAX`.
pub open spec fn saturating_ms(seconds: u64) -> int {
    if seconds * 1000 > u64::MAX { u64::MAX as int } else { seconds * 1000 }
}

/// A parsed, measured load artifact that lasted at least `seconds`.
pub open spec fn load_duration_fact(m: ArtifactMeta, seconds: u64) -> bool {
    match m.loaded {
        Some(l) => measured_spec(l.status) && match l.payload {
            LoadedPayload::Load(p) => p.duration_ms >= saturating_ms(seconds),
            _ => false,
        },
        None => false,
    }
}

/// A parsed, measured network pressure artifact of an endpoint-backed
/// bounded transfer that moved at least one byte.
pub open spec fn bounded_transfer_fact(m: ArtifactMeta) -> bool {
    match m.loaded {
        Some(l) => measured_spec(l.status) && match l.payload {
            LoadedPayload::Pressure(p) => {
                &&& p.pressure_kind@ == "network_io"@
                &&& p.network_mode matches Some(mode) && mode@ == "bounded_transfer"@
                &&& p.network_endpoint_available == Some(true)
                &&& p.network_traffic_generated_bytes matches Some(b) && b > 0
            },
            _ => false,
        },
        None => false,
    }
}

/// A parsed, measured observation artifact with at least `samples` samples.
pub open spec fn observation_fact(m: ArtifactMeta, samples: usize) -> bool {
    match m.loaded {
        Some(l) => measured_spec(l.status) && match l.payload {
            LoadedPayload::Observation(o) => o.sample_count >= samples,
            _ => false,
        },
        None => false,
    }
}

/// A full-set run validation counts as measured: measured status and
/// overall validity, and a run-set identity.
pub open spec fn measured_fullset_spec(status: Status, p: RunValidationPayload) -> bool {
    status is Measured && p.overall_validity == GovernorValidity::Measured && has_run_set_identity_spec(p)
}

/// A parsed run validation of the full-set profile.
pub open spec fn fullset_validation_fact(m: ArtifactMeta) -> bool {
    match m.loaded {
        Some(l) => match l.payload {
            LoadedPayload::RunValidation(p) => p.profile@ == FULLSET_PROFILE@,
            _ => false,
        },
        None => false,
    }
}

/// A run validation acceptable to the full-set rule: its profile
/// differs, or it is a measured full-set validation.
pub open spec fn validation_acceptable_fact(m: ArtifactMeta) -> bool {
    match m.loaded {
        Some(l) => match l.payload {
            LoadedPayload::RunValidation(p) => p.profile@ != FULLSET_PROFILE@ || measured_fullset_spec(l.status, p),
            _ => false,
        },
        None => false,
    }
}

/// At least one full-set run validation exists and every run validation
/// parses and, when of the full-set profile, is measured.
pub open spec fn run_validation_measured_spec(arts: Seq<ArtifactMeta>) -> bool {
    &&& any_of_kind(arts, Kind::ReportRunValidation, |m: ArtifactMeta| fullset_validation_fact(m))
    &&& forall|i: int| 0 <= i < arts.len() && arts[i].kind == Kind::ReportRunValidation ==>
        validation_acceptable_fact(arts[i])
}

/// A measured pressure effect of the given pressure kind was recorded.
pub open spec fn pressure_effect_seen(arts: Seq<ArtifactMeta>, pressure_kind: Seq<char>) -> bool {
    any_of_kind(arts, Kind::Pressure, |m: ArtifactMeta| pressure_effect_fact(m, pressure_kind))
}

/// A measured composite of the given scenario was recorded.
pub open spec fn composite_seen(arts: Seq<ArtifactMeta>, scenario: Seq<char>) -> bool {
    any_of_kind(arts, Kind::Composite, |m: ArtifactMeta| composite_fact(m, scenario))
}

/// A measured load lasting at least `seconds` was recorded.
pub open spec fn load_duration_seen(arts: Seq<ArtifactMeta>, seconds: u64) -> bool {
    any_of_kind(arts, Kind::Load, |m: ArtifactMeta| load_duration_fact(m, seconds))
}

/// A measured endpoint-backed bounded network transfer was recorded.
pub open spec fn bounded_transfer_seen(arts: Seq<ArtifactMeta>) -> bool {
    any_of_kind(arts, Kind::Pressure, |m: ArtifactMeta| bounded_transfer_fact(m))
}

/// A measured observation with at least `samples` samples was recorded.
pub open spec fn observation_samples_seen(arts: Seq<ArtifactMeta>, samples: usize) -> bool {
    any_of_kind(arts, Kind::Observation, |m: ArtifactMeta| observation_fact(m, samples))
}

/// What a predicate says of the indexed artifacts.
pub open spec fn pred_holds(arts: Seq<ArtifactMeta>, p: Pred) -> bool
    decreases p,
{
    match p {
        Pred::Present(k) => has_kind(arts, k),
        Pred::PressureEffect(pk) => pressure_effect_seen(arts, pk@),
        Pred::CompositeMeasured(sc) => composite_seen(arts, sc@),
        Pred::LoadDurationAtLeastSeconds(s) => load_duration_seen(arts, s),
        Pred::NetworkBoundedTransfer => bounded_transfer_seen(arts),
        Pred::ObservationSamplesAtLeast(n) => observation_samples_seen(arts, n),
        Pred::RunValidationMeasured => run_validation_measured_spec(arts),
        Pred::All(ps) => forall|i: int| 0 <= i < ps@.len() ==> pred_holds(arts, #[trigger] ps@[i]),
        Pred::Any(ps) => exists|i: int| 0 <= i < ps@.len() && pred_holds(arts, #[trigger] ps@[i]),
        Pred::Not(b) => !pred_holds(arts, *b),
    }
}

/// Some artifact of kind `k` satisfies `f` exactly when some artifact of the
/// kind's slice does.
pub proof fn lemma_any_of_kind(arts: Seq<ArtifactMeta>, k: Kind, f: spec_fn(ArtifactMeta) -> bool)
    ensures
        any_of_kind(arts, k, f) <==> exists|j: int| 0 <= j < of_kind(arts, k).len() && f(#[trigger] of_kind(arts, k)[j]),
{
    let ok = of_kind(arts, k);
    if any_of_kind(arts, k, f) {
        let i = choose|i: int| 0 <= i < arts.len() && arts[i].kind == k && f(arts[i]);
        let m = arts[i];
        assert(arts.contains(m));
        lemma_of_kind_contains(arts, k, m);
        let j = choose|j: int| 0 <= j < ok.len() && ok[j] == m;
        assert(f(ok[j]));
    }
    if exists|j: int| 0 <= j < ok.len() && f(#[trigger] ok[j]) {
        let j = choose|j: int| 0 <= j < ok.len() && f(#[trigger] ok[j]);
        let m = ok[j];
        assert(ok.contains(m));
        lemma_of_kind_contains(arts, k, m);
        let i = choose|i: int| 0 <= i < arts.len() && arts[i] == m;
        assert(arts[i].kind == k && f(arts[i]));
    }
}

} // verus!

verus! {

fn pressure_effect_meta(m: &ArtifactMeta, pressure_kind: &str) -> (r: bool)
    ensures
        r == pressure_effect_fact(*m, pressure_kind@),
{
    match &m.loaded {
        Some(l) => is_measured_status(&l.status) && match &l.payload {
            LoadedPayload::Pressure(p) => str_eq(p.pressure_kind.as_str(), pressure_kind) && p.effect_observed,
            _ => false,
        },
        None => false,
    }
}

/// Whether a measured pressure artifact of the given kind observed an effect.
fn pressure_effect_observed(store: &EvidenceStore, pressure_kind: &str) -> (r: bool)
    requires
        store.wf(),
    ensures
        r == pressure_effect_seen(store.artifacts_spec(), pressure_kind@),
{
    let found = store.iter(Kind::Pressure);
    let ghost ok = of_kind(store.artifacts_spec(), Kind::Pressure);
    let mut j: usize = 0;
    while j < found.len()
        invariant
            found@.len() == ok.len(),
            ok == of_kind(store.artifacts_spec(), Kind::Pressure),
            forall|q: int| 0 <= q < found@.len() ==> *found@[q] == ok[q],
            j <= found@.len(),
            forall|q: int| 0 <= q < j ==> !pressure_effect_fact(#[trigger] ok[q], pressure_kind@),
        decreases found.len() - j,
    {
        if pressure_effect_meta(found[j], pressure_kind) {
            proof {
                lemma_any_of_kind(store.artifacts_spec(), Kind::Pressure, |m: ArtifactMeta| pressure_effect_fact(m, pressure_kind@));
                assert(pressure_effect_fact(ok[j as int], pressure_kind@));
            }
            return true;
        }
        j = j + 1;
    }
    proof {
        lemma_any_of_kind(store.artifacts_spec(), Kind::Pressure, |m: ArtifactMeta| pressure_effect_fact(m, pressure_kind@));
    }
    false
}


fn composite_meta(m: &ArtifactMeta, scenario: &str) -> (r: bool)
    ensures
        r == composite_fact(*m, scenario@),
{
    match &m.loaded {
        Some(l) => is_measured_status(&l.status) && match &l.payload {
            LoadedPayload::Composite(c) => str_eq(c.scenario.as_str(), scenario)
                && str_eq(c.coupling_evidence_class.as_str(), "composite_measured"),
            _ => false,
        },
        None => false,
    }
}

fn load_duration_meta(m: &ArtifactMeta, minimum_ms: u64, Ghost(seconds): Ghost<u64>) -> (r: bool)
    requires
        minimum_ms == saturating_ms(seconds),
    ensures
        r == load_duration_fact(*m, seconds),
{
    match &m.loaded {
        Some(l) => is_measured_status(&l.status) && match &l.payload {
            LoadedPayload::Load(p) => p.duration_ms >= minimum_ms,
            _ => false,
        },
        None => false,
    }
}

fn bounded_transfer_meta(m: &ArtifactMeta) -> (r: bool)
    ensures
        r == bounded_transfer_fact(*m),
{
    match &m.loaded {
        Some(l) => is_measured_status(&l.status) && match &l.payload {
            LoadedPayload::Pressure(p) => {
                let mode_ok = match &p.network_mode {
                    Some(mode) => str_eq(mode.as_str(), "bounded_transfer"),
                    None => false,
                };
                let endpoint_ok = match p.network_endpoint_available {
                    Some(b) => b,
                    None => false,
                };
                let bytes_ok = match p.network_traffic_generated_bytes {
                    Some(b) => b > 0,
                    None => false,
                };
                str_eq(p.pressure_kind.as_str(), "network_io") && mode_ok && endpoint_ok && bytes_ok
            },
            _ => false,
        },
        None => false,
    }
}

fn observation_meta(m: &ArtifactMeta, samples: usize) -> (r: bool)
    ensures
        r == observation_fact(*m, samples),
{
    match &m.loaded {
        Some(l) => is_measured_status(&l.status) && match &l.payload {
            LoadedPayload::Observation(o) => o.sample_count >= samples,
            _ => false,
        },
        None => false,
    }
}

/// Whether a measured composite of the scenario recorded measured coupling.
fn composite_measured(store: &EvidenceStore, scenario: &str) -> (r: bool)
    requires
        store.wf(),
    ensures
        r == composite_seen(store.artifacts_spec(), scenario@),
{
    let found = store.iter(Kind::Composite);
    let ghost ok = of_kind(store.artifacts_spec(), Kind::Composite);
    let mut j: usize = 0;
    while j < found.len()
        invariant
            found@.len() == ok.len(),
            ok == of_kind(store.artifacts_spec(), Kind::Composite),
            forall|q: int| 0 <= q < found@.len() ==> *found@[q] == ok[q],
            j <= found@.len(),
            forall|q: int| 0 <= q < j ==> !composite_fact(#[trigger] ok[q], scenario@),
        decreases found.len() - j,
    {
        if composite_meta(found[j], scenario) {
            proof {
                lemma_any_of_kind(store.artifacts_spec(), Kind::Composite, |m: ArtifactMeta| composite_fact(m, scenario@));
                assert(composite_fact(ok[j as int], scenario@));
            }
            return true;
        }
        j = j + 1;
    }
    proof {
        lemma_any_of_kind(store.artifacts_spec(), Kind::Composite, |m: ArtifactMeta| composite_fact(m, scenario@));
    }
    false
}

/// Whether a measured load lasted at least the given milliseconds.
fn load_duration_scan(store: &EvidenceStore, minimum_ms: u64, Ghost(seconds): Ghost<u64>) -> (r: bool)
    requires
        store.wf(),
        minimum_ms == saturating_ms(seconds),
    ensures
        r == load_duration_seen(store.artifacts_spec(), seconds),
{
    let found = store.iter(Kind::Load);
    let ghost ok = of_kind(store.artifacts_spec(), Kind::Load);
    let mut j: usize = 0;
    while j < found.len()
        invariant
            found@.len() == ok.len(),
            minimum_ms == saturating_ms(seconds),
            ok == of_kind(store.artifacts_spec(), Kind::Load),
            forall|q: int| 0 <= q < found@.len() ==> *found@[q] == ok[q],
            j <= found@.len(),
            forall|q: int| 0 <= q < j ==> !load_duration_fact(#[trigger] ok[q], seconds),
        decreases found.len() - j,
    {
        if load_duration_meta(found[j], minimum_ms, Ghost(seconds)) {
            proof {
                lemma_any_of_kind(store.artifacts_spec(), Kind::Load, |m: ArtifactMeta| load_duration_fact(m, seconds));
                assert(load_duration_fact(ok[j as int], seconds));
            }
            return true;
        }
        j = j + 1;
    }
    proof {
        lemma_any_of_kind(store.artifacts_spec(), Kind::Load, |m: ArtifactMeta| load_duration_fact(m, seconds));
    }
    false
}

/// Whether a measured endpoint-backed bounded network transfer moved data.
fn network_bounded_transfer(store: &EvidenceStore) -> (r: bool)
    requires
        store.wf(),
    ensures
        r == bounded_transfer_seen(store.artifacts_spec()),
{
    let found = store.iter(Kind::Pressure);
    let ghost ok = of_kind(store.artifacts_spec(), Kind::Pressure);
    let mut j: usize = 0;
    while j < found.len()
        invariant
            found@.len() == ok.len(),
            ok == of_kind(store.artifacts_spec(), Kind::Pressure),
            forall|q: int| 0 <= q < found@.len() ==> *found@[q] == ok[q],
            j <= found@.len(),
            forall|q: int| 0 <= q < j ==> !bounded_transfer_fact(#[trigger] ok[q]),
        decreases found.len() - j,
    {
        if bounded_transfer_meta(found[j]) {
            proof {
                lemma_any_of_kind(store.artifacts_spec(), Kind::Pressure, |m: ArtifactMeta| bounded_transfer_fact(m));
                assert(bounded_transfer_fact(ok[j as int]));
            }
            return true;
        }
        j = j + 1;
    }
    proof {
        lemma_any_of_kind(store.artifacts_spec(), Kind::Pressure, |m: ArtifactMeta| bounded_transfer_fact(m));
    }
    false
}

/// Whether a measured observation has at least the given sample count.
fn observation_samples_at_least(store: &EvidenceStore, samples: usize) -> (r: bool)
    requires
        store.wf(),
    ensures
        r == observation_samples_seen(store.artifacts_spec(), samples),
{
    let found = store.iter(Kind::Observation);
    let ghost ok = of_kind(store.artifacts_spec(), Kind::Observation);
    let mut j: usize = 0;
    while j < found.len()
        invariant
            found@.len() == ok.len(),
            ok == of_kind(store.artifacts_spec(), Kind::Observation),
            forall|q: int| 0 <= q < found@.len() ==> *found@[q] == ok[q],
            j <= found@.len(),
            forall|q: int| 0 <= q < j ==> !observation_fact(#[trigger] ok[q], samples),
        decreases found.len() - j,
    {
        if observation_meta(found[j], samples) {
            proof {
                lemma_any_of_kind(store.artifacts_spec(), Kind::Observation, |m: ArtifactMeta| observation_fact(m, samples));
                assert(observation_fact(ok[j as int], samples));
            }
            return true;
        }
        j = j + 1;
    }
    proof {
        lemma_any_of_kind(store.artifacts_spec(), Kind::Observation, |m: ArtifactMeta| observation_fact(m, samples));
    }
    false
}

/// Whether a measured load lasted at least `seconds` (saturating at the
/// largest representable number of milliseconds).
fn load_duration_at_least_seconds(store: &EvidenceStore, seconds: u64) -> (r: bool)
    requires
        store.wf(),
    ensures
        r == load_duration_seen(store.artifacts_spec(), seconds),
{
    let minimum_ms: u64 = if seconds > u64::MAX / 1000 { u64::MAX } else { seconds * 1000 };
    load_duration_scan(store, minimum_ms, Ghost(seconds))
}


/// Every artifact of kind `k` satisfies `g` exactly when every artifact of
/// the kind's slice does.
pub proof fn lemma_all_of_kind(arts: Seq<ArtifactMeta>, k: Kind, g: spec_fn(ArtifactMeta) -> bool)
    ensures
        (forall|i: int| 0 <= i < arts.len() && arts[i].kind == k ==> g(#[trigger] arts[i]))
            <==> (forall|j: int| 0 <= j < of_kind(arts, k).len() ==> g(#[trigger] of_kind(arts, k)[j])),
{
    let ng = |m: ArtifactMeta| !g(m);
    lemma_any_of_kind(arts, k, ng);
    if !(forall|i: int| 0 <= i < arts.len() && arts[i].kind == k ==> g(#[trigger] arts[i])) {
        let i = choose|i: int| !(0 <= i < arts.len() && arts[i].kind == k ==> g(#[trigger] arts[i]));
        assert(ng(arts[i]));
    }
    if !(forall|j: int| 0 <= j < of_kind(arts, k).len() ==> g(#[trigger] of_kind(arts, k)[j])) {
        let j = choose|j: int| !(0 <= j < of_kind(arts, k).len() ==> g(#[trigger] of_kind(arts, k)[j]));
        assert(ng(of_kind(arts, k)[j]));
    }
}

/// Whether a full-set run validation counts as measured: measured status
/// and overall validity, and a run-set identity.
pub fn is_measured_fullset_validation(status: &Status, payload: &RunValidationPayload) -> (r: bool)
    ensures
        r == measured_fullset_spec(*status, *payload),
{
    let status_measured = match status {
        Status::Measured => true,
        _ => false,
    };
    status_measured && payload.overall_validity == GovernorValidity::Measured && payload.has_run_set_identity()
}

/// Whether the full-set run validations are all measured, with at least one.
fn run_validation_measured(store: &EvidenceStore) -> (r: bool)
    requires
        store.wf(),
    ensures
        r == run_validation_measured_spec(store.artifacts_spec()),
{
    let found = store.iter(Kind::ReportRunValidation);
    let ghost ok = of_kind(store.artifacts_spec(), Kind::ReportRunValidation);
    let mut saw_fullset_validation = false;
    let mut all_fullset_validations_measured = true;
    let mut j: usize = 0;
    while j < found.len()
        invariant
            found@.len() == ok.len(),
            ok == of_kind(store.artifacts_spec(), Kind::ReportRunValidation),
            forall|q: int| 0 <= q < found@.len() ==> *found@[q] == ok[q],
            j <= found@.len(),
            saw_fullset_validation == exists|q: int| 0 <= q < j && fullset_validation_fact(#[trigger] ok[q]),
            all_fullset_validations_measured == forall|q: int| 0 <= q < j ==> validation_acceptable_fact(#[trigger] ok[q]),
        decreases found.len() - j,
    {
        let meta = found[j];
        match &meta.loaded {
            None => {
                all_fullset_validations_measured = false;
            },
            Some(l) => match &l.payload {
                LoadedPayload::RunValidation(p) => {
                    if str_eq(p.profile.as_str(), FULLSET_PROFILE) {
                        saw_fullset_validation = true;
                        let measured = is_measured_fullset_validation(&l.status, p);
                        all_fullset_validations_measured = all_fullset_validations_measured && measured;
                    }
                },
                _ => {
                    all_fullset_validations_measured = false;
                },
            },
        }
        proof {
            assert(*found@[j as int] == ok[j as int]);
            if saw_fullset_validation {
                if fullset_validation_fact(ok[j as int]) {
                    assert(exists|q: int| 0 <= q < j + 1 && fullset_validation_fact(#[trigger] ok[q]));
                }
            }
        }
        j = j + 1;
    }
    proof {
        lemma_any_of_kind(store.artifacts_spec(), Kind::ReportRunValidation, |m: ArtifactMeta| fullset_validation_fact(m));
        lemma_all_of_kind(store.artifacts_spec(), Kind::ReportRunValidation, |m: ArtifactMeta| validation_acceptable_fact(m));
    }
    saw_fullset_validation && all_fullset_validations_measured
}


/// Whether any artifact of the kind is indexed.
fn present(store: &EvidenceStore, kind: Kind) -> (r: bool)
    requires
        store.wf(),
    ensures
        r == has_kind(store.artifacts_spec(), kind),
{
    let found = store.iter(kind);
    proof {
        lemma_has_kind(store.artifacts_spec(), kind);
    }
    found.len() > 0
}

/// Evaluation is compositional: a conjunction holds when every part holds,
/// a disjunction when some part holds, a negation when its part does not;
/// presence is a non-empty slice of the kind; a load duration is met by some
/// measured load of the kind's slice that lasted long enough.
pub proof fn law_pred_composition(arts: Seq<ArtifactMeta>, p: Pred)
    ensures
        match p {
            Pred::All(ps) => pred_holds(arts, p) == (forall|i: int| 0 <= i < ps@.len() ==> pred_holds(arts, #[trigger] ps@[i])),
            Pred::Any(ps) => pred_holds(arts, p) == (exists|i: int| 0 <= i < ps@.len() && pred_holds(arts, #[trigger] ps@[i])),
            Pred::Not(b) => pred_holds(arts, p) == !pred_holds(arts, *b),
            Pred::Present(k) => pred_holds(arts, p) == (of_kind(arts, k).len() > 0),
            Pred::LoadDurationAtLeastSeconds(seconds) => pred_holds(arts, p) == (exists|j: int|
                0 <= j < of_kind(arts, Kind::Load).len() && load_duration_fact(#[trigger] of_kind(arts, Kind::Load)[j], seconds)),
            _ => true,
        },
{
    match p {
        Pred::All(ps) => {
            assert(decreases_to!(p => ps));
        },
        Pred::Any(ps) => {
            assert(decreases_to!(p => ps));
        },
        Pred::Not(b) => {},
        Pred::Present(k) => {
            lemma_has_kind(arts, k);
        },
        Pred::LoadDurationAtLeastSeconds(seconds) => {
            lemma_any_of_kind(arts, Kind::Load, |m: ArtifactMeta| load_duration_fact(m, seconds));
        },
        _ => {},
    }
}

/// Evaluates a predicate over the store.
pub fn eval_pred(store: &EvidenceStore, pred: &Pred) -> (r: bool)
    requires
        store.wf(),
    ensures
        r == pred_holds(store.artifacts_spec(), *pred),
    decreases pred,
{
    match pred {
        Pred::Present(kind) => present(store, *kind),
        Pred::PressureEffect(pressure_kind) => pressure_effect_observed(store, pressure_kind),
        Pred::CompositeMeasured(scenario) => composite_measured(store, scenario),
        Pred::LoadDurationAtLeastSeconds(seconds) => load_duration_at_least_seconds(store, *seconds),
        Pred::NetworkBoundedTransfer => network_bounded_transfer(store),
        Pred::ObservationSamplesAtLeast(samples) => observation_samples_at_least(store, *samples),
        Pred::RunValidationMeasured => run_validation_measured(store),
        Pred::All(preds) => {
            proof {
                assert(decreases_to!(*pred => *preds));
            }
            eval_all(store, preds)
        },
        Pred::Any(preds) => eval_any(store, preds),
        Pred::Not(inner) => !eval_pred(store, inner),
    }
}


fn eval_all(store: &EvidenceStore, preds: &Vec<Pred>) -> (r: bool)
    requires
        store.wf(),
    ensures
        r == forall|i: int| 0 <= i < preds@.len() ==> pred_holds(store.artifacts_spec(), #[trigger] preds@[i]),
    decreases preds,
{
    let mut i: usize = 0;
    while i < preds.len()
        invariant
            store.wf(),
            i <= preds@.len(),
            forall|q: int| 0 <= q < i ==> pred_holds(store.artifacts_spec(), #[trigger] preds@[q]),
        decreases preds.len() - i,
    {
        proof {
            assert(decreases_to!(*preds => preds@));
            assert(decreases_to!(preds@ => preds@[i as int]));
        }
        if !eval_pred(store, &preds[i]) {
            return false;
        }
        i = i + 1;
    }
    true
}

fn eval_any(store: &EvidenceStore, preds: &Vec<Pred>) -> (r: bool)
    requires
        store.wf(),
    ensures
        r == exists|i: int| 0 <= i < preds@.len() && pred_holds(store.artifacts_spec(), #[trigger] preds@[i]),
    decreases preds,
{
    let mut i: usize = 0;
    while i < preds.len()
        invariant
            store.wf(),
            i <= preds@.len(),
            forall|q: int| 0 <= q < i ==> !pred_holds(store.artifacts_spec(), #[trigger] preds@[q]),
        decreases preds.len() - i,
    {
        proof {
            assert(decreases_to!(*preds => preds@));
            assert(decreases_to!(preds@ => preds@[i as int]));
        }
        if eval_pred(store, &preds[i]) {
            return true;
        }
        i = i + 1;
    }
    false
}


/// `s` is the reference of an indexed artifact of one of the kinds.
pub open spec fn is_ref_of_kinds(arts: Seq<ArtifactMeta>, kinds: Seq<Kind>, s: Seq<char>) -> bool {
    exists|i: int| 0 <= i < arts.len() && kinds.contains(arts[i].kind) && (#[trigger] arts[i]).artifact_ref@ == s
}

/// The labels, in order, of the kinds of which nothing is indexed.
pub open spec fn missing_labels(arts: Seq<ArtifactMeta>, kinds: Seq<Kind>) -> Seq<Seq<char>>
    decreases kinds.len(),
{
    if kinds.len() == 0 {
        Seq::empty()
    } else {
        let rest = missing_labels(arts, kinds.drop_last());
        if has_kind(arts, kinds.last()) {
            rest
        } else {
            rest.push(kind_label_spec(kinds.last()))
        }
    }
}

/// What evaluating `rule` against the indexed artifacts yields.
pub open spec fn evaluation_of(arts: Seq<ArtifactMeta>, rule: Rule, e: RuleEvaluation) -> bool {
    &&& e.rule_id@ == rule.id@
    &&& e.claim_id@ == rule.claim_id@
    &&& e.matched == pred_holds(arts, rule.when)
    &&& e.decision == (if e.matched { rule.on_match } else { rule.on_miss })
    &&& strictly_sorted(views(e.evidence_refs@))
    &&& forall|s: Seq<char>| views(e.evidence_refs@).contains(s) <==> is_ref_of_kinds(arts, rule.evidence_kinds@, s)
    &&& views(e.missing@) == missing_labels(arts, rule.evidence_kinds@)
    &&& views(e.next_evidence@) == (if e.matched { Seq::empty() } else { str_views(rule.next_evidence@) })
}

fn kind_listed(kinds: &Vec<Kind>, kind: Kind) -> (r: bool)
    ensures
        r == kinds@.contains(kind),
{
    let mut i: usize = 0;
    while i < kinds.len()
        invariant
            i <= kinds@.len(),
            forall|q: int| 0 <= q < i ==> kinds@[q] != kind,
        decreases kinds.len() - i,
    {
        if kinds[i] == kind {
            assert(kinds@[i as int] == kind);
            return true;
        }
        i = i + 1;
    }
    false
}

/// The references of the artifacts of the given kinds, sorted, without
/// repetition.
/// The reference of an indexed artifact.
pub fn artifact_ref(meta: &crate::evidence::store::ArtifactMeta) -> (r: String)
    ensures
        r@ == meta.artifact_ref@,
{
    owned(meta.artifact_ref.as_str())
}

fn refs_for_kinds(store: &EvidenceStore, kinds: &Vec<Kind>) -> (refs: Vec<String>)
    ensures
        strictly_sorted(views(refs@)),
        forall|s: Seq<char>| views(refs@).contains(s) <==> is_ref_of_kinds(store.artifacts_spec(), kinds@, s),
{
    let all = store.all();
    let mut refs: Vec<String> = Vec::new();
    let mut i: usize = 0;
    while i < all.len()
        invariant
            all@ == store.artifacts_spec(),
            i <= all@.len(),
            forall|s: Seq<char>| views(refs@).contains(s) <==> is_ref_of_kinds(all@.subrange(0, i as int), kinds@, s),
        decreases all.len() - i,
    {
        let ghost prev = refs@;
        let ghost before = all@.subrange(0, i as int);
        let ghost after = all@.subrange(0, i + 1);
        let listed = kind_listed(kinds, all[i].kind);
        if listed {
            refs.push(artifact_ref(&all[i]));
        }
        proof {
            assert forall|s: Seq<char>| views(refs@).contains(s) <==> is_ref_of_kinds(after, kinds@, s) by {
                if is_ref_of_kinds(after, kinds@, s) {
                    let q = choose|q: int| 0 <= q < after.len() && kinds@.contains(after[q].kind) && (#[trigger] after[q]).artifact_ref@ == s;
                    if q < i {
                        assert(before[q] == after[q]);
                        assert(is_ref_of_kinds(before, kinds@, s));
                        assert(views(prev).contains(s));
                        let w = choose|w: int| 0 <= w < views(prev).len() && views(prev)[w] == s;
                        assert(views(refs@)[w] == s);
                    } else {
                        assert(views(refs@)[prev.len() as int] == s);
                    }
                }
                if views(refs@).contains(s) {
                    let w = choose|w: int| 0 <= w < views(refs@).len() && views(refs@)[w] == s;
                    if w < prev.len() {
                        assert(views(prev)[w] == s);
                        assert(views(prev).contains(s));
                        let q = choose|q: int| 0 <= q < before.len() && kinds@.contains(before[q].kind) && (#[trigger] before[q]).artifact_ref@ == s;
                        assert(after[q] == before[q]);
                    } else {
                        assert(after[i as int] == all@[i as int]);
                    }
                }
            }
        }
        i = i + 1;
    }
    proof {
        assert(all@.subrange(0, all@.len() as int) =~= all@);
    }
    sorted_unique(refs)
}

/// The labels of the kinds of which nothing is indexed, in order.
fn missing_for_kinds(store: &EvidenceStore, kinds: &Vec<Kind>) -> (missing: Vec<String>)
    requires
        store.wf(),
    ensures
        views(missing@) == missing_labels(store.artifacts_spec(), kinds@),
{
    let mut missing: Vec<String> = Vec::new();
    let mut i: usize = 0;
    while i < kinds.len()
        invariant
            store.wf(),
            i <= kinds@.len(),
            views(missing@) == missing_labels(store.artifacts_spec(), kinds@.subrange(0, i as int)),
        decreases kinds.len() - i,
    {
        let ghost prev = missing@;
        proof {
            assert(kinds@.subrange(0, i + 1).drop_last() =~= kinds@.subrange(0, i as int));
        }
        if !present(store, kinds[i]) {
            missing.push(owned(kind_label(&kinds[i])));
            proof {
                assert(views(missing@) =~= views(prev).push(kind_label_spec(kinds@[i as int])));
            }
        }
        i = i + 1;
    }
    proof {
        assert(kinds@.subrange(0, kinds@.len() as int) =~= kinds@);
    }
    missing
}

/// Evaluates one rule against the store.
pub fn evaluate_rule(store: &EvidenceStore, rule: &Rule) -> (e: RuleEvaluation)
    requires
        store.wf(),
    ensures
        evaluation_of(store.artifacts_spec(), *rule, e),
{
    let matched = eval_pred(store, &rule.when);
    let evidence_refs = refs_for_kinds(store, &rule.evidence_kinds);
    let missing = missing_for_kinds(store, &rule.evidence_kinds);
    let next_evidence = if matched {
        let empty: Vec<String> = Vec::new();
        proof {
            assert(views(empty@) =~= Seq::empty());
        }
        empty
    } else {
        owned_all(&rule.next_evidence)
    };
    RuleEvaluation {
        rule_id: owned(rule.id),
        claim_id: owned(rule.claim_id),
        matched,
        decision: if matched { rule.on_match } else { rule.on_miss },
        evidence_refs,
        missing,
        next_evidence,
    }
}

/// Evaluates every rule of a table, in order.
pub fn evaluate_rules(store: &EvidenceStore, rules: &Vec<Rule>) -> (evaluations: Vec<RuleEvaluation>)
    requires
        store.wf(),
    ensures
        evaluations@.len() == rules@.len(),
        forall|i: int| 0 <= i < rules@.len() ==> evaluation_of(store.artifacts_spec(), rules@[i], #[trigger] evaluations@[i]),
{
    let mut evaluations: Vec<RuleEvaluation> = Vec::new();
    let mut i: usize = 0;
    while i < rules.len()
        invariant
            store.wf(),
            i <= rules@.len(),
            evaluations@.len() == i,
            forall|q: int| 0 <= q < i ==> evaluation_of(store.artifacts_spec(), rules@[q], #[trigger] evaluations@[q]),
        decreases rules.len() - i,
    {
        let e = evaluate_rule(store, &rules[i]);
        evaluations.push(e);
        i = i + 1;
    }
    evaluations
}


/// The claim an evaluation yields: its claim, decision and evidence, and as
/// next evidence the catalog's defaults for the claim together with the
/// rule's own, sorted and without repetition.
pub open spec fn claim_of(e: RuleEvaluation, c: Claim) -> bool {
    &&& c.claim_id@ == e.claim_id@
    &&& c.decision == e.decision
    &&& views(c.evidence_refs@) == views(e.evidence_refs@)
    &&& strictly_sorted(views(c.next_evidence@))
    &&& forall|s: Seq<char>| views(c.next_evidence@).contains(s) <==>
        (catalog_next_evidence(e.claim_id@).contains(s) || views(e.next_evidence@).contains(s))
}

/// `s` is the claim of a blocked evaluation.
pub open spec fn is_blocked_claim(evaluations: Seq<RuleEvaluation>, s: Seq<char>) -> bool {
    exists|i: int| 0 <= i < evaluations.len() && (#[trigger] evaluations[i]).decision == Decision::Blocked
        && evaluations[i].claim_id@ == s
}

/// `s` is next evidence named by some evaluation.
pub open spec fn is_next_evidence(evaluations: Seq<RuleEvaluation>, s: Seq<char>) -> bool {
    exists|i: int| 0 <= i < evaluations.len() && views((#[trigger] evaluations[i]).next_evidence@).contains(s)
}

/// No evaluation is blocked.
pub open spec fn none_blocked(evaluations: Seq<RuleEvaluation>) -> bool {
    forall|i: int| 0 <= i < evaluations.len() ==> (#[trigger] evaluations[i]).decision != Decision::Blocked
}

/// The claim for one rule evaluation.
pub fn claim_for_evaluation(evaluation: &RuleEvaluation) -> (claim: Claim)
    ensures
        claim_of(*evaluation, claim),
{
    let mut next_evidence = match claim_definition(evaluation.claim_id.as_str()) {
        Some(definition) => owned_all(&definition.default_next_evidence),
        None => {
            proof {
                lemma_uncataloged_has_no_defaults(evaluation.claim_id@);
            }
            let empty: Vec<String> = Vec::new();
            assert(views(empty@) =~= catalog_next_evidence(evaluation.claim_id@));
            empty
        },
    };
    let ghost defaults = views(next_evidence@);
    extend_all(&mut next_evidence, &evaluation.next_evidence);
    let ghost joined = views(next_evidence@);
    let next_evidence = sorted_unique(next_evidence);
    proof {
        assert forall|s: Seq<char>| joined.contains(s) <==> (defaults.contains(s) || views(evaluation.next_evidence@).contains(s)) by {
            let extra = views(evaluation.next_evidence@);
            assert(joined =~= defaults + extra);
            if joined.contains(s) {
                let k = choose|k: int| 0 <= k < joined.len() && joined[k] == s;
                if k >= defaults.len() {
                    assert(extra[k - defaults.len()] == s);
                }
            }
            if defaults.contains(s) {
                let k = choose|k: int| 0 <= k < defaults.len() && defaults[k] == s;
                assert(joined[k] == s);
            }
            if extra.contains(s) {
                let k = choose|k: int| 0 <= k < extra.len() && extra[k] == s;
                assert(joined[defaults.len() + k] == s);
            }
        }
    }
    Claim {
        claim_id: owned(evaluation.claim_id.as_str()),
        decision: evaluation.decision,
        evidence_refs: copy_all(&evaluation.evidence_refs),
        next_evidence,
    }
}

/// A claim outside the catalog has no default next evidence.
pub proof fn lemma_uncataloged_has_no_defaults(claim_id: Seq<char>)
    requires
        !catalog_ids().contains(claim_id),
    ensures
        catalog_next_evidence(claim_id) == Seq::<Seq<char>>::empty(),
{
    assert(catalog_ids()[0] == crate::evidence::claim::TARGET_SELECTION_PI4_SUFFICIENT@);
    assert(catalog_ids()[1] == crate::evidence::claim::PRODUCTION_READY@);
    assert(catalog_ids()[2] == crate::evidence::claim::COUPLING_MEMORY_TO_STORAGE@);
}

/// The claims of the blocked evaluations, sorted, without repetition.
pub fn blocked_claims(evaluations: &Vec<RuleEvaluation>) -> (claims: Vec<String>)
    ensures
        strictly_sorted(views(claims@)),
        forall|s: Seq<char>| views(claims@).contains(s) <==> is_blocked_claim(evaluations@, s),
{
    let mut claims: Vec<String> = Vec::new();
    let mut i: usize = 0;
    while i < evaluations.len()
        invariant
            i <= evaluations@.len(),
            forall|s: Seq<char>| views(claims@).contains(s) <==> is_blocked_claim(evaluations@.subrange(0, i as int), s),
        decreases evaluations.len() - i,
    {
        let ghost prev = views(claims@);
        let ghost before = evaluations@.subrange(0, i as int);
        let ghost after = evaluations@.subrange(0, i + 1);
        if evaluations[i].decision == Decision::Blocked {
            claims.push(owned(evaluations[i].claim_id.as_str()));
        }
        proof {
            assert forall|s: Seq<char>| views(claims@).contains(s) <==> is_blocked_claim(after, s) by {
                if is_blocked_claim(after, s) {
                    let q = choose|q: int| 0 <= q < after.len() && (#[trigger] after[q]).decision == Decision::Blocked && after[q].claim_id@ == s;
                    if q < i {
                        assert(before[q] == after[q]);
                        assert(is_blocked_claim(before, s));
                        assert(prev.contains(s));
                        let w = choose|w: int| 0 <= w < prev.len() && prev[w] == s;
                        assert(views(claims@)[w] == s);
                    } else {
                        assert(views(claims@)[prev.len() as int] == s);
                    }
                }
                if views(claims@).contains(s) {
                    let w = choose|w: int| 0 <= w < views(claims@).len() && views(claims@)[w] == s;
                    if w < prev.len() {
                        assert(prev[w] == s);
                        assert(prev.contains(s));
                        let q = choose|q: int| 0 <= q < before.len() && (#[trigger] before[q]).decision == Decision::Blocked && before[q].claim_id@ == s;
                        assert(after[q] == before[q]);
                    } else {
                        assert(after[i as int] == evaluations@[i as int]);
                    }
                }
            }
        }
        i = i + 1;
    }
    proof {
        assert(evaluations@.subrange(0, evaluations@.len() as int) =~= evaluations@);
    }
    sorted_unique(claims)
}

/// The next evidence named by the evaluations, sorted, without repetition.
pub fn next_evidence(evaluations: &Vec<RuleEvaluation>) -> (items: Vec<String>)
    ensures
        strictly_sorted(views(items@)),
        forall|s: Seq<char>| views(items@).contains(s) <==> is_next_evidence(evaluations@, s),
{
    let mut items: Vec<String> = Vec::new();
    let mut i: usize = 0;
    while i < evaluations.len()
        invariant
            i <= evaluations@.len(),
            forall|s: Seq<char>| views(items@).contains(s) <==> is_next_evidence(evaluations@.subrange(0, i as int), s),
        decreases evaluations.len() - i,
    {
        let ghost prev = views(items@);
        let ghost before = evaluations@.subrange(0, i as int);
        let ghost after = evaluations@.subrange(0, i + 1);
        extend_all(&mut items, &evaluations[i].next_evidence);
        proof {
            let extra = views(evaluations@[i as int].next_evidence@);
            assert(views(items@) =~= prev + extra);
            assert forall|s: Seq<char>| views(items@).contains(s) <==> is_next_evidence(after, s) by {
                if is_next_evidence(after, s) {
                    let q = choose|q: int| 0 <= q < after.len() && views((#[trigger] after[q]).next_evidence@).contains(s);
                    if q < i {
                        assert(before[q] == after[q]);
                        assert(is_next_evidence(before, s));
                        assert(prev.contains(s));
                        let w = choose|w: int| 0 <= w < prev.len() && prev[w] == s;
                        assert(views(items@)[w] == s);
                    } else {
                        assert(after[q] == evaluations@[i as int]);
                        let w = choose|w: int| 0 <= w < extra.len() && extra[w] == s;
                        assert(views(items@)[prev.len() + w] == s);
                    }
                }
                if views(items@).contains(s) {
                    let w = choose|w: int| 0 <= w < views(items@).len() && views(items@)[w] == s;
                    if w < prev.len() {
                        assert(prev[w] == s);
                        assert(prev.contains(s));
                        let q = choose|q: int| 0 <= q < before.len() && views((#[trigger] before[q]).next_evidence@).contains(s);
                        assert(after[q] == before[q]);
                    } else {
                        assert(extra[w - prev.len()] == s);
                        assert(extra.contains(s));
                        assert(after[i as int] == evaluations@[i as int]);
                    }
                }
            }
        }
        i = i + 1;
    }
    proof {
        assert(evaluations@.subrange(0, evaluations@.len() as int) =~= evaluations@);
    }
    sorted_unique(items)
}

/// Partially measured when no evaluation is blocked, insufficient otherwise.
pub fn status_for_evaluations(evaluations: &Vec<RuleEvaluation>) -> (status: Status)
    ensures
        status == (if none_blocked(evaluations@) { Status::MeasuredPartial } else { Status::Insufficient }),
{
    let mut i: usize = 0;
    while i < evaluations.len()
        invariant
            i <= evaluations@.len(),
            forall|q: int| 0 <= q < i ==> (#[trigger] evaluations@[q]).decision != Decision::Blocked,
        decreases evaluations.len() - i,
    {
        if evaluations[i].decision == Decision::Blocked {
            return Status::Insufficient;
        }
        i = i + 1;
    }
    Status::MeasuredPartial
}

/// Whether every evaluation matched its predicate.
pub fn all_matched(evaluations: &Vec<RuleEvaluation>) -> (r: bool)
    ensures
        r == every_matched(evaluations@),
{
    let mut i: usize = 0;
    while i < evaluations.len()
        invariant
            i <= evaluations@.len(),
            forall|q: int| 0 <= q < i ==> (#[trigger] evaluations@[q]).matched,
        decreases evaluations.len() - i,
    {
        if !evaluations[i].matched {
            return false;
        }
        i = i + 1;
    }
    true
}

/// The claims of the evaluations, one per evaluation, in order.
pub fn claims_for_evaluations(evaluations: &Vec<RuleEvaluation>) -> (claims: Vec<Claim>)
    ensures
        claims_of_evaluations(evaluations@, claims@),
{
    let mut claims: Vec<Claim> = Vec::new();
    let mut i: usize = 0;
    while i < evaluations.len()
        invariant
            i <= evaluations@.len(),
            claims@.len() == i,
            forall|q: int| 0 <= q < i ==> claim_of(evaluations@[q], #[trigger] claims@[q]),
        decreases evaluations.len() - i,
    {
        claims.push(claim_for_evaluation(&evaluations[i]));
        i = i + 1;
    }
    claims
}


/// The payload parts that a rule-table report derives from its evaluations.
pub open spec fn rule_report_parts(
    arts: Seq<ArtifactMeta>,
    rules: Seq<Rule>,
    evaluations: Seq<RuleEvaluation>,
    blocked: Seq<String>,
    next: Seq<String>,
) -> bool {
    &&& evaluations.len() == rules.len()
    &&& forall|i: int| 0 <= i < rules.len() ==> evaluation_of(arts, rules[i], #[trigger] evaluations[i])
    &&& strictly_sorted(views(blocked))
    &&& forall|s: Seq<char>| views(blocked).contains(s) <==> is_blocked_claim(evaluations, s)
    &&& strictly_sorted(views(next))
    &&& forall|s: Seq<char>| views(next).contains(s) <==> is_next_evidence(evaluations, s)
}

/// What an evaluation says, as plain values.
pub open spec fn evaluation_view(e: RuleEvaluation)
    -> (Seq<char>, Seq<char>, bool, Decision, Seq<Seq<char>>, Seq<Seq<char>>, Seq<Seq<char>>) {
    (e.rule_id@, e.claim_id@, e.matched, e.decision, views(e.evidence_refs@), views(e.missing@), views(e.next_evidence@))
}

/// A rule's evaluation over the same artifacts is determined: any two
/// evaluations that meet `evaluation_of` say the same.
pub proof fn law_evaluation_determined(arts: Seq<ArtifactMeta>, rule: Rule, a: RuleEvaluation, b: RuleEvaluation)
    requires
        evaluation_of(arts, rule, a),
        evaluation_of(arts, rule, b),
    ensures
        evaluation_view(a) == evaluation_view(b),
{
    crate::text::lemma_sorted_set_determined(views(a.evidence_refs@), views(b.evidence_refs@));
}

/// Reports built from one rule table over the same artifacts carry the same
/// evaluations, in the same order, as `evaluate_rules` gives: the rule
/// report parts, the operating contract and the suitability report all
/// state their evaluations by `evaluation_of`.
pub proof fn law_rule_evaluations_determined(
    arts: Seq<ArtifactMeta>,
    rules: Seq<Rule>,
    a: Seq<RuleEvaluation>,
    b: Seq<RuleEvaluation>,
)
    requires
        a.len() == rules.len(),
        b.len() == rules.len(),
        forall|i: int| 0 <= i < rules.len() ==> evaluation_of(arts, rules[i], #[trigger] a[i]),
        forall|i: int| 0 <= i < rules.len() ==> evaluation_of(arts, rules[i], #[trigger] b[i]),
    ensures
        forall|i: int| 0 <= i < rules.len() ==> evaluation_view(#[trigger] a[i]) == evaluation_view(b[i]),
{
    assert forall|i: int| 0 <= i < rules.len() implies evaluation_view(#[trigger] a[i]) == evaluation_view(b[i]) by {
        law_evaluation_determined(arts, rules[i], a[i], b[i]);
    }
}

/// Blocked claims and next evidence of a report are determined by its
/// evaluations: two reports whose evaluations say the same list the same.
pub proof fn law_report_lists_determined(
    arts: Seq<ArtifactMeta>,
    rules: Seq<Rule>,
    a: Seq<RuleEvaluation>,
    a_blocked: Seq<String>,
    a_next: Seq<String>,
    b: Seq<RuleEvaluation>,
    b_blocked: Seq<String>,
    b_next: Seq<String>,
)
    requires
        rule_report_parts(arts, rules, a, a_blocked, a_next),
        rule_report_parts(arts, rules, b, b_blocked, b_next),
    ensures
        views(a_blocked) == views(b_blocked),
        views(a_next) == views(b_next),
{
    law_rule_evaluations_determined(arts, rules, a, b);
    assert forall|s: Seq<char>| is_blocked_claim(a, s) <==> is_blocked_claim(b, s) by {
        if is_blocked_claim(a, s) {
            let i = choose|i: int| 0 <= i < a.len() && (#[trigger] a[i]).claim_id@ == s && a[i].decision == Decision::Blocked;
            assert(evaluation_view(a[i]) == evaluation_view(b[i]));
        }
        if is_blocked_claim(b, s) {
            let i = choose|i: int| 0 <= i < b.len() && (#[trigger] b[i]).claim_id@ == s && b[i].decision == Decision::Blocked;
            assert(evaluation_view(a[i]) == evaluation_view(b[i]));
        }
    }
    assert forall|s: Seq<char>| is_next_evidence(a, s) <==> is_next_evidence(b, s) by {
        if is_next_evidence(a, s) {
            let i = choose|i: int| 0 <= i < a.len() && views((#[trigger] a[i]).next_evidence@).contains(s);
            assert(evaluation_view(a[i]) == evaluation_view(b[i]));
        }
        if is_next_evidence(b, s) {
            let i = choose|i: int| 0 <= i < b.len() && views((#[trigger] b[i]).next_evidence@).contains(s);
            assert(evaluation_view(a[i]) == evaluation_view(b[i]));
        }
    }
    assert forall|s: Seq<char>| views(a_blocked).contains(s) <==> views(b_blocked).contains(s) by {
        assert(views(a_blocked).contains(s) <==> is_blocked_claim(a, s));
        assert(views(b_blocked).contains(s) <==> is_blocked_claim(b, s));
    }
    assert forall|s: Seq<char>| views(a_next).contains(s) <==> views(b_next).contains(s) by {
        assert(views(a_next).contains(s) <==> is_next_evidence(a, s));
        assert(views(b_next).contains(s) <==> is_next_evidence(b, s));
    }
    crate::text::lemma_sorted_set_determined(views(a_blocked), views(b_blocked));
    crate::text::lemma_sorted_set_determined(views(a_next), views(b_next));
}

/// One claim per evaluation, in order.
pub open spec fn claims_of_evaluations(evaluations: Seq<RuleEvaluation>, claims: Seq<Claim>) -> bool {
    &&& claims.len() == evaluations.len()
    &&& forall|i: int| 0 <= i < evaluations.len() ==> claim_of(evaluations[i], #[trigger] claims[i])
}

/// Every evaluation matched its predicate.
pub open spec fn every_matched(evaluations: Seq<RuleEvaluation>) -> bool {
    forall|i: int| 0 <= i < evaluations.len() ==> (#[trigger] evaluations[i]).matched
}


/// A report is insufficient exactly when it lists a blocked claim: no
/// evaluation is blocked if and only if the blocked-claim list is empty.
pub proof fn law_blocked_claims_track_status(evaluations: Seq<RuleEvaluation>, blocked: Seq<String>)
    requires
        forall|s: Seq<char>| views(blocked).contains(s) <==> is_blocked_claim(evaluations, s),
    ensures
        none_blocked(evaluations) <==> blocked.len() == 0,
{
    if blocked.len() > 0 {
        assert(views(blocked).contains(views(blocked)[0]));
        assert(is_blocked_claim(evaluations, views(blocked)[0]));
    }
    if !none_blocked(evaluations) {
        let i = choose|i: int| 0 <= i < evaluations.len() && (#[trigger] evaluations[i]).decision == Decision::Blocked;
        assert(is_blocked_claim(evaluations, evaluations[i].claim_id@));
        assert(views(blocked).contains(evaluations[i].claim_id@));
    }
}

/// A rule whose two decisions differ decides its match decision exactly
/// when its predicate holds of the evidence, and a matched rule asks for no
/// further evidence.
pub proof fn law_decision_follows_predicate(arts: Seq<ArtifactMeta>, rule: Rule, e: RuleEvaluation)
    requires
        evaluation_of(arts, rule, e),
        rule.on_match != rule.on_miss,
    ensures
        (e.decision == rule.on_match) <==> pred_holds(arts, rule.when),
        pred_holds(arts, rule.when) ==> e.next_evidence@.len() == 0,
{
    if pred_holds(arts, rule.when) {
        assert(views(e.next_evidence@).len() == 0);
    }
}


/// `s` is evidence cited by some evaluation.
pub open spec fn is_evaluation_ref(evaluations: Seq<RuleEvaluation>, s: Seq<char>) -> bool {
    exists|i: int| 0 <= i < evaluations.len() && views((#[trigger] evaluations[i]).evidence_refs@).contains(s)
}

/// The evidence cited by the evaluations, in order.
pub fn evaluation_refs(evaluations: &Vec<RuleEvaluation>) -> (refs: Vec<String>)
    ensures
        forall|s: Seq<char>| views(refs@).contains(s) <==> is_evaluation_ref(evaluations@, s),
{
    let mut refs: Vec<String> = Vec::new();
    let mut i: usize = 0;
    while i < evaluations.len()
        invariant
            i <= evaluations@.len(),
            forall|s: Seq<char>| views(refs@).contains(s) <==> is_evaluation_ref(evaluations@.subrange(0, i as int), s),
        decreases evaluations.len() - i,
    {
        let ghost prev = views(refs@);
        let ghost before = evaluations@.subrange(0, i as int);
        let ghost after = evaluations@.subrange(0, i + 1);
        extend_all(&mut refs, &evaluations[i].evidence_refs);
        proof {
            let extra = views(evaluations@[i as int].evidence_refs@);
            assert(views(refs@) =~= prev + extra);
            assert forall|s: Seq<char>| views(refs@).contains(s) <==> is_evaluation_ref(after, s) by {
                assert(prev.contains(s) <==> is_evaluation_ref(before, s));
                assert(after[i as int] == evaluations@[i as int]);
                if views(refs@).contains(s) {
                    let w = choose|w: int| 0 <= w < views(refs@).len() && views(refs@)[w] == s;
                    if w < prev.len() {
                        assert(prev[w] == s);
                        assert(prev.contains(s));
                        let q = choose|q: int| 0 <= q < before.len() && views((#[trigger] before[q]).evidence_refs@).contains(s);
                        assert(after[q] == before[q]);
                    } else {
                        assert(extra[w - prev.len()] == s);
                        assert(extra.contains(s));
                    }
                }
                if is_evaluation_ref(after, s) {
                    let q = choose|q: int| 0 <= q < after.len() && views((#[trigger] after[q]).evidence_refs@).contains(s);
                    if q < i {
                        assert(before[q] == after[q]);
                        assert(is_evaluation_ref(before, s));
                        let w = choose|w: int| 0 <= w < prev.len() && prev[w] == s;
                        assert(views(refs@)[w] == s);
                    } else {
                        let w = choose|w: int| 0 <= w < extra.len() && extra[w] == s;
                        assert(views(refs@)[prev.len() + w] == s);
                    }
                }
            }
        }
        i = i + 1;
    }
    proof {
        assert(evaluations@.subrange(0, evaluations@.len() as int) =~= evaluations@);
    }
    refs
}

} // verus!

verus! {

/// A pressure effect is established only by a measured pressure artifact of
/// that pressure kind whose effect was observed.
pub proof fn law_pressure_effect_needs_observed_effect(arts: Seq<ArtifactMeta>, pressure_kind: &'static str)
    ensures
        pred_holds(arts, Pred::PressureEffect(pressure_kind)) ==> exists|i: int| 0 <= i < arts.len() && {
            let m = #[trigger] arts[i];
            &&& m.kind == Kind::Pressure
            &&& m.loaded is Some
            &&& measured_spec(m.loaded.unwrap().status)
            &&& m.loaded.unwrap().payload is Pressure
            &&& m.loaded.unwrap().payload->Pressure_0.pressure_kind@ == pressure_kind@
            &&& m.loaded.unwrap().payload->Pressure_0.effect_observed
        },
{
    if pred_holds(arts, Pred::PressureEffect(pressure_kind)) {
        let i = choose|i: int| 0 <= i < arts.len() && arts[i].kind == Kind::Pressure
            && pressure_effect_fact(arts[i], pressure_kind@);
        assert(pressure_effect_fact(arts[i], pressure_kind@));
    }
}

} // verus!
