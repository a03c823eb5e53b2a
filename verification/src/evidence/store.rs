//! The evidence store: an index of the v2 artifacts of one or more run
//! directories, by kind, in the order in which they were indexed.  Reading
//! the directories and parsing the artifacts is done by the caller, which
//! hands each artifact's header, reference and parsed payload to `insert`.

use crate::evidence::envelope::{kind_label_spec, Kind, Status};
use crate::text::str_eq;
use crate::probe::{CompositePayload, LoadPayload, ObservationPayload, PressurePayload};
use crate::run_validation::RunValidationPayload;
use vstd::prelude::*;

verus! {

/// The payload of an indexed artifact, parsed for its kind.
#[derive(Debug, Clone, PartialEq, Eq)]
pub enum LoadedPayload {
    Observation(ObservationPayload),
    Load(LoadPayload),
    Pressure(PressurePayload),
    Composite(CompositePayload),
    RunValidation(RunValidationPayload),
    Other,
}

/// The status and parsed payload of an indexed artifact.
#[derive(Debug, Clone, PartialEq, Eq)]
pub struct LoadedArtifact {
    pub status: Status,
    pub payload: LoadedPayload,
}

/// An indexed artifact.  `loaded` is `None` when the artifact could not be
/// parsed with the payload type of its kind.
#[derive(Debug, Clone, PartialEq, Eq)]
pub struct ArtifactMeta {
    pub path: String,
    pub artifact_ref: String,
    pub kind: Kind,
    pub id: String,
    pub run_id: String,
    pub target_id: String,
    pub loaded: Option<LoadedArtifact>,
}

#[derive(Debug, Clone)]
pub struct EvidenceStore {
    run_dirs: Vec<String>,
    artifacts: Vec<ArtifactMeta>,
    by_kind: Vec<(Kind, Vec<usize>)>,
}

/// Positions, in order, of the artifacts of kind `k`.
pub open spec fn kind_positions(arts: Seq<ArtifactMeta>, k: Kind) -> Seq<usize>
    decreases arts.len(),
{
    if arts.len() == 0 {
        Seq::empty()
    } else {
        let rest = kind_positions(arts.drop_last(), k);
        if arts.last().kind == k {
            rest.push((arts.len() - 1) as usize)
        } else {
            rest
        }
    }
}

/// The artifacts of kind `k`, in indexing order.
pub open spec fn of_kind(arts: Seq<ArtifactMeta>, k: Kind) -> Seq<ArtifactMeta>
    decreases arts.len(),
{
    if arts.len() == 0 {
        Seq::empty()
    } else {
        let rest = of_kind(arts.drop_last(), k);
        if arts.last().kind == k {
            rest.push(arts.last())
        } else {
            rest
        }
    }
}

pub proof fn lemma_kind_positions(arts: Seq<ArtifactMeta>, k: Kind)
    requires
        arts.len() <= usize::MAX,
    ensures
        kind_positions(arts, k).len() == of_kind(arts, k).len(),
        forall|j: int| 0 <= j < kind_positions(arts, k).len() ==> {
            &&& 0 <= #[trigger] kind_positions(arts, k)[j] < arts.len()
            &&& arts[kind_positions(arts, k)[j] as int] == of_kind(arts, k)[j]
        },
    decreases arts.len(),
{
    if arts.len() > 0 {
        let prefix = arts.drop_last();
        lemma_kind_positions(prefix, k);
        let rest_p = kind_positions(prefix, k);
        let rest_o = of_kind(prefix, k);
        assert forall|j: int| 0 <= j < kind_positions(arts, k).len() implies {
            &&& 0 <= #[trigger] kind_positions(arts, k)[j] < arts.len()
            &&& arts[kind_positions(arts, k)[j] as int] == of_kind(arts, k)[j]
        } by {
            if j < rest_p.len() {
                assert(kind_positions(arts, k)[j] == rest_p[j]);
                assert(of_kind(arts, k)[j] == rest_o[j]);
                assert(arts[rest_p[j] as int] == prefix[rest_p[j] as int]);
            } else {
                assert(arts.last().kind == k);
                assert(kind_positions(arts, k)[j] == (arts.len() - 1) as usize);
                assert(of_kind(arts, k)[j] == arts.last());
            }
        }
    }
}

/// Membership in `of_kind`: exactly the artifacts of that kind.
pub proof fn lemma_of_kind_contains(arts: Seq<ArtifactMeta>, k: Kind, m: ArtifactMeta)
    ensures
        of_kind(arts, k).contains(m) <==> (arts.contains(m) && m.kind == k),
    decreases arts.len(),
{
    if arts.len() > 0 {
        let prefix = arts.drop_last();
        lemma_of_kind_contains(prefix, k, m);
        let rest = of_kind(prefix, k);
        let whole = of_kind(arts, k);
        if whole.contains(m) {
            let i = choose|i: int| 0 <= i < whole.len() && whole[i] == m;
            if i < rest.len() {
                assert(rest[i] == m);
                assert(rest.contains(m));
                let q = choose|q: int| 0 <= q < prefix.len() && prefix[q] == m;
                assert(arts[q] == m);
            } else {
                assert(m == arts.last());
                assert(arts[arts.len() - 1] == m);
            }
        }
        if arts.contains(m) && m.kind == k {
            let i = choose|i: int| 0 <= i < arts.len() && arts[i] == m;
            if i < arts.len() - 1 {
                assert(prefix[i] == m);
                assert(rest.contains(m));
                let q = choose|q: int| 0 <= q < rest.len() && rest[q] == m;
                assert(whole[q] == m);
            } else {
                assert(whole[whole.len() - 1] == m);
            }
        }
    }
}

/// Whether any artifact has kind `k`.
pub open spec fn has_kind(arts: Seq<ArtifactMeta>, k: Kind) -> bool {
    exists|i: int| 0 <= i < arts.len() && arts[i].kind == k
}

pub proof fn lemma_has_kind(arts: Seq<ArtifactMeta>, k: Kind)
    ensures
        has_kind(arts, k) <==> of_kind(arts, k).len() > 0,
    decreases arts.len(),
{
    if arts.len() > 0 {
        lemma_has_kind(arts.drop_last(), k);
        if has_kind(arts, k) && arts.last().kind != k {
            let i = choose|i: int| 0 <= i < arts.len() && arts[i].kind == k;
            assert(arts.drop_last()[i].kind == k);
        }
        if has_kind(arts.drop_last(), k) {
            let i = choose|i: int| 0 <= i < arts.drop_last().len() && arts.drop_last()[i].kind == k;
            assert(arts[i].kind == k);
        }
    }
}

/// Indexing one more artifact appends it to the artifacts of its kind and
/// leaves every other kind's artifacts as they were.
pub proof fn law_insert_extends_its_kind(arts: Seq<ArtifactMeta>, meta: ArtifactMeta, k: Kind)
    ensures
        of_kind(arts.push(meta), k) == (if meta.kind == k { of_kind(arts, k).push(meta) } else { of_kind(arts, k) }),
{
    assert(arts.push(meta).drop_last() =~= arts);
}

/// Every kind, each once.
pub open spec fn all_kinds() -> Seq<Kind> {
    seq![
        Kind::Inventory,
        Kind::Observation,
        Kind::Pressure,
        Kind::Composite,
        Kind::ControlResult,
        Kind::Load,
        Kind::Workload,
        Kind::ReportRun,
        Kind::ReportOperatingContract,
        Kind::ReportSuitability,
        Kind::ReportConstraints,
        Kind::ReportConstraintsCheck,
        Kind::ReportRunValidation,
        Kind::ControlGovernorSweepPolicy,
        Kind::WorkflowRecommendation,
        Kind::WorkflowCollectPlan,
    ]
}

/// The number of times `k` occurs in `kinds`.
pub open spec fn occurrences(kinds: Seq<Kind>, k: Kind) -> nat
    decreases kinds.len(),
{
    if kinds.len() == 0 {
        0
    } else {
        occurrences(kinds.drop_last(), k) + if kinds.last() == k { 1nat } else { 0nat }
    }
}

/// The number of artifacts of each of `kinds`, added up.
pub open spec fn kind_total(arts: Seq<ArtifactMeta>, kinds: Seq<Kind>) -> nat
    decreases kinds.len(),
{
    if kinds.len() == 0 {
        0
    } else {
        kind_total(arts, kinds.drop_last()) + of_kind(arts, kinds.last()).len()
    }
}

proof fn lemma_kind_total_push(arts: Seq<ArtifactMeta>, meta: ArtifactMeta, kinds: Seq<Kind>)
    ensures
        kind_total(arts.push(meta), kinds) == kind_total(arts, kinds) + occurrences(kinds, meta.kind),
    decreases kinds.len(),
{
    if kinds.len() > 0 {
        lemma_kind_total_push(arts, meta, kinds.drop_last());
        law_insert_extends_its_kind(arts, meta, kinds.last());
    }
}

proof fn lemma_each_kind_once(k: Kind)
    ensures
        occurrences(all_kinds(), k) == 1,
{
    reveal_with_fuel(occurrences, 17);
}

/// Every indexed artifact is of exactly one kind: the numbers of artifacts
/// of each kind add up to the number of artifacts.
pub proof fn law_kind_counts_sum_to_all(arts: Seq<ArtifactMeta>)
    ensures
        kind_total(arts, all_kinds()) == arts.len(),
    decreases arts.len(),
{
    if arts.len() == 0 {
        lemma_kind_total_empty(all_kinds());
        assert(arts =~= Seq::<ArtifactMeta>::empty());
    } else {
        let prefix = arts.drop_last();
        law_kind_counts_sum_to_all(prefix);
        lemma_kind_total_push(prefix, arts.last(), all_kinds());
        lemma_each_kind_once(arts.last().kind);
        assert(prefix.push(arts.last()) =~= arts);
    }
}

proof fn lemma_kind_total_empty(kinds: Seq<Kind>)
    ensures
        kind_total(Seq::<ArtifactMeta>::empty(), kinds) == 0,
    decreases kinds.len(),
{
    if kinds.len() > 0 {
        lemma_kind_total_empty(kinds.drop_last());
    }
}

/// The kind a serialized label names, if any.
pub fn kind_from_label(label: &str) -> (k: Option<Kind>)
    ensures
        match k {
            Some(k) => kind_label_spec(k) == label@,
            None => forall|x: Kind| kind_label_spec(x) != label@,
        },
{
    proof {
        reveal_strlit("inventory");
        reveal_strlit("observation");
        reveal_strlit("pressure");
        reveal_strlit("composite");
        reveal_strlit("control_result");
        reveal_strlit("load");
        reveal_strlit("workload");
        reveal_strlit("report.run");
        reveal_strlit("report.operating_contract");
        reveal_strlit("report.suitability");
        reveal_strlit("report.constraints");
        reveal_strlit("report.constraints_check");
        reveal_strlit("report.run_validation");
        reveal_strlit("control.governor_sweep_policy");
        reveal_strlit("workflow.recommendation");
        reveal_strlit("workflow.collect_plan");
    }
    if str_eq(label, "inventory") {
        return Some(Kind::Inventory);
    }
    if str_eq(label, "observation") {
        return Some(Kind::Observation);
    }
    if str_eq(label, "pressure") {
        return Some(Kind::Pressure);
    }
    if str_eq(label, "composite") {
        return Some(Kind::Composite);
    }
    if str_eq(label, "control_result") {
        return Some(Kind::ControlResult);
    }
    if str_eq(label, "load") {
        return Some(Kind::Load);
    }
    if str_eq(label, "workload") {
        return Some(Kind::Workload);
    }
    if str_eq(label, "report.run") {
        return Some(Kind::ReportRun);
    }
    if str_eq(label, "report.operating_contract") {
        return Some(Kind::ReportOperatingContract);
    }
    if str_eq(label, "report.suitability") {
        return Some(Kind::ReportSuitability);
    }
    if str_eq(label, "report.constraints") {
        return Some(Kind::ReportConstraints);
    }
    if str_eq(label, "report.constraints_check") {
        return Some(Kind::ReportConstraintsCheck);
    }
    if str_eq(label, "report.run_validation") {
        return Some(Kind::ReportRunValidation);
    }
    if str_eq(label, "control.governor_sweep_policy") {
        return Some(Kind::ControlGovernorSweepPolicy);
    }
    if str_eq(label, "workflow.recommendation") {
        return Some(Kind::WorkflowRecommendation);
    }
    if str_eq(label, "workflow.collect_plan") {
        return Some(Kind::WorkflowCollectPlan);
    }
    None
}

/// The fields of a v2 artifact header that an index entry records.
pub open spec fn header_keys() -> Seq<Seq<char>> {
    seq!["schema"@, "kind"@, "id"@, "run_id"@, "target_id"@]
}

/// The error of a v2 artifact whose header fields are missing, not strings,
/// or of an unknown kind.
pub const ARTIFACT_HEADER_ERROR: &'static str = "v2 artifact header needs string kind, id, run_id and target_id members of a known kind";

/// What indexing the text of a JSON file does: `Err` with the error when
/// the text is not JSON or is a v2 artifact with a bad header or a
/// reference outside its run; `Ok(None)` when it is not a v2 artifact;
/// else `Ok(Some(..))` with its kind's label, identifier, run, target and
/// reference.
pub open spec fn index_outcome(
    text: Seq<char>,
    path_text: Seq<char>,
    run_dir: Seq<Seq<char>>,
    path: Seq<Seq<char>>,
    symlinks: crate::error::LabResult<()>,
) -> Result<Option<(Seq<char>, Seq<char>, Seq<char>, Seq<char>, Seq<char>)>, Seq<char>> {
    match crate::json::json_string_members(text, header_keys()) {
        Err(e) => Err("validation failed: malformed JSON artifact at "@ + path_text + ": "@ + e),
        Ok(m) => if m.1[0] != Some(crate::evidence::envelope::ARTIFACT_SCHEMA_V2@) {
            Ok(None)
        } else if m.1[1] is Some && m.1[2] is Some && m.1[3] is Some && m.1[4] is Some
            && exists|k: Kind| kind_label_spec(k) == m.1[1].unwrap() {
            match symlinks {
                Err(e) => Err(crate::error::error_text(e)),
                Ok(_) => match crate::run::artifact_uri_spec(m.1[3].unwrap(), run_dir, path) {
                    Some(r) => Ok(Some((m.1[1].unwrap(), m.1[2].unwrap(), m.1[3].unwrap(), m.1[4].unwrap(), r))),
                    None => Err("validation failed: artifact path escapes run directory"@),
                },
            }
        } else {
            Err(ARTIFACT_HEADER_ERROR@)
        },
    }
}

impl EvidenceStore {
    /// The indexed artifacts, in indexing order.
    pub closed spec fn artifacts_spec(&self) -> Seq<ArtifactMeta> {
        self.artifacts@
    }

    /// The run directories the store was opened on.
    pub closed spec fn run_dirs_spec(&self) -> Seq<String> {
        self.run_dirs@
    }

    /// The kind index holds, for every kind present, exactly the positions
    /// of the artifacts of that kind, in order, and one entry per kind.
    pub closed spec fn wf(&self) -> bool {
        &&& forall|i: int| 0 <= i < self.by_kind@.len() ==>
            (#[trigger] self.by_kind@[i]).1@ == kind_positions(self.artifacts@, self.by_kind@[i].0)
        &&& forall|i: int, j: int| 0 <= i < j < self.by_kind@.len() ==>
            self.by_kind@[i].0 != self.by_kind@[j].0
        &&& forall|k: Kind| has_kind(self.artifacts@, k) ==>
            exists|i: int| 0 <= i < self.by_kind@.len() && (#[trigger] self.by_kind@[i]).0 == k
    }

    /// The position of the kind's entry in the index, when there is one.
    fn find_kind(&self, kind: Kind) -> (found: Option<usize>)
        ensures
            match found {
                Some(e) => e < self.by_kind@.len() && self.by_kind@[e as int].0 == kind,
                None => forall|i: int| 0 <= i < self.by_kind@.len() ==> self.by_kind@[i].0 != kind,
            },
    {
        let mut e: usize = 0;
        while e < self.by_kind.len()
            invariant
                e <= self.by_kind@.len(),
                forall|i: int| 0 <= i < e ==> self.by_kind@[i].0 != kind,
            decreases self.by_kind.len() - e,
        {
            if self.by_kind[e].0 == kind {
                return Some(e);
            }
            e = e + 1;
        }
        None
    }

    /// An empty store over the given run directories.
    pub fn new(run_dirs: Vec<String>) -> (store: Self)
        ensures
            store.wf(),
            store.artifacts_spec().len() == 0,
            store.run_dirs_spec() == run_dirs@,
    {
        EvidenceStore { run_dirs, artifacts: Vec::new(), by_kind: Vec::new() }
    }

    /// The run directories the store was opened on.
    pub fn run_dirs(&self) -> (dirs: &[String])
        ensures
            dirs@ == self.run_dirs_spec(),
    {
        self.run_dirs.as_slice()
    }

    /// Every indexed artifact, in indexing order.
    pub fn all(&self) -> (all: &[ArtifactMeta])
        ensures
            all@ == self.artifacts_spec(),
    {
        self.artifacts.as_slice()
    }

    /// The artifacts of one kind, in indexing order.
    pub fn iter(&self, kind: Kind) -> (found: Vec<&ArtifactMeta>)
        requires
            self.wf(),
        ensures
            found@.len() == of_kind(self.artifacts_spec(), kind).len(),
            forall|j: int| 0 <= j < found@.len() ==> *found@[j] == of_kind(self.artifacts_spec(), kind)[j],
    {
        let mut found: Vec<&ArtifactMeta> = Vec::new();
        assert(self.artifacts@.len() == self.artifacts.len());
        proof {
            lemma_kind_positions(self.artifacts@, kind);
            lemma_has_kind(self.artifacts@, kind);
        }
        let e = match self.find_kind(kind) {
            Some(e) => e,
            None => {
                assert(!has_kind(self.artifacts@, kind));
                return found;
            },
        };
        let positions = &self.by_kind[e].1;
        let mut j: usize = 0;
        while j < positions.len()
            invariant
                self.wf(),
                e < self.by_kind@.len(),
                self.by_kind@[e as int].0 == kind,
                positions@ == kind_positions(self.artifacts@, kind),
                kind_positions(self.artifacts@, kind).len() == of_kind(self.artifacts@, kind).len(),
                forall|q: int| 0 <= q < kind_positions(self.artifacts@, kind).len() ==> {
                    &&& 0 <= #[trigger] kind_positions(self.artifacts@, kind)[q] < self.artifacts@.len()
                    &&& self.artifacts@[kind_positions(self.artifacts@, kind)[q] as int] == of_kind(self.artifacts@, kind)[q]
                },
                j <= positions@.len(),
                found@.len() == j,
                forall|q: int| 0 <= q < j ==> *found@[q] == of_kind(self.artifacts@, kind)[q],
            decreases positions.len() - j,
        {
            let p = positions[j];
            found.push(&self.artifacts[p]);
            j = j + 1;
        }
        found
    }

    /// Indexes the text of a JSON file found under a run directory, when it
    /// is a v2 artifact: `path` is the file's path as components and
    /// `path_text` as displayed, `symlinks` the outcome of checking the run
    /// directory and the path's components for symbolic links, and `loaded`
    /// the artifact's status and payload as parsed for its kind.  A file
    /// that is not a v2 artifact is skipped.
    pub fn index_artifact_text(
        &mut self,
        run_dir: &Vec<String>,
        path: &Vec<String>,
        path_text: &str,
        symlinks: crate::error::LabResult<()>,
        text: &str,
        loaded: Option<LoadedArtifact>,
    ) -> (r: crate::error::LabResult<()>)
        requires
            old(self).wf(),
        ensures
            final(self).wf(),
            final(self).run_dirs_spec() == old(self).run_dirs_spec(),
            match index_outcome(text@, path_text@, crate::text::views(run_dir@), crate::text::views(path@), symlinks) {
                Err(msg) => r matches Err(e) && crate::error::error_text(e) == msg
                    && final(self).artifacts_spec() == old(self).artifacts_spec(),
                Ok(None) => r is Ok && final(self).artifacts_spec() == old(self).artifacts_spec(),
                Ok(Some((label, id, run, target, artifact_ref))) => r is Ok && exists|m: ArtifactMeta|
                    final(self).artifacts_spec() == old(self).artifacts_spec().push(m) && {
                        &&& m.path@ == path_text@
                        &&& m.artifact_ref@ == artifact_ref
                        &&& kind_label_spec(m.kind) == label
                        &&& m.id@ == id
                        &&& m.run_id@ == run
                        &&& m.target_id@ == target
                        &&& m.loaded == loaded
                    },
            },
    {
        let keys: Vec<&str> = vec!["schema", "kind", "id", "run_id", "target_id"];
        proof {
            assert(crate::text::str_views(keys@) =~= header_keys());
        }
        let members = match crate::json::string_members(text, &keys) {
            Err(e) => {
                let a = crate::text::concat("malformed JSON artifact at ", path_text);
                let b = crate::text::concat(a.as_str(), ": ");
                let m = crate::text::concat(b.as_str(), e.as_str());
                proof {
                    reveal_strlit("validation failed: ");
                    reveal_strlit("malformed JSON artifact at ");
                    reveal_strlit("validation failed: malformed JSON artifact at ");
                    reveal_strlit(": ");
                    assert("validation failed: "@ + m@ =~= "validation failed: malformed JSON artifact at "@ + path_text@ + ": "@ + e@);
                }
                let err = crate::error::LabError::Validation(m);
                assert(crate::error::error_text(err) == "validation failed: "@ + m@);
                return Err(err);
            },
            Ok(m) => m,
        };
        let ghost all = members.strings@;
        proof {
            assert forall|q: int| 0 <= q < 5 implies crate::json::opt_views(all)[q] == crate::run_validation::opt_view(all[q]) by {}
        }
        let mut strings = members.strings;
        let target = strings.pop().unwrap();
        let run = strings.pop().unwrap();
        let id = strings.pop().unwrap();
        let kind = strings.pop().unwrap();
        let schema = strings.pop().unwrap();
        let is_v2 = match &schema {
            Some(v) => crate::text::str_eq(v.as_str(), crate::evidence::envelope::ARTIFACT_SCHEMA_V2),
            None => false,
        };
        if !is_v2 {
            return Ok(());
        }
        let k = match &kind {
            Some(label) => kind_from_label(label.as_str()),
            None => None,
        };
        match (k, id, run, target) {
            (Some(k), Some(id), Some(run), Some(target)) => {
                let artifact_ref = match crate::run::artifact_uri_for_run(run.as_str(), run_dir, path, symlinks) {
                    Ok(a) => a,
                    Err(e) => {
                        proof {
                            reveal_strlit("validation failed: ");
                            reveal_strlit("artifact path escapes run directory");
                            reveal_strlit("validation failed: artifact path escapes run directory");
                            if e is Validation {
                                assert(crate::error::error_text(e) == "validation failed: "@ + e->Validation_0@);
                            }
                        }
                        return Err(e);
                    },
                };
                let meta = ArtifactMeta {
                    path: crate::text::owned(path_text),
                    artifact_ref,
                    kind: k,
                    id,
                    run_id: run,
                    target_id: target,
                    loaded,
                };
                proof {
                    reveal_strlit("validation failed: ");
                    reveal_strlit("artifact path escapes run directory");
                    reveal_strlit("validation failed: artifact path escapes run directory");
                    assert(kind_label_spec(k) == all[1].unwrap()@);
                }
                let ghost mm = meta;
                self.insert(meta);
                assert(self.artifacts_spec() == old(self).artifacts_spec().push(mm));
                Ok(())
            },
            _ => {
                let err = crate::error::LabError::Json(crate::text::owned(ARTIFACT_HEADER_ERROR));
                assert(crate::error::error_text(err) == ARTIFACT_HEADER_ERROR@);
                Err(err)
            },
        }
    }

    /// Indexes one more artifact.
    pub fn insert(&mut self, meta: ArtifactMeta)
        requires
            old(self).wf(),
        ensures
            final(self).wf(),
            final(self).artifacts_spec() == old(self).artifacts_spec().push(meta),
            final(self).run_dirs_spec() == old(self).run_dirs_spec(),
    {
        let index = self.artifacts.len();
        let kind = meta.kind;
        let ghost old_arts = self.artifacts@;
        self.artifacts.push(meta);
        proof {
            assert(self.artifacts@.drop_last() =~= old_arts);
            assert forall|k: Kind| kind_positions(self.artifacts@, k)
                == if k == kind { kind_positions(old_arts, k).push(index) } else { kind_positions(old_arts, k) } by {
            }
        }
        let found = self.find_kind(kind);
        let ghost old_index = self.by_kind@;
        if found.is_none() {
            let mut positions: Vec<usize> = Vec::new();
            positions.push(index);
            proof {
                if has_kind(old_arts, kind) {
                    let i = choose|i: int| 0 <= i < old_index.len() && (#[trigger] old_index[i]).0 == kind;
                    assert(false);
                }
                lemma_has_kind(old_arts, kind);
                lemma_kind_positions(old_arts, kind);
                assert(kind_positions(old_arts, kind).len() == 0);
                assert(positions@ =~= kind_positions(old_arts, kind).push(index));
            }
            self.by_kind.push((kind, positions));
            proof {
                assert forall|k: Kind| has_kind(self.artifacts@, k) implies
                    exists|i: int| 0 <= i < self.by_kind@.len() && (#[trigger] self.by_kind@[i]).0 == k by {
                    if k == kind {
                        assert(self.by_kind@[old_index.len() as int].0 == k);
                    } else {
                        let i = choose|i: int| 0 <= i < self.artifacts@.len() && self.artifacts@[i].kind == k;
                        assert(old_arts[i].kind == k);
                        assert(has_kind(old_arts, k));
                        let w = choose|w: int| 0 <= w < old_index.len() && (#[trigger] old_index[w]).0 == k;
                        assert(self.by_kind@[w].0 == k);
                    }
                }
            }
        } else {
            let e = found.unwrap();
            let mut entry = self.by_kind.remove(e);
            assert(entry.0 == kind);
            entry.1.push(index);
            let ghost new_entry = entry;
            self.by_kind.insert(e, entry);
            proof {
                assert(self.by_kind@ =~= old_index.update(e as int, new_entry));
                assert forall|i: int| 0 <= i < self.by_kind@.len() implies
                    (#[trigger] self.by_kind@[i]).1@ == kind_positions(self.artifacts@, self.by_kind@[i].0) by {
                    if i != e {
                        assert(self.by_kind@[i] == old_index[i]);
                    }
                }
                assert forall|i: int, j: int| 0 <= i < j < self.by_kind@.len() implies
                    self.by_kind@[i].0 != self.by_kind@[j].0 by {
                    assert(self.by_kind@[i].0 == old_index[i].0);
                    assert(self.by_kind@[j].0 == old_index[j].0);
                }
                assert forall|k: Kind| has_kind(self.artifacts@, k) implies
                    exists|i: int| 0 <= i < self.by_kind@.len() && (#[trigger] self.by_kind@[i]).0 == k by {
                    if k == kind {
                        assert(self.by_kind@[e as int].0 == k);
                    } else {
                        let i = choose|i: int| 0 <= i < self.artifacts@.len() && self.artifacts@[i].kind == k;
                        assert(old_arts[i].kind == k);
                        assert(has_kind(old_arts, k));
                        let w = choose|w: int| 0 <= w < old_index.len() && (#[trigger] old_index[w]).0 == k;
                        assert(self.by_kind@[w].0 == k);
                    }
                }
            }
        }
    }
}

} // verus!
