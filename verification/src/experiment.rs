//! Experiment matrices: the trials of every combination of factor levels,
//! and the claims a planned or unexecuted matrix supports.

use crate::contracts::{ClaimDecision, ClaimEvidenceTrace, ClaimTraceEntry, ExperimentFactor, ExperimentMatrix, ExperimentRun, ExperimentTrial};
use crate::ids::{new_id, now_unix_ms};
use crate::text::{concat, owned, str_eq, views};
use vstd::prelude::*;

verus! {

/// The factor and level of each entry.
pub open spec fn pair_views(e: Seq<(String, String)>) -> Seq<(Seq<char>, Seq<char>)> {
    e.map_values(|p: (String, String)| (p.0@, p.1@))
}

/// The assignment of levels that a list of entries makes: a later entry
/// for a factor overrides an earlier one.
pub open spec fn entries_map(e: Seq<(Seq<char>, Seq<char>)>) -> Map<Seq<char>, Seq<char>>
    decreases e.len(),
{
    if e.len() == 0 {
        Map::empty()
    } else {
        entries_map(e.drop_last()).insert(e.last().0, e.last().1)
    }
}

/// Each factor occurs in at most one entry.
pub open spec fn unique_keys(e: Seq<(Seq<char>, Seq<char>)>) -> bool {
    forall|i: int, j: int| 0 <= i < j < e.len() ==> e[i].0 != e[j].0
}

/// The entries other than those of the factor, in order.
pub open spec fn without_key(e: Seq<(Seq<char>, Seq<char>)>, k: Seq<char>) -> Seq<(Seq<char>, Seq<char>)>
    decreases e.len(),
{
    if e.len() == 0 {
        Seq::empty()
    } else if e.last().0 == k {
        without_key(e.drop_last(), k)
    } else {
        without_key(e.drop_last(), k).push(e.last())
    }
}

pub proof fn lemma_without_key(e: Seq<(Seq<char>, Seq<char>)>, k: Seq<char>)
    ensures
        entries_map(without_key(e, k)) == entries_map(e).remove(k),
        forall|i: int| 0 <= i < without_key(e, k).len() ==> (#[trigger] without_key(e, k)[i]).0 != k
            && e.contains(without_key(e, k)[i]),
        unique_keys(e) ==> unique_keys(without_key(e, k)),
    decreases e.len(),
{
    if e.len() > 0 {
        let p = e.drop_last();
        let x = e.last();
        lemma_without_key(p, k);
        let wp = without_key(p, k);
        assert forall|i: int| 0 <= i < wp.len() implies e.contains(#[trigger] wp[i]) by {
            let q = choose|q: int| 0 <= q < p.len() && p[q] == wp[i];
            assert(e[q] == wp[i]);
        }
        if x.0 == k {
            assert(entries_map(e) == entries_map(p).insert(k, x.1));
            assert(entries_map(p).insert(k, x.1).remove(k) =~= entries_map(p).remove(k));
        } else {
            assert(without_key(e, k) == wp.push(x));
            assert(wp.push(x).drop_last() =~= wp);
            assert(entries_map(wp.push(x)) == entries_map(wp).insert(x.0, x.1));
            assert(entries_map(wp).insert(x.0, x.1) =~= entries_map(p).insert(x.0, x.1).remove(k));
            assert(e.contains(x)) by {
                assert(e[e.len() - 1] == x);
            }
            if unique_keys(e) {
                assert forall|i: int, j: int| 0 <= i < j < wp.push(x).len() implies
                    wp.push(x)[i].0 != wp.push(x)[j].0 by {
                    if j == wp.len() {
                        let q = choose|q: int| 0 <= q < p.len() && p[q] == wp[i];
                        assert(e[q] == wp[i]);
                        assert(e[e.len() - 1] == x);
                    } else {
                        assert(unique_keys(p)) by {
                            assert forall|a: int, b: int| 0 <= a < b < p.len() implies p[a].0 != p[b].0 by {
                                assert(p[a] == e[a] && p[b] == e[b]);
                            }
                        }
                    }
                }
            }
        }
        if unique_keys(e) {
            assert(unique_keys(p)) by {
                assert forall|a: int, b: int| 0 <= a < b < p.len() implies p[a].0 != p[b].0 by {
                    assert(p[a] == e[a] && p[b] == e[b]);
                }
            }
        }
    }
}

/// The entries with the factor set to the level.
pub fn with_assignment(entries: &Vec<(String, String)>, name: &str, level: &str) -> (r: Vec<(String, String)>)
    ensures
        entries_map(pair_views(r@)) == entries_map(pair_views(entries@)).insert(name@, level@),
        unique_keys(pair_views(entries@)) ==> unique_keys(pair_views(r@)),
{
    let ghost ev = pair_views(entries@);
    let mut r: Vec<(String, String)> = Vec::new();
    let mut i: usize = 0;
    while i < entries.len()
        invariant
            ev == pair_views(entries@),
            i <= entries@.len(),
            pair_views(r@) == without_key(ev.subrange(0, i as int), name@),
        decreases entries.len() - i,
    {
        let ghost prev = r@;
        proof {
            assert(ev.subrange(0, i + 1).drop_last() =~= ev.subrange(0, i as int));
            assert(ev.subrange(0, i + 1).last() == ev[i as int]);
        }
        if !str_eq(entries[i].0.as_str(), name) {
            r.push((owned(entries[i].0.as_str()), owned(entries[i].1.as_str())));
            proof {
                assert(pair_views(r@) =~= pair_views(prev).push(ev[i as int]));
            }
        }
        i = i + 1;
    }
    proof {
        assert(ev.subrange(0, ev.len() as int) =~= ev);
        lemma_without_key(ev, name@);
    }
    let ghost before = r@;
    r.push((owned(name), owned(level)));
    proof {
        let rv = pair_views(r@);
        let bv = pair_views(before);
        assert(rv =~= bv.push((name@, level@)));
        assert(rv.drop_last() =~= bv);
        assert(entries_map(rv) == entries_map(bv).insert(name@, level@));
        assert(entries_map(ev).remove(name@).insert(name@, level@) =~= entries_map(ev).insert(name@, level@));
        if unique_keys(ev) {
            assert forall|a: int, b: int| 0 <= a < b < rv.len() implies rv[a].0 != rv[b].0 by {
                if b == bv.len() {
                    assert(rv[a] == bv[a]);
                }
            }
        }
    }
    r
}

/// Every combination so far, each extended by every level of one factor,
/// in order.
pub open spec fn extend_combinations(prev: Seq<Map<Seq<char>, Seq<char>>>, name: Seq<char>, levels: Seq<Seq<char>>) -> Seq<Map<Seq<char>, Seq<char>>>
    decreases prev.len(),
{
    if prev.len() == 0 {
        Seq::empty()
    } else {
        extend_combinations(prev.drop_last(), name, levels) + levels.map_values(|l: Seq<char>| prev.last().insert(name, l))
    }
}

/// The combinations of the factors' levels, in order.
pub open spec fn combinations(factors: Seq<ExperimentFactor>) -> Seq<Map<Seq<char>, Seq<char>>>
    decreases factors.len(),
{
    if factors.len() == 0 {
        seq![Map::empty()]
    } else {
        extend_combinations(combinations(factors.drop_last()), factors.last().name@, views(factors.last().levels@))
    }
}

/// The combinations a matrix expands to; a single empty combination when
/// a factor has no level.
pub open spec fn expanded(factors: Seq<ExperimentFactor>) -> Seq<Map<Seq<char>, Seq<char>>> {
    if combinations(factors).len() == 0 { seq![Map::empty()] } else { combinations(factors) }
}

/// The combinations of the matrix's factor levels.
pub fn expand_factors(matrix: &ExperimentMatrix) -> (combos: Vec<Vec<(String, String)>>)
    ensures
        combos@.len() == expanded(matrix.factors@).len(),
        forall|i: int| 0 <= i < combos@.len() ==> entries_map(pair_views(#[trigger] combos@[i]@)) == expanded(matrix.factors@)[i]
            && unique_keys(pair_views(combos@[i]@)),
{
    let mut combos: Vec<Vec<(String, String)>> = Vec::new();
    combos.push(Vec::new());
    proof {
        assert(combinations(matrix.factors@.subrange(0, 0)) =~= seq![Map::<Seq<char>, Seq<char>>::empty()]);
        assert(entries_map(pair_views(combos@[0]@)) =~= Map::<Seq<char>, Seq<char>>::empty());
    }
    let mut f: usize = 0;
    while f < matrix.factors.len()
        invariant
            f <= matrix.factors@.len(),
            combos@.len() == combinations(matrix.factors@.subrange(0, f as int)).len(),
            forall|i: int| 0 <= i < combos@.len() ==> entries_map(pair_views(#[trigger] combos@[i]@)) == combinations(matrix.factors@.subrange(0, f as int))[i]
                && unique_keys(pair_views(combos@[i]@)),
        decreases matrix.factors.len() - f,
    {
        let factor = &matrix.factors[f];
        let ghost prev = combinations(matrix.factors@.subrange(0, f as int));
        let ghost lv = views(factor.levels@);
        let mut next: Vec<Vec<(String, String)>> = Vec::new();
        let mut e: usize = 0;
        while e < combos.len()
            invariant
                e <= combos@.len(),
                combos@.len() == prev.len(),
                forall|i: int| 0 <= i < combos@.len() ==> entries_map(pair_views(#[trigger] combos@[i]@)) == prev[i] && unique_keys(pair_views(combos@[i]@)),
                lv == views(factor.levels@),
                next@.len() == extend_combinations(prev.subrange(0, e as int), factor.name@, lv).len(),
                forall|i: int| 0 <= i < next@.len() ==> entries_map(pair_views(#[trigger] next@[i]@)) == extend_combinations(prev.subrange(0, e as int), factor.name@, lv)[i]
                    && unique_keys(pair_views(next@[i]@)),
            decreases combos.len() - e,
        {
            let ghost base = extend_combinations(prev.subrange(0, e as int), factor.name@, lv);
            let ghost ext = extend_combinations(prev.subrange(0, e + 1), factor.name@, lv);
            proof {
                assert(prev.subrange(0, e + 1).drop_last() =~= prev.subrange(0, e as int));
                assert(ext =~= base + lv.map_values(|l: Seq<char>| prev[e as int].insert(factor.name@, l)));
            }
            let mut l: usize = 0;
            while l < factor.levels.len()
                invariant
                    e < combos@.len(),
                    combos@.len() == prev.len(),
                    forall|i: int| 0 <= i < combos@.len() ==> entries_map(pair_views(#[trigger] combos@[i]@)) == prev[i] && unique_keys(pair_views(combos@[i]@)),
                    lv == views(factor.levels@),
                    ext == base + lv.map_values(|l: Seq<char>| prev[e as int].insert(factor.name@, l)),
                    l <= factor.levels@.len(),
                    next@.len() == base.len() + l,
                    forall|i: int| 0 <= i < next@.len() ==> entries_map(pair_views(#[trigger] next@[i]@)) == ext[i] && unique_keys(pair_views(next@[i]@)),
                decreases factor.levels.len() - l,
            {
                let entry = with_assignment(&combos[e], factor.name.as_str(), factor.levels[l].as_str());
                proof {
                    assert(entries_map(pair_views(combos@[e as int]@)) == prev[e as int]);
                    assert(lv[l as int] == factor.levels@[l as int]@);
                    assert(ext[base.len() + l] == prev[e as int].insert(factor.name@, lv[l as int]));
                }
                next.push(entry);
                l = l + 1;
            }
            e = e + 1;
        }
        proof {
            assert(prev.subrange(0, prev.len() as int) =~= prev);
            assert(matrix.factors@.subrange(0, f + 1).drop_last() =~= matrix.factors@.subrange(0, f as int));
        }
        combos = next;
        f = f + 1;
    }
    proof {
        assert(matrix.factors@.subrange(0, matrix.factors@.len() as int) =~= matrix.factors@);
    }
    if combos.len() == 0 {
        let mut single: Vec<Vec<(String, String)>> = Vec::new();
        single.push(Vec::new());
        proof {
            assert(entries_map(pair_views(single@[0]@)) =~= Map::<Seq<char>, Seq<char>>::empty());
        }
        return single;
    }
    combos
}

} // verus!

verus! {

/// The combinations repeated `times` times, in order.
pub open spec fn repeated(combos: Seq<Map<Seq<char>, Seq<char>>>, times: nat) -> Seq<Map<Seq<char>, Seq<char>>>
    decreases times,
{
    if times == 0 { Seq::empty() } else { repeated(combos, (times - 1) as nat) + combos }
}

/// The factor assignment of each trial.
pub open spec fn trial_maps(trials: Seq<ExperimentTrial>) -> Seq<Map<Seq<char>, Seq<char>>> {
    trials.map_values(|t: ExperimentTrial| entries_map(pair_views(t.factors@)))
}

/// A copy of a list of key and value entries.
pub fn copy_entries(entries: &Vec<(String, String)>) -> (r: Vec<(String, String)>)
    ensures
        pair_views(r@) == pair_views(entries@),
{
    let mut r: Vec<(String, String)> = Vec::new();
    let mut i: usize = 0;
    while i < entries.len()
        invariant
            i <= entries@.len(),
            pair_views(r@) == pair_views(entries@).subrange(0, i as int),
        decreases entries.len() - i,
    {
        let ghost prev = r@;
        r.push((owned(entries[i].0.as_str()), owned(entries[i].1.as_str())));
        proof {
            assert(pair_views(r@) =~= pair_views(prev).push(pair_views(entries@)[i as int]));
            assert(pair_views(r@) =~= pair_views(entries@).subrange(0, i + 1));
        }
        i = i + 1;
    }
    proof {
        assert(pair_views(entries@).subrange(0, entries@.len() as int) =~= pair_views(entries@));
    }
    r
}

/// Plans the trials of a matrix: every combination of factor levels, once
/// per repetition (at least once), planned in a dry run and not
/// implemented otherwise; with the claims such a run supports: none
/// supported, fixed-frequency behavior blocked.
pub fn run_experiment_matrix(
    matrix: &ExperimentMatrix,
    run_id: String,
    target_id: String,
    dry_run: bool,
) -> (out: (ExperimentRun, ClaimEvidenceTrace))
    ensures
        out.0.schema_version@ == "lab.experiment_run.v1"@,
        out.0.run_id@ == run_id@,
        out.0.matrix_id@ == matrix.matrix_id@,
        out.0.target_id@ == target_id@,
        out.0.dry_run == dry_run,
        trial_maps(out.0.trials@) == repeated(expanded(matrix.factors@), if matrix.repetitions == 0 { 1 } else { matrix.repetitions as nat }),
        forall|k: int| 0 <= k < out.0.trials@.len() ==> {
            &&& (#[trigger] out.0.trials@[k]).status@ == (if dry_run { "planned"@ } else { "not_implemented"@ })
            &&& crate::text::is_prefix("TRIAL-MATRIX-"@, out.0.trials@[k].trial_id@)
            &&& out.0.trials@[k].artifact_refs@.len() == 0
            &&& out.0.trials@[k].failure is None
        },
        out.1.schema_version@ == "lab.claim_evidence_trace.v1"@,
        out.1.run_id@ == run_id@,
        out.1.target_id@ == target_id@,
        out.1.claims@.len() == 2,
        out.1.claims@[0].decision == (if dry_run { ClaimDecision::Provisional } else { ClaimDecision::Blocked }),
        out.1.claims@[0].claim@ == (if dry_run { "Frequency variation is planned under bounded matrix conditions."@ }
            else { "Experiment execution is not implemented in this MVP."@ }),
        views(out.1.claims@[0].evidence_refs@) == seq!["artifact://experiment_run"@],
        out.1.claims@[1].decision == ClaimDecision::Blocked,
        out.1.claims@[1].claim@ == "adc-lab verified behavior across all fixed CPU frequencies."@,
        out.1.claims@[1].evidence_refs@.len() == 0,
{
    let combos = expand_factors(matrix);
    let ghost ex = expanded(matrix.factors@);
    let reps: u64 = if matrix.repetitions == 0 { 1 } else { matrix.repetitions };
    let mut trials: Vec<ExperimentTrial> = Vec::new();
    let mut rep: u64 = 0;
    proof {
        reveal_strlit("TRIAL-");
        reveal_strlit("MATRIX");
        reveal_strlit("TRIAL-MATRIX-");
    }
    while rep < reps
        invariant
            rep <= reps,
            reps == (if matrix.repetitions == 0 { 1 } else { matrix.repetitions }),
            combos@.len() == ex.len(),
            forall|i: int| 0 <= i < combos@.len() ==> entries_map(pair_views(#[trigger] combos@[i]@)) == ex[i],
            trial_maps(trials@) == repeated(ex, rep as nat),
            forall|k: int| 0 <= k < trials@.len() ==> {
                &&& (#[trigger] trials@[k]).status@ == (if dry_run { "planned"@ } else { "not_implemented"@ })
                &&& crate::text::is_prefix("TRIAL-MATRIX-"@, trials@[k].trial_id@)
                &&& trials@[k].artifact_refs@.len() == 0
                &&& trials@[k].failure is None
            },
        decreases reps - rep,
    {
        let ghost start = trials@;
        let mut j: usize = 0;
        while j < combos.len()
            invariant
                combos@.len() == ex.len(),
                forall|i: int| 0 <= i < combos@.len() ==> entries_map(pair_views(#[trigger] combos@[i]@)) == ex[i],
                trial_maps(trials@) == repeated(ex, rep as nat) + ex.subrange(0, j as int),
                j <= combos@.len(),
                forall|k: int| 0 <= k < trials@.len() ==> {
                    &&& (#[trigger] trials@[k]).status@ == (if dry_run { "planned"@ } else { "not_implemented"@ })
                    &&& crate::text::is_prefix("TRIAL-MATRIX-"@, trials@[k].trial_id@)
                    &&& trials@[k].artifact_refs@.len() == 0
                    &&& trials@[k].failure is None
                },
            decreases combos.len() - j,
        {
            let id = new_id("MATRIX");
            let a = concat("TRIAL-", id.as_str());
            let b = concat(a.as_str(), "-");
            let trial_id = concat(b.as_str(), crate::text::decimal_string(rep).as_str());
            proof {
                assert(crate::text::is_prefix("TRIAL-MATRIX-"@, trial_id@)) by {
                    reveal_strlit("TRIAL-");
                    reveal_strlit("MATRIX");
                    reveal_strlit("-");
                    reveal_strlit("TRIAL-MATRIX-");
                    assert("TRIAL-MATRIX-"@ =~= "TRIAL-"@ + "MATRIX"@ + seq!['-']);
                    let n = choose|n: nat| id@ == "MATRIX"@ + seq!['-'] + crate::text::decimal(n);
                    let rest = crate::text::decimal(n) + "-"@ + crate::text::decimal(rep as nat);
                    assert(trial_id@ =~= "TRIAL-MATRIX-"@ + rest);
                    assert(trial_id@.subrange(0, "TRIAL-MATRIX-"@.len() as int) =~= "TRIAL-MATRIX-"@);
                }
            }
            let trial = ExperimentTrial {
                trial_id,
                factors: copy_entries(&combos[j]),
                status: if dry_run { owned("planned") } else { owned("not_implemented") },
                artifact_refs: Vec::new(),
                failure: None,
                started_at_unix_ms: None,
                ended_at_unix_ms: None,
            };
            let ghost prev = trials@;
            trials.push(trial);
            proof {
                assert(trials@.drop_last() =~= prev);
                assert(trial_maps(trials@) =~= trial_maps(prev).push(ex[j as int]));
                assert(ex.subrange(0, j + 1) =~= ex.subrange(0, j as int).push(ex[j as int]));
                assert(trial_maps(trials@) =~= repeated(ex, rep as nat) + ex.subrange(0, j + 1));
            }
            j = j + 1;
        }
        proof {
            assert(ex.subrange(0, ex.len() as int) =~= ex);
            assert(repeated(ex, (rep + 1) as nat) == repeated(ex, rep as nat) + ex);
        }
        rep = rep + 1;
    }
    let run = ExperimentRun {
        schema_version: owned("lab.experiment_run.v1"),
        run_id: owned(run_id.as_str()),
        matrix_id: owned(matrix.matrix_id.as_str()),
        target_id: owned(target_id.as_str()),
        dry_run,
        trials,
        time_unix_ms: now_unix_ms(),
    };
    let first = ClaimTraceEntry {
        claim: if dry_run {
            owned("Frequency variation is planned under bounded matrix conditions.")
        } else {
            owned("Experiment execution is not implemented in this MVP.")
        },
        decision: if dry_run { ClaimDecision::Provisional } else { ClaimDecision::Blocked },
        evidence_refs: crate::text::single("artifact://experiment_run"),
        next_evidence_needed: if dry_run {
            crate::text::single("Run matrix on a characterized target with approved controls.")
        } else {
            crate::text::single("Wire matrix execution to audited control/load/observe steps before making supported claims.")
        },
    };
    let second = ClaimTraceEntry {
        claim: owned("adc-lab verified behavior across all fixed CPU frequencies."),
        decision: ClaimDecision::Blocked,
        evidence_refs: Vec::new(),
        next_evidence_needed: crate::text::single("Controlled operating point matrix with fixed frequency support."),
    };
    let trace = ClaimEvidenceTrace {
        schema_version: owned("lab.claim_evidence_trace.v1"),
        run_id,
        target_id,
        claims: vec![first, second],
        time_unix_ms: now_unix_ms(),
    };
    (run, trace)
}

} // verus!
