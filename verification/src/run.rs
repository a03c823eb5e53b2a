//! Run directories: their identity and the artifact references within them.
//!
//! A path is held as the list of its components, as the platform's path
//! type splits it (`..` for a parent component, `/` for the root).

use crate::error::{LabError, LabResult};
use crate::text::{concat, contains_seq, is_prefix, join, join_seq, owned, owned_all, starts_with, str_eq, views};
use vstd::prelude::*;

verus! {

/// A run: its identifier and its directory.
#[derive(Debug, Clone)]
pub struct RunContext {
    pub run_id: String,
    pub run_dir: String,
}

/// The components of `path` after the components of `base`, when `base`
/// is a prefix of `path`.
pub open spec fn strip_components(base: Seq<Seq<char>>, path: Seq<Seq<char>>) -> Option<Seq<Seq<char>>> {
    if base.len() <= path.len() && path.subrange(0, base.len() as int) == base {
        Some(path.subrange(base.len() as int, path.len() as int))
    } else {
        None
    }
}

/// The components of `path` below `base`, when `path` lies under `base`.
pub fn strip_prefix_components(base: &Vec<String>, path: &Vec<String>) -> (r: Option<Vec<String>>)
    ensures
        match r {
            Some(rest) => strip_components(views(base@), views(path@)) == Some(views(rest@)),
            None => strip_components(views(base@), views(path@)) is None,
        },
{
    if base.len() > path.len() {
        return None;
    }
    let mut i: usize = 0;
    while i < base.len()
        invariant
            base@.len() <= path@.len(),
            i <= base@.len(),
            forall|k: int| 0 <= k < i ==> views(path@)[k] == views(base@)[k],
        decreases base.len() - i,
    {
        if !str_eq(base[i].as_str(), path[i].as_str()) {
            proof {
                assert(views(path@).subrange(0, base@.len() as int)[i as int] != views(base@)[i as int]);
            }
            return None;
        }
        i = i + 1;
    }
    let mut rest: Vec<String> = Vec::new();
    let mut j: usize = base.len();
    while j < path.len()
        invariant
            base@.len() <= j <= path@.len(),
            rest@.len() == j - base@.len(),
            views(rest@) == views(path@).subrange(base@.len() as int, j as int),
        decreases path.len() - j,
    {
        let ghost prev = rest@;
        rest.push(owned(path[j].as_str()));
        proof {
            assert(rest@ == prev.push(rest@[rest@.len() - 1]));
            assert(views(rest@) =~= views(prev).push(path@[j as int]@));
            assert(views(rest@) =~= views(path@).subrange(base@.len() as int, j + 1));
        }
        j = j + 1;
    }
    proof {
        assert(views(path@).subrange(0, base@.len() as int) =~= views(base@));
    }
    Some(rest)
}

/// The text of `path` relative to `run_dir`, its components joined by `/`.
pub open spec fn relative_text(run_dir: Seq<Seq<char>>, path: Seq<Seq<char>>) -> Option<Seq<char>> {
    match strip_components(run_dir, path) {
        Some(rest) => Some(join_seq(rest, "/"@)),
        None => None,
    }
}

fn relative_path_text(run_dir: &Vec<String>, path: &Vec<String>) -> (r: Option<String>)
    ensures
        match r {
            Some(t) => relative_text(views(run_dir@), views(path@)) == Some(t@),
            None => relative_text(views(run_dir@), views(path@)) is None,
        },
{
    match strip_prefix_components(run_dir, path) {
        Some(rest) => Some(join(&rest, "/")),
        None => None,
    }
}

/// Whether `path`, inside `run_dir`, is where a load result is written.
pub open spec fn load_result_relative(rel: Seq<char>) -> bool {
    ||| rel == "loads/load_result.json"@
    ||| (is_prefix("loads/"@, rel) && crate::text::is_suffix(".result.json"@, rel))
    ||| (is_prefix("experiments/trials/"@, rel) && crate::text::is_suffix("/load_result.json"@, rel))
}

/// Whether `path`, inside `run_dir`, is where an observation is written.
pub open spec fn observation_relative(rel: Seq<char>) -> bool {
    ||| rel == "observations/observe.json"@
    ||| (is_prefix("experiments/trials/"@, rel) && crate::text::is_suffix("/observation.json"@, rel))
}

/// Whether `path` is a load result file of the run in `run_dir`.
pub fn is_load_result_path(run_dir: &Vec<String>, path: &Vec<String>) -> (r: bool)
    ensures
        r == match relative_text(views(run_dir@), views(path@)) {
            Some(rel) => load_result_relative(rel),
            None => false,
        },
{
    match relative_path_text(run_dir, path) {
        Some(rel) => {
            let r = rel.as_str();
            str_eq(r, "loads/load_result.json")
                || (starts_with(r, "loads/") && crate::text::ends_with(r, ".result.json"))
                || (starts_with(r, "experiments/trials/") && crate::text::ends_with(r, "/load_result.json"))
        },
        None => false,
    }
}

/// Whether `path` is an observation file of the run in `run_dir`.
pub fn is_observation_path(run_dir: &Vec<String>, path: &Vec<String>) -> (r: bool)
    ensures
        r == match relative_text(views(run_dir@), views(path@)) {
            Some(rel) => observation_relative(rel),
            None => false,
        },
{
    match relative_path_text(run_dir, path) {
        Some(rel) => {
            let r = rel.as_str();
            str_eq(r, "observations/observe.json")
                || (starts_with(r, "experiments/trials/") && crate::text::ends_with(r, "/observation.json"))
        },
        None => false,
    }
}

/// The reference of an artifact inside a run, `artifact://lab/runs/<run>/<relative path>`;
/// none when the path does not lie under the run directory, or its
/// relative text is empty or climbs out (starts with `..` or holds `/../`).
pub open spec fn artifact_uri_spec(run_id: Seq<char>, run_dir: Seq<Seq<char>>, path: Seq<Seq<char>>) -> Option<Seq<char>> {
    match relative_text(run_dir, path) {
        None => None,
        Some(rel) => if rel.len() == 0 || is_prefix(".."@, rel) || contains_seq(rel, "/../"@) {
            None
        } else {
            Some("artifact://lab/runs/"@ + run_id + "/"@ + rel)
        },
    }
}

/// The artifact reference of `path` inside the run `run_id` kept in
/// `run_dir`.  `symlinks` is the outcome of checking the run directory and
/// each component below it for symbolic links; its error comes first.
pub fn artifact_uri_for_run(run_id: &str, run_dir: &Vec<String>, path: &Vec<String>, symlinks: LabResult<()>)
    -> (r: LabResult<String>)
    ensures
        match symlinks {
            Err(e) => r == Err::<String, LabError>(e),
            Ok(_) => match artifact_uri_spec(run_id@, views(run_dir@), views(path@)) {
                Some(t) => r matches Ok(s) && s@ == t,
                None => r matches Err(LabError::Validation(m)) && m@ == "artifact path escapes run directory"@,
            },
        },
{
    if let Err(e) = symlinks {
        return Err(e);
    }
    match relative_path_text(run_dir, path) {
        None => Err(LabError::Validation(owned("artifact path escapes run directory"))),
        Some(rel) => {
            let r = rel.as_str();
            if r.unicode_len() == 0 || starts_with(r, "..") || crate::text::contains(r, "/../") {
                Err(LabError::Validation(owned("artifact path escapes run directory")))
            } else {
                let a = concat("artifact://lab/runs/", run_id);
                let b = concat(a.as_str(), "/");
                Ok(concat(b.as_str(), r))
            }
        },
    }
}

/// The identifier of the run kept in a directory: the one its context or
/// manifest records, unless blank, else the directory's name, else
/// `LAB-RUN-unknown`.
pub fn run_id_from_run_dir(recorded: Option<String>, dir_name: Option<String>) -> (id: String)
    ensures
        id@ == match recorded {
            Some(r) if crate::run_validation::trim(r@).len() > 0 => r@,
            _ => match dir_name {
                Some(n) => n@,
                None => "LAB-RUN-unknown"@,
            },
        },
{
    match recorded {
        Some(r) if crate::run_validation::trim_str(r.as_str()).unicode_len() > 0 => r,
        _ => match dir_name {
            Some(n) => n,
            None => owned("LAB-RUN-unknown"),
        },
    }
}

/// The error of a run context that is JSON but not exactly the string
/// members `schema_version` and `run_id`.
pub const RUN_CONTEXT_SHAPE_ERROR: &'static str = "run context must hold exactly the string members schema_version and run_id";

/// A recorded run identifier: none when blank.
pub open spec fn unless_blank(r: Seq<char>) -> Option<Seq<char>> {
    if crate::run_validation::trim(r).len() == 0 { None } else { Some(r) }
}

/// The run identifier a `run_context.json` text records: an error when it
/// is not JSON or not exactly the string members `schema_version` and
/// `run_id`; none when the identifier is blank.
pub open spec fn context_run_id(text: Seq<char>) -> Result<Option<Seq<char>>, Seq<char>> {
    match crate::json::json_string_members(text, seq!["schema_version"@, "run_id"@]) {
        Err(e) => Err(e),
        Ok(m) => if m.0 == Some(2nat) && m.1[0] is Some && m.1[1] is Some {
            Ok(unless_blank(m.1[1].unwrap()))
        } else {
            Err(RUN_CONTEXT_SHAPE_ERROR@)
        },
    }
}

/// The run identifier the text of a run's manifest file records: an error when it
/// is not JSON; none when its `run_id` member is not a string or is blank.
pub open spec fn manifest_run_id(text: Seq<char>) -> Result<Option<Seq<char>>, Seq<char>> {
    match crate::json::json_string_members(text, seq!["run_id"@]) {
        Err(e) => Err(e),
        Ok(m) => match m.1[0] {
            Some(r) => Ok(unless_blank(r)),
            None => Ok(None),
        },
    }
}

/// The run identifier a run directory records: its context's, else its
/// manifest's; a context that cannot be read as one stops the search.
pub open spec fn recorded_run_id_spec(context: Option<Seq<char>>, manifest: Option<Seq<char>>)
    -> Result<Option<Seq<char>>, Seq<char>> {
    let c = match context {
        Some(t) => context_run_id(t),
        None => Ok(None),
    };
    match c {
        Err(e) => Err(e),
        Ok(Some(id)) => Ok(Some(id)),
        Ok(None) => match manifest {
            Some(t) => manifest_run_id(t),
            None => Ok(None),
        },
    }
}

fn blank_to_none(r: String) -> (o: Option<String>)
    ensures
        opt_view_of(o) == unless_blank(r@),
{
    if crate::run_validation::trim_str(r.as_str()).unicode_len() == 0 { None } else { Some(r) }
}

/// The view of an optional string.
pub open spec fn opt_view_of(o: Option<String>) -> Option<Seq<char>> {
    crate::run_validation::opt_view(o)
}

fn context_run_id_of(text: &str) -> (r: Result<Option<String>, String>)
    ensures
        match (r, context_run_id(text@)) {
            (Ok(o), Ok(p)) => opt_view_of(o) == p,
            (Err(e), Err(f)) => e@ == f,
            _ => false,
        },
{
    let keys = crate::text::strs2("schema_version", "run_id");
    assert(keys@.len() == 2) by {
        assert(crate::text::str_views(keys@).len() == keys@.len());
    }
    match crate::json::string_members(text, &keys) {
        Err(e) => Err(e),
        Ok(m) => {
            let ghost all = m.strings@;
            proof {
                assert(crate::json::opt_views(all)[0] == opt_view_of(all[0]));
                assert(crate::json::opt_views(all)[1] == opt_view_of(all[1]));
            }
            let mut strings = m.strings;
            let run_id = strings.pop().unwrap();
            let schema = strings.pop().unwrap();
            let two = match m.count { Some(c) => c == 2, None => false };
            if two && schema.is_some() && run_id.is_some() {
                Ok(blank_to_none(run_id.unwrap()))
            } else {
                Err(owned(RUN_CONTEXT_SHAPE_ERROR))
            }
        },
    }
}

fn manifest_run_id_of(text: &str) -> (r: Result<Option<String>, String>)
    ensures
        match (r, manifest_run_id(text@)) {
            (Ok(o), Ok(p)) => opt_view_of(o) == p,
            (Err(e), Err(f)) => e@ == f,
            _ => false,
        },
{
    let keys = crate::text::strs1("run_id");
    assert(keys@.len() == 1) by {
        assert(crate::text::str_views(keys@).len() == keys@.len());
    }
    match crate::json::string_members(text, &keys) {
        Err(e) => Err(e),
        Ok(m) => {
            let ghost all = m.strings@;
            proof {
                assert(crate::json::opt_views(all)[0] == opt_view_of(all[0]));
            }
            let mut strings = m.strings;
            match strings.pop().unwrap() {
                Some(r) => Ok(blank_to_none(r)),
                None => Ok(None),
            }
        },
    }
}

/// The run identifier a run directory records, from the texts of its
/// context and manifest files where they exist.
pub fn recorded_run_id(context_text: Option<&str>, manifest_text: Option<&str>) -> (r: Result<Option<String>, String>)
    ensures
        match (r, recorded_run_id_spec(match context_text { Some(t) => Some(t@), None => None },
            match manifest_text { Some(t) => Some(t@), None => None })) {
            (Ok(o), Ok(p)) => opt_view_of(o) == p,
            (Err(e), Err(f)) => e@ == f,
            _ => false,
        },
{
    let from_context = match context_text {
        Some(t) => context_run_id_of(t),
        None => Ok(None),
    };
    match from_context {
        Err(e) => Err(e),
        Ok(Some(id)) => Ok(Some(id)),
        Ok(None) => match manifest_text {
            Some(t) => manifest_run_id_of(t),
            None => Ok(None),
        },
    }
}

/// The identifier of the run kept in a directory, from the texts of its
/// context and manifest where they exist: the non-blank identifier the
/// context records, else the manifest's, else the directory's name, else
/// `LAB-RUN-unknown`.  A context that cannot be read as one leaves only the
/// directory's name.
pub fn run_id_from_texts(context_text: Option<&str>, manifest_text: Option<&str>, dir_name: Option<String>) -> (id: String)
    ensures
        id@ == match recorded_run_id_spec(match context_text { Some(t) => Some(t@), None => None },
            match manifest_text { Some(t) => Some(t@), None => None }) {
            Ok(Some(r)) => r,
            _ => match dir_name {
                Some(n) => n@,
                None => "LAB-RUN-unknown"@,
            },
        },
{
    match recorded_run_id(context_text, manifest_text) {
        Ok(Some(r)) => r,
        _ => match dir_name {
            Some(n) => n,
            None => owned("LAB-RUN-unknown"),
        },
    }
}

/// The identifier under which an existing directory is opened as a run:
/// the one it records, else its name when that starts with `LAB-RUN-`, else
/// `fresh`.
pub fn opened_run_id(recorded: Option<String>, dir_name: Option<String>, fresh: String) -> (id: String)
    ensures
        id@ == match recorded {
            Some(r) => r@,
            None => match dir_name {
                Some(n) => if is_prefix("LAB-RUN-"@, n@) { n@ } else { fresh@ },
                None => fresh@,
            },
        },
{
    match recorded {
        Some(r) => r,
        None => match dir_name {
            Some(n) => if starts_with(n.as_str(), "LAB-RUN-") { n } else { fresh },
            None => fresh,
        },
    }
}

/// The subdirectories every run directory holds.
pub open spec fn run_subdirectories_spec() -> Seq<Seq<char>> {
    seq![
        "inventory"@, "toolchain"@, "observations"@, "plans"@, "approvals"@, "leases"@, "loads"@,
        "workloads"@, "pressure"@, "decisions"@, "constraints"@, "experiments"@, "reports"@, "tools"@,
        "privilege"@,
    ]
}

/// The subdirectories every run directory holds, in creation order.
pub fn run_subdirectories() -> (dirs: Vec<String>)
    ensures
        views(dirs@) == run_subdirectories_spec(),
{
    let names: Vec<&str> = vec![
        "inventory", "toolchain", "observations", "plans", "approvals", "leases", "loads", "workloads",
        "pressure", "decisions", "constraints", "experiments", "reports", "tools", "privilege",
    ];
    let dirs = owned_all(&names);
    proof {
        assert(views(dirs@) =~= run_subdirectories_spec());
    }
    dirs
}

/// The path of an artifact inside a run directory: refused when the
/// relative path is absolute or has a parent component.
pub fn artifact_path(run_dir: &Vec<String>, relative_path: &Vec<String>, relative_is_absolute: bool)
    -> (r: LabResult<Vec<String>>)
    ensures
        match r {
            Ok(p) => !relative_is_absolute && !views(relative_path@).contains(".."@)
                && views(p@) == views(run_dir@) + views(relative_path@),
            Err(e) => (relative_is_absolute || views(relative_path@).contains(".."@))
                && (e matches LabError::Validation(m)
                && m@ == "artifact relative path must stay inside run directory"@),
        },
{
    let mut p: Vec<String> = crate::text::copy_all(run_dir);
    assert(p@.len() == views(p@).len() && run_dir@.len() == views(run_dir@).len());
    let mut j: usize = 0;
    while j < relative_path.len()
        invariant
            j <= relative_path@.len(),
            p@.len() == run_dir@.len() + j,
            views(p@) == views(run_dir@) + views(relative_path@).subrange(0, j as int),
            !views(relative_path@).subrange(0, j as int).contains(".."@),
        decreases relative_path.len() - j,
    {
        if str_eq(relative_path[j].as_str(), "..") || relative_is_absolute {
            proof {
                if !relative_is_absolute {
                    assert(views(relative_path@)[j as int] == ".."@);
                }
            }
            return Err(LabError::Validation(owned("artifact relative path must stay inside run directory")));
        }
        let ghost prev = p@;
        p.push(owned(relative_path[j].as_str()));
        proof {
            let s = views(relative_path@);
            assert(p@ == prev.push(p@[p@.len() - 1]));
            assert(views(p@) =~= views(prev).push(relative_path@[j as int]@));
            assert(views(p@) =~= views(run_dir@) + s.subrange(0, j + 1));
            assert(s.subrange(0, j + 1) =~= s.subrange(0, j as int).push(s[j as int]));
        }
        j = j + 1;
    }
    if relative_is_absolute {
        return Err(LabError::Validation(owned("artifact relative path must stay inside run directory")));
    }
    proof {
        assert(views(relative_path@).subrange(0, relative_path@.len() as int) =~= views(relative_path@));
    }
    Ok(p)
}

} // verus!
