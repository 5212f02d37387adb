//! Deterministic resolution of pipeline directory arguments.
//!
//! A pipeline directory argument is tried against an ordered list of
//! candidate paths; the first one that exists on disk wins and, when none
//! does, nothing is made up. This module computes the candidate lists (path
//! arithmetic is std's `Path`) and picks the first existing candidate from the
//! existence answers the caller obtained from the file system.
use vstd::prelude::*;
use vstd::string::*;

use crate::driver::opt_view;
use crate::text::{owned, str_eq};

verus! {

/// What std `Path::new(base).join(rest)` yields, as text.
pub uninterp spec fn joined_path(base: Seq<char>, rest: Seq<char>) -> Seq<char>;

/// What std `Path::new(p).is_absolute()` yields.
pub uninterp spec fn absolute_path(p: Seq<char>) -> bool;

/// What std `Path::new(p).file_name()` yields, as text.
pub uninterp spec fn file_name_of(p: Seq<char>) -> Option<Seq<char>>;

/// The components of std `Path::new(p).components()`, each as text, in order.
pub uninterp spec fn components_of(p: Seq<char>) -> Seq<Seq<char>>;

/// std `Path::join` on text paths; the result depends on the two paths only.
#[verifier::external_body]
pub(crate) fn path_join(base: &str, rest: &str) -> (r: String)
    ensures
        r@ == joined_path(base@, rest@),
{
    std::path::Path::new(base).join(rest).to_string_lossy().into_owned()
}

/// std `Path::is_absolute`; the result depends on the path text only.
#[verifier::external_body]
fn path_is_absolute(p: &str) -> (r: bool)
    ensures
        r == absolute_path(p@),
{
    std::path::Path::new(p).is_absolute()
}

/// std `Path::file_name`; the result depends on the path text only.
#[verifier::external_body]
fn path_file_name(p: &str) -> (r: Option<String>)
    ensures
        match r {
            Some(s) => file_name_of(p@) == Some(s@),
            None => file_name_of(p@) is None,
        },
{
    std::path::Path::new(p).file_name().map(|n| n.to_string_lossy().into_owned())
}

/// std `Path::components`, each component as its text; the result depends
/// on the path text only.
#[verifier::external_body]
fn path_components(p: &str) -> (r: Vec<String>)
    ensures
        str_views(r@) == components_of(p@),
{
    std::path::Path::new(p).components().map(|c| c.as_os_str().to_string_lossy().into_owned()).collect()
}

/// Whether `items` holds the text `name`.
fn holds_text(items: &Vec<String>, name: &str) -> (r: bool)
    ensures
        r == str_views(items@).contains(name@),
{
    let mut i: usize = 0;
    while i < items.len()
        invariant
            i <= items.len(),
            forall|j: int| 0 <= j < i ==> str_views(items@)[j] != name@,
        decreases items.len() - i,
    {
        if str_eq(items[i].as_str(), name) {
            assert(str_views(items@)[i as int] == name@);
            return true;
        }
        i = i + 1;
    }
    assert(!str_views(items@).contains(name@)) by {
        if str_views(items@).contains(name@) {
            let k = choose|k: int| 0 <= k < str_views(items@).len() && str_views(items@)[k] == name@;
            assert(str_views(items@)[k] != name@);
        }
    }
    false
}

/// Whether one of the components of `p` is exactly `name`.
pub open spec fn has_component(p: Seq<char>, name: Seq<char>) -> bool {
    components_of(p).contains(name)
}

/// `<root>/templates/pipelines/<rel>`.
pub open spec fn under_pipelines(root: Seq<char>, rel: Seq<char>) -> Seq<char> {
    joined_path(joined_path(joined_path(root, "templates"@), "pipelines"@), rel)
}

fn pipelines_child(root: &str, rel: &str) -> (r: String)
    ensures
        r@ == under_pipelines(root@, rel@),
{
    let t = path_join(root, "templates");
    let p = path_join(t.as_str(), "pipelines");
    path_join(p.as_str(), rel)
}

/// The part of `input` tried under `root`: the input itself when relative, its
/// file name when absolute (none when an absolute path has no file name).
pub open spec fn relative_part(input: Seq<char>) -> Option<Seq<char>> {
    if absolute_path(input) {
        file_name_of(input)
    } else {
        Some(input)
    }
}

/// Candidates for a pipeline directory argument, in the order they are tried:
/// the input itself; then, for the relative part `rel` (when non-empty),
/// `<root>/<rel>` and — unless `rel` has a `templates` component —
/// `<root>/templates/pipelines/<rel>`.
pub open spec fn dir_candidates_spec(input: Seq<char>, root: Seq<char>) -> Seq<Seq<char>> {
    match relative_part(input) {
        None => seq![input],
        Some(rel) => if rel.len() == 0 {
            seq![input]
        } else if has_component(rel, "templates"@) {
            seq![input, joined_path(root, rel)]
        } else {
            seq![input, joined_path(root, rel), under_pipelines(root, rel)]
        },
    }
}

/// The views of a list of strings.
pub open spec fn str_views(v: Seq<String>) -> Seq<Seq<char>> {
    v.map_values(|s: String| s@)
}

/// Candidates for a pipeline directory argument (see [`dir_candidates_spec`]).
pub fn pipeline_dir_candidates(input: &str, root: &str) -> (out: Vec<String>)
    ensures
        str_views(out@) == dir_candidates_spec(input@, root@),
{
    let mut out: Vec<String> = Vec::new();
    out.push(owned(input));
    let rel = if path_is_absolute(input) {
        match path_file_name(input) {
            Some(n) => n,
            None => {
                assert(str_views(out@) =~= dir_candidates_spec(input@, root@));
                return out;
            },
        }
    } else {
        owned(input)
    };
    if rel.as_str().unicode_len() == 0 {
        assert(str_views(out@) =~= dir_candidates_spec(input@, root@));
        return out;
    }
    out.push(path_join(root, rel.as_str()));
    let parts = path_components(rel.as_str());
    if !holds_text(&parts, "templates") {
        out.push(pipelines_child(root, rel.as_str()));
    }
    assert(str_views(out@) =~= dir_candidates_spec(input@, root@));
    out
}

/// `is_dir` answered `b` when asked about a path with text `p`.
pub open spec fn answered<F: Fn(&str) -> bool>(is_dir: F, p: Seq<char>, b: bool) -> bool {
    exists|s: &str| s@ == p && #[trigger] call_ensures(is_dir, (s,), b)
}

/// `r` is the first of `candidates` that `is_dir` confirmed, all earlier ones
/// having been denied; `None` when every candidate was denied.
pub open spec fn first_dir_spec<F: Fn(&str) -> bool>(candidates: Seq<Seq<char>>, is_dir: F, r: Option<Seq<char>>) -> bool {
    match r {
        Some(p) => exists|i: int|
            0 <= i < candidates.len() && #[trigger] candidates[i] == p && answered(is_dir, candidates[i], true)
                && forall|j: int| 0 <= j < i ==> answered(is_dir, candidates[j], false),
        None => forall|j: int| 0 <= j < candidates.len() ==> answered(is_dir, candidates[j], false),
    }
}

/// The first candidate that `is_dir` confirms as an existing directory,
/// asking in order and stopping at the first yes (fail-closed: no path is
/// invented when every answer is no).
fn first_dir<F: Fn(&str) -> bool>(candidates: Vec<String>, is_dir: &F) -> (r: Option<String>)
    requires
        forall|s: &str| call_requires(*is_dir, (s,)),
    ensures
        first_dir_spec(str_views(candidates@), *is_dir, opt_view(r)),
{
    let ghost cs = str_views(candidates@);
    let mut i: usize = 0;
    while i < candidates.len()
        invariant
            i <= candidates.len(),
            cs == str_views(candidates@),
            forall|s: &str| call_requires(*is_dir, (s,)),
            forall|j: int| 0 <= j < i ==> answered(*is_dir, cs[j], false),
        decreases candidates.len() - i,
    {
        let s = candidates[i].as_str();
        let b = (*is_dir)(s);
        assert(s@ == cs[i as int]);
        assert(answered(*is_dir, cs[i as int], b));
        if b {
            let r = Some(candidates[i].clone());
            assert(cs[i as int] == candidates@[i as int]@);
            return r;
        }
        i = i + 1;
    }
    None
}

/// The directory of a pipeline argument: the first of its candidates (see
/// [`dir_candidates_spec`]) that `is_dir` confirms as an existing directory.
pub fn resolve_pipeline_dir<F: Fn(&str) -> bool>(input: &str, root: &str, is_dir: &F) -> (r: Option<String>)
    requires
        forall|s: &str| call_requires(*is_dir, (s,)),
    ensures
        first_dir_spec(dir_candidates_spec(input@, root@), *is_dir, opt_view(r)),
{
    first_dir(pipeline_dir_candidates(input, root), is_dir)
}

/// The directory of a routine step's pipeline, by the same convention as a
/// pipeline argument: the very result of [`resolve_pipeline_dir`].
pub fn resolve_step_pipeline_dir<F: Fn(&str) -> bool>(input: &str, root: &str, is_dir: &F) -> (r: Option<String>)
    requires
        forall|s: &str| call_requires(*is_dir, (s,)),
    ensures
        first_dir_spec(dir_candidates_spec(input@, root@), *is_dir, opt_view(r)),
{
    resolve_pipeline_dir(input, root, is_dir)
}

} // verus!
