//! Project registry: maps a project identifier to the path of its deployment
//! script. The base directory is an explicit parameter, so resolution is a
//! pure function of its arguments.

use vstd::prelude::*;

use crate::text::str_eq;

verus! {

/// The fixed per-project script suffix, or `None` for an unknown project.
pub open spec fn script_suffix_spec(project: Seq<char>) -> Option<Seq<char>> {
    if project == "project-a"@ {
        Some("/scripts/deploy.sh"@)
    } else if project == "project-b"@ {
        Some("/scripts/deploy.zx.mjs"@)
    } else {
        None
    }
}

/// A project identifier is known when the registry maps it to a script suffix.
pub open spec fn known_project(project: Seq<char>) -> bool {
    script_suffix_spec(project) is Some
}

/// The script path of a known project: the base directory followed by the
/// project's fixed suffix.
pub open spec fn script_path_spec(base: Seq<char>, project: Seq<char>) -> Option<Seq<char>> {
    match script_suffix_spec(project) {
        Some(suffix) => Some(base + suffix),
        None => None,
    }
}

/// Resolve a project identifier to its deployment script path under the given
/// base directory, or `None` when the project is unknown.
pub fn get_script_path(base_dir: &str, project_name: &str) -> (r: Option<String>)
    ensures
        r is Some <==> known_project(project_name@),
        r matches Some(p) ==> script_path_spec(base_dir@, project_name@) == Some(p@),
{
    if str_eq(project_name, "project-a") {
        Some(String::from_str(base_dir).concat("/scripts/deploy.sh"))
    } else if str_eq(project_name, "project-b") {
        Some(String::from_str(base_dir).concat("/scripts/deploy.zx.mjs"))
    } else {
        None
    }
}

/// Resolution is deterministic: two resolutions of the same project under the
/// same base directory yield the same path.
pub proof fn lemma_resolution_deterministic(
    base: Seq<char>,
    project: Seq<char>,
    r1: Option<Seq<char>>,
    r2: Option<Seq<char>>,
)
    requires
        r1 == script_path_spec(base, project),
        r2 == script_path_spec(base, project),
    ensures
        r1 == r2,
{
}

} // verus!
