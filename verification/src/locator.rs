//! Process locator: given what the file system says about an ordered list of
//! candidate locations, pick the first candidate that exists and is a
//! regular file. Finding nothing is an expected, recoverable outcome, not a
//! fault: the backend may be run and managed externally.
//!
//! The caller gathers the file-system facts (whether each path exists and is
//! a regular file) and hands them in as plain values; paths are joined with
//! a `/` separator.

use vstd::prelude::*;

verus! {

/// One candidate location, with what the file system said about it.
pub struct Candidate {
    /// The candidate's path.
    pub path: String,
    /// Whether the path exists.
    pub exists: bool,
    /// Whether the path is a regular file.
    pub is_file: bool,
}

/// A candidate is usable when it exists and is a regular file.
pub open spec fn present(c: Candidate) -> bool {
    c.exists && c.is_file
}

/// `base` and `rel` joined with a single separator.
pub open spec fn joined(base: Seq<char>, rel: Seq<char>) -> Seq<char> {
    base + "/"@ + rel
}

/// Join a base directory and a relative path with a `/` separator.
pub fn join_path(base: &str, rel: &str) -> (p: String)
    ensures
        p@ == joined(base@, rel@),
{
    let p = String::from_str(base).concat("/").concat(rel);
    p
}

/// Candidate locations of the backend's interpretable script, in the order
/// they are tried: next to the working directory's parent, under the working
/// directory, then in the bundled-resource directory (whose bundler places a
/// sibling directory under `_up_/`).
pub open spec fn script_paths(cwd: Option<Seq<char>>, resources: Option<Seq<char>>) -> Seq<
    Seq<char>,
> {
    (match cwd {
        Some(c) => seq![joined(c, "../backend/app.py"@), joined(c, "backend/app.py"@)],
        None => Seq::empty(),
    }) + (match resources {
        Some(r) => seq![
            joined(r, "_up_/backend/app.py"@),
            joined(r, "backend/app.py"@),
            joined(r, "app.py"@),
        ],
        None => Seq::empty(),
    })
}

/// Candidate locations of the backend's packaged native binary, in the order
/// they are tried; each location is tried with and without the Windows
/// executable suffix.
pub open spec fn binary_paths(cwd: Option<Seq<char>>, resources: Option<Seq<char>>) -> Seq<
    Seq<char>,
> {
    (match cwd {
        Some(c) => seq![
            joined(c, "../backend/dist/stocksbot-backend"@),
            joined(c, "../backend/dist/stocksbot-backend.exe"@),
            joined(c, "backend/dist/stocksbot-backend"@),
            joined(c, "backend/dist/stocksbot-backend.exe"@),
        ],
        None => Seq::empty(),
    }) + (match resources {
        Some(r) => seq![
            joined(r, "_up_/backend/dist/stocksbot-backend"@),
            joined(r, "_up_/backend/dist/stocksbot-backend.exe"@),
            joined(r, "backend/dist/stocksbot-backend"@),
            joined(r, "backend/dist/stocksbot-backend.exe"@),
            joined(r, "stocksbot-backend"@),
            joined(r, "stocksbot-backend.exe"@),
        ],
        None => Seq::empty(),
    })
}

/// Build the script candidate paths from the working directory and the
/// bundled-resource directory, either of which may be unavailable.
pub fn script_candidates(cwd: Option<&str>, resources: Option<&str>) -> (v: Vec<String>)
    ensures
        v@.map_values(|p: String| p@) == script_paths(
            match cwd {
                Some(c) => Some(c@),
                None => None,
            },
            match resources {
                Some(r) => Some(r@),
                None => None,
            },
        ),
{
    let mut v: Vec<String> = Vec::new();
    if let Some(c) = cwd {
        v.push(join_path(c, "../backend/app.py"));
        v.push(join_path(c, "backend/app.py"));
    }
    if let Some(r) = resources {
        v.push(join_path(r, "_up_/backend/app.py"));
        v.push(join_path(r, "backend/app.py"));
        v.push(join_path(r, "app.py"));
    }
    proof {
        assert(v@.map_values(|p: String| p@) =~= script_paths(
            match cwd {
                Some(c) => Some(c@),
                None => None,
            },
            match resources {
                Some(r) => Some(r@),
                None => None,
            },
        ));
    }
    v
}

/// Build the binary candidate paths from the working directory and the
/// bundled-resource directory, either of which may be unavailable.
pub fn binary_candidates(cwd: Option<&str>, resources: Option<&str>) -> (v: Vec<String>)
    ensures
        v@.map_values(|p: String| p@) == binary_paths(
            match cwd {
                Some(c) => Some(c@),
                None => None,
            },
            match resources {
                Some(r) => Some(r@),
                None => None,
            },
        ),
{
    let mut v: Vec<String> = Vec::new();
    if let Some(c) = cwd {
        v.push(join_path(c, "../backend/dist/stocksbot-backend"));
        v.push(join_path(c, "../backend/dist/stocksbot-backend.exe"));
        v.push(join_path(c, "backend/dist/stocksbot-backend"));
        v.push(join_path(c, "backend/dist/stocksbot-backend.exe"));
    }
    if let Some(r) = resources {
        v.push(join_path(r, "_up_/backend/dist/stocksbot-backend"));
        v.push(join_path(r, "_up_/backend/dist/stocksbot-backend.exe"));
        v.push(join_path(r, "backend/dist/stocksbot-backend"));
        v.push(join_path(r, "backend/dist/stocksbot-backend.exe"));
        v.push(join_path(r, "stocksbot-backend"));
        v.push(join_path(r, "stocksbot-backend.exe"));
    }
    proof {
        assert(v@.map_values(|p: String| p@) =~= binary_paths(
            match cwd {
                Some(c) => Some(c@),
                None => None,
            },
            match resources {
                Some(r) => Some(r@),
                None => None,
            },
        ));
    }
    v
}

/// Index of the first candidate that exists and is a regular file, if any.
pub fn first_present(candidates: &Vec<Candidate>) -> (r: Option<usize>)
    ensures
        match r {
            Some(i) => i < candidates@.len() && present(candidates@[i as int]) && forall|j: int|
                0 <= j < i ==> !present(candidates@[j]),
            None => forall|j: int| 0 <= j < candidates@.len() ==> !present(candidates@[j]),
        },
{
    let n = candidates.len();
    let mut i: usize = 0;
    while i < n
        invariant
            n == candidates@.len(),
            i <= n,
            forall|j: int| 0 <= j < i ==> !present(candidates@[j]),
        decreases n - i,
    {
        if candidates[i].exists && candidates[i].is_file {
            return Some(i);
        }
        i = i + 1;
    }
    None
}

/// Path of the first candidate backend binary that exists and is a regular
/// file; nothing if every candidate is absent.
pub fn find_backend_binary(candidates: &Vec<Candidate>) -> (r: Option<String>)
    ensures
        match r {
            Some(p) => exists|i: int|
                0 <= i < candidates@.len() && present(candidates@[i]) && p@ == candidates@[i].path@
                    && (forall|j: int| 0 <= j < i ==> !present(candidates@[j])),
            None => forall|j: int| 0 <= j < candidates@.len() ==> !present(candidates@[j]),
        },
{
    match first_present(candidates) {
        Some(i) => {
            let p = candidates[i].path.clone();
            Some(p)
        },
        None => None,
    }
}

/// Path of the first candidate backend script that exists and is a regular
/// file; nothing if every candidate is absent.
pub fn find_backend_script(candidates: &Vec<Candidate>) -> (r: Option<String>)
    ensures
        match r {
            Some(p) => exists|i: int|
                0 <= i < candidates@.len() && present(candidates@[i]) && p@ == candidates@[i].path@
                    && (forall|j: int| 0 <= j < i ==> !present(candidates@[j])),
            None => forall|j: int| 0 <= j < candidates@.len() ==> !present(candidates@[j]),
        },
{
    match first_present(candidates) {
        Some(i) => {
            let p = candidates[i].path.clone();
            Some(p)
        },
        None => None,
    }
}

} // verus!
