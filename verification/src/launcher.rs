//! Launcher decisions: in what order to try spawning the backend, with which
//! working directory, and how the attempts' outcomes classify.
//!
//! A packaged native binary is preferred; an interpretable script is then
//! tried with several interpreter names. Before any attempt, the transport
//! probe is consulted: a backend already listening means an external
//! instance is in use, and nothing is launched. The caller performs the
//! probe and the spawns (with standard I/O discarded) and feeds the results
//! back in.

use vstd::prelude::*;

verus! {

/// One spawn attempt: a program to run, optionally on a script argument.
pub struct LaunchAttempt {
    /// Program to spawn: the backend binary itself, or an interpreter.
    pub program: String,
    /// Script path handed to an interpreter; nothing for a native binary.
    pub script_arg: Option<String>,
}

/// How a launch ended.
#[derive(Clone, Copy, PartialEq, Eq, Structural, Debug)]
pub enum LaunchOutcome {
    /// A backend was already listening: an external instance is in use, and
    /// nothing was launched. Not a failure.
    ExternalInstance,
    /// The attempt with this index spawned; its handle is now owned.
    Launched(usize),
    /// Neither a binary nor a script candidate was available. Recoverable:
    /// the backend may be run externally.
    NoCandidate,
    /// Every attempt failed to spawn; the last spawn error stands.
    Failed,
}

/// The spawn attempts owed for the located candidates: the binary first,
/// then the script under each interpreter name, in order.
pub open spec fn attempts_spec(binary: Option<Seq<char>>, script: Option<Seq<char>>) -> Seq<
    (Seq<char>, Option<Seq<char>>),
> {
    (match binary {
        Some(b) => seq![(b, Option::<Seq<char>>::None)],
        None => Seq::empty(),
    }) + (match script {
        Some(s) => seq![("python3"@, Some(s)), ("python"@, Some(s))],
        None => Seq::empty(),
    })
}

/// The program and script argument of one attempt, as sequences.
pub open spec fn attempt_view(a: LaunchAttempt) -> (Seq<char>, Option<Seq<char>>) {
    (
        a.program@,
        match a.script_arg {
            Some(s) => Some(s@),
            None => None,
        },
    )
}

/// Build the ordered spawn attempts for the located binary and script.
pub fn launch_attempts(binary: &Option<String>, script: &Option<String>) -> (v: Vec<LaunchAttempt>)
    ensures
        v@.map_values(|a: LaunchAttempt| attempt_view(a)) == attempts_spec(
            match binary {
                Some(b) => Some(b@),
                None => None,
            },
            match script {
                Some(s) => Some(s@),
                None => None,
            },
        ),
{
    let mut v: Vec<LaunchAttempt> = Vec::new();
    if let Some(b) = binary {
        v.push(LaunchAttempt { program: b.clone(), script_arg: None });
    }
    if let Some(s) = script {
        v.push(LaunchAttempt { program: String::from_str("python3"), script_arg: Some(s.clone()) });
        v.push(LaunchAttempt { program: String::from_str("python"), script_arg: Some(s.clone()) });
    }
    proof {
        assert(v@.map_values(|a: LaunchAttempt| attempt_view(a)) =~= attempts_spec(
            match binary {
                Some(b) => Some(b@),
                None => None,
            },
            match script {
                Some(s) => Some(s@),
                None => None,
            },
        ));
    }
    v
}

/// How a launch classifies, given whether a backend was already reachable,
/// how many attempts were owed, and which attempt (if any) spawned.
pub open spec fn classify_spec(
    reachable: bool,
    n_attempts: nat,
    succeeded: Option<usize>,
) -> LaunchOutcome {
    if reachable {
        LaunchOutcome::ExternalInstance
    } else if n_attempts == 0 {
        LaunchOutcome::NoCandidate
    } else {
        match succeeded {
            Some(i) => LaunchOutcome::Launched(i),
            None => LaunchOutcome::Failed,
        }
    }
}

/// Classify a launch from the transport probe's answer and the spawn
/// attempts' results.
pub fn classify_launch(reachable: bool, n_attempts: usize, succeeded: Option<usize>) -> (r:
    LaunchOutcome)
    requires
        succeeded matches Some(i) ==> i < n_attempts,
    ensures
        r == classify_spec(reachable, n_attempts as nat, succeeded),
{
    if reachable {
        LaunchOutcome::ExternalInstance
    } else if n_attempts == 0 {
        LaunchOutcome::NoCandidate
    } else {
        match succeeded {
            Some(i) => LaunchOutcome::Launched(i),
            None => LaunchOutcome::Failed,
        }
    }
}

/// Whether the sequence holds a `/` anywhere.
pub open spec fn has_separator(s: Seq<char>) -> bool {
    exists|i: int| 0 <= i < s.len() && s[i] == '/'
}

/// The directory part of a `/`-separated path: everything before the last
/// separator. A path without a separator names a file in the current
/// directory and has no directory part.
pub fn parent_dir(path: &str) -> (r: Option<String>)
    ensures
        match r {
            Some(p) => exists|i: int|
                0 <= i < path@.len() && path@[i] == '/' && p@ == path@.subrange(0, i) && (forall|
                    j: int,
                |
                    i < j < path@.len() ==> path@[j] != '/'),
            None => !has_separator(path@),
        },
{
    let n = path.unicode_len();
    let mut i = n;
    while i > 0
        invariant
            i <= n,
            n == path@.len(),
            forall|j: int| i <= j < n ==> path@[j] != '/',
        decreases i,
    {
        i = i - 1;
        if path.get_char(i) == '/' {
            let p = String::from_str(path.substring_char(0, i));
            return Some(p);
        }
    }
    None
}

} // verus!
