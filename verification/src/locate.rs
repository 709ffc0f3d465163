//! Artifact location: the ordered probe over candidate build outputs of
//! the subordinate server, and the path arithmetic around it. Filesystem
//! existence checks are the caller's; this module decides, given the
//! candidates and whether each exists, which path is used, and it
//! constructs the conventional candidate paths themselves.

use vstd::prelude::*;
use vstd::string::*;

verus! {

/// A probed location: the path and whether something exists there.
pub struct Candidate {
    pub path: String,
    pub exists: bool,
}

/// The supervisor's fatal startup errors.
#[derive(Debug, PartialEq, Eq)]
pub enum SupervisorError {
    /// No candidate location held the server artifact; `probed` lists
    /// every path that was tried, in probe order.
    ArtifactNotFound { probed: Vec<String> },
    /// The operating system failed to launch the resolved executable.
    SpawnFailed { reason: String },
}

/// The probed paths joined with " or ", in probe order.
pub open spec fn join_or(paths: Seq<Seq<char>>) -> Seq<char>
    decreases paths.len(),
{
    if paths.len() == 0 {
        Seq::empty()
    } else if paths.len() == 1 {
        paths[0]
    } else {
        join_or(paths.drop_last()) + " or "@ + paths.last()
    }
}

/// The message shown for each fatal startup error.
pub open spec fn message_spec(e: SupervisorError) -> Seq<char> {
    match e {
        SupervisorError::ArtifactNotFound { probed } => "Server not found at "@
            + join_or(probed@.map(|i: int, p: String| p@))
            + ". Please build the server first."@,
        SupervisorError::SpawnFailed { reason } => "Failed to start server: "@ + reason@,
    }
}

impl SupervisorError {
    /// Renders the error for the host's diagnostics.
    pub fn message(&self) -> (r: String)
        ensures
            r@ == message_spec(*self),
    {
        match self {
            SupervisorError::ArtifactNotFound { probed } => {
                let ghost ps = probed@.map(|i: int, p: String| p@);
                let mut acc = String::new();
                let n = probed.len();
                let mut i: usize = 0;
                while i < n
                    invariant
                        0 <= i <= n,
                        n == probed@.len(),
                        ps == probed@.map(|i: int, p: String| p@),
                        acc@ == join_or(ps.take(i as int)),
                    decreases n - i,
                {
                    if i > 0 {
                        acc.append(" or ");
                    }
                    acc.append(probed[i].as_str());
                    proof {
                        if i == 0 {
                            assert(ps.take(1)[0] == ps[0]);
                            assert(acc@ =~= join_or(ps.take(1)));
                        } else {
                            assert(ps.take(i + 1).drop_last() =~= ps.take(i as int));
                            assert(ps.take(i + 1).last() == ps[i as int]);
                            assert(acc@ =~= join_or(ps.take(i + 1)));
                        }
                    }
                    i += 1;
                }
                proof {
                    assert(ps.take(n as int) =~= ps);
                }
                let r = String::from_str("Server not found at ")
                    .concat(acc.as_str())
                    .concat(". Please build the server first.");
                r
            },
            SupervisorError::SpawnFailed { reason } => {
                let r = String::from_str("Failed to start server: ").concat(reason.as_str());
                r
            },
        }
    }
}

/// Index of the first candidate that exists, if any.
pub open spec fn chosen(cs: Seq<Candidate>) -> Option<int>
    decreases cs.len(),
{
    if cs.len() == 0 {
        None
    } else if cs[0].exists {
        Some(0int)
    } else {
        match chosen(cs.drop_first()) {
            Some(i) => Some(i + 1),
            None => None,
        }
    }
}

/// When no candidate exists, the probe chooses nothing.
pub proof fn lemma_chosen_none(cs: Seq<Candidate>)
    requires
        forall|j: int| 0 <= j < cs.len() ==> !(#[trigger] cs[j]).exists,
    ensures
        chosen(cs) is None,
    decreases cs.len(),
{
    if cs.len() > 0 {
        lemma_chosen_none(cs.drop_first());
    }
}

/// When the first candidate exists it is chosen, whatever stands after
/// it.
pub proof fn lemma_first_preferred(cs: Seq<Candidate>)
    requires
        cs.len() >= 1,
        cs[0].exists,
    ensures
        chosen(cs) == Some(0int),
{
}

/// The chosen candidate exists and every candidate before it does not.
pub proof fn lemma_chosen_is_first(cs: Seq<Candidate>, i: int)
    requires
        0 <= i < cs.len(),
        cs[i].exists,
        forall|j: int| 0 <= j < i ==> !(#[trigger] cs[j]).exists,
    ensures
        chosen(cs) == Some(i),
    decreases i,
{
    if i > 0 {
        lemma_chosen_is_first(cs.drop_first(), i - 1);
    }
}

/// Returns the first existing candidate's path, or an error listing
/// every probed path when none exists.
pub fn locate(candidates: &Vec<Candidate>) -> (r: Result<String, SupervisorError>)
    ensures
        match chosen(candidates@) {
            Some(i) => r matches Ok(p) && p@ == candidates@[i].path@,
            None => r matches Err(e) && e matches SupervisorError::ArtifactNotFound { probed }
                && probed@.len() == candidates@.len()
                && (forall|j: int| 0 <= j < candidates@.len()
                    ==> (#[trigger] probed@[j])@ == candidates@[j].path@),
        },
{
    let n = candidates.len();
    let mut i: usize = 0;
    while i < n
        invariant
            0 <= i <= n,
            n == candidates@.len(),
            forall|j: int| 0 <= j < i ==> !(#[trigger] candidates@[j]).exists,
        decreases n - i,
    {
        if candidates[i].exists {
            proof {
                lemma_chosen_is_first(candidates@, i as int);
            }
            return Ok(candidates[i].path.clone());
        }
        i += 1;
    }
    proof {
        lemma_chosen_none(candidates@);
    }
    let mut probed: Vec<String> = Vec::new();
    let mut j: usize = 0;
    while j < n
        invariant
            0 <= j <= n,
            n == candidates@.len(),
            probed@.len() == j,
            forall|k: int| 0 <= k < j ==> (#[trigger] probed@[k])@ == candidates@[k].path@,
        decreases n - j,
    {
        probed.push(candidates[j].path.clone());
        j += 1;
    }
    Err(SupervisorError::ArtifactNotFound { probed })
}

/// Conventional location of the release build of the server, below a
/// given parent directory.
pub open spec fn release_suffix() -> Seq<char> {
    "/Server/bin/Release/net10.0/Server.dll"@
}

/// Conventional location of the debug build of the server, below a
/// given parent directory.
pub open spec fn debug_suffix() -> Seq<char> {
    "/Server/bin/Debug/net10.0/Server.dll"@
}

/// The two candidate paths probed for the server artifact, release
/// first, both below the parent of the working directory.
pub fn candidate_paths(parent: &str) -> (r: (String, String))
    ensures
        r.0@ == parent@ + release_suffix(),
        r.1@ == parent@ + debug_suffix(),
{
    let release = String::from_str(parent).concat("/Server/bin/Release/net10.0/Server.dll");
    let debug = String::from_str(parent).concat("/Server/bin/Debug/net10.0/Server.dll");
    (release, debug)
}

/// Index of the last '/' in the sequence, or -1 when there is none.
pub open spec fn last_slash_idx(s: Seq<char>) -> int
    decreases s.len(),
{
    if s.len() == 0 {
        -1
    } else if s.last() == '/' {
        s.len() - 1
    } else {
        last_slash_idx(s.drop_last())
    }
}

/// A '/' with no '/' after it is the last one.
pub proof fn lemma_last_slash_at(s: Seq<char>, i: int)
    requires
        0 <= i < s.len(),
        s[i] == '/',
        forall|j: int| i < j < s.len() ==> s[j] != '/',
    ensures
        last_slash_idx(s) == i,
    decreases s.len(),
{
    if i < s.len() - 1 {
        lemma_last_slash_at(s.drop_last(), i);
    }
}

/// Without any '/' there is no last one.
pub proof fn lemma_no_slash(s: Seq<char>)
    requires
        forall|j: int| 0 <= j < s.len() ==> s[j] != '/',
    ensures
        last_slash_idx(s) == -1,
    decreases s.len(),
{
    if s.len() > 0 {
        lemma_no_slash(s.drop_last());
    }
}

/// The directory containing a path: everything before its last '/', or
/// nothing when the path has no '/' at all.
pub fn parent_dir(path: &str) -> (r: Option<String>)
    ensures
        last_slash_idx(path@) < 0 ==> r is None,
        last_slash_idx(path@) >= 0 ==> (r matches Some(p)
            && p@ == path@.subrange(0, last_slash_idx(path@))),
{
    let n = path.unicode_len();
    let mut i: usize = n;
    while i > 0
        invariant
            0 <= i <= n,
            n == path@.len(),
            forall|j: int| i <= j < n ==> path@[j] != '/',
        decreases i,
    {
        let c = path.get_char(i - 1);
        if c == '/' {
            proof {
                lemma_last_slash_at(path@, i - 1);
            }
            let p = path.substring_char(0, i - 1);
            return Some(String::from_str(p));
        }
        i -= 1;
    }
    proof {
        lemma_no_slash(path@);
    }
    None
}

} // verus!
