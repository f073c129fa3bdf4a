use vstd::prelude::*;

verus! {

/// The filesystem event kinds the watcher distinguishes: only creations and
/// modifications can trigger a run.
#[derive(Clone, Copy, Debug, PartialEq, Eq, Structural)]
pub enum FsEventKind {
    Create,
    Modify,
    Other,
}

/// Whether a file name matches a glob pattern: `None` when the pattern is
/// not valid glob syntax, otherwise the match result. A function of the two
/// strings alone.
pub uninterp spec fn glob_match_of(pattern: Seq<char>, name: Seq<char>) -> Option<bool>;

/// Relies on glob::Pattern::new and Pattern::matches: compiling and matching
/// are deterministic in the two strings; an invalid pattern yields `None`.
#[verifier::external_body]
fn glob_match(pattern: &str, name: &str) -> (r: Option<bool>)
    ensures
        r == glob_match_of(pattern@, name@),
{
    glob::Pattern::new(pattern).ok().map(|p| p.matches(name))
}

/// A watch event deserves a pipeline run exactly when it is a creation or
/// modification and its file name matches at least one of the patterns that
/// compile; patterns that do not compile never match.
pub open spec fn spec_event_qualifies(
    kind: FsEventKind,
    fname: Seq<char>,
    patterns: Seq<Seq<char>>,
) -> bool {
    &&& (kind == FsEventKind::Create || kind == FsEventKind::Modify)
    &&& exists|i: int|
        0 <= i < patterns.len() && #[trigger] glob_match_of(patterns[i], fname) == Some(true)
}

/// Decides whether one filesystem event triggers the pipeline.
pub fn event_qualifies(kind: FsEventKind, fname: &str, patterns: &Vec<String>) -> (r: bool)
    ensures
        r == spec_event_qualifies(kind, fname@, patterns.deep_view()),
{
    match kind {
        FsEventKind::Other => { return false; },
        _ => {},
    }
    let n = patterns.len();
    let mut i: usize = 0;
    while i < n
        invariant
            0 <= i <= n,
            n == patterns@.len(),
            kind == FsEventKind::Create || kind == FsEventKind::Modify,
            forall|j: int|
                0 <= j < i ==> #[trigger] glob_match_of(patterns.deep_view()[j], fname@)
                    != Some(true),
        decreases n - i,
    {
        match glob_match(patterns[i].as_str(), fname) {
            Some(true) => {
                proof {
                    assert(glob_match_of(patterns.deep_view()[i as int], fname@) == Some(true));
                }
                return true;
            },
            _ => {},
        }
        i = i + 1;
    }
    false
}

} // verus!
