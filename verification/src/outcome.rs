use crate::package::InstallResult;
use vstd::prelude::*;

verus! {

/// What came back from the child process: whether it exited successfully,
/// and its captured standard output and standard error, in full, as raw
/// bytes. Lives only until the outcome is classified.
#[derive(Debug, Clone)]
pub struct ProcessOutcome {
    pub success: bool,
    pub stdout: Vec<u8>,
    pub stderr: Vec<u8>,
}

/// The bytes of `code E404`, the marker the package manager embeds in its
/// free-form error output when a package could not be found. The marker is
/// plain ASCII, so searching the captured bytes and searching their decoded
/// text find it in exactly the same outputs.
pub open spec fn not_found_marker() -> Seq<u8> {
    seq![99u8, 111u8, 100u8, 101u8, 32u8, 69u8, 52u8, 48u8, 52u8]
}

/// The marker occurs in `s` starting at position `i`.
pub open spec fn marker_at(s: Seq<u8>, i: int) -> bool {
    &&& 0 <= i
    &&& i + not_found_marker().len() <= s.len()
    &&& forall|k: int|
        0 <= k < not_found_marker().len() ==> s[i + k] == not_found_marker()[k]
}

/// The marker occurs somewhere in `s`.
pub open spec fn contains_not_found_marker(s: Seq<u8>) -> bool {
    exists|i: int| marker_at(s, i)
}

/// Whether the marker occurs in `stderr` starting at position `i`.
fn marker_matches_at(stderr: &Vec<u8>, i: usize) -> (r: bool)
    requires
        i + not_found_marker().len() <= stderr@.len(),
    ensures
        r == marker_at(stderr@, i as int),
{
    let n = stderr.len();
    assert(i + 9 <= n);
    let r = stderr[i] == 99 && stderr[i + 1] == 111 && stderr[i + 2] == 100 && stderr[i + 3]
        == 101 && stderr[i + 4] == 32 && stderr[i + 5] == 69 && stderr[i + 6] == 52 && stderr[i
        + 7] == 48 && stderr[i + 8] == 52;
    proof {
        if r {
            assert forall|k: int| 0 <= k < not_found_marker().len() implies stderr@[i + k]
                == not_found_marker()[k] by {
                if k == 0 {
                } else if k == 1 {
                } else if k == 2 {
                } else if k == 3 {
                } else if k == 4 {
                } else if k == 5 {
                } else if k == 6 {
                } else if k == 7 {
                } else {
                    assert(k == 8);
                }
            }
        }
    }
    r
}

/// Whether the captured standard-error bytes contain the package-manager's
/// "package not found" marker. A heuristic by necessity: the tool signals
/// "not found" only inside human-readable text, not through its exit code,
/// so a substring search is the only available signal.
pub fn stderr_mentions_missing_package(stderr: &Vec<u8>) -> (r: bool)
    ensures
        r == contains_not_found_marker(stderr@),
{
    let n = stderr.len();
    if n < 9 {
        return false;
    }
    let mut i: usize = 0;
    while i <= n - 9
        invariant
            9 <= n == stderr@.len(),
            i <= n - 9 + 1,
            forall|j: int| 0 <= j < i ==> !marker_at(stderr@, j),
        decreases n - i,
    {
        if marker_matches_at(stderr, i) {
            return true;
        }
        i = i + 1;
    }
    assert forall|j: int| !marker_at(stderr@, j) by {
        if 0 <= j < i {
        }
    }
    false
}

/// Relates a process outcome to its classification for `package`:
/// a successful exit is `Success` whatever standard error holds; a failed
/// exit whose standard error mentions the not-found marker is
/// `PackageNotFound`; any other failed exit is `InstallFailed`.
pub open spec fn classifies(
    package: Seq<char>,
    outcome: ProcessOutcome,
    r: InstallResult,
) -> bool {
    if outcome.success {
        r is Success
    } else if contains_not_found_marker(outcome.stderr@) {
        r matches InstallResult::PackageNotFound { package: p } && p@ == package
    } else {
        r matches InstallResult::InstallFailed { package: p } && p@ == package
    }
}

/// Classifies one process outcome for `package`, as `classifies` states.
pub fn classify_outcome(package: &String, outcome: &ProcessOutcome) -> (r: InstallResult)
    ensures
        classifies(package@, *outcome, r),
{
    if outcome.success {
        InstallResult::Success
    } else if stderr_mentions_missing_package(&outcome.stderr) {
        InstallResult::PackageNotFound { package: package.clone() }
    } else {
        InstallResult::InstallFailed { package: package.clone() }
    }
}

} // verus!
