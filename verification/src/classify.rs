//! Classification of converter failures.
//!
//! A converter run that exits with a failure status is sorted into coarse
//! categories by searching its captured error text for known phrases; a
//! run that could not be launched at all is sorted by the reported
//! operating-system error code, where code 2 is the POSIX "no such file
//! or directory" that marks a missing executable.

use vstd::prelude::*;
use vstd::string::*;

verus! {

/// The POSIX error code for "no such file or directory".
pub const NOT_FOUND_OS_CODE: i32 = 2;

/// Whether `needle` occurs in `hay` starting at position `i`.
pub open spec fn matches_at(hay: Seq<char>, needle: Seq<char>, i: int) -> bool {
    &&& 0 <= i
    &&& i + needle.len() <= hay.len()
    &&& forall|t: int| 0 <= t < needle.len() ==> hay[i + t] == needle[t]
}

/// Whether `needle` occurs anywhere in `hay`.
pub open spec fn contains_seq(hay: Seq<char>, needle: Seq<char>) -> bool {
    exists|i: int| matches_at(hay, needle, i)
}

fn match_at(hay: &str, needle: &str, i: usize) -> (r: bool)
    requires
        hay@.len() <= usize::MAX,
        i + needle@.len() <= hay@.len(),
    ensures
        r == matches_at(hay@, needle@, i as int),
{
    let n = needle.unicode_len();
    let mut j: usize = 0;
    while j < n
        invariant
            hay@.len() <= usize::MAX,
            i + n <= hay@.len(),
            n == needle@.len(),
            j <= n,
            forall|t: int| 0 <= t < j ==> hay@[i + t] == needle@[t],
        decreases n - j,
    {
        if hay.get_char(i + j) != needle.get_char(j) {
            return false;
        }
        j = j + 1;
    }
    true
}

/// Whether `needle` occurs as a contiguous substring of `hay`.
pub fn contains_substring(hay: &str, needle: &str) -> (r: bool)
    ensures
        r == contains_seq(hay@, needle@),
{
    let h = hay.unicode_len();
    let n = needle.unicode_len();
    if n > h {
        return false;
    }
    let mut i: usize = 0;
    while i <= h - n
        invariant
            h == hay@.len(),
            n == needle@.len(),
            n <= h,
            i <= h - n + 1,
            forall|k: int| 0 <= k < i ==> !matches_at(hay@, needle@, k),
        decreases h - i,
    {
        if match_at(hay, needle, i) {
            return true;
        }
        i = i + 1;
    }
    false
}

/// The coarse category of a converter run that exited with failure.
pub enum FailureKind {
    /// The error text mentions "already exists".
    AlreadyExists,
    /// The error text mentions "suitable output".
    UnsuitableOutput,
    /// Neither phrase occurs; the raw error text is reported instead.
    Unknown,
}

/// Sorts a failed run's captured error text into its category, by the
/// first of the two known phrases it contains.
pub fn classify_stderr(stderr: &str) -> (r: FailureKind)
    ensures
        r is AlreadyExists <==> contains_seq(stderr@, "already exists"@),
        r is UnsuitableOutput <==> !contains_seq(stderr@, "already exists"@) && contains_seq(
            stderr@,
            "suitable output"@,
        ),
        r is Unknown <==> !contains_seq(stderr@, "already exists"@) && !contains_seq(
            stderr@,
            "suitable output"@,
        ),
{
    if contains_substring(stderr, "already exists") {
        FailureKind::AlreadyExists
    } else if contains_substring(stderr, "suitable output") {
        FailureKind::UnsuitableOutput
    } else {
        FailureKind::Unknown
    }
}

/// The platform-neutral reason a converter subprocess failed to launch.
pub enum LaunchFailureKind {
    /// The executable is absent from the search path.
    NotFound,
    /// Any other launch failure.
    Other,
}

/// Maps the raw operating-system error code of a failed launch to its
/// platform-neutral reason: code 2 means the executable was not found.
pub fn classify_launch_failure(os_code: Option<i32>) -> (r: LaunchFailureKind)
    ensures
        r is NotFound <==> os_code == Some(NOT_FOUND_OS_CODE),
{
    if let Some(code) = os_code {
        if code == NOT_FOUND_OS_CODE {
            LaunchFailureKind::NotFound
        } else {
            LaunchFailureKind::Other
        }
    } else {
        LaunchFailureKind::Other
    }
}

} // verus!
