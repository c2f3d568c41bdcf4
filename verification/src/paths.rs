//! Paths to configuration files, in the form that most programs accept.

use vstd::prelude::*;

verus! {

/// The four characters that open an extended-length Windows path.
pub open spec fn verbatim_prefix() -> Seq<char> {
    seq!['\\', '\\', '?', '\\']
}

/// Whether `simplified` can come of simplifying `path`: it is `path`
/// itself, or `path` without the extended-length prefix that it opens
/// with.
pub open spec fn is_simplified(path: Seq<char>, simplified: Seq<char>) -> bool {
    ||| simplified == path
    ||| {
        &&& path.len() >= 4
        &&& path.subrange(0, 4) == verbatim_prefix()
        &&& simplified == path.subrange(4, path.len() as int)
    }
}

/// Calls `dunce::simplified` on `location`, taken as a path. That function
/// hands its argument back as it is, or, on Windows, where the path opens
/// with `\\?\` and a drive and every later part is an ordinary file name,
/// without those first four characters. Which of the two depends on the
/// platform, so the contract says only that the result is one of them.
#[verifier::external_body]
pub(crate) fn simplified(location: &str) -> (simplified: String)
    ensures
        is_simplified(location@, simplified@),
{
    dunce::simplified(std::path::Path::new(location)).to_string_lossy().to_string()
}

} // verus!
