//! Filesystem paths, held as UTF-8 strings.
use vstd::prelude::*;

verus! {

/// What `Path::join` gives for `base` and `segment`, rendered as a string.
/// Joining depends on the arguments alone on a given target: the separator
/// is the target's, and an absolute `segment` replaces `base`.
pub uninterp spec fn joined_path(base: Seq<char>, segment: Seq<char>) -> Seq<char>;

/// `base` joined with `segment` by `std::path::Path::join`.
///
/// Trusted: the contract claims only that the result is `joined_path` of the
/// two arguments; the separator and the handling of absolute segments are
/// left to std. Both arguments are UTF-8, so the rendering is lossless.
#[verifier::external_body]
pub(crate) fn join_path(base: &str, segment: &str) -> (r: String)
    ensures
        r@ == joined_path(base@, segment@),
{
    std::path::Path::new(base).join(segment).to_string_lossy().into_owned()
}

/// A path and whether it names an existing regular file, as the caller found it.
pub struct PathProbe {
    pub path: String,
    pub is_file: bool,
}

} // verus!
