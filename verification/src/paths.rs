//! Calls into `std::path` on paths held as text.
//!
//! How `std::path` splits a path into components takes pages to state, so what each
//! call returns is given a name: a function of the path's text alone.
use vstd::prelude::*;
use crate::text::text_of;

verus! {

/// What `Path::file_stem` gives for the path `p`, as text.
pub uninterp spec fn path_file_stem(p: Seq<char>) -> Option<Seq<char>>;

/// What `Path::extension` gives for the path `p`, as text.
pub uninterp spec fn path_extension(p: Seq<char>) -> Option<Seq<char>>;

/// What `Path::parent` gives for the path `p`, as text.
pub uninterp spec fn path_parent(p: Seq<char>) -> Option<Seq<char>>;

/// What `Path::file_name` gives for the path `p`, as text.
pub uninterp spec fn path_file_name(p: Seq<char>) -> Option<Seq<char>>;

/// `Path::file_stem` of `p`, converted with `OsStr::to_str`.
/// Trusted: the result is the named value `path_file_stem` of the text of `p`.
#[verifier::external_body]
pub(crate) fn file_stem_of(p: &str) -> (res: Option<String>)
    ensures
        text_of(res) == path_file_stem(p@),
{
    std::path::Path::new(p).file_stem().and_then(|s| s.to_str()).map(|s| s.to_string())
}

/// `Path::extension` of `p`, converted with `OsStr::to_str`.
/// Trusted: the result is the named value `path_extension` of the text of `p`.
#[verifier::external_body]
pub(crate) fn extension_of(p: &str) -> (res: Option<String>)
    ensures
        text_of(res) == path_extension(p@),
{
    std::path::Path::new(p).extension().and_then(|s| s.to_str()).map(|s| s.to_string())
}

/// `Path::parent` of `p`, converted with `Path::to_string_lossy`.
/// Trusted: the result is the named value `path_parent` of the text of `p`.
#[verifier::external_body]
pub(crate) fn parent_of(p: &str) -> (res: Option<String>)
    ensures
        text_of(res) == path_parent(p@),
{
    std::path::Path::new(p).parent().map(|d| d.to_string_lossy().to_string())
}

/// `Path::file_name` of `p`, converted with `OsStr::to_string_lossy`.
/// Trusted: the result is the named value `path_file_name` of the text of `p`.
#[verifier::external_body]
pub(crate) fn file_name_of(p: &str) -> (res: Option<String>)
    ensures
        text_of(res) == path_file_name(p@),
{
    std::path::Path::new(p).file_name().map(|n| n.to_string_lossy().to_string())
}

/// `Path::exists` on `p`: whether something is on disk at that path right now.
/// Trusted for nothing: the answer depends on the file system, so no clause states it.
#[verifier::external_body]
pub(crate) fn path_exists(p: &str) -> (res: bool) {
    std::path::Path::new(p).exists()
}

} // verus!
