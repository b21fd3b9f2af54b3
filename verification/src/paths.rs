//! The parts of `std::path` that the library reads out of a path given as
//! text. Each function below calls the standard library and is trusted.
//! What the names below stand for is fixed for the target a build is made
//! for: on Windows a backslash separates components too and an absolute
//! path needs a drive or share prefix; elsewhere only `/` separates them
//! and a leading `/` makes a path absolute.
use vstd::prelude::*;

verus! {

/// What `Path::file_stem` gives for the path `p`: the last component without
/// its extension.
pub uninterp spec fn path_file_stem(p: Seq<char>) -> Option<Seq<char>>;

/// What `Path::extension` gives for the path `p`.
pub uninterp spec fn path_extension(p: Seq<char>) -> Option<Seq<char>>;

/// What `Path::file_name` gives for the path `p`: its last component.
pub uninterp spec fn path_file_name(p: Seq<char>) -> Option<Seq<char>>;

/// Calls `Path::file_stem` on `path`. Claimed: the result is the named
/// `path_file_stem` of the text; the component of a path given as text is
/// text again, so its `to_str` never fails.
#[verifier::external_body]
pub(crate) fn file_stem(path: &str) -> (r: Option<String>)
    ensures
        match r {
            Some(s) => path_file_stem(path@) == Some(s@),
            None => path_file_stem(path@) is None,
        },
{
    std::path::Path::new(path).file_stem().and_then(|s| s.to_str()).map(|s| s.to_string())
}

/// Calls `Path::extension` on `path`. Claimed: the result is the named
/// `path_extension` of the text.
#[verifier::external_body]
pub(crate) fn extension(path: &str) -> (r: Option<String>)
    ensures
        match r {
            Some(s) => path_extension(path@) == Some(s@),
            None => path_extension(path@) is None,
        },
{
    std::path::Path::new(path).extension().and_then(|s| s.to_str()).map(|s| s.to_string())
}

/// Calls `Path::file_name` on `path`. Claimed: the result is the named
/// `path_file_name` of the text.
#[verifier::external_body]
pub(crate) fn file_name(path: &str) -> (r: Option<String>)
    ensures
        match r {
            Some(s) => path_file_name(path@) == Some(s@),
            None => path_file_name(path@) is None,
        },
{
    std::path::Path::new(path).file_name().and_then(|s| s.to_str()).map(|s| s.to_string())
}


/// What `Path::is_absolute` gives for the path `p`.
pub uninterp spec fn path_is_absolute(p: Seq<char>) -> bool;

/// What `Path::join` gives for `base` and `rel`.
pub uninterp spec fn path_join(base: Seq<char>, rel: Seq<char>) -> Seq<char>;

/// What `Path::parent` gives for the path `p`.
pub uninterp spec fn path_parent(p: Seq<char>) -> Option<Seq<char>>;

/// Calls `Path::is_absolute` on `path`. Claimed: the result is the named
/// `path_is_absolute` of the text.
#[verifier::external_body]
pub(crate) fn is_absolute(path: &str) -> (r: bool)
    ensures
        r == path_is_absolute(path@),
{
    std::path::Path::new(path).is_absolute()
}

/// Calls `Path::join`. Claimed: the result is the named `path_join` of the
/// two texts; joining two paths given as text gives text again, so the
/// conversion back loses nothing.
#[verifier::external_body]
pub(crate) fn join(base: &str, rel: &str) -> (r: String)
    ensures
        r@ == path_join(base@, rel@),
{
    std::path::Path::new(base).join(rel).to_string_lossy().into_owned()
}

/// Calls `Path::parent` on `path`. Claimed: the result is the named
/// `path_parent` of the text.
#[verifier::external_body]
pub(crate) fn parent(path: &str) -> (r: Option<String>)
    ensures
        match r {
            Some(s) => path_parent(path@) == Some(s@),
            None => path_parent(path@) is None,
        },
{
    std::path::Path::new(path).parent().and_then(|p| p.to_str()).map(|p| p.to_string())
}

} // verus!
