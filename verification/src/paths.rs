//! Paths, held as text.
//!
//! What the standard library and the `path-dedot` crate make of paths is
//! named here, path by path, as text. Each name stands for what the function
//! returns on the platform that the library is built for.

use path_dedot::ParseDot;
use vstd::prelude::*;

verus! {

/// The path that `Path::join` makes of `base` and `part`.
pub uninterp spec fn joined_path(base: Seq<char>, part: Seq<char>) -> Seq<char>;

/// The path that `PathBuf::extend` makes of `base` and the components of
/// `part`.
pub uninterp spec fn extended_path(base: Seq<char>, part: Seq<char>) -> Seq<char>;

/// Whether `Path::is_absolute` holds of `path`.
pub uninterp spec fn absolute_path(path: Seq<char>) -> bool;

/// The path that `ParseDot::parse_dot` makes of an absolute `path`: the path
/// without its `.` and `..` segments.
pub uninterp spec fn dedotted_path(path: Seq<char>) -> Seq<char>;

/// What `Path::parent` gives for `path`.
pub uninterp spec fn parent_path(path: Seq<char>) -> Option<Seq<char>>;

/// What `Path::file_name` gives for `path`, where that is text.
pub uninterp spec fn file_name_of(path: Seq<char>) -> Option<Seq<char>>;

/// Whether `Path::starts_with` holds of `path` and `base`: whether the
/// components of `base` are the first components of `path`.
pub uninterp spec fn path_within(path: Seq<char>, base: Seq<char>) -> bool;

/// `Path::join`, on paths held as text: `base` extended by `part`.
#[verifier::external_body]
pub(crate) fn path_join(base: &str, part: &str) -> (r: String)
    ensures
        r@ == joined_path(base@, part@),
{
    std::path::Path::new(base).join(part).to_string_lossy().into_owned()
}

/// `PathBuf::extend` with the components of a path, on paths held as text.
#[verifier::external_body]
pub(crate) fn path_extend(base: &str, part: &str) -> (r: String)
    ensures
        r@ == extended_path(base@, part@),
{
    let mut path = std::path::PathBuf::from(base);
    path.extend(std::path::Path::new(part).components());
    path.to_string_lossy().into_owned()
}

/// `Path::is_absolute`, on a path held as text.
#[verifier::external_body]
pub(crate) fn path_is_absolute(path: &str) -> (r: bool)
    ensures
        r == absolute_path(path@),
{
    std::path::Path::new(path).is_absolute()
}

/// `ParseDot::parse_dot` of `path-dedot`, on an absolute path held as text.
/// For an absolute path the current directory does not enter into the
/// result; where it cannot be had, the call fails. A failure comes back as
/// its text. A path that is not absolute is left out: some such paths make
/// the call panic.
#[verifier::external_body]
pub(crate) fn path_dedot(path: &str) -> (r: Result<String, String>)
    requires
        absolute_path(path@),
    ensures
        r matches Ok(d) ==> d@ == dedotted_path(path@),
{
    match std::path::Path::new(path).parse_dot() {
        Ok(p) => Ok(p.to_string_lossy().into_owned()),
        Err(e) => Err(e.to_string()),
    }
}

/// `Path::parent`, on a path held as text.
#[verifier::external_body]
pub(crate) fn path_parent(path: &str) -> (r: Option<String>)
    ensures
        crate::resource::text_of(r) == parent_path(path@),
{
    std::path::Path::new(path).parent().map(|p| p.to_string_lossy().into_owned())
}

/// `Path::file_name`, on a path held as text.
#[verifier::external_body]
pub(crate) fn path_file_name(path: &str) -> (r: Option<String>)
    ensures
        crate::resource::text_of(r) == file_name_of(path@),
{
    std::path::Path::new(path).file_name().map(|p| p.to_string_lossy().into_owned())
}

/// `Path::starts_with`, on paths held as text.
#[verifier::external_body]
pub(crate) fn path_starts_with(path: &str, base: &str) -> (r: bool)
    ensures
        r == path_within(path@, base@),
{
    std::path::Path::new(path).starts_with(base)
}

} // verus!
