//! Paths as text.
//!
//! The library holds every path as a `String`. What a path's parent, file
//! name or extension is, is left to `camino`, which follows the path rules
//! of the platform that the crate is compiled for.

use camino::Utf8Path;
use vstd::prelude::*;

verus! {

/// The path without its last component, where it has a parent.
pub uninterp spec fn parent_of(path: Seq<char>) -> Option<Seq<char>>;

/// The last component of the path, where it names a file or a directory.
pub uninterp spec fn file_name_of(path: Seq<char>) -> Option<Seq<char>>;

/// What follows the last dot of the file name, where there is such a part.
pub uninterp spec fn extension_of(path: Seq<char>) -> Option<Seq<char>>;

/// `base` extended by `part`; `part` alone where `part` is absolute.
pub uninterp spec fn joined(base: Seq<char>, part: Seq<char>) -> Seq<char>;

/// The path with the extension of its file name replaced by `extension`.
pub uninterp spec fn with_extension(path: Seq<char>, extension: Seq<char>) -> Seq<char>;

/// The components of the path, first the root where the path has one.
pub uninterp spec fn components_of(path: Seq<char>) -> Seq<Seq<char>>;

/// Whether `text` is free of path separators.
pub open spec fn is_plain(text: Seq<char>) -> bool {
    forall|i: int| 0 <= i < text.len() ==> #[trigger] text[i] != '/' && text[i] != '\\'
}

/// Calls `Utf8Path::parent`.
///
/// Trusted: the result is what `parent_of` names.
#[verifier::external_body]
pub(crate) fn path_parent(path: &str) -> (parent: Option<String>)
    ensures
        parent.deep_view() == parent_of(path@),
{
    Utf8Path::new(path).parent().map(|parent| parent.as_str().to_string())
}

/// Calls `Utf8Path::file_name`.
///
/// Trusted: the result is what `file_name_of` names.
#[verifier::external_body]
pub(crate) fn path_file_name(path: &str) -> (name: Option<String>)
    ensures
        name.deep_view() == file_name_of(path@),
{
    Utf8Path::new(path).file_name().map(String::from)
}

/// Calls `Utf8Path::extension`.
///
/// Trusted: the result is what `extension_of` names.
#[verifier::external_body]
pub(crate) fn path_extension(path: &str) -> (extension: Option<String>)
    ensures
        extension.deep_view() == extension_of(path@),
{
    Utf8Path::new(path).extension().map(String::from)
}

/// Calls `Utf8Path::join`.
///
/// Trusted: the result is what `joined` names.
#[verifier::external_body]
pub(crate) fn path_join(base: &str, part: &str) -> (path: String)
    ensures
        path@ == joined(base@, part@),
{
    Utf8Path::new(base).join(part).into_string()
}

/// Calls `Utf8Path::with_extension`, which accepts no extension that holds
/// a path separator.
///
/// Trusted: the result is what `with_extension` names.
#[verifier::external_body]
pub(crate) fn path_with_extension(path: &str, extension: &str) -> (changed: String)
    requires
        is_plain(extension@),
    ensures
        changed@ == with_extension(path@, extension@),
{
    Utf8Path::new(path).with_extension(extension).into_string()
}

/// Calls `Utf8Path::iter` and collects the components.
///
/// Trusted: the result is what `components_of` names.
#[verifier::external_body]
pub(crate) fn path_components(path: &str) -> (parts: Vec<String>)
    ensures
        parts.deep_view() == components_of(path@),
{
    Utf8Path::new(path).iter().map(String::from).collect()
}

} // verus!
