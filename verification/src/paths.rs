//! What the library takes from `std::path`.
//!
//! Paths are held as text.  What the standard library makes of a path
//! depends on the rules of the platform for separators, roots and
//! prefixes, so the library does not spell it out: each operation has a
//! name for its result, and the contracts of the library speak of those
//! names.

use vstd::prelude::*;

verus! {

/// The parent directory of `path` as `std::path::Path::parent` gives it,
/// shown as text; `None` where the path has no parent.
pub uninterp spec fn path_parent(path: Seq<char>) -> Option<Seq<char>>;

/// The path that `std::path::PathBuf::push` makes of `directory` when
/// `name` is pushed onto it, shown as text.
pub uninterp spec fn path_join(directory: Seq<char>, name: Seq<char>) -> Seq<char>;

/// The path that `std::path::Path::with_extension` makes of `path` and
/// `extension`, shown as text.
pub uninterp spec fn path_with_extension(path: Seq<char>, extension: Seq<char>) -> Seq<char>;

/// The extension of `path` as `std::path::Path::extension` gives it, shown
/// as text; `None` where the path has none.
pub uninterp spec fn path_extension(path: Seq<char>) -> Option<Seq<char>>;

/// The last component of `path` as `std::path::Path::file_name` gives it,
/// shown as text; `None` where the path has none.
pub uninterp spec fn path_file_name(path: Seq<char>) -> Option<Seq<char>>;

/// True of a text that holds no path separator of any platform: neither
/// `/` nor `\`.
pub open spec fn no_separator(text: Seq<char>) -> bool {
    forall|i: int| 0 <= i < text.len() ==> text[i] != '/' && text[i] != '\\'
}

/// `std::path::Path::parent`, on a path given as text.  The contract names
/// what the call returns after `std::path::Path::display` has turned it into
/// text; it claims nothing about which paths have a parent.
#[verifier::external_body]
pub(crate) fn parent_directory(file: &str) -> (parent: Option<String>)
    ensures
        match parent {
            Some(dir) => path_parent(file@) == Some(dir@),
            None => path_parent(file@) is None,
        },
{
    match std::path::Path::new(file).parent() {
        Some(dir) => Some(dir.display().to_string()),
        None => None,
    }
}

/// `std::path::PathBuf::push`: the path of the entry `name` in `directory`.
/// The contract names the result and claims nothing more of it.
#[verifier::external_body]
pub(crate) fn join_path(directory: &str, name: &str) -> (path: String)
    ensures
        path@ == path_join(directory@, name@),
{
    let mut path = std::path::PathBuf::from(directory);
    path.push(name);
    path.to_string_lossy().into_owned()
}

/// `std::path::Path::with_extension`: `path` with its extension replaced
/// by `extension`.  The contract names the result and claims nothing more
/// of it.  The call aborts on an extension that holds a path separator,
/// which the precondition leaves out.
#[verifier::external_body]
pub(crate) fn with_extension(path: &str, extension: &str) -> (changed: String)
    requires
        no_separator(extension@),
    ensures
        changed@ == path_with_extension(path@, extension@),
{
    std::path::Path::new(path).with_extension(extension).to_string_lossy().into_owned()
}

/// `std::path::Path::extension`, on a path given as text.  The contract
/// names the result and claims nothing about which paths have an
/// extension.
#[verifier::external_body]
pub(crate) fn extension_of(path: &str) -> (extension: Option<String>)
    ensures
        match extension {
            Some(text) => path_extension(path@) == Some(text@),
            None => path_extension(path@) is None,
        },
{
    match std::path::Path::new(path).extension() {
        Some(text) => Some(text.to_string_lossy().into_owned()),
        None => None,
    }
}

/// `std::path::Path::file_name`, on a path given as text.  The contract
/// names the result and claims nothing about which paths have a last
/// component.
#[verifier::external_body]
pub(crate) fn file_name_of(path: &str) -> (name: Option<String>)
    ensures
        match name {
            Some(text) => path_file_name(path@) == Some(text@),
            None => path_file_name(path@) is None,
        },
{
    match std::path::Path::new(path).file_name() {
        Some(text) => Some(text.to_string_lossy().into_owned()),
        None => None,
    }
}

} // verus!
