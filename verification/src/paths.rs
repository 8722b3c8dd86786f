//! File paths as the library sees them: by their text.

use std::path::PathBuf;
use vstd::prelude::*;

verus! {

/// An owned file path of the standard library.
#[verifier::external_type_specification]
#[verifier::external_body]
pub struct ExPathBuf(PathBuf);

/// The text of a path, where the path is valid Unicode.
pub uninterp spec fn path_text(path: PathBuf) -> Option<Seq<char>>;

/// The extension of a path, where it has one: `Some(None)` stands for an
/// extension that is not valid Unicode.
pub uninterp spec fn path_extension(path: PathBuf) -> Option<Option<Seq<char>>>;

/// The last component of a path, where it has one: `Some(None)` stands for
/// a component that is not valid Unicode.
pub uninterp spec fn path_file_name(path: PathBuf) -> Option<Option<Seq<char>>>;

/// `pattern` stands in `text` from position `at` on.
pub open spec fn occurs_at(text: Seq<char>, pattern: Seq<char>, at: int) -> bool {
    0 <= at && at + pattern.len() <= text.len() && text.subrange(at, at + pattern.len())
        == pattern
}

/// `pattern` stands somewhere in `text`.
pub open spec fn has_substring(text: Seq<char>, pattern: Seq<char>) -> bool {
    exists|at: int| occurs_at(text, pattern, at)
}

/// `Path::to_str`: the path as text, or `None` where it is not valid
/// Unicode.
#[verifier::external_body]
pub(crate) fn to_str(path: &PathBuf) -> (text: Option<&str>)
    ensures
        match text {
            Some(t) => path_text(*path) == Some(t@),
            None => path_text(*path) is None,
        },
{
    path.to_str()
}

/// `PathBuf::from` on a string: the path whose text is that string.
#[verifier::external_body]
pub(crate) fn path_from(text: &String) -> (path: PathBuf)
    ensures
        path_text(path) == Some(text@),
{
    PathBuf::from(text)
}

/// `Path::extension`, as text.
#[verifier::external_body]
pub(crate) fn extension(path: &PathBuf) -> (found: Option<Option<String>>)
    ensures
        match found {
            None => path_extension(*path) is None,
            Some(None) => path_extension(*path) == Some(None::<Seq<char>>),
            Some(Some(text)) => path_extension(*path) == Some(Some(text@)),
        },
{
    path.extension().map(|part| part.to_str().map(|text| text.to_owned()))
}

/// `Path::file_name`, as text.
#[verifier::external_body]
pub(crate) fn file_name(path: &PathBuf) -> (found: Option<Option<String>>)
    ensures
        match found {
            None => path_file_name(*path) is None,
            Some(None) => path_file_name(*path) == Some(None::<Seq<char>>),
            Some(Some(text)) => path_file_name(*path) == Some(Some(text@)),
        },
{
    path.file_name().map(|part| part.to_str().map(|text| text.to_owned()))
}

/// `str::contains` with a string as the pattern: whether the pattern
/// matches a part of the text.
#[verifier::external_body]
pub(crate) fn contains(text: &str, pattern: &str) -> (found: bool)
    ensures
        found == has_substring(text@, pattern@),
{
    text.contains(pattern)
}

} // verus!
