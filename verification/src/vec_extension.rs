//! Looking a file up in a list by a part of its name.

use crate::paths::{contains, has_substring, path_text, to_str};
use std::path::PathBuf;
use vstd::prelude::*;

verus! {

/// The path is valid Unicode and `pattern` stands somewhere in its text.
pub open spec fn names(path: PathBuf, pattern: Seq<char>) -> bool {
    match path_text(path) {
        Some(text) => has_substring(text, pattern),
        None => false,
    }
}

/// `at` is the position of the first file in `files` that `names` the
/// pattern.
pub open spec fn first_naming(files: Seq<PathBuf>, pattern: Seq<char>, at: int) -> bool {
    &&& 0 <= at < files.len()
    &&& names(files[at], pattern)
    &&& forall|j: int| 0 <= j < at ==> !names(#[trigger] files[j], pattern)
}

/// Search in a list of files by a part of the path.
pub trait PathBufVecExt {
    fn find_file_with_substring(&self, substring: &str) -> Option<&PathBuf>;
}

impl PathBufVecExt for Vec<PathBuf> {
    /// The first file of the list whose path holds `substring`. A path that
    /// is not valid Unicode never matches.
    fn find_file_with_substring(&self, substring: &str) -> (found: Option<&PathBuf>)
        ensures
            match found {
                Some(file) => exists|at: int| #[trigger]
                    first_naming(self@, substring@, at) && *file == self@[at],
                None => forall|j: int|
                    0 <= j < self@.len() ==> !names(#[trigger] self@[j], substring@),
            },
    {
        let mut i: usize = 0;
        while i < self.len()
            invariant
                i <= self@.len(),
                forall|j: int| 0 <= j < i ==> !names(#[trigger] self@[j], substring@),
            decreases self@.len() - i,
        {
            let matches = match to_str(&self[i]) {
                Some(text) => contains(text, substring),
                None => false,
            };
            if matches {
                assert(first_naming(self@, substring@, i as int));
                return Some(&self[i]);
            }
            i += 1;
        }
        None
    }
}

} // verus!
