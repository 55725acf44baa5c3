//! Temporary paths: a file or directory is prepared next to where it will
//! finally go, under the same name with a leading `~`, and moved into place
//! once it is complete.
//!
//! Creating, removing and renaming files are done by the caller.

use vstd::prelude::*;

use crate::util::path::{PathBuf, PathView};

verus! {

/// Holds a temporary directory or file path.
#[derive(Debug)]
pub struct TempPath {
    /// The temporary path, until it has been moved into place.
    path: Option<PathBuf>,
}

/// The temporary path for `target`: in the same directory, named `~`
/// followed by its file name.
pub open spec fn spec_temp_path(target: PathView) -> PathView {
    (target.0, target.1.drop_last().push(seq!['~'] + target.1.last()))
}

/// The temporary path for `target`.
pub fn temp_path_for(target: &PathBuf) -> (p: PathBuf)
    requires
        target@.1.len() > 0,
    ensures
        p@ == spec_temp_path(target@),
{
    let parent = target.parent().unwrap();
    let name = target.file_name().unwrap();
    let mut file_name = String::new();
    crate::text::push_char(&mut file_name, '~');
    file_name.append(name.as_str());
    assert(file_name@ =~= seq!['~'] + target@.1.last());
    parent.push_component(file_name)
}

impl TempPath {
    /// The temporary path held, if any.
    pub closed spec fn temp_path(&self) -> Option<PathBuf> {
        self.path
    }

    /// A temporary path for `target`, next to it and named `~` followed by
    /// its file name; whatever is already at that path is removed by the
    /// caller before the path is used.
    pub fn new_force(target: &PathBuf) -> (t: TempPath)
        requires
            target@.1.len() > 0,
        ensures
            t.temp_path() matches Some(p) && p@ == spec_temp_path(target@),
    {
        TempPath::new_unchecked(temp_path_for(target))
    }

    /// A temporary path at `path`.
    pub fn new_unchecked(path: PathBuf) -> (t: TempPath)
        ensures
            t.temp_path() == Some(path),
    {
        TempPath { path: Some(path) }
    }

    /// The temporary path.
    pub fn path(&self) -> (p: &PathBuf)
        requires
            self.temp_path() is Some,
        ensures
            *p == self.temp_path().unwrap(),
    {
        self.path.as_ref().unwrap()
    }
}

} // verus!
