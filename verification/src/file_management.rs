//! The handle of the file that a task list is kept in.

use vstd::prelude::*;

verus! {

/// The file that holds a task list, known by its path.
pub struct FileManagement {
    file_name: String,
}

/// One slot of a file operation's report: a flag that says whether it
/// worked, or a text, the content read or the system's message.
#[derive(Debug, Clone, PartialEq, Eq)]
pub enum ResultList {
    Flag(bool),
    Text(String),
}

impl FileManagement {
    /// The path that the handle was made with.
    pub closed spec fn path(&self) -> Seq<char> {
        self.file_name@
    }

    /// The handle of the file at the given path. Nothing is opened yet.
    pub fn new(file_name: String) -> (r: Self)
        ensures
            r.path() == file_name@,
    {
        Self { file_name }
    }

    /// The path of the file.
    pub fn file_name(&self) -> (r: &String)
        ensures
            r@ == self.path(),
    {
        &self.file_name
    }
}

} // verus!
