//! What the library needs of a file system, and a file system simulated in
//! memory for tests.
use vstd::prelude::*;

pub mod mock_file_system;

use mock_file_system::Status;

verus! {

/// Wraps the thing that made a simulated operation fail, so that tests can
/// check which error was raised.
#[derive(Debug, Clone, PartialEq)]
pub struct MockError<T>(pub T);

impl<T> MockError<T> {
    pub fn new(thing: T) -> (r: MockError<T>)
        ensures
            r.0 == thing,
    {
        MockError(thing)
    }
}

/// Raised in a test of error handling when something unexpected happened,
/// to show that the test failed.
#[derive(Debug, Clone, PartialEq)]
pub struct TestError;

/// Why a file system operation failed.
#[derive(Debug, Clone, PartialEq)]
pub enum FileSystemError {
    /// Nothing suitable exists at this path.
    NotFound(String),
    /// A simulated file or folder with this status made the operation fail.
    Mock(MockError<Status>),
    /// Any other failure, described.
    Other(String),
}

/// The abstract value of a [`FileSystemError`].
pub enum FileSystemErrorView {
    NotFound(Seq<char>),
    Mock(Status),
    Other(Seq<char>),
}

impl View for FileSystemError {
    type V = FileSystemErrorView;

    open spec fn view(&self) -> FileSystemErrorView {
        match self {
            FileSystemError::NotFound(p) => FileSystemErrorView::NotFound(p@),
            FileSystemError::Mock(e) => FileSystemErrorView::Mock(e.0),
            FileSystemError::Other(m) => FileSystemErrorView::Other(m@),
        }
    }
}

/// A question put to a file system: listing a folder, asking whether a file
/// exists, writing a file or reading one, each with its path.
pub enum FileSystemCall {
    List(Seq<char>),
    Exists(Seq<char>),
    Write(Seq<char>),
    Read(Seq<char>),
}

/// The file system operations the library makes, on `/`-separated paths.
/// Implementations may fail for any reason of their own.
///
/// A file system, as it is at a moment, answers the questions the library
/// asks of it: [`FileSystem::listed`] and [`FileSystem::exists_answer`] are
/// those answers, and asking does not change them.
pub trait FileSystem {
    /// The paths of the files in `folder`, or `None` when listing it fails.
    spec fn listed(&self, folder: Seq<char>) -> Option<Seq<Seq<char>>>;

    /// Whether a file exists at `path`, or `None` when finding out fails.
    spec fn exists_answer(&self, path: Seq<char>) -> Option<bool>;

    /// The questions put to this file system so far, in order.
    spec fn asked(&self) -> Seq<FileSystemCall>;

    /// Whether a file exists at `path`.
    fn file_exists(&mut self, path: &str) -> (r: Result<bool, FileSystemError>)
        ensures
            match r {
                Ok(b) => old(self).exists_answer(path@) == Some(b),
                Err(_) => old(self).exists_answer(path@) is None,
            },
            final(self).asked() == old(self).asked().push(FileSystemCall::Exists(path@)),
            forall|p: Seq<char>| #[trigger] final(self).listed(p) == old(self).listed(p),
            forall|p: Seq<char>| #[trigger] final(self).exists_answer(p) == old(self).exists_answer(p),
    ;

    /// The paths of the files in `folder`.
    fn paths_in_folder(&mut self, folder: &str) -> (r: Result<Vec<String>, FileSystemError>)
        ensures
            match r {
                Ok(v) => old(self).listed(folder@) == Some(v@.map_values(|p: String| p@)),
                Err(_) => old(self).listed(folder@) is None,
            },
            final(self).asked() == old(self).asked().push(FileSystemCall::List(folder@)),
            forall|p: Seq<char>| #[trigger] final(self).listed(p) == old(self).listed(p),
            forall|p: Seq<char>| #[trigger] final(self).exists_answer(p) == old(self).exists_answer(p),
    ;

    /// Writes `content` to the file at `path`.
    fn write_string_to_file(&mut self, content: &str, path: &str) -> (r: Result<(), FileSystemError>)
        ensures
            final(self).asked() == old(self).asked().push(FileSystemCall::Write(path@)),
    ;

    /// The content of the file at `path`.
    fn read_file_to_string(&mut self, path: &str) -> (r: Result<String, FileSystemError>)
        ensures
            final(self).asked() == old(self).asked().push(FileSystemCall::Read(path@)),
    ;
}

/// Whether an error says that nothing exists at the path.
pub fn is_not_found_err(e: &FileSystemError) -> (r: bool)
    ensures
        r == (e@ is NotFound),
{
    match e {
        FileSystemError::NotFound(_) => true,
        _ => false,
    }
}

} // verus!
