//! Where saves are kept: local storage, where the game loads them from, and
//! remote storage, where they are shared with the other players.
use vstd::prelude::*;

pub mod folder;
pub mod game_saves_folder;
pub mod dropbox_folder;
pub mod mock_index_storage;

use crate::compression::CompressionError;
use crate::file_system::FileSystemError;
use crate::index::Index;
use crate::save::Save;

verus! {

/// Why a storage operation failed.
#[derive(Debug, Clone, PartialEq)]
pub enum StorageError {
    /// The file system failed.
    FileSystem(FileSystemError),
    /// A save (named by `save`) is not in the folder at `location`, even
    /// after the folder was read again.
    SaveNotFound { save: String, location: String },
    /// Compressing or decompressing failed.
    Compression(CompressionError),
}

/// Where saved games are ready to be loaded by the game and played.  Its
/// saves can be searched through [`Index`].
pub trait LocalStorage: Index {
    /// The file holding `save`, if there is one.
    fn locate_save(&mut self, save: &Save) -> Result<Option<String>, StorageError>;

    /// What this storage, as it is, answers when asked for its autosave:
    /// whether there is one, or `None` when asking fails.
    spec fn autosave_reported(&self) -> Option<bool>;

    /// The file holding the autosave the game makes when a turn ends, if
    /// there is one.
    fn locate_autosave(&mut self) -> (r: Result<Option<String>, StorageError>)
        ensures
            match r {
                Ok(found) => old(self).autosave_reported() == Some(found is Some),
                Err(_) => old(self).autosave_reported() is None,
            },
    ;

    /// Where the saves of this storage are, and where downloads go.
    fn location(&self) -> &str;
}

/// Where saved games are shared with the other players.  Its saves can be
/// searched through [`Index`].
pub trait RemoteStorage: Index {
    /// Moves `save` from remote storage to `local_path`, uncompressed.
    fn download(&mut self, save: &Save, local_path: &str) -> Result<(), StorageError>;

    /// Moves the save file at `local_path` to remote storage as `save`.
    fn upload(&mut self, save: &Save, local_path: &str) -> Result<(), StorageError>;
}

} // verus!
