//! A storage that holds a plain list of saves, for tests.
use vstd::prelude::*;
use crate::index::{Index, MockIndex, views};
use crate::save::Save;
use crate::storage::{LocalStorage, RemoteStorage, StorageError};

verus! {

/// A storage made of a list of saves, and whether it has an autosave.
/// Saves are never found in files, and downloads and uploads do nothing.
#[derive(Debug, Clone)]
pub struct MockIndexStorage {
    index: MockIndex,
    path: String,
    autosave: bool,
}

impl MockIndexStorage {
    /// Whether the storage has an autosave.
    pub closed spec fn has_autosave(&self) -> bool {
        self.autosave
    }

    /// Where the storage says it is.
    pub closed spec fn location_view(&self) -> Seq<char> {
        self.path@
    }

    pub fn new(autosave: bool, saves: Vec<Save>) -> (r: MockIndexStorage)
        ensures
            views(r.indexed()) == views(saves@),
            r.has_autosave() == autosave,
            r.location_view() == "wherever"@,
    {
        let mut path = String::new();
        crate::text::push_str(&mut path, "wherever");
        MockIndexStorage { index: MockIndex::new(saves.as_slice()), path, autosave }
    }
}

impl Index for MockIndexStorage {
    closed spec fn indexed(&self) -> Seq<Save> {
        self.index.indexed()
    }

    fn saves(&self) -> (r: &Vec<Save>) {
        self.index.saves()
    }
}

impl LocalStorage for MockIndexStorage {
    /// Whether the storage was made with an autosave; asking never fails.
    closed spec fn autosave_reported(&self) -> Option<bool> {
        Some(self.autosave)
    }

    fn locate_save(&mut self, save: &Save) -> (r: Result<Option<String>, StorageError>)
        ensures
            r == Ok::<Option<String>, StorageError>(None),
            *final(self) == *old(self),
    {
        Ok(None)
    }

    fn locate_autosave(&mut self) -> (r: Result<Option<String>, StorageError>)
        ensures
            r matches Ok(found) && (found is Some <==> old(self).has_autosave()),
            *final(self) == *old(self),
    {
        if self.autosave {
            Ok(Some(String::new()))
        } else {
            Ok(None)
        }
    }

    /// Where the storage says it is: `wherever`.
    fn location(&self) -> (r: &str)
        ensures
            r@ == self.location_view(),
    {
        self.path.as_str()
    }
}

impl RemoteStorage for MockIndexStorage {
    fn download(&mut self, save: &Save, local_path: &str) -> (r: Result<(), StorageError>)
        ensures
            r is Ok,
            *final(self) == *old(self),
    {
        Ok(())
    }

    fn upload(&mut self, save: &Save, local_path: &str) -> (r: Result<(), StorageError>)
        ensures
            r is Ok,
            *final(self) == *old(self),
    {
        Ok(())
    }
}

} // verus!
