//! A folder synchronised by Dropbox, where saves are shared compressed.
use vstd::prelude::*;
use crate::compression::Compression;
use crate::file_system::FileSystem;
use crate::index::Index;
use crate::index::folder::{Folder, locate};
use crate::path::join;
use crate::save::{Save, save_name};
use crate::storage::{RemoteStorage, StorageError};

verus! {

/// Stores saves in a Dropbox folder, from where Dropbox shares them with
/// the other players.
pub struct DropboxFolder<F, C> {
    folder: Folder<F>,
    compression: C,
}

impl<F: FileSystem, C: Compression> DropboxFolder<F, C> {
    /// The folder the saves are kept in.
    pub closed spec fn folder(&self) -> Folder<F> {
        self.folder
    }

    /// What compresses and decompresses the saves.
    pub closed spec fn compression(&self) -> C {
        self.compression
    }

    pub fn new(folder: Folder<F>, compression: C) -> (r: DropboxFolder<F, C>)
        ensures
            r.folder() == folder,
            r.compression() == compression,
    {
        DropboxFolder { folder, compression }
    }

    /// Decompresses `save` into `local_path`; when the save is not in the
    /// folder, reads the folder again and tries once more (attempt 1).
    fn attempt_download(&mut self, attempt: usize, save: &Save, local_path: &str) -> (r: Result<(), StorageError>)
        requires
            attempt <= 1,
        ensures
            r is Ok ==> locate(final(self).folder().entries(), save@) is Some,
            r matches Err(StorageError::SaveNotFound { .. }) ==> locate(final(self).folder().entries(), save@) is None,
            final(self).folder().location_view() == old(self).folder().location_view(),
            locate(old(self).folder().entries(), save@) is Some ==> *final(self) == *old(self) && (r is Ok
                || r matches Err(StorageError::Compression(_))),
            final(self).compression() == old(self).compression(),
            r is Ok ==> (locate(final(self).folder().entries(), save@) matches Some(src)
                && final(self).compression().decompresses(src, local_path@)),
            locate(old(self).folder().entries(), save@) matches Some(src) ==> (r is Ok
                <==> old(self).compression().decompresses(src, local_path@)),
        decreases 1 - attempt,
    {
        match self.folder.locate_save(save) {
            Some(src) => match self.compression.decompress(src, local_path) {
                Ok(()) => Ok(()),
                Err(e) => Err(StorageError::Compression(e)),
            },
            None => {
                if attempt >= 1 {
                    let mut location = String::new();
                    crate::text::push_str(&mut location, self.folder.location());
                    return Err(StorageError::SaveNotFound { save: save.to_string(), location });
                }
                match self.folder.refresh_saves() {
                    Ok(()) => {},
                    Err(e) => return Err(StorageError::FileSystem(e)),
                }
                self.attempt_download(attempt + 1, save, local_path)
            },
        }
    }
}

impl<F: FileSystem, C: Compression> Index for DropboxFolder<F, C> {
    closed spec fn indexed(&self) -> Seq<Save> {
        self.folder.indexed()
    }

    fn saves(&self) -> (r: &Vec<Save>) {
        self.folder.saves()
    }
}

impl<F: FileSystem, C: Compression> RemoteStorage for DropboxFolder<F, C> {
    /// Decompresses the file of `save` into `local_path`, reading the folder
    /// again when the save is not known; fails when it is still not there.
    /// The file decompressed is the one the save was found in, and it is
    /// decompressed into `local_path` itself.
    fn download(&mut self, save: &Save, local_path: &str) -> (r: Result<(), StorageError>)
        ensures
            r is Ok ==> locate(final(self).folder().entries(), save@) is Some,
            r matches Err(StorageError::SaveNotFound { .. }) ==> locate(final(self).folder().entries(), save@) is None,
            final(self).folder().location_view() == old(self).folder().location_view(),
            locate(old(self).folder().entries(), save@) is Some ==> *final(self) == *old(self) && (r is Ok
                || r matches Err(StorageError::Compression(_))),
            final(self).compression() == old(self).compression(),
            r is Ok ==> (locate(final(self).folder().entries(), save@) matches Some(src)
                && final(self).compression().decompresses(src, local_path@)),
            locate(old(self).folder().entries(), save@) matches Some(src) ==> (r is Ok
                <==> old(self).compression().decompresses(src, local_path@)),
    {
        self.attempt_download(0, save, local_path)
    }

    /// Compresses the file at `local_path` into the folder, named after
    /// `save` (see [`Folder::choose_location_for_save`]): the local file is
    /// what is compressed, and the folder's file named after the save is what
    /// it is compressed into.
    fn upload(&mut self, save: &Save, local_path: &str) -> (r: Result<(), StorageError>)
        ensures
            *final(self) == *old(self),
            r is Ok || r matches Err(StorageError::Compression(_)),
            r is Ok <==> old(self).compression().compresses(
                local_path@,
                join(old(self).folder().location_view(), save_name(save@)),
            ),
    {
        let path = self.folder.choose_location_for_save(save);
        assert(path@ == join(self.folder().location_view(), save_name(save@)));
        match self.compression.compress(local_path, path.as_str()) {
            Ok(()) => Ok(()),
            Err(e) => Err(StorageError::Compression(e)),
        }
    }
}

} // verus!
