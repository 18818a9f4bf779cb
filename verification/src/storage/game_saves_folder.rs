//! The game's own saves folder, where saves are loaded from to be played.
use vstd::prelude::*;
use crate::file_system::FileSystem;
use crate::index::Index;
use crate::index::folder::{Folder, locate};
use crate::save::{Save, SaveOrAutosave, SaveView};
use crate::storage::{LocalStorage, StorageError};

verus! {

/// The save looked for: a save, or (`None`) the autosave.
pub open spec fn wanted(save: SaveOrAutosave) -> Option<SaveView> {
    match save {
        SaveOrAutosave::Save(s) => Some(s@),
        SaveOrAutosave::Autosave => None,
    }
}

/// The file the wanted save was found in.
pub open spec fn found_in<F: FileSystem>(folder: Folder<F>, which: Option<SaveView>) -> Option<Seq<char>> {
    match which {
        Some(s) => locate(folder.entries(), s),
        None => folder.autosave_file(),
    }
}

/// Stores saves in the game's saves folder, where the game can load them.
pub struct GameSavesFolder<F> {
    folder: Folder<F>,
}

impl<F: FileSystem> GameSavesFolder<F> {
    /// The folder the saves are kept in.
    pub closed spec fn folder(&self) -> Folder<F> {
        self.folder
    }

    pub fn new(folder: Folder<F>) -> (r: GameSavesFolder<F>)
        ensures
            r.folder() == folder,
    {
        GameSavesFolder { folder }
    }

    /// Looks for a save (or the autosave) in the folder; when it is not
    /// there, reads the folder again and looks once more (the second look
    /// is attempt 1).
    fn attempt_locate_save(&mut self, attempt: usize, save: SaveOrAutosave) -> (r: Result<Option<String>, StorageError>)
        requires
            attempt <= 1,
        ensures
            !(r matches Ok(None)),
            r matches Ok(Some(p)) ==> found_in(final(self).folder(), wanted(save)) == Some(p@),
            r matches Err(StorageError::SaveNotFound { .. }) ==> found_in(final(self).folder(), wanted(save)) is None,
            attempt == 0 && found_in(old(self).folder(), wanted(save)) is Some ==> (*final(self) == *old(self) && (r
                matches Ok(Some(p)) && found_in(old(self).folder(), wanted(save)) == Some(p@))),
            !(r matches Err(StorageError::Compression(_))),
            attempt == 1 ==> *final(self) == *old(self) && (r is Ok <==> found_in(old(self).folder(), wanted(save)) is Some),
            attempt == 0 && wanted(save) is None ==> match r {
                Ok(found) => found is Some && old(self).autosave_reported() == Some(true),
                Err(_) => old(self).autosave_reported() is None,
            },
        decreases 1 - attempt,
    {
        let found = match save.borrow() {
            None => self.folder.locate_autosave(),
            Some(s) => self.folder.locate_save(s),
        };
        match found {
            Some(path) => {
                let mut owned = String::new();
                crate::text::push_str(&mut owned, path);
                Ok(Some(owned))
            },
            None => {
                if attempt >= 1 {
                    let mut location = String::new();
                    crate::text::push_str(&mut location, self.folder.location());
                    return Err(StorageError::SaveNotFound { save: save.to_string(), location });
                }
                match self.folder.refresh_saves() {
                    Ok(()) => {},
                    Err(e) => return Err(StorageError::FileSystem(e)),
                }
                self.attempt_locate_save(attempt + 1, save)
            },
        }
    }
}

impl<F: FileSystem> Index for GameSavesFolder<F> {
    closed spec fn indexed(&self) -> Seq<Save> {
        self.folder.indexed()
    }

    fn saves(&self) -> (r: &Vec<Save>) {
        self.folder.saves()
    }
}

impl<F: FileSystem> LocalStorage for GameSavesFolder<F> {
    /// The autosave is there when the folder knows it, or else when the folder
    /// can be listed and its file is found to exist on looking again; asking
    /// fails otherwise.
    closed spec fn autosave_reported(&self) -> Option<bool> {
        if self.folder.autosave_file() is Some {
            Some(true)
        } else if self.folder.fs().listed(self.folder.location_view()) is Some && self.folder.fs().exists_answer(
            self.folder.autosave_candidate(),
        ) == Some(true) {
            Some(true)
        } else {
            None
        }
    }

    /// The file of `save`, reading the folder again when it is not known;
    /// fails when the save is still not there.
    fn locate_save(&mut self, save: &Save) -> (r: Result<Option<String>, StorageError>)
        ensures
            !(r matches Ok(None)),
            r matches Ok(Some(p)) ==> locate(final(self).folder().entries(), save@) == Some(p@),
            r matches Err(StorageError::SaveNotFound { .. }) ==> locate(final(self).folder().entries(), save@) is None,
            !(r matches Err(StorageError::Compression(_))),
            locate(old(self).folder().entries(), save@) is Some ==> (*final(self) == *old(self) && (r matches Ok(
                Some(p)) && locate(old(self).folder().entries(), save@) == Some(p@))),
    {
        self.attempt_locate_save(0, SaveOrAutosave::save(save.duplicate()))
    }

    /// The file of the autosave, reading the folder again when it is not
    /// known; fails when the autosave is still not there.
    fn locate_autosave(&mut self) -> (r: Result<Option<String>, StorageError>)
        ensures
            !(r matches Ok(None)),
            r matches Ok(Some(p)) ==> final(self).folder().autosave_file() == Some(p@),
            r matches Err(StorageError::SaveNotFound { .. }) ==> final(self).folder().autosave_file() is None,
            !(r matches Err(StorageError::Compression(_))),
            old(self).folder().autosave_file() is Some ==> (*final(self) == *old(self) && (r matches Ok(Some(p))
                && old(self).folder().autosave_file() == Some(p@))),
    {
        self.attempt_locate_save(0, SaveOrAutosave::autosave())
    }

    fn location(&self) -> (r: &str)
        ensures
            r@ == self.folder().location_view(),
    {
        self.folder.location()
    }
}

} // verus!
