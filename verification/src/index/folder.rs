//! A folder of save files on a file system, indexed by the saves their
//! names stand for.
use vstd::prelude::*;
use crate::config::{TeamNames, TeamNamesView, default_team_names};
use crate::file_system::{FileSystem, FileSystemCall, FileSystemError};
use crate::index::Index;
use crate::parse::{path_to_save, spec_path_to_save};
use crate::path::{join, join_path};
use crate::save::{Save, SaveView, save_name};

verus! {

/// The position of the first entry for save `s`.
pub open spec fn entry_index(entries: Seq<(SaveView, Seq<char>)>, s: SaveView) -> Option<int>
    decreases entries.len(),
{
    if entries.len() == 0 {
        None
    } else {
        match entry_index(entries.drop_last(), s) {
            Some(i) => Some(i),
            None => if entries.last().0 == s {
                Some(entries.len() - 1)
            } else {
                None
            },
        }
    }
}

/// `entries` with save `s` found at `p`: the path of an entry for `s` is
/// replaced, or a new entry is added.
pub open spec fn put_entry(entries: Seq<(SaveView, Seq<char>)>, s: SaveView, p: Seq<char>) -> Seq<(SaveView, Seq<char>)> {
    match entry_index(entries, s) {
        Some(i) => entries.update(i, (s, p)),
        None => entries.push((s, p)),
    }
}

/// The saves that the files of a folder listing stand for, each with its
/// file; files whose names are not saves are left out, and when several
/// files stand for one save the last of them is taken.
pub open spec fn collect_entries(paths: Seq<Seq<char>>, names: TeamNamesView) -> Seq<(SaveView, Seq<char>)>
    decreases paths.len(),
{
    if paths.len() == 0 {
        Seq::empty()
    } else {
        let acc = collect_entries(paths.drop_last(), names);
        match spec_path_to_save(names, paths.last()) {
            Some(s) => put_entry(acc, s, paths.last()),
            None => acc,
        }
    }
}

/// The file that save `s` was found in.
pub open spec fn locate(entries: Seq<(SaveView, Seq<char>)>, s: SaveView) -> Option<Seq<char>> {
    match entry_index(entries, s) {
        Some(i) => Some(entries[i].1),
        None => None,
    }
}

pub proof fn lemma_entry_index_bounds(entries: Seq<(SaveView, Seq<char>)>, s: SaveView)
    ensures
        entry_index(entries, s) matches Some(i) ==> 0 <= i < entries.len() && entries[i].0 == s,
        entry_index(entries, s) is None ==> forall|k: int| 0 <= k < entries.len() ==> entries[k].0 != s,
    decreases entries.len(),
{
    if entries.len() > 0 {
        lemma_entry_index_bounds(entries.drop_last(), s);
        if entry_index(entries.drop_last(), s) is None {
            assert forall|k: int| 0 <= k < entries.len() - 1 implies entries[k].0 != s by {
                assert(entries.drop_last()[k] == entries[k]);
            }
        }
    }
}

/// The entries of parallel lists of saves and paths.
pub open spec fn zip_entries(saves: Seq<Save>, paths: Seq<String>) -> Seq<(SaveView, Seq<char>)> {
    Seq::new(saves.len(), |i: int| (saves[i]@, paths[i]@))
}

fn entry_position(saves: &Vec<Save>, paths: &Vec<String>, s: &Save) -> (r: Option<usize>)
    requires
        saves@.len() == paths@.len(),
    ensures
        match r {
            Some(i) => entry_index(zip_entries(saves@, paths@), s@) == Some(i as int) && i < saves@.len(),
            None => entry_index(zip_entries(saves@, paths@), s@) is None,
        },
{
    let ghost es = zip_entries(saves@, paths@);
    let mut i: usize = 0;
    while i < saves.len()
        invariant
            i <= saves@.len(),
            saves@.len() == paths@.len(),
            es == zip_entries(saves@, paths@),
            forall|k: int| 0 <= k < i ==> es[k].0 != s@,
        decreases saves.len() - i,
    {
        if saves[i].same_as(s) {
            proof {
                lemma_entry_index_bounds(es, s@);
                lemma_first_entry(es, s@, i as int);
            }
            return Some(i);
        }
        i += 1;
    }
    proof {
        lemma_entry_index_bounds(es, s@);
    }
    None
}

proof fn lemma_first_entry(es: Seq<(SaveView, Seq<char>)>, s: SaveView, i: int)
    requires
        0 <= i < es.len(),
        es[i].0 == s,
        forall|k: int| 0 <= k < i ==> es[k].0 != s,
    ensures
        entry_index(es, s) == Some(i),
    decreases es.len(),
{
    lemma_entry_index_bounds(es, s);
    if i < es.len() - 1 {
        assert forall|k: int| 0 <= k < i implies es.drop_last()[k].0 != s by {
            assert(es.drop_last()[k] == es[k]);
        }
        assert(es.drop_last()[i] == es[i]);
        lemma_first_entry(es.drop_last(), s, i);
    } else {
        lemma_entry_index_bounds(es.drop_last(), s);
        match entry_index(es.drop_last(), s) {
            Some(j) => {
                assert(es.drop_last()[j] == es[j]);
            },
            None => {},
        }
    }
}

/// The saves found in a folder listing, each with its file.
pub struct SaveIndex {
    saves: Vec<Save>,
    paths: Vec<String>,
    listing: Ghost<Seq<Seq<char>>>,
    team_names: TeamNames,
}

impl SaveIndex {
    #[verifier::type_invariant]
    spec fn made_from_listing(self) -> bool {
        &&& self.saves@.len() == self.paths@.len()
        &&& zip_entries(self.saves@, self.paths@) == collect_entries(self.listing@, self.team_names@)
    }

    /// The saves, each with its file.
    pub closed spec fn entries(&self) -> Seq<(SaveView, Seq<char>)> {
        zip_entries(self.saves@, self.paths@)
    }

    /// The listing the index was made from.
    pub closed spec fn listing(&self) -> Seq<Seq<char>> {
        self.listing@
    }

    /// The names the files were read with.
    pub closed spec fn names(&self) -> TeamNamesView {
        self.team_names@
    }

    /// The saves.
    pub closed spec fn save_list(&self) -> Seq<Save> {
        self.saves@
    }

    /// The index of another listing, read with the same names.
    pub fn rebuild(&mut self, listing: &Vec<String>)
        ensures
            final(self).listing() == listing@.map_values(|p: String| p@),
            final(self).names() == old(self).names(),
            final(self).entries() == collect_entries(final(self).listing(), final(self).names()),
    {
        let names = self.team_names.duplicate();
        *self = index_listing(listing, names);
    }

    /// The file save `save` was found in.
    pub fn locate(&self, save: &Save) -> (r: Option<&str>)
        ensures
            match r {
                Some(p) => locate(self.entries(), save@) == Some(p@),
                None => locate(self.entries(), save@) is None,
            },
    {
        proof {
            use_type_invariant(self);
        }
        match entry_position(&self.saves, &self.paths, save) {
            Some(i) => Some(self.paths[i].as_str()),
            None => None,
        }
    }

    /// The saves.
    pub fn saves(&self) -> (r: &Vec<Save>)
        ensures
            r@ == self.save_list(),
            r@.len() == self.entries().len(),
            forall|i: int| 0 <= i < r@.len() ==> #[trigger] r@[i]@ == self.entries()[i].0,
            self.entries() == collect_entries(self.listing(), self.names()),
    {
        proof {
            use_type_invariant(self);
        }
        &self.saves
    }
}

/// The saves that the files of a listing stand for, and their files, see
/// [`collect_entries`].
pub fn index_listing(listing: &Vec<String>, team_names: TeamNames) -> (r: SaveIndex)
    ensures
        r.listing() == listing@.map_values(|p: String| p@),
        r.names() == team_names@,
        r.entries() == collect_entries(r.listing(), r.names()),
{
    let ghost ps = listing@.map_values(|p: String| p@);
    let mut saves: Vec<Save> = Vec::new();
    let mut paths: Vec<String> = Vec::new();
    let mut i: usize = 0;
    while i < listing.len()
        invariant
            i <= listing@.len(),
            ps == listing@.map_values(|p: String| p@),
            saves@.len() == paths@.len(),
            zip_entries(saves@, paths@) == collect_entries(ps.take(i as int), team_names@),
        decreases listing.len() - i,
    {
        proof {
            assert(ps.take(i + 1).drop_last() =~= ps.take(i as int));
            assert(ps.take(i + 1).last() == listing@[i as int]@);
        }
        let ghost before = zip_entries(saves@, paths@);
        match path_to_save(listing[i].as_str(), &team_names) {
            Some(save) => {
                match entry_position(&saves, &paths, &save) {
                    Some(k) => {
                        proof {
                            lemma_entry_index_bounds(before, save@);
                        }
                        paths.set(k, listing[i].clone());
                        assert(zip_entries(saves@, paths@) =~= before.update(k as int, (save@, listing@[i as int]@)));
                    },
                    None => {
                        let ghost sv = save@;
                        saves.push(save);
                        paths.push(listing[i].clone());
                        assert(zip_entries(saves@, paths@) =~= before.push((sv, listing@[i as int]@)));
                    },
                }
            },
            None => {},
        }
        i += 1;
    }
    assert(ps.take(i as int) =~= ps);
    SaveIndex { saves, paths, listing: Ghost(ps), team_names }
}

/// Where the autosave of the folder at `location` is looked for first:
/// `autosave.sav` in it.
pub open spec fn autosave_path(location: Seq<char>) -> Seq<char> {
    join(location, seq!['a', 'u', 't', 'o', 's', 'a', 'v', 'e', '.', 's', 'a', 'v'])
}

/// A folder of save files, indexed by the saves their names stand for
/// (read with the default team names).
pub struct Folder<F> {
    /// where the folder is
    pub location: String,
    index: SaveIndex,
    autosave: Option<String>,
    file_system: F,
}

impl<F: FileSystem> Folder<F> {
    /// The saves found in the folder, each with its file.
    pub closed spec fn entries(&self) -> Seq<(SaveView, Seq<char>)> {
        self.index.entries()
    }

    /// The file of the autosave, if it was found.
    pub closed spec fn autosave_file(&self) -> Option<Seq<char>> {
        match self.autosave {
            Some(p) => Some(p@),
            None => None,
        }
    }

    /// The files the folder held when it was last read.
    pub closed spec fn listing(&self) -> Seq<Seq<char>> {
        self.index.listing()
    }

    /// Where the folder is.
    pub closed spec fn location_view(&self) -> Seq<char> {
        self.location@
    }

    /// The file system the folder is read from.
    pub closed spec fn fs(&self) -> F {
        self.file_system
    }

    /// The names save files are read with.
    pub closed spec fn names(&self) -> TeamNamesView {
        self.index.names()
    }

    /// The file the autosave is looked for in: the one it was last found
    /// in, or `autosave.sav` in the folder.
    pub closed spec fn autosave_candidate(&self) -> Seq<char> {
        match self.autosave {
            Some(p) => p@,
            None => autosave_path(self.location@),
        }
    }

    /// Reads the folder from `location` on `file_system`.
    /// Fails exactly when listing the folder or asking whether its autosave
    /// exists fails.
    pub fn new(location: &str, file_system: F) -> (r: Result<Folder<F>, FileSystemError>)
        ensures
            match (file_system.listed(location@), file_system.exists_answer(autosave_path(location@))) {
                (Some(l), Some(e)) => r matches Ok(f) && f.location_view() == location@
                    && f.names() == default_team_names() && f.listing() == l
                    && f.entries() == collect_entries(l, default_team_names())
                    && f.autosave_file() == (if e { Some(autosave_path(location@)) } else { None })
                    && (forall|p: Seq<char>| #[trigger] f.fs().listed(p) == file_system.listed(p))
                    && (forall|p: Seq<char>| #[trigger] f.fs().exists_answer(p) == file_system.exists_answer(p))
                    && f.fs().asked() == file_system.asked().push(FileSystemCall::List(location@)).push(
                    FileSystemCall::Exists(autosave_path(location@)),
                ),
                _ => r is Err,
            },
    {
        let mut loc = String::new();
        crate::text::push_str(&mut loc, location);
        let empty: Vec<String> = Vec::new();
        let index = index_listing(&empty, TeamNames::default());
        let mut folder = Folder { location: loc, index, autosave: None, file_system };
        match folder.refresh_saves() {
            Ok(()) => Ok(folder),
            Err(e) => Err(e),
        }
    }

    /// The file save `save` was found in.
    pub fn locate_save(&self, save: &Save) -> (r: Option<&str>)
        ensures
            match r {
                Some(p) => locate(self.entries(), save@) == Some(p@),
                None => locate(self.entries(), save@) is None,
            },
    {
        self.index.locate(save)
    }

    /// The file the autosave was found in.
    pub fn locate_autosave(&self) -> (r: Option<&str>)
        ensures
            match r {
                Some(p) => self.autosave_file() == Some(p@),
                None => self.autosave_file() is None,
            },
    {
        match &self.autosave {
            Some(p) => Some(p.as_str()),
            None => None,
        }
    }

    /// Where save `save` should be stored in this folder: its name in the
    /// folder.
    pub fn choose_location_for_save(&self, save: &Save) -> (r: String)
        ensures
            r@ == join(self.location_view(), save_name(save@)),
    {
        let name = save.to_string();
        join_path(self.location.as_str(), name.as_str())
    }

    /// Where the folder is.
    pub fn location(&self) -> (r: &str)
        ensures
            r@ == self.location_view(),
    {
        self.location.as_str()
    }

    /// The file system the folder is read from.
    pub fn file_system(&self) -> (r: &F)
        ensures
            *r == self.fs(),
    {
        &self.file_system
    }

    /// Reads again which saves are in the folder, by listing its location
    /// (the saves found replace those known before), and whether the autosave
    /// is there, by asking about the file it was last found in, or
    /// `autosave.sav` in the folder.  When listing fails, nothing more is
    /// asked, and the saves and the autosave are kept; when asking about the
    /// autosave fails, the autosave is forgotten and the saves are kept.
    pub fn refresh_saves(&mut self) -> (r: Result<(), FileSystemError>)
        ensures
            final(self).location_view() == old(self).location_view(),
            final(self).names() == old(self).names(),
            final(self).entries() == collect_entries(final(self).listing(), final(self).names()),
            forall|p: Seq<char>| #[trigger] final(self).fs().listed(p) == old(self).fs().listed(p),
            forall|p: Seq<char>| #[trigger] final(self).fs().exists_answer(p) == old(self).fs().exists_answer(p),
            match old(self).fs().listed(old(self).location_view()) {
                None => r is Err && final(self).listing() == old(self).listing() && final(self).autosave_file()
                    == old(self).autosave_file() && final(self).fs().asked() == old(self).fs().asked().push(
                    FileSystemCall::List(old(self).location_view()),
                ),
                Some(l) => final(self).fs().asked() == old(self).fs().asked().push(
                    FileSystemCall::List(old(self).location_view()),
                ).push(FileSystemCall::Exists(old(self).autosave_candidate())) && match old(self).fs().exists_answer(old(self).autosave_candidate()) {
                    None => r is Err && final(self).listing() == old(self).listing()
                        && final(self).autosave_file() is None,
                    Some(e) => r is Ok && final(self).listing() == l && final(self).autosave_file() == (if e {
                        Some(old(self).autosave_candidate())
                    } else {
                        None
                    }),
                },
            },
    {
        proof {
            use_type_invariant(&self.index);
        }
        let listing = match self.file_system.paths_in_folder(self.location.as_str()) {
            Ok(l) => l,
            Err(e) => return Err(e),
        };
        let candidate = match self.autosave.take() {
            None => {
                proof {
                    reveal_strlit("autosave.sav");
                }
                let name = "autosave.sav";
                assert(name@ =~= seq!['a', 'u', 't', 'o', 's', 'a', 'v', 'e', '.', 's', 'a', 'v']);
                join_path(self.location.as_str(), name)
            },
            Some(p) => p,
        };
        match self.file_system.file_exists(candidate.as_str()) {
            Ok(true) => {
                self.autosave = Some(candidate);
            },
            Ok(false) => {
                self.autosave = None;
            },
            Err(e) => return Err(e),
        }
        self.index.rebuild(&listing);
        Ok(())
    }

    /// Reads again which saves are in the folder, see [`Folder::refresh_saves`].
    pub fn refresh_contents(&mut self) -> (r: Result<(), FileSystemError>)
        ensures
            final(self).location_view() == old(self).location_view(),
            final(self).names() == old(self).names(),
            final(self).entries() == collect_entries(final(self).listing(), final(self).names()),
            forall|p: Seq<char>| #[trigger] final(self).fs().listed(p) == old(self).fs().listed(p),
            forall|p: Seq<char>| #[trigger] final(self).fs().exists_answer(p) == old(self).fs().exists_answer(p),
            match old(self).fs().listed(old(self).location_view()) {
                None => r is Err && final(self).listing() == old(self).listing() && final(self).autosave_file()
                    == old(self).autosave_file() && final(self).fs().asked() == old(self).fs().asked().push(
                    FileSystemCall::List(old(self).location_view()),
                ),
                Some(l) => final(self).fs().asked() == old(self).fs().asked().push(
                    FileSystemCall::List(old(self).location_view()),
                ).push(FileSystemCall::Exists(old(self).autosave_candidate())) && match old(self).fs().exists_answer(old(self).autosave_candidate()) {
                    None => r is Err && final(self).listing() == old(self).listing()
                        && final(self).autosave_file() is None,
                    Some(e) => r is Ok && final(self).listing() == l && final(self).autosave_file() == (if e {
                        Some(old(self).autosave_candidate())
                    } else {
                        None
                    }),
                },
            },
    {
        self.refresh_saves()
    }
}

impl<F: FileSystem> Index for Folder<F> {
    closed spec fn indexed(&self) -> Seq<Save> {
        self.index.save_list()
    }

    fn saves(&self) -> (r: &Vec<Save>) {
        self.index.saves()
    }
}

/// Every save a folder holds is the save its file's name stands for, and
/// that file is one of the listed files; every listed file whose name stands
/// for a save gives the folder that save.
pub proof fn lemma_folder_entries(paths: Seq<Seq<char>>, names: TeamNamesView)
    ensures
        forall|i: int| 0 <= i < collect_entries(paths, names).len() ==> spec_path_to_save(
            names,
            (#[trigger] collect_entries(paths, names)[i]).1,
        ) == Some(collect_entries(paths, names)[i].0) && paths.contains(collect_entries(paths, names)[i].1),
        forall|k: int| 0 <= k < paths.len() && (#[trigger] spec_path_to_save(names, paths[k])) is Some
            ==> entry_index(collect_entries(paths, names), spec_path_to_save(names, paths[k])->0) is Some,
    decreases paths.len(),
{
    if paths.len() > 0 {
        let rest = paths.drop_last();
        lemma_folder_entries(rest, names);
        let acc = collect_entries(rest, names);
        let es = collect_entries(paths, names);
        let p = paths.last();
        assert forall|i: int| 0 <= i < acc.len() implies #[trigger] paths.contains(acc[i].1) by {
            let k = choose|k: int| 0 <= k < rest.len() && rest[k] == acc[i].1;
            assert(paths[k] == rest[k]);
        }
        assert(paths[paths.len() - 1] == p);
        match spec_path_to_save(names, p) {
            Some(s) => {
                lemma_entry_index_bounds(acc, s);
                assert forall|i: int| 0 <= i < es.len() implies spec_path_to_save(names, (#[trigger] es[i]).1)
                    == Some(es[i].0) && paths.contains(es[i].1) by {
                    match entry_index(acc, s) {
                        Some(j) => {
                            if i != j {
                                assert(es[i] == acc[i]);
                            }
                        },
                        None => {
                            if i < acc.len() {
                                assert(es[i] == acc[i]);
                            }
                        },
                    }
                }
                assert forall|k: int| 0 <= k < paths.len() && (#[trigger] spec_path_to_save(names, paths[k])) is Some
                    implies entry_index(es, spec_path_to_save(names, paths[k])->0) is Some by {
                    let t = spec_path_to_save(names, paths[k])->0;
                    lemma_entry_index_bounds(es, t);
                    if t == s {
                        match entry_index(acc, s) {
                            Some(j) => {
                                assert(es[j].0 == s);
                            },
                            None => {
                                assert(es[acc.len() as int].0 == s);
                            },
                        }
                    } else {
                        if k < paths.len() - 1 {
                            assert(rest[k] == paths[k]);
                        }
                        lemma_entry_index_bounds(acc, t);
                        let j = entry_index(acc, t)->0;
                        match entry_index(acc, s) {
                            Some(m) => {
                                assert(m != j);
                                assert(es[j] == acc[j]);
                            },
                            None => {
                                assert(es[j] == acc[j]);
                            },
                        }
                    }
                }
            },
            None => {
                assert forall|k: int| 0 <= k < paths.len() && (#[trigger] spec_path_to_save(names, paths[k])) is Some
                    implies entry_index(es, spec_path_to_save(names, paths[k])->0) is Some by {
                    assert(k < paths.len() - 1);
                    assert(rest[k] == paths[k]);
                }
            },
        }
    }
}

} // verus!
