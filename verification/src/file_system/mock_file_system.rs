//! A file system simulated in memory: files and folders (folders are not
//! nested), each existing, missing or failing, and a log of the operations
//! made on it.
use vstd::prelude::*;
use crate::path::{join, join_path, path_key, path_key_of, same_key, same_path, PathKey};
use crate::save::{copy_opt, opt_view};
use crate::text::{chars_of, push_str, string_of};
use crate::grammar::{token_at, token_at_exec};
use super::{FileSystem, FileSystemCall, FileSystemError, FileSystemErrorView, MockError};

verus! {

/// How a simulated file or folder behaves.
#[derive(Debug, Clone, Copy, PartialEq, Eq, Structural)]
pub enum Status {
    /// It exists.
    Exists,
    /// Operations behave as if it did not exist.
    Missing,
    /// Operations on it fail.
    Error,
}

/// The abstract value of a [`File`].
pub struct FileView {
    pub path: Seq<char>,
    pub status: Status,
    pub content: Option<Seq<char>>,
}

/// A simulated file.
#[derive(Debug, Clone, PartialEq)]
pub struct File {
    pub path: String,
    pub status: Status,
    pub content: Option<String>,
}

impl View for File {
    type V = FileView;

    open spec fn view(&self) -> FileView {
        FileView { path: self.path@, status: self.status, content: opt_view(self.content) }
    }
}

impl File {
    pub fn new(path: String, status: Status, content: Option<String>) -> (r: File)
        ensures
            r.path == path,
            r.status == status,
            r.content == content,
    {
        File { path, status, content }
    }

    fn duplicate(&self) -> (r: File)
        ensures
            r@ == self@,
    {
        File { path: self.path.clone(), status: self.status, content: copy_opt(&self.content) }
    }
}

/// The abstract value of a [`Folder`].
pub struct FolderView {
    pub path: Seq<char>,
    pub status: Status,
    pub files: Seq<FileView>,
}

/// A simulated folder and the files in it.
#[derive(Debug, Clone, PartialEq)]
pub struct Folder {
    pub path: String,
    pub status: Status,
    pub files: Vec<File>,
}

impl View for Folder {
    type V = FolderView;

    open spec fn view(&self) -> FolderView {
        FolderView { path: self.path@, status: self.status, files: self.files@.map_values(|f: File| f@) }
    }
}

/// The abstract value of an [`Object`].
pub enum ObjectView {
    File(FileView),
    Folder(FolderView),
}

/// A simulated file or folder.
#[derive(Debug, Clone, PartialEq)]
pub enum Object {
    File(File),
    Folder(Folder),
}

impl View for Object {
    type V = ObjectView;

    open spec fn view(&self) -> ObjectView {
        match self {
            Object::File(f) => ObjectView::File(f@),
            Object::Folder(f) => ObjectView::Folder(f@),
        }
    }
}

pub open spec fn object_path(o: ObjectView) -> Seq<char> {
    match o {
        ObjectView::File(f) => f.path,
        ObjectView::Folder(f) => f.path,
    }
}

/// The abstract value of an [`Event`].
pub enum EventView {
    FileExists(Seq<char>, Status, bool),
    PathsInFolder(Seq<char>, Status, usize),
    WriteStringToFile(Seq<char>, Status, Seq<char>),
    ReadFileToString(Seq<char>, Status),
    TestFailure(Seq<char>, Seq<char>),
}

/// An operation made on the simulated file system.
#[derive(Debug, Clone, PartialEq)]
pub enum Event {
    /// contains: path of the file, its status, whether it existed
    FileExists(String, Status, bool),
    /// contains: path of the folder, its status, len of its contents
    PathsInFolder(String, Status, usize),
    /// contains: path of the file, its status, what was written
    WriteStringToFile(String, Status, String),
    /// contains: path of the file, its status
    ReadFileToString(String, Status),
    /// contains: path of the relevant thing, a message
    TestFailure(String, String),
}

impl View for Event {
    type V = EventView;

    open spec fn view(&self) -> EventView {
        match self {
            Event::FileExists(p, s, b) => EventView::FileExists(p@, *s, *b),
            Event::PathsInFolder(p, s, n) => EventView::PathsInFolder(p@, *s, *n),
            Event::WriteStringToFile(p, s, c) => EventView::WriteStringToFile(p@, *s, c@),
            Event::ReadFileToString(p, s) => EventView::ReadFileToString(p@, *s),
            Event::TestFailure(p, m) => EventView::TestFailure(p@, m@),
        }
    }
}

/// The abstract value of a [`MockFileSystem`]: its files and folders, found
/// by path, and the operations made on it so far.
pub struct MockView {
    pub objects: Seq<ObjectView>,
    pub log: Seq<EventView>,
}

/// A file system simulated in memory.  Files and folders are found by path,
/// paths that name the same place (see [`same_path`]) finding the same one.

pub struct MockFileSystem {
    objects: Vec<Object>,
    log: Vec<Event>,
    asked: Ghost<Seq<FileSystemCall>>,
}

impl View for MockFileSystem {
    type V = MockView;

    closed spec fn view(&self) -> MockView {
        MockView {
            objects: self.objects@.map_values(|o: Object| o@),
            log: self.log@.map_values(|e: Event| e@),
        }
    }
}

/// The position of the first object at a path that names the same place as
/// `p`, from position `i` on.
pub open spec fn find_from(objs: Seq<ObjectView>, p: Seq<char>, i: int) -> Option<int>
    decreases objs.len() - i,
{
    if i < 0 || i >= objs.len() {
        None
    } else if same_path(object_path(objs[i]), p) {
        Some(i)
    } else {
        find_from(objs, p, i + 1)
    }
}

/// The position of the object at `p`.
pub open spec fn find(objs: Seq<ObjectView>, p: Seq<char>) -> Option<int> {
    find_from(objs, p, 0)
}

/// The object at `p`.
pub open spec fn lookup(objs: Seq<ObjectView>, p: Seq<char>) -> Option<ObjectView> {
    match find(objs, p) {
        Some(i) => Some(objs[i]),
        None => None,
    }
}

/// `objs` with `o` put at its path: it replaces the object found there, or
/// is added.
pub open spec fn insert(objs: Seq<ObjectView>, o: ObjectView) -> Seq<ObjectView> {
    match find(objs, object_path(o)) {
        Some(i) => objs.update(i, o),
        None => objs.push(o),
    }
}

pub proof fn lemma_find_from_bounds(objs: Seq<ObjectView>, p: Seq<char>, i: int)
    ensures
        find_from(objs, p, i) matches Some(k) ==> i <= k < objs.len() && same_path(
            object_path(objs[k]),
            p,
        ),
    decreases objs.len() - i,
{
    if 0 <= i < objs.len() && !same_path(object_path(objs[i]), p) {
        lemma_find_from_bounds(objs, p, i + 1);
    }
}

/// `objs` after `file` was put inside the folder at `folder` (and at its own
/// path); `None` when there is then no folder at `folder`.
pub open spec fn put_inside_folder(objs: Seq<ObjectView>, folder: Seq<char>, file: FileView) -> Option<Seq<ObjectView>> {
    let o1 = insert(objs, ObjectView::File(file));
    match find(o1, folder) {
        Some(i) => match o1[i] {
            ObjectView::Folder(f) => Some(o1.update(i, ObjectView::Folder(FolderView { files: f.files.push(file), ..f }))),
            ObjectView::File(_) => None,
        },
        None => None,
    }
}

/// `objs` after `file` was added to the files of the folder at `folder`, if
/// there is one.
pub open spec fn add_to_folder(objs: Seq<ObjectView>, folder: Seq<char>, file: FileView) -> Seq<ObjectView> {
    match find(objs, folder) {
        Some(i) => match objs[i] {
            ObjectView::Folder(f) => objs.update(i, ObjectView::Folder(FolderView { files: f.files.push(file), ..f })),
            ObjectView::File(_) => objs,
        },
        None => objs,
    }
}

/// `objs` after the file at `path`, if there is one, got `content`.
pub open spec fn with_content(objs: Seq<ObjectView>, path: Seq<char>, content: Seq<char>) -> Seq<ObjectView> {
    match find(objs, path) {
        Some(i) => match objs[i] {
            ObjectView::File(f) => objs.update(i, ObjectView::File(FileView { content: Some(content), ..f })),
            ObjectView::Folder(_) => objs,
        },
        None => objs,
    }
}

pub open spec fn opt_object_view(o: Option<&Object>) -> Option<ObjectView> {
    match o {
        Some(x) => Some(x@),
        None => None,
    }
}

pub open spec fn opt_ref_view(s: Option<&String>) -> Option<Seq<char>> {
    match s {
        Some(x) => Some(x@),
        None => None,
    }
}

impl MockFileSystem {
    /// An empty file system.
    pub fn new() -> (r: MockFileSystem)
        ensures
            r@.objects == Seq::<ObjectView>::empty(),
            r@.log == Seq::<EventView>::empty(),
    {
        let r = MockFileSystem { objects: Vec::new(), log: Vec::new(), asked: Ghost(Seq::empty()) };
        assert(r@.objects =~= Seq::<ObjectView>::empty());
        assert(r@.log =~= Seq::<EventView>::empty());
        r
    }

    /// The position of the object at `path`.
    fn position(&self, path: &str) -> (r: Option<usize>)
        ensures
            match r {
                Some(i) => find(self@.objects, path@) == Some(i as int) && i < self.objects@.len(),
                None => find(self@.objects, path@) is None,
            },
    {
        let key = path_key_of(path);
        let mut i: usize = 0;
        while i < self.objects.len()
            invariant
                i <= self.objects@.len(),
                key@ == path_key(path@),
                find(self@.objects, path@) == find_from(self@.objects, path@, i as int),
            decreases self.objects.len() - i,
        {
            let other = match &self.objects[i] {
                Object::File(f) => path_key_of(f.path.as_str()),
                Object::Folder(f) => path_key_of(f.path.as_str()),
            };
            assert(other@ == path_key(object_path(self@.objects[i as int])));
            if same_key(&key, &other) {
                return Some(i);
            }
            i += 1;
        }
        None
    }

    /// The file or folder at `path`.
    pub fn object(&self, path: &str) -> (r: Option<&Object>)
        ensures
            opt_object_view(r) == lookup(self@.objects, path@),
    {
        match self.position(path) {
            Some(i) => Some(&self.objects[i]),
            None => None,
        }
    }

    /// The operations made so far.
    pub fn log(&self) -> (r: &Vec<Event>)
        ensures
            r@.map_values(|e: Event| e@) == self@.log,
    {
        &self.log
    }

    fn put(&mut self, o: Object)
        ensures
            final(self)@.objects == insert(old(self)@.objects, o@),
            final(self)@.log == old(self)@.log,
    {
        let path = match &o {
            Object::File(f) => f.path.clone(),
            Object::Folder(f) => f.path.clone(),
        };
        assert(path@ == object_path(o@));
        match self.position(path.as_str()) {
            Some(i) => {
                let ghost before = self@.objects;
                self.objects.set(i, o);
                assert(self@.objects =~= before.update(i as int, o@));
            },
            None => {
                let ghost before = self@.objects;
                self.objects.push(o);
                assert(self@.objects =~= before.push(o@));
            },
        }
    }

    /// Adds a file, replacing whatever was at its path.
    pub fn add_file(&mut self, path: String, status: Status, content: Option<String>)
        ensures
            final(self)@.objects == insert(
                old(self)@.objects,
                ObjectView::File(FileView { path: path@, status, content: opt_view(content) }),
            ),
            final(self)@.log == old(self)@.log,
    {
        self.put(Object::File(File { path, status, content }));
    }

    /// Adds an empty folder, replacing whatever was at its path.
    pub fn add_folder(&mut self, path: String, status: Status)
        ensures
            final(self)@.objects == insert(
                old(self)@.objects,
                ObjectView::Folder(FolderView { path: path@, status, files: Seq::empty() }),
            ),
            final(self)@.log == old(self)@.log,
    {
        let folder = Folder { path, status, files: Vec::new() };
        assert(folder@.files =~= Seq::<FileView>::empty());
        self.put(Object::Folder(folder));
    }

    /// Adds `file` to the files of the folder at `folder`, if there is one;
    /// the file is not put at its own path.
    pub fn add_file_to_folder(&mut self, folder: &str, file: File)
        ensures
            final(self)@.objects == add_to_folder(old(self)@.objects, folder@, file@),
            final(self)@.log == old(self)@.log,
    {
        match self.position(folder) {
            Some(i) => {
                let ghost before = self@.objects;
                let ghost fv = file@;
                let mut slot = Object::Folder(Folder { path: String::new(), status: Status::Exists, files: Vec::new() });
                std::mem::swap(&mut slot, &mut self.objects[i]);
                match slot {
                    Object::Folder(mut f) => {
                        let ghost fold = f@;
                        f.files.push(file);
                        assert(f@.files =~= fold.files.push(fv));
                        self.objects.set(i, Object::Folder(f));
                        assert(self@.objects =~= before.update(
                            i as int,
                            ObjectView::Folder(FolderView { files: fold.files.push(fv), ..fold }),
                        ));
                    },
                    Object::File(f) => {
                        self.objects.set(i, Object::File(f));
                        assert(self@.objects =~= before);
                    },
                }
            },
            None => {},
        }
    }

    /// Puts `file` at its path and adds it to the files of the folder at
    /// `folder`, which must then be a folder.
    pub fn add_file_inside_folder(&mut self, folder: &str, file: File)
        requires
            put_inside_folder(old(self)@.objects, folder@, file@) is Some,
        ensures
            final(self)@.objects == put_inside_folder(old(self)@.objects, folder@, file@)->0,
            final(self)@.log == old(self)@.log,
    {
        let copy = file.duplicate();
        self.put(Object::File(copy));
        self.add_file_to_folder(folder, file);
    }

    /// Gives the file at `path`, if there is one, the content `content`;
    /// `path` must not be a folder.
    pub fn set_file_content(&mut self, path: &str, content: String)
        requires
            !(lookup(old(self)@.objects, path@) matches Some(ObjectView::Folder(_))),
        ensures
            final(self)@.objects == with_content(old(self)@.objects, path@, content@),
            final(self)@.log == old(self)@.log,
    {
        match self.position(path) {
            Some(i) => {
                let ghost before = self@.objects;
                let mut slot = Object::File(File { path: String::new(), status: Status::Exists, content: None });
                std::mem::swap(&mut slot, &mut self.objects[i]);
                match slot {
                    Object::File(mut f) => {
                        let ghost fold = f@;
                        let ghost cv = content@;
                        f.content = Some(content);
                        self.objects.set(i, Object::File(f));
                        assert(self@.objects =~= before.update(
                            i as int,
                            ObjectView::File(FileView { content: Some(cv), ..fold }),
                        ));
                    },
                    Object::Folder(f) => {
                        self.objects.set(i, Object::Folder(f));
                    },
                }
            },
            None => {},
        }
    }

    /// The content of the file at `path`, which must be a file.
    pub fn get_file_content(&self, path: &str) -> (r: Option<&String>)
        requires
            lookup(self@.objects, path@) matches Some(ObjectView::File(_)),
        ensures
            lookup(self@.objects, path@) matches Some(ObjectView::File(f)) && opt_ref_view(r) == f.content,
    {
        let i = self.position(path).unwrap();
        match &self.objects[i] {
            Object::File(f) => match &f.content {
                Some(c) => Some(c),
                None => None,
            },
            Object::Folder(_) => None,
        }
    }
}

impl Default for MockFileSystem {
    fn default() -> (r: MockFileSystem)
        ensures
            r@.objects == Seq::<ObjectView>::empty(),
            r@.log == Seq::<EventView>::empty(),
    {
        MockFileSystem::new()
    }
}

/// `log` with `event` added, if there is one.
pub open spec fn logged(log: Seq<EventView>, event: Option<EventView>) -> Seq<EventView> {
    match event {
        Some(e) => log.push(e),
        None => log,
    }
}

pub open spec fn outcome<T, V>(r: Result<T, FileSystemError>, ok: spec_fn(T) -> V) -> Result<V, FileSystemErrorView> {
    match r {
        Ok(x) => Ok(ok(x)),
        Err(e) => Err(e@),
    }
}

/// What asking whether a file exists at `path` logs.
pub open spec fn exists_event(objs: Seq<ObjectView>, path: Seq<char>) -> Option<EventView> {
    match lookup(objs, path) {
        Some(ObjectView::File(f)) => Some(EventView::FileExists(path, f.status, f.status == Status::Exists)),
        _ => None,
    }
}

/// What asking whether a file exists at `path` gives: whether the file there
/// exists, an error for a failing file, and "not found" when no file is there.
pub open spec fn exists_outcome(objs: Seq<ObjectView>, path: Seq<char>) -> Result<bool, FileSystemErrorView> {
    match lookup(objs, path) {
        Some(ObjectView::File(f)) => match f.status {
            Status::Exists => Ok(true),
            Status::Missing => Ok(false),
            Status::Error => Err(FileSystemErrorView::Mock(Status::Error)),
        },
        _ => Err(FileSystemErrorView::NotFound(path)),
    }
}

/// The paths of the existing files among `files`, in order.
pub open spec fn existing_paths(files: Seq<FileView>) -> Seq<Seq<char>>
    decreases files.len(),
{
    if files.len() == 0 {
        Seq::empty()
    } else {
        let rest = existing_paths(files.drop_last());
        if files.last().status == Status::Exists {
            rest.push(files.last().path)
        } else {
            rest
        }
    }
}

/// Some file among `files` fails.
pub open spec fn any_failing(files: Seq<FileView>) -> bool {
    exists|k: int| 0 <= k < files.len() && (#[trigger] files[k]).status == Status::Error
}

/// What listing the folder at `path` logs.
pub open spec fn list_event(objs: Seq<ObjectView>, path: Seq<char>) -> Option<EventView> {
    match lookup(objs, path) {
        Some(ObjectView::Folder(f)) => Some(EventView::PathsInFolder(path, f.status, f.files.len() as usize)),
        _ => None,
    }
}

/// What listing the folder at `path` gives: the paths of its existing files
/// when it exists and none of its files fails, an error for a failing or
/// missing folder or a failing file, and "not found" when no folder is there.
pub open spec fn list_outcome(objs: Seq<ObjectView>, path: Seq<char>) -> Result<Seq<Seq<char>>, FileSystemErrorView> {
    match lookup(objs, path) {
        Some(ObjectView::Folder(f)) => if f.status != Status::Exists {
            Err(FileSystemErrorView::Mock(f.status))
        } else if any_failing(f.files) {
            Err(FileSystemErrorView::Mock(Status::Error))
        } else {
            Ok(existing_paths(f.files))
        },
        _ => Err(FileSystemErrorView::NotFound(path)),
    }
}

/// What writing `content` to the file at `path` logs.
pub open spec fn write_event(objs: Seq<ObjectView>, path: Seq<char>, content: Seq<char>) -> Option<EventView> {
    match lookup(objs, path) {
        Some(ObjectView::File(f)) => Some(EventView::WriteStringToFile(path, f.status, content)),
        _ => None,
    }
}

/// What writing to the file at `path` gives: success for an existing file
/// (its content is not kept), an error for a missing or failing one, and
/// "not found" when no file is there.
pub open spec fn write_outcome(objs: Seq<ObjectView>, path: Seq<char>) -> Result<(), FileSystemErrorView> {
    match lookup(objs, path) {
        Some(ObjectView::File(f)) => match f.status {
            Status::Exists => Ok(()),
            other => Err(FileSystemErrorView::Mock(other)),
        },
        _ => Err(FileSystemErrorView::NotFound(path)),
    }
}

/// What reading the file at `path` logs.
pub open spec fn read_event(objs: Seq<ObjectView>, path: Seq<char>) -> Option<EventView> {
    match lookup(objs, path) {
        Some(ObjectView::File(f)) => Some(EventView::ReadFileToString(path, f.status)),
        _ => None,
    }
}

/// What reading the file at `path` gives: the content of an existing file,
/// an error for a missing or failing one, and "not found" when no file, or
/// an existing file without content, is there.
pub open spec fn read_outcome(objs: Seq<ObjectView>, path: Seq<char>) -> Result<Seq<char>, FileSystemErrorView> {
    match lookup(objs, path) {
        Some(ObjectView::File(f)) => match f.status {
            Status::Exists => match f.content {
                Some(c) => Ok(c),
                None => Err(FileSystemErrorView::NotFound(path)),
            },
            other => Err(FileSystemErrorView::Mock(other)),
        },
        _ => Err(FileSystemErrorView::NotFound(path)),
    }
}

fn owned_str(s: &str) -> (r: String)
    ensures
        r@ == s@,
{
    let mut r = String::new();
    push_str(&mut r, s);
    r
}

impl MockFileSystem {
    fn record(&mut self, e: Event)
        ensures
            final(self)@.log == old(self)@.log.push(e@),
            final(self)@.objects == old(self)@.objects,
            final(self).asked@ == old(self).asked@,
    {
        let ghost before = self@.log;
        self.log.push(e);
        assert(self@.log =~= before.push(e@));
    }
}

impl FileSystem for MockFileSystem {
    /// Every question put to the simulated file system, whether it found
    /// anything at the path or not.
    closed spec fn asked(&self) -> Seq<FileSystemCall> {
        self.asked@
    }

    /// The existing files of the folder at `folder`, when listing it succeeds
    /// (see [`list_outcome`]).
    open spec fn listed(&self, folder: Seq<char>) -> Option<Seq<Seq<char>>> {
        match list_outcome(self@.objects, folder) {
            Ok(l) => Some(l),
            Err(_) => None,
        }
    }

    /// Whether the file at `path` exists, when asking succeeds (see
    /// [`exists_outcome`]).
    open spec fn exists_answer(&self, path: Seq<char>) -> Option<bool> {
        match exists_outcome(self@.objects, path) {
            Ok(b) => Some(b),
            Err(_) => None,
        }
    }

    fn file_exists(&mut self, path: &str) -> (r: Result<bool, FileSystemError>)
        ensures
            final(self)@.objects == old(self)@.objects,
            final(self)@.log == logged(old(self)@.log, exists_event(old(self)@.objects, path@)),
            outcome(r, |b: bool| b) == exists_outcome(old(self)@.objects, path@),
    {
        proof {
            self.asked@ = self.asked@.push(FileSystemCall::Exists(path@));
        }
        let i = match self.position(path) {
            Some(i) => i,
            None => return Err(FileSystemError::NotFound(owned_str(path))),
        };
        let status = match &self.objects[i] {
            Object::File(f) => f.status,
            Object::Folder(_) => return Err(FileSystemError::NotFound(owned_str(path))),
        };
        let exists = status == Status::Exists;
        self.record(Event::FileExists(owned_str(path), status, exists));
        match status {
            Status::Exists => Ok(true),
            Status::Missing => Ok(false),
            Status::Error => Err(FileSystemError::Mock(MockError::new(Status::Error))),
        }
    }

    fn paths_in_folder(&mut self, path: &str) -> (r: Result<Vec<String>, FileSystemError>)
        ensures
            final(self)@.objects == old(self)@.objects,
            final(self)@.log == logged(old(self)@.log, list_event(old(self)@.objects, path@)),
            outcome(r, |v: Vec<String>| v@.map_values(|p: String| p@)) == list_outcome(old(self)@.objects, path@),
    {
        proof {
            self.asked@ = self.asked@.push(FileSystemCall::List(path@));
        }
        let i = match self.position(path) {
            Some(i) => i,
            None => return Err(FileSystemError::NotFound(owned_str(path))),
        };
        let (status, count) = match &self.objects[i] {
            Object::Folder(f) => (f.status, f.files.len()),
            Object::File(_) => return Err(FileSystemError::NotFound(owned_str(path))),
        };
        self.record(Event::PathsInFolder(owned_str(path), status, count));
        if status != Status::Exists {
            return Err(FileSystemError::Mock(MockError::new(status)));
        }
        let files = match &self.objects[i] {
            Object::Folder(f) => &f.files,
            Object::File(_) => return Err(FileSystemError::NotFound(owned_str(path))),
        };
        let ghost fv = files@.map_values(|f: File| f@);
        let mut paths: Vec<String> = Vec::new();
        let mut k: usize = 0;
        while k < files.len()
            invariant
                k <= files@.len(),
                fv == files@.map_values(|f: File| f@),
                self@.objects == old(self)@.objects,
                self@.log == logged(old(self)@.log, list_event(old(self)@.objects, path@)),
                self.asked@ == old(self).asked@.push(FileSystemCall::List(path@)),
                lookup(old(self)@.objects, path@) matches Some(ObjectView::Folder(fd)) && fd.files == fv
                    && fd.status == Status::Exists,
                paths@.map_values(|p: String| p@) == existing_paths(fv.take(k as int)),
                !any_failing(fv.take(k as int)),
            decreases files.len() - k,
        {
            let f = &files[k];
            proof {
                assert(fv.take(k + 1).drop_last() =~= fv.take(k as int));
                assert(fv.take(k + 1).last() == f@);
            }
            if f.status == Status::Error {
                assert(fv[k as int].status == Status::Error);
                assert(any_failing(fv));
                return Err(FileSystemError::Mock(MockError::new(Status::Error)));
            }
            if f.status == Status::Exists {
                let ghost before = paths@;
                paths.push(f.path.clone());
                assert(paths@.map_values(|p: String| p@) =~= before.map_values(|p: String| p@).push(f.path@));
            }
            k += 1;
            assert(!any_failing(fv.take(k as int))) by {
                if any_failing(fv.take(k as int)) {
                    let j = choose|j: int| 0 <= j < fv.take(k as int).len() && (#[trigger] fv.take(k as int)[j]).status == Status::Error;
                    assert(fv.take(k as int)[j] == fv.take(k - 1)[j]);
                }
            }
        }
        assert(fv.take(k as int) =~= fv);
        Ok(paths)
    }

    fn write_string_to_file(&mut self, content: &str, path: &str) -> (r: Result<(), FileSystemError>)
        ensures
            final(self)@.objects == old(self)@.objects,
            final(self)@.log == logged(old(self)@.log, write_event(old(self)@.objects, path@, content@)),
            outcome(r, |u: ()| u) == write_outcome(old(self)@.objects, path@),
    {
        proof {
            self.asked@ = self.asked@.push(FileSystemCall::Write(path@));
        }
        let i = match self.position(path) {
            Some(i) => i,
            None => return Err(FileSystemError::NotFound(owned_str(path))),
        };
        let status = match &self.objects[i] {
            Object::File(f) => f.status,
            Object::Folder(_) => return Err(FileSystemError::NotFound(owned_str(path))),
        };
        self.record(Event::WriteStringToFile(owned_str(path), status, owned_str(content)));
        match status {
            Status::Exists => Ok(()),
            other => Err(FileSystemError::Mock(MockError::new(other))),
        }
    }

    fn read_file_to_string(&mut self, path: &str) -> (r: Result<String, FileSystemError>)
        ensures
            final(self)@.objects == old(self)@.objects,
            final(self)@.log == logged(old(self)@.log, read_event(old(self)@.objects, path@)),
            outcome(r, |c: String| c@) == read_outcome(old(self)@.objects, path@),
    {
        proof {
            self.asked@ = self.asked@.push(FileSystemCall::Read(path@));
        }
        let i = match self.position(path) {
            Some(i) => i,
            None => return Err(FileSystemError::NotFound(owned_str(path))),
        };
        let (status, content) = match &self.objects[i] {
            Object::File(f) => (f.status, copy_opt(&f.content)),
            Object::Folder(_) => return Err(FileSystemError::NotFound(owned_str(path))),
        };
        self.record(Event::ReadFileToString(owned_str(path), status));
        match status {
            Status::Exists => match content {
                Some(c) => Ok(c),
                None => Err(FileSystemError::NotFound(owned_str(path))),
            },
            other => Err(FileSystemError::Mock(MockError::new(other))),
        }
    }
}

/// A line without the carriage return it ends with, if any.
pub open spec fn without_cr(l: Seq<char>) -> Seq<char> {
    if l.len() > 0 && l.last() == '\r' {
        l.drop_last()
    } else {
        l
    }
}

/// The complete lines of `s`, and the text after the last line feed.
pub open spec fn scan_lines(s: Seq<char>) -> (Seq<Seq<char>>, Seq<char>)
    decreases s.len(),
{
    if s.len() == 0 {
        (Seq::empty(), Seq::empty())
    } else {
        let (ls, cur) = scan_lines(s.drop_last());
        if s.last() == '\n' {
            (ls.push(without_cr(cur)), Seq::empty())
        } else {
            (ls, cur.push(s.last()))
        }
    }
}

/// The lines of `s` as `str::lines` gives them: split at line feeds, a
/// carriage return before a line feed dropped, and no empty line after a
/// final line feed.
pub open spec fn lines_of(s: Seq<char>) -> Seq<Seq<char>> {
    if scan_lines(s).1.len() == 0 {
        scan_lines(s).0
    } else {
        scan_lines(s).0.push(scan_lines(s).1)
    }
}

/// Where a listing is while it is read: the objects so far and the folder
/// that indented lines belong to.
pub struct ListingState {
    pub objects: Seq<ObjectView>,
    pub folder: Option<Seq<char>>,
}

/// The status a leading `!` or `?` gives, and the path after it.
pub open spec fn prefixed(t: Seq<char>) -> (Seq<char>, Status) {
    if t.len() > 0 && t[0] == '!' {
        (t.drop_first(), Status::Error)
    } else if t.len() > 0 && t[0] == '?' {
        (t.drop_first(), Status::Missing)
    } else {
        (t, Status::Exists)
    }
}

pub open spec fn indent() -> Seq<char> {
    seq![' ', ' ', ' ', ' ']
}

/// The effect of one line of a listing, `None` when the line is malformed.
pub open spec fn listing_step(st: ListingState, line: Seq<char>) -> Option<ListingState> {
    if token_at(line, 0, seq!['!', ' ', ' ', ' ', ' '], false) || token_at(line, 0, seq!['?', ' ', ' ', ' ', ' '], false) {
        None
    } else if token_at(line, 0, seq!['!', ' '], false) || token_at(line, 0, seq!['?', ' '], false) {
        None
    } else if token_at(line, 0, indent(), false) {
        let inner = line.skip(4);
        if inner.len() == 0 || inner.last() == '/' {
            None
        } else {
            match st.folder {
                None => None,
                Some(folder) => {
                    let (rel, status) = prefixed(inner);
                    let file = FileView { path: join(folder, rel), status, content: None };
                    match put_inside_folder(st.objects, folder, file) {
                        Some(objs) => Some(ListingState { objects: objs, folder: st.folder }),
                        None => None,
                    }
                },
            }
        }
    } else if line.len() == 0 {
        Some(ListingState { objects: st.objects, folder: None })
    } else if line.last() == '/' {
        let (path, status) = prefixed(line);
        Some(ListingState {
            objects: insert(st.objects, ObjectView::Folder(FolderView { path, status, files: Seq::empty() })),
            folder: Some(path),
        })
    } else {
        let (path, status) = prefixed(line);
        Some(ListingState {
            objects: insert(st.objects, ObjectView::File(FileView { path, status, content: None })),
            folder: st.folder,
        })
    }
}

/// The state after the lines `ls`, from an empty file system.
pub open spec fn run_listing(ls: Seq<Seq<char>>) -> Option<ListingState>
    decreases ls.len(),
{
    if ls.len() == 0 {
        Some(ListingState { objects: Seq::empty(), folder: None })
    } else {
        match run_listing(ls.drop_last()) {
            Some(st) => listing_step(st, ls.last()),
            None => None,
        }
    }
}

/// The files and folders a listing describes; `None` when a line is
/// malformed.
///
/// * Lines ending in `/` are folders; other lines are files.
/// * Lines indented with 4 spaces are files of the last folder, given by a
///   path relative to it; an empty line ends a folder.  Folders are not nested.
/// * A leading `!` (after the indentation) makes an object fail, a leading
///   `?` makes it missing; the files indented under a marked folder belong to
///   the folder's path without the mark.
pub open spec fn spec_parse_listing(s: Seq<char>) -> Option<Seq<ObjectView>> {
    match run_listing(lines_of(s)) {
        Some(st) => Some(st.objects),
        None => None,
    }
}

proof fn lemma_run_listing_stuck(ls: Seq<Seq<char>>, k: int)
    requires
        0 <= k <= ls.len(),
        run_listing(ls.take(k)) is None,
    ensures
        run_listing(ls) is None,
    decreases ls.len() - k,
{
    if k < ls.len() {
        assert(ls.take(k + 1).drop_last() =~= ls.take(k));
        lemma_run_listing_stuck(ls, k + 1);
    } else {
        assert(ls.take(k) =~= ls);
    }
}

fn split_lines(s: &str) -> (r: Vec<Vec<char>>)
    ensures
        r@.map_values(|l: Vec<char>| l@) == lines_of(s@),
{
    let v = chars_of(s);
    let mut lines: Vec<Vec<char>> = Vec::new();
    let mut cur: Vec<char> = Vec::new();
    let mut i: usize = 0;
    while i < v.len()
        invariant
            i <= v@.len(),
            v@ == s@,
            (lines@.map_values(|l: Vec<char>| l@), cur@) == scan_lines(v@.take(i as int)),
        decreases v.len() - i,
    {
        let c = v[i];
        proof {
            assert(v@.take(i + 1).drop_last() =~= v@.take(i as int));
            assert(v@.take(i + 1).last() == c);
        }
        if c == '\n' {
            let mut line = cur;
            if line.len() > 0 && line[line.len() - 1] == '\r' {
                line.pop();
            }
            let ghost before = lines@;
            lines.push(line);
            assert(lines@.map_values(|l: Vec<char>| l@) =~= before.map_values(|l: Vec<char>| l@).push(line@));
            cur = Vec::new();
            assert(cur@ =~= Seq::<char>::empty());
        } else {
            cur.push(c);
        }
        i += 1;
    }
    assert(v@.take(v@.len() as int) =~= v@);
    if cur.len() > 0 {
        let ghost before = lines@;
        let ghost last = cur@;
        lines.push(cur);
        assert(lines@.map_values(|l: Vec<char>| l@) =~= before.map_values(|l: Vec<char>| l@).push(last));
    }
    lines
}

fn starts_with(line: &Vec<char>, prefix: &str) -> (r: bool)
    ensures
        r == token_at(line@, 0, prefix@, false),
{
    let p = chars_of(prefix);
    token_at_exec(line, 0, &p, false)
}

/// The path after a leading `!` or `?` of `t[start..]`, and the status it gives.
fn prefixed_exec(t: &Vec<char>, start: usize) -> (r: (String, Status))
    requires
        start <= t@.len(),
    ensures
        (r.0@, r.1) == prefixed(t@.skip(start as int)),
{
    let ghost u = t@.skip(start as int);
    if start < t.len() && t[start] == '!' {
        let p = string_of(t, start + 1, t.len());
        assert(p@ =~= u.drop_first());
        (p, Status::Error)
    } else if start < t.len() && t[start] == '?' {
        let p = string_of(t, start + 1, t.len());
        assert(p@ =~= u.drop_first());
        (p, Status::Missing)
    } else {
        let p = string_of(t, start, t.len());
        assert(p@ =~= u);
        (p, Status::Exists)
    }
}

impl MockFileSystem {
    /// Applies one line of a listing; `false` when the line is malformed.
    fn apply_line(&mut self, folder: &mut Option<String>, line: &Vec<char>) -> (ok: bool)
        ensures
            ok ==> listing_step(ListingState { objects: old(self)@.objects, folder: opt_view(*old(folder)) }, line@)
                == Some(ListingState { objects: final(self)@.objects, folder: opt_view(*final(folder)) }),
            !ok ==> listing_step(ListingState { objects: old(self)@.objects, folder: opt_view(*old(folder)) }, line@) is None,
            final(self)@.log == old(self)@.log,
    {
        proof {
            reveal_strlit("!    ");
            reveal_strlit("?    ");
            reveal_strlit("! ");
            reveal_strlit("? ");
            reveal_strlit("    ");
            assert("!    "@ =~= seq!['!', ' ', ' ', ' ', ' ']);
            assert("?    "@ =~= seq!['?', ' ', ' ', ' ', ' ']);
            assert("! "@ =~= seq!['!', ' ']);
            assert("? "@ =~= seq!['?', ' ']);
            assert("    "@ =~= indent());
        }
        if starts_with(line, "!    ") || starts_with(line, "?    ") {
            return false;
        }
        if starts_with(line, "! ") || starts_with(line, "? ") {
            return false;
        }
        if starts_with(line, "    ") {
            let n = line.len();
            let ghost inner = line@.skip(4);
            if n == 4 || line[n - 1] == '/' {
                assert(inner.len() == 0 || inner.last() == '/');
                return false;
            }
            let dir = match folder {
                Some(f) => f.clone(),
                None => return false,
            };
            let (rel, status) = prefixed_exec(line, 4);
            let path = join_path(dir.as_str(), rel.as_str());
            let file = File { path, status, content: None };
            let copy = file.duplicate();
            self.put(Object::File(copy));
            match self.position(dir.as_str()) {
                Some(i) => match &self.objects[i] {
                    Object::Folder(_) => {},
                    Object::File(_) => return false,
                },
                None => return false,
            }
            self.add_file_to_folder(dir.as_str(), file);
            return true;
        }
        if line.len() == 0 {
            *folder = None;
            return true;
        }
        let (path, status) = prefixed_exec(line, 0);
        assert(line@.skip(0) =~= line@);
        if line[line.len() - 1] == '/' {
            let mut current = String::new();
            crate::text::push_str(&mut current, path.as_str());
            let f = Folder { path, status, files: Vec::new() };
            assert(f@.files =~= Seq::<FileView>::empty());
            self.put(Object::Folder(f));
            *folder = Some(current);
        } else {
            self.put(Object::File(File { path, status, content: None }));
        }
        true
    }

    /// The file system a listing describes, see [`spec_parse_listing`];
    /// `Err` when a line is malformed.
    pub fn parse(s: &str) -> (r: Result<MockFileSystem, ()>)
        ensures
            match r {
                Ok(fs) => spec_parse_listing(s@) == Some(fs@.objects) && fs@.log == Seq::<EventView>::empty(),
                Err(_) => spec_parse_listing(s@) is None,
            },
    {
        let lines = split_lines(s);
        let ghost ls = lines@.map_values(|l: Vec<char>| l@);
        let mut fs = MockFileSystem::new();
        let mut folder: Option<String> = None;
        let mut i: usize = 0;
        assert(ls.take(0) =~= Seq::<Seq<char>>::empty());
        while i < lines.len()
            invariant
                i <= lines@.len(),
                ls == lines@.map_values(|l: Vec<char>| l@),
                ls == lines_of(s@),
                run_listing(ls.take(i as int)) == Some(ListingState { objects: fs@.objects, folder: opt_view(folder) }),
                fs@.log == Seq::<EventView>::empty(),
            decreases lines.len() - i,
        {
            proof {
                assert(ls.take(i + 1).drop_last() =~= ls.take(i as int));
                assert(ls.take(i + 1).last() == lines@[i as int]@);
            }
            if !fs.apply_line(&mut folder, &lines[i]) {
                proof {
                    lemma_run_listing_stuck(ls, i + 1);
                }
                return Err(());
            }
            i += 1;
        }
        assert(ls.take(i as int) =~= ls);
        Ok(fs)
    }
}

impl core::str::FromStr for MockFileSystem {
    type Err = ();

    /// The file system the listing `s` describes, see [`MockFileSystem::parse`].
    fn from_str(s: &str) -> (r: Result<MockFileSystem, ()>)
        ensures
            match r {
                Ok(fs) => spec_parse_listing(s@) == Some(fs@.objects) && fs@.log == Seq::<EventView>::empty(),
                Err(_) => spec_parse_listing(s@) is None,
            },
    {
        MockFileSystem::parse(s)
    }
}

proof fn lemma_find_from_update(objs: Seq<ObjectView>, p: Seq<char>, i: int, j: int, o: ObjectView)
    requires
        0 <= j < objs.len(),
        path_key(object_path(o)) == path_key(object_path(objs[j])),
    ensures
        find_from(objs.update(j, o), p, i) == find_from(objs, p, i),
    decreases objs.len() - i,
{
    if 0 <= i < objs.len() {
        if i == j {
            assert(objs.update(j, o)[i] == o);
        } else {
            assert(objs.update(j, o)[i] == objs[i]);
        }
        lemma_find_from_update(objs, p, i + 1, j, o);
    }
}

proof fn lemma_find_from_push(objs: Seq<ObjectView>, p: Seq<char>, i: int, o: ObjectView)
    requires
        0 <= i <= objs.len(),
        find_from(objs, p, i) is None,
        same_path(object_path(o), p),
    ensures
        find_from(objs.push(o), p, i) == Some(objs.len() as int),
    decreases objs.len() - i,
{
    if i < objs.len() {
        assert(objs.push(o)[i] == objs[i]);
        lemma_find_from_push(objs, p, i + 1, o);
    } else {
        assert(objs.push(o)[i] == o);
    }
}

/// What is put at a path is found there afterwards.
pub proof fn lemma_lookup_after_insert(objs: Seq<ObjectView>, o: ObjectView)
    ensures
        lookup(insert(objs, o), object_path(o)) == Some(o),
{
    let p = object_path(o);
    lemma_find_from_bounds(objs, p, 0);
    match find(objs, p) {
        Some(i) => {
            lemma_find_from_update(objs, p, 0, i, o);
            assert(objs.update(i, o)[i] == o);
        },
        None => {
            assert(same_path(p, p));
            lemma_find_from_push(objs, p, 0, o);
            assert(objs.push(o)[objs.len() as int] == o);
        },
    }
}

/// The content given to a file is the content read back from it.
pub proof fn lemma_content_read_back(objs: Seq<ObjectView>, path: Seq<char>, content: Seq<char>)
    requires
        lookup(objs, path) matches Some(ObjectView::File(_)),
    ensures
        lookup(with_content(objs, path, content), path) matches Some(ObjectView::File(f)) && f.content == Some(content),
        lookup(with_content(objs, path, content), path) matches Some(ObjectView::File(f)) && f.status == Status::Exists
            ==> read_outcome(with_content(objs, path, content), path) == Ok::<Seq<char>, FileSystemErrorView>(content),
{
    lemma_find_from_bounds(objs, path, 0);
    let i = find(objs, path)->0;
    match objs[i] {
        ObjectView::File(f) => {
            let o = ObjectView::File(FileView { content: Some(content), ..f });
            lemma_find_from_update(objs, path, 0, i, o);
        },
        ObjectView::Folder(_) => {},
    }
}

} // verus!
