use scut::file_system::mock_file_system::{Event, File, Folder, MockFileSystem, Object, Status};
use scut::file_system::{FileSystem, FileSystemError, MockError};

#[test]
fn test_parse_mock_file_system() {
    let string = r"
/path/to/foo.rs
/path/to/folder/
    inside_folder.txt
    also_inside_folder.txt

/out/of/folder/again.rs
";

    let mock_file_system: MockFileSystem = string.parse().unwrap();

    let foo = String::from("/path/to/foo.rs");
    assert_eq!(
        *mock_file_system.object(&foo).unwrap(),
        Object::File(File {
            path: foo,
            status: Status::Exists,
            content: None
        })
    );

    let folder = String::from("/path/to/folder/");
    assert_eq!(
        *mock_file_system.object(&folder).unwrap(),
        Object::Folder(Folder {
            path: folder,
            status: Status::Exists,
            files: vec![
                File {
                    path: String::from("/path/to/folder/inside_folder.txt"),
                    status: Status::Exists,
                    content: None,
                },
                File {
                    path: String::from("/path/to/folder/also_inside_folder.txt"),
                    status: Status::Exists,
                    content: None,
                }
            ],
        })
    );
}

#[test]
fn test_parse_mock_file_system_folders_contain_files() {
    let string = r"
/path/to/folder/
    file_a
    file_b
";

    let mock_file_system: MockFileSystem = string.parse().unwrap();

    let folder = String::from("/path/to/folder/");
    let file_a = String::from("/path/to/folder/file_a");
    let file_b = String::from("/path/to/folder/file_b");

    assert_eq!(
        *mock_file_system.object(&folder).unwrap(),
        Object::Folder(Folder {
            path: folder,
            status: Status::Exists,
            files: vec![
                File {
                    path: file_a,
                    status: Status::Exists,
                    content: None,
                },
                File {
                    path: file_b,
                    status: Status::Exists,
                    content: None,
                }
            ],
        })
    );
}

#[test]
fn test_parse_mock_file_system_statuses() {
    let string = r"
!/path/to/error.rs
?/path/to/missing-folder/

/path/to/folder/
    !error_inside_folder.txt
    ?missing_file_inside_folder.txt
";

    let mock_file_system: MockFileSystem = string.parse().unwrap();

    let error = String::from("/path/to/error.rs");
    assert_eq!(
        *mock_file_system.object(&error).unwrap(),
        Object::File(File {
            path: error,
            status: Status::Error,
            content: None
        })
    );

    let missing_folder = String::from("/path/to/missing-folder/");
    assert_eq!(
        *mock_file_system.object(&missing_folder).unwrap(),
        Object::Folder(Folder {
            path: missing_folder,
            status: Status::Missing,
            files: Vec::new(),
        })
    );

    let error_inside_folder = String::from("/path/to/folder/error_inside_folder.txt");
    assert_eq!(
        *mock_file_system.object(&error_inside_folder).unwrap(),
        Object::File(File {
            path: error_inside_folder,
            status: Status::Error,
            content: None,
        })
    );

    let missing_inside_folder = String::from("/path/to/folder/missing_file_inside_folder.txt");
    assert_eq!(
        *mock_file_system.object(&missing_inside_folder).unwrap(),
        Object::File(File {
            path: missing_inside_folder,
            status: Status::Missing,
            content: None,
        })
    );
}

#[test]
fn paths_naming_the_same_place_find_the_same_object() {
    let fs: MockFileSystem = "saves/\n    a.sav\n".parse().unwrap();
    assert!(fs.object("saves").is_some());
    assert!(fs.object("saves//").is_some());
    assert!(fs.object("./saves").is_none());
    assert!(fs.object("saves/./a.sav").is_some());
    assert!(fs.object("other").is_none());
}

#[test]
fn malformed_listings_are_refused() {
    for listing in [
        "!    /a/b\n",
        "? /a/b\n",
        "    orphan.txt\n",
        "/folder/\n    nested/\n",
        "/folder/\n    \n",
    ] {
        let result: Result<MockFileSystem, ()> = listing.parse();
        assert!(result.is_err(), "{listing:?}");
    }
}

#[test]
fn operations_follow_the_statuses_and_are_logged() {
    let mut fs: MockFileSystem = "/d/\n    a\n    ?b\n/e/\n    !c\n?/m/\n/f\n?/g\n!/h\n".parse().unwrap();
    assert_eq!(fs.paths_in_folder("/d").unwrap(), vec![String::from("/d/a")]);
    assert_eq!(fs.paths_in_folder("/e"), Err(FileSystemError::Mock(MockError::new(Status::Error))));
    assert_eq!(fs.paths_in_folder("/m"), Err(FileSystemError::Mock(MockError::new(Status::Missing))));
    assert_eq!(fs.paths_in_folder("/f"), Err(FileSystemError::NotFound(String::from("/f"))));
    assert_eq!(fs.file_exists("/f"), Ok(true));
    assert_eq!(fs.file_exists("/g"), Ok(false));
    assert_eq!(fs.file_exists("/h"), Err(FileSystemError::Mock(MockError::new(Status::Error))));
    assert_eq!(fs.file_exists("/nowhere"), Err(FileSystemError::NotFound(String::from("/nowhere"))));
    assert_eq!(fs.write_string_to_file("x", "/f"), Ok(()));
    assert_eq!(fs.write_string_to_file("x", "/g"), Err(FileSystemError::Mock(MockError::new(Status::Missing))));
    assert_eq!(fs.read_file_to_string("/f"), Err(FileSystemError::NotFound(String::from("/f"))));
    fs.set_file_content("/f", String::from("hello"));
    assert_eq!(fs.read_file_to_string("/f"), Ok(String::from("hello")));
    assert_eq!(fs.get_file_content("/f"), Some(&String::from("hello")));
    let log = fs.log();
    assert_eq!(log[0], Event::PathsInFolder(String::from("/d"), Status::Exists, 2));
    assert_eq!(log[1], Event::PathsInFolder(String::from("/e"), Status::Exists, 1));
    assert_eq!(log[2], Event::PathsInFolder(String::from("/m"), Status::Missing, 0));
    assert_eq!(log[3], Event::FileExists(String::from("/f"), Status::Exists, true));
    assert_eq!(log.len(), 10);
}

#[test]
fn adding_objects_replaces_those_at_the_same_path() {
    let mut fs = MockFileSystem::new();
    fs.add_folder(String::from("/d/"), Status::Exists);
    fs.add_file_inside_folder("/d", File::new(String::from("/d/x"), Status::Exists, None));
    fs.add_file(String::from("/d/x"), Status::Missing, Some(String::from("c")));
    assert_eq!(
        *fs.object("/d/x").unwrap(),
        Object::File(File::new(String::from("/d/x"), Status::Missing, Some(String::from("c"))))
    );
    match fs.object("/d").unwrap() {
        Object::Folder(f) => assert_eq!(f.files.len(), 1),
        other => panic!("not a folder: {other:?}"),
    }
    fs.add_file_to_folder("/nowhere", File::new(String::from("/y"), Status::Exists, None));
    assert!(fs.object("/y").is_none());
}

#[test]
fn marked_folders_hold_their_indented_files() {
    let mock_file_system: MockFileSystem = "?/a/\n    f\n".parse().unwrap();
    let file = File { path: String::from("/a/f"), status: Status::Exists, content: None };
    assert_eq!(*mock_file_system.object(&String::from("/a/f")).unwrap(), Object::File(file.clone()));
    assert_eq!(
        *mock_file_system.object(&String::from("/a/")).unwrap(),
        Object::Folder(Folder { path: String::from("/a/"), status: Status::Missing, files: vec![file] })
    );

    let failing: MockFileSystem = "!/b/\n    ?g\n".parse().unwrap();
    assert_eq!(
        *failing.object(&String::from("/b/")).unwrap(),
        Object::Folder(Folder {
            path: String::from("/b/"),
            status: Status::Error,
            files: vec![File { path: String::from("/b/g"), status: Status::Missing, content: None }],
        })
    );
}
