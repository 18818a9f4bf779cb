use std::str::FromStr;

use scut::compression::MockCompression;
use scut::file_system::mock_file_system::{Event, MockFileSystem, Status};
use scut::index::folder::Folder;
use scut::index::Index;
use scut::query::Query;
use scut::save::{Save, Side};
use scut::storage::dropbox_folder::DropboxFolder;
use scut::storage::game_saves_folder::GameSavesFolder;
use scut::storage::{LocalStorage, RemoteStorage, StorageError};

#[test]
fn test_folder_works() {
    let mock_file_system = MockFileSystem::from_str(
        "saves/\n    autosave.sav\n    Axis DM 1.sav\n    Allies 1.sav\n    ?Allies NO 99.sav\n",
    )
    .unwrap();

    let folder = Folder::new("saves", mock_file_system).unwrap();
    assert_eq!(
        folder.locate_save(&Save::new(Side::Axis, 1).player("DM")),
        Some("saves/Axis DM 1.sav")
    );
}

#[test]
fn test_folder_works_with_missing_files() {
    let mock_file_system = MockFileSystem::from_str(
        "saves/\n    ?autosave.sav\n    ?Axis DM 1.sav\n    Allies 1.sav\n    ?Allies NO 99.sav\n",
    )
    .unwrap();

    let folder = Folder::new("saves", mock_file_system).unwrap();
    let actual = folder.locate_save(&Save::new(Side::Axis, 1).player("DM"));

    for log in folder.file_system().log() {
        println!("{log:?}");
    }

    assert_eq!(actual, None);
}

#[test]
fn folder_finds_the_autosave_and_indexes_saves() {
    let fs = MockFileSystem::from_str(
        "saves/\n    autosave.sav\n    Axis DM 1.sav\n    notes.txt\n    Allies 1.sav\n",
    )
    .unwrap();
    let folder = Folder::new("saves", fs).unwrap();
    assert_eq!(folder.locate_autosave(), Some("saves/autosave.sav"));
    assert_eq!(folder.search(&Query::new()).len(), 2);
    assert_eq!(folder.count(&Query::new().side(Side::Allies)), 1);
    assert_eq!(
        folder.choose_location_for_save(&Save::new(Side::Allies, 4).player("GM")),
        "saves/Allies GM 4"
    );
    assert_eq!(
        folder.file_system().log(),
        &vec![
            Event::PathsInFolder(String::from("saves"), Status::Exists, 4),
            Event::FileExists(String::from("saves/autosave.sav"), Status::Exists, true),
        ]
    );
}

#[test]
fn the_last_file_of_a_save_wins() {
    let fs = MockFileSystem::from_str("saves/\n    Axis 1.sav\n    Axis 1.7z\n    ?autosave.sav\n").unwrap();
    let folder = Folder::new("saves", fs).unwrap();
    assert_eq!(folder.locate_save(&Save::new(Side::Axis, 1)), Some("saves/Axis 1.7z"));
    assert_eq!(folder.search(&Query::new()).len(), 1);
}

#[test]
fn folders_fail_when_the_file_system_fails() {
    let fs = MockFileSystem::from_str("?saves/\n").unwrap();
    assert!(Folder::new("saves", fs).is_err());
}

#[test]
fn game_saves_folder_locates_saves() {
    let fs = MockFileSystem::from_str("saves/\n    Axis DM 1.sav\n    ?autosave.sav\n").unwrap();
    let mut storage = GameSavesFolder::new(Folder::new("saves", fs).unwrap());
    assert_eq!(
        storage.locate_save(&Save::new(Side::Axis, 1).player("DM")),
        Ok(Some(String::from("saves/Axis DM 1.sav")))
    );
    assert!(matches!(
        storage.locate_save(&Save::new(Side::Axis, 2)),
        Err(StorageError::SaveNotFound { .. })
    ));
    assert!(matches!(storage.locate_autosave(), Err(StorageError::SaveNotFound { .. })));
    assert_eq!(storage.location(), "saves");
}

#[test]
fn dropbox_folder_downloads_known_saves() {
    let fs = MockFileSystem::from_str("box/\n    Allies 3.7z\n    ?autosave.sav\n").unwrap();
    let mut storage = DropboxFolder::new(Folder::new("box", fs).unwrap(), MockCompression::new());
    assert_eq!(storage.download(&Save::new(Side::Allies, 3), "saves"), Ok(()));
    match storage.download(&Save::new(Side::Allies, 4), "saves") {
        Err(StorageError::SaveNotFound { save, location }) => {
            assert_eq!(save, "Allies 4");
            assert_eq!(location, "box");
        }
        other => panic!("unexpected {other:?}"),
    }
    assert_eq!(storage.upload(&Save::new(Side::Axis, 4), "saves/autosave.sav"), Ok(()));
}

#[test]
fn folder_autosave_follows_its_file() {
    let missing = MockFileSystem::from_str("saves/\n    ?autosave.sav\n    Allies 1.sav\n").unwrap();
    let folder = Folder::new("saves", missing).unwrap();
    assert_eq!(folder.locate_autosave(), None);
    assert_eq!(folder.locate_save(&Save::new(Side::Allies, 1)), Some("saves/Allies 1.sav"));

    let failing = MockFileSystem::from_str("saves/\n    Allies 1.sav\n\n!saves/autosave.sav\n").unwrap();
    assert!(Folder::new("saves", failing).is_err());

    let mut folder = Folder::new(
        "saves",
        MockFileSystem::from_str("saves/\n    autosave.sav\n    Axis 2.sav\n").unwrap(),
    )
    .unwrap();
    assert!(folder.refresh_saves().is_ok());
    assert_eq!(folder.locate_autosave(), Some("saves/autosave.sav"));
    assert_eq!(folder.search(&Query::new()).len(), 1);
}
