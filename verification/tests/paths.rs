use scut::cli::save::{from_path, Save as CliSave};
use scut::config::TeamNames;
use scut::parse::{file_extension, path_to_save};
use scut::path::{join_path, same_path_exec};
use scut::save::{Save, Side};

#[test]
fn windows_paths_are_read() {
    let names = TeamNames::default();
    assert_eq!(
        path_to_save("C:\\Users\\dm\\saves\\Axis DM 1.sav", &names),
        Some(Save::new(Side::Axis, 1).player("DM"))
    );
    assert_eq!(path_to_save("saves/Allies 2.sav", &names), Some(Save::new(Side::Allies, 2)));
    assert_eq!(file_extension("C:\\box\\Axis 3.7z"), Some("7z".to_string()));
    assert!(matches!(from_path("D:\\box\\Allies DM 70.7z"), Ok(CliSave::Turn(_))));
}

#[test]
fn joining_keeps_the_separator_of_the_folder() {
    assert_eq!(join_path("C:\\Users\\dm", "Documents"), "C:\\Users\\dm\\Documents");
    assert_eq!(join_path("C:\\Users\\dm\\", "Documents"), "C:\\Users\\dm\\Documents");
    assert_eq!(join_path("/home/dm", "Documents"), "/home/dm/Documents");
    assert_eq!(join_path("/home/dm", "/etc"), "/etc");
    assert!(same_path_exec("a\\b", "a/b/"));
    assert!(!same_path_exec("a\\b", "a/c"));
}
