use scut::cli::download::{plan_download, DownloadReport};
use scut::cli::files::files_in_modified_order;
use scut::cli::save::{SavOrArchive, Save, TurnSave};
use scut::cli::shared::{
    check_for_team_save, find_autosave, find_save, find_team_save, find_team_saves, find_turn_start_save,
    iter_turn_saves_in_dir,
};
use scut::cli::upload::{config_after_upload, plan_upload, UploadPlan};
use scut::config::{Config, TeamNames};
use scut::save::Side;

/// The files of the test directory: two saves, two data files, the
/// autosave and two archives.
fn test_directory() -> Vec<String> {
    [
        "testdir/Allies DM 70.sav",
        "testdir/test.dat",
        "testdir/autosave.sav",
        "testdir/test2.dat",
        "testdir/Allies DM 70.7z",
        "testdir/Axis 70.7z",
    ]
    .iter()
    .map(|s| s.to_string())
    .collect()
}

fn config(side: Side, player: &str, turn: u32) -> Config {
    Config {
        saves: "/games/saves".to_string(),
        side,
        player: player.to_string(),
        turn,
        dropbox: "/box".to_string(),
        seven_zip_path: "/usr/bin".to_string(),
        team_names: TeamNames::default(),
    }
}

#[test]
fn test_iter_turn_saves_in_dir() {
    let test_dir = test_directory();

    let mut saves = iter_turn_saves_in_dir(&test_dir, "7z").into_iter();

    assert!(
        saves.any(|(save, _)| save.turn == 70
            && save.player == Some(String::from("DM"))
            && save.side == Side::Allies),
        "Must find the archive file like 'Allies DM 70.7z'"
    );

    let mut saves = iter_turn_saves_in_dir(&test_dir, "sav").into_iter();

    assert!(
        saves.any(|(save, _)| save.turn == 70
            && save.player == Some(String::from("DM"))
            && save.side == Side::Allies),
        "Must find the save file like 'Allies DM 70.sav'"
    );

    let mut saves = iter_turn_saves_in_dir(&test_dir, "sav").into_iter();

    assert!(
        !saves.any(|(save, _)| save.turn == 999
            && save.player == Some(String::from("nobody"))
            && save.side == Side::Allies),
        "Must not find save files that don't exist"
    );
}

#[test]
fn finders_pick_saves_by_kind() {
    let dir = test_directory();
    let start = find_turn_start_save(&dir, Side::Axis, 70).unwrap();
    assert_eq!(start.1, "testdir/Axis 70.7z");
    assert_eq!(start.0, TurnSave { player: None, side: Side::Axis, turn: 70, part: None });
    assert!(find_turn_start_save(&dir, Side::Allies, 70).is_none());
    let own = find_save(&dir, Side::Allies, &"DM".to_string(), 70, SavOrArchive::Sav).unwrap();
    assert_eq!(own.1, "testdir/Allies DM 70.sav");
    assert!(find_save(&dir, Side::Allies, &"GM".to_string(), 70, SavOrArchive::Sav).is_none());
    let team = find_team_save(&dir, Side::Allies, &"GM".to_string(), 70, SavOrArchive::Archive).unwrap();
    assert_eq!(team.1, "testdir/Allies DM 70.7z");
    assert!(find_team_save(&dir, Side::Allies, &"DM".to_string(), 70, SavOrArchive::Archive).is_none());
    assert_eq!(find_team_saves(&dir, Side::Allies, &"GM".to_string(), 70, SavOrArchive::Sav).len(), 1);
    let auto = find_autosave(&dir).unwrap();
    assert_eq!(auto, (Save::Autosave, String::from("testdir/autosave.sav")));
    assert!(check_for_team_save(&config(Side::Allies, "GM", 70), &dir, 70, SavOrArchive::Sav));
    assert!(!check_for_team_save(&config(Side::Allies, "DM", 70), &dir, 70, SavOrArchive::Sav));
}

#[test]
fn download_plan_finds_start_and_team_saves() {
    let dropbox: Vec<String> = [
        "/box/Allies 7.7z",
        "/box/Allies GM 7.7z",
        "/box/Allies GM 6.7z",
        "/box/Allies TG 7.sav",
        "/box/Axis DM 7.7z",
    ]
    .iter()
    .map(|s| s.to_string())
    .collect();
    let plan = plan_download(None, &config(Side::Allies, "TG", 7), &dropbox);
    assert_eq!(plan.turn, 7);
    let start = plan.downloader.start_save.as_ref().unwrap();
    assert_eq!(start.src, "/box/Allies 7.7z");
    assert_eq!(start.dst, "/games/saves");
    assert_eq!(start.to_string(), "Allies 7");
    assert_eq!(plan.downloader.team_saves.len(), 2);
    assert_eq!(plan.downloader.team_saves[0].src, "/box/Allies GM 7.7z");
    assert_eq!(plan.downloader.team_saves[1].src, "/box/Allies GM 6.7z");
    assert_eq!(plan.report, DownloadReport::StartAndTeamParts);

    let plan = plan_download(Some(1), &config(Side::Axis, "DM", 7), &dropbox);
    assert_eq!(plan.turn, 1);
    assert_eq!(plan.report, DownloadReport::NothingOnFirstTurn);
    assert!(plan.report.is_nothing());

    let plan = plan_download(Some(8), &config(Side::Allies, "TG", 7), &dropbox);
    assert_eq!(plan.report, DownloadReport::NoStartTeamSave);
    assert!(plan.downloader.start_save.is_none());
    assert_eq!(plan.downloader.team_saves[0].src, "/box/Allies GM 7.7z");
}

#[test]
fn upload_plan_uploads_the_save_and_maybe_the_autosave() {
    let saves: Vec<String> = ["/games/saves/Axis DM 4.sav", "/games/saves/Axis DG 4.sav", "/games/saves/autosave.sav"]
        .iter()
        .map(|s| s.to_string())
        .collect();
    match plan_upload(None, false, &config(Side::Axis, "DM", 4), &saves) {
        UploadPlan::Upload { turn, uploader, teammate_found, forced } => {
            assert_eq!(turn, 4);
            assert!(teammate_found);
            assert!(!forced);
            assert_eq!(uploader.your_save.src, "/games/saves/Axis DM 4.sav");
            assert_eq!(uploader.your_save.dst, "/box/Axis DM 4.7z");
            let next = uploader.next_save.unwrap();
            assert_eq!(next.src, "/games/saves/autosave.sav");
            assert_eq!(next.dst, "/box/Allies 4.7z");
        }
        other => panic!("unexpected {other:?}"),
    }
    let alone: Vec<String> = vec!["/games/saves/Allies GM 4.sav".to_string(), "/games/saves/autosave.sav".to_string()];
    match plan_upload(None, false, &config(Side::Allies, "GM", 4), &alone) {
        UploadPlan::Upload { uploader, teammate_found, .. } => {
            assert!(!teammate_found);
            assert!(uploader.next_save.is_none());
        }
        other => panic!("unexpected {other:?}"),
    }
    match plan_upload(None, true, &config(Side::Allies, "GM", 4), &alone) {
        UploadPlan::Upload { uploader, forced, .. } => {
            assert!(forced);
            assert_eq!(uploader.next_save.unwrap().dst, "/box/Axis 5.7z");
        }
        other => panic!("unexpected {other:?}"),
    }
    match plan_upload(Some(9), false, &config(Side::Allies, "GM", 4), &alone) {
        UploadPlan::SaveMissing { turn } => assert_eq!(turn, 9),
        other => panic!("unexpected {other:?}"),
    }
    let updated = config_after_upload(config(Side::Axis, "DM", 4), 4).unwrap();
    assert_eq!(updated.turn, 5);
    let from_config = TurnSave::from_config(&config(Side::Axis, "DM", 4));
    assert_eq!(from_config, TurnSave { player: Some("DM".to_string()), side: Side::Axis, turn: 4, part: None });
}

#[test]
fn files_are_ordered_newest_first() {
    let listing = vec![
        ("/saves/Axis DM 1.sav".to_string(), 10),
        ("/saves/notes.txt".to_string(), 50),
        ("/saves/Allies 1.sav".to_string(), 30),
        ("/saves/Axis 2.sav".to_string(), 10),
        ("/saves/old.sav".to_string(), -5),
        ("/saves/sav".to_string(), 99),
    ];
    assert_eq!(
        files_in_modified_order(&listing, "sav"),
        vec![
            "/saves/Allies 1.sav".to_string(),
            "/saves/Axis DM 1.sav".to_string(),
            "/saves/Axis 2.sav".to_string(),
            "/saves/old.sav".to_string(),
        ]
    );
    assert!(files_in_modified_order(&listing, "7z").is_empty());
    assert!(files_in_modified_order(&Vec::new(), "sav").is_empty());
}

#[test]
fn upload_plan_on_the_last_turn() {
    let none: Vec<String> = vec!["/games/saves/autosave.sav".to_string()];
    assert!(matches!(
        plan_upload(Some(u32::MAX), true, &config(Side::Allies, "GM", 1), &none),
        UploadPlan::SaveMissing { turn: u32::MAX }
    ));
}
