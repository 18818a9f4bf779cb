use scut::config::{normalise, Config, ConfigError, Key, Setting, TeamNames};
use scut::save::Side;

fn sample_config() -> Config {
    Config {
        saves: "/home/me/saves".to_string(),
        side: Side::Axis,
        player: "DM".to_string(),
        turn: 3,
        dropbox: "/home/me/Dropbox".to_string(),
        seven_zip_path: "/usr/bin".to_string(),
        team_names: TeamNames::default(),
    }
}

#[test]
fn keys_are_read_by_name_and_alias_in_any_case() {
    let cases = [
        ("dropbox", Key::Dropbox),
        ("DropBox", Key::Dropbox),
        ("save", Key::Saves),
        ("SAVES", Key::Saves),
        ("7z path", Key::SevenZipPath),
        ("Seven-Zip-Path", Key::SevenZipPath),
        ("sevenzip path", Key::SevenZipPath),
        ("team", Key::Side),
        ("name", Key::Player),
        ("Turn", Key::Turn),
    ];
    for (text, key) in cases {
        let parsed: Key = text.parse().unwrap();
        assert_eq!(parsed, key, "{text}");
    }
    let bad: Result<Key, ConfigError> = "colour".parse();
    assert_eq!(bad, Err(ConfigError::InvalidKey("colour".to_string())));
    let bad: Result<Key, ConfigError> = " Turn".parse();
    assert_eq!(bad, Err(ConfigError::InvalidKey(" turn".to_string())));
}

#[test]
fn key_names_read_back() {
    for key in [Key::Dropbox, Key::Saves, Key::SevenZipPath, Key::Side, Key::Player, Key::Turn] {
        let name = key.to_string();
        let parsed: Key = name.parse().unwrap();
        assert_eq!(parsed, key);
    }
    assert_eq!(Key::SevenZipPath.to_string(), "seven_zip_path");
}

#[test]
fn settings_are_made_from_text() {
    assert!(matches!(Setting::new(Key::Turn, "42".to_string()), Ok(Setting::Turn(42))));
    assert!(matches!(Setting::new(Key::Turn, "+7".to_string()), Ok(Setting::Turn(7))));
    assert!(matches!(Setting::new(Key::Turn, "4294967295".to_string()), Ok(Setting::Turn(4294967295))));
    assert!(matches!(Setting::new(Key::Turn, "4294967296".to_string()), Err(ConfigError::InvalidTurnNumber)));
    assert!(matches!(Setting::new(Key::Turn, "-1".to_string()), Err(ConfigError::InvalidTurnNumber)));
    assert!(matches!(Setting::new(Key::Turn, " 1".to_string()), Err(ConfigError::InvalidTurnNumber)));
    assert!(matches!(Setting::new(Key::Turn, "".to_string()), Err(ConfigError::InvalidTurnNumber)));
    assert!(matches!(Setting::new(Key::Side, "the Allies".to_string()), Ok(Setting::Side(Side::Allies))));
    assert_eq!(Setting::new(Key::Side, "Russia".to_string()).unwrap_err(), ConfigError::UnknownSide("Russia".to_string()));
    assert_eq!(Setting::new(Key::Turn, "twelve".to_string()).unwrap_err().to_string(), "invalid turn number");
    match Setting::new(Key::Player, "GM".to_string()) {
        Ok(Setting::Player(p)) => assert_eq!(p, "GM"),
        other => panic!("unexpected {other:?}"),
    }
    assert_eq!(Setting::Turn(12).to_string(), "12");
    assert_eq!(Setting::Side(Side::Allies).to_string(), "Allies");
    assert_eq!(Setting::Dropbox("/x/y".to_string()).to_string(), "/x/y");
}

#[test]
fn set_then_get_reads_back_the_value() {
    let config = sample_config();
    let config = config.set(Key::Turn, Setting::Turn(9)).unwrap();
    assert!(matches!(config.get(Key::Turn), Setting::Turn(9)));
    assert_eq!(config.player, "DM");
    let config = config.set(Key::Player, Setting::Player("GM".to_string())).unwrap();
    assert_eq!(config.get(Key::Player).to_string(), "GM");
    assert!(matches!(config.get(Key::Side), Setting::Side(Side::Axis)));
    assert_eq!(config.turn, 9);
}

#[test]
fn set_refuses_a_value_for_another_setting() {
    let config = sample_config();
    let result = config.set(Key::Turn, Setting::Player("GM".to_string()));
    assert_eq!(result.unwrap_err(), ConfigError::InvalidSetting(Key::Turn));
}

#[test]
fn normalise_trims_quotes_spaces_and_backslashes() {
    assert_eq!(normalise("'C:\\Program Files\\7-Zip\\'".to_string()), "C:\\Program Files\\7-Zip");
    assert_eq!(normalise("  \"DM\" ".to_string()), "DM");
    assert_eq!(normalise("a b".to_string()), "a b");
    assert_eq!(normalise("' \"\\".to_string()), "");
    assert_eq!(normalise("".to_string()), "");
    assert_eq!(normalise("x".to_string()), "x");
}

#[test]
fn default_team_names() {
    let names = TeamNames::default();
    assert_eq!(names.axis, "Axis");
    assert_eq!(names.allies, "Allies");
    let names = TeamNames::new(("Red".to_string(), "Blue".to_string()));
    assert_eq!(names.axis, "Red");
    assert_eq!(names.allies, "Blue");
}

#[test]
fn default_config_for_a_new_user() {
    let config = scut::config::default_config(
        "/home/me/Dropbox".to_string(),
        "/home/me",
        Side::Allies,
        "GM".to_string(),
        0,
    );
    assert_eq!(
        config.saves,
        "/home/me/Documents\\My Games\\Strategic Command WWII - World at War\\Multiplayer\\Hotseat"
    );
    assert_eq!(config.seven_zip_path, "C:\\Program Files\\7-Zip\\");
    assert_eq!(config.dropbox, "/home/me/Dropbox");
    assert_eq!(config.team_names.axis, "Axis");
}

#[test]
fn config_commands_get_and_set() {
    let config = sample_config();
    assert_eq!(scut::config::config_get_text(&config, Key::Turn), "3");
    assert_eq!(scut::config::config_get_text(&config, Key::Side), "Axis");
    let config = scut::config::config_set(config, Key::Turn, "'12'".to_string()).unwrap();
    assert_eq!(config.turn, 12);
    let config = scut::config::config_set(config, Key::Dropbox, "\"/new box\\\"".to_string()).unwrap();
    assert_eq!(config.dropbox, "/new box");
    assert!(matches!(
        scut::config::config_set(config, Key::Side, "nobody".to_string()),
        Err(ConfigError::UnknownSide(_))
    ));
}

#[test]
fn config_errors_are_described() {
    assert_eq!(ConfigError::InvalidKey("colour".to_string()).to_string(), "invalid key: colour");
    assert_eq!(ConfigError::InvalidSetting(Key::Turn).to_string(), "invalid setting for key turn");
    assert_eq!(ConfigError::InvalidTurnNumber.to_string(), "invalid turn number");
    assert_eq!(ConfigError::UnknownSide("Russia".to_string()).to_string(), "unknown side Russia");
}
