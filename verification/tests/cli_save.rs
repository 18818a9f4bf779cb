use scut::cli::save::{SavOrArchive, Save, TurnSave};
use scut::parse::ParseSaveError;
use scut::save::Side;

#[test]
fn test_parse_save() {
    let save = "Allies 123";
    let actual: Save = save.parse().expect("should parse");
    let expected = Save::Turn(TurnSave {
        player: None,
        turn: 123,
        side: Side::Allies,
        part: None,
    });
    assert_eq!(actual, expected);

    let save = "Allies DM 123";
    let actual: Save = save.parse().expect("should parse");
    let expected = Save::Turn(TurnSave {
        player: Some("DM".into()),
        turn: 123,
        side: Side::Allies,
        part: None,
    });
    assert_eq!(actual, expected);

    let save = "Axis 123 DM";
    let actual: Save = save.parse().expect("should parse");
    let expected = Save::Turn(TurnSave {
        player: Some("DM".into()),
        turn: 123,
        side: Side::Axis,
        part: None,
    });
    assert_eq!(actual, expected);

    let save = "Axis Start 123";
    let actual: Save = save.parse().expect("should parse");
    let expected = Save::Turn(TurnSave {
        player: None,
        turn: 123,
        side: Side::Axis,
        part: None,
    });
    assert_eq!(actual, expected);

    let save = "autosave";
    let actual: Save = save.parse().expect("should parse");
    let expected = Save::Autosave;
    assert_eq!(actual, expected);

    let save = "axis";
    let actual: Result<Save, ParseSaveError> = save.parse();
    let expected = Err(ParseSaveError);
    assert_eq!(actual, expected);

    let save = "allies123";
    let actual: Save = save.parse().expect("should parse");
    let expected = Save::Turn(TurnSave {
        player: None,
        turn: 123,
        side: Side::Allies,
        part: None,
    });
    assert_eq!(actual, expected);

    let save = "123 axis dm";
    let actual: Result<Save, ParseSaveError> = save.parse();
    let expected = Err(ParseSaveError);
    assert_eq!(actual, expected);

    let save = "dm 123 axis";
    let actual: Result<Save, ParseSaveError> = save.parse();
    let expected = Err(ParseSaveError);
    assert_eq!(actual, expected);

    let save = "dm axis 123";
    let actual: Result<Save, ParseSaveError> = save.parse();
    let expected = Err(ParseSaveError);
    assert_eq!(actual, expected);

    let save = "axis 123dm";
    let actual: Save = save.parse().expect("should parse");
    let expected = Save::Turn(TurnSave {
        player: Some("dm".into()),
        turn: 123,
        side: Side::Axis,
        part: None,
    });
    assert_eq!(actual, expected);

    let save = "axis123 dm";
    let actual: Save = save.parse().expect("should parse");
    let expected = Save::Turn(TurnSave {
        player: Some("dm".into()),
        turn: 123,
        side: Side::Axis,
        part: None,
    });
    assert_eq!(actual, expected);

    let save = "Allies 123 DM part A";
    let actual: Save = save.parse().expect("should parse");
    let expected = Save::Turn(TurnSave {
        player: Some("DM".into()),
        turn: 123,
        side: Side::Allies,
        part: Some("A".into()),
    });
    assert_eq!(actual, expected);

    let save = "Allies 123 DMB";
    let actual: Save = save.parse().expect("should parse");
    let expected = Save::Turn(TurnSave {
        player: Some("DMB".into()),
        turn: 123,
        side: Side::Allies,
        part: None,
    });
    assert_eq!(actual, expected);

    let save = "Allies DM 123C";
    let actual: Save = save.parse().expect("should parse");
    let expected = Save::Turn(TurnSave {
        player: Some("DM".into()),
        turn: 123,
        side: Side::Allies,
        part: Some("C".into()),
    });
    assert_eq!(actual, expected);

    let save = "Allies DM 123 D";
    let actual: Save = save.parse().expect("should parse");
    let expected = Save::Turn(TurnSave {
        player: Some("DM".into()),
        turn: 123,
        side: Side::Allies,
        part: Some("D".into()),
    });
    assert_eq!(actual, expected);

    let save = "Allies DM Part 123 D";
    let actual: Result<Save, ParseSaveError> = save.parse();
    let expected = Err(ParseSaveError);
    assert_eq!(actual, expected);

}

#[test]
fn test_parse_save_path() {
    let save = "foo/bar/Allies 123.7z";
    let actual: Save = Save::try_from_path(save).expect("should parse");
    let expected = Save::Turn(TurnSave {
        player: None,
        turn: 123,
        side: Side::Allies,
        part: None,
    });
    assert_eq!(actual, expected);

    let save = "foo/bar/Allies DM 123.sav";
    let actual: Save = Save::try_from_path(save).expect("should parse");
    let expected = Save::Turn(TurnSave {
        player: Some("DM".into()),
        turn: 123,
        side: Side::Allies,
        part: None,
    });
    assert_eq!(actual, expected);

    let save = "foo/bar/Axis 123 DM.7z";
    let actual: Save = Save::try_from_path(save).expect("should parse");
    let expected = Save::Turn(TurnSave {
        player: Some("DM".into()),
        turn: 123,
        side: Side::Axis,
        part: None,
    });
    assert_eq!(actual, expected);

    let save = "foo/bar/Axis Start 123.7z";
    let actual: Save = Save::try_from_path(save).expect("should parse");
    let expected = Save::Turn(TurnSave {
        player: None,
        turn: 123,
        side: Side::Axis,
        part: None,
    });
    assert_eq!(actual, expected);

    let save = "foo/bar/autosave.sav";
    let actual: Save = Save::try_from_path(save).expect("should parse");
    let expected = Save::Autosave;
    assert_eq!(actual, expected);

    let save = "foo/bar/axis.sav";
    let actual: Result<Save, ParseSaveError> = Save::try_from_path(save);
    let expected = Err(ParseSaveError);
    assert_eq!(actual, expected);

    let save = "foo/bar/allies123.sav";
    let actual: Save = Save::try_from_path(save).expect("should parse");
    let expected = Save::Turn(TurnSave {
        player: None,
        turn: 123,
        side: Side::Allies,
        part: None,
    });
    assert_eq!(actual, expected);

    let save = "foo/bar/123 axis dm.sav";
    let actual: Result<Save, ParseSaveError> = Save::try_from_path(save);
    let expected = Err(ParseSaveError);
    assert_eq!(actual, expected);

    let save = "foo/bar/dm 123 axis.sav";
    let actual: Result<Save, ParseSaveError> = Save::try_from_path(save);
    let expected = Err(ParseSaveError);
    assert_eq!(actual, expected);

    let save = "foo/bar/dm axis 123.sav";
    let actual: Result<Save, ParseSaveError> = Save::try_from_path(save);
    let expected = Err(ParseSaveError);
    assert_eq!(actual, expected);

    let save = "foo/bar/axis 123dm.sav";
    let actual: Save = Save::try_from_path(save).expect("should parse");
    let expected = Save::Turn(TurnSave {
        player: Some("dm".into()),
        turn: 123,
        side: Side::Axis,
        part: None,
    });
    assert_eq!(actual, expected);

    let save = "foo/bar/axis123 dm.sav";
    let actual: Save = Save::try_from_path(save).expect("should parse");
    let expected = Save::Turn(TurnSave {
        player: Some("dm".into()),
        turn: 123,
        side: Side::Axis,
        part: None,
    });
    assert_eq!(actual, expected);

}

#[test]
fn autosave_is_recognised_in_either_case() {
    let lower: Save = "autosave".parse().expect("should parse");
    let upper: Save = "Autosave".parse().expect("should parse");
    assert!(lower.is_autosave());
    assert!(upper.is_autosave());
    let other: Result<Save, ParseSaveError> = "AUTOSAVE".parse();
    assert_eq!(other, Err(ParseSaveError));
}

#[test]
fn turn_numbers_have_at_most_four_digits() {
    let actual: Save = "Axis 12345".parse().expect("should parse");
    let expected = Save::Turn(TurnSave {
        player: None,
        turn: 1234,
        side: Side::Axis,
        part: None,
    });
    assert_eq!(actual, expected);
}

#[test]
fn next_turn_and_names_of_turn_saves() {
    let axis = TurnSave { player: Some("DM".into()), side: Side::Axis, turn: 7, part: None };
    assert_eq!(axis.to_string(), "Axis DM 7");
    let next = axis.next_turn();
    assert_eq!(next, TurnSave { player: None, side: Side::Allies, turn: 7, part: None });
    assert_eq!(next.to_string(), "Allies 7");
    let after = next.next_turn();
    assert_eq!(after, TurnSave { player: None, side: Side::Axis, turn: 8, part: None });
    let parted = TurnSave { player: Some("GM".into()), side: Side::Allies, turn: 3, part: Some("B".into()) };
    assert_eq!(parted.to_string(), "Allies GM 3B");
}

#[test]
fn extensions_of_save_formats() {
    assert_eq!(SavOrArchive::Sav.extension(), "sav");
    assert_eq!(SavOrArchive::Archive.extension(), "7z");
}
