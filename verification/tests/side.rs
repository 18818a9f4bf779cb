use scut::save::Side;

#[test]
fn detect_sides() {
    let test_cases = [
        ("Allies 41", Side::Allies),
        ("Axis AB 12", Side::Axis),
        ("CD Allies 82", Side::Allies),
        ("a allies  fe123 ", Side::Allies),
        ("w 123 f axis a", Side::Axis),
    ];
    for tc in test_cases {
        let actual = Side::detect_side_in_string(tc.0).unwrap();
        assert_eq!(actual, tc.1);
    }
}

#[test]
fn sides_are_detected_regardless_of_case_and_allies_wins() {
    assert_eq!(Side::detect_side_in_string("ALLIES").unwrap(), Side::Allies);
    assert_eq!(Side::detect_side_in_string("AxIs").unwrap(), Side::Axis);
    assert_eq!(Side::detect_side_in_string("axis and allies").unwrap(), Side::Allies);
    let err = Side::detect_side_in_string("nobody").unwrap_err();
    assert_eq!(err.0, "nobody");
    let parsed: Side = "the axis".parse().unwrap();
    assert_eq!(parsed, Side::Axis);
}

#[test]
fn other_side_and_first() {
    assert_eq!(Side::Axis.other_side(), Side::Allies);
    assert_eq!(Side::Allies.other_side(), Side::Axis);
    assert_eq!(Side::first(), Side::Axis);
    assert_eq!(Side::Axis.to_string(), "Axis");
    assert_eq!(Side::Allies.to_string(), "Allies");
}

#[test]
fn unknown_sides_are_named() {
    let e = scut::save::Side::detect_side_in_string("Russia").unwrap_err();
    assert_eq!(e.to_string(), "unknown side Russia");
}
