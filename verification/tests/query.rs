use scut::index::{Index, MockIndex};
use scut::query::Query;
use scut::save::{Save, Side};
use scut::turn::Turn;

fn five_saves() -> [Save; 5] {
    [
        Save::new(Side::Allies, 1),
        Save::new(Side::Axis, 2),
        Save::new(Side::Allies, 3).player("A"),
        Save::new(Side::Axis, 4).player("B"),
        Save::new(Side::Allies, 5).player("A").part("1"),
    ]
}

#[test]
fn query_works() {
    let saves = &five_saves();
    let mock_index = MockIndex::new(saves);

    for (query, expected_count) in &[
        (Query::new(), 5),
        (Query::new().side(Side::Allies), 3),
        (Query::new().side(Side::Allies).player(Some("A")), 2),
        (Query::new().side(Side::Allies).player(Some("B")), 0),
        (Query::new().side(Side::Axis).player(Some("A")), 0),
        (Query::new().side(Side::Axis).player(Some("B")), 1),
        (Query::new().side(Side::Axis).player(None), 1),
        (Query::new().part(None), 4),
        (Query::new().part(Some("1")), 1),
        (Query::new().turn_number(4), 1),
        (Query::new().turn_number_in_range(Some(2), Some(3)), 2),
        (Query::new().turn_number_in_range(None, Some(4)), 4),
        (Query::new().turn_number_in_range(Some(4), None), 2),
        (Query::new().turn_number_in_range(None, None), 5),
    ] {
        assert_eq!(
            mock_index.search(query).len(),
            *expected_count,
            "query {query:?} had wrong count {expected_count}"
        );
    }
}

#[test]
fn not_queries_work() {
    let saves = &five_saves();
    let mock_index = MockIndex::new(saves);

    for (idx, (query, expected_count)) in [
        (Query::new().not_side(Side::Allies), 2),
        (Query::new().not_side(Side::Allies).player(Some("A")), 0),
        (Query::new().not_side(Side::Allies).player(Some("B")), 1),
        (Query::new().not_side(Side::Axis).player(Some("A")), 2),
        (Query::new().not_side(Side::Axis).player(Some("B")), 0),
        (Query::new().not_side(Side::Axis).player(None), 1),
        (Query::new().not_side(Side::Allies).not_player(Some("A")), 2),
        (Query::new().not_side(Side::Allies).not_player(Some("B")), 1),
        (Query::new().not_side(Side::Axis).not_player(Some("A")), 1),
        (Query::new().not_side(Side::Axis).not_player(Some("B")), 3),
        (Query::new().not_side(Side::Axis).not_player(None), 2),
        (Query::new().side(Side::Allies).not_player(Some("A")), 1),
        (Query::new().side(Side::Allies).not_player(Some("B")), 3),
        (Query::new().side(Side::Axis).not_player(Some("A")), 2),
        (Query::new().side(Side::Axis).not_player(Some("B")), 1),
        (Query::new().side(Side::Axis).not_player(None), 1),
        (Query::new().not_part(None), 1),
        (Query::new().not_part(Some("1")), 4),
        (Query::new().not_turn_number(4), 4),
        (Query::new().turn_number_not_in_range(Some(2), Some(3)), 3),
        (Query::new().turn_number_not_in_range(None, Some(4)), 1),
        (Query::new().turn_number_not_in_range(Some(4), None), 3),
        (Query::new().turn_number_not_in_range(None, None), 0),
    ]
    .iter()
    .enumerate()
    {
        assert_eq!(
            mock_index.search(query).len(),
            *expected_count,
            "test {idx}: query {query:?} had wrong count {expected_count}"
        );
    }
}

#[test]
fn compound_queries_work() {
    let saves = &five_saves();
    let mock_index = MockIndex::new(saves);

    for (idx, (query, expected_count)) in [
        (Query::new().side(Side::Allies).or_turn_number(2), 4),
        (
            Query::new()
                .side(Side::Allies)
                .player(Some("A"))
                .or_side(Side::Axis)
                .or_player(Some("B")),
            3,
        ),
        (
            Query::new()
                .side(Side::Allies)
                .player(None)
                .turn_number(1)
                .or_side(Side::Allies)
                .or_not_player(None)
                .or_turn_number_in_range(Some(4), Some(5)),
            2,
        ),
        (
            Query::new()
                .not_player(None)
                .not_turn_number(3)
                .and_not_player(Some("A"))
                .and_turn_number_in_range(Some(4), Some(5)),
            1,
        ),
        (
            Query::new()
                .not_player(None)
                .turn_number(3)
                .or_not_player(Some("A"))
                .or_turn_number_not_in_range(Some(4), Some(5)),
            3,
        ),
        (
            Query::new()
                .player(Some("A"))
                .turn_number_in_range(None, Some(1))
                .or_player(Some("B"))
                .or_turn_number_not_in_range(Some(4), Some(5)),
            0,
        ),
        (
            Query::new()
                .player(None)
                .turn_number_in_range(None, Some(1))
                .or_player(Some("A"))
                .or_turn_number_not_in_range(Some(4), Some(5)),
            2,
        ),
    ]
    .iter()
    .enumerate()
    {
        assert_eq!(
            mock_index.search(query).len(),
            *expected_count,
            "test {idx}: query {query:?} had wrong count {expected_count}"
        );
    }
}

#[test]
fn test_query_in_specific_scenario() {
    let saves = &[
        Save::new(Side::Axis, 1),
        Save::new(Side::Axis, 1).player("DM"),
        Save::new(Side::Axis, 1).player("DG"),
        Save::new(Side::Axis, 2),
        Save::new(Side::Allies, 1),
        Save::new(Side::Allies, 1).player("GM"),
        Save::new(Side::Allies, 1).player("TG"),
    ];

    let mock_index = MockIndex::new(saves);
    let query = Query::new()
        .side(Side::Axis)
        .not_player(None)
        .turn_number_in_range(Some(1_u32.saturating_sub(1_u32)), None)
        .or_side(Side::Axis)
        .or_player(None)
        .or_turn_number(1);

    assert_eq!(
        mock_index.search(&query),
        vec![
            Save::new(Side::Axis, 1),
            Save::new(Side::Axis, 1).player("DM"),
            Save::new(Side::Axis, 1).player("DG"),
        ]
    );

    let query = Query::new()
        .side(Side::Axis)
        .not_player(None)
        .turn_number_in_range(Some(2_u32.saturating_sub(1_u32)), None)
        .or_side(Side::Axis)
        .or_player(None)
        .or_turn_number(2);

    assert_eq!(
        mock_index.search(&query),
        vec![
            Save::new(Side::Axis, 1).player("DM"),
            Save::new(Side::Axis, 1).player("DG"),
            Save::new(Side::Axis, 2),
        ]
    );
}

#[test]
fn test_query_by_turn() {
    let saves = &five_saves();
    let mock_index = MockIndex::new(saves);

    for (idx, (query, expected_count)) in [
        (Query::new().turn(Turn::new(Side::Allies, 3)), 1),
        (Query::new().turn(Turn::new(Side::Allies, 4)), 0),
        (Query::new().turn(Turn::new(Side::Axis, 4)), 1),
        (Query::new().not_turn(Turn::new(Side::Axis, 2)), 4),
        (Query::new().not_turn(Turn::new(Side::Allies, 2)), 5),
    ]
    .iter()
    .enumerate()
    {
        assert_eq!(
            mock_index.count(query),
            *expected_count,
            "test {idx}: query {query:?} had wrong count {expected_count}"
        );
    }
}

#[test]
fn new_works() {
    let saves = &[Save::new(Side::Allies, 1)];
    let _ = MockIndex::new(saves);
}

#[test]
fn turn_comparison() {
    let axis_45 = Turn::new(Side::Axis, 45);
    let allies_45 = Turn::new(Side::Allies, 45);
    let axis_46 = Turn::new(Side::Axis, 46);
    let _allies_46 = Turn::new(Side::Allies, 46);

    assert!(allies_45 > axis_45);
    assert!(allies_45 < axis_46);
    assert_eq!(allies_45, allies_45);
}

#[test]
fn turn_next() {
    let axis_45 = Turn::new(Side::Axis, 45);
    let allies_45 = Turn::new(Side::Allies, 45);
    let axis_46 = Turn::new(Side::Axis, 46);
    let _allies_46 = Turn::new(Side::Allies, 46);

    assert!(allies_45.next() > axis_45);
    assert_eq!(allies_45.next(), axis_46);
    assert_eq!(axis_45.next(), allies_45);
}

#[test]
fn min_and_max_turn_stay_on_one_side() {
    let saves = &five_saves();
    let mock_index = MockIndex::new(saves);

    for (idx, (query, expected_count)) in [
        (Query::new().min_turn(Turn::new(Side::Axis, 1)), 2),
        (Query::new().min_turn(Turn::new(Side::Allies, 3)), 2),
        (Query::new().min_turn(Turn::new(Side::Axis, 3)), 1),
        (Query::new().max_turn(Turn::new(Side::Allies, 1)), 1),
        (Query::new().max_turn(Turn::new(Side::Axis, 3)), 1),
        (Query::new().max_turn(Turn::new(Side::Allies, 5)), 3),
        (Query::new().not_min_turn(Turn::new(Side::Axis, 4)), 4),
    ]
    .iter()
    .enumerate()
    {
        assert_eq!(mock_index.count(query), *expected_count, "test {idx}: query {query:?}");
    }
    assert!(Save::new(Side::Allies, 1).matches(&Query::new().min_turn(Turn::new(Side::Axis, 1))) == false);
    assert!(Save::new(Side::Axis, 1).matches(&Query::new().max_turn(Turn::new(Side::Allies, 1))) == false);
}

#[test]
fn queries_are_cloned_and_compared() {
    let q = Query::new().side(Side::Axis).or_player(None).or(Query::new().turn_number(3));
    assert_eq!(q.clone(), q);
    assert_ne!(Query::new().side(Side::Axis), Query::new().side(Side::Allies));
}
