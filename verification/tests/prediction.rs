use scut::prediction::{Prediction, SimplePrediction};
use scut::save::{Save, Side};
use scut::storage::mock_index_storage::MockIndexStorage;
use scut::storage::StorageError;

#[test]
fn simple_prediction_works() -> Result<(), StorageError> {
    let prediction = SimplePrediction;

    let mut remote_storage = MockIndexStorage::new(
        true,
        vec![
            Save::new(Side::Axis, 1),
            Save::new(Side::Axis, 1).player("DM"),
            Save::new(Side::Axis, 1).player("DG"),
            Save::new(Side::Axis, 2),
            Save::new(Side::Allies, 1),
            Save::new(Side::Allies, 1).player("GM"),
            Save::new(Side::Allies, 1).player("TG"),
        ],
    );

    let mut local_storage = MockIndexStorage::new(
        true,
        vec![
            Save::new(Side::Axis, 1),
            Save::new(Side::Axis, 1).player("DG"),
        ],
    );

    assert_eq!(
        prediction.predict_downloads(
            prediction
                .predict_turn(Side::Axis, "DG", &mut local_storage, &mut remote_storage)?
                .unwrap(),
            Side::Axis,
            "DG",
            &mut local_storage,
            &mut remote_storage
        )?,
        vec![
            Save::new(Side::Axis, 1).player("DM"),
            Save::new(Side::Axis, 2),
        ]
    );

    Ok(())
}

#[test]
fn predicted_turn_defaults_to_the_first_turn_of_the_side() -> Result<(), StorageError> {
    let prediction = SimplePrediction;
    let mut remote = MockIndexStorage::new(false, vec![Save::new(Side::Axis, 3).player("DM")]);
    let mut local = MockIndexStorage::new(false, vec![]);
    assert_eq!(prediction.predict_turn(Side::Axis, "XX", &mut local, &mut remote)?, Some(1));
    assert_eq!(prediction.predict_turn(Side::Allies, "XX", &mut local, &mut remote)?, Some(0));
    assert_eq!(prediction.predict_turn(Side::Axis, "DM", &mut local, &mut remote)?, Some(3));
    Ok(())
}

#[test]
fn uploads_are_local_saves_missing_remotely() -> Result<(), StorageError> {
    let prediction = SimplePrediction;
    let mut remote = MockIndexStorage::new(false, vec![Save::new(Side::Axis, 2).player("DM")]);
    let mut local = MockIndexStorage::new(
        false,
        vec![
            Save::new(Side::Axis, 1).player("DM"),
            Save::new(Side::Axis, 2).player("DM"),
            Save::new(Side::Axis, 2).player("DM").part("B"),
            Save::new(Side::Allies, 2),
        ],
    );
    assert_eq!(
        prediction.predict_uploads(2, Side::Axis, "DM", &mut local, &mut remote)?,
        vec![Save::new(Side::Axis, 2).player("DM").part("B")]
    );
    Ok(())
}

#[test]
fn autosave_is_ready_only_when_nothing_is_pending() -> Result<(), StorageError> {
    let prediction = SimplePrediction;
    let mut remote = MockIndexStorage::new(false, vec![Save::new(Side::Axis, 2).player("DM")]);
    let mut local = MockIndexStorage::new(true, vec![Save::new(Side::Axis, 2).player("DM")]);
    assert_eq!(
        prediction.predict_autosave(2, Side::Axis, "DM", &mut local, &mut remote)?,
        (Save::new(Side::Allies, 2), Some(true))
    );
    let mut no_autosave = MockIndexStorage::new(false, vec![Save::new(Side::Axis, 2).player("DM")]);
    assert_eq!(
        prediction.predict_autosave(2, Side::Axis, "DM", &mut no_autosave, &mut remote)?,
        (Save::new(Side::Allies, 2), Some(false))
    );
    let mut uploaded = MockIndexStorage::new(false, vec![Save::new(Side::Allies, 2)]);
    assert_eq!(
        prediction.predict_autosave(2, Side::Axis, "DM", &mut local, &mut uploaded)?,
        (Save::new(Side::Allies, 2), Some(false))
    );
    let mut pending = MockIndexStorage::new(false, vec![Save::new(Side::Axis, 2).player("DG")]);
    assert_eq!(
        prediction.predict_autosave(2, Side::Axis, "DM", &mut local, &mut pending)?,
        (Save::new(Side::Allies, 2), Some(false))
    );
    assert_eq!(
        prediction.predict_autosave(4, Side::Allies, "GM", &mut local, &mut remote)?,
        (Save::new(Side::Axis, 5), Some(true))
    );
    Ok(())
}
