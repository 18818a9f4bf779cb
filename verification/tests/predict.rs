use scut::predict::{AutosavePrediction, AutosavePredictionReason, Predict, SimplePredict};
use scut::save::{Save, Side};
use scut::storage::mock_index_storage::MockIndexStorage;
use scut::storage::StorageError;
use scut::turn::Turn;

fn remote_saves() -> Vec<Save> {
    vec![
        Save::new(Side::Axis, 1),
        Save::new(Side::Axis, 1).player("DM"),
        Save::new(Side::Axis, 1).player("DG"),
        Save::new(Side::Axis, 2),
        Save::new(Side::Allies, 1),
        Save::new(Side::Allies, 1).player("GM"),
        Save::new(Side::Allies, 1).player("TG"),
    ]
}

#[test]
fn simple_predict_works() -> Result<(), StorageError> {
    let predict = SimplePredict;

    let mut remote_storage = MockIndexStorage::new(true, remote_saves());

    let mut local_storage = MockIndexStorage::new(
        true,
        vec![
            Save::new(Side::Axis, 1),
            Save::new(Side::Axis, 1).player("DG"),
        ],
    );

    let turn_detail = predict.predict_turn_detail(
        Side::Axis,
        "DM".into(),
        &mut local_storage,
        &mut remote_storage,
    )?;

    assert_eq!(
        predict.predict_downloads(&turn_detail, &mut local_storage, &mut remote_storage)?,
        vec![
            Save::new(Side::Axis, 1).player("DM"),
            Save::new(Side::Axis, 2),
        ]
    );

    Ok(())
}

#[test]
fn turn_detail_is_read_from_remote_storage() -> Result<(), StorageError> {
    let predict = SimplePredict;
    let mut remote = MockIndexStorage::new(true, remote_saves());
    let mut local = MockIndexStorage::new(true, vec![]);
    let detail = predict.predict_turn_detail(Side::Axis, "DM", &mut local, &mut remote)?;
    assert_eq!(detail.your_turn, Turn::new(Side::Axis, 1));
    assert_eq!(detail.teammate_turn, Turn::new(Side::Axis, 1));
    assert_eq!(detail.next_friendly_turn, Turn::new(Side::Axis, 2));
    assert_eq!(detail.next_enemy_turn, Turn::new(Side::Allies, 2));

    let mut empty = MockIndexStorage::new(false, vec![]);
    let detail = predict.predict_turn_detail(Side::Allies, "GM", &mut local, &mut empty)?;
    assert_eq!(detail.your_turn, Turn::new(Side::Allies, 0));
    assert_eq!(detail.next_friendly_turn, Turn::new(Side::Allies, 1));
    assert_eq!(detail.next_enemy_turn, Turn::new(Side::Axis, 2));
    Ok(())
}

#[test]
fn prediction_of_uploads_downloads_and_autosave() -> Result<(), StorageError> {
    let predict = SimplePredict;
    let mut remote = MockIndexStorage::new(true, remote_saves());
    let mut local = MockIndexStorage::new(
        true,
        vec![
            Save::new(Side::Axis, 1).player("DM"),
            Save::new(Side::Axis, 1).player("DG"),
            Save::new(Side::Axis, 2),
            Save::new(Side::Axis, 2).player("DM"),
        ],
    );
    let prediction = predict.predict(Side::Axis, "DM", &mut local, &mut remote)?;
    assert_eq!(prediction.downloads, vec![]);
    assert_eq!(prediction.uploads, vec![Save::new(Side::Axis, 2).player("DM")]);
    assert_eq!(prediction.autosave, AutosavePrediction::Ready(Save::new(Side::Allies, 2)));

    let mut no_autosave = MockIndexStorage::new(false, vec![]);
    let prediction = predict.predict(Side::Axis, "DM", &mut no_autosave, &mut remote)?;
    assert_eq!(
        prediction.autosave,
        AutosavePrediction::NotReady(Save::new(Side::Allies, 2), AutosavePredictionReason::AutosaveNotAvailable)
    );
    Ok(())
}
