use std::cmp::Ordering;

use scut::save::{Save, SaveOrAutosave, Side};

#[test]
fn saves_are_named() {
    assert_eq!(Save::new(Side::Axis, 12).player("DM").to_string(), "Axis DM 12");
    assert_eq!(Save::new(Side::Allies, 3).player("GM").part("B").to_string(), "Allies GM 3B");
    assert_eq!(Save::new(Side::Allies, 3).part("B").to_string(), "Allies 3");
    assert_eq!(SaveOrAutosave::autosave().to_string(), "autosave");
    assert_eq!(SaveOrAutosave::save(Save::new(Side::Axis, 1)).to_string(), "Axis 1");
}

#[test]
fn next_turn_start_saves() {
    assert_eq!(Save::new(Side::Axis, 4).player("DM").next_turn(), Save::new(Side::Allies, 4));
    assert_eq!(Save::new(Side::Allies, 4).part("A").next_turn(), Save::new(Side::Axis, 5));
}

#[test]
fn saves_are_ordered_by_side_turn_then_part() {
    let a = Save::new(Side::Axis, 9);
    let b = Save::new(Side::Allies, 1);
    assert_eq!(a.compare(&b), Ordering::Less);
    assert_eq!(b.compare(&a), Ordering::Greater);
    assert_eq!(Save::new(Side::Axis, 1).compare(&Save::new(Side::Axis, 2)), Ordering::Less);
    let pa = Save::new(Side::Axis, 1).player("DM").part("A");
    let pb = Save::new(Side::Axis, 1).player("DG").part("B");
    let none = Save::new(Side::Axis, 1).player("XX");
    assert_eq!(pa.compare(&pb), Ordering::Less);
    assert_eq!(none.compare(&pa), Ordering::Greater);
    assert_eq!(pa.compare(&none), Ordering::Less);
    assert_eq!(none.compare(&Save::new(Side::Axis, 1)), Ordering::Equal);
    assert_eq!(
        Save::new(Side::Axis, 1).part("AB").compare(&Save::new(Side::Axis, 1).part("A")),
        Ordering::Greater
    );
}

#[test]
fn saves_with_or_without_autosave() {
    let mut s = SaveOrAutosave::save(Save::new(Side::Axis, 1));
    if let Some(save) = s.to_mut() {
        save.turn.number = 2;
    }
    assert_eq!(s.borrow(), Some(&Save::new(Side::Axis, 2)));
    assert_eq!(s.into_save(), Some(Save::new(Side::Axis, 2)));
    assert!(SaveOrAutosave::autosave().borrow().is_none());
}

#[test]
fn save_order_is_total() {
    let a = Save::new(Side::Axis, 2).part("A");
    let b = Save::new(Side::Axis, 2).part("B");
    let c = Save::new(Side::Axis, 2);
    assert_eq!(a.compare(&b), Ordering::Less);
    assert_eq!(b.compare(&c), Ordering::Less);
    assert_eq!(a.compare(&c), Ordering::Less);
    assert_eq!(c.compare(&a), Ordering::Greater);
    assert_eq!(a.compare(&a.clone().player("DM")), Ordering::Equal);
    assert_ne!(a.compare(&Save::new(Side::Allies, 2).part("A")), Ordering::Equal);
}
