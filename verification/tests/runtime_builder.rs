//! Tests of the runtime-checked builder: exactly one selection per group,
//! completion only when every group is resolved, and the combined value as
//! the sum of the selections.

use bitflag::builder::{BuildError, FlagBuilder};

#[test]
fn fresh_builder_has_no_selections() {
    let b = FlagBuilder::new(3);
    assert_eq!(b.len(), 3);
    assert_eq!(b.build().unwrap_err(), BuildError::MissingSelection(0));
}

#[test]
fn second_selection_in_a_group_is_rejected() {
    let b = FlagBuilder::new(2).select(0, 1).unwrap();
    // Re-selecting the same flag and selecting a sibling flag are equally
    // impossible: the slot is taken.
    let b = match b.select(0, 1) {
        Err(BuildError::SlotAlreadyResolved(0)) => FlagBuilder::new(2).select(0, 1).unwrap(),
        other => panic!("expected SlotAlreadyResolved, got {:?}", other.map(|_| ())),
    };
    assert_eq!(b.select(0, 5).unwrap_err(), BuildError::SlotAlreadyResolved(0));
}

#[test]
fn completion_requires_every_group() {
    let b = FlagBuilder::new(3).select(1, 4).unwrap();
    assert_eq!(b.build().unwrap_err(), BuildError::MissingSelection(0));
    let b = FlagBuilder::new(3).select(0, 1).unwrap().select(1, 4).unwrap();
    assert_eq!(b.build().unwrap_err(), BuildError::MissingSelection(2));
    let b = FlagBuilder::new(3)
        .select(0, 1)
        .unwrap()
        .select(1, 4)
        .unwrap()
        .select(2, 32)
        .unwrap();
    assert_eq!(b.build().unwrap(), 37);
}

#[test]
fn combined_value_is_the_sum_in_any_order() {
    let forward = FlagBuilder::new(3)
        .select(0, 10)
        .unwrap()
        .select(1, 20)
        .unwrap()
        .select(2, 30)
        .unwrap()
        .build()
        .unwrap();
    let backward = FlagBuilder::new(3)
        .select(2, 30)
        .unwrap()
        .select(1, 20)
        .unwrap()
        .select(0, 10)
        .unwrap()
        .build()
        .unwrap();
    assert_eq!(forward, 10 + 20 + 30);
    assert_eq!(forward, backward);
}

#[test]
fn combination_wraps_at_the_carrier_width() {
    let value = FlagBuilder::new(2)
        .select(0, u64::MAX)
        .unwrap()
        .select(1, 3)
        .unwrap()
        .build()
        .unwrap();
    assert_eq!(value, 2);
}
