use patchgl::id::{Angle, SubIds};
use std::collections::HashSet;

#[test]
fn id_emits_n_sub_ids() {
    let id = 34u64;
    let sub_ids = id.sub_ids(Angle::A, 12);
    assert_eq!(12, sub_ids.len())
}

#[test]
fn id_emits_n_different_sub_ids() {
    let id = 34u64;
    let sub_ids = id.sub_ids(Angle::A, 12);

    let mut ids = HashSet::new();
    ids.insert(id);
    ids.extend(&sub_ids);
    assert_eq!(13, ids.len());
}

#[test]
fn sub_ids_with_lower_n_is_subset_of_sub_ids_with_higher_n() {
    let id = 34u64;
    let sub_ids_12 = id.sub_ids(Angle::A, 12);
    let sub_ids_24 = id.sub_ids(Angle::A, 24);
    assert_eq!(sub_ids_12[..], sub_ids_24[0..12]);
}

#[test]
fn sub_ids_from_different_angles_have_different_values() {
    let id = 35u64;
    let sub_ids_a = id.sub_ids(Angle::A, 1);
    let sub_ids_b = id.sub_ids(Angle::B, 1);
    assert_ne!(sub_ids_a, sub_ids_b);
}

#[test]
fn sub_ids_from_different_ids_have_different_values() {
    let id1 = 34u64;
    let id2 = 35u64;
    let sub_ids_1 = id1.sub_ids(Angle::A, 1);
    let sub_ids_2 = id2.sub_ids(Angle::A, 1);
    assert_ne!(sub_ids_1, sub_ids_2);
}

#[test]
fn angles_mix_their_numbers_into_the_seed() {
    assert_eq!(11u64, u64::from(Angle::A));
    assert_eq!(13u64, u64::from(Angle::B));
    assert!(34u64.sub_ids(Angle::B, 0).is_empty());
    assert_eq!(34u64.sub_ids(Angle::B, 3), 34u64.sub_ids(Angle::B, 3));
}
