use patchgl::base::sdf::{SignedDistanceField, SDF_SIZE};

#[test]
fn sdf_gets_and_puts_distance() {
    let mut sdf = SignedDistanceField::new(0u8);
    sdf.put_distance(0, 1, 34);
    assert_eq!(34, sdf.get_distance(0, 1))
}

#[test]
fn sdf_computes_column_index() {
    assert_eq!(1, SignedDistanceField::get_index(1, 0));
}

#[test]
fn sdf_computes_row_index() {
    let index = SignedDistanceField::get_index(0, 1);
    assert_eq!(SDF_SIZE, index)
}

#[test]
fn sdf_new_fills_every_cell() {
    let far = SignedDistanceField::new_far();
    let near = SignedDistanceField::new_near();
    for row in 0..SDF_SIZE {
        for column in 0..SDF_SIZE {
            assert_eq!(255, far.get_distance(column, row));
            assert_eq!(0, near.get_distance(column, row));
        }
    }
}

#[test]
fn sdf_put_leaves_other_cells() {
    let mut sdf = SignedDistanceField::new(7u8);
    sdf.put_distance(63, 63, 200);
    assert_eq!(200, sdf.get_distance(63, 63));
    assert_eq!(7, sdf.get_distance(62, 63));
    assert_eq!(7, sdf.get_distance(63, 62));
    assert_eq!(4095, SignedDistanceField::get_index(63, 63));
}
