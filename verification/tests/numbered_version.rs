use patchgl::flood::numbered::Version;

#[test]
fn bump_increments_number_changes_value() {
    let version = Version::from(33);
    let new_version = version.bump(27);
    assert_eq!((1, 27), new_version.into());
}

#[test]
fn bumped_is_greater() {
    let version = Version::from(33);
    let bumped = version.bump(27);
    assert!(bumped > version);
}

#[test]
fn version_is_greater_than_none() {
    let version = Version::from(33);
    assert!(version > None);
}

#[test]
fn versions_compare_by_number_alone() {
    let a = Version::<&str>::from((4u64, "a"));
    let b = Version::<&str>::from((4u64, "b"));
    let c = Version::<&str>::from((5u64, "a"));
    assert!(a == b);
    assert!(a < c);
    assert!(!(a < b));
    assert!(a == Some(Version::<&str>::from((4u64, "z"))));
    assert!(a != None);
}
