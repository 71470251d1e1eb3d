use patchgl::flood::version::{Counter, Enabled, Version};

#[test]
fn from() {
    let version = Version::from(33);
    assert_eq!(33, version.value);
}

#[test]
fn into_tuple() {
    let version = Version::from(33);
    let into_tuple = version.into();
    assert_eq!((33, Counter::default()), into_tuple);
}

#[test]
fn from_tuple() {
    let from_tuple = Version::from((33, Counter::default()));
    assert_eq!(Version::from(33), from_tuple);
}

#[test]
fn bumped_upgrades_original() {
    let a = Version::from(33);
    let b = a.bump(26);
    assert!(b.upgrades(&a));
}

#[test]
fn original_does_not_upgrade_original() {
    let a = Version::from(33);
    let b = Version::from(33);
    assert!(!a.upgrades(&b));
}

#[test]
fn default_does_not_upgrade_none() {
    let a = Version::from(33);
    assert!(!a.upgrades_option(&Option::None));
}

#[test]
fn bumped_upgrades_none() {
    let a = Version::from(33).bump(13);
    assert!(a.upgrades_option(&Option::None));
}

#[test]
fn from_into_tuple() {
    let model = Counter::from((33, Enabled::False));
    assert_eq!((33, Enabled::False), model.into());
}

#[test]
fn default() {
    let model = Counter::default();
    assert_eq!((0, Enabled::False), model.into())
}

#[test]
fn enabled_upgrades_enabled_when_number_is_higher() {
    let tests = vec![(33, 32, true), (33, 33, false), (33, 34, false)];
    tests.into_iter().for_each(|(a, b, expected)| {
        let a = Counter::from((a, Enabled::True));
        let b = Counter::from((b, Enabled::True));
        assert_eq!(expected, a.upgrades(&b));
    });
}

#[test]
fn enabled_upgrades_disabled() {
    let tests = vec![(33, 32, true), (33, 33, true), (33, 34, true)];
    tests.into_iter().for_each(|(a, b, expected)| {
        let a = Counter::from((a, Enabled::True));
        let b = Counter::from((b, Enabled::False));
        assert_eq!(expected, a.upgrades(&b));
    });
}

#[test]
fn disabled_never_upgrades_enabled() {
    let tests = vec![(33, 32, false), (33, 33, false), (33, 34, false)];
    tests.into_iter().for_each(|(a, b, expected)| {
        let a = Counter::from((a, Enabled::False));
        let b = Counter::from((b, Enabled::True));
        assert_eq!(expected, a.upgrades(&b));
    });
}

#[test]
fn disabled_never_upgrades_disabled() {
    let tests = vec![(33, 32, false), (33, 33, false), (33, 34, false)];
    tests.into_iter().for_each(|(a, b, expected)| {
        let a = Counter::from((a, Enabled::False));
        let b = Counter::from((b, Enabled::False));
        assert_eq!(expected, a.upgrades(&b));
    });
}

#[test]
fn disabled_upgrades_none() {
    let a = Counter::from((33, Enabled::False));
    assert_eq!(false, a.upgrades_option(&Option::None));
}

#[test]
fn enabled_upgrades_none() {
    let a = Counter::from((33, Enabled::True));
    assert_eq!(true, a.upgrades_option(&Option::None));
}

#[test]
fn bump_enables_model_and_increments_number() {
    let counter = Counter::from((33, Enabled::False));
    let mut bumped = counter.to_owned();
    bumped.bump();
    assert_eq!((34, Enabled::True), bumped.into());
}
