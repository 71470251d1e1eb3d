use patchgl::flood::{Counter, Enabled, Input};
use patchgl::material::entry::{trim_pretext, update, CursorVisibility, Entry, Mdl, Msg};

fn typed(mdl: &mut Mdl, text: &str) {
    update(mdl, Msg::Input(Input::Insert(text.to_string())));
}

#[test]
fn trim_pretext_drops_leading_white_space() {
    assert_eq!(Some("ab ".to_string()), trim_pretext(" \t ab "));
    assert_eq!(None, trim_pretext("   "));
    assert_eq!(None, trim_pretext(""));
    assert_eq!(Some("x".to_string()), trim_pretext("\u{3000}x"));
}

#[test]
fn typing_and_deleting() {
    let mut mdl = Mdl::default();
    typed(&mut mdl, " ");
    assert_eq!(None, mdl.pretext);
    typed(&mut mdl, "h");
    typed(&mut mdl, "i");
    assert_eq!(Some("hi".to_string()), mdl.pretext);
    update(&mut mdl, Msg::Input(Input::DeleteBack));
    assert_eq!(Some("h".to_string()), mdl.pretext);
    update(&mut mdl, Msg::Input(Input::DeleteBack));
    assert_eq!(None, mdl.pretext);
    update(&mut mdl, Msg::Input(Input::DeleteBack));
    assert_eq!(None, mdl.pretext);
}

#[test]
fn deleting_to_leading_space_trims() {
    let mut mdl = Mdl::default();
    typed(&mut mdl, "a");
    typed(&mut mdl, " ");
    typed(&mut mdl, "b");
    assert_eq!(Some("a b".to_string()), mdl.pretext);
    mdl.pretext = Some(" b".to_string());
    update(&mut mdl, Msg::Input(Input::DeleteBack));
    assert_eq!(None, mdl.pretext);
}

#[test]
fn blinking_toggles_and_bumps() {
    let mut mdl = Mdl::default();
    assert_eq!(Counter { number: 1, enabled: Enabled::True }, mdl.blink_timeout_version_counter);
    update(&mut mdl, Msg::ToggleBlink);
    assert_eq!(CursorVisibility::Invisible, mdl.cursor_visibility);
    update(&mut mdl, Msg::ToggleBlink);
    assert_eq!(CursorVisibility::Visible, mdl.cursor_visibility);
    assert_eq!(Counter { number: 3, enabled: Enabled::True }, mdl.blink_timeout_version_counter);
}

#[test]
fn placeholder_string_defaults_to_empty() {
    let entry = Entry { msg_wrap: |msg: Msg| msg, id: 1, mdl: Mdl::default(), label: "L".to_string(), placeholder: None };
    assert_eq!("", entry.placeholder_string());
    let entry = Entry { msg_wrap: |msg: Msg| msg, id: 1, mdl: Mdl::default(), label: "L".to_string(), placeholder: Some("Name".to_string()) };
    assert_eq!("Name", entry.placeholder_string());
}

#[test]
fn trim_pretext_drops_unicode_white_space() {
    assert_eq!(Some("abc".to_string()), trim_pretext("\u{3000}\u{2009}\u{85}abc"));
    assert_eq!(None, trim_pretext("\u{a0}\u{2028}\u{1680}"));
    assert_eq!(Some("\u{200b}x".to_string()), trim_pretext("\u{200b}x"));
}
