use patchgl::flood::{Counter, Duration, Enabled, Input, Signal, Timeout, Version};
use patchgl::flood::extras::timer_delay;
use patchgl::local_screen::{action_for, ScreenAction, ScreenStatus, TouchTracking, WindowInput};
use patchgl::TouchMsg;
use patchgl::window::keymap::{code_to_string, Key};
use patchgl::window::open_window::{block_ids, cycle_signals, cycle_timeouts, find_touch_adapter, key_input};
use patchgl::{WebColor, X11Color};
use std::collections::HashMap;

fn signal(id: u64, number: u64, enabled: Enabled, msg: &'static str) -> Signal<&'static str> {
    Signal::from((id, Version::from((msg, Counter::from((number, enabled))))))
}

#[test]
fn signals_are_delivered_once_per_version() {
    let mut stored = HashMap::new();
    let batch = vec![signal(1, 0, Enabled::False, "a"), signal(2, 1, Enabled::True, "b")];
    assert_eq!(vec!["b"], cycle_signals(&mut stored, batch));
    let again = vec![signal(1, 0, Enabled::False, "a"), signal(2, 1, Enabled::True, "b")];
    assert_eq!(Vec::<&str>::new(), cycle_signals(&mut stored, again));
    let bumped = vec![signal(1, 1, Enabled::True, "a2"), signal(2, 2, Enabled::True, "b2")];
    assert_eq!(vec!["a2", "b2"], cycle_signals(&mut stored, bumped));
    assert_eq!("b2", stored[&2].clone_value());
    let older = vec![signal(2, 1, Enabled::True, "b")];
    assert_eq!(Vec::<&str>::new(), cycle_signals(&mut stored, older));
    assert_eq!("b", stored[&2].clone_value());
}

#[test]
fn signal_upgrades_option() {
    let old = signal(1, 1, Enabled::True, "x");
    let new = signal(1, 2, Enabled::True, "y");
    assert!(new.upgrades_option(&Some(&old)));
    assert!(!old.upgrades_option(&Some(&new)));
    assert!(old.upgrades_option(&None));
    assert!(!signal(1, 5, Enabled::False, "z").upgrades_option(&None));
}

#[test]
fn timeouts_start_only_when_new_and_observed() {
    let timeout = |n: u64| Version::from((Timeout { id: 9, msg: "blink", duration: Duration::Milliseconds(100) }, Counter::from((n, Enabled::True))));
    let mut stored = HashMap::new();
    let started = cycle_timeouts(&mut stored, vec![timeout(1)], false);
    assert!(started.is_empty());
    assert_eq!(1, stored.len());
    let started = cycle_timeouts(&mut stored, vec![timeout(1)], true);
    assert!(started.is_empty());
    let started = cycle_timeouts(&mut stored, vec![timeout(2)], true);
    assert_eq!(1, started.len());
    assert_eq!(9, started[0].id);
    assert_eq!("blink", started[0].msg);
    assert_eq!(Duration::Milliseconds(100), started[0].duration);
}

#[test]
fn timers_wait_at_least_the_lower_limit() {
    assert_eq!(Duration::Milliseconds(300), timer_delay(Duration::Milliseconds(5)));
    assert_eq!(Duration::Milliseconds(500), timer_delay(Duration::Milliseconds(500)));
    assert_eq!(Duration::Seconds(0), timer_delay(Duration::Seconds(0)));
}

#[test]
fn keys_type_letters() {
    assert_eq!(Some("q".to_string()), code_to_string(Key::Q));
    assert_eq!(Some(" ".to_string()), code_to_string(Key::Space));
    assert_eq!(None, code_to_string(Key::Back));
    assert_eq!(Some(Input::Insert("z".to_string())), key_input(Key::Z));
    assert_eq!(Some(Input::DeleteBack), key_input(Key::Back));
    assert_eq!(None, key_input(Key::Other));
}

#[test]
fn first_touch_adapter_with_the_tag() {
    let adapters = vec![(1u64, "one"), (2, "two"), (1, "uno")];
    assert_eq!(Some(&"one"), find_touch_adapter(&adapters, 1));
    assert_eq!(Some(&"two"), find_touch_adapter(&adapters, 2));
    assert_eq!(None, find_touch_adapter(&adapters, 3));
}

#[test]
fn closing_screen_stays_closing() {
    let status = ScreenStatus::Unchanged.did_change();
    assert_eq!(ScreenStatus::Changed, status);
    assert_eq!(ScreenStatus::Unchanged, status.did_draw());
    let closing = status.will_close();
    assert_eq!(ScreenStatus::WillClose, closing.did_change());
    assert_eq!(ScreenStatus::WillClose, closing.did_draw());
}

#[test]
fn web_colors_by_name() {
    assert_eq!(WebColor::Blue, WebColor::from_name("blue"));
    assert_eq!(WebColor::Green, WebColor::from_name("green"));
    assert_eq!(WebColor::Grey, WebColor::from_name("grey"));
    assert_eq!(WebColor::Red, WebColor::from_name("red"));
    assert_eq!(WebColor::DeepPink, WebColor::from_name("deeppink"));
    assert_eq!(WebColor::DeepPink, WebColor::from_name("Blue"));
    assert_ne!(X11Color::Plum, X11Color::Thistle);
}

#[test]
fn block_ids_count_up_from_the_seed() {
    assert_eq!(vec![5, 6, 7], block_ids(5, 3));
    assert!(block_ids(0, 0).is_empty());
    assert_eq!(vec![u64::MAX], block_ids(u64::MAX, 1));
}

#[test]
fn touches_begin_move_and_end_in_order() {
    let mut tracking = TouchTracking { touch_destination: None };
    assert!(tracking.move_tracking(1, 1).is_empty());
    assert_eq!(vec![TouchMsg::Begin(4, 1, 2)], tracking.begin_tracking(Some(4), 1, 2));
    assert_eq!(vec![TouchMsg::Move(4, 3, 3)], tracking.move_tracking(3, 3));
    assert_eq!(vec![TouchMsg::Cancel(4), TouchMsg::Begin(6, 0, 0)], tracking.begin_tracking(Some(6), 0, 0));
    assert_eq!(vec![TouchMsg::End(6, 9, 9)], tracking.end_tracking(9, 9));
    assert!(tracking.end_tracking(9, 9).is_empty());
    assert!(tracking.begin_tracking(None, 0, 0).is_empty());
    assert_eq!(None, tracking.touch_destination);
}

#[test]
fn escape_closes_the_screen_pressed_or_released() {
    assert_eq!(ScreenAction::Close, action_for(WindowInput::Key { pressed: true, escape: true }));
    assert_eq!(ScreenAction::Close, action_for(WindowInput::Key { pressed: false, escape: true }));
    assert_eq!(ScreenAction::ForwardKey, action_for(WindowInput::Key { pressed: true, escape: false }));
    assert_eq!(ScreenAction::Nothing, action_for(WindowInput::Key { pressed: false, escape: false }));
    assert_eq!(ScreenAction::Close, action_for(WindowInput::CloseRequested));
    assert_eq!(ScreenAction::Resize, action_for(WindowInput::Resized));
    assert_eq!(ScreenAction::MoveTracking, action_for(WindowInput::CursorMoved));
    assert_eq!(ScreenAction::BeginTracking, action_for(WindowInput::LeftButton { pressed: true }));
    assert_eq!(ScreenAction::EndTracking, action_for(WindowInput::LeftButton { pressed: false }));
    assert_eq!(ScreenAction::Nothing, action_for(WindowInput::Other));
}
