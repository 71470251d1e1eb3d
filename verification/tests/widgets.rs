use patchgl::button;
use patchgl::flood::{Counter, Enabled};
use patchgl::material;
use patchgl::material::components::button::{ButtonKind, ButtonMdl, ButtonMsg, PressState};
use patchgl::material::components::button_bar::button::{
    update_button_mdl, ButtonActivation, ButtonMdl as BarButtonMdl, ButtonMsg as BarButtonMsg,
};
use patchgl::material::components::button_bar::button_bar::{update_button_bar_mdl, ButtonBarMdl, ButtonBarMsg};
use patchgl::material::components::nav_track::{NavTrackMdl, NavTrackMsg};
use patchgl::material::components::stepper::{step_condition, step_conditions, StepCondition};
use patchgl::traits::Update;
use patchgl::TouchMsg;
use std::collections::HashMap;

#[test]
fn press_then_release_clicks_once() {
    let mut model = button::Model::default();
    button::update(&mut model, button::Msg::Press);
    assert_eq!(button::PressState::Down, model.press_state);
    button::update(&mut model, button::Msg::Release(3));
    assert_eq!(button::PressState::Up, model.press_state);
    assert_eq!(Counter { number: 1, enabled: Enabled::True }, model.click_msg_version_counter);
    button::update(&mut model, button::Msg::Release(3));
    assert_eq!(Counter { number: 1, enabled: Enabled::True }, model.click_msg_version_counter);
}

#[test]
fn unpress_cancels_the_click() {
    let mut model = button::Model::default();
    button::update(&mut model, button::Msg::Press);
    button::update(&mut model, button::Msg::Unpress);
    button::update(&mut model, button::Msg::Release(3));
    assert_eq!(Counter::default(), model.click_msg_version_counter);
    button::update(&mut model, button::Msg::NoOp);
    assert_eq!(button::PressState::Up, model.press_state);
}

#[test]
fn touches_become_button_messages() {
    assert_eq!(button::Msg::Press, button::msg_for_touch(7, TouchMsg::Begin(7, 0, 0)));
    assert_eq!(button::Msg::Release(7), button::msg_for_touch(7, TouchMsg::End(7, 1, 2)));
    assert_eq!(button::Msg::NoOp, button::msg_for_touch(7, TouchMsg::Move(7, 1, 2)));
    assert_eq!(button::Msg::Unpress, button::msg_for_touch(7, TouchMsg::Cancel(7)));
    assert_eq!(button::Msg::NoOp, button::msg_for_touch(8, TouchMsg::Begin(7, 0, 0)));
    assert_eq!(9, TouchMsg::End(9, 4, 5).tag());
}

#[test]
fn material_button_clicks_once() {
    let mut mdl = ButtonMdl::default();
    mdl.update(ButtonMsg::Release(1));
    assert_eq!(ButtonMdl::default(), mdl);
    mdl.update(ButtonMsg::Press);
    mdl.update(ButtonMsg::Release(1));
    assert_eq!(PressState::Up, mdl.press_state);
    assert_eq!(Counter { number: 1, enabled: Enabled::True }, mdl.click_msg_version_counter);
}

#[test]
fn button_kind_label() {
    assert_eq!("ok", ButtonKind::DarkColoredFlat("ok".to_string()).label());
    assert_eq!("Go", ButtonKind::LightPlainFlat("Go".to_string()).label());
}

#[test]
fn bar_button_clicks_on_touch_end() {
    let mut mdl = BarButtonMdl::default();
    update_button_mdl(&mut mdl, BarButtonMsg::Touch(TouchMsg::Begin(1, 0, 0)));
    assert_eq!(ButtonActivation::Pressed, mdl.activation);
    update_button_mdl(&mut mdl, BarButtonMsg::Touch(TouchMsg::End(1, 0, 0)));
    assert_eq!(ButtonActivation::Released, mdl.activation);
    assert_eq!(Counter { number: 1, enabled: Enabled::True }, mdl.click_msg_version_counter);
    update_button_mdl(&mut mdl, BarButtonMsg::Touch(TouchMsg::Begin(1, 0, 0)));
    update_button_mdl(&mut mdl, BarButtonMsg::Touch(TouchMsg::Cancel(1)));
    update_button_mdl(&mut mdl, BarButtonMsg::Touch(TouchMsg::End(1, 0, 0)));
    assert_eq!(Counter { number: 1, enabled: Enabled::True }, mdl.click_msg_version_counter);
}

#[test]
fn button_bar_keeps_one_model_per_button() {
    let mut bar = ButtonBarMdl { button_mdls: HashMap::new() };
    update_button_bar_mdl(&mut bar, ButtonBarMsg::Touch(4, TouchMsg::Begin(4, 0, 0)));
    update_button_bar_mdl(&mut bar, ButtonBarMsg::Touch(4, TouchMsg::End(4, 0, 0)));
    update_button_bar_mdl(&mut bar, ButtonBarMsg::Touch(5, TouchMsg::Move(5, 0, 0)));
    assert_eq!(2, bar.button_mdls.len());
    assert_eq!(Counter { number: 1, enabled: Enabled::True }, bar.button_mdls[&4].click_msg_version_counter);
    assert_eq!(BarButtonMdl::default(), bar.button_mdls[&5]);
}

#[test]
fn nav_track_selects_and_bumps() {
    let mut mdl = NavTrackMdl::default();
    assert_eq!(None, mdl.selected_index());
    mdl.update(NavTrackMsg::SelectItem(2));
    assert_eq!(Some(2), mdl.selected_index());
    assert_eq!(Counter { number: 1, enabled: Enabled::True }, mdl.item_selected_version_counter());
    mdl.update(NavTrackMsg::ButtonMsgWrap(77, ButtonMsg::Press));
    assert_eq!(PressState::Down, mdl.button_mdl(77).press_state);
    assert_eq!(ButtonMdl::default(), mdl.button_mdl(78));
    assert_eq!(Some(2), mdl.selected_index());
}

#[test]
fn material_model_routes_button_messages() {
    let mut model: material::Model<()> = material::Model::default();
    material::update(&mut model, material::Msg::ButtonMsg(3, ButtonMsg::Press));
    assert_eq!(PressState::Down, model.get_button_model(3).press_state);
    material::update(&mut model, material::Msg::ButtonMsg(3, ButtonMsg::Release(3)));
    assert_eq!(Counter { number: 1, enabled: Enabled::True }, model.get_button_model(3).click_msg_version_counter);
    material::update(&mut model, material::Msg::NoOp);
    assert_eq!(ButtonMdl::default(), model.get_button_model(4));
    model.set_button_model(4, model.get_button_model(3));
    assert_eq!(model.get_button_model(3), model.get_button_model(4));
}

#[test]
fn stepper_conditions() {
    assert_eq!(StepCondition::Completed, step_condition(0, 2));
    assert_eq!(StepCondition::Active, step_condition(2, 2));
    assert_eq!(StepCondition::Inactive, step_condition(3, 2));
    assert_eq!(
        vec![StepCondition::Completed, StepCondition::Active, StepCondition::Inactive],
        step_conditions(3, 1)
    );
}

#[test]
fn a_click_past_the_last_version_is_refused() {
    let full = ButtonMdl { press_state: PressState::Down, click_msg_version_counter: Counter::from((u64::MAX, Enabled::True)) };
    assert!(!full.allows_update(&ButtonMsg::Release(1)));
    assert!(full.allows_update(&ButtonMsg::Unpress));
    let up = ButtonMdl { press_state: PressState::Up, ..full };
    assert!(up.allows_update(&ButtonMsg::Release(1)));
    let nav = NavTrackMdl::default();
    assert!(nav.allows_update(&NavTrackMsg::SelectItem(0)));
    assert!(nav.allows_update(&NavTrackMsg::ButtonMsgWrap(3, ButtonMsg::Release(3))));
}
