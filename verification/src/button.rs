//! A flat push button: its model, the messages it takes, and how touches
//! become those messages. A press followed by a release is a click, and
//! every click bumps the version of the button's click message.
use vstd::prelude::*;
use crate::flood::VersionCounter;
use crate::touch::TouchMsg;

verus! {

#[derive(Clone)]
pub struct Button<MsgT> {
    pub id: u64,
    pub kind: Kind,
    pub model: Model,
    pub click_msg: MsgT,
}

#[derive(Copy, Clone, PartialEq, Eq, Debug, Structural)]
pub struct Model {
    pub press_state: PressState,
    pub click_msg_version_counter: VersionCounter,
}

#[derive(Copy, Clone, PartialEq, Eq, Debug, Structural)]
pub enum Msg {
    Press,
    Unpress,
    Release(u64),
    NoOp,
}

#[derive(Copy, Clone, PartialEq, Eq, Debug, Structural)]
pub enum PressState {
    Up,
    Down,
}

#[derive(Clone, PartialEq, Eq, Debug)]
pub enum Kind {
    PlainFlat(String),
    ColoredFlat(String),
}

impl Default for Model {
    fn default() -> (model: Self)
        ensures
            model == (Model {
                press_state: PressState::Up,
                click_msg_version_counter: VersionCounter { number: 0, enabled: crate::flood::Enabled::False },
            }),
    {
        Model { press_state: PressState::Up, click_msg_version_counter: VersionCounter::default() }
    }
}

/// The model after it takes `msg`.
pub open spec fn updated(model: Model, msg: Msg) -> Model {
    match msg {
        Msg::Press => Model { press_state: PressState::Down, ..model },
        Msg::Unpress => Model { press_state: PressState::Up, ..model },
        Msg::Release(_) => if model.press_state == PressState::Down {
            Model {
                press_state: PressState::Up,
                click_msg_version_counter: model.click_msg_version_counter.bumped(),
            }
        } else {
            model
        },
        Msg::NoOp => model,
    }
}

/// A message that `update` can apply: a release that completes a click
/// needs a counter with a successor.
pub open spec fn update_allowed(model: Model, msg: Msg) -> bool {
    (msg is Release && model.press_state == PressState::Down)
        ==> model.click_msg_version_counter.number < u64::MAX
}

pub fn update(model: &mut Model, msg: Msg)
    requires
        update_allowed(*old(model), msg),
    ensures
        *final(model) == updated(*old(model), msg),
{
    match msg {
        Msg::Press => {
            model.press_state = PressState::Down;
        },
        Msg::Unpress => {
            model.press_state = PressState::Up;
        },
        Msg::Release(_tag) => {
            if model.press_state == PressState::Down {
                model.press_state = PressState::Up;
                model.click_msg_version_counter.bump();
            }
        },
        Msg::NoOp => {},
    }
}

/// The message a touch sends to the button with id `button_id`: touches
/// addressed elsewhere send `NoOp`.
pub open spec fn touch_msg(button_id: u64, touch: TouchMsg) -> Msg {
    if touch.target() == button_id {
        match touch {
            TouchMsg::Begin(_, _, _) => Msg::Press,
            TouchMsg::End(tag, _, _) => Msg::Release(tag),
            TouchMsg::Move(_, _, _) => Msg::NoOp,
            TouchMsg::Cancel(_) => Msg::Unpress,
        }
    } else {
        Msg::NoOp
    }
}

/// Translates a touch into the message for the button with id `button_id`.
pub fn msg_for_touch(button_id: u64, touch: TouchMsg) -> (msg: Msg)
    ensures
        msg == touch_msg(button_id, touch),
{
    if touch.tag() == button_id {
        match touch {
            TouchMsg::Begin(_, _, _) => Msg::Press,
            TouchMsg::End(tag, _, _) => Msg::Release(tag),
            TouchMsg::Move(_, _, _) => Msg::NoOp,
            TouchMsg::Cancel(_) => Msg::Unpress,
        }
    } else {
        Msg::NoOp
    }
}

/// A press followed by a release is a click: the button is up again and its
/// click counter has been bumped once; a release on a button that is up
/// changes nothing.
pub proof fn lemma_click_bumps_once(model: Model, tag: u64)
    requires
        model.click_msg_version_counter.number < u64::MAX,
    ensures
        update_allowed(updated(model, Msg::Press), Msg::Release(tag)),
        updated(updated(model, Msg::Press), Msg::Release(tag)) == (Model {
            press_state: PressState::Up,
            click_msg_version_counter: model.click_msg_version_counter.bumped(),
        }),
        model.press_state == PressState::Up ==> updated(model, Msg::Release(tag)) == model,
{
}

/// Whatever message the button takes, its click counter either stays or
/// moves to one that supersedes it.
pub proof fn lemma_click_counter_only_advances(model: Model, msg: Msg)
    requires
        update_allowed(model, msg),
    ensures
        updated(model, msg).click_msg_version_counter == model.click_msg_version_counter
            || updated(model, msg).click_msg_version_counter.supersedes(
            model.click_msg_version_counter,
        ),
{
}

/// A touch addressed to another target never reaches the button.
pub proof fn lemma_foreign_touch_ignored(button_id: u64, touch: TouchMsg)
    requires
        touch.target() != button_id,
    ensures
        touch_msg(button_id, touch) == Msg::NoOp,
{
}

/// The model after it takes each of `msgs` in turn.
pub open spec fn after_msgs(model: Model, msgs: Seq<Msg>) -> Model
    decreases msgs.len(),
{
    if msgs.len() == 0 {
        model
    } else {
        updated(after_msgs(model, msgs.drop_last()), msgs.last())
    }
}

/// A message that carries nothing, such as the one a moving touch sends,
/// leaves the model as it is.
pub proof fn lemma_no_op_changes_nothing(model: Model)
    ensures
        updated(model, Msg::NoOp) == model,
{
}

/// Any number of messages that carry nothing leave the model as it is.
pub proof fn lemma_no_ops_change_nothing(model: Model, msgs: Seq<Msg>)
    requires
        forall|i: int| 0 <= i < msgs.len() ==> #[trigger] msgs[i] == Msg::NoOp,
    ensures
        after_msgs(model, msgs) == model,
    decreases msgs.len(),
{
    if msgs.len() > 0 {
        assert(msgs[msgs.len() - 1] == Msg::NoOp);
        lemma_no_ops_change_nothing(model, msgs.drop_last());
    }
}

/// A press, any number of messages that carry nothing, and a release make
/// one click: the button is up and its click counter was bumped once.
pub proof fn lemma_tap_with_no_ops_clicks_once(model: Model, tag: u64, msgs: Seq<Msg>)
    requires
        model.click_msg_version_counter.number < u64::MAX,
        forall|i: int| 0 <= i < msgs.len() ==> #[trigger] msgs[i] == Msg::NoOp,
    ensures
        updated(after_msgs(updated(model, Msg::Press), msgs), Msg::Release(tag)) == (Model {
            press_state: PressState::Up,
            click_msg_version_counter: VersionCounter {
                number: (model.click_msg_version_counter.number + 1) as u64,
                enabled: crate::flood::Enabled::True,
            },
        }),
{
    lemma_no_ops_change_nothing(updated(model, Msg::Press), msgs);
}

/// The click counter changes only on a release while the button is down.
pub proof fn lemma_counter_changes_only_on_release(model: Model, msg: Msg)
    ensures
        updated(model, msg).click_msg_version_counter != model.click_msg_version_counter ==> (
        msg is Release && model.press_state == PressState::Down),
{
}

} // verus!
