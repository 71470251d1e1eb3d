//! The model of one button in a bar and how touches change it.
use vstd::prelude::*;
use crate::flood::{Enabled, VersionCounter};
use crate::touch::TouchMsg;

verus! {

#[derive(Copy, Clone, PartialEq, Eq, Debug, Structural)]
pub struct ButtonMdl {
    pub activation: ButtonActivation,
    pub click_msg_version_counter: VersionCounter,
}

#[derive(Copy, Clone, PartialEq, Eq, Debug, Structural)]
pub enum ButtonActivation {
    Pressed,
    Released,
}

#[derive(Copy, Clone, PartialEq, Eq, Debug, Structural)]
pub enum ButtonMsg {
    Touch(TouchMsg),
}

impl Default for ButtonMdl {
    fn default() -> (mdl: Self)
        ensures
            mdl == (ButtonMdl {
                activation: ButtonActivation::Released,
                click_msg_version_counter: VersionCounter { number: 0, enabled: Enabled::False },
            }),
    {
        ButtonMdl {
            activation: ButtonActivation::Released,
            click_msg_version_counter: VersionCounter::enabled_after_bump(),
        }
    }
}

impl ButtonMdl {
    /// The model after it takes `msg`: a touch that ends on a pressed button
    /// is a click and bumps the click counter.
    pub open spec fn updated(self, msg: ButtonMsg) -> ButtonMdl {
        match msg {
            ButtonMsg::Touch(TouchMsg::Begin(_, _, _)) => ButtonMdl {
                activation: ButtonActivation::Pressed,
                ..self
            },
            ButtonMsg::Touch(TouchMsg::End(_, _, _)) => ButtonMdl {
                activation: ButtonActivation::Released,
                click_msg_version_counter: if self.activation == ButtonActivation::Pressed {
                    self.click_msg_version_counter.bumped()
                } else {
                    self.click_msg_version_counter
                },
            },
            ButtonMsg::Touch(TouchMsg::Cancel(_)) => ButtonMdl {
                activation: ButtonActivation::Released,
                ..self
            },
            ButtonMsg::Touch(TouchMsg::Move(_, _, _)) => self,
        }
    }

    /// Whether the model can take `msg`: a click needs a counter with a
    /// successor.
    pub open spec fn accepts(self, msg: ButtonMsg) -> bool {
        (msg matches ButtonMsg::Touch(TouchMsg::End(_, _, _)) && self.activation
            == ButtonActivation::Pressed) ==> self.click_msg_version_counter.number < u64::MAX
    }
}

pub fn update_button_mdl(mdl: &mut ButtonMdl, msg: ButtonMsg)
    requires
        old(mdl).accepts(msg),
    ensures
        *final(mdl) == old(mdl).updated(msg),
{
    match msg {
        ButtonMsg::Touch(TouchMsg::Begin(_, _, _)) => {
            mdl.activation = ButtonActivation::Pressed;
        },
        ButtonMsg::Touch(TouchMsg::End(_, _, _)) => {
            if mdl.activation == ButtonActivation::Pressed {
                mdl.click_msg_version_counter.bump()
            }
            mdl.activation = ButtonActivation::Released;
        },
        ButtonMsg::Touch(TouchMsg::Cancel(_)) => {
            mdl.activation = ButtonActivation::Released;
        },
        ButtonMsg::Touch(TouchMsg::Move(_, _, _)) => {},
    }
}

/// A touch that begins and then ends on the button is a click: the button
/// is released again and its click counter has been bumped once. A touch
/// that is cancelled before it ends is no click.
pub proof fn lemma_click_bumps_once(mdl: ButtonMdl, tag: u64, x: u64, y: u64)
    requires
        mdl.click_msg_version_counter.number < u64::MAX,
    ensures
        ({
            let pressed = mdl.updated(ButtonMsg::Touch(TouchMsg::Begin(tag, x, y)));
            &&& pressed.accepts(ButtonMsg::Touch(TouchMsg::End(tag, x, y)))
            &&& pressed.updated(ButtonMsg::Touch(TouchMsg::End(tag, x, y))) == (ButtonMdl {
                activation: ButtonActivation::Released,
                click_msg_version_counter: mdl.click_msg_version_counter.bumped(),
            })
            &&& pressed.updated(ButtonMsg::Touch(TouchMsg::Cancel(tag))).updated(
                ButtonMsg::Touch(TouchMsg::End(tag, x, y)),
            ).click_msg_version_counter == mdl.click_msg_version_counter
        }),
{
}

/// The model after it takes each of `msgs` in turn.
pub open spec fn after_msgs(mdl: ButtonMdl, msgs: Seq<ButtonMsg>) -> ButtonMdl
    decreases msgs.len(),
{
    if msgs.len() == 0 {
        mdl
    } else {
        after_msgs(mdl, msgs.drop_last()).updated(msgs.last())
    }
}

/// Whether `msg` reports a touch that moves.
pub open spec fn is_move(msg: ButtonMsg) -> bool {
    msg matches ButtonMsg::Touch(TouchMsg::Move(_, _, _))
}

/// A moving touch leaves the button's model as it is.
pub proof fn lemma_move_changes_nothing(mdl: ButtonMdl, tag: u64, x: u64, y: u64)
    ensures
        mdl.updated(ButtonMsg::Touch(TouchMsg::Move(tag, x, y))) == mdl,
{
}

/// Any number of moves leave the button's model as it is.
pub proof fn lemma_moves_change_nothing(mdl: ButtonMdl, moves: Seq<ButtonMsg>)
    requires
        forall|i: int| 0 <= i < moves.len() ==> #[trigger] is_move(moves[i]),
    ensures
        after_msgs(mdl, moves) == mdl,
    decreases moves.len(),
{
    if moves.len() > 0 {
        assert(is_move(moves[moves.len() - 1]));
        lemma_moves_change_nothing(mdl, moves.drop_last());
    }
}

/// A touch that begins on the button, moves any number of times and ends
/// there is one click: the button is released and its click counter has
/// been bumped exactly once.
pub proof fn lemma_tap_with_moves_clicks_once(
    mdl: ButtonMdl,
    tag: u64,
    x: u64,
    y: u64,
    moves: Seq<ButtonMsg>,
)
    requires
        mdl.click_msg_version_counter.number < u64::MAX,
        forall|i: int| 0 <= i < moves.len() ==> #[trigger] is_move(moves[i]),
    ensures
        after_msgs(mdl.updated(ButtonMsg::Touch(TouchMsg::Begin(tag, x, y))), moves).updated(
            ButtonMsg::Touch(TouchMsg::End(tag, x, y)),
        ) == (ButtonMdl {
            activation: ButtonActivation::Released,
            click_msg_version_counter: VersionCounter {
                number: (mdl.click_msg_version_counter.number + 1) as u64,
                enabled: Enabled::True,
            },
        }),
{
    lemma_moves_change_nothing(mdl.updated(ButtonMsg::Touch(TouchMsg::Begin(tag, x, y))), moves);
}

/// The click counter changes only when a touch ends on a pressed button.
pub proof fn lemma_counter_changes_only_on_click(mdl: ButtonMdl, msg: ButtonMsg)
    ensures
        mdl.updated(msg).click_msg_version_counter != mdl.click_msg_version_counter ==> (
        msg matches ButtonMsg::Touch(TouchMsg::End(_, _, _)) && mdl.activation
            == ButtonActivation::Pressed),
{
}

} // verus!
