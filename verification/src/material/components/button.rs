//! The material flat button. A press followed by a release is a click, and
//! every click bumps the version of the button's click message.
use vstd::prelude::*;
use crate::flood::{Enabled, VersionCounter};
use crate::traits::Update;

verus! {

#[derive(Copy, Clone, PartialEq, Eq, Debug, Structural)]
pub struct ButtonMdl {
    pub press_state: PressState,
    pub click_msg_version_counter: VersionCounter,
}

#[derive(Copy, Clone, PartialEq, Eq, Debug, Structural)]
pub enum ButtonMsg {
    Press,
    Unpress,
    Release(u64),
    NoOp,
}

#[derive(Copy, Clone, PartialEq, Eq, Debug, Structural)]
pub enum PressState {
    Up,
    Down,
}

#[derive(Clone, PartialEq, Eq, Debug)]
pub enum ButtonKind {
    LightPlainFlat(String),
    LightColoredFlat(String),
    DarkPlainFlat(String),
    DarkColoredFlat(String),
}

impl ButtonKind {
    /// The text a button of this kind shows.
    pub open spec fn label_text(&self) -> Seq<char> {
        match *self {
            ButtonKind::LightPlainFlat(label) => label@,
            ButtonKind::LightColoredFlat(label) => label@,
            ButtonKind::DarkPlainFlat(label) => label@,
            ButtonKind::DarkColoredFlat(label) => label@,
        }
    }

    pub fn label(&self) -> (label: &str)
        ensures
            label@ == self.label_text(),
    {
        match self {
            ButtonKind::LightPlainFlat(label) => label.as_str(),
            ButtonKind::LightColoredFlat(label) => label.as_str(),
            ButtonKind::DarkPlainFlat(label) => label.as_str(),
            ButtonKind::DarkColoredFlat(label) => label.as_str(),
        }
    }
}

/// The model of a button that has not been touched yet.
pub open spec fn fresh_button_mdl() -> ButtonMdl {
    ButtonMdl {
        press_state: PressState::Up,
        click_msg_version_counter: VersionCounter { number: 0, enabled: Enabled::False },
    }
}

/// The model stored for `id`, or a fresh one where none is stored.
pub open spec fn stored_button_mdl(mdls: Map<u64, ButtonMdl>, id: u64) -> ButtonMdl {
    if mdls.contains_key(id) {
        mdls[id]
    } else {
        fresh_button_mdl()
    }
}

impl ButtonMdl {
    /// The model after it takes `msg`.
    pub open spec fn updated(self, msg: ButtonMsg) -> ButtonMdl {
        match msg {
            ButtonMsg::Press => ButtonMdl { press_state: PressState::Down, ..self },
            ButtonMsg::Unpress => ButtonMdl { press_state: PressState::Up, ..self },
            ButtonMsg::Release(_) => if self.press_state == PressState::Down {
                ButtonMdl {
                    press_state: PressState::Up,
                    click_msg_version_counter: self.click_msg_version_counter.bumped(),
                }
            } else {
                self
            },
            ButtonMsg::NoOp => self,
        }
    }

    /// Whether the model can take `msg`: a release that completes a click
    /// needs a counter with a successor.
    pub open spec fn accepts(self, msg: ButtonMsg) -> bool {
        (msg is Release && self.press_state == PressState::Down)
            ==> self.click_msg_version_counter.number < u64::MAX
    }
}

impl Default for ButtonMdl {
    fn default() -> (mdl: Self)
        ensures
            mdl == (ButtonMdl {
                press_state: PressState::Up,
                click_msg_version_counter: VersionCounter { number: 0, enabled: Enabled::False },
            }),
    {
        ButtonMdl { press_state: PressState::Up, click_msg_version_counter: VersionCounter::default() }
    }
}

impl Update<ButtonMsg> for ButtonMdl {
    open spec fn update_allowed(&self, msg: ButtonMsg) -> bool {
        self.accepts(msg)
    }

    fn allows_update(&self, msg: &ButtonMsg) -> (r: bool) {
        match msg {
            ButtonMsg::Release(_) => self.press_state != PressState::Down
                || self.click_msg_version_counter.number < u64::MAX,
            _ => true,
        }
    }

    fn update(&mut self, msg: ButtonMsg)
        ensures
            *final(self) == old(self).updated(msg),
    {
        match msg {
            ButtonMsg::Press => {
                self.press_state = PressState::Down;
            },
            ButtonMsg::Unpress => {
                self.press_state = PressState::Up;
            },
            ButtonMsg::Release(_tag) => {
                if self.press_state == PressState::Down {
                    self.press_state = PressState::Up;
                    self.click_msg_version_counter.bump();
                }
            },
            ButtonMsg::NoOp => {},
        }
    }
}

/// A press followed by a release is a click: the button is up again and its
/// click counter has been bumped once.
pub proof fn lemma_click_bumps_once(mdl: ButtonMdl, tag: u64)
    requires
        mdl.click_msg_version_counter.number < u64::MAX,
    ensures
        mdl.updated(ButtonMsg::Press).accepts(ButtonMsg::Release(tag)),
        mdl.updated(ButtonMsg::Press).updated(ButtonMsg::Release(tag)) == (ButtonMdl {
            press_state: PressState::Up,
            click_msg_version_counter: mdl.click_msg_version_counter.bumped(),
        }),
{
}

/// A release without a press, or after the press was taken back, is no
/// click: the click counter stays as it was.
pub proof fn lemma_release_without_press(mdl: ButtonMdl, tag: u64)
    requires
        mdl.press_state == PressState::Up,
    ensures
        mdl.updated(ButtonMsg::Release(tag)) == mdl,
        mdl.updated(ButtonMsg::Press).updated(ButtonMsg::Unpress).updated(
            ButtonMsg::Release(tag),
        ).click_msg_version_counter == mdl.click_msg_version_counter,
{
}

/// Whatever message the button takes, its click counter either stays or
/// moves to one that supersedes it.
pub proof fn lemma_click_counter_only_advances(mdl: ButtonMdl, msg: ButtonMsg)
    requires
        mdl.accepts(msg),
    ensures
        mdl.updated(msg).click_msg_version_counter == mdl.click_msg_version_counter
            || mdl.updated(msg).click_msg_version_counter.supersedes(mdl.click_msg_version_counter),
{
}

/// The model after it takes each of `msgs` in turn.
pub open spec fn after_msgs(mdl: ButtonMdl, msgs: Seq<ButtonMsg>) -> ButtonMdl
    decreases msgs.len(),
{
    if msgs.len() == 0 {
        mdl
    } else {
        after_msgs(mdl, msgs.drop_last()).updated(msgs.last())
    }
}

/// A message that carries nothing, such as a moving touch, leaves the
/// button's model as it is.
pub proof fn lemma_no_op_changes_nothing(mdl: ButtonMdl)
    ensures
        mdl.updated(ButtonMsg::NoOp) == mdl,
{
}

/// Any number of messages that carry nothing leave the model as it is.
pub proof fn lemma_no_ops_change_nothing(mdl: ButtonMdl, msgs: Seq<ButtonMsg>)
    requires
        forall|i: int| 0 <= i < msgs.len() ==> #[trigger] msgs[i] == ButtonMsg::NoOp,
    ensures
        after_msgs(mdl, msgs) == mdl,
    decreases msgs.len(),
{
    if msgs.len() > 0 {
        assert(msgs[msgs.len() - 1] == ButtonMsg::NoOp);
        lemma_no_ops_change_nothing(mdl, msgs.drop_last());
    }
}

/// A press, any number of messages that carry nothing, and a release make
/// one click: the button is up and its click counter was bumped once.
pub proof fn lemma_tap_with_no_ops_clicks_once(mdl: ButtonMdl, tag: u64, msgs: Seq<ButtonMsg>)
    requires
        mdl.click_msg_version_counter.number < u64::MAX,
        forall|i: int| 0 <= i < msgs.len() ==> #[trigger] msgs[i] == ButtonMsg::NoOp,
    ensures
        after_msgs(mdl.updated(ButtonMsg::Press), msgs).updated(ButtonMsg::Release(tag)) == (
        ButtonMdl {
            press_state: PressState::Up,
            click_msg_version_counter: VersionCounter {
                number: (mdl.click_msg_version_counter.number + 1) as u64,
                enabled: Enabled::True,
            },
        }),
{
    lemma_no_ops_change_nothing(mdl.updated(ButtonMsg::Press), msgs);
}

/// The click counter changes only on a release while the button is down.
pub proof fn lemma_counter_changes_only_on_release(mdl: ButtonMdl, msg: ButtonMsg)
    ensures
        mdl.updated(msg).click_msg_version_counter != mdl.click_msg_version_counter ==> (
        msg is Release && mdl.press_state == PressState::Down),
{
}

} // verus!
