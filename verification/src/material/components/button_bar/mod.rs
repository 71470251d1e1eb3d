//! A row of text buttons. Each button keeps its own model in the bar's
//! model, created on the button's first touch.
use vstd::prelude::*;

pub mod button;
pub mod button_bar;

pub use self::button_bar::ButtonBarMsg;

verus! {

/// One button of a bar.
pub struct Button<MsgT> {
    pub id: u64,
    pub label: String,
    pub intent: ButtonIntent,
    pub click_msg: MsgT,
}

#[derive(Copy, Clone, PartialEq, Eq, Debug, Structural)]
pub enum ButtonIntent {
    Call,
    Provide,
    Inform,
}

} // verus!
