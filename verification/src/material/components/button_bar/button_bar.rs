//! The model of a button bar: one button model per button id.
use vstd::prelude::*;
use std::collections::HashMap;
use super::button::{update_button_mdl, ButtonMdl, ButtonMsg, ButtonActivation};
use crate::flood::{Enabled, VersionCounter};
use crate::touch::TouchMsg;

verus! {

broadcast use vstd::std_specs::hash::group_hash_axioms;

pub struct ButtonBarMdl {
    pub button_mdls: HashMap<u64, ButtonMdl>,
}

#[derive(Copy, Clone, PartialEq, Eq, Debug, Structural)]
pub enum ButtonBarMsg {
    Touch(u64, TouchMsg),
}

/// The model of a button that has not been touched yet.
pub open spec fn fresh_button_mdl() -> ButtonMdl {
    ButtonMdl {
        activation: ButtonActivation::Released,
        click_msg_version_counter: VersionCounter { number: 0, enabled: Enabled::False },
    }
}

/// The model stored for `id`, or a fresh one where none is stored.
pub open spec fn stored_button_mdl(mdls: Map<u64, ButtonMdl>, id: u64) -> ButtonMdl {
    if mdls.contains_key(id) {
        mdls[id]
    } else {
        fresh_button_mdl()
    }
}

/// The button models after the bar takes `msg`: the touched button's model
/// takes the touch, and every other model stays as it was.
pub open spec fn updated_button_mdls(mdls: Map<u64, ButtonMdl>, msg: ButtonBarMsg) -> Map<
    u64,
    ButtonMdl,
> {
    match msg {
        ButtonBarMsg::Touch(id, touch) => mdls.insert(
            id,
            stored_button_mdl(mdls, id).updated(ButtonMsg::Touch(touch)),
        ),
    }
}

/// Whether the bar can take `msg`.
pub open spec fn bar_accepts(mdls: Map<u64, ButtonMdl>, msg: ButtonBarMsg) -> bool {
    match msg {
        ButtonBarMsg::Touch(id, touch) => stored_button_mdl(mdls, id).accepts(
            ButtonMsg::Touch(touch),
        ),
    }
}

pub fn update_button_bar_mdl(mdl: &mut ButtonBarMdl, msg: ButtonBarMsg)
    requires
        bar_accepts(old(mdl).button_mdls@, msg),
    ensures
        final(mdl).button_mdls@ == updated_button_mdls(old(mdl).button_mdls@, msg),
{
    match msg {
        ButtonBarMsg::Touch(button_id, touch_msg) => {
            let button_msg = ButtonMsg::Touch(touch_msg);
            let button_mdls = &mut mdl.button_mdls;
            if button_mdls.contains_key(&button_id) {
                let mut button_mdl = match button_mdls.remove(&button_id) {
                    Some(button_mdl) => button_mdl,
                    None => ButtonMdl::default(),
                };
                update_button_mdl(&mut button_mdl, button_msg);
                button_mdls.insert(button_id, button_mdl);
            } else {
                let mut new_button_mdl = ButtonMdl::default();
                update_button_mdl(&mut new_button_mdl, button_msg);
                button_mdls.insert(button_id, new_button_mdl);
            }
        },
    }
}

} // verus!
