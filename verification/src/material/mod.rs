//! Material design widgets.
use vstd::prelude::*;

pub mod components;
pub mod entry;
pub mod model;

pub use self::components::button::ButtonKind;
pub use self::model::Model;
use self::components::button::ButtonMsg;
use self::components::button::stored_button_mdl;
use crate::traits::Update;

verus! {

#[derive(Copy, Clone, PartialEq, Eq, Debug, Structural)]
pub enum Msg {
    NoOp,
    ButtonMsg(u64, ButtonMsg),
}

/// Whether `update` can take `msg`: a button message needs what the
/// button's own update needs.
pub open spec fn update_allowed<P>(model: Model<P>, msg: Msg) -> bool {
    match msg {
        Msg::NoOp => true,
        Msg::ButtonMsg(id, button_msg) => stored_button_mdl(model.button_models@, id).accepts(
            button_msg,
        ),
    }
}

/// A button message updates that button's model, stored or fresh, and
/// stores the result; no other button's model changes.
pub fn update<P>(model: &mut Model<P>, msg: Msg)
    requires
        update_allowed(*old(model), msg),
    ensures
        final(model).button_models@ == match msg {
            Msg::NoOp => old(model).button_models@,
            Msg::ButtonMsg(id, button_msg) => old(model).button_models@.insert(
                id,
                stored_button_mdl(old(model).button_models@, id).updated(button_msg),
            ),
        },
        final(model).palette == old(model).palette,
{
    match msg {
        Msg::NoOp => {},
        Msg::ButtonMsg(button_id, button_msg) => {
            let mut button_model = model.get_button_model(button_id);
            button_model.update(button_msg);
            model.set_button_model(button_id, button_model);
        },
    }
}

} // verus!
