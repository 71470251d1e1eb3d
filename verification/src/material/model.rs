//! The model of a material screen: one button model per button id, and the
//! palette the buttons are drawn with.
use vstd::prelude::*;
use std::collections::HashMap;
use super::components::button::ButtonMdl;
use super::components::button::stored_button_mdl;

verus! {

broadcast use vstd::std_specs::hash::group_hash_axioms;

#[derive(Clone, PartialEq, Debug, Default)]
pub struct Model<P> {
    pub button_models: HashMap<u64, ButtonMdl>,
    pub palette: P,
}

impl<P> Model<P> {
    /// The model of the button with `tag`, a fresh one if none is stored.
    pub fn get_button_model(&self, tag: u64) -> (mdl: ButtonMdl)
        ensures
            mdl == stored_button_mdl(self.button_models@, tag),
    {
        match self.button_models.get(&tag) {
            Some(model) => *model,
            None => ButtonMdl::default(),
        }
    }

    pub fn set_button_model(&mut self, tag: u64, button_model: ButtonMdl)
        ensures
            final(self).button_models@ == old(self).button_models@.insert(tag, button_model),
            final(self).palette == old(self).palette,
    {
        let button_models = &mut self.button_models;
        button_models.insert(tag, button_model);
    }
}

} // verus!
