//! A vertical track of navigation buttons, one of which may be selected.
//! Selecting an item bumps the version of the item-selected event.
use vstd::prelude::*;
use std::collections::HashMap;
use super::button::{stored_button_mdl, ButtonMdl, ButtonMsg};
use crate::flood::{Enabled, VersionCounter};
use crate::traits::Update;

verus! {

broadcast use vstd::std_specs::hash::group_hash_axioms;

#[derive(Clone, PartialEq, Debug)]
pub enum NavTrackEvt {
    ItemSelected(Option<usize>),
}

#[derive(Clone, PartialEq, Debug)]
pub struct NavTrackMdl {
    selected_index: Option<usize>,
    button_mdls: HashMap<u64, ButtonMdl>,
    item_selected_version_counter: VersionCounter,
}

#[derive(Copy, Clone, PartialEq, Debug)]
pub enum NavTrackMsg {
    SelectItem(usize),
    ButtonMsgWrap(u64, ButtonMsg),
}

#[derive(Clone, PartialEq, Debug)]
pub struct NavTrackItem {
    pub label: String,
}

impl NavTrackMdl {
    /// The index of the selected item, if any.
    pub closed spec fn selection(&self) -> Option<usize> {
        self.selected_index
    }

    /// The model of each track button that has been touched, by id.
    pub closed spec fn buttons(&self) -> Map<u64, ButtonMdl> {
        self.button_mdls@
    }

    /// The version counter of the item-selected event.
    pub closed spec fn selection_counter(&self) -> VersionCounter {
        self.item_selected_version_counter
    }

    pub fn selected_index(&self) -> (index: Option<usize>)
        ensures
            index == self.selection(),
    {
        self.selected_index
    }

    pub fn item_selected_version_counter(&self) -> (counter: VersionCounter)
        ensures
            counter == self.selection_counter(),
    {
        self.item_selected_version_counter
    }

    /// The model of the track button with id `id`, a fresh one if it has
    /// not been touched yet.
    pub fn button_mdl(&self, id: u64) -> (mdl: ButtonMdl)
        ensures
            mdl == stored_button_mdl(self.buttons(), id),
    {
        match self.button_mdls.get(&id) {
            Some(mdl) => *mdl,
            None => ButtonMdl::default(),
        }
    }
}

impl Default for NavTrackMdl {
    fn default() -> (mdl: Self)
        ensures
            mdl.selection() == None::<usize>,
            mdl.buttons() == Map::<u64, ButtonMdl>::empty(),
            mdl.selection_counter() == (VersionCounter { number: 0, enabled: Enabled::False }),
    {
        NavTrackMdl {
            selected_index: None,
            button_mdls: HashMap::new(),
            item_selected_version_counter: VersionCounter::enabled_after_bump(),
        }
    }
}

impl Update<NavTrackMsg> for NavTrackMdl {
    /// Selecting needs a selection counter with a successor; a button
    /// message needs what the button's own update needs.
    open spec fn update_allowed(&self, msg: NavTrackMsg) -> bool {
        match msg {
            NavTrackMsg::SelectItem(_) => self.selection_counter().number < u64::MAX,
            NavTrackMsg::ButtonMsgWrap(id, button_msg) => stored_button_mdl(
                self.buttons(),
                id,
            ).accepts(button_msg),
        }
    }

    fn allows_update(&self, msg: &NavTrackMsg) -> (r: bool) {
        match msg {
            NavTrackMsg::SelectItem(_) => self.item_selected_version_counter.number < u64::MAX,
            NavTrackMsg::ButtonMsgWrap(id, button_msg) => self.button_mdl(*id).allows_update(
                button_msg,
            ),
        }
    }

    fn update(&mut self, msg: NavTrackMsg)
        ensures
            match msg {
                NavTrackMsg::SelectItem(index) => {
                    &&& final(self).selection() == Some(index)
                    &&& final(self).selection_counter() == old(self).selection_counter().bumped()
                    &&& final(self).buttons() == old(self).buttons()
                },
                NavTrackMsg::ButtonMsgWrap(id, button_msg) => {
                    &&& final(self).selection() == old(self).selection()
                    &&& final(self).selection_counter() == old(self).selection_counter()
                    &&& final(self).buttons() == old(self).buttons().insert(
                        id,
                        stored_button_mdl(old(self).buttons(), id).updated(button_msg),
                    )
                },
            },
    {
        match msg {
            NavTrackMsg::SelectItem(index) => {
                self.selected_index = Some(index);
                self.item_selected_version_counter.bump();
            },
            NavTrackMsg::ButtonMsgWrap(id, msg) => {
                if self.button_mdls.contains_key(&id) {
                    let mut button_mdl = match self.button_mdls.remove(&id) {
                        Some(button_mdl) => button_mdl,
                        None => ButtonMdl::default(),
                    };
                    button_mdl.update(msg);
                    self.button_mdls.insert(id, button_mdl);
                } else {
                    let mut button_mdl = ButtonMdl::default();
                    button_mdl.update(msg);
                    let button_mdls = &mut self.button_mdls;
                    button_mdls.insert(id, button_mdl);
                }
            },
        }
    }
}

} // verus!
