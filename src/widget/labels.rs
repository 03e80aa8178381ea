//! The list of strategy labels, any of which can be selected.
use std::collections::HashSet;
use vstd::prelude::*;

verus! {

#[derive(Clone, Copy, Debug, PartialEq, Eq, Structural)]
pub enum LabelListMessage {
    Focus(usize),
    Unfocus(usize),
}

/// The indices of the selected labels.
#[derive(Debug)]
pub struct LabelList {
    pub selected_indicies: HashSet<usize>,
}

impl LabelList {
    pub fn new() -> (r: LabelList)
        ensures
            r.selected_indicies@ == Set::<usize>::empty(),
    {
        LabelList { selected_indicies: HashSet::new() }
    }

    /// Adds the index to the selection or takes it out.
    pub fn update(&mut self, message: LabelListMessage)
        ensures
            final(self).selected_indicies@ == match message {
                LabelListMessage::Focus(i) => old(self).selected_indicies@.insert(i),
                LabelListMessage::Unfocus(i) => old(self).selected_indicies@.remove(i),
            },
    {
        broadcast use vstd::std_specs::hash::group_hash_axioms;

        match message {
            LabelListMessage::Focus(index) => {
                self.selected_indicies.insert(index);
            },
            LabelListMessage::Unfocus(index) => {
                self.selected_indicies.remove(&index);
            },
        }
    }

    /// Whether the label at the index is selected.
    pub fn is_selected(&self, index: usize) -> (r: bool)
        ensures
            r == self.selected_indicies@.contains(index),
    {
        broadcast use vstd::std_specs::hash::group_hash_axioms;

        self.selected_indicies.contains(&index)
    }
}

} // verus!
