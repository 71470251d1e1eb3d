//! The update half of a model-update-view widget.
use vstd::prelude::*;

verus! {

/// A model that changes in response to messages.
pub trait Update<MsgT> {
    /// Whether the model can take `msg`: false only where a version counter
    /// the message would bump has no successor left.
    spec fn update_allowed(&self, msg: MsgT) -> bool;

    /// Tells whether the model can take `msg`, for callers that cannot
    /// prove it.
    fn allows_update(&self, msg: &MsgT) -> (r: bool)
        ensures
            r == self.update_allowed(*msg),
    ;

    fn update(&mut self, msg: MsgT)
        requires
            old(self).update_allowed(msg),
    ;
}

} // verus!
