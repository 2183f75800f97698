use vstd::prelude::*;
use crate::node::NodeId;

verus! {

/// The node that is selected for a closer look, if any.
#[derive(Clone, Copy, Debug, PartialEq, Eq, Structural)]
pub struct FocusState {
    pub currently_focused: Option<NodeId>,
}

/// The focus after a click on the body of `node`: a click on the focused
/// node takes the focus away, a click on any other node gives it the focus.
pub open spec fn toggled(focus: Option<NodeId>, node: NodeId) -> Option<NodeId> {
    if focus == Some(node) {
        None
    } else {
        Some(node)
    }
}

/// Two clicks in a row on the same node bring the focus back to where it
/// was, when it was nowhere or on that node. From a focus on another node
/// they end with no focus at all.
pub proof fn lemma_toggle_twice(focus: Option<NodeId>, node: NodeId)
    ensures
        focus is None || focus == Some(node) ==> toggled(toggled(focus, node), node) == focus,
        focus is Some && focus != Some(node) ==> toggled(toggled(focus, node), node)
            == None::<NodeId>,
{
}

impl FocusState {
    /// No node has the focus.
    pub fn new() -> (state: FocusState)
        ensures
            state.currently_focused is None,
    {
        FocusState { currently_focused: None }
    }

    /// Whether `node` has the focus.
    pub fn is_focused(&self, node: NodeId) -> (focused: bool)
        ensures
            focused == (self.currently_focused == Some(node)),
    {
        match self.currently_focused {
            Some(current) => current == node,
            None => false,
        }
    }

    /// A click on the body of `node`.
    pub fn toggle(&mut self, node: NodeId)
        ensures
            final(self).currently_focused == toggled(old(self).currently_focused, node),
    {
        if self.is_focused(node) {
            self.currently_focused = None;
        } else {
            self.currently_focused = Some(node);
        }
    }
}

} // verus!
