//! Flow plumbing: the messages a flow exchanges with its screens and the
//! decisions a flow state takes on them.

use vstd::prelude::*;

verus! {

use crate::swipe::SwipeDirection;

/// A message out of (or into) a flow.
#[derive(Clone, Copy, PartialEq, Eq, Structural, Debug)]
pub enum FlowMsg {
    Confirmed,
    Cancelled,
    Info,
    Choice(usize),
}

/// What a flow state decides on an input: stay, go to another state sliding
/// in the given direction, or finish with a result.
#[derive(Clone, Copy, PartialEq, Eq, Structural, Debug)]
pub enum Decision<T> {
    Nothing,
    Goto(T, SwipeDirection),
    Return(FlowMsg),
}

/// A state of a swipeable flow: decides on swipes and on messages from the
/// current screen.
pub trait FlowState: Sized {
    fn handle_swipe(&self, direction: SwipeDirection) -> (r: Decision<Self>);

    fn handle_event(&self, msg: FlowMsg) -> (r: Decision<Self>);
}

} // verus!
