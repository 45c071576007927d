//! The confirm-action flow: an intro page, a menu and a final confirmation,
//! moved between by swipes and screen messages.

use vstd::prelude::*;

verus! {

use crate::flow::{Decision, FlowMsg, FlowState};
use crate::swipe::SwipeDirection;

/// The states of the confirm-action flow.
#[derive(Clone, Copy, PartialEq, Eq, Structural, Debug)]
pub enum ConfirmAction {
    Intro,
    Menu,
    Confirm,
}

/// The flow's swipe table: left from the intro opens the menu, right from
/// the menu returns, up from the intro confirms, down from the confirmation
/// returns, left from the confirmation opens the menu.
pub open spec fn confirm_action_swipe(s: ConfirmAction, direction: SwipeDirection) -> Decision<
    ConfirmAction,
> {
    match (s, direction) {
        (ConfirmAction::Intro, SwipeDirection::Left) => Decision::Goto(
            ConfirmAction::Menu,
            direction,
        ),
        (ConfirmAction::Menu, SwipeDirection::Right) => Decision::Goto(
            ConfirmAction::Intro,
            direction,
        ),
        (ConfirmAction::Intro, SwipeDirection::Up) => Decision::Goto(
            ConfirmAction::Confirm,
            direction,
        ),
        (ConfirmAction::Confirm, SwipeDirection::Down) => Decision::Goto(
            ConfirmAction::Intro,
            direction,
        ),
        (ConfirmAction::Confirm, SwipeDirection::Left) => Decision::Goto(
            ConfirmAction::Menu,
            direction,
        ),
        _ => Decision::Nothing,
    }
}

/// The flow's message table: info requests open the menu, cancelling the
/// menu returns to the intro, the menu's only choice cancels the flow, and
/// the confirmation screen's message confirms it.
pub open spec fn confirm_action_event(s: ConfirmAction, msg: FlowMsg) -> Decision<ConfirmAction> {
    match (s, msg) {
        (ConfirmAction::Intro, FlowMsg::Info) => Decision::Goto(
            ConfirmAction::Menu,
            SwipeDirection::Left,
        ),
        (ConfirmAction::Menu, FlowMsg::Cancelled) => Decision::Goto(
            ConfirmAction::Intro,
            SwipeDirection::Right,
        ),
        (ConfirmAction::Menu, FlowMsg::Choice(0)) => Decision::Return(FlowMsg::Cancelled),
        (ConfirmAction::Confirm, FlowMsg::Confirmed) => Decision::Return(FlowMsg::Confirmed),
        (ConfirmAction::Confirm, FlowMsg::Info) => Decision::Goto(
            ConfirmAction::Menu,
            SwipeDirection::Left,
        ),
        _ => Decision::Nothing,
    }
}

impl FlowState for ConfirmAction {
    /// Decides exactly as the swipe table says.
    fn handle_swipe(&self, direction: SwipeDirection) -> (r: Decision<ConfirmAction>)
        ensures
            r == confirm_action_swipe(*self, direction),
    {
        match (&self, direction) {
            (ConfirmAction::Intro, SwipeDirection::Left) => Decision::Goto(
                ConfirmAction::Menu,
                direction,
            ),
            (ConfirmAction::Menu, SwipeDirection::Right) => Decision::Goto(
                ConfirmAction::Intro,
                direction,
            ),
            (ConfirmAction::Intro, SwipeDirection::Up) => Decision::Goto(
                ConfirmAction::Confirm,
                direction,
            ),
            (ConfirmAction::Confirm, SwipeDirection::Down) => Decision::Goto(
                ConfirmAction::Intro,
                direction,
            ),
            (ConfirmAction::Confirm, SwipeDirection::Left) => Decision::Goto(
                ConfirmAction::Menu,
                direction,
            ),
            _ => Decision::Nothing,
        }
    }

    /// Decides exactly as the message table says.
    fn handle_event(&self, msg: FlowMsg) -> (r: Decision<ConfirmAction>)
        ensures
            r == confirm_action_event(*self, msg),
    {
        match (&self, msg) {
            (ConfirmAction::Intro, FlowMsg::Info) => Decision::Goto(
                ConfirmAction::Menu,
                SwipeDirection::Left,
            ),
            (ConfirmAction::Menu, FlowMsg::Cancelled) => Decision::Goto(
                ConfirmAction::Intro,
                SwipeDirection::Right,
            ),
            (ConfirmAction::Menu, FlowMsg::Choice(0)) => Decision::Return(FlowMsg::Cancelled),
            (ConfirmAction::Confirm, FlowMsg::Confirmed) => Decision::Return(FlowMsg::Confirmed),
            (ConfirmAction::Confirm, FlowMsg::Info) => Decision::Goto(
                ConfirmAction::Menu,
                SwipeDirection::Left,
            ),
            _ => Decision::Nothing,
        }
    }
}

} // verus!
