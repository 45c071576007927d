//! Component requesting an action from a user: either a tap-to-confirm or a
//! hold-to-confirm prompt, full screen.

use vstd::prelude::*;

verus! {

use crate::component::{Component, Event, EventCtx};
use crate::geometry::Rect;
use crate::hold_to_confirm::HoldToConfirm;
use crate::tap_to_confirm::TapToConfirm;
use crate::theme;

/// Component requesting an action from a user.  Most typically embedded as a
/// content of a Frame and prompting "Tap to confirm" or "Hold to XYZ".
#[derive(Clone)]
pub struct PromptScreen {
    pub area: Rect,
    pub tap_to_confirm: Option<TapToConfirm>,
    pub hold_to_confirm: Option<HoldToConfirm>,
}

impl PromptScreen {
    /// A prompt confirmed by holding.
    pub fn new_hold_to_confirm() -> (r: PromptScreen)
        ensures
            r.tap_to_confirm is None,
            r.hold_to_confirm is Some,
            !r.hold_to_confirm.unwrap().anim.timer.is_running(),
            r.area == (Rect { x0: 0i16, y0: 0i16, x1: 0i16, y1: 0i16 }),
    {
        PromptScreen {
            area: Rect::zero(),
            tap_to_confirm: None,
            hold_to_confirm: Some(HoldToConfirm::new()),
        }
    }

    /// A prompt confirmed by a tap, in the confirming palette.
    pub fn new_tap_to_confirm() -> (r: PromptScreen)
        ensures
            r.hold_to_confirm is None,
            r.tap_to_confirm is Some,
            !r.tap_to_confirm.unwrap().anim.timer.is_running(),
            r.tap_to_confirm.unwrap().circle_color == r.tap_to_confirm.unwrap().circle_inner_color,
            r.area == (Rect { x0: 0i16, y0: 0i16, x1: 0i16, y1: 0i16 }),
    {
        PromptScreen {
            area: Rect::zero(),
            tap_to_confirm: Some(
                TapToConfirm::new(
                    theme::green(),
                    theme::green(),
                    theme::grey_extra_dark(),
                    theme::black(),
                ),
            ),
            hold_to_confirm: None,
        }
    }

    /// A prompt confirmed by a tap, in the cancelling palette.
    pub fn new_tap_to_cancel() -> (r: PromptScreen)
        ensures
            r.hold_to_confirm is None,
            r.tap_to_confirm is Some,
            !r.tap_to_confirm.unwrap().anim.timer.is_running(),
            r.tap_to_confirm.unwrap().circle_color == r.tap_to_confirm.unwrap().circle_inner_color,
            r.area == (Rect { x0: 0i16, y0: 0i16, x1: 0i16, y1: 0i16 }),
    {
        PromptScreen {
            area: Rect::zero(),
            tap_to_confirm: Some(
                TapToConfirm::new(
                    theme::orange_light(),
                    theme::orange_light(),
                    theme::grey_extra_dark(),
                    theme::black(),
                ),
            ),
            hold_to_confirm: None,
        }
    }
}

impl Component for PromptScreen {
    type Msg = ();

    fn place(&mut self, bounds: Rect) -> (r: Rect)
        ensures
            final(self).area == bounds,
            r == bounds,
            final(self).tap_to_confirm is Some <==> old(self).tap_to_confirm is Some,
            final(self).hold_to_confirm is Some <==> old(self).hold_to_confirm is Some,
    {
        self.area = bounds;
        if let Some(hold_to_confirm) = &mut self.hold_to_confirm {
            hold_to_confirm.place(bounds);
        }
        if let Some(tap_to_confirm) = &mut self.tap_to_confirm {
            tap_to_confirm.place(bounds);
        }
        bounds
    }

    /// Forwards the event to whichever prompt is present; a confirmation of
    /// either confirms the screen.
    fn event(&mut self, ctx: &mut EventCtx, event: Event) -> (r: Option<()>)
        ensures
            final(self).area == old(self).area,
            final(self).tap_to_confirm is Some <==> old(self).tap_to_confirm is Some,
            final(self).hold_to_confirm is Some <==> old(self).hold_to_confirm is Some,
            r is Some ==> old(self).tap_to_confirm is Some || old(self).hold_to_confirm is Some,
    {
        if let Some(hold_to_confirm) = &mut self.hold_to_confirm {
            if hold_to_confirm.event(ctx, event).is_some() {
                return Some(());
            }
        }
        if let Some(tap_to_confirm) = &mut self.tap_to_confirm {
            if tap_to_confirm.event(ctx, event).is_some() {
                return Some(());
            }
        }
        None
    }
}

} // verus!
