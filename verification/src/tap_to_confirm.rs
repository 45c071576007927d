//! Component requesting an action from a user: a single tap confirms once
//! the short confirmation animation has played out.

use vstd::prelude::*;

verus! {

use crate::button::{Button, ButtonContent, ButtonMsg};
use crate::component::{Component, Event, EventCtx};
use crate::display::Color;
use crate::geometry::{Alignment2D, Offset, Rect};
use crate::time::{within, Duration, Stopwatch};

/// How long the confirmation animation runs, in milliseconds.
pub const TAP_DURATION_MILLIS: u32 = 600;

/// The tap animation: a stopwatch that runs from the tap.
#[derive(Clone)]
pub struct TapToConfirmAmin {
    pub timer: Stopwatch,
}

impl TapToConfirmAmin {
    /// The animation runs and its duration has not yet passed.  Whether a
    /// running animation is still within the duration depends on the clock.
    pub fn is_active(&self) -> (r: bool)
        ensures
            r ==> self.timer.is_running(),
            !self.timer.is_running() ==> !r,
    {
        self.timer.is_running_within(Duration::from_millis(TAP_DURATION_MILLIS))
    }

    /// The animation has played out: it runs and its duration has passed.
    /// A stopped animation is never finished; for a running one the clock
    /// decides.
    pub fn is_finished(&self) -> (r: bool)
        ensures
            r ==> self.timer.is_running(),
            !self.timer.is_running() ==> !r,
    {
        if self.timer.start.is_some() {
            let elapsed = self.timer.elapsed();
            !within(elapsed, Duration::from_millis(TAP_DURATION_MILLIS))
        } else {
            false
        }
    }

    pub fn start(&mut self)
        ensures
            final(self).timer.is_running(),
    {
        self.timer.start();
    }

    pub fn reset(&mut self)
        ensures
            !final(self).timer.is_running(),
    {
        self.timer = Stopwatch::new_stopped();
    }
}

impl Default for TapToConfirmAmin {
    /// The animation starts out stopped.
    fn default() -> (r: TapToConfirmAmin)
        ensures
            !r.timer.is_running(),
    {
        TapToConfirmAmin { timer: Stopwatch::new_stopped() }
    }
}

/// Component requesting an action from a user.  Most typically embedded as a
/// content of a Frame and prompting "Tap to confirm" or "Hold to XYZ".
#[derive(Clone)]
pub struct TapToConfirm {
    pub area: Rect,
    pub button: Button,
    pub circle_color: Color,
    pub circle_pad_color: Color,
    pub circle_inner_color: Color,
    pub mask_color: Color,
    pub anim: TapToConfirmAmin,
}

impl TapToConfirm {
    /// The fixed appearance (colors) of two values agrees.
    pub open spec fn same_look(self, other: TapToConfirm) -> bool {
        &&& self.circle_color == other.circle_color
        &&& self.circle_pad_color == other.circle_pad_color
        &&& self.circle_inner_color == other.circle_inner_color
        &&& self.mask_color == other.mask_color
    }

    pub fn new(
        circle_color: Color,
        circle_inner_color: Color,
        circle_pad_color: Color,
        mask_color: Color,
    ) -> (r: TapToConfirm)
        ensures
            r.circle_color == circle_color,
            r.circle_inner_color == circle_inner_color,
            r.circle_pad_color == circle_pad_color,
            r.mask_color == mask_color,
            r.button.long_press == Some(Duration { millis: 2200u32 }),
            r.button.state is Initial,
            !r.anim.timer.is_running(),
            r.area == (Rect { x0: 0i16, y0: 0i16, x1: 0i16, y1: 0i16 }),
    {
        let button = Button::new(ButtonContent::Empty).with_long_press(Duration::from_millis(2200));
        TapToConfirm {
            area: Rect::zero(),
            circle_color,
            circle_inner_color,
            circle_pad_color,
            mask_color,
            button,
            anim: TapToConfirmAmin { timer: Stopwatch::new_stopped() },
        }
    }

    /// Drives the animation from one button message: pressing starts it,
    /// releasing resets it, a click leaves it to play out.
    pub fn apply_button_msg(&mut self, ctx: &mut EventCtx, msg: Option<ButtonMsg>)
        ensures
            old(self).same_look(*final(self)),
            final(self).area == old(self).area,
            final(self).button == old(self).button,
            match msg {
                Some(ButtonMsg::Pressed) => {
                    &&& final(self).anim.timer.is_running()
                    &&& *final(ctx) == (EventCtx {
                        paint_requested: true,
                        anim_frame_requested: true,
                        ..*old(ctx)
                    })
                },
                Some(ButtonMsg::Released) => {
                    &&& !final(self).anim.timer.is_running()
                    &&& *final(ctx) == (EventCtx {
                        paint_requested: true,
                        anim_frame_requested: true,
                        ..*old(ctx)
                    })
                },
                _ => {
                    &&& final(self).anim == old(self).anim
                    &&& *final(ctx) == *old(ctx)
                },
            },
    {
        match msg {
            Some(ButtonMsg::Pressed) => {
                self.anim.start();
                ctx.request_anim_frame();
                ctx.request_paint();
            },
            Some(ButtonMsg::Released) => {
                self.anim.reset();
                ctx.request_anim_frame();
                ctx.request_paint();
            },
            _ => {},
        }
    }
}

impl Component for TapToConfirm {
    type Msg = ();

    fn place(&mut self, bounds: Rect) -> (r: Rect)
        ensures
            final(self).area == bounds,
            r == bounds,
            final(self).anim == old(self).anim,
    {
        self.area = bounds;
        let center = self.area.center().shifted(Offset::y(9));
        self.button.place(Rect::snap(center, Offset::uniform(80), Alignment2D::Center));
        bounds
    }

    /// Confirms once the animation a tap started has played out; the message
    /// can only come from a running animation.
    fn event(&mut self, ctx: &mut EventCtx, event: Event) -> (r: Option<()>)
        ensures
            old(self).same_look(*final(self)),
            final(self).area == old(self).area,
            r is Some ==> final(self).anim.timer.is_running(),
            (event is Attach || event matches Event::Timer(_)) ==> final(self).anim == old(
                self,
            ).anim,
    {
        let btn_msg = self.button.event(ctx, event);
        self.apply_button_msg(ctx, btn_msg);
        if self.anim.is_active() {
            ctx.request_anim_frame();
            ctx.request_paint();
        }
        if self.anim.is_finished() {
            return Some(());
        }
        None
    }
}

} // verus!
