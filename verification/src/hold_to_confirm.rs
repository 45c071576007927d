//! Component requesting an action from a user: a button that must be held
//! for its full long-press duration to confirm.

use vstd::prelude::*;

verus! {

use crate::button::{Button, ButtonContent, ButtonMsg};
use crate::component::{Component, Event, EventCtx, Label};
use crate::display::Color;
use crate::geometry::{Alignment, Alignment2D, Offset, Rect};
use crate::theme;
use crate::time::{Duration, Stopwatch};

/// How long the button must be held to confirm, in milliseconds.
pub const HOLD_DURATION_MILLIS: u32 = 2200;

/// The hold animation: a stopwatch that runs from the press.
#[derive(Clone)]
pub struct HoldToConfirmAnim {
    pub timer: Stopwatch,
}

impl HoldToConfirmAnim {
    /// The animation runs and its duration has not yet passed.  Whether a
    /// running animation is still within the duration depends on the clock.
    pub fn is_active(&self) -> (r: bool)
        ensures
            r ==> self.timer.is_running(),
            !self.timer.is_running() ==> !r,
    {
        self.timer.is_running_within(Duration::from_millis(HOLD_DURATION_MILLIS))
    }

    pub fn start(&mut self)
        ensures
            final(self).timer.is_running(),
    {
        self.timer.start();
    }

    pub fn reset(&mut self)
        ensures
            !final(self).timer.is_running(),
    {
        self.timer = Stopwatch::new_stopped();
    }
}

impl Default for HoldToConfirmAnim {
    /// The animation starts out stopped.
    fn default() -> (r: HoldToConfirmAnim)
        ensures
            !r.timer.is_running(),
    {
        HoldToConfirmAnim { timer: Stopwatch::new_stopped() }
    }
}

/// Component requesting an action from a user.  Most typically embedded as a
/// content of a Frame and prompting "Tap to confirm" or "Hold to XYZ".
#[derive(Clone)]
pub struct HoldToConfirm {
    pub title: Label,
    pub area: Rect,
    pub button: Button,
    pub circle_color: Color,
    pub circle_pad_color: Color,
    pub circle_inner_color: Color,
    pub anim: HoldToConfirmAnim,
}

impl HoldToConfirm {
    /// The fixed appearance (title, colors) of two values agrees.
    pub open spec fn same_look(self, other: HoldToConfirm) -> bool {
        &&& self.title == other.title
        &&& self.circle_color == other.circle_color
        &&& self.circle_pad_color == other.circle_pad_color
        &&& self.circle_inner_color == other.circle_inner_color
    }

    pub fn new() -> (r: HoldToConfirm)
        ensures
            r.button.long_press == Some(Duration { millis: HOLD_DURATION_MILLIS }),
            !r.button.haptics,
            r.button.state is Initial,
            !r.anim.timer.is_running(),
            r.area == (Rect { x0: 0i16, y0: 0i16, x1: 0i16, y1: 0i16 }),
            r.title.vertically_centered,
            r.title.alignment is Start,
    {
        let button = Button::new(ButtonContent::Empty).with_long_press(
            Duration::from_millis(HOLD_DURATION_MILLIS),
        ).without_haptics();
        HoldToConfirm {
            title: Label::new("Continue\nHolding".to_owned(), Alignment::Start)
                .vertically_centered(),
            area: Rect::zero(),
            circle_color: theme::green(),
            circle_pad_color: theme::grey_extra_dark(),
            circle_inner_color: theme::green_light(),
            button,
            anim: HoldToConfirmAnim { timer: Stopwatch::new_stopped() },
        }
    }

    /// Drives the animation from one button message: pressing starts it,
    /// releasing or clicking early resets it, a completed long press
    /// confirms.
    pub fn apply_button_msg(&mut self, ctx: &mut EventCtx, msg: Option<ButtonMsg>) -> (r: Option<
        (),
    >)
        ensures
            old(self).same_look(*final(self)),
            final(self).area == old(self).area,
            final(self).button == old(self).button,
            match msg {
                Some(ButtonMsg::Pressed) => {
                    &&& final(self).anim.timer.is_running()
                    &&& r is None
                    &&& *final(ctx) == (EventCtx {
                        paint_requested: true,
                        anim_frame_requested: true,
                        ..*old(ctx)
                    })
                },
                Some(ButtonMsg::Released) | Some(ButtonMsg::Clicked) => {
                    &&& !final(self).anim.timer.is_running()
                    &&& r is None
                    &&& *final(ctx) == (EventCtx {
                        paint_requested: true,
                        anim_frame_requested: true,
                        ..*old(ctx)
                    })
                },
                Some(ButtonMsg::LongPressed) => {
                    &&& r == Some(())
                    &&& final(self).anim == old(self).anim
                    &&& *final(ctx) == *old(ctx)
                },
                None => {
                    &&& r is None
                    &&& final(self).anim == old(self).anim
                    &&& *final(ctx) == *old(ctx)
                },
            },
    {
        match msg {
            Some(ButtonMsg::Pressed) => {
                self.anim.start();
                ctx.request_anim_frame();
                ctx.request_paint();
                None
            },
            Some(ButtonMsg::Released) => {
                self.anim.reset();
                ctx.request_anim_frame();
                ctx.request_paint();
                None
            },
            Some(ButtonMsg::Clicked) => {
                self.anim.reset();
                ctx.request_anim_frame();
                ctx.request_paint();
                None
            },
            Some(ButtonMsg::LongPressed) => Some(()),
            None => None,
        }
    }
}

impl Component for HoldToConfirm {
    type Msg = ();

    fn place(&mut self, bounds: Rect) -> (r: Rect)
        ensures
            final(self).area == bounds,
            r == bounds,
            final(self).anim == old(self).anim,
    {
        self.area = bounds;
        let center = self.area.center();
        self.button.place(Rect::snap(center, Offset::uniform(120), Alignment2D::Center));
        let split = bounds.split_top(42);
        self.title.place(split.0);
        bounds
    }

    /// Confirms only after a completed long press of the button: the message
    /// can only arise from a touch ending while the button was pressed with
    /// its threshold configured.
    fn event(&mut self, ctx: &mut EventCtx, event: Event) -> (r: Option<()>)
        ensures
            old(self).same_look(*final(self)),
            final(self).area == old(self).area,
            r is Some ==> {
                &&& old(self).button.state is Pressed
                &&& old(self).button.long_press is Some
                &&& event matches Event::Touch(crate::component::TouchEvent::TouchEnd(_))
            },
            (event is Attach || event matches Event::Timer(_)) ==> r is None && final(self).anim
                == old(self).anim,
    {
        let btn_msg = self.button.event(ctx, event);
        let confirmed = self.apply_button_msg(ctx, btn_msg);
        if confirmed.is_some() {
            return confirmed;
        }
        if self.anim.is_active() {
            ctx.request_anim_frame();
            ctx.request_paint();
        }
        None
    }
}

} // verus!
