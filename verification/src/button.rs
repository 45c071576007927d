//! A touch button: pressed inside its area, released or clicked on the
//! touch's end, with an optional long-press threshold measured by a
//! stopwatch.

use vstd::prelude::*;

verus! {

use crate::component::{Event, EventCtx, TouchEvent};
use crate::geometry::Rect;
use crate::time::{within, Duration, Stopwatch};

/// What a button shows.
#[derive(Clone)]
pub enum ButtonContent {
    Empty,
    Text(String),
}

/// What a button reports to its parent.
#[derive(Clone, Copy, PartialEq, Eq, Structural, Debug)]
pub enum ButtonMsg {
    Pressed,
    Released,
    Clicked,
    LongPressed,
}

/// The button's touch state.
#[derive(Clone, Copy, PartialEq, Eq, Structural, Debug)]
pub enum ButtonState {
    Initial,
    Pressed,
}

/// A touch button.
#[derive(Clone)]
pub struct Button {
    pub content: ButtonContent,
    pub area: Rect,
    pub long_press: Option<Duration>,
    pub haptics: bool,
    pub state: ButtonState,
    pub timer: Stopwatch,
}

impl Button {
    /// The configuration (everything but the touch state) of two buttons
    /// agrees.
    pub open spec fn same_config(self, other: Button) -> bool {
        &&& self.content == other.content
        &&& self.area == other.area
        &&& self.long_press == other.long_press
        &&& self.haptics == other.haptics
    }

    pub fn new(content: ButtonContent) -> (r: Button)
        ensures
            r.content == content,
            r.area == (Rect { x0: 0i16, y0: 0i16, x1: 0i16, y1: 0i16 }),
            r.long_press is None,
            r.haptics,
            r.state is Initial,
            !r.timer.is_running(),
    {
        Button {
            content,
            area: Rect::zero(),
            long_press: None,
            haptics: true,
            state: ButtonState::Initial,
            timer: Stopwatch::new_stopped(),
        }
    }

    /// The button reports a long press instead of a click when held at least
    /// this long.
    pub fn with_long_press(self, duration: Duration) -> (r: Button)
        ensures
            r == (Button { long_press: Some(duration), ..self }),
    {
        Button { long_press: Some(duration), ..self }
    }

    /// Disables haptic feedback for this button.
    pub fn without_haptics(self) -> (r: Button)
        ensures
            r == (Button { haptics: false, ..self }),
    {
        Button { haptics: false, ..self }
    }

    pub fn place(&mut self, bounds: Rect) -> (r: Rect)
        ensures
            *final(self) == (Button { area: bounds, ..*old(self) }),
            r == bounds,
    {
        self.area = bounds;
        bounds
    }

    /// Reacts to one event.  A touch starting inside the area presses the
    /// button and starts its timer; the touch leaving the area releases it;
    /// the touch ending inside clicks it, or reports a long press when the
    /// held time reached the configured threshold (a clock reading, so both
    /// outcomes are allowed by the contract and a missing threshold forces
    /// the click).
    pub fn event(&mut self, ctx: &mut EventCtx, event: Event) -> (r: Option<ButtonMsg>)
        ensures
            *final(ctx) == *old(ctx),
            old(self).same_config(*final(self)),
            match event {
                Event::Touch(TouchEvent::TouchStart(p)) => if old(self).area.spec_contains(p) {
                    &&& final(self).state is Pressed
                    &&& final(self).timer.is_running()
                    &&& r == Some(ButtonMsg::Pressed)
                } else {
                    *final(self) == *old(self) && r is None
                },
                Event::Touch(TouchEvent::TouchMove(p)) => if old(self).state is Pressed && !old(
                    self,
                ).area.spec_contains(p) {
                    &&& final(self).state is Initial
                    &&& r == Some(ButtonMsg::Released)
                } else {
                    *final(self) == *old(self) && r is None
                },
                Event::Touch(TouchEvent::TouchEnd(p)) => if old(self).state is Pressed {
                    &&& final(self).state is Initial
                    &&& (if old(self).area.spec_contains(p) {
                        &&& (old(self).long_press is None ==> r == Some(ButtonMsg::Clicked))
                        &&& (r == Some(ButtonMsg::Clicked) || r == Some(ButtonMsg::LongPressed))
                    } else {
                        r == Some(ButtonMsg::Released)
                    })
                } else {
                    *final(self) == *old(self) && r is None
                },
                _ => *final(self) == *old(self) && r is None,
            },
    {
        match event {
            Event::Touch(TouchEvent::TouchStart(p)) => {
                if self.area.contains(p) {
                    self.state = ButtonState::Pressed;
                    self.timer.start();
                    Some(ButtonMsg::Pressed)
                } else {
                    None
                }
            },
            Event::Touch(TouchEvent::TouchMove(p)) => {
                if matches!(self.state, ButtonState::Pressed) && !self.area.contains(p) {
                    self.state = ButtonState::Initial;
                    Some(ButtonMsg::Released)
                } else {
                    None
                }
            },
            Event::Touch(TouchEvent::TouchEnd(p)) => {
                if matches!(self.state, ButtonState::Pressed) {
                    self.state = ButtonState::Initial;
                    if self.area.contains(p) {
                        let held = self.timer.elapsed();
                        match self.long_press {
                            Some(limit) => if within(held, limit) {
                                Some(ButtonMsg::Clicked)
                            } else {
                                Some(ButtonMsg::LongPressed)
                            },
                            None => Some(ButtonMsg::Clicked),
                        }
                    } else {
                        Some(ButtonMsg::Released)
                    }
                } else {
                    None
                }
            },
            _ => None,
        }
    }
}

} // verus!
