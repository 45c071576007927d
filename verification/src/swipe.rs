//! Swipe detection: turns a touch that starts and ends inside an area into
//! a direction, when the displacement is decisive and that direction is
//! allowed.

use vstd::prelude::*;

verus! {

use crate::component::{Event, EventCtx, TouchEvent};
use crate::geometry::{Point, Rect};

/// A horizontal or vertical swipe gesture.
#[derive(Clone, Copy, PartialEq, Eq, Structural, Debug)]
pub enum SwipeDirection {
    Up,
    Down,
    Left,
    Right,
}

/// How far a touch must travel along the dominant axis to count as a swipe.
pub const SWIPE_THRESHOLD: i16 = 30;

/// Detects swipes over an area; each direction can be allowed separately.
#[derive(Clone, Copy, PartialEq, Eq, Structural, Debug)]
pub struct Swipe {
    pub area: Rect,
    pub allow_up: bool,
    pub allow_down: bool,
    pub allow_left: bool,
    pub allow_right: bool,
    pub origin: Option<Point>,
}

/// The direction a completed touch from `origin` to `end` swipes towards,
/// if its dominant-axis travel passes the threshold and that direction is
/// allowed.
pub open spec fn swipe_decision(s: Swipe, origin: Point, end: Point) -> Option<SwipeDirection> {
    let dx = end.x - origin.x;
    let dy = end.y - origin.y;
    let adx = if dx < 0 {
        -dx
    } else {
        dx
    };
    let ady = if dy < 0 {
        -dy
    } else {
        dy
    };
    if adx >= ady {
        if dx > SWIPE_THRESHOLD && s.allow_right {
            Some(SwipeDirection::Right)
        } else if dx < -(SWIPE_THRESHOLD as int) && s.allow_left {
            Some(SwipeDirection::Left)
        } else {
            None
        }
    } else {
        if dy > SWIPE_THRESHOLD && s.allow_down {
            Some(SwipeDirection::Down)
        } else if dy < -(SWIPE_THRESHOLD as int) && s.allow_up {
            Some(SwipeDirection::Up)
        } else {
            None
        }
    }
}

/// One step of the detector: the state after an event, and the swipe it
/// reports.
pub open spec fn swipe_step(s: Swipe, event: Event) -> (Swipe, Option<SwipeDirection>) {
    match event {
        Event::Touch(TouchEvent::TouchStart(p)) => if s.area.spec_contains(p) {
            (Swipe { origin: Some(p), ..s }, None)
        } else {
            (Swipe { origin: None, ..s }, None)
        },
        Event::Touch(TouchEvent::TouchEnd(p)) => match s.origin {
            Some(o) => (Swipe { origin: None, ..s }, swipe_decision(s, o, p)),
            None => (s, None),
        },
        _ => (s, None),
    }
}

impl Swipe {
    /// A detector with every direction disallowed and no touch in flight.
    pub fn new() -> (r: Swipe)
        ensures
            r == (Swipe {
                area: Rect { x0: 0i16, y0: 0i16, x1: 0i16, y1: 0i16 },
                allow_up: false,
                allow_down: false,
                allow_left: false,
                allow_right: false,
                origin: None,
            }),
    {
        Swipe {
            area: Rect::zero(),
            allow_up: false,
            allow_down: false,
            allow_left: false,
            allow_right: false,
            origin: None,
        }
    }

    pub fn place(&mut self, bounds: Rect) -> (r: Rect)
        ensures
            *final(self) == (Swipe { area: bounds, ..*old(self) }),
            r == bounds,
    {
        self.area = bounds;
        bounds
    }

    /// Feeds one event to the detector; the state moves and the swipe is
    /// reported exactly as [`swipe_step`] says.
    pub fn event(&mut self, ctx: &mut EventCtx, event: Event) -> (r: Option<SwipeDirection>)
        ensures
            *final(ctx) == *old(ctx),
            (*final(self), r) == swipe_step(*old(self), event),
    {
        match event {
            Event::Touch(TouchEvent::TouchStart(p)) => {
                if self.area.contains(p) {
                    self.origin = Some(p);
                } else {
                    self.origin = None;
                }
                None
            },
            Event::Touch(TouchEvent::TouchEnd(p)) => {
                match self.origin {
                    Some(o) => {
                        self.origin = None;
                        let dx: i32 = p.x as i32 - o.x as i32;
                        let dy: i32 = p.y as i32 - o.y as i32;
                        let adx: i32 = if dx < 0 {
                            -dx
                        } else {
                            dx
                        };
                        let ady: i32 = if dy < 0 {
                            -dy
                        } else {
                            dy
                        };
                        if adx >= ady {
                            if dx > SWIPE_THRESHOLD as i32 && self.allow_right {
                                Some(SwipeDirection::Right)
                            } else if dx < -(SWIPE_THRESHOLD as i32) && self.allow_left {
                                Some(SwipeDirection::Left)
                            } else {
                                None
                            }
                        } else {
                            if dy > SWIPE_THRESHOLD as i32 && self.allow_down {
                                Some(SwipeDirection::Down)
                            } else if dy < -(SWIPE_THRESHOLD as i32) && self.allow_up {
                                Some(SwipeDirection::Up)
                            } else {
                                None
                            }
                        }
                    },
                    None => None,
                }
            },
            _ => None,
        }
    }
}

} // verus!
