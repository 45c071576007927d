//! A horizontal slider selecting a number from a range by touch position.

use vstd::prelude::*;

verus! {

use crate::component::{Component, Event, EventCtx, TouchEvent};
use crate::geometry::{clamp_between, Rect};

/// The slider's message: the value changed to this.
#[derive(Clone, Copy, PartialEq, Eq, Structural, Debug)]
pub enum NumberInputSliderDialogMsg {
    Changed(u16),
}

/// The value selected when the touch sits at `x` inside `area`: `min` at the
/// left edge, `max` at the right, linear in between.
pub open spec fn value_at(area: Rect, min: u16, max: u16, x: i16) -> int {
    let w = area.x1 - area.x0;
    if w == 0 {
        min as int
    } else {
        min + clamp_between(0, x - area.x0, w) * (max - min) / w
    }
}

/// A dialog holding a slider over `min ..= max`.
#[derive(Clone, Copy, PartialEq, Eq, Structural, Debug)]
pub struct NumberInputSliderDialog {
    pub area: Rect,
    pub min: u16,
    pub max: u16,
    pub value: u16,
}

impl NumberInputSliderDialog {
    /// The range is ordered and the value inside it.
    pub open spec fn wf(&self) -> bool {
        self.min <= self.value <= self.max
    }

    pub fn new(min: u16, max: u16, value: u16) -> (r: NumberInputSliderDialog)
        requires
            min <= max,
        ensures
            r.min == min,
            r.max == max,
            r.value as int == clamp_between(min as int, value as int, max as int),
            r.wf(),
            r.area == (Rect { x0: 0i16, y0: 0i16, x1: 0i16, y1: 0i16 }),
    {
        let v: u16 = if value < min {
            min
        } else if value > max {
            max
        } else {
            value
        };
        NumberInputSliderDialog { area: Rect::zero(), min, max, value: v }
    }

    /// The value for a touch at `x`, proved to stay inside the range.
    fn value_from_position(&self, x: i16) -> (r: u16)
        requires
            self.area.wf(),
            self.min <= self.max,
        ensures
            r as int == value_at(self.area, self.min, self.max, x),
            self.min <= r <= self.max,
    {
        let w: i32 = self.area.x1 as i32 - self.area.x0 as i32;
        if w == 0 {
            return self.min;
        }
        let dx_raw: i32 = x as i32 - self.area.x0 as i32;
        let dx: i32 = if dx_raw < 0 {
            0
        } else if dx_raw > w {
            w
        } else {
            dx_raw
        };
        let range: u32 = self.max as u32 - self.min as u32;
        proof {
            assert(dx as int * range as int <= 32767 * 65535) by (nonlinear_arith)
                requires
                    0 <= dx as int <= 32767,
                    0 <= range as int <= 65535,
            ;
        }
        let scaled: u32 = (dx as u32) * range / (w as u32);
        proof {
            assert(dx as int * range as int <= w as int * range as int) by (nonlinear_arith)
                requires
                    0 <= dx as int <= w as int,
                    0 <= range as int,
            ;
            assert(dx as int * range as int / w as int <= range as int) by (nonlinear_arith)
                requires
                    0 < w as int,
                    0 <= dx as int * range as int <= w as int * range as int,
                    0 <= range as int,
            ;
        }
        self.min + (scaled as u16)
    }
}

impl Component for NumberInputSliderDialog {
    type Msg = NumberInputSliderDialogMsg;

    fn place(&mut self, bounds: Rect) -> (r: Rect)
        ensures
            *final(self) == (NumberInputSliderDialog { area: bounds, ..*old(self) }),
            r == bounds,
    {
        self.area = bounds;
        bounds
    }

    /// A touch inside the area moves the value to the touched position; the
    /// end of such a touch reports the selection.
    fn event(&mut self, ctx: &mut EventCtx, event: Event) -> (r: Option<NumberInputSliderDialogMsg>)
        ensures
            final(self).area == old(self).area,
            final(self).min == old(self).min,
            final(self).max == old(self).max,
            r matches Some(NumberInputSliderDialogMsg::Changed(v)) ==> v == final(self).value,
            old(self).area.wf() && old(self).min <= old(self).max ==> match event {
                Event::Touch(TouchEvent::TouchStart(p)) | Event::Touch(
                    TouchEvent::TouchMove(p),
                ) => if old(self).area.spec_contains(p) {
                    &&& final(self).value as int == value_at(
                        old(self).area,
                        old(self).min,
                        old(self).max,
                        p.x,
                    )
                    &&& r is None
                    &&& final(ctx).paint_requested
                } else {
                    final(self).value == old(self).value && r is None
                },
                Event::Touch(TouchEvent::TouchEnd(p)) => if old(self).area.spec_contains(p) {
                    &&& final(self).value as int == value_at(
                        old(self).area,
                        old(self).min,
                        old(self).max,
                        p.x,
                    )
                    &&& r == Some(NumberInputSliderDialogMsg::Changed(final(self).value))
                } else {
                    final(self).value == old(self).value && r is None
                },
                _ => final(self).value == old(self).value && r is None,
            },
    {
        if self.area.wf_check() && self.min <= self.max {
            match event {
                Event::Touch(TouchEvent::TouchStart(p)) | Event::Touch(TouchEvent::TouchMove(p)) => {
                    if self.area.contains(p) {
                        self.value = self.value_from_position(p.x);
                        ctx.request_paint();
                        None
                    } else {
                        None
                    }
                },
                Event::Touch(TouchEvent::TouchEnd(p)) => {
                    if self.area.contains(p) {
                        self.value = self.value_from_position(p.x);
                        Some(NumberInputSliderDialogMsg::Changed(self.value))
                    } else {
                        None
                    }
                },
                _ => None,
            }
        } else {
            None
        }
    }
}

} // verus!
