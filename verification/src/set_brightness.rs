//! The brightness dialog: a slider over the backlight range, starting from
//! the current level.

use vstd::prelude::*;

verus! {

use crate::component::{Component, Event, EventCtx};
use crate::geometry::{clamp_between, Rect};
use crate::number_input_slider::{NumberInputSliderDialog, NumberInputSliderDialogMsg};
use crate::theme;

/// A dialog to pick the display brightness.  Each change of the slider is
/// reported to the host, which applies it to the backlight.
pub struct SetBrightnessDialog(pub NumberInputSliderDialog);

impl SetBrightnessDialog {
    /// A dialog over the backlight range, starting at `current`, or at the
    /// normal level when none is given.
    pub fn new(current: Option<u16>) -> (r: SetBrightnessDialog)
        ensures
            r.0.min == 10,
            r.0.max == 255,
            r.0.value as int == clamp_between(
                10,
                match current {
                    Some(c) => c as int,
                    None => 150,
                },
                255,
            ),
            r.0.wf(),
    {
        let current = match current {
            Some(c) => c,
            None => theme::get_backlight_normal(),
        };
        SetBrightnessDialog(
            NumberInputSliderDialog::new(
                theme::get_backlight_min(),
                theme::get_backlight_max(),
                current,
            ),
        )
    }
}

impl Component for SetBrightnessDialog {
    type Msg = NumberInputSliderDialogMsg;

    fn place(&mut self, bounds: Rect) -> (r: Rect)
        ensures
            final(self).0 == (NumberInputSliderDialog { area: bounds, ..old(self).0 }),
            r == bounds,
    {
        self.0.place(bounds)
    }

    /// Forwards the event to the slider and reports its changes unchanged;
    /// applying the new level to the backlight hardware is the host's part.
    fn event(&mut self, ctx: &mut EventCtx, event: Event) -> (r: Option<NumberInputSliderDialogMsg>)
        ensures
            final(self).0.min == old(self).0.min,
            final(self).0.max == old(self).0.max,
            final(self).0.area == old(self).0.area,
            r matches Some(NumberInputSliderDialogMsg::Changed(v)) ==> v == final(self).0.value,
    {
        match self.0.event(ctx, event) {
            Some(NumberInputSliderDialogMsg::Changed(value)) => Some(
                NumberInputSliderDialogMsg::Changed(value),
            ),
            None => None,
        }
    }
}

} // verus!
