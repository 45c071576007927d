//! The fixed palette, backlight levels and timing constants the components
//! draw on.

use vstd::prelude::*;

verus! {

use crate::display::{rgb565, Color};

/// Backlight level restored after a page change.
pub const BACKLIGHT_NORMAL: i32 = 150;

pub fn black() -> (c: Color)
    ensures
        c.0 == 0,
{
    Color::rgb(0, 0, 0)
}

pub fn green() -> (c: Color)
    ensures
        c.0 == rgb565(0, 170, 68),
{
    Color::rgb(0, 170, 68)
}

pub fn green_light() -> (c: Color)
    ensures
        c.0 == rgb565(8, 230, 136),
{
    Color::rgb(8, 230, 136)
}

pub fn grey_extra_dark() -> (c: Color)
    ensures
        c.0 == rgb565(32, 32, 32),
{
    Color::rgb(32, 32, 32)
}

pub fn grey_light() -> (c: Color)
    ensures
        c.0 == rgb565(192, 192, 192),
{
    Color::rgb(192, 192, 192)
}

pub fn orange_light() -> (c: Color)
    ensures
        c.0 == rgb565(255, 160, 64),
{
    Color::rgb(255, 160, 64)
}

/// The backlight level the slider starts from when none is given.
pub fn get_backlight_normal() -> (r: u16)
    ensures
        r == 150,
{
    150
}

/// The dimmest selectable backlight level.
pub fn get_backlight_min() -> (r: u16)
    ensures
        r == 10,
{
    10
}

/// The brightest selectable backlight level.
pub fn get_backlight_max() -> (r: u16)
    ensures
        r == 255,
{
    255
}

} // verus!
