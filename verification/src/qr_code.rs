//! The QR component's data side: the bounded text to encode, uppercased for
//! the compact alphanumeric mode when case does not matter.  Producing the
//! module matrix and drawing it are the host's part.

use vstd::prelude::*;

verus! {

use vstd::utf8::encode_utf8;

use crate::component::{Component, Event, EventCtx, Never};
use crate::geometry::Rect;

/// Longest text a QR of the supported version can hold, in bytes.
pub const MAX_DATA: usize = 311;

/// Errors of the QR component.
#[derive(Clone, Copy, PartialEq, Eq, Structural, Debug)]
pub enum Error {
    OutOfRange,
}

/// An ASCII lowercase letter mapped to its uppercase; every other byte (and
/// so every byte of a multi-byte character) unchanged.
pub open spec fn ascii_upper_byte(b: u8) -> u8 {
    if 0x61 <= b <= 0x7a {
        (b - 0x20) as u8
    } else {
        b
    }
}

/// The bytes with every ASCII lowercase letter uppercased.
pub open spec fn ascii_upper_bytes(s: Seq<u8>) -> Seq<u8> {
    s.map_values(|b: u8| ascii_upper_byte(b))
}

/// A QR code of a bounded text.
pub struct Qr {
    pub text: Vec<u8>,
    pub border: i16,
    pub area: Rect,
}

impl Qr {
    /// The text fits the supported QR version.
    pub open spec fn wf(&self) -> bool {
        self.text@.len() <= MAX_DATA
    }

    /// Takes the text to encode, as long as it fits; with case put aside,
    /// the text is uppercased byte by byte (which maps exactly the ASCII
    /// letters, wherever they stand).
    pub fn new(text: &str, case_sensitive: bool) -> (r: Result<Qr, Error>)
        ensures
            r is Ok <==> encode_utf8(text@).len() <= MAX_DATA,
            r matches Ok(qr) ==> {
                &&& qr.text@ == (if case_sensitive {
                    encode_utf8(text@)
                } else {
                    ascii_upper_bytes(encode_utf8(text@))
                })
                &&& qr.border == 0
                &&& qr.area == (Rect { x0: 0i16, y0: 0i16, x1: 0i16, y1: 0i16 })
                &&& qr.wf()
            },
    {
        let bytes: &[u8] = text.as_bytes();
        if bytes.len() > MAX_DATA {
            return Err(Error::OutOfRange);
        }
        let mut s: Vec<u8> = Vec::new();
        if case_sensitive {
            let mut i: usize = 0;
            while i < bytes.len()
                invariant
                    i <= bytes@.len(),
                    s@ == bytes@.take(i as int),
                decreases bytes@.len() - i,
            {
                s.push(bytes[i]);
                proof {
                    assert(s@ =~= bytes@.take(i as int + 1));
                }
                i = i + 1;
            }
            proof {
                assert(bytes@.take(bytes@.len() as int) =~= bytes@);
            }
        } else {
            let mut i: usize = 0;
            while i < bytes.len()
                invariant
                    i <= bytes@.len(),
                    s@ == ascii_upper_bytes(bytes@).take(i as int),
                decreases bytes@.len() - i,
            {
                let b = bytes[i];
                let u: u8 = if 0x61 <= b && b <= 0x7a {
                    b - 0x20
                } else {
                    b
                };
                s.push(u);
                proof {
                    assert(u == ascii_upper_bytes(bytes@)[i as int]);
                    assert(s@ =~= ascii_upper_bytes(bytes@).take(i as int + 1));
                }
                i = i + 1;
            }
            proof {
                assert(ascii_upper_bytes(bytes@).take(bytes@.len() as int) =~= ascii_upper_bytes(
                    bytes@,
                ));
            }
        }
        Ok(Qr { text: s, border: 0, area: Rect::zero() })
    }

    /// Adds a quiet border around the code.
    pub fn with_border(self, border: i16) -> (r: Qr)
        ensures
            r == (Qr { border, ..self }),
    {
        Qr { border, ..self }
    }

    /// The scale at which a code of `size` modules fits the available
    /// space after the border, when that scale is drawable (between one and
    /// ten pixels per module).
    pub fn qr_scale(avail_space: i16, border: i16, size: i16) -> (r: Option<i16>)
        requires
            size > 0,
        ensures
            ({
                let usable = avail_space - 2 * border;
                let scale = usable / (size as int);
                if usable >= 0 && 1 <= scale <= 10 {
                    r == Some(scale as i16)
                } else {
                    r is None
                }
            }),
    {
        let usable: i32 = avail_space as i32 - 2 * (border as i32);
        if usable < 0 {
            return None;
        }
        let scale: i32 = usable / (size as i32);
        if 1 <= scale && scale <= 10 {
            Some(scale as i16)
        } else {
            None
        }
    }
}

impl Component for Qr {
    type Msg = Never;

    fn place(&mut self, bounds: Rect) -> (r: Rect)
        ensures
            *final(self) == (Qr { area: bounds, ..*old(self) }),
            r == bounds,
    {
        self.area = bounds;
        bounds
    }

    fn event(&mut self, ctx: &mut EventCtx, event: Event) -> (r: Option<Never>)
        ensures
            r is None,
            *final(self) == *old(self),
            *final(ctx) == *old(ctx),
    {
        None
    }
}

} // verus!
