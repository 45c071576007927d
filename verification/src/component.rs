//! Component plumbing: events, the event context that collects a component's
//! requests towards its host, and the wrapper that fires a button request
//! once.

use vstd::prelude::*;

verus! {

use crate::display::Color;
use crate::geometry::{Point, Rect};

/// A touch-panel event with its position.
#[derive(Clone, Copy, PartialEq, Eq, Structural, Debug)]
pub enum TouchEvent {
    TouchStart(Point),
    TouchMove(Point),
    TouchEnd(Point),
}

/// An event delivered to a component.
#[derive(Clone, Copy, PartialEq, Eq, Structural, Debug)]
pub enum Event {
    /// The component has just been attached to the screen.
    Attach,
    /// A timer the component requested has fired.
    Timer(u32),
    /// Touch input.
    Touch(TouchEvent),
}

/// Identifies which host interaction a button request asks for.
#[derive(Clone, Copy, PartialEq, Eq, Structural, Debug)]
pub struct ButtonRequestCode(pub u16);

/// A request towards the host to prompt the user for a button press.
#[derive(Clone, Copy)]
pub struct ButtonRequest {
    pub code: ButtonRequestCode,
    pub br_type: &'static str,
}

/// Collects what a component asks of its host while handling an event:
/// repaints, animation frames, page counts and button requests.
pub struct EventCtx {
    pub paint_requested: bool,
    pub anim_frame_requested: bool,
    pub page_count: Option<usize>,
    pub button_request: Option<(ButtonRequestCode, &'static str)>,
}

impl EventCtx {
    /// A fresh context with nothing requested.
    pub fn new() -> (r: EventCtx)
        ensures
            !r.paint_requested,
            !r.anim_frame_requested,
            r.page_count is None,
            r.button_request is None,
    {
        EventCtx {
            paint_requested: false,
            anim_frame_requested: false,
            page_count: None,
            button_request: None,
        }
    }

    /// Asks the host to repaint after this event.
    pub fn request_paint(&mut self)
        ensures
            *final(self) == (EventCtx { paint_requested: true, ..*old(self) }),
    {
        self.paint_requested = true;
    }

    /// Asks the host for one more animation frame.
    pub fn request_anim_frame(&mut self)
        ensures
            *final(self) == (EventCtx { anim_frame_requested: true, ..*old(self) }),
    {
        self.anim_frame_requested = true;
    }

    /// Reports how many swipeable pages the component currently shows.
    pub fn set_page_count(&mut self, count: usize)
        ensures
            *final(self) == (EventCtx { page_count: Some(count), ..*old(self) }),
    {
        self.page_count = Some(count);
    }

    /// Sends a button request towards the host.
    pub fn send_button_request(&mut self, code: ButtonRequestCode, br_type: &'static str)
        ensures
            *final(self) == (EventCtx { button_request: Some((code, br_type)), ..*old(self) }),
    {
        self.button_request = Some((code, br_type));
    }
}

/// A message type for components that never produce a message.
#[derive(Clone, Copy, PartialEq, Eq, Structural, Debug)]
pub enum Never {
    Nothing,
}

/// A visual component: it is placed into screen bounds and reacts to events,
/// possibly with a message for its parent.
pub trait Component {
    type Msg;

    fn place(&mut self, bounds: Rect) -> (r: Rect)
        requires
            bounds.wf(),
    ;

    fn event(&mut self, ctx: &mut EventCtx, event: Event) -> (r: Option<Self::Msg>);
}

/// A component that can be leafed through page by page.
pub trait Paginate {
    fn page_count(&mut self) -> (r: usize);

    fn change_page(&mut self, to_page: usize);
}

/// A cleared background area behind other components.
#[derive(Clone, Copy, PartialEq, Eq, Structural, Debug)]
pub struct Pad {
    pub area: Rect,
    pub color: Color,
    pub clear: bool,
}

impl Pad {
    /// A pad that will paint the given background once placed.
    pub fn with_background(color: Color) -> (r: Pad)
        ensures
            r.area == (Rect { x0: 0i16, y0: 0i16, x1: 0i16, y1: 0i16 }),
            r.color == color,
            r.clear,
    {
        Pad { area: Rect::zero(), color, clear: true }
    }

    pub fn place(&mut self, area: Rect)
        ensures
            *final(self) == (Pad { area, ..*old(self) }),
    {
        self.area = area;
    }

    /// Marks the pad's background for repainting.
    pub fn clear(&mut self)
        ensures
            *final(self) == (Pad { clear: true, ..*old(self) }),
    {
        self.clear = true;
    }
}

/// A piece of text with its alignment.
#[derive(Clone)]
pub struct Label {
    pub text: String,
    pub alignment: crate::geometry::Alignment,
    pub vertically_centered: bool,
    pub area: Rect,
}

impl Label {
    pub fn new(text: String, alignment: crate::geometry::Alignment) -> (r: Label)
        ensures
            r.text == text,
            r.alignment == alignment,
            !r.vertically_centered,
            r.area == (Rect { x0: 0i16, y0: 0i16, x1: 0i16, y1: 0i16 }),
    {
        Label { text, alignment, vertically_centered: false, area: Rect::zero() }
    }

    /// Centers the text vertically inside its area.
    pub fn vertically_centered(self) -> (r: Label)
        ensures
            r == (Label { vertically_centered: true, ..self }),
    {
        Label { vertically_centered: true, ..self }
    }

    pub fn place(&mut self, area: Rect) -> (r: Rect)
        ensures
            *final(self) == (Label { area, ..*old(self) }),
            r == area,
    {
        self.area = area;
        area
    }
}

/// Component that sends a ButtonRequest after receiving Event::Attach.  The
/// request is only sent once.
#[derive(Clone, Copy)]
pub struct OneButtonRequest<T> {
    pub button_request: Option<ButtonRequest>,
    pub inner: T,
}

impl<T> OneButtonRequest<T> {
    /// The request still waiting to be sent, if any.
    pub open spec fn pending(&self) -> Option<ButtonRequest> {
        self.button_request
    }

    pub fn new(button_request: ButtonRequest, inner: T) -> (r: Self)
        ensures
            r.pending() == Some(button_request),
            r.inner == inner,
    {
        Self { button_request: Some(button_request), inner }
    }
}

impl<T: Component> Component for OneButtonRequest<T> {
    type Msg = T::Msg;

    fn place(&mut self, bounds: Rect) -> (r: Rect)
        ensures
            final(self).pending() == old(self).pending(),
    {
        self.inner.place(bounds)
    }

    fn event(&mut self, ctx: &mut EventCtx, event: Event) -> (r: Option<Self::Msg>)
        ensures
            final(self).pending() == (if event is Attach {
                None
            } else {
                old(self).pending()
            }),
    {
        if matches!(event, Event::Attach) {
            if let Some(button_request) = self.button_request.take() {
                ctx.send_button_request(button_request.code, button_request.br_type)
            }
        }
        self.inner.event(ctx, event)
    }
}

/// Wraps any component so that it fires one button request when attached.
pub trait ButtonRequestExt: Component where Self: Sized {
    fn one_button_request(self, code: ButtonRequestCode, br_type: &'static str) -> (r:
        OneButtonRequest<Self>)
        ensures
            r.pending() == Some(ButtonRequest { code, br_type }),
            r.inner == self,
    {
        OneButtonRequest::new(ButtonRequest { code, br_type }, self)
    }
}

impl<T: Component> ButtonRequestExt for T {

}

} // verus!
