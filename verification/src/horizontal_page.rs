//! A horizontally swipeable page container with a scroll bar.

use vstd::prelude::*;

verus! {

use crate::component::{Component, Event, EventCtx, Pad, Paginate};
use crate::display::Color;
use crate::geometry::Rect;
use crate::scroll::ScrollBar;
use crate::swipe::{swipe_step, Swipe, SwipeDirection};
use crate::theme;

/// Height of the scroll bar strip at the bottom.
pub const SCROLLBAR_HEIGHT: i16 = 32;

/// Pages its content horizontally: swiping left and right moves between the
/// content's pages, tracked by a scroll bar.
pub struct HorizontalPage<T> {
    pub content: T,
    pub pad: Pad,
    pub swipe: Swipe,
    pub scrollbar: ScrollBar,
    pub fade: Option<i32>,
}

impl<T> HorizontalPage<T> where T: Paginate, T: Component {
    pub fn new(content: T, background: Color) -> (r: HorizontalPage<T>)
        ensures
            r.content == content,
            r.pad.clear,
            r.pad.color == background,
            r.scrollbar.page_count == 0,
            r.scrollbar.active_page == 0,
            r.swipe.origin is None,
            r.fade is None,
    {
        HorizontalPage {
            content,
            scrollbar: ScrollBar::horizontal(),
            swipe: Swipe::new(),
            pad: Pad::with_background(background),
            fade: None,
        }
    }

    pub fn inner(&self) -> (r: &T)
        ensures
            *r == self.content,
    {
        &self.content
    }

    /// Lets the detector accept exactly the swipes that lead to an existing
    /// page.
    fn setup_swipe(&mut self)
        ensures
            *final(self) == (HorizontalPage {
                swipe: Swipe {
                    allow_left: old(self).scrollbar.spec_has_next_page(),
                    allow_right: old(self).scrollbar.spec_has_previous_page(),
                    ..old(self).swipe
                },
                ..*old(self)
            }),
    {
        self.swipe.allow_left = self.scrollbar.has_next_page();
        self.swipe.allow_right = self.scrollbar.has_previous_page();
    }

    /// After the scroll bar moved: re-arm the swipe detector, switch the
    /// content to the active page, repaint everything and fade the backlight
    /// back to normal.
    fn on_page_change(&mut self, ctx: &mut EventCtx)
        ensures
            final(self).swipe.allow_left == final(self).scrollbar.spec_has_next_page(),
            final(self).swipe.allow_right == final(self).scrollbar.spec_has_previous_page(),
            final(self).swipe.origin == old(self).swipe.origin,
            final(self).scrollbar == old(self).scrollbar,
            final(self).pad.clear,
            final(self).fade == Some(theme::BACKLIGHT_NORMAL),
            final(ctx).paint_requested,
    {
        self.setup_swipe();
        let active = self.scrollbar.active_page;
        self.content.change_page(active);
        ctx.request_paint();
        self.pad.clear();
        self.fade = Some(theme::BACKLIGHT_NORMAL);
    }
}

impl<T> Component for HorizontalPage<T> where T: Paginate, T: Component {
    type Msg = T::Msg;

    /// Lays the content above the scroll bar strip, counts the content's
    /// pages and starts at the first.
    fn place(&mut self, bounds: Rect) -> (r: Rect)
        ensures
            r == bounds,
            final(self).swipe.area == bounds,
            final(self).scrollbar.active_page == 0,
            final(self).swipe.allow_left == final(self).scrollbar.spec_has_next_page(),
            final(self).swipe.allow_right == final(self).scrollbar.spec_has_previous_page(),
    {
        self.swipe.place(bounds);

        let split = bounds.split_bottom(SCROLLBAR_HEIGHT);
        let content_area = split.0;
        let scrollbar_area = split.1;
        self.pad.place(content_area);
        self.content.place(content_area);
        self.scrollbar.place(scrollbar_area);

        let count = self.content.page_count();
        self.scrollbar.set_count_and_active_page(count, 0);
        self.setup_swipe();

        bounds
    }

    /// A decisive left or right swipe moves one page and is consumed; any
    /// other event goes to the content.
    fn event(&mut self, ctx: &mut EventCtx, event: Event) -> (r: Option<T::Msg>)
        ensures
            ({
                let step = swipe_step(old(self).swipe, event);
                &&& step.1 == Some(SwipeDirection::Left) ==> {
                    &&& r is None
                    &&& final(self).scrollbar.active_page == (if old(
                        self,
                    ).scrollbar.spec_has_next_page() {
                        old(self).scrollbar.active_page + 1
                    } else {
                        old(self).scrollbar.active_page as int
                    })
                    &&& final(self).fade == Some(theme::BACKLIGHT_NORMAL)
                }
                &&& step.1 == Some(SwipeDirection::Right) ==> {
                    &&& r is None
                    &&& final(self).scrollbar.active_page == (if old(
                        self,
                    ).scrollbar.spec_has_previous_page() {
                        old(self).scrollbar.active_page - 1
                    } else {
                        old(self).scrollbar.active_page as int
                    })
                    &&& final(self).fade == Some(theme::BACKLIGHT_NORMAL)
                }
                &&& (step.1 is None || step.1 == Some(SwipeDirection::Up) || step.1 == Some(
                    SwipeDirection::Down,
                )) ==> final(self).scrollbar == old(self).scrollbar
            }),
    {
        let count = self.scrollbar.page_count;
        ctx.set_page_count(count);
        if let Some(swipe) = self.swipe.event(ctx, event) {
            match swipe {
                SwipeDirection::Left => {
                    self.scrollbar.go_to_next_page();
                    self.on_page_change(ctx);
                    return None;
                },
                SwipeDirection::Right => {
                    self.scrollbar.go_to_previous_page();
                    self.on_page_change(ctx);
                    return None;
                },
                _ => {},
            }
        }
        self.content.event(ctx, event)
    }
}

} // verus!
