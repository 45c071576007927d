//! A scroll bar: tracks which of a number of pages is active.

use vstd::prelude::*;

verus! {

use crate::geometry::Rect;

/// Tracks the active page among `page_count` pages.
#[derive(Clone, Copy, PartialEq, Eq, Structural, Debug)]
pub struct ScrollBar {
    pub area: Rect,
    pub page_count: usize,
    pub active_page: usize,
}

impl ScrollBar {
    /// There is a page after the active one.
    pub open spec fn spec_has_next_page(&self) -> bool {
        self.active_page + 1 < self.page_count
    }

    /// There is a page before the active one.
    pub open spec fn spec_has_previous_page(&self) -> bool {
        self.active_page > 0
    }

    /// A scroll bar laid out horizontally, with no pages yet.
    pub fn horizontal() -> (r: ScrollBar)
        ensures
            r.page_count == 0,
            r.active_page == 0,
            r.area == (Rect { x0: 0i16, y0: 0i16, x1: 0i16, y1: 0i16 }),
    {
        ScrollBar { area: Rect::zero(), page_count: 0, active_page: 0 }
    }

    pub fn place(&mut self, area: Rect)
        ensures
            *final(self) == (ScrollBar { area, ..*old(self) }),
    {
        self.area = area;
    }

    pub fn has_next_page(&self) -> (r: bool)
        ensures
            r == self.spec_has_next_page(),
    {
        self.page_count > 0 && self.active_page < self.page_count - 1
    }

    pub fn has_previous_page(&self) -> (r: bool)
        ensures
            r == self.spec_has_previous_page(),
    {
        self.active_page > 0
    }

    /// Advances to the next page, when there is one.
    pub fn go_to_next_page(&mut self)
        ensures
            final(self).active_page == if old(self).spec_has_next_page() {
                old(self).active_page + 1
            } else {
                old(self).active_page as int
            },
            *final(self) == (ScrollBar { active_page: final(self).active_page, ..*old(self) }),
    {
        if self.page_count > 0 && self.active_page < self.page_count - 1 {
            self.active_page = self.active_page + 1;
        }
    }

    /// Goes back to the previous page, when there is one.
    pub fn go_to_previous_page(&mut self)
        ensures
            final(self).active_page == if old(self).spec_has_previous_page() {
                old(self).active_page - 1
            } else {
                old(self).active_page as int
            },
            *final(self) == (ScrollBar { active_page: final(self).active_page, ..*old(self) }),
    {
        if self.active_page > 0 {
            self.active_page = self.active_page - 1;
        }
    }

    /// Sets the page count and jumps to the given page, clamped to the last
    /// page that exists.
    pub fn set_count_and_active_page(&mut self, page_count: usize, active_page: usize)
        ensures
            final(self).page_count == page_count,
            final(self).active_page == if page_count == 0 {
                0int
            } else if active_page < page_count {
                active_page as int
            } else {
                page_count - 1
            },
            final(self).area == old(self).area,
    {
        self.page_count = page_count;
        self.active_page = if page_count == 0 {
            0
        } else if active_page < page_count {
            active_page
        } else {
            page_count - 1
        };
    }
}

} // verus!
