use vstd::prelude::*;

verus! {

/// `a - b`, or 0 where `b` is larger.
pub open spec fn sat_sub(a: int, b: int) -> int {
    if a > b {
        a - b
    } else {
        0
    }
}

/// `x` capped at the largest `u16`.
pub open spec fn cap_u16(x: int) -> int {
    if x > u16::MAX {
        u16::MAX as int
    } else {
        x
    }
}

/// The window of `lines_count` lines shown from `current_scroll`, `visible_height`
/// lines high: its first line, the line past its end, and the furthest scroll
/// position (capped at the largest `u16`).
pub fn calculate_scroll_bounds(lines_count: usize, visible_height: usize, current_scroll: u16) -> (r: (
    usize,
    usize,
    u16,
))
    ensures
        r.2 == cap_u16(sat_sub(lines_count as int, visible_height as int)),
        lines_count == 0 ==> r.0 == 0,
        lines_count > 0 ==> r.0 == vstd::math::min(
            vstd::math::min(current_scroll as int, r.2 as int),
            lines_count - 1,
        ),
        r.1 == vstd::math::min(r.0 + visible_height, lines_count as int),
        r.0 <= r.1 <= lines_count,
{
    let over = if lines_count > visible_height {
        lines_count - visible_height
    } else {
        0
    };
    let max_scroll: u16 = if over > 65535 {
        65535
    } else {
        over as u16
    };
    let safe_scroll = if current_scroll < max_scroll {
        current_scroll
    } else {
        max_scroll
    };
    let start_index = if lines_count == 0 {
        0
    } else if (safe_scroll as usize) < lines_count - 1 {
        safe_scroll as usize
    } else {
        lines_count - 1
    };
    let end_index = if visible_height >= lines_count - start_index {
        lines_count
    } else {
        start_index + visible_height
    };
    (start_index, end_index, max_scroll)
}

/// The first link shown in a list `visible_height` links high, so that the
/// selected link stays in view with as little movement as possible.
pub fn update_links_scroll(selected_link: usize, current_scroll: usize, visible_height: usize) -> (r:
    usize)
    ensures
        visible_height == 0 ==> r == current_scroll,
        visible_height > 0 ==> r == if selected_link < current_scroll {
            selected_link as int
        } else if selected_link >= current_scroll + visible_height {
            selected_link + 1 - visible_height
        } else {
            current_scroll as int
        },
        visible_height > 0 ==> r <= selected_link < r + visible_height || (current_scroll
            <= selected_link && r == current_scroll),
{
    if visible_height == 0 {
        return current_scroll;
    }
    if selected_link < current_scroll {
        selected_link
    } else if selected_link - current_scroll >= visible_height {
        selected_link - visible_height + 1
    } else {
        current_scroll
    }
}

/// Height of the link list the selection is kept visible in.
pub const LINKS_VISIBLE_HEIGHT: usize = 10;

/// A renderer's scroll position and link selection.
pub struct ScrollState {
    pub scroll_position: u16,
    pub selected_link: usize,
    pub links_scroll: usize,
    pub max_scroll: u16,
}

impl ScrollState {
    pub fn new() -> (r: Self)
        ensures
            r.scroll_position == 0 && r.selected_link == 0 && r.links_scroll == 0 && r.max_scroll
                == 0,
    {
        ScrollState { scroll_position: 0, selected_link: 0, links_scroll: 0, max_scroll: 0 }
    }

    /// Scrolls one line up, stopping at the top.
    pub fn scroll_up(&mut self)
        ensures
            final(self).scroll_position == sat_sub(old(self).scroll_position as int, 1),
            final(self).selected_link == old(self).selected_link,
            final(self).links_scroll == old(self).links_scroll,
            final(self).max_scroll == old(self).max_scroll,
    {
        if self.scroll_position > 0 {
            self.scroll_position = self.scroll_position - 1;
        }
    }

    /// Scrolls one line down, stopping at the furthest position.
    pub fn scroll_down(&mut self)
        ensures
            final(self).scroll_position == if old(self).scroll_position < old(self).max_scroll {
                old(self).scroll_position + 1
            } else {
                old(self).scroll_position as int
            },
            final(self).selected_link == old(self).selected_link,
            final(self).links_scroll == old(self).links_scroll,
            final(self).max_scroll == old(self).max_scroll,
    {
        if self.scroll_position < self.max_scroll {
            self.scroll_position = self.scroll_position + 1;
        }
    }

    /// Selects the previous of `links_len` links, if there is one.
    pub fn select_prev_link(&mut self, links_len: usize)
        ensures
            final(self).selected_link == if links_len > 0 && old(self).selected_link > 0 {
                old(self).selected_link - 1
            } else {
                old(self).selected_link as int
            },
            final(self).scroll_position == old(self).scroll_position,
            final(self).max_scroll == old(self).max_scroll,
    {
        if links_len > 0 && self.selected_link > 0 {
            self.selected_link = self.selected_link - 1;
            self.links_scroll = update_links_scroll(
                self.selected_link,
                self.links_scroll,
                LINKS_VISIBLE_HEIGHT,
            );
        }
    }

    /// Selects the next of `links_len` links, if there is one.
    pub fn select_next_link(&mut self, links_len: usize)
        ensures
            final(self).selected_link == if links_len > 0 && old(self).selected_link + 1
                < links_len {
                old(self).selected_link + 1
            } else {
                old(self).selected_link as int
            },
            final(self).scroll_position == old(self).scroll_position,
            final(self).max_scroll == old(self).max_scroll,
    {
        if links_len > 0 && self.selected_link < links_len - 1 {
            self.selected_link = self.selected_link + 1;
            self.links_scroll = update_links_scroll(
                self.selected_link,
                self.links_scroll,
                LINKS_VISIBLE_HEIGHT,
            );
        }
    }

    pub fn get_selected_link(&self) -> (r: usize)
        ensures
            r == self.selected_link,
    {
        self.selected_link
    }

    /// Back to the top, with the first link selected.
    pub fn reset_scroll(&mut self)
        ensures
            final(self).scroll_position == 0,
            final(self).selected_link == 0,
            final(self).links_scroll == 0,
            final(self).max_scroll == old(self).max_scroll,
    {
        self.scroll_position = 0;
        self.selected_link = 0;
        self.links_scroll = 0;
    }

    /// The furthest scroll position for `lines_count` lines, `visible_height` shown.
    pub fn set_content_height(&mut self, lines_count: usize, visible_height: usize)
        ensures
            final(self).max_scroll == cap_u16(sat_sub(lines_count as int, visible_height as int)),
            final(self).scroll_position == old(self).scroll_position,
            final(self).selected_link == old(self).selected_link,
            final(self).links_scroll == old(self).links_scroll,
    {
        let (_, _, m) = calculate_scroll_bounds(lines_count, visible_height, 0);
        self.max_scroll = m;
    }
}

} // verus!
