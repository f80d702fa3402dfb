//! Scroll position of one axis of a viewport over content that grows.

use vstd::prelude::*;

verus! {

/// The largest offset to which content of extent `content` can be scrolled
/// in a viewport of extent `viewport`: what does not fit, or zero.
pub open spec fn scroll_range(content: nat, viewport: nat) -> nat {
    if content > viewport {
        (content - viewport) as nat
    } else {
        0
    }
}

/// `a - b`, or zero where `b` is the larger.
pub open spec fn minus_or_zero(a: nat, b: nat) -> nat {
    if a > b {
        (a - b) as nat
    } else {
        0
    }
}

/// The smaller of two numbers.
pub open spec fn at_most(a: nat, b: nat) -> nat {
    if a <= b {
        a
    } else {
        b
    }
}

/// One axis of scroll state as contracts see it.
pub struct ScrollView {
    /// The offset of the first visible row or column.
    pub position: nat,
    /// How many rows or columns the viewport shows.
    pub viewport: nat,
    /// How many rows or columns there are to show.
    pub content: nat,
}

impl ScrollView {
    /// The largest position there is to scroll to.
    pub open spec fn max_offset(self) -> nat {
        scroll_range(self.content, self.viewport)
    }

    /// The position lies within what can be scrolled to.
    pub open spec fn in_range(self) -> bool {
        self.position <= self.max_offset()
    }

    /// Whether the newest content is in view.
    pub open spec fn at_tail(self) -> bool {
        self.position == self.max_offset()
    }

    /// One step towards the start, stopping at zero.
    pub open spec fn scrolled_back(self) -> ScrollView {
        ScrollView { position: minus_or_zero(self.position, 1), ..self }
    }

    /// One step towards the end, stopping at the largest offset; nothing
    /// where the content fits the viewport.
    pub open spec fn scrolled_forward(self) -> ScrollView {
        if self.content > self.viewport {
            ScrollView { position: at_most(self.position + 1, self.max_offset()), ..self }
        } else {
            self
        }
    }

    /// The viewport takes a new extent; a position that no longer exists
    /// moves to the nearest one that does.
    pub open spec fn resized(self, viewport: nat) -> ScrollView {
        ScrollView {
            position: at_most(self.position, scroll_range(self.content, viewport)),
            viewport,
            content: self.content,
        }
    }

    /// The content takes a new extent and the position stays where it is, as
    /// far as it still exists.
    pub open spec fn extended(self, content: nat) -> ScrollView {
        ScrollView {
            position: at_most(self.position, scroll_range(content, self.viewport)),
            viewport: self.viewport,
            content,
        }
    }

    /// The content takes a new extent after entries came in, and perhaps
    /// others left. A position that showed the tail of the content held
    /// before moves on to the new tail; any other stays where it is, as far
    /// as it still exists.
    pub open spec fn followed(self, content: nat) -> ScrollView {
        if self.at_tail() {
            ScrollView {
                position: scroll_range(content, self.viewport),
                viewport: self.viewport,
                content,
            }
        } else {
            self.extended(content)
        }
    }
}

/// Scroll position, viewport extent and content extent of one axis.
#[derive(Debug, Clone, Copy)]
pub struct ScrollState {
    pos: usize,
    size: u16,
    content: usize,
}

impl View for ScrollState {
    type V = ScrollView;

    closed spec fn view(&self) -> ScrollView {
        ScrollView {
            position: self.pos as nat,
            viewport: self.size as nat,
            content: self.content as nat,
        }
    }
}

impl Default for ScrollState {
    /// Nothing to show yet, in a viewport taken to be as large as can be
    /// until its real extent is known.
    fn default() -> (r: ScrollState)
        ensures
            r@ == (ScrollView { position: 0, viewport: u16::MAX as nat, content: 0 }),
            r.wf(),
    {
        ScrollState { pos: 0, size: u16::MAX, content: 0 }
    }
}

impl ScrollState {
    /// The position lies within what can be scrolled to.
    pub open spec fn wf(&self) -> bool {
        self@.in_range()
    }

    /// The offset of the first visible row or column.
    pub fn position(&self) -> (r: usize)
        ensures
            r == self@.position,
    {
        self.pos
    }

    /// How many rows or columns the viewport shows.
    pub fn viewport_extent(&self) -> (r: u16)
        ensures
            r == self@.viewport,
    {
        self.size
    }

    /// How many rows or columns there are to show.
    pub fn content_extent(&self) -> (r: usize)
        ensures
            r == self@.content,
    {
        self.content
    }

    /// The largest position there is to scroll to.
    pub fn max_offset(&self) -> (r: usize)
        ensures
            r == self@.max_offset(),
    {
        Self::range_of(self.content, self.size)
    }

    fn range_of(content: usize, viewport: u16) -> (r: usize)
        ensures
            r == scroll_range(content as nat, viewport as nat),
    {
        if content > viewport as usize {
            content - viewport as usize
        } else {
            0
        }
    }

    /// One step towards the start, stopping at zero.
    pub fn scroll_back(&mut self)
        requires
            old(self).wf(),
        ensures
            final(self)@ == old(self)@.scrolled_back(),
            final(self).wf(),
    {
        self.pos = self.pos.saturating_sub(1);
    }

    /// One step towards the end, stopping at the largest offset; nothing
    /// where the content fits the viewport.
    pub fn scroll_forward(&mut self)
        requires
            old(self).wf(),
        ensures
            final(self)@ == old(self)@.scrolled_forward(),
            final(self).wf(),
    {
        if self.content > self.size as usize {
            let max: usize = self.content - self.size as usize;
            let next: usize = self.pos.saturating_add(1);
            self.pos = if next <= max {
                next
            } else {
                max
            };
        }
    }

    /// Gives the viewport a new extent.
    pub fn resize(&mut self, viewport: u16)
        ensures
            final(self)@ == old(self)@.resized(viewport as nat),
            final(self).wf(),
    {
        let max: usize = Self::range_of(self.content, viewport);
        let pos: usize = if self.pos <= max {
            self.pos
        } else {
            max
        };
        *self = ScrollState { pos, size: viewport, content: self.content };
    }

    /// Gives the content a new extent and leaves the position where it is.
    pub fn extend(&mut self, content: usize)
        ensures
            final(self)@ == old(self)@.extended(content as nat),
            final(self).wf(),
    {
        let max: usize = Self::range_of(content, self.size);
        let pos: usize = if self.pos <= max {
            self.pos
        } else {
            max
        };
        *self = ScrollState { pos, size: self.size, content };
    }

    /// Gives the content a new extent after entries came in, and keeps the
    /// tail in view where it was in view before.
    pub fn follow(&mut self, content: usize)
        ensures
            final(self)@ == old(self)@.followed(content as nat),
            final(self).wf(),
    {
        if self.pos == Self::range_of(self.content, self.size) {
            let max: usize = Self::range_of(content, self.size);
            *self = ScrollState { pos: max, size: self.size, content };
        } else {
            self.extend(content);
        }
    }
}

/// Whatever is done to a scroll state whose position is in range, the
/// position is in range afterwards: at least zero and at most what does not
/// fit the viewport.
pub proof fn lemma_position_stays_in_range(
    v: ScrollView,
    viewport: nat,
    content: nat,
)
    requires
        v.in_range(),
    ensures
        v.scrolled_back().in_range(),
        v.scrolled_forward().in_range(),
        v.resized(viewport).in_range(),
        v.extended(content).in_range(),
        v.followed(content).in_range(),
{
}

/// Where the content fits the viewport there is nothing to scroll: the
/// position is zero, and stepping either way leaves the state as it is.
pub proof fn lemma_nothing_to_scroll(v: ScrollView)
    requires
        v.in_range(),
        v.content <= v.viewport,
    ensures
        v.position == 0,
        v.scrolled_back() == v,
        v.scrolled_forward() == v,
{
}

/// Sticky bottom. When entries come in, whether or not others leave for
/// them, a position at the tail moves to the new tail, and a position short
/// of the tail stays where it is as long as the content does not shrink.
pub proof fn lemma_sticky_bottom(v: ScrollView, content: nat)
    requires
        v.in_range(),
    ensures
        v.at_tail() ==> v.followed(content).at_tail(),
        !v.at_tail() && content >= v.content ==> v.followed(content).position == v.position,
        v.followed(content).content == content,
        v.followed(content).viewport == v.viewport,
{
}

} // verus!
