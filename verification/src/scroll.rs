//! Scroll trackers: an offset into content of a known length, and the steps of a
//! list's selection.
//!
//! An offset ranges from 0 to the length of the content, both included.
use vstd::prelude::*;

verus! {

/// The offset one step forward from `offset`: one more, but not beyond `bound`.
pub open spec fn offset_after_next(bound: nat, offset: nat) -> nat {
    if offset + 1 <= bound {
        offset + 1
    } else {
        bound
    }
}

/// The offset one step back from `offset`: one less, but not below 0.
pub open spec fn offset_after_prev(offset: nat) -> nat {
    if offset == 0 {
        0
    } else {
        (offset - 1) as nat
    }
}

/// The index that a list moves to on a step forward, before the list's length is
/// taken into account: the first item when nothing was selected.
pub open spec fn raw_next_index(selected: Option<usize>) -> usize {
    match selected {
        None => 0,
        Some(i) => if i < usize::MAX {
            (i + 1) as usize
        } else {
            i
        },
    }
}

/// The index that a list moves to on a step back, before the list's length is
/// taken into account: the largest index when nothing was selected.
pub open spec fn raw_previous_index(selected: Option<usize>) -> usize {
    match selected {
        None => usize::MAX,
        Some(i) => if i > 0 {
            (i - 1) as usize
        } else {
            0
        },
    }
}

/// The index one step forward from the selection.
pub fn next_index(selected: Option<usize>) -> (moved: usize)
    ensures
        moved == raw_next_index(selected),
{
    match selected {
        None => 0,
        Some(i) => i.saturating_add(1),
    }
}

/// The index one step back from the selection.
pub fn previous_index(selected: Option<usize>) -> (moved: usize)
    ensures
        moved == raw_previous_index(selected),
{
    match selected {
        None => usize::MAX,
        Some(i) => i.saturating_sub(1),
    }
}

/// The mathematical content of a scroll tracker.
pub struct ScrollView {
    /// Length of the scrollable content.
    pub bound: nat,
    /// Current offset into it.
    pub offset: nat,
}

impl ScrollView {
    /// The offset lies within `0..=bound`.
    pub open spec fn wf(self) -> bool {
        self.offset <= self.bound
    }

    /// A tracker over content of length `bound`, at its start.
    pub open spec fn fresh(bound: nat) -> ScrollView {
        ScrollView { bound, offset: 0 }
    }

    /// One step forward, stopping at the bound.
    pub open spec fn next(self) -> ScrollView {
        ScrollView { bound: self.bound, offset: offset_after_next(self.bound, self.offset) }
    }

    /// One step back, stopping at 0.
    pub open spec fn prev(self) -> ScrollView {
        ScrollView { bound: self.bound, offset: offset_after_prev(self.offset) }
    }

    /// At the start.
    pub open spec fn first(self) -> ScrollView {
        ScrollView { bound: self.bound, offset: 0 }
    }

    /// At the end: the offset is the bound.
    pub open spec fn last(self) -> ScrollView {
        ScrollView { bound: self.bound, offset: self.bound }
    }
}

/// One scroll axis: the length of the content and the offset scrolled to.
#[derive(Clone, Copy, Debug, PartialEq, Eq)]
pub struct ScrollTracker {
    content_length: usize,
    position: usize,
}

impl View for ScrollTracker {
    type V = ScrollView;

    closed spec fn view(&self) -> ScrollView {
        ScrollView { bound: self.content_length as nat, offset: self.position as nat }
    }
}

impl ScrollTracker {
    #[verifier::type_invariant]
    spec fn within_bounds(self) -> bool {
        self@.wf()
    }

    /// A tracker at the start of content of length `content_length`.
    pub fn new(content_length: usize) -> (tracker: ScrollTracker)
        ensures
            tracker@ == ScrollView::fresh(content_length as nat),
    {
        ScrollTracker { content_length, position: 0 }
    }

    /// The length of the content, which bounds the offset.
    pub fn content_length(&self) -> (bound: usize)
        ensures
            bound == self@.bound,
    {
        self.content_length
    }

    /// The offset scrolled to; it is at most the length of the content.
    pub fn position(&self) -> (offset: usize)
        ensures
            offset == self@.offset,
            self@.wf(),
    {
        proof {
            use_type_invariant(self);
        }
        self.position
    }

    /// Advances by one, stopping at the bound.
    pub fn next(&mut self)
        ensures
            final(self)@ == old(self)@.next(),
    {
        proof {
            use_type_invariant(&*self);
        }
        if self.position < self.content_length {
            self.position = self.position + 1;
        }
    }

    /// Retreats by one, stopping at 0.
    pub fn prev(&mut self)
        ensures
            final(self)@ == old(self)@.prev(),
    {
        proof {
            use_type_invariant(&*self);
        }
        if self.position > 0 {
            self.position = self.position - 1;
        }
    }

    /// Jumps to the start.
    pub fn first(&mut self)
        ensures
            final(self)@ == old(self)@.first(),
    {
        self.position = 0;
    }

    /// Jumps to the end.
    pub fn last(&mut self)
        ensures
            final(self)@ == old(self)@.last(),
    {
        self.position = self.content_length;
    }
}

/// Every step keeps an offset within its bound and leaves the bound as it is, and
/// a step forward from a place before the end moves by exactly one.
pub proof fn lemma_steps_stay_within_bound(tracker: ScrollView)
    requires
        tracker.wf(),
    ensures
        tracker.next().wf() && tracker.prev().wf() && tracker.first().wf() && tracker.last().wf(),
        tracker.next().bound == tracker.bound && tracker.prev().bound == tracker.bound,
        tracker.offset < tracker.bound ==> tracker.next().offset == tracker.offset + 1,
        tracker.offset == tracker.bound ==> tracker.next() == tracker,
        tracker.last().next() == tracker.last(),
        tracker.first().prev() == tracker.first(),
{
}

} // verus!
