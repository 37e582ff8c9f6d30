//! Throbber/spinner animation state.

use ratatui::style::Style;
use vstd::prelude::*;

verus! {

/// The animation index after one step: one more, back to 0 past `i8::MAX`,
/// as `throbber_widgets_tui::ThrobberState::calc_next` steps it.
pub open spec fn next_index(index: i8) -> i8 {
    if index == i8::MAX {
        0
    } else {
        (index + 1) as i8
    }
}

/// The animation index after `steps` steps.
pub open spec fn index_after(index: i8, steps: nat) -> i8
    decreases steps,
{
    if steps == 0 {
        index
    } else {
        next_index(index_after(index, (steps - 1) as nat))
    }
}

/// State for a throbber builder: the animation index and what is drawn.
pub struct ThrobberBuilderState {
    pub index: i8,
    pub label: String,
    pub style: Style,
    pub throbber_style: Style,
}

impl ThrobberBuilderState {
    /// The state of a new throbber: the animation at its first frame.
    pub fn new(label: String, style: Style, throbber_style: Style) -> (s: Self)
        ensures
            s.index == 0,
            s.label == label,
            s.style == style,
            s.throbber_style == throbber_style,
    {
        ThrobberBuilderState { index: 0, label, style, throbber_style }
    }

    /// Advance the throbber animation.
    pub fn tick(&mut self)
        ensures
            final(self).index == next_index(old(self).index),
            final(self).label == old(self).label,
            final(self).style == old(self).style,
            final(self).throbber_style == old(self).throbber_style,
    {
        self.index = match self.index.checked_add(1) {
            Some(i) => i,
            None => 0,
        };
    }

    /// A rebuild: the animation advances one step and the configuration is
    /// taken over.
    pub fn rebuild(&mut self, label: String, style: Style, throbber_style: Style)
        ensures
            final(self).index == next_index(old(self).index),
            final(self).label == label,
            final(self).style == style,
            final(self).throbber_style == throbber_style,
    {
        self.tick();
        self.label = label;
        self.style = style;
        self.throbber_style = throbber_style;
    }
}

/// From a frame of the cycle, the index after `steps` steps is the frame
/// `steps` further on, counted round the 128 frames from 0 to `i8::MAX`.
pub proof fn lemma_index_after(index: i8, steps: nat)
    requires
        index >= 0,
    ensures
        index_after(index, steps) == (index + steps) % 128,
    decreases steps,
{
    if steps > 0 {
        lemma_index_after(index, (steps - 1) as nat);
    }
}

/// A throbber that starts at a frame of the cycle comes back to it after 128
/// steps and never leaves the cycle.
pub proof fn lemma_throbber_cycle(index: i8, steps: nat)
    requires
        index >= 0,
    ensures
        index_after(index, 128) == index,
        index_after(index, steps) >= 0,
{
    lemma_index_after(index, 128);
    lemma_index_after(index, steps);
}

} // verus!
