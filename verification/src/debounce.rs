//! Scroll debouncing: a two-state machine that turns a stream of polled
//! scroll-offset samples into edge-triggered "scroll settled" events. While
//! samples keep changing the machine stays in its scrolling state and emits
//! nothing; the first unchanged sample after motion emits exactly one settle
//! event carrying that offset. A continuous scroll gesture therefore triggers
//! a single load pass, at rest.

use vstd::prelude::*;

verus! {

/// Debouncer state: whether motion was seen since the last settle, and the
/// offset of the most recent sample.
#[derive(Clone, Copy, PartialEq, Eq, Structural, Debug)]
pub struct ScrollDebouncer {
    pub is_scrolling: bool,
    pub last_sample_offset: u64,
}

impl ScrollDebouncer {
    /// The state after observing `sample`:
    ///
    /// | state     | changed | next state                       |
    /// |-----------|---------|----------------------------------|
    /// | idle      | no      | idle                             |
    /// | idle      | yes     | scrolling, offset := sample      |
    /// | scrolling | yes     | scrolling, offset := sample      |
    /// | scrolling | no      | idle                             |
    pub open spec fn spec_next(self, sample: u64) -> ScrollDebouncer {
        if sample != self.last_sample_offset {
            ScrollDebouncer { is_scrolling: true, last_sample_offset: sample }
        } else if self.is_scrolling {
            ScrollDebouncer { is_scrolling: false, last_sample_offset: self.last_sample_offset }
        } else {
            self
        }
    }

    /// The event emitted on observing `sample`: a settle event exactly when
    /// motion stops, i.e. the machine was scrolling and the sample repeats
    /// the last offset.
    pub open spec fn spec_event(self, sample: u64) -> Option<u64> {
        if self.is_scrolling && sample == self.last_sample_offset {
            Some(sample)
        } else {
            None
        }
    }

    /// A fresh debouncer: idle, with a baseline offset of 0 (the scroll
    /// position a view starts at).
    pub fn new() -> (d: ScrollDebouncer)
        ensures
            !d.is_scrolling,
            d.last_sample_offset == 0,
    {
        ScrollDebouncer { is_scrolling: false, last_sample_offset: 0 }
    }

    /// Feeds one polled sample to the machine and returns the emitted event:
    /// `Some(offset)` exactly when scrolling has just stopped at `offset`,
    /// `None` otherwise. Every transition of the table is covered; no input
    /// needs a panic arm.
    pub fn update(&mut self, sample: u64) -> (event: Option<u64>)
        ensures
            *final(self) == old(self).spec_next(sample),
            event == old(self).spec_event(sample),
    {
        let changed: bool = self.last_sample_offset != sample;
        if changed {
            self.last_sample_offset = sample;
            self.is_scrolling = true;
            None
        } else if self.is_scrolling {
            self.is_scrolling = false;
            Some(sample)
        } else {
            None
        }
    }
}

} // verus!
