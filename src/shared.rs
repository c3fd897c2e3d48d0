//! The brightness state shared between the input tasks and the driver.
//!
//! Whoever owns a `SharedState` serialises access to it (behind a lock); each
//! method here is one critical section, so a reader always sees a whole triple.

use vstd::prelude::*;

use crate::{valid_levels, RgbLevels};

verus! {

/// Current colour `[red, green, blue]` and the frame-rate step counter.
pub struct SharedState {
    levels: RgbLevels,
    frame_rate_level: u64,
}

impl SharedState {
    /// The stored brightness triple.
    pub closed spec fn rgb_view(&self) -> RgbLevels {
        self.levels
    }

    /// The stored frame-rate step.
    pub closed spec fn frame_rate_view(&self) -> u64 {
        self.frame_rate_level
    }

    /// Every stored level lies in `[0, LEVELS)`.
    pub open spec fn wf(&self) -> bool {
        valid_levels(self.rgb_view())
    }

    /// This state with its brightness triple replaced by `l`.
    pub closed spec fn with_levels(self, l: RgbLevels) -> Self {
        SharedState { levels: l, ..self }
    }

    /// This state with its frame-rate step replaced by `n`.
    pub closed spec fn with_frame_rate(self, n: u64) -> Self {
        SharedState { frame_rate_level: n, ..self }
    }

    /// The initial state: all channels dark, frame-rate step 0.
    pub fn new() -> (r: Self)
        ensures
            r.wf(),
            r.rgb_view() == [0u32, 0u32, 0u32],
            r.frame_rate_view() == 0,
    {
        SharedState { levels: [0; 3], frame_rate_level: 0 }
    }

    /// A copy of the current brightness triple.
    pub fn get_rgb_levels(&self) -> (r: RgbLevels)
        ensures
            r == self.rgb_view(),
    {
        self.levels
    }

    /// Replaces the brightness triple by what `setter` makes of it, in one
    /// step, so that compound updates cannot race with other writers.
    pub fn set_rgb_levels<F: FnOnce(RgbLevels) -> RgbLevels>(&mut self, setter: F)
        requires
            old(self).wf(),
            setter.requires((old(self).rgb_view(),)),
            forall|r: RgbLevels| #[trigger]
                setter.ensures((old(self).rgb_view(),), r) ==> valid_levels(r),
        ensures
            final(self).wf(),
            setter.ensures((old(self).rgb_view(),), final(self).rgb_view()),
            final(self).frame_rate_view() == old(self).frame_rate_view(),
            *final(self) == old(self).with_levels(final(self).rgb_view()),
    {
        let levels = setter(self.levels);
        self.levels = levels;
    }

    /// Sets the brightness triple to `levels`.
    pub fn store_rgb_levels(&mut self, levels: RgbLevels)
        requires
            old(self).wf(),
            valid_levels(levels),
        ensures
            final(self).wf(),
            final(self).rgb_view() == levels,
            final(self).frame_rate_view() == old(self).frame_rate_view(),
            *final(self) == old(self).with_levels(levels),
    {
        let setter = move |current: RgbLevels| -> (r: RgbLevels)
            ensures
                r == levels,
        {
            levels
        };
        self.set_rgb_levels(setter);
    }

    /// The current frame-rate step.
    pub fn get_frame_rate_level(&self) -> (r: u64)
        ensures
            r == self.frame_rate_view(),
    {
        self.frame_rate_level
    }

    /// Replaces the frame-rate step by what `setter` makes of it, in one step.
    pub fn set_frame_rate_level<F: FnOnce(u64) -> u64>(&mut self, setter: F)
        requires
            setter.requires((old(self).frame_rate_view(),)),
        ensures
            setter.ensures((old(self).frame_rate_view(),), final(self).frame_rate_view()),
            final(self).rgb_view() == old(self).rgb_view(),
            *final(self) == old(self).with_frame_rate(final(self).frame_rate_view()),
    {
        let level = setter(self.frame_rate_level);
        self.frame_rate_level = level;
    }
}

/// Writing a valid triple and then reading gives back that triple, and the
/// state stays well formed.
pub proof fn lemma_store_then_read(s: SharedState, l: RgbLevels)
    requires
        s.wf(),
        valid_levels(l),
    ensures
        s.with_levels(l).rgb_view() == l,
        s.with_levels(l).wf(),
        s.with_levels(l).frame_rate_view() == s.frame_rate_view(),
{
}

} // verus!
