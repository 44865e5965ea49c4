//! The frame counter: a 32-bit value that advances by one, wrapping, each
//! time a frame is rendered.

use vstd::prelude::*;

verus! {

/// The counter value that follows `f`: one more, wrapping from `u32::MAX` to zero.
pub open spec fn next_frame(f: u32) -> u32 {
    ((f + 1) % 0x1_0000_0000) as u32
}

/// The counter value reached from `start` after `n` frames.
pub open spec fn after_frames(start: u32, n: nat) -> u32
    decreases n,
{
    if n == 0 {
        start
    } else {
        next_frame(after_frames(start, (n - 1) as nat))
    }
}

/// Rendering `n` frames advances the counter by exactly `n` modulo 2^32,
/// whatever value it started from.
pub proof fn lemma_after_frames(start: u32, n: nat)
    ensures
        after_frames(start, n) == (start + n) % 0x1_0000_0000,
    decreases n,
{
    if n > 0 {
        lemma_after_frames(start, (n - 1) as nat);
    }
}

/// Counts rendered frames. The value drives the animation: every pixel of a
/// frame is computed from the value the counter held when the frame began.
pub struct FrameCounter {
    value: u32,
}

impl View for FrameCounter {
    type V = u32;

    closed spec fn view(&self) -> u32 {
        self.value
    }
}

impl FrameCounter {
    /// A counter at zero.
    pub fn new() -> (counter: Self)
        ensures
            counter@ == 0,
    {
        FrameCounter { value: 0 }
    }

    /// A counter that resumes from `value`.
    pub fn starting_at(value: u32) -> (counter: Self)
        ensures
            counter@ == value,
    {
        FrameCounter { value }
    }

    /// The current counter value.
    pub fn value(&self) -> (value: u32)
        ensures
            value == self@,
    {
        self.value
    }

    /// Advances the counter by one frame and returns the value it held before.
    pub fn advance(&mut self) -> (previous: u32)
        ensures
            previous == old(self)@,
            final(self)@ == next_frame(old(self)@),
    {
        let previous = self.value;
        self.value = previous.wrapping_add(1);
        previous
    }
}

} // verus!
