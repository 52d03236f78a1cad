use vstd::prelude::*;

use crate::frame::Frame;

verus! {

/// The conversion-window accumulator: collects frames one at a time until it
/// holds exactly the input length the next resampling step requires, then
/// hands the whole window out and starts empty again.
///
/// Block-oriented conversion demands exact-length batching — the converter
/// must never be over- or under-fed — so the accumulator releases a window
/// only at exactly the required length, never before and never after.
pub struct WindowAccumulator {
    frames: Vec<Frame>,
    target: usize,
}

impl WindowAccumulator {
    /// The frames collected so far, oldest first.
    pub closed spec fn frames_spec(self) -> Seq<Frame> {
        self.frames@
    }

    /// The exact number of frames the next window must hold.
    pub closed spec fn target_spec(self) -> nat {
        self.target as nat
    }

    pub open spec fn wf(self) -> bool {
        1 <= self.target_spec() && self.frames_spec().len() < self.target_spec()
    }

    pub fn new(target: usize) -> (a: WindowAccumulator)
        requires
            1 <= target,
        ensures
            a.wf(),
            a.target_spec() == target as nat,
            a.frames_spec() == Seq::<Frame>::empty(),
    {
        WindowAccumulator { frames: Vec::new(), target }
    }

    /// How many frames are waiting for the window to fill.
    pub fn pending(&self) -> (n: usize)
        ensures
            n as nat == self.frames_spec().len(),
    {
        self.frames.len()
    }

    /// The window length currently enforced.
    pub fn target(&self) -> (n: usize)
        ensures
            n as nat == self.target_spec(),
    {
        self.target
    }

    /// Change the required window length, as a conversion step whose next
    /// input length differs may demand. Only allowed while fewer frames are
    /// waiting than the new length, so a full window can never be skipped.
    pub fn set_target(&mut self, target: usize)
        requires
            old(self).wf(),
            old(self).frames_spec().len() < target as nat,
        ensures
            final(self).wf(),
            final(self).target_spec() == target as nat,
            final(self).frames_spec() == old(self).frames_spec(),
    {
        self.target = target;
    }

    /// Append one frame. Exactly when that makes the count reach the required
    /// length, the full window comes back — the collected frames in arrival
    /// order — and the accumulator is empty again.
    pub fn push(&mut self, f: Frame) -> (w: Option<Vec<Frame>>)
        requires
            old(self).wf(),
        ensures
            final(self).wf(),
            final(self).target_spec() == old(self).target_spec(),
            (w is Some) <==> old(self).frames_spec().len() + 1 == old(self).target_spec(),
            (w matches Some(win) ==> win@ == old(self).frames_spec().push(f)
                && final(self).frames_spec() == Seq::<Frame>::empty()),
            (w is None ==> final(self).frames_spec() == old(self).frames_spec().push(f)),
    {
        self.frames.push(f);
        if self.frames.len() == self.target {
            let mut win: Vec<Frame> = Vec::new();
            core::mem::swap(&mut win, &mut self.frames);
            Some(win)
        } else {
            None
        }
    }
}

} // verus!
