use vstd::prelude::*;

use crate::frame::{silence_seq, Frame};
use crate::window::WindowAccumulator;

verus! {

/// What one polling iteration of the worker loop decides to do next.
#[derive(Debug)]
pub enum WorkerAction {
    /// The inbound queue was abandoned by its producer: leave the loop.
    Exit,
    /// Nothing to read yet: yield and poll again.
    Idle,
    /// The input frame was collected; the window is not full yet.
    Accumulated,
    /// Collecting the input frame completed a window of exactly the required
    /// length: run one conversion-inference-conversion cycle on it.
    Window(Vec<Frame>),
}

/// One polling decision of the worker loop, taken from what the loop can
/// observe: whether the inbound queue has been abandoned, and the frame
/// popped from it, if any.
///
/// Abandonment wins over everything else, so a dropped producer ends the
/// loop within a single polling iteration. An available frame is collected
/// into the accumulator; exactly when it completes a window, the window
/// comes back for processing.
pub fn worker_poll(acc: &mut WindowAccumulator, abandoned: bool, input: Option<Frame>) -> (act:
    WorkerAction)
    requires
        old(acc).wf(),
    ensures
        final(acc).wf(),
        final(acc).target_spec() == old(acc).target_spec(),
        abandoned ==> act is Exit && *final(acc) == *old(acc),
        !abandoned && input is None ==> act is Idle && *final(acc) == *old(acc),
        !abandoned && input is Some ==> !(act is Exit) && !(act is Idle),
        !abandoned && input is Some ==> ((act is Window) <==> old(acc).frames_spec().len() + 1
            == old(acc).target_spec()),
        (act matches WorkerAction::Window(win) ==> !abandoned && (input matches Some(f)
            && win@ == old(acc).frames_spec().push(f)) && final(acc).frames_spec()
            == Seq::<Frame>::empty()),
        (!abandoned && act is Accumulated ==> (input matches Some(f) && final(acc).frames_spec()
            == old(acc).frames_spec().push(f))),
{
    if abandoned {
        WorkerAction::Exit
    } else {
        match input {
            None => WorkerAction::Idle,
            Some(f) => {
                match acc.push(f) {
                    Some(win) => WorkerAction::Window(win),
                    None => WorkerAction::Accumulated,
                }
            }
        }
    }
}

/// The frames priming pushes onto the outbound queue before any input is
/// processed: `count` frames of manufactured silence, the cost of the
/// pipeline's group delay.
pub fn priming_frames(count: usize) -> (v: Vec<Frame>)
    ensures
        v@ == silence_seq(count as nat),
{
    let mut v: Vec<Frame> = Vec::new();
    let mut i: usize = 0;
    while i < count
        invariant
            i <= count,
            v@ =~= silence_seq(i as nat),
        decreases count - i,
    {
        v.push(Frame::silence());
        i = i + 1;
        assert(v@ =~= silence_seq(i as nat));
    }
    assert(v@ =~= silence_seq(count as nat));
    v
}

} // verus!
