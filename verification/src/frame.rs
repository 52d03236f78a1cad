use vstd::prelude::*;

verus! {

/// One stereo audio frame: the bit patterns of the left and right samples.
///
/// Zero bits are the bit pattern of a zero-valued sample, so `silence()` is
/// exactly the manufactured silence the bridge uses for priming.
#[derive(Clone, Copy, PartialEq, Eq, Structural, Debug)]
pub struct Frame {
    pub left: u32,
    pub right: u32,
}

impl Frame {
    /// A frame whose two channels both hold the zero sample.
    pub fn silence() -> (f: Frame)
        ensures
            f == Frame::silence_spec(),
    {
        Frame { left: 0, right: 0 }
    }

    pub open spec fn silence_spec() -> Frame {
        Frame { left: 0, right: 0 }
    }

    pub fn new(left: u32, right: u32) -> (f: Frame)
        ensures
            f.left == left,
            f.right == right,
    {
        Frame { left, right }
    }
}

/// The sequence of `n` silent frames that priming pushes ahead of any input.
pub open spec fn silence_seq(n: nat) -> Seq<Frame> {
    Seq::new(n, |i: int| Frame::silence_spec())
}

} // verus!
