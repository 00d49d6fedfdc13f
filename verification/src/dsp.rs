use vstd::prelude::*;

verus! {

/// One frame of two-channel audio: the left sample, then the right one.
#[derive(Debug)]
pub struct StereoFrame<S>(pub S, pub S);

impl<S: Copy> Clone for StereoFrame<S> {
    fn clone(&self) -> (copy: Self)
        ensures
            copy == *self,
    {
        *self
    }
}

impl<S: Copy> Copy for StereoFrame<S> {

}

impl<S: Copy> StereoFrame<S> {
    /// A frame that carries the same sample on both channels.
    pub fn new(sample: S) -> (frame: Self)
        ensures
            frame.0 == sample,
            frame.1 == sample,
    {
        StereoFrame(sample, sample)
    }
}

/// The samples of `frames` in playback order: left and right of the first
/// frame, then left and right of the second, and so on.
pub open spec fn interleaved<S>(frames: Seq<StereoFrame<S>>) -> Seq<S> {
    Seq::new(
        2 * frames.len(),
        |i: int|
            if i % 2 == 0 {
                frames[i / 2].0
            } else {
                frames[i / 2].1
            },
    )
}

/// Flattens a block of frames into the interleaved buffer a playback sink
/// takes.
pub fn interleave<S: Copy>(buf: &[StereoFrame<S>]) -> (out: Vec<S>)
    ensures
        out@ == interleaved(buf@),
{
    let mut out: Vec<S> = Vec::new();
    let mut i: usize = 0;
    while i < buf.len()
        invariant
            i <= buf@.len(),
            out@.len() == 2 * i,
            forall|k: int| 0 <= k < out@.len() ==> out@[k] == interleaved(buf@)[k],
        decreases buf@.len() - i,
    {
        let frame = buf[i];
        out.push(frame.0);
        out.push(frame.1);
        i += 1;
    }
    out
}

} // verus!
