//! Frames and the ordered payload that carries them to the badge.
use vstd::prelude::*;
use crate::bitmap::Bitmap;
use crate::style::StyleOptions;

verus! {

/// One unit of display content: a style and the bitmap shown with it.
#[derive(Clone, Debug, PartialEq, Eq)]
pub struct Frame {
    pub style: StyleOptions,
    pub bitmap: Bitmap,
}

/// Frames in display order.
#[derive(Clone, Debug, PartialEq, Eq)]
pub struct Payload {
    pub frames: Vec<Frame>,
}

impl View for Payload {
    type V = Seq<Frame>;

    open spec fn view(&self) -> Seq<Frame> {
        self.frames@
    }
}

impl Payload {
    /// An empty payload; valid, and shows nothing.
    pub fn new() -> (r: Payload)
        ensures
            r@ == Seq::<Frame>::empty(),
    {
        Payload { frames: Vec::new() }
    }

    /// The payload with one more frame at its end.
    pub fn append(self, style: StyleOptions, bitmap: Bitmap) -> (r: Payload)
        ensures
            r@ == self@.push(Frame { style, bitmap }),
    {
        let mut frames = self.frames;
        frames.push(Frame { style, bitmap });
        Payload { frames }
    }

    /// Number of frames.
    pub fn len(&self) -> (r: usize)
        ensures
            r == self@.len(),
    {
        self.frames.len()
    }
}

/// What appending `frames` one after another to `start` gives.
pub open spec fn append_all(start: Seq<Frame>, frames: Seq<Frame>) -> Seq<Frame>
    decreases frames.len(),
{
    if frames.len() == 0 {
        start
    } else {
        append_all(start.push(frames[0]), frames.drop_first())
    }
}

/// Appending frames one at a time keeps them in the order given, after the
/// frames already there: nothing is dropped, repeated or reordered.
pub proof fn lemma_append_keeps_order(start: Seq<Frame>, frames: Seq<Frame>)
    ensures
        append_all(start, frames) == start + frames,
    decreases frames.len(),
{
    if frames.len() > 0 {
        lemma_append_keeps_order(start.push(frames[0]), frames.drop_first());
        assert(start.push(frames[0]) + frames.drop_first() =~= start + frames);
    } else {
        assert(start + frames =~= start);
    }
}

} // verus!
