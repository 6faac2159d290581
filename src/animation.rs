//! Frames and animations: an animation stitches its frames into a loop that
//! can be streamed back to back without a visible stray stroke.

use vstd::prelude::*;

use crate::sample::{blank_of, LaserdockSample};

verus! {

/// An ordered sequence of samples; the order is the stroke order.
pub struct Frame {
    points: Vec<LaserdockSample>,
}

impl View for Frame {
    type V = Seq<LaserdockSample>;

    closed spec fn view(&self) -> Seq<LaserdockSample> {
        self.points@
    }
}

impl Frame {
    pub fn new(points: Vec<LaserdockSample>) -> (r: Self)
        ensures
            r@ == points@,
    {
        Frame { points }
    }

    /// The frame's samples, in stroke order.
    pub fn points(&self) -> (r: &[LaserdockSample])
        ensures
            r@ == self@,
    {
        self.points.as_slice()
    }

    /// Number of samples in the frame.
    pub fn len(&self) -> (r: usize)
        ensures
            r == self@.len(),
    {
        self.points.len()
    }
}

/// The samples appended to frame `cur` when `next` follows it in a loop:
/// two copies of `cur`'s last sample, then two blanked copies of `next`'s
/// first sample.
pub open spec fn loop_tail(
    cur: Seq<LaserdockSample>,
    next: Seq<LaserdockSample>,
) -> Seq<LaserdockSample> {
    seq![cur.last(), cur.last(), blank_of(next[0]), blank_of(next[0])]
}

/// Frame `i` of `frames` with the loop-closing tail that leads into the frame
/// after it, wrapping from the last frame to the first.
pub open spec fn looped_frame(frames: Seq<Seq<LaserdockSample>>, i: int) -> Seq<LaserdockSample> {
    frames[i] + loop_tail(frames[i], frames[(i + 1) % frames.len() as int])
}

/// The frames of an animation built from `frames`: each frame with its
/// loop-closing tail when there are two frames or more, unchanged otherwise.
pub open spec fn looped_frames(frames: Seq<Seq<LaserdockSample>>) -> Seq<Seq<LaserdockSample>> {
    if frames.len() <= 1 {
        frames
    } else {
        Seq::new(frames.len(), |i: int| looped_frame(frames, i))
    }
}

/// The frames' sample sequences.
pub open spec fn frames_view(frames: Seq<Frame>) -> Seq<Seq<LaserdockSample>> {
    frames.map_values(|f: Frame| f@)
}

/// An animation as plain values.
pub struct AnimationView {
    pub frames: Seq<Seq<LaserdockSample>>,
    pub delay_ms: u64,
}

/// Frames played in a loop, with a fixed delay after each.
pub struct Animation {
    frames: Vec<Frame>,
    delay_ms: u64,
}

impl View for Animation {
    type V = AnimationView;

    closed spec fn view(&self) -> AnimationView {
        AnimationView { frames: frames_view(self.frames@), delay_ms: self.delay_ms }
    }
}

impl Animation {
    /// Builds an animation that plays `frames` in order and then starts
    /// over, waiting `delay_ms` after each frame. With two frames or more,
    /// every frame gets a tail that leads into the next one (see
    /// `looped_frames`), computed from the frames as given.
    pub fn new(frames: Vec<Frame>, delay_ms: u64) -> (r: Self)
        requires
            frames@.len() >= 2 ==> forall|i: int|
                0 <= i < frames@.len() ==> #[trigger] frames@[i]@.len() > 0,
        ensures
            r@.frames == looped_frames(frames_view(frames@)),
            r@.delay_ms == delay_ms,
            frames@.len() >= 2 ==> forall|i: int|
                0 <= i < frames@.len() ==> #[trigger] r@.frames[i].len() == frames@[i]@.len() + 4,
            frames@.len() == 1 ==> r@.frames[0].len() == frames@[0]@.len(),
    {
        let mut frames = frames;
        let ghost orig = frames_view(frames@);
        let n = frames.len();
        if n > 1 {
            let mut i: usize = 0;
            while i < n
                invariant
                    n == frames@.len(),
                    n >= 2,
                    i <= n,
                    orig.len() == n,
                    forall|j: int| 0 <= j < n ==> #[trigger] orig[j].len() > 0,
                    forall|j: int| 0 <= j < i ==> #[trigger] frames@[j]@ == looped_frame(orig, j),
                    forall|j: int| i <= j < n ==> #[trigger] frames@[j]@ == orig[j],
                decreases n - i,
            {
                let next = (i + 1) % n;
                assert(frames@[i as int]@ == orig[i as int]);
                assert(orig[i as int].len() > 0);
                assert(orig[next as int].len() > 0);
                assert(frames@[next as int]@[0] == orig[next as int][0]);
                let next_start = frames[next].points[0].blanked();
                let last = frames[i].points.len() - 1;
                let cur_end = frames[i].points[last];
                let ghost before = frames@;
                let cur = &mut frames[i];
                cur.points.push(cur_end);
                cur.points.push(cur_end);
                cur.points.push(next_start);
                cur.points.push(next_start);
                assert(frames@[i as int]@ =~= looped_frame(orig, i as int));
                assert forall|j: int| 0 <= j < n && j != i implies frames@[j] == before[j] by {}
                i = i + 1;
            }
        }
        let r = Animation { frames, delay_ms };
        assert(r@.frames =~= looped_frames(orig));
        r
    }

    /// Number of frames.
    pub fn frame_count(&self) -> (r: usize)
        ensures
            r == self@.frames.len(),
    {
        self.frames.len()
    }

    /// Frame `i`, with its loop-closing tail if it has one.
    pub fn frame(&self, i: usize) -> (r: &Frame)
        requires
            i < self@.frames.len(),
        ensures
            r@ == self@.frames[i as int],
    {
        &self.frames[i]
    }

    /// The pause after each frame, in milliseconds.
    pub fn delay_ms(&self) -> (r: u64)
        ensures
            r == self@.delay_ms,
    {
        self.delay_ms
    }

    /// The frame played after frame `current`: the next one, and the first
    /// again after the last.
    pub fn next_frame(&self, current: usize) -> (r: usize)
        requires
            current < self@.frames.len(),
        ensures
            r == (current + 1) % (self@.frames.len() as int),
            r < self@.frames.len(),
    {
        let n = self.frames.len();
        assert(self@.frames.len() == n);
        if current + 1 == n {
            assert((n as int) % (n as int) == 0) by (nonlinear_arith)
                requires
                    n > 0,
            ;
            0
        } else {
            assert((current + 1) % (n as int) == current + 1) by (nonlinear_arith)
                requires
                    current + 1 < n,
            ;
            current + 1
        }
    }
}

} // verus!
