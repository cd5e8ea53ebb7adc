//! Animation descriptors: an ordered, non-empty sequence of source regions
//! of a shared sprite sheet, selected purely from a tick counter.

use vstd::prelude::*;

verus! {

/// A tick counter advances one animation frame every `FRAME_HOLD` ticks.
pub const FRAME_HOLD: u64 = 20;
/// Sprite-sheet fractions are normalized: at most 1.0, i.e. `DIM_LIMIT`
/// fixed-point units.
pub const DIM_LIMIT: i64 = 1000;

/// One source region of the sprite sheet, as normalized fractions of the
/// sheet's size in fixed-point units (1000 = the whole sheet).
#[derive(Clone, Copy, PartialEq, Eq, Structural, Debug)]
pub struct Frame {
    pub x: i64,
    pub y: i64,
    pub w: i64,
    pub h: i64,
}

impl Frame {
    /// All fractions are within `[0, 1]`.
    pub open spec fn wf(self) -> bool {
        &&& 0 <= self.x <= DIM_LIMIT
        &&& 0 <= self.y <= DIM_LIMIT
        &&& 0 <= self.w <= DIM_LIMIT
        &&& 0 <= self.h <= DIM_LIMIT
    }
}

/// A frame's intrinsic size: the normalized height and width of its source
/// region, the pair every collision and layout formula scales by.
#[derive(Clone, Copy, PartialEq, Eq, Structural, Debug)]
pub struct FrameSize {
    pub h: i64,
    pub w: i64,
}

/// A configuration fault: the simulation treats it as fatal, never as a
/// recoverable condition.
#[derive(Clone, Copy, PartialEq, Eq, Structural, Debug)]
pub enum GameError {
    /// A frame index at or past the end of an animation sequence.
    InvalidFrameIndex,
}

/// Which frame a tick counter selects out of `count` frames.
pub open spec fn frame_index_spec(tick: u64, count: nat) -> nat
    recommends
        count >= 1,
{
    (((tick as nat) / (FRAME_HOLD as nat)) % count)
}

/// A single-frame sequence always selects frame 0.
pub proof fn lemma_single_frame_selects_zero(tick: u64)
    ensures
        frame_index_spec(tick, 1) == 0,
{
}

/// An ordered, non-empty sequence of animation frames.
#[derive(Clone, PartialEq, Eq, Debug)]
pub struct Sprite {
    pub frames: Vec<Frame>,
}

impl Sprite {
    /// Non-empty, with every frame normalized.
    pub open spec fn wf(self) -> bool {
        &&& self.frames@.len() >= 1
        &&& forall|i: int| 0 <= i < self.frames@.len() ==> self.frames@[i].wf()
    }

    /// An empty sequence is a configuration fault, ruled out up front.
    pub fn new(frames: Vec<Frame>) -> (s: Sprite)
        requires
            frames@.len() >= 1,
            forall|i: int| 0 <= i < frames@.len() ==> frames@[i].wf(),
        ensures
            s.frames@ == frames@,
            s.wf(),
    {
        Sprite { frames }
    }

    pub fn frame_count(&self) -> (n: usize)
        ensures
            n == self.frames@.len(),
    {
        self.frames.len()
    }

    /// The index a tick counter selects: `(tick / FRAME_HOLD) % count`.
    pub fn frame_index(&self, tick: u64) -> (i: usize)
        requires
            self.wf(),
        ensures
            i == frame_index_spec(tick, self.frames@.len() as nat),
            i < self.frames@.len(),
    {
        ((tick / FRAME_HOLD) % (self.frames.len() as u64)) as usize
    }

    /// Pure frame selection: the frame to present for this tick counter.
    pub fn frame_at(&self, tick: u64) -> (f: Frame)
        requires
            self.wf(),
        ensures
            f == self.frames@[frame_index_spec(tick, self.frames@.len() as nat) as int],
    {
        let i = self.frame_index(tick);
        self.frames[i]
    }

    /// A frame's size, or a fault for an out-of-range index.
    pub fn get_frame_dimensions(&self, index: usize) -> (r: Result<FrameSize, GameError>)
        ensures
            index < self.frames@.len() <==> r is Ok,
            r is Ok ==> r->Ok_0 == (FrameSize {
                h: self.frames@[index as int].h,
                w: self.frames@[index as int].w,
            }),
            r is Err ==> r->Err_0 == GameError::InvalidFrameIndex,
    {
        if index >= self.frames.len() {
            return Err(GameError::InvalidFrameIndex);
        }
        Ok(FrameSize { h: self.frames[index].h, w: self.frames[index].w })
    }

    /// The size of frame 0, the one layout and collision extents use.
    pub fn base_size(&self) -> (r: FrameSize)
        requires
            self.wf(),
        ensures
            r == (FrameSize { h: self.frames@[0].h, w: self.frames@[0].w }),
    {
        FrameSize { h: self.frames[0].h, w: self.frames[0].w }
    }
}

} // verus!
