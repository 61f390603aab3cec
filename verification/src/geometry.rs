use vstd::prelude::*;

verus! {

/// Size of the logical pixel buffer, in logical pixels. Both components are
/// positive; the buffer's texel grid and byte length are derived from it and
/// it never changes after the buffer is created.
#[derive(Clone, Copy, PartialEq, Eq, Structural, Debug)]
pub struct LogicalSize {
    pub width: u32,
    pub height: u32,
}

/// Size of the presentation surface, in physical pixels. It changes on every
/// window resize, and every change forces the scaling matrix to be recomputed.
#[derive(Clone, Copy, PartialEq, Eq, Structural, Debug)]
pub struct SurfaceSize {
    pub width: u32,
    pub height: u32,
}

impl LogicalSize {
    pub open spec fn positive(self) -> bool {
        self.width > 0 && self.height > 0
    }

    pub fn new(width: u32, height: u32) -> (s: Self)
        ensures
            s.width == width,
            s.height == height,
    {
        LogicalSize { width, height }
    }
}

impl SurfaceSize {
    pub open spec fn positive(self) -> bool {
        self.width > 0 && self.height > 0
    }

    pub fn new(width: u32, height: u32) -> (s: Self)
        ensures
            s.width == width,
            s.height == height,
    {
        SurfaceSize { width, height }
    }
}

/// An exact rational number. The scaling transform and its inverse are built
/// from surface and buffer dimensions alone, so every entry is a ratio of two
/// integers; keeping the two integers avoids rounding until a caller converts
/// an entry to a machine float for the GPU.
#[derive(Clone, Copy, PartialEq, Eq, Structural, Debug)]
pub struct Fraction {
    pub num: i64,
    pub den: i64,
}

impl Fraction {
    /// A usable fraction has a positive denominator.
    pub open spec fn wf(self) -> bool {
        self.den > 0
    }
}

} // verus!
