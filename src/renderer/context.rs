//! Rendering-context errors and the size of the drawing surface.
use vstd::prelude::*;

use crate::fixed::ONE;

verus! {

/// Ways in which setting up or driving the GPU can fail.
#[derive(Clone, Debug, PartialEq, Eq)]
pub enum RenderError {
    /// GPU initialization failed.
    GpuInitError(String),
    /// No suitable GPU adapter was found.
    NoAdapterFound,
    /// The device request was refused.
    DeviceRequestFailed(String),
    /// The surface could not be configured or acquired.
    SurfaceConfigError(String),
    /// A shader did not compile.
    ShaderError(String),
    /// A GPU allocation of `requested` bytes failed.
    OutOfMemory { requested: usize },
}

/// Pixel size of the drawing surface.
#[derive(Clone, Copy, Debug, PartialEq, Eq, Structural)]
pub struct SurfaceSize {
    pub width: u32,
    pub height: u32,
}

impl SurfaceSize {
    pub fn new(width: u32, height: u32) -> (r: SurfaceSize)
        ensures
            r == (SurfaceSize { width, height }),
    {
        SurfaceSize { width, height }
    }

    /// Take a new window size; a size with a zero side is ignored. Answers
    /// whether the surface must be reconfigured.
    pub fn resize(&mut self, new_width: u32, new_height: u32) -> (r: bool)
        ensures
            r == (new_width > 0 && new_height > 0),
            r ==> *final(self) == (SurfaceSize { width: new_width, height: new_height }),
            !r ==> *final(self) == *old(self),
    {
        if new_width > 0 && new_height > 0 {
            self.width = new_width;
            self.height = new_height;
            true
        } else {
            false
        }
    }

    /// Width divided by height, in fixed point and rounded down; zero for a
    /// surface of zero height.
    pub fn aspect_ratio(&self) -> (r: i64)
        ensures
            self.height > 0 ==> r == (self.width as int) * (ONE as int) / (self.height as int),
            self.height == 0 ==> r == 0,
    {
        if self.height == 0 {
            return 0;
        }
        let w: u64 = self.width as u64;
        assert(w * (ONE as u64) <= 0x1_0000_0000 * 1_000_000) by (nonlinear_arith)
            requires
                w < 0x1_0000_0000,
        ;
        let n: u64 = w * (ONE as u64);
        assert(n / (self.height as u64) <= n) by (nonlinear_arith)
            requires
                self.height >= 1,
        ;
        (n / (self.height as u64)) as i64
    }
}

} // verus!
