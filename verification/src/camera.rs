//! The camera's side of anti-aliasing: which pixel requests it accepts, and
//! where in the pixel each sample falls.

use vstd::prelude::*;
use crate::sampling::fraction;
use crate::sampling::fraction_of;
use crate::sampling::next_word;
use crate::sampling::thread_generator;
use crate::sampling::UNIT;

verus! {

/// A point of the image plane to aim a ray at: the pixel `(u, v)`, and the
/// place within it, right and down from its corner, in steps of 2^-53 of the
/// pixel's side.
#[derive(Clone, Copy, Debug, PartialEq, Eq, Structural)]
pub struct Sample {
    pub u: u32,
    pub v: u32,
    pub jitter_u: u64,
    pub jitter_v: u64,
}

/// A camera: the size of its viewport in pixels, and the generator that its
/// samples are drawn from. The generator belongs to the thread that made the
/// camera, and so does the camera.
#[derive(Clone, Copy, Debug)]
pub struct Camera {
    viewport_size: (u32, u32),
    rng: rand::rngs::ThreadRng,
}

impl Camera {
    /// The width of the viewport, in pixels.
    pub closed spec fn width(&self) -> u32 {
        self.viewport_size.0
    }

    /// The height of the viewport, in pixels.
    pub closed spec fn height(&self) -> u32 {
        self.viewport_size.1
    }

    /// Whether the pixel `(u, v)` lies in the viewport.
    pub open spec fn sees(&self, u: u32, v: u32) -> bool {
        u < self.width() && v < self.height()
    }

    /// A camera with a viewport of `width` by `height` pixels.
    pub fn new(width: u32, height: u32) -> (camera: Camera)
        ensures
            camera.width() == width,
            camera.height() == height,
    {
        Camera { viewport_size: (width, height), rng: thread_generator() }
    }

    /// The size of the viewport: width, then height.
    pub fn viewport_size(&self) -> (size: (u32, u32))
        ensures
            size == (self.width(), self.height()),
    {
        self.viewport_size
    }

    /// The sample at pixel `(u, v)` that two drawn words stand for. A pixel
    /// outside the viewport is refused.
    pub fn sample(&self, u: u32, v: u32, word_u: u64, word_v: u64) -> (r: Result<Sample, String>)
        ensures
            self.sees(u, v) ==> r == Ok::<Sample, String>(
                Sample { u, v, jitter_u: fraction_of(word_u), jitter_v: fraction_of(word_v) },
            ),
            !self.sees(u, v) ==> r is Err && r->Err_0@ == "Pixel out of Viewport"@,
    {
        if u < self.viewport_size.0 && v < self.viewport_size.1 {
            Ok(Sample { u, v, jitter_u: fraction(word_u), jitter_v: fraction(word_v) })
        } else {
            Err("Pixel out of Viewport".to_string())
        }
    }

    /// Draws a sample in the pixel `(u, v)`: the place for the next ray
    /// through that pixel. A pixel outside the viewport is refused; the two
    /// words are drawn all the same, so that a sequence of requests uses up
    /// the generator alike whether or not some of them are refused.
    pub fn get_ray(&mut self, u: u32, v: u32) -> (r: Result<Sample, String>)
        ensures
            final(self).width() == old(self).width(),
            final(self).height() == old(self).height(),
            r is Ok <==> old(self).sees(u, v),
            r matches Ok(sample) ==> sample.u == u && sample.v == v && sample.jitter_u < UNIT
                && sample.jitter_v < UNIT,
            r matches Err(message) ==> message@ == "Pixel out of Viewport"@,
    {
        let word_u: u64 = next_word(&mut self.rng);
        let word_v: u64 = next_word(&mut self.rng);
        self.sample(u, v, word_u, word_v)
    }
}

} // verus!
