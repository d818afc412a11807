//! The numeric knobs of a render.
use vstd::prelude::*;

verus! {

/// Image size, samples per pixel and recursion depth of one render.
pub struct RenderSettings {
    /// Pixels per row.
    pub width: usize,
    /// Rows of the image.
    pub height: usize,
    /// Jittered rays traced through each pixel.
    pub samples_per_pixel: u32,
    /// Bounces after which a path is cut off and contributes black.
    pub max_depth: u32,
}

/// Whether the knobs describe a render that can be carried out: the jitter of
/// a sample divides by `width - 1` and by `height - 1`, so both sides have at
/// least two pixels; a pixel averages at least one sample; and the pixels of
/// the image can be counted in a `usize`. A depth of zero is allowed: every
/// path is then cut off at once.
pub open spec fn settings_valid(width: int, height: int, samples_per_pixel: int) -> bool {
    &&& width >= 2
    &&& height >= 2
    &&& samples_per_pixel >= 1
    &&& width * height <= usize::MAX
}

impl RenderSettings {
    pub open spec fn wf(&self) -> bool {
        settings_valid(self.width as int, self.height as int, self.samples_per_pixel as int)
    }

    /// The settings with the given knobs, or `None` where they cannot be
    /// carried out.
    pub fn new(width: usize, height: usize, samples_per_pixel: u32, max_depth: u32) -> (r: Option<
        RenderSettings,
    >)
        ensures
            r is Some <==> settings_valid(width as int, height as int, samples_per_pixel as int),
            r matches Some(s) ==> {
                &&& s.wf()
                &&& s.width == width
                &&& s.height == height
                &&& s.samples_per_pixel == samples_per_pixel
                &&& s.max_depth == max_depth
            },
    {
        if width < 2 || height < 2 || samples_per_pixel < 1 {
            return None;
        }
        match width.checked_mul(height) {
            Some(_) => Some(RenderSettings { width, height, samples_per_pixel, max_depth }),
            None => None,
        }
    }

    /// The number of pixels of the image.
    pub fn pixel_count(&self) -> (r: usize)
        requires
            self.width * self.height <= usize::MAX,
        ensures
            r == self.width * self.height,
    {
        self.width * self.height
    }
}

} // verus!
