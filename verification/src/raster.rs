//! The raster rendering of the set: a dense width x height buffer of
//! 3-channel grayscale pixels built from per-pixel iteration counts.

use vstd::prelude::*;

verus! {

/// A dense, row-major grid of 3-channel (R, G, B) 8-bit pixels.
pub struct PixelBuffer {
    /// Width of the image, in pixels.
    pub width: u32,
    /// Height of the image, in pixels.
    pub height: u32,
    /// The channel bytes, three per pixel, row-major.
    pub data: Vec<u8>,
}

impl PixelBuffer {
    /// A well-formed buffer holds exactly three channel bytes for every
    /// pixel of its declared extent.
    pub open spec fn wf(self) -> bool {
        self.data.len() == 3 * (self.width * self.height)
    }
}

/// The grayscale intensity written for an iteration count: the count itself,
/// clamped to the range an 8-bit channel can hold.
pub open spec fn channel_spec(count: u32) -> u8 {
    if count > 255 {
        255u8
    } else {
        count as u8
    }
}

/// Assembles the grayscale image from per-pixel iteration counts, one count
/// per pixel in row-major order. Every pixel of the width x height extent
/// receives exactly one value: channel byte `j` of the result belongs to
/// pixel `j / 3` and equals that pixel's clamped count.
pub fn compose(width: u32, height: u32, counts: &Vec<u32>) -> (image: PixelBuffer)
    requires
        counts.len() == width * height,
        3 * (width * height) <= usize::MAX,
    ensures
        image.width == width,
        image.height == height,
        image.wf(),
        image.data.len() == 3 * counts.len(),
        forall|j: int| 0 <= j < image.data.len() ==> image.data[j] == channel_spec(counts[j / 3]),
{
    let n = counts.len();
    let mut data: Vec<u8> = Vec::new();
    let mut i: usize = 0;
    while i < n
        invariant
            i <= n,
            n == counts.len(),
            data.len() == 3 * i,
            forall|j: int| 0 <= j < data.len() ==> data[j] == channel_spec(counts[j / 3]),
        decreases n - i,
    {
        let count = counts[i];
        let channel: u8 = if count > 255 {
            255
        } else {
            count as u8
        };
        data.push(channel);
        data.push(channel);
        data.push(channel);
        i = i + 1;
    }
    PixelBuffer { width, height, data }
}

} // verus!
