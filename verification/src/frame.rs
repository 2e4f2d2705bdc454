use vstd::prelude::*;
use image::{Rgba, RgbaImage};

verus! {

/// The screen's pixels, held in an `image::RgbaImage`. Verus cannot take the
/// declaration of `image::ImageBuffer` (its `Pixel` bound), so the image is held
/// here and known to the proofs only through the names below.
#[verifier::external_body]
pub struct FrameBuffer {
    image: RgbaImage,
}

/// The samples the frame holds, row by row, four (red, green, blue, alpha) per pixel.
pub uninterp spec fn frame_samples(frame: FrameBuffer) -> Seq<u8>;

/// The width, in pixels, the frame was made with.
pub uninterp spec fn frame_width(frame: FrameBuffer) -> u32;

/// The height, in pixels, the frame was made with.
pub uninterp spec fn frame_height(frame: FrameBuffer) -> u32;

/// Index of the first sample of pixel `(x, y)` in a frame `width` pixels wide.
pub open spec fn sample_index(width: u32, x: u32, y: u32) -> int {
    (y as int * width as int + x as int) * 4
}

/// The samples after pixel `(x, y)` has been given `color`.
pub open spec fn samples_with_pixel(
    samples: Seq<u8>,
    width: u32,
    x: u32,
    y: u32,
    color: [u8; 4],
) -> Seq<u8> {
    let i = sample_index(width, x, y);
    samples.update(i, color[0]).update(i + 1, color[1]).update(i + 2, color[2]).update(
        i + 3,
        color[3],
    )
}

impl FrameBuffer {
    /// `image::RgbaImage::new`: a frame of `width` by `height` pixels, every sample
    /// zero. The crate panics when the sample count overflows `usize`.
    #[verifier::external_body]
    pub(crate) fn new(width: u32, height: u32) -> (frame: FrameBuffer)
        requires
            width as int * height as int * 4 <= usize::MAX,
        ensures
            frame_width(frame) == width,
            frame_height(frame) == height,
            frame_samples(frame) == Seq::new(
                (width as int * height as int * 4) as nat,
                |i: int| 0u8,
            ),
    {
        FrameBuffer { image: RgbaImage::new(width, height) }
    }

    /// `image::ImageBuffer::put_pixel` on an RGBA image: the four samples of pixel
    /// `(x, y)` take `color`, nothing else changes. The crate panics when the pixel
    /// lies outside the image.
    #[verifier::external_body]
    pub(crate) fn put_pixel(&mut self, x: u32, y: u32, color: [u8; 4])
        requires
            x < frame_width(*old(self)),
            y < frame_height(*old(self)),
        ensures
            frame_width(*final(self)) == frame_width(*old(self)),
            frame_height(*final(self)) == frame_height(*old(self)),
            frame_samples(*final(self)) == samples_with_pixel(
                frame_samples(*old(self)),
                frame_width(*old(self)),
                x,
                y,
                color,
            ),
    {
        self.image.put_pixel(x, y, Rgba(color))
    }
    /// `image::ImageBuffer::as_raw`, copied: the frame's samples.
    #[verifier::external_body]
    fn copy_samples(&self) -> (samples: Vec<u8>)
        ensures
            samples@ == frame_samples(*self),
    {
        self.image.as_raw().clone()
    }

    /// A copy of the frame's samples, row by row, four (red, green, blue, alpha)
    /// per pixel; the frame itself stays behind this type.
    pub fn samples(&self) -> (samples: Vec<u8>)
        ensures
            samples@ == frame_samples(*self),
    {
        self.copy_samples()
    }

    /// `image::ImageBuffer::width`.
    #[verifier::external_body]
    pub(crate) fn width(&self) -> (w: u32)
        ensures
            w == frame_width(*self),
    {
        self.image.width()
    }

    /// `image::ImageBuffer::height`.
    #[verifier::external_body]
    pub(crate) fn height(&self) -> (h: u32)
        ensures
            h == frame_height(*self),
    {
        self.image.height()
    }

    /// The length of `image::ImageBuffer::as_raw`: how many samples the frame holds.
    #[verifier::external_body]
    pub(crate) fn sample_count(&self) -> (n: usize)
        ensures
            n == frame_samples(*self).len(),
    {
        self.image.as_raw().len()
    }
}

} // verus!
