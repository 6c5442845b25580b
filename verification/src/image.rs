//! Image dimensions in pixels.

use vstd::prelude::*;

verus! {

/// Width of the image a camera starts with.
pub const DEFAULT_WIDTH: u32 = 320;

/// Height of the image a camera starts with.
pub const DEFAULT_HEIGHT: u32 = 240;

/// Why an image size cannot be sampled.
#[derive(Clone, Copy, Debug, PartialEq, Eq, Structural)]
pub enum SizeError {
    /// The image has fewer than two columns.
    WidthTooSmall,
    /// The image has fewer than two rows.
    HeightTooSmall,
}

/// Width and height of an image, in pixels.
#[derive(Clone, Copy, Debug, PartialEq, Eq, Structural)]
pub struct ImageSize {
    pub width: u32,
    pub height: u32,
}

impl ImageSize {
    /// Number of pixels of the image.
    pub open spec fn count(self) -> nat {
        (self.width * self.height) as nat
    }

    /// Whether the image plane can be sampled: the pixel grid is spread over
    /// the plane in `width - 1` and `height - 1` steps, so both dimensions
    /// must be at least 2.
    pub open spec fn is_samplable(self) -> bool {
        self.width >= 2 && self.height >= 2
    }

    /// An image of `width` by `height` pixels.
    pub fn new(width: u32, height: u32) -> (size: ImageSize)
        ensures
            size.width == width,
            size.height == height,
    {
        ImageSize { width, height }
    }

    /// Number of pixels of the image.
    pub fn pixel_count(&self) -> (n: u64)
        ensures
            n == self.count(),
    {
        assert(self.width * self.height <= 0xffff_ffff * 0xffff_ffff) by (nonlinear_arith)
            requires
                0 <= self.width <= 0xffff_ffff,
                0 <= self.height <= 0xffff_ffff,
        ;
        (self.width as u64) * (self.height as u64)
    }

    /// Accepts the sizes that can be sampled. A dimension below 2 is
    /// rejected, the width first.
    pub fn validate(&self) -> (r: Result<(), SizeError>)
        ensures
            r is Ok <==> self.is_samplable(),
            r == Err::<(), SizeError>(SizeError::WidthTooSmall) <==> self.width < 2,
            r == Err::<(), SizeError>(SizeError::HeightTooSmall) <==> self.width >= 2
                && self.height < 2,
    {
        if self.width < 2 {
            Err(SizeError::WidthTooSmall)
        } else if self.height < 2 {
            Err(SizeError::HeightTooSmall)
        } else {
            Ok(())
        }
    }
}

impl Default for ImageSize {
    fn default() -> (size: ImageSize)
        ensures
            size.width == DEFAULT_WIDTH,
            size.height == DEFAULT_HEIGHT,
    {
        ImageSize { width: DEFAULT_WIDTH, height: DEFAULT_HEIGHT }
    }
}

} // verus!
