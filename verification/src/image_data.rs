use vstd::prelude::*;
use crate::error::BlurError;
use crate::image_byte_size;

verus! {

/// A host-resident raster image: RGBA, 8 bits per channel, row-major.
#[derive(Debug)]
pub struct Image {
    pub width: u32,
    pub height: u32,
    pub pixels: Vec<u8>,
}

impl Image {
    /// How many bytes this image's pixel data must occupy.
    pub open spec fn byte_size(self) -> int {
        image_byte_size(self.width as int, self.height as int)
    }

    /// Well-formedness: both dimensions positive, and exactly four bytes per pixel.
    pub open spec fn wf(self) -> bool {
        &&& self.width > 0
        &&& self.height > 0
        &&& self.pixels@.len() == self.byte_size()
    }

    /// Builds an image from its dimensions and raw RGBA bytes, rejecting a
    /// zero dimension and a pixel length other than width * height * 4.
    pub fn new(width: u32, height: u32, pixels: Vec<u8>) -> (r: Result<Image, BlurError>)
        ensures
            r is Ok <==> (width > 0 && height > 0
                && pixels@.len() == image_byte_size(width as int, height as int)),
            r matches Ok(img) ==> img.width == width && img.height == height
                && img.pixels@ == pixels@ && img.wf(),
            r == Err::<Image, BlurError>(BlurError::ZeroDimension) <==> (width == 0 || height == 0),
            r is Err && width > 0 && height > 0
                ==> r == Err::<Image, BlurError>(BlurError::PixelLengthMismatch),
    {
        if width == 0 || height == 0 {
            return Err(BlurError::ZeroDimension);
        }
        proof {
            let w: int = width as int;
            let h: int = height as int;
            assert(w * h <= 0xffff_ffff * 0xffff_ffff) by (nonlinear_arith)
                requires 0 <= w <= 0xffff_ffff, 0 <= h <= 0xffff_ffff;
        }
        let expected: u128 = (width as u128) * (height as u128) * 4;
        if (pixels.len() as u128) != expected {
            return Err(BlurError::PixelLengthMismatch);
        }
        Ok(Image { width, height, pixels })
    }
}

} // verus!
