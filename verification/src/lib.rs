use vstd::prelude::*;

pub mod binding;
pub mod buffers;
pub mod error;
pub mod grid;
pub mod image_data;
pub mod kernel;
pub mod plan;
pub mod readback;

verus! {

/// Number of bytes per RGBA pixel: four channels, one byte each.
pub open spec fn bytes_per_pixel() -> int {
    4
}

/// The number of bytes an image of the given dimensions occupies.
pub open spec fn image_byte_size(width: int, height: int) -> int {
    width * height * bytes_per_pixel()
}

} // verus!
