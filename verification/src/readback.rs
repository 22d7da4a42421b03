use vstd::prelude::*;
use crate::error::BlurError;
use crate::image_byte_size;
use crate::image_data::Image;

verus! {

/// Builds the output image from the bytes mapped out of the staging buffer.
/// Succeeds exactly when the device handed back one full image's worth of
/// bytes; the output then has the input's dimensions and carries the mapped
/// bytes unchanged.
pub fn finish_image(input: &Image, bytes: Vec<u8>) -> (r: Result<Image, BlurError>)
    requires
        input.wf(),
    ensures
        r is Ok <==> bytes@.len() == input.byte_size(),
        r matches Ok(out) ==> out.wf() && out.width == input.width && out.height == input.height
            && out.pixels@ == bytes@,
        r is Err ==> r == Err::<Image, BlurError>(BlurError::ReadbackLengthMismatch),
{
    match Image::new(input.width, input.height, bytes) {
        Ok(out) => Ok(out),
        Err(_) => Err(BlurError::ReadbackLengthMismatch),
    }
}

/// An image assembled from a full staging readback occupies exactly as many
/// bytes as the input image: the blur changes pixel values, never the
/// image's shape.
pub proof fn lemma_readback_preserves_size(input: Image, output: Image)
    requires
        input.wf(),
        output.wf(),
        output.width == input.width,
        output.height == input.height,
    ensures
        output.pixels@.len() == input.pixels@.len(),
        output.pixels@.len() == image_byte_size(input.width as int, input.height as int),
{
}

} // verus!
