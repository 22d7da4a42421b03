use vstd::prelude::*;
use crate::buffers::BufferDesc;
use crate::error::BlurError;
use crate::image_byte_size;

verus! {

/// A compiled kernel's binding expectations: each of its two storage slots
/// must be fed a buffer of exactly this many bytes. Slot 0 is read-only
/// input, slot 1 read-write output, a convention the kernel template mirrors.
#[derive(Clone, Copy, Debug, PartialEq, Eq, Structural)]
pub struct Pipeline {
    pub expected_size: u64,
}

/// Builds the pipeline's binding expectations for an image of the given
/// dimensions.
pub fn build_pipeline(width: u32, height: u32) -> (p: Pipeline)
    requires
        width > 0,
        height > 0,
        crate::buffers::size_fits_u64(width as int, height as int),
    ensures
        p.expected_size == image_byte_size(width as int, height as int),
{
    Pipeline { expected_size: crate::buffers::byte_size_u64(width, height) }
}

/// The concrete assignment of buffers to the pipeline's two slots, produced
/// only after both buffers have been checked against the pipeline.
#[derive(Clone, Copy, Debug, PartialEq, Eq, Structural)]
pub struct BindingSet {
    pub input: BufferDesc,
    pub output: BufferDesc,
}

/// Checks a pair of buffers against the pipeline before any dispatch: both
/// must hold exactly the expected byte size, the input must be readable by
/// the kernel and the output writable. A mismatch is fatal here, never a
/// silent truncation later.
pub fn bind(pipeline: &Pipeline, input: BufferDesc, output: BufferDesc) -> (r: Result<
    BindingSet,
    BlurError,
>)
    ensures
        r is Ok <==> (input.size == pipeline.expected_size && output.size == pipeline.expected_size
            && input.usage.shader_read && output.usage.shader_write),
        r matches Ok(b) ==> b.input == input && b.output == output,
        r == Err::<BindingSet, BlurError>(BlurError::BindingSizeMismatch)
            <==> (input.size != pipeline.expected_size || output.size != pipeline.expected_size),
        r == Err::<BindingSet, BlurError>(BlurError::BindingUsageMismatch)
            <==> (input.size == pipeline.expected_size && output.size == pipeline.expected_size
                && !(input.usage.shader_read && output.usage.shader_write)),
{
    if input.size != pipeline.expected_size || output.size != pipeline.expected_size {
        return Err(BlurError::BindingSizeMismatch);
    }
    if !input.usage.shader_read || !output.usage.shader_write {
        return Err(BlurError::BindingUsageMismatch);
    }
    Ok(BindingSet { input, output })
}

} // verus!
