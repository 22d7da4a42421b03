use vstd::prelude::*;
use crate::image_byte_size;
use crate::image_data::Image;

verus! {

/// The capability set a device buffer is allocated with. Every operation
/// later performed on the buffer must be covered by a capability here.
#[derive(Clone, Copy, Debug, PartialEq, Eq, Structural)]
pub struct BufferUsage {
    /// The kernel may read the buffer as storage.
    pub shader_read: bool,
    /// The kernel may write the buffer as storage.
    pub shader_write: bool,
    /// The buffer may be the source of a device-side copy.
    pub copy_src: bool,
    /// The buffer may be the destination of a device-side copy.
    pub copy_dst: bool,
    /// The host may map the buffer for reading.
    pub map_read: bool,
}

/// The allocation request for one device buffer: its size in bytes and the
/// capability set it must be created with.
#[derive(Clone, Copy, Debug, PartialEq, Eq, Structural)]
pub struct BufferDesc {
    pub size: u64,
    pub usage: BufferUsage,
}

/// The byte size of an image fits the device's 64-bit buffer sizes.
pub open spec fn size_fits_u64(width: int, height: int) -> bool {
    image_byte_size(width, height) <= u64::MAX
}

/// The exact capability set of the input buffer: read by the kernel,
/// and copyable out for diagnostics.
pub open spec fn input_usage() -> BufferUsage {
    BufferUsage { shader_read: true, shader_write: false, copy_src: true, copy_dst: false, map_read: false }
}

/// The exact capability set of the output buffer: written by the kernel and
/// copied from into staging.
pub open spec fn output_usage() -> BufferUsage {
    BufferUsage { shader_read: false, shader_write: true, copy_src: true, copy_dst: true, map_read: false }
}

/// The exact capability set of the staging buffer: copied into on the device,
/// then mapped by the host for reading.
pub open spec fn staging_usage() -> BufferUsage {
    BufferUsage { shader_read: false, shader_write: false, copy_src: false, copy_dst: true, map_read: true }
}

/// Describes the input buffer for an image: sized to the pixel data, which is
/// uploaded into it at creation.
pub fn input_buffer_desc(img: &Image) -> (d: BufferDesc)
    requires
        img.wf(),
    ensures
        d.size == img.byte_size(),
        d.usage == input_usage(),
{
    BufferDesc { size: img.pixels.len() as u64, usage: BufferUsage { shader_read: true, shader_write: false, copy_src: true, copy_dst: false, map_read: false } }
}

/// Describes the uninitialized output buffer the kernel writes into.
pub fn output_buffer_desc(width: u32, height: u32) -> (d: BufferDesc)
    requires
        width > 0,
        height > 0,
        size_fits_u64(width as int, height as int),
    ensures
        d.size == image_byte_size(width as int, height as int),
        d.usage == output_usage(),
{
    BufferDesc { size: byte_size_u64(width, height), usage: BufferUsage { shader_read: false, shader_write: true, copy_src: true, copy_dst: true, map_read: false } }
}

/// Describes the uninitialized staging buffer the host maps after the run.
pub fn staging_buffer_desc(width: u32, height: u32) -> (d: BufferDesc)
    requires
        width > 0,
        height > 0,
        size_fits_u64(width as int, height as int),
    ensures
        d.size == image_byte_size(width as int, height as int),
        d.usage == staging_usage(),
{
    BufferDesc { size: byte_size_u64(width, height), usage: BufferUsage { shader_read: false, shader_write: false, copy_src: false, copy_dst: true, map_read: true } }
}

/// Computes width * height * 4 in 64-bit arithmetic.
pub fn byte_size_u64(width: u32, height: u32) -> (n: u64)
    requires
        size_fits_u64(width as int, height as int),
    ensures
        n == image_byte_size(width as int, height as int),
{
    proof {
        let w: int = width as int;
        let h: int = height as int;
        assert(w * h <= 0xffff_ffff * 0xffff_ffff) by (nonlinear_arith)
            requires 0 <= w <= 0xffff_ffff, 0 <= h <= 0xffff_ffff;
        assert(0 <= w * h) by (nonlinear_arith)
            requires 0 <= w, 0 <= h;
    }
    (width as u64) * (height as u64) * 4
}

} // verus!
