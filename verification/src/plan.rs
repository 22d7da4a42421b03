use vstd::prelude::*;
use crate::binding::{bind, build_pipeline, BindingSet, Pipeline};
use crate::buffers::{
    input_buffer_desc, input_usage, output_buffer_desc, output_usage, size_fits_u64,
    staging_buffer_desc, staging_usage, BufferDesc,
};
use crate::error::BlurError;
use crate::grid::{dispatch_grid, DispatchGrid};
use crate::image_byte_size;
use crate::image_data::Image;
use crate::kernel::{
    clamp_intensity_tenths, clamped_intensity, contains_pattern, height_placeholder,
    instantiate_kernel, instantiated, intensity_placeholder, width_placeholder, KernelParameters,
};

verus! {

/// A device-side copy from `src` into `dst` is legal: the source may be
/// copied from, the destination copied into, and the sizes agree, so the
/// full range fits exactly.
pub open spec fn copy_legal(src: BufferDesc, dst: BufferDesc) -> bool {
    &&& src.usage.copy_src
    &&& dst.usage.copy_dst
    &&& src.size == dst.size
}

/// Everything one run submits to the device, assembled and checked on the
/// host before anything touches the queue: the three buffer allocations, the
/// instantiated kernel source, the checked binding set, the workgroup grid,
/// and the size of the copy into staging.
pub struct BlurPlan {
    pub params: KernelParameters,
    pub input: BufferDesc,
    pub output: BufferDesc,
    pub staging: BufferDesc,
    pub pipeline: Pipeline,
    pub bindings: BindingSet,
    pub shader: Vec<u8>,
    pub grid: DispatchGrid,
    pub copy_size: u64,
}

impl BlurPlan {
    /// The plan is consistent for an image: every buffer is sized to the
    /// image, every capability covers the operation later performed on the
    /// buffer, the bindings passed the size check, and the grid covers every
    /// pixel.
    pub open spec fn wf_for(self, img: Image) -> bool {
        &&& self.params.width == img.width
        &&& self.params.height == img.height
        &&& self.params.wf()
        &&& self.input.size == img.byte_size()
        &&& self.input.usage == input_usage()
        &&& self.output.size == img.byte_size()
        &&& self.output.usage == output_usage()
        &&& self.staging.size == img.byte_size()
        &&& self.staging.usage == staging_usage()
        &&& self.pipeline.expected_size == img.byte_size()
        &&& self.bindings.input == self.input
        &&& self.bindings.output == self.output
        &&& copy_legal(self.output, self.staging)
        &&& self.staging.usage.map_read
        &&& self.grid.wf_for(img.width as int, img.height as int)
        &&& self.copy_size == img.byte_size()
    }
}

/// Assembles and checks the whole run for one image: clamps the intensity,
/// sizes the three buffers, instantiates the kernel template, builds the
/// pipeline's expectations, checks the bindings, and computes the dispatch
/// grid. Fails exactly when the template lacks a placeholder.
pub fn plan_blur(img: &Image, intensity_tenths: u32, template: &Vec<u8>) -> (r: Result<
    BlurPlan,
    BlurError,
>)
    requires
        img.wf(),
    ensures
        r is Ok <==> (contains_pattern(template@, width_placeholder())
            && contains_pattern(template@, height_placeholder())
            && contains_pattern(template@, intensity_placeholder())),
        r matches Ok(p) ==> p.wf_for(*img),
        r matches Ok(p) ==> p.params.intensity_tenths == clamped_intensity(intensity_tenths as int),
        r matches Ok(p) ==> p.shader@ == instantiated(
            template@,
            img.width as int,
            img.height as int,
            clamped_intensity(intensity_tenths as int),
        ),
        r == Err::<BlurPlan, BlurError>(BlurError::MissingWidthPlaceholder)
            <==> !contains_pattern(template@, width_placeholder()),
        r == Err::<BlurPlan, BlurError>(BlurError::MissingHeightPlaceholder)
            <==> (contains_pattern(template@, width_placeholder())
                && !contains_pattern(template@, height_placeholder())),
        r == Err::<BlurPlan, BlurError>(BlurError::MissingIntensityPlaceholder)
            <==> (contains_pattern(template@, width_placeholder())
                && contains_pattern(template@, height_placeholder())
                && !contains_pattern(template@, intensity_placeholder())),
{
    let pixel_bytes: usize = img.pixels.len();
    proof {
        assert(pixel_bytes == img.byte_size());
        assert(size_fits_u64(img.width as int, img.height as int));
    }
    let params = KernelParameters {
        width: img.width,
        height: img.height,
        intensity_tenths: clamp_intensity_tenths(intensity_tenths),
    };
    let shader = match instantiate_kernel(template, params) {
        Ok(code) => code,
        Err(e) => {
            return Err(e);
        },
    };
    let input = input_buffer_desc(img);
    let output = output_buffer_desc(img.width, img.height);
    let staging = staging_buffer_desc(img.width, img.height);
    let pipeline = build_pipeline(img.width, img.height);
    let bindings = match bind(&pipeline, input, output) {
        Ok(b) => b,
        Err(_) => {
            return Err(BlurError::BindingSizeMismatch);
        },
    };
    let grid = dispatch_grid(img.width, img.height);
    let copy_size = output.size;
    Ok(BlurPlan { params, input, output, staging, pipeline, bindings, shader, grid, copy_size })
}

/// Every device buffer of a well-formed plan carries a capability for each
/// operation the run later performs on it: the kernel reads slot 0 and
/// writes slot 1, the recorded copy drains the output into staging over the
/// full range, and the host maps staging for reading. No operation of the
/// run is outside its buffer's declared usage.
pub proof fn lemma_plan_usage_covers_operations(p: BlurPlan, img: Image)
    requires
        p.wf_for(img),
    ensures
        p.bindings.input.usage.shader_read,
        p.bindings.output.usage.shader_write,
        p.output.usage.copy_src,
        p.staging.usage.copy_dst,
        p.staging.usage.map_read,
        p.copy_size == p.output.size && p.copy_size == p.staging.size,
{
}

/// A full readback of the staging buffer always carries exactly one output
/// image's worth of bytes, so assembling the output image from it cannot
/// fail, and the output keeps the input image's dimensions.
pub proof fn lemma_full_readback_fills_output(p: BlurPlan, img: Image, staged: Seq<u8>)
    requires
        p.wf_for(img),
        staged.len() == p.staging.size,
    ensures
        staged.len() == image_byte_size(img.width as int, img.height as int),
{
}

/// The fixed name of the kernel's entry function; the template must declare
/// it under the same name.
pub fn entry_point() -> (r: &'static str)
    ensures
        r@ == "gaussian_blur"@,
{
    "gaussian_blur"
}

} // verus!
