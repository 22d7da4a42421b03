use gpu_blur::binding::{bind, build_pipeline, Pipeline};
use gpu_blur::buffers::{
    input_buffer_desc, output_buffer_desc, staging_buffer_desc, BufferDesc, BufferUsage,
};
use gpu_blur::error::BlurError;
use gpu_blur::image_data::Image;
use gpu_blur::plan::{entry_point, plan_blur};
use gpu_blur::readback::finish_image;

fn storage_usage() -> BufferUsage {
    BufferUsage { shader_read: true, shader_write: true, copy_src: true, copy_dst: true, map_read: false }
}

fn template() -> Vec<u8> {
    b"const W: u32 = WIDTH_PLACEHOLDER; const H: u32 = HEIGHT_PLACEHOLDER; const S: f32 = INTENSITY_PLACEHOLDER; @compute @workgroup_size(8, 8, 1) fn gaussian_blur() {}"
        .to_vec()
}

#[test]
fn buffer_descs_are_sized_to_the_image() {
    let img = Image::new(16, 16, vec![0u8; 1024]).unwrap();
    let input = input_buffer_desc(&img);
    assert_eq!(input.size, 1024);
    assert!(input.usage.shader_read && input.usage.copy_src);
    assert!(!input.usage.shader_write && !input.usage.map_read);
    let output = output_buffer_desc(16, 16);
    assert_eq!(output.size, 1024);
    assert!(output.usage.shader_write && output.usage.copy_src && output.usage.copy_dst);
    let staging = staging_buffer_desc(16, 16);
    assert_eq!(staging.size, 1024);
    assert!(staging.usage.map_read && staging.usage.copy_dst);
    assert!(!staging.usage.shader_read && !staging.usage.shader_write);
}

#[test]
fn bind_rejects_one_byte_short_buffer() {
    let pipeline = build_pipeline(16, 16);
    assert_eq!(pipeline.expected_size, 1024);
    let short = BufferDesc { size: 1023, usage: storage_usage() };
    let right = BufferDesc { size: 1024, usage: storage_usage() };
    assert!(matches!(bind(&pipeline, short, right), Err(BlurError::BindingSizeMismatch)));
    assert!(matches!(bind(&pipeline, right, short), Err(BlurError::BindingSizeMismatch)));
}

#[test]
fn bind_rejects_unreadable_input() {
    let pipeline = Pipeline { expected_size: 64 };
    let mut no_read = storage_usage();
    no_read.shader_read = false;
    let input = BufferDesc { size: 64, usage: no_read };
    let output = BufferDesc { size: 64, usage: storage_usage() };
    assert!(matches!(bind(&pipeline, input, output), Err(BlurError::BindingUsageMismatch)));
}

#[test]
fn bind_rejects_unwritable_output() {
    let pipeline = Pipeline { expected_size: 64 };
    let mut no_write = storage_usage();
    no_write.shader_write = false;
    let input = BufferDesc { size: 64, usage: storage_usage() };
    let output = BufferDesc { size: 64, usage: no_write };
    assert!(matches!(bind(&pipeline, input, output), Err(BlurError::BindingUsageMismatch)));
}

#[test]
fn bind_accepts_matching_buffers() {
    let pipeline = Pipeline { expected_size: 64 };
    let input = BufferDesc { size: 64, usage: storage_usage() };
    let output = BufferDesc { size: 64, usage: storage_usage() };
    let set = bind(&pipeline, input, output).unwrap();
    assert_eq!(set.input.size, 64);
    assert_eq!(set.output.size, 64);
}

#[test]
fn plan_covers_a_sixteen_square_image() {
    let img = Image::new(16, 16, vec![128u8; 1024]).unwrap();
    let plan = plan_blur(&img, 15, &template()).unwrap();
    assert_eq!(plan.params.width, 16);
    assert_eq!(plan.params.height, 16);
    assert_eq!(plan.params.intensity_tenths, 15);
    assert_eq!(plan.input.size, 1024);
    assert_eq!(plan.output.size, 1024);
    assert_eq!(plan.staging.size, 1024);
    assert_eq!(plan.copy_size, 1024);
    assert_eq!(plan.grid.x, 2);
    assert_eq!(plan.grid.y, 2);
    assert_eq!(plan.grid.z, 1);
    let code = String::from_utf8(plan.shader.clone()).unwrap();
    assert_eq!(
        code,
        "const W: u32 = 16; const H: u32 = 16; const S: f32 = 1.5; @compute @workgroup_size(8, 8, 1) fn gaussian_blur() {}"
    );
}

#[test]
fn plan_clamps_the_intensity() {
    let img = Image::new(4, 4, vec![0u8; 64]).unwrap();
    let plan = plan_blur(&img, 250, &template()).unwrap();
    assert_eq!(plan.params.intensity_tenths, 100);
    let plan_low = plan_blur(&img, 3, &template()).unwrap();
    assert_eq!(plan_low.params.intensity_tenths, 10);
}

#[test]
fn plan_rejects_template_without_placeholder() {
    let img = Image::new(4, 4, vec![0u8; 64]).unwrap();
    let t = b"fn gaussian_blur() {}".to_vec();
    assert!(matches!(plan_blur(&img, 10, &t), Err(BlurError::MissingWidthPlaceholder)));
}

#[test]
fn plan_grid_rounds_up_odd_dimensions() {
    let img = Image::new(17, 9, vec![0u8; 17 * 9 * 4]).unwrap();
    let plan = plan_blur(&img, 10, &template()).unwrap();
    assert_eq!(plan.grid.x, 3);
    assert_eq!(plan.grid.y, 2);
}

#[test]
fn finish_image_keeps_dimensions_and_bytes() {
    let img = Image::new(16, 16, vec![128u8; 1024]).unwrap();
    let bytes: Vec<u8> = vec![42u8; 1024];
    let out = finish_image(&img, bytes.clone()).unwrap();
    assert_eq!(out.width, 16);
    assert_eq!(out.height, 16);
    assert_eq!(out.pixels, bytes);
}

#[test]
fn finish_image_rejects_short_readback() {
    let img = Image::new(16, 16, vec![128u8; 1024]).unwrap();
    assert!(matches!(
        finish_image(&img, vec![0u8; 1023]),
        Err(BlurError::ReadbackLengthMismatch)
    ));
}

#[test]
fn entry_point_is_the_template_convention() {
    assert_eq!(entry_point(), "gaussian_blur");
}

#[test]
fn errors_describe_themselves() {
    assert!(!BlurError::ZeroDimension.describe().is_empty());
    assert!(BlurError::BindingSizeMismatch
        .describe()
        .contains("size"));
}
