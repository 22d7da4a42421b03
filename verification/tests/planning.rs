use gpu_blur::error::BlurError;
use gpu_blur::grid::dispatch_grid;
use gpu_blur::image_data::Image;
use gpu_blur::kernel::clamp_intensity_tenths;

#[test]
fn grid_rounds_up_partial_workgroups() {
    let g = dispatch_grid(17, 16);
    assert_eq!(g.x, 3);
    assert_eq!(g.y, 2);
    assert_eq!(g.z, 1);
}

#[test]
fn grid_exact_multiples() {
    let g = dispatch_grid(16, 16);
    assert_eq!(g.x, 2);
    assert_eq!(g.y, 2);
    assert_eq!(g.z, 1);
    let h = dispatch_grid(8, 8);
    assert_eq!(h.x, 1);
    assert_eq!(h.y, 1);
}

#[test]
fn grid_single_pixel_image() {
    let g = dispatch_grid(1, 1);
    assert_eq!(g.x, 1);
    assert_eq!(g.y, 1);
    assert_eq!(g.z, 1);
}

#[test]
fn grid_one_past_multiple() {
    let g = dispatch_grid(9, 25);
    assert_eq!(g.x, 2);
    assert_eq!(g.y, 4);
}

#[test]
fn image_new_accepts_matching_pixels() {
    let img = Image::new(2, 3, vec![7u8; 24]).unwrap();
    assert_eq!(img.width, 2);
    assert_eq!(img.height, 3);
    assert_eq!(img.pixels.len(), 24);
}

#[test]
fn image_new_rejects_zero_width() {
    assert!(matches!(Image::new(0, 3, vec![0u8; 0]), Err(BlurError::ZeroDimension)));
}

#[test]
fn image_new_rejects_zero_height() {
    assert!(matches!(Image::new(3, 0, vec![0u8; 12]), Err(BlurError::ZeroDimension)));
}

#[test]
fn image_new_rejects_short_pixels() {
    assert!(matches!(Image::new(2, 2, vec![0u8; 15]), Err(BlurError::PixelLengthMismatch)));
}

#[test]
fn clamp_pulls_low_intensity_up() {
    assert_eq!(clamp_intensity_tenths(0), 10);
    assert_eq!(clamp_intensity_tenths(9), 10);
}

#[test]
fn clamp_pulls_high_intensity_down() {
    assert_eq!(clamp_intensity_tenths(150), 100);
    assert_eq!(clamp_intensity_tenths(101), 100);
}

#[test]
fn clamp_keeps_in_range_intensity() {
    assert_eq!(clamp_intensity_tenths(10), 10);
    assert_eq!(clamp_intensity_tenths(55), 55);
    assert_eq!(clamp_intensity_tenths(100), 100);
}
