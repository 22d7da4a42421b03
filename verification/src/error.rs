use vstd::prelude::*;

verus! {

/// A fatal failure of the blur pipeline's configuration. Every failure here
/// aborts the run with a diagnostic; none is retried.
#[derive(Clone, Copy, Debug, PartialEq, Eq, Structural)]
pub enum BlurError {
    /// The image has a zero width or height, so there is no dispatch grid.
    ZeroDimension,
    /// The pixel byte length does not equal width * height * 4.
    PixelLengthMismatch,
    /// The kernel template lacks the width placeholder.
    MissingWidthPlaceholder,
    /// The kernel template lacks the height placeholder.
    MissingHeightPlaceholder,
    /// The kernel template lacks the intensity placeholder.
    MissingIntensityPlaceholder,
    /// A bound buffer's size does not equal the pipeline's expected size.
    BindingSizeMismatch,
    /// A buffer lacks a usage capability that a later operation needs.
    BindingUsageMismatch,
    /// The bytes read back from the device do not fill the output image.
    ReadbackLengthMismatch,
}

impl BlurError {
    /// A short diagnostic phrase for reporting the failure.
    pub fn describe(&self) -> &'static str {
        match self {
            BlurError::ZeroDimension => "image width and height must both be positive",
            BlurError::PixelLengthMismatch => "pixel data length must equal width * height * 4",
            BlurError::MissingWidthPlaceholder => "kernel template lacks the width placeholder",
            BlurError::MissingHeightPlaceholder => "kernel template lacks the height placeholder",
            BlurError::MissingIntensityPlaceholder => "kernel template lacks the intensity placeholder",
            BlurError::BindingSizeMismatch => "bound buffer size does not match the pipeline's expectation",
            BlurError::BindingUsageMismatch => "buffer lacks a usage capability required by the pipeline",
            BlurError::ReadbackLengthMismatch => "read-back byte length does not match the output image",
        }
    }
}

} // verus!
