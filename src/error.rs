//! Errors of frame processing.

use vstd::prelude::*;

verus! {

#[verifier::external_type_specification]
#[verifier::external_body]
pub struct ExImageError(image::ImageError);

/// Errors that can occur while turning a frame file into an upload.
#[derive(Debug)]
pub enum FrameError {
    /// Even at the lowest quality allowed the JPEG is larger than `max_size`
    /// bytes.
    CompressionFailed { frame: u32, max_size: usize },
    /// Decoding the source or encoding the JPEG failed.
    Image(image::ImageError),
}

} // verus!
