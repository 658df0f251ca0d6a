//! Texture upload checks: the byte size an RGB image of given dimensions
//! must have, and the validation done before pixel data is handed to
//! `glTexImage2D`.

use vstd::prelude::*;

verus! {

/// Bytes per pixel of a tightly packed RGB image.
pub const RGB_BYTES_PER_PIXEL: usize = 3;

/// Byte size of a tightly packed RGB image of `width` by `height` pixels;
/// `None` when that size does not fit in `usize`.
pub fn rgb_data_len(width: usize, height: usize) -> (r: Option<usize>)
    ensures
        (r is Some) == (width * height * RGB_BYTES_PER_PIXEL <= usize::MAX),
        r matches Some(n) ==> n == width * height * RGB_BYTES_PER_PIXEL,
{
    match width.checked_mul(height) {
        None => None,
        Some(pixels) => pixels.checked_mul(RGB_BYTES_PER_PIXEL),
    }
}

/// Whether pixel data may be uploaded as an RGB texture: both dimensions fit
/// OpenGL's signed 32-bit sizes, and the data holds exactly three bytes per
/// pixel.
pub fn rgb_image_fits(width: usize, height: usize, data_len: usize) -> (r: bool)
    ensures
        r == (width <= i32::MAX && height <= i32::MAX && data_len == width * height
            * RGB_BYTES_PER_PIXEL),
{
    if width > (i32::MAX as usize) || height > (i32::MAX as usize) {
        return false;
    }
    match rgb_data_len(width, height) {
        None => false,
        Some(n) => data_len == n,
    }
}

} // verus!
