use vstd::prelude::*;

verus! {

/// Why a single raster could not be turned into a bitmap.
#[derive(Clone, Copy, Debug, PartialEq, Eq, Structural)]
pub enum ExtractImageWarningKind {
    InvalidAlphaBufferShape,
    InvalidRgbBufferShape,
    InvalidRgbaBufferShape,
}

/// An RGB buffer of `width` by `height` pixels holds exactly three bytes per pixel.
pub open spec fn rgb_shape_ok(width: u32, height: u32, len: int) -> bool {
    width * height * 3 == len
}

/// Number of pixels of a `width` by `height` buffer, when it fits in `usize`.
pub fn expected_pixel_count(width: u32, height: u32) -> (r: Option<usize>)
    ensures
        r is Some <==> width * height <= usize::MAX,
        r matches Some(n) ==> n == width * height,
{
    (width as usize).checked_mul(height as usize)
}

/// Checks that an RGB buffer of `rgb_len` bytes has the shape `width` by `height`,
/// and returns its pixel count.
pub fn validate_rgb_shape(width: u32, height: u32, rgb_len: usize) -> (r: Result<
    usize,
    ExtractImageWarningKind,
>)
    ensures
        r is Ok <==> rgb_shape_ok(width, height, rgb_len as int),
        r matches Ok(n) ==> n == width * height,
        r matches Err(k) ==> k == ExtractImageWarningKind::InvalidRgbBufferShape,
{
    let pixels = match expected_pixel_count(width, height) {
        Some(p) => p,
        None => {
            proof {
                assert(width * height * 3 >= width * height) by (nonlinear_arith);
            }
            return Err(ExtractImageWarningKind::InvalidRgbBufferShape);
        },
    };
    let expected_rgb_len = match pixels.checked_mul(3) {
        Some(n) => n,
        None => return Err(ExtractImageWarningKind::InvalidRgbBufferShape),
    };
    if rgb_len != expected_rgb_len {
        return Err(ExtractImageWarningKind::InvalidRgbBufferShape);
    }
    Ok(pixels)
}

/// Checks that an alpha buffer of `alpha_len` bytes holds one byte for each of
/// `expected_pixels` pixels.
pub fn validate_alpha_shape(expected_pixels: usize, alpha_len: usize) -> (r: Result<
    (),
    ExtractImageWarningKind,
>)
    ensures
        r is Ok <==> alpha_len == expected_pixels,
        r matches Err(k) ==> k == ExtractImageWarningKind::InvalidAlphaBufferShape,
{
    if alpha_len != expected_pixels {
        return Err(ExtractImageWarningKind::InvalidAlphaBufferShape);
    }
    Ok(())
}

} // verus!

verus! {

impl ExtractImageWarningKind {
    /// A sentence that describes the failure.
    pub fn message(&self) -> (r: &'static str)
        ensures
            r@ == match self {
                ExtractImageWarningKind::InvalidAlphaBufferShape => "alpha image buffer shape is invalid"@,
                ExtractImageWarningKind::InvalidRgbBufferShape => "rgb image buffer shape is invalid"@,
                ExtractImageWarningKind::InvalidRgbaBufferShape => "rgba image buffer shape is invalid"@,
            },
    {
        match self {
            ExtractImageWarningKind::InvalidAlphaBufferShape => "alpha image buffer shape is invalid",
            ExtractImageWarningKind::InvalidRgbBufferShape => "rgb image buffer shape is invalid",
            ExtractImageWarningKind::InvalidRgbaBufferShape => "rgba image buffer shape is invalid",
        }
    }
}

/// The stable machine-readable code of a warning kind.
pub fn warning_kind_code(kind: &ExtractImageWarningKind) -> (r: &'static str)
    ensures
        r@ == match kind {
            ExtractImageWarningKind::InvalidAlphaBufferShape => "invalid_alpha_buffer_shape"@,
            ExtractImageWarningKind::InvalidRgbBufferShape => "invalid_rgb_buffer_shape"@,
            ExtractImageWarningKind::InvalidRgbaBufferShape => "invalid_rgba_buffer_shape"@,
        },
{
    match kind {
        ExtractImageWarningKind::InvalidAlphaBufferShape => "invalid_alpha_buffer_shape",
        ExtractImageWarningKind::InvalidRgbBufferShape => "invalid_rgb_buffer_shape",
        ExtractImageWarningKind::InvalidRgbaBufferShape => "invalid_rgba_buffer_shape",
    }
}

} // verus!
