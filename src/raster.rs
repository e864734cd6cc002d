use vstd::prelude::*;

use crate::shape::{
    rgb_shape_ok, validate_alpha_shape, validate_rgb_shape, ExtractImageWarningKind,
};

verus! {

/// A rectangular pixel buffer as the renderer hands it over: `data` is meant to
/// hold `width * height` pixels of one (alpha) or three (RGB) bytes each.
pub struct ChannelBuffer {
    pub width: u32,
    pub height: u32,
    pub data: Vec<u8>,
}

/// How the bytes of a composited image are grouped into pixels.
#[derive(Clone, Copy, Debug, PartialEq, Eq, Structural)]
pub enum PixelLayout {
    Rgb8,
    Rgba8,
}

/// A validated bitmap: `data` holds `width * height` pixels laid out as `layout` says.
pub struct CompositedImage {
    pub layout: PixelLayout,
    pub width: u32,
    pub height: u32,
    pub data: Vec<u8>,
}

/// The mathematical content of a composited image.
pub ghost struct ImageSpec {
    pub layout: PixelLayout,
    pub width: u32,
    pub height: u32,
    pub data: Seq<u8>,
}

impl View for CompositedImage {
    type V = ImageSpec;

    open spec fn view(&self) -> ImageSpec {
        ImageSpec { layout: self.layout, width: self.width, height: self.height, data: self.data@ }
    }
}

/// Bytes per pixel of a layout.
pub open spec fn channel_count(layout: PixelLayout) -> nat {
    match layout {
        PixelLayout::Rgb8 => 3,
        PixelLayout::Rgba8 => 4,
    }
}

/// What the triangle-filter resize of a one-channel `src_width` by `src_height`
/// buffer with bytes `data` to `dst_width` by `dst_height` pixels yields.
pub uninterp spec fn triangle_resized(
    data: Seq<u8>,
    src_width: u32,
    src_height: u32,
    dst_width: u32,
    dst_height: u32,
) -> Seq<u8>;

/// The resize can be carried out without its intermediate buffers overflowing
/// `usize`: a non-empty source is first resampled vertically into a four-channel
/// buffer of `src_width` by `dst_height` pixels, and the result holds
/// `dst_width * dst_height` bytes.
pub open spec fn resize_fits(src_width: u32, src_height: u32, dst_width: u32, dst_height: u32) -> bool {
    &&& src_width == 0 || src_height == 0 || 4 * src_width * dst_height <= usize::MAX
    &&& dst_width * dst_height <= usize::MAX
}

/// Relies on `image::ImageBuffer::<Luma<u8>, Vec<u8>>::from_raw`, which accepts a
/// buffer exactly when it holds at least `width * height` bytes, and on
/// `image::imageops::resize` with `FilterType::Triangle`, whose result holds
/// `dst_width * dst_height` one-byte pixels and depends on its arguments alone.
/// `resize` allocates its buffers through `ImageBuffer::new`, which panics when
/// a length overflows `usize`; `requires` leaves those inputs out.
#[verifier::external_body]
fn resize_alpha_triangle(
    data: &Vec<u8>,
    src_width: u32,
    src_height: u32,
    dst_width: u32,
    dst_height: u32,
) -> (r: Option<Vec<u8>>)
    requires
        resize_fits(src_width, src_height, dst_width, dst_height),
    ensures
        r is Some <==> src_width * src_height <= data@.len(),
        r matches Some(v) ==> v@ == triangle_resized(
            data@,
            src_width,
            src_height,
            dst_width,
            dst_height,
        ),
        r matches Some(v) ==> v@.len() == dst_width * dst_height,
{
    match image::ImageBuffer::<image::Luma<u8>, Vec<u8>>::from_raw(src_width, src_height, data.clone()) {
        Some(src) => Some(
            image::imageops::resize(&src, dst_width, dst_height, image::imageops::FilterType::Triangle).into_raw(),
        ),
        None => None,
    }
}

/// The alpha plane aligned pixel for pixel with `rgb`: the alpha bytes themselves
/// when the dimensions agree, else the alpha buffer resized to `rgb`'s
/// dimensions; `None` when the alpha buffer cannot be read as a buffer of its
/// declared dimensions, or is too large to resize.
pub open spec fn aligned_alpha(rgb: &ChannelBuffer, alpha: &ChannelBuffer) -> Option<Seq<u8>> {
    if alpha.width == rgb.width && alpha.height == rgb.height {
        Some(alpha.data@)
    } else if alpha.width * alpha.height <= alpha.data@.len() && resize_fits(
        alpha.width,
        alpha.height,
        rgb.width,
        rgb.height,
    ) {
        Some(triangle_resized(alpha.data@, alpha.width, alpha.height, rgb.width, rgb.height))
    } else {
        None
    }
}

/// RGB triples and alpha bytes taken in lock-step, four bytes per pixel.
pub open spec fn interleave_rgba(rgb: Seq<u8>, alpha: Seq<u8>) -> Seq<u8> {
    Seq::new(
        alpha.len() * 4,
        |i: int|
            if i % 4 == 3 {
                alpha[i / 4]
            } else {
                rgb[(i / 4) * 3 + i % 4]
            },
    )
}

/// The outcome of compositing `rgb` with an optional `alpha` buffer. An RGBA
/// result whose byte length would not fit in `usize` cannot be built.
pub open spec fn composite_outcome(rgb: &ChannelBuffer, alpha: Option<&ChannelBuffer>) -> Result<
    ImageSpec,
    ExtractImageWarningKind,
> {
    if !rgb_shape_ok(rgb.width, rgb.height, rgb.data@.len() as int) {
        Err(ExtractImageWarningKind::InvalidRgbBufferShape)
    } else {
        match alpha {
            None => Ok(
                ImageSpec {
                    layout: PixelLayout::Rgb8,
                    width: rgb.width,
                    height: rgb.height,
                    data: rgb.data@,
                },
            ),
            Some(a) => match aligned_alpha(rgb, a) {
                None => Err(ExtractImageWarningKind::InvalidAlphaBufferShape),
                Some(plane) => if plane.len() != rgb.width * rgb.height {
                    Err(ExtractImageWarningKind::InvalidAlphaBufferShape)
                } else if rgb.width * rgb.height * 4 > usize::MAX {
                    Err(ExtractImageWarningKind::InvalidRgbaBufferShape)
                } else {
                    Ok(
                        ImageSpec {
                            layout: PixelLayout::Rgba8,
                            width: rgb.width,
                            height: rgb.height,
                            data: interleave_rgba(rgb.data@, plane),
                        },
                    )
                },
            },
        }
    }
}

/// Interleaves `pixels` RGB triples with as many alpha bytes.
fn interleave(rgb: &Vec<u8>, alpha: &Vec<u8>, pixels: usize) -> (r: Vec<u8>)
    requires
        rgb@.len() == pixels * 3,
        alpha@.len() == pixels,
        pixels * 4 <= usize::MAX,
    ensures
        r@ == interleave_rgba(rgb@, alpha@),
{
    let mut out: Vec<u8> = Vec::with_capacity(pixels * 4);
    let mut i: usize = 0;
    while i < pixels
        invariant
            i <= pixels,
            rgb@.len() == pixels * 3,
            alpha@.len() == pixels,
            pixels * 4 <= usize::MAX,
            out@.len() == i * 4,
            forall|j: int|
                0 <= j < i * 4 ==> out@[j] == (if j % 4 == 3 {
                    alpha@[j / 4]
                } else {
                    rgb@[(j / 4) * 3 + j % 4]
                }),
        decreases pixels - i,
    {
        let base: usize = i * 3;
        out.push(rgb[base]);
        out.push(rgb[base + 1]);
        out.push(rgb[base + 2]);
        out.push(alpha[i]);
        proof {
            let ii = i as int;
            assert((ii * 4) / 4 == ii && (ii * 4) % 4 == 0) by (nonlinear_arith);
            assert((ii * 4 + 1) / 4 == ii && (ii * 4 + 1) % 4 == 1) by (nonlinear_arith);
            assert((ii * 4 + 2) / 4 == ii && (ii * 4 + 2) % 4 == 2) by (nonlinear_arith);
            assert((ii * 4 + 3) / 4 == ii && (ii * 4 + 3) % 4 == 3) by (nonlinear_arith);
            assert forall|j: int| 0 <= j < ii * 4 + 4 implies #[trigger] out@[j] == (if j % 4 == 3 {
                alpha@[j / 4]
            } else {
                rgb@[(j / 4) * 3 + j % 4]
            }) by {
                if j >= ii * 4 {
                    assert(j == ii * 4 || j == ii * 4 + 1 || j == ii * 4 + 2 || j == ii * 4 + 3);
                }
            }
        }
        i = i + 1;
    }
    assert(out@ =~= interleave_rgba(rgb@, alpha@));
    out
}

/// Widens a one-channel grey buffer into an RGB buffer of the same dimensions,
/// each grey byte becoming a triple of equal channels.
pub fn grey_to_rgb(grey: &ChannelBuffer) -> (r: ChannelBuffer)
    requires
        grey.data@.len() * 3 <= usize::MAX,
    ensures
        r.width == grey.width,
        r.height == grey.height,
        r.data@.len() == grey.data@.len() * 3,
        forall|i: int| 0 <= i < r.data@.len() ==> #[trigger] r.data@[i] == grey.data@[i / 3],
{
    let n = grey.data.len();
    let mut out: Vec<u8> = Vec::with_capacity(n * 3);
    let mut i: usize = 0;
    while i < n
        invariant
            i <= n,
            n == grey.data@.len(),
            n * 3 <= usize::MAX,
            out@.len() == i * 3,
            forall|j: int| 0 <= j < i * 3 ==> #[trigger] out@[j] == grey.data@[j / 3],
        decreases n - i,
    {
        let v = grey.data[i];
        out.push(v);
        out.push(v);
        out.push(v);
        proof {
            let ii = i as int;
            assert((ii * 3) / 3 == ii) by (nonlinear_arith);
            assert((ii * 3 + 1) / 3 == ii) by (nonlinear_arith);
            assert((ii * 3 + 2) / 3 == ii) by (nonlinear_arith);
            assert forall|j: int| 0 <= j < ii * 3 + 3 implies #[trigger] out@[j] == grey.data@[j / 3] by {
                if j >= ii * 3 {
                    assert(j == ii * 3 || j == ii * 3 + 1 || j == ii * 3 + 2);
                }
            }
        }
        i = i + 1;
    }
    ChannelBuffer { width: grey.width, height: grey.height, data: out }
}

/// Turns a decoded RGB buffer and an optional alpha buffer into one bitmap.
///
/// The RGB buffer must hold exactly three bytes per pixel. Without alpha the
/// result is the RGB bytes unchanged. With alpha of the same dimensions its bytes
/// are used as they are; with alpha of other dimensions it is first resized to the
/// RGB dimensions with a triangle filter. The result then holds `(r, g, b, a)` for
/// each pixel in scan order. An alpha buffer that cannot be read or resized, or
/// whose aligned plane has another pixel count, gives an alpha-shape warning; an
/// RGBA byte length beyond `usize` gives an RGBA-shape warning.
pub fn composite_raster(rgb: &ChannelBuffer, alpha: Option<&ChannelBuffer>) -> (r: Result<
    CompositedImage,
    ExtractImageWarningKind,
>)
    ensures
        match r {
            Ok(img) => composite_outcome(rgb, alpha) == Ok::<ImageSpec, ExtractImageWarningKind>(
                img@,
            ),
            Err(k) => composite_outcome(rgb, alpha) == Err::<ImageSpec, ExtractImageWarningKind>(
                k,
            ),
        },
        !rgb_shape_ok(rgb.width, rgb.height, rgb.data@.len() as int) ==> r == Err::<
            CompositedImage,
            ExtractImageWarningKind,
        >(ExtractImageWarningKind::InvalidRgbBufferShape),
        rgb_shape_ok(rgb.width, rgb.height, rgb.data@.len() as int) && alpha is None ==> (
        r matches Ok(img) && img.layout == PixelLayout::Rgb8 && img.data@ == rgb.data@),
        alpha matches Some(a) ==> {
            &&& rgb_shape_ok(rgb.width, rgb.height, rgb.data@.len() as int) && a.width == rgb.width
                && a.height == rgb.height && a.data@.len() == rgb.width * rgb.height && rgb.width * rgb.height * 4
                <= usize::MAX ==> (
            r matches Ok(img) && img.layout == PixelLayout::Rgba8 && img.data@ == interleave_rgba(
                rgb.data@,
                a.data@,
            ))
            &&& rgb_shape_ok(rgb.width, rgb.height, rgb.data@.len() as int) && (a.width
                != rgb.width || a.height != rgb.height) && a.width * a.height <= a.data@.len()
                && resize_fits(a.width, a.height, rgb.width, rgb.height) && rgb.width
                * rgb.height * 4 <= usize::MAX ==> (r matches Ok(img)
                && img.layout == PixelLayout::Rgba8 && img.data@.len() == rgb.width * rgb.height
                * 4)
            &&& (a.width != rgb.width || a.height != rgb.height) && a.width * a.height
                > a.data@.len() ==> r == Err::<CompositedImage, ExtractImageWarningKind>(
                if rgb_shape_ok(rgb.width, rgb.height, rgb.data@.len() as int) {
                    ExtractImageWarningKind::InvalidAlphaBufferShape
                } else {
                    ExtractImageWarningKind::InvalidRgbBufferShape
                },
            )
        },
        r matches Ok(img) ==> img.width == rgb.width && img.height == rgb.height
            && img.data@.len() == rgb.width * rgb.height * channel_count(img.layout),
{
    let pixels = match validate_rgb_shape(rgb.width, rgb.height, rgb.data.len()) {
        Ok(p) => p,
        Err(k) => return Err(k),
    };
    match alpha {
        None => {
            proof {
                assert(rgb.width * rgb.height * channel_count(PixelLayout::Rgb8) == rgb.data@.len());
            }
            Ok(CompositedImage { layout: PixelLayout::Rgb8, width: rgb.width, height: rgb.height, data: rgb.data.clone() })
        },
        Some(a) => {
            let alpha_data: Vec<u8> = if a.width == rgb.width && a.height == rgb.height {
                a.data.clone()
            } else {
                proof {
                    assert((a.width as int) * 4 * (rgb.height as int) <= 0x4_0000_0000_0000_0000) by (nonlinear_arith)
                        requires a.width <= u32::MAX, rgb.height <= u32::MAX;
                }
                let fits = a.width == 0 || a.height == 0 || (a.width as u128) * 4 * (
                rgb.height as u128) <= usize::MAX as u128;
                if !fits {
                    return Err(ExtractImageWarningKind::InvalidAlphaBufferShape);
                }
                match resize_alpha_triangle(&a.data, a.width, a.height, rgb.width, rgb.height) {
                    Some(v) => v,
                    None => return Err(ExtractImageWarningKind::InvalidAlphaBufferShape),
                }
            };
            match validate_alpha_shape(pixels, alpha_data.len()) {
                Ok(()) => {},
                Err(k) => return Err(k),
            }
            let rgba_len = match pixels.checked_mul(4) {
                Some(n) => n,
                None => return Err(ExtractImageWarningKind::InvalidRgbaBufferShape),
            };
            let data = interleave(&rgb.data, &alpha_data, pixels);
            Ok(CompositedImage { layout: PixelLayout::Rgba8, width: rgb.width, height: rgb.height, data })
        },
    }
}

} // verus!
