use vstd::prelude::*;

use vstd::string::StringExecFns;

use crate::raster::{composite_outcome, composite_raster, ChannelBuffer, CompositedImage, ImageSpec};
use crate::shape::{rgb_shape_ok, ExtractImageWarningKind};

verus! {

/// A bitmap found on page `page_index`.
pub struct ExtractedImage {
    pub page_index: usize,
    pub image: CompositedImage,
}

/// A raster on page `page_index` that could not be turned into a bitmap.
#[derive(Clone, Copy, Debug, PartialEq, Eq, Structural)]
pub struct ExtractImageWarning {
    pub page_index: usize,
    pub kind: ExtractImageWarningKind,
}

/// The bitmaps and warnings of one extraction pass, in discovery order.
pub struct ExtractImagesResult {
    pub images: Vec<ExtractedImage>,
    pub errors: Vec<ExtractImageWarning>,
}

/// The document itself could not be read.
#[derive(Debug, PartialEq, Eq)]
pub enum ExtractError {
    PdfParse(String),
}

impl ExtractError {
    /// A sentence that describes the failure.
    pub fn message(&self) -> (r: String)
        ensures
            match self {
                ExtractError::PdfParse(detail) => r@ == "failed to parse pdf: "@ + detail@,
            },
    {
        match self {
            ExtractError::PdfParse(detail) => {
                let mut m = String::from_str("failed to parse pdf: ");
                m.append(detail.as_str());
                m
            },
        }
    }
}

/// The page index and content of each extracted image.
pub open spec fn images_view(images: Seq<ExtractedImage>) -> Seq<(usize, ImageSpec)> {
    images.map_values(|e: ExtractedImage| (e.page_index, e.image@))
}

/// How one raster event changes the recorded images and warnings: its bitmap is
/// appended to the images, or its failure kind to the warnings, never both.
pub open spec fn record_outcome(
    images: Seq<(usize, ImageSpec)>,
    warnings: Seq<ExtractImageWarning>,
    page_index: usize,
    outcome: Result<ImageSpec, ExtractImageWarningKind>,
) -> (Seq<(usize, ImageSpec)>, Seq<ExtractImageWarning>) {
    match outcome {
        Ok(img) => (images.push((page_index, img)), warnings),
        Err(kind) => (images, warnings.push(ExtractImageWarning { page_index, kind })),
    }
}

/// An alpha buffer that holds fewer bytes than its own declared dimensions need,
/// beside an RGB buffer of other dimensions, is recorded as an alpha-shape
/// warning on the current page and adds no image; what was recorded before stays.
pub proof fn malformed_alpha_becomes_warning(
    images: Seq<(usize, ImageSpec)>,
    warnings: Seq<ExtractImageWarning>,
    page_index: usize,
    rgb: &ChannelBuffer,
    alpha: &ChannelBuffer,
)
    requires
        rgb_shape_ok(rgb.width, rgb.height, rgb.data@.len() as int),
        alpha.width != rgb.width || alpha.height != rgb.height,
        alpha.width * alpha.height > alpha.data@.len(),
    ensures
        record_outcome(images, warnings, page_index, composite_outcome(rgb, Some(alpha))) == (
            images,
            warnings.push(
                ExtractImageWarning {
                    page_index,
                    kind: ExtractImageWarningKind::InvalidAlphaBufferShape,
                },
            ),
        ),
{
}

/// Collects the bitmaps and warnings of the rasters that a renderer reports
/// while it interprets the selected pages one after another.
pub struct ImageExtractor {
    images: Vec<ExtractedImage>,
    warnings: Vec<ExtractImageWarning>,
    current_page_index: usize,
}

impl ImageExtractor {
    pub closed spec fn spec_images(&self) -> Seq<(usize, ImageSpec)> {
        images_view(self.images@)
    }

    pub closed spec fn spec_warnings(&self) -> Seq<ExtractImageWarning> {
        self.warnings@
    }

    pub closed spec fn spec_page_index(&self) -> usize {
        self.current_page_index
    }

    /// An extractor with nothing recorded, on the first page.
    pub fn new() -> (r: Self)
        ensures
            r.spec_images() == Seq::<(usize, ImageSpec)>::empty(),
            r.spec_warnings() == Seq::<ExtractImageWarning>::empty(),
            r.spec_page_index() == 0,
    {
        let r = ImageExtractor { images: Vec::new(), warnings: Vec::new(), current_page_index: 0 };
        assert(r.spec_images() =~= Seq::<(usize, ImageSpec)>::empty());
        r
    }

    /// The page that the rasters reported from now on belong to.
    pub fn set_current_page_index(&mut self, page_index: usize)
        ensures
            final(self).spec_page_index() == page_index,
            final(self).spec_images() == old(self).spec_images(),
            final(self).spec_warnings() == old(self).spec_warnings(),
    {
        self.current_page_index = page_index;
    }

    /// The page that the rasters reported now belong to.
    pub fn current_page_index(&self) -> (r: usize)
        ensures
            r == self.spec_page_index(),
    {
        self.current_page_index
    }

    /// Records one raster found on the current page: its bitmap when it can be
    /// composited, else a warning with the reason. Either way later rasters are
    /// recorded as usual.
    pub fn draw_raster(&mut self, rgb: &ChannelBuffer, alpha: Option<&ChannelBuffer>)
        ensures
            (final(self).spec_images(), final(self).spec_warnings()) == record_outcome(
                old(self).spec_images(),
                old(self).spec_warnings(),
                old(self).spec_page_index(),
                composite_outcome(rgb, alpha),
            ),
            final(self).spec_page_index() == old(self).spec_page_index(),
    {
        let page_index = self.current_page_index;
        match composite_raster(rgb, alpha) {
            Ok(image) => {
                let ghost before = self.images@;
                self.images.push(ExtractedImage { page_index, image });
                proof {
                    assert(images_view(self.images@) =~= images_view(before).push(
                        (page_index, self.images@.last().image@),
                    ));
                }
            },
            Err(kind) => {
                self.warnings.push(ExtractImageWarning { page_index, kind });
            },
        }
    }

    /// Ends the pass, handing over what was recorded.
    pub fn into_result(self) -> (r: ExtractImagesResult)
        ensures
            images_view(r.images@) == self.spec_images(),
            r.errors@ == self.spec_warnings(),
    {
        ExtractImagesResult { images: self.images, errors: self.warnings }
    }
}

} // verus!
