//! Page selection and raster compositing for extracting embedded images
//! from paginated documents.
//!
//! Pages are chosen from caller ranges (`selection`, `page_ranges`); each
//! raster that a renderer reports is validated (`shape`), composited with its
//! optional alpha plane (`raster`) and recorded per page (`extractor`).

pub mod extractor;
pub mod file_names;
pub mod page_ranges;
pub mod raster;
pub mod selection;
pub mod shape;
pub mod text;

pub use extractor::{
    ExtractError, ExtractImageWarning, ExtractImagesResult, ExtractedImage, ImageExtractor,
};
pub use file_names::{
    build_extracted_image_file_name, default_output_dir, image_indexes_within_pages,
    output_dir_for_stem,
};
pub use page_ranges::{
    parse_non_negative_page, parse_page_range, parse_page_ranges_text, ParsePageRangesError,
};
pub use raster::{composite_raster, grey_to_rgb, ChannelBuffer, CompositedImage, PixelLayout};
pub use selection::{normalize_page_range, select_pages, PageRange};
pub use shape::{
    expected_pixel_count, validate_alpha_shape, validate_rgb_shape, warning_kind_code,
    ExtractImageWarningKind,
};
