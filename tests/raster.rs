use pdf_img_extract::{
    composite_raster, expected_pixel_count, validate_alpha_shape, validate_rgb_shape,
    warning_kind_code, ChannelBuffer, ExtractImageWarning, ExtractImageWarningKind,
    ImageExtractor, PixelLayout,
};

fn buffer(width: u32, height: u32, data: Vec<u8>) -> ChannelBuffer {
    ChannelBuffer { width, height, data }
}

#[test]
fn validate_rgb_shape_rejects_invalid_len() {
    assert_eq!(
        validate_rgb_shape(2, 1, 5),
        Err(ExtractImageWarningKind::InvalidRgbBufferShape)
    );
}

#[test]
fn validate_alpha_shape_rejects_invalid_len() {
    assert_eq!(
        validate_alpha_shape(2, 1),
        Err(ExtractImageWarningKind::InvalidAlphaBufferShape)
    );
}

#[test]
fn validate_shapes_accept_exact_len() {
    assert_eq!(validate_rgb_shape(2, 3, 18), Ok(6));
    assert_eq!(validate_rgb_shape(0, 7, 0), Ok(0));
    assert_eq!(validate_alpha_shape(6, 6), Ok(()));
    assert_eq!(
        validate_rgb_shape(u32::MAX, u32::MAX, 0),
        Err(ExtractImageWarningKind::InvalidRgbBufferShape)
    );
}

#[test]
fn pixel_count_of_dimensions() {
    assert_eq!(expected_pixel_count(3, 4), Some(12));
    assert_eq!(expected_pixel_count(0, u32::MAX), Some(0));
}

#[test]
fn warning_kind_code_is_stable() {
    assert_eq!(
        warning_kind_code(&ExtractImageWarningKind::InvalidRgbBufferShape),
        "invalid_rgb_buffer_shape"
    );
}

#[test]
fn warning_kind_codes_and_messages() {
    assert_eq!(
        warning_kind_code(&ExtractImageWarningKind::InvalidAlphaBufferShape),
        "invalid_alpha_buffer_shape"
    );
    assert_eq!(
        warning_kind_code(&ExtractImageWarningKind::InvalidRgbaBufferShape),
        "invalid_rgba_buffer_shape"
    );
    assert_eq!(
        ExtractImageWarningKind::InvalidRgbBufferShape.message(),
        "rgb image buffer shape is invalid"
    );
}

#[test]
fn composite_without_alpha_keeps_rgb_bytes() {
    let rgb = buffer(2, 1, vec![1, 2, 3, 4, 5, 6]);
    let img = composite_raster(&rgb, None).ok().unwrap();
    assert_eq!(img.layout, PixelLayout::Rgb8);
    assert_eq!((img.width, img.height), (2, 1));
    assert_eq!(img.data, vec![1, 2, 3, 4, 5, 6]);
}

#[test]
fn composite_with_matching_alpha_interleaves() {
    let rgb = buffer(2, 1, vec![1, 2, 3, 4, 5, 6]);
    let alpha = buffer(2, 1, vec![9, 8]);
    let img = composite_raster(&rgb, Some(&alpha)).ok().unwrap();
    assert_eq!(img.layout, PixelLayout::Rgba8);
    assert_eq!(img.data, vec![1, 2, 3, 9, 4, 5, 6, 8]);
}

#[test]
fn composite_resamples_alpha_of_other_dimensions() {
    let rgb = buffer(2, 2, vec![10; 12]);
    let alpha = buffer(1, 1, vec![200]);
    let img = composite_raster(&rgb, Some(&alpha)).ok().unwrap();
    assert_eq!(img.layout, PixelLayout::Rgba8);
    assert_eq!((img.width, img.height), (2, 2));
    assert_eq!(img.data.len(), 2 * 2 * 4);
    for pixel in img.data.chunks(4) {
        assert_eq!(&pixel[..3], &[10, 10, 10]);
    }
}

#[test]
fn composite_rejects_bad_rgb_even_with_alpha() {
    let rgb = buffer(2, 1, vec![1, 2, 3, 4, 5]);
    let alpha = buffer(2, 1, vec![9, 8]);
    assert_eq!(
        composite_raster(&rgb, Some(&alpha)).err(),
        Some(ExtractImageWarningKind::InvalidRgbBufferShape)
    );
    assert_eq!(
        composite_raster(&rgb, None).err(),
        Some(ExtractImageWarningKind::InvalidRgbBufferShape)
    );
}

#[test]
fn composite_rejects_malformed_alpha() {
    let rgb = buffer(2, 1, vec![1, 2, 3, 4, 5, 6]);
    let short = buffer(3, 3, vec![1, 2]);
    assert_eq!(
        composite_raster(&rgb, Some(&short)).err(),
        Some(ExtractImageWarningKind::InvalidAlphaBufferShape)
    );
    let wrong_len = buffer(2, 1, vec![1, 2, 3]);
    assert_eq!(
        composite_raster(&rgb, Some(&wrong_len)).err(),
        Some(ExtractImageWarningKind::InvalidAlphaBufferShape)
    );
}

#[test]
fn extractor_records_warning_and_keeps_going() {
    let mut extractor = ImageExtractor::new();
    extractor.set_current_page_index(3);
    let rgb = buffer(2, 1, vec![1, 2, 3, 4, 5, 6]);
    let malformed = buffer(4, 4, vec![0; 3]);
    let alpha = buffer(2, 1, vec![7, 7]);
    extractor.draw_raster(&rgb, Some(&malformed));
    extractor.draw_raster(&rgb, Some(&alpha));
    extractor.set_current_page_index(5);
    extractor.draw_raster(&rgb, None);
    assert_eq!(extractor.current_page_index(), 5);
    let result = extractor.into_result();
    assert_eq!(
        result.errors,
        vec![ExtractImageWarning {
            page_index: 3,
            kind: ExtractImageWarningKind::InvalidAlphaBufferShape
        }]
    );
    assert_eq!(result.images.len(), 2);
    assert_eq!(result.images[0].page_index, 3);
    assert_eq!(result.images[0].image.data, vec![1, 2, 3, 7, 4, 5, 6, 7]);
    assert_eq!(result.images[1].page_index, 5);
    assert_eq!(result.images[1].image.layout, PixelLayout::Rgb8);
}

#[test]
fn grey_widens_to_equal_channels() {
    let grey = buffer(3, 1, vec![0, 128, 255]);
    let rgb = pdf_img_extract::grey_to_rgb(&grey);
    assert_eq!((rgb.width, rgb.height), (3, 1));
    assert_eq!(rgb.data, vec![0, 0, 0, 128, 128, 128, 255, 255, 255]);
}
