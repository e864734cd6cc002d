use pdf_img_extract::{
    build_extracted_image_file_name, default_output_dir, image_indexes_within_pages,
    output_dir_for_stem,
};

#[test]
fn builds_file_name_with_one_based_indexes() {
    assert_eq!(build_extracted_image_file_name(0, 0), "page-1-image-1.png");
    assert_eq!(build_extracted_image_file_name(2, 4), "page-3-image-5.png");
}

#[test]
fn builds_file_name_with_multi_digit_indexes() {
    assert_eq!(build_extracted_image_file_name(9, 99), "page-10-image-100.png");
    assert_eq!(
        build_extracted_image_file_name(usize::MAX - 1, 1234),
        format!("page-{}-image-1235.png", usize::MAX)
    );
}

#[test]
fn default_output_uses_input_stem() {
    assert_eq!(default_output_dir("sample.pdf"), "sample-images");
}

#[test]
fn default_output_uses_stem_of_last_component() {
    assert_eq!(default_output_dir("docs/report.v2.pdf"), "report.v2-images");
}

#[test]
fn default_output_without_stem_uses_images() {
    assert_eq!(default_output_dir(""), "images-images");
    assert_eq!(default_output_dir("/"), "images-images");
}

#[test]
fn output_dir_trims_stem() {
    assert_eq!(output_dir_for_stem(Some("  scan \t")), "scan-images");
    assert_eq!(output_dir_for_stem(Some(" \u{3000} ")), "images-images");
    assert_eq!(output_dir_for_stem(None), "images-images");
}

#[test]
fn numbers_images_within_each_page() {
    assert_eq!(image_indexes_within_pages(&[0, 0, 2, 2, 2, 5]), vec![0, 1, 0, 1, 2, 0]);
    assert_eq!(image_indexes_within_pages(&[1, 3, 1]), vec![0, 0, 1]);
    assert!(image_indexes_within_pages(&[]).is_empty());
}
