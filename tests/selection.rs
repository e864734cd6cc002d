use pdf_img_extract::{normalize_page_range, select_pages, PageRange};

#[test]
fn normalize_keeps_valid_range() {
    assert_eq!(
        normalize_page_range(&PageRange { start: 1, end: 3 }, 10),
        Some((1, 3))
    );
}

#[test]
fn normalize_clamps_end() {
    assert_eq!(
        normalize_page_range(&PageRange { start: 2, end: 20 }, 10),
        Some((2, 9))
    );
}

#[test]
fn normalize_invalid_range_returns_none() {
    assert_eq!(
        normalize_page_range(&PageRange { start: 3, end: 2 }, 10),
        None
    );
}

#[test]
fn normalize_out_of_bounds_start_returns_none() {
    assert_eq!(
        normalize_page_range(&PageRange { start: 10, end: 12 }, 10),
        None
    );
}

#[test]
fn normalize_empty_document_returns_none() {
    assert_eq!(
        normalize_page_range(&PageRange { start: 0, end: 0 }, 0),
        None
    );
}

#[test]
fn select_pages_empty_range_uses_all_pages() {
    assert_eq!(select_pages(5, &[]), vec![true, true, true, true, true]);
}

#[test]
fn select_pages_ignores_invalid_ranges() {
    assert_eq!(
        select_pages(
            5,
            &[
                PageRange { start: 10, end: 12 },
                PageRange { start: 3, end: 1 }
            ]
        ),
        vec![false, false, false, false, false]
    );
}

#[test]
fn select_pages_deduplicates_overlapping_ranges() {
    assert_eq!(
        select_pages(
            6,
            &[
                PageRange { start: 1, end: 3 },
                PageRange { start: 2, end: 5 }
            ]
        ),
        vec![false, true, true, true, true, true]
    );
}

#[test]
fn select_pages_empty_document_is_empty() {
    assert!(select_pages(0, &[]).is_empty());
    assert!(select_pages(0, &[PageRange { start: 0, end: 3 }]).is_empty());
}

#[test]
fn select_pages_out_of_bounds_start_selects_nothing() {
    assert_eq!(
        select_pages(10, &[PageRange { start: 10, end: 12 }]),
        vec![false; 10]
    );
}

#[test]
fn select_pages_clamps_end() {
    let mut expected = vec![true; 10];
    expected[0] = false;
    expected[1] = false;
    assert_eq!(select_pages(10, &[PageRange { start: 2, end: 20 }]), expected);
}

#[test]
fn select_pages_single_page_and_last_page() {
    assert_eq!(
        select_pages(
            4,
            &[
                PageRange { start: 3, end: usize::MAX },
                PageRange { start: 0, end: 0 }
            ]
        ),
        vec![true, false, false, true]
    );
}
