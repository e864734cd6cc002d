use pdf_img_extract::{parse_non_negative_page, parse_page_range, parse_page_ranges_text, PageRange};

#[test]
fn parses_single_page() {
    assert_eq!(
        parse_page_ranges_text("1").unwrap(),
        vec![PageRange { start: 0, end: 0 }]
    );
}

#[test]
fn parses_mixed_ranges() {
    assert_eq!(
        parse_page_ranges_text("1, 3-5").unwrap(),
        vec![
            PageRange { start: 0, end: 0 },
            PageRange { start: 2, end: 4 }
        ]
    );
}

#[test]
fn normalizes_descending_range() {
    assert_eq!(
        parse_page_ranges_text("5-3").unwrap(),
        vec![PageRange { start: 2, end: 4 }]
    );
}

#[test]
fn clamps_zero_to_first_page() {
    assert_eq!(
        parse_page_ranges_text("0").unwrap(),
        vec![PageRange { start: 0, end: 0 }]
    );
}

#[test]
fn rejects_invalid_token() {
    assert!(parse_page_ranges_text("x-2").is_err());
}

#[test]
fn rejects_empty_token() {
    assert!(parse_page_ranges_text("1,,2").is_err());
}

#[test]
fn empty_token_message() {
    let err = parse_page_ranges_text("1,,2").unwrap_err();
    assert_eq!(err.message(), "range token cannot be empty");
    assert!(parse_page_ranges_text("").is_err());
    assert!(parse_page_ranges_text("3,").is_err());
}

#[test]
fn rejects_two_dashes() {
    let err = parse_page_ranges_text("1-2-3").unwrap_err();
    assert_eq!(err.message(), "invalid range text: 1-2-3");
}

#[test]
fn rejects_bad_page_number() {
    let err = parse_page_ranges_text("2, 4-z").unwrap_err();
    assert_eq!(err.message(), "invalid page number: z");
    assert!(parse_page_ranges_text("-3").is_err());
    assert!(parse_page_ranges_text("+").is_err());
    assert!(parse_page_ranges_text("1 2").is_err());
}

#[test]
fn accepts_plus_sign_and_spaces_around_bounds() {
    assert_eq!(
        parse_page_ranges_text(" +2 - 4 ,\t7").unwrap(),
        vec![
            PageRange { start: 1, end: 3 },
            PageRange { start: 6, end: 6 }
        ]
    );
}

#[test]
fn page_number_limits() {
    assert_eq!(parse_non_negative_page("1").unwrap(), 0);
    assert_eq!(parse_non_negative_page("0").unwrap(), 0);
    assert_eq!(parse_non_negative_page("0042").unwrap(), 41);
    let max = usize::MAX.to_string();
    assert_eq!(parse_non_negative_page(&max).unwrap(), usize::MAX - 1);
    let over = format!("{}0", usize::MAX);
    assert!(parse_non_negative_page(&over).is_err());
    assert!(parse_non_negative_page("").is_err());
    assert!(parse_non_negative_page(" 1").is_err());
}

#[test]
fn single_range_token() {
    assert_eq!(parse_page_range("3").unwrap(), PageRange { start: 2, end: 2 });
    assert_eq!(parse_page_range("9-0").unwrap(), PageRange { start: 0, end: 8 });
    assert!(parse_page_range("4-").is_err());
}
