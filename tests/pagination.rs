use food_trace::pagination::{compute_page, window_fits_of, PaginationParams, DEFAULT_PAGE_SIZE};

fn params(page: Option<i64>, page_size: Option<i64>) -> PaginationParams {
    PaginationParams { page, page_size }
}

#[test]
fn empty_store_has_no_pages_and_no_fetch() {
    for (page, size) in [(None, None), (Some(3), Some(7)), (Some(-2), Some(0)), (Some(100), Some(1))] {
        let w = compute_page(0, &params(page, size));
        assert_eq!(w.total_pages, 0);
        assert!(!w.fetch_rows);
    }
}

#[test]
fn first_page_of_twenty_five() {
    let w = compute_page(25, &params(Some(1), Some(10)));
    assert_eq!(w.offset, 0);
    assert_eq!(w.total_pages, 3);
    assert_eq!(w.page, 1);
    assert_eq!(w.page_size, 10);
    assert!(w.fetch_rows);
}

#[test]
fn third_page_of_twenty_five() {
    let w = compute_page(25, &params(Some(3), Some(10)));
    assert_eq!(w.offset, 20);
    assert_eq!(w.total_pages, 3);
}

#[test]
fn page_past_the_last_is_no_error() {
    let w = compute_page(25, &params(Some(4), Some(10)));
    assert_eq!(w.offset, 30);
    assert_eq!(w.total_pages, 3);
    assert!(w.fetch_rows);
}

#[test]
fn missing_or_low_values_take_defaults() {
    let w = compute_page(5, &params(None, None));
    assert_eq!(w.page, 1);
    assert_eq!(w.page_size, DEFAULT_PAGE_SIZE);
    assert_eq!(w.offset, 0);
    assert_eq!(w.total_pages, 1);
    let w = compute_page(5, &params(Some(0), Some(-4)));
    assert_eq!(w.page, 1);
    assert_eq!(w.page_size, 10);
    let w = compute_page(5, &params(Some(-7), Some(0)));
    assert_eq!(w.page, 1);
    assert_eq!(w.page_size, 10);
}

#[test]
fn page_count_rounds_up_exactly() {
    assert_eq!(compute_page(30, &params(Some(1), Some(10))).total_pages, 3);
    assert_eq!(compute_page(31, &params(Some(1), Some(10))).total_pages, 4);
    assert_eq!(compute_page(1, &params(Some(1), Some(10))).total_pages, 1);
    assert_eq!(compute_page(7, &params(Some(2), Some(1))).total_pages, 7);
    assert_eq!(compute_page(i64::MAX, &params(Some(1), Some(2))).total_pages, i64::MAX / 2 + 1);
    assert_eq!(compute_page(i64::MAX, &params(Some(1), Some(1))).total_pages, i64::MAX);
}

#[test]
fn offsets_that_overflow_are_detected() {
    assert!(window_fits_of(&params(Some(3), Some(10))));
    assert!(window_fits_of(&params(Some(i64::MAX), Some(1))));
    assert!(!window_fits_of(&params(Some(i64::MAX), Some(2))));
    assert!(window_fits_of(&params(Some(2), Some(i64::MAX))));
    assert!(!window_fits_of(&params(Some(3), Some(i64::MAX))));
    let w = compute_page(10, &params(Some(i64::MAX), Some(1)));
    assert_eq!(w.offset, i64::MAX - 1);
}
