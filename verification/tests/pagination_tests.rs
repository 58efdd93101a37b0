use badge_admin_core::pagination::{
    create_pagination_info, normalize_page, normalize_page_size, page_skip, DEFAULT_PAGE_SIZE,
    MAX_PAGE_SIZE,
};

#[test]
fn order_processing_test_create_pagination_info_basic() {
    let pagination = create_pagination_info(2, 10, 50);

    assert_eq!(pagination.current_page, 2);
    assert_eq!(pagination.total_pages, 5);
    assert_eq!(pagination.total_items, 50);
    assert!(pagination.has_prev);
    assert!(pagination.has_next);
    assert_eq!(pagination.start_item, 11);
    assert_eq!(pagination.end_item, 20);
}

#[test]
fn test_create_pagination_info_first_page() {
    let pagination = create_pagination_info(1, 10, 50);

    assert_eq!(pagination.current_page, 1);
    assert!(!pagination.has_prev);
    assert!(pagination.has_next);
    assert_eq!(pagination.start_item, 1);
    assert_eq!(pagination.end_item, 10);
}

#[test]
fn order_processing_test_create_pagination_info_last_page() {
    let pagination = create_pagination_info(5, 10, 50);

    assert_eq!(pagination.current_page, 5);
    assert!(pagination.has_prev);
    assert!(!pagination.has_next);
    assert_eq!(pagination.start_item, 41);
    assert_eq!(pagination.end_item, 50);
}

#[test]
fn test_create_pagination_info_partial_last_page() {
    let pagination = create_pagination_info(3, 10, 25);

    assert_eq!(pagination.current_page, 3);
    assert_eq!(pagination.total_pages, 3);
    assert!(pagination.has_prev);
    assert!(!pagination.has_next);
    assert_eq!(pagination.start_item, 21);
    assert_eq!(pagination.end_item, 25);
}

#[test]
fn order_processing_test_create_pagination_info_empty() {
    let pagination = create_pagination_info(1, 10, 0);

    assert_eq!(pagination.current_page, 1);
    assert_eq!(pagination.total_pages, 1);
    assert!(!pagination.has_prev);
    assert!(!pagination.has_next);
    assert_eq!(pagination.start_item, 0);
    assert_eq!(pagination.end_item, 0);
}

#[test]
fn test_create_pagination_info_single_page() {
    let pagination = create_pagination_info(1, 10, 5);

    assert_eq!(pagination.current_page, 1);
    assert_eq!(pagination.total_pages, 1);
    assert!(!pagination.has_prev);
    assert!(!pagination.has_next);
    assert_eq!(pagination.start_item, 1);
    assert_eq!(pagination.end_item, 5);
}

#[test]
fn test_create_pagination_info_edge_cases() {
    // Large page size
    let pagination = create_pagination_info(1, 100, 50);
    assert_eq!(pagination.total_pages, 1);
    assert_eq!(pagination.start_item, 1);
    assert_eq!(pagination.end_item, 50);

    // Exact division
    let pagination = create_pagination_info(2, 5, 10);
    assert_eq!(pagination.total_pages, 2);
    assert_eq!(pagination.current_page, 2);
    assert!(pagination.has_prev);
    assert!(!pagination.has_next);
}

#[test]
fn test_default_constants() {
    assert_eq!(DEFAULT_PAGE_SIZE, 10);
    assert_eq!(MAX_PAGE_SIZE, 100);
}

#[test]
fn quote_processing_test_create_pagination_info_basic() {
    let pagination = create_pagination_info(2, 10, 25);

    assert_eq!(pagination.current_page, 2);
    assert_eq!(pagination.total_pages, 3);
    assert!(pagination.has_prev);
    assert!(pagination.has_next);
    assert_eq!(pagination.start_item, 11);
    assert_eq!(pagination.end_item, 20);
    assert_eq!(pagination.total_items, 25);
}

#[test]
fn quote_processing_test_create_pagination_info_empty() {
    let pagination = create_pagination_info(1, 10, 0);

    assert_eq!(pagination.current_page, 1);
    assert_eq!(pagination.total_pages, 1);
    assert!(!pagination.has_prev);
    assert!(!pagination.has_next);
    assert_eq!(pagination.start_item, 0);
    assert_eq!(pagination.end_item, 0);
    assert_eq!(pagination.total_items, 0);
}

#[test]
fn quote_processing_test_create_pagination_info_last_page() {
    let pagination = create_pagination_info(3, 10, 25);

    assert_eq!(pagination.current_page, 3);
    assert_eq!(pagination.total_pages, 3);
    assert!(pagination.has_prev);
    assert!(!pagination.has_next);
    assert_eq!(pagination.start_item, 21);
    assert_eq!(pagination.end_item, 25);
    assert_eq!(pagination.total_items, 25);
}

#[test]
fn test_normalize_page_and_size_defaults() {
    assert_eq!(normalize_page(None), 1);
    assert_eq!(normalize_page(Some(0)), 1);
    assert_eq!(normalize_page(Some(7)), 7);
    assert_eq!(normalize_page_size(None), 10);
    assert_eq!(normalize_page_size(Some(250)), 100);
    assert_eq!(normalize_page_size(Some(25)), 25);
}

#[test]
fn test_page_skip() {
    assert_eq!(page_skip(1, 10), 0);
    assert_eq!(page_skip(3, 10), 20);
}
