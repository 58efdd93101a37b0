use badge_admin_core::models::{CustomBadgeQuote, UpdateQuoteStatusForm, UserState};
use badge_admin_core::quotes::{
    badge_content_type, badge_filename_valid, badge_image_precheck, normalize_status_filter,
    quote_to_display, quote_update_precheck, quote_update_response, quotes_listing,
    BadgeImageCheck,
};
use badge_admin_core::store::UpdateAttempt;

fn quote() -> CustomBadgeQuote {
    CustomBadgeQuote {
        id: "0123456789abcdef01234567".to_string(),
        num_colors: "3".to_string(),
        double_sided: false,
        print_size: "100mm".to_string(),
        thickness: "10mm".to_string(),
        email: "test@example.com".to_string(),
        image_path: Some("test.jpg".to_string()),
        estimated_price_pence: 2550,
        created_at: "2025-01-01T12:00:00Z".to_string(),
        updated_at: "2025-01-01T12:00:00Z".to_string(),
        status: "pending".to_string(),
    }
}

#[test]
fn quote_processing_test_convert_to_display_basic_conversion() {
    let quote = quote();
    let display = quote_to_display(quote.clone());

    assert_eq!(display.num_colors, "3");
    assert_eq!(display.double_sided, "no");
    assert_eq!(display.print_size, "100mm");
    assert_eq!(display.thickness, "10mm");
    assert_eq!(display.email, "test@example.com");
    assert_eq!(display.estimated_price_pence, 2550);
    assert_eq!(display.formatted_price, "£25.50");
    assert_eq!(display.status, "pending");
    assert_eq!(display.status_class, "status-pending");
    assert_eq!(display.sided_text, "Single-sided");
    assert_eq!(display.id, quote.id);
}

#[test]
fn test_convert_to_display_double_sided() {
    let mut quote = quote();
    quote.num_colors = "5".to_string();
    quote.double_sided = true;
    quote.print_size = "125mm".to_string();
    quote.thickness = "15mm".to_string();
    quote.email = "customer@test.com".to_string();
    quote.image_path = None;
    quote.estimated_price_pence = 4275;
    quote.created_at = "2025-01-05T15:30:00Z".to_string();
    quote.status = "quoted".to_string();

    let display = quote_to_display(quote);

    assert_eq!(display.sided_text, "Double-sided");
    assert_eq!(display.status_class, "status-quoted");
    assert_eq!(display.formatted_price, "£42.75");
}

#[test]
fn test_convert_to_display_all_statuses() {
    let statuses = vec![
        ("pending", "status-pending"),
        ("quoted", "status-quoted"),
        ("accepted", "status-accepted"),
        ("completed", "status-completed"),
        ("cancelled", "status-cancelled"),
        ("unknown", "status-unknown"),
    ];

    for (status, expected_class) in statuses {
        let mut quote = quote();
        quote.num_colors = "2".to_string();
        quote.print_size = "80mm".to_string();
        quote.thickness = "5mm".to_string();
        quote.image_path = None;
        quote.estimated_price_pence = 1500;
        quote.status = status.to_string();

        let display = quote_to_display(quote);
        assert_eq!(display.status_class, expected_class);
    }
}

fn admin() -> UserState {
    UserState::new(true, "admin".to_string(), true)
}

#[test]
fn test_quotes_listing_success() {
    let page = quotes_listing(
        Ok(1),
        Ok(vec![quote()]),
        "all".to_string(),
        1,
        10,
        admin(),
    );
    assert_eq!(page.quotes.len(), 1);
    assert_eq!(page.quotes[0].formatted_price, "£25.50");
    assert_eq!(page.pagination.total_items, 1);
    assert_eq!(page.status_filter, "all");
    assert_eq!(page.error_message, "");
}

#[test]
fn test_quotes_listing_faults() {
    let page = quotes_listing(
        Err("down".to_string()),
        Ok(vec![]),
        "all".to_string(),
        1,
        10,
        admin(),
    );
    assert_eq!(page.quotes.len(), 0);
    assert_eq!(page.error_message, "Database error counting quotes: down");
    assert_eq!(page.pagination.current_page, 1);
    assert_eq!(page.pagination.total_pages, 1);
    assert!(!page.pagination.has_prev);
    assert!(!page.pagination.has_next);
    assert_eq!(page.pagination.start_item, 0);
    assert_eq!(page.pagination.end_item, 0);
    assert_eq!(page.pagination.total_items, 0);

    let page = quotes_listing(
        Ok(5),
        Err("down".to_string()),
        "pending".to_string(),
        1,
        10,
        admin(),
    );
    assert_eq!(page.quotes.len(), 0);
    assert_eq!(page.error_message, "Database error fetching quotes: down");
    assert_eq!(page.pagination.total_pages, 1);
    assert!(!page.pagination.has_prev);
    assert!(!page.pagination.has_next);
    assert_eq!(page.pagination.start_item, 0);
    assert_eq!(page.pagination.end_item, 0);
}

#[test]
fn test_normalize_status_filter() {
    assert_eq!(normalize_status_filter(None), "all");
    assert_eq!(normalize_status_filter(Some("quoted".to_string())), "quoted");
}

fn update_form() -> UpdateQuoteStatusForm {
    UpdateQuoteStatusForm {
        quote_id: "0123456789abcdef01234567".to_string(),
        status: "accepted".to_string(),
    }
}

#[test]
fn test_quote_update_precheck_rejections() {
    let denied = quote_update_precheck(false, &update_form()).unwrap();
    assert_eq!(denied.message, "Access denied");

    let mut bad_status = update_form();
    bad_status.status = "paid".to_string();
    let rejected = quote_update_precheck(true, &bad_status).unwrap();
    assert_eq!(rejected.message, "Invalid status");

    let mut bad_id = update_form();
    bad_id.quote_id = "xyz".to_string();
    let rejected = quote_update_precheck(true, &bad_id).unwrap();
    assert_eq!(rejected.message, "Invalid quote ID");

    assert!(quote_update_precheck(true, &update_form()).is_none());
}

#[test]
fn test_quote_update_outcomes() {
    let form = update_form();

    let resp = quote_update_response(&form, UpdateAttempt::Matched);
    assert!(resp.success);
    assert_eq!(resp.message, "Quote status updated to accepted");
    assert_eq!(resp.quote_id.as_deref(), Some("0123456789abcdef01234567"));

    let resp = quote_update_response(&form, UpdateAttempt::NotMatched);
    assert!(!resp.success);
    assert_eq!(resp.message, "Quote not found");

    let resp = quote_update_response(&form, UpdateAttempt::Fault("io".to_string()));
    assert!(!resp.success);
    assert_eq!(resp.message, "Database error: io");
}

#[test]
fn test_badge_filename_validation() {
    assert!(badge_filename_valid("badge_photo.jpg"));
    assert!(!badge_filename_valid("photo.jpg"));
    assert!(!badge_filename_valid("badge_../secret"));
    assert!(!badge_filename_valid("badge_dir/photo.jpg"));

    assert!(matches!(badge_image_precheck(false, "badge_photo.jpg"), BadgeImageCheck::Forbidden));
    assert!(matches!(badge_image_precheck(true, "photo.jpg"), BadgeImageCheck::BadRequest));
    assert!(matches!(badge_image_precheck(true, "badge_photo.jpg"), BadgeImageCheck::Allowed));
}

#[test]
fn test_badge_content_type() {
    assert_eq!(badge_content_type("badge_photo.jpg"), "image/jpeg");
    assert_eq!(badge_content_type("badge_photo.JPEG"), "image/jpeg");
    assert_eq!(badge_content_type("badge_photo.PNG"), "image/png");
    assert_eq!(badge_content_type("badge_photo.gif"), "image/gif");
    assert_eq!(badge_content_type("badge_photo.webp"), "application/octet-stream");
    assert_eq!(badge_content_type("badge_photo"), "application/octet-stream");
}
