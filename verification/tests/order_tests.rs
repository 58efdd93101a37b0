use badge_admin_core::models::{Order, OrderItem, ShippingAddress, UpdateOrderStatusForm, UserState};
use badge_admin_core::orders::{
    convert_to_display, order_update_precheck, order_update_response, select_orders_page,
    sort_orders_desc,
};
use badge_admin_core::store::UpdateAttempt;

fn create_test_order() -> Order {
    Order {
        id: "0123456789abcdef01234567".to_string(),
        order_reference: "ORD-12345".to_string(),
        customer_name: "John Doe".to_string(),
        customer_email: "john@example.com".to_string(),
        shipping_address: ShippingAddress {
            line1: "123 Main St".to_string(),
            line2: Some("Apt 4B".to_string()),
            city: "Springfield".to_string(),
            postcode: "12345".to_string(),
            country: "US".to_string(),
        },
        items: vec![OrderItem {
            product_id: "89abcdef0123456789abcdef".to_string(),
            product_name: "Test Product".to_string(),
            price_pence: 1999,
            quantity: 2,
            line_total_pence: 3998,
        }],
        subtotal_pence: 3998,
        shipping_cost_pence: 500,
        total_pence: 4498,
        currency: "GBP".to_string(),
        status: "paid".to_string(),
        created_at: "2025-01-01T12:00:00Z".to_string(),
        updated_at: "2025-01-01T12:00:00Z".to_string(),
    }
}

#[test]
fn order_processing_test_convert_to_display_basic_conversion() {
    let order = create_test_order();
    let display = convert_to_display(order.clone());

    assert_eq!(display.id, order.id);
    assert_eq!(display.customer_name, order.customer_name);
    assert_eq!(display.customer_email, order.customer_email);
    assert_eq!(display.total_pence, order.total_pence);
    assert_eq!(display.currency, order.currency);
    assert_eq!(display.status, order.status);
    assert_eq!(display.formatted_total, "£44.98");
}

#[test]
fn test_convert_to_display_shipping_address_with_line2() {
    let order = create_test_order();
    let display = convert_to_display(order);

    assert_eq!(display.shipping_address.line1, "123 Main St");
    assert_eq!(display.shipping_address.line2, "Apt 4B");
    assert_eq!(display.shipping_address.city, "Springfield");
    assert_eq!(display.shipping_address.postcode, "12345");
    assert_eq!(display.shipping_address.country, "US");
}

#[test]
fn test_convert_to_display_shipping_address_without_line2() {
    let mut order = create_test_order();
    order.shipping_address.line2 = None;

    let display = convert_to_display(order);

    assert_eq!(display.shipping_address.line2, "");
}

#[test]
fn test_convert_to_display_status_classes() {
    let test_cases = vec![
        ("paid", "status-paid"),
        ("processing", "status-processing"),
        ("shipped", "status-shipped"),
        ("completed", "status-completed"),
        ("cancelled", "status-cancelled"),
        ("unknown_status", "status-unknown"),
    ];

    for (status, expected_class) in test_cases {
        let mut order = create_test_order();
        order.status = status.to_string();

        let display = convert_to_display(order);

        assert_eq!(display.status_class, expected_class, "Failed for status: {}", status);
    }
}

#[test]
fn test_convert_to_display_date_formatting() {
    let order = create_test_order();
    let display = convert_to_display(order);

    assert_eq!(display.formatted_created_at, "2025-01-01 12:00");
}

#[test]
fn test_convert_to_display_invalid_date() {
    let mut order = create_test_order();
    order.created_at = "invalid-date".to_string();

    let display = convert_to_display(order);

    assert_eq!(display.formatted_created_at, "invalid-date");
}

#[test]
fn test_sort_orders_newest_first() {
    let mut older = create_test_order();
    older.order_reference = "ORD-OLD".to_string();
    older.created_at = "2025-01-01T12:00:00Z".to_string();
    let mut newer = create_test_order();
    newer.order_reference = "ORD-NEW".to_string();
    newer.created_at = "2025-02-01T12:00:00Z".to_string();

    let sorted = sort_orders_desc(vec![older, newer]);
    assert_eq!(sorted[0].order_reference, "ORD-NEW");
    assert_eq!(sorted[1].order_reference, "ORD-OLD");
}

fn anonymous_admin() -> UserState {
    UserState::new(true, "admin".to_string(), true)
}

#[test]
fn test_dual_collection_merge_default_filters() {
    let mut active = create_test_order();
    active.order_reference = "ORD-ACTIVE".to_string();
    active.status = "pending".to_string();
    active.created_at = "2025-01-02T12:00:00Z".to_string();
    let mut completed = create_test_order();
    completed.order_reference = "ORD-COMPLETED".to_string();
    completed.status = "paid".to_string();
    completed.created_at = "2025-01-03T12:00:00Z".to_string();

    let page = select_orders_page(
        Ok(vec![active]),
        Ok(vec![completed]),
        false,
        1,
        10,
        anonymous_admin(),
    );

    assert_eq!(page.orders.len(), 2);
    assert_eq!(page.orders[0].order_reference, "ORD-COMPLETED");
    assert_eq!(page.orders[1].order_reference, "ORD-ACTIVE");
    assert_eq!(page.pagination.total_items, 2);
    assert_eq!(page.error_message, "");
}

#[test]
fn test_dual_collection_merge_show_completed_unfiltered() {
    let mut active = create_test_order();
    active.order_reference = "ORD-ACTIVE".to_string();
    active.status = "pending".to_string();
    active.created_at = "2025-01-02T12:00:00Z".to_string();
    let mut completed = create_test_order();
    completed.order_reference = "ORD-COMPLETED".to_string();
    completed.status = "paid".to_string();
    completed.created_at = "2025-01-03T12:00:00Z".to_string();

    let page = select_orders_page(
        Ok(vec![active]),
        Ok(vec![completed]),
        true,
        1,
        10,
        anonymous_admin(),
    );

    assert_eq!(page.orders.len(), 2);
    // Sorted by creation time, newest first.
    assert_eq!(page.orders[0].order_reference, "ORD-COMPLETED");
    assert_eq!(page.orders[1].order_reference, "ORD-ACTIVE");
}

#[test]
fn test_merge_hides_history_without_show_completed() {
    let mut active = create_test_order();
    active.status = "pending".to_string();
    let mut done = create_test_order();
    done.status = "completed".to_string();

    // A "completed" status row in the completed collection is history and
    // hidden unless requested.
    let page = select_orders_page(
        Ok(vec![active]),
        Ok(vec![done]),
        false,
        1,
        10,
        anonymous_admin(),
    );
    assert_eq!(page.orders.len(), 1);
    assert_eq!(page.orders[0].status, "pending");
}

#[test]
fn test_active_fault_aborts_listing() {
    let page = select_orders_page(
        Err("boom".to_string()),
        Ok(vec![create_test_order()]),
        false,
        1,
        10,
        anonymous_admin(),
    );
    assert_eq!(page.orders.len(), 0);
    assert_eq!(page.error_message, "Database error fetching orders: boom");
    assert_eq!(page.pagination.total_items, 0);
}

#[test]
fn test_completed_fault_is_swallowed() {
    let mut active = create_test_order();
    active.status = "pending".to_string();
    let page = select_orders_page(
        Ok(vec![active]),
        Err("missing collection".to_string()),
        false,
        1,
        10,
        anonymous_admin(),
    );
    assert_eq!(page.orders.len(), 1);
    assert_eq!(page.error_message, "");
}

fn update_form() -> UpdateOrderStatusForm {
    UpdateOrderStatusForm {
        order_id: "0123456789abcdef01234567".to_string(),
        status: "shipped".to_string(),
    }
}

#[test]
fn test_order_update_precheck_rejections() {
    let denied = order_update_precheck(false, &update_form()).unwrap();
    assert!(!denied.success);
    assert_eq!(denied.message, "Access denied");

    let mut bad_status = update_form();
    bad_status.status = "teleported".to_string();
    let rejected = order_update_precheck(true, &bad_status).unwrap();
    assert!(!rejected.success);
    assert_eq!(rejected.message, "Invalid status");

    let mut bad_id = update_form();
    bad_id.order_id = "not-hex".to_string();
    let rejected = order_update_precheck(true, &bad_id).unwrap();
    assert!(!rejected.success);
    assert_eq!(rejected.message, "Invalid order ID");

    assert!(order_update_precheck(true, &update_form()).is_none());
}

#[test]
fn test_order_update_fallback_to_completed_collection() {
    // The ID matched nothing in the active collection, then matched in the
    // completed collection: the fallback path succeeds.
    let form = update_form();
    let resp = order_update_response(
        &form,
        UpdateAttempt::NotMatched,
        Some(UpdateAttempt::Matched),
    );
    assert!(resp.success);
    assert_eq!(resp.message, "Order status updated to shipped");
    assert_eq!(resp.order_id.as_deref(), Some("0123456789abcdef01234567"));
}

#[test]
fn test_order_update_outcomes() {
    let form = update_form();

    let resp = order_update_response(&form, UpdateAttempt::Matched, None);
    assert!(resp.success);
    assert_eq!(resp.message, "Order status updated to shipped");

    let resp = order_update_response(
        &form,
        UpdateAttempt::NotMatched,
        Some(UpdateAttempt::NotMatched),
    );
    assert!(!resp.success);
    assert_eq!(resp.message, "Order not found in either collection");

    let resp = order_update_response(&form, UpdateAttempt::Fault("io".to_string()), None);
    assert!(!resp.success);
    assert_eq!(resp.message, "Database error: io");

    let resp = order_update_response(
        &form,
        UpdateAttempt::NotMatched,
        Some(UpdateAttempt::Fault("io".to_string())),
    );
    assert!(!resp.success);
    assert_eq!(resp.message, "Database error updating completed order: io");
}

#[test]
fn test_sort_is_stable_for_equal_timestamps() {
    let mut first = create_test_order();
    first.order_reference = "ORD-FIRST".to_string();
    first.created_at = "2025-01-01T12:00:00Z".to_string();
    let mut second = create_test_order();
    second.order_reference = "ORD-SECOND".to_string();
    second.created_at = "2025-01-01T12:00:00Z".to_string();

    let sorted = sort_orders_desc(vec![first, second]);
    assert_eq!(sorted[0].order_reference, "ORD-FIRST");
    assert_eq!(sorted[1].order_reference, "ORD-SECOND");
}
