use badge_admin_core::models::{EditProductForm, Product, UserState};
use badge_admin_core::products::{
    normalize_image_url, product_delete_precheck, product_delete_response, product_edit_precheck,
    product_to_display, products_listing, ProductEditCheck,
};
use badge_admin_core::store::DeleteAttempt;
use badge_admin_core::validation::validate_product_form;

fn form(name: &str, price: &str, quantity: &str, description: &str) -> EditProductForm {
    EditProductForm {
        name: name.to_string(),
        price: price.to_string(),
        quantity: quantity.to_string(),
        description: description.to_string(),
        adoptable: None,
    }
}

#[test]
fn test_validate_product_form_valid() {
    let form = form("Test Product", "19.99", "10", "A great product");

    let result = validate_product_form(&form);
    assert!(result.is_ok());
    let (price, quantity) = result.unwrap();
    assert_eq!(price.whole, 19);
    assert_eq!(price.frac, vec![9, 9]);
    assert_eq!(quantity, 10);
}

#[test]
fn test_validate_product_form_empty_name() {
    let form = form("", "19.99", "10", "A great product");

    let result = validate_product_form(&form);
    assert!(result.is_err());
    assert_eq!(result.unwrap_err(), "Product name cannot be empty");
}

#[test]
fn test_validate_product_form_invalid_price() {
    let form = form("Test Product", "invalid", "10", "A great product");

    let result = validate_product_form(&form);
    assert!(result.is_err());
    assert_eq!(result.unwrap_err(), "Price must be a valid number");
}

#[test]
fn test_validate_product_form_negative_price() {
    let form = form("Test Product", "-10.99", "10", "A great product");

    let result = validate_product_form(&form);
    assert!(result.is_err());
    assert_eq!(result.unwrap_err(), "Price cannot be negative");
}

#[test]
fn test_validate_product_form_invalid_quantity() {
    let form = form("Test Product", "19.99", "invalid", "A great product");

    let result = validate_product_form(&form);
    assert!(result.is_err());
    assert_eq!(result.unwrap_err(), "Quantity must be a valid number");
}

#[test]
fn test_validate_product_form_negative_quantity() {
    let form = form("Test Product", "19.99", "-5", "A great product");

    let result = validate_product_form(&form);
    assert!(result.is_err());
    assert_eq!(result.unwrap_err(), "Quantity cannot be negative");
}

#[test]
fn test_validate_product_form_long_name() {
    let form = form(&"a".repeat(256), "19.99", "10", "A great product");

    let result = validate_product_form(&form);
    assert!(result.is_err());
    assert_eq!(
        result.unwrap_err(),
        "Product name must be less than 255 characters"
    );
}

#[test]
fn test_validate_product_form_long_description() {
    let form = form("Test Product", "19.99", "10", &"a".repeat(5001));

    let result = validate_product_form(&form);
    assert!(result.is_err());
    assert_eq!(
        result.unwrap_err(),
        "Description must be less than 5,000 characters"
    );
}

#[test]
fn test_validate_product_form_max_price() {
    let form = form("Test Product", "1000000.00", "10", "A great product");

    let result = validate_product_form(&form);
    assert!(result.is_err());
    assert_eq!(result.unwrap_err(), "Price cannot exceed £999,999.99");
}

#[test]
fn test_validate_product_form_max_quantity() {
    let form = form("Test Product", "19.99", "1000000", "A great product");

    let result = validate_product_form(&form);
    assert!(result.is_err());
    assert_eq!(result.unwrap_err(), "Quantity cannot exceed 999,999");
}

#[test]
fn test_validate_product_form_adoptable_set() {
    let mut form = form("Adoptable Pet", "0.00", "1", "A cute pet");
    form.adoptable = Some("on".to_string());

    let result = validate_product_form(&form);
    assert!(result.is_ok());
    let (price, quantity) = result.unwrap();
    assert_eq!(price.whole, 0);
    assert_eq!(price.frac, vec![0, 0]);
    assert_eq!(quantity, 1);
}

#[test]
fn test_validate_product_form_zero_values() {
    let form = form("Free Item", "0.00", "0", "");

    let result = validate_product_form(&form);
    assert!(result.is_ok());
    let (price, quantity) = result.unwrap();
    assert_eq!(price.whole, 0);
    assert_eq!(price.frac, vec![0, 0]);
    assert_eq!(quantity, 0);
}

#[test]
fn test_validate_product_form_boundary_values() {
    // Exactly at the acceptance bounds.
    let result = validate_product_form(&form("P", "999999.99", "999999", "d"));
    let (price, quantity) = result.unwrap();
    assert_eq!(price.whole, 999999);
    assert_eq!(price.frac, vec![9, 9]);
    assert_eq!(quantity, 999999);

    // Just over the price bound by a third fraction digit.
    let result = validate_product_form(&form("P", "999999.991", "1", "d"));
    assert_eq!(result.unwrap_err(), "Price cannot exceed £999,999.99");

    // Written negative zero reads 0 and is accepted.
    let result = validate_product_form(&form("P", "-0.00", "-0", "d"));
    let (price, quantity) = result.unwrap();
    assert_eq!(price.whole, 0);
    assert_eq!(quantity, 0);

    // Surrounding white space is trimmed before parsing.
    let result = validate_product_form(&form("P", "  19.99 ", " 10 ", "d"));
    let (price, quantity) = result.unwrap();
    assert_eq!(price.whole, 19);
    assert_eq!(quantity, 10);
}

fn product() -> Product {
    Product {
        id: "0123456789abcdef01234567".to_string(),
        name: "Widget".to_string(),
        image_url: "images/widget.png".to_string(),
        price: "19.99".to_string(),
        quantity: 4,
        description: "A widget".to_string(),
        adoptable: false,
    }
}

#[test]
fn test_normalize_image_url() {
    assert_eq!(normalize_image_url("images/widget.png"), "/images/widget.png");
    assert_eq!(normalize_image_url("/images/widget.png"), "/images/widget.png");
    assert_eq!(normalize_image_url(""), "/");
}

#[test]
fn test_product_to_display_roots_image() {
    let display = product_to_display(product(), true);
    assert_eq!(display.image_url, "/images/widget.png");
    assert_eq!(display.name, "Widget");
    assert_eq!(display.price, "19.99");
    assert_eq!(display.quantity, 4);

    let raw = product_to_display(product(), false);
    assert_eq!(raw.image_url, "images/widget.png");
}

#[test]
fn test_products_listing_success_and_fault() {
    let state = UserState::new(true, "admin".to_string(), true);
    let page = products_listing(Ok(vec![product()]), state.clone());
    assert_eq!(page.products.len(), 1);
    assert_eq!(page.products[0].image_url, "/images/widget.png");
    assert_eq!(page.error_message, "");

    let page = products_listing(Err("down".to_string()), state);
    assert_eq!(page.products.len(), 0);
    assert_eq!(page.error_message, "Database error: down");
}

#[test]
fn test_product_delete_flow() {
    let denied = product_delete_precheck(false, "0123456789abcdef01234567").unwrap();
    assert_eq!(denied.message, "Access denied");

    let rejected = product_delete_precheck(true, "nope").unwrap();
    assert_eq!(rejected.message, "Invalid product ID");

    assert!(product_delete_precheck(true, "0123456789abcdef01234567").is_none());

    let ok = product_delete_response("0123456789abcdef01234567".to_string(), DeleteAttempt::Deleted);
    assert!(ok.success);
    assert_eq!(ok.message, "Product deleted successfully");
    assert_eq!(ok.product_id.as_deref(), Some("0123456789abcdef01234567"));

    let missing =
        product_delete_response("0123456789abcdef01234567".to_string(), DeleteAttempt::Missing);
    assert!(!missing.success);
    assert_eq!(missing.message, "Product not found");

    let fault = product_delete_response(
        "0123456789abcdef01234567".to_string(),
        DeleteAttempt::Fault("io".to_string()),
    );
    assert!(!fault.success);
    assert_eq!(fault.message, "Database error: io");
}

#[test]
fn test_product_edit_precheck() {
    let anonymous = UserState::default();
    assert!(matches!(
        product_edit_precheck(&anonymous, "0123456789abcdef01234567"),
        ProductEditCheck::RedirectToLogin
    ));

    let staff = UserState::new(true, "staff".to_string(), false);
    assert!(matches!(
        product_edit_precheck(&staff, "0123456789abcdef01234567"),
        ProductEditCheck::Forbidden
    ));

    let admin = UserState::new(true, "boss".to_string(), true);
    assert!(matches!(product_edit_precheck(&admin, "nope"), ProductEditCheck::BadId));
    assert!(matches!(
        product_edit_precheck(&admin, "0123456789abcdef01234567"),
        ProductEditCheck::Proceed
    ));
}
