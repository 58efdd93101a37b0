//! The entities of the admin backend and their display-safe projections.
//!
//! Stored entities mirror the documents of the backing store, with two
//! modelling choices: document identifiers are carried as their hex string
//! form, and monetary amounts are carried in minor units (pence) so that
//! the formatting functions can state their output exactly.

use vstd::prelude::*;

verus! {

/// A staff account, read on every authentication attempt.
#[derive(Debug, Clone)]
pub struct User {
    pub id: String,
    pub username: String,
    pub password_hash: String,
    pub is_admin: bool,
}

/// The login form: a username, a password, and the optional path to return
/// to after a successful login.
#[derive(Debug, Clone)]
pub struct Credentials {
    pub username: String,
    pub password: String,
    pub next: Option<String>,
}

/// The per-request identity view every page consults.
#[derive(Debug, Clone)]
pub struct UserState {
    pub is_authenticated: bool,
    pub username: String,
    pub is_admin: bool,
    pub logged_in: bool,
}

impl UserState {
    /// Builds the identity view; `logged_in` always mirrors
    /// `is_authenticated`.
    pub fn new(is_authenticated: bool, username: String, is_admin: bool) -> (s: UserState)
        ensures
            s.is_authenticated == is_authenticated,
            s.logged_in == is_authenticated,
            s.username == username,
            s.is_admin == is_admin,
    {
        UserState { is_authenticated, logged_in: is_authenticated, username, is_admin }
    }
}

impl Default for UserState {
    /// The anonymous identity view: not authenticated, no name, no rights.
    fn default() -> (s: UserState)
        ensures
            !s.is_authenticated,
            !s.logged_in,
            !s.is_admin,
            s.username@ == Seq::<char>::empty(),
    {
        UserState {
            is_authenticated: false,
            logged_in: false,
            username: String::new(),
            is_admin: false,
        }
    }
}

/// A stored product document.
#[derive(Debug, Clone)]
pub struct Product {
    pub id: String,
    pub name: String,
    pub image_url: String,
    pub price: String,
    pub quantity: i32,
    pub description: String,
    pub adoptable: bool,
}

/// A product shaped for rendering.
#[derive(Debug, Clone)]
pub struct ProductDisplay {
    pub id: String,
    pub name: String,
    pub image_url: String,
    pub price: String,
    pub quantity: i32,
    pub description: String,
    pub adoptable: bool,
}

/// The form submitted to create a product.
#[derive(Debug, Clone)]
pub struct CreateProductForm {
    pub name: String,
    pub price: String,
    pub quantity: String,
    pub description: String,
    pub adoptable: Option<String>,
}

/// The form submitted to edit a product; `adoptable` is `Some` exactly when
/// the checkbox was checked.
#[derive(Debug, Clone)]
pub struct EditProductForm {
    pub name: String,
    pub price: String,
    pub quantity: String,
    pub description: String,
    pub adoptable: Option<String>,
}

/// A shipping address as stored; the second line is optional.
#[derive(Debug, Clone)]
pub struct ShippingAddress {
    pub line1: String,
    pub line2: Option<String>,
    pub city: String,
    pub postcode: String,
    pub country: String,
}

/// One ordered line item; amounts are in minor units.
#[derive(Debug, Clone)]
pub struct OrderItem {
    pub product_id: String,
    pub product_name: String,
    pub quantity: i32,
    pub price_pence: u64,
    pub line_total_pence: u64,
}

/// A stored order document; amounts are in minor units and timestamps are
/// ISO-8601 strings.
#[derive(Debug, Clone)]
pub struct Order {
    pub id: String,
    pub order_reference: String,
    pub customer_name: String,
    pub customer_email: String,
    pub shipping_address: ShippingAddress,
    pub items: Vec<OrderItem>,
    pub subtotal_pence: u64,
    pub shipping_cost_pence: u64,
    pub total_pence: u64,
    pub currency: String,
    pub status: String,
    pub created_at: String,
    pub updated_at: String,
}

/// A stored custom badge quote request.
#[derive(Debug, Clone)]
pub struct CustomBadgeQuote {
    pub id: String,
    pub num_colors: String,
    pub double_sided: bool,
    pub print_size: String,
    pub thickness: String,
    pub email: String,
    pub image_path: Option<String>,
    pub estimated_price_pence: u64,
    pub created_at: String,
    pub updated_at: String,
    pub status: String,
}

/// A shipping address shaped for rendering: a missing second line becomes
/// the empty string.
#[derive(Debug, Clone)]
pub struct ShippingAddressDisplay {
    pub line1: String,
    pub line2: String,
    pub city: String,
    pub postcode: String,
    pub country: String,
}

/// An order shaped for rendering, with the formatted total, the formatted
/// creation time, and the status badge class derived.
#[derive(Debug, Clone)]
pub struct OrderDisplay {
    pub id: String,
    pub order_reference: String,
    pub customer_name: String,
    pub customer_email: String,
    pub shipping_address: ShippingAddressDisplay,
    pub items: Vec<OrderItem>,
    pub subtotal_pence: u64,
    pub shipping_cost_pence: u64,
    pub total_pence: u64,
    pub currency: String,
    pub status: String,
    pub created_at: String,
    pub updated_at: String,
    pub formatted_total: String,
    pub formatted_created_at: String,
    pub status_class: String,
}

/// A quote shaped for rendering, with the formatted price, the formatted
/// creation time, the status badge class, and the sidedness text derived.
#[derive(Debug, Clone)]
pub struct QuoteDisplay {
    pub id: String,
    pub num_colors: String,
    pub double_sided: String,
    pub print_size: String,
    pub thickness: String,
    pub email: String,
    pub image_path: Option<String>,
    pub estimated_price_pence: u64,
    pub created_at: String,
    pub status: String,
    pub formatted_price: String,
    pub formatted_created_at: String,
    pub status_class: String,
    pub sided_text: String,
}

/// Query parameters accepted by the order listing page.
#[derive(Debug, Clone)]
pub struct OrderQueryParams {
    pub page: Option<u32>,
    pub show_completed: Option<String>,
    pub page_size: Option<u32>,
}

/// Query parameters accepted by the quote listing page.
#[derive(Debug, Clone)]
pub struct QuoteQueryParams {
    pub page: Option<u32>,
    pub status_filter: Option<String>,
    pub page_size: Option<u32>,
}

/// The form submitted to move an order to a new status.
#[derive(Debug, Clone)]
pub struct UpdateOrderStatusForm {
    pub order_id: String,
    pub status: String,
}

/// The form submitted to move a quote to a new status.
#[derive(Debug, Clone)]
pub struct UpdateQuoteStatusForm {
    pub quote_id: String,
    pub status: String,
}

/// The JSON-shaped outcome of a product operation.
#[derive(Debug, Clone)]
pub struct ProductOperationResponse {
    pub success: bool,
    pub message: String,
    pub product_id: Option<String>,
}

/// The JSON-shaped outcome of an order operation.
#[derive(Debug, Clone)]
pub struct OrderOperationResponse {
    pub success: bool,
    pub message: String,
    pub order_id: Option<String>,
}

/// The JSON-shaped outcome of a quote operation.
#[derive(Debug, Clone)]
pub struct QuoteOperationResponse {
    pub success: bool,
    pub message: String,
    pub quote_id: Option<String>,
}

/// Everything the product management page renders.
#[derive(Debug, Clone)]
pub struct ProductManagementTemplate {
    pub products: Vec<ProductDisplay>,
    pub user_state: UserState,
    pub success_message: String,
    pub error_message: String,
}

/// Everything the product edit page renders.
#[derive(Debug, Clone)]
pub struct EditProductTemplate {
    pub product: ProductDisplay,
    pub user_state: UserState,
    pub error_message: String,
}

/// Everything the order processing page renders.
#[derive(Debug, Clone)]
pub struct OrderProcessingTemplate {
    pub orders: Vec<OrderDisplay>,
    pub pagination: crate::pagination::PaginationInfo,
    pub show_completed: bool,
    pub success_message: String,
    pub error_message: String,
    pub user_state: UserState,
}

/// Everything the quote processing page renders.
#[derive(Debug, Clone)]
pub struct QuoteProcessingTemplate {
    pub quotes: Vec<QuoteDisplay>,
    pub pagination: crate::pagination::PaginationInfo,
    pub status_filter: String,
    pub success_message: String,
    pub error_message: String,
    pub user_state: UserState,
}

/// Everything the calculator page renders.
#[derive(Debug, Clone)]
pub struct CalculatorTemplate {
    pub user_state: UserState,
}

/// Everything the login page renders.
#[derive(Debug, Clone)]
pub struct LoginTemplate {
    pub next: String,
    pub next_url: String,
    pub error: String,
    pub user_state: UserState,
}

/// The version and deployment description served by the service metadata
/// endpoint.
#[derive(Debug, Clone)]
pub struct VersionInfo {
    pub service: String,
    pub image: String,
    pub build_time: String,
    pub git_commit: String,
    pub environment: String,
}

} // verus!
