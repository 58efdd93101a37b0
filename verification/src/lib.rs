//! Verified core of an e-commerce admin backend.
//!
//! The logic specified and proved here covers credential checking and the
//! per-request identity view, the authorization gate applied at the top of
//! every protected operation, pagination arithmetic, the projection of
//! stored entities into display-safe models (status classes, currency and
//! timestamp formatting), product form validation, the dual-collection
//! order merge, and the status-transition rules for orders and quotes.
//! All storage and transport I/O lives outside this crate; handlers feed
//! plain values in and render the returned values out.

pub mod access;
pub mod auth;
pub mod models;
pub mod numfmt;
pub mod orders;
pub mod pagination;
pub mod quotes;
pub mod products;
pub mod status;
pub mod store;
pub mod text;
pub mod timefmt;
pub mod user_state;
pub mod version;
pub mod validation;
