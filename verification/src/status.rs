//! Status vocabulary: the badge class each status renders with, and the
//! target statuses an update is allowed to set.

use vstd::prelude::*;
use vstd::string::StringExecFns;
use crate::text::str_eq;

verus! {

/// The badge class table for order statuses; a status outside the table
/// maps to the unknown-class sentinel.
pub open spec fn spec_order_status_class(s: Seq<char>) -> Seq<char> {
    if s == "paid"@ {
        "status-paid"@
    } else if s == "processing"@ {
        "status-processing"@
    } else if s == "shipped"@ {
        "status-shipped"@
    } else if s == "completed"@ {
        "status-completed"@
    } else if s == "cancelled"@ {
        "status-cancelled"@
    } else {
        "status-unknown"@
    }
}

/// Looks an order status up in the badge class table.
pub fn order_status_class(status: &str) -> (r: String)
    ensures
        r@ == spec_order_status_class(status@),
{
    if str_eq(status, "paid") {
        String::from_str("status-paid")
    } else if str_eq(status, "processing") {
        String::from_str("status-processing")
    } else if str_eq(status, "shipped") {
        String::from_str("status-shipped")
    } else if str_eq(status, "completed") {
        String::from_str("status-completed")
    } else if str_eq(status, "cancelled") {
        String::from_str("status-cancelled")
    } else {
        String::from_str("status-unknown")
    }
}

/// The badge class table for quote statuses.
pub open spec fn spec_quote_status_class(s: Seq<char>) -> Seq<char> {
    if s == "pending"@ {
        "status-pending"@
    } else if s == "quoted"@ {
        "status-quoted"@
    } else if s == "accepted"@ {
        "status-accepted"@
    } else if s == "completed"@ {
        "status-completed"@
    } else if s == "cancelled"@ {
        "status-cancelled"@
    } else {
        "status-unknown"@
    }
}

/// Looks a quote status up in the badge class table.
pub fn quote_status_class(status: &str) -> (r: String)
    ensures
        r@ == spec_quote_status_class(status@),
{
    if str_eq(status, "pending") {
        String::from_str("status-pending")
    } else if str_eq(status, "quoted") {
        String::from_str("status-quoted")
    } else if str_eq(status, "accepted") {
        String::from_str("status-accepted")
    } else if str_eq(status, "completed") {
        String::from_str("status-completed")
    } else if str_eq(status, "cancelled") {
        String::from_str("status-cancelled")
    } else {
        String::from_str("status-unknown")
    }
}

/// The badge class map is total: every status string maps to one of the six
/// fixed classes, and everything outside the table maps to the
/// unknown-class sentinel.
pub proof fn lemma_order_status_class_total(s: Seq<char>)
    ensures
        spec_order_status_class(s) == "status-paid"@ || spec_order_status_class(s)
            == "status-processing"@ || spec_order_status_class(s) == "status-shipped"@
            || spec_order_status_class(s) == "status-completed"@ || spec_order_status_class(s)
            == "status-cancelled"@ || spec_order_status_class(s) == "status-unknown"@,
        !(s == "paid"@ || s == "processing"@ || s == "shipped"@ || s == "completed"@ || s
            == "cancelled"@) ==> spec_order_status_class(s) == "status-unknown"@,
{
}

/// The quote badge class map is total in the same way.
pub proof fn lemma_quote_status_class_total(s: Seq<char>)
    ensures
        spec_quote_status_class(s) == "status-pending"@ || spec_quote_status_class(s)
            == "status-quoted"@ || spec_quote_status_class(s) == "status-accepted"@
            || spec_quote_status_class(s) == "status-completed"@ || spec_quote_status_class(s)
            == "status-cancelled"@ || spec_quote_status_class(s) == "status-unknown"@,
        !(s == "pending"@ || s == "quoted"@ || s == "accepted"@ || s == "completed"@ || s
            == "cancelled"@) ==> spec_quote_status_class(s) == "status-unknown"@,
{
}

/// The statuses an order update is allowed to set.
pub open spec fn spec_order_status_allowed(s: Seq<char>) -> bool {
    s == "paid"@ || s == "processing"@ || s == "shipped"@ || s == "completed"@ || s == "cancelled"@
}

/// Runtime test for `spec_order_status_allowed`.
pub fn order_status_allowed(status: &str) -> (r: bool)
    ensures
        r == spec_order_status_allowed(status@),
{
    str_eq(status, "paid") || str_eq(status, "processing") || str_eq(status, "shipped") || str_eq(
        status,
        "completed",
    ) || str_eq(status, "cancelled")
}

/// The statuses a quote update is allowed to set.
pub open spec fn spec_quote_status_allowed(s: Seq<char>) -> bool {
    s == "pending"@ || s == "quoted"@ || s == "accepted"@ || s == "completed"@ || s == "cancelled"@
}

/// Runtime test for `spec_quote_status_allowed`.
pub fn quote_status_allowed(status: &str) -> (r: bool)
    ensures
        r == spec_quote_status_allowed(status@),
{
    str_eq(status, "pending") || str_eq(status, "quoted") || str_eq(status, "accepted") || str_eq(
        status,
        "completed",
    ) || str_eq(status, "cancelled")
}

/// On a listing that hides history, an order from the active collection is
/// shown while it still needs payment attention.
pub open spec fn spec_active_filter(s: Seq<char>) -> bool {
    s == "pending"@ || s == "failed"@ || s == "cancelled"@
}

/// Runtime test for `spec_active_filter`.
pub fn active_filter_matches(status: &str) -> (r: bool)
    ensures
        r == spec_active_filter(status@),
{
    str_eq(status, "pending") || str_eq(status, "failed") || str_eq(status, "cancelled")
}

/// On a listing that hides history, an order from the completed collection
/// is shown while it still needs fulfilment attention.
pub open spec fn spec_completed_filter(s: Seq<char>) -> bool {
    s == "paid"@ || s == "processing"@ || s == "shipped"@
}

/// Runtime test for `spec_completed_filter`.
pub fn completed_filter_matches(status: &str) -> (r: bool)
    ensures
        r == spec_completed_filter(status@),
{
    str_eq(status, "paid") || str_eq(status, "processing") || str_eq(status, "shipped")
}

} // verus!
