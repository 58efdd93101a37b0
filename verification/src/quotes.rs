//! The quote manager: listing projection, the status update, and the
//! checks around serving uploaded badge images.
//!
//! Unlike orders, quote pagination is pushed to the store: the store
//! counts and slices, and this module turns what came back into the page.

use vstd::prelude::*;
use vstd::string::StrSliceExecFns;
use vstd::string::StringExecFns;
use crate::models::{CustomBadgeQuote, QuoteDisplay, QuoteOperationResponse,
    QuoteProcessingTemplate, UpdateQuoteStatusForm, UserState};
use crate::numfmt::{currency_seq, format_pence};
use crate::pagination::{MAX_PAGE_SIZE, create_pagination_info, spec_end_item, spec_start_item,
    spec_total_pages};
use crate::status::{quote_status_allowed, quote_status_class, spec_quote_status_allowed,
    spec_quote_status_class};
use crate::store::{UpdateAttempt, object_id_valid, spec_object_id_valid};
use crate::text::{contains_char, contains_double_dot, has_prefix, str_contains_char,
    str_contains_double_dot, str_eq, str_has_prefix};
use crate::timefmt::{format_timestamp, spec_timestamp_display};

verus! {

/// How a stored quote appears on the processing page: fields carried
/// over, the sidedness written out, and the formatted price, formatted
/// creation time and status badge class derived.
pub open spec fn quote_display_spec(q: CustomBadgeQuote, d: QuoteDisplay) -> bool {
    &&& d.id == q.id
    &&& d.num_colors == q.num_colors
    &&& d.double_sided@ == if q.double_sided {
        "yes"@
    } else {
        "no"@
    }
    &&& d.print_size == q.print_size
    &&& d.thickness == q.thickness
    &&& d.email == q.email
    &&& d.image_path == q.image_path
    &&& d.estimated_price_pence == q.estimated_price_pence
    &&& d.created_at == q.created_at
    &&& d.status == q.status
    &&& d.formatted_price@ == currency_seq(q.estimated_price_pence as nat)
    &&& d.formatted_created_at@ == spec_timestamp_display(q.created_at@)
    &&& d.status_class@ == spec_quote_status_class(q.status@)
    &&& d.sided_text@ == if q.double_sided {
        "Double-sided"@
    } else {
        "Single-sided"@
    }
}

/// Projects a stored quote for rendering; pure, with no side effects.
pub fn quote_to_display(quote: CustomBadgeQuote) -> (d: QuoteDisplay)
    ensures
        quote_display_spec(quote, d),
{
    let formatted_created_at = format_timestamp(quote.created_at.as_str());
    let status_class = quote_status_class(quote.status.as_str());
    let formatted_price = format_pence(quote.estimated_price_pence);
    let sided_text = if quote.double_sided {
        String::from_str("Double-sided")
    } else {
        String::from_str("Single-sided")
    };
    let double_sided = if quote.double_sided {
        String::from_str("yes")
    } else {
        String::from_str("no")
    };
    QuoteDisplay {
        id: quote.id,
        num_colors: quote.num_colors,
        double_sided,
        print_size: quote.print_size,
        thickness: quote.thickness,
        email: quote.email,
        image_path: quote.image_path,
        estimated_price_pence: quote.estimated_price_pence,
        created_at: quote.created_at,
        status: quote.status,
        formatted_price,
        formatted_created_at,
        status_class,
        sided_text,
    }
}

/// Projecting the same stored quote twice yields display models that agree
/// in every field: the projection is a pure function of the entity.
pub proof fn lemma_quote_projection_deterministic(
    q: CustomBadgeQuote,
    d1: QuoteDisplay,
    d2: QuoteDisplay,
)
    requires
        quote_display_spec(q, d1),
        quote_display_spec(q, d2),
    ensures
        d1.id == d2.id,
        d1.double_sided@ == d2.double_sided@,
        d1.image_path == d2.image_path,
        d1.estimated_price_pence == d2.estimated_price_pence,
        d1.status == d2.status,
        d1.formatted_price@ == d2.formatted_price@,
        d1.formatted_created_at@ == d2.formatted_created_at@,
        d1.status_class@ == d2.status_class@,
        d1.sided_text@ == d2.sided_text@,
{
}

/// The status filter a listing request asked for; absent means every
/// status.
pub fn normalize_status_filter(param: Option<String>) -> (r: String)
    ensures
        r@ == match param {
            Some(p) => p@,
            None => "all"@,
        },
{
    match param {
        Some(p) => p,
        None => String::from_str("all"),
    }
}

/// The filter string that asks for every status.
pub fn status_filter_is_all(filter: &str) -> (r: bool)
    ensures
        r == (filter@ == "all"@),
{
    str_eq(filter, "all")
}

/// Builds the quote processing page from what the store returned: the
/// count drives pagination, the fetched slice is projected in order, and
/// a fault in either read yields an empty listing carrying its own
/// message.
pub fn quotes_listing(
    count: Result<u64, String>,
    fetched: Result<Vec<CustomBadgeQuote>, String>,
    status_filter: String,
    page: u32,
    page_size: u32,
    user_state: UserState,
) -> (t: QuoteProcessingTemplate)
    requires
        page >= 1,
        1 <= page_size <= MAX_PAGE_SIZE,
        page * page_size <= u32::MAX,
        count matches Ok(c) ==> c <= u32::MAX,
    ensures
        t.user_state == user_state,
        t.status_filter == status_filter,
        t.success_message@.len() == 0,
        count matches Err(e) ==> {
            &&& t.quotes@.len() == 0
            &&& t.error_message@ == "Database error counting quotes: "@ + e@
            &&& t.pagination.current_page == 1
            &&& t.pagination.total_items == 0
            &&& t.pagination.total_pages == 1
            &&& !t.pagination.has_prev
            &&& !t.pagination.has_next
            &&& t.pagination.start_item == 0
            &&& t.pagination.end_item == 0
        },
        fetched matches Err(e) ==> (count is Ok ==> {
            &&& t.quotes@.len() == 0
            &&& t.error_message@ == "Database error fetching quotes: "@ + e@
            &&& t.pagination.current_page == 1
            &&& t.pagination.total_items == 0
            &&& t.pagination.total_pages == 1
            &&& !t.pagination.has_prev
            &&& !t.pagination.has_next
            &&& t.pagination.start_item == 0
            &&& t.pagination.end_item == 0
        }),
        count matches Ok(c) ==> fetched matches Ok(qs) ==> {
            &&& t.error_message@.len() == 0
            &&& t.quotes@.len() == qs@.len()
            &&& forall|i: int|
                0 <= i < qs@.len() ==> quote_display_spec(qs@[i], #[trigger] t.quotes@[i])
            &&& t.pagination.current_page == page
            &&& t.pagination.total_items == c
            &&& t.pagination.total_pages == spec_total_pages(c as int, page_size as int)
            &&& t.pagination.has_prev == (page > 1)
            &&& t.pagination.has_next == (page < t.pagination.total_pages)
            &&& t.pagination.start_item == spec_start_item(page as int, page_size as int, c as int)
            &&& t.pagination.end_item == spec_end_item(page as int, page_size as int, c as int)
        },
{
    let total_count = match count {
        Ok(c) => c,
        Err(e) => {
            let pagination = create_pagination_info(1, page_size, 0);
            return QuoteProcessingTemplate {
                quotes: Vec::new(),
                pagination,
                status_filter,
                success_message: String::new(),
                error_message: String::from_str("Database error counting quotes: ").concat(
                    e.as_str(),
                ),
                user_state,
            };
        },
    };
    let quotes = match fetched {
        Ok(qs) => qs,
        Err(e) => {
            let pagination = create_pagination_info(1, page_size, 0);
            return QuoteProcessingTemplate {
                quotes: Vec::new(),
                pagination,
                status_filter,
                success_message: String::new(),
                error_message: String::from_str("Database error fetching quotes: ").concat(
                    e.as_str(),
                ),
                user_state,
            };
        },
    };

    let ghost orig = quotes@;
    let mut rest = quotes;
    let mut displays: Vec<QuoteDisplay> = Vec::new();
    let ghost mut done: int = 0;
    proof {
        assert(rest@ =~= orig.skip(0));
    }
    while rest.len() > 0
        invariant
            0 <= done,
            done + rest@.len() == orig.len(),
            rest@ == orig.skip(done),
            displays@.len() == done,
            forall|i: int|
                0 <= i < done ==> quote_display_spec(orig[i], #[trigger] displays@[i]),
        decreases rest@.len(),
    {
        let q = rest.remove(0);
        proof {
            assert(q == orig.skip(done)[0]);
            assert(orig.skip(done)[0] == orig[done]);
            assert(orig.skip(done).remove(0) =~= orig.skip(done + 1));
        }
        let d = quote_to_display(q);
        displays.push(d);
        proof {
            done = done + 1;
        }
    }

    let pagination = create_pagination_info(page, page_size, total_count);
    QuoteProcessingTemplate {
        quotes: displays,
        pagination,
        status_filter,
        success_message: String::new(),
        error_message: String::new(),
        user_state,
    }
}

/// Rejections of a quote status update that come before any store call: a
/// non-admin caller, an unknown target status, then a malformed quote
/// identifier. `None` means the update may be attempted.
pub fn quote_update_precheck(is_admin: bool, form: &UpdateQuoteStatusForm) -> (r: Option<
    QuoteOperationResponse,
>)
    ensures
        !is_admin ==> (r matches Some(resp) && !resp.success && resp.message@ == "Access denied"@
            && resp.quote_id is None),
        is_admin && !spec_quote_status_allowed(form.status@) ==> (r matches Some(resp)
            && !resp.success && resp.message@ == "Invalid status"@ && resp.quote_id is None),
        is_admin && spec_quote_status_allowed(form.status@) && !spec_object_id_valid(
            form.quote_id@,
        ) ==> (r matches Some(resp) && !resp.success && resp.message@ == "Invalid quote ID"@
            && resp.quote_id is None),
        is_admin && spec_quote_status_allowed(form.status@) && spec_object_id_valid(form.quote_id@)
            ==> r is None,
{
    if !is_admin {
        Some(QuoteOperationResponse {
            success: false,
            message: String::from_str("Access denied"),
            quote_id: None,
        })
    } else if !quote_status_allowed(form.status.as_str()) {
        Some(QuoteOperationResponse {
            success: false,
            message: String::from_str("Invalid status"),
            quote_id: None,
        })
    } else if !object_id_valid(form.quote_id.as_str()) {
        Some(QuoteOperationResponse {
            success: false,
            message: String::from_str("Invalid quote ID"),
            quote_id: None,
        })
    } else {
        None
    }
}

/// The JSON outcome of a quote status update: success when a document
/// matched, a distinct not-found message when nothing did, and the
/// store's message on a fault.
pub fn quote_update_response(form: &UpdateQuoteStatusForm, attempt: UpdateAttempt) -> (r:
    QuoteOperationResponse)
    ensures
        attempt is Matched ==> r.success && r.message@ == "Quote status updated to "@
            + form.status@ && (r.quote_id matches Some(i) && i == form.quote_id),
        attempt is NotMatched ==> !r.success && r.message@ == "Quote not found"@ && r.quote_id
            is None,
        attempt matches UpdateAttempt::Fault(e) ==> !r.success && r.message@
            == "Database error: "@ + e@ && r.quote_id is None,
{
    match attempt {
        UpdateAttempt::Matched => QuoteOperationResponse {
            success: true,
            message: String::from_str("Quote status updated to ").concat(form.status.as_str()),
            quote_id: Some(form.quote_id.clone()),
        },
        UpdateAttempt::NotMatched => QuoteOperationResponse {
            success: false,
            message: String::from_str("Quote not found"),
            quote_id: None,
        },
        UpdateAttempt::Fault(e) => QuoteOperationResponse {
            success: false,
            message: String::from_str("Database error: ").concat(e.as_str()),
            quote_id: None,
        },
    }
}

/// A badge image filename a request may read: it must carry the fixed
/// upload prefix, and must not name a parent directory or cross a path
/// separator.
pub open spec fn spec_badge_filename_valid(s: Seq<char>) -> bool {
    has_prefix(s, "badge_"@) && !contains_double_dot(s) && !contains_char(s, '/')
}

/// Runtime test for `spec_badge_filename_valid`.
pub fn badge_filename_valid(filename: &str) -> (r: bool)
    ensures
        r == spec_badge_filename_valid(filename@),
{
    str_has_prefix(filename, "badge_") && !str_contains_double_dot(filename)
        && !str_contains_char(filename, '/')
}

/// The code point of `c` with an ASCII capital letter folded to its small
/// form; other characters are left as they are.
pub open spec fn lower_code(c: char) -> u32 {
    let u = c as u32;
    if 65 <= u && u <= 90 {
        (u + 32) as u32
    } else {
        u
    }
}

/// Character sequences equal up to ASCII letter case.
pub open spec fn ascii_ci_eq(a: Seq<char>, b: Seq<char>) -> bool {
    a.len() == b.len() && forall|i: int| 0 <= i < a.len() ==> lower_code(a[i]) == lower_code(b[i])
}

/// Runtime test for `ascii_ci_eq`.
pub fn str_ci_eq(a: &str, b: &str) -> (r: bool)
    ensures
        r == ascii_ci_eq(a@, b@),
{
    let alen = a.unicode_len();
    let blen = b.unicode_len();
    if alen != blen {
        return false;
    }
    let mut i: usize = 0;
    while i < alen
        invariant
            0 <= i <= alen,
            alen == a@.len(),
            alen == b@.len(),
            forall|j: int| 0 <= j < i ==> lower_code(a@[j]) == lower_code(b@[j]),
        decreases alen - i,
    {
        let ua = a.get_char(i) as u32;
        let ub = b.get_char(i) as u32;
        let la = if 65 <= ua && ua <= 90 {
            ua + 32
        } else {
            ua
        };
        let lb = if 65 <= ub && ub <= 90 {
            ub + 32
        } else {
            ub
        };
        if la != lb {
            return false;
        }
        i += 1;
    }
    true
}

/// The characters after the last dot of `s`, or nothing when `s` has no
/// dot.
pub open spec fn tail_after_last_dot(s: Seq<char>) -> Option<Seq<char>>
    decreases s.len(),
{
    if s.len() == 0 {
        None
    } else if s.last() == '.' {
        Some(Seq::empty())
    } else {
        match tail_after_last_dot(s.drop_last()) {
            Some(t) => Some(t.push(s.last())),
            None => None,
        }
    }
}

proof fn lemma_tail_none(s: Seq<char>)
    requires
        forall|i: int| 0 <= i < s.len() ==> #[trigger] s[i] != '.',
    ensures
        tail_after_last_dot(s) is None,
    decreases s.len(),
{
    if s.len() > 0 {
        assert(forall|i: int|
            0 <= i < s.drop_last().len() ==> #[trigger] s.drop_last()[i] != '.');
        lemma_tail_none(s.drop_last());
    }
}

proof fn lemma_tail_some(s: Seq<char>, k: int)
    requires
        0 <= k < s.len(),
        s[k] == '.',
        forall|j: int| k < j < s.len() ==> #[trigger] s[j] != '.',
    ensures
        tail_after_last_dot(s) == Some(s.subrange(k + 1, s.len() as int)),
    decreases s.len(),
{
    if k == s.len() - 1 {
        assert(s.last() == '.');
        assert(s.subrange(k + 1, s.len() as int) =~= Seq::<char>::empty());
    } else {
        assert(s.last() != '.');
        assert(s.drop_last()[k] == s[k]);
        assert(forall|j: int|
            k < j < s.drop_last().len() ==> #[trigger] s.drop_last()[j] != '.');
        lemma_tail_some(s.drop_last(), k);
        assert(s.drop_last().subrange(k + 1, s.drop_last().len() as int).push(s.last())
            =~= s.subrange(k + 1, s.len() as int));
    }
}

/// The content type a badge image is served with, inferred from the part
/// of the filename after its last dot, compared without regard to ASCII
/// case; anything unrecognized, or a name with no dot, gets the opaque
/// default.
pub open spec fn spec_badge_content_type(s: Seq<char>) -> Seq<char> {
    match tail_after_last_dot(s) {
        Some(ext) => if ascii_ci_eq(ext, "jpg"@) || ascii_ci_eq(ext, "jpeg"@) {
            "image/jpeg"@
        } else if ascii_ci_eq(ext, "png"@) {
            "image/png"@
        } else if ascii_ci_eq(ext, "gif"@) {
            "image/gif"@
        } else {
            "application/octet-stream"@
        },
        None => "application/octet-stream"@,
    }
}

/// Infers the content type to serve a badge image with.
pub fn badge_content_type(filename: &str) -> (r: String)
    ensures
        r@ == spec_badge_content_type(filename@),
{
    let len = filename.unicode_len();
    let mut j = len;
    while j > 0
        invariant
            0 <= j <= len,
            len == filename@.len(),
            forall|k: int| j <= k < len ==> #[trigger] filename@[k] != '.',
        decreases j,
    {
        if filename.get_char(j - 1) == '.' {
            proof {
                lemma_tail_some(filename@, j - 1);
            }
            let ext = filename.substring_char(j, len);
            let r = if str_ci_eq(ext, "jpg") || str_ci_eq(ext, "jpeg") {
                String::from_str("image/jpeg")
            } else if str_ci_eq(ext, "png") {
                String::from_str("image/png")
            } else if str_ci_eq(ext, "gif") {
                String::from_str("image/gif")
            } else {
                String::from_str("application/octet-stream")
            };
            return r;
        }
        j -= 1;
    }
    proof {
        lemma_tail_none(filename@);
    }
    String::from_str("application/octet-stream")
}

/// What serving a badge image does with a request before touching the
/// disk: refuse a non-admin outright, reject a filename outside the safe
/// shape, or go ahead and read.
#[derive(Debug, Clone)]
pub enum BadgeImageCheck {
    Forbidden,
    BadRequest,
    Allowed,
}

/// Applies the admin and filename checks for a badge image request.
pub fn badge_image_precheck(is_admin: bool, filename: &str) -> (r: BadgeImageCheck)
    ensures
        !is_admin ==> r is Forbidden,
        is_admin && !spec_badge_filename_valid(filename@) ==> r is BadRequest,
        is_admin && spec_badge_filename_valid(filename@) ==> r is Allowed,
{
    if !is_admin {
        BadgeImageCheck::Forbidden
    } else if !badge_filename_valid(filename) {
        BadgeImageCheck::BadRequest
    } else {
        BadgeImageCheck::Allowed
    }
}

} // verus!
