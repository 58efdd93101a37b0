//! The order manager: the dual-collection listing and the status update.
//!
//! Orders live in two physical collections — active (pre-payment) and
//! completed (post-payment) — that form one logical entity. The listing
//! filters each collection's rows, merges them, sorts the union newest
//! first, and pages over the merged list in memory; the status update
//! tries the active collection first and falls back to the completed one.

use vstd::prelude::*;
use vstd::seq_lib::*;
use vstd::string::StringExecFns;
use crate::models::{Order, OrderDisplay, OrderOperationResponse, OrderProcessingTemplate,
    ShippingAddressDisplay, UpdateOrderStatusForm, UserState};
use crate::numfmt::{currency_seq, format_pence};
use crate::pagination::{MAX_PAGE_SIZE, create_pagination_info, page_skip,
    spec_end_item, spec_start_item, spec_total_pages};
use crate::status::{order_status_allowed, order_status_class, spec_active_filter,
    spec_completed_filter, spec_order_status_allowed, spec_order_status_class,
    active_filter_matches, completed_filter_matches};
use crate::store::{UpdateAttempt, object_id_valid, spec_object_id_valid};
use crate::text::{lemma_lex_irrefl, lemma_lex_lt_trans, lemma_lex_total, lex_lt, str_lt};
use crate::timefmt::{format_timestamp, spec_timestamp_display};

verus! {

/// How a stored order appears on the processing page: all fields carried
/// over, a missing second address line blanked, and the formatted total,
/// formatted creation time and status badge class derived.
pub open spec fn order_display_spec(o: Order, d: OrderDisplay) -> bool {
    &&& d.id == o.id
    &&& d.order_reference == o.order_reference
    &&& d.customer_name == o.customer_name
    &&& d.customer_email == o.customer_email
    &&& d.shipping_address.line1 == o.shipping_address.line1
    &&& match o.shipping_address.line2 {
        Some(l) => d.shipping_address.line2 == l,
        None => d.shipping_address.line2@.len() == 0,
    }
    &&& d.shipping_address.city == o.shipping_address.city
    &&& d.shipping_address.postcode == o.shipping_address.postcode
    &&& d.shipping_address.country == o.shipping_address.country
    &&& d.items == o.items
    &&& d.subtotal_pence == o.subtotal_pence
    &&& d.shipping_cost_pence == o.shipping_cost_pence
    &&& d.total_pence == o.total_pence
    &&& d.currency == o.currency
    &&& d.status == o.status
    &&& d.created_at == o.created_at
    &&& d.updated_at == o.updated_at
    &&& d.formatted_total@ == currency_seq(o.total_pence as nat)
    &&& d.formatted_created_at@ == spec_timestamp_display(o.created_at@)
    &&& d.status_class@ == spec_order_status_class(o.status@)
}

/// Projects a stored order for rendering; pure, with no side effects.
pub fn convert_to_display(order: Order) -> (d: OrderDisplay)
    ensures
        order_display_spec(order, d),
{
    let status_class = order_status_class(order.status.as_str());
    let formatted_created_at = format_timestamp(order.created_at.as_str());
    let formatted_total = format_pence(order.total_pence);
    let line2 = match order.shipping_address.line2 {
        Some(l) => l,
        None => String::new(),
    };
    OrderDisplay {
        id: order.id,
        order_reference: order.order_reference,
        customer_name: order.customer_name,
        customer_email: order.customer_email,
        shipping_address: ShippingAddressDisplay {
            line1: order.shipping_address.line1,
            line2,
            city: order.shipping_address.city,
            postcode: order.shipping_address.postcode,
            country: order.shipping_address.country,
        },
        items: order.items,
        subtotal_pence: order.subtotal_pence,
        shipping_cost_pence: order.shipping_cost_pence,
        total_pence: order.total_pence,
        currency: order.currency,
        status: order.status,
        created_at: order.created_at,
        updated_at: order.updated_at,
        formatted_total,
        formatted_created_at,
        status_class,
    }
}

/// Projecting the same stored order twice yields display models that agree
/// in every field: the projection is a pure function of the entity.
pub proof fn lemma_order_projection_deterministic(o: Order, d1: OrderDisplay, d2: OrderDisplay)
    requires
        order_display_spec(o, d1),
        order_display_spec(o, d2),
    ensures
        d1.id == d2.id,
        d1.shipping_address.line2@ == d2.shipping_address.line2@,
        d1.items == d2.items,
        d1.total_pence == d2.total_pence,
        d1.status == d2.status,
        d1.formatted_total@ == d2.formatted_total@,
        d1.formatted_created_at@ == d2.formatted_created_at@,
        d1.status_class@ == d2.status_class@,
{
    match o.shipping_address.line2 {
        Some(l) => {},
        None => {
            assert(d1.shipping_address.line2@ =~= d2.shipping_address.line2@);
        },
    }
}

/// Inserts `x` into a list already sorted newest-first, behind every entry
/// at least as new: the stable position.
pub open spec fn spec_insert_desc(s: Seq<Order>, x: Order) -> Seq<Order>
    decreases s.len(),
{
    if s.len() > 0 && lex_lt(s.last().created_at@, x.created_at@) {
        spec_insert_desc(s.drop_last(), x).push(s.last())
    } else {
        s.push(x)
    }
}

/// The stable newest-first ordering of `s` by creation timestamp: entries
/// are taken left to right and each is placed behind every entry at least
/// as new, so equal timestamps keep their earlier relative order.
pub open spec fn spec_sort_desc(s: Seq<Order>) -> Seq<Order>
    decreases s.len(),
{
    if s.len() == 0 {
        Seq::empty()
    } else {
        spec_insert_desc(spec_sort_desc(s.drop_last()), s.last())
    }
}

/// `s` is sorted newest-first by creation timestamp.
pub open spec fn spec_sorted_desc(s: Seq<Order>) -> bool {
    forall|i: int, j: int|
        0 <= i < j < s.len() ==> !lex_lt(#[trigger] s[i].created_at@, #[trigger] s[j].created_at@)
}

proof fn lemma_insert_desc_properties(s: Seq<Order>, x: Order)
    requires
        spec_sorted_desc(s),
    ensures
        spec_sorted_desc(spec_insert_desc(s, x)),
        spec_insert_desc(s, x).to_multiset() == s.to_multiset().insert(x),
        spec_insert_desc(s, x).len() == s.len() + 1,
        forall|i: int|
            0 <= i < spec_insert_desc(s, x).len() ==> (#[trigger] spec_insert_desc(s, x)[i] == x
                || s.to_multiset().count(spec_insert_desc(s, x)[i]) > 0),
    decreases s.len(),
{
    let r = spec_insert_desc(s, x);
    s.to_multiset_ensures();
    r.to_multiset_ensures();
    if s.len() > 0 && lex_lt(s.last().created_at@, x.created_at@) {
        let s0 = s.drop_last();
        let y = s.last();
        assert(spec_sorted_desc(s0)) by {
            assert(forall|i: int| 0 <= i < s0.len() ==> s0[i] == s[i]);
        }
        lemma_insert_desc_properties(s0, x);
        let r0 = spec_insert_desc(s0, x);
        s0.to_multiset_ensures();
        r0.to_multiset_ensures();
        assert(r == r0.push(y));
        // multiset bookkeeping: r = r0 + y, r0 = s0 + x, s = s0 + y
        assert(s =~= s0.push(y));
        assert(s0.push(y).to_multiset() =~= s0.to_multiset().insert(y));
        assert(s.to_multiset() =~= s0.to_multiset().insert(y));
        assert(r0.push(y).to_multiset() =~= r0.to_multiset().insert(y));
        assert(r.to_multiset() =~= r0.to_multiset().insert(y));
        assert(r.to_multiset() =~= s.to_multiset().insert(x)) by {
            assert(r0.to_multiset() == s0.to_multiset().insert(x));
            assert(r.to_multiset() =~= s0.to_multiset().insert(x).insert(y));
            assert(s.to_multiset().insert(x) =~= s0.to_multiset().insert(y).insert(x));
        }
        // element origin
        assert forall|i: int| 0 <= i < r.len() implies (#[trigger] r[i] == x
            || s.to_multiset().count(r[i]) > 0) by {
            if i < r.len() - 1 {
                assert(r[i] == r0[i]);
                if r0[i] != x {
                    assert(s0.to_multiset().count(r0[i]) > 0);
                    assert(s0.contains(r0[i]));
                    let k = choose|k: int| 0 <= k < s0.len() && s0[k] == r0[i];
                    assert(s[k] == r0[i]);
                    assert(s.contains(r0[i]));
                }
            } else {
                assert(r[i] == y);
                assert(s.contains(y)) by {
                    assert(s[s.len() - 1] == y);
                }
            }
        }
        // sortedness: pairs within r0 are sorted; every entry of r0 is at
        // least as new as y
        assert forall|i: int, j: int| 0 <= i < j < r.len() implies !lex_lt(
            #[trigger] r[i].created_at@,
            #[trigger] r[j].created_at@,
        ) by {
            if j < r.len() - 1 {
                assert(r[i] == r0[i] && r[j] == r0[j]);
            } else {
                assert(r[j] == y);
                assert(r[i] == r0[i]);
                if r0[i] == x {
                    if lex_lt(x.created_at@, y.created_at@) {
                        lemma_lex_lt_trans(x.created_at@, y.created_at@, x.created_at@);
                        lemma_lex_irrefl(x.created_at@);
                    }
                    assert(!lex_lt(r[i].created_at@, r[j].created_at@));
                } else {
                    assert(s0.to_multiset().count(r0[i]) > 0);
                    assert(s0.contains(r0[i]));
                    let k = choose|k: int| 0 <= k < s0.len() && s0[k] == r0[i];
                    assert(s[k] == r0[i]);
                    assert(!lex_lt(s[k].created_at@, s[s.len() - 1].created_at@));
                    assert(s[s.len() - 1] == y);
                    assert(!lex_lt(r[i].created_at@, r[j].created_at@));
                }
            }
        }
    } else {
        assert(r == s.push(x));
        assert(s.push(x).to_multiset() =~= s.to_multiset().insert(x));
        assert(r.to_multiset() =~= s.to_multiset().insert(x));
        assert forall|i: int| 0 <= i < r.len() implies (#[trigger] r[i] == x
            || s.to_multiset().count(r[i]) > 0) by {
            if i < s.len() {
                assert(r[i] == s[i]);
                assert(s.contains(s[i]));
            } else {
                assert(r[i] == x);
            }
        }
        assert forall|i: int, j: int| 0 <= i < j < r.len() implies !lex_lt(
            #[trigger] r[i].created_at@,
            #[trigger] r[j].created_at@,
        ) by {
            if j < s.len() {
                assert(r[i] == s[i] && r[j] == s[j]);
            } else {
                assert(r[j] == x);
                assert(r[i] == s[i]);
                if s.len() > 0 {
                    assert(!lex_lt(s.last().created_at@, x.created_at@));
                    if i < s.len() - 1 {
                        assert(!lex_lt(s[i].created_at@, s[s.len() - 1].created_at@));
                    }
                    if lex_lt(s[i].created_at@, x.created_at@) {
                        lemma_lex_total(s[i].created_at@, s.last().created_at@);
                        if lex_lt(s.last().created_at@, s[i].created_at@) {
                            lemma_lex_lt_trans(
                                s.last().created_at@,
                                s[i].created_at@,
                                x.created_at@,
                            );
                        } else if s[i].created_at@ == s.last().created_at@ {
                            assert(lex_lt(s.last().created_at@, x.created_at@));
                        }
                    }
                }
            }
        }
    }
}

/// The newest-first sort really sorts: its result is ordered by creation
/// timestamp descending and holds exactly the entries of its input.
pub proof fn lemma_sort_desc_properties(s: Seq<Order>)
    ensures
        spec_sorted_desc(spec_sort_desc(s)),
        spec_sort_desc(s).to_multiset() == s.to_multiset(),
        spec_sort_desc(s).len() == s.len(),
    decreases s.len(),
{
    if s.len() > 0 {
        s.drop_last().to_multiset_ensures();
        lemma_sort_desc_properties(s.drop_last());
        lemma_insert_desc_properties(spec_sort_desc(s.drop_last()), s.last());
        assert(s =~= s.drop_last().push(s.last()));
        assert(s.drop_last().push(s.last()).to_multiset() =~= s.drop_last().to_multiset().insert(
            s.last(),
        ));
        assert(s.to_multiset() == s.drop_last().to_multiset().insert(s.last()));
        assert(spec_sort_desc(s) == spec_insert_desc(spec_sort_desc(s.drop_last()), s.last()));
        assert(spec_sort_desc(s).to_multiset() == spec_sort_desc(s.drop_last()).to_multiset().insert(
            s.last(),
        ));
        assert(spec_sort_desc(s).to_multiset() == s.drop_last().to_multiset().insert(s.last()));
    } else {
        assert(s =~= Seq::<Order>::empty());
    }
}

fn insert_desc(sorted: Vec<Order>, x: Order) -> (r: Vec<Order>)
    ensures
        r@ == spec_insert_desc(sorted@, x),
    decreases sorted@.len(),
{
    let ghost s0 = sorted@;
    let mut sorted = sorted;
    if sorted.len() > 0 {
        let newer = str_lt(
            sorted[sorted.len() - 1].created_at.as_str(),
            x.created_at.as_str(),
        );
        if newer {
            let last = sorted.pop().unwrap();
            proof {
                assert(sorted@ =~= s0.drop_last());
            }
            let mut r = insert_desc(sorted, x);
            r.push(last);
            return r;
        }
    }
    sorted.push(x);
    sorted
}

/// Sorts orders newest-first by creation timestamp, stably: the result is
/// exactly the stable newest-first ordering of the input.
pub fn sort_orders_desc(orders: Vec<Order>) -> (r: Vec<Order>)
    ensures
        r@ == spec_sort_desc(orders@),
{
    let ghost orig = orders@;
    let mut rest = orders;
    let mut out: Vec<Order> = Vec::new();
    let ghost mut done: int = 0;
    proof {
        assert(orig.take(0) =~= Seq::<Order>::empty());
        assert(rest@ =~= orig.skip(0));
    }
    while rest.len() > 0
        invariant
            0 <= done,
            done + rest@.len() == orig.len(),
            rest@ == orig.skip(done),
            out@ == spec_sort_desc(orig.take(done)),
        decreases rest@.len(),
    {
        let x = rest.remove(0);
        proof {
            assert(x == orig.skip(done)[0]);
            assert(orig.skip(done)[0] == orig[done]);
            assert(orig.skip(done).remove(0) =~= orig.skip(done + 1));
            assert(orig.take(done + 1).drop_last() =~= orig.take(done));
            assert(orig.take(done + 1).last() == orig[done]);
        }
        out = insert_desc(out, x);
        proof {
            done = done + 1;
        }
    }
    proof {
        assert(orig.take(orig.len() as int) =~= orig);
    }
    out
}

/// The rows of the active collection that the listing shows: everything
/// when history is requested, otherwise only orders still awaiting
/// payment attention.
pub open spec fn kept_active(s: Seq<Order>, show_completed: bool) -> Seq<Order> {
    s.filter(|o: Order| show_completed || spec_active_filter(o.status@))
}

/// The rows of the completed collection that the listing shows: everything
/// when history is requested, otherwise only orders still awaiting
/// fulfilment attention.
pub open spec fn kept_completed(s: Seq<Order>, show_completed: bool) -> Seq<Order> {
    s.filter(|o: Order| show_completed || spec_completed_filter(o.status@))
}

fn filter_active(orders: Vec<Order>, show_completed: bool) -> (r: Vec<Order>)
    ensures
        r@ == kept_active(orders@, show_completed),
{
    let ghost orig = orders@;
    let mut rest = orders;
    let mut out: Vec<Order> = Vec::new();
    let ghost mut done: int = 0;
    proof {
        reveal(Seq::filter);
        assert(orig.take(0) =~= Seq::<Order>::empty());
        assert(rest@ =~= orig.skip(0));
    }
    while rest.len() > 0
        invariant
            0 <= done,
            done + rest@.len() == orig.len(),
            rest@ == orig.skip(done),
            out@ == kept_active(orig.take(done), show_completed),
        decreases rest@.len(),
    {
        let x = rest.remove(0);
        proof {
            reveal(Seq::filter);
            assert(x == orig.skip(done)[0]);
            assert(orig.skip(done)[0] == orig[done]);
            assert(orig.skip(done).remove(0) =~= orig.skip(done + 1));
            assert(orig.take(done + 1).drop_last() =~= orig.take(done));
            assert(orig.take(done + 1).last() == orig[done]);
        }
        if show_completed || active_filter_matches(x.status.as_str()) {
            out.push(x);
        }
        proof {
            done = done + 1;
        }
    }
    proof {
        assert(orig.take(orig.len() as int) =~= orig);
    }
    out
}

fn filter_completed(orders: Vec<Order>, show_completed: bool) -> (r: Vec<Order>)
    ensures
        r@ == kept_completed(orders@, show_completed),
{
    let ghost orig = orders@;
    let mut rest = orders;
    let mut out: Vec<Order> = Vec::new();
    let ghost mut done: int = 0;
    proof {
        reveal(Seq::filter);
        assert(orig.take(0) =~= Seq::<Order>::empty());
        assert(rest@ =~= orig.skip(0));
    }
    while rest.len() > 0
        invariant
            0 <= done,
            done + rest@.len() == orig.len(),
            rest@ == orig.skip(done),
            out@ == kept_completed(orig.take(done), show_completed),
        decreases rest@.len(),
    {
        let x = rest.remove(0);
        proof {
            reveal(Seq::filter);
            assert(x == orig.skip(done)[0]);
            assert(orig.skip(done)[0] == orig[done]);
            assert(orig.skip(done).remove(0) =~= orig.skip(done + 1));
            assert(orig.take(done + 1).drop_last() =~= orig.take(done));
            assert(orig.take(done + 1).last() == orig[done]);
        }
        if show_completed || completed_filter_matches(x.status.as_str()) {
            out.push(x);
        }
        proof {
            done = done + 1;
        }
    }
    proof {
        assert(orig.take(orig.len() as int) =~= orig);
    }
    out
}

/// The slice of the merged list one page shows: `size` entries starting
/// `skip` entries in, clipped to the list.
pub open spec fn spec_window(s: Seq<Order>, skip: int, size: int) -> Seq<Order> {
    if skip >= s.len() {
        Seq::empty()
    } else if skip + size <= s.len() {
        s.subrange(skip, skip + size)
    } else {
        s.subrange(skip, s.len() as int)
    }
}

fn page_window(sorted: Vec<Order>, skip: usize, size: usize) -> (r: Vec<Order>)
    ensures
        r@ == spec_window(sorted@, skip as int, size as int),
{
    let ghost orig = sorted@;
    let mut v = sorted;
    let mut dropped: usize = 0;
    proof {
        assert(v@ =~= orig.skip(0));
    }
    while dropped < skip && v.len() > 0
        invariant
            0 <= dropped <= skip,
            dropped as int <= orig.len(),
            v@ == orig.skip(dropped as int),
        decreases skip - dropped,
    {
        v.remove(0);
        proof {
            assert(orig.skip(dropped as int).remove(0) =~= orig.skip(dropped + 1));
        }
        dropped += 1;
    }
    if v.len() > size {
        v.truncate(size);
        proof {
            assert(orig.skip(dropped as int).subrange(0, size as int) =~= orig.subrange(
                dropped as int,
                dropped + size,
            ));
        }
    } else {
        proof {
            if dropped < skip {
                assert(v@.len() == 0);
                assert(spec_window(orig, skip as int, size as int) =~= Seq::<Order>::empty());
            } else if skip + size > orig.len() {
                assert(orig.skip(skip as int) =~= orig.subrange(skip as int, orig.len() as int));
            } else {
                assert(orig.skip(skip as int) =~= orig.subrange(skip as int, skip + size));
            }
        }
    }
    v
}

/// The rows the completed collection contributed: none at all when its
/// read failed, which the listing silently treats as an empty collection.
pub open spec fn completed_rows(completed: Result<Vec<Order>, String>) -> Seq<Order> {
    match completed {
        Ok(v) => v@,
        Err(_) => Seq::empty(),
    }
}

/// The merged logical order list one listing request works over.
pub open spec fn spec_merged_orders(
    active_rows: Seq<Order>,
    completed: Seq<Order>,
    show_completed: bool,
) -> Seq<Order> {
    kept_active(active_rows, show_completed) + kept_completed(completed, show_completed)
}

/// Builds the order processing page from what the two collections
/// returned. A fault reading the active collection aborts the listing with
/// an error page; a fault reading the completed collection is swallowed
/// and the listing proceeds with active rows alone. Otherwise each
/// collection is filtered by the show-completed flag, the union is sorted
/// newest first, and the page window is cut from the merged list, with
/// pagination computed over the whole union.
pub fn select_orders_page(
    active: Result<Vec<Order>, String>,
    completed: Result<Vec<Order>, String>,
    show_completed: bool,
    page: u32,
    page_size: u32,
    user_state: UserState,
) -> (t: OrderProcessingTemplate)
    requires
        page >= 1,
        1 <= page_size <= MAX_PAGE_SIZE,
        page * page_size <= u32::MAX,
        (match active {
            Ok(av) => av@.len(),
            Err(_) => 0,
        }) + completed_rows(completed).len() <= u32::MAX,
    ensures
        t.show_completed == show_completed,
        t.user_state == user_state,
        t.success_message@.len() == 0,
        active matches Err(e) ==> {
            &&& t.orders@.len() == 0
            &&& t.error_message@ == "Database error fetching orders: "@ + e@
            &&& t.pagination.current_page == 1
            &&& t.pagination.total_items == 0
            &&& t.pagination.total_pages == 1
            &&& !t.pagination.has_prev
            &&& !t.pagination.has_next
            &&& t.pagination.start_item == 0
            &&& t.pagination.end_item == 0
        },
        active matches Ok(av) ==> ({
            let merged = spec_merged_orders(av@, completed_rows(completed), show_completed);
            let sorted = spec_sort_desc(merged);
            let window = spec_window(sorted, (page - 1) * page_size, page_size as int);
            &&& t.error_message@.len() == 0
            &&& t.orders@.len() == window.len()
            &&& forall|i: int|
                0 <= i < window.len() ==> order_display_spec(window[i], #[trigger] t.orders@[i])
            &&& t.pagination.current_page == page
            &&& t.pagination.total_items == merged.len()
            &&& t.pagination.total_pages == spec_total_pages(
                merged.len() as int,
                page_size as int,
            )
            &&& t.pagination.has_prev == (page > 1)
            &&& t.pagination.has_next == (page < t.pagination.total_pages)
            &&& t.pagination.start_item == spec_start_item(
                page as int,
                page_size as int,
                merged.len() as int,
            )
            &&& t.pagination.end_item == spec_end_item(
                page as int,
                page_size as int,
                merged.len() as int,
            )
        }),
{
    let av = match active {
        Ok(av) => av,
        Err(e) => {
            let pagination = create_pagination_info(1, page_size, 0);
            return OrderProcessingTemplate {
                orders: Vec::new(),
                pagination,
                show_completed,
                success_message: String::new(),
                error_message: String::from_str("Database error fetching orders: ").concat(
                    e.as_str(),
                ),
                user_state,
            };
        },
    };
    let cv = match completed {
        Ok(cv) => cv,
        Err(_) => Vec::new(),
    };
    proof {
        assert(cv@ == completed_rows(completed));
        av@.lemma_filter_len(|o: Order| show_completed || spec_active_filter(o.status@));
        cv@.lemma_filter_len(|o: Order| show_completed || spec_completed_filter(o.status@));
    }
    let ghost av_rows = av@;
    let ghost cv_rows = cv@;
    let mut merged = filter_active(av, show_completed);
    let mut from_completed = filter_completed(cv, show_completed);
    merged.append(&mut from_completed);
    proof {
        assert(merged@ == spec_merged_orders(av_rows, cv_rows, show_completed));
    }
    let total_count: u64 = merged.len() as u64;
    proof {
        assert((page - 1) * page_size <= page * page_size) by (nonlinear_arith)
            requires
                page >= 1,
                page_size >= 1,
        ;
    }
    let skip = page_skip(page, page_size);
    let sorted = sort_orders_desc(merged);
    proof {
        lemma_sort_desc_properties(spec_merged_orders(av_rows, cv_rows, show_completed));
    }
    let windowed = page_window(sorted, skip as usize, page_size as usize);

    let ghost window = spec_window(
        spec_sort_desc(spec_merged_orders(av_rows, cv_rows, show_completed)),
        (page - 1) * page_size,
        page_size as int,
    );
    let mut displays: Vec<OrderDisplay> = Vec::new();
    let mut rest = windowed;
    let ghost mut done: int = 0;
    proof {
        assert(rest@ =~= window.skip(0));
    }
    while rest.len() > 0
        invariant
            0 <= done,
            done + rest@.len() == window.len(),
            rest@ == window.skip(done),
            displays@.len() == done,
            forall|i: int|
                0 <= i < done ==> order_display_spec(window[i], #[trigger] displays@[i]),
        decreases rest@.len(),
    {
        let x = rest.remove(0);
        proof {
            assert(x == window.skip(done)[0]);
            assert(window.skip(done)[0] == window[done]);
            assert(window.skip(done).remove(0) =~= window.skip(done + 1));
        }
        let d = convert_to_display(x);
        displays.push(d);
        proof {
            done = done + 1;
        }
    }

    let pagination = create_pagination_info(page, page_size, total_count);
    OrderProcessingTemplate {
        orders: displays,
        pagination,
        show_completed,
        success_message: String::new(),
        error_message: String::new(),
        user_state,
    }
}

/// Rejections of an order status update that come before any store call:
/// a non-admin caller, an unknown target status, then a malformed order
/// identifier. `None` means the update may be attempted.
pub fn order_update_precheck(is_admin: bool, form: &UpdateOrderStatusForm) -> (r: Option<
    OrderOperationResponse,
>)
    ensures
        !is_admin ==> (r matches Some(resp) && !resp.success && resp.message@ == "Access denied"@
            && resp.order_id is None),
        is_admin && !spec_order_status_allowed(form.status@) ==> (r matches Some(resp)
            && !resp.success && resp.message@ == "Invalid status"@ && resp.order_id is None),
        is_admin && spec_order_status_allowed(form.status@) && !spec_object_id_valid(
            form.order_id@,
        ) ==> (r matches Some(resp) && !resp.success && resp.message@ == "Invalid order ID"@
            && resp.order_id is None),
        is_admin && spec_order_status_allowed(form.status@) && spec_object_id_valid(form.order_id@)
            ==> r is None,
{
    if !is_admin {
        Some(OrderOperationResponse {
            success: false,
            message: String::from_str("Access denied"),
            order_id: None,
        })
    } else if !order_status_allowed(form.status.as_str()) {
        Some(OrderOperationResponse {
            success: false,
            message: String::from_str("Invalid status"),
            order_id: None,
        })
    } else if !object_id_valid(form.order_id.as_str()) {
        Some(OrderOperationResponse {
            success: false,
            message: String::from_str("Invalid order ID"),
            order_id: None,
        })
    } else {
        None
    }
}

/// The JSON outcome of the two-try status update: the active collection is
/// tried first, and only when it matched nothing is the completed
/// collection tried. An update that matched in either collection reports
/// success; one that matched in neither reports the order missing from
/// both; a store fault surfaces its message.
pub fn order_update_response(
    form: &UpdateOrderStatusForm,
    first: UpdateAttempt,
    second: Option<UpdateAttempt>,
) -> (r: OrderOperationResponse)
    requires
        (second is Some) <==> (first is NotMatched),
    ensures
        first is Matched ==> r.success && r.message@ == "Order status updated to "@ + form.status@
            && (r.order_id matches Some(i) && i == form.order_id),
        first matches UpdateAttempt::Fault(e) ==> !r.success && r.message@ == "Database error: "@
            + e@ && r.order_id is None,
        first is NotMatched && (second matches Some(a) && a is Matched) ==> r.success
            && r.message@ == "Order status updated to "@ + form.status@ && (r.order_id matches
        Some(i) && i == form.order_id),
        first is NotMatched && (second matches Some(a) && a is NotMatched) ==> !r.success
            && r.message@ == "Order not found in either collection"@ && r.order_id is None,
        second matches Some(UpdateAttempt::Fault(e)) ==> {
            &&& !r.success
            &&& r.message@ == "Database error updating completed order: "@ + e@
            &&& r.order_id is None
        },
{
    match first {
        UpdateAttempt::Matched => OrderOperationResponse {
            success: true,
            message: String::from_str("Order status updated to ").concat(form.status.as_str()),
            order_id: Some(form.order_id.clone()),
        },
        UpdateAttempt::Fault(e) => OrderOperationResponse {
            success: false,
            message: String::from_str("Database error: ").concat(e.as_str()),
            order_id: None,
        },
        UpdateAttempt::NotMatched => {
            match second {
                Some(UpdateAttempt::Matched) => OrderOperationResponse {
                    success: true,
                    message: String::from_str("Order status updated to ").concat(
                        form.status.as_str(),
                    ),
                    order_id: Some(form.order_id.clone()),
                },
                Some(UpdateAttempt::NotMatched) => OrderOperationResponse {
                    success: false,
                    message: String::from_str("Order not found in either collection"),
                    order_id: None,
                },
                Some(UpdateAttempt::Fault(e)) => OrderOperationResponse {
                    success: false,
                    message: String::from_str("Database error updating completed order: ").concat(
                        e.as_str(),
                    ),
                    order_id: None,
                },
                None => OrderOperationResponse {
                    success: false,
                    message: String::from_str("Order not found in either collection"),
                    order_id: None,
                },
            }
        },
    }
}


} // verus!
