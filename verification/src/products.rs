//! The product manager: listing projection, and the decisions of the
//! update and delete operations.
//!
//! Store reads and writes happen outside; these functions turn what came
//! back into the exact page or JSON response the routes serve.

use vstd::prelude::*;
use vstd::string::StringExecFns;
use crate::models::{Product, ProductDisplay, ProductManagementTemplate, ProductOperationResponse,
    UserState};
use crate::store::{DeleteAttempt, UpdateAttempt, object_id_valid, spec_object_id_valid};
use crate::text::{has_prefix, str_has_prefix};

verus! {

/// An image reference rooted at the site: already-rooted paths pass
/// through, anything else gains a leading slash.
pub open spec fn spec_normalize_image_url(s: Seq<char>) -> Seq<char> {
    if s.len() >= 1 && s[0] == '/' {
        s
    } else {
        seq!['/'] + s
    }
}

/// Roots an image reference at the site.
pub fn normalize_image_url(url: &str) -> (r: String)
    ensures
        r@ == spec_normalize_image_url(url@),
{
    let rooted = str_has_prefix(url, "/");
    proof {
        reveal_strlit("/");
        assert("/"@ =~= seq!['/']);
        if url@.len() >= 1 {
            assert(url@.subrange(0, 1)[0] == url@[0]);
            assert(has_prefix(url@, "/"@) <==> url@[0] == '/') by {
                if url@[0] == '/' {
                    assert(url@.subrange(0, 1) =~= "/"@);
                }
            }
        }
    }
    if rooted {
        url.to_owned()
    } else {
        let r = String::from_str("/").concat(url);
        proof {
            assert(r@ =~= spec_normalize_image_url(url@));
        }
        r
    }
}

/// How a stored product appears on the admin pages; `rooted_image` says
/// whether the image reference was normalized (the listing and edit pages
/// do, the error re-render does not).
pub open spec fn product_display_spec(p: Product, d: ProductDisplay, rooted_image: bool) -> bool {
    &&& d.id == p.id
    &&& d.name == p.name
    &&& d.image_url@ == if rooted_image {
        spec_normalize_image_url(p.image_url@)
    } else {
        p.image_url@
    }
    &&& d.price == p.price
    &&& d.quantity == p.quantity
    &&& d.description == p.description
    &&& d.adoptable == p.adoptable
}

/// Projects a stored product for rendering; pure, with no side effects.
pub fn product_to_display(p: Product, root_image: bool) -> (d: ProductDisplay)
    ensures
        product_display_spec(p, d, root_image),
{
    let image_url = if root_image {
        normalize_image_url(p.image_url.as_str())
    } else {
        p.image_url
    };
    ProductDisplay {
        id: p.id,
        name: p.name,
        image_url,
        price: p.price,
        quantity: p.quantity,
        description: p.description,
        adoptable: p.adoptable,
    }
}

/// Projecting the same stored product twice yields display models that
/// agree in every field: the projection is a pure function of the entity.
pub proof fn lemma_product_projection_deterministic(
    p: Product,
    d1: ProductDisplay,
    d2: ProductDisplay,
    rooted: bool,
)
    requires
        product_display_spec(p, d1, rooted),
        product_display_spec(p, d2, rooted),
    ensures
        d1.id == d2.id,
        d1.name == d2.name,
        d1.image_url@ == d2.image_url@,
        d1.price == d2.price,
        d1.quantity == d2.quantity,
        d1.description == d2.description,
        d1.adoptable == d2.adoptable,
{
}

/// Builds the product management page from what the store returned: every
/// fetched product projected in order, or an empty listing carrying the
/// fault message when the read failed.
pub fn products_listing(fetched: Result<Vec<Product>, String>, user_state: UserState) -> (t:
    ProductManagementTemplate)
    ensures
        t.user_state == user_state,
        t.success_message@.len() == 0,
        fetched matches Ok(ps) ==> {
            &&& t.error_message@.len() == 0
            &&& t.products@.len() == ps@.len()
            &&& forall|i: int|
                0 <= i < ps@.len() ==> product_display_spec(ps@[i], #[trigger] t.products@[i], true)
        },
        fetched matches Err(e) ==> t.products@.len() == 0 && t.error_message@ == "Database error: "@
            + e@,
{
    match fetched {
        Ok(ps) => {
            let ghost orig = ps@;
            let mut rest = ps;
            let mut out: Vec<ProductDisplay> = Vec::new();
            proof {
                assert(rest@ =~= orig.skip(0));
            }
            while rest.len() > 0
                invariant
                    out@.len() + rest@.len() == orig.len(),
                    rest@ == orig.skip(out@.len() as int),
                    forall|i: int|
                        0 <= i < out@.len() ==> product_display_spec(
                            orig[i],
                            #[trigger] out@[i],
                            true,
                        ),
                decreases rest@.len(),
            {
                let ghost k = out@.len() as int;
                let p = rest.remove(0);
                proof {
                    assert(p == orig.skip(k)[0]);
                    assert(orig.skip(k)[0] == orig[k]);
                    assert(orig.skip(k).remove(0) =~= orig.skip(k + 1));
                }
                let d = product_to_display(p, true);
                out.push(d);
            }
            ProductManagementTemplate {
                products: out,
                user_state,
                success_message: String::new(),
                error_message: String::new(),
            }
        },
        Err(e) => ProductManagementTemplate {
            products: Vec::new(),
            user_state,
            success_message: String::new(),
            error_message: String::from_str("Database error: ").concat(e.as_str()),
        },
    }
}

/// What the product edit routes do with a request before any store call:
/// the page gate first, then the identifier check.
#[derive(Debug, Clone)]
pub enum ProductEditCheck {
    RedirectToLogin,
    Forbidden,
    BadId,
    Proceed,
}

/// Applies the page gate and the identifier check for the edit routes:
/// anonymous visitors go to the login page, authenticated non-admins are
/// refused, a malformed product identifier is rejected, and otherwise the
/// store may be consulted.
pub fn product_edit_precheck(state: &UserState, id: &str) -> (r: ProductEditCheck)
    ensures
        !state.is_authenticated ==> r is RedirectToLogin,
        state.is_authenticated && !state.is_admin ==> r is Forbidden,
        state.is_authenticated && state.is_admin && !spec_object_id_valid(id@) ==> r is BadId,
        state.is_authenticated && state.is_admin && spec_object_id_valid(id@) ==> r is Proceed,
{
    if !state.is_authenticated {
        ProductEditCheck::RedirectToLogin
    } else if !state.is_admin {
        ProductEditCheck::Forbidden
    } else if !object_id_valid(id) {
        ProductEditCheck::BadId
    } else {
        ProductEditCheck::Proceed
    }
}

/// Rejections of a delete request that come before any store call: a
/// non-admin caller, then a malformed product identifier. `None` means the
/// delete may be attempted.
pub fn product_delete_precheck(is_admin: bool, id: &str) -> (r: Option<ProductOperationResponse>)
    ensures
        !is_admin ==> (r matches Some(resp) && !resp.success && resp.message@ == "Access denied"@
            && resp.product_id is None),
        is_admin && !spec_object_id_valid(id@) ==> (r matches Some(resp) && !resp.success
            && resp.message@ == "Invalid product ID"@ && resp.product_id is None),
        is_admin && spec_object_id_valid(id@) ==> r is None,
{
    if !is_admin {
        Some(ProductOperationResponse {
            success: false,
            message: String::from_str("Access denied"),
            product_id: None,
        })
    } else if !object_id_valid(id) {
        Some(ProductOperationResponse {
            success: false,
            message: String::from_str("Invalid product ID"),
            product_id: None,
        })
    } else {
        None
    }
}

/// The JSON outcome of a delete attempt: success only when a document was
/// deleted, a distinct not-found message when nothing matched, and the
/// store's message on a fault. Deleting a missing product reports failure,
/// never an error.
pub fn product_delete_response(id: String, attempt: DeleteAttempt) -> (r: ProductOperationResponse)
    ensures
        attempt is Deleted ==> r.success && r.message@ == "Product deleted successfully"@
            && (r.product_id matches Some(i) && i == id),
        attempt is Missing ==> !r.success && r.message@ == "Product not found"@ && r.product_id
            is None,
        attempt matches DeleteAttempt::Fault(e) ==> !r.success && r.message@ == "Database error: "@
            + e@ && r.product_id is None,
{
    match attempt {
        DeleteAttempt::Deleted => ProductOperationResponse {
            success: true,
            message: String::from_str("Product deleted successfully"),
            product_id: Some(id),
        },
        DeleteAttempt::Missing => ProductOperationResponse {
            success: false,
            message: String::from_str("Product not found"),
            product_id: None,
        },
        DeleteAttempt::Fault(e) => ProductOperationResponse {
            success: false,
            message: String::from_str("Database error: ").concat(e.as_str()),
            product_id: None,
        },
    }
}

/// What the edit route does after its write attempt: a matched update
/// redirects back to the listing, no match is reported as not found, and a
/// fault re-renders the edit form with the store's message.
#[derive(Debug, Clone)]
pub enum ProductUpdateAction {
    Redirect(String),
    NotFound,
    EditError(String),
}

/// Chooses the edit route's follow-up to its update attempt.
pub fn product_update_action(attempt: UpdateAttempt) -> (r: ProductUpdateAction)
    ensures
        attempt is Matched ==> (r matches ProductUpdateAction::Redirect(u) && u@
            == "/products?success=updated"@),
        attempt is NotMatched ==> r is NotFound,
        attempt matches UpdateAttempt::Fault(e) ==> (r matches ProductUpdateAction::EditError(m)
            && m@ == "Database error: "@ + e@),
{
    match attempt {
        UpdateAttempt::Matched => ProductUpdateAction::Redirect(
            String::from_str("/products?success=updated"),
        ),
        UpdateAttempt::NotMatched => ProductUpdateAction::NotFound,
        UpdateAttempt::Fault(e) => ProductUpdateAction::EditError(
            String::from_str("Database error: ").concat(e.as_str()),
        ),
    }
}

} // verus!
