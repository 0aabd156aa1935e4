//! The product catalogue.
use vstd::prelude::*;
use crate::ids::{parse_uuid, uuid_from_text};
use crate::json::{or_empty_array, sent_or, JsonField};
use crate::models::{
    Claims, CreateProductRequest, DbError, Notice, Rejection, Reply, STATUS_NOT_FOUND,
    STATUS_UNAUTHORIZED,
};
use crate::handlers::auth::owned_claims;
use crate::models::UpdateProductRequest;
use crate::replies::{
    answer_created, answer_found, answer_loaded, answer_removed, created_reply, found_reply,
    loaded_reply, refuse, removed_reply, Action, Step,
};

verus! {

/// The outcome of reading the author of a new record from the guard's claims:
/// its account id, or 401 when there are no claims or their subject is no id.
pub open spec fn author_read(r: Result<u128, Rejection>, claims: Option<Claims>) -> bool {
    match claims {
        Some(c) if uuid_from_text(c.sub@) is Some => r == Ok::<u128, Rejection>(
            uuid_from_text(c.sub@)->0,
        ),
        _ => r matches Err(e) && e.is(STATUS_UNAUTHORIZED, "Unauthorized"@),
    }
}

/// Why creating a product or gallery item refuses the caller, if it does.
pub open spec fn author_refusal(claims: Option<Claims>) -> Option<(u16, Seq<char>)> {
    match claims {
        Some(c) if uuid_from_text(c.sub@) is Some => None,
        _ => Some((STATUS_UNAUTHORIZED, "Unauthorized"@)),
    }
}

/// The account id the claims name (where they name one).
pub open spec fn claimed_id(claims: Option<&Claims>) -> u128 {
    uuid_from_text(claims->0.sub@)->0
}

/// The account id of the caller creating a product or gallery item.
pub fn author_id(claims: Option<&Claims>) -> (r: Result<u128, Rejection>)
    ensures
        author_read(
            r,
            match claims {
                Some(c) => Some(*c),
                None => None,
            },
        ),
{
    let id = match claims {
        Some(c) => parse_uuid(c.sub.as_str()),
        None => None,
    };
    match id {
        Some(id) => Ok(id),
        None => Err(Rejection::new(STATUS_UNAUTHORIZED, "Unauthorized")),
    }
}

/// The values a new product is stored with.
pub struct NewProduct {
    pub name: String,
    pub slug: String,
    pub description: String,
    pub short_description: Option<String>,
    pub category: String,
    pub image_url: Option<String>,
    pub is_published: bool,
    pub sort_order: i32,
    pub features: JsonField,
    pub created_by: u128,
}

/// `r` is the product `body` asks for as stored by `author`: unpublished,
/// sort order 0 and features `[]` unless given, the other fields as sent.
pub open spec fn product_prepared(r: NewProduct, body: CreateProductRequest, author: u128) -> bool {
    &&& r.name == body.name
    &&& r.slug == body.slug
    &&& r.description == body.description
    &&& r.short_description == body.short_description
    &&& r.category == body.category
    &&& r.image_url == body.image_url
    &&& r.is_published == match body.is_published {
        Some(b) => b,
        None => false,
    }
    &&& r.sort_order == match body.sort_order {
        Some(s) => s,
        None => 0i32,
    }
    &&& r.features == sent_or(body.features, JsonField::EmptyArray)
    &&& r.created_by == author
}

/// Prepares a new product: unpublished, sort order 0 and features `[]`
/// unless given.
pub fn new_product(body: CreateProductRequest, author: u128) -> (r: NewProduct)
    ensures
        product_prepared(r, body, author),
        r.name == body.name,
        r.slug == body.slug,
        r.description == body.description,
        r.short_description == body.short_description,
        r.category == body.category,
        r.image_url == body.image_url,
        r.created_by == author,
        body.is_published is None ==> !r.is_published,
        forall|b: bool| body.is_published == Some(b) ==> r.is_published == b,
        body.sort_order is None ==> r.sort_order == 0,
        forall|s: i32| body.sort_order == Some(s) ==> r.sort_order == s,
        body.features is None ==> r.features == JsonField::EmptyArray,
        forall|f: serde_json::Value| body.features == Some(f) ==> r.features == JsonField::Sent(f),
{
    let is_published = match body.is_published {
        Some(b) => b,
        None => false,
    };
    let sort_order = match body.sort_order {
        Some(s) => s,
        None => 0,
    };
    let features = or_empty_array(body.features);
    NewProduct {
        name: body.name,
        slug: body.slug,
        description: body.description,
        short_description: body.short_description,
        category: body.category,
        image_url: body.image_url,
        is_published,
        sort_order,
        features,
        created_by: author,
    }
}

/// Answer to the public listing of published products.
pub fn list_products_public<T>(res: Result<T, DbError>) -> (r: Reply<T>)
    ensures
        loaded_reply(r, res, None, "Failed to fetch products"@),
{
    answer_loaded(res, None, "Failed to fetch products")
}

/// Answer to reading a published product by its slug.
pub fn get_product_public<T>(found: Result<Option<T>, DbError>) -> (r: Reply<T>)
    ensures
        found_reply(r, found, None, "Product not found"@, "Failed to fetch product"@),
{
    answer_found(found, None, "Product not found", "Failed to fetch product")
}

/// Answer to the admin listing of all products.
pub fn list_products<T>(res: Result<T, DbError>) -> (r: Reply<T>)
    ensures
        loaded_reply(r, res, None, "Failed to fetch products"@),
{
    answer_loaded(res, None, "Failed to fetch products")
}

/// Answer to reading a product by its id.
pub fn get_product<T>(found: Result<Option<T>, DbError>) -> (r: Reply<T>)
    ensures
        found_reply(r, found, None, "Product not found"@, "Failed to fetch product"@),
{
    answer_found(found, None, "Product not found", "Failed to fetch product")
}

/// The product-creation endpoint: a caller whose claims name no account is
/// refused before anything is stored; otherwise the prepared product, with
/// the caller as author, is stored and answered with 201, a taken slug being
/// a conflict.
pub open spec fn creates_product<T>(
    r: Action<NewProduct, T>,
    step: Step<(Option<&Claims>, CreateProductRequest), Result<T, DbError>>,
) -> bool {
    match step {
        Step::Begin((claims, body)) => match author_refusal(owned_claims(claims)) {
            Some(x) => r.refuses(x),
            None => r matches Action::Proceed(p) && product_prepared(p, body, claimed_id(claims)),
        },
        Step::Done(res) => r matches Action::Answer(reply) && created_reply(
            reply,
            res,
            "Product created successfully"@,
            Some("Product slug already exists"@),
            "Failed to create product"@,
        ),
    }
}

/// Creating a product.
pub fn create_product<T>(step: Step<(Option<&Claims>, CreateProductRequest), Result<T, DbError>>) -> (r:
    Action<NewProduct, T>)
    ensures
        creates_product(r, step),
{
    match step {
        Step::Begin((claims, body)) => match author_id(claims) {
            Ok(author) => Action::Proceed(new_product(body, author)),
            Err(rej) => refuse(rej),
        },
        Step::Done(res) => Action::Answer(
            answer_created(res, "Product created successfully", Some("Product slug already exists"), "Failed to create product"),
        ),
    }
}

/// Whether a product change goes ahead after looking the product up: only a
/// lookup that found nothing stops it (a failed lookup does not).
pub fn product_exists(existing: Result<Option<u128>, DbError>) -> (r: Result<(), Rejection>)
    ensures
        match existing {
            Ok(None) => r matches Err(e) && e.is(STATUS_NOT_FOUND, "Product not found"@),
            _ => r is Ok,
        },
{
    match existing {
        Ok(None) => Err(Rejection::new(STATUS_NOT_FOUND, "Product not found")),
        _ => Ok(()),
    }
}

/// The product-changing endpoint: the product is first looked up; only a
/// lookup that found nothing stops the change (a failed lookup does not);
/// then the changes are stored as sent and answered.
pub open spec fn updates_product<T>(
    r: Action<UpdateProductRequest, T>,
    step: Step<(Result<Option<u128>, DbError>, UpdateProductRequest), Result<T, DbError>>,
) -> bool {
    match step {
        Step::Begin((existing, body)) => match existing {
            Ok(None) => r.refuses((STATUS_NOT_FOUND, "Product not found"@)),
            _ => r == Action::<UpdateProductRequest, T>::Proceed(body),
        },
        Step::Done(res) => r matches Action::Answer(reply) && loaded_reply(
            reply,
            res,
            Some("Product updated successfully"@),
            "Failed to update product"@,
        ),
    }
}

/// Changing a product.
pub fn update_product<T>(step: Step<(Result<Option<u128>, DbError>, UpdateProductRequest), Result<T, DbError>>) -> (r:
    Action<UpdateProductRequest, T>)
    ensures
        updates_product(r, step),
{
    match step {
        Step::Begin((existing, body)) => match product_exists(existing) {
            Err(rej) => refuse(rej),
            Ok(()) => Action::Proceed(body),
        },
        Step::Done(res) => Action::Answer(
            answer_loaded(res, Some("Product updated successfully"), "Failed to update product"),
        ),
    }
}

/// Answer to removing a product.
pub fn delete_product(res: Result<Option<u128>, DbError>) -> (r: Reply<Notice>)
    ensures
        removed_reply(r, res, "Product deleted"@, "Product not found"@, "Failed to delete product"@),
{
    answer_removed(res, "Product deleted", "Product not found", "Failed to delete product")
}

/// A new product is stored as it was sent: a creation that goes ahead
/// stores the name, slug, descriptions, category and picture exactly as the
/// request carried them, with the caller as author; only publication (off),
/// sort order (0) and features (`[]`) are filled in, and only when absent.
pub proof fn created_products_keep_what_was_sent<T>(
    r: Action<NewProduct, T>,
    claims: Option<&Claims>,
    body: CreateProductRequest,
)
    requires
        creates_product(r, Step::Begin((claims, body))),
        r is Proceed,
    ensures
        r->Proceed_0.name == body.name,
        r->Proceed_0.slug == body.slug,
        r->Proceed_0.description == body.description,
        r->Proceed_0.short_description == body.short_description,
        r->Proceed_0.category == body.category,
        r->Proceed_0.image_url == body.image_url,
        claims matches Some(c) && uuid_from_text(c.sub@) == Some(r->Proceed_0.created_by),
        body.is_published is None ==> !r->Proceed_0.is_published,
        forall|b: bool| body.is_published == Some(b) ==> r->Proceed_0.is_published == b,
        body.sort_order is None ==> r->Proceed_0.sort_order == 0,
        forall|s: i32| body.sort_order == Some(s) ==> r->Proceed_0.sort_order == s,
        body.features is None ==> r->Proceed_0.features == JsonField::EmptyArray,
        forall|f: serde_json::Value| body.features == Some(f) ==> r->Proceed_0.features == JsonField::Sent(f),
{
}

} // verus!
