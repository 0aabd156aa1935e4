//! The picture gallery.
use vstd::prelude::*;
use crate::handlers::auth::owned_claims;
use crate::ids::uuid_from_text;
use crate::handlers::products::{author_id, author_refusal, claimed_id};
use crate::models::{Claims, CreateGalleryItemRequest, DbError, Notice, Reply};
use crate::replies::{
    answer_created, answer_found, answer_loaded, answer_removed, created_reply, found_reply,
    loaded_reply, refuse, removed_reply, Action, Step,
};

verus! {

/// The values a new gallery item is stored with.
pub struct NewGalleryItem {
    pub title: String,
    pub description: Option<String>,
    pub image_url: String,
    pub category: Option<String>,
    pub sort_order: i32,
    pub is_published: bool,
    pub created_by: u128,
}

/// `r` is the gallery item `body` asks for as stored by `author`: published
/// and sort order 0 unless given, the other fields as sent.
pub open spec fn gallery_item_prepared(r: NewGalleryItem, body: CreateGalleryItemRequest, author: u128) -> bool {
    &&& r.title == body.title
    &&& r.description == body.description
    &&& r.image_url == body.image_url
    &&& r.category == body.category
    &&& r.sort_order == match body.sort_order {
        Some(s) => s,
        None => 0i32,
    }
    &&& r.is_published == match body.is_published {
        Some(b) => b,
        None => true,
    }
    &&& r.created_by == author
}

/// Prepares a new gallery item: published and sort order 0 unless given.
pub fn new_gallery_item(body: CreateGalleryItemRequest, author: u128) -> (r: NewGalleryItem)
    ensures
        gallery_item_prepared(r, body, author),
        r.title == body.title,
        r.description == body.description,
        r.image_url == body.image_url,
        r.category == body.category,
        r.created_by == author,
        body.is_published is None ==> r.is_published,
        forall|b: bool| body.is_published == Some(b) ==> r.is_published == b,
        body.sort_order is None ==> r.sort_order == 0,
        forall|s: i32| body.sort_order == Some(s) ==> r.sort_order == s,
{
    let sort_order = match body.sort_order {
        Some(s) => s,
        None => 0,
    };
    let is_published = match body.is_published {
        Some(b) => b,
        None => true,
    };
    NewGalleryItem {
        title: body.title,
        description: body.description,
        image_url: body.image_url,
        category: body.category,
        sort_order,
        is_published,
        created_by: author,
    }
}

/// Answer to the public listing of published gallery items.
pub fn list_gallery_public<T>(res: Result<T, DbError>) -> (r: Reply<T>)
    ensures
        loaded_reply(r, res, None, "Failed to fetch gallery"@),
{
    answer_loaded(res, None, "Failed to fetch gallery")
}

/// Answer to the admin listing of all gallery items.
pub fn list_gallery<T>(res: Result<T, DbError>) -> (r: Reply<T>)
    ensures
        loaded_reply(r, res, None, "Failed to fetch gallery"@),
{
    answer_loaded(res, None, "Failed to fetch gallery")
}

/// The gallery-item creation endpoint: a caller whose claims name no
/// account is refused before anything is stored; otherwise the prepared item,
/// with the caller as author, is stored and answered with 201.
pub open spec fn creates_gallery_item<T>(
    r: Action<NewGalleryItem, T>,
    step: Step<(Option<&Claims>, CreateGalleryItemRequest), Result<T, DbError>>,
) -> bool {
    match step {
        Step::Begin((claims, body)) => match author_refusal(owned_claims(claims)) {
            Some(x) => r.refuses(x),
            None => r matches Action::Proceed(g) && gallery_item_prepared(g, body, claimed_id(claims)),
        },
        Step::Done(res) => r matches Action::Answer(reply) && created_reply(
            reply,
            res,
            "Gallery item created"@,
            None,
            "Failed to create gallery item"@,
        ),
    }
}

/// Creating a gallery item.
pub fn create_gallery_item<T>(step: Step<(Option<&Claims>, CreateGalleryItemRequest), Result<T, DbError>>) -> (r:
    Action<NewGalleryItem, T>)
    ensures
        creates_gallery_item(r, step),
{
    match step {
        Step::Begin((claims, body)) => match author_id(claims) {
            Ok(author) => Action::Proceed(new_gallery_item(body, author)),
            Err(rej) => refuse(rej),
        },
        Step::Done(res) => Action::Answer(
            answer_created(res, "Gallery item created", None, "Failed to create gallery item"),
        ),
    }
}

/// Answer to changing a gallery item.
pub fn update_gallery_item<T>(found: Result<Option<T>, DbError>) -> (r: Reply<T>)
    ensures
        found_reply(
            r,
            found,
            Some("Gallery item updated"@),
            "Gallery item not found"@,
            "Failed to update gallery item"@,
        ),
{
    answer_found(found, Some("Gallery item updated"), "Gallery item not found", "Failed to update gallery item")
}

/// Answer to removing a gallery item.
pub fn delete_gallery_item(res: Result<Option<u128>, DbError>) -> (r: Reply<Notice>)
    ensures
        removed_reply(
            r,
            res,
            "Gallery item deleted"@,
            "Gallery item not found"@,
            "Failed to delete gallery item"@,
        ),
{
    answer_removed(res, "Gallery item deleted", "Gallery item not found", "Failed to delete gallery item")
}

/// A new gallery item is stored as it was sent: a creation that goes ahead
/// stores the title, description, picture and category exactly as the
/// request carried them, with the caller as author; only the sort order (0)
/// and publication (on) are filled in, and only when absent.
pub proof fn created_gallery_items_keep_what_was_sent<T>(
    r: Action<NewGalleryItem, T>,
    claims: Option<&Claims>,
    body: CreateGalleryItemRequest,
)
    requires
        creates_gallery_item(r, Step::Begin((claims, body))),
        r is Proceed,
    ensures
        r->Proceed_0.title == body.title,
        r->Proceed_0.description == body.description,
        r->Proceed_0.image_url == body.image_url,
        r->Proceed_0.category == body.category,
        claims matches Some(c) && uuid_from_text(c.sub@) == Some(r->Proceed_0.created_by),
        body.is_published is None ==> r->Proceed_0.is_published,
        forall|b: bool| body.is_published == Some(b) ==> r->Proceed_0.is_published == b,
        body.sort_order is None ==> r->Proceed_0.sort_order == 0,
        forall|s: i32| body.sort_order == Some(s) ==> r->Proceed_0.sort_order == s,
{
}

} // verus!
