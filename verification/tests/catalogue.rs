use site_backend::handlers::board_members;
use site_backend::handlers::content::{
    editor_id, get_about, get_contact_info, get_content, list_content, update_content,
};
use site_backend::handlers::gallery::{
    create_gallery_item, delete_gallery_item, list_gallery, list_gallery_public, new_gallery_item,
    update_gallery_item,
};
use site_backend::handlers::hero::{get_hero, update_hero};
use site_backend::handlers::products::{
    author_id, create_product, delete_product, get_product, get_product_public, list_products,
    list_products_public, new_product, product_exists, update_product,
};
use site_backend::handlers::stats::{dashboard_stats, get_stats};
use site_backend::models::{
    Claims, CreateBoardMemberRequest, CreateGalleryItemRequest, CreateProductRequest,
    DashboardStats, DbError, Reply, UpdateBoardMemberRequest, UpdateContentRequest,
    UpdateProductRequest,
};
use site_backend::json::JsonField;
use site_backend::replies::{Action, Step};

fn answer<P, T>(a: Action<P, T>) -> Reply<T> {
    match a {
        Action::Answer(r) => r,
        Action::Proceed(_) => panic!("expected an answer"),
    }
}

fn proceed<P, T>(a: Action<P, T>) -> P {
    match a {
        Action::Proceed(p) => p,
        Action::Answer(r) => panic!("expected to proceed, got status {}", r.status),
    }
}

fn product_body() -> CreateProductRequest {
    CreateProductRequest {
        name: "Pump".to_string(),
        slug: "pump".to_string(),
        description: "A pump".to_string(),
        short_description: None,
        category: "tools".to_string(),
        image_url: None,
        is_published: None,
        sort_order: None,
        features: None,
    }
}

fn no_product_changes() -> UpdateProductRequest {
    UpdateProductRequest {
        name: None,
        slug: Some("new-slug".to_string()),
        description: None,
        short_description: None,
        category: None,
        image_url: None,
        is_published: None,
        sort_order: None,
        features: None,
    }
}

fn gallery_body() -> CreateGalleryItemRequest {
    CreateGalleryItemRequest {
        title: "T".to_string(),
        description: None,
        image_url: "u".to_string(),
        category: None,
        sort_order: None,
        is_published: None,
    }
}

fn board_body() -> CreateBoardMemberRequest {
    CreateBoardMemberRequest {
        full_name: "F".to_string(),
        title: "Chair".to_string(),
        bio: None,
        image_url: None,
        sort_order: None,
        is_published: None,
    }
}

fn board_changes() -> UpdateBoardMemberRequest {
    UpdateBoardMemberRequest {
        full_name: Some("G".to_string()),
        title: None,
        bio: None,
        image_url: None,
        sort_order: Some(4),
        is_published: None,
    }
}

const ID_TEXT: &str = "6ba7b810-9dad-11d1-80b4-00c04fd430c8";
const ID: u128 = 0x6ba7b810_9dad_11d1_80b4_00c04fd430c8;

fn claims(sub: &str, role: &str) -> Claims {
    Claims { sub: sub.to_string(), role: role.to_string(), exp: 2, iat: 1 }
}

fn db_error(text: &str) -> DbError {
    DbError { message: text.to_string() }
}

#[test]
fn author_id_needs_claims_with_an_id() {
    assert_eq!(author_id(Some(&claims(ID_TEXT, "viewer"))).unwrap(), ID);
    let r = author_id(Some(&claims("nope", "admin"))).unwrap_err();
    assert_eq!((r.status, r.error.error.as_str()), (401, "Unauthorized"));
    assert_eq!(author_id(None).unwrap_err().status, 401);
}

#[test]
fn new_product_defaults() {
    let body = CreateProductRequest {
        name: "Pump".to_string(),
        slug: "pump".to_string(),
        description: "A pump".to_string(),
        short_description: None,
        category: "tools".to_string(),
        image_url: None,
        is_published: None,
        sort_order: None,
        features: None,
    };
    let p = new_product(body, ID);
    assert!(!p.is_published);
    assert_eq!(p.sort_order, 0);
    assert!(matches!(p.features, JsonField::EmptyArray));
    assert_eq!(p.created_by, ID);
    assert_eq!(p.slug, "pump");
    let body = CreateProductRequest {
        name: "Pump".to_string(),
        slug: "pump".to_string(),
        description: "A pump".to_string(),
        short_description: Some("s".to_string()),
        category: "tools".to_string(),
        image_url: Some("i".to_string()),
        is_published: Some(true),
        sort_order: Some(-3),
        features: Some(serde_json::Value::Array(vec![serde_json::Value::from("fast")])),
    };
    let p = new_product(body, 1);
    assert!(p.is_published);
    assert_eq!(p.sort_order, -3);
    assert!(matches!(p.features, JsonField::Sent(v) if v == serde_json::Value::Array(vec![serde_json::Value::from("fast")])));
}

#[test]
fn product_replies() {
    assert_eq!(list_products_public(Ok(vec![1, 2])).body.unwrap().data.unwrap(), vec![1, 2]);
    let r = list_products::<Vec<u8>>(Err(db_error("x")));
    assert_eq!((r.status, r.body.unwrap_err().error.as_str()), (500, "Failed to fetch products"));
    let r = get_product_public::<u8>(Ok(None));
    assert_eq!((r.status, r.body.unwrap_err().error.as_str()), (404, "Product not found"));
    let r = get_product(Ok(Some(5u8)));
    assert_eq!(r.body.unwrap().data, Some(5));
    let r = get_product::<u8>(Err(db_error("x")));
    assert_eq!(r.body.unwrap_err().error, "Failed to fetch product");
    let r = answer(create_product::<u8>(Step::Begin((None, product_body()))));
    assert_eq!((r.status, r.body.unwrap_err().error.as_str()), (401, "Unauthorized"));
    let c = claims("bad", "admin");
    let r = answer(create_product::<u8>(Step::Begin((Some(&c), product_body()))));
    assert_eq!(r.status, 401);
    let c = claims(ID_TEXT, "viewer");
    let p = proceed(create_product::<u8>(Step::Begin((Some(&c), product_body()))));
    assert_eq!((p.created_by, p.is_published, p.sort_order), (ID, false, 0));
    let r = answer(create_product(Step::Done(Ok(1u8))));
    assert_eq!((r.status, r.body.unwrap().message.as_deref()), (201, Some("Product created successfully")));
    let r = answer(create_product::<u8>(Step::Done(Err(db_error("duplicate key value violates unique constraint")))));
    assert_eq!((r.status, r.body.unwrap_err().error.as_str()), (409, "Product slug already exists"));
    let r = answer(create_product::<u8>(Step::Done(Err(db_error("timeout")))));
    assert_eq!((r.status, r.body.unwrap_err().error.as_str()), (500, "Failed to create product"));
    let r = product_exists(Ok(None)).unwrap_err();
    assert_eq!((r.status, r.error.error.as_str()), (404, "Product not found"));
    assert!(product_exists(Ok(Some(1))).is_ok());
    assert!(product_exists(Err(db_error("x"))).is_ok());
    let r = answer(update_product::<u8>(Step::Begin((Ok(None), no_product_changes()))));
    assert_eq!((r.status, r.body.unwrap_err().error.as_str()), (404, "Product not found"));
    let c = proceed(update_product::<u8>(Step::Begin((Ok(Some(1)), no_product_changes()))));
    assert_eq!(c.slug.as_deref(), Some("new-slug"));
    proceed(update_product::<u8>(Step::Begin((Err(db_error("x")), no_product_changes()))));
    let r = answer(update_product(Step::Done(Ok(2u8))));
    assert_eq!((r.status, r.body.unwrap().message.as_deref()), (200, Some("Product updated successfully")));
    let r = answer(update_product::<u8>(Step::Done(Err(db_error("x")))));
    assert_eq!(r.body.unwrap_err().error, "Failed to update product");
    let r = delete_product(Ok(Some(1)));
    assert_eq!(r.body.unwrap().data.unwrap().message, "Product deleted");
    let r = delete_product(Ok(None));
    assert_eq!((r.status, r.body.unwrap_err().error.as_str()), (404, "Product not found"));
}

#[test]
fn gallery_defaults_and_replies() {
    let body = CreateGalleryItemRequest {
        title: "T".to_string(),
        description: None,
        image_url: "u".to_string(),
        category: None,
        sort_order: None,
        is_published: None,
    };
    let g = new_gallery_item(body, ID);
    assert!(g.is_published);
    assert_eq!(g.sort_order, 0);
    assert_eq!(g.created_by, ID);
    let r = list_gallery_public::<u8>(Err(db_error("x")));
    assert_eq!(r.body.unwrap_err().error, "Failed to fetch gallery");
    assert_eq!(list_gallery(Ok(3u8)).status, 200);
    let r = answer(create_gallery_item::<u8>(Step::Begin((None, gallery_body()))));
    assert_eq!((r.status, r.body.unwrap_err().error.as_str()), (401, "Unauthorized"));
    let c = claims(ID_TEXT, "editor");
    let g = proceed(create_gallery_item::<u8>(Step::Begin((Some(&c), gallery_body()))));
    assert_eq!((g.created_by, g.is_published, g.sort_order), (ID, true, 0));
    let r = answer(create_gallery_item::<u8>(Step::Done(Err(db_error("unique")))));
    assert_eq!((r.status, r.body.unwrap_err().error.as_str()), (500, "Failed to create gallery item"));
    let r = answer(create_gallery_item(Step::Done(Ok(1u8))));
    assert_eq!((r.status, r.body.unwrap().message.as_deref()), (201, Some("Gallery item created")));
    let r = update_gallery_item::<u8>(Ok(None));
    assert_eq!((r.status, r.body.unwrap_err().error.as_str()), (404, "Gallery item not found"));
    let r = update_gallery_item(Ok(Some(1u8)));
    assert_eq!(r.body.unwrap().message.as_deref(), Some("Gallery item updated"));
    let r = delete_gallery_item(Err(db_error("x")));
    assert_eq!(r.body.unwrap_err().error, "Failed to delete gallery item");
    let r = delete_gallery_item(Ok(Some(1)));
    assert_eq!(r.body.unwrap().data.unwrap().message, "Gallery item deleted");
}

#[test]
fn content_replies() {
    let r = get_content::<u8>(Ok(None));
    assert_eq!((r.status, r.body.unwrap_err().error.as_str()), (404, "Content not found"));
    let r = get_content::<u8>(Err(db_error("x")));
    assert_eq!(r.body.unwrap_err().error, "Failed to fetch content");
    let r = get_about::<u8>(Err(db_error("x")));
    assert_eq!(r.body.unwrap_err().error, "Failed to fetch about content");
    let r = get_contact_info::<u8>(Ok(None));
    assert_eq!(r.body.unwrap_err().error, "Contact info not found");
    let r = get_contact_info::<u8>(Err(db_error("x")));
    assert_eq!(r.body.unwrap_err().error, "Failed to fetch contact info");
    assert_eq!(list_content(Ok(1u8)).status, 200);
    let c = claims(ID_TEXT, "editor");
    let changes = UpdateContentRequest { title: Some("T".to_string()), content: None, metadata: None, is_published: None };
    let (editor, body) = proceed(update_content::<u8>(Step::Begin((Some(&c), changes))));
    assert_eq!(editor, Some(ID));
    assert_eq!(body.title.as_deref(), Some("T"));
    let changes = UpdateContentRequest { title: None, content: None, metadata: None, is_published: None };
    let (editor, _) = proceed(update_content::<u8>(Step::Begin((None, changes))));
    assert_eq!(editor, None);
    let r = answer(update_content(Step::Done(Ok(Some(1u8)))));
    assert_eq!(r.body.unwrap().message.as_deref(), Some("Content updated successfully"));
    let r = answer(update_content::<u8>(Step::Done(Ok(None))));
    assert_eq!(r.body.unwrap_err().error, "Content block not found");
    let r = answer(update_content::<u8>(Step::Done(Err(db_error("x")))));
    assert_eq!(r.body.unwrap_err().error, "Failed to update content");
    assert_eq!(editor_id(Some(&claims(ID_TEXT, "editor"))), Some(ID));
    assert_eq!(editor_id(Some(&claims("bad", "editor"))), None);
    assert_eq!(editor_id(None), None);
}

#[test]
fn hero_replies() {
    let r = get_hero::<u8>(Ok(None));
    assert_eq!((r.status, r.body.unwrap_err().error.as_str()), (404, "Hero section not found"));
    let r = get_hero::<u8>(Err(db_error("x")));
    assert_eq!(r.body.unwrap_err().error, "Failed to fetch hero section");
    let r = update_hero(Ok(Some(1u8)));
    assert_eq!(r.body.unwrap().message.as_deref(), Some("Hero section updated"));
    let r = update_hero::<u8>(Err(db_error("x")));
    assert_eq!(r.body.unwrap_err().error, "Failed to update hero section");
}

#[test]
fn board_member_rules() {
    let r = board_members::authorize_create(None).unwrap_err();
    assert_eq!((r.status, r.error.error.as_str()), (401, "Unauthorized"));
    let r = board_members::authorize_create(Some(&claims(ID_TEXT, "admin"))).unwrap_err();
    assert_eq!((r.status, r.error.error.as_str()), (403, "Only super admin can manage board members"));
    let r = board_members::authorize_create(Some(&claims("x", "superadmin"))).unwrap_err();
    assert_eq!((r.status, r.error.error.as_str()), (401, "Invalid token"));
    assert_eq!(board_members::authorize_create(Some(&claims(ID_TEXT, "superadmin"))).unwrap(), ID);
    let r = board_members::authorize_update(Some(&claims(ID_TEXT, "admin"))).unwrap_err();
    assert_eq!((r.status, r.error.error.as_str()), (403, "Only super admins can manage board members"));
    assert!(board_members::authorize_update(Some(&claims("x", "superadmin"))).is_ok());
    let r = board_members::authorize_delete(Some(&claims(ID_TEXT, "editor"))).unwrap_err();
    assert_eq!((r.status, r.error.error.as_str()), (403, "Only super admin can manage board members"));
    assert_eq!(board_members::authorize_delete(None).unwrap_err().status, 401);
    assert!(board_members::authorize_delete(Some(&claims("x", "superadmin"))).is_ok());
}

#[test]
fn board_member_defaults_and_replies() {
    let body = CreateBoardMemberRequest {
        full_name: "F".to_string(),
        title: "Chair".to_string(),
        bio: None,
        image_url: None,
        sort_order: Some(2),
        is_published: None,
    };
    let m = board_members::new_board_member(body, 4);
    assert_eq!(m.sort_order, 2);
    assert!(m.is_published);
    assert_eq!(m.title, "Chair");
    let r = board_members::list_public::<u8>(Err(db_error("x")));
    assert_eq!(r.body.unwrap_err().error, "Failed to fetch board members");
    assert_eq!(board_members::list_admin(Ok(1u8)).status, 200);
    let c = claims(ID_TEXT, "admin");
    let r = answer(board_members::create::<u8>(Step::Begin((Some(&c), board_body()))));
    assert_eq!((r.status, r.body.unwrap_err().error.as_str()), (403, "Only super admin can manage board members"));
    let c = claims("x", "superadmin");
    let r = answer(board_members::create::<u8>(Step::Begin((Some(&c), board_body()))));
    assert_eq!((r.status, r.body.unwrap_err().error.as_str()), (401, "Invalid token"));
    let c = claims(ID_TEXT, "superadmin");
    let m = proceed(board_members::create::<u8>(Step::Begin((Some(&c), board_body()))));
    assert_eq!((m.created_by, m.is_published, m.sort_order), (ID, true, 0));
    let a = claims(ID_TEXT, "admin");
    let r = answer(board_members::update::<u8>(Step::Begin((Some(&a), board_changes()))));
    assert_eq!((r.status, r.body.unwrap_err().error.as_str()), (403, "Only super admins can manage board members"));
    let u = proceed(board_members::update::<u8>(Step::Begin((Some(&c), board_changes()))));
    assert_eq!(u.sort_order, Some(4));
    let r = answer(board_members::delete(Step::Begin((None, 3))));
    assert_eq!((r.status, r.body.unwrap_err().error.as_str()), (401, "Unauthorized"));
    let r = answer(board_members::delete(Step::Begin((Some(&a), 3))));
    assert_eq!((r.status, r.body.unwrap_err().error.as_str()), (403, "Only super admin can manage board members"));
    assert_eq!(proceed(board_members::delete(Step::Begin((Some(&c), 3)))), 3);
    let r = answer(board_members::create(Step::Done(Ok(1u8))));
    assert_eq!((r.status, r.body.unwrap().message.as_deref()), (201, Some("Board member created")));
    let r = answer(board_members::create::<u8>(Step::Done(Err(db_error("x")))));
    assert_eq!(r.body.unwrap_err().error, "Failed to create board member");
    let r = answer(board_members::update::<u8>(Step::Done(Err(db_error("x")))));
    assert_eq!(r.body.unwrap_err().error, "Failed to upload board member");
    let r = answer(board_members::update::<u8>(Step::Done(Ok(None))));
    assert_eq!(r.body.unwrap_err().error, "Board member not found");
    let r = answer(board_members::delete(Step::Done(Ok(Some(3)))));
    assert_eq!(r.body.unwrap().data.unwrap().message, "Board member deleted");
}

#[test]
fn stats_counts_default_to_zero() {
    let s = dashboard_stats(Some(10), Some(4), None, Some(7), Some(5));
    assert_eq!(
        s,
        DashboardStats {
            total_products: 10,
            published_products: 4,
            total_gallery_items: 0,
            total_employees: 7,
            active_employees: 5,
        }
    );
    let r = get_stats(Ok(s));
    assert_eq!(r.status, 200);
    let r = get_stats(Err(db_error("x")));
    assert_eq!((r.status, r.body.unwrap_err().error.as_str()), (500, "Failed to fetch stats"));
}

#[test]
fn removing_a_board_member_twice() {
    let c = claims(ID_TEXT, "superadmin");
    let mut rows: Vec<u128> = vec![3, 4];
    let mut statuses = Vec::new();
    for _ in 0..2 {
        let id = proceed(board_members::delete(Step::Begin((Some(&c), 3))));
        let removed = if rows.contains(&id) { Some(id) } else { None };
        rows.retain(|r| *r != id);
        let r = answer(board_members::delete(Step::Done(Ok(removed))));
        statuses.push(r.status);
        if r.status == 200 {
            assert_eq!(r.body.unwrap().data.unwrap().message, "Board member deleted");
        } else {
            assert_eq!(r.body.unwrap_err().error, "Board member not found");
        }
    }
    assert_eq!(statuses, vec![200, 404]);
    assert_eq!(rows, vec![4]);
}
