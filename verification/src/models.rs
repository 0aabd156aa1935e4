use vstd::prelude::*;

verus! {

/// HTTP status codes the endpoints answer with.
pub const STATUS_OK: u16 = 200;
pub const STATUS_CREATED: u16 = 201;
pub const STATUS_BAD_REQUEST: u16 = 400;
pub const STATUS_UNAUTHORIZED: u16 = 401;
pub const STATUS_FORBIDDEN: u16 = 403;
pub const STATUS_NOT_FOUND: u16 = 404;
pub const STATUS_CONFLICT: u16 = 409;
pub const STATUS_INTERNAL_ERROR: u16 = 500;
pub const STATUS_UNAVAILABLE: u16 = 503;

/// The role of a staff account, ordered from most to least privileged.
#[derive(Debug, Clone, Copy, PartialEq, Eq, Structural)]
pub enum UserRole {
    SuperAdmin,
    Admin,
    Editor,
    Viewer,
}

impl UserRole {
    /// The lower-case name under which the role is stored, sent and put in tokens.
    pub open spec fn name(self) -> Seq<char> {
        match self {
            UserRole::SuperAdmin => "superadmin"@,
            UserRole::Admin => "admin"@,
            UserRole::Editor => "editor"@,
            UserRole::Viewer => "viewer"@,
        }
    }

    /// The role's lower-case name.
    pub fn as_str(&self) -> (s: &'static str)
        ensures
            s@ == self.name(),
    {
        match self {
            UserRole::SuperAdmin => "superadmin",
            UserRole::Admin => "admin",
            UserRole::Editor => "editor",
            UserRole::Viewer => "viewer",
        }
    }

    /// The role's lower-case name as an owned string (the role's display form).
    pub fn to_string(&self) -> (s: String)
        ensures
            s@ == self.name(),
    {
        self.as_str().to_string()
    }
}

/// What a session token carries: the user's id as text, the role's name,
/// and the expiry and issue times in seconds since the Unix epoch.
#[derive(Debug)]
pub struct Claims {
    pub sub: String,
    pub role: String,
    pub exp: usize,
    pub iat: usize,
}

/// Error body returned by every failing endpoint.
#[derive(Debug)]
pub struct ApiError {
    pub success: bool,
    pub error: String,
    pub message: Option<String>,
}

impl ApiError {
    /// An error body carrying `error` as its text and no further message.
    pub fn new(error: &str) -> (r: ApiError)
        ensures
            r.success == false,
            r.error@ == error@,
            r.message is None,
    {
        ApiError { success: false, error: error.to_string(), message: None }
    }
}

/// Body of every successful endpoint answer.
#[derive(Debug)]
pub struct ApiResponse<T> {
    pub success: bool,
    pub data: Option<T>,
    pub message: Option<String>,
    pub error: Option<String>,
}

impl<T> ApiResponse<T> {
    /// A successful body carrying `data` and nothing else.
    pub fn success(data: T) -> (r: ApiResponse<T>)
        ensures
            r.success,
            r.data == Some(data),
            r.message is None,
            r.error is None,
    {
        ApiResponse { success: true, data: Some(data), message: None, error: None }
    }

    /// A successful body carrying `data` and the message `message`.
    pub fn success_message(data: T, message: &str) -> (r: ApiResponse<T>)
        ensures
            r.success,
            r.data == Some(data),
            r.message matches Some(m) && m@ == message@,
            r.error is None,
    {
        ApiResponse { success: true, data: Some(data), message: Some(message.to_string()), error: None }
    }
}

/// A refused request: the status to answer with and the error body.
#[derive(Debug)]
pub struct Rejection {
    pub status: u16,
    pub error: ApiError,
}

impl Rejection {
    /// The rejection answers `status` with an error body whose text is `text`.
    pub open spec fn is(self, status: u16, text: Seq<char>) -> bool {
        &&& self.status == status
        &&& !self.error.success
        &&& self.error.error@ == text
        &&& self.error.message is None
    }

    /// A rejection with status `status` and error text `text`.
    pub fn new(status: u16, text: &str) -> (r: Rejection)
        ensures
            r.is(status, text@),
    {
        Rejection { status, error: ApiError::new(text) }
    }
}

/// An endpoint's answer: a status and either a success or an error body.
#[derive(Debug)]
pub struct Reply<T> {
    pub status: u16,
    pub body: Result<ApiResponse<T>, ApiError>,
}

impl<T> Reply<T> {
    /// The reply is the error `text` with status `status`.
    pub open spec fn is_failure(self, status: u16, text: Seq<char>) -> bool {
        &&& self.status == status
        &&& self.body matches Err(e)
        &&& !e.success
        &&& e.error@ == text
        &&& e.message is None
    }

    /// The reply is a success with status `status`, carrying `data` and,
    /// where `message` is `Some`, that message.
    pub open spec fn is_success(self, status: u16, data: T, message: Option<Seq<char>>) -> bool {
        &&& self.status == status
        &&& self.body matches Ok(b)
        &&& b.success
        &&& b.data == Some(data)
        &&& b.error is None
        &&& match message {
            Some(m) => b.message matches Some(x) && x@ == m,
            None => b.message is None,
        }
    }

    /// The reply answering a refused request.
    pub fn refused(rejection: Rejection) -> (r: Reply<T>)
        ensures
            r.status == rejection.status,
            r.body == Err::<ApiResponse<T>, ApiError>(rejection.error),
    {
        Reply { status: rejection.status, body: Err(rejection.error) }
    }
}

/// A storage failure, as the text the storage layer reported.
#[derive(Debug)]
pub struct DbError {
    pub message: String,
}

/// A plain `{"message": ...}` payload.
#[derive(Debug)]
pub struct Notice {
    pub message: String,
}

/// A `{"token": ...}` payload.
#[derive(Debug)]
pub struct TokenData {
    pub token: String,
}

/// A staff account as stored. Times are microseconds since the Unix epoch.
#[derive(Debug)]
pub struct User {
    pub id: u128,
    pub email: String,
    pub password_hash: String,
    pub full_name: String,
    pub title: Option<String>,
    pub role: UserRole,
    pub is_active: bool,
    pub avatar_url: Option<String>,
    pub permissions: serde_json::Value,
    pub created_at: i64,
    pub updated_at: i64,
    pub last_login: Option<i64>,
}

/// A staff account as shown to clients: no password hash, no update time.
#[derive(Debug)]
pub struct UserPublic {
    pub id: u128,
    pub email: String,
    pub full_name: String,
    pub title: Option<String>,
    pub role: UserRole,
    pub is_active: bool,
    pub avatar_url: Option<String>,
    pub permissions: serde_json::Value,
    pub created_at: i64,
    pub last_login: Option<i64>,
}

impl UserPublic {
    /// The public view of a stored account.
    pub open spec fn of(u: User) -> UserPublic {
        UserPublic {
            id: u.id,
            email: u.email,
            full_name: u.full_name,
            title: u.title,
            role: u.role,
            is_active: u.is_active,
            avatar_url: u.avatar_url,
            permissions: u.permissions,
            created_at: u.created_at,
            last_login: u.last_login,
        }
    }
}

impl From<User> for UserPublic {
    fn from(u: User) -> (r: UserPublic)
        ensures
            r.id == u.id,
            r.email == u.email,
            r.full_name == u.full_name,
            r.title == u.title,
            r.role == u.role,
            r.is_active == u.is_active,
            r.avatar_url == u.avatar_url,
            r.permissions == u.permissions,
            r.created_at == u.created_at,
            r.last_login == u.last_login,
    {
        UserPublic {
            id: u.id,
            email: u.email,
            full_name: u.full_name,
            title: u.title,
            role: u.role,
            is_active: u.is_active,
            avatar_url: u.avatar_url,
            permissions: u.permissions,
            created_at: u.created_at,
            last_login: u.last_login,
        }
    }
}

impl vstd::std_specs::convert::FromSpecImpl<User> for UserPublic {
    open spec fn obeys_from_spec() -> bool {
        true
    }

    open spec fn from_spec(u: User) -> UserPublic {
        UserPublic::of(u)
    }
}

/// Answer of a successful login: the session token and the account.
#[derive(Debug)]
pub struct LoginResponse {
    pub token: String,
    pub user: UserPublic,
}

/// Credentials sent to log in.
#[derive(Debug)]
pub struct LoginRequest {
    pub email: String,
    pub password: String,
}

/// Fields of a new staff account.
#[derive(Debug)]
pub struct CreateEmployeeRequest {
    pub email: String,
    pub password: String,
    pub full_name: String,
    pub title: Option<String>,
    pub role: UserRole,
    pub permissions: Option<serde_json::Value>,
}

/// Changes to a staff account; absent fields stay as they are.
#[derive(Debug)]
pub struct UpdateEmployeeRequest {
    pub email: Option<String>,
    pub full_name: Option<String>,
    pub title: Option<String>,
    pub is_active: Option<bool>,
    pub avatar_url: Option<String>,
}

/// A new role, and optionally new permissions, for a staff account.
#[derive(Debug)]
pub struct UpdateRoleRequest {
    pub role: UserRole,
    pub permissions: Option<serde_json::Value>,
}

/// A new password for a staff account.
#[derive(Debug)]
pub struct ResetPasswordRequest {
    pub new_password: String,
}

/// Fields of a new board member.
#[derive(Debug)]
pub struct CreateBoardMemberRequest {
    pub full_name: String,
    pub title: String,
    pub bio: Option<String>,
    pub image_url: Option<String>,
    pub sort_order: Option<i32>,
    pub is_published: Option<bool>,
}

/// Changes to a board member; absent fields stay as they are.
#[derive(Debug)]
pub struct UpdateBoardMemberRequest {
    pub full_name: Option<String>,
    pub title: Option<String>,
    pub bio: Option<String>,
    pub image_url: Option<String>,
    pub sort_order: Option<i32>,
    pub is_published: Option<bool>,
}

/// Fields of a new product.
#[derive(Debug)]
pub struct CreateProductRequest {
    pub name: String,
    pub slug: String,
    pub description: String,
    pub short_description: Option<String>,
    pub category: String,
    pub image_url: Option<String>,
    pub is_published: Option<bool>,
    pub sort_order: Option<i32>,
    pub features: Option<serde_json::Value>,
}

/// Changes to a product; absent fields stay as they are.
#[derive(Debug)]
pub struct UpdateProductRequest {
    pub name: Option<String>,
    pub slug: Option<String>,
    pub description: Option<String>,
    pub short_description: Option<String>,
    pub category: Option<String>,
    pub image_url: Option<String>,
    pub is_published: Option<bool>,
    pub sort_order: Option<i32>,
    pub features: Option<serde_json::Value>,
}

/// Fields of a new gallery item.
#[derive(Debug)]
pub struct CreateGalleryItemRequest {
    pub title: String,
    pub description: Option<String>,
    pub image_url: String,
    pub category: Option<String>,
    pub sort_order: Option<i32>,
    pub is_published: Option<bool>,
}

/// Changes to a gallery item; absent fields stay as they are.
#[derive(Debug)]
pub struct UpdateGalleryItemRequest {
    pub title: Option<String>,
    pub description: Option<String>,
    pub image_url: Option<String>,
    pub category: Option<String>,
    pub sort_order: Option<i32>,
    pub is_published: Option<bool>,
}

/// Changes to a content block; absent fields stay as they are.
#[derive(Debug)]
pub struct UpdateContentRequest {
    pub title: Option<String>,
    pub content: Option<String>,
    pub metadata: Option<serde_json::Value>,
    pub is_published: Option<bool>,
}

/// Changes to the active hero section; absent fields stay as they are.
#[derive(Debug)]
pub struct UpdateHeroRequest {
    pub heading: Option<String>,
    pub subheading: Option<String>,
    pub description: Option<String>,
    pub primary_cta_text: Option<String>,
    pub primary_cta_link: Option<String>,
    pub secondary_cta_text: Option<String>,
    pub secondary_cta_link: Option<String>,
    pub background_image_url: Option<String>,
    pub is_active: Option<bool>,
}

/// A stored upload. Times are microseconds since the Unix epoch.
#[derive(Debug)]
pub struct Media {
    pub id: u128,
    pub file_name: String,
    pub file_type: String,
    pub file_data: Vec<u8>,
    pub file_url: String,
    pub created_at: i64,
}

/// Counts shown on the admin dashboard.
#[derive(Debug, Clone, Copy, PartialEq, Eq, Structural)]
pub struct DashboardStats {
    pub total_products: i64,
    pub published_products: i64,
    pub total_gallery_items: i64,
    pub total_employees: i64,
    pub active_employees: i64,
}

} // verus!
