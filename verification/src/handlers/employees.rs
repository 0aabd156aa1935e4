//! Staff accounts: who may list, create, change and remove them.
use vstd::prelude::*;
use crate::crypto::{bcrypt_shaped, bcrypt_verdict, hash_password, HASH_COST};
use crate::handlers::auth::{public_found, publish_found};
use crate::ids::{parse_uuid, uuid_from_text};
use crate::json::{or_empty_object, sent_or, JsonField};
use crate::models::{
    CreateEmployeeRequest, DbError, Notice, Rejection, Reply, ResetPasswordRequest,
    UpdateEmployeeRequest, UpdateRoleRequest, User, UserPublic, UserRole, STATUS_BAD_REQUEST,
    STATUS_FORBIDDEN, STATUS_INTERNAL_ERROR, STATUS_OK, STATUS_UNAUTHORIZED,
};
use crate::replies::{
    answer_created, answer_found, answer_removed, created_reply, failure, found_reply, refuse,
    refused_with, removed_reply, success, Action, Step,
};
use crate::text::{lowercase, to_lowercase};

verus! {

/// What a caller's token allows: super admin, admin access, subject.
pub type Access = Option<(bool, bool, String)>;

/// Why an endpoint that needs admin access (listing, reading, changing
/// accounts, resetting passwords) refuses the caller, if it does.
pub open spec fn admin_refusal(access: Access) -> Option<(u16, Seq<char>)> {
    match access {
        None => Some((STATUS_UNAUTHORIZED, "Unauthorized"@)),
        Some(a) => if a.1 {
            None
        } else {
            Some((STATUS_FORBIDDEN, "Insufficient permissions"@))
        },
    }
}

/// Lets through callers with admin access.
pub fn admin_guard(access: &Access) -> (r: Result<(), Rejection>)
    ensures
        refused_with(r, admin_refusal(*access)),
{
    match access {
        None => Err(Rejection::new(STATUS_UNAUTHORIZED, "Unauthorized")),
        Some(a) => if a.1 {
            Ok(())
        } else {
            Err(Rejection::new(STATUS_FORBIDDEN, "Insufficient permissions"))
        },
    }
}

/// A role that only a super admin may hand out when creating an account.
pub open spec fn privileged(role: UserRole) -> bool {
    role == UserRole::SuperAdmin || role == UserRole::Admin
}

/// Why account creation with role `role` refuses the caller, if it does.
pub open spec fn create_refusal(access: Access, role: UserRole) -> Option<(u16, Seq<char>)> {
    match access {
        None => Some((STATUS_UNAUTHORIZED, "Unauthorized"@)),
        Some(a) => if privileged(role) && !a.0 {
            Some((STATUS_FORBIDDEN, "Only super admin can create admin accounts"@))
        } else if !a.1 {
            Some((STATUS_FORBIDDEN, "Insufficient permissions"@))
        } else {
            None
        },
    }
}

/// Lets through callers with admin access; super admin or admin accounts may
/// only be created by a super admin.
pub fn authorize_create_employee(access: &Access, role: UserRole) -> (r: Result<(), Rejection>)
    ensures
        refused_with(r, create_refusal(*access, role)),
{
    match access {
        None => Err(Rejection::new(STATUS_UNAUTHORIZED, "Unauthorized")),
        Some(a) => {
            if (role == UserRole::SuperAdmin || role == UserRole::Admin) && !a.0 {
                Err(Rejection::new(STATUS_FORBIDDEN, "Only super admin can create admin accounts"))
            } else if !a.1 {
                Err(Rejection::new(STATUS_FORBIDDEN, "Insufficient permissions"))
            } else {
                Ok(())
            }
        },
    }
}

/// Why removing account `id` refuses the caller, if it does.
pub open spec fn delete_refusal(access: Access, id: u128) -> Option<(u16, Seq<char>)> {
    match access {
        None => Some((STATUS_UNAUTHORIZED, "Unauthorized"@)),
        Some(a) => if !a.0 {
            Some((STATUS_FORBIDDEN, "Only super admin can delete accounts"@))
        } else if uuid_from_text(a.2@) == Some(id) {
            Some((STATUS_BAD_REQUEST, "Cannot delete your own account"@))
        } else {
            None
        },
    }
}

/// Lets a super admin remove any account but its own.
pub fn authorize_delete_employee(access: &Access, id: u128) -> (r: Result<(), Rejection>)
    ensures
        refused_with(r, delete_refusal(*access, id)),
{
    match access {
        None => Err(Rejection::new(STATUS_UNAUTHORIZED, "Unauthorized")),
        Some(a) => {
            if !a.0 {
                return Err(Rejection::new(STATUS_FORBIDDEN, "Only super admin can delete accounts"));
            }
            match parse_uuid(a.2.as_str()) {
                Some(self_id) => if self_id == id {
                    Err(Rejection::new(STATUS_BAD_REQUEST, "Cannot delete your own account"))
                } else {
                    Ok(())
                },
                None => Ok(()),
            }
        },
    }
}

/// Why a role change refuses the caller, if it does.
pub open spec fn role_refusal(access: Access) -> Option<(u16, Seq<char>)> {
    match access {
        None => Some((STATUS_UNAUTHORIZED, "Unauthorized"@)),
        Some(a) => if a.0 {
            None
        } else {
            Some((STATUS_FORBIDDEN, "Only super admin can modify roles"@))
        },
    }
}

/// Lets only a super admin change roles.
pub fn authorize_update_role(access: &Access) -> (r: Result<(), Rejection>)
    ensures
        refused_with(r, role_refusal(*access)),
{
    match access {
        None => Err(Rejection::new(STATUS_UNAUTHORIZED, "Unauthorized")),
        Some(a) => if a.0 {
            Ok(())
        } else {
            Err(Rejection::new(STATUS_FORBIDDEN, "Only super admin can modify roles"))
        },
    }
}

/// The values a new account is stored with.
pub struct NewEmployee {
    pub email: String,
    pub password_hash: String,
    pub full_name: String,
    pub title: Option<String>,
    pub role: UserRole,
    pub permissions: JsonField,
}

/// `n` is what the account asked for by `body` is stored as: the e-mail
/// address lower-cased, a bcrypt hash (work factor `HASH_COST`) that the
/// password checks against, the other fields as sent.
pub open spec fn prepared_employee(n: NewEmployee, body: CreateEmployeeRequest) -> bool {
    &&& n.email@ == lowercase(body.email@)
    &&& bcrypt_verdict(body.password@, n.password_hash@) == Some(true)
    &&& bcrypt_shaped(n.password_hash@, HASH_COST)
    &&& n.full_name == body.full_name
    &&& n.title == body.title
    &&& n.role == body.role
    &&& n.permissions == sent_or(body.permissions, JsonField::EmptyObject)
}

/// Prepares a new account: the e-mail address lower-cased, the password
/// hashed, permissions `{}` when none were given.
pub fn new_employee(body: CreateEmployeeRequest) -> (r: Result<NewEmployee, Rejection>)
    ensures
        match r {
            Ok(n) => prepared_employee(n, body),
            Err(e) => e.is(STATUS_INTERNAL_ERROR, "Failed to hash password"@),
        },
{
    let password_hash = match hash_password(body.password.as_str()) {
        Ok(h) => h,
        Err(_) => {
            return Err(Rejection::new(STATUS_INTERNAL_ERROR, "Failed to hash password"));
        },
    };
    let email = to_lowercase(body.email.as_str());
    let permissions = or_empty_object(body.permissions);
    Ok(NewEmployee {
        email,
        password_hash,
        full_name: body.full_name,
        title: body.title,
        role: body.role,
        permissions,
    })
}

/// `r` is the changes of `body` as stored: a new e-mail address lower-cased,
/// the other fields as sent.
pub open spec fn changes_of(r: UpdateEmployeeRequest, body: UpdateEmployeeRequest) -> bool {
    &&& match body.email {
        Some(e) => r.email matches Some(x) && x@ == lowercase(e@),
        None => r.email is None,
    }
    &&& r.full_name == body.full_name
    &&& r.title == body.title
    &&& r.is_active == body.is_active
    &&& r.avatar_url == body.avatar_url
}

/// The changes to store for an account: as sent, with a new e-mail address
/// lower-cased.
pub fn employee_changes(body: UpdateEmployeeRequest) -> (r: UpdateEmployeeRequest)
    ensures
        changes_of(r, body),
        r.full_name == body.full_name,
        r.title == body.title,
        r.is_active == body.is_active,
        r.avatar_url == body.avatar_url,
        body.email is None ==> r.email is None,
        forall|e: String| body.email == Some(e) ==> (r.email matches Some(x) && x@ == lowercase(e@)),
{
    let email = match &body.email {
        Some(e) => Some(to_lowercase(e.as_str())),
        None => None,
    };
    UpdateEmployeeRequest {
        email,
        full_name: body.full_name,
        title: body.title,
        is_active: body.is_active,
        avatar_url: body.avatar_url,
    }
}

/// `r` is the role and permissions `body` asks for.
pub open spec fn role_change_of(r: (UserRole, JsonField), body: UpdateRoleRequest) -> bool {
    &&& r.0 == body.role
    &&& r.1 == sent_or(body.permissions, JsonField::EmptyObject)
}

/// The role and permissions to store: permissions `{}` when none were given.
pub fn role_change(body: UpdateRoleRequest) -> (r: (UserRole, JsonField))
    ensures
        role_change_of(r, body),
{
    (body.role, or_empty_object(body.permissions))
}

/// `h` is a hash to store for the password `password`.
pub open spec fn hash_for(h: Seq<char>, password: Seq<char>) -> bool {
    bcrypt_verdict(password, h) == Some(true) && bcrypt_shaped(h, HASH_COST)
}

/// The hash to store for a reset password.
pub fn new_password_hash(body: &ResetPasswordRequest) -> (r: Result<String, Rejection>)
    ensures
        match r {
            Ok(h) => hash_for(h@, body.new_password@),
            Err(e) => e.is(STATUS_INTERNAL_ERROR, "Failed to hash password"@),
        },
{
    match hash_password(body.new_password.as_str()) {
        Ok(h) => Ok(h),
        Err(_) => Err(Rejection::new(STATUS_INTERNAL_ERROR, "Failed to hash password")),
    }
}

/// The public views of a list of accounts, in the same order.
pub open spec fn public_list(users: Seq<User>) -> Seq<UserPublic> {
    users.map_values(|u: User| UserPublic::of(u))
}

/// Turns a list of accounts into their public views, keeping the order.
pub fn publish_all(users: Vec<User>) -> (r: Vec<UserPublic>)
    ensures
        r@ == public_list(users@),
{
    let ghost orig = users@;
    let n = users.len();
    let mut users = users;
    let mut rev: Vec<UserPublic> = Vec::new();
    while users.len() > 0
        invariant
            n == orig.len(),
            users.len() + rev.len() == n,
            users@ == orig.subrange(0, users.len() as int),
            forall|j: int| 0 <= j < rev.len() ==> #[trigger] rev@[j] == UserPublic::of(orig[n - 1 - j]),
        decreases users.len(),
    {
        let u = users.pop().unwrap();
        rev.push(UserPublic::from(u));
    }
    let mut out: Vec<UserPublic> = Vec::new();
    while rev.len() > 0
        invariant
            n == orig.len(),
            out.len() + rev.len() == n,
            forall|j: int| 0 <= j < rev.len() ==> #[trigger] rev@[j] == UserPublic::of(orig[n - 1 - j]),
            forall|k: int| 0 <= k < out.len() ==> #[trigger] out@[k] == UserPublic::of(orig[k]),
        decreases rev.len(),
    {
        let p = rev.pop().unwrap();
        out.push(p);
    }
    assert(out@ =~= public_list(orig));
    out
}

/// The reply lists the public views of `users` with status 200.
pub open spec fn lists_public(r: Reply<Vec<UserPublic>>, users: Seq<User>) -> bool {
    &&& r.status == STATUS_OK
    &&& r.body matches Ok(b)
    &&& b.success
    &&& b.data matches Some(v)
    &&& v@ == public_list(users)
    &&& b.message is None
    &&& b.error is None
}

/// Answer to a listing of accounts.
fn answer_accounts(res: Result<Vec<User>, DbError>) -> (r: Reply<Vec<UserPublic>>)
    ensures
        match res {
            Ok(users) => lists_public(r, users@),
            Err(_) => r.is_failure(STATUS_INTERNAL_ERROR, "Failed to fetch employees"@),
        },
{
    match res {
        Ok(users) => success(STATUS_OK, publish_all(users), None),
        Err(_) => failure(STATUS_INTERNAL_ERROR, "Failed to fetch employees"),
    }
}

/// The account-listing endpoint: callers without admin access are refused
/// before anything is read; then the accounts read are listed.
pub open spec fn lists_employees(
    r: Action<(), Vec<UserPublic>>,
    step: Step<Access, Result<Vec<User>, DbError>>,
) -> bool {
    match step {
        Step::Begin(access) => match admin_refusal(access) {
            Some(x) => r.refuses(x),
            None => r is Proceed,
        },
        Step::Done(res) => r matches Action::Answer(reply) && match res {
            Ok(users) => lists_public(reply, users@),
            Err(_) => reply.is_failure(STATUS_INTERNAL_ERROR, "Failed to fetch employees"@),
        },
    }
}

/// The admin listing of all accounts (newest first, as read).
pub fn list_employees(step: Step<Access, Result<Vec<User>, DbError>>) -> (r: Action<(), Vec<UserPublic>>)
    ensures
        lists_employees(r, step),
{
    match step {
        Step::Begin(access) => match admin_guard(&access) {
            Err(rej) => refuse(rej),
            Ok(()) => Action::Proceed(()),
        },
        Step::Done(res) => Action::Answer(answer_accounts(res)),
    }
}

/// Answer to the public listing of active accounts.
pub fn get_public_employees(res: Result<Vec<User>, DbError>) -> (r: Reply<Vec<UserPublic>>)
    ensures
        match res {
            Ok(users) => lists_public(r, users@),
            Err(_) => r.is_failure(STATUS_INTERNAL_ERROR, "Failed to fetch employees"@),
        },
{
    answer_accounts(res)
}

/// The account-reading endpoint.
pub open spec fn gets_employee(
    r: Action<(), UserPublic>,
    step: Step<Access, Result<Option<User>, DbError>>,
) -> bool {
    match step {
        Step::Begin(access) => match admin_refusal(access) {
            Some(x) => r.refuses(x),
            None => r is Proceed,
        },
        Step::Done(found) => r matches Action::Answer(reply) && found_reply(
            reply,
            public_found(found),
            None,
            "Employee not found"@,
            "Failed to fetch employee"@,
        ),
    }
}

/// Reading one account.
pub fn get_employee(step: Step<Access, Result<Option<User>, DbError>>) -> (r: Action<(), UserPublic>)
    ensures
        gets_employee(r, step),
{
    match step {
        Step::Begin(access) => match admin_guard(&access) {
            Err(rej) => refuse(rej),
            Ok(()) => Action::Proceed(()),
        },
        Step::Done(found) => Action::Answer(
            answer_found(publish_found(found), None, "Employee not found", "Failed to fetch employee"),
        ),
    }
}

/// The account-creation endpoint: a refused caller, or a password that could
/// not be hashed, is answered before anything is stored; otherwise the
/// prepared account is stored and answered with 201, a taken e-mail address
/// being a conflict.
pub open spec fn creates_employee(
    r: Action<NewEmployee, UserPublic>,
    step: Step<(Access, CreateEmployeeRequest), Result<User, DbError>>,
) -> bool {
    match step {
        Step::Begin((access, body)) => match create_refusal(access, body.role) {
            Some(x) => r.refuses(x),
            None => match r {
                Action::Proceed(n) => prepared_employee(n, body),
                Action::Answer(reply) => reply.is_failure(STATUS_INTERNAL_ERROR, "Failed to hash password"@),
            },
        },
        Step::Done(res) => r matches Action::Answer(reply) && created_reply(
            reply,
            match res {
                Ok(u) => Ok(UserPublic::of(u)),
                Err(e) => Err(e),
            },
            "Employee created successfully"@,
            Some("Email already exists"@),
            "Failed to create employee"@,
        ),
    }
}

/// Creating an account.
pub fn create_employee(step: Step<(Access, CreateEmployeeRequest), Result<User, DbError>>) -> (r: Action<
    NewEmployee,
    UserPublic,
>)
    ensures
        creates_employee(r, step),
{
    match step {
        Step::Begin((access, body)) => {
            if let Err(rej) = authorize_create_employee(&access, body.role) {
                return refuse(rej);
            }
            match new_employee(body) {
                Ok(n) => Action::Proceed(n),
                Err(rej) => {
                    let a = refuse(rej);
                    assert(a.refuses((STATUS_INTERNAL_ERROR, "Failed to hash password"@)));
                    a
                },
            }
        },
        Step::Done(res) => {
            let published = match res {
                Ok(u) => Ok(UserPublic::from(u)),
                Err(e) => Err(e),
            };
            Action::Answer(
                answer_created(
                    published,
                    "Employee created successfully",
                    Some("Email already exists"),
                    "Failed to create employee",
                ),
            )
        },
    }
}

/// The account-changing endpoint.
pub open spec fn updates_employee(
    r: Action<UpdateEmployeeRequest, UserPublic>,
    step: Step<(Access, UpdateEmployeeRequest), Result<Option<User>, DbError>>,
) -> bool {
    match step {
        Step::Begin((access, body)) => match admin_refusal(access) {
            Some(x) => r.refuses(x),
            None => r matches Action::Proceed(c) && changes_of(c, body),
        },
        Step::Done(found) => r matches Action::Answer(reply) && found_reply(
            reply,
            public_found(found),
            Some("Employee updated"@),
            "Employee not found"@,
            "Failed to update employee"@,
        ),
    }
}

/// Changing an account.
pub fn update_employee(step: Step<(Access, UpdateEmployeeRequest), Result<Option<User>, DbError>>) -> (r:
    Action<UpdateEmployeeRequest, UserPublic>)
    ensures
        updates_employee(r, step),
{
    match step {
        Step::Begin((access, body)) => match admin_guard(&access) {
            Err(rej) => refuse(rej),
            Ok(()) => Action::Proceed(employee_changes(body)),
        },
        Step::Done(found) => Action::Answer(
            answer_found(publish_found(found), Some("Employee updated"), "Employee not found", "Failed to update employee"),
        ),
    }
}

/// The account-removal endpoint: it removes the account `id` named at the
/// first step, unless the caller is refused.
pub open spec fn deletes_employee(
    r: Action<u128, Notice>,
    step: Step<(Access, u128), Result<Option<u128>, DbError>>,
) -> bool {
    match step {
        Step::Begin((access, id)) => match delete_refusal(access, id) {
            Some(x) => r.refuses(x),
            None => r == Action::<u128, Notice>::Proceed(id),
        },
        Step::Done(res) => r matches Action::Answer(reply) && removed_reply(
            reply,
            res,
            "Employee deleted"@,
            "Employee not found"@,
            "Failed to delete employee"@,
        ),
    }
}

/// Removing an account.
pub fn delete_employee(step: Step<(Access, u128), Result<Option<u128>, DbError>>) -> (r: Action<u128, Notice>)
    ensures
        deletes_employee(r, step),
{
    match step {
        Step::Begin((access, id)) => match authorize_delete_employee(&access, id) {
            Err(rej) => refuse(rej),
            Ok(()) => Action::Proceed(id),
        },
        Step::Done(res) => Action::Answer(
            answer_removed(res, "Employee deleted", "Employee not found", "Failed to delete employee"),
        ),
    }
}

/// The role-changing endpoint.
pub open spec fn updates_role(
    r: Action<(UserRole, JsonField), UserPublic>,
    step: Step<(Access, UpdateRoleRequest), Result<Option<User>, DbError>>,
) -> bool {
    match step {
        Step::Begin((access, body)) => match role_refusal(access) {
            Some(x) => r.refuses(x),
            None => r matches Action::Proceed(c) && role_change_of(c, body),
        },
        Step::Done(found) => r matches Action::Answer(reply) && found_reply(
            reply,
            public_found(found),
            Some("Role updated"@),
            "Employee not found"@,
            "Failed to update role"@,
        ),
    }
}

/// Changing an account's role.
pub fn update_role(step: Step<(Access, UpdateRoleRequest), Result<Option<User>, DbError>>) -> (r: Action<
    (UserRole, JsonField),
    UserPublic,
>)
    ensures
        updates_role(r, step),
{
    match step {
        Step::Begin((access, body)) => match authorize_update_role(&access) {
            Err(rej) => refuse(rej),
            Ok(()) => Action::Proceed(role_change(body)),
        },
        Step::Done(found) => Action::Answer(
            answer_found(publish_found(found), Some("Role updated"), "Employee not found", "Failed to update role"),
        ),
    }
}

/// The password-reset endpoint: a refused caller, or a password that could
/// not be hashed, is answered before anything is stored.
pub open spec fn resets_password(
    r: Action<String, Notice>,
    step: Step<(Access, ResetPasswordRequest), Result<Option<u128>, DbError>>,
) -> bool {
    match step {
        Step::Begin((access, body)) => match admin_refusal(access) {
            Some(x) => r.refuses(x),
            None => match r {
                Action::Proceed(h) => hash_for(h@, body.new_password@),
                Action::Answer(reply) => reply.is_failure(STATUS_INTERNAL_ERROR, "Failed to hash password"@),
            },
        },
        Step::Done(res) => r matches Action::Answer(reply) && removed_reply(
            reply,
            res,
            "Password reset successfully"@,
            "Employee not found"@,
            "Failed to reset password"@,
        ),
    }
}

/// Resetting an account's password.
pub fn reset_password(step: Step<(Access, ResetPasswordRequest), Result<Option<u128>, DbError>>) -> (r:
    Action<String, Notice>)
    ensures
        resets_password(r, step),
{
    match step {
        Step::Begin((access, body)) => {
            if let Err(rej) = admin_guard(&access) {
                return refuse(rej);
            }
            match new_password_hash(&body) {
                Ok(h) => Action::Proceed(h),
                Err(rej) => {
                    let a = refuse(rej);
                    assert(a.refuses((STATUS_INTERNAL_ERROR, "Failed to hash password"@)));
                    a
                },
            }
        },
        Step::Done(res) => Action::Answer(
            answer_removed(res, "Password reset successfully", "Employee not found", "Failed to reset password"),
        ),
    }
}

/// Only a super admin creates super admin or admin accounts: whoever else
/// asks is refused with 403 and nothing is stored.
pub proof fn only_super_admin_creates_privileged(
    r: Action<NewEmployee, UserPublic>,
    access: Access,
    body: CreateEmployeeRequest,
)
    requires
        creates_employee(r, Step::Begin((access, body))),
        privileged(body.role),
        access matches Some(a) && !a.0,
    ensures
        r.refuses((STATUS_FORBIDDEN, "Only super admin can create admin accounts"@)),
        !(r is Proceed),
{
}

/// No one removes its own account: a super admin whose subject is the
/// target's id is answered 400 and nothing is removed.
pub proof fn own_account_is_never_removed(r: Action<u128, Notice>, access: Access, id: u128)
    requires
        deletes_employee(r, Step::Begin((access, id))),
        access matches Some(a) && a.0 && uuid_from_text(a.2@) == Some(id),
    ensures
        r.refuses((STATUS_BAD_REQUEST, "Cannot delete your own account"@)),
        !(r is Proceed),
{
}

/// Whatever account creation goes on to store was asked for by a caller with
/// admin access, and a privileged role only by a super admin.
pub proof fn created_accounts_need_admin_access(
    r: Action<NewEmployee, UserPublic>,
    access: Access,
    body: CreateEmployeeRequest,
)
    requires
        creates_employee(r, Step::Begin((access, body))),
        r is Proceed,
    ensures
        access matches Some(a) && a.1 && (privileged(body.role) ==> a.0),
{
}

/// An account change stores what was sent: a change that goes ahead carries
/// the name, title, active flag and avatar exactly as the request had them
/// (absent ones stay absent, so the stored values are kept), and a new e-mail
/// address lower-cased.
pub proof fn account_changes_keep_what_was_sent(
    r: Action<UpdateEmployeeRequest, UserPublic>,
    access: Access,
    body: UpdateEmployeeRequest,
)
    requires
        updates_employee(r, Step::Begin((access, body))),
        r is Proceed,
    ensures
        r->Proceed_0.full_name == body.full_name,
        r->Proceed_0.title == body.title,
        r->Proceed_0.is_active == body.is_active,
        r->Proceed_0.avatar_url == body.avatar_url,
        body.email is None ==> r->Proceed_0.email is None,
        forall|e: String| body.email == Some(e) ==> (r->Proceed_0.email matches Some(x) && x@ == lowercase(e@)),
{
}

/// A new account is stored as it was asked for: the e-mail address
/// lower-cased, a bcrypt hash (work factor `HASH_COST`) that the password
/// checks against, name, title and role as sent, and the permissions sent or
/// `{}` when none were.
pub proof fn created_accounts_keep_what_was_sent(
    r: Action<NewEmployee, UserPublic>,
    access: Access,
    body: CreateEmployeeRequest,
)
    requires
        creates_employee(r, Step::Begin((access, body))),
        r is Proceed,
    ensures
        r->Proceed_0.email@ == lowercase(body.email@),
        bcrypt_verdict(body.password@, r->Proceed_0.password_hash@) == Some(true),
        bcrypt_shaped(r->Proceed_0.password_hash@, HASH_COST),
        r->Proceed_0.full_name == body.full_name,
        r->Proceed_0.title == body.title,
        r->Proceed_0.role == body.role,
        body.permissions is None ==> r->Proceed_0.permissions == JsonField::EmptyObject,
        forall|p: serde_json::Value| body.permissions == Some(p) ==> r->Proceed_0.permissions == JsonField::Sent(p),
{
}

/// A role change stores the role sent, and the permissions sent or `{}`
/// when none were (the old permissions are not kept).
pub proof fn role_changes_keep_what_was_sent(
    r: Action<(UserRole, JsonField), UserPublic>,
    access: Access,
    body: UpdateRoleRequest,
)
    requires
        updates_role(r, Step::Begin((access, body))),
        r is Proceed,
    ensures
        r->Proceed_0.0 == body.role,
        body.permissions is None ==> r->Proceed_0.1 == JsonField::EmptyObject,
        forall|p: serde_json::Value| body.permissions == Some(p) ==> r->Proceed_0.1 == JsonField::Sent(p),
{
}

/// The public view of an account shows every stored field of it but the
/// password hash and update time, unchanged; a listing shows the accounts in
/// the order read, each by its public view.
pub proof fn public_views_show_the_account(u: User, users: Seq<User>, i: int)
    requires
        0 <= i < users.len(),
    ensures
        UserPublic::of(u).id == u.id,
        UserPublic::of(u).email == u.email,
        UserPublic::of(u).full_name == u.full_name,
        UserPublic::of(u).title == u.title,
        UserPublic::of(u).role == u.role,
        UserPublic::of(u).is_active == u.is_active,
        UserPublic::of(u).avatar_url == u.avatar_url,
        UserPublic::of(u).permissions == u.permissions,
        UserPublic::of(u).created_at == u.created_at,
        UserPublic::of(u).last_login == u.last_login,
        public_list(users).len() == users.len(),
        public_list(users)[i].id == users[i].id,
        public_list(users)[i].email == users[i].email,
        public_list(users)[i].full_name == users[i].full_name,
        public_list(users)[i].title == users[i].title,
        public_list(users)[i].role == users[i].role,
        public_list(users)[i].is_active == users[i].is_active,
        public_list(users)[i].avatar_url == users[i].avatar_url,
        public_list(users)[i].permissions == users[i].permissions,
        public_list(users)[i].created_at == users[i].created_at,
        public_list(users)[i].last_login == users[i].last_login,
{
}

} // verus!
