//! The board of directors page; only super admins manage it.
use vstd::prelude::*;
use crate::access::{grants_super, is_super_admin};
use crate::ids::{parse_uuid, uuid_from_text};
use crate::handlers::auth::owned_claims;
use crate::handlers::products::claimed_id;
use crate::models::{
    Claims, CreateBoardMemberRequest, DbError, Notice, Rejection, Reply, UpdateBoardMemberRequest,
    STATUS_FORBIDDEN, STATUS_NOT_FOUND, STATUS_OK, STATUS_UNAUTHORIZED,
};
use crate::replies::{
    answer_created, answer_found, answer_loaded, answer_removed, created_reply, found_reply,
    is_notice, loaded_reply, refuse, removed_reply, Action, Step,
};

verus! {

/// Why adding a board member refuses the caller, if it does.
pub open spec fn board_create_refusal(claims: Option<Claims>) -> Option<(u16, Seq<char>)> {
    match claims {
        None => Some((STATUS_UNAUTHORIZED, "Unauthorized"@)),
        Some(c) => if !grants_super(c.role@) {
            Some((STATUS_FORBIDDEN, "Only super admin can manage board members"@))
        } else {
            match uuid_from_text(c.sub@) {
                Some(_) => None,
                None => Some((STATUS_UNAUTHORIZED, "Invalid token"@)),
            }
        },
    }
}

/// Why changing or removing a board member refuses the caller, if it does,
/// `denied` being the text for a caller that is not a super admin.
pub open spec fn board_change_refusal(claims: Option<Claims>, denied: Seq<char>) -> Option<(u16, Seq<char>)> {
    match claims {
        None => Some((STATUS_UNAUTHORIZED, "Unauthorized"@)),
        Some(c) => if grants_super(c.role@) {
            None
        } else {
            Some((STATUS_FORBIDDEN, denied))
        },
    }
}

/// The guard of adding a board member: a super admin whose subject is an id.
pub open spec fn create_guard_passed(r: Result<u128, Rejection>, claims: Option<Claims>) -> bool {
    match claims {
        None => r matches Err(e) && e.is(STATUS_UNAUTHORIZED, "Unauthorized"@),
        Some(c) => if !grants_super(c.role@) {
            r matches Err(e) && e.is(STATUS_FORBIDDEN, "Only super admin can manage board members"@)
        } else {
            match uuid_from_text(c.sub@) {
                Some(id) => r == Ok::<u128, Rejection>(id),
                None => r matches Err(e) && e.is(STATUS_UNAUTHORIZED, "Invalid token"@),
            }
        },
    }
}

/// Lets a super admin add a board member, and gives its account id.
pub fn authorize_create(claims: Option<&Claims>) -> (r: Result<u128, Rejection>)
    ensures
        create_guard_passed(
            r,
            match claims {
                Some(c) => Some(*c),
                None => None,
            },
        ),
{
    match claims {
        None => Err(Rejection::new(STATUS_UNAUTHORIZED, "Unauthorized")),
        Some(c) => {
            if !is_super_admin(c) {
                return Err(Rejection::new(STATUS_FORBIDDEN, "Only super admin can manage board members"));
            }
            match parse_uuid(c.sub.as_str()) {
                Some(id) => Ok(id),
                None => Err(Rejection::new(STATUS_UNAUTHORIZED, "Invalid token")),
            }
        },
    }
}

/// The guard of changing or removing a board member, refusing others with `denied`.
pub open spec fn change_guard_passed(r: Result<(), Rejection>, claims: Option<Claims>, denied: Seq<char>) -> bool {
    match claims {
        None => r matches Err(e) && e.is(STATUS_UNAUTHORIZED, "Unauthorized"@),
        Some(c) => if grants_super(c.role@) {
            r is Ok
        } else {
            r matches Err(e) && e.is(STATUS_FORBIDDEN, denied)
        },
    }
}

/// Lets a super admin through; refuses others with `denied`.
fn super_admin_guard(claims: Option<&Claims>, denied: &str) -> (r: Result<(), Rejection>)
    ensures
        change_guard_passed(
            r,
            match claims {
                Some(c) => Some(*c),
                None => None,
            },
            denied@,
        ),
{
    match claims {
        None => Err(Rejection::new(STATUS_UNAUTHORIZED, "Unauthorized")),
        Some(c) => if is_super_admin(c) {
            Ok(())
        } else {
            Err(Rejection::new(STATUS_FORBIDDEN, denied))
        },
    }
}

/// Lets a super admin change a board member.
pub fn authorize_update(claims: Option<&Claims>) -> (r: Result<(), Rejection>)
    ensures
        change_guard_passed(
            r,
            match claims {
                Some(c) => Some(*c),
                None => None,
            },
            "Only super admins can manage board members"@,
        ),
{
    super_admin_guard(claims, "Only super admins can manage board members")
}

/// Lets a super admin remove a board member.
pub fn authorize_delete(claims: Option<&Claims>) -> (r: Result<(), Rejection>)
    ensures
        change_guard_passed(
            r,
            match claims {
                Some(c) => Some(*c),
                None => None,
            },
            "Only super admin can manage board members"@,
        ),
{
    super_admin_guard(claims, "Only super admin can manage board members")
}

/// The values a new board member is stored with.
pub struct NewBoardMember {
    pub full_name: String,
    pub title: String,
    pub bio: Option<String>,
    pub image_url: Option<String>,
    pub sort_order: i32,
    pub is_published: bool,
    pub created_by: u128,
}

/// `r` is the board member `body` asks for as stored by `author`: published
/// and sort order 0 unless given, the other fields as sent.
pub open spec fn board_member_prepared(r: NewBoardMember, body: CreateBoardMemberRequest, author: u128) -> bool {
    &&& r.full_name == body.full_name
    &&& r.title == body.title
    &&& r.bio == body.bio
    &&& r.image_url == body.image_url
    &&& r.sort_order == match body.sort_order {
        Some(s) => s,
        None => 0i32,
    }
    &&& r.is_published == match body.is_published {
        Some(b) => b,
        None => true,
    }
    &&& r.created_by == author
}

/// Prepares a new board member: published and sort order 0 unless given.
pub fn new_board_member(body: CreateBoardMemberRequest, author: u128) -> (r: NewBoardMember)
    ensures
        board_member_prepared(r, body, author),
        r.full_name == body.full_name,
        r.title == body.title,
        r.bio == body.bio,
        r.image_url == body.image_url,
        r.created_by == author,
        body.is_published is None ==> r.is_published,
        forall|b: bool| body.is_published == Some(b) ==> r.is_published == b,
        body.sort_order is None ==> r.sort_order == 0,
        forall|s: i32| body.sort_order == Some(s) ==> r.sort_order == s,
{
    let sort_order = match body.sort_order {
        Some(s) => s,
        None => 0,
    };
    let is_published = match body.is_published {
        Some(b) => b,
        None => true,
    };
    NewBoardMember {
        full_name: body.full_name,
        title: body.title,
        bio: body.bio,
        image_url: body.image_url,
        sort_order,
        is_published,
        created_by: author,
    }
}

/// Answer to the public listing of published board members.
pub fn list_public<T>(res: Result<T, DbError>) -> (r: Reply<T>)
    ensures
        loaded_reply(r, res, None, "Failed to fetch board members"@),
{
    answer_loaded(res, None, "Failed to fetch board members")
}

/// Answer to the admin listing of all board members.
pub fn list_admin<T>(res: Result<T, DbError>) -> (r: Reply<T>)
    ensures
        loaded_reply(r, res, None, "Failed to fetch board members"@),
{
    answer_loaded(res, None, "Failed to fetch board members")
}

/// The board-member creation endpoint: only a super admin whose claims name
/// an account gets on to storage; the prepared member, with the caller as
/// author, is stored and answered with 201.
pub open spec fn creates_board_member<T>(
    r: Action<NewBoardMember, T>,
    step: Step<(Option<&Claims>, CreateBoardMemberRequest), Result<T, DbError>>,
) -> bool {
    match step {
        Step::Begin((claims, body)) => match board_create_refusal(owned_claims(claims)) {
            Some(x) => r.refuses(x),
            None => r matches Action::Proceed(m) && board_member_prepared(m, body, claimed_id(claims)),
        },
        Step::Done(res) => r matches Action::Answer(reply) && created_reply(
            reply,
            res,
            "Board member created"@,
            None,
            "Failed to create board member"@,
        ),
    }
}

/// Adding a board member.
pub fn create<T>(step: Step<(Option<&Claims>, CreateBoardMemberRequest), Result<T, DbError>>) -> (r: Action<
    NewBoardMember,
    T,
>)
    ensures
        creates_board_member(r, step),
{
    match step {
        Step::Begin((claims, body)) => match authorize_create(claims) {
            Ok(author) => Action::Proceed(new_board_member(body, author)),
            Err(rej) => refuse(rej),
        },
        Step::Done(res) => Action::Answer(
            answer_created(res, "Board member created", None, "Failed to create board member"),
        ),
    }
}

/// The board-member changing endpoint: only a super admin gets on to
/// storage, where the changes are stored as sent.
pub open spec fn updates_board_member<T>(
    r: Action<UpdateBoardMemberRequest, T>,
    step: Step<(Option<&Claims>, UpdateBoardMemberRequest), Result<Option<T>, DbError>>,
) -> bool {
    match step {
        Step::Begin((claims, body)) => match board_change_refusal(
            owned_claims(claims),
            "Only super admins can manage board members"@,
        ) {
            Some(x) => r.refuses(x),
            None => r == Action::<UpdateBoardMemberRequest, T>::Proceed(body),
        },
        Step::Done(found) => r matches Action::Answer(reply) && found_reply(
            reply,
            found,
            Some("Board member updated"@),
            "Board member not found"@,
            "Failed to upload board member"@,
        ),
    }
}

/// Changing a board member.
pub fn update<T>(step: Step<(Option<&Claims>, UpdateBoardMemberRequest), Result<Option<T>, DbError>>) -> (r:
    Action<UpdateBoardMemberRequest, T>)
    ensures
        updates_board_member(r, step),
{
    match step {
        Step::Begin((claims, body)) => match authorize_update(claims) {
            Err(rej) => refuse(rej),
            Ok(()) => Action::Proceed(body),
        },
        Step::Done(found) => Action::Answer(
            answer_found(found, Some("Board member updated"), "Board member not found", "Failed to upload board member"),
        ),
    }
}

/// The board-member removal endpoint: only a super admin gets on to removing
/// the member `id`.
pub open spec fn deletes_board_member(
    r: Action<u128, Notice>,
    step: Step<(Option<&Claims>, u128), Result<Option<u128>, DbError>>,
) -> bool {
    match step {
        Step::Begin((claims, id)) => match board_change_refusal(
            owned_claims(claims),
            "Only super admin can manage board members"@,
        ) {
            Some(x) => r.refuses(x),
            None => r == Action::<u128, Notice>::Proceed(id),
        },
        Step::Done(res) => r matches Action::Answer(reply) && removed_reply(
            reply,
            res,
            "Board member deleted"@,
            "Board member not found"@,
            "Failed to delete board member"@,
        ),
    }
}

/// Removing a board member.
pub fn delete(step: Step<(Option<&Claims>, u128), Result<Option<u128>, DbError>>) -> (r: Action<u128, Notice>)
    ensures
        deletes_board_member(r, step),
{
    match step {
        Step::Begin((claims, id)) => match authorize_delete(claims) {
            Err(rej) => refuse(rej),
            Ok(()) => Action::Proceed(id),
        },
        Step::Done(res) => Action::Answer(
            answer_removed(res, "Board member deleted", "Board member not found", "Failed to delete board member"),
        ),
    }
}

/// Only a super admin changes the board: every other caller is answered at
/// once, and nothing is added, changed or removed.
pub proof fn only_super_admin_manages_board<T>(
    created: Action<NewBoardMember, T>,
    changed: Action<UpdateBoardMemberRequest, T>,
    removed: Action<u128, Notice>,
    claims: Option<&Claims>,
    new_member: CreateBoardMemberRequest,
    changes: UpdateBoardMemberRequest,
    id: u128,
)
    requires
        creates_board_member(created, Step::Begin((claims, new_member))),
        updates_board_member(changed, Step::Begin((claims, changes))),
        deletes_board_member(removed, Step::Begin((claims, id))),
        !(claims matches Some(c) && grants_super(c.role@)),
    ensures
        created is Answer,
        changed is Answer,
        removed is Answer,
{
}

/// What storage reports for removing the member `id` from a table whose
/// members have the ids `rows`: a removal reports the id of the row it
/// removed, and nothing when there was none.
pub open spec fn removal_outcome(rows: Set<u128>, id: u128) -> Result<Option<u128>, DbError> {
    Ok(
        if rows.contains(id) {
            Some(id)
        } else {
            None
        },
    )
}

/// Removing a board member twice: a super admin's first removal of a member
/// that is there goes on to storage, removes it and is answered "Board
/// member deleted"; the second goes on to storage too, finds nothing, is
/// answered 404 "Board member not found" and leaves the table as the first
/// left it.
pub proof fn removing_a_member_twice(
    first_begin: Action<u128, Notice>,
    first: Action<u128, Notice>,
    second_begin: Action<u128, Notice>,
    second: Action<u128, Notice>,
    claims: Option<&Claims>,
    rows: Set<u128>,
    id: u128,
)
    requires
        claims matches Some(c) && grants_super(c.role@),
        rows.contains(id),
        deletes_board_member(first_begin, Step::Begin((claims, id))),
        deletes_board_member(first, Step::Done(removal_outcome(rows, id))),
        deletes_board_member(second_begin, Step::Begin((claims, id))),
        deletes_board_member(second, Step::Done(removal_outcome(rows.remove(id), id))),
    ensures
        first_begin == Action::<u128, Notice>::Proceed(id),
        second_begin == Action::<u128, Notice>::Proceed(id),
        first matches Action::Answer(r) && is_notice(r, STATUS_OK, "Board member deleted"@),
        second matches Action::Answer(r) && r.is_failure(STATUS_NOT_FOUND, "Board member not found"@),
        rows.remove(id).remove(id) == rows.remove(id),
{
    assert(rows.remove(id).remove(id) =~= rows.remove(id));
}

/// A new board member is stored as it was sent: an addition that goes
/// ahead (a super admin's) stores the name, title, biography and picture
/// exactly as the request carried them, with the caller as author; only the
/// sort order (0) and publication (on) are filled in, and only when absent.
pub proof fn added_board_members_keep_what_was_sent<T>(
    r: Action<NewBoardMember, T>,
    claims: Option<&Claims>,
    body: CreateBoardMemberRequest,
)
    requires
        creates_board_member(r, Step::Begin((claims, body))),
        r is Proceed,
    ensures
        r->Proceed_0.full_name == body.full_name,
        r->Proceed_0.title == body.title,
        r->Proceed_0.bio == body.bio,
        r->Proceed_0.image_url == body.image_url,
        claims matches Some(c) && grants_super(c.role@) && uuid_from_text(c.sub@) == Some(
            r->Proceed_0.created_by,
        ),
        body.is_published is None ==> r->Proceed_0.is_published,
        forall|b: bool| body.is_published == Some(b) ==> r->Proceed_0.is_published == b,
        body.sort_order is None ==> r->Proceed_0.sort_order == 0,
        forall|s: i32| body.sort_order == Some(s) ==> r->Proceed_0.sort_order == s,
{
}

} // verus!
