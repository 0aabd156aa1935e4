//! Editable text blocks of the site (about pages, contact details, ...).
use vstd::prelude::*;
use crate::ids::{parse_uuid, uuid_from_text};
use crate::models::{Claims, DbError, Reply, UpdateContentRequest};
use crate::replies::{answer_found, answer_loaded, found_reply, loaded_reply, Action, Step};

verus! {

/// Answer to reading a published block by its key.
pub fn get_content<T>(found: Result<Option<T>, DbError>) -> (r: Reply<T>)
    ensures
        found_reply(r, found, None, "Content not found"@, "Failed to fetch content"@),
{
    answer_found(found, None, "Content not found", "Failed to fetch content")
}

/// Answer to reading the published "about" blocks.
pub fn get_about<T>(res: Result<T, DbError>) -> (r: Reply<T>)
    ensures
        loaded_reply(r, res, None, "Failed to fetch about content"@),
{
    answer_loaded(res, None, "Failed to fetch about content")
}

/// Answer to reading the published contact details.
pub fn get_contact_info<T>(found: Result<Option<T>, DbError>) -> (r: Reply<T>)
    ensures
        found_reply(r, found, None, "Contact info not found"@, "Failed to fetch contact info"@),
{
    answer_found(found, None, "Contact info not found", "Failed to fetch contact info")
}

/// Answer to the admin listing of all blocks.
pub fn list_content<T>(res: Result<T, DbError>) -> (r: Reply<T>)
    ensures
        loaded_reply(r, res, None, "Failed to fetch content"@),
{
    answer_loaded(res, None, "Failed to fetch content")
}

/// The account the claims name, if any.
pub open spec fn editor_of(claims: Option<&Claims>) -> Option<u128> {
    match claims {
        Some(c) => uuid_from_text(c.sub@),
        None => None,
    }
}

/// Who is recorded as having last changed a block: the caller's account id,
/// or no one when the claims are missing or their subject is no id.
pub fn editor_id(claims: Option<&Claims>) -> (r: Option<u128>)
    ensures
        r == editor_of(claims),
{
    match claims {
        Some(c) => parse_uuid(c.sub.as_str()),
        None => None,
    }
}

/// The block-changing endpoint: the changes are stored as sent, with the
/// caller recorded as the editor (no one when its claims name no account),
/// then answered.
pub open spec fn updates_content<T>(
    r: Action<(Option<u128>, UpdateContentRequest), T>,
    step: Step<(Option<&Claims>, UpdateContentRequest), Result<Option<T>, DbError>>,
) -> bool {
    match step {
        Step::Begin((claims, body)) => r == Action::<(Option<u128>, UpdateContentRequest), T>::Proceed(
            (editor_of(claims), body),
        ),
        Step::Done(found) => r matches Action::Answer(reply) && found_reply(
            reply,
            found,
            Some("Content updated successfully"@),
            "Content block not found"@,
            "Failed to update content"@,
        ),
    }
}

/// Changing a block.
pub fn update_content<T>(step: Step<(Option<&Claims>, UpdateContentRequest), Result<Option<T>, DbError>>) -> (r:
    Action<(Option<u128>, UpdateContentRequest), T>)
    ensures
        updates_content(r, step),
{
    match step {
        Step::Begin((claims, body)) => Action::Proceed((editor_id(claims), body)),
        Step::Done(found) => Action::Answer(
            answer_found(found, Some("Content updated successfully"), "Content block not found", "Failed to update content"),
        ),
    }
}

} // verus!
