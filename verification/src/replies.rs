//! How an endpoint turns the outcome of its storage work into an answer.
use vstd::prelude::*;
use crate::models::{
    ApiError, ApiResponse, DbError, Notice, Rejection, Reply, STATUS_CONFLICT, STATUS_CREATED,
    STATUS_INTERNAL_ERROR, STATUS_NOT_FOUND, STATUS_OK,
};
use crate::text::{contains_text, occurs_in};

verus! {

/// What an endpoint is handed at each of its two steps: first the caller
/// and the request, then the outcome of the storage work it asked for.
pub enum Step<I, O> {
    Begin(I),
    Done(O),
}

/// What an endpoint does next: go on to storage with the values `P` it
/// computed, or answer now (a refusal, or the final reply). An answer at the
/// first step means that nothing is stored.
pub enum Action<P, T> {
    Proceed(P),
    Answer(Reply<T>),
}

impl<P, T> Action<P, T> {
    /// The action answers now with the error `refusal.1` and status `refusal.0`.
    pub open spec fn refuses(self, refusal: (u16, Seq<char>)) -> bool {
        &&& self matches Action::Answer(r)
        &&& r.is_failure(refusal.0, refusal.1)
    }
}

/// A check's outcome: refused as `refusal` says (status and text), or passed.
pub open spec fn refused_with<X>(r: Result<X, Rejection>, refusal: Option<(u16, Seq<char>)>) -> bool {
    match refusal {
        Some(x) => r matches Err(e) && e.is(x.0, x.1),
        None => r is Ok,
    }
}

/// Answers now with a refusal.
pub fn refuse<P, T>(rejection: Rejection) -> (r: Action<P, T>)
    ensures
        forall|s: u16, t: Seq<char>| rejection.is(s, t) ==> #[trigger] r.refuses((s, t)),
{
    Action::Answer(Reply::refused(rejection))
}

/// The text by which the storage layer reports a violated uniqueness rule.
pub open spec fn unique_violation(e: DbError) -> bool {
    occurs_in(e.message@, "unique"@)
}

/// Answer to a lookup or change of one record: the record with status 200
/// (and `message`, if any), `missing` with 404 when there is none, `failed`
/// with 500 when storage failed.
pub open spec fn found_reply<T>(
    r: Reply<T>,
    found: Result<Option<T>, DbError>,
    message: Option<Seq<char>>,
    missing: Seq<char>,
    failed: Seq<char>,
) -> bool {
    match found {
        Ok(Some(v)) => r.is_success(STATUS_OK, v, message),
        Ok(None) => r.is_failure(STATUS_NOT_FOUND, missing),
        Err(_) => r.is_failure(STATUS_INTERNAL_ERROR, failed),
    }
}

/// Answer to a query that always yields a value: it with status 200 (and
/// `message`, if any), or `failed` with 500 when storage failed.
pub open spec fn loaded_reply<T>(
    r: Reply<T>,
    res: Result<T, DbError>,
    message: Option<Seq<char>>,
    failed: Seq<char>,
) -> bool {
    match res {
        Ok(v) => r.is_success(STATUS_OK, v, message),
        Err(_) => r.is_failure(STATUS_INTERNAL_ERROR, failed),
    }
}

/// Answer to an insert: the new record with 201 and `done`; when storage
/// failed, `conflict` with 409 if one is given and the failure is a uniqueness
/// violation, else `failed` with 500.
pub open spec fn created_reply<T>(
    r: Reply<T>,
    res: Result<T, DbError>,
    done: Seq<char>,
    conflict: Option<Seq<char>>,
    failed: Seq<char>,
) -> bool {
    match res {
        Ok(v) => r.is_success(STATUS_CREATED, v, Some(done)),
        Err(e) => match conflict {
            Some(c) => if unique_violation(e) {
                r.is_failure(STATUS_CONFLICT, c)
            } else {
                r.is_failure(STATUS_INTERNAL_ERROR, failed)
            },
            None => r.is_failure(STATUS_INTERNAL_ERROR, failed),
        },
    }
}

/// The reply carries the notice `text` with status `status` and no message.
pub open spec fn is_notice(r: Reply<Notice>, status: u16, text: Seq<char>) -> bool {
    &&& r.status == status
    &&& r.body matches Ok(b)
    &&& b.success
    &&& b.data matches Some(n)
    &&& n.message@ == text
    &&& b.message is None
    &&& b.error is None
}

/// Answer to a removal (or other change that returns only an id): the notice
/// `done` with 200, `missing` with 404 when nothing matched, `failed` with 500.
pub open spec fn removed_reply(
    r: Reply<Notice>,
    res: Result<Option<u128>, DbError>,
    done: Seq<char>,
    missing: Seq<char>,
    failed: Seq<char>,
) -> bool {
    match res {
        Ok(Some(_)) => is_notice(r, STATUS_OK, done),
        Ok(None) => r.is_failure(STATUS_NOT_FOUND, missing),
        Err(_) => r.is_failure(STATUS_INTERNAL_ERROR, failed),
    }
}

/// A failure reply with status `status` and error text `text`.
pub fn failure<T>(status: u16, text: &str) -> (r: Reply<T>)
    ensures
        r.is_failure(status, text@),
{
    Reply { status, body: Err(ApiError::new(text)) }
}

/// A success reply with status `status`, carrying `data` and `message`.
pub fn success<T>(status: u16, data: T, message: Option<&str>) -> (r: Reply<T>)
    ensures
        r.is_success(
            status,
            data,
            match message {
                Some(m) => Some(m@),
                None => None,
            },
        ),
{
    match message {
        Some(m) => Reply { status, body: Ok(ApiResponse::success_message(data, m)) },
        None => Reply { status, body: Ok(ApiResponse::success(data)) },
    }
}

/// The notice `text` with status 200.
pub fn notice(text: &str) -> (r: Reply<Notice>)
    ensures
        is_notice(r, STATUS_OK, text@),
{
    Reply {
        status: STATUS_OK,
        body: Ok(ApiResponse::success(Notice { message: text.to_string() })),
    }
}

/// Answers a lookup or change of one record.
pub fn answer_found<T>(
    found: Result<Option<T>, DbError>,
    message: Option<&str>,
    missing: &str,
    failed: &str,
) -> (r: Reply<T>)
    ensures
        found_reply(
            r,
            found,
            match message {
                Some(m) => Some(m@),
                None => None,
            },
            missing@,
            failed@,
        ),
{
    match found {
        Ok(Some(v)) => success(STATUS_OK, v, message),
        Ok(None) => failure(STATUS_NOT_FOUND, missing),
        Err(_) => failure(STATUS_INTERNAL_ERROR, failed),
    }
}

/// Answers a query that always yields a value.
pub fn answer_loaded<T>(res: Result<T, DbError>, message: Option<&str>, failed: &str) -> (r: Reply<T>)
    ensures
        loaded_reply(
            r,
            res,
            match message {
                Some(m) => Some(m@),
                None => None,
            },
            failed@,
        ),
{
    match res {
        Ok(v) => success(STATUS_OK, v, message),
        Err(_) => failure(STATUS_INTERNAL_ERROR, failed),
    }
}

/// Answers an insert.
pub fn answer_created<T>(
    res: Result<T, DbError>,
    done: &str,
    conflict: Option<&str>,
    failed: &str,
) -> (r: Reply<T>)
    ensures
        created_reply(
            r,
            res,
            done@,
            match conflict {
                Some(c) => Some(c@),
                None => None,
            },
            failed@,
        ),
{
    match res {
        Ok(v) => success(STATUS_CREATED, v, Some(done)),
        Err(e) => match conflict {
            Some(c) => if contains_text(e.message.as_str(), "unique") {
                failure(STATUS_CONFLICT, c)
            } else {
                failure(STATUS_INTERNAL_ERROR, failed)
            },
            None => failure(STATUS_INTERNAL_ERROR, failed),
        },
    }
}

/// Answers a removal.
pub fn answer_removed(
    res: Result<Option<u128>, DbError>,
    done: &str,
    missing: &str,
    failed: &str,
) -> (r: Reply<Notice>)
    ensures
        removed_reply(r, res, done@, missing@, failed@),
{
    match res {
        Ok(Some(_)) => notice(done),
        Ok(None) => failure(STATUS_NOT_FOUND, missing),
        Err(_) => failure(STATUS_INTERNAL_ERROR, failed),
    }
}

/// What a lookup answers follows what storage found: the record with 200,
/// 404 with `missing` when there was none, 500 with `failed` when storage
/// failed.
pub proof fn lookups_answer_what_was_found<T>(
    r: Reply<T>,
    found: Result<Option<T>, DbError>,
    message: Option<Seq<char>>,
    missing: Seq<char>,
    failed: Seq<char>,
    v: T,
)
    requires
        found_reply(r, found, message, missing, failed),
    ensures
        found == Ok::<Option<T>, DbError>(Some(v)) ==> (r.status == 200 && (r.body matches Ok(b)
            && b.data == Some(v) && b.success)),
        found == Ok::<Option<T>, DbError>(None) ==> (r.status == 404 && (r.body matches Err(e)
            && e.error@ == missing)),
        found is Err ==> (r.status == 500 && (r.body matches Err(e) && e.error@ == failed)),
{
}

/// What an insert answers follows what storage did: the new record with 201
/// and `done`; a uniqueness violation, where a conflict text is given, 409;
/// any other failure 500 with `failed`.
pub proof fn inserts_answer_what_was_stored<T>(
    r: Reply<T>,
    res: Result<T, DbError>,
    done: Seq<char>,
    conflict: Option<Seq<char>>,
    failed: Seq<char>,
    v: T,
    c: Seq<char>,
)
    requires
        created_reply(r, res, done, conflict, failed),
    ensures
        res == Ok::<T, DbError>(v) ==> (r.status == 201 && (r.body matches Ok(b) && b.data == Some(v)
            && (b.message matches Some(m) && m@ == done))),
        (res matches Err(e) && unique_violation(e) && conflict == Some(c)) ==> (r.status == 409 && (
        r.body matches Err(x) && x.error@ == c)),
        (res matches Err(e) && !(unique_violation(e) && conflict is Some)) ==> (r.status == 500 && (
        r.body matches Err(x) && x.error@ == failed)),
{
}

/// What a removal answers follows what storage removed: 200 with the notice
/// `done`, 404 with `missing` when nothing matched, 500 with `failed`.
pub proof fn removals_answer_what_was_removed(
    r: Reply<Notice>,
    res: Result<Option<u128>, DbError>,
    done: Seq<char>,
    missing: Seq<char>,
    failed: Seq<char>,
)
    requires
        removed_reply(r, res, done, missing, failed),
    ensures
        (res matches Ok(Some(_))) ==> (r.status == 200 && (r.body matches Ok(b) && (b.data matches Some(
            n) && n.message@ == done))),
        res == Ok::<Option<u128>, DbError>(None) ==> (r.status == 404 && (r.body matches Err(e)
            && e.error@ == missing)),
        res is Err ==> (r.status == 500 && (r.body matches Err(e) && e.error@ == failed)),
{
}

} // verus!
