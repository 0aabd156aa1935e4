//! Logging in, sessions and the caller's own account.
use vstd::prelude::*;
use crate::access::{grants_admin, grants_super, role_grants};
use crate::crypto::{bcrypt_verdict, password_matches};
use crate::ids::{parse_uuid, uuid_from_text, uuid_text, uuid_to_text};
use crate::models::{
    Claims, DbError, LoginRequest, LoginResponse, Rejection, Reply, TokenData, User, UserPublic,
    UserRole, STATUS_INTERNAL_ERROR, STATUS_OK, STATUS_UNAUTHORIZED,
};
use crate::replies::{answer_found, failure, found_reply, refuse, success, Action, Step};
use crate::text::{lowercase, to_lowercase};

verus! {

/// How long a session token stays valid, in seconds (a day).
pub const SESSION_SECONDS: i64 = 86400;

/// `c` is the claims of a session token issued at `now` (seconds since the
/// Unix epoch) to the account `user_id` with role `role`.
pub open spec fn issued(c: Claims, user_id: u128, role: UserRole, now: i64) -> bool {
    &&& c.sub@ == uuid_text(user_id)
    &&& uuid_from_text(c.sub@) == Some(user_id)
    &&& c.role@ == role.name()
    &&& c.iat == now as usize
    &&& c.exp == (now + SESSION_SECONDS) as usize
}

/// The e-mail address an account is looked up by: the one given, lower-cased.
pub fn login_email(body: &LoginRequest) -> (r: String)
    ensures
        r@ == lowercase(body.email@),
{
    to_lowercase(body.email.as_str())
}

/// The outcome of checking a password against the account the e-mail
/// address found: only an active account whose stored hash accepts the
/// password passes; an unknown address, a deactivated account and a wrong
/// password get the same refusal.
pub open spec fn credentials_checked(
    r: Result<User, Rejection>,
    found: Result<Option<User>, DbError>,
    password: Seq<char>,
) -> bool {
    match found {
        Ok(Some(u)) => if u.is_active && bcrypt_verdict(password, u.password_hash@) == Some(true) {
            r == Ok::<User, Rejection>(u)
        } else {
            r matches Err(e) && e.is(STATUS_UNAUTHORIZED, "Invalid credentials"@)
        },
        Ok(None) => r matches Err(e) && e.is(STATUS_UNAUTHORIZED, "Invalid credentials"@),
        Err(_) => r matches Err(e) && e.is(STATUS_INTERNAL_ERROR, "Internal server error"@),
    }
}

/// Checks `password` against the account found for the login e-mail. An
/// unknown address, a deactivated account and a wrong password get the same
/// answer.
pub fn check_credentials(found: Result<Option<User>, DbError>, password: &str) -> (r: Result<User, Rejection>)
    ensures
        credentials_checked(r, found, password@),
{
    match found {
        Ok(Some(u)) => {
            if u.is_active && password_matches(password, u.password_hash.as_str()) {
                Ok(u)
            } else {
                Err(Rejection::new(STATUS_UNAUTHORIZED, "Invalid credentials"))
            }
        },
        Ok(None) => Err(Rejection::new(STATUS_UNAUTHORIZED, "Invalid credentials")),
        Err(_) => Err(Rejection::new(STATUS_INTERNAL_ERROR, "Internal server error")),
    }
}

/// The claims of a session token for `user`, issued at `now` and valid for
/// `SESSION_SECONDS`.
pub fn session_claims(user: &User, now: i64) -> (c: Claims)
    requires
        now <= i64::MAX - SESSION_SECONDS,
    ensures
        issued(c, user.id, user.role, now),
{
    Claims {
        sub: uuid_to_text(user.id),
        role: user.role.to_string(),
        exp: (now + SESSION_SECONDS) as usize,
        iat: now as usize,
    }
}

/// Answer to a login once the token was (or could not be) signed: the token
/// and the public account, or an error when signing failed.
pub fn login_reply(signed: Result<String, ()>, user: User) -> (r: Reply<LoginResponse>)
    ensures
        match signed {
            Ok(t) => r.is_success(STATUS_OK, LoginResponse { token: t, user: UserPublic::of(user) }, None),
            Err(_) => r.is_failure(STATUS_INTERNAL_ERROR, "Failed to generate token"@),
        },
{
    match signed {
        Ok(token) => success(STATUS_OK, LoginResponse { token, user: UserPublic::from(user) }, None),
        Err(_) => failure(STATUS_INTERNAL_ERROR, "Failed to generate token"),
    }
}

/// Answer to a logout (tokens are not tracked, so there is nothing to undo).
pub fn logout() -> (r: Reply<String>)
    ensures
        r.status == STATUS_OK,
        match r.body {
            Ok(b) => b.success && (b.data matches Some(d) && d@ == "Logged out successfully"@)
                && b.message is None && b.error is None,
            Err(_) => false,
        },
{
    success(STATUS_OK, "Logged out successfully".to_string(), None)
}

/// The outcome of reading the caller's account id from the guard's claims.
pub open spec fn session_checked(r: Result<u128, Rejection>, claims: Option<Claims>) -> bool {
    match claims {
        None => r matches Err(e) && e.is(STATUS_UNAUTHORIZED, "Unauthorized"@),
        Some(c) => match uuid_from_text(c.sub@) {
            Some(id) => r == Ok::<u128, Rejection>(id),
            None => r matches Err(e) && e.is(STATUS_UNAUTHORIZED, "Invalid token"@),
        },
    }
}

/// The caller's account id, read from the subject of the guard's claims.
pub fn session_user(claims: Option<&Claims>) -> (r: Result<u128, Rejection>)
    ensures
        session_checked(
            r,
            match claims {
                Some(c) => Some(*c),
                None => None,
            },
        ),
{
    match claims {
        None => Err(Rejection::new(STATUS_UNAUTHORIZED, "Unauthorized")),
        Some(c) => match parse_uuid(c.sub.as_str()) {
            Some(id) => Ok(id),
            None => Err(Rejection::new(STATUS_UNAUTHORIZED, "Invalid token")),
        },
    }
}

/// The public view of a looked-up account.
pub open spec fn public_found(found: Result<Option<User>, DbError>) -> Result<Option<UserPublic>, DbError> {
    match found {
        Ok(Some(u)) => Ok(Some(UserPublic::of(u))),
        Ok(None) => Ok(None),
        Err(e) => Err(e),
    }
}

/// Turns a looked-up account into its public view.
pub fn publish_found(found: Result<Option<User>, DbError>) -> (r: Result<Option<UserPublic>, DbError>)
    ensures
        r == public_found(found),
{
    match found {
        Ok(Some(u)) => Ok(Some(UserPublic::from(u))),
        Ok(None) => Ok(None),
        Err(e) => Err(e),
    }
}

/// The claims the token check left, as values.
pub open spec fn owned_claims(claims: Option<&Claims>) -> Option<Claims> {
    match claims {
        Some(c) => Some(*c),
        None => None,
    }
}

/// Why a session endpoint refuses the caller, if it does, given the claims.
pub open spec fn session_refusal(claims: Option<Claims>) -> Option<(u16, Seq<char>)> {
    match claims {
        None => Some((STATUS_UNAUTHORIZED, "Unauthorized"@)),
        Some(c) => match uuid_from_text(c.sub@) {
            Some(_) => None,
            None => Some((STATUS_UNAUTHORIZED, "Invalid token"@)),
        },
    }
}

/// The "who am I" endpoint: the caller's account id is read from the claims
/// (or the caller refused), then that account is shown.
pub open spec fn answers_me(r: Action<u128, UserPublic>, step: Step<Option<&Claims>, Result<Option<User>, DbError>>) -> bool {
    match step {
        Step::Begin(claims) => match session_refusal(owned_claims(claims)) {
            Some(x) => r.refuses(x),
            None => r == Action::<u128, UserPublic>::Proceed(uuid_from_text(claims->0.sub@)->0),
        },
        Step::Done(found) => r matches Action::Answer(reply) && found_reply(
            reply,
            public_found(found),
            None,
            "User not found"@,
            "Internal server error"@,
        ),
    }
}

/// "Who am I": the caller's public account.
pub fn me(step: Step<Option<&Claims>, Result<Option<User>, DbError>>) -> (r: Action<u128, UserPublic>)
    ensures
        answers_me(r, step),
{
    match step {
        Step::Begin(claims) => match session_user(claims) {
            Ok(id) => Action::Proceed(id),
            Err(rej) => refuse(rej),
        },
        Step::Done(found) => Action::Answer(
            answer_found(publish_found(found), None, "User not found", "Internal server error"),
        ),
    }
}

/// The account a session is renewed for: a missing or deactivated account
/// is refused alike.
pub fn refresh_account(found: Result<Option<User>, DbError>) -> (r: Result<User, Rejection>)
    ensures
        match found {
            Ok(Some(u)) => if u.is_active {
                r == Ok::<User, Rejection>(u)
            } else {
                r matches Err(e) && e.is(STATUS_UNAUTHORIZED, "User not found"@)
            },
            Ok(None) => r matches Err(e) && e.is(STATUS_UNAUTHORIZED, "User not found"@),
            Err(_) => r matches Err(e) && e.is(STATUS_INTERNAL_ERROR, "Internal server error"@),
        },
{
    match found {
        Ok(Some(u)) => if u.is_active {
            Ok(u)
        } else {
            Err(Rejection::new(STATUS_UNAUTHORIZED, "User not found"))
        },
        Ok(None) => Err(Rejection::new(STATUS_UNAUTHORIZED, "User not found")),
        Err(_) => Err(Rejection::new(STATUS_INTERNAL_ERROR, "Internal server error")),
    }
}

/// What the session-renewal endpoint is handed at each step: the claims,
/// then the caller's active account as looked up together with the time
/// (seconds since the Unix epoch), then the outcome of signing the new claims.
pub enum RefreshStep<'a> {
    Begin(Option<&'a Claims>),
    Found(Result<Option<User>, DbError>, i64),
    Signed(Result<String, ()>),
}

/// What the session-renewal endpoint does next: look up the active account
/// with this id, sign these claims, or answer.
pub enum RefreshAction {
    Lookup(u128),
    Sign(Claims),
    Answer(Reply<TokenData>),
}

impl RefreshAction {
    /// The action answers now with the error `refusal.1` and status `refusal.0`.
    pub open spec fn refuses(self, refusal: (u16, Seq<char>)) -> bool {
        &&& self matches RefreshAction::Answer(r)
        &&& r.is_failure(refusal.0, refusal.1)
    }
}

/// The session-renewal endpoint: a caller whose claims name no account id is
/// refused; an account that is not found or not active is refused; else a
/// day-long token is signed for the account as it now stands (its role is the
/// stored one, not the one in the old claims) and handed out.
pub open spec fn renews_session(r: RefreshAction, step: RefreshStep) -> bool {
    match step {
        RefreshStep::Begin(claims) => match session_refusal(owned_claims(claims)) {
            Some(x) => r.refuses(x),
            None => r == RefreshAction::Lookup(uuid_from_text(claims->0.sub@)->0),
        },
        RefreshStep::Found(found, now) => match found {
            Ok(Some(u)) => if u.is_active {
                r matches RefreshAction::Sign(c) && issued(c, u.id, u.role, now)
            } else {
                r.refuses((STATUS_UNAUTHORIZED, "User not found"@))
            },
            Ok(None) => r.refuses((STATUS_UNAUTHORIZED, "User not found"@)),
            Err(_) => r.refuses((STATUS_INTERNAL_ERROR, "Internal server error"@)),
        },
        RefreshStep::Signed(signed) => r matches RefreshAction::Answer(reply) && match signed {
            Ok(t) => reply.is_success(STATUS_OK, TokenData { token: t }, None),
            Err(_) => reply.is_failure(STATUS_INTERNAL_ERROR, "Failed to generate token"@),
        },
    }
}

/// Renewing the caller's session.
pub fn refresh_token(step: RefreshStep) -> (r: RefreshAction)
    requires
        step matches RefreshStep::Found(_, now) ==> now <= i64::MAX - SESSION_SECONDS,
    ensures
        renews_session(r, step),
{
    match step {
        RefreshStep::Begin(claims) => match session_user(claims) {
            Ok(id) => RefreshAction::Lookup(id),
            Err(rej) => RefreshAction::Answer(Reply::refused(rej)),
        },
        RefreshStep::Found(found, now) => match refresh_account(found) {
            Ok(user) => RefreshAction::Sign(session_claims(&user, now)),
            Err(rej) => RefreshAction::Answer(Reply::refused(rej)),
        },
        RefreshStep::Signed(signed) => match signed {
            Ok(token) => RefreshAction::Answer(success(STATUS_OK, TokenData { token }, None)),
            Err(_) => RefreshAction::Answer(failure(STATUS_INTERNAL_ERROR, "Failed to generate token")),
        },
    }
}

/// What the login endpoint is handed at each step: the credentials sent,
/// then the active account found for the e-mail address with the password
/// sent and the time (seconds since the Unix epoch), then the outcome of
/// signing the session claims with the account they were made for.
pub enum LoginStep<'a> {
    Begin(&'a LoginRequest),
    Found(Result<Option<User>, DbError>, &'a str, i64),
    Signed(Result<String, ()>, User),
}

/// What the login endpoint does next: look up the active account with this
/// e-mail address, record the login of this account and sign these claims,
/// or answer.
pub enum LoginAction {
    Lookup(String),
    Issue(User, Claims),
    Answer(Reply<LoginResponse>),
}

impl LoginAction {
    /// The action answers now with the error `refusal.1` and status `refusal.0`.
    pub open spec fn refuses(self, refusal: (u16, Seq<char>)) -> bool {
        &&& self matches LoginAction::Answer(r)
        &&& r.is_failure(refusal.0, refusal.1)
    }
}

/// The login endpoint: the account is looked up by the lower-cased e-mail
/// address; an unknown address, a deactivated account and a wrong password
/// get the same refusal; for the right password of an active account a
/// day-long token is issued for that account and handed out with the public
/// account.
pub open spec fn logs_in(r: LoginAction, step: LoginStep) -> bool {
    match step {
        LoginStep::Begin(body) => r matches LoginAction::Lookup(e) && e@ == lowercase(body.email@),
        LoginStep::Found(found, password, now) => match found {
            Ok(Some(u)) => if u.is_active && bcrypt_verdict(password@, u.password_hash@) == Some(true) {
                r matches LoginAction::Issue(v, c) && v == u && issued(c, u.id, u.role, now)
            } else {
                r.refuses((STATUS_UNAUTHORIZED, "Invalid credentials"@))
            },
            Ok(None) => r.refuses((STATUS_UNAUTHORIZED, "Invalid credentials"@)),
            Err(_) => r.refuses((STATUS_INTERNAL_ERROR, "Internal server error"@)),
        },
        LoginStep::Signed(signed, user) => r matches LoginAction::Answer(reply) && match signed {
            Ok(t) => reply.is_success(STATUS_OK, LoginResponse { token: t, user: UserPublic::of(user) }, None),
            Err(_) => reply.is_failure(STATUS_INTERNAL_ERROR, "Failed to generate token"@),
        },
    }
}

/// Logging in.
pub fn login(step: LoginStep) -> (r: LoginAction)
    requires
        step matches LoginStep::Found(_, _, now) ==> now <= i64::MAX - SESSION_SECONDS,
    ensures
        logs_in(r, step),
{
    match step {
        LoginStep::Begin(body) => LoginAction::Lookup(login_email(body)),
        LoginStep::Found(found, password, now) => match check_credentials(found, password) {
            Ok(user) => {
                let claims = session_claims(&user, now);
                LoginAction::Issue(user, claims)
            },
            Err(rej) => LoginAction::Answer(Reply::refused(rej)),
        },
        LoginStep::Signed(signed, user) => LoginAction::Answer(login_reply(signed, user)),
    }
}

/// A password stored as a hash bcrypt accepts it against logs in to its
/// active account: checking it against that account yields the account, and
/// logging in with it issues a token for that account.
pub proof fn accepted_password_logs_in(
    checked: Result<User, Rejection>,
    r: LoginAction,
    u: User,
    password: &str,
    now: i64,
)
    requires
        u.is_active,
        bcrypt_verdict(password@, u.password_hash@) == Some(true),
        credentials_checked(checked, Ok(Some(u)), password@),
        logs_in(r, LoginStep::Found(Ok(Some(u)), password, now)),
    ensures
        checked == Ok::<User, Rejection>(u),
        r matches LoginAction::Issue(v, c) && v == u && issued(c, u.id, u.role, now),
{
}

/// Two login actions are the same answer: equal status and equal error body.
pub open spec fn same_answer(a: LoginAction, b: LoginAction) -> bool {
    &&& a matches LoginAction::Answer(x)
    &&& b matches LoginAction::Answer(y)
    &&& x.status == y.status
    &&& x.body matches Err(e)
    &&& y.body matches Err(f)
    &&& e.success == f.success
    &&& e.error@ == f.error@
    &&& e.message == f.message
}

/// A refused login does not tell whether the account exists: an unknown
/// address, a deactivated account and a wrong password are answered with
/// the same 401 "Invalid credentials", whatever the time.
pub proof fn refused_logins_answer_alike(
    unknown: LoginAction,
    refused: LoginAction,
    u: User,
    password: &str,
    now: i64,
    later: i64,
)
    requires
        !(u.is_active && bcrypt_verdict(password@, u.password_hash@) == Some(true)),
        logs_in(unknown, LoginStep::Found(Ok(None), password, now)),
        logs_in(refused, LoginStep::Found(Ok(Some(u)), password, later)),
    ensures
        unknown.refuses((STATUS_UNAUTHORIZED, "Invalid credentials"@)),
        refused.refuses((STATUS_UNAUTHORIZED, "Invalid credentials"@)),
        same_answer(unknown, refused),
{
}

/// A token issued to an account names that account: reading the caller from
/// its claims gives back the account's id, its role grants exactly what the
/// account's role grants, and it expires a day after it was issued.
pub proof fn issued_token_identifies_account(
    c: Claims,
    user_id: u128,
    role: UserRole,
    now: i64,
    r: Result<u128, Rejection>,
)
    requires
        issued(c, user_id, role, now),
        session_checked(r, Some(c)),
    ensures
        r == Ok::<u128, Rejection>(user_id),
        grants_admin(c.role@) <==> (role == UserRole::SuperAdmin || role == UserRole::Admin),
        grants_super(c.role@) <==> role == UserRole::SuperAdmin,
        0 <= now && now + SESSION_SECONDS <= usize::MAX ==> c.exp == c.iat + SESSION_SECONDS,
{
    role_grants(role);
}

} // verus!
