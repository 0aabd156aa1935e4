//! The guard in front of the admin endpoints: a request passes only with a
//! bearer token whose claims the token decoder accepted.
use vstd::prelude::*;
use vstd::string::*;
use crate::models::{Claims, Rejection, STATUS_UNAUTHORIZED};
use crate::text::{has_prefix, starts_with};

verus! {

/// The scheme word, and the space after it, that open a bearer credential.
pub open spec fn bearer_prefix() -> Seq<char> {
    "Bearer "@
}

/// The middleware factory placed in front of the admin scope.
pub struct JwtMiddleware;

/// The middleware wrapped around the admin endpoints' service.
pub struct JwtMiddlewareService<S> {
    service: S,
}

impl<S> JwtMiddlewareService<S> {
    /// The wrapped service.
    pub closed spec fn wrapped(self) -> S {
        self.service
    }

    /// The wrapped service, to which admitted requests go.
    pub fn service(&self) -> (r: &S)
        ensures
            *r == self.wrapped(),
    {
        &self.service
    }
}

impl JwtMiddleware {
    /// Wraps `service` in the token guard.
    pub fn new_transform<S>(&self, service: S) -> (r: JwtMiddlewareService<S>)
        ensures
            r.wrapped() == service,
    {
        JwtMiddlewareService { service }
    }
}

/// The token of an `Authorization` header value: what follows `Bearer `,
/// and nothing when there is no header or it does not start so.
pub fn bearer_token(authorization: Option<&str>) -> (r: Option<String>)
    ensures
        match authorization {
            None => r is None,
            Some(h) => if starts_with(h@, bearer_prefix()) {
                r matches Some(t) && h@ == bearer_prefix() + t@
            } else {
                r is None
            },
        },
{
    match authorization {
        None => None,
        Some(h) => {
            let prefix = "Bearer ";
            if has_prefix(h, prefix) {
                let k = prefix.unicode_len();
                let n = h.unicode_len();
                let t = h.substring_char(k, n).to_string();
                assert(h@ =~= prefix@ + t@);
                Some(t)
            } else {
                None
            }
        },
    }
}

/// Decides a request at the guard. `decoded` is `None` when the request held
/// no bearer token, else what the token decoder made of the token: its
/// claims, or a refusal (bad signature, expired, malformed).
pub fn guard_decision(decoded: Option<Result<Claims, ()>>) -> (r: Result<Claims, Rejection>)
    ensures
        match decoded {
            None => r matches Err(e) && e.is(STATUS_UNAUTHORIZED, "Authorization token required"@),
            Some(Ok(c)) => r == Ok::<Claims, Rejection>(c),
            Some(Err(_)) => r matches Err(e) && e.is(STATUS_UNAUTHORIZED, "Invalid or expired token"@),
        },
{
    match decoded {
        None => Err(Rejection::new(STATUS_UNAUTHORIZED, "Authorization token required")),
        Some(Ok(c)) => Ok(c),
        Some(Err(_)) => Err(Rejection::new(STATUS_UNAUTHORIZED, "Invalid or expired token")),
    }
}

/// A header made of `Bearer ` and a token starts with the prefix, and the
/// token after the prefix is the one that was put there.
pub proof fn bearer_header_carries_token(token: Seq<char>, other: Seq<char>)
    ensures
        starts_with(bearer_prefix() + token, bearer_prefix()),
        bearer_prefix() + token == bearer_prefix() + other ==> token == other,
{
    let p = bearer_prefix();
    assert((p + token).subrange(0, p.len() as int) =~= p);
    if p + token == p + other {
        assert(token =~= (p + token).subrange(p.len() as int, (p + token).len() as int));
        assert(other =~= (p + other).subrange(p.len() as int, (p + other).len() as int));
    }
}

} // verus!
