use site_backend::access::{caller_access, has_admin_access, is_super_admin};
use site_backend::middleware::{bearer_token, guard_decision, JwtMiddleware};
use site_backend::models::{ApiError, ApiResponse, Claims, Rejection, UserRole};

fn claims(sub: &str, role: &str) -> Claims {
    Claims { sub: sub.to_string(), role: role.to_string(), exp: 2000, iat: 1000 }
}

#[test]
fn api_error_new_sets_fields() {
    let e = ApiError::new("Unauthorized");
    assert!(!e.success);
    assert_eq!(e.error, "Unauthorized");
    assert!(e.message.is_none());
}

#[test]
fn api_response_bodies() {
    let a = ApiResponse::success(7u32);
    assert!(a.success);
    assert_eq!(a.data, Some(7));
    assert!(a.message.is_none() && a.error.is_none());
    let b = ApiResponse::success_message("x", "Done");
    assert_eq!(b.message.as_deref(), Some("Done"));
    assert_eq!(b.data, Some("x"));
}

#[test]
fn rejection_new_carries_status_and_text() {
    let r = Rejection::new(403, "Insufficient permissions");
    assert_eq!(r.status, 403);
    assert_eq!(r.error.error, "Insufficient permissions");
    assert!(!r.error.success);
}

#[test]
fn role_names_are_lowercase() {
    assert_eq!(UserRole::SuperAdmin.as_str(), "superadmin");
    assert_eq!(UserRole::Admin.as_str(), "admin");
    assert_eq!(UserRole::Editor.to_string(), "editor");
    assert_eq!(UserRole::Viewer.to_string(), "viewer");
}

#[test]
fn admin_access_for_superadmin_and_admin_only() {
    assert!(has_admin_access(&claims("x", "superadmin")));
    assert!(has_admin_access(&claims("x", "admin")));
    assert!(!has_admin_access(&claims("x", "editor")));
    assert!(!has_admin_access(&claims("x", "viewer")));
    assert!(!has_admin_access(&claims("x", "Admin")));
    assert!(!has_admin_access(&claims("x", "admins")));
}

#[test]
fn super_admin_only_for_superadmin() {
    assert!(is_super_admin(&claims("x", "superadmin")));
    assert!(!is_super_admin(&claims("x", "admin")));
    assert!(!is_super_admin(&claims("x", "")));
}

#[test]
fn super_admin_implies_admin_access_for_every_role_name() {
    for role in ["superadmin", "admin", "editor", "viewer", "other"] {
        let c = claims("x", role);
        if is_super_admin(&c) {
            assert!(has_admin_access(&c));
        }
    }
}

#[test]
fn role_names_grant_as_roles_do() {
    for (role, admin, sup) in [
        (UserRole::SuperAdmin, true, true),
        (UserRole::Admin, true, false),
        (UserRole::Editor, false, false),
        (UserRole::Viewer, false, false),
    ] {
        let c = claims("x", role.as_str());
        assert_eq!(has_admin_access(&c), admin);
        assert_eq!(is_super_admin(&c), sup);
    }
}

#[test]
fn caller_access_reads_claims() {
    assert!(caller_access(None).is_none());
    let c = claims("abc", "admin");
    let a = caller_access(Some(&c)).unwrap();
    assert_eq!(a, (false, true, "abc".to_string()));
    let s = claims("def", "superadmin");
    assert_eq!(caller_access(Some(&s)).unwrap(), (true, true, "def".to_string()));
}

#[test]
fn bearer_token_takes_what_follows_the_prefix() {
    assert_eq!(bearer_token(Some("Bearer abc.def.ghi")), Some("abc.def.ghi".to_string()));
    assert_eq!(bearer_token(Some("Bearer ")), Some(String::new()));
    assert_eq!(bearer_token(Some("bearer abc")), None);
    assert_eq!(bearer_token(Some("Basic abc")), None);
    assert_eq!(bearer_token(Some("Bearer")), None);
    assert_eq!(bearer_token(None), None);
}

#[test]
fn bearer_round_trip() {
    for t in ["x", "eyJ.a.b", "with space"] {
        let header = format!("Bearer {}", t);
        assert_eq!(bearer_token(Some(&header)), Some(t.to_string()));
    }
}

#[test]
fn guard_refuses_missing_and_invalid_tokens() {
    let r = guard_decision(None).unwrap_err();
    assert_eq!(r.status, 401);
    assert_eq!(r.error.error, "Authorization token required");
    let r = guard_decision(Some(Err(()))).unwrap_err();
    assert_eq!(r.status, 401);
    assert_eq!(r.error.error, "Invalid or expired token");
    let c = guard_decision(Some(Ok(claims("s", "admin")))).unwrap();
    assert_eq!(c.sub, "s");
    assert_eq!(c.role, "admin");
}

#[test]
fn middleware_wraps_service() {
    let s = JwtMiddleware.new_transform(42u8);
    assert_eq!(*s.service(), 42);
}
