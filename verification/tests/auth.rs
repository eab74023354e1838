use archivr::auth::{
    check_csrf_state, compute_expires_at, expires_at_from, plan_auth, redirect_uri, refreshed_auth, Auth,
    AuthStep,
};
use archivr::ArchivrError;

fn auth(expires_at: Option<i64>, refresh: Option<&str>) -> Auth {
    Auth { access_token: "tok".into(), refresh_token: refresh.map(|s| s.to_owned()), expires_at }
}

#[test]
fn expiry_has_a_sixty_second_buffer() {
    let a = auth(Some(1000), None);
    assert!(!a.is_expired_at(939));
    assert!(a.is_expired_at(940));
    assert!(!auth(None, None).is_expired_at(i64::MAX));
    assert!(!auth(None, None).is_expired());
    assert!(auth(Some(0), None).is_expired());
}

#[test]
fn expiry_time_from_lifetime() {
    assert_eq!(expires_at_from(100, Some(3600)), Some(3700));
    assert_eq!(expires_at_from(100, None), None);
    assert!(compute_expires_at(Some(10)).is_some());
    assert!(compute_expires_at(None).is_none());
}

#[test]
fn refresh_keeps_old_refresh_token_when_none_is_issued() {
    let old = auth(Some(1), Some("r1"));
    let a = refreshed_auth(&old, "new".into(), None, Some(5));
    assert_eq!(a.access_token, "new");
    assert_eq!(a.refresh_token.as_deref(), Some("r1"));
    assert_eq!(a.expires_at, Some(5));
    let b = refreshed_auth(&old, "new".into(), Some("r2".into()), None);
    assert_eq!(b.refresh_token.as_deref(), Some("r2"));
}

#[test]
fn auth_plan() {
    let valid = auth(Some(10_000), Some("r"));
    let expired = auth(Some(10), Some("r"));
    let expired_no_refresh = auth(Some(10), None);
    assert!(matches!(plan_auth(true, Some(&valid), 0), AuthStep::Interactive));
    assert!(matches!(plan_auth(false, None, 0), AuthStep::Interactive));
    assert!(matches!(plan_auth(false, Some(&valid), 0), AuthStep::UseSaved(t) if t == "tok"));
    assert!(matches!(plan_auth(false, Some(&expired), 100), AuthStep::Refresh(r) if r == "r"));
    assert!(matches!(plan_auth(false, Some(&expired_no_refresh), 100), AuthStep::Interactive));
}

#[test]
fn csrf_state_check() {
    let expected = "abc".to_owned();
    assert!(check_csrf_state(&expected, &Some("abc".into())).is_ok());
    assert!(check_csrf_state(&expected, &None).is_ok());
    match check_csrf_state(&expected, &Some("evil".into())) {
        Err(ArchivrError::CsrfMismatch { expected, actual }) => {
            assert_eq!(expected, "abc");
            assert_eq!(actual, "evil");
        }
        _ => panic!("expected a CSRF mismatch"),
    }
}

#[test]
fn redirect_uri_uses_callback_port() {
    assert_eq!(redirect_uri(), "http://localhost:6263/redirect");
}
