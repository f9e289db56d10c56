use inqo::client::{username, ClientError, ClientState};
use inqo::error::PamError;

#[test]
fn username_accepts_plain_names() {
    let u = username("alice").unwrap();
    assert_eq!(u.as_bytes(), b"alice");
}

#[test]
fn username_rejects_nul() {
    assert_eq!(username("al\0ice").unwrap_err(), ClientError::InvalidUsername);
}

#[test]
fn started_success_has_no_error() {
    let s = ClientState::started(0).unwrap();
    assert_eq!(s.recentmost_error(), None);
    assert_eq!(s.end_status(), 0);
}

#[test]
fn started_failures() {
    assert_eq!(ClientState::started(26).unwrap_err(), ClientError::Pam(PamError::Abort));
    assert_eq!(ClientState::started(5).unwrap_err(), ClientError::Pam(PamError::BufErr));
    assert_eq!(ClientState::started(4).unwrap_err(), ClientError::Pam(PamError::SysErr));
}

#[test]
fn authenticate_success_keeps_state() {
    let mut s = ClientState::started(0).unwrap();
    assert_eq!(s.authenticate(0), Ok(()));
    assert_eq!(s.recentmost_error(), None);
    assert_eq!(s.end_status(), 0);
}

#[test]
fn authenticate_failure_is_recorded() {
    let mut s = ClientState::started(0).unwrap();
    assert_eq!(s.authenticate(7), Err(PamError::AuthErr));
    assert_eq!(s.recentmost_error(), Some(PamError::AuthErr));
    assert_eq!(s.end_status(), 7);
    // A later success does not clear the recorded failure.
    assert_eq!(s.authenticate(0), Ok(()));
    assert_eq!(s.recentmost_error(), Some(PamError::AuthErr));
    assert_eq!(s.end_status(), 7);
}

#[test]
fn authenticate_unknown_code_reports_system_error() {
    let mut s = ClientState::started(0).unwrap();
    assert_eq!(s.authenticate(6), Err(PamError::SysErr));
    assert_eq!(s.recentmost_error(), Some(PamError::SysErr));
    assert_eq!(s.end_status(), 4);
}

#[test]
fn recentmost_error_is_the_last_failure() {
    let mut s = ClientState::started(0).unwrap();
    assert_eq!(s.authenticate(7), Err(PamError::AuthErr));
    assert_eq!(s.authenticate(6), Err(PamError::SysErr));
    assert_eq!(s.recentmost_error(), Some(PamError::SysErr));
    assert_eq!(s.authenticate(0), Ok(()));
    assert_eq!(s.recentmost_error(), Some(PamError::SysErr));
    assert_eq!(s.authenticate(26), Err(PamError::Abort));
    assert_eq!(s.recentmost_error(), Some(PamError::Abort));
    assert_eq!(s.end_status(), 26);
}
