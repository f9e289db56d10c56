use inqo::error::PamError;

const ALL: [PamError; 17] = [
    PamError::BufErr,
    PamError::SysErr,
    PamError::UserUnknown,
    PamError::AuthErr,
    PamError::CredExpired,
    PamError::AcctExpired,
    PamError::AuthInfoUnavailable,
    PamError::NoModuleData,
    PamError::ConvErr,
    PamError::ServiceErr,
    PamError::AuthTokErr,
    PamError::AuthTokRecoveryErr,
    PamError::AuthTokLockBusy,
    PamError::AuthTokDisableAging,
    PamError::TryAgain,
    PamError::Ignore,
    PamError::Abort,
];

#[test]
fn code_names_the_known_errors() {
    assert_eq!(PamError::code(5), Some(PamError::BufErr));
    assert_eq!(PamError::code(4), Some(PamError::SysErr));
    assert_eq!(PamError::code(10), Some(PamError::UserUnknown));
    assert_eq!(PamError::code(7), Some(PamError::AuthErr));
    assert_eq!(PamError::code(16), Some(PamError::CredExpired));
    assert_eq!(PamError::code(13), Some(PamError::AcctExpired));
    assert_eq!(PamError::code(9), Some(PamError::AuthInfoUnavailable));
    assert_eq!(PamError::code(18), Some(PamError::NoModuleData));
    assert_eq!(PamError::code(19), Some(PamError::ConvErr));
    assert_eq!(PamError::code(3), Some(PamError::ServiceErr));
    assert_eq!(PamError::code(20), Some(PamError::AuthTokErr));
    assert_eq!(PamError::code(21), Some(PamError::AuthTokRecoveryErr));
    assert_eq!(PamError::code(22), Some(PamError::AuthTokLockBusy));
    assert_eq!(PamError::code(23), Some(PamError::AuthTokDisableAging));
    assert_eq!(PamError::code(24), Some(PamError::TryAgain));
    assert_eq!(PamError::code(25), Some(PamError::Ignore));
    assert_eq!(PamError::code(26), Some(PamError::Abort));
}

#[test]
fn code_rejects_other_codes() {
    assert_eq!(PamError::code(0), None);
    assert_eq!(PamError::code(1), None);
    assert_eq!(PamError::code(6), None);
    assert_eq!(PamError::code(27), None);
    assert_eq!(PamError::code(-1), None);
    assert_eq!(PamError::code(i32::MIN), None);
    assert_eq!(PamError::code(i32::MAX), None);
}

#[test]
fn value_and_code_round_trip() {
    for e in ALL {
        assert_eq!(PamError::code(e.value()), Some(e));
        assert!(e.value() > 0);
    }
}

#[test]
fn values_are_the_pam_codes() {
    assert_eq!(PamError::BufErr.value(), inqo::ffi::PAM_BUF_ERR as i32);
    assert_eq!(PamError::Abort.value(), inqo::ffi::PAM_ABORT as i32);
    assert_eq!(PamError::ConvErr.value(), inqo::ffi::PAM_CONV_ERR as i32);
}

