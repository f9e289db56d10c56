//! PAM error representation.

use vstd::prelude::*;

use crate::ffi;

verus! {

/// An error that has been encountered in a PAM operation.
#[derive(Debug, Copy, Clone, PartialEq, Eq, Hash, Structural)]
pub enum PamError {
    /// Some memory could not be allocated.
    BufErr,
    /// An error due to a system call.
    SysErr,
    /// The authentication service cannot retrieve the user information.
    UserUnknown,
    /// The authentication token is incorrect.
    AuthErr,
    /// The authentication token has expired.
    CredExpired,
    /// The account is expired.
    AcctExpired,
    /// The authentication service is unavailable.
    AuthInfoUnavailable,
    /// No module-specific data is present.
    NoModuleData,
    /// The conversation failed.
    ConvErr,
    /// An error in a service module.
    ServiceErr,
    /// Authentication token manipulation error.
    AuthTokErr,
    /// The authentication information cannot be recovered.
    AuthTokRecoveryErr,
    /// The authentication token lock is busy.
    AuthTokLockBusy,
    /// Authentication token aging is disabled.
    AuthTokDisableAging,
    /// A preliminary check by the password service failed.
    TryAgain,
    /// The underlying module is to be ignored.
    Ignore,
    /// A critical error; the module fails now.
    Abort,
}

/// The PAM status code that stands for an error.
pub open spec fn pam_error_code(e: PamError) -> int {
    match e {
        PamError::BufErr => ffi::PAM_BUF_ERR as int,
        PamError::SysErr => ffi::PAM_SYSTEM_ERR as int,
        PamError::UserUnknown => ffi::PAM_USER_UNKNOWN as int,
        PamError::AuthErr => ffi::PAM_AUTH_ERR as int,
        PamError::CredExpired => ffi::PAM_CRED_EXPIRED as int,
        PamError::AcctExpired => ffi::PAM_ACCT_EXPIRED as int,
        PamError::AuthInfoUnavailable => ffi::PAM_AUTHINFO_UNAVAIL as int,
        PamError::NoModuleData => ffi::PAM_NO_MODULE_DATA as int,
        PamError::ConvErr => ffi::PAM_CONV_ERR as int,
        PamError::ServiceErr => ffi::PAM_SERVICE_ERR as int,
        PamError::AuthTokErr => ffi::PAM_AUTHTOK_ERR as int,
        PamError::AuthTokRecoveryErr => ffi::PAM_AUTHTOK_RECOVERY_ERR as int,
        PamError::AuthTokLockBusy => ffi::PAM_AUTHTOK_LOCK_BUSY as int,
        PamError::AuthTokDisableAging => ffi::PAM_AUTHTOK_DISABLE_AGING as int,
        PamError::TryAgain => ffi::PAM_TRY_AGAIN as int,
        PamError::Ignore => ffi::PAM_IGNORE as int,
        PamError::Abort => ffi::PAM_ABORT as int,
    }
}

/// The error that a raw status code names, if it names one.
pub open spec fn pam_error_of_code(c: int) -> Option<PamError> {
    if c == ffi::PAM_BUF_ERR { Some(PamError::BufErr) }
    else if c == ffi::PAM_SYSTEM_ERR { Some(PamError::SysErr) }
    else if c == ffi::PAM_USER_UNKNOWN { Some(PamError::UserUnknown) }
    else if c == ffi::PAM_AUTH_ERR { Some(PamError::AuthErr) }
    else if c == ffi::PAM_CRED_EXPIRED { Some(PamError::CredExpired) }
    else if c == ffi::PAM_ACCT_EXPIRED { Some(PamError::AcctExpired) }
    else if c == ffi::PAM_AUTHINFO_UNAVAIL { Some(PamError::AuthInfoUnavailable) }
    else if c == ffi::PAM_NO_MODULE_DATA { Some(PamError::NoModuleData) }
    else if c == ffi::PAM_CONV_ERR { Some(PamError::ConvErr) }
    else if c == ffi::PAM_SERVICE_ERR { Some(PamError::ServiceErr) }
    else if c == ffi::PAM_AUTHTOK_ERR { Some(PamError::AuthTokErr) }
    else if c == ffi::PAM_AUTHTOK_RECOVERY_ERR { Some(PamError::AuthTokRecoveryErr) }
    else if c == ffi::PAM_AUTHTOK_LOCK_BUSY { Some(PamError::AuthTokLockBusy) }
    else if c == ffi::PAM_AUTHTOK_DISABLE_AGING { Some(PamError::AuthTokDisableAging) }
    else if c == ffi::PAM_TRY_AGAIN { Some(PamError::TryAgain) }
    else if c == ffi::PAM_IGNORE { Some(PamError::Ignore) }
    else if c == ffi::PAM_ABORT { Some(PamError::Abort) }
    else { None }
}

impl PamError {
    /// Convert a raw error code into a [`PamError`].
    ///
    /// Returns `None` for every code that names no error of this type,
    /// `PAM_SUCCESS` and every negative code among them.
    pub fn code(target_code: i32) -> (r: Option<Self>)
        ensures
            r == pam_error_of_code(target_code as int),
    {
        if target_code < 0 {
            return None;
        }
        let c: u32 = target_code as u32;
        if c == ffi::PAM_BUF_ERR { Some(PamError::BufErr) }
        else if c == ffi::PAM_SYSTEM_ERR { Some(PamError::SysErr) }
        else if c == ffi::PAM_USER_UNKNOWN { Some(PamError::UserUnknown) }
        else if c == ffi::PAM_AUTH_ERR { Some(PamError::AuthErr) }
        else if c == ffi::PAM_CRED_EXPIRED { Some(PamError::CredExpired) }
        else if c == ffi::PAM_ACCT_EXPIRED { Some(PamError::AcctExpired) }
        else if c == ffi::PAM_AUTHINFO_UNAVAIL { Some(PamError::AuthInfoUnavailable) }
        else if c == ffi::PAM_NO_MODULE_DATA { Some(PamError::NoModuleData) }
        else if c == ffi::PAM_CONV_ERR { Some(PamError::ConvErr) }
        else if c == ffi::PAM_SERVICE_ERR { Some(PamError::ServiceErr) }
        else if c == ffi::PAM_AUTHTOK_ERR { Some(PamError::AuthTokErr) }
        else if c == ffi::PAM_AUTHTOK_RECOVERY_ERR { Some(PamError::AuthTokRecoveryErr) }
        else if c == ffi::PAM_AUTHTOK_LOCK_BUSY { Some(PamError::AuthTokLockBusy) }
        else if c == ffi::PAM_AUTHTOK_DISABLE_AGING { Some(PamError::AuthTokDisableAging) }
        else if c == ffi::PAM_TRY_AGAIN { Some(PamError::TryAgain) }
        else if c == ffi::PAM_IGNORE { Some(PamError::Ignore) }
        else if c == ffi::PAM_ABORT { Some(PamError::Abort) }
        else { None }
    }

    /// The raw PAM status code of this error (its discriminant).
    pub fn value(self) -> (r: i32)
        ensures
            r == pam_error_code(self),
    {
        match self {
            PamError::BufErr => 5,
            PamError::SysErr => 4,
            PamError::UserUnknown => 10,
            PamError::AuthErr => 7,
            PamError::CredExpired => 16,
            PamError::AcctExpired => 13,
            PamError::AuthInfoUnavailable => 9,
            PamError::NoModuleData => 18,
            PamError::ConvErr => 19,
            PamError::ServiceErr => 3,
            PamError::AuthTokErr => 20,
            PamError::AuthTokRecoveryErr => 21,
            PamError::AuthTokLockBusy => 22,
            PamError::AuthTokDisableAging => 23,
            PamError::TryAgain => 24,
            PamError::Ignore => 25,
            PamError::Abort => 26,
        }
    }
}

/// Each error carries the PAM status code of its name, as the PAM header
/// numbers them.
pub proof fn lemma_error_codes_are_pam_codes()
    ensures
        pam_error_code(PamError::BufErr) == 5,
        pam_error_code(PamError::SysErr) == 4,
        pam_error_code(PamError::UserUnknown) == 10,
        pam_error_code(PamError::AuthErr) == 7,
        pam_error_code(PamError::CredExpired) == 16,
        pam_error_code(PamError::AcctExpired) == 13,
        pam_error_code(PamError::AuthInfoUnavailable) == 9,
        pam_error_code(PamError::NoModuleData) == 18,
        pam_error_code(PamError::ConvErr) == 19,
        pam_error_code(PamError::ServiceErr) == 3,
        pam_error_code(PamError::AuthTokErr) == 20,
        pam_error_code(PamError::AuthTokRecoveryErr) == 21,
        pam_error_code(PamError::AuthTokLockBusy) == 22,
        pam_error_code(PamError::AuthTokDisableAging) == 23,
        pam_error_code(PamError::TryAgain) == 24,
        pam_error_code(PamError::Ignore) == 25,
        pam_error_code(PamError::Abort) == 26,
{
}

/// Every error survives the trip to its status code and back.
pub proof fn lemma_code_of_value(e: PamError)
    ensures
        pam_error_of_code(pam_error_code(e)) == Some(e),
{
}

/// A status code that names an error is that error's own code; so no two
/// errors share a code.
pub proof fn lemma_value_of_code(c: int)
    ensures
        pam_error_of_code(c) matches Some(e) ==> pam_error_code(e) == c,
{
}

/// A success status names no error, and every error code is a failure.
pub proof fn lemma_success_is_no_error(e: PamError)
    ensures
        pam_error_of_code(ffi::PAM_SUCCESS as int) is None,
        pam_error_code(e) != ffi::PAM_SUCCESS as int,
        pam_error_code(e) > 0,
{
}

} // verus!
