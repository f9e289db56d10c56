//! The bookkeeping of a client in a PAM session.
//!
//! A client names a user, starts a session with the PAM library, asks it to
//! authenticate the user, and ends the session with the status of the last
//! failure. This module holds each of those decisions; the calls into the
//! PAM library stand around it.

use vstd::prelude::*;
use vstd::string::StringSliceAdditionalSpecFns;

use crate::error::{pam_error_code, pam_error_of_code, PamError};
use crate::ffi;
use crate::text::{no_nul, CText};

verus! {

/// An error that can occur when creating a new client.
#[derive(Debug, Copy, Clone, PartialEq, Eq, Structural)]
pub enum ClientError {
    /// A PAM error occurred.
    Pam(PamError),
    /// The target username is invalid.
    InvalidUsername,
}

/// The user name of a session, as the PAM library takes it: the bytes of
/// `user`, which must hold no NUL byte.
pub fn username(user: &str) -> (r: Result<CText, ClientError>)
    ensures
        r is Ok <==> no_nul(user.spec_bytes()),
        r matches Ok(t) ==> t@ == user.spec_bytes(),
        r matches Err(e) ==> e == ClientError::InvalidUsername,
{
    match CText::from_str(user) {
        Some(t) => Ok(t),
        None => Err(ClientError::InvalidUsername),
    }
}

/// The status codes with which starting a session may answer.
pub open spec fn is_start_status(pam_status: i32) -> bool {
    ||| pam_status == ffi::PAM_SUCCESS
    ||| pam_status == ffi::PAM_ABORT
    ||| pam_status == ffi::PAM_BUF_ERR
    ||| pam_status == ffi::PAM_SYSTEM_ERR
}

/// The end status that a session hands back when it ends: the code of its
/// recentmost error, or success where there was none.
pub open spec fn end_code(client_status: Option<PamError>) -> int {
    match client_status {
        Some(e) => pam_error_code(e),
        None => ffi::PAM_SUCCESS as int,
    }
}

/// The error that a failed authentication answered with `pam_status`
/// reports: the one the code names, or a system error where it names none.
pub open spec fn authentication_error(pam_status: i32) -> PamError {
    match pam_error_of_code(pam_status as int) {
        Some(e) => e,
        None => PamError::SysErr,
    }
}

/// The state of a client in a PAM session: the recentmost error that
/// occurred in it.
#[derive(Debug)]
pub struct ClientState {
    client_status: Option<PamError>,
}

impl View for ClientState {
    type V = Option<PamError>;

    closed spec fn view(&self) -> Option<PamError> {
        self.client_status
    }
}

impl ClientState {
    /// The state of a session that the PAM library answered with
    /// `pam_status` when it was started: a fresh session without error on
    /// success, the matching error otherwise.
    pub fn started(pam_status: i32) -> (r: Result<ClientState, ClientError>)
        requires
            is_start_status(pam_status),
        ensures
            pam_status == ffi::PAM_SUCCESS ==> (r matches Ok(s) && s@ is None),
            pam_status != ffi::PAM_SUCCESS ==> r is Err,
            pam_status == ffi::PAM_ABORT ==> r == Err::<ClientState, _>(
                ClientError::Pam(PamError::Abort),
            ),
            pam_status == ffi::PAM_BUF_ERR ==> r == Err::<ClientState, _>(
                ClientError::Pam(PamError::BufErr),
            ),
            pam_status == ffi::PAM_SYSTEM_ERR ==> r == Err::<ClientState, _>(
                ClientError::Pam(PamError::SysErr),
            ),
    {
        if pam_status == 0 {
            Ok(ClientState { client_status: None })
        } else if pam_status == 26 {
            Err(ClientError::Pam(PamError::Abort))
        } else if pam_status == 5 {
            Err(ClientError::Pam(PamError::BufErr))
        } else {
            Err(ClientError::Pam(PamError::SysErr))
        }
    }

    /// Determine the recentmost error that occurred in the client.
    pub fn recentmost_error(&self) -> (r: Option<PamError>)
        ensures
            r == self@,
    {
        self.client_status
    }

    /// Take the answer `pam_status` of the PAM library to an authentication
    /// request: success leaves the state as it was; any other code is an
    /// error that occurred in the client, the one the code names or a system
    /// error where it names none, which is recorded as the recentmost error
    /// and reported.
    pub fn authenticate(&mut self, pam_status: i32) -> (r: Result<(), PamError>)
        ensures
            pam_status == ffi::PAM_SUCCESS ==> r is Ok && final(self)@ == old(self)@,
            pam_status != ffi::PAM_SUCCESS ==> final(self)@ == Some(
                authentication_error(pam_status),
            ) && r == Err::<(), PamError>(authentication_error(pam_status)),
    {
        if pam_status == 0 {
            Ok(())
        } else {
            let target_error = match PamError::code(pam_status) {
                Some(e) => e,
                None => PamError::SysErr,
            };
            self.client_status = Some(target_error);
            Err(target_error)
        }
    }

    /// The status with which the session is to be ended: the code of the
    /// recentmost error, or success where there was none.
    pub fn end_status(&self) -> (r: i32)
        ensures
            r == end_code(self@),
    {
        match self.client_status {
            Some(e) => e.value(),
            None => 0,
        }
    }
}

/// A failed authentication reports and records exactly the error whose PAM
/// code the library answered, where that code names one, and a system error
/// otherwise; a session ends with the PAM code of the error it recorded.
pub proof fn lemma_authentication_error_is_named_error(pam_status: i32, e: PamError)
    ensures
        pam_error_of_code(pam_status as int) is Some ==> authentication_error(pam_status)
            == pam_error_of_code(pam_status as int)->Some_0,
        pam_error_of_code(pam_status as int) is Some ==> pam_error_code(
            authentication_error(pam_status),
        ) == pam_status,
        pam_error_code(e) == pam_status ==> authentication_error(pam_status) == e,
        pam_error_of_code(pam_status as int) is None ==> authentication_error(pam_status)
            == PamError::SysErr,
        end_code(Some(e)) == pam_error_code(e),
        end_code(Some(authentication_error(pam_status))) == pam_error_code(
            authentication_error(pam_status),
        ),
{
    crate::error::lemma_code_of_value(e);
}

/// A session that has just started ends with success, and one whose
/// authentication failed ends with the code of the error it reported: the
/// very code the library answered where that code names an error, the
/// system error's code otherwise.
pub proof fn lemma_end_code_reports_failure(pam_status: i32)
    requires
        pam_status != ffi::PAM_SUCCESS,
    ensures
        end_code(None) == ffi::PAM_SUCCESS,
        end_code(Some(authentication_error(pam_status))) != ffi::PAM_SUCCESS,
        pam_error_of_code(pam_status as int) is Some ==> end_code(
            Some(authentication_error(pam_status)),
        ) == pam_status,
        pam_error_of_code(pam_status as int) is None ==> end_code(
            Some(authentication_error(pam_status)),
        ) == ffi::PAM_SYSTEM_ERR,
{
}

} // verus!
