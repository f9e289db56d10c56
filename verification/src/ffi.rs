//! The PAM constants this library speaks in, as the PAM header defines them.

use vstd::prelude::*;

verus! {

/// Successful function return.
pub const PAM_SUCCESS: u32 = 0;

/// The service could not be opened.
pub const PAM_OPEN_ERR: u32 = 1;

/// A symbol was not found.
pub const PAM_SYMBOL_ERR: u32 = 2;

/// Error in a service module.
pub const PAM_SERVICE_ERR: u32 = 3;

/// A system error.
pub const PAM_SYSTEM_ERR: u32 = 4;

/// Memory buffer error.
pub const PAM_BUF_ERR: u32 = 5;

/// Permission denied.
pub const PAM_PERM_DENIED: u32 = 6;

/// Authentication failure.
pub const PAM_AUTH_ERR: u32 = 7;

/// Insufficient credentials to access authentication data.
pub const PAM_CRED_INSUFFICIENT: u32 = 8;

/// The authentication service cannot retrieve authentication information.
pub const PAM_AUTHINFO_UNAVAIL: u32 = 9;

/// The user is not known to the authentication module.
pub const PAM_USER_UNKNOWN: u32 = 10;

/// The maximum number of retries has been reached.
pub const PAM_MAXTRIES: u32 = 11;

/// A new authentication token is required.
pub const PAM_NEW_AUTHTOK_REQD: u32 = 12;

/// The user account has expired.
pub const PAM_ACCT_EXPIRED: u32 = 13;

/// A session could not be established.
pub const PAM_SESSION_ERR: u32 = 14;

/// The credentials are unavailable.
pub const PAM_CRED_UNAVAIL: u32 = 15;

/// The credentials have expired.
pub const PAM_CRED_EXPIRED: u32 = 16;

/// Failure setting user credentials.
pub const PAM_CRED_ERR: u32 = 17;

/// No module-specific data is present.
pub const PAM_NO_MODULE_DATA: u32 = 18;

/// A conversation error.
pub const PAM_CONV_ERR: u32 = 19;

/// Authentication token manipulation error.
pub const PAM_AUTHTOK_ERR: u32 = 20;

/// The authentication information cannot be recovered.
pub const PAM_AUTHTOK_RECOVERY_ERR: u32 = 21;

/// The authentication token lock is busy.
pub const PAM_AUTHTOK_LOCK_BUSY: u32 = 22;

/// Authentication token aging is disabled.
pub const PAM_AUTHTOK_DISABLE_AGING: u32 = 23;

/// A preliminary check by the password service failed.
pub const PAM_TRY_AGAIN: u32 = 24;

/// Ignore the underlying account module.
pub const PAM_IGNORE: u32 = 25;

/// A critical error; the module fails now.
pub const PAM_ABORT: u32 = 26;

/// The authentication token has expired.
pub const PAM_AUTHTOK_EXPIRED: u32 = 27;

/// The module is not known.
pub const PAM_MODULE_UNKNOWN: u32 = 28;

/// A bad item was passed to a PAM function.
pub const PAM_BAD_ITEM: u32 = 29;

/// The conversation function is event driven and data is not available yet.
pub const PAM_CONV_AGAIN: u32 = 30;

/// The call should be repeated to complete a pending operation.
pub const PAM_INCOMPLETE: u32 = 31;

/// Do not emit any messages.
pub const PAM_SILENT: u32 = 0x8000;

/// Message style: obtain a string without echoing any text.
pub const PAM_PROMPT_ECHO_OFF: u32 = 1;

/// Message style: obtain a string whilst echoing text.
pub const PAM_PROMPT_ECHO_ON: u32 = 2;

/// Message style: display an error message.
pub const PAM_ERROR_MSG: u32 = 3;

/// Message style: display some text.
pub const PAM_TEXT_INFO: u32 = 4;

} // verus!

use crate::text::CText;

verus! {

/// One message of a PAM conversation: its style and its text.
#[allow(non_camel_case_types)]
#[derive(Debug)]
pub struct pam_message {
    /// The raw message style.
    pub msg_style: i32,
    /// The message text.
    pub msg: CText,
}

/// What a [`pam_message`] holds, as plain values.
pub struct MessageView {
    /// The raw message style.
    pub style: i32,
    /// The message text.
    pub text: Seq<u8>,
}

impl View for pam_message {
    type V = MessageView;

    open spec fn view(&self) -> MessageView {
        MessageView { style: self.msg_style, text: self.msg@ }
    }
}

impl Clone for pam_message {
    fn clone(&self) -> (r: Self)
        ensures
            r@ == self@,
    {
        pam_message { msg_style: self.msg_style, msg: self.msg.clone() }
    }
}

/// One response of a PAM conversation.
#[allow(non_camel_case_types)]
#[derive(Debug)]
pub struct pam_response {
    /// The response text; `None` stands for a null pointer.
    pub resp: Option<CText>,
    /// The response's return code.
    pub resp_retcode: i32,
}

/// What a [`pam_response`] holds, as plain values.
pub struct ResponseView {
    /// The response text, if there is one.
    pub text: Option<Seq<u8>>,
    /// The response's return code.
    pub retcode: i32,
}

impl View for pam_response {
    type V = ResponseView;

    open spec fn view(&self) -> ResponseView {
        ResponseView {
            text: match self.resp {
                Some(t) => Some(t@),
                None => None,
            },
            retcode: self.resp_retcode,
        }
    }
}

} // verus!
