//! Rust-native representation of the PAM conversation structures.

use vstd::prelude::*;

use crate::ffi;
use crate::text::CText;

verus! {

/// The response that answers a message with the text `reply`.
pub open spec fn reply_view(reply: Seq<u8>) -> ffi::ResponseView {
    ffi::ResponseView {
        text: if reply.len() == 0 { None } else { Some(reply) },
        retcode: 0,
    }
}

/// The response that reports a failed conversation step.
pub open spec fn failure_view() -> ffi::ResponseView {
    ffi::ResponseView { text: None, retcode: ffi::PAM_CONV_ERR as i32 }
}

/// A reply carries the handler's whole answer: no text for an empty
/// answer, otherwise exactly the answer's bytes, of the same length; its
/// return code is zero. A failure carries no text and the conversation
/// error's code.
pub proof fn lemma_reply_carries_answer(reply: Seq<u8>)
    ensures
        reply.len() == 0 ==> reply_view(reply).text is None,
        reply.len() > 0 ==> reply_view(reply).text == Some(reply),
        reply.len() > 0 ==> reply_view(reply).text->Some_0.len() == reply.len(),
        reply.len() > 0 ==> forall|i: int| 0 <= i < reply.len() ==> reply_view(reply).text->Some_0[i] == #[trigger] reply[i],
        reply_view(reply).retcode == 0,
        failure_view().text is None,
        failure_view().retcode == 19,
        failure_view() != reply_view(reply),
{
}

/// A raw message in a PAM session.
///
/// This is a simple new-type wrapper around a [`ffi::pam_message`].
#[derive(Debug)]
pub struct RawMessage(ffi::pam_message);

impl View for RawMessage {
    type V = ffi::MessageView;

    closed spec fn view(&self) -> ffi::MessageView {
        self.0@
    }
}

impl Clone for RawMessage {
    fn clone(&self) -> (r: Self)
        ensures
            r@ == self@,
    {
        RawMessage(self.0.clone())
    }
}

impl RawMessage {
    /// Create a new [`RawMessage`] from a [`ffi::pam_message`].
    pub fn ffi(message: ffi::pam_message) -> (r: Self)
        ensures
            r@ == message@,
    {
        RawMessage(message)
    }

    /// Fetch the inner [`ffi::pam_message`].
    pub fn inner(&self) -> (r: &ffi::pam_message)
        ensures
            r@ == self@,
    {
        &self.0
    }
}

/// A raw response to a PAM message.
///
/// This is a simple new-type wrapper around a [`ffi::pam_response`].
#[derive(Debug)]
pub struct RawResponse(ffi::pam_response);

impl View for RawResponse {
    type V = ffi::ResponseView;

    closed spec fn view(&self) -> ffi::ResponseView {
        self.0@
    }
}

impl RawResponse {
    /// Create a new [`RawResponse`] from a [`ffi::pam_response`].
    pub fn ffi(response: ffi::pam_response) -> (r: Self)
        ensures
            r@ == response@,
    {
        RawResponse(response)
    }

    /// Create a new [`RawResponse`] that indicates an unspecified failure
    /// condition: no text, and the conversation error as its return code.
    pub fn failure() -> (r: Self)
        ensures
            r@ == failure_view(),
    {
        RawResponse(ffi::pam_response { resp: None, resp_retcode: 19 })
    }

    /// The response that answers a message with the text `reply`: no text
    /// where the reply is empty, a copy of it otherwise, and a zero return
    /// code.
    pub fn reply(reply: &CText) -> (r: Self)
        ensures
            r@ == reply_view(reply@),
    {
        let resp = if reply.is_empty() {
            None
        } else {
            Some(reply.clone())
        };
        RawResponse(ffi::pam_response { resp, resp_retcode: 0 })
    }

    /// Fetch the inner [`ffi::pam_response`].
    pub fn inner(&self) -> (r: &ffi::pam_response)
        ensures
            r@ == self@,
    {
        &self.0
    }
}

} // verus!
