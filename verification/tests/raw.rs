use inqo::ffi::{pam_message, pam_response, PAM_CONV_ERR};
use inqo::raw::{RawMessage, RawResponse};
use inqo::text::CText;

fn text(s: &str) -> CText {
    CText::from_str(s).unwrap()
}

#[test]
fn message_ffi_and_inner_round_trip() {
    let m = RawMessage::ffi(pam_message { msg_style: 2, msg: text("Login: ") });
    assert_eq!(m.inner().msg_style, 2);
    assert_eq!(m.inner().msg.as_bytes(), b"Login: ");
    let c = m.clone();
    assert_eq!(c.inner().msg_style, 2);
    assert_eq!(c.inner().msg.as_bytes(), b"Login: ");
}

#[test]
fn response_ffi_and_inner_round_trip() {
    let r = RawResponse::ffi(pam_response { resp: Some(text("pw")), resp_retcode: 7 });
    assert_eq!(r.inner().resp_retcode, 7);
    assert_eq!(r.inner().resp.as_ref().unwrap().as_bytes(), b"pw");
}

#[test]
fn failure_has_no_text_and_the_conversation_error() {
    let r = RawResponse::failure();
    assert!(r.inner().resp.is_none());
    assert_eq!(r.inner().resp_retcode, PAM_CONV_ERR as i32);
    assert_eq!(r.inner().resp_retcode, 19);
}

#[test]
fn reply_copies_a_non_empty_text() {
    let r = RawResponse::reply(&text("hunter2"));
    assert_eq!(r.inner().resp.as_ref().unwrap().as_bytes(), b"hunter2");
    assert_eq!(r.inner().resp_retcode, 0);
}

#[test]
fn reply_to_an_empty_text_has_no_text() {
    let r = RawResponse::reply(&text(""));
    assert!(r.inner().resp.is_none());
    assert_eq!(r.inner().resp_retcode, 0);
}
