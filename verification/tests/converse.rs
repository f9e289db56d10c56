use inqo::converse::{
    BareStyle, Dialogate, Dialoge, DialogeStatus, Echo, MessageContent, Normal, NormalMessage,
    RawNormal, Style,
};
use inqo::ffi::pam_message;
use inqo::raw::RawMessage;
use inqo::text::CText;

fn text(s: &str) -> CText {
    CText::from_str(s).unwrap()
}

fn message(style: i32, s: &str) -> RawMessage {
    RawMessage::ffi(pam_message { msg_style: style, msg: text(s) })
}

#[test]
fn bare_style_round_trip() {
    assert_eq!(BareStyle::raw(3).value(), 3);
    assert_eq!(BareStyle::raw(-7).value(), -7);
}

#[test]
fn normal_styles_are_identified() {
    assert_eq!(Normal::try_identify(BareStyle::raw(1)), Some(Normal::EchoOff));
    assert_eq!(Normal::try_identify(BareStyle::raw(2)), Some(Normal::EchoOn));
    assert_eq!(Normal::try_identify(BareStyle::raw(3)), Some(Normal::ErrorMsg));
    assert_eq!(Normal::try_identify(BareStyle::raw(4)), Some(Normal::TextInfo));
    assert_eq!(Normal::try_identify(BareStyle::raw(0)), None);
    assert_eq!(Normal::try_identify(BareStyle::raw(5)), None);
    assert_eq!(Normal::try_identify(BareStyle::raw(-1)), None);
}

#[test]
fn normal_values_round_trip() {
    for n in [Normal::EchoOff, Normal::EchoOn, Normal::ErrorMsg, Normal::TextInfo] {
        assert_eq!(Normal::try_identify(BareStyle::raw(n.value() as i32)), Some(n));
    }
}

#[test]
fn echo_bool() {
    assert_eq!(Echo::bool(true), Echo::On);
    assert_eq!(Echo::bool(false), Echo::Off);
}

#[test]
fn raw_normal_keeps_style_and_message() {
    let m = message(3, "oops");
    let r = RawNormal::parse(Normal::ErrorMsg, &m);
    assert_eq!(r.style(), Normal::ErrorMsg);
    assert_eq!(r.message().inner().msg.as_bytes(), b"oops");
    assert_eq!(r.message().inner().msg_style, 3);
}

#[test]
fn normal_message_parse_prompts() {
    let m = message(1, "Password: ");
    match NormalMessage::parse(Normal::EchoOff, &m) {
        NormalMessage::Prompt { prompt_text, prompt_echo } => {
            assert_eq!(prompt_text.as_bytes(), b"Password: ");
            assert_eq!(prompt_echo, Echo::Off);
        }
        _ => panic!("expected a prompt"),
    }
    let m = message(2, "Login: ");
    match NormalMessage::parse(Normal::EchoOn, &m) {
        NormalMessage::Prompt { prompt_text, prompt_echo } => {
            assert_eq!(prompt_text.as_bytes(), b"Login: ");
            assert_eq!(prompt_echo, Echo::On);
        }
        _ => panic!("expected a prompt"),
    }
}

#[test]
fn normal_message_parse_info_and_error() {
    let m = message(4, "Welcome");
    let info = NormalMessage::parse(Normal::TextInfo, &m);
    assert!(matches!(info, NormalMessage::Info { .. }));
    assert_eq!(info.prompt().as_bytes(), b"Welcome");
    let m = message(3, "Denied");
    let err = NormalMessage::parse(Normal::ErrorMsg, &m);
    assert!(matches!(err, NormalMessage::Error { .. }));
    assert_eq!(err.prompt().as_bytes(), b"Denied");
}

#[test]
fn dialoge_status_values() {
    assert_eq!(DialogeStatus::Success.value(), 0);
    assert_eq!(DialogeStatus::BufErr.value(), 5);
    assert_eq!(DialogeStatus::ConvErr.value(), 19);
}

/// Answers prompts with a fixed password and everything else with nothing.
struct Scripted {
    password: CText,
    nothing: CText,
}

impl Dialoge for Scripted {
    type MessageStyle = Normal;
    type Message<'message> = NormalMessage;

    // The text of an answer, which verified callers reason about; it is
    // never computed at run time.
    fn answer<'message>(&self, _message: NormalMessage) -> vstd::seq::Seq<u8> {
        unreachable!()
    }

    fn converse<'context, 'message>(&'context self, message: NormalMessage) -> &'context CText {
        match message {
            NormalMessage::Prompt { .. } => &self.password,
            _ => &self.nothing,
        }
    }
}

fn scripted() -> Scripted {
    Scripted { password: text("hunter2"), nothing: text("") }
}

#[test]
fn stub_answers_every_message() {
    let d = scripted();
    let messages = vec![message(4, "Hello"), message(1, "Password: "), message(3, "Careful")];
    let (status, responses) = Dialogate::stub(&d, &messages);
    assert_eq!(status, DialogeStatus::Success);
    assert_eq!(responses.len(), 3);
    assert!(responses[0].inner().resp.is_none());
    assert_eq!(responses[0].inner().resp_retcode, 0);
    assert_eq!(responses[1].inner().resp.as_ref().unwrap().as_bytes(), b"hunter2");
    assert_eq!(responses[1].inner().resp_retcode, 0);
    assert!(responses[2].inner().resp.is_none());
}

#[test]
fn stub_stops_at_an_unknown_style() {
    let d = scripted();
    let messages = vec![message(1, "Password: "), message(9, "??"), message(1, "Again: ")];
    let (status, responses) = Dialogate::stub(&d, &messages);
    assert_eq!(status, DialogeStatus::ConvErr);
    assert_eq!(responses.len(), 2);
    assert_eq!(responses[0].inner().resp.as_ref().unwrap().as_bytes(), b"hunter2");
    assert!(responses[1].inner().resp.is_none());
    assert_eq!(responses[1].inner().resp_retcode, 19);
}

#[test]
fn stub_on_no_message_succeeds() {
    let d = scripted();
    let messages: Vec<RawMessage> = Vec::new();
    let (status, responses) = Dialogate::stub(&d, &messages);
    assert_eq!(status, DialogeStatus::Success);
    assert!(responses.is_empty());
}

#[test]
fn parsed_messages_compare_by_content() {
    let m = message(1, "Password: ");
    let expected = NormalMessage::Prompt { prompt_text: text("Password: "), prompt_echo: Echo::Off };
    assert_eq!(NormalMessage::parse(Normal::EchoOff, &m), expected);
    assert_ne!(
        NormalMessage::parse(Normal::EchoOn, &m),
        expected
    );
    assert_eq!(
        NormalMessage::parse(Normal::TextInfo, &m),
        NormalMessage::Info { info_message: text("Password: ") }
    );
}
