//! Module-to-client communication: message styles, message contents, and the
//! conversation step that answers a batch of messages.

use vstd::prelude::*;

use crate::ffi::{self, MessageView};
use crate::raw::{failure_view, reply_view, RawMessage, RawResponse};
use crate::text::CText;

verus! {

/// The message styles that are possible in a normal conversation.
///
/// Note that this type deliberately omits any other styles. To use a custom
/// style, implement the [`Style`] trait.
#[derive(Debug, Copy, Clone, Hash, PartialEq, Eq, Structural)]
pub enum Normal {
    /// Obtain a string without echoing any text.
    EchoOff,
    /// Obtain a string whilst echoing text.
    EchoOn,
    /// Display an error message.
    ErrorMsg,
    /// Display some text.
    TextInfo,
}

/// The raw style code of a normal message style.
pub open spec fn normal_code(n: Normal) -> int {
    match n {
        Normal::EchoOff => ffi::PAM_PROMPT_ECHO_OFF as int,
        Normal::EchoOn => ffi::PAM_PROMPT_ECHO_ON as int,
        Normal::ErrorMsg => ffi::PAM_ERROR_MSG as int,
        Normal::TextInfo => ffi::PAM_TEXT_INFO as int,
    }
}

/// The normal message style that a raw style code names, if any.
pub open spec fn normal_of_code(c: int) -> Option<Normal> {
    if c == ffi::PAM_PROMPT_ECHO_OFF {
        Some(Normal::EchoOff)
    } else if c == ffi::PAM_PROMPT_ECHO_ON {
        Some(Normal::EchoOn)
    } else if c == ffi::PAM_ERROR_MSG {
        Some(Normal::ErrorMsg)
    } else if c == ffi::PAM_TEXT_INFO {
        Some(Normal::TextInfo)
    } else {
        None
    }
}

impl Normal {
    /// The raw style code of this style (its discriminant).
    pub fn value(self) -> (r: u32)
        ensures
            r == normal_code(self),
    {
        match self {
            Normal::EchoOff => 1,
            Normal::EchoOn => 2,
            Normal::ErrorMsg => 3,
            Normal::TextInfo => 4,
        }
    }
}

/// Each normal style is identified from its own code, and a code that is
/// identified as a normal style is that style's code: identification and
/// [`Normal::value`] are inverse.
pub proof fn lemma_normal_identify_value(n: Normal, message_style: BareStyle)
    ensures
        <Normal as Style>::identified(BareStyle::spec_raw(normal_code(n) as i32)) == Some(n),
        <Normal as Style>::identified(message_style) matches Some(m) ==> normal_code(m)
            == message_style.spec_value(),
{
    BareStyle::lemma_raw_value(normal_code(n) as i32, message_style);
}

/// Each normal style is named by its own PAM style code, as the PAM header
/// numbers them: code 1 asks without echo, 2 asks with echo, 3 is an error
/// message and 4 a text message.
pub proof fn lemma_normal_codes_are_pam_codes()
    ensures
        normal_code(Normal::EchoOff) == 1,
        normal_code(Normal::EchoOn) == 2,
        normal_code(Normal::ErrorMsg) == 3,
        normal_code(Normal::TextInfo) == 4,
        <Normal as Style>::identified(BareStyle::spec_raw(1)) == Some(Normal::EchoOff),
        <Normal as Style>::identified(BareStyle::spec_raw(2)) == Some(Normal::EchoOn),
        <Normal as Style>::identified(BareStyle::spec_raw(3)) == Some(Normal::ErrorMsg),
        <Normal as Style>::identified(BareStyle::spec_raw(4)) == Some(Normal::TextInfo),
{
    BareStyle::lemma_raw_value(1, BareStyle::spec_raw(1));
    BareStyle::lemma_raw_value(2, BareStyle::spec_raw(2));
    BareStyle::lemma_raw_value(3, BareStyle::spec_raw(3));
    BareStyle::lemma_raw_value(4, BareStyle::spec_raw(4));
}

/// A bare message style.
#[derive(Debug, Clone, Copy, PartialEq, Eq, Hash, Structural)]
pub struct BareStyle(i32);

impl BareStyle {
    /// The raw style code.
    pub closed spec fn spec_value(self) -> i32 {
        self.0
    }

    /// The bare style of a raw style code.
    pub closed spec fn spec_raw(target_style: i32) -> BareStyle {
        BareStyle(target_style)
    }

    /// A bare style is its raw code, nothing more: building one from a code
    /// and reading the code back are inverse.
    pub proof fn lemma_raw_value(target_style: i32, style: BareStyle)
        ensures
            BareStyle::spec_raw(target_style).spec_value() == target_style,
            BareStyle::spec_raw(style.spec_value()) == style,
    {
    }

    /// Create a new bare message style from the target [`i32`].
    pub fn raw(target_style: i32) -> (r: Self)
        ensures
            r == BareStyle::spec_raw(target_style),
            r.spec_value() == target_style,
    {
        BareStyle(target_style)
    }

    /// Fetch the inner [`i32`] value.
    pub fn value(&self) -> (r: i32)
        ensures
            r == self.spec_value(),
    {
        self.0
    }
}

/// A trait for identifying message styles.
///
/// This is analogous to [`TryFrom`], but posesses more concise semantics.
pub trait Style {
    /// The style that a bare style is identified as, if any.
    spec fn identified(message_style: BareStyle) -> Option<Self> where Self: Sized;

    /// Try to identify some message style.
    /// Returns `None` if the style is not recognized.
    fn try_identify(message_style: BareStyle) -> (r: Option<Self>)
        where
            Self: Sized,
        ensures
            r == Self::identified(message_style),
    ;
}

impl Style for Normal {
    open spec fn identified(message_style: BareStyle) -> Option<Normal> {
        normal_of_code(message_style.spec_value() as int)
    }

    fn try_identify(message_style: BareStyle) -> (r: Option<Normal>) {
        let v = message_style.value();
        if v == 1 {
            Some(Normal::EchoOff)
        } else if v == 2 {
            Some(Normal::EchoOn)
        } else if v == 3 {
            Some(Normal::ErrorMsg)
        } else if v == 4 {
            Some(Normal::TextInfo)
        } else {
            None
        }
    }
}

/// A trait representing the contents of a message for some [`Style`] `S`.
pub trait MessageContent<'message, S> where S: Style {
    /// Whether `content` is what a raw message of a style parses into.
    spec fn parses(target_style: S, raw_message: MessageView, content: Self) -> bool where Self: Sized;

    /// Parse a raw message into a message content.
    ///
    /// This must be infallible.
    fn parse(target_style: S, raw_message: &'message RawMessage) -> (r: Self)
        where
            Self: Sized,
        ensures
            Self::parses(target_style, raw_message@, r),
    ;
}

/// A trait that represents the dialog between the module and the client.
///
/// This is used to tell the client what they can expect from the module.
pub trait Dialoge {
    /// The message style to be used. In most cases, this can be [`Normal`].
    type MessageStyle: Style;

    /// The message type to be used for this [`Dialoge`].
    ///
    /// In most cases, this can be a [`NormalMessage`].
    type Message<'message>: MessageContent<'message, Self::MessageStyle>;

    /// The text with which this handler answers a message. Each
    /// implementation states through it what [`Dialoge::converse`] returns;
    /// the contract of [`Dialogate::stub`] speaks of it. An implementation
    /// written outside Verus is not checked against it.
    spec fn answer<'message>(&self, message: Self::Message<'message>) -> Seq<u8>;

    /// Perform one conversation step.
    ///
    /// A call to this function is not equivalent to a full end-to-end
    /// conversation, but rather a single message-to-response interaction.
    fn converse<'context, 'message>(
        &'context self,
        message_style: Self::Message<'message>,
    ) -> (r: &'context CText)
        ensures
            r@ == self.answer(message_style),
    ;
}

/// A raw normal message.
///
/// This is the default type of message style, but does not process its
/// content.
#[derive(Debug, Clone)]
pub struct RawNormal {
    /// The style of the message.
    style: Normal,
    /// The raw message content.
    raw_message: RawMessage,
}

impl RawNormal {
    /// The style of this message.
    pub closed spec fn spec_style(&self) -> Normal {
        self.style
    }

    /// The raw message of this message.
    pub closed spec fn spec_message(&self) -> MessageView {
        self.raw_message@
    }

    /// Determine the message style for this [`RawNormal`].
    pub fn style(&self) -> (r: Normal)
        ensures
            r == self.spec_style(),
    {
        self.style
    }

    /// Fetch the raw message body from this [`RawNormal`].
    pub fn message(&self) -> (r: RawMessage)
        ensures
            r@ == self.spec_message(),
    {
        self.raw_message.clone()
    }
}

impl<'a> MessageContent<'a, Normal> for RawNormal {
    open spec fn parses(target_style: Normal, raw_message: MessageView, content: RawNormal) -> bool {
        content.spec_style() == target_style && content.spec_message() == raw_message
    }

    fn parse(target_style: Normal, raw_message: &'a RawMessage) -> (r: RawNormal) {
        RawNormal { style: target_style, raw_message: raw_message.clone() }
    }
}

/// Determine whether input should be echoed back or not.
#[derive(Debug, Clone, Copy, PartialEq, Eq, Structural)]
pub enum Echo {
    /// The message should be echoed back.
    On,
    /// The message should not be echoed back.
    Off,
}

impl Echo {
    /// Determine the [`Echo`] variant based on the target state.
    pub fn bool(target_state: bool) -> (r: Self)
        ensures
            r == (if target_state { Echo::On } else { Echo::Off }),
    {
        if target_state {
            Echo::On
        } else {
            Echo::Off
        }
    }
}

/// A normal message.
///
/// This is a processed message, and thus can be consumed directly.
#[derive(Debug, Clone, PartialEq, Eq)]
pub enum NormalMessage {
    /// A prompt for user input.
    Prompt {
        /// The text of the prompt.
        prompt_text: CText,
        /// Whether the prompt should be echoed back.
        prompt_echo: Echo,
    },
    /// An information message.
    Info {
        /// The information message.
        info_message: CText,
    },
    /// An error message.
    Error {
        /// The error message.
        error_message: CText,
    },
}

impl NormalMessage {
    /// The text of this message, whatever its variant.
    pub open spec fn spec_prompt(self) -> Seq<u8> {
        match self {
            NormalMessage::Prompt { prompt_text, .. } => prompt_text@,
            NormalMessage::Info { info_message } => info_message@,
            NormalMessage::Error { error_message } => error_message@,
        }
    }

    /// Determine the prompt to use for this message, regardless of the variant.
    pub fn prompt(&self) -> (r: &CText)
        ensures
            r@ == self.spec_prompt(),
    {
        match self {
            NormalMessage::Prompt { prompt_text, .. } => prompt_text,
            NormalMessage::Info { info_message } => info_message,
            NormalMessage::Error { error_message } => error_message,
        }
    }
}

/// Whether `content` is the normal message that a raw message of the style
/// `target_style` parses into: a prompt for the two prompt styles, echoing
/// as the style says, an information message for text, an error message for
/// errors; each carries the raw message's text.
pub open spec fn normal_message_parses(
    target_style: Normal,
    raw_message: MessageView,
    content: NormalMessage,
) -> bool {
    match target_style {
        Normal::EchoOff => content matches NormalMessage::Prompt { prompt_text, prompt_echo }
            && prompt_text@ == raw_message.text && prompt_echo == Echo::Off,
        Normal::EchoOn => content matches NormalMessage::Prompt { prompt_text, prompt_echo }
            && prompt_text@ == raw_message.text && prompt_echo == Echo::On,
        Normal::TextInfo => content matches NormalMessage::Info { info_message }
            && info_message@ == raw_message.text,
        Normal::ErrorMsg => content matches NormalMessage::Error { error_message }
            && error_message@ == raw_message.text,
    }
}

impl<'a> MessageContent<'a, Normal> for NormalMessage {
    open spec fn parses(target_style: Normal, raw_message: MessageView, content: NormalMessage) -> bool {
        normal_message_parses(target_style, raw_message, content)
    }

    fn parse(target_style: Normal, raw_message: &'a RawMessage) -> (r: NormalMessage) {
        let text = raw_message.inner().msg.clone();
        match target_style {
            Normal::EchoOff => NormalMessage::Prompt { prompt_text: text, prompt_echo: Echo::Off },
            Normal::EchoOn => NormalMessage::Prompt { prompt_text: text, prompt_echo: Echo::On },
            Normal::TextInfo => NormalMessage::Info { info_message: text },
            Normal::ErrorMsg => NormalMessage::Error { error_message: text },
        }
    }
}

/// Whatever the style, the prompt of a parsed normal message is the text of
/// the raw message it was parsed from.
pub proof fn lemma_parsed_prompt(target_style: Normal, raw_message: MessageView, content: NormalMessage)
    requires
        normal_message_parses(target_style, raw_message, content),
    ensures
        content.spec_prompt() == raw_message.text,
{
}

/// Parsing a normal message fixes its kind and its echo by the style alone,
/// whatever the text: an echo-off prompt never echoes, an echo-on prompt
/// always does, text and error styles give information and error messages;
/// every kind carries the raw message's text unchanged.
pub proof fn lemma_normal_parse_by_style<'a>(
    target_style: Normal,
    raw_message: MessageView,
    content: NormalMessage,
)
    requires
        <NormalMessage as MessageContent<'a, Normal>>::parses(target_style, raw_message, content),
    ensures
        target_style == Normal::EchoOff ==> content == (NormalMessage::Prompt {
            prompt_text: content->prompt_text,
            prompt_echo: Echo::Off,
        }),
        target_style == Normal::EchoOn ==> content == (NormalMessage::Prompt {
            prompt_text: content->prompt_text,
            prompt_echo: Echo::On,
        }),
        (target_style == Normal::EchoOff || target_style == Normal::EchoOn) ==> content->prompt_echo
            == (if target_style == Normal::EchoOn { Echo::On } else { Echo::Off }),
        target_style == Normal::TextInfo ==> content is Info,
        target_style == Normal::ErrorMsg ==> content is Error,
        content.spec_prompt() == raw_message.text,
        content.spec_prompt().len() == raw_message.text.len(),
{
}

/// The status enumeration for a dialog between the module and the client.
#[derive(Debug, Copy, Clone, Hash, PartialEq, Eq, Structural)]
pub enum DialogeStatus {
    /// The operation was successful.
    Success,
    /// The operation failed due to a buffer error.
    BufErr,
    /// The operation failed due to a conversation error.
    ConvErr,
}

/// The PAM status code of a dialog status.
pub open spec fn dialoge_status_code(s: DialogeStatus) -> int {
    match s {
        DialogeStatus::Success => ffi::PAM_SUCCESS as int,
        DialogeStatus::BufErr => ffi::PAM_BUF_ERR as int,
        DialogeStatus::ConvErr => ffi::PAM_CONV_ERR as int,
    }
}

/// A dialog status carries the PAM code of its name: success is 0, a
/// buffer error 5, a conversation error 19.
pub proof fn lemma_dialoge_status_codes()
    ensures
        dialoge_status_code(DialogeStatus::Success) == 0,
        dialoge_status_code(DialogeStatus::BufErr) == 5,
        dialoge_status_code(DialogeStatus::ConvErr) == 19,
{
}

impl DialogeStatus {
    /// The PAM status code of this status (its discriminant).
    pub fn value(self) -> (r: u32)
        ensures
            r == dialoge_status_code(self),
    {
        match self {
            DialogeStatus::Success => 0,
            DialogeStatus::BufErr => 5,
            DialogeStatus::ConvErr => 19,
        }
    }
}

/// A marker that represents the dialog between the module and the client.
///
/// It has no value that code outside this module can build; it only
/// carries [`Dialogate::stub`].
pub struct Dialogate {
    _marker: (),
}

/// Whether the style `S` identifies the style of a raw message.
pub open spec fn identifies<S: Style>(message: MessageView) -> bool {
    S::identified(BareStyle::spec_raw(message.style)) is Some
}

/// Whether a message goes through the conversation step depends on the
/// handler's style type alone: a message is answered exactly when that type
/// identifies the message's raw style code, and nothing else turns it away.
pub proof fn lemma_identifies_is_identification<S: Style>(message: MessageView)
    ensures
        identifies::<S>(message) <==> S::identified(BareStyle::spec_raw(message.style)) is Some,
{
}

/// For normal styles, a message is answered exactly when its raw style code
/// is one of the four PAM message styles, from echo-off prompts to text; so
/// a batch whose styles all lie among them is answered in full.
pub proof fn lemma_normal_identifies(message: MessageView, messages: Seq<MessageView>)
    ensures
        identifies::<Normal>(message) <==> 1 <= message.style <= 4,
        identifies::<Normal>(message) <==> (message.style == ffi::PAM_PROMPT_ECHO_OFF
            || message.style == ffi::PAM_PROMPT_ECHO_ON || message.style == ffi::PAM_ERROR_MSG
            || message.style == ffi::PAM_TEXT_INFO),
        (forall|i: int| 0 <= i < messages.len() ==> 1 <= #[trigger] messages[i].style <= 4)
            ==> forall|i: int| 0 <= i < messages.len() ==> identifies::<Normal>(#[trigger] messages[i]),
{
    BareStyle::lemma_raw_value(message.style, BareStyle::spec_raw(message.style));
    assert forall|i: int| 0 <= i < messages.len() && 1 <= #[trigger] messages[i].style <= 4 implies identifies::<Normal>(messages[i]) by {
        BareStyle::lemma_raw_value(messages[i].style, BareStyle::spec_raw(messages[i].style));
    }
}

/// Whether `response` answers the raw message `message` for the handler
/// `target_dialogue`: it is the reply made of the handler's answer to some
/// content that the message parses into under its identified style.
pub open spec fn answers<'message, D: Dialoge>(
    target_dialogue: D,
    message: MessageView,
    response: ffi::ResponseView,
) -> bool {
    exists|content: D::Message<'message>|
        #![trigger target_dialogue.answer(content)]
        <D::Message<'message> as MessageContent<'message, D::MessageStyle>>::parses(
            D::MessageStyle::identified(BareStyle::spec_raw(message.style))->Some_0,
            message,
            content,
        ) && response == reply_view(target_dialogue.answer(content))
}

impl Dialogate {
    /// The conversation step for some particular [`Dialoge`] `D`: answer
    /// each message of `message_list` in turn.
    ///
    /// Each message whose style `D` identifies is parsed under that style and
    /// handed to [`Dialoge::converse`], and the handler's answer becomes its
    /// response (see [`RawResponse::reply`]). At the first message whose style is not
    /// identified, the step writes a failure response and stops with
    /// [`DialogeStatus::ConvErr`]; where every style is identified it ends
    /// with [`DialogeStatus::Success`] and one response per message.
    pub fn stub<'a, D: Dialoge>(target_dialogue: &D, message_list: &'a [RawMessage]) -> (r: (
        DialogeStatus,
        Vec<RawResponse>,
    ))
        ensures
            r.0 == DialogeStatus::Success <==> forall|i: int|
                0 <= i < message_list@.len() ==> #[trigger] identifies::<D::MessageStyle>(
                    message_list@[i]@,
                ),
            r.0 == DialogeStatus::Success || r.0 == DialogeStatus::ConvErr,
            r.0 == DialogeStatus::Success ==> r.1@.len() == message_list@.len(),
            r.0 == DialogeStatus::ConvErr ==> 1 <= r.1@.len() <= message_list@.len(),
            r.0 == DialogeStatus::ConvErr ==> !identifies::<D::MessageStyle>(
                message_list@[r.1@.len() - 1]@,
            ),
            r.0 == DialogeStatus::ConvErr ==> r.1@[r.1@.len() - 1]@ == failure_view(),
            r.0 == DialogeStatus::ConvErr ==> forall|i: int|
                0 <= i < r.1@.len() - 1 ==> #[trigger] identifies::<D::MessageStyle>(
                    message_list@[i]@,
                ),
            forall|i: int|
                0 <= i < r.1@.len() && (r.0 == DialogeStatus::Success || i < r.1@.len() - 1)
                    ==> answers::<D>(*target_dialogue, message_list@[i]@, #[trigger] r.1@[i]@),
    {
        let n = message_list.len();
        let mut responses: Vec<RawResponse> = Vec::new();
        let mut i: usize = 0;
        while i < n
            invariant
                n == message_list@.len(),
                i <= n,
                responses@.len() == i,
                forall|j: int|
                    0 <= j < i ==> #[trigger] identifies::<D::MessageStyle>(message_list@[j]@),
                forall|j: int|
                    0 <= j < i ==> answers::<D>(
                        *target_dialogue,
                        message_list@[j]@,
                        #[trigger] responses@[j]@,
                    ),
            decreases n - i,
        {
            let target_message: &'a RawMessage = &message_list[i];
            let message_style = BareStyle::raw(target_message.inner().msg_style);
            let identified = D::MessageStyle::try_identify(message_style);
            proof {
                assert(message_list@[i as int]@ == target_message@);
            }
            match identified {
                Some(style) => {
                    let target_content: D::Message<'a> = D::Message::parse(style, target_message);
                    let ghost content = target_content;
                    let target_input = target_dialogue.converse(target_content);
                    let response = RawResponse::reply(target_input);
                    proof {
                        assert(response@ == reply_view(target_dialogue.answer(content)));
                        assert(answers::<D>(*target_dialogue, message_list@[i as int]@, response@));
                    }
                    responses.push(response);
                },
                None => {
                    proof {
                        assert(!identifies::<D::MessageStyle>(message_list@[i as int]@));
                    }
                    responses.push(RawResponse::failure());
                    return (DialogeStatus::ConvErr, responses);
                },
            }
            i = i + 1;
        }
        (DialogeStatus::Success, responses)
    }
}

} // verus!
