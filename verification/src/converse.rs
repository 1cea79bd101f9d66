//! The message model of one authentication conversation, the converser
//! capabilities that answer it, and the bridge that carries a conversation
//! across the foreign synchronous callback interface.
//!
//! The foreign caller hands over a list of records, each a text and a
//! 32-bit style code. The bridge copies them into owned [`PamMessage`]
//! values, lets a [`Converser`] attach responses, and returns one response
//! slot per message. The raw pointer marshalling and the catch of
//! uncontrolled faults live in the embedding program; everything that
//! decides or transforms values is here, verified.

use std::io::BufRead;
use std::io::Write;

use vstd::prelude::*;

use crate::error::PamError;

verus! {

/// The style code of a prompt whose input is secret and must not be echoed.
pub const PAM_PROMPT_ECHO_OFF: i32 = 1;

/// The style code of a prompt whose input may be shown while typed.
pub const PAM_PROMPT_ECHO_ON: i32 = 2;

/// The style code of an error message; no input is requested.
pub const PAM_ERROR_MSG: i32 = 3;

/// The style code of an informational message; no input is requested.
pub const PAM_TEXT_INFO: i32 = 4;

/// Status 0: the conversation succeeded.
pub const PAM_SUCCESS: i32 = 0;

/// Status of a failure to allocate the foreign-owned response records.
pub const PAM_BUF_ERR: i32 = 5;

/// Status of a malformed or failed message exchange.
pub const PAM_CONV_ERR: i32 = 19;

/// Each message in a conversation has one of four styles, and each style
/// must be handled separately.
#[derive(Clone, Copy, Debug, PartialEq, Eq, Structural)]
pub enum PamMessageStyle {
    /// Prompt for input using a message. The input is considered secret
    /// and must be hidden from view.
    PromptEchoOff,
    /// Prompt for input using a message. The input need not be treated as
    /// a secret and may be displayed to the user.
    PromptEchoOn,
    /// Display an error message. The user is not prompted for input.
    ErrorMessage,
    /// Display some informational text. The user is not prompted for
    /// input.
    TextInfo,
}

/// The style, if any, that a foreign 32-bit style code denotes.
pub open spec fn style_from_code(code: i32) -> Option<PamMessageStyle> {
    if code == PAM_PROMPT_ECHO_OFF {
        Some(PamMessageStyle::PromptEchoOff)
    } else if code == PAM_PROMPT_ECHO_ON {
        Some(PamMessageStyle::PromptEchoOn)
    } else if code == PAM_ERROR_MSG {
        Some(PamMessageStyle::ErrorMessage)
    } else if code == PAM_TEXT_INFO {
        Some(PamMessageStyle::TextInfo)
    } else {
        None
    }
}

/// True of the styles that request input from the user.
pub open spec fn is_prompt(style: PamMessageStyle) -> bool {
    style == PamMessageStyle::PromptEchoOff || style == PamMessageStyle::PromptEchoOn
}

impl PamMessageStyle {
    /// Decodes a foreign style code; `None` on the codes outside the fixed
    /// four-value enumeration.
    pub fn from_int(val: i32) -> (r: Option<PamMessageStyle>)
        ensures
            r == style_from_code(val),
    {
        if val == PAM_PROMPT_ECHO_OFF {
            Some(PamMessageStyle::PromptEchoOff)
        } else if val == PAM_PROMPT_ECHO_ON {
            Some(PamMessageStyle::PromptEchoOn)
        } else if val == PAM_ERROR_MSG {
            Some(PamMessageStyle::ErrorMessage)
        } else if val == PAM_TEXT_INFO {
            Some(PamMessageStyle::TextInfo)
        } else {
            None
        }
    }
}

/// The mathematical value of one message: its text, its style, and the
/// response attached so far.
pub ghost struct MessageView {
    pub text: Seq<char>,
    pub style: PamMessageStyle,
    pub response: Option<Seq<char>>,
}

/// One message of a conversation together with the response to it.
pub struct PamMessage {
    /// The text shown to the user.
    pub msg: String,
    /// How the message is to be handled.
    pub style: PamMessageStyle,
    response: Option<String>,
}

impl View for PamMessage {
    type V = MessageView;

    closed spec fn view(&self) -> MessageView {
        MessageView {
            text: self.msg@,
            style: self.style,
            response: match self.response {
                Some(s) => Some(s@),
                None => None,
            },
        }
    }
}

impl PamMessage {
    /// Builds a message with no response attached yet.
    pub fn new(msg: String, style: PamMessageStyle) -> (r: PamMessage)
        ensures
            r@ == (MessageView { text: msg@, style, response: None }),
    {
        PamMessage { msg, style, response: None }
    }

    /// Set a response value to the message. A second call silently
    /// overwrites the first; this is documented behaviour, not an error.
    pub fn set_response(&mut self, resp: String)
        ensures
            final(self)@ == (MessageView { response: Some(resp@), ..old(self)@ }),
    {
        self.response = Some(resp);
    }

    /// Clear the response to the message; the only supported way to un-set
    /// one.
    pub fn clear_response(&mut self)
        ensures
            final(self)@ == (MessageView { response: None, ..old(self)@ }),
    {
        self.response = None;
    }

    /// The response attached so far, if any.
    pub fn response(&self) -> (r: Option<&String>)
        ensures
            match r {
                Some(s) => self@.response == Some(s@),
                None => self@.response is None,
            },
    {
        self.response.as_ref()
    }
}

/// An ordered conversation of messages. The length is fixed after
/// construction: no message is added or removed, only mutated in place by
/// attaching a response, so the foreign caller can correlate responses by
/// index.
pub struct Conversation {
    messages: Vec<PamMessage>,
}

impl View for Conversation {
    type V = Seq<MessageView>;

    closed spec fn view(&self) -> Seq<MessageView> {
        self.messages@.map_values(|m: PamMessage| m@)
    }
}

impl Conversation {
    /// Builds a conversation from its messages.
    pub fn new(messages: Vec<PamMessage>) -> (r: Conversation)
        ensures
            r@ == messages@.map_values(|m: PamMessage| m@),
    {
        Conversation { messages }
    }

    /// The messages of this conversation, in order.
    pub fn messages(&self) -> (r: &Vec<PamMessage>)
        ensures
            r@.map_values(|m: PamMessage| m@) == self@,
    {
        &self.messages
    }

    /// The messages of this conversation, mutably, so that responses can
    /// be attached to them. The borrow exposes the vector itself: a caller
    /// is expected only to mutate messages in place, since the foreign
    /// caller correlates responses with its records by index, and nothing
    /// answers for slots it never asked about.
    pub fn messages_mut(&mut self) -> (r: &mut Vec<PamMessage>)
        ensures
            r@.map_values(|m: PamMessage| m@) == old(self)@,
            final(self)@ == final(r)@.map_values(|m: PamMessage| m@),
    {
        &mut self.messages
    }
}

/// A result of the conversation layer.
pub type PamResult<T> = Result<T, PamError>;

/// True when `f` is `o` with its text and style kept.
pub open spec fn core_kept(o: MessageView, f: MessageView) -> bool {
    f.text == o.text && f.style == o.style
}

/// True when the message `o`, handled by `converser`, may end as `f`: a
/// prompt carries a response the converser may give to that text, and any
/// other message is untouched.
pub open spec fn processed<T: SequentialConverser>(
    converser: &T,
    o: MessageView,
    f: MessageView,
) -> bool {
    match o.style {
        PamMessageStyle::PromptEchoOn => f.response matches Some(s) && converser.normal_ok(
            o.text,
            s,
        ),
        PamMessageStyle::PromptEchoOff => f.response matches Some(s) && converser.hidden_ok(
            o.text,
            s,
        ),
        _ => f.response == o.response,
    }
}

/// True when handling was abandoned at position `j`: every message before
/// `j` was processed, and no message from `j` on had its response touched.
pub open spec fn aborted_at<T: SequentialConverser>(
    converser: &T,
    o: Seq<MessageView>,
    f: Seq<MessageView>,
    j: int,
) -> bool {
    &&& forall|i: int| 0 <= i < j ==> processed(converser, o[i], #[trigger] f[i])
    &&& forall|i: int| j <= i < o.len() ==> (#[trigger] f[i]).response == o[i].response
}

/// True when the message `o`, handled by a converser whose response
/// relation is `mr`, may end as `f`: a prompt carries a response the
/// relation admits for that text and style, and any other message is
/// untouched.
pub open spec fn processed_by(
    mr: spec_fn(Seq<char>, PamMessageStyle, Seq<char>) -> bool,
    o: MessageView,
    f: MessageView,
) -> bool {
    if is_prompt(o.style) {
        f.response matches Some(s) && mr(o.text, o.style, s)
    } else {
        f.response == o.response
    }
}

/// True when a converser with response relation `mr` abandoned the
/// conversation at position `j`: every message before `j` was processed,
/// and no message from `j` on had its response touched.
pub open spec fn conversation_aborted_at(
    mr: spec_fn(Seq<char>, PamMessageStyle, Seq<char>) -> bool,
    o: Seq<MessageView>,
    f: Seq<MessageView>,
    j: int,
) -> bool {
    &&& forall|i: int| 0 <= i < j ==> processed_by(mr, o[i], #[trigger] f[i])
    &&& forall|i: int| j <= i < o.len() ==> (#[trigger] f[i]).response == o[i].response
}

/// Something that can answer a conversation.
pub trait Converser {
    /// The responses this converser may attach to a prompt with the given
    /// text and style; anything, unless an implementation says more.
    open spec fn may_respond(&self, text: Seq<char>, style: PamMessageStyle, response: Seq<char>) -> bool {
        true
    }

    /// The same relation as [`Self::may_respond`], as one value, so that
    /// contracts can pass it around.
    open spec fn may_respond_rel(&self) -> spec_fn(Seq<char>, PamMessageStyle, Seq<char>) -> bool {
        |t: Seq<char>, st: PamMessageStyle, rsp: Seq<char>| self.may_respond(t, st, rsp)
    }

    /// Handle all the messages in the given conversation, in sequence or
    /// at the same time if possible. On success every prompt-style message
    /// carries a response this converser may give; no other message's
    /// response is touched. An empty conversation always succeeds. Failure
    /// is never partial success: it is propagated to the caller as an
    /// error, and everything from the failure point on is untouched.
    fn handle_conversation(&self, conversation: &mut Conversation) -> (r: PamResult<()>)
        ensures
            final(conversation)@.len() == old(conversation)@.len(),
            forall|i: int|
                0 <= i < old(conversation)@.len() ==> core_kept(
                    old(conversation)@[i],
                    #[trigger] final(conversation)@[i],
                ),
            old(conversation)@.len() == 0 ==> r is Ok,
            r is Ok ==> forall|i: int|
                0 <= i < old(conversation)@.len() ==> processed_by(
                    self.may_respond_rel(),
                    old(conversation)@[i],
                    #[trigger] final(conversation)@[i],
                ),
            r is Err ==> exists|j: int|
                0 <= j < old(conversation)@.len() && #[trigger] conversation_aborted_at(
                    self.may_respond_rel(),
                    old(conversation)@,
                    final(conversation)@,
                    j,
                ),
    ;
}

/// A converser that answers one message at a time. Its refinement into a
/// full [`Converser`] processes messages strictly in order and aborts at
/// the first failing handler.
pub trait SequentialConverser: Sized {
    /// The responses this converser may give to a normal prompt;
    /// anything, unless an implementation says more.
    open spec fn normal_ok(&self, msg: Seq<char>, response: Seq<char>) -> bool {
        true
    }

    /// The responses this converser may give to a hidden prompt;
    /// anything, unless an implementation says more.
    open spec fn hidden_ok(&self, msg: Seq<char>, response: Seq<char>) -> bool {
        true
    }

    /// Handle a normal prompt: present the message and ask for a value.
    /// The value is not considered a secret.
    fn handle_normal_prompt(&self, msg: &str) -> (r: PamResult<String>)
        ensures
            r matches Ok(s) ==> self.normal_ok(msg@, s@),
    ;

    /// Handle a hidden prompt: present the message and ask for a value.
    /// The value is considered secret and must not be echoed.
    fn handle_hidden_prompt(&self, msg: &str) -> (r: PamResult<String>)
        ensures
            r matches Ok(s) ==> self.hidden_ok(msg@, s@),
    ;

    /// Display an error message to the user; no input is requested.
    fn handle_error(&self, msg: &str) -> PamResult<()>;

    /// Display an informational message to the user; no input is
    /// requested.
    fn handle_info(&self, msg: &str) -> PamResult<()>;
}

/// The order-preserving, fail-fast adaptation of a [`SequentialConverser`]:
/// messages are handled strictly in order, dispatching on style; the first
/// handler failure aborts the remaining messages of the conversation.
pub fn handle_sequential<T: SequentialConverser>(
    converser: &T,
    conversation: &mut Conversation,
) -> (r: PamResult<()>)
    ensures
        final(conversation)@.len() == old(conversation)@.len(),
        forall|i: int|
            0 <= i < old(conversation)@.len() ==> core_kept(
                old(conversation)@[i],
                #[trigger] final(conversation)@[i],
            ),
        old(conversation)@.len() == 0 ==> r is Ok,
        r is Ok ==> forall|i: int|
            0 <= i < old(conversation)@.len() ==> processed(
                converser,
                old(conversation)@[i],
                #[trigger] final(conversation)@[i],
            ),
        r is Err ==> exists|j: int|
            0 <= j < old(conversation)@.len() && #[trigger] aborted_at(
                converser,
                old(conversation)@,
                final(conversation)@,
                j,
            ),
{
    let ghost orig: Seq<MessageView> = conversation@;
    let n: usize = conversation.messages.len();
    let mut i: usize = 0;
    while i < n
        invariant
            orig == old(conversation)@,
            n == orig.len(),
            conversation@.len() == orig.len(),
            i <= n,
            forall|k: int| 0 <= k < orig.len() ==> core_kept(orig[k], #[trigger] conversation@[k]),
            forall|k: int|
                0 <= k < i ==> processed(converser, orig[k], #[trigger] conversation@[k]),
            forall|k: int|
                i <= k < orig.len() ==> (#[trigger] conversation@[k]).response == orig[k].response,
        decreases n - i,
    {
        let ghost pre: Seq<MessageView> = conversation@;
        proof {
            assert(core_kept(orig[i as int], pre[i as int]));
            assert(pre[i as int].text == conversation.messages@[i as int].msg@);
            assert(pre[i as int].response == orig[i as int].response);
        }
        let style = conversation.messages[i].style;
        match style {
            PamMessageStyle::PromptEchoOn => {
                match converser.handle_normal_prompt(conversation.messages[i].msg.as_str()) {
                    Ok(s) => {
                        conversation.messages[i].set_response(s);
                        proof {
                            assert(conversation@ =~= pre.update(i as int, conversation@[i as int]));
                        }
                    },
                    Err(e) => {
                        proof {
                            assert(aborted_at(converser, orig, conversation@, i as int));
                        }
                        return Err(e);
                    },
                }
            },
            PamMessageStyle::PromptEchoOff => {
                match converser.handle_hidden_prompt(conversation.messages[i].msg.as_str()) {
                    Ok(s) => {
                        conversation.messages[i].set_response(s);
                        proof {
                            assert(conversation@ =~= pre.update(i as int, conversation@[i as int]));
                        }
                    },
                    Err(e) => {
                        proof {
                            assert(aborted_at(converser, orig, conversation@, i as int));
                        }
                        return Err(e);
                    },
                }
            },
            PamMessageStyle::ErrorMessage => {
                match converser.handle_error(conversation.messages[i].msg.as_str()) {
                    Ok(_) => {},
                    Err(e) => {
                        proof {
                            assert(aborted_at(converser, orig, conversation@, i as int));
                        }
                        return Err(e);
                    },
                }
            },
            PamMessageStyle::TextInfo => {
                match converser.handle_info(conversation.messages[i].msg.as_str()) {
                    Ok(_) => {},
                    Err(e) => {
                        proof {
                            assert(aborted_at(converser, orig, conversation@, i as int));
                        }
                        return Err(e);
                    },
                }
            },
        }
        i += 1;
    }
    Ok(())
}

impl<T: SequentialConverser> Converser for T {
    open spec fn may_respond(
        &self,
        text: Seq<char>,
        style: PamMessageStyle,
        response: Seq<char>,
    ) -> bool {
        match style {
            PamMessageStyle::PromptEchoOn => self.normal_ok(text, response),
            PamMessageStyle::PromptEchoOff => self.hidden_ok(text, response),
            _ => false,
        }
    }

    fn handle_conversation(&self, conversation: &mut Conversation) -> (r: PamResult<()>) {
        let r = handle_sequential(self, conversation);
        proof {
            let o = old(conversation)@;
            let f = conversation@;
            let mr = self.may_respond_rel();
            if r is Ok {
                assert forall|i: int| 0 <= i < o.len() implies processed_by(
                    mr,
                    o[i],
                    #[trigger] f[i],
                ) by {
                    assert(processed(self, o[i], f[i]));
                }
            } else {
                let j = choose|j: int| 0 <= j < o.len() && #[trigger] aborted_at(self, o, f, j);
                assert forall|i: int| 0 <= i < j implies processed_by(
                    mr,
                    o[i],
                    #[trigger] f[i],
                ) by {
                    assert(processed(self, o[i], f[i]));
                }
                assert(conversation_aborted_at(mr, o, f, j));
            }
        }
        r
    }
}

/// The status returned to the foreign caller of the bridge: a small
/// integer, zero on success.
#[derive(Clone, Copy, Debug, PartialEq, Eq, Structural)]
pub enum PamErrorType {
    /// The conversation succeeded.
    Success,
    /// The message exchange was malformed or failed, or an internal fault
    /// was caught at the bridge boundary.
    ConversationError,
    /// A foreign-owned response record could not be allocated.
    BufferError,
}

/// The foreign integer of each status.
pub open spec fn status_code(e: PamErrorType) -> i32 {
    match e {
        PamErrorType::Success => PAM_SUCCESS,
        PamErrorType::ConversationError => PAM_CONV_ERR,
        PamErrorType::BufferError => PAM_BUF_ERR,
    }
}

impl PamErrorType {
    /// The foreign-compatible integer of this status.
    pub fn as_int(&self) -> (r: i32)
        ensures
            r == status_code(*self),
    {
        match self {
            PamErrorType::Success => PAM_SUCCESS,
            PamErrorType::ConversationError => PAM_CONV_ERR,
            PamErrorType::BufferError => PAM_BUF_ERR,
        }
    }
}

/// The carrier pairing a converser with a failure latch. Its address is
/// what the foreign layer passes opaquely through the callback; it must
/// outlive every bridge invocation that references it. The latch is a
/// one-way flag: set only when the converser fails catastrophically, never
/// cleared.
pub struct ConverserData<C> {
    /// The converser that answers the conversations this carrier backs.
    pub converser: C,
    /// True once an uncontrolled fault of the converser was caught at the
    /// bridge boundary.
    pub panicked: bool,
}

impl<C> ConverserData<C> {
    /// Builds a carrier; the failure latch starts unset.
    pub fn new(converser: C) -> (r: ConverserData<C>)
        ensures
            r.converser == converser,
            r.panicked == false,
    {
        ConverserData { converser, panicked: false }
    }

    /// Latches that the converser failed catastrophically during a bridge
    /// invocation. The embedding program calls this from the catch at the
    /// callback boundary; nothing ever clears the latch.
    pub fn record_failure(&mut self)
        ensures
            final(self).converser == old(self).converser,
            final(self).panicked == true,
    {
        self.panicked = true;
    }
}

/// One foreign message record, already copied into owned memory: the text
/// behind its null-terminated pointer and its raw 32-bit style code.
pub struct ForeignMessage {
    /// The message text.
    pub msg: String,
    /// The raw style code, not yet validated.
    pub msg_style: i32,
}

/// Builds a conversation from foreign message records, validating every
/// style code. Total for any number of records; a single unrecognized code
/// fails the whole conversion, before any converser is invoked and with no
/// partial state surfaced.
pub fn decode_messages(records: &Vec<ForeignMessage>) -> (r: Result<Conversation, PamErrorType>)
    ensures
        match r {
            Ok(conv) => {
                &&& conv@.len() == records@.len()
                &&& forall|i: int|
                    0 <= i < records@.len() ==> {
                        let m = #[trigger] conv@[i];
                        &&& m.text == records@[i].msg@
                        &&& Some(m.style) == style_from_code(records@[i].msg_style)
                        &&& m.response is None
                    }
            },
            Err(e) => {
                &&& e == PamErrorType::ConversationError
                &&& exists|i: int|
                    0 <= i < records@.len() && style_from_code(
                        (#[trigger] records@[i]).msg_style,
                    ) is None
            },
        },
{
    let n = records.len();
    let mut messages: Vec<PamMessage> = Vec::new();
    let mut i: usize = 0;
    while i < n
        invariant
            n == records@.len(),
            i <= n,
            messages@.len() == i,
            forall|k: int|
                0 <= k < i ==> {
                    let m = (#[trigger] messages@[k])@;
                    &&& m.text == records@[k].msg@
                    &&& Some(m.style) == style_from_code(records@[k].msg_style)
                    &&& m.response is None
                },
        decreases n - i,
    {
        let style = match PamMessageStyle::from_int(records[i].msg_style) {
            Some(style) => style,
            None => {
                return Err(PamErrorType::ConversationError);
            },
        };
        messages.push(PamMessage::new(records[i].msg.clone(), style));
        i += 1;
    }
    let conv = Conversation::new(messages);
    Ok(conv)
}

/// Reads the responses out of a handled conversation, one slot per
/// message, order-preserving: slot `i` carries the response of message `i`
/// when one was attached, and stays empty otherwise.
pub fn encode_responses(conversation: &Conversation) -> (r: Vec<Option<String>>)
    ensures
        r@.len() == conversation@.len(),
        forall|i: int|
            0 <= i < conversation@.len() ==> match (#[trigger] r@[i]) {
                Some(s) => conversation@[i].response == Some(s@),
                None => conversation@[i].response is None,
            },
{
    let n = conversation.messages.len();
    let mut out: Vec<Option<String>> = Vec::new();
    let mut i: usize = 0;
    while i < n
        invariant
            n == conversation@.len(),
            i <= n,
            out@.len() == i,
            forall|k: int|
                0 <= k < i ==> match (#[trigger] out@[k]) {
                    Some(s) => conversation@[k].response == Some(s@),
                    None => conversation@[k].response is None,
                },
        decreases n - i,
    {
        proof {
            assert(conversation@[i as int] == conversation.messages@[i as int]@);
        }
        match conversation.messages[i].response() {
            Some(s) => {
                out.push(Some(s.clone()));
            },
            None => {
                out.push(None);
            },
        }
        i += 1;
    }
    out
}

/// One bridge invocation over in-memory values: build a conversation from
/// the foreign records, let the carrier's converser answer it, and return
/// one response slot per record. Any failure yields a conversation-error
/// status instead; the catch of uncontrolled converser faults, and the
/// copies between raw foreign memory and these values, are the embedding
/// program's side of the boundary.
pub fn converse<C: Converser>(
    app_data: &ConverserData<C>,
    records: &Vec<ForeignMessage>,
) -> (r: Result<Vec<Option<String>>, PamErrorType>)
    ensures
        records@.len() == 0 ==> r is Ok,
        match r {
            Ok(resp) => {
                &&& resp@.len() == records@.len()
                &&& forall|i: int|
                    0 <= i < records@.len() ==> {
                        let code = (#[trigger] records@[i]).msg_style;
                        let mr = app_data.converser.may_respond_rel();
                        style_from_code(code) matches Some(st) && (match resp@[i] {
                            Some(s) => is_prompt(st) && mr(records@[i].msg@, st, s@),
                            None => !is_prompt(st),
                        })
                    }
            },
            Err(e) => e == PamErrorType::ConversationError,
        },
{
    let mut conversation = match decode_messages(records) {
        Ok(c) => c,
        Err(e) => {
            return Err(e);
        },
    };
    match app_data.converser.handle_conversation(&mut conversation) {
        Ok(_) => {},
        Err(_) => {
            return Err(PamErrorType::ConversationError);
        },
    }
    let responses = encode_responses(&conversation);
    Ok(responses)
}

/// Relies on `std::io::Write::write_fmt` on standard output. Stream-write
/// failure is fatal to the process by design, as a terminal tool expects.
#[verifier::external_body]
fn stdout_write(text: &str) {
    write!(std::io::stdout(), "{text}").unwrap();
}

/// Relies on `std::io::Write::flush` on standard output, so a prompt is
/// visible before input is read. Failure is fatal to the process by design.
#[verifier::external_body]
fn stdout_flush() {
    std::io::stdout().flush().unwrap();
}

/// Relies on `std::io::BufRead::read_line` on standard input: appends one
/// line, including its trailing newline, to an empty string. The result
/// depends on what the user types, so nothing is promised of it. Read
/// failure is fatal to the process by design.
#[verifier::external_body]
fn stdin_read_line() -> String {
    let mut s = String::new();
    std::io::stdin().lock().read_line(&mut s).unwrap();
    s
}

/// Relies on `std::io::Write::write_fmt` on standard error: writes the
/// text and a newline. Failure is fatal to the process by design.
#[verifier::external_body]
fn stderr_write_line(text: &str) {
    writeln!(std::io::stderr(), "{text}").unwrap();
}

/// Relies on `std::io::Write::write_fmt` on standard output: writes the
/// text and a newline. Failure is fatal to the process by design.
#[verifier::external_body]
fn stdout_write_line(text: &str) {
    writeln!(std::io::stdout(), "{text}").unwrap();
}

/// Relies on `rpassword::prompt_password`: writes the prompt to the
/// terminal and reads one line with echo disabled, returning it without
/// its trailing newline. The result depends on what the user types, so
/// nothing is promised of it.
#[verifier::external_body]
fn prompt_password(prompt: &str) -> Result<String, std::io::Error> {
    rpassword::prompt_password(prompt)
}

/// A converser that uses the standard streams to display messages and to
/// request input from the user.
pub struct CLIConverser;

impl SequentialConverser for CLIConverser {
    open spec fn normal_ok(&self, msg: Seq<char>, response: Seq<char>) -> bool {
        true
    }

    open spec fn hidden_ok(&self, msg: Seq<char>, response: Seq<char>) -> bool {
        true
    }

    /// Writes the prompt to standard output and returns one line of
    /// standard input verbatim, including any trailing newline: the
    /// captured value is deliberately not trimmed. It has no error path:
    /// a stream failure is fatal to the process, never reported.
    fn handle_normal_prompt(&self, msg: &str) -> (r: PamResult<String>)
        ensures
            r is Ok,
    {
        let prompt = String::from_str("[Sudo: input needed] ").concat(msg);
        stdout_write(prompt.as_str());
        stdout_flush();
        Ok(stdin_read_line())
    }

    /// Prompts on the terminal and reads the value with echo disabled;
    /// the captured value is never logged. The only failure it reports is
    /// the terminal's own.
    fn handle_hidden_prompt(&self, msg: &str) -> (r: PamResult<String>)
        ensures
            r matches Err(e) ==> e is IoError,
    {
        let prompt = String::from_str("[Sudo: authenticate] ").concat(msg);
        match prompt_password(prompt.as_str()) {
            Ok(s) => Ok(s),
            Err(e) => Err(PamError::IoError(e)),
        }
    }

    /// Writes the message to standard error. Always succeeds: a
    /// stream-write failure is fatal to the process, never reported.
    fn handle_error(&self, msg: &str) -> (r: PamResult<()>)
        ensures
            r is Ok,
    {
        let line = String::from_str("[Sudo error] ").concat(msg);
        stderr_write_line(line.as_str());
        Ok(())
    }

    /// Writes the message to standard output. Always succeeds: a
    /// stream-write failure is fatal to the process, never reported.
    fn handle_info(&self, msg: &str) -> (r: PamResult<()>)
        ensures
            r is Ok,
    {
        let line = String::from_str("[Sudo] ").concat(msg);
        stdout_write_line(line.as_str());
        Ok(())
    }
}

} // verus!
