use std::cell::RefCell;

use sudo_core::converse::{
    converse, decode_messages, encode_responses, handle_sequential, Conversation, ConverserData,
    ForeignMessage, PamErrorType, PamMessage, PamMessageStyle, PamResult, SequentialConverser,
};
use sudo_core::error::PamError;

fn style_code(style: PamMessageStyle) -> i32 {
    match style {
        PamMessageStyle::PromptEchoOff => sudo_core::converse::PAM_PROMPT_ECHO_OFF,
        PamMessageStyle::PromptEchoOn => sudo_core::converse::PAM_PROMPT_ECHO_ON,
        PamMessageStyle::ErrorMessage => sudo_core::converse::PAM_ERROR_MSG,
        PamMessageStyle::TextInfo => sudo_core::converse::PAM_TEXT_INFO,
    }
}

fn record(style: PamMessageStyle, text: &str) -> ForeignMessage {
    ForeignMessage { msg: text.to_string(), msg_style: style_code(style) }
}

/// A converser with the persona of the original exchange: prompts are
/// answered from the identity and the message text, an error-style message
/// makes the handler fail.
struct Tux(String);

impl SequentialConverser for Tux {
    fn handle_normal_prompt(&self, msg: &str) -> PamResult<String> {
        Ok(format!("{} says {}", self.0, msg))
    }

    fn handle_hidden_prompt(&self, msg: &str) -> PamResult<String> {
        Ok(format!("{}s secret is {}", self.0, msg))
    }

    fn handle_error(&self, _msg: &str) -> PamResult<()> {
        Err(PamError::Conversation)
    }

    fn handle_info(&self, _msg: &str) -> PamResult<()> {
        Ok(())
    }
}

// the inverse of the bridge, standing in for the foreign caller
fn dummy_pam(msgs: &[(PamMessageStyle, &str)], data: &ConverserData<Tux>) -> Vec<Option<String>> {
    let records: Vec<ForeignMessage> =
        msgs.iter().map(|(style, text)| record(*style, text)).collect();
    match converse(data, &records) {
        Ok(responses) => responses,
        Err(_) => vec![],
    }
}

#[test]
fn pam_gpt() {
    let prompt_echo_off = PamMessageStyle::PromptEchoOff;
    let prompt_echo_on = PamMessageStyle::PromptEchoOn;
    let error_message = PamMessageStyle::ErrorMessage;
    let text_info = PamMessageStyle::TextInfo;

    let hello = ConverserData::new(Tux("tux".to_string()));

    assert_eq!(dummy_pam(&[], &hello), Vec::<Option<String>>::new());

    assert_eq!(
        dummy_pam(&[(prompt_echo_on, "hello")], &hello),
        vec![Some("tux says hello".to_string())]
    );

    assert_eq!(
        dummy_pam(&[(prompt_echo_off, "fish")], &hello),
        vec![Some("tuxs secret is fish".to_string())]
    );

    assert_eq!(dummy_pam(&[(text_info, "mars")], &hello), vec![None]);

    assert_eq!(
        dummy_pam(
            &[
                (prompt_echo_off, "banging the rocks together"),
                (text_info, ""),
                (prompt_echo_on, ""),
            ],
            &hello
        ),
        vec![
            Some("tuxs secret is banging the rocks together".to_string()),
            None,
            Some("tux says ".to_string()),
        ]
    );

    assert!(!hello.panicked);

    // a failing error handler aborts the exchange; the controlled failure
    // is reported through the status, not through the fault latch, which
    // only the embedding program's catch sets
    assert_eq!(dummy_pam(&[(error_message, "oops")], &hello), vec![]);
    assert!(!hello.panicked);
}

#[test]
fn from_int_recognizes_the_four_codes() {
    assert!(matches!(PamMessageStyle::from_int(1), Some(PamMessageStyle::PromptEchoOff)));
    assert!(matches!(PamMessageStyle::from_int(2), Some(PamMessageStyle::PromptEchoOn)));
    assert!(matches!(PamMessageStyle::from_int(3), Some(PamMessageStyle::ErrorMessage)));
    assert!(matches!(PamMessageStyle::from_int(4), Some(PamMessageStyle::TextInfo)));
    assert!(PamMessageStyle::from_int(0).is_none());
    assert!(PamMessageStyle::from_int(5).is_none());
    assert!(PamMessageStyle::from_int(-1).is_none());
    assert!(PamMessageStyle::from_int(i32::MAX).is_none());
}

#[test]
fn status_codes_are_the_foreign_integers() {
    assert_eq!(PamErrorType::Success.as_int(), 0);
    assert_eq!(PamErrorType::ConversationError.as_int(), 19);
    assert_eq!(PamErrorType::BufferError.as_int(), 5);
}

#[test]
fn responses_can_be_set_overwritten_and_cleared() {
    let mut m = PamMessage::new("who?".to_string(), PamMessageStyle::PromptEchoOn);
    assert!(m.response().is_none());
    m.set_response("me".to_string());
    assert_eq!(m.response(), Some(&"me".to_string()));
    m.set_response("you".to_string());
    assert_eq!(m.response(), Some(&"you".to_string()));
    m.clear_response();
    assert!(m.response().is_none());
}

#[test]
fn decode_preserves_order_and_styles() {
    let records = vec![
        record(PamMessageStyle::TextInfo, "first"),
        record(PamMessageStyle::PromptEchoOff, "second"),
    ];
    let conversation = decode_messages(&records).ok().unwrap();
    let messages = conversation.messages();
    assert_eq!(messages.len(), 2);
    assert_eq!(messages[0].msg, "first");
    assert!(matches!(messages[0].style, PamMessageStyle::TextInfo));
    assert!(messages[0].response().is_none());
    assert_eq!(messages[1].msg, "second");
    assert!(matches!(messages[1].style, PamMessageStyle::PromptEchoOff));
    assert!(messages[1].response().is_none());
}

#[test]
fn decode_rejects_an_unrecognized_code() {
    let records = vec![
        record(PamMessageStyle::TextInfo, "fine"),
        ForeignMessage { msg: "garbage".to_string(), msg_style: 99 },
    ];
    assert!(matches!(decode_messages(&records), Err(PamErrorType::ConversationError)));
}

/// A converser that records every handler call, so a test can see whether
/// it was invoked at all, and in what order.
struct Recorder {
    log: RefCell<Vec<String>>,
    fail_on_error: bool,
}

impl Recorder {
    fn new(fail_on_error: bool) -> Recorder {
        Recorder { log: RefCell::new(Vec::new()), fail_on_error }
    }
}

impl SequentialConverser for Recorder {
    fn handle_normal_prompt(&self, msg: &str) -> PamResult<String> {
        self.log.borrow_mut().push(format!("normal:{msg}"));
        Ok("answer".to_string())
    }

    fn handle_hidden_prompt(&self, msg: &str) -> PamResult<String> {
        self.log.borrow_mut().push(format!("hidden:{msg}"));
        Ok("secret".to_string())
    }

    fn handle_error(&self, msg: &str) -> PamResult<()> {
        self.log.borrow_mut().push(format!("error:{msg}"));
        if self.fail_on_error {
            Err(PamError::Conversation)
        } else {
            Ok(())
        }
    }

    fn handle_info(&self, msg: &str) -> PamResult<()> {
        self.log.borrow_mut().push(format!("info:{msg}"));
        Ok(())
    }
}

#[test]
fn unrecognized_code_invokes_no_converser() {
    let data = ConverserData::new(Recorder::new(false));
    let records = vec![
        record(PamMessageStyle::PromptEchoOn, "a"),
        ForeignMessage { msg: "bad".to_string(), msg_style: 0 },
        record(PamMessageStyle::PromptEchoOn, "b"),
    ];
    assert!(matches!(converse(&data, &records), Err(PamErrorType::ConversationError)));
    assert!(data.converser.log.borrow().is_empty());
}

#[test]
fn failing_error_handler_aborts_remaining_messages() {
    let converser = Recorder::new(true);
    let records = vec![
        record(PamMessageStyle::TextInfo, "one"),
        record(PamMessageStyle::ErrorMessage, "two"),
        record(PamMessageStyle::PromptEchoOn, "three"),
        record(PamMessageStyle::PromptEchoOff, "four"),
    ];
    let mut conversation = decode_messages(&records).ok().unwrap();
    assert!(handle_sequential(&converser, &mut conversation).is_err());
    assert_eq!(
        *converser.log.borrow(),
        vec!["info:one".to_string(), "error:two".to_string()]
    );
    // nothing after the failure got a response
    for message in conversation.messages() {
        assert!(message.response().is_none());
    }
}

#[test]
fn round_trip_with_pure_handlers() {
    // handlers are pure functions of (identity, message text)
    let data = ConverserData::new(Tux("ada".to_string()));
    let records = vec![
        record(PamMessageStyle::PromptEchoOff, "a"),
        record(PamMessageStyle::TextInfo, ""),
        record(PamMessageStyle::PromptEchoOn, ""),
    ];
    let responses = converse(&data, &records).ok().unwrap();
    assert_eq!(
        responses,
        vec![
            Some("adas secret is a".to_string()),
            None,
            Some("ada says ".to_string()),
        ]
    );
}

#[test]
fn encode_mirrors_attached_responses() {
    let records = vec![
        record(PamMessageStyle::PromptEchoOn, "q"),
        record(PamMessageStyle::TextInfo, "i"),
    ];
    let mut conversation = decode_messages(&records).ok().unwrap();
    for message in conversation.messages_mut() {
        if matches!(message.style, PamMessageStyle::PromptEchoOn) {
            message.set_response("r".to_string());
        }
    }
    let slots = encode_responses(&conversation);
    assert_eq!(slots, vec![Some("r".to_string()), None]);
}

#[test]
fn empty_conversation_yields_empty_responses() {
    let data = ConverserData::new(Recorder::new(false));
    let records: Vec<ForeignMessage> = vec![];
    let responses = converse(&data, &records).ok().unwrap();
    assert!(responses.is_empty());
    assert!(data.converser.log.borrow().is_empty());
}

#[test]
fn the_fault_latch_starts_unset_and_latches() {
    let mut data = ConverserData::new(Recorder::new(false));
    assert!(!data.panicked);
    data.record_failure();
    assert!(data.panicked);
    data.record_failure();
    assert!(data.panicked);
}

#[test]
fn cli_error_and_info_handlers_always_succeed() {
    let cli = sudo_core::converse::CLIConverser;
    assert!(cli.handle_error("something went wrong").is_ok());
    assert!(cli.handle_info("something happened").is_ok());
}

#[test]
fn conversation_can_be_built_from_messages() {
    let messages = vec![
        PamMessage::new("hi".to_string(), PamMessageStyle::TextInfo),
    ];
    let conversation = Conversation::new(messages);
    assert_eq!(conversation.messages().len(), 1);
    assert_eq!(conversation.messages()[0].msg, "hi");
}
