use room_relay::connection::{on_inbound, on_outbound, Inbound, InboundAction, Outbound, OutboundAction};
use room_relay::dto::{not_blank, MessageDto};
use room_relay::service::RelayError;
use room_relay::text::{blank, is_space, same_text};

fn decode(text: &str) -> Option<MessageDto> {
    let value: serde_json::Value = serde_json::from_str(text).ok()?;
    let object = value.as_object()?;
    Some(MessageDto {
        username: object.get("username")?.as_str()?.to_string(),
        message: object.get("message")?.as_str()?.to_string(),
    })
}

fn received(text: &str) -> Outbound {
    Outbound::Received { text: text.to_string(), decoded: decode(text) }
}

#[test]
fn blank_message_is_dropped() {
    let action = on_outbound(received("{\"username\":\"a\",\"message\":\"   \"}"));
    assert!(matches!(action, OutboundAction::Drop(RelayError::ValidationFailed)));
}

#[test]
fn valid_message_is_delivered_verbatim() {
    let text = "{\"username\":\"a\",\"message\":\"hi\"}";
    match on_outbound(received(text)) {
        OutboundAction::Write(frame) => assert_eq!(frame, text),
        other => panic!("not written: {:?}", other),
    }
}

#[test]
fn delivery_keeps_the_published_text_as_it_came() {
    let text = "{ \"message\" : \"hi\",  \"extra\": 1, \"username\":\"a\" }";
    match on_outbound(received(text)) {
        OutboundAction::Write(frame) => assert_eq!(frame, text),
        other => panic!("not written: {:?}", other),
    }
}

#[test]
fn blank_username_is_dropped() {
    let action = on_outbound(received("{\"username\":\"\",\"message\":\"hi\"}"));
    assert!(matches!(action, OutboundAction::Drop(RelayError::ValidationFailed)));
    let action = on_outbound(received("{\"username\":\"\\t\\n\",\"message\":\"hi\"}"));
    assert!(matches!(action, OutboundAction::Drop(RelayError::ValidationFailed)));
}

#[test]
fn malformed_payload_is_dropped_and_the_worker_goes_on() {
    for text in ["not json", "{\"username\":\"a\"}", "[]", ""] {
        let action = on_outbound(received(text));
        assert!(matches!(action, OutboundAction::Drop(RelayError::MalformedMessage)));
    }
}

#[test]
fn outbound_worker_stops_when_it_lags_or_cannot_write() {
    assert!(matches!(on_outbound(Outbound::Lagged), OutboundAction::Stop));
    assert!(matches!(on_outbound(Outbound::ChannelClosed), OutboundAction::Stop));
    assert!(matches!(on_outbound(Outbound::WriteFailed), OutboundAction::Stop));
    assert!(matches!(on_outbound(Outbound::Written), OutboundAction::Wait));
}

#[test]
fn inbound_text_is_published_unchecked() {
    for text in ["{\"username\":\"a\",\"message\":\"hi\"}", "   ", "", "not json"] {
        match on_inbound(Inbound::Text(text.to_string())) {
            InboundAction::Publish(published) => assert_eq!(published, text),
            other => panic!("not published: {:?}", other),
        }
    }
}

#[test]
fn inbound_worker_passes_over_other_frames_and_stops_at_the_end() {
    assert!(matches!(on_inbound(Inbound::Other), InboundAction::ReadOn));
    assert!(matches!(on_inbound(Inbound::Closed), InboundAction::Stop));
    assert!(matches!(on_inbound(Inbound::Failed), InboundAction::Stop));
}

#[test]
fn not_blank_accepts_text_with_a_visible_character() {
    assert!(not_blank("a").is_ok());
    assert!(not_blank("  a  ").is_ok());
    assert!(not_blank("\u{3000}x").is_ok());
    assert!(not_blank("\u{200b}").is_ok());
    assert!(not_blank("\u{180e}").is_ok());
    assert!(not_blank("_").is_ok());
}

#[test]
fn not_blank_rejects_white_space() {
    for text in ["", " ", "   ", "\t\n\r", "\u{b}\u{c}", "\u{85}\u{a0}", "\u{1680}\u{2000}\u{200a}",
        "\u{2028}\u{2029}\u{202f}\u{205f}\u{3000}"]
    {
        let error = not_blank(text).unwrap_err();
        assert_eq!(error.code, "not_blank");
        assert_eq!(error.message.as_deref(), Some("value cannot be blank"));
        assert!(error.params.is_empty());
    }
}

#[test]
fn white_space_is_what_the_standard_library_trims() {
    for code in 0u32..=0x10ffff {
        if let Some(c) = char::from_u32(code) {
            assert_eq!(is_space(c), c.is_whitespace(), "U+{:04X}", code);
        }
    }
}

#[test]
fn blank_agrees_with_trimming() {
    for code in 0u32..0x3100 {
        if let Some(c) = char::from_u32(code) {
            let text = c.to_string();
            assert_eq!(blank(&text), text.trim().is_empty(), "U+{:04X}", code);
        }
    }
    for text in ["", " \t ", " a ", "\u{a0}\u{3000}", " \u{1f600} ", "\u{2003}x\u{2003}"] {
        assert_eq!(blank(text), text.trim().is_empty(), "{:?}", text);
    }
    assert!(blank(""));
    assert!(!blank(" \u{1f600} "));
}

#[test]
fn validate_reports_each_blank_field() {
    let dto = MessageDto { username: "a".to_string(), message: "hi".to_string() };
    assert!(dto.validate().is_ok());

    let dto = MessageDto { username: "a".to_string(), message: "   ".to_string() };
    let errors = dto.validate().unwrap_err();
    let fields = errors.field_errors();
    assert_eq!(fields.len(), 1);
    let list = &fields["message"];
    assert_eq!(list.len(), 1);
    assert_eq!(list[0].code, "not_blank");
    assert_eq!(list[0].message.as_deref(), Some("value cannot be blank"));
    assert_eq!(list[0].params["value"], serde_json::Value::String("   ".to_string()));

    let dto = MessageDto { username: "".to_string(), message: "\n".to_string() };
    let errors = dto.validate().unwrap_err();
    let fields = errors.field_errors();
    assert_eq!(fields.len(), 2);
    assert_eq!(fields["username"].len(), 1);
    assert_eq!(fields["message"].len(), 1);
    assert_eq!(fields["username"][0].params["value"], serde_json::Value::String("".to_string()));

    let dto = MessageDto { username: " ".to_string(), message: "hi".to_string() };
    let errors = dto.validate().unwrap_err();
    let fields = errors.field_errors();
    assert_eq!(fields.len(), 1);
    assert!(fields.contains_key("username"));
}

#[test]
fn same_text_compares_characters() {
    assert!(same_text("", ""));
    assert!(same_text("token", "token"));
    assert!(!same_text("token", "tokem"));
    assert!(!same_text("token", "toke"));
    assert!(!same_text("", "a"));
    assert!(same_text("\u{e9}t\u{e9}", "\u{e9}t\u{e9}"));
    assert!(!same_text("\u{e9}", "e\u{301}"));
}
