use pipo::bridge::{handle_bus_message, BridgeError};
use pipo::client::Mumble;
use pipo::codec::Frame;
use pipo::config::ConfigTransport;
use pipo::message::Message;
use pipo::messages::{decode_channel_state, decode_user_state, ChannelState};
use pipo::proto::{emit_bytes_field, emit_str_field, emit_varint_field};
use pipo::slack_objects as slack;

#[test]
fn config_transports_name_their_platform() {
    let mumble = ConfigTransport::Mumble {
        server: String::from("chat.example.net:64738"),
        password: None,
        nickname: String::from("PIPO"),
        client_cert: None,
        server_cert: None,
        comment: None,
        channel_mapping: vec![(String::from("#general"), String::from("main"))],
        voice_channel_mapping: vec![],
    };
    assert_eq!(mumble.name(), "Mumble");
    let irc = ConfigTransport::IRC {
        nickname: String::from("pipo"),
        server: String::from("irc.example.net"),
        use_tls: true,
        img_root: String::from("https://img.example.net"),
        channel_mapping: vec![],
    };
    assert_eq!(irc.name(), "IRC");
    let rachni = ConfigTransport::Rachni {
        server: String::from("rachni.example.net"),
        api_key: String::from("key"),
        interval: 30,
        buses: vec![String::from("main")],
    };
    assert_eq!(rachni.name(), "Rachni");
}

#[test]
fn unknown_fields_are_skipped_in_known_messages() {
    let mut payload = Vec::new();
    emit_varint_field(&mut payload, 1, 7);
    emit_varint_field(&mut payload, 99, 1234);
    emit_str_field(&mut payload, 3, "#general");
    let decoded = decode_channel_state(&payload).unwrap();
    assert_eq!(decoded.channel_id, Some(7));
    assert_eq!(decoded.name.as_deref(), Some("#general"));
    assert_eq!(decoded.description, None);
}

#[test]
fn an_over_wide_id_is_a_decode_error() {
    let mut payload = Vec::new();
    emit_varint_field(&mut payload, 1, u64::from(u32::MAX) + 1);
    assert!(decode_channel_state(&payload).is_err());
}

#[test]
fn a_name_that_is_not_utf8_is_a_decode_error() {
    let mut payload = Vec::new();
    emit_varint_field(&mut payload, 1, 42);
    emit_bytes_field(&mut payload, 3, &[0xff, 0xfe, 0xfd]);
    assert!(decode_user_state(&payload).is_err());
}

#[test]
fn user_state_booleans_decode_from_varints() {
    let mut payload = Vec::new();
    emit_varint_field(&mut payload, 1, 42);
    emit_varint_field(&mut payload, 6, 1);
    emit_varint_field(&mut payload, 9, 0);
    let decoded = decode_user_state(&payload).unwrap();
    assert_eq!(decoded.mute, Some(true));
    assert_eq!(decoded.self_mute, Some(false));
    assert_eq!(decoded.deaf, None);
}

#[test]
fn an_oversized_rendering_is_refused_per_message() {
    let mut client = Mumble::new(
        0,
        String::from("PIPO"),
        None,
        vec![(String::from("#general"), 0)],
    );
    let mut user_payload = Vec::new();
    emit_varint_field(&mut user_payload, 1, 5);
    emit_str_field(&mut user_payload, 3, "PIPO");
    client.handle_frame(Frame { type_tag: 9, payload: user_payload }).unwrap();
    let mut chan_payload = Vec::new();
    emit_varint_field(&mut chan_payload, 1, 9);
    emit_str_field(&mut chan_payload, 3, "#general");
    client.handle_frame(Frame { type_tag: 7, payload: chan_payload }).unwrap();
    let huge = Message::Text {
        sender: 1,
        pipo_id: 1,
        transport: String::from("IRC"),
        username: String::from("bob"),
        avatar_url: None,
        thread: None,
        message: Some("x".repeat(9 * 1024 * 1024)),
        attachments: None,
        is_edit: false,
        irc_flag: false,
    };
    assert_eq!(
        handle_bus_message(client.cache(), 0, &String::from("#general"), huge),
        Err(BridgeError::FrameTooLarge)
    );
}

#[test]
fn channel_states_report_partial_updates() {
    let mut c = ChannelState::new();
    assert_eq!(c, ChannelState { channel_id: None, parent: None, name: None, description: None });
    c.parent = Some(1);
    assert_eq!(c.parent, Some(1));
}

#[test]
fn slack_objects_hold_their_fields() {
    let style = slack::Style { bold: Some(true), code: None, italic: None, strike: None };
    assert_eq!(style.bold, Some(true));
    let text = slack::Text::PlainText { text: String::from("hello"), emoji: None };
    let option = slack::CompositionOption {
        text: text.clone(),
        value: String::from("v"),
        description: None,
        url: None,
    };
    let group = slack::CompositionOptionGroup {
        label: text.clone(),
        options: vec![option.clone()],
    };
    assert_eq!(group.options.len(), 1);
    assert_eq!(group.options[0], option);
    let filter = slack::ConversationListFilter {
        included: Some(vec![String::from("im")]),
        exclude_external_shared_channels: Some(true),
        exclude_bot_users: None,
    };
    assert_eq!(filter.included.as_ref().map(Vec::len), Some(1));
    let stamp = slack::Timestamp(String::from("1683636478.256400"));
    assert_eq!(stamp.0, "1683636478.256400");
    let attachment = slack::Attachment { text: Some(String::from("body")), ..Default::default() };
    assert_eq!(attachment.text.as_deref(), Some("body"));
    assert_eq!(attachment.fallback, None);
}
