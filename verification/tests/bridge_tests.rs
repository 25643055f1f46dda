use pipo::bridge::{format_action, format_text, handle_bus_message, make_inbound_text, BridgeError};
use pipo::cert::MumbleCertVerifier;
use pipo::client::{advance_pipo_id, Action, Mumble};
use pipo::codec::{encode_frame, Frame};
use pipo::message::Message;
use pipo::messages::{decode_message, decode_text_message, DecodeErrorKind, WireMessage};
use pipo::proto::{emit_str_field, emit_varint_field};

fn text_from(sender: usize, transport: &str, username: &str, body: &str, is_edit: bool) -> Message {
    Message::Text {
        sender,
        pipo_id: 17,
        transport: String::from(transport),
        username: String::from(username),
        avatar_url: None,
        thread: None,
        message: Some(String::from(body)),
        attachments: None,
        is_edit,
        irc_flag: false,
    }
}

fn client() -> Mumble {
    Mumble::new(
        0,
        String::from("PIPO"),
        None,
        vec![(String::from("#general"), 0), (String::from("#dev"), 1)],
    )
}

fn channel_state_frame(id: u32, name: &str) -> Frame {
    let mut payload = Vec::new();
    emit_varint_field(&mut payload, 1, id as u64);
    emit_str_field(&mut payload, 3, name);
    Frame { type_tag: 7, payload }
}

fn user_state_frame(session: u32, name: &str) -> Frame {
    let mut payload = Vec::new();
    emit_varint_field(&mut payload, 1, session as u64);
    emit_str_field(&mut payload, 3, name);
    Frame { type_tag: 9, payload }
}

#[test]
fn formatting_matches_the_wire_style() {
    assert_eq!(format_text("IRC", "bob", "yo", false), "I!<b>bob</b>: yo");
    assert_eq!(format_text("IRC", "bob", "yo", true), "I!<b>bob</b>: EDIT: yo");
    assert_eq!(
        format_text("discord", "a<b", "x & y", false),
        "D!<b>a&lt;b</b>: x &amp; y"
    );
    assert_eq!(format_action("IRC", "bob", "waves", false), "<i>*I!<b>bob</b> waves</i>");
    assert_eq!(
        format_action("IRC", "bob", "waves", true),
        "<i>EDIT: *I!<b>bob</b> waves</i>"
    );
}

#[test]
fn own_publications_never_produce_a_frame() {
    let c = client();
    let echoed = text_from(0, "Mumble", "PIPO", "hello", false);
    assert_eq!(handle_bus_message(c.cache(), 0, &String::from("#general"), echoed), Ok(None));
}

#[test]
fn outbound_without_actor_or_binding_fails_per_message() {
    let mut c = client();
    let msg = text_from(1, "IRC", "bob", "yo", false);
    assert_eq!(
        handle_bus_message(c.cache(), 0, &String::from("#general"), msg),
        Err(BridgeError::NoActorId)
    );
    c.handle_frame(user_state_frame(5, "PIPO")).unwrap();
    let msg = text_from(1, "IRC", "bob", "yo", false);
    assert_eq!(
        handle_bus_message(c.cache(), 0, &String::from("#general"), msg),
        Err(BridgeError::NoChannelBinding)
    );
    let empty = Message::Text {
        sender: 1,
        pipo_id: 1,
        transport: String::from("IRC"),
        username: String::from("bob"),
        avatar_url: None,
        thread: None,
        message: None,
        attachments: None,
        is_edit: false,
        irc_flag: false,
    };
    assert_eq!(
        handle_bus_message(c.cache(), 0, &String::from("#general"), empty),
        Err(BridgeError::NoMessageBody)
    );
}

#[test]
fn outbound_scenario_produces_the_expected_frame() {
    let mut c = client();
    c.handle_frame(user_state_frame(5, "PIPO")).unwrap();
    c.handle_frame(channel_state_frame(9, "#general")).unwrap();
    let msg = text_from(1, "IRC", "bob", "yo", false);
    let frame_bytes = handle_bus_message(c.cache(), 0, &String::from("#general"), msg)
        .unwrap()
        .expect("a frame");
    // Strip the six-byte header (tag 11) and decode the payload back.
    assert_eq!(&frame_bytes[..2], &[0x00, 0x0b]);
    let wire = decode_text_message(&frame_bytes[6..]).unwrap();
    assert_eq!(wire.actor, Some(5));
    assert_eq!(wire.channel_id, vec![9]);
    assert_eq!(wire.message, "I!<b>bob</b>: yo");
}

#[test]
fn other_bus_message_kinds_are_accepted_and_ignored() {
    let mut c = client();
    c.handle_frame(user_state_frame(5, "PIPO")).unwrap();
    c.handle_frame(channel_state_frame(9, "#general")).unwrap();
    let pin = Message::Pin { sender: 1, pipo_id: 3, remove: false };
    assert_eq!(handle_bus_message(c.cache(), 0, &String::from("#general"), pin), Ok(None));
}

#[test]
fn inbound_scenario_publishes_the_decoded_text() {
    let mut c = client();
    c.handle_frame(channel_state_frame(7, "#general")).unwrap();
    c.handle_frame(user_state_frame(42, "alice")).unwrap();
    let mut payload = Vec::new();
    emit_varint_field(&mut payload, 1, 42);
    emit_varint_field(&mut payload, 3, 7);
    emit_str_field(&mut payload, 5, "hi &amp; bye");
    let actions = c.handle_frame(Frame { type_tag: 11, payload }).unwrap();
    assert_eq!(actions.len(), 1);
    let pending = match &actions[0] {
        Action::Deliver(p) => p,
        other => panic!("expected a delivery, got {:?}", other),
    };
    assert_eq!(pending.bus, 0);
    assert_eq!(pending.username, "alice");
    assert_eq!(pending.raw_message, "hi &amp; bye");
    let published = make_inbound_text(0, 23, pending.username.clone(), &pending.raw_message);
    match published {
        Message::Text { sender, pipo_id, transport, username, message, is_edit, .. } => {
            assert_eq!(sender, 0);
            assert_eq!(pipo_id, 23);
            assert_eq!(transport, "Mumble");
            assert_eq!(username, "alice");
            assert_eq!(message.as_deref(), Some("hi & bye"));
            assert!(!is_edit);
        }
        other => panic!("expected a text publication, got {:?}", other),
    }
}

#[test]
fn inbound_text_for_an_unmapped_channel_is_skipped() {
    let mut c = client();
    c.handle_frame(user_state_frame(42, "alice")).unwrap();
    let mut payload = Vec::new();
    emit_varint_field(&mut payload, 1, 42);
    emit_varint_field(&mut payload, 3, 7);
    emit_str_field(&mut payload, 5, "hello");
    let actions = c.handle_frame(Frame { type_tag: 11, payload }).unwrap();
    assert!(actions.is_empty());
}

#[test]
fn inbound_text_with_an_unknown_actor_is_skipped_not_fatal() {
    let mut c = client();
    c.handle_frame(channel_state_frame(7, "#general")).unwrap();
    let mut payload = Vec::new();
    emit_varint_field(&mut payload, 1, 42);
    emit_varint_field(&mut payload, 3, 7);
    emit_str_field(&mut payload, 5, "hello");
    let actions = c.handle_frame(Frame { type_tag: 11, payload }).unwrap();
    assert!(actions.is_empty());
}

#[test]
fn a_reject_frame_is_fatal() {
    let mut c = client();
    let mut payload = Vec::new();
    emit_str_field(&mut payload, 2, "server full");
    assert!(c.handle_frame(Frame { type_tag: 4, payload }).is_err());
}

#[test]
fn unknown_tags_are_fatal_decode_errors() {
    match decode_message(26, &[]) {
        Err(e) => {
            assert_eq!(e.tag, 26);
            assert_eq!(e.kind, DecodeErrorKind::UnknownTag);
        }
        Ok(_) => panic!("tag 26 must not decode"),
    }
    match decode_message(7, &[0x08]) {
        Err(e) => {
            assert_eq!(e.tag, 7);
            assert_eq!(e.kind, DecodeErrorKind::Malformed);
        }
        Ok(_) => panic!("a truncated payload must not decode"),
    }
    assert!(matches!(decode_message(1, &[0xff]), Ok(WireMessage::UdpTunnel)));
}

#[test]
fn reconnect_resets_state_and_backoff_grows() {
    let mut c = client();
    c.handle_frame(channel_state_frame(7, "#general")).unwrap();
    c.handle_frame(user_state_frame(5, "PIPO")).unwrap();
    assert_eq!(c.cache().actor_id(), Some(5));
    let first = c.before_connect_attempt();
    let second = c.before_connect_attempt();
    let third = c.before_connect_attempt();
    assert_eq!(first, 0);
    assert_eq!(second, 30);
    assert_eq!(third, 60);
    assert!(first <= second && second <= third);
    c.on_connected();
    assert_eq!(c.cache().actor_id(), None);
    assert_eq!(c.cache().bus_for_channel_id(7), None);
    assert_eq!(c.cache().channel_id_list(), Vec::<u32>::new());
}

#[test]
fn the_keepalive_is_an_empty_ping_frame() {
    let c = client();
    assert_eq!(c.ping_frame(), vec![0x00, 0x03, 0x00, 0x00, 0x00, 0x00]);
}

#[test]
fn the_handshake_opens_with_version_then_authenticate() {
    let c = client();
    let bytes = c.handshake_frames().unwrap();
    // First frame: tag 0 (Version).
    assert_eq!(&bytes[..2], &[0x00, 0x00]);
    let version_len = u32::from_be_bytes([bytes[2], bytes[3], bytes[4], bytes[5]]) as usize;
    // Second frame immediately follows: tag 2 (Authenticate).
    let auth_start = 6 + version_len;
    assert_eq!(&bytes[auth_start..auth_start + 2], &[0x00, 0x02]);
    // The authenticate payload carries the nickname in its first field.
    let mut expected = Vec::new();
    emit_str_field(&mut expected, 1, "PIPO");
    assert_eq!(&bytes[auth_start + 6..], expected.as_slice());
}

#[test]
fn server_sync_triggers_the_self_announcement() {
    let mut c = client();
    c.handle_frame(user_state_frame(5, "PIPO")).unwrap();
    c.handle_frame(channel_state_frame(7, "#general")).unwrap();
    let actions = c.handle_frame(Frame { type_tag: 5, payload: Vec::new() }).unwrap();
    assert_eq!(actions.len(), 1);
    match &actions[0] {
        Action::Send(bytes) => {
            // A UserState frame announcing actor 5.
            assert_eq!(&bytes[..2], &[0x00, 0x09]);
            let mut expected = Vec::new();
            emit_varint_field(&mut expected, 2, 5);
            emit_varint_field(&mut expected, 9, 1);
            emit_varint_field(&mut expected, 10, 1);
            emit_varint_field(&mut expected, 21, 7);
            assert_eq!(&bytes[6..], expected.as_slice());
        }
        other => panic!("expected a send, got {:?}", other),
    }
}

#[test]
fn server_sync_without_an_actor_sends_nothing() {
    let mut c = client();
    let actions = c.handle_frame(Frame { type_tag: 5, payload: Vec::new() }).unwrap();
    assert!(actions.is_empty());
}

#[test]
fn pinned_certificates_match_byte_for_byte() {
    let trusted = vec![0x30, 0x82, 0x01, 0x0a, 0x99];
    let verifier = MumbleCertVerifier::new(trusted.clone());
    assert!(verifier.verify_server_cert(&trusted).is_ok());
    let mut tweaked = trusted.clone();
    tweaked[4] = 0x98;
    let failure = verifier.verify_server_cert(&tweaked).unwrap_err();
    assert!(failure.description().contains("does not match"));
    assert!(verifier.verify_server_cert(&trusted[..4]).is_err());
    assert!(verifier.verify_server_cert(&[]).is_err());
}

#[test]
fn correlation_ids_count_up_and_wrap() {
    assert_eq!(advance_pipo_id(0), 1);
    assert_eq!(advance_pipo_id(39999), 40000);
    assert_eq!(advance_pipo_id(40000), 0);
    assert_eq!(advance_pipo_id(50000), 0);
}

#[test]
fn partial_channel_updates_reach_the_bridge_through_frames() {
    let mut c = client();
    // Name arrives first, the description later without the name.
    c.handle_frame(channel_state_frame(7, "#general")).unwrap();
    let mut payload = Vec::new();
    emit_varint_field(&mut payload, 1, 7);
    emit_str_field(&mut payload, 5, "topic of the day");
    c.handle_frame(Frame { type_tag: 7, payload }).unwrap();
    let state = c.cache().channel_state(7).expect("still cached");
    assert_eq!(state.name.as_deref(), Some("#general"));
    assert_eq!(state.description.as_deref(), Some("topic of the day"));
    assert_eq!(c.cache().bus_for_channel_id(7), Some(0));
}

#[test]
fn frames_arrive_through_the_wire_buffer() {
    let mut c = client();
    let mut payload = Vec::new();
    emit_varint_field(&mut payload, 1, 42);
    emit_str_field(&mut payload, 3, "alice");
    let encoded = encode_frame(9, &payload);
    let (a, b) = encoded.split_at(3);
    c.wire_bytes(a);
    assert!(c.next_frame().unwrap().is_none());
    c.wire_bytes(b);
    let frame = c.next_frame().unwrap().expect("a whole frame");
    c.handle_frame(frame).unwrap();
    assert_eq!(c.cache().username_for_session(42).as_deref(), Some("alice"));
}
