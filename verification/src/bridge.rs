//! The message bridge: bus messages become outbound TextMessage frames and
//! inbound TextMessage frames become bus messages. Text travelling to the
//! wire is HTML-escaped; text arriving from the wire is HTML-decoded.

use vstd::prelude::*;

verus! {

use crate::MAX_PAYLOAD;
use crate::codec::{frame_bytes, encode_frame};
use crate::message::{Message, message_sender};
use crate::messages::{TextMessage, TextMessageV, spec_encode_text_message, encode_text_message};
use crate::state::{StateCache, spec_channel_id_for_name, spec_bus_for_channel_id};
use crate::text::{escape_char, html_encoded, html_decoded, encode_text, decode_html_entities};

/// The wire type tag of a TextMessage frame.
pub const TEXT_MESSAGE_TAG: u16 = 11;

/// An ASCII lowercase letter uppercased; any other character stays itself.
pub open spec fn ascii_upper(c: char) -> char {
    if 'a' <= c && c <= 'z' {
        ((c as u8) - 32) as char
    } else {
        c
    }
}

fn ascii_upper_char(c: char) -> (r: char)
    ensures
        r == ascii_upper(c),
{
    if 'a' <= c && c <= 'z' {
        ((c as u8) - 32) as char
    } else {
        c
    }
}

/// The tag a formatted message starts with: the transport's first letter,
/// uppercased and HTML-escaped; empty when the transport name is empty.
pub open spec fn first_letter_tag(t: Seq<char>) -> Seq<char> {
    if t.len() == 0 {
        Seq::empty()
    } else {
        escape_char(ascii_upper(t[0]))
    }
}

fn first_letter_of(transport: &str) -> (r: String)
    ensures
        r@ == first_letter_tag(transport@),
{
    broadcast use vstd::string::next_postcondition;
    broadcast use vstd::string::axiom_spec_iter;

    let mut it = transport.chars();
    match it.next() {
        Some(c) => {
            let up = ascii_upper_char(c);
            let mut s = String::new();
            s.push(up);
            proof {
                assert(s@ =~= seq![ascii_upper(transport@[0])]);
            }
            let escaped = encode_text(s.as_str());
            proof {
                assert(s@.skip(1) =~= Seq::<char>::empty());
                assert(html_encoded(s@.skip(1)) =~= Seq::<char>::empty());
                assert(html_encoded(s@) == escape_char(s@[0]) + html_encoded(s@.skip(1)));
                assert(escape_char(s@[0]) + Seq::<char>::empty() =~= escape_char(s@[0]));
            }
            escaped
        },
        None => {
            let r = String::new();
            proof {
                assert(r@ =~= first_letter_tag(transport@));
            }
            r
        },
    }
}

/// The marker prepended to an edited message.
pub open spec fn edit_prefix(is_edit: bool) -> Seq<char> {
    if is_edit {
        "EDIT: "@
    } else {
        Seq::empty()
    }
}

/// How a bus text message is rendered for the wire: the originating
/// transport's first letter, the author in bold, then the body, with author
/// and body HTML-escaped.
pub open spec fn spec_format_text(
    transport: Seq<char>,
    username: Seq<char>,
    body: Seq<char>,
    is_edit: bool,
) -> Seq<char> {
    first_letter_tag(transport) + "!<b>"@ + html_encoded(username) + "</b>: "@ + edit_prefix(
        is_edit,
    ) + html_encoded(body)
}

/// How a bus action message is rendered for the wire: the whole line in
/// italics, the author in bold, a star before the origin tag.
pub open spec fn spec_format_action(
    transport: Seq<char>,
    username: Seq<char>,
    body: Seq<char>,
    is_edit: bool,
) -> Seq<char> {
    "<i>"@ + edit_prefix(is_edit) + "*"@ + first_letter_tag(transport) + "!<b>"@ + html_encoded(
        username,
    ) + "</b> "@ + html_encoded(body) + "</i>"@
}

pub fn format_text(transport: &str, username: &str, body: &str, is_edit: bool) -> (r: String)
    ensures
        r@ == spec_format_text(transport@, username@, body@, is_edit),
{
    let mut r = first_letter_of(transport);
    r.append("!<b>");
    let user = encode_text(username);
    r.append(user.as_str());
    r.append("</b>: ");
    if is_edit {
        r.append("EDIT: ");
    }
    let text = encode_text(body);
    r.append(text.as_str());
    proof {
        assert(r@ =~= spec_format_text(transport@, username@, body@, is_edit));
    }
    r
}

pub fn format_action(transport: &str, username: &str, body: &str, is_edit: bool) -> (r: String)
    ensures
        r@ == spec_format_action(transport@, username@, body@, is_edit),
{
    let mut r = String::new();
    r.append("<i>");
    if is_edit {
        r.append("EDIT: ");
    }
    r.append("*");
    let tag = first_letter_of(transport);
    r.append(tag.as_str());
    r.append("!<b>");
    let user = encode_text(username);
    r.append(user.as_str());
    r.append("</b> ");
    let text = encode_text(body);
    r.append(text.as_str());
    r.append("</i>");
    proof {
        assert(r@ =~= spec_format_action(transport@, username@, body@, is_edit));
    }
    r
}

/// Why one outbound bus message could not become a wire frame. None of these
/// tears the connection down.
#[derive(Debug, Clone, Copy, PartialEq, Eq)]
pub enum BridgeError {
    /// The bus message carries no body at all.
    NoMessageBody,
    /// The client's own session id is not resolved yet, so it cannot claim an
    /// actor on the wire.
    NoActorId,
    /// The bus channel has no resolved wire channel behind it.
    NoChannelBinding,
    /// The rendered message does not fit under the frame size cap.
    FrameTooLarge,
}

/// Translate one bus message into at most one outbound frame.
///
/// A message this transport itself published never produces a frame. A text
/// or action from another transport is rendered and framed for the channel
/// bound to `channel`; a missing body, an unresolved actor id or an unbound
/// channel is a per-message error. Every other message kind has no wire
/// equivalent and is accepted and ignored.
pub fn handle_bus_message(
    cache: &StateCache,
    transport_id: usize,
    channel: &String,
    message: Message,
) -> (r: Result<Option<Vec<u8>>, BridgeError>)
    ensures
        message_sender(message) == transport_id ==> r == Ok::<Option<Vec<u8>>, BridgeError>(None),
        message_sender(message) != transport_id ==> match message {
            Message::Text { transport, username, message: body, is_edit, .. } => match body {
                None => r == Err::<Option<Vec<u8>>, BridgeError>(BridgeError::NoMessageBody),
                Some(b) => spec_outbound_result(
                    r,
                    cache@,
                    channel@,
                    spec_format_text(transport@, username@, b@, is_edit),
                ),
            },
            Message::Action { transport, username, message: body, is_edit, .. } => match body {
                None => r == Err::<Option<Vec<u8>>, BridgeError>(BridgeError::NoMessageBody),
                Some(b) => spec_outbound_result(
                    r,
                    cache@,
                    channel@,
                    spec_format_action(transport@, username@, b@, is_edit),
                ),
            },
            _ => r == Ok::<Option<Vec<u8>>, BridgeError>(None),
        },
{
    match message {
        Message::Text { sender, transport, username, message: body, is_edit, .. } => {
            if sender == transport_id {
                return Ok(None);
            }
            let body = match body {
                Some(b) => b,
                None => {
                    return Err(BridgeError::NoMessageBody);
                },
            };
            let rendered = format_text(
                transport.as_str(),
                username.as_str(),
                body.as_str(),
                is_edit,
            );
            match send_rendered(cache, channel, rendered) {
                Ok(frame) => Ok(Some(frame)),
                Err(e) => Err(e),
            }
        },
        Message::Action { sender, transport, username, message: body, is_edit, .. } => {
            if sender == transport_id {
                return Ok(None);
            }
            let body = match body {
                Some(b) => b,
                None => {
                    return Err(BridgeError::NoMessageBody);
                },
            };
            let rendered = format_action(
                transport.as_str(),
                username.as_str(),
                body.as_str(),
                is_edit,
            );
            match send_rendered(cache, channel, rendered) {
                Ok(frame) => Ok(Some(frame)),
                Err(e) => Err(e),
            }
        },
        _ => Ok(None),
    }
}

/// What framing a rendered body against the cache must yield: the actor id
/// must be resolved and the channel bound, the encoding must fit the frame
/// cap, and then the frame is fixed by them.
pub open spec fn spec_outbound_result(
    r: Result<Option<Vec<u8>>, BridgeError>,
    cache: crate::state::StateCacheV,
    channel: Seq<char>,
    rendered: Seq<char>,
) -> bool {
    match cache.actor_id {
        None => r == Err::<Option<Vec<u8>>, BridgeError>(BridgeError::NoActorId),
        Some(actor) => match spec_channel_id_for_name(cache.mappings, channel) {
            None => r == Err::<Option<Vec<u8>>, BridgeError>(BridgeError::NoChannelBinding),
            Some(cid) => {
                let payload = spec_encode_text_message(
                    TextMessageV {
                        actor: Some(actor),
                        channel_id: seq![cid],
                        message: rendered,
                    },
                );
                if payload.len() + 6 <= MAX_PAYLOAD {
                    r matches Ok(Some(v)) && v@ == frame_bytes(TEXT_MESSAGE_TAG, payload)
                } else {
                    r == Err::<Option<Vec<u8>>, BridgeError>(BridgeError::FrameTooLarge)
                }
            },
        },
    }
}

fn send_rendered(cache: &StateCache, channel: &String, rendered: String) -> (r: Result<
    Vec<u8>,
    BridgeError,
>)
    ensures
        spec_outbound_result(
            match r {
                Ok(v) => Ok(Some(v)),
                Err(e) => Err(e),
            },
            cache@,
            channel@,
            rendered@,
        ),
{
    let actor = match cache.actor_id() {
        Some(a) => a,
        None => {
            return Err(BridgeError::NoActorId);
        },
    };
    let cid = match cache.channel_id_for_bus_name(channel) {
        Some(c) => c,
        None => {
            return Err(BridgeError::NoChannelBinding);
        },
    };
    let mut channel_id: Vec<u32> = Vec::new();
    channel_id.push(cid);
    let wire = TextMessage { actor: Some(actor), channel_id, message: rendered };
    proof {
        assert(wire@.channel_id =~= seq![cid]);
    }
    let payload = encode_text_message(&wire);
    if payload.len() > MAX_PAYLOAD - 6 {
        return Err(BridgeError::FrameTooLarge);
    }
    Ok(encode_frame(TEXT_MESSAGE_TAG, payload.as_slice()))
}

/// The bus publication one inbound wire text produces for one resolved
/// channel: this transport as the sender, the resolved display name, and the
/// HTML-decoded body.
pub fn make_inbound_text(
    transport_id: usize,
    pipo_id: i64,
    username: String,
    raw_message: &String,
) -> (r: Message)
    ensures
        r matches Message::Text {
            sender,
            pipo_id: pid,
            transport,
            username: user,
            avatar_url,
            thread,
            message,
            attachments,
            is_edit,
            irc_flag,
        } && sender == transport_id && pid == pipo_id && transport@ == "Mumble"@ && user
            == username && avatar_url is None && thread is None && (message matches Some(m) && m@
            == html_decoded(raw_message@)) && attachments is None && is_edit == false && irc_flag
            == false,
{
    let decoded = decode_html_entities(raw_message.as_str());
    Message::Text {
        sender: transport_id,
        pipo_id,
        transport: "Mumble".to_owned(),
        username,
        avatar_url: None,
        thread: None,
        message: Some(decoded),
        attachments: None,
        is_edit: false,
        irc_flag: false,
    }
}

/// The channels of an inbound TextMessage that resolve to a bus: each channel
/// id paired with the bus bound to it, in the order the frame lists them.
pub open spec fn spec_inbound_targets(
    mappings: Seq<crate::state::BusMappingV>,
    ids: Seq<u32>,
) -> Seq<(u32, usize)>
    decreases ids.len(),
{
    if ids.len() == 0 {
        Seq::empty()
    } else {
        let rest = spec_inbound_targets(mappings, ids.skip(1));
        match spec_bus_for_channel_id(mappings, ids[0]) {
            Some(bus) => seq![(ids[0], bus)] + rest,
            None => rest,
        }
    }
}

/// Resolve the channels of one inbound TextMessage to their buses; channels
/// without a binding are skipped, not errors.
pub fn inbound_targets(cache: &StateCache, msg: &TextMessage) -> (r: Vec<(u32, usize)>)
    ensures
        r@ == spec_inbound_targets(cache@.mappings, msg@.channel_id),
{
    let ghost ids = msg@.channel_id;
    let mut out: Vec<(u32, usize)> = Vec::new();
    let mut i: usize = 0;
    proof {
        assert(ids.skip(0) =~= ids);
    }
    while i < msg.channel_id.len()
        invariant
            i <= ids.len(),
            ids == msg@.channel_id,
            out@ + spec_inbound_targets(cache@.mappings, ids.skip(i as int))
                == spec_inbound_targets(cache@.mappings, ids),
        decreases ids.len() - i,
    {
        proof {
            assert(ids.skip(i as int)[0] == ids[i as int]);
            assert(ids.skip(i as int).skip(1) =~= ids.skip(i + 1));
        }
        let id = msg.channel_id[i];
        match cache.bus_for_channel_id(id) {
            Some(bus) => {
                out.push((id, bus));
                proof {
                    assert(out@ + spec_inbound_targets(cache@.mappings, ids.skip(i + 1))
                        =~= spec_inbound_targets(cache@.mappings, ids));
                }
            },
            None => (),
        }
        i = i + 1;
    }
    proof {
        assert(ids.skip(i as int) =~= Seq::<u32>::empty());
        assert(out@ + Seq::<(u32, usize)>::empty() =~= out@);
    }
    out
}

} // verus!
