//! The relay's internal message representation: what every transport
//! publishes to and receives from the buses.

use vstd::prelude::*;

verus! {

/// One attachment carried alongside a message; every field is passed through
/// untouched by this transport.
#[derive(Debug, Clone)]
pub struct Attachment {
    pub id: u64,
    pub pipo_id: Option<i64>,
    pub service_name: Option<String>,
    pub service_url: Option<String>,
    pub author_name: Option<String>,
    pub author_subname: Option<String>,
    pub author_link: Option<String>,
    pub author_icon: Option<String>,
    pub filename: Option<String>,
    pub from_url: Option<String>,
    pub original_url: Option<String>,
    pub footer: Option<String>,
    pub footer_icon: Option<String>,
    pub content_type: Option<String>,
    pub size: Option<u64>,
    pub text: Option<String>,
    pub image_url: Option<String>,
    pub image_bytes: Option<u64>,
    pub image_height: Option<u64>,
    pub image_width: Option<u64>,
    pub fallback: Option<String>,
}

/// One bus message. The `sender` field names the transport that published it;
/// every subscriber receives its own publications back and must compare
/// `sender` against its own id to avoid loops.
#[derive(Debug, Clone)]
pub enum Message {
    Action {
        sender: usize,
        pipo_id: i64,
        transport: String,
        username: String,
        avatar_url: Option<String>,
        thread: Option<(Option<String>, Option<u64>)>,
        message: Option<String>,
        attachments: Option<Vec<Attachment>>,
        is_edit: bool,
        irc_flag: bool,
    },
    Bot {
        sender: usize,
        pipo_id: i64,
        transport: String,
        message: Option<String>,
        attachments: Option<Vec<Attachment>>,
        is_edit: bool,
    },
    Delete {
        sender: usize,
        pipo_id: i64,
        transport: String,
    },
    Names {
        sender: usize,
        transport: String,
        username: String,
        message: Option<String>,
    },
    Pin {
        sender: usize,
        pipo_id: i64,
        remove: bool,
    },
    Reaction {
        sender: usize,
        pipo_id: i64,
        transport: String,
        emoji: String,
        remove: bool,
        username: Option<String>,
        avatar_url: Option<String>,
        thread: Option<(Option<String>, Option<u64>)>,
    },
    Text {
        sender: usize,
        pipo_id: i64,
        transport: String,
        username: String,
        avatar_url: Option<String>,
        thread: Option<(Option<String>, Option<u64>)>,
        message: Option<String>,
        attachments: Option<Vec<Attachment>>,
        is_edit: bool,
        irc_flag: bool,
    },
}

/// The transport that published a message.
pub open spec fn message_sender(m: Message) -> usize {
    match m {
        Message::Action { sender, .. } => sender,
        Message::Bot { sender, .. } => sender,
        Message::Delete { sender, .. } => sender,
        Message::Names { sender, .. } => sender,
        Message::Pin { sender, .. } => sender,
        Message::Reaction { sender, .. } => sender,
        Message::Text { sender, .. } => sender,
    }
}

} // verus!
