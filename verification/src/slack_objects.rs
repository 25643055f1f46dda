//! The data objects of the Slack Web and Events APIs: responses, events,
//! message payloads and the block-kit element tree, as plain data.

use vstd::prelude::*;

verus! {

#[derive(Debug)]
pub enum Response {
    Disconnect {
        reason: String,
        debug_info: DebugInfo,
    },
    EventsApi {
        envelope_id: String,
        accepts_response_payload: bool,
        retry_attempt: u64,
        retry_reason: String,
        payload: EventPayload,
    },
    Hello {
        num_connections: u64,
        debug_info: DebugInfo,
        connection_info: ConnectionInfo,
    },
    SlashCommands {
        envelope_id: String,
        accepts_response_payload: bool,
        payload: SlashCommandPayload,
    },
    Unhandled {
        error: String,
    },
}

#[derive(Debug)]
pub struct ConnectionInfo {
    app_id: String,
}

#[derive(Debug)]
pub struct DebugInfo {
    host: String,
    build_number: Option<u64>,
    approximate_connection_time: Option<u64>,
}

#[derive(Debug)]
pub enum EventPayload {
    EventCallback {
        token: String,
        team_id: String,
        api_app_id: String,
        event: Event,
        event_id: String,
        event_time: i64,
        authorizations: Vec<Authorization>,
        is_ext_shared_channel: bool,
        event_context: String,
    },
    UrlVerification {
        token: String,
        challenge: String,
    },
}

#[derive(Debug)]
pub struct SlashCommandPayload {
    pub token: String,
    pub team_id: String,
    pub team_domain: String,
    pub channel_id: String,
    pub channel_name: String,
    pub user_id: String,
    pub user_name: String,
    pub command: String,
    pub text: String,
    pub api_app_id: String,
    pub is_enterprise_install: String,
    pub response_url: String,
    pub trigger_id: String,
}

#[derive(Debug)]
pub struct Message {
    pub subtype: Option<String>,
    pub hidden: Option<bool>,
    pub message: Option<Box<Event>>,
    pub bot_id: Option<String>,
    pub client_msg_id: Option<String>,
    pub text: Option<String>,
    pub files: Option<Vec<File>>,
    pub upload: Option<bool>,
    pub user: Option<String>,
    pub display_as_bot: Option<bool>,
    pub ts: Option<String>,
    pub deleted_ts: Option<String>,
    pub team: Option<String>,
    pub attachments: Option<Vec<Attachment>>,
    pub blocks: Option<Vec<Block>>,
    pub channel: Option<String>,
    pub previous_message: Option<Box<Event>>,
    pub event_ts: Option<String>,
    pub thread_ts: Option<String>,
    pub channel_type: Option<String>,
    pub edited: Option<Edited>,
}

#[derive(Debug)]
pub enum Event {
    Message(Message),
    PinAdded {
        channel_id: String,
        item: Box<Item>,
        pin_count: u64,
        pinned_info: PinnedInfo,
        event_ts: String,
        user: Option<String>,
    },
    PinRemoved {
        channel_id: String,
        item: Box<Item>,
        pin_count: u64,
        pinned_info: PinnedInfo,
        has_pins: bool,
        event_ts: String,
        user: Option<String>,
    },
    ReactionAdded {
        event_ts: Timestamp,
        item: Box<Event>,
        reaction: String,
        user: Option<String>,
        item_user: Option<String>,
    },
    ReactionRemoved {
        event_ts: Timestamp,
        item: Box<Event>,
        reaction: String,
        user: Option<String>,
        item_user: Option<String>,
    },
}

#[derive(Debug)]
pub enum Item {
    Message {
        created: u64,
        created_by: String,
        channel: String,
        message: Event,
    },
}

#[derive(Clone, Debug, Eq, PartialEq)]
pub struct PinnedInfo {
    channel: String,
    pinned_ts: u64,
    pinned_by: Option<String>,
}

#[derive(Clone, Debug, Eq, PartialEq)]
pub struct Edited {
    user: Option<String>,
    ts: Option<String>,
}

#[derive(Clone, Debug, Eq, PartialEq)]
pub struct File {
    pub id: String,
    pub created: u64,
    pub timestamp: u64,
    pub name: String,
    pub title: String,
    pub mimetype: String,
    pub filetype: String,
    pub pretty_type: String,
    pub user: String,
    pub editable: bool,
    pub size: u64,
    pub mode: String,
    pub is_external: bool,
    pub external_type: String,
    pub is_public: bool,
    pub public_url_shared: bool,
    pub display_as_bot: bool,
    pub username: String,
    pub url_private: String,
    pub url_private_download: String,
    pub thumb_64: String,
    pub thumb_80: String,
    pub thumb_360: String,
    pub thumb_360_w: u64,
    pub thumb_360_h: u64,
    pub thumb_480: Option<String>,
    pub thumb_480_w: u64,
    pub thumb_480_h: u64,
    pub thumb_160: String,
    pub thumb_720: String,
    pub thumb_720_w: u64,
    pub thumb_720_h: u64,
    pub thumb_800: Option<String>,
    pub thumb_800_w: u64,
    pub thumb_800_h: u64,
    pub original_w: u64,
    pub original_h: u64,
    pub thumb_tiny: String,
    pub permalink: String,
    pub permalink_public: String,
    pub has_rich_preview: bool,
}

#[derive(Clone, Debug, Default, Eq, PartialEq)]
pub struct Attachment {
    pub pretext: Option<String>,
    pub fallback: Option<String>,
    pub title: Option<String>,
    pub title_link: Option<String>,
    pub ts: Option<Timestamp>,
    pub author_id: Option<String>,
    pub author_name: Option<String>,
    pub author_link: Option<String>,
    pub author_icon: Option<String>,
    pub author_subname: Option<String>,
    pub text: Option<String>,
    pub service_name: Option<String>,
    pub service_url: Option<String>,
    pub from_url: Option<String>,
    pub image_url: Option<String>,
    pub image_width: Option<u64>,
    pub image_height: Option<u64>,
    pub image_bytes: Option<u64>,
    pub id: Option<u64>,
    pub thumb_url: Option<String>,
    pub footer: Option<String>,
    pub footer_icon: Option<String>,
    pub msg_subtype: Option<String>,
    pub channel_id: Option<String>,
    pub channel_name: Option<String>,
    pub is_msg_unfurl: Option<bool>,
    pub mrkdwn_in: Option<Vec<String>>,
    pub color: Option<String>,
    pub is_share: Option<bool>,
}

#[derive(Clone, Debug, Eq, PartialEq)]
pub struct Timestamp(pub String);

#[derive(Debug)]
pub enum Block {
    Actions {
        elements: Vec<Element>,
        block_id: Option<String>,
    },
    Context {
        elements: Vec<Element>,
        block_id: Option<String>,
    },
    Divider {
        block_id: Option<String>,
    },
    File {
        external_id: String,
        source: String,
        block_id: Option<String>,
    },
    Header {
        text: String,
        block_id: Option<String>,
    },
    Image {
        image_url: String,
        alt_text: String,
        title: Option<Text>,
        block_id: Option<String>,
    },
    Input {
        label: Text,
        element: Element,
        dispatch_action: Option<bool>,
        block_id: Option<String>,
        hint: Option<Text>,
        optional: Option<bool>,
    },
    RichText {
        elements: Vec<Element>,
        block_id: Option<String>,
    },
    Section {
        text: Option<Text>,
        block_id: Option<String>,
        fields: Option<Vec<Text>>,
        accessory: Option<Element>,
    },
}

#[derive(Debug)]
pub enum Element {
    Button {
        text: Text,
        action_id: String,
        url: Option<String>,
        value: Option<String>,
        style: Option<String>,
        confirm: Option<ConfirmationDialog>,
    },
    Channel {
        channel_id: String,
    },
    ChannelsSelect {
        placeholder: Text,
        action_id: String,
        initial_channel: Option<String>,
        confirm: Option<ConfirmationDialog>,
        response_url_enabled: Option<bool>,
    },
    Checkboxes {
        action_id: String,
        options: Vec<CompositionOption>,
        initial_options: Vec<CompositionOption>,
        confirm: Option<ConfirmationDialog>,
    },
    ConversationsSelect {
        placeholder: Text,
        action_id: String,
        initial_conversation: Option<String>,
        default_to_current_conversation: Option<bool>,
        confirm: Option<ConfirmationDialog>,
        response_url_enabled: Option<bool>,
        filter: Option<ConversationListFilter>,
    },
    Datepicker {
        action_id: String,
        placeholder: Option<Text>,
        initial_date: Option<String>,
        confirm: Option<ConfirmationDialog>,
    },
    Emoji {
        name: String,
    },
    ExternalSelect {
        placeholder: Text,
        action_id: String,
        initial_option: Option<CompositionOption>,
        min_query_length: Option<i64>,
        confirm: Option<ConfirmationDialog>,
    },
    Image {
        image_url: String,
        alt_text: String,
    },
    Link {
        url: String,
    },
    MultiStaticSelect {
        placeholder: Text,
        action_id: String,
        options: Vec<CompositionOption>,
        option_groups: Option<Vec<CompositionOptionGroup>>,
        initial_options: Option<Vec<CompositionOption>>,
        confirm: Option<ConfirmationDialog>,
        max_selected_items: Option<i64>,
    },
    MultiExternalSelect {
        placeholder: Text,
        action_id: String,
        min_query_length: Option<i64>,
        initial_options: Option<Vec<CompositionOption>>,
        confirm: Option<ConfirmationDialog>,
        max_selected_items: Option<i64>,
    },
    MultiUsersSelect {
        placeholder: Text,
        action_id: String,
        initial_users: Option<Vec<String>>,
        confirm: Option<ConfirmationDialog>,
        max_selected_items: Option<i64>,
    },
    MultiConversationsSelect {
        placeholder: Text,
        action_id: String,
        initial_conversations: Option<Vec<String>>,
        default_to_current_conversation: Option<bool>,
        confirm: Option<ConfirmationDialog>,
        max_selected_items: Option<i64>,
        filter: Option<ConversationListFilter>,
    },
    MultiChannelsSelect {
        placeholder: Text,
        action_id: String,
        initial_channels: Option<Vec<String>>,
        confirm: Option<ConfirmationDialog>,
        max_selected_items: Option<i64>,
    },
    Overflow {
        action_id: String,
        options: Vec<CompositionOption>,
        confirm: Option<ConfirmationDialog>,
    },
    PlainTextInput {
        action_id: String,
        placeholder: Option<Text>,
        initial_value: Option<String>,
        multiline: Option<bool>,
        min_length: Option<i64>,
        max_length: Option<i64>,
        dispatch_action_config: Option<DispatchActionConfiguration>,
    },
    RadioButtons {
        action_id: String,
        options: Vec<CompositionOption>,
        initial_option: Option<CompositionOption>,
        confirm: Option<ConfirmationDialog>,
    },
    RichTextList {
        elements: Vec<Element>,
        style: String,
        indent: u64,
        border: Option<u64>,
    },
    RichTextPreformatted {
        elements: Vec<Element>,
    },
    RichTextQuote {
        elements: Vec<Element>,
    },
    RichTextSection {
        elements: Vec<Element>,
    },
    StaticSelect {
        placeholder: String,
        action_id: String,
        options: Vec<CompositionOption>,
        option_groups: Option<Vec<CompositionOptionGroup>>,
        initial_options: Option<Vec<CompositionOption>>,
        confirm: Option<ConfirmationDialog>,
    },
    Text {
        text: String,
        style: Option<Style>,
    },
    Timepicker {
        action_id: String,
        placeholder: Option<Text>,
        initial_time: Option<String>,
        confirm: Option<ConfirmationDialog>,
    },
    User {
        user_id: String,
    },
    UsersSelect {
        placeholder: Text,
        action_id: String,
        initial_user: Option<String>,
        confirm: Option<ConfirmationDialog>,
    },
}

#[derive(Clone, Debug, Eq, PartialEq)]
pub struct Style {
    pub bold: Option<bool>,
    pub code: Option<bool>,
    pub italic: Option<bool>,
    pub strike: Option<bool>,
}

#[derive(Clone, Debug, Eq, PartialEq)]
pub enum Text {
    PlainText {
        text: String,
        emoji: Option<bool>,
    },
    Mrkdwn {
        text: String,
        verbatim: Option<bool>,
    },
}

#[derive(Clone, Debug, Eq, PartialEq)]
pub struct ConfirmationDialog {
    pub title: Text,
    pub text: Text,
    pub confirm: Text,
    pub deny: Text,
    pub style: Option<String>,
}

#[derive(Clone, Debug, Eq, PartialEq)]
pub struct CompositionOption {
    pub text: Text,
    pub value: String,
    pub description: Option<Text>,
    pub url: Option<String>,
}

#[derive(Clone, Debug, Eq, PartialEq)]
pub struct CompositionOptionGroup {
    pub label: Text,
    pub options: Vec<CompositionOption>,
}

#[derive(Clone, Debug, Eq, PartialEq)]
pub struct DispatchActionConfiguration {
    pub trigger_actions_on: Option<Vec<String>>,
}

#[derive(Clone, Debug, Eq, PartialEq)]
pub struct ConversationListFilter {
    pub included: Option<Vec<String>>,
    pub exclude_external_shared_channels: Option<bool>,
    pub exclude_bot_users: Option<bool>,
}

#[derive(Debug)]
pub struct Authorization {
    enterprise_id: Option<String>,
    team_id: String,
    user_id: String,
    is_bot: bool,
    is_enterprise_install: bool,
}

#[derive(Debug)]
pub struct UsersList {
    pub ok: bool,
    pub error: Option<String>,
    pub cache_ts: Option<u64>,
    pub response_metadata: Option<ResponseMetadata>,
    pub members: Option<Vec<User>>,
}

#[derive(Debug)]
pub struct ResponseMetadata {
    pub next_cursor: Option<String>,
}

#[derive(Debug)]
pub struct User {
    pub id: Option<String>,
    pub team_id: Option<String>,
    pub name: Option<String>,
    pub deleted: Option<bool>,
    pub color: Option<String>,
    pub real_name: Option<String>,
    pub tz: Option<String>,
    pub tz_label: Option<String>,
    pub tz_offset: Option<i64>,
    pub profile: Option<Profile>,
    pub is_admin: Option<bool>,
    pub is_owner: Option<bool>,
    pub is_primary_owner: Option<bool>,
    pub is_restricted: Option<bool>,
    pub is_ultra_restricted: Option<bool>,
    pub is_bot: Option<bool>,
    pub is_stranger: Option<bool>,
    pub updated: Option<u64>,
    pub is_app_user: Option<bool>,
    pub is_invited_user: Option<bool>,
    pub has_2fa: Option<bool>,
    pub local: Option<String>,
}

#[derive(Debug)]
pub struct Profile {
    pub title: Option<String>,
    pub phone: Option<String>,
    pub skype: Option<String>,
    pub real_name: Option<String>,
    pub real_name_normalized: Option<String>,
    pub display_name: Option<String>,
    pub display_name_normalized: Option<String>,
    pub status_text: Option<String>,
    pub status_emoji: Option<String>,
    pub status_expiration: Option<i64>,
    pub avatar_hash: Option<String>,
    pub first_name: Option<String>,
    pub last_name: Option<String>,
    pub email: Option<String>,
    pub image_original: Option<String>,
    pub image_24: Option<String>,
    pub image_32: Option<String>,
    pub image_48: Option<String>,
    pub image_72: Option<String>,
    pub image_192: Option<String>,
    pub image_512: Option<String>,
    pub image_1024: Option<String>,
    pub team: Option<String>,
}

#[derive(Debug)]
pub struct ChatPostMessage {
    pub channel: String,
    pub as_user: Option<bool>,
    pub attachments: Option<Vec<Attachment>>,
    pub blocks: Option<Vec<Block>>,
    pub container_id: Option<String>,
    pub file_annotation: Option<String>,
    pub icon_emoji: Option<String>,
    pub icon_url: Option<String>,
    pub link_names: Option<bool>,
    pub mrkdwn: Option<bool>,
    pub parse: Option<String>,
    pub reply_broadcast: Option<String>,
    pub text: Option<String>,
    pub thread_ts: Option<String>,
    pub unfurl_links: Option<bool>,
    pub unfurl_media: Option<bool>,
    pub username: Option<String>,
}

#[derive(Debug)]
pub struct ChatPostEphemeralMessage {
    pub channel: String,
    pub user: String,
    pub text: Option<String>,
    pub as_user: Option<bool>,
    pub attachments: Option<Vec<Attachment>>,
    pub blocks: Option<Vec<Block>>,
    pub icon_emoji: Option<String>,
    pub icon_url: Option<String>,
    pub link_names: Option<bool>,
    pub parse: Option<String>,
    pub thread_ts: Option<String>,
    pub username: Option<String>,
}

#[derive(Debug)]
pub struct ChatUpdate {
    pub channel: String,
    pub ts: String,
    pub as_user: Option<bool>,
    pub attachments: Option<Vec<Attachment>>,
    pub blocks: Option<Vec<Block>>,
    pub file_ids: Option<Vec<String>>,
    pub link_names: Option<String>,
    pub parse: Option<String>,
    pub reply_broadcast: Option<bool>,
    pub text: Option<String>,
}

#[derive(Debug)]
pub struct ChatPostMessageResponse {
    pub ok: bool,
    pub error: Option<String>,
    pub channel: Option<String>,
    pub ts: Option<String>,
    pub message: Option<Event>,
}

} // verus!
