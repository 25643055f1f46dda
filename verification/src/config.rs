//! The transport section of the relay's configuration: one variant per
//! platform adapter, each carrying what that adapter needs to connect.

use vstd::prelude::*;

verus! {

/// One configured transport. The voice-chat variant carries the server
/// address, the login identity, the optional certificate paths and the
/// channel mappings described by the connection manager.
#[derive(Debug, Clone)]
pub enum ConfigTransport {
    IRC {
        nickname: String,
        server: String,
        use_tls: bool,
        img_root: String,
        channel_mapping: Vec<(String, String)>,
    },
    Discord {
        token: String,
        guild_id: u64,
        channel_mapping: Vec<(String, String)>,
    },
    Slack {
        token: String,
        bot_token: String,
        channel_mapping: Vec<(String, String)>,
    },
    Matrix {
        registration_path: String,
        channel_mapping: Vec<(String, String)>,
    },
    Minecraft {
        username: String,
        buses: Vec<String>,
    },
    Mumble {
        server: String,
        password: Option<String>,
        nickname: String,
        client_cert: Option<String>,
        server_cert: Option<String>,
        comment: Option<String>,
        channel_mapping: Vec<(String, String)>,
        voice_channel_mapping: Vec<(String, String)>,
    },
    Rachni {
        server: String,
        api_key: String,
        interval: u64,
        buses: Vec<String>,
    },
}

impl ConfigTransport {
    /// The platform this transport adapts.
    pub fn name(&self) -> (r: &str)
        ensures
            r@ == match self {
                ConfigTransport::IRC { .. } => "IRC"@,
                ConfigTransport::Discord { .. } => "Discord"@,
                ConfigTransport::Slack { .. } => "Slack"@,
                ConfigTransport::Matrix { .. } => "Matrix"@,
                ConfigTransport::Minecraft { .. } => "Minecraft"@,
                ConfigTransport::Mumble { .. } => "Mumble"@,
                ConfigTransport::Rachni { .. } => "Rachni"@,
            },
    {
        match self {
            ConfigTransport::IRC { .. } => "IRC",
            ConfigTransport::Discord { .. } => "Discord",
            ConfigTransport::Slack { .. } => "Slack",
            ConfigTransport::Matrix { .. } => "Matrix",
            ConfigTransport::Minecraft { .. } => "Minecraft",
            ConfigTransport::Mumble { .. } => "Mumble",
            ConfigTransport::Rachni { .. } => "Rachni",
        }
    }
}

} // verus!
