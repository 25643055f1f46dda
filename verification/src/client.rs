//! The voice-chat client itself: connection lifecycle decisions, the
//! handshake and keepalive frames, reconnect backoff, and the dispatch of
//! decoded wire frames into the state cache and the bridge. Everything that
//! talks to a socket, a timer or a bus lives outside; this module decides,
//! the caller performs.

use vstd::prelude::*;

verus! {

use crate::MAX_PAYLOAD;
use crate::codec::{Frame, Reassembler, frame_bytes, encode_frame, spec_take_frame,
    spec_frame_oversized};
use crate::messages::{
    DecodeError,
    Reject,
    UserState,
    Version,
    Authenticate,
    WireMessage,
    decode_message,
    encode_version,
    encode_authenticate,
    encode_user_state,
    encode_ping,
    VersionV,
    AuthenticateV,
    UserStateV,
    spec_encode_version,
    spec_encode_authenticate,
    spec_encode_user_state,
    spec_decode_channel_state,
    spec_decode_user_state,
    spec_decode_text_message,
    spec_decode_reject,
    spec_decode_id,
};
use crate::proto::fields_parse;
use crate::state::{StateCache, StateCacheV, cache_is_empty, spec_apply_channel_state,
    spec_apply_channel_remove, spec_apply_user_state, spec_apply_user_remove};
use crate::bridge::spec_inbound_targets;

/// The protocol version announced in the handshake: 1.4.0 packed as
/// major << 16 | minor << 8 | patch.
pub const WIRE_VERSION: u32 = 66560;

/// The client build strings announced in the handshake.
pub const CLIENT_NAME: &'static str = "PIPO";

/// Seconds slept per accumulated backoff step between connect attempts.
pub const BACKOFF_STEP_SECS: u64 = 30;

/// An error that tears the current connection down: an undecodable frame or
/// an explicit refusal by the server.
#[derive(Debug, Clone, PartialEq, Eq)]
pub enum StreamError {
    Decode(DecodeError),
    Rejected(Reject),
}

/// One text waiting to be published: the bus it goes to, the resolved display
/// name of the wire actor, and the still-HTML-escaped body. The caller
/// allocates a correlation id and finishes it with
/// `bridge::make_inbound_text`.
#[derive(Debug, Clone, PartialEq, Eq)]
pub struct PendingText {
    pub bus: usize,
    pub username: String,
    pub raw_message: String,
}

/// What the caller must do after a frame was handled: write bytes to the
/// wire, or turn a pending text into a bus publication.
#[derive(Debug, Clone, PartialEq, Eq)]
pub enum Action {
    Send(Vec<u8>),
    Deliver(PendingText),
}

pub enum ActionV {
    Send(Seq<u8>),
    Deliver { bus: usize, username: Seq<char>, raw_message: Seq<char> },
}

impl View for Action {
    type V = ActionV;

    open spec fn view(&self) -> ActionV {
        match self {
            Action::Send(v) => ActionV::Send(v@),
            Action::Deliver(p) => ActionV::Deliver {
                bus: p.bus,
                username: p.username@,
                raw_message: p.raw_message@,
            },
        }
    }
}

/// The spec-level contents of an action list.
pub open spec fn actions_view(s: Seq<Action>) -> Seq<ActionV> {
    s.map_values(|a: Action| a@)
}

/// The display name the cache holds for a session, when it holds one.
pub open spec fn spec_username(v: StateCacheV, session: u32) -> Option<Seq<char>> {
    if v.users.contains_key(session) && v.users[session].name is Some {
        Some(v.users[session].name->Some_0)
    } else {
        None
    }
}

/// The deliveries an inbound text with these resolved targets produces: one
/// per target bus, all with the same author and body.
pub open spec fn spec_text_deliveries(
    targets: Seq<(u32, usize)>,
    username: Seq<char>,
    raw: Seq<char>,
) -> Seq<ActionV> {
    targets.map_values(
        |t: (u32, usize)| ActionV::Deliver { bus: t.1, username: username, raw_message: raw },
    )
}

/// The UserState the client announces about itself after ServerSync: muted
/// and deafened, listening on every known channel.
pub open spec fn spec_sync_user_state(actor: u32, ids: Seq<u32>) -> UserStateV {
    UserStateV {
        session: None,
        actor: Some(actor),
        name: None,
        channel_id: None,
        mute: None,
        deaf: None,
        self_mute: Some(true),
        self_deaf: Some(true),
        listening_channel_add: ids,
    }
}

/// The voice-chat client: its configuration, the per-connection state cache,
/// the frame reassembly buffer and the reconnect backoff counter.
pub struct Mumble {
    transport_id: usize,
    nickname: String,
    password: Option<String>,
    cache: StateCache,
    reassembler: Reassembler,
    delay: u64,
}

pub struct MumbleV {
    pub transport_id: usize,
    pub nickname: Seq<char>,
    pub password: Option<Seq<char>>,
    pub cache: StateCacheV,
    pub buffer: Seq<u8>,
    pub delay: u64,
}

impl View for Mumble {
    type V = MumbleV;

    closed spec fn view(&self) -> MumbleV {
        MumbleV {
            transport_id: self.transport_id,
            nickname: self.nickname@,
            password: match self.password {
                Some(ref p) => Some(p@),
                None => None,
            },
            cache: self.cache@,
            buffer: self.reassembler@,
            delay: self.delay,
        }
    }
}

/// Everything of the client but the state cache and the reassembly buffer is
/// as it was.
pub open spec fn config_unchanged(a: MumbleV, b: MumbleV) -> bool {
    &&& a.transport_id == b.transport_id
    &&& a.nickname == b.nickname
    &&& a.password == b.password
    &&& a.delay == b.delay
}

/// The seconds to sleep before a connect attempt at a given backoff step:
/// thirty per step, saturating.
pub open spec fn backoff_secs(delay: u64) -> u64 {
    if delay <= u64::MAX as int / BACKOFF_STEP_SECS as int {
        (delay * BACKOFF_STEP_SECS) as u64
    } else {
        u64::MAX
    }
}

/// The backoff step after one more failed attempt.
pub open spec fn next_delay(delay: u64) -> u64 {
    if delay < u64::MAX {
        (delay + 1) as u64
    } else {
        u64::MAX
    }
}

/// Consecutive connect attempts never sleep less than the one before: the
/// backoff is non-decreasing within one run.
pub proof fn lemma_backoff_non_decreasing(delay: u64)
    ensures
        backoff_secs(next_delay(delay)) >= backoff_secs(delay),
{
}

impl Mumble {
    /// A client for one server: the transport's bus id, its login identity
    /// and the configured channel-name-to-bus pairs. It starts disconnected
    /// with no backoff accumulated, so the first connect attempt is
    /// immediate.
    pub fn new(
        transport_id: usize,
        nickname: String,
        password: Option<String>,
        channel_buses: Vec<(String, usize)>,
    ) -> (r: Mumble)
        ensures
            r@.transport_id == transport_id,
            r@.nickname == nickname@,
            r@.password == (match password {
                Some(ref p) => Some::<Seq<char>>(p@),
                None => None::<Seq<char>>,
            }),
            r@.delay == 0,
            r@.buffer == Seq::<u8>::empty(),
            cache_is_empty(r@.cache),
            r@.cache.nickname == nickname@,
            r@.cache.mappings.len() == channel_buses@.len(),
            forall|i: int|
                0 <= i < channel_buses@.len() ==> (#[trigger] r@.cache.mappings[i]).channel_name
                    == channel_buses@[i].0@ && r@.cache.mappings[i].bus == channel_buses@[i].1,
    {
        let nickname_for_cache = nickname.clone();
        Mumble {
            transport_id,
            nickname,
            password,
            cache: StateCache::new(nickname_for_cache, channel_buses),
            reassembler: Reassembler::new(),
            delay: 0,
        }
    }

    pub fn transport_id(&self) -> (r: usize)
        ensures
            r == self@.transport_id,
    {
        self.transport_id
    }

    pub fn cache(&self) -> (r: &StateCache)
        ensures
            r@ == self@.cache,
    {
        &self.cache
    }

    /// How long to sleep before the next connect attempt; each call counts
    /// one attempt, so later sleeps are never shorter.
    pub fn before_connect_attempt(&mut self) -> (r: u64)
        ensures
            r == backoff_secs(old(self)@.delay),
            final(self)@.delay == next_delay(old(self)@.delay),
            final(self)@.cache == old(self)@.cache,
            final(self)@.buffer == old(self)@.buffer,
            final(self)@.transport_id == old(self)@.transport_id,
            final(self)@.nickname == old(self)@.nickname,
            final(self)@.password == old(self)@.password,
    {
        let sleep = if self.delay <= u64::MAX / BACKOFF_STEP_SECS {
            self.delay * BACKOFF_STEP_SECS
        } else {
            u64::MAX
        };
        if self.delay < u64::MAX {
            self.delay = self.delay + 1;
        }
        sleep
    }

    /// A connection is established: drop every piece of the previous
    /// connection's state, so nothing stale survives the reconnect. The
    /// backoff step deliberately keeps its value.
    pub fn on_connected(&mut self)
        ensures
            cache_is_empty(final(self)@.cache),
            final(self)@.cache.nickname == old(self)@.cache.nickname,
            final(self)@.cache.mappings.len() == old(self)@.cache.mappings.len(),
            forall|i: int|
                0 <= i < old(self)@.cache.mappings.len() ==> {
                    let mp = #[trigger] final(self)@.cache.mappings[i];
                    mp.channel_name == old(self)@.cache.mappings[i].channel_name && mp.bus == old(
                        self,
                    )@.cache.mappings[i].bus
                },
            final(self)@.buffer == Seq::<u8>::empty(),
            config_unchanged(final(self)@, old(self)@),
    {
        self.cache.reset();
        self.reassembler = Reassembler::new();
    }

    /// The two handshake frames sent right after the TLS session stands:
    /// Version, then Authenticate with the configured nickname and password.
    /// Only a configuration whose strings blow the frame cap is refused.
    pub fn handshake_frames(&self) -> (r: Result<Vec<u8>, ()>)
        ensures
            r is Ok <==> spec_encode_version(spec_handshake_version()).len() + 6 <= MAX_PAYLOAD
                && spec_encode_authenticate(spec_handshake_auth(self@)).len() + 6 <= MAX_PAYLOAD,
            r matches Ok(v) ==> v@ == frame_bytes(
                0,
                spec_encode_version(spec_handshake_version()),
            ) + frame_bytes(2, spec_encode_authenticate(spec_handshake_auth(self@))),
    {
        let version = Version {
            version: Some(WIRE_VERSION),
            release: Some(CLIENT_NAME.to_owned()),
            os: Some(CLIENT_NAME.to_owned()),
            os_version: Some(CLIENT_NAME.to_owned()),
        };
        let version_payload = encode_version(&version);
        if version_payload.len() > MAX_PAYLOAD - 6 {
            return Err(());
        }
        let auth = Authenticate {
            username: Some(self.nickname.clone()),
            password: match self.password {
                Some(ref p) => Some(p.clone()),
                None => None,
            },
        };
        let auth_payload = encode_authenticate(&auth);
        if auth_payload.len() > MAX_PAYLOAD - 6 {
            return Err(());
        }
        let mut out = encode_frame(0, version_payload.as_slice());
        let auth_frame = encode_frame(2, auth_payload.as_slice());
        out.append(&mut { auth_frame });
        Ok(out)
    }

    /// The keepalive frame: an empty Ping.
    pub fn ping_frame(&self) -> (r: Vec<u8>)
        ensures
            r@ == frame_bytes(3, Seq::<u8>::empty()),
    {
        let payload = encode_ping();
        encode_frame(3, payload.as_slice())
    }

    /// Append bytes read off the socket to the reassembly buffer.
    pub fn wire_bytes(&mut self, chunk: &[u8])
        ensures
            final(self)@.buffer == old(self)@.buffer + chunk@,
            final(self)@.cache == old(self)@.cache,
            config_unchanged(final(self)@, old(self)@),
    {
        self.reassembler.push_bytes(chunk);
    }

    /// Take the next complete frame off the reassembly buffer; `Ok(None)`
    /// means more bytes are needed, `Err` an announced frame over the size
    /// cap, which is fatal to the connection.
    pub fn next_frame(&mut self) -> (r: Result<Option<Frame>, ()>)
        ensures
            final(self)@.cache == old(self)@.cache,
            config_unchanged(final(self)@, old(self)@),
            match r {
                Ok(Some(frame)) => {
                    &&& spec_take_frame(old(self)@.buffer) matches Some((tag, payload, rest))
                        && frame.type_tag == tag && frame.payload@ == payload && final(self)@.buffer
                        == rest
                    &&& frame.wf()
                },
                Ok(None) => {
                    &&& spec_take_frame(old(self)@.buffer) is None
                    &&& !spec_frame_oversized(old(self)@.buffer)
                    &&& final(self)@.buffer == old(self)@.buffer
                },
                Err(()) => spec_frame_oversized(old(self)@.buffer) && final(self)@.buffer == old(
                    self,
                )@.buffer,
            },
    {
        self.reassembler.next_frame()
    }

    /// Dispatch one decoded frame.
    ///
    /// State frames update the cache, a ServerSync triggers the client's own
    /// UserState announcement once its actor id is known, a TextMessage turns
    /// into one delivery per resolved channel (none when the actor's name is
    /// unknown, which skips the frame without killing the connection), a
    /// Reject or an undecodable frame is fatal, and everything else is
    /// ignored.
    pub fn handle_frame(&mut self, frame: Frame) -> (r: Result<Vec<Action>, StreamError>)
        ensures
            config_unchanged(final(self)@, old(self)@),
            final(self)@.buffer == old(self)@.buffer,
            r is Err ==> final(self)@.cache == old(self)@.cache,
            frame.type_tag == 7 ==> match spec_decode_channel_state(frame.payload@) {
                Some(cs) => r matches Ok(a) && a@.len() == 0 && final(self)@.cache
                    == spec_apply_channel_state(old(self)@.cache, cs),
                None => r is Err,
            },
            frame.type_tag == 6 ==> match spec_decode_id(frame.payload@) {
                Some(id) => r matches Ok(a) && a@.len() == 0 && final(self)@.cache
                    == spec_apply_channel_remove(old(self)@.cache, id),
                None => r is Err,
            },
            frame.type_tag == 9 ==> match spec_decode_user_state(frame.payload@) {
                Some(us) => r matches Ok(a) && a@.len() == 0 && final(self)@.cache
                    == spec_apply_user_state(old(self)@.cache, us),
                None => r is Err,
            },
            frame.type_tag == 8 ==> match spec_decode_id(frame.payload@) {
                Some(id) => r matches Ok(a) && a@.len() == 0 && final(self)@.cache
                    == spec_apply_user_remove(old(self)@.cache, id),
                None => r is Err,
            },
            frame.type_tag == 4 ==> match spec_decode_reject(frame.payload@) {
                Some(rj) => r matches Err(e) && e matches StreamError::Rejected(x) && x@ == rj,
                None => (r matches Err(e) && e is Decode),
            },
            frame.type_tag == 11 ==> match spec_decode_text_message(frame.payload@) {
                Some(tm) => {
                    &&& r matches Ok(a)
                    &&& final(self)@.cache == old(self)@.cache
                    &&& match spec_username(
                        old(self)@.cache,
                        match tm.actor {
                            Some(x) => x,
                            None => 0u32,
                        },
                    ) {
                        Some(name) => actions_view(a@) == spec_text_deliveries(
                            spec_inbound_targets(old(self)@.cache.mappings, tm.channel_id),
                            name,
                            tm.message,
                        ),
                        None => a@.len() == 0,
                    }
                },
                None => r is Err,
            },
            frame.type_tag == 5 ==> match fields_parse(frame.payload@) {
                Some(_) => {
                    &&& r matches Ok(a)
                    &&& final(self)@.cache == old(self)@.cache
                    &&& match old(self)@.cache.actor_id {
                        Some(actor) => {
                            let payload = spec_encode_user_state(
                                spec_sync_user_state(
                                    actor,
                                    old(self)@.cache.channels.map_values(
                                        |p: (u32, crate::messages::ChannelStateV)| p.0,
                                    ),
                                ),
                            );
                            if payload.len() + 6 <= MAX_PAYLOAD {
                                actions_view(a@) == seq![ActionV::Send(frame_bytes(9, payload))]
                            } else {
                                a@.len() == 0
                            }
                        },
                        None => a@.len() == 0,
                    }
                },
                None => r is Err,
            },
            frame.type_tag > 25 ==> r is Err,
            frame.type_tag == 1 ==> (r matches Ok(a) && a@.len() == 0 && final(self)@.cache == old(
                self,
            )@.cache),
            (frame.type_tag == 0 || frame.type_tag == 2 || frame.type_tag == 3 || frame.type_tag
                == 10 || (12 <= frame.type_tag <= 25)) ==> match fields_parse(frame.payload@) {
                Some(_) => r matches Ok(a) && a@.len() == 0 && final(self)@.cache == old(
                    self,
                )@.cache,
                None => r is Err,
            },
    {
        let message = match decode_message(frame.type_tag, frame.payload.as_slice()) {
            Ok(m) => m,
            Err(e) => {
                return Err(StreamError::Decode(e));
            },
        };
        match message {
            WireMessage::Reject(rj) => Err(StreamError::Rejected(rj)),
            WireMessage::ChannelState(cs) => {
                self.cache.merge_channel(cs);
                Ok(Vec::new())
            },
            WireMessage::ChannelRemove(cr) => {
                self.cache.remove_channel(cr.channel_id);
                Ok(Vec::new())
            },
            WireMessage::UserState(us) => {
                self.cache.merge_user(us);
                Ok(Vec::new())
            },
            WireMessage::UserRemove(ur) => {
                self.cache.remove_user(ur.session);
                Ok(Vec::new())
            },
            WireMessage::ServerSync => Ok(self.sync_actions()),
            WireMessage::TextMessage(tm) => Ok(self.text_actions(&tm)),
            _ => Ok(Vec::new()),
        }
    }

    /// The announcement sent after ServerSync, when the actor id is known.
    fn sync_actions(&self) -> (r: Vec<Action>)
        ensures
            match self@.cache.actor_id {
                Some(actor) => {
                    let payload = spec_encode_user_state(
                        spec_sync_user_state(
                            actor,
                            self@.cache.channels.map_values(
                                |p: (u32, crate::messages::ChannelStateV)| p.0,
                            ),
                        ),
                    );
                    if payload.len() + 6 <= MAX_PAYLOAD {
                        actions_view(r@) == seq![ActionV::Send(frame_bytes(9, payload))]
                    } else {
                        r@.len() == 0
                    }
                },
                None => r@.len() == 0,
            },
    {
        let actor = match self.cache.actor_id() {
            Some(a) => a,
            None => {
                return Vec::new();
            },
        };
        let ids = self.cache.channel_id_list();
        let announce = UserState {
            session: None,
            actor: Some(actor),
            name: None,
            channel_id: None,
            mute: None,
            deaf: None,
            self_mute: Some(true),
            self_deaf: Some(true),
            listening_channel_add: ids,
        };
        let payload = encode_user_state(&announce);
        if payload.len() > MAX_PAYLOAD - 6 {
            return Vec::new();
        }
        let frame = encode_frame(9, payload.as_slice());
        let mut out: Vec<Action> = Vec::new();
        out.push(Action::Send(frame));
        proof {
            assert(actions_view(out@) =~= seq![
                ActionV::Send(
                    frame_bytes(
                        9,
                        spec_encode_user_state(
                            spec_sync_user_state(
                                actor,
                                self@.cache.channels.map_values(
                                    |p: (u32, crate::messages::ChannelStateV)| p.0,
                                ),
                            ),
                        ),
                    ),
                ),
            ]);
        }
        out
    }

    /// The deliveries one inbound TextMessage produces: nothing when the wire
    /// actor's name is unknown, else one pending text per resolved channel.
    fn text_actions(&self, tm: &crate::messages::TextMessage) -> (r: Vec<Action>)
        ensures
            match spec_username(
                self@.cache,
                match tm@.actor {
                    Some(x) => x,
                    None => 0u32,
                },
            ) {
                Some(name) => actions_view(r@) == spec_text_deliveries(
                    spec_inbound_targets(self@.cache.mappings, tm@.channel_id),
                    name,
                    tm@.message,
                ),
                None => r@.len() == 0,
            },
    {
        let actor = match tm.actor {
            Some(a) => a,
            None => 0,
        };
        let username = match self.cache.username_for_session(actor) {
            Some(u) => u,
            None => {
                return Vec::new();
            },
        };
        let targets = crate::bridge::inbound_targets(&self.cache, tm);
        let ghost targets_v = targets@;
        let mut out: Vec<Action> = Vec::new();
        let mut i: usize = 0;
        while i < targets.len()
            invariant
                i <= targets_v.len(),
                targets_v == targets@,
                out@.len() == i,
                forall|j: int|
                    0 <= j < i ==> (#[trigger] out@[j])@ == (ActionV::Deliver {
                        bus: targets_v[j].1,
                        username: username@,
                        raw_message: tm@.message,
                    }),
            decreases targets_v.len() - i,
        {
            out.push(
                Action::Deliver(
                    PendingText {
                        bus: targets[i].1,
                        username: username.clone(),
                        raw_message: tm.message.clone(),
                    },
                ),
            );
            i = i + 1;
        }
        proof {
            let full = spec_text_deliveries(targets_v, username@, tm@.message);
            assert(actions_view(out@).len() == full.len());
            assert forall|j: int| 0 <= j < full.len() implies actions_view(out@)[j] == full[j] by {
                assert(actions_view(out@)[j] == out@[j]@);
                assert(full[j] == (ActionV::Deliver {
                    bus: targets_v[j].1,
                    username: username@,
                    raw_message: tm@.message,
                }));
            }
            assert(actions_view(out@) =~= full);
        }
        out
    }
}

/// The Authenticate message a client with this configuration sends.
pub open spec fn spec_handshake_auth(v: MumbleV) -> AuthenticateV {
    AuthenticateV { username: Some(v.nickname), password: v.password }
}

/// The Version message every handshake announces.
pub open spec fn spec_handshake_version() -> VersionV {
    VersionV {
        version: Some(WIRE_VERSION),
        release: Some(CLIENT_NAME@),
        os: Some(CLIENT_NAME@),
        os_version: Some(CLIENT_NAME@),
    }
}

/// The next correlation id after one is consumed: counts up and wraps to zero
/// past forty thousand.
pub fn advance_pipo_id(id: i64) -> (r: i64)
    ensures
        id >= 40000 ==> r == 0,
        id < 40000 ==> r == id + 1,
{
    if id >= 40000 {
        0
    } else {
        id + 1
    }
}

} // verus!
