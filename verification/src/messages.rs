//! The wire messages this client understands, decoded from and encoded to the
//! field streams of `proto`. Every field is optional on the wire; a message
//! carries `Option` fields and repeated fields carry vectors, so partial
//! updates stay explicit.

use vstd::prelude::*;

verus! {

use crate::proto::{
    WireField,
    WireFieldV,
    FieldValue,
    FieldValueV,
    fields_parse,
    fields_view,
    lemma_fields_view_index,
    parse_fields,
    varint_field_enc,
    str_field_enc,
    emit_varint_field,
    emit_str_field,
};
use crate::text::bytes_to_string;
use vstd::utf8::{valid_utf8, decode_utf8};

/// A 32-bit value out of a varint field; over-wide values are a decode error.
pub open spec fn as_u32_field(v: FieldValueV) -> Option<u32> {
    match v {
        FieldValueV::Varint(x) => if x <= u32::MAX {
            Some(x as u32)
        } else {
            None
        },
        _ => None,
    }
}

/// A boolean out of a varint field: any non-zero value is true.
pub open spec fn as_bool_field(v: FieldValueV) -> Option<bool> {
    match v {
        FieldValueV::Varint(x) => Some(x != 0),
        _ => None,
    }
}

/// A string out of a length-delimited field; bytes that are not UTF-8 are a
/// decode error.
pub open spec fn as_str_field(v: FieldValueV) -> Option<Seq<char>> {
    match v {
        FieldValueV::Bytes(b) => if valid_utf8(b) {
            Some(decode_utf8(b))
        } else {
            None
        },
        _ => None,
    }
}

fn read_u32_field(v: &FieldValue) -> (r: Result<u32, ()>)
    ensures
        match as_u32_field(v@) {
            Some(x) => r == Ok::<u32, ()>(x),
            None => r is Err,
        },
{
    match v {
        FieldValue::Varint(x) => if *x <= u32::MAX as u64 {
            Ok(*x as u32)
        } else {
            Err(())
        },
        _ => Err(()),
    }
}

fn read_bool_field(v: &FieldValue) -> (r: Result<bool, ()>)
    ensures
        match as_bool_field(v@) {
            Some(x) => r == Ok::<bool, ()>(x),
            None => r is Err,
        },
{
    match v {
        FieldValue::Varint(x) => Ok(*x != 0),
        _ => Err(()),
    }
}

fn read_str_field(v: &FieldValue) -> (r: Result<String, ()>)
    ensures
        match as_str_field(v@) {
            Some(s) => r matches Ok(x) && x@ == s,
            None => r is Err,
        },
{
    match v {
        FieldValue::Bytes(b) => match bytes_to_string(b.as_slice()) {
            Some(s) => Ok(s),
            None => Err(()),
        },
        _ => Err(()),
    }
}

// --- ChannelState ------------------------------------------------------

/// One channel as the server announces it; unset fields mean "unchanged".
#[derive(Debug, Clone, PartialEq, Eq)]
pub struct ChannelState {
    pub channel_id: Option<u32>,
    pub parent: Option<u32>,
    pub name: Option<String>,
    pub description: Option<String>,
}

pub struct ChannelStateV {
    pub channel_id: Option<u32>,
    pub parent: Option<u32>,
    pub name: Option<Seq<char>>,
    pub description: Option<Seq<char>>,
}

impl View for ChannelState {
    type V = ChannelStateV;

    open spec fn view(&self) -> ChannelStateV {
        ChannelStateV {
            channel_id: self.channel_id,
            parent: self.parent,
            name: match self.name {
                Some(ref s) => Some(s@),
                None => None,
            },
            description: match self.description {
                Some(ref s) => Some(s@),
                None => None,
            },
        }
    }
}

pub open spec fn channel_state_init() -> ChannelStateV {
    ChannelStateV { channel_id: None, parent: None, name: None, description: None }
}

impl ChannelState {
    pub fn new() -> (r: ChannelState)
        ensures
            r@ == channel_state_init(),
    {
        ChannelState { channel_id: None, parent: None, name: None, description: None }
    }
}

pub open spec fn apply_channel_state_field(m: ChannelStateV, f: WireFieldV) -> Option<
    ChannelStateV,
> {
    if f.number == 1 {
        match as_u32_field(f.value) {
            Some(v) => Some(ChannelStateV { channel_id: Some(v), ..m }),
            None => None,
        }
    } else if f.number == 2 {
        match as_u32_field(f.value) {
            Some(v) => Some(ChannelStateV { parent: Some(v), ..m }),
            None => None,
        }
    } else if f.number == 3 {
        match as_str_field(f.value) {
            Some(s) => Some(ChannelStateV { name: Some(s), ..m }),
            None => None,
        }
    } else if f.number == 5 {
        match as_str_field(f.value) {
            Some(s) => Some(ChannelStateV { description: Some(s), ..m }),
            None => None,
        }
    } else {
        Some(m)
    }
}

/// Fold a ChannelState out of a field stream, applying each field in order;
/// `None` once any field is unusable.
pub open spec fn fold_channel_state(m: Option<ChannelStateV>, fs: Seq<WireFieldV>) -> Option<
    ChannelStateV,
>
    decreases fs.len(),
{
    if fs.len() == 0 {
        m
    } else {
        match m {
            None => None,
            Some(mm) => fold_channel_state(apply_channel_state_field(mm, fs[0]), fs.skip(1)),
        }
    }
}

/// What a ChannelState payload decodes to; `None` is a decode error.
pub open spec fn spec_decode_channel_state(b: Seq<u8>) -> Option<ChannelStateV> {
    match fields_parse(b) {
        None => None,
        Some(fs) => fold_channel_state(Some(channel_state_init()), fs),
    }
}

fn channel_state_step(m: &mut ChannelState, f: &WireField) -> (r: Result<(), ()>)
    ensures
        match apply_channel_state_field(old(m)@, f@) {
            Some(mv) => r is Ok && final(m)@ == mv,
            None => r is Err,
        },
{
    if f.number == 1 {
        match read_u32_field(&f.value) {
            Ok(v) => m.channel_id = Some(v),
            Err(()) => {
                return Err(());
            },
        }
    } else if f.number == 2 {
        match read_u32_field(&f.value) {
            Ok(v) => m.parent = Some(v),
            Err(()) => {
                return Err(());
            },
        }
    } else if f.number == 3 {
        match read_str_field(&f.value) {
            Ok(s) => m.name = Some(s),
            Err(()) => {
                return Err(());
            },
        }
    } else if f.number == 5 {
        match read_str_field(&f.value) {
            Ok(s) => m.description = Some(s),
            Err(()) => {
                return Err(());
            },
        }
    }
    Ok(())
}

pub fn decode_channel_state(payload: &[u8]) -> (r: Result<ChannelState, ()>)
    ensures
        match spec_decode_channel_state(payload@) {
            Some(mv) => r matches Ok(m) && m@ == mv,
            None => r is Err,
        },
{
    let fields = match parse_fields(payload) {
        Ok(f) => f,
        Err(()) => {
            return Err(());
        },
    };
    let ghost fs = fields_view(fields@);
    let mut m = ChannelState::new();
    let mut i: usize = 0;
    proof {
        assert(fs.skip(0) =~= fs);
    }
    while i < fields.len()
        invariant
            i <= fields@.len(),
            fs == fields_view(fields@),
            fields_parse(payload@) == Some(fs),
            fold_channel_state(Some(channel_state_init()), fs) == fold_channel_state(
                Some(m@),
                fs.skip(i as int),
            ),
        decreases fields@.len() - i,
    {
        let f = &fields[i];
        let ghost m_before = m@;
        let ghost rest = fs.skip(i as int);
        proof {
            lemma_fields_view_index(fields@, i as int);
            assert(rest[0] == fs[i as int]);
            assert(rest.skip(1) =~= fs.skip(i + 1));
            assert(fold_channel_state(Some(m_before), rest) == fold_channel_state(
                apply_channel_state_field(m_before, rest[0]),
                rest.skip(1),
            ));
        }
        match channel_state_step(&mut m, f) {
            Ok(()) => (),
            Err(()) => {
                proof {
                    assert(fold_channel_state(None, rest.skip(1)) is None);
                    assert(fold_channel_state(Some(channel_state_init()), fs) is None);
                }
                return Err(());
            },
        }
        i = i + 1;
    }
    proof {
        assert(fs.skip(i as int) =~= Seq::<WireFieldV>::empty());
    }
    Ok(m)
}

// --- UserState ----------------------------------------------------------

/// One user session as the server announces it; unset fields mean "unchanged".
#[derive(Debug, Clone, PartialEq, Eq)]
pub struct UserState {
    pub session: Option<u32>,
    pub actor: Option<u32>,
    pub name: Option<String>,
    pub channel_id: Option<u32>,
    pub mute: Option<bool>,
    pub deaf: Option<bool>,
    pub self_mute: Option<bool>,
    pub self_deaf: Option<bool>,
    pub listening_channel_add: Vec<u32>,
}

pub struct UserStateV {
    pub session: Option<u32>,
    pub actor: Option<u32>,
    pub name: Option<Seq<char>>,
    pub channel_id: Option<u32>,
    pub mute: Option<bool>,
    pub deaf: Option<bool>,
    pub self_mute: Option<bool>,
    pub self_deaf: Option<bool>,
    pub listening_channel_add: Seq<u32>,
}

impl View for UserState {
    type V = UserStateV;

    open spec fn view(&self) -> UserStateV {
        UserStateV {
            session: self.session,
            actor: self.actor,
            name: match self.name {
                Some(ref s) => Some(s@),
                None => None,
            },
            channel_id: self.channel_id,
            mute: self.mute,
            deaf: self.deaf,
            self_mute: self.self_mute,
            self_deaf: self.self_deaf,
            listening_channel_add: self.listening_channel_add@,
        }
    }
}

pub open spec fn user_state_init() -> UserStateV {
    UserStateV {
        session: None,
        actor: None,
        name: None,
        channel_id: None,
        mute: None,
        deaf: None,
        self_mute: None,
        self_deaf: None,
        listening_channel_add: Seq::empty(),
    }
}

impl UserState {
    pub fn new() -> (r: UserState)
        ensures
            r@ == user_state_init(),
    {
        UserState {
            session: None,
            actor: None,
            name: None,
            channel_id: None,
            mute: None,
            deaf: None,
            self_mute: None,
            self_deaf: None,
            listening_channel_add: Vec::new(),
        }
    }
}

pub open spec fn apply_user_state_field(m: UserStateV, f: WireFieldV) -> Option<UserStateV> {
    if f.number == 1 {
        match as_u32_field(f.value) {
            Some(v) => Some(UserStateV { session: Some(v), ..m }),
            None => None,
        }
    } else if f.number == 2 {
        match as_u32_field(f.value) {
            Some(v) => Some(UserStateV { actor: Some(v), ..m }),
            None => None,
        }
    } else if f.number == 3 {
        match as_str_field(f.value) {
            Some(s) => Some(UserStateV { name: Some(s), ..m }),
            None => None,
        }
    } else if f.number == 5 {
        match as_u32_field(f.value) {
            Some(v) => Some(UserStateV { channel_id: Some(v), ..m }),
            None => None,
        }
    } else if f.number == 6 {
        match as_bool_field(f.value) {
            Some(v) => Some(UserStateV { mute: Some(v), ..m }),
            None => None,
        }
    } else if f.number == 7 {
        match as_bool_field(f.value) {
            Some(v) => Some(UserStateV { deaf: Some(v), ..m }),
            None => None,
        }
    } else if f.number == 9 {
        match as_bool_field(f.value) {
            Some(v) => Some(UserStateV { self_mute: Some(v), ..m }),
            None => None,
        }
    } else if f.number == 10 {
        match as_bool_field(f.value) {
            Some(v) => Some(UserStateV { self_deaf: Some(v), ..m }),
            None => None,
        }
    } else if f.number == 21 {
        match as_u32_field(f.value) {
            Some(v) => Some(
                UserStateV {
                    listening_channel_add: m.listening_channel_add.push(v),
                    ..m
                },
            ),
            None => None,
        }
    } else {
        Some(m)
    }
}

/// Fold a UserState out of a field stream, applying each field in order;
/// `None` once any field is unusable.
pub open spec fn fold_user_state(m: Option<UserStateV>, fs: Seq<WireFieldV>) -> Option<UserStateV>
    decreases fs.len(),
{
    if fs.len() == 0 {
        m
    } else {
        match m {
            None => None,
            Some(mm) => fold_user_state(apply_user_state_field(mm, fs[0]), fs.skip(1)),
        }
    }
}

/// What a UserState payload decodes to; `None` is a decode error.
pub open spec fn spec_decode_user_state(b: Seq<u8>) -> Option<UserStateV> {
    match fields_parse(b) {
        None => None,
        Some(fs) => fold_user_state(Some(user_state_init()), fs),
    }
}

fn user_state_step(m: &mut UserState, f: &WireField) -> (r: Result<(), ()>)
    ensures
        match apply_user_state_field(old(m)@, f@) {
            Some(mv) => r is Ok && final(m)@ == mv,
            None => r is Err,
        },
{
    if f.number == 1 {
        match read_u32_field(&f.value) {
            Ok(v) => m.session = Some(v),
            Err(()) => {
                return Err(());
            },
        }
    } else if f.number == 2 {
        match read_u32_field(&f.value) {
            Ok(v) => m.actor = Some(v),
            Err(()) => {
                return Err(());
            },
        }
    } else if f.number == 3 {
        match read_str_field(&f.value) {
            Ok(s) => m.name = Some(s),
            Err(()) => {
                return Err(());
            },
        }
    } else if f.number == 5 {
        match read_u32_field(&f.value) {
            Ok(v) => m.channel_id = Some(v),
            Err(()) => {
                return Err(());
            },
        }
    } else if f.number == 6 {
        match read_bool_field(&f.value) {
            Ok(v) => m.mute = Some(v),
            Err(()) => {
                return Err(());
            },
        }
    } else if f.number == 7 {
        match read_bool_field(&f.value) {
            Ok(v) => m.deaf = Some(v),
            Err(()) => {
                return Err(());
            },
        }
    } else if f.number == 9 {
        match read_bool_field(&f.value) {
            Ok(v) => m.self_mute = Some(v),
            Err(()) => {
                return Err(());
            },
        }
    } else if f.number == 10 {
        match read_bool_field(&f.value) {
            Ok(v) => m.self_deaf = Some(v),
            Err(()) => {
                return Err(());
            },
        }
    } else if f.number == 21 {
        match read_u32_field(&f.value) {
            Ok(v) => m.listening_channel_add.push(v),
            Err(()) => {
                return Err(());
            },
        }
    }
    Ok(())
}

pub fn decode_user_state(payload: &[u8]) -> (r: Result<UserState, ()>)
    ensures
        match spec_decode_user_state(payload@) {
            Some(mv) => r matches Ok(m) && m@ == mv,
            None => r is Err,
        },
{
    let fields = match parse_fields(payload) {
        Ok(f) => f,
        Err(()) => {
            return Err(());
        },
    };
    let ghost fs = fields_view(fields@);
    let mut m = UserState::new();
    let mut i: usize = 0;
    proof {
        assert(fs.skip(0) =~= fs);
    }
    while i < fields.len()
        invariant
            i <= fields@.len(),
            fs == fields_view(fields@),
            fields_parse(payload@) == Some(fs),
            fold_user_state(Some(user_state_init()), fs) == fold_user_state(
                Some(m@),
                fs.skip(i as int),
            ),
        decreases fields@.len() - i,
    {
        let f = &fields[i];
        let ghost m_before = m@;
        let ghost rest = fs.skip(i as int);
        proof {
            lemma_fields_view_index(fields@, i as int);
            assert(rest[0] == fs[i as int]);
            assert(rest.skip(1) =~= fs.skip(i + 1));
            assert(fold_user_state(Some(m_before), rest) == fold_user_state(
                apply_user_state_field(m_before, rest[0]),
                rest.skip(1),
            ));
        }
        match user_state_step(&mut m, f) {
            Ok(()) => (),
            Err(()) => {
                proof {
                    assert(fold_user_state(None, rest.skip(1)) is None);
                    assert(fold_user_state(Some(user_state_init()), fs) is None);
                }
                return Err(());
            },
        }
        i = i + 1;
    }
    proof {
        assert(fs.skip(i as int) =~= Seq::<WireFieldV>::empty());
    }
    Ok(m)
}


// --- TextMessage --------------------------------------------------------

/// A text message on the wire: who said it, the channels it goes to, and the
/// HTML-escaped body. The body is required; a payload without one is a decode
/// error.
#[derive(Debug, Clone, PartialEq, Eq)]
pub struct TextMessage {
    pub actor: Option<u32>,
    pub channel_id: Vec<u32>,
    pub message: String,
}

pub struct TextMessageV {
    pub actor: Option<u32>,
    pub channel_id: Seq<u32>,
    pub message: Seq<char>,
}

impl View for TextMessage {
    type V = TextMessageV;

    open spec fn view(&self) -> TextMessageV {
        TextMessageV {
            actor: self.actor,
            channel_id: self.channel_id@,
            message: self.message@,
        }
    }
}

/// The partial state of a TextMessage while its fields are folded in.
pub struct TextAccV {
    pub actor: Option<u32>,
    pub channel_id: Seq<u32>,
    pub message: Option<Seq<char>>,
}

pub open spec fn text_acc_init() -> TextAccV {
    TextAccV { actor: None, channel_id: Seq::empty(), message: None }
}

pub open spec fn apply_text_message_field(m: TextAccV, f: WireFieldV) -> Option<TextAccV> {
    if f.number == 1 {
        match as_u32_field(f.value) {
            Some(v) => Some(TextAccV { actor: Some(v), ..m }),
            None => None,
        }
    } else if f.number == 3 {
        match as_u32_field(f.value) {
            Some(v) => Some(TextAccV { channel_id: m.channel_id.push(v), ..m }),
            None => None,
        }
    } else if f.number == 5 {
        match as_str_field(f.value) {
            Some(s) => Some(TextAccV { message: Some(s), ..m }),
            None => None,
        }
    } else {
        Some(m)
    }
}

pub open spec fn fold_text_message(m: Option<TextAccV>, fs: Seq<WireFieldV>) -> Option<TextAccV>
    decreases fs.len(),
{
    if fs.len() == 0 {
        m
    } else {
        match m {
            None => None,
            Some(mm) => fold_text_message(apply_text_message_field(mm, fs[0]), fs.skip(1)),
        }
    }
}

/// What a TextMessage payload decodes to; `None` is a decode error, a missing
/// message body included.
pub open spec fn spec_decode_text_message(b: Seq<u8>) -> Option<TextMessageV> {
    match fields_parse(b) {
        None => None,
        Some(fs) => match fold_text_message(Some(text_acc_init()), fs) {
            None => None,
            Some(acc) => match acc.message {
                None => None,
                Some(msg) => Some(
                    TextMessageV { actor: acc.actor, channel_id: acc.channel_id, message: msg },
                ),
            },
        },
    }
}

pub fn decode_text_message(payload: &[u8]) -> (r: Result<TextMessage, ()>)
    ensures
        match spec_decode_text_message(payload@) {
            Some(mv) => r matches Ok(m) && m@ == mv,
            None => r is Err,
        },
{
    let fields = match parse_fields(payload) {
        Ok(f) => f,
        Err(()) => {
            return Err(());
        },
    };
    let ghost fs = fields_view(fields@);
    let mut actor: Option<u32> = None;
    let mut channel_id: Vec<u32> = Vec::new();
    let mut message: Option<String> = None;
    let ghost acc0 = text_acc_init();
    let mut i: usize = 0;
    proof {
        assert(fs.skip(0) =~= fs);
    }
    while i < fields.len()
        invariant
            i <= fields@.len(),
            fs == fields_view(fields@),
            fields_parse(payload@) == Some(fs),
            fold_text_message(Some(text_acc_init()), fs) == fold_text_message(
                Some(
                    TextAccV {
                        actor,
                        channel_id: channel_id@,
                        message: match message {
                            Some(ref s) => Some(s@),
                            None => None,
                        },
                    },
                ),
                fs.skip(i as int),
            ),
        decreases fields@.len() - i,
    {
        let f = &fields[i];
        let ghost m_before = TextAccV {
            actor,
            channel_id: channel_id@,
            message: match message {
                Some(ref s) => Some(s@),
                None => None,
            },
        };
        let ghost rest = fs.skip(i as int);
        proof {
            lemma_fields_view_index(fields@, i as int);
            assert(rest[0] == fs[i as int]);
            assert(rest.skip(1) =~= fs.skip(i + 1));
            assert(fold_text_message(Some(m_before), rest) == fold_text_message(
                apply_text_message_field(m_before, rest[0]),
                rest.skip(1),
            ));
        }
        if f.number == 1 {
            match read_u32_field(&f.value) {
                Ok(v) => actor = Some(v),
                Err(()) => {
                    proof {
                        assert(fold_text_message(None, rest.skip(1)) is None);
                    }
                    return Err(());
                },
            }
        } else if f.number == 3 {
            match read_u32_field(&f.value) {
                Ok(v) => channel_id.push(v),
                Err(()) => {
                    proof {
                        assert(fold_text_message(None, rest.skip(1)) is None);
                    }
                    return Err(());
                },
            }
        } else if f.number == 5 {
            match read_str_field(&f.value) {
                Ok(s) => message = Some(s),
                Err(()) => {
                    proof {
                        assert(fold_text_message(None, rest.skip(1)) is None);
                    }
                    return Err(());
                },
            }
        }
        i = i + 1;
    }
    proof {
        assert(fs.skip(i as int) =~= Seq::<WireFieldV>::empty());
    }
    match message {
        Some(msg) => Ok(TextMessage { actor, channel_id, message: msg }),
        None => Err(()),
    }
}

// --- ChannelRemove and UserRemove --------------------------------------

/// The server drops one channel, by id.
#[derive(Debug, Clone, Copy, PartialEq, Eq)]
pub struct ChannelRemove {
    pub channel_id: u32,
}

/// The server drops one user session, by session id.
#[derive(Debug, Clone, Copy, PartialEq, Eq)]
pub struct UserRemove {
    pub session: u32,
}

pub open spec fn apply_id_field(m: Option<u32>, f: WireFieldV) -> Option<Option<u32>> {
    if f.number == 1 {
        match as_u32_field(f.value) {
            Some(v) => Some(Some(v)),
            None => None,
        }
    } else {
        Some(m)
    }
}

pub open spec fn fold_id(m: Option<Option<u32>>, fs: Seq<WireFieldV>) -> Option<Option<u32>>
    decreases fs.len(),
{
    if fs.len() == 0 {
        m
    } else {
        match m {
            None => None,
            Some(mm) => fold_id(apply_id_field(mm, fs[0]), fs.skip(1)),
        }
    }
}

/// The id a remove payload names in its first field; `None` is a decode
/// error, a missing id included.
pub open spec fn spec_decode_id(b: Seq<u8>) -> Option<u32> {
    match fields_parse(b) {
        None => None,
        Some(fs) => match fold_id(Some(None), fs) {
            None => None,
            Some(opt) => opt,
        },
    }
}

/// Decode the required leading id field that ChannelRemove and UserRemove
/// both consist of.
pub fn decode_id(payload: &[u8]) -> (r: Result<u32, ()>)
    ensures
        match spec_decode_id(payload@) {
            Some(id) => r == Ok::<u32, ()>(id),
            None => r is Err,
        },
{
    let fields = match parse_fields(payload) {
        Ok(f) => f,
        Err(()) => {
            return Err(());
        },
    };
    let ghost fs = fields_view(fields@);
    let mut id: Option<u32> = None;
    let mut i: usize = 0;
    proof {
        assert(fs.skip(0) =~= fs);
    }
    while i < fields.len()
        invariant
            i <= fields@.len(),
            fs == fields_view(fields@),
            fields_parse(payload@) == Some(fs),
            fold_id(Some(None), fs) == fold_id(Some(id), fs.skip(i as int)),
        decreases fields@.len() - i,
    {
        let f = &fields[i];
        let ghost m_before = id;
        let ghost rest = fs.skip(i as int);
        proof {
            lemma_fields_view_index(fields@, i as int);
            assert(rest[0] == fs[i as int]);
            assert(rest.skip(1) =~= fs.skip(i + 1));
            assert(fold_id(Some(m_before), rest) == fold_id(
                apply_id_field(m_before, rest[0]),
                rest.skip(1),
            ));
        }
        if f.number == 1 {
            match read_u32_field(&f.value) {
                Ok(v) => id = Some(v),
                Err(()) => {
                    proof {
                        assert(fold_id(None, rest.skip(1)) is None);
                    }
                    return Err(());
                },
            }
        }
        i = i + 1;
    }
    proof {
        assert(fs.skip(i as int) =~= Seq::<WireFieldV>::empty());
    }
    match id {
        Some(v) => Ok(v),
        None => Err(()),
    }
}

// --- Reject -------------------------------------------------------------

/// The server refused the connection: a numeric reason kind and a free-text
/// reason.
#[derive(Debug, Clone, PartialEq, Eq)]
pub struct Reject {
    pub reject_type: Option<u32>,
    pub reason: Option<String>,
}

pub struct RejectV {
    pub reject_type: Option<u32>,
    pub reason: Option<Seq<char>>,
}

impl View for Reject {
    type V = RejectV;

    open spec fn view(&self) -> RejectV {
        RejectV {
            reject_type: self.reject_type,
            reason: match self.reason {
                Some(ref s) => Some(s@),
                None => None,
            },
        }
    }
}

pub open spec fn reject_init() -> RejectV {
    RejectV { reject_type: None, reason: None }
}

pub open spec fn apply_reject_field(m: RejectV, f: WireFieldV) -> Option<RejectV> {
    if f.number == 1 {
        match as_u32_field(f.value) {
            Some(v) => Some(RejectV { reject_type: Some(v), ..m }),
            None => None,
        }
    } else if f.number == 2 {
        match as_str_field(f.value) {
            Some(s) => Some(RejectV { reason: Some(s), ..m }),
            None => None,
        }
    } else {
        Some(m)
    }
}

pub open spec fn fold_reject(m: Option<RejectV>, fs: Seq<WireFieldV>) -> Option<RejectV>
    decreases fs.len(),
{
    if fs.len() == 0 {
        m
    } else {
        match m {
            None => None,
            Some(mm) => fold_reject(apply_reject_field(mm, fs[0]), fs.skip(1)),
        }
    }
}

/// What a Reject payload decodes to; `None` is a decode error.
pub open spec fn spec_decode_reject(b: Seq<u8>) -> Option<RejectV> {
    match fields_parse(b) {
        None => None,
        Some(fs) => fold_reject(Some(reject_init()), fs),
    }
}

pub fn decode_reject(payload: &[u8]) -> (r: Result<Reject, ()>)
    ensures
        match spec_decode_reject(payload@) {
            Some(mv) => r matches Ok(m) && m@ == mv,
            None => r is Err,
        },
{
    let fields = match parse_fields(payload) {
        Ok(f) => f,
        Err(()) => {
            return Err(());
        },
    };
    let ghost fs = fields_view(fields@);
    let mut m = Reject { reject_type: None, reason: None };
    let mut i: usize = 0;
    proof {
        assert(fs.skip(0) =~= fs);
    }
    while i < fields.len()
        invariant
            i <= fields@.len(),
            fs == fields_view(fields@),
            fields_parse(payload@) == Some(fs),
            fold_reject(Some(reject_init()), fs) == fold_reject(Some(m@), fs.skip(i as int)),
        decreases fields@.len() - i,
    {
        let f = &fields[i];
        let ghost m_before = m@;
        let ghost rest = fs.skip(i as int);
        proof {
            lemma_fields_view_index(fields@, i as int);
            assert(rest[0] == fs[i as int]);
            assert(rest.skip(1) =~= fs.skip(i + 1));
            assert(fold_reject(Some(m_before), rest) == fold_reject(
                apply_reject_field(m_before, rest[0]),
                rest.skip(1),
            ));
        }
        if f.number == 1 {
            match read_u32_field(&f.value) {
                Ok(v) => m.reject_type = Some(v),
                Err(()) => {
                    proof {
                        assert(fold_reject(None, rest.skip(1)) is None);
                    }
                    return Err(());
                },
            }
        } else if f.number == 2 {
            match read_str_field(&f.value) {
                Ok(s) => m.reason = Some(s),
                Err(()) => {
                    proof {
                        assert(fold_reject(None, rest.skip(1)) is None);
                    }
                    return Err(());
                },
            }
        }
        i = i + 1;
    }
    proof {
        assert(fs.skip(i as int) =~= Seq::<WireFieldV>::empty());
    }
    Ok(m)
}


// --- Encoders -----------------------------------------------------------

pub open spec fn opt_u32_field_enc(number: u64, o: Option<u32>) -> Seq<u8> {
    match o {
        None => Seq::empty(),
        Some(v) => varint_field_enc(number, v as u64),
    }
}

pub open spec fn opt_bool_field_enc(number: u64, o: Option<bool>) -> Seq<u8> {
    match o {
        None => Seq::empty(),
        Some(v) => varint_field_enc(
            number,
            if v {
                1
            } else {
                0
            },
        ),
    }
}

pub open spec fn opt_str_field_enc(number: u64, o: Option<Seq<char>>) -> Seq<u8> {
    match o {
        None => Seq::empty(),
        Some(s) => str_field_enc(number, s),
    }
}

pub open spec fn rep_u32_fields_enc(number: u64, s: Seq<u32>) -> Seq<u8>
    decreases s.len(),
{
    if s.len() == 0 {
        Seq::empty()
    } else {
        varint_field_enc(number, s[0] as u64) + rep_u32_fields_enc(number, s.skip(1))
    }
}

fn emit_opt_u32_field(out: &mut Vec<u8>, number: u32, o: &Option<u32>)
    requires
        number >= 1,
    ensures
        final(out)@ == old(out)@ + opt_u32_field_enc(number as u64, *o),
{
    match o {
        Some(v) => emit_varint_field(out, number, *v as u64),
        None => {
            proof {
                assert(out@ =~= out@ + Seq::<u8>::empty());
            }
        },
    }
}

fn emit_opt_bool_field(out: &mut Vec<u8>, number: u32, o: &Option<bool>)
    requires
        number >= 1,
    ensures
        final(out)@ == old(out)@ + opt_bool_field_enc(number as u64, *o),
{
    match o {
        Some(v) => emit_varint_field(
            out,
            number,
            if *v {
                1
            } else {
                0
            },
        ),
        None => {
            proof {
                assert(out@ =~= out@ + Seq::<u8>::empty());
            }
        },
    }
}

fn emit_opt_str_field(out: &mut Vec<u8>, number: u32, o: &Option<String>)
    requires
        number >= 1,
    ensures
        final(out)@ == old(out)@ + opt_str_field_enc(
            number as u64,
            match *o {
                Some(ref s) => Some(s@),
                None => None,
            },
        ),
{
    match o {
        Some(s) => emit_str_field(out, number, s.as_str()),
        None => {
            proof {
                assert(out@ =~= out@ + Seq::<u8>::empty());
            }
        },
    }
}

fn emit_rep_u32_fields(out: &mut Vec<u8>, number: u32, s: &Vec<u32>)
    requires
        number >= 1,
    ensures
        final(out)@ == old(out)@ + rep_u32_fields_enc(number as u64, s@),
{
    let mut i: usize = 0;
    proof {
        assert(s@.skip(0) =~= s@);
        assert(out@ + Seq::<u8>::empty() =~= out@);
    }
    while i < s.len()
        invariant
            i <= s@.len(),
            out@ + rep_u32_fields_enc(number as u64, s@.skip(i as int)) == old(out)@
                + rep_u32_fields_enc(number as u64, s@),
            number >= 1,
        decreases s@.len() - i,
    {
        let ghost rest = s@.skip(i as int);
        proof {
            assert(rest[0] == s@[i as int]);
            assert(rest.skip(1) =~= s@.skip(i + 1));
            assert(rep_u32_fields_enc(number as u64, rest) == varint_field_enc(
                number as u64,
                rest[0] as u64,
            ) + rep_u32_fields_enc(number as u64, rest.skip(1)));
        }
        emit_varint_field(out, number, s[i] as u64);
        proof {
            assert(out@ + rep_u32_fields_enc(number as u64, s@.skip(i + 1)) =~= old(out)@
                + rep_u32_fields_enc(number as u64, s@));
        }
        i = i + 1;
    }
    proof {
        assert(s@.skip(i as int) =~= Seq::<u32>::empty());
        assert(out@ + Seq::<u8>::empty() =~= out@);
    }
}

// --- Version and Authenticate ------------------------------------------

/// The client's opening message: its protocol version and build strings.
#[derive(Debug, Clone, PartialEq, Eq)]
pub struct Version {
    pub version: Option<u32>,
    pub release: Option<String>,
    pub os: Option<String>,
    pub os_version: Option<String>,
}

pub struct VersionV {
    pub version: Option<u32>,
    pub release: Option<Seq<char>>,
    pub os: Option<Seq<char>>,
    pub os_version: Option<Seq<char>>,
}

impl View for Version {
    type V = VersionV;

    open spec fn view(&self) -> VersionV {
        VersionV {
            version: self.version,
            release: match self.release {
                Some(ref s) => Some(s@),
                None => None,
            },
            os: match self.os {
                Some(ref s) => Some(s@),
                None => None,
            },
            os_version: match self.os_version {
                Some(ref s) => Some(s@),
                None => None,
            },
        }
    }
}

/// The client's login message: the nickname it wants and an optional
/// password.
#[derive(Debug, Clone, PartialEq, Eq)]
pub struct Authenticate {
    pub username: Option<String>,
    pub password: Option<String>,
}

pub struct AuthenticateV {
    pub username: Option<Seq<char>>,
    pub password: Option<Seq<char>>,
}

impl View for Authenticate {
    type V = AuthenticateV;

    open spec fn view(&self) -> AuthenticateV {
        AuthenticateV {
            username: match self.username {
                Some(ref s) => Some(s@),
                None => None,
            },
            password: match self.password {
                Some(ref s) => Some(s@),
                None => None,
            },
        }
    }
}

/// The payload a Version message encodes to.
pub open spec fn spec_encode_version(v: VersionV) -> Seq<u8> {
    opt_u32_field_enc(1, v.version) + opt_str_field_enc(2, v.release) + opt_str_field_enc(3, v.os)
        + opt_str_field_enc(4, v.os_version)
}

pub fn encode_version(v: &Version) -> (r: Vec<u8>)
    ensures
        r@ == spec_encode_version(v@),
{
    let mut out: Vec<u8> = Vec::new();
    emit_opt_u32_field(&mut out, 1, &v.version);
    emit_opt_str_field(&mut out, 2, &v.release);
    emit_opt_str_field(&mut out, 3, &v.os);
    emit_opt_str_field(&mut out, 4, &v.os_version);
    proof {
        assert(out@ =~= spec_encode_version(v@));
    }
    out
}

/// The payload an Authenticate message encodes to.
pub open spec fn spec_encode_authenticate(v: AuthenticateV) -> Seq<u8> {
    opt_str_field_enc(1, v.username) + opt_str_field_enc(2, v.password)
}

pub fn encode_authenticate(v: &Authenticate) -> (r: Vec<u8>)
    ensures
        r@ == spec_encode_authenticate(v@),
{
    let mut out: Vec<u8> = Vec::new();
    emit_opt_str_field(&mut out, 1, &v.username);
    emit_opt_str_field(&mut out, 2, &v.password);
    proof {
        assert(out@ =~= spec_encode_authenticate(v@));
    }
    out
}

/// The payload a keepalive Ping encodes to: no fields at all.
pub fn encode_ping() -> (r: Vec<u8>)
    ensures
        r@ == Seq::<u8>::empty(),
{
    Vec::new()
}

/// The payload a UserState message encodes to.
pub open spec fn spec_encode_user_state(v: UserStateV) -> Seq<u8> {
    opt_u32_field_enc(1, v.session) + opt_u32_field_enc(2, v.actor) + opt_str_field_enc(3, v.name)
        + opt_u32_field_enc(5, v.channel_id) + opt_bool_field_enc(6, v.mute) + opt_bool_field_enc(
        7,
        v.deaf,
    ) + opt_bool_field_enc(9, v.self_mute) + opt_bool_field_enc(10, v.self_deaf)
        + rep_u32_fields_enc(21, v.listening_channel_add)
}

pub fn encode_user_state(v: &UserState) -> (r: Vec<u8>)
    ensures
        r@ == spec_encode_user_state(v@),
{
    let mut out: Vec<u8> = Vec::new();
    emit_opt_u32_field(&mut out, 1, &v.session);
    emit_opt_u32_field(&mut out, 2, &v.actor);
    emit_opt_str_field(&mut out, 3, &v.name);
    emit_opt_u32_field(&mut out, 5, &v.channel_id);
    emit_opt_bool_field(&mut out, 6, &v.mute);
    emit_opt_bool_field(&mut out, 7, &v.deaf);
    emit_opt_bool_field(&mut out, 9, &v.self_mute);
    emit_opt_bool_field(&mut out, 10, &v.self_deaf);
    emit_rep_u32_fields(&mut out, 21, &v.listening_channel_add);
    proof {
        assert(out@ =~= spec_encode_user_state(v@));
    }
    out
}

/// The payload a TextMessage encodes to.
pub open spec fn spec_encode_text_message(v: TextMessageV) -> Seq<u8> {
    opt_u32_field_enc(1, v.actor) + rep_u32_fields_enc(3, v.channel_id) + str_field_enc(
        5,
        v.message,
    )
}

pub fn encode_text_message(v: &TextMessage) -> (r: Vec<u8>)
    ensures
        r@ == spec_encode_text_message(v@),
{
    let mut out: Vec<u8> = Vec::new();
    emit_opt_u32_field(&mut out, 1, &v.actor);
    emit_rep_u32_fields(&mut out, 3, &v.channel_id);
    emit_str_field(&mut out, 5, v.message.as_str());
    proof {
        assert(out@ =~= spec_encode_text_message(v@));
    }
    out
}


// --- Dispatch by type tag ------------------------------------------------

/// Why a frame failed to decode, always naming the offending type tag.
#[derive(Debug, Clone, Copy, PartialEq, Eq)]
pub enum DecodeErrorKind {
    UnknownTag,
    Malformed,
}

/// A frame that could not be decoded: the type tag it carried and what went
/// wrong.
#[derive(Debug, Clone, Copy, PartialEq, Eq)]
pub struct DecodeError {
    pub tag: u16,
    pub kind: DecodeErrorKind,
}

/// One decoded wire message, a variant per type tag. Kinds this client only
/// observes carry no payload: their payloads are checked for well-formed
/// field structure and otherwise ignored, as is the whole UDPTunnel kind.
#[derive(Debug, Clone, PartialEq, Eq)]
pub enum WireMessage {
    Version,
    UdpTunnel,
    Authenticate,
    Ping,
    Reject(Reject),
    ServerSync,
    ChannelRemove(ChannelRemove),
    ChannelState(ChannelState),
    UserRemove(UserRemove),
    UserState(UserState),
    BanList,
    TextMessage(TextMessage),
    PermissionDenied,
    Acl,
    QueryUsers,
    CryptSetup,
    ContextActionModify,
    ContextAction,
    UserList,
    VoiceTarget,
    PermissionQuery,
    CodecVersion,
    UserStats,
    RequestBlob,
    ServerConfig,
    SuggestConfig,
}

/// Which unit variant an observed-only tag decodes to.
pub open spec fn observed_variant(tag: u16, m: WireMessage) -> bool {
    &&& (tag == 0 ==> m is Version)
    &&& (tag == 2 ==> m is Authenticate)
    &&& (tag == 3 ==> m is Ping)
    &&& (tag == 5 ==> m is ServerSync)
    &&& (tag == 10 ==> m is BanList)
    &&& (tag == 12 ==> m is PermissionDenied)
    &&& (tag == 13 ==> m is Acl)
    &&& (tag == 14 ==> m is QueryUsers)
    &&& (tag == 15 ==> m is CryptSetup)
    &&& (tag == 16 ==> m is ContextActionModify)
    &&& (tag == 17 ==> m is ContextAction)
    &&& (tag == 18 ==> m is UserList)
    &&& (tag == 19 ==> m is VoiceTarget)
    &&& (tag == 20 ==> m is PermissionQuery)
    &&& (tag == 21 ==> m is CodecVersion)
    &&& (tag == 22 ==> m is UserStats)
    &&& (tag == 23 ==> m is RequestBlob)
    &&& (tag == 24 ==> m is ServerConfig)
    &&& (tag == 25 ==> m is SuggestConfig)
}

/// Whether a tag names a kind whose payload is only checked and ignored.
pub open spec fn observed_only_tag(tag: u16) -> bool {
    tag == 0 || tag == 2 || tag == 3 || tag == 5 || tag == 10 || (12 <= tag <= 25)
}

fn check_fields(payload: &[u8]) -> (r: Result<(), ()>)
    ensures
        r is Ok <==> fields_parse(payload@) is Some,
{
    match parse_fields(payload) {
        Ok(_) => Ok(()),
        Err(()) => Err(()),
    }
}

/// Decode one frame's payload by its type tag. Tags above 25 are unknown and
/// a fatal decode error; every error names the tag it arose on.
pub fn decode_message(tag: u16, payload: &[u8]) -> (r: Result<WireMessage, DecodeError>)
    ensures
        r matches Err(e) ==> e.tag == tag,
        tag > 25 ==> (r matches Err(e) && e.kind == DecodeErrorKind::UnknownTag),
        (r matches Err(e) && tag <= 25) ==> (r matches Err(e2) && e2.kind
            == DecodeErrorKind::Malformed),
        tag == 1 ==> (r matches Ok(m) && m is UdpTunnel),
        observed_only_tag(tag) ==> (match fields_parse(payload@) {
            Some(_) => r matches Ok(m) && observed_variant(tag, m),
            None => r is Err,
        }),
        tag == 4 ==> (match spec_decode_reject(payload@) {
            Some(mv) => r matches Ok(m) && m matches WireMessage::Reject(x) && x@ == mv,
            None => r is Err,
        }),
        tag == 6 ==> (match spec_decode_id(payload@) {
            Some(id) => r matches Ok(m) && m matches WireMessage::ChannelRemove(x) && x.channel_id
                == id,
            None => r is Err,
        }),
        tag == 7 ==> (match spec_decode_channel_state(payload@) {
            Some(mv) => r matches Ok(m) && m matches WireMessage::ChannelState(x) && x@ == mv,
            None => r is Err,
        }),
        tag == 8 ==> (match spec_decode_id(payload@) {
            Some(id) => r matches Ok(m) && m matches WireMessage::UserRemove(x) && x.session == id,
            None => r is Err,
        }),
        tag == 9 ==> (match spec_decode_user_state(payload@) {
            Some(mv) => r matches Ok(m) && m matches WireMessage::UserState(x) && x@ == mv,
            None => r is Err,
        }),
        tag == 11 ==> (match spec_decode_text_message(payload@) {
            Some(mv) => r matches Ok(m) && m matches WireMessage::TextMessage(x) && x@ == mv,
            None => r is Err,
        }),
{
    let malformed = DecodeError { tag, kind: DecodeErrorKind::Malformed };
    if tag == 1 {
        Ok(WireMessage::UdpTunnel)
    } else if tag == 4 {
        match decode_reject(payload) {
            Ok(m) => Ok(WireMessage::Reject(m)),
            Err(()) => Err(malformed),
        }
    } else if tag == 6 {
        match decode_id(payload) {
            Ok(id) => Ok(WireMessage::ChannelRemove(ChannelRemove { channel_id: id })),
            Err(()) => Err(malformed),
        }
    } else if tag == 7 {
        match decode_channel_state(payload) {
            Ok(m) => Ok(WireMessage::ChannelState(m)),
            Err(()) => Err(malformed),
        }
    } else if tag == 8 {
        match decode_id(payload) {
            Ok(id) => Ok(WireMessage::UserRemove(UserRemove { session: id })),
            Err(()) => Err(malformed),
        }
    } else if tag == 9 {
        match decode_user_state(payload) {
            Ok(m) => Ok(WireMessage::UserState(m)),
            Err(()) => Err(malformed),
        }
    } else if tag == 11 {
        match decode_text_message(payload) {
            Ok(m) => Ok(WireMessage::TextMessage(m)),
            Err(()) => Err(malformed),
        }
    } else if tag > 25 {
        Err(DecodeError { tag, kind: DecodeErrorKind::UnknownTag })
    } else {
        match check_fields(payload) {
            Err(()) => Err(malformed),
            Ok(()) => Ok(
                if tag == 0 {
                    WireMessage::Version
                } else if tag == 2 {
                    WireMessage::Authenticate
                } else if tag == 3 {
                    WireMessage::Ping
                } else if tag == 5 {
                    WireMessage::ServerSync
                } else if tag == 10 {
                    WireMessage::BanList
                } else if tag == 12 {
                    WireMessage::PermissionDenied
                } else if tag == 13 {
                    WireMessage::Acl
                } else if tag == 14 {
                    WireMessage::QueryUsers
                } else if tag == 15 {
                    WireMessage::CryptSetup
                } else if tag == 16 {
                    WireMessage::ContextActionModify
                } else if tag == 17 {
                    WireMessage::ContextAction
                } else if tag == 18 {
                    WireMessage::UserList
                } else if tag == 19 {
                    WireMessage::VoiceTarget
                } else if tag == 20 {
                    WireMessage::PermissionQuery
                } else if tag == 21 {
                    WireMessage::CodecVersion
                } else if tag == 22 {
                    WireMessage::UserStats
                } else if tag == 23 {
                    WireMessage::RequestBlob
                } else if tag == 24 {
                    WireMessage::ServerConfig
                } else {
                    WireMessage::SuggestConfig
                },
            ),
        }
    }
}

} // verus!
