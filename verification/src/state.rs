//! The client-side mirror of server-pushed state: channels by id (in arrival
//! order), user sessions by id, the configured name-to-bus mappings with
//! their current channel binding, and the client's own session id once
//! discovered. Updates arrive as partial messages and are merged field by
//! field; everything here is rebuilt from scratch after a reconnect.

use vstd::prelude::*;

verus! {

use std::collections::HashMap;
use crate::messages::{ChannelState, ChannelStateV, UserState, UserStateV};

broadcast use vstd::std_specs::hash::group_hash_axioms;

/// One configured bridge between a channel name and a bus: the bus index is
/// fixed by configuration, the channel binding follows the server's state.
#[derive(Debug, Clone, PartialEq, Eq)]
pub struct BusMapping {
    pub channel_name: String,
    pub bus: usize,
    pub channel_id: Option<u32>,
}

pub struct BusMappingV {
    pub channel_name: Seq<char>,
    pub bus: usize,
    pub channel_id: Option<u32>,
}

impl View for BusMapping {
    type V = BusMappingV;

    open spec fn view(&self) -> BusMappingV {
        BusMappingV {
            channel_name: self.channel_name@,
            bus: self.bus,
            channel_id: self.channel_id,
        }
    }
}

/// The spec-level contents of the mapping table.
pub open spec fn mappings_view(s: Seq<BusMapping>) -> Seq<BusMappingV> {
    s.map_values(|mp: BusMapping| mp@)
}

pub proof fn lemma_mappings_view_index(s: Seq<BusMapping>, j: int)
    requires
        0 <= j < s.len(),
    ensures
        mappings_view(s).len() == s.len(),
        mappings_view(s)[j] == s[j]@,
{
}

/// The spec-level contents of the channel index.
pub open spec fn channels_view(s: Seq<(u32, ChannelState)>) -> Seq<(u32, ChannelStateV)> {
    s.map_values(|p: (u32, ChannelState)| (p.0, p.1@))
}

/// The spec-level contents of the user index.
pub open spec fn users_view(m: Map<u32, UserState>) -> Map<u32, UserStateV> {
    m.map_values(|u: UserState| u@)
}

/// Merge a partial channel update into a prior state: a field the update sets
/// overwrites, a field it leaves unset keeps the prior value.
pub open spec fn spec_merge_channel(a: ChannelStateV, b: ChannelStateV) -> ChannelStateV {
    ChannelStateV {
        channel_id: if b.channel_id is Some {
            b.channel_id
        } else {
            a.channel_id
        },
        parent: if b.parent is Some {
            b.parent
        } else {
            a.parent
        },
        name: if b.name is Some {
            b.name
        } else {
            a.name
        },
        description: if b.description is Some {
            b.description
        } else {
            a.description
        },
    }
}

/// Merge a partial user update into a prior state, field by field as for
/// channels; a repeated field set in the update replaces the prior one.
pub open spec fn spec_merge_user(a: UserStateV, b: UserStateV) -> UserStateV {
    UserStateV {
        session: if b.session is Some {
            b.session
        } else {
            a.session
        },
        actor: if b.actor is Some {
            b.actor
        } else {
            a.actor
        },
        name: if b.name is Some {
            b.name
        } else {
            a.name
        },
        channel_id: if b.channel_id is Some {
            b.channel_id
        } else {
            a.channel_id
        },
        mute: if b.mute is Some {
            b.mute
        } else {
            a.mute
        },
        deaf: if b.deaf is Some {
            b.deaf
        } else {
            a.deaf
        },
        self_mute: if b.self_mute is Some {
            b.self_mute
        } else {
            a.self_mute
        },
        self_deaf: if b.self_deaf is Some {
            b.self_deaf
        } else {
            a.self_deaf
        },
        listening_channel_add: if b.listening_channel_add.len() > 0 {
            b.listening_channel_add
        } else {
            a.listening_channel_add
        },
    }
}

/// Merging the same update twice gives what merging it once gives, and
/// merging an update into itself changes nothing.
pub proof fn lemma_channel_merge_idempotent(a: ChannelStateV, b: ChannelStateV)
    ensures
        spec_merge_channel(spec_merge_channel(a, b), b) == spec_merge_channel(a, b),
        spec_merge_channel(b, b) == b,
{
}

/// Merging the same update twice gives what merging it once gives, and
/// merging an update into itself changes nothing.
pub proof fn lemma_user_merge_idempotent(a: UserStateV, b: UserStateV)
    ensures
        spec_merge_user(spec_merge_user(a, b), b) == spec_merge_user(a, b),
        spec_merge_user(b, b) == b,
{
}

fn merge_channel_states(prior: &ChannelState, new: ChannelState) -> (r: ChannelState)
    ensures
        r@ == spec_merge_channel(prior@, new@),
{
    ChannelState {
        channel_id: match new.channel_id {
            Some(v) => Some(v),
            None => prior.channel_id,
        },
        parent: match new.parent {
            Some(v) => Some(v),
            None => prior.parent,
        },
        name: match new.name {
            Some(s) => Some(s),
            None => match prior.name {
                Some(ref s) => Some(s.clone()),
                None => None,
            },
        },
        description: match new.description {
            Some(s) => Some(s),
            None => match prior.description {
                Some(ref s) => Some(s.clone()),
                None => None,
            },
        },
    }
}

fn merge_user_states(prior: UserState, new: UserState) -> (r: UserState)
    ensures
        r@ == spec_merge_user(prior@, new@),
{
    UserState {
        session: match new.session {
            Some(v) => Some(v),
            None => prior.session,
        },
        actor: match new.actor {
            Some(v) => Some(v),
            None => prior.actor,
        },
        name: match new.name {
            Some(s) => Some(s),
            None => prior.name,
        },
        channel_id: match new.channel_id {
            Some(v) => Some(v),
            None => prior.channel_id,
        },
        mute: match new.mute {
            Some(v) => Some(v),
            None => prior.mute,
        },
        deaf: match new.deaf {
            Some(v) => Some(v),
            None => prior.deaf,
        },
        self_mute: match new.self_mute {
            Some(v) => Some(v),
            None => prior.self_mute,
        },
        self_deaf: match new.self_deaf {
            Some(v) => Some(v),
            None => prior.self_deaf,
        },
        listening_channel_add: if new.listening_channel_add.len() > 0 {
            new.listening_channel_add
        } else {
            prior.listening_channel_add
        },
    }
}

// --- The channel index, a sequence of (id, state) pairs ------------------

/// The state stored under channel `id`: the first pair with that id.
pub open spec fn seq_get(s: Seq<(u32, ChannelStateV)>, id: u32) -> Option<ChannelStateV>
    decreases s.len(),
{
    if s.len() == 0 {
        None
    } else if s[0].0 == id {
        Some(s[0].1)
    } else {
        seq_get(s.skip(1), id)
    }
}

/// Store `c` under `id`: replace the first pair with that id, or append.
pub open spec fn seq_put(s: Seq<(u32, ChannelStateV)>, id: u32, c: ChannelStateV) -> Seq<
    (u32, ChannelStateV),
>
    decreases s.len(),
{
    if s.len() == 0 {
        seq![(id, c)]
    } else if s[0].0 == id {
        seq![(id, c)] + s.skip(1)
    } else {
        seq![s[0]] + seq_put(s.skip(1), id, c)
    }
}

/// Drop the first pair stored under `id`, if any.
pub open spec fn seq_del(s: Seq<(u32, ChannelStateV)>, id: u32) -> Seq<(u32, ChannelStateV)>
    decreases s.len(),
{
    if s.len() == 0 {
        s
    } else if s[0].0 == id {
        s.skip(1)
    } else {
        seq![s[0]] + seq_del(s.skip(1), id)
    }
}

/// No channel id occurs twice in the index.
pub open spec fn ids_unique(s: Seq<(u32, ChannelStateV)>) -> bool {
    forall|i: int, j: int| 0 <= i < j < s.len() ==> (#[trigger] s[i]).0 != (#[trigger] s[j]).0
}

/// What `seq_put` stores is what `seq_get` then finds.
pub proof fn lemma_seq_put_get(s: Seq<(u32, ChannelStateV)>, id: u32, c: ChannelStateV)
    ensures
        seq_get(seq_put(s, id, c), id) == Some(c),
    decreases s.len(),
{
    if s.len() == 0 {
    } else if s[0].0 == id {
    } else {
        lemma_seq_put_get(s.skip(1), id, c);
        assert((seq![s[0]] + seq_put(s.skip(1), id, c)).skip(1) =~= seq_put(s.skip(1), id, c));
    }
}

/// Storing under an id keeps ids unique: there is at most one live state per
/// channel id.
pub proof fn lemma_seq_put_unique(s: Seq<(u32, ChannelStateV)>, id: u32, c: ChannelStateV)
    requires
        ids_unique(s),
    ensures
        ids_unique(seq_put(s, id, c)),
    decreases s.len(),
{
    if s.len() == 0 {
    } else if s[0].0 == id {
        assert forall|i: int, j: int|
            0 <= i < j < seq_put(s, id, c).len() implies (#[trigger] seq_put(s, id, c)[i]).0 != (
        #[trigger] seq_put(s, id, c)[j]).0 by {
            if i > 0 {
                assert(s[i] == seq_put(s, id, c)[i]);
            }
        }
    } else {
        assert(forall|i: int, j: int|
            0 <= i < j < s.skip(1).len() ==> (#[trigger] s.skip(1)[i]).0 != (#[trigger] s.skip(
                1,
            )[j]).0);
        lemma_seq_put_unique(s.skip(1), id, c);
        lemma_seq_put_keys(s.skip(1), id, c);
        let r = seq_put(s, id, c);
        assert forall|i: int, j: int| 0 <= i < j < r.len() implies (#[trigger] r[i]).0 != (
        #[trigger] r[j]).0 by {
            if i > 0 {
                assert(r[i] == seq_put(s.skip(1), id, c)[i - 1]);
                assert(r[j] == seq_put(s.skip(1), id, c)[j - 1]);
            } else {
                assert(r[j] == seq_put(s.skip(1), id, c)[j - 1]);
            }
        }
    }
}

/// Every id in the stored index is an old id or the one just stored.
pub proof fn lemma_seq_put_keys(s: Seq<(u32, ChannelStateV)>, id: u32, c: ChannelStateV)
    ensures
        forall|k: int|
            0 <= k < seq_put(s, id, c).len() ==> (#[trigger] seq_put(s, id, c)[k]).0 == id || (
            exists|j: int| 0 <= j < s.len() && (#[trigger] s[j]).0 == seq_put(s, id, c)[k].0),
    decreases s.len(),
{
    if s.len() == 0 {
    } else if s[0].0 == id {
        assert forall|k: int| 0 <= k < seq_put(s, id, c).len() implies (#[trigger] seq_put(
            s,
            id,
            c,
        )[k]).0 == id || (exists|j: int|
            0 <= j < s.len() && (#[trigger] s[j]).0 == seq_put(s, id, c)[k].0) by {
            if k > 0 {
                assert(seq_put(s, id, c)[k] == s[k]);
            }
        }
    } else {
        lemma_seq_put_keys(s.skip(1), id, c);
        assert forall|k: int| 0 <= k < seq_put(s, id, c).len() implies (#[trigger] seq_put(
            s,
            id,
            c,
        )[k]).0 == id || (exists|j: int|
            0 <= j < s.len() && (#[trigger] s[j]).0 == seq_put(s, id, c)[k].0) by {
            if k == 0 {
                assert(s[0].0 == seq_put(s, id, c)[0].0);
            } else {
                let inner = seq_put(s.skip(1), id, c);
                assert(seq_put(s, id, c)[k] == inner[k - 1]);
                if inner[k - 1].0 != id {
                    let j = choose|j: int|
                        0 <= j < s.skip(1).len() && (#[trigger] s.skip(1)[j]).0 == inner[k - 1].0;
                    assert(s[j + 1].0 == inner[k - 1].0);
                }
            }
        }
    }
}

/// Storing the same pair twice leaves the same index as storing it once.
pub proof fn lemma_seq_put_idempotent(s: Seq<(u32, ChannelStateV)>, id: u32, c: ChannelStateV)
    ensures
        seq_put(seq_put(s, id, c), id, c) == seq_put(s, id, c),
    decreases s.len(),
{
    if s.len() == 0 {
        assert(seq_put(seq_put(s, id, c), id, c) =~= seq_put(s, id, c));
    } else if s[0].0 == id {
        assert((seq![(id, c)] + s.skip(1)).skip(1) =~= s.skip(1));
        assert(seq_put(seq_put(s, id, c), id, c) =~= seq_put(s, id, c));
    } else {
        lemma_seq_put_idempotent(s.skip(1), id, c);
        let inner = seq_put(s.skip(1), id, c);
        assert((seq![s[0]] + inner).skip(1) =~= inner);
        assert(seq_put(seq_put(s, id, c), id, c) =~= seq_put(s, id, c));
    }
}

/// Replacing the first matching pair in place is what `seq_put` does.
proof fn lemma_seq_put_at(s: Seq<(u32, ChannelStateV)>, id: u32, c: ChannelStateV, i: int)
    requires
        0 <= i < s.len(),
        s[i].0 == id,
        forall|j: int| 0 <= j < i ==> (#[trigger] s[j]).0 != id,
    ensures
        seq_put(s, id, c) == s.update(i, (id, c)),
    decreases i,
{
    if i == 0 {
        assert(seq_put(s, id, c) =~= s.update(0, (id, c)));
    } else {
        assert(s.skip(1)[i - 1].0 == id);
        assert(forall|j: int| 0 <= j < i - 1 ==> (#[trigger] s.skip(1)[j]).0 != id);
        lemma_seq_put_at(s.skip(1), id, c, i - 1);
        assert(seq_put(s, id, c) =~= s.update(i, (id, c)));
    }
}

/// Appending is what `seq_put` does when no pair matches.
proof fn lemma_seq_put_absent(s: Seq<(u32, ChannelStateV)>, id: u32, c: ChannelStateV)
    requires
        forall|j: int| 0 <= j < s.len() ==> (#[trigger] s[j]).0 != id,
    ensures
        seq_put(s, id, c) == s.push((id, c)),
    decreases s.len(),
{
    if s.len() == 0 {
        assert(seq_put(s, id, c) =~= s.push((id, c)));
    } else {
        assert(forall|j: int| 0 <= j < s.skip(1).len() ==> (#[trigger] s.skip(1)[j]).0 != id);
        lemma_seq_put_absent(s.skip(1), id, c);
        assert(seq_put(s, id, c) =~= s.push((id, c)));
    }
}

/// Removing the first matching pair in place is what `seq_del` does.
proof fn lemma_seq_del_at(s: Seq<(u32, ChannelStateV)>, id: u32, i: int)
    requires
        0 <= i < s.len(),
        s[i].0 == id,
        forall|j: int| 0 <= j < i ==> (#[trigger] s[j]).0 != id,
    ensures
        seq_del(s, id) == s.remove(i),
    decreases i,
{
    if i == 0 {
        assert(seq_del(s, id) =~= s.remove(0));
    } else {
        assert(s.skip(1)[i - 1].0 == id);
        assert(forall|j: int| 0 <= j < i - 1 ==> (#[trigger] s.skip(1)[j]).0 != id);
        lemma_seq_del_at(s.skip(1), id, i - 1);
        assert(seq_del(s, id) =~= s.remove(i));
    }
}

/// Nothing changes when `seq_del` finds no matching pair.
proof fn lemma_seq_del_absent(s: Seq<(u32, ChannelStateV)>, id: u32)
    requires
        forall|j: int| 0 <= j < s.len() ==> (#[trigger] s[j]).0 != id,
    ensures
        seq_del(s, id) == s,
    decreases s.len(),
{
    if s.len() > 0 {
        assert(forall|j: int| 0 <= j < s.skip(1).len() ==> (#[trigger] s.skip(1)[j]).0 != id);
        lemma_seq_del_absent(s.skip(1), id);
        assert(seq_del(s, id) =~= s);
    }
}

/// The state stored under an absent id is nothing.
proof fn lemma_seq_get_absent(s: Seq<(u32, ChannelStateV)>, id: u32)
    requires
        forall|j: int| 0 <= j < s.len() ==> (#[trigger] s[j]).0 != id,
    ensures
        seq_get(s, id) is None,
    decreases s.len(),
{
    if s.len() > 0 {
        assert(forall|j: int| 0 <= j < s.skip(1).len() ==> (#[trigger] s.skip(1)[j]).0 != id);
        lemma_seq_get_absent(s.skip(1), id);
    }
}

/// The state stored under an id is the one at its first occurrence.
proof fn lemma_seq_get_at(s: Seq<(u32, ChannelStateV)>, id: u32, i: int)
    requires
        0 <= i < s.len(),
        s[i].0 == id,
        forall|j: int| 0 <= j < i ==> (#[trigger] s[j]).0 != id,
    ensures
        seq_get(s, id) == Some(s[i].1),
    decreases i,
{
    if i > 0 {
        assert(s.skip(1)[i - 1].0 == id);
        assert(forall|j: int| 0 <= j < i - 1 ==> (#[trigger] s.skip(1)[j]).0 != id);
        lemma_seq_get_at(s.skip(1), id, i - 1);
    }
}

// --- The cache itself ----------------------------------------------------

/// How one mapping's binding changes when the channel called `name` is now
/// channel `id`: a mapping with that name binds to `id`, a mapping previously
/// bound to `id` under another name comes unbound, the rest stay.
pub open spec fn rebind_mapping(mp: BusMappingV, name: Option<Seq<char>>, id: u32) -> BusMappingV {
    if name matches Some(n) && n == mp.channel_name {
        BusMappingV { channel_id: Some(id), ..mp }
    } else if mp.channel_id == Some(id) {
        BusMappingV { channel_id: None, ..mp }
    } else {
        mp
    }
}

/// A mapping's binding after channel `id` is removed: bound to it, it comes
/// unbound; otherwise it stays.
pub open spec fn unbind_mapping(mp: BusMappingV, id: u32) -> BusMappingV {
    if mp.channel_id == Some(id) {
        BusMappingV { channel_id: None, ..mp }
    } else {
        mp
    }
}

/// The spec-level contents of the cache.
pub struct StateCacheV {
    pub channels: Seq<(u32, ChannelStateV)>,
    pub users: Map<u32, UserStateV>,
    pub mappings: Seq<BusMappingV>,
    pub actor_id: Option<u32>,
    pub nickname: Seq<char>,
}

/// What applying a ChannelState update does to the cache: merge into the
/// prior state under the update's channel id (id 0 when unset), store the
/// result, and rebind the name-to-bus mappings to follow the merged name.
pub open spec fn spec_apply_channel_state(v: StateCacheV, new: ChannelStateV) -> StateCacheV {
    let id = match new.channel_id {
        Some(i) => i,
        None => 0u32,
    };
    let merged = match seq_get(v.channels, id) {
        Some(prior) => spec_merge_channel(prior, new),
        None => new,
    };
    StateCacheV {
        channels: seq_put(v.channels, id, merged),
        mappings: v.mappings.map_values(|mp: BusMappingV| rebind_mapping(mp, merged.name, id)),
        ..v
    }
}

/// What removing a channel does to the cache: the id index drops it and any
/// mapping bound to it comes unbound; the mapping itself stays configured.
pub open spec fn spec_apply_channel_remove(v: StateCacheV, id: u32) -> StateCacheV {
    StateCacheV {
        channels: seq_del(v.channels, id),
        mappings: v.mappings.map_values(|mp: BusMappingV| unbind_mapping(mp, id)),
        ..v
    }
}

/// What applying a UserState update does to the cache: merge into the prior
/// state under the update's session (0 when unset) and store the result; if
/// the merged name equals the configured nickname, that session is the
/// client's own and becomes the actor id.
pub open spec fn spec_apply_user_state(v: StateCacheV, new: UserStateV) -> StateCacheV {
    let session = match new.session {
        Some(s) => s,
        None => 0u32,
    };
    let merged = if v.users.contains_key(session) {
        spec_merge_user(v.users[session], new)
    } else {
        new
    };
    StateCacheV {
        users: v.users.insert(session, merged),
        actor_id: if merged.name matches Some(n) && n == v.nickname {
            Some(session)
        } else {
            v.actor_id
        },
        ..v
    }
}

/// What removing a user does to the cache: the session index drops it, and
/// the actor id is cleared when it was that session.
pub open spec fn spec_apply_user_remove(v: StateCacheV, session: u32) -> StateCacheV {
    StateCacheV {
        users: v.users.remove(session),
        actor_id: if v.actor_id == Some(session) {
            None
        } else {
            v.actor_id
        },
        ..v
    }
}

/// The bus index of the first mapping currently bound to channel `id`.
pub open spec fn spec_bus_for_channel_id(s: Seq<BusMappingV>, id: u32) -> Option<usize>
    decreases s.len(),
{
    if s.len() == 0 {
        None
    } else if s[0].channel_id == Some(id) {
        Some(s[0].bus)
    } else {
        spec_bus_for_channel_id(s.skip(1), id)
    }
}

/// The channel id bound to the first mapping whose channel name is `name`.
pub open spec fn spec_channel_id_for_name(s: Seq<BusMappingV>, name: Seq<char>) -> Option<u32>
    decreases s.len(),
{
    if s.len() == 0 {
        None
    } else if s[0].channel_name == name {
        s[0].channel_id
    } else {
        spec_channel_id_for_name(s.skip(1), name)
    }
}

/// The client-side state cache of one connection.
pub struct StateCache {
    channels: Vec<(u32, ChannelState)>,
    users: HashMap<u32, UserState>,
    mappings: Vec<BusMapping>,
    actor_id: Option<u32>,
    nickname: String,
}

impl View for StateCache {
    type V = StateCacheV;

    closed spec fn view(&self) -> StateCacheV {
        StateCacheV {
            channels: channels_view(self.channels@),
            users: users_view(self.users@),
            mappings: mappings_view(self.mappings@),
            actor_id: self.actor_id,
            nickname: self.nickname@,
        }
    }
}

/// A cache holding no server state at all: no channels, no users, no actor
/// id, every mapping unbound.
pub open spec fn cache_is_empty(v: StateCacheV) -> bool {
    &&& v.channels == Seq::<(u32, ChannelStateV)>::empty()
    &&& v.users == Map::<u32, UserStateV>::empty()
    &&& v.actor_id is None
    &&& forall|i: int| 0 <= i < v.mappings.len() ==> (#[trigger] v.mappings[i]).channel_id is None
}

impl StateCache {
    /// A fresh cache for one connection: the configured nickname and
    /// name-to-bus pairs, no server state yet.
    pub fn new(nickname: String, channel_buses: Vec<(String, usize)>) -> (r: StateCache)
        ensures
            cache_is_empty(r@),
            r@.nickname == nickname@,
            r@.mappings.len() == channel_buses@.len(),
            forall|i: int|
                0 <= i < channel_buses@.len() ==> (#[trigger] r@.mappings[i]).channel_name
                    == channel_buses@[i].0@ && r@.mappings[i].bus == channel_buses@[i].1,
    {
        let mut mappings: Vec<BusMapping> = Vec::new();
        let mut remaining = channel_buses;
        let ghost pairs = remaining@;
        proof {
            assert(pairs.skip(0) =~= pairs);
        }
        while remaining.len() > 0
            invariant
                remaining@ =~= pairs.skip(mappings@.len() as int),
                mappings@.len() <= pairs.len(),
                forall|j: int|
                    0 <= j < mappings@.len() ==> (#[trigger] mappings@[j]).channel_name
                        == pairs[j].0 && mappings@[j].bus == pairs[j].1
                        && mappings@[j].channel_id is None,
            decreases remaining@.len(),
        {
            let ghost k = mappings@.len() as int;
            proof {
                assert(pairs.skip(k)[0] == pairs[k]);
                assert(pairs.skip(k).remove(0) =~= pairs.skip(k + 1));
            }
            let (name, bus) = remaining.remove(0);
            mappings.push(BusMapping { channel_name: name, bus, channel_id: None });
        }
        proof {
            assert(mappings@.len() == pairs.len());
            assert(channels_view(Seq::<(u32, ChannelState)>::empty()) =~= Seq::<
                (u32, ChannelStateV),
            >::empty());
            assert(users_view(Map::<u32, UserState>::empty()) =~= Map::<u32, UserStateV>::empty());
        }
        StateCache {
            channels: Vec::new(),
            users: HashMap::new(),
            mappings,
            actor_id: None,
            nickname,
        }
    }

    /// Forget every piece of server state while keeping the configuration:
    /// what a reconnect does before the server re-announces everything.
    pub fn reset(&mut self)
        ensures
            cache_is_empty(final(self)@),
            final(self)@.nickname == old(self)@.nickname,
            final(self)@.mappings.len() == old(self)@.mappings.len(),
            forall|i: int|
                0 <= i < old(self)@.mappings.len() ==> {
                    let mp = #[trigger] final(self)@.mappings[i];
                    mp.channel_name == old(self)@.mappings[i].channel_name && mp.bus == old(
                        self,
                    )@.mappings[i].bus
                },
    {
        self.channels.clear();
        self.users.clear();
        self.actor_id = None;
        let ghost before = mappings_view(self.mappings@);
        let mut i: usize = 0;
        let len = self.mappings.len();
        while i < len
            invariant
                i <= len,
                len == self.mappings@.len(),
                before == mappings_view(old(self).mappings@),
                mappings_view(self.mappings@).len() == before.len(),
                forall|j: int|
                    0 <= j < i ==> ((#[trigger] mappings_view(self.mappings@)[j]).channel_name
                        == before[j].channel_name && mappings_view(self.mappings@)[j].bus
                        == before[j].bus && mappings_view(self.mappings@)[j].channel_id is None),
                forall|j: int|
                    i <= j < len ==> #[trigger] mappings_view(self.mappings@)[j] == before[j],
                self.channels@.len() == 0,
                self.users@ == Map::<u32, UserState>::empty(),
                self.actor_id is None,
                self.nickname == old(self).nickname,
            decreases len - i,
        {
            let ghost prev = self.mappings@;
            let prior = self.mappings.remove(i);
            self.mappings.insert(
                i,
                BusMapping { channel_name: prior.channel_name, bus: prior.bus, channel_id: None },
            );
            proof {
                assert(self.mappings@ =~= prev.update(
                    i as int,
                    BusMapping {
                        channel_name: prev[i as int].channel_name,
                        bus: prev[i as int].bus,
                        channel_id: None,
                    },
                ));
                assert forall|j: int| 0 <= j < i + 1 implies ((#[trigger] mappings_view(
                    self.mappings@,
                )[j]).channel_name == before[j].channel_name && mappings_view(self.mappings@)[j].bus
                    == before[j].bus && mappings_view(self.mappings@)[j].channel_id is None) by {
                    lemma_mappings_view_index(self.mappings@, j);
                    lemma_mappings_view_index(prev, j);
                    assert(mappings_view(prev)[j] == prev[j]@);
                }
                assert forall|j: int| i + 1 <= j < len implies #[trigger] mappings_view(
                    self.mappings@,
                )[j] == before[j] by {
                    lemma_mappings_view_index(self.mappings@, j);
                    lemma_mappings_view_index(prev, j);
                    assert(mappings_view(prev)[j] == prev[j]@);
                }
            }
            i = i + 1;
        }
        proof {
            assert(channels_view(self.channels@) =~= Seq::<(u32, ChannelStateV)>::empty());
            assert(users_view(self.users@) =~= Map::<u32, UserStateV>::empty());
        }
    }

    pub fn actor_id(&self) -> (r: Option<u32>)
        ensures
            r == self@.actor_id,
    {
        self.actor_id
    }

    pub fn nickname(&self) -> (r: &String)
        ensures
            r@ == self@.nickname,
    {
        &self.nickname
    }

    /// How many name-to-bus mappings are configured.
    pub fn mapping_count(&self) -> (r: usize)
        ensures
            r == self@.mappings.len(),
    {
        self.mappings.len()
    }

    /// The configured channel name and bus of one mapping.
    pub fn mapping_at(&self, i: usize) -> (r: (&String, usize))
        requires
            i < self@.mappings.len(),
        ensures
            r.0@ == self@.mappings[i as int].channel_name,
            r.1 == self@.mappings[i as int].bus,
    {
        (&self.mappings[i].channel_name, self.mappings[i].bus)
    }

    /// Apply one ChannelState update (partial-merge semantics).
    pub fn merge_channel(&mut self, new: ChannelState)
        ensures
            final(self)@ == spec_apply_channel_state(old(self)@, new@),
    {
        let id = match new.channel_id {
            Some(i) => i,
            None => 0,
        };
        let ghost chans = channels_view(self.channels@);
        // Find the first pair stored under this id.
        let mut found: Option<usize> = None;
        let mut i: usize = 0;
        while i < self.channels.len() && found.is_none()
            invariant
                i <= chans.len(),
                chans == channels_view(self.channels@),
                chans.len() == self.channels@.len(),
                forall|j: int|
                    0 <= j < chans.len() ==> (#[trigger] chans[j]).0 == self.channels@[j].0,
                match found {
                    Some(k) => k < chans.len() && chans[k as int].0 == id && i == k + 1 && (
                    forall|j: int| 0 <= j < k ==> (#[trigger] chans[j]).0 != id),
                    None => forall|j: int| 0 <= j < i ==> (#[trigger] chans[j]).0 != id,
                },
            decreases chans.len() - i,
        {
            if self.channels[i].0 == id {
                found = Some(i);
            }
            i = i + 1;
        }
        let merged = match found {
            Some(k) => {
                proof {
                    lemma_seq_get_at(chans, id, k as int);
                    assert(chans[k as int].1 == self.channels@[k as int].1@);
                }
                merge_channel_states(&self.channels[k].1, new)
            },
            None => {
                proof {
                    lemma_seq_get_absent(chans, id);
                }
                new
            },
        };
        let ghost merged_name = merged@.name;
        let name_for_bind = match merged.name {
            Some(ref s) => Some(s.clone()),
            None => None,
        };
        match found {
            Some(k) => {
                proof {
                    lemma_seq_put_at(chans, id, merged@, k as int);
                }
                self.channels.remove(k);
                self.channels.insert(k, (id, merged));
                proof {
                    assert(channels_view(self.channels@) =~= chans.update(
                        k as int,
                        (id, self.channels@[k as int].1@),
                    ));
                }
            },
            None => {
                proof {
                    lemma_seq_put_absent(chans, id, merged@);
                }
                self.channels.push((id, merged));
                proof {
                    assert(channels_view(self.channels@) =~= chans.push(
                        (id, self.channels@[self.channels@.len() - 1].1@),
                    ));
                }
            },
        }
        self.rebind_mappings(name_for_bind, id);
        proof {
            assert(self@.mappings =~= old(self)@.mappings.map_values(
                |mp: BusMappingV| rebind_mapping(mp, merged_name, id),
            ));
        }
    }

    fn rebind_mappings(&mut self, name: Option<String>, id: u32)
        ensures
            final(self)@.mappings.len() == old(self)@.mappings.len(),
            forall|j: int|
                0 <= j < old(self)@.mappings.len() ==> #[trigger] final(self)@.mappings[j]
                    == rebind_mapping(
                    old(self)@.mappings[j],
                    match name {
                        Some(ref s) => Some(s@),
                        None => None,
                    },
                    id,
                ),
            final(self)@.channels == old(self)@.channels,
            final(self)@.users == old(self)@.users,
            final(self)@.actor_id == old(self)@.actor_id,
            final(self)@.nickname == old(self)@.nickname,
    {
        let mut i: usize = 0;
        let len = self.mappings.len();
        while i < len
            invariant
                i <= len,
                len == self.mappings@.len(),
                self.mappings@.len() == old(self).mappings@.len(),
                forall|j: int|
                    0 <= j < i ==> #[trigger] mappings_view(self.mappings@)[j] == rebind_mapping(
                        mappings_view(old(self).mappings@)[j],
                        match name {
                            Some(ref s) => Some(s@),
                            None => None,
                        },
                        id,
                    ),
                forall|j: int|
                    i <= j < len ==> #[trigger] self.mappings@[j] == old(self).mappings@[j],
                self.channels@ == old(self).channels@,
                self.users@ == old(self).users@,
                self.actor_id == old(self).actor_id,
                self.nickname == old(self).nickname,
            decreases len - i,
        {
            let ghost prev = self.mappings@;
            let matches_name = match name {
                Some(ref n) => self.mappings[i].channel_name == *n,
                None => false,
            };
            if matches_name {
                let prior = self.mappings.remove(i);
                self.mappings.insert(
                    i,
                    BusMapping {
                        channel_name: prior.channel_name,
                        bus: prior.bus,
                        channel_id: Some(id),
                    },
                );
                proof {
                    assert(self.mappings@ =~= prev.update(
                        i as int,
                        BusMapping {
                            channel_name: prev[i as int].channel_name,
                            bus: prev[i as int].bus,
                            channel_id: Some(id),
                        },
                    ));
                }
            } else {
                let bound_here = match self.mappings[i].channel_id {
                    Some(b) => b == id,
                    None => false,
                };
                if bound_here {
                    let prior = self.mappings.remove(i);
                    self.mappings.insert(
                        i,
                        BusMapping {
                            channel_name: prior.channel_name,
                            bus: prior.bus,
                            channel_id: None,
                        },
                    );
                    proof {
                        assert(self.mappings@ =~= prev.update(
                            i as int,
                            BusMapping {
                                channel_name: prev[i as int].channel_name,
                                bus: prev[i as int].bus,
                                channel_id: None,
                            },
                        ));
                    }
                }
            }
            proof {
                assert forall|j: int| 0 <= j < i + 1 implies #[trigger] mappings_view(
                    self.mappings@,
                )[j] == rebind_mapping(
                    mappings_view(old(self).mappings@)[j],
                    match name {
                        Some(ref s) => Some(s@),
                        None => None,
                    },
                    id,
                ) by {
                    lemma_mappings_view_index(self.mappings@, j);
                    lemma_mappings_view_index(prev, j);
                    lemma_mappings_view_index(old(self).mappings@, j);
                    assert(mappings_view(prev)[j] == prev[j]@);
                }
                assert forall|j: int| i + 1 <= j < len implies #[trigger] self.mappings@[j] == old(
                    self,
                ).mappings@[j] by {
                    assert(self.mappings@[j] == prev[j]);
                }
            }
            i = i + 1;
        }
    }

    /// Apply one ChannelRemove: drop the channel and unbind its mapping.
    pub fn remove_channel(&mut self, id: u32)
        ensures
            final(self)@ == spec_apply_channel_remove(old(self)@, id),
    {
        let ghost chans = channels_view(self.channels@);
        let mut found: Option<usize> = None;
        let mut i: usize = 0;
        while i < self.channels.len() && found.is_none()
            invariant
                i <= chans.len(),
                chans == channels_view(self.channels@),
                chans.len() == self.channels@.len(),
                forall|j: int|
                    0 <= j < chans.len() ==> (#[trigger] chans[j]).0 == self.channels@[j].0,
                match found {
                    Some(k) => k < chans.len() && chans[k as int].0 == id && i == k + 1 && (
                    forall|j: int| 0 <= j < k ==> (#[trigger] chans[j]).0 != id),
                    None => forall|j: int| 0 <= j < i ==> (#[trigger] chans[j]).0 != id,
                },
            decreases chans.len() - i,
        {
            if self.channels[i].0 == id {
                found = Some(i);
            }
            i = i + 1;
        }
        match found {
            Some(k) => {
                proof {
                    lemma_seq_del_at(chans, id, k as int);
                }
                self.channels.remove(k);
                proof {
                    assert(channels_view(self.channels@) =~= chans.remove(k as int));
                }
            },
            None => {
                proof {
                    lemma_seq_del_absent(chans, id);
                }
            },
        }
        let ghost before = mappings_view(self.mappings@);
        let mut i: usize = 0;
        let len = self.mappings.len();
        while i < len
            invariant
                i <= len,
                len == self.mappings@.len(),
                before == mappings_view(old(self).mappings@),
                mappings_view(self.mappings@).len() == before.len(),
                forall|j: int|
                    0 <= j < i ==> #[trigger] mappings_view(self.mappings@)[j] == unbind_mapping(
                        before[j],
                        id,
                    ),
                forall|j: int|
                    i <= j < len ==> #[trigger] mappings_view(self.mappings@)[j] == before[j],
                channels_view(self.channels@) == seq_del(chans, id),
                self.users@ == old(self).users@,
                self.actor_id == old(self).actor_id,
                self.nickname == old(self).nickname,
            decreases len - i,
        {
            let ghost prev = self.mappings@;
            let bound_here = match self.mappings[i].channel_id {
                Some(b) => b == id,
                None => false,
            };
            if bound_here {
                let prior = self.mappings.remove(i);
                self.mappings.insert(
                    i,
                    BusMapping {
                        channel_name: prior.channel_name,
                        bus: prior.bus,
                        channel_id: None,
                    },
                );
                proof {
                    assert(self.mappings@ =~= prev.update(
                        i as int,
                        BusMapping {
                            channel_name: prev[i as int].channel_name,
                            bus: prev[i as int].bus,
                            channel_id: None,
                        },
                    ));
                }
            }
            proof {
                assert forall|j: int| 0 <= j < i + 1 implies #[trigger] mappings_view(
                    self.mappings@,
                )[j] == unbind_mapping(before[j], id) by {
                    lemma_mappings_view_index(self.mappings@, j);
                    lemma_mappings_view_index(prev, j);
                    lemma_mappings_view_index(old(self).mappings@, j);
                    assert(mappings_view(prev)[j] == prev[j]@);
                }
                assert forall|j: int| i + 1 <= j < len implies #[trigger] mappings_view(
                    self.mappings@,
                )[j] == before[j] by {
                    lemma_mappings_view_index(self.mappings@, j);
                    lemma_mappings_view_index(prev, j);
                    assert(mappings_view(prev)[j] == prev[j]@);
                }
            }
            i = i + 1;
        }
        proof {
            assert(self@.mappings =~= old(self)@.mappings.map_values(
                |mp: BusMappingV| unbind_mapping(mp, id),
            ));
        }
    }

    /// Apply one UserState update (partial-merge semantics); a merged name
    /// equal to the configured nickname marks that session as the client's
    /// own.
    pub fn merge_user(&mut self, new: UserState)
        ensures
            final(self)@ == spec_apply_user_state(old(self)@, new@),
    {
        let session = match new.session {
            Some(s) => s,
            None => 0,
        };
        let ghost before = users_view(self.users@);
        let merged = match self.users.remove(&session) {
            Some(prior) => {
                proof {
                    assert(before.contains_key(session));
                    assert(before[session] == old(self).users@[session]@);
                }
                merge_user_states(prior, new)
            },
            None => {
                proof {
                    assert(!before.contains_key(session));
                }
                new
            },
        };
        let is_self = match merged.name {
            Some(ref n) => *n == self.nickname,
            None => false,
        };
        let ghost merged_v = merged@;
        self.users.insert(session, merged);
        proof {
            assert(users_view(self.users@) =~= before.insert(session, merged_v));
        }
        if is_self {
            self.actor_id = Some(session);
        }
    }

    /// Apply one UserRemove; removing the client's own session clears the
    /// actor id until the server announces it again.
    pub fn remove_user(&mut self, session: u32)
        ensures
            final(self)@ == spec_apply_user_remove(old(self)@, session),
    {
        self.users.remove(&session);
        proof {
            assert(users_view(self.users@) =~= users_view(old(self).users@).remove(session));
        }
        let was_actor = match self.actor_id {
            Some(a) => a == session,
            None => false,
        };
        if was_actor {
            self.actor_id = None;
        }
    }

    /// The bus mapped to channel `id`, when a mapping is bound to it.
    pub fn bus_for_channel_id(&self, id: u32) -> (r: Option<usize>)
        ensures
            r == spec_bus_for_channel_id(self@.mappings, id),
    {
        let ghost all = self@.mappings;
        let mut i: usize = 0;
        proof {
            assert(all.skip(0) =~= all);
        }
        while i < self.mappings.len()
            invariant
                i <= all.len(),
                all == self@.mappings,
                all.len() == self.mappings@.len(),
                forall|j: int| 0 <= j < all.len() ==> #[trigger] all[j] == self.mappings@[j]@,
                spec_bus_for_channel_id(all, id) == spec_bus_for_channel_id(
                    all.skip(i as int),
                    id,
                ),
            decreases all.len() - i,
        {
            proof {
                assert(all.skip(i as int)[0] == all[i as int]);
                assert(all.skip(i as int).skip(1) =~= all.skip(i + 1));
            }
            let bound_here = match self.mappings[i].channel_id {
                Some(b) => b == id,
                None => false,
            };
            if bound_here {
                return Some(self.mappings[i].bus);
            }
            i = i + 1;
        }
        proof {
            assert(all.skip(i as int) =~= Seq::<BusMappingV>::empty());
        }
        None
    }

    /// The channel id currently bound to the mapping named `name`: `None`
    /// when no mapping has that name or the binding is unresolved.
    pub fn channel_id_for_bus_name(&self, name: &String) -> (r: Option<u32>)
        ensures
            r == spec_channel_id_for_name(self@.mappings, name@),
    {
        let ghost all = self@.mappings;
        let mut i: usize = 0;
        proof {
            assert(all.skip(0) =~= all);
        }
        while i < self.mappings.len()
            invariant
                i <= all.len(),
                all == self@.mappings,
                all.len() == self.mappings@.len(),
                forall|j: int| 0 <= j < all.len() ==> #[trigger] all[j] == self.mappings@[j]@,
                spec_channel_id_for_name(all, name@) == spec_channel_id_for_name(
                    all.skip(i as int),
                    name@,
                ),
            decreases all.len() - i,
        {
            proof {
                assert(all.skip(i as int)[0] == all[i as int]);
                assert(all.skip(i as int).skip(1) =~= all.skip(i + 1));
            }
            if self.mappings[i].channel_name == *name {
                return self.mappings[i].channel_id;
            }
            i = i + 1;
        }
        proof {
            assert(all.skip(i as int) =~= Seq::<BusMappingV>::empty());
        }
        None
    }

    /// The state cached for channel `id`, if any.
    pub fn channel_state(&self, id: u32) -> (r: Option<&ChannelState>)
        ensures
            match r {
                Some(c) => seq_get(self@.channels, id) == Some(c@),
                None => seq_get(self@.channels, id) is None,
            },
    {
        let ghost chans = self@.channels;
        let mut i: usize = 0;
        proof {
            assert(chans.skip(0) =~= chans);
        }
        while i < self.channels.len()
            invariant
                i <= chans.len(),
                chans == self@.channels,
                chans.len() == self.channels@.len(),
                forall|j: int|
                    0 <= j < chans.len() ==> #[trigger] chans[j] == (
                        self.channels@[j].0,
                        self.channels@[j].1@,
                    ),
                seq_get(chans, id) == seq_get(chans.skip(i as int), id),
            decreases chans.len() - i,
        {
            proof {
                assert(chans.skip(i as int)[0] == chans[i as int]);
                assert(chans.skip(i as int).skip(1) =~= chans.skip(i + 1));
            }
            if self.channels[i].0 == id {
                return Some(&self.channels[i].1);
            }
            i = i + 1;
        }
        proof {
            assert(chans.skip(i as int) =~= Seq::<(u32, ChannelStateV)>::empty());
        }
        None
    }

    /// The display name of the user at `session`, when one is cached.
    pub fn username_for_session(&self, session: u32) -> (r: Option<String>)
        ensures
            match r {
                Some(s) => self@.users.contains_key(session) && (self@.users[session].name
                    matches Some(n) && s@ == n),
                None => !self@.users.contains_key(session) || self@.users[session].name is None,
            },
    {
        match self.users.get(&session) {
            Some(user) => {
                proof {
                    assert(users_view(self.users@).contains_key(session));
                    assert(users_view(self.users@)[session] == self.users@[session]@);
                }
                match user.name {
                    Some(ref n) => Some(n.clone()),
                    None => None,
                }
            },
            None => {
                proof {
                    assert(!users_view(self.users@).contains_key(session));
                }
                None
            },
        }
    }

    /// The ids of every channel currently cached, in arrival order.
    pub fn channel_id_list(&self) -> (r: Vec<u32>)
        ensures
            r@ == self@.channels.map_values(|p: (u32, ChannelStateV)| p.0),
    {
        let ghost chans = self@.channels;
        let ghost ids = chans.map_values(|p: (u32, ChannelStateV)| p.0);
        let mut out: Vec<u32> = Vec::new();
        let mut i: usize = 0;
        while i < self.channels.len()
            invariant
                i <= chans.len(),
                chans == self@.channels,
                chans.len() == self.channels@.len(),
                forall|j: int|
                    0 <= j < chans.len() ==> (#[trigger] chans[j]).0 == self.channels@[j].0,
                ids == chans.map_values(|p: (u32, ChannelStateV)| p.0),
                ids.len() == chans.len(),
                out@ == ids.take(i as int),
            decreases chans.len() - i,
        {
            out.push(self.channels[i].0);
            proof {
                assert(ids[i as int] == chans[i as int].0);
                assert(out@ =~= ids.take(i + 1));
            }
            i = i + 1;
        }
        proof {
            assert(out@ =~= ids);
        }
        out
    }
}

/// A UserState whose name is the configured nickname sets the actor id to its
/// session, and removing that session clears it again.
pub proof fn lemma_self_session_detection(v: StateCacheV, new: UserStateV, session: u32)
    requires
        new.session == Some(session),
        new.name matches Some(n) && n == v.nickname,
    ensures
        spec_apply_user_state(v, new).actor_id == Some(session),
        spec_apply_user_remove(spec_apply_user_state(v, new), session).actor_id is None,
{
    let merged = if v.users.contains_key(session) {
        spec_merge_user(v.users[session], new)
    } else {
        new
    };
    assert(merged.name == new.name);
}

/// Applying the same ChannelState update twice leaves the same cache as
/// applying it once.
pub proof fn lemma_channel_apply_idempotent(v: StateCacheV, new: ChannelStateV)
    ensures
        spec_apply_channel_state(spec_apply_channel_state(v, new), new) == spec_apply_channel_state(
            v,
            new,
        ),
{
    let id = match new.channel_id {
        Some(i) => i,
        None => 0u32,
    };
    let merged1 = match seq_get(v.channels, id) {
        Some(prior) => spec_merge_channel(prior, new),
        None => new,
    };
    match seq_get(v.channels, id) {
        Some(prior) => lemma_channel_merge_idempotent(prior, new),
        None => lemma_channel_merge_idempotent(new, new),
    }
    let once = spec_apply_channel_state(v, new);
    lemma_seq_put_get(v.channels, id, merged1);
    assert(spec_merge_channel(merged1, new) == merged1);
    lemma_seq_put_idempotent(v.channels, id, merged1);
    let twice = spec_apply_channel_state(once, new);
    assert(twice.channels == once.channels);
    assert(twice.mappings =~= once.mappings) by {
        assert forall|j: int| 0 <= j < once.mappings.len() implies twice.mappings[j]
            == once.mappings[j] by {
            let mp = v.mappings[j];
            assert(once.mappings[j] == rebind_mapping(mp, merged1.name, id));
            assert(twice.mappings[j] == rebind_mapping(
                rebind_mapping(mp, merged1.name, id),
                merged1.name,
                id,
            ));
        }
    }
}

/// Applying the same UserState update twice leaves the same cache as applying
/// it once.
pub proof fn lemma_user_apply_idempotent(v: StateCacheV, new: UserStateV)
    ensures
        spec_apply_user_state(spec_apply_user_state(v, new), new) == spec_apply_user_state(v, new),
{
    let session = match new.session {
        Some(s) => s,
        None => 0u32,
    };
    let merged1 = if v.users.contains_key(session) {
        spec_merge_user(v.users[session], new)
    } else {
        new
    };
    if v.users.contains_key(session) {
        lemma_user_merge_idempotent(v.users[session], new);
    } else {
        lemma_user_merge_idempotent(new, new);
    }
    let once = spec_apply_user_state(v, new);
    assert(spec_merge_user(merged1, new) == merged1);
    assert(once.users.insert(session, merged1) =~= once.users);
}

} // verus!
