//! The in-process state hub: who is online, who sits in which voice
//! channel, who is banned or muted, and each user's message budget.
//!
//! A user sits in at most one voice channel at a time, and a channel with
//! no member has no entry.

use vstd::prelude::*;
use dashmap::{DashMap, DashSet};
use crate::ids::{Id, Timestamp};
use crate::models::{copy_opt_string, Ban, Mute, RateLimitState, UserPresence, VoiceState};
use crate::tables::{
    bucket_entries, bucket_get, bucket_insert, bucket_new, id_set_contains, id_set_ids,
    id_set_insert, id_set_members, id_set_new, id_set_remove, id_set_retain, presence_entries, presence_get,
    presence_ids, presence_insert, presence_new, presence_remove, voice_channels,
    voice_drop_if_empty, voice_entries, voice_get, voice_insert, voice_new, voice_remove,
    voice_users, voice_with, voice_without,
};

verus! {

/// One token, in billionths.
pub const TOKEN: u64 = 1_000_000_000;

/// The capacity of a message bucket: five tokens.
pub const MESSAGE_RATE_LIMIT: u64 = 5_000_000_000;

/// Billionths of a token refilled per nanosecond: one token per second.
pub const MESSAGE_RATE_REFILL_PER_NANO: u64 = 1;

/// The voice table as a map: per channel, the members by user.
pub type VoiceMap = Map<Id, Map<Id, VoiceState>>;

/// Whether `user` is a member of `channel`.
pub open spec fn in_channel(v: VoiceMap, channel: Id, user: Id) -> bool {
    v.contains_key(channel) && v[channel].contains_key(user)
}

/// Whether a channel's table has a member other than `user`.
pub open spec fn has_other_member(members: Map<Id, VoiceState>, user: Id) -> bool {
    exists|w: Id| w != user && #[trigger] members.contains_key(w)
}

/// The invariant of the voice table: states are filed under their own user
/// and channel, nobody is in two channels, and no channel is empty.
pub open spec fn voice_wf(v: VoiceMap) -> bool {
    &&& forall|c: Id, u: Id| #[trigger]
        in_channel(v, c, u) ==> v[c][u].user_id == u && v[c][u].channel_id == c
    &&& forall|c1: Id, c2: Id, u: Id| #[trigger]
        in_channel(v, c1, u) && #[trigger] in_channel(v, c2, u) ==> c1 == c2
    &&& forall|c: Id| #[trigger]
        v.contains_key(c) ==> exists|u: Id| #[trigger] v[c].contains_key(u)
}

/// The voice table with `user` taken out of every channel, and channels
/// left empty dropped.
pub open spec fn without_user(v: VoiceMap, user: Id) -> VoiceMap {
    Map::new(
        |c: Id| v.contains_key(c) && has_other_member(v[c], user),
        |c: Id| v[c].remove(user),
    )
}

/// The channel `user` sits in, if any.
pub open spec fn channel_of(v: VoiceMap, user: Id) -> Option<Id> {
    if exists|c: Id| in_channel(v, c, user) {
        Some(choose|c: Id| in_channel(v, c, user))
    } else {
        None
    }
}

/// The voice table with `user` taken out of the channels in `done`, and
/// those of them left empty dropped.
pub open spec fn purged(v: VoiceMap, user: Id, done: Set<Id>) -> VoiceMap {
    Map::new(
        |c: Id| v.contains_key(c) && (done.contains(c) ==> has_other_member(v[c], user)),
        |c: Id|
            if done.contains(c) {
                v[c].remove(user)
            } else {
                v[c]
            },
    )
}

/// A voice state with the submitted flags applied.
pub open spec fn with_flags(state: VoiceState, is_muted: Option<bool>, is_deafened: Option<bool>) -> VoiceState {
    VoiceState {
        is_muted: match is_muted {
            Some(m) => m,
            None => state.is_muted,
        },
        is_deafened: match is_deafened {
            Some(d) => d,
            None => state.is_deafened,
        },
        ..state
    }
}

/// Whether `after` is `before` under the name `username`, and otherwise
/// unchanged.
pub open spec fn renamed(before: VoiceState, after: VoiceState, username: Seq<char>) -> bool {
    &&& after.username@ == username
    &&& after.user_id == before.user_id
    &&& after.avatar_url == before.avatar_url
    &&& after.channel_id == before.channel_id
    &&& after.session_id == before.session_id
    &&& after.is_muted == before.is_muted
    &&& after.is_deafened == before.is_deafened
    &&& after.is_screen_sharing == before.is_screen_sharing
    &&& after.is_camera_sharing == before.is_camera_sharing
    &&& after.joined_at == before.joined_at
}

/// The channels a departing user leaves: the one they sat in, if any.
pub open spec fn departures(v: VoiceMap, user: Id) -> Seq<Id> {
    match channel_of(v, user) {
        Some(c) => seq![c],
        None => Seq::empty(),
    }
}

/// Taking a user out of every channel keeps the table well formed and
/// leaves the user in no channel.
pub proof fn without_user_is_wf(v: VoiceMap, user: Id)
    requires
        voice_wf(v),
    ensures
        voice_wf(without_user(v, user)),
        forall|c: Id| !in_channel(without_user(v, user), c, user),
        channel_of(without_user(v, user), user) is None,
{
    let w = without_user(v, user);
    assert forall|c: Id, u: Id| #[trigger] in_channel(w, c, u) implies w[c][u].user_id == u
        && w[c][u].channel_id == c by {
        assert(in_channel(v, c, u));
    }
    assert forall|c1: Id, c2: Id, u: Id| #[trigger]
        in_channel(w, c1, u) && #[trigger] in_channel(w, c2, u) implies c1 == c2 by {
        assert(in_channel(v, c1, u));
        assert(in_channel(v, c2, u));
    }
    assert forall|c: Id| #[trigger] w.contains_key(c) implies exists|u: Id| #[trigger]
        w[c].contains_key(u) by {
        let o = choose|o: Id| o != user && #[trigger] v[c].contains_key(o);
        assert(w[c].contains_key(o));
    }
}

/// Storing a state for a user who sits in no channel keeps the table well
/// formed, provided the state is filed under its own user and channel.
pub proof fn voice_with_is_wf(v: VoiceMap, channel: Id, user: Id, state: VoiceState)
    requires
        voice_wf(v),
        forall|c: Id| c != channel ==> !in_channel(v, c, user),
        state.user_id == user,
        state.channel_id == channel,
    ensures
        voice_wf(voice_with(v, channel, user, state)),
        in_channel(voice_with(v, channel, user, state), channel, user),
{
    let w = voice_with(v, channel, user, state);
    assert forall|c: Id, u: Id| #[trigger] in_channel(w, c, u) implies w[c][u].user_id == u
        && w[c][u].channel_id == c by {
        if !(c == channel && u == user) {
            assert(in_channel(v, c, u));
        }
    }
    assert forall|c1: Id, c2: Id, u: Id| #[trigger]
        in_channel(w, c1, u) && #[trigger] in_channel(w, c2, u) implies c1 == c2 by {
        if u == user {
            if c1 != channel {
                assert(in_channel(v, c1, u));
            }
            if c2 != channel {
                assert(in_channel(v, c2, u));
            }
        } else {
            assert(in_channel(v, c1, u));
            assert(in_channel(v, c2, u));
        }
    }
    assert forall|c: Id| #[trigger] w.contains_key(c) implies exists|u: Id| #[trigger]
        w[c].contains_key(u) by {
        if c == channel {
            assert(w[c].contains_key(user));
        } else {
            let o = choose|o: Id| #[trigger] v[c].contains_key(o);
            assert(w[c].contains_key(o));
        }
    }
}

/// In a well-formed table the user's channel, if they have one, is the only
/// channel that holds them.
pub proof fn channel_of_is_unique(v: VoiceMap, user: Id, channel: Id)
    requires
        voice_wf(v),
        in_channel(v, channel, user),
    ensures
        channel_of(v, user) == Some(channel),
{
    let c = choose|c: Id| in_channel(v, c, user);
    assert(in_channel(v, c, user));
}

/// A bucket after `elapsed` nanoseconds of refill: one token per second,
/// never above the capacity.
pub open spec fn refilled(tokens: int, elapsed: int) -> int {
    if tokens + elapsed >= MESSAGE_RATE_LIMIT {
        MESSAGE_RATE_LIMIT as int
    } else {
        tokens + elapsed
    }
}

/// The nanoseconds from `earlier` to `later`, or zero if `later` is not later.
pub open spec fn elapsed_between(earlier: int, later: int) -> int {
    if later >= earlier {
        later - earlier
    } else {
        0
    }
}

/// Whether a request at `now` is allowed by `bucket`.
pub open spec fn allows(bucket: RateLimitState, now: u64) -> bool {
    refilled(bucket.tokens as int, elapsed_between(bucket.last_refill as int, now as int))
        >= TOKEN
}

/// The bucket after a request at `now`: refilled, and one token lighter if
/// the request was allowed.
pub open spec fn after_request(bucket: RateLimitState, now: u64) -> RateLimitState {
    let level = refilled(
        bucket.tokens as int,
        elapsed_between(bucket.last_refill as int, now as int),
    );
    RateLimitState {
        tokens: (if level >= TOKEN {
            level - TOKEN
        } else {
            level
        }) as u64,
        last_refill: now,
    }
}

/// A full bucket, last refilled at `now`.
pub open spec fn full_bucket(now: u64) -> RateLimitState {
    RateLimitState { tokens: MESSAGE_RATE_LIMIT, last_refill: now }
}

impl RateLimitState {
    /// A bucket never holds more than its capacity.
    pub open spec fn wf(&self) -> bool {
        self.tokens <= MESSAGE_RATE_LIMIT
    }

    /// A full bucket, last refilled at `now`.
    pub fn full(now: u64) -> (b: Self)
        ensures
            b == full_bucket(now),
            b.wf(),
    {
        RateLimitState { tokens: MESSAGE_RATE_LIMIT, last_refill: now }
    }

    /// Refills the bucket up to `now` and takes one token if there is one.
    /// Returns whether the request is allowed.
    pub fn request(&mut self, now: u64) -> (allowed: bool)
        ensures
            allowed == allows(*old(self), now),
            *final(self) == after_request(*old(self), now),
            final(self).wf(),
    {
        let elapsed: u64 = if now >= self.last_refill {
            now - self.last_refill
        } else {
            0
        };
        let level: u64 = if self.tokens >= MESSAGE_RATE_LIMIT || elapsed >= MESSAGE_RATE_LIMIT
            - self.tokens {
            MESSAGE_RATE_LIMIT
        } else {
            self.tokens + elapsed
        };
        self.last_refill = now;
        if level >= TOKEN {
            self.tokens = level - TOKEN;
            true
        } else {
            self.tokens = level;
            false
        }
    }
}

/// The state shared by every connection and request handler.
pub struct AppState {
    online_users: DashMap<u128, UserPresence>,
    voice_states: DashMap<u128, DashMap<u128, VoiceState>>,
    banned_users: DashSet<u128>,
    muted_users: DashSet<u128>,
    message_rate_limits: DashMap<u128, RateLimitState>,
}

impl AppState {
    /// Who is online, by user.
    pub closed spec fn presence(&self) -> Map<Id, UserPresence> {
        presence_entries(self.online_users)
    }

    /// Who sits in which voice channel.
    pub closed spec fn voice(&self) -> VoiceMap {
        voice_entries(self.voice_states)
    }

    /// The cached set of banned users.
    pub closed spec fn banned(&self) -> Set<Id> {
        id_set_members(self.banned_users)
    }

    /// The cached set of muted users.
    pub closed spec fn muted(&self) -> Set<Id> {
        id_set_members(self.muted_users)
    }

    /// The message bucket of each user who has sent one.
    pub closed spec fn buckets(&self) -> Map<Id, RateLimitState> {
        bucket_entries(self.message_rate_limits)
    }

    /// The invariant of the hub.
    pub open spec fn wf(&self) -> bool {
        voice_wf(self.voice())
    }

    /// Everything but the presence table is as in `other`.
    pub open spec fn same_but_presence(&self, other: &Self) -> bool {
        &&& self.voice() == other.voice()
        &&& self.banned() == other.banned()
        &&& self.muted() == other.muted()
        &&& self.buckets() == other.buckets()
    }

    /// Everything but the voice table is as in `other`.
    pub open spec fn same_but_voice(&self, other: &Self) -> bool {
        &&& self.presence() == other.presence()
        &&& self.banned() == other.banned()
        &&& self.muted() == other.muted()
        &&& self.buckets() == other.buckets()
    }

    /// Everything but the ban and mute caches is as in `other`.
    pub open spec fn same_but_caches(&self, other: &Self) -> bool {
        &&& self.presence() == other.presence()
        &&& self.voice() == other.voice()
        &&& self.buckets() == other.buckets()
    }

    /// Whether `p` is the presence of some online user.
    pub open spec fn has_presence(&self, p: UserPresence) -> bool {
        exists|u: Id| #[trigger] self.presence().contains_key(u) && self.presence()[u] == p
    }

    /// An empty hub.
    pub fn new() -> (s: Self)
        ensures
            s.wf(),
            s.presence() == Map::<Id, UserPresence>::empty(),
            s.voice() == Map::<Id, Map<Id, VoiceState>>::empty(),
            s.banned() == Set::<Id>::empty(),
            s.muted() == Set::<Id>::empty(),
            s.buckets() == Map::<Id, RateLimitState>::empty(),
    {
        let s = AppState {
            online_users: presence_new(),
            voice_states: voice_new(),
            banned_users: id_set_new(),
            muted_users: id_set_new(),
            message_rate_limits: bucket_new(),
        };
        assert(s.presence() =~= Map::<Id, UserPresence>::empty());
        assert(s.voice() =~= Map::<Id, Map<Id, VoiceState>>::empty());
        assert(s.buckets() =~= Map::<Id, RateLimitState>::empty());
        s
    }

    /// Records that a user's socket opened.
    pub fn add_presence(&mut self, presence: UserPresence)
        ensures
            final(self).presence() == old(self).presence().insert(presence.user_id, presence),
            final(self).same_but_presence(old(self)),
    {
        let user_id = presence.user_id;
        presence_insert(&mut self.online_users, user_id, presence);
    }

    /// Records that a user's socket closed.
    pub fn remove_presence(&mut self, user_id: Id)
        ensures
            final(self).presence() == old(self).presence().remove(user_id),
            final(self).same_but_presence(old(self)),
    {
        let _ = presence_remove(&mut self.online_users, user_id);
    }

    /// Whether a user is online.
    pub fn is_online(&self, user_id: Id) -> (r: bool)
        ensures
            r == self.presence().contains_key(user_id),
    {
        presence_get(&self.online_users, user_id).is_some()
    }

    /// Everyone who is online, each once, in no particular order.
    pub fn get_online_users(&self) -> (users: Vec<UserPresence>)
        ensures
            users@.len() == self.presence().dom().len(),
            forall|u: Id| #[trigger]
                self.presence().contains_key(u) ==> users@.contains(self.presence()[u]),
            forall|i: int| 0 <= i < users@.len() ==> self.has_presence(#[trigger] users@[i]),
    {
        let ids = presence_ids(&self.online_users);
        let mut users: Vec<UserPresence> = Vec::new();
        let mut i: usize = 0;
        while i < ids.len()
            invariant
                i <= ids.len(),
                ids@.no_duplicates(),
                ids@.to_set() == self.presence().dom(),
                users@.len() == i,
                forall|k: int| 0 <= k < i ==> users@[k] == self.presence()[#[trigger] ids@[k]],
            decreases ids.len() - i,
        {
            let id = ids[i];
            assert(ids@.to_set().contains(ids@[i as int]));
            match presence_get(&self.online_users, id) {
                Some(p) => {
                    users.push(p);
                },
                None => {
                    assert(false);
                },
            }
            i += 1;
        }
        proof {
            ids@.unique_seq_to_set();
            assert forall|u: Id| #[trigger] self.presence().contains_key(u) implies users@.contains(
                self.presence()[u],
            ) by {
                assert(ids@.to_set().contains(u));
                let k = choose|k: int| 0 <= k < ids@.len() && ids@[k] == u;
                assert(users@[k] == self.presence()[ids@[k]]);
            }
            assert forall|k: int| 0 <= k < users@.len() implies self.has_presence(
                #[trigger] users@[k],
            ) by {
                assert(ids@.to_set().contains(ids@[k]));
                assert(self.presence().contains_key(ids@[k]));
            }
        }
        users
    }

    /// Takes a user out of every voice channel. Returns the channels the
    /// user left.
    pub fn remove_user_from_voice(&mut self, user_id: Id) -> (left: Vec<Id>)
        requires
            old(self).wf(),
        ensures
            final(self).wf(),
            final(self).voice() == without_user(old(self).voice(), user_id),
            left@ == departures(old(self).voice(), user_id),
            final(self).same_but_voice(old(self)),
    {
        let ghost v0 = self.voice();
        let channels = voice_channels(&self.voice_states);
        let mut left: Vec<Id> = Vec::new();
        let mut i: usize = 0;
        assert(channels@.take(0).to_set() =~= Set::<Id>::empty());
        assert(self.voice() =~= purged(v0, user_id, Set::<Id>::empty()));
        while i < channels.len()
            invariant
                i <= channels.len(),
                voice_wf(v0),
                channels@.no_duplicates(),
                channels@.to_set() == v0.dom(),
                self.voice() == purged(v0, user_id, channels@.take(i as int).to_set()),
                self.same_but_voice(old(self)),
                left@.no_duplicates(),
                forall|k: int|
                    0 <= k < left@.len() ==> in_channel(v0, #[trigger] left@[k], user_id),
                forall|k: int|
                    0 <= k < i && in_channel(v0, #[trigger] channels@[k], user_id)
                        ==> left@.contains(channels@[k]),
                forall|k: int|
                    0 <= k < left@.len() ==> channels@.take(i as int).contains(#[trigger] left@[k]),
            decreases channels.len() - i,
        {
            let c = channels[i];
            let ghost done = channels@.take(i as int).to_set();
            let ghost cur = self.voice();
            let ghost before = left;
            proof {
                assert(channels@.to_set().contains(channels@[i as int]));
                assert(v0.contains_key(c));
                assert(!done.contains(c)) by {
                    if done.contains(c) {
                        let k = choose|k: int|
                            0 <= k < channels@.take(i as int).len() && channels@.take(
                                i as int,
                            )[k] == c;
                        assert(channels@[k] == channels@[i as int]);
                    }
                }
                let prev = channels@.take(i as int);
                let next = channels@.take(i + 1);
                assert(next =~= prev.push(c));
                assert(next.to_set() =~= done.insert(c)) by {
                    assert forall|x: Id| next.to_set().contains(x) == done.insert(c).contains(
                        x,
                    ) by {
                        if next.contains(x) {
                            let k = choose|k: int| 0 <= k < next.len() && next[k] == x;
                            if k < i {
                                assert(prev[k] == x);
                            }
                        }
                        if done.contains(x) {
                            let k = choose|k: int| 0 <= k < prev.len() && prev[k] == x;
                            assert(next[k] == x);
                        }
                        if x == c {
                            assert(next[i as int] == c);
                        }
                    }
                }
                assert(cur.contains_key(c) && cur[c] == v0[c]);
            }
            match voice_remove(&mut self.voice_states, c, user_id) {
                Some(_) => {
                    assert(in_channel(v0, c, user_id));
                    proof {
                        assert(!left@.contains(c)) by {
                            if left@.contains(c) {
                                let k = choose|k: int| 0 <= k < left@.len() && left@[k] == c;
                                assert(channels@.take(i as int).contains(left@[k]));
                            }
                        }
                    }
                    let ghost mid = self.voice();
                    voice_drop_if_empty(&mut self.voice_states, c);
                    left.push(c);
                    proof {
                        let target = purged(v0, user_id, done.insert(c));
                        if mid[c].dom() == Set::<Id>::empty() {
                            assert(!has_other_member(v0[c], user_id)) by {
                                if has_other_member(v0[c], user_id) {
                                    let o = choose|o: Id|
                                        o != user_id && #[trigger] v0[c].contains_key(o);
                                    assert(mid[c].dom().contains(o));
                                }
                            }
                        } else {
                            assert(has_other_member(v0[c], user_id)) by {
                                assert(exists|o: Id| mid[c].dom().contains(o)) by {
                                    if forall|o: Id| !mid[c].dom().contains(o) {
                                        assert(mid[c].dom() =~= Set::<Id>::empty());
                                    }
                                }
                                let o = choose|o: Id| mid[c].dom().contains(o);
                                assert(o != user_id && v0[c].contains_key(o));
                            }
                        }
                        assert(self.voice() =~= target);
                    }
                },
                None => {
                    proof {
                        let target = purged(v0, user_id, done.insert(c));
                        assert(!in_channel(v0, c, user_id));
                        assert(v0[c].remove(user_id) =~= v0[c]);
                        assert(has_other_member(v0[c], user_id)) by {
                            let o = choose|o: Id| #[trigger] v0[c].contains_key(o);
                            assert(o != user_id);
                        }
                        assert(self.voice() =~= target);
                    }
                },
            }
            proof {
                let prev = channels@.take(i as int);
                let next = channels@.take(i + 1);
                assert forall|k: int| 0 <= k < left@.len() implies next.contains(
                    #[trigger] left@[k],
                ) by {
                    if left@[k] == c {
                        assert(next[i as int] == c);
                    } else {
                        assert(prev.contains(left@[k]));
                        let j = choose|j: int| 0 <= j < prev.len() && prev[j] == left@[k];
                        assert(next[j] == left@[k]);
                    }
                }
                assert forall|k: int|
                    0 <= k < i + 1 && in_channel(
                        v0,
                        #[trigger] channels@[k],
                        user_id,
                    ) implies left@.contains(channels@[k]) by {
                    if k == i {
                        assert(left@[left@.len() - 1] == c);
                    } else {
                        assert(before@.contains(channels@[k]));
                        let j = choose|j: int| 0 <= j < before@.len() && before@[j] == channels@[k];
                        assert(left@[j] == channels@[k]);
                    }
                }
            }
            i += 1;
        }
        proof {
            assert(channels@.take(channels.len() as int) =~= channels@);
            assert(self.voice() =~= without_user(v0, user_id));
            without_user_is_wf(v0, user_id);
            if exists|c: Id| in_channel(v0, c, user_id) {
                let c = choose|c: Id| in_channel(v0, c, user_id);
                assert(channels@.to_set().contains(c));
                let k = choose|k: int| 0 <= k < channels@.len() && channels@[k] == c;
                assert(left@.contains(channels@[k]));
                assert(left@.len() <= 1) by {
                    if left@.len() >= 2 {
                        assert(in_channel(v0, left@[0], user_id));
                        assert(in_channel(v0, left@[1], user_id));
                    }
                }
                assert(left@.len() == 1);
                assert(in_channel(v0, left@[0], user_id));
                assert(left@ =~= seq![c]);
            } else {
                if left@.len() > 0 {
                    assert(in_channel(v0, left@[0], user_id));
                }
                assert(left@ =~= Seq::<Id>::empty());
            }
        }
        left
    }

    /// Seats a user in a voice channel, evicting them from any channel they
    /// sat in before. Returns the channels the user left.
    pub fn join_voice(&mut self, state: VoiceState) -> (left: Vec<Id>)
        requires
            old(self).wf(),
        ensures
            final(self).wf(),
            final(self).voice() == voice_with(
                without_user(old(self).voice(), state.user_id),
                state.channel_id,
                state.user_id,
                state,
            ),
            channel_of(final(self).voice(), state.user_id) == Some(state.channel_id),
            left@ == departures(old(self).voice(), state.user_id),
            final(self).same_but_voice(old(self)),
    {
        let left = self.remove_user_from_voice(state.user_id);
        let channel = state.channel_id;
        let user = state.user_id;
        proof {
            without_user_is_wf(old(self).voice(), user);
            voice_with_is_wf(self.voice(), channel, user, state);
            channel_of_is_unique(voice_with(self.voice(), channel, user, state), user, channel);
        }
        voice_insert(&mut self.voice_states, channel, user, state);
        left
    }

    /// Takes a user out of one voice channel, dropping the channel's entry
    /// if nobody is left in it. Returns whether the user sat there.
    pub fn leave_voice(&mut self, channel_id: Id, user_id: Id) -> (was_member: bool)
        requires
            old(self).wf(),
        ensures
            final(self).wf(),
            was_member == in_channel(old(self).voice(), channel_id, user_id),
            was_member ==> final(self).voice() == without_user(old(self).voice(), user_id),
            !was_member ==> final(self).voice() == old(self).voice(),
            final(self).same_but_voice(old(self)),
    {
        let ghost v0 = self.voice();
        let was_member = match voice_remove(&mut self.voice_states, channel_id, user_id) {
            Some(_) => {
                let ghost mid = self.voice();
                voice_drop_if_empty(&mut self.voice_states, channel_id);
                proof {
                    if mid[channel_id].dom() == Set::<Id>::empty() {
                        assert(!has_other_member(v0[channel_id], user_id)) by {
                            if has_other_member(v0[channel_id], user_id) {
                                let o = choose|o: Id|
                                    o != user_id && #[trigger] v0[channel_id].contains_key(o);
                                assert(mid[channel_id].dom().contains(o));
                            }
                        }
                    } else {
                        assert(has_other_member(v0[channel_id], user_id)) by {
                            assert(exists|o: Id| mid[channel_id].dom().contains(o)) by {
                                if forall|o: Id| !mid[channel_id].dom().contains(o) {
                                    assert(mid[channel_id].dom() =~= Set::<Id>::empty());
                                }
                            }
                            let o = choose|o: Id| mid[channel_id].dom().contains(o);
                            assert(o != user_id && v0[channel_id].contains_key(o));
                        }
                    }
                    assert forall|c: Id| c != channel_id && v0.contains_key(c) implies v0[c].remove(
                        user_id,
                    ) =~= v0[c] && has_other_member(v0[c], user_id) by {
                        assert(in_channel(v0, channel_id, user_id));
                        if v0[c].contains_key(user_id) {
                            assert(in_channel(v0, c, user_id));
                        }
                        let o = choose|o: Id| #[trigger] v0[c].contains_key(o);
                        assert(o != user_id);
                    }
                    assert(self.voice() =~= without_user(v0, user_id));
                    without_user_is_wf(v0, user_id);
                    assert(voice_wf(self.voice()));
                }
                true
            },
            None => {
                proof {
                    if v0.contains_key(channel_id) {
                        assert(v0[channel_id].remove(user_id) =~= v0[channel_id]);
                    }
                    assert(self.voice() =~= v0);
                    assert(voice_wf(self.voice()));
                }
                false
            },
        };
        was_member
    }

    /// The state of a user in a channel, if they sit there.
    pub fn get_voice_state(&self, channel_id: Id, user_id: Id) -> (r: Option<VoiceState>)
        ensures
            in_channel(self.voice(), channel_id, user_id) ==> r == Some(
                self.voice()[channel_id][user_id],
            ),
            !in_channel(self.voice(), channel_id, user_id) ==> r is None,
    {
        voice_get(&self.voice_states, channel_id, user_id)
    }

    /// The members of one voice channel, each once, in no particular order.
    pub fn get_voice_states(&self, channel_id: Id) -> (states: Vec<VoiceState>)
        requires
            self.wf(),
        ensures
            forall|i: int|
                0 <= i < states@.len() ==> in_channel(
                    self.voice(),
                    channel_id,
                    (#[trigger] states@[i]).user_id,
                ) && states@[i] == self.voice()[channel_id][states@[i].user_id],
            forall|i: int, j: int|
                0 <= i < j < states@.len() ==> (#[trigger] states@[i]).user_id != (
                #[trigger] states@[j]).user_id,
            forall|u: Id|
                in_channel(self.voice(), channel_id, u) ==> states@.contains(
                    #[trigger] self.voice()[channel_id][u],
                ),
    {
        let users = voice_users(&self.voice_states, channel_id);
        let mut states: Vec<VoiceState> = Vec::new();
        let mut i: usize = 0;
        while i < users.len()
            invariant
                i <= users.len(),
                self.wf(),
                users@.no_duplicates(),
                self.voice().contains_key(channel_id) ==> users@.to_set()
                    == self.voice()[channel_id].dom(),
                !self.voice().contains_key(channel_id) ==> users@.len() == 0,
                states@.len() == i,
                forall|k: int|
                    0 <= k < i ==> #[trigger] states@[k] == self.voice()[channel_id][users@[k]],
            decreases users.len() - i,
        {
            let u = users[i];
            assert(users@.to_set().contains(users@[i as int]));
            match voice_get(&self.voice_states, channel_id, u) {
                Some(s) => {
                    states.push(s);
                },
                None => {
                    assert(false);
                },
            }
            i += 1;
        }
        proof {
            assert forall|k: int| 0 <= k < states@.len() implies in_channel(
                self.voice(),
                channel_id,
                (#[trigger] states@[k]).user_id,
            ) && states@[k] == self.voice()[channel_id][states@[k].user_id] by {
                assert(users@.to_set().contains(users@[k]));
                assert(in_channel(self.voice(), channel_id, users@[k]));
            }
            assert forall|a: int, b: int| 0 <= a < b < states@.len() implies (
            #[trigger] states@[a]).user_id != (#[trigger] states@[b]).user_id by {
                assert(users@.to_set().contains(users@[a]));
                assert(users@.to_set().contains(users@[b]));
                assert(in_channel(self.voice(), channel_id, users@[a]));
                assert(in_channel(self.voice(), channel_id, users@[b]));
            }
            assert forall|u: Id| in_channel(self.voice(), channel_id, u) implies states@.contains(
                #[trigger] self.voice()[channel_id][u],
            ) by {
                assert(users@.to_set().contains(u));
                let k = choose|k: int| 0 <= k < users@.len() && users@[k] == u;
                assert(states@[k] == self.voice()[channel_id][users@[k]]);
            }
        }
        states
    }

    /// Whether `state` is filed in the voice table under its own channel
    /// and user.
    pub open spec fn holds_voice_state(&self, state: VoiceState) -> bool {
        in_channel(self.voice(), state.channel_id, state.user_id) && self.voice()[state.channel_id][state.user_id]
            == state
    }

    /// Every voice state of every channel, each once, in no particular
    /// order.
    pub fn all_voice_states(&self) -> (states: Vec<VoiceState>)
        requires
            self.wf(),
        ensures
            forall|i: int| 0 <= i < states@.len() ==> self.holds_voice_state(#[trigger] states@[i]),
            forall|i: int, j: int|
                0 <= i < j < states@.len() ==> (#[trigger] states@[i]).user_id != (
                #[trigger] states@[j]).user_id,
            forall|c: Id, u: Id| #[trigger]
                in_channel(self.voice(), c, u) ==> states@.contains(self.voice()[c][u]),
    {
        let channels = voice_channels(&self.voice_states);
        let mut states: Vec<VoiceState> = Vec::new();
        let mut i: usize = 0;
        while i < channels.len()
            invariant
                i <= channels.len(),
                self.wf(),
                channels@.no_duplicates(),
                channels@.to_set() == self.voice().dom(),
                forall|k: int|
                    0 <= k < states@.len() ==> self.holds_voice_state(#[trigger] states@[k]),
                forall|k: int|
                    0 <= k < states@.len() ==> channels@.take(i as int).contains(
                        (#[trigger] states@[k]).channel_id,
                    ),
                forall|a: int, b: int|
                    0 <= a < b < states@.len() ==> (#[trigger] states@[a]).user_id != (
                    #[trigger] states@[b]).user_id,
                forall|k: int, u: Id|
                    0 <= k < i && in_channel(self.voice(), #[trigger] channels@[k], u)
                        ==> states@.contains(#[trigger] self.voice()[channels@[k]][u]),
            decreases channels.len() - i,
        {
            let c = channels[i];
            let mut members = self.get_voice_states(c);
            let ghost before = states@;
            let ghost added = members@;
            states.append(&mut members);
            proof {
                let v = self.voice();
                let prev = channels@.take(i as int);
                let next = channels@.take(i + 1);
                assert(states@ =~= before + added);
                assert forall|k: int| 0 <= k < states@.len() implies self.holds_voice_state(
                    #[trigger] states@[k],
                ) && next.contains(states@[k].channel_id) by {
                    if k < before.len() {
                        assert(states@[k] == before[k]);
                        let j = choose|j: int|
                            0 <= j < prev.len() && prev[j] == before[k].channel_id;
                        assert(next[j] == before[k].channel_id);
                    } else {
                        let m = added[k - before.len()];
                        assert(states@[k] == m);
                        assert(in_channel(v, c, m.user_id));
                        assert(m.channel_id == c);
                        assert(next[i as int] == c);
                    }
                }
                assert forall|a: int, b: int| 0 <= a < b < states@.len() implies (
                #[trigger] states@[a]).user_id != (#[trigger] states@[b]).user_id by {
                    if b < before.len() {
                        assert(states@[a] == before[a] && states@[b] == before[b]);
                    } else if a >= before.len() {
                        assert(states@[a] == added[a - before.len()]);
                        assert(states@[b] == added[b - before.len()]);
                    } else {
                        let x = before[a];
                        let y = added[b - before.len()];
                        assert(states@[a] == x && states@[b] == y);
                        assert(self.holds_voice_state(x));
                        assert(prev.contains(x.channel_id));
                        let j = choose|j: int| 0 <= j < prev.len() && prev[j] == x.channel_id;
                        assert(channels@[j] == x.channel_id);
                        assert(x.channel_id != c);
                        assert(in_channel(v, c, y.user_id));
                        if x.user_id == y.user_id {
                            assert(in_channel(v, x.channel_id, x.user_id));
                        }
                    }
                }
                assert forall|k: int, u: Id|
                    0 <= k < i + 1 && in_channel(
                        v,
                        #[trigger] channels@[k],
                        u,
                    ) implies states@.contains(#[trigger] v[channels@[k]][u]) by {
                    if k < i {
                        assert(before.contains(v[channels@[k]][u]));
                        let j = choose|j: int|
                            0 <= j < before.len() && before[j] == v[channels@[k]][u];
                        assert(states@[j] == before[j]);
                    } else {
                        assert(added.contains(v[c][u]));
                        let j = choose|j: int| 0 <= j < added.len() && added[j] == v[c][u];
                        assert(states@[before.len() + j] == added[j]);
                    }
                }
            }
            i += 1;
        }
        proof {
            let v = self.voice();
            assert forall|c: Id, u: Id| #[trigger] in_channel(v, c, u) implies states@.contains(
                v[c][u],
            ) by {
                assert(channels@.to_set().contains(c));
                let k = choose|k: int| 0 <= k < channels@.len() && channels@[k] == c;
                assert(in_channel(v, channels@[k], u));
            }
        }
        states
    }

    /// Sets the mute and deafen flags a member submits, leaving a flag as it
    /// is where none is given. Returns the updated state, or `None` if the
    /// user does not sit in the channel.
    pub fn update_voice_state(
        &mut self,
        channel_id: Id,
        user_id: Id,
        is_muted: Option<bool>,
        is_deafened: Option<bool>,
    ) -> (updated: Option<VoiceState>)
        requires
            old(self).wf(),
        ensures
            final(self).wf(),
            final(self).same_but_voice(old(self)),
            !in_channel(old(self).voice(), channel_id, user_id) ==> updated is None
                && final(self).voice() == old(self).voice(),
            in_channel(old(self).voice(), channel_id, user_id) ==> updated == Some(
                with_flags(old(self).voice()[channel_id][user_id], is_muted, is_deafened),
            ) && final(self).voice() == voice_with(
                old(self).voice(),
                channel_id,
                user_id,
                updated->Some_0,
            ),
    {
        match voice_get(&self.voice_states, channel_id, user_id) {
            Some(mut state) => {
                assert(in_channel(self.voice(), channel_id, user_id));
                match is_muted {
                    Some(m) => {
                        state.is_muted = m;
                    },
                    None => {},
                }
                match is_deafened {
                    Some(d) => {
                        state.is_deafened = d;
                    },
                    None => {},
                }
                Some(self.replace_voice_state(channel_id, user_id, state))
            },
            None => None,
        }
    }

    /// Sets whether a member shares their screen. Returns the updated
    /// state, or `None` if the user does not sit in the channel.
    pub fn update_screen_share(&mut self, channel_id: Id, user_id: Id, is_screen_sharing: bool) -> (updated:
        Option<VoiceState>)
        requires
            old(self).wf(),
        ensures
            final(self).wf(),
            final(self).same_but_voice(old(self)),
            !in_channel(old(self).voice(), channel_id, user_id) ==> updated is None
                && final(self).voice() == old(self).voice(),
            in_channel(old(self).voice(), channel_id, user_id) ==> updated == Some(
                (VoiceState { is_screen_sharing, ..old(self).voice()[channel_id][user_id] }),
            ) && final(self).voice() == voice_with(
                old(self).voice(),
                channel_id,
                user_id,
                updated->Some_0,
            ),
    {
        match voice_get(&self.voice_states, channel_id, user_id) {
            Some(mut state) => {
                assert(in_channel(self.voice(), channel_id, user_id));
                state.is_screen_sharing = is_screen_sharing;
                Some(self.replace_voice_state(channel_id, user_id, state))
            },
            None => None,
        }
    }

    /// Sets whether a member shares their camera. Returns the updated
    /// state, or `None` if the user does not sit in the channel.
    pub fn update_camera(&mut self, channel_id: Id, user_id: Id, is_camera_sharing: bool) -> (updated:
        Option<VoiceState>)
        requires
            old(self).wf(),
        ensures
            final(self).wf(),
            final(self).same_but_voice(old(self)),
            !in_channel(old(self).voice(), channel_id, user_id) ==> updated is None
                && final(self).voice() == old(self).voice(),
            in_channel(old(self).voice(), channel_id, user_id) ==> updated == Some(
                (VoiceState { is_camera_sharing, ..old(self).voice()[channel_id][user_id] }),
            ) && final(self).voice() == voice_with(
                old(self).voice(),
                channel_id,
                user_id,
                updated->Some_0,
            ),
    {
        match voice_get(&self.voice_states, channel_id, user_id) {
            Some(mut state) => {
                assert(in_channel(self.voice(), channel_id, user_id));
                state.is_camera_sharing = is_camera_sharing;
                Some(self.replace_voice_state(channel_id, user_id, state))
            },
            None => None,
        }
    }

    /// Stores a new state for a user who sits in the channel, and returns a
    /// copy of it.
    fn replace_voice_state(&mut self, channel_id: Id, user_id: Id, state: VoiceState) -> (copy:
        VoiceState)
        requires
            old(self).wf(),
            in_channel(old(self).voice(), channel_id, user_id),
            state.user_id == user_id,
            state.channel_id == channel_id,
        ensures
            final(self).wf(),
            final(self).same_but_voice(old(self)),
            copy == state,
            final(self).voice() == voice_with(old(self).voice(), channel_id, user_id, state),
    {
        let copy = state.clone();
        proof {
            let v = self.voice();
            assert forall|c: Id| c != channel_id implies !in_channel(v, c, user_id) by {
                if in_channel(v, c, user_id) {
                    assert(in_channel(v, channel_id, user_id));
                }
            }
            voice_with_is_wf(v, channel_id, user_id, state);
        }
        voice_insert(&mut self.voice_states, channel_id, user_id, state);
        copy
    }

    /// The channel a user sits in, if any.
    pub fn find_voice_channel(&self, user_id: Id) -> (found: Option<Id>)
        requires
            self.wf(),
        ensures
            found == channel_of(self.voice(), user_id),
    {
        let channels = voice_channels(&self.voice_states);
        let mut i: usize = 0;
        while i < channels.len()
            invariant
                i <= channels.len(),
                self.wf(),
                channels@.to_set() == self.voice().dom(),
                forall|k: int|
                    0 <= k < i ==> !in_channel(self.voice(), #[trigger] channels@[k], user_id),
            decreases channels.len() - i,
        {
            let c = channels[i];
            if voice_get(&self.voice_states, c, user_id).is_some() {
                proof {
                    channel_of_is_unique(self.voice(), user_id, c);
                }
                return Some(c);
            }
            i += 1;
        }
        proof {
            if exists|c: Id| in_channel(self.voice(), c, user_id) {
                let c = choose|c: Id| in_channel(self.voice(), c, user_id);
                assert(channels@.to_set().contains(c));
                let k = choose|k: int| 0 <= k < channels@.len() && channels@[k] == c;
                assert(!in_channel(self.voice(), channels@[k], user_id));
            }
        }
        None
    }

    /// Gives a user a new name wherever the hub shows one: in their
    /// presence and in their voice state.
    pub fn rename_user(&mut self, user_id: Id, new_username: &str)
        requires
            old(self).wf(),
        ensures
            final(self).wf(),
            final(self).banned() == old(self).banned(),
            final(self).muted() == old(self).muted(),
            final(self).buckets() == old(self).buckets(),
            final(self).presence().dom() == old(self).presence().dom(),
            forall|u: Id|
                u != user_id && old(self).presence().contains_key(u) ==> #[trigger] final(
                    self
                ).presence()[u] == old(self).presence()[u],
            old(self).presence().contains_key(user_id) ==> {
                let p = final(self).presence()[user_id];
                let q = old(self).presence()[user_id];
                p.username@ == new_username@ && p.user_id == q.user_id && p.avatar_url
                    == q.avatar_url && p.connected_at == q.connected_at
            },
            match channel_of(old(self).voice(), user_id) {
                Some(c) => final(self).voice() == voice_with(
                    old(self).voice(),
                    c,
                    user_id,
                    final(self).voice()[c][user_id],
                ) && renamed(
                    old(self).voice()[c][user_id],
                    final(self).voice()[c][user_id],
                    new_username@,
                ),
                None => final(self).voice() == old(self).voice(),
            },
    {
        match presence_get(&self.online_users, user_id) {
            Some(mut p) => {
                p.username = String::from_str(new_username);
                presence_insert(&mut self.online_users, user_id, p);
                assert(self.presence().dom() =~= old(self).presence().dom());
            },
            None => {},
        }
        match self.find_voice_channel(user_id) {
            Some(c) => {
                match voice_get(&self.voice_states, c, user_id) {
                    Some(mut state) => {
                        assert(in_channel(self.voice(), c, user_id));
                        state.username = String::from_str(new_username);
                        let _ = self.replace_voice_state(c, user_id, state);
                    },
                    None => {
                        assert(false);
                    },
                }
            },
            None => {},
        }
    }

    /// Gives a user a new avatar wherever the hub shows one: in their
    /// presence and in their voice state.
    pub fn set_avatar(&mut self, user_id: Id, avatar_url: &Option<String>)
        requires
            old(self).wf(),
        ensures
            final(self).wf(),
            final(self).banned() == old(self).banned(),
            final(self).muted() == old(self).muted(),
            final(self).buckets() == old(self).buckets(),
            final(self).presence().dom() == old(self).presence().dom(),
            forall|u: Id|
                u != user_id && old(self).presence().contains_key(u) ==> #[trigger] final(
                    self
                ).presence()[u] == old(self).presence()[u],
            old(self).presence().contains_key(user_id) ==> final(self).presence()[user_id]
                == (UserPresence { avatar_url: *avatar_url, ..old(self).presence()[user_id] }),
            match channel_of(old(self).voice(), user_id) {
                Some(c) => final(self).voice() == voice_with(
                    old(self).voice(),
                    c,
                    user_id,
                    (VoiceState { avatar_url: *avatar_url, ..old(self).voice()[c][user_id] }),
                ),
                None => final(self).voice() == old(self).voice(),
            },
    {
        match presence_get(&self.online_users, user_id) {
            Some(mut p) => {
                p.avatar_url = copy_opt_string(avatar_url);
                presence_insert(&mut self.online_users, user_id, p);
                assert(self.presence().dom() =~= old(self).presence().dom());
            },
            None => {},
        }
        match self.find_voice_channel(user_id) {
            Some(c) => {
                match voice_get(&self.voice_states, c, user_id) {
                    Some(mut state) => {
                        assert(in_channel(self.voice(), c, user_id));
                        state.avatar_url = copy_opt_string(avatar_url);
                        let _ = self.replace_voice_state(c, user_id, state);
                    },
                    None => {
                        assert(false);
                    },
                }
            },
            None => {},
        }
    }

    /// Adds a user to the cached set of banned users.
    pub fn cache_ban(&mut self, user_id: Id)
        ensures
            final(self).banned() == old(self).banned().insert(user_id),
            final(self).muted() == old(self).muted(),
            final(self).same_but_caches(old(self)),
    {
        id_set_insert(&mut self.banned_users, user_id);
    }

    /// Takes a user out of the cached set of banned users.
    pub fn uncache_ban(&mut self, user_id: Id)
        ensures
            final(self).banned() == old(self).banned().remove(user_id),
            final(self).muted() == old(self).muted(),
            final(self).same_but_caches(old(self)),
    {
        let _ = id_set_remove(&mut self.banned_users, user_id);
    }

    /// Whether the cache holds a ban for the user.
    pub fn is_banned(&self, user_id: Id) -> (r: bool)
        ensures
            r == self.banned().contains(user_id),
    {
        id_set_contains(&self.banned_users, user_id)
    }

    /// The cached set of banned users, each once, in no particular order.
    pub fn banned_user_ids(&self) -> (ids: Vec<Id>)
        ensures
            ids@.no_duplicates(),
            ids@.to_set() == self.banned(),
    {
        id_set_ids(&self.banned_users)
    }

    /// The cached set of muted users, each once, in no particular order.
    pub fn muted_user_ids(&self) -> (ids: Vec<Id>)
        ensures
            ids@.no_duplicates(),
            ids@.to_set() == self.muted(),
    {
        id_set_ids(&self.muted_users)
    }

    /// Makes the cached set of banned users hold exactly the listed users:
    /// users not listed are dropped, then every listed user is added.
    pub fn replace_bans(&mut self, users: &Vec<Id>)
        ensures
            final(self).banned() == users@.to_set(),
            final(self).muted() == old(self).muted(),
            final(self).same_but_caches(old(self)),
    {
        id_set_retain(&mut self.banned_users, users);
        let ghost kept = self.banned();
        let mut j: usize = 0;
        assert(users@.take(0).to_set() =~= Set::<Id>::empty());
        assert(self.banned() =~= kept.union(users@.take(0).to_set()));
        while j < users.len()
            invariant
                j <= users.len(),
                kept.subset_of(users@.to_set()),
                self.muted() == old(self).muted(),
                self.same_but_caches(old(self)),
                self.banned() == kept.union(users@.take(j as int).to_set()),
            decreases users.len() - j,
        {
            let u = users[j];
            proof {
                let prev = users@.take(j as int);
                assert(users@.take(j + 1) =~= prev.push(u));
                prev.lemma_push_to_set_commute(u);
            }
            id_set_insert(&mut self.banned_users, u);
            assert(self.banned() =~= kept.union(users@.take(j + 1).to_set()));
            j += 1;
        }
        assert(users@.take(users.len() as int) =~= users@);
        assert(self.banned() =~= users@.to_set());
    }

    /// Makes the cached set of muted users hold exactly the listed users:
    /// users not listed are dropped, then every listed user is added.
    pub fn replace_mutes(&mut self, users: &Vec<Id>)
        ensures
            final(self).muted() == users@.to_set(),
            final(self).banned() == old(self).banned(),
            final(self).same_but_caches(old(self)),
    {
        id_set_retain(&mut self.muted_users, users);
        let ghost kept = self.muted();
        let mut j: usize = 0;
        assert(users@.take(0).to_set() =~= Set::<Id>::empty());
        assert(self.muted() =~= kept.union(users@.take(0).to_set()));
        while j < users.len()
            invariant
                j <= users.len(),
                kept.subset_of(users@.to_set()),
                self.banned() == old(self).banned(),
                self.same_but_caches(old(self)),
                self.muted() == kept.union(users@.take(j as int).to_set()),
            decreases users.len() - j,
        {
            let u = users[j];
            proof {
                let prev = users@.take(j as int);
                assert(users@.take(j + 1) =~= prev.push(u));
                prev.lemma_push_to_set_commute(u);
            }
            id_set_insert(&mut self.muted_users, u);
            assert(self.muted() =~= kept.union(users@.take(j + 1).to_set()));
            j += 1;
        }
        assert(users@.take(users.len() as int) =~= users@);
        assert(self.muted() =~= users@.to_set());
    }

    /// Adds a user to the cached set of muted users.
    pub fn cache_mute(&mut self, user_id: Id)
        ensures
            final(self).muted() == old(self).muted().insert(user_id),
            final(self).banned() == old(self).banned(),
            final(self).same_but_caches(old(self)),
    {
        id_set_insert(&mut self.muted_users, user_id);
    }

    /// Takes a user out of the cached set of muted users.
    pub fn uncache_mute(&mut self, user_id: Id)
        ensures
            final(self).muted() == old(self).muted().remove(user_id),
            final(self).banned() == old(self).banned(),
            final(self).same_but_caches(old(self)),
    {
        let _ = id_set_remove(&mut self.muted_users, user_id);
    }

    /// Whether the cache holds a mute for the user.
    pub fn is_muted(&self, user_id: Id) -> (r: bool)
        ensures
            r == self.muted().contains(user_id),
    {
        id_set_contains(&self.muted_users, user_id)
    }

    /// Decides whether the user may send a message at `now`, a reading of a
    /// monotonic clock in nanoseconds. The user's bucket is made full on
    /// first use, refilled by one token per second up to five, and charged
    /// one token when the message is allowed.
    pub fn check_message_rate_limit(&mut self, user_id: Id, now: u64) -> (allowed: bool)
        requires
            old(self).wf(),
        ensures
            final(self).wf(),
            allowed == allows(old(self).bucket_of(user_id, now), now),
            final(self).buckets() == old(self).buckets().insert(
                user_id,
                after_request(old(self).bucket_of(user_id, now), now),
            ),
            final(self).presence() == old(self).presence(),
            final(self).voice() == old(self).voice(),
            final(self).banned() == old(self).banned(),
            final(self).muted() == old(self).muted(),
    {
        let mut bucket = match bucket_get(&self.message_rate_limits, user_id) {
            Some(b) => b,
            None => RateLimitState::full(now),
        };
        let allowed = bucket.request(now);
        bucket_insert(&mut self.message_rate_limits, user_id, bucket);
        allowed
    }

    /// The user's bucket, or a full one if the user has none yet.
    pub open spec fn bucket_of(&self, user_id: Id, now: u64) -> RateLimitState {
        if self.buckets().contains_key(user_id) {
            self.buckets()[user_id]
        } else {
            full_bucket(now)
        }
    }
}

/// A user sits in at most one voice channel.
pub proof fn single_voice_channel(hub: &AppState, user: Id, first: Id, second: Id)
    requires
        hub.wf(),
        in_channel(hub.voice(), first, user),
        in_channel(hub.voice(), second, user),
    ensures
        first == second,
{
}

/// Whether the instants of a run of requests never go back.
pub open spec fn in_order(times: Seq<u64>) -> bool {
    forall|i: int, j: int| 0 <= i <= j < times.len() ==> times[i] <= times[j]
}

/// The number of requests allowed when a bucket is asked at each of
/// `times`, one request after the other.
pub open spec fn allowed_count(bucket: RateLimitState, times: Seq<u64>) -> nat
    decreases times.len(),
{
    if times.len() == 0 {
        0
    } else if allows(bucket, times[0]) {
        1 + allowed_count(after_request(bucket, times[0]), times.drop_first())
    } else {
        allowed_count(after_request(bucket, times[0]), times.drop_first())
    }
}

/// The bucket after it was asked at each of `times`.
pub open spec fn bucket_after(bucket: RateLimitState, times: Seq<u64>) -> RateLimitState
    decreases times.len(),
{
    if times.len() == 0 {
        bucket
    } else {
        bucket_after(after_request(bucket, times[0]), times.drop_first())
    }
}

/// What is allowed is paid for: by what the bucket held, or by the time
/// that passed since it was last refilled.
pub proof fn allowance_is_paid_for(bucket: RateLimitState, times: Seq<u64>)
    requires
        bucket.wf(),
        times.len() > 0,
        in_order(times),
        bucket.last_refill <= times[0],
    ensures
        allowed_count(bucket, times) * TOKEN + bucket_after(bucket, times).tokens <= bucket.tokens
            + (times.last() - bucket.last_refill),
        bucket_after(bucket, times).wf(),
    decreases times.len(),
{
    let next = after_request(bucket, times[0]);
    let rest = times.drop_first();
    if rest.len() > 0 {
        assert(rest[0] == times[1]);
        assert(rest.last() == times.last());
        assert(in_order(rest)) by {
            assert forall|i: int, j: int| 0 <= i <= j < rest.len() implies rest[i] <= rest[j] by {
                assert(rest[i] == times[i + 1] && rest[j] == times[j + 1]);
            }
        }
        allowance_is_paid_for(next, rest);
    } else {
        assert(allowed_count(next, rest) == 0);
        assert(bucket_after(next, rest) == next);
    }
}

/// In a run of requests, no more are allowed than the bucket's five
/// tokens and one token per second of the run pay for. So at most six are
/// allowed within any second, and in the long run one per second.
pub proof fn burst_is_bounded(bucket: RateLimitState, times: Seq<u64>)
    requires
        bucket.wf(),
        times.len() > 0,
        in_order(times),
    ensures
        allowed_count(bucket, times) * TOKEN <= MESSAGE_RATE_LIMIT + (times.last() - times[0]),
        times.last() - times[0] <= TOKEN ==> allowed_count(bucket, times) <= 6,
{
    let next = after_request(bucket, times[0]);
    let rest = times.drop_first();
    if rest.len() > 0 {
        assert(rest[0] == times[1]);
        assert(rest.last() == times.last());
        assert(in_order(rest)) by {
            assert forall|i: int, j: int| 0 <= i <= j < rest.len() implies rest[i] <= rest[j] by {
                assert(rest[i] == times[i + 1] && rest[j] == times[j + 1]);
            }
        }
        allowance_is_paid_for(next, rest);
    } else {
        assert(allowed_count(next, rest) == 0);
    }
}

} // verus!
