//! The concurrent tables of the state hub. Each is a sharded map from the
//! `dashmap` crate; what it holds is named by a spec function, and each
//! operation the hub uses is stated over that name.

use vstd::prelude::*;
use dashmap::{DashMap, DashSet};
use crate::ids::Id;
use crate::models::{RateLimitState, UserPresence, VoiceState};

verus! {

#[verifier::external_type_specification]
#[verifier::external_body]
#[verifier::reject_recursive_types(K)]
#[verifier::reject_recursive_types(V)]
#[verifier::reject_recursive_types(S)]
pub struct ExDashMap<K, V, S>(DashMap<K, V, S>);

#[verifier::external_type_specification]
#[verifier::external_body]
#[verifier::reject_recursive_types(K)]
#[verifier::reject_recursive_types(S)]
pub struct ExDashSet<K, S>(DashSet<K, S>);

/// The entries of a presence table.
pub uninterp spec fn presence_entries(m: DashMap<u128, UserPresence>) -> Map<u128, UserPresence>;

/// The entries of a voice table: per channel, the members by user.
pub uninterp spec fn voice_entries(m: DashMap<u128, DashMap<u128, VoiceState>>) -> Map<
    u128,
    Map<u128, VoiceState>,
>;

/// The members of a set of identifiers.
pub uninterp spec fn id_set_members(s: DashSet<u128>) -> Set<u128>;

/// The entries of a table of token buckets.
pub uninterp spec fn bucket_entries(m: DashMap<u128, RateLimitState>) -> Map<u128, RateLimitState>;

/// `DashMap::new`: an empty table.
#[verifier::external_body]
pub(crate) fn presence_new() -> (m: DashMap<u128, UserPresence>)
    ensures
        presence_entries(m).dom() == Set::<u128>::empty(),
{
    DashMap::new()
}

/// `DashMap::insert`: the key now maps to the value; other keys are untouched.
#[verifier::external_body]
pub(crate) fn presence_insert(m: &mut DashMap<u128, UserPresence>, key: Id, value: UserPresence)
    ensures
        presence_entries(*final(m)) == presence_entries(*old(m)).insert(key, value),
{
    m.insert(key, value);
}

/// `DashMap::remove`: the key is gone, and its value, if it had one, is
/// returned.
#[verifier::external_body]
pub(crate) fn presence_remove(m: &mut DashMap<u128, UserPresence>, key: Id) -> (prev: Option<
    UserPresence,
>)
    ensures
        presence_entries(*final(m)) == presence_entries(*old(m)).remove(key),
        presence_entries(*old(m)).contains_key(key) ==> prev == Some(
            presence_entries(*old(m))[key],
        ),
        !presence_entries(*old(m)).contains_key(key) ==> prev is None,
{
    m.remove(&key).map(|(_, v)| v)
}

/// `DashMap::get`: a copy of the value under the key, if there is one.
#[verifier::external_body]
pub(crate) fn presence_get(m: &DashMap<u128, UserPresence>, key: Id) -> (found: Option<
    UserPresence,
>)
    ensures
        presence_entries(*m).contains_key(key) ==> found == Some(presence_entries(*m)[key]),
        !presence_entries(*m).contains_key(key) ==> found is None,
{
    m.get(&key).map(|r| r.value().clone())
}

/// `DashMap::iter`: every key once, in no particular order.
#[verifier::external_body]
pub(crate) fn presence_ids(m: &DashMap<u128, UserPresence>) -> (ids: Vec<Id>)
    ensures
        ids@.no_duplicates(),
        ids@.to_set() == presence_entries(*m).dom(),
{
    m.iter().map(|e| *e.key()).collect()
}

/// `DashMap::new`: an empty table.
#[verifier::external_body]
pub(crate) fn voice_new() -> (m: DashMap<u128, DashMap<u128, VoiceState>>)
    ensures
        voice_entries(m).dom() == Set::<u128>::empty(),
{
    DashMap::new()
}

/// What a voice table holds after `state` is stored for `user` in `channel`.
pub open spec fn voice_with(
    v: Map<u128, Map<u128, VoiceState>>,
    channel: u128,
    user: u128,
    state: VoiceState,
) -> Map<u128, Map<u128, VoiceState>> {
    if v.contains_key(channel) {
        v.insert(channel, v[channel].insert(user, state))
    } else {
        v.insert(channel, Map::empty().insert(user, state))
    }
}

/// What a voice table holds after `user` is taken out of `channel`.
pub open spec fn voice_without(v: Map<u128, Map<u128, VoiceState>>, channel: u128, user: u128) -> Map<
    u128,
    Map<u128, VoiceState>,
> {
    if v.contains_key(channel) {
        v.insert(channel, v[channel].remove(user))
    } else {
        v
    }
}

/// `DashMap::entry` with `or_default`, then `DashMap::insert` on the inner
/// table: the channel's table, made if missing, maps the user to the value.
#[verifier::external_body]
pub(crate) fn voice_insert(
    m: &mut DashMap<u128, DashMap<u128, VoiceState>>,
    channel: Id,
    user: Id,
    state: VoiceState,
)
    ensures
        voice_entries(*final(m)) == voice_with(voice_entries(*old(m)), channel, user, state),
{
    m.entry(channel).or_default().insert(user, state);
}

/// `DashMap::get`, then `DashMap::remove` on the inner table: the user is
/// gone from the channel's table, and the value, if there was one, is
/// returned. The channel's table stays, even when empty.
#[verifier::external_body]
pub(crate) fn voice_remove(m: &mut DashMap<u128, DashMap<u128, VoiceState>>, channel: Id, user: Id) -> (prev:
    Option<VoiceState>)
    ensures
        voice_entries(*final(m)) == voice_without(voice_entries(*old(m)), channel, user),
        voice_entries(*old(m)).contains_key(channel) && voice_entries(*old(m))[channel].contains_key(
            user,
        ) ==> prev == Some(voice_entries(*old(m))[channel][user]),
        !(voice_entries(*old(m)).contains_key(channel) && voice_entries(
            *old(m),
        )[channel].contains_key(user)) ==> prev is None,
{
    m.get(&channel).and_then(|users| users.remove(&user)).map(|(_, v)| v)
}

/// `DashMap::remove_if` with `DashMap::is_empty`: the channel's table is
/// dropped when it has no member.
#[verifier::external_body]
pub(crate) fn voice_drop_if_empty(m: &mut DashMap<u128, DashMap<u128, VoiceState>>, channel: Id)
    ensures
        voice_entries(*old(m)).contains_key(channel) && voice_entries(*old(m))[channel].dom()
            == Set::<u128>::empty() ==> voice_entries(*final(m)) == voice_entries(*old(m)).remove(
            channel,
        ),
        !(voice_entries(*old(m)).contains_key(channel) && voice_entries(*old(m))[channel].dom()
            == Set::<u128>::empty()) ==> voice_entries(*final(m)) == voice_entries(*old(m)),
{
    m.remove_if(&channel, |_, users| users.is_empty());
}

/// `DashMap::iter` on the outer table: every channel once, in no particular
/// order.
#[verifier::external_body]
pub(crate) fn voice_channels(m: &DashMap<u128, DashMap<u128, VoiceState>>) -> (ids: Vec<Id>)
    ensures
        ids@.no_duplicates(),
        ids@.to_set() == voice_entries(*m).dom(),
{
    m.iter().map(|e| *e.key()).collect()
}

/// `DashMap::get`, then `DashMap::iter` on the inner table: every member of
/// the channel once, in no particular order; none for an unknown channel.
#[verifier::external_body]
pub(crate) fn voice_users(m: &DashMap<u128, DashMap<u128, VoiceState>>, channel: Id) -> (ids: Vec<
    Id,
>)
    ensures
        ids@.no_duplicates(),
        voice_entries(*m).contains_key(channel) ==> ids@.to_set() == voice_entries(
            *m,
        )[channel].dom(),
        !voice_entries(*m).contains_key(channel) ==> ids@.len() == 0,
{
    m.get(&channel).map(|users| users.iter().map(|e| *e.key()).collect()).unwrap_or_default()
}

/// `DashMap::get` on both levels: a copy of the user's state in the channel,
/// if there is one.
#[verifier::external_body]
pub(crate) fn voice_get(m: &DashMap<u128, DashMap<u128, VoiceState>>, channel: Id, user: Id) -> (found:
    Option<VoiceState>)
    ensures
        voice_entries(*m).contains_key(channel) && voice_entries(*m)[channel].contains_key(user)
            ==> found == Some(voice_entries(*m)[channel][user]),
        !(voice_entries(*m).contains_key(channel) && voice_entries(*m)[channel].contains_key(
            user,
        )) ==> found is None,
{
    m.get(&channel).and_then(|users| users.get(&user).map(|r| r.value().clone()))
}

/// `DashSet::new`: an empty set.
#[verifier::external_body]
pub(crate) fn id_set_new() -> (s: DashSet<u128>)
    ensures
        id_set_members(s) == Set::<u128>::empty(),
{
    DashSet::new()
}

/// `DashSet::insert`: the key is now a member.
#[verifier::external_body]
pub(crate) fn id_set_insert(s: &mut DashSet<u128>, key: Id)
    ensures
        id_set_members(*final(s)) == id_set_members(*old(s)).insert(key),
{
    s.insert(key);
}

/// `DashSet::remove`: the key is no longer a member; the result says
/// whether it was one.
#[verifier::external_body]
pub(crate) fn id_set_remove(s: &mut DashSet<u128>, key: Id) -> (was_member: bool)
    ensures
        id_set_members(*final(s)) == id_set_members(*old(s)).remove(key),
        was_member == id_set_members(*old(s)).contains(key),
{
    s.remove(&key).is_some()
}

/// `DashSet::contains`: whether the key is a member.
#[verifier::external_body]
pub(crate) fn id_set_contains(s: &DashSet<u128>, key: Id) -> (is_member: bool)
    ensures
        is_member == id_set_members(*s).contains(key),
{
    s.contains(&key)
}

/// Whether `v` holds `x`.
pub fn holds(v: &Vec<Id>, x: Id) -> (r: bool)
    ensures
        r == v@.contains(x),
{
    let mut i: usize = 0;
    while i < v.len()
        invariant
            i <= v.len(),
            forall|k: int| 0 <= k < i ==> v@[k] != x,
        decreases v.len() - i,
    {
        if v[i] == x {
            return true;
        }
        i += 1;
    }
    false
}

/// `DashSet::retain`, keeping the members that `keep` holds: the others
/// are gone.
#[verifier::external_body]
pub(crate) fn id_set_retain(s: &mut DashSet<u128>, keep: &Vec<Id>)
    ensures
        id_set_members(*final(s)) == id_set_members(*old(s)).intersect(keep@.to_set()),
{
    s.retain(|id| holds(keep, *id));
}

/// `DashSet::iter`: every member once, in no particular order.
#[verifier::external_body]
pub(crate) fn id_set_ids(s: &DashSet<u128>) -> (ids: Vec<Id>)
    ensures
        ids@.no_duplicates(),
        ids@.to_set() == id_set_members(*s),
{
    s.iter().map(|e| *e.key()).collect()
}

/// `DashMap::new`: an empty table.
#[verifier::external_body]
pub(crate) fn bucket_new() -> (m: DashMap<u128, RateLimitState>)
    ensures
        bucket_entries(m).dom() == Set::<u128>::empty(),
{
    DashMap::new()
}

/// `DashMap::get`: a copy of the bucket under the key, if there is one.
#[verifier::external_body]
pub(crate) fn bucket_get(m: &DashMap<u128, RateLimitState>, key: Id) -> (found: Option<
    RateLimitState,
>)
    ensures
        bucket_entries(*m).contains_key(key) ==> found == Some(bucket_entries(*m)[key]),
        !bucket_entries(*m).contains_key(key) ==> found is None,
{
    m.get(&key).map(|r| *r.value())
}

/// `DashMap::insert`: the key now maps to the bucket.
#[verifier::external_body]
pub(crate) fn bucket_insert(m: &mut DashMap<u128, RateLimitState>, key: Id, value: RateLimitState)
    ensures
        bucket_entries(*final(m)) == bucket_entries(*old(m)).insert(key, value),
{
    m.insert(key, value);
}

} // verus!
