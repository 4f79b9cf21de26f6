//! The concurrent tables of the SFU registry: connections by transport,
//! and two indices of transports, by channel and by channel and user.

use vstd::prelude::*;
use dashmap::DashMap;
use crate::ids::Id;
use crate::sfu::models::{ConnectionView, ParticipantConnection};

verus! {

/// The entries of a connection table.
pub uninterp spec fn connection_entries(m: DashMap<u128, ParticipantConnection>) -> Map<
    u128,
    ConnectionView,
>;

/// The entries of the index of transports by channel.
pub uninterp spec fn channel_index_entries(m: DashMap<u128, Vec<u128>>) -> Map<u128, Seq<u128>>;

/// The entries of the index of transports by channel and user.
pub uninterp spec fn user_index_entries(m: DashMap<(u128, u128), Vec<u128>>) -> Map<
    (u128, u128),
    Seq<u128>,
>;

/// `DashMap::new`: an empty table.
#[verifier::external_body]
pub(crate) fn connections_new() -> (m: DashMap<u128, ParticipantConnection>)
    ensures
        connection_entries(m).dom() == Set::<u128>::empty(),
{
    DashMap::new()
}

/// `DashMap::get`: a copy of the connection under the key, if there is one.
#[verifier::external_body]
pub(crate) fn connections_get(m: &DashMap<u128, ParticipantConnection>, key: Id) -> (found: Option<
    ParticipantConnection,
>)
    ensures
        connection_entries(*m).contains_key(key) ==> found is Some && found->Some_0@
            == connection_entries(*m)[key],
        !connection_entries(*m).contains_key(key) ==> found is None,
{
    m.get(&key).map(|r| r.value().clone())
}

/// `DashMap::insert`: the key now maps to the connection.
#[verifier::external_body]
pub(crate) fn connections_insert(
    m: &mut DashMap<u128, ParticipantConnection>,
    key: Id,
    value: ParticipantConnection,
)
    ensures
        connection_entries(*final(m)) == connection_entries(*old(m)).insert(key, value@),
{
    m.insert(key, value);
}

/// `DashMap::remove`: the key is gone, and its connection, if it had one,
/// is returned.
#[verifier::external_body]
pub(crate) fn connections_remove(m: &mut DashMap<u128, ParticipantConnection>, key: Id) -> (prev:
    Option<ParticipantConnection>)
    ensures
        connection_entries(*final(m)) == connection_entries(*old(m)).remove(key),
        connection_entries(*old(m)).contains_key(key) ==> prev is Some && prev->Some_0@
            == connection_entries(*old(m))[key],
        !connection_entries(*old(m)).contains_key(key) ==> prev is None,
{
    m.remove(&key).map(|(_, v)| v)
}

/// `DashMap::new`: an empty table.
#[verifier::external_body]
pub(crate) fn channel_index_new() -> (m: DashMap<u128, Vec<u128>>)
    ensures
        channel_index_entries(m).dom() == Set::<u128>::empty(),
{
    DashMap::new()
}

/// `DashMap::get`: a copy of the list under the key, if there is one.
#[verifier::external_body]
pub(crate) fn channel_index_get(m: &DashMap<u128, Vec<u128>>, key: Id) -> (found: Option<Vec<Id>>)
    ensures
        channel_index_entries(*m).contains_key(key) ==> found is Some && found->Some_0@
            == channel_index_entries(*m)[key],
        !channel_index_entries(*m).contains_key(key) ==> found is None,
{
    m.get(&key).map(|r| r.value().clone())
}

/// `DashMap::insert`: the key now maps to the list.
#[verifier::external_body]
pub(crate) fn channel_index_insert(m: &mut DashMap<u128, Vec<u128>>, key: Id, value: Vec<Id>)
    ensures
        channel_index_entries(*final(m)) == channel_index_entries(*old(m)).insert(key, value@),
{
    m.insert(key, value);
}

/// `DashMap::new`: an empty table.
#[verifier::external_body]
pub(crate) fn user_index_new() -> (m: DashMap<(u128, u128), Vec<u128>>)
    ensures
        user_index_entries(m).dom() == Set::<(u128, u128)>::empty(),
{
    DashMap::new()
}

/// `DashMap::get`: a copy of the list under the key, if there is one.
#[verifier::external_body]
pub(crate) fn user_index_get(m: &DashMap<(u128, u128), Vec<u128>>, key: (Id, Id)) -> (found: Option<
    Vec<Id>,
>)
    ensures
        user_index_entries(*m).contains_key(key) ==> found is Some && found->Some_0@
            == user_index_entries(*m)[key],
        !user_index_entries(*m).contains_key(key) ==> found is None,
{
    m.get(&key).map(|r| r.value().clone())
}

/// `DashMap::insert`: the key now maps to the list.
#[verifier::external_body]
pub(crate) fn user_index_insert(m: &mut DashMap<(u128, u128), Vec<u128>>, key: (Id, Id), value: Vec<
    Id,
>)
    ensures
        user_index_entries(*final(m)) == user_index_entries(*old(m)).insert(key, value@),
{
    m.insert(key, value);
}

} // verus!
