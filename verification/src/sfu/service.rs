//! The registry of signalling sessions. Every transport created on the
//! media worker is recorded here with its channel and owner, and indexed by
//! channel and by channel and user; producers and consumers are recorded
//! under the transport that owns them.

use vstd::prelude::*;
use dashmap::DashMap;
use crate::ids::Id;
use crate::models::copy_opt_string;
use crate::sfu::models::{
    ConnectionView, MediaKind, ParticipantConnection, ProducerEntry, ProducerInfo,
};
use crate::sfu::tables::{
    channel_index_entries, channel_index_get, channel_index_insert, channel_index_new,
    connection_entries, connections_get, connections_insert, connections_new,
    connections_remove, user_index_entries, user_index_get, user_index_insert, user_index_new,
};
use crate::shared::error::{AppError, ErrorKind};

verus! {

/// A transport older than this many seconds is stale when its owner asks
/// for a new one.
pub const STALE_TRANSPORT_THRESHOLD_SECS: u64 = 5;

/// The address announced when none is configured and none is detected.
pub const DEFAULT_ANNOUNCED_IP: &'static str = "127.0.0.1";

/// The address a registry announces: the configured one; else the one
/// that was detected; else the loopback address.
pub fn choose_announced_ip(configured: Option<String>, detected: Option<String>) -> (ip: String)
    ensures
        ip@ == (match configured {
            Some(c) => c@,
            None => match detected {
                Some(d) => d@,
                None => DEFAULT_ANNOUNCED_IP@,
            },
        }),
{
    match configured {
        Some(c) => c,
        None => match detected {
            Some(d) => d,
            None => String::from_str(DEFAULT_ANNOUNCED_IP),
        },
    }
}

/// `ids` without the members of `gone`, in order.
pub open spec fn without(ids: Seq<Id>, gone: Set<Id>) -> Seq<Id>
    decreases ids.len(),
{
    if ids.len() == 0 {
        ids
    } else if gone.contains(ids.last()) {
        without(ids.drop_last(), gone)
    } else {
        without(ids.drop_last(), gone).push(ids.last())
    }
}

/// What `without` keeps: the members of `ids` that are not in `gone`.
pub proof fn without_contains(ids: Seq<Id>, gone: Set<Id>, x: Id)
    ensures
        without(ids, gone).contains(x) <==> ids.contains(x) && !gone.contains(x),
    decreases ids.len(),
{
    if ids.len() > 0 {
        let rest = ids.drop_last();
        without_contains(rest, gone, x);
        let w = without(rest, gone);
        if ids.contains(x) {
            let k = choose|k: int| 0 <= k < ids.len() && ids[k] == x;
            if k < ids.len() - 1 {
                assert(rest[k] == x);
            }
        }
        if rest.contains(x) {
            let k = choose|k: int| 0 <= k < rest.len() && rest[k] == x;
            assert(ids[k] == x);
        }
        assert(ids[ids.len() - 1] == ids.last());
        if !gone.contains(ids.last()) {
            let p = w.push(ids.last());
            if w.contains(x) {
                let k = choose|k: int| 0 <= k < w.len() && w[k] == x;
                assert(p[k] == x);
            }
            if x == ids.last() {
                assert(p[p.len() - 1] == x);
            }
            if p.contains(x) {
                let k = choose|k: int| 0 <= k < p.len() && p[k] == x;
                if k < w.len() {
                    assert(w[k] == x);
                }
            }
        }
    }
}

/// `without` keeps a list free of repeats so.
pub proof fn without_no_duplicates(ids: Seq<Id>, gone: Set<Id>)
    requires
        ids.no_duplicates(),
    ensures
        without(ids, gone).no_duplicates(),
    decreases ids.len(),
{
    if ids.len() > 0 {
        let rest = ids.drop_last();
        without_no_duplicates(rest, gone);
        if !gone.contains(ids.last()) {
            without_contains(rest, gone, ids.last());
            if rest.contains(ids.last()) {
                let k = choose|k: int| 0 <= k < rest.len() && rest[k] == ids.last();
                assert(ids[k] == ids[ids.len() - 1]);
            }
        }
    }
}

/// Removing nothing that is there changes nothing.
pub proof fn without_nothing(ids: Seq<Id>, gone: Set<Id>)
    requires
        forall|k: int| 0 <= k < ids.len() ==> !gone.contains(#[trigger] ids[k]),
    ensures
        without(ids, gone) == ids,
    decreases ids.len(),
{
    if ids.len() > 0 {
        without_nothing(ids.drop_last(), gone);
        assert(ids.drop_last().push(ids.last()) =~= ids);
    }
}

/// Removing in two steps is removing the union.
pub proof fn without_twice(ids: Seq<Id>, a: Set<Id>, b: Set<Id>)
    ensures
        without(without(ids, a), b) == without(ids, a.union(b)),
    decreases ids.len(),
{
    if ids.len() > 0 {
        let rest = ids.drop_last();
        without_twice(rest, a, b);
        if !a.contains(ids.last()) {
            let w = without(rest, a);
            assert(w.push(ids.last()).drop_last() =~= w);
        }
    }
}

/// An index with the members of `gone` taken out of every list.
pub open spec fn pruned<K>(index: Map<K, Seq<Id>>, gone: Set<Id>) -> Map<K, Seq<Id>> {
    Map::new(|k: K| index.contains_key(k), |k: K| without(index[k], gone))
}

/// Whether a connection created at `created_at` is stale at `now`.
pub open spec fn is_stale(created_at: u64, now: u64) -> bool {
    now - created_at > STALE_TRANSPORT_THRESHOLD_SECS
}

/// A producer of a connection, as announced.
pub open spec fn info_of(conn: ConnectionView, entry: ProducerEntry) -> ProducerInfo {
    ProducerInfo {
        producer_id: entry.id,
        channel_id: conn.channel_id,
        user_id: conn.user_id,
        kind: entry.kind,
        label: entry.label,
    }
}

/// The producers of a connection, as announced, in the order they were made.
pub open spec fn infos_of(conn: ConnectionView) -> Seq<ProducerInfo> {
    Seq::new(conn.producers.len(), |i: int| info_of(conn, conn.producers[i]))
}

/// The producers of the listed transports, transport by transport.
pub open spec fn channel_infos(conns: Map<Id, ConnectionView>, ids: Seq<Id>) -> Seq<ProducerInfo>
    decreases ids.len(),
{
    if ids.len() == 0 {
        Seq::empty()
    } else if conns.contains_key(ids.last()) {
        channel_infos(conns, ids.drop_last()) + infos_of(conns[ids.last()])
    } else {
        channel_infos(conns, ids.drop_last())
    }
}

/// `v` without the identifier `t`.
fn remove_id(v: &Vec<Id>, t: Id) -> (r: Vec<Id>)
    ensures
        r@ == without(v@, set![t]),
{
    let mut r: Vec<Id> = Vec::new();
    let mut i: usize = 0;
    assert(v@.take(0) =~= Seq::<Id>::empty());
    while i < v.len()
        invariant
            i <= v.len(),
            r@ == without(v@.take(i as int), set![t]),
        decreases v.len() - i,
    {
        assert(v@.take(i + 1).drop_last() =~= v@.take(i as int));
        assert(v@.take(i + 1).last() == v@[i as int]);
        if v[i] != t {
            r.push(v[i]);
        }
        i += 1;
    }
    assert(v@.take(v.len() as int) =~= v@);
    r
}

/// Whether `c` is the connection that `conns` holds under one of `ids`.
pub open spec fn listed(c: ParticipantConnection, conns: Map<Id, ConnectionView>, ids: Set<Id>) -> bool {
    ids.contains(c.transport_id) && conns.contains_key(c.transport_id) && conns[c.transport_id]
        == c@
}

/// Whether one of `closed` has the transport `t`.
pub open spec fn has_transport(closed: Seq<ParticipantConnection>, t: Id) -> bool {
    exists|k: int| 0 <= k < closed.len() && (#[trigger] closed[k]).transport_id == t
}

/// Whether `closed` holds exactly the connections that `conns` holds under
/// `ids`, each once.
pub open spec fn closed_from(
    closed: Seq<ParticipantConnection>,
    conns: Map<Id, ConnectionView>,
    ids: Set<Id>,
) -> bool {
    &&& forall|k: int| 0 <= k < closed.len() ==> listed(#[trigger] closed[k], conns, ids)
    &&& forall|a: int, b: int|
        0 <= a < b < closed.len() ==> (#[trigger] closed[a]).transport_id != (
        #[trigger] closed[b]).transport_id
    &&& forall|t: Id| ids.contains(t) && conns.contains_key(t) ==> has_transport(closed, t)
}

/// What recording a new transport hands back.
#[derive(Debug)]
pub struct TransportCreation {
    /// The stale connections that were closed first.
    pub closed: Vec<ParticipantConnection>,
    /// Whether the transport was recorded.
    pub outcome: Result<(), AppError>,
}

/// The registry of signalling sessions.
pub struct SfuService {
    connections: DashMap<u128, ParticipantConnection>,
    channel_connections: DashMap<u128, Vec<u128>>,
    user_connections: DashMap<(u128, u128), Vec<u128>>,
    announced_ip: String,
}

impl SfuService {
    /// The connections, by transport.
    pub closed spec fn connections(&self) -> Map<Id, ConnectionView> {
        connection_entries(self.connections)
    }

    /// The transports of each channel, oldest first.
    pub closed spec fn by_channel(&self) -> Map<Id, Seq<Id>> {
        channel_index_entries(self.channel_connections)
    }

    /// The transports of each user in each channel, oldest first.
    pub closed spec fn by_user(&self) -> Map<(Id, Id), Seq<Id>> {
        user_index_entries(self.user_connections)
    }

    /// The address announced to peers.
    pub closed spec fn announced(&self) -> Seq<char> {
        self.announced_ip@
    }

    /// Whether `t` is a connection of `user` in `channel`.
    pub open spec fn is_connection_of(&self, t: Id, channel: Id, user: Id) -> bool {
        self.connections().contains_key(t) && self.connections()[t].channel_id == channel
            && self.connections()[t].user_id == user
    }

    /// The invariant of the registry: a connection is filed under its own
    /// transport and listed in both indices, and the indices list live
    /// connections only, each once.
    pub open spec fn wf(&self) -> bool {
        &&& forall|t: Id| #[trigger]
            self.connections().contains_key(t) ==> {
                let c = self.connections()[t];
                &&& c.transport_id == t
                &&& self.by_channel().contains_key(c.channel_id)
                &&& self.by_channel()[c.channel_id].contains(t)
                &&& self.by_user().contains_key((c.channel_id, c.user_id))
                &&& self.by_user()[(c.channel_id, c.user_id)].contains(t)
            }
        &&& forall|c: Id, t: Id|
            self.by_channel().contains_key(c) && #[trigger] self.by_channel()[c].contains(t)
                ==> self.connections().contains_key(t) && self.connections()[t].channel_id == c
        &&& forall|c: Id| #[trigger]
            self.by_channel().contains_key(c) ==> self.by_channel()[c].no_duplicates()
        &&& forall|k: (Id, Id), t: Id|
            self.by_user().contains_key(k) && #[trigger] self.by_user()[k].contains(t)
                ==> self.is_connection_of(t, k.0, k.1)
        &&& forall|k: (Id, Id)| #[trigger]
            self.by_user().contains_key(k) ==> self.by_user()[k].no_duplicates()
    }

    /// The state after the connections in `gone` were closed in `before`.
    pub open spec fn is_closing_of(&self, before: &Self, gone: Set<Id>) -> bool {
        &&& self.connections() == before.connections().remove_keys(gone)
        &&& self.by_channel() == pruned(before.by_channel(), gone)
        &&& self.by_user() == pruned(before.by_user(), gone)
        &&& self.announced() == before.announced()
    }

    /// The transports of a user in a channel.
    pub open spec fn transports_of(&self, channel: Id, user: Id) -> Seq<Id> {
        if self.by_user().contains_key((channel, user)) {
            self.by_user()[(channel, user)]
        } else {
            Seq::empty()
        }
    }

    /// An empty registry that announces `announced_ip`.
    pub fn new(announced_ip: String) -> (s: Self)
        ensures
            s.wf(),
            s.connections() == Map::<Id, ConnectionView>::empty(),
            s.by_channel() == Map::<Id, Seq<Id>>::empty(),
            s.by_user() == Map::<(Id, Id), Seq<Id>>::empty(),
            s.announced() == announced_ip@,
    {
        let s = SfuService {
            connections: connections_new(),
            channel_connections: channel_index_new(),
            user_connections: user_index_new(),
            announced_ip,
        };
        assert(s.connections() =~= Map::<Id, ConnectionView>::empty());
        assert(s.by_channel() =~= Map::<Id, Seq<Id>>::empty());
        assert(s.by_user() =~= Map::<(Id, Id), Seq<Id>>::empty());
        s
    }

    /// The address announced to peers.
    pub fn announced_ip(&self) -> (ip: String)
        ensures
            ip@ == self.announced(),
    {
        self.announced_ip.clone()
    }

    /// The transports of a channel.
    pub open spec fn channel_transports(&self, channel: Id) -> Seq<Id> {
        if self.by_channel().contains_key(channel) {
            self.by_channel()[channel]
        } else {
            Seq::empty()
        }
    }

    /// The connections of a user in a channel that are stale at `now`.
    pub open spec fn stale_set(&self, channel: Id, user: Id, now: u64) -> Set<Id> {
        Set::new(
            |t: Id|
                self.is_connection_of(t, channel, user) && is_stale(
                    self.connections()[t].created_at,
                    now,
                ),
        )
    }

    /// Sweeps the transports of `user` in `channel` that are stale at `now`,
    /// then records the transport that the media worker created for them. A
    /// transport that is still recorded after the sweep is refused. The
    /// closed connections are handed back either way.
    pub fn create_transport(&mut self, channel_id: Id, user_id: Id, transport_id: Id, now: u64) -> (r:
        TransportCreation)
        requires
            old(self).wf(),
        ensures
            final(self).wf(),
            final(self).announced() == old(self).announced(),
            closed_from(
                r.closed@,
                old(self).connections(),
                old(self).stale_set(channel_id, user_id, now),
            ),
            ({
                let stale = old(self).stale_set(channel_id, user_id, now);
                let swept = old(self).connections().remove_keys(stale);
                if swept.contains_key(transport_id) {
                    &&& r.outcome is Err
                    &&& r.outcome->Err_0.is(ErrorKind::Internal, "Transport already registered"@)
                    &&& final(self).is_closing_of(old(self), stale)
                } else {
                    &&& r.outcome is Ok
                    &&& final(self).connections() == swept.insert(
                        transport_id,
                        (ConnectionView {
                            channel_id,
                            user_id,
                            transport_id,
                            producers: Seq::empty(),
                            consumer_ids: Seq::empty(),
                            created_at: now,
                        }),
                    )
                    &&& final(self).by_channel() == pruned(old(self).by_channel(), stale).insert(
                        channel_id,
                        without(old(self).channel_transports(channel_id), stale).push(transport_id),
                    )
                    &&& final(self).by_user() == pruned(old(self).by_user(), stale).insert(
                        (channel_id, user_id),
                        without(old(self).transports_of(channel_id, user_id), stale).push(
                            transport_id,
                        ),
                    )
                }
            }),
    {
        let closed = self.cleanup_stale_transports(channel_id, user_id, now);
        let ghost mid = *self;
        let outcome = self.register_transport(channel_id, user_id, transport_id, now);
        proof {
            let stale = old(self).stale_set(channel_id, user_id, now);
            assert(mid.channel_transports(channel_id) == without(
                old(self).channel_transports(channel_id),
                stale,
            ));
            assert(mid.transports_of(channel_id, user_id) == without(
                old(self).transports_of(channel_id, user_id),
                stale,
            ));
        }
        TransportCreation { closed, outcome }
    }

    /// Records a transport for `user` in `channel`. A transport that is
    /// already recorded is refused.
    fn register_transport(&mut self, channel_id: Id, user_id: Id, transport_id: Id, now: u64) -> (r:
        Result<(), AppError>)
        requires
            old(self).wf(),
        ensures
            final(self).wf(),
            final(self).announced() == old(self).announced(),
            old(self).connections().contains_key(transport_id) ==> r is Err && r->Err_0.is(
                ErrorKind::Internal,
                "Transport already registered"@,
            ) && final(self).connections() == old(self).connections() && final(self).by_channel()
                == old(self).by_channel() && final(self).by_user() == old(self).by_user(),
            !old(self).connections().contains_key(transport_id) ==> r is Ok
                && final(self).connections() == old(self).connections().insert(
                transport_id,
                (ConnectionView {
                    channel_id,
                    user_id,
                    transport_id,
                    producers: Seq::empty(),
                    consumer_ids: Seq::empty(),
                    created_at: now,
                }),
            ) && final(self).by_channel() == old(self).by_channel().insert(
                channel_id,
                old(self).channel_transports(channel_id).push(transport_id),
            ) && final(self).by_user() == old(self).by_user().insert(
                (channel_id, user_id),
                old(self).transports_of(channel_id, user_id).push(transport_id),
            ),
    {
        if connections_get(&self.connections, transport_id).is_some() {
            return Err(AppError::internal("Transport already registered"));
        }
        let connection = ParticipantConnection {
            channel_id,
            user_id,
            transport_id,
            producers: Vec::new(),
            consumer_ids: Vec::new(),
            created_at: now,
        };
        connections_insert(&mut self.connections, transport_id, connection);
        let mut in_channel = match channel_index_get(&self.channel_connections, channel_id) {
            Some(list) => list,
            None => Vec::new(),
        };
        in_channel.push(transport_id);
        channel_index_insert(&mut self.channel_connections, channel_id, in_channel);
        let mut of_user = match user_index_get(&self.user_connections, (channel_id, user_id)) {
            Some(list) => list,
            None => Vec::new(),
        };
        of_user.push(transport_id);
        user_index_insert(&mut self.user_connections, (channel_id, user_id), of_user);
        proof {
            let o = old(self);
            let oc = o.channel_transports(channel_id);
            let ou = o.transports_of(channel_id, user_id);
            assert(!oc.contains(transport_id));
            assert(!ou.contains(transport_id));
            assert(oc.push(transport_id)[oc.len() as int] == transport_id);
            assert(ou.push(transport_id)[ou.len() as int] == transport_id);
            assert forall|t: Id| #[trigger] self.connections().contains_key(t) implies {
                let c = self.connections()[t];
                &&& c.transport_id == t
                &&& self.by_channel().contains_key(c.channel_id)
                &&& self.by_channel()[c.channel_id].contains(t)
                &&& self.by_user().contains_key((c.channel_id, c.user_id))
                &&& self.by_user()[(c.channel_id, c.user_id)].contains(t)
            } by {
                if t != transport_id {
                    assert(o.connections().contains_key(t));
                    let c = o.connections()[t];
                    if c.channel_id == channel_id {
                        let k = choose|k: int| 0 <= k < oc.len() && oc[k] == t;
                        assert(oc.push(transport_id)[k] == t);
                    }
                    if c.channel_id == channel_id && c.user_id == user_id {
                        let k = choose|k: int| 0 <= k < ou.len() && ou[k] == t;
                        assert(ou.push(transport_id)[k] == t);
                    }
                }
            }
            assert forall|c: Id, t: Id|
                self.by_channel().contains_key(c) && #[trigger] self.by_channel()[c].contains(
                    t,
                ) implies self.connections().contains_key(t) && self.connections()[t].channel_id
                == c by {
                if c == channel_id {
                    let l = oc.push(transport_id);
                    let k = choose|k: int| 0 <= k < l.len() && l[k] == t;
                    if k < oc.len() {
                        assert(oc[k] == t);
                        assert(o.by_channel()[c].contains(t));
                    }
                } else {
                    assert(o.by_channel()[c].contains(t));
                }
            }
            assert forall|k: (Id, Id), t: Id|
                self.by_user().contains_key(k) && #[trigger] self.by_user()[k].contains(
                    t,
                ) implies self.is_connection_of(t, k.0, k.1) by {
                if k == (channel_id, user_id) {
                    let l = ou.push(transport_id);
                    let j = choose|j: int| 0 <= j < l.len() && l[j] == t;
                    if j < ou.len() {
                        assert(ou[j] == t);
                        assert(o.by_user()[k].contains(t));
                        assert(o.is_connection_of(t, k.0, k.1));
                    }
                } else {
                    assert(o.by_user()[k].contains(t));
                    assert(o.is_connection_of(t, k.0, k.1));
                }
            }
            assert forall|c: Id| #[trigger] self.by_channel().contains_key(c) implies self.by_channel()[c].no_duplicates() by {
                if c != channel_id {
                    assert(o.by_channel().contains_key(c));
                } else if o.by_channel().contains_key(c) {
                    assert(oc.no_duplicates());
                }
            }
            assert forall|k: (Id, Id)| #[trigger] self.by_user().contains_key(k) implies self.by_user()[k].no_duplicates() by {
                if k != (channel_id, user_id) {
                    assert(o.by_user().contains_key(k));
                } else if o.by_user().contains_key(k) {
                    assert(ou.no_duplicates());
                }
            }
        }
        Ok(())
    }

    /// Closes a connection: it leaves the table and both indices, and is
    /// handed back with the producers and consumers it owned.
    pub fn close_connection(&mut self, transport_id: Id) -> (r: Result<ParticipantConnection, AppError>)
        requires
            old(self).wf(),
        ensures
            final(self).wf(),
            final(self).is_closing_of(old(self), set![transport_id]),
            old(self).connections().contains_key(transport_id) ==> r is Ok && r->Ok_0@ == old(
                self,
            ).connections()[transport_id],
            !old(self).connections().contains_key(transport_id) ==> r is Err && r->Err_0.is(
                ErrorKind::NotFound,
                "Connection not found"@,
            ),
    {
        let ghost o = *old(self);
        let ghost gone = set![transport_id];
        let connection = match connections_remove(&mut self.connections, transport_id) {
            Some(c) => c,
            None => {
                proof {
                    assert(self.connections() =~= o.connections().remove_keys(gone));
                    assert forall|c: Id| o.by_channel().contains_key(c) implies without(
                        o.by_channel()[c],
                        gone,
                    ) == o.by_channel()[c] by {
                        assert forall|k: int| 0 <= k < o.by_channel()[c].len() implies !gone.contains(
                            #[trigger] o.by_channel()[c][k],
                        ) by {
                            assert(o.by_channel()[c].contains(o.by_channel()[c][k]));
                        }
                        without_nothing(o.by_channel()[c], gone);
                    }
                    assert(self.by_channel() =~= pruned(o.by_channel(), gone));
                    assert forall|k: (Id, Id)| o.by_user().contains_key(k) implies without(
                        o.by_user()[k],
                        gone,
                    ) == o.by_user()[k] by {
                        assert forall|j: int| 0 <= j < o.by_user()[k].len() implies !gone.contains(
                            #[trigger] o.by_user()[k][j],
                        ) by {
                            assert(o.by_user()[k].contains(o.by_user()[k][j]));
                            assert(o.is_connection_of(o.by_user()[k][j], k.0, k.1));
                        }
                        without_nothing(o.by_user()[k], gone);
                    }
                    assert(self.by_user() =~= pruned(o.by_user(), gone));
                }
                return Err(AppError::not_found("Connection not found"));
            },
        };
        let channel_id = connection.channel_id;
        let user_id = connection.user_id;
        assert(o.connections().contains_key(transport_id));
        match channel_index_get(&self.channel_connections, channel_id) {
            Some(list) => {
                let kept = remove_id(&list, transport_id);
                channel_index_insert(&mut self.channel_connections, channel_id, kept);
            },
            None => {},
        }
        match user_index_get(&self.user_connections, (channel_id, user_id)) {
            Some(list) => {
                let kept = remove_id(&list, transport_id);
                user_index_insert(&mut self.user_connections, (channel_id, user_id), kept);
            },
            None => {},
        }
        proof {
            assert(self.connections() =~= o.connections().remove_keys(gone));
            assert forall|c: Id| o.by_channel().contains_key(c) implies #[trigger] self.by_channel()[c]
                == without(o.by_channel()[c], gone) by {
                if c != channel_id {
                    assert forall|k: int| 0 <= k < o.by_channel()[c].len() implies !gone.contains(
                        #[trigger] o.by_channel()[c][k],
                    ) by {
                        assert(o.by_channel()[c].contains(o.by_channel()[c][k]));
                    }
                    without_nothing(o.by_channel()[c], gone);
                }
            }
            assert(self.by_channel() =~= pruned(o.by_channel(), gone));
            assert forall|k: (Id, Id)| o.by_user().contains_key(k) implies #[trigger] self.by_user()[k]
                == without(o.by_user()[k], gone) by {
                if k != (channel_id, user_id) {
                    assert forall|j: int| 0 <= j < o.by_user()[k].len() implies !gone.contains(
                        #[trigger] o.by_user()[k][j],
                    ) by {
                        assert(o.by_user()[k].contains(o.by_user()[k][j]));
                        assert(o.is_connection_of(o.by_user()[k][j], k.0, k.1));
                    }
                    without_nothing(o.by_user()[k], gone);
                }
            }
            assert(self.by_user() =~= pruned(o.by_user(), gone));
            closing_keeps_wf(&o, self, gone);
        }
        Ok(connection)
    }

    /// Closes each listed connection that exists, in order, and hands the
    /// closed connections back.
    fn close_all(&mut self, ids: &Vec<Id>) -> (closed: Vec<ParticipantConnection>)
        requires
            old(self).wf(),
        ensures
            final(self).wf(),
            final(self).is_closing_of(old(self), ids@.to_set()),
            closed_from(closed@, old(self).connections(), ids@.to_set()),
    {
        let ghost o = *old(self);
        let mut closed: Vec<ParticipantConnection> = Vec::new();
        let mut i: usize = 0;
        proof {
            assert(ids@.take(0).to_set() =~= Set::<Id>::empty());
            closing_nothing(&o);
        }
        while i < ids.len()
            invariant
                i <= ids.len(),
                o.wf(),
                self.wf(),
                self.is_closing_of(&o, ids@.take(i as int).to_set()),
                closed_from(closed@, o.connections(), ids@.take(i as int).to_set()),
            decreases ids.len() - i,
        {
            let t = ids[i];
            let ghost done = ids@.take(i as int).to_set();
            let ghost mid = *self;
            let ghost before = closed@;
            proof {
                let prev = ids@.take(i as int);
                let next = ids@.take(i + 1);
                assert(next =~= prev.push(t));
                prev.lemma_push_to_set_commute(t);
                assert(next.to_set() =~= done.union(set![t]));
            }
            match self.close_connection(t) {
                Ok(c) => {
                    closed.push(c);
                    proof {
                        assert(mid.connections().contains_key(t));
                        assert(!done.contains(t));
                        assert(c@ == o.connections()[t]);
                        assert(o.connections()[t].transport_id == t);
                        let all = done.union(set![t]);
                        assert forall|k: int| 0 <= k < closed@.len() implies listed(
                            #[trigger] closed@[k],
                            o.connections(),
                            all,
                        ) by {
                            if k < before.len() {
                                assert(closed@[k] == before[k]);
                                assert(listed(before[k], o.connections(), done));
                            }
                        }
                        assert forall|a: int, b: int| 0 <= a < b < closed@.len() implies (
                        #[trigger] closed@[a]).transport_id != (
                        #[trigger] closed@[b]).transport_id by {
                            if b < before.len() {
                                assert(closed@[a] == before[a] && closed@[b] == before[b]);
                            } else {
                                assert(closed@[a] == before[a]);
                                assert(listed(before[a], o.connections(), done));
                            }
                        }
                        assert forall|x: Id|
                            all.contains(x) && o.connections().contains_key(
                                x,
                            ) implies has_transport(closed@, x) by {
                            if x == t {
                                assert(closed@[before.len() as int].transport_id == t);
                            } else {
                                assert(has_transport(before, x));
                                let k = choose|k: int|
                                    0 <= k < before.len() && (#[trigger] before[k]).transport_id
                                        == x;
                                assert(closed@[k] == before[k]);
                            }
                        }
                    }
                },
                Err(_) => {
                    proof {
                        let all = done.union(set![t]);
                        assert(!mid.connections().contains_key(t));
                        assert forall|k: int| 0 <= k < closed@.len() implies listed(
                            #[trigger] closed@[k],
                            o.connections(),
                            all,
                        ) by {
                            assert(listed(closed@[k], o.connections(), done));
                        }
                        assert forall|x: Id|
                            all.contains(x) && o.connections().contains_key(
                                x,
                            ) implies has_transport(closed@, x) by {
                            if x == t {
                                assert(done.contains(t));
                            }
                            assert(has_transport(before, x));
                        }
                    }
                },
            }
            proof {
                closing_twice(&o, &mid, self, done, set![t]);
            }
            i += 1;
        }
        assert(ids@.take(ids.len() as int) =~= ids@);
        closed
    }

    /// Closes every connection of a user in a channel and hands them back.
    /// Closing again closes nothing.
    pub fn close_user_connections(&mut self, channel_id: Id, user_id: Id) -> (closed: Vec<
        ParticipantConnection,
    >)
        requires
            old(self).wf(),
        ensures
            final(self).wf(),
            final(self).is_closing_of(
                old(self),
                old(self).transports_of(channel_id, user_id).to_set(),
            ),
            closed_from(
                closed@,
                old(self).connections(),
                old(self).transports_of(channel_id, user_id).to_set(),
            ),
            forall|t: Id| !final(self).is_connection_of(t, channel_id, user_id),
            final(self).transports_of(channel_id, user_id).len() == 0,
    {
        let ids = match user_index_get(&self.user_connections, (channel_id, user_id)) {
            Some(list) => list,
            None => Vec::new(),
        };
        assert(ids@ == old(self).transports_of(channel_id, user_id));
        let closed = self.close_all(&ids);
        proof {
            let o = old(self);
            let gone = ids@.to_set();
            assert forall|t: Id| !self.is_connection_of(t, channel_id, user_id) by {
                if self.is_connection_of(t, channel_id, user_id) {
                    assert(o.connections().contains_key(t));
                    assert(o.by_user()[(channel_id, user_id)].contains(t));
                    assert(gone.contains(t));
                }
            }
            let rest = self.transports_of(channel_id, user_id);
            if rest.len() > 0 {
                assert(self.by_user()[(channel_id, user_id)].contains(rest[0]));
                assert(self.is_connection_of(rest[0], channel_id, user_id));
            }
        }
        closed
    }

    /// The transports of a user in a channel that are stale at `now`, given
    /// in seconds since the Unix epoch.
    pub fn stale_transports(&self, channel_id: Id, user_id: Id, now: u64) -> (stale: Vec<Id>)
        requires
            self.wf(),
        ensures
            stale@.no_duplicates(),
            stale@.to_set() == self.stale_set(channel_id, user_id, now),
    {
        let ids = match user_index_get(&self.user_connections, (channel_id, user_id)) {
            Some(list) => list,
            None => Vec::new(),
        };
        let mut stale: Vec<Id> = Vec::new();
        let mut i: usize = 0;
        proof {
            if self.by_user().contains_key((channel_id, user_id)) {
                assert(self.by_user()[(channel_id, user_id)].no_duplicates());
            }
        }
        while i < ids.len()
            invariant
                i <= ids.len(),
                self.wf(),
                ids@ == self.transports_of(channel_id, user_id),
                ids@.no_duplicates(),
                stale@.no_duplicates(),
                forall|t: Id|
                    stale@.contains(t) <==> ids@.take(i as int).contains(t)
                        && self.stale_set(channel_id, user_id, now).contains(t),
            decreases ids.len() - i,
        {
            let t = ids[i];
            let ghost before = stale@;
            let ghost prev = ids@.take(i as int);
            let ghost next = ids@.take(i + 1);
            assert(next =~= prev.push(t));
            let mut is_old = false;
            match connections_get(&self.connections, t) {
                Some(conn) => {
                    if now > conn.created_at && now - conn.created_at
                        > STALE_TRANSPORT_THRESHOLD_SECS {
                        is_old = true;
                    }
                },
                None => {},
            }
            proof {
                assert(ids@.contains(ids@[i as int]));
                assert(self.by_user()[(channel_id, user_id)].contains(t));
                assert(self.is_connection_of(t, channel_id, user_id));
                assert(is_old == self.stale_set(channel_id, user_id, now).contains(t));
            }
            proof {
                if prev.contains(t) {
                    let k = choose|k: int| 0 <= k < prev.len() && prev[k] == t;
                    assert(ids@[k] == ids@[i as int]);
                }
                assert(!before.contains(t));
            }
            if is_old {
                stale.push(t);
            }
            proof {
                assert forall|x: Id|
                    stale@.contains(x) <==> next.contains(x) && self.stale_set(
                        channel_id,
                        user_id,
                        now,
                    ).contains(x) by {
                    if stale@.contains(x) {
                        let k = choose|k: int| 0 <= k < stale@.len() && stale@[k] == x;
                        if k < before.len() {
                            assert(before[k] == x);
                            assert(before.contains(x));
                            let j = choose|j: int| 0 <= j < prev.len() && prev[j] == x;
                            assert(next[j] == x);
                        } else {
                            assert(x == t);
                            assert(next[i as int] == t);
                        }
                    }
                    if next.contains(x) && self.stale_set(channel_id, user_id, now).contains(x) {
                        let j = choose|j: int| 0 <= j < next.len() && next[j] == x;
                        if j < i {
                            assert(prev[j] == x);
                            assert(before.contains(x));
                            let k = choose|k: int| 0 <= k < before.len() && before[k] == x;
                            assert(stale@[k] == x);
                        } else {
                            assert(x == t);
                            assert(stale@[stale@.len() - 1] == t);
                        }
                    }
                }
            }
            i += 1;
        }
        proof {
            assert(ids@.take(ids.len() as int) =~= ids@);
            assert forall|x: Id|
                stale@.to_set().contains(x) == self.stale_set(channel_id, user_id, now).contains(
                    x,
                ) by {
                if self.stale_set(channel_id, user_id, now).contains(x) {
                    assert(self.by_user()[(channel_id, user_id)].contains(x));
                }
            }
            assert(stale@.to_set() =~= self.stale_set(channel_id, user_id, now));
        }
        stale
    }

    /// Closes the transports of a user in a channel that are more than five
    /// seconds old at `now`, and hands the closed connections back.
    pub fn cleanup_stale_transports(&mut self, channel_id: Id, user_id: Id, now: u64) -> (closed:
        Vec<ParticipantConnection>)
        requires
            old(self).wf(),
        ensures
            final(self).wf(),
            final(self).is_closing_of(old(self), old(self).stale_set(channel_id, user_id, now)),
            closed_from(
                closed@,
                old(self).connections(),
                old(self).stale_set(channel_id, user_id, now),
            ),
    {
        let stale = self.stale_transports(channel_id, user_id, now);
        self.close_all(&stale)
    }

    /// Records a producer that the media worker created on a transport.
    pub fn produce(
        &mut self,
        transport_id: Id,
        producer_id: Id,
        kind: MediaKind,
        label: Option<String>,
    ) -> (r: Result<ProducerInfo, AppError>)
        requires
            old(self).wf(),
        ensures
            final(self).wf(),
            final(self).by_channel() == old(self).by_channel(),
            final(self).by_user() == old(self).by_user(),
            final(self).announced() == old(self).announced(),
            !old(self).connections().contains_key(transport_id) ==> r is Err && r->Err_0.is(
                ErrorKind::NotFound,
                "Connection not found"@,
            ) && final(self).connections() == old(self).connections(),
            old(self).connections().contains_key(transport_id) ==> r == Ok::<ProducerInfo, AppError>(
                info_of(
                    old(self).connections()[transport_id],
                    (ProducerEntry { id: producer_id, kind, label }),
                ),
            ) && final(self).connections() == old(self).connections().insert(
                transport_id,
                (ConnectionView {
                    producers: old(self).connections()[transport_id].producers.push(
                        (ProducerEntry { id: producer_id, kind, label }),
                    ),
                    ..old(self).connections()[transport_id]
                }),
            ),
    {
        let mut conn = match connections_get(&self.connections, transport_id) {
            Some(c) => c,
            None => {
                return Err(AppError::not_found("Connection not found"));
            },
        };
        let info = ProducerInfo {
            producer_id,
            channel_id: conn.channel_id,
            user_id: conn.user_id,
            kind,
            label: copy_opt_string(&label),
        };
        conn.producers.push(ProducerEntry { id: producer_id, kind, label });
        connections_insert(&mut self.connections, transport_id, conn);
        proof {
            assert(self.connections().dom() =~= old(self).connections().dom());
            assert(old(self).connections()[transport_id].transport_id == transport_id);
            same_owner_keeps_wf(old(self), self, transport_id);
        }
        Ok(info)
    }

    /// Records a consumer that the media worker created on a transport.
    /// Returns whether the transport is known.
    pub fn consume(&mut self, transport_id: Id, consumer_id: Id) -> (known: bool)
        requires
            old(self).wf(),
        ensures
            final(self).wf(),
            final(self).by_channel() == old(self).by_channel(),
            final(self).by_user() == old(self).by_user(),
            final(self).announced() == old(self).announced(),
            known == old(self).connections().contains_key(transport_id),
            !known ==> final(self).connections() == old(self).connections(),
            known ==> final(self).connections() == old(self).connections().insert(
                transport_id,
                (ConnectionView {
                    consumer_ids: old(self).connections()[transport_id].consumer_ids.push(
                        consumer_id,
                    ),
                    ..old(self).connections()[transport_id]
                }),
            ),
    {
        let mut conn = match connections_get(&self.connections, transport_id) {
            Some(c) => c,
            None => {
                return false;
            },
        };
        conn.consumer_ids.push(consumer_id);
        connections_insert(&mut self.connections, transport_id, conn);
        proof {
            assert(self.connections().dom() =~= old(self).connections().dom());
            assert(old(self).connections()[transport_id].transport_id == transport_id);
            same_owner_keeps_wf(old(self), self, transport_id);
        }
        true
    }

    /// The producers of a channel: transport by transport, oldest first,
    /// and within a transport in the order they were made.
    pub fn get_channel_producers(&self, channel_id: Id) -> (infos: Vec<ProducerInfo>)
        ensures
            infos@ == channel_infos(self.connections(), self.channel_transports(channel_id)),
    {
        let ids = match channel_index_get(&self.channel_connections, channel_id) {
            Some(list) => list,
            None => Vec::new(),
        };
        let mut infos: Vec<ProducerInfo> = Vec::new();
        let mut i: usize = 0;
        assert(ids@.take(0) =~= Seq::<Id>::empty());
        while i < ids.len()
            invariant
                i <= ids.len(),
                ids@ == self.channel_transports(channel_id),
                infos@ == channel_infos(self.connections(), ids@.take(i as int)),
            decreases ids.len() - i,
        {
            let t = ids[i];
            proof {
                assert(ids@.take(i + 1).drop_last() =~= ids@.take(i as int));
                assert(ids@.take(i + 1).last() == t);
            }
            match connections_get(&self.connections, t) {
                Some(conn) => {
                    let ghost base = infos@;
                    let ghost cv = conn@;
                    let mut j: usize = 0;
                    while j < conn.producers.len()
                        invariant
                            j <= conn.producers.len(),
                            conn@ == cv,
                            infos@ == base + infos_of(cv).take(j as int),
                        decreases conn.producers.len() - j,
                    {
                        let entry = &conn.producers[j];
                        infos.push(
                            ProducerInfo {
                                producer_id: entry.id,
                                channel_id: conn.channel_id,
                                user_id: conn.user_id,
                                kind: entry.kind,
                                label: copy_opt_string(&entry.label),
                            },
                        );
                        assert(infos_of(cv).take(j + 1) =~= infos_of(cv).take(j as int).push(
                            info_of(cv, cv.producers[j as int]),
                        ));
                        assert(infos@ =~= base + infos_of(cv).take(j + 1));
                        j += 1;
                    }
                    assert(infos_of(cv).take(conn.producers.len() as int) =~= infos_of(cv));
                },
                None => {},
            }
            i += 1;
        }
        assert(ids@.take(ids.len() as int) =~= ids@);
        infos
    }

    /// Verifies that the user owns the transport.
    pub fn verify_transport_owner(&self, transport_id: Id, user_id: Id) -> (r: Result<(), AppError>)
        ensures
            !self.connections().contains_key(transport_id) ==> r is Err && r->Err_0.is(
                ErrorKind::NotFound,
                "Transport not found"@,
            ),
            self.connections().contains_key(transport_id) && self.connections()[transport_id].user_id
                != user_id ==> r is Err && r->Err_0.is(
                ErrorKind::Forbidden,
                "Transport belongs to another user"@,
            ),
            self.connections().contains_key(transport_id) && self.connections()[transport_id].user_id
                == user_id ==> r is Ok,
    {
        match connections_get(&self.connections, transport_id) {
            None => Err(AppError::not_found("Transport not found")),
            Some(conn) => {
                if conn.user_id != user_id {
                    Err(AppError::forbidden("Transport belongs to another user"))
                } else {
                    Ok(())
                }
            },
        }
    }
}

/// Closing connections keeps the registry well formed.
pub proof fn closing_keeps_wf(before: &SfuService, after: &SfuService, gone: Set<Id>)
    requires
        before.wf(),
        after.is_closing_of(before, gone),
    ensures
        after.wf(),
{
    assert forall|t: Id| #[trigger] after.connections().contains_key(t) implies {
        let c = after.connections()[t];
        &&& c.transport_id == t
        &&& after.by_channel().contains_key(c.channel_id)
        &&& after.by_channel()[c.channel_id].contains(t)
        &&& after.by_user().contains_key((c.channel_id, c.user_id))
        &&& after.by_user()[(c.channel_id, c.user_id)].contains(t)
    } by {
        assert(before.connections().contains_key(t));
        let c = before.connections()[t];
        without_contains(before.by_channel()[c.channel_id], gone, t);
        without_contains(before.by_user()[(c.channel_id, c.user_id)], gone, t);
    }
    assert forall|c: Id, t: Id|
        after.by_channel().contains_key(c) && #[trigger] after.by_channel()[c].contains(
            t,
        ) implies after.connections().contains_key(t) && after.connections()[t].channel_id
        == c by {
        without_contains(before.by_channel()[c], gone, t);
        assert(before.by_channel()[c].contains(t));
    }
    assert forall|c: Id| #[trigger] after.by_channel().contains_key(c) implies after.by_channel()[c].no_duplicates() by {
        assert(before.by_channel().contains_key(c));
        without_no_duplicates(before.by_channel()[c], gone);
    }
    assert forall|k: (Id, Id), t: Id|
        after.by_user().contains_key(k) && #[trigger] after.by_user()[k].contains(
            t,
        ) implies after.is_connection_of(t, k.0, k.1) by {
        without_contains(before.by_user()[k], gone, t);
        assert(before.by_user()[k].contains(t));
        assert(before.is_connection_of(t, k.0, k.1));
    }
    assert forall|k: (Id, Id)| #[trigger] after.by_user().contains_key(k) implies after.by_user()[k].no_duplicates() by {
        assert(before.by_user().contains_key(k));
        without_no_duplicates(before.by_user()[k], gone);
    }
}

/// Replacing a connection by one of the same transport, channel and user
/// keeps the registry well formed.
pub proof fn same_owner_keeps_wf(before: &SfuService, after: &SfuService, t: Id)
    requires
        before.wf(),
        before.connections().contains_key(t),
        after.connections().dom() == before.connections().dom(),
        forall|x: Id|
            x != t && before.connections().contains_key(x) ==> #[trigger] after.connections()[x]
                == before.connections()[x],
        after.connections()[t].transport_id == t,
        after.connections()[t].channel_id == before.connections()[t].channel_id,
        after.connections()[t].user_id == before.connections()[t].user_id,
        after.by_channel() == before.by_channel(),
        after.by_user() == before.by_user(),
    ensures
        after.wf(),
{
    assert forall|x: Id| #[trigger] after.connections().contains_key(x) implies {
        let c = after.connections()[x];
        &&& c.transport_id == x
        &&& after.by_channel().contains_key(c.channel_id)
        &&& after.by_channel()[c.channel_id].contains(x)
        &&& after.by_user().contains_key((c.channel_id, c.user_id))
        &&& after.by_user()[(c.channel_id, c.user_id)].contains(x)
    } by {
        assert(before.connections().contains_key(x));
    }
    assert forall|c: Id, x: Id|
        after.by_channel().contains_key(c) && #[trigger] after.by_channel()[c].contains(
            x,
        ) implies after.connections().contains_key(x) && after.connections()[x].channel_id
        == c by {
        assert(before.by_channel()[c].contains(x));
        assert(before.connections().contains_key(x));
    }
    assert forall|k: (Id, Id), x: Id|
        after.by_user().contains_key(k) && #[trigger] after.by_user()[k].contains(
            x,
        ) implies after.is_connection_of(x, k.0, k.1) by {
        assert(before.by_user()[k].contains(x));
        assert(before.is_connection_of(x, k.0, k.1));
    }
}

/// Closing a user's connections twice is closing them once: the second
/// time there is none left to close.
pub proof fn closing_user_connections_is_idempotent(
    first: &SfuService,
    mid: &SfuService,
    last: &SfuService,
    channel_id: Id,
    user_id: Id,
)
    requires
        first.wf(),
        mid.is_closing_of(first, first.transports_of(channel_id, user_id).to_set()),
        last.is_closing_of(mid, mid.transports_of(channel_id, user_id).to_set()),
    ensures
        mid.transports_of(channel_id, user_id) == Seq::<Id>::empty(),
        last.connections() == mid.connections(),
        last.by_channel() == mid.by_channel(),
        last.by_user() == mid.by_user(),
{
    let gone = first.transports_of(channel_id, user_id).to_set();
    closing_keeps_wf(first, mid, gone);
    let rest = mid.transports_of(channel_id, user_id);
    if rest.len() > 0 {
        let t = rest[0];
        assert(mid.by_user()[(channel_id, user_id)].contains(t));
        without_contains(first.by_user()[(channel_id, user_id)], gone, t);
        assert(first.by_user()[(channel_id, user_id)].contains(t));
        assert(gone.contains(t));
    }
    assert(rest =~= Seq::<Id>::empty());
    assert(rest.to_set() =~= Set::<Id>::empty());
    closing_nothing(mid);
}

/// Closing a connection a second time finds none and changes nothing.
pub proof fn closing_connection_twice(
    first: &SfuService,
    mid: &SfuService,
    last: &SfuService,
    transport_id: Id,
)
    requires
        first.wf(),
        mid.is_closing_of(first, set![transport_id]),
        last.is_closing_of(mid, set![transport_id]),
    ensures
        !mid.connections().contains_key(transport_id),
        last.connections() == mid.connections(),
        last.by_channel() == mid.by_channel(),
        last.by_user() == mid.by_user(),
{
    let gone = set![transport_id];
    closing_keeps_wf(first, mid, gone);
    assert(last.connections() =~= mid.connections());
    assert forall|c: Id| mid.by_channel().contains_key(c) implies without(mid.by_channel()[c], gone)
        == mid.by_channel()[c] by {
        assert forall|k: int| 0 <= k < mid.by_channel()[c].len() implies !gone.contains(
            #[trigger] mid.by_channel()[c][k],
        ) by {
            assert(mid.by_channel()[c].contains(mid.by_channel()[c][k]));
        }
        without_nothing(mid.by_channel()[c], gone);
    }
    assert(last.by_channel() =~= mid.by_channel());
    assert forall|k: (Id, Id)| mid.by_user().contains_key(k) implies without(mid.by_user()[k], gone)
        == mid.by_user()[k] by {
        assert forall|j: int| 0 <= j < mid.by_user()[k].len() implies !gone.contains(
            #[trigger] mid.by_user()[k][j],
        ) by {
            assert(mid.by_user()[k].contains(mid.by_user()[k][j]));
            assert(mid.is_connection_of(mid.by_user()[k][j], k.0, k.1));
        }
        without_nothing(mid.by_user()[k], gone);
    }
    assert(last.by_user() =~= mid.by_user());
}

/// Closing no connection changes nothing.
pub proof fn closing_nothing(s: &SfuService)
    ensures
        s.is_closing_of(s, Set::<Id>::empty()),
{
    let none = Set::<Id>::empty();
    assert(s.connections() =~= s.connections().remove_keys(none));
    assert forall|c: Id| s.by_channel().contains_key(c) implies without(s.by_channel()[c], none)
        == s.by_channel()[c] by {
        without_nothing(s.by_channel()[c], none);
    }
    assert(s.by_channel() =~= pruned(s.by_channel(), none));
    assert forall|k: (Id, Id)| s.by_user().contains_key(k) implies without(s.by_user()[k], none)
        == s.by_user()[k] by {
        without_nothing(s.by_user()[k], none);
    }
    assert(s.by_user() =~= pruned(s.by_user(), none));
}

/// Closing in two steps is closing the union.
pub proof fn closing_twice(first: &SfuService, mid: &SfuService, last: &SfuService, a: Set<Id>, b: Set<Id>)
    requires
        mid.is_closing_of(first, a),
        last.is_closing_of(mid, b),
    ensures
        last.is_closing_of(first, a.union(b)),
{
    assert(last.connections() =~= first.connections().remove_keys(a.union(b)));
    assert forall|c: Id| first.by_channel().contains_key(c) implies #[trigger] last.by_channel()[c]
        == without(first.by_channel()[c], a.union(b)) by {
        without_twice(first.by_channel()[c], a, b);
    }
    assert(last.by_channel() =~= pruned(first.by_channel(), a.union(b)));
    assert forall|k: (Id, Id)| first.by_user().contains_key(k) implies #[trigger] last.by_user()[k]
        == without(first.by_user()[k], a.union(b)) by {
        without_twice(first.by_user()[k], a, b);
    }
    assert(last.by_user() =~= pruned(first.by_user(), a.union(b)));
}

} // verus!
