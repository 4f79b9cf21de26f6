//! The data of the SFU coordination layer: one signalling session per
//! transport, with the producers and consumers it owns.

use vstd::prelude::*;
use crate::ids::Id;
use crate::models::copy_opt_string;

verus! {

/// The two kinds of media a producer carries.
#[derive(Debug, Clone, Copy, PartialEq, Eq, Structural)]
pub enum MediaKind {
    Audio,
    Video,
}

/// A producer registered under a connection.
#[derive(Debug)]
pub struct ProducerEntry {
    pub id: Id,
    pub kind: MediaKind,
    pub label: Option<String>,
}

impl Clone for ProducerEntry {
    fn clone(&self) -> (r: Self)
        ensures
            r == *self,
    {
        ProducerEntry { id: self.id, kind: self.kind, label: copy_opt_string(&self.label) }
    }
}

/// One signalling session, keyed by its transport.
#[derive(Debug)]
pub struct ParticipantConnection {
    pub channel_id: Id,
    pub user_id: Id,
    pub transport_id: Id,
    pub producers: Vec<ProducerEntry>,
    pub consumer_ids: Vec<Id>,
    /// Seconds since the Unix epoch.
    pub created_at: u64,
}

/// A connection as a value: its lists are sequences.
pub struct ConnectionView {
    pub channel_id: Id,
    pub user_id: Id,
    pub transport_id: Id,
    pub producers: Seq<ProducerEntry>,
    pub consumer_ids: Seq<Id>,
    pub created_at: u64,
}

impl View for ParticipantConnection {
    type V = ConnectionView;

    open spec fn view(&self) -> ConnectionView {
        ConnectionView {
            channel_id: self.channel_id,
            user_id: self.user_id,
            transport_id: self.transport_id,
            producers: self.producers@,
            consumer_ids: self.consumer_ids@,
            created_at: self.created_at,
        }
    }
}

/// A copy of a list of producers.
pub fn copy_producers(v: &Vec<ProducerEntry>) -> (r: Vec<ProducerEntry>)
    ensures
        r@ == v@,
{
    let mut r: Vec<ProducerEntry> = Vec::new();
    let mut i: usize = 0;
    while i < v.len()
        invariant
            i <= v.len(),
            r@ == v@.take(i as int),
        decreases v.len() - i,
    {
        r.push(v[i].clone());
        assert(v@.take(i + 1) =~= v@.take(i as int).push(v@[i as int]));
        i += 1;
    }
    assert(v@.take(v.len() as int) =~= v@);
    r
}

/// A copy of a list of identifiers.
pub fn copy_ids(v: &Vec<Id>) -> (r: Vec<Id>)
    ensures
        r@ == v@,
{
    let mut r: Vec<Id> = Vec::new();
    let mut i: usize = 0;
    while i < v.len()
        invariant
            i <= v.len(),
            r@ == v@.take(i as int),
        decreases v.len() - i,
    {
        r.push(v[i]);
        assert(v@.take(i + 1) =~= v@.take(i as int).push(v@[i as int]));
        i += 1;
    }
    assert(v@.take(v.len() as int) =~= v@);
    r
}

impl Clone for ParticipantConnection {
    fn clone(&self) -> (r: Self)
        ensures
            r@ == self@,
    {
        ParticipantConnection {
            channel_id: self.channel_id,
            user_id: self.user_id,
            transport_id: self.transport_id,
            producers: copy_producers(&self.producers),
            consumer_ids: copy_ids(&self.consumer_ids),
            created_at: self.created_at,
        }
    }
}

/// A producer, as announced to the peers of its channel.
#[derive(Debug)]
pub struct ProducerInfo {
    pub producer_id: Id,
    pub channel_id: Id,
    pub user_id: Id,
    pub kind: MediaKind,
    pub label: Option<String>,
}

} // verus!
