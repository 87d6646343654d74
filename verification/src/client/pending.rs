//! The correlation table: outstanding request ids and their slots.
//!
//! The table is a `DashMap`, declared in `utils::concurrent`. Every
//! operation here takes it by `&mut`, so a session that owns its table is
//! the only one that changes it.

use crate::error::Error;
use crate::protocol::{IdView, RequestId};
use dashmap::DashMap;
use vstd::prelude::*;

verus! {

/// What is remembered of a request that awaits its response.
#[derive(Debug, Clone, PartialEq)]
pub struct PendingRequest {
    /// Method name of the request.
    pub method: String,
    /// The time, in milliseconds, at which the request times out.
    pub deadline: u64,
}

/// The mathematical value of a [`PendingRequest`].
pub struct PendingView {
    pub method: Seq<char>,
    pub deadline: u64,
}

impl View for PendingRequest {
    type V = PendingView;

    open spec fn view(&self) -> PendingView {
        PendingView { method: self.method@, deadline: self.deadline }
    }
}

/// The slots that the map holds, by the value of their id.
pub uninterp spec fn slots_of(map: DashMap<RequestId, PendingRequest>) -> Map<IdView, PendingView>;

/// `DashMap::new`: a map that holds nothing.
#[verifier::external_body]
fn slots_new() -> (map: DashMap<RequestId, PendingRequest>)
    ensures
        slots_of(map) =~= Map::empty(),
{
    DashMap::new()
}

/// `DashMap::insert`: the map then holds `slot` under `id`, in place of what
/// it held there, and everything else as before; the call returns whether the
/// key was already there.
#[verifier::external_body]
fn slots_insert(map: &mut DashMap<RequestId, PendingRequest>, id: RequestId, slot: PendingRequest) -> (replaced: bool)
    ensures
        slots_of(*final(map)) == slots_of(*old(map)).insert(id@, slot@),
        replaced == slots_of(*old(map)).contains_key(id@),
{
    map.insert(id, slot).is_some()
}

/// `DashMap::remove`: the map no longer holds the key; the call returns the
/// value that was held under it, if any.
#[verifier::external_body]
fn slots_remove(map: &mut DashMap<RequestId, PendingRequest>, id: &RequestId) -> (slot: Option<PendingRequest>)
    ensures
        slots_of(*final(map)) == slots_of(*old(map)).remove(id@),
        match slot {
            Some(s) => slots_of(*old(map)).contains_key(id@) && slots_of(*old(map))[id@] == s@,
            None => !slots_of(*old(map)).contains_key(id@),
        },
{
    map.remove(id).map(|entry| entry.1)
}

/// `DashMap::get`, with a copy made of what the guard refers to: the slot
/// held under the key, if any.
#[verifier::external_body]
fn slots_get(map: &DashMap<RequestId, PendingRequest>, id: &RequestId) -> (slot: Option<PendingRequest>)
    ensures
        match slot {
            Some(s) => slots_of(*map).contains_key(id@) && slots_of(*map)[id@] == s@,
            None => !slots_of(*map).contains_key(id@),
        },
{
    map.get(id).map(|entry| entry.value().clone())
}

/// `DashMap::contains_key`.
#[verifier::external_body]
fn slots_contains(map: &DashMap<RequestId, PendingRequest>, id: &RequestId) -> (held: bool)
    ensures
        held == slots_of(*map).contains_key(id@),
{
    map.contains_key(id)
}

/// `DashMap::len`: the number of keys held.
#[verifier::external_body]
fn slots_len(map: &DashMap<RequestId, PendingRequest>) -> (n: usize)
    ensures
        n == slots_of(*map).dom().len(),
{
    map.len()
}

/// `DashMap::is_empty`: whether the map holds no key.
#[verifier::external_body]
fn slots_is_empty(map: &DashMap<RequestId, PendingRequest>) -> (empty: bool)
    ensures
        empty == (slots_of(*map).dom() =~= Set::empty()),
{
    map.is_empty()
}

/// `DashMap::iter`: every key held comes out once, in no particular order.
#[verifier::external_body]
fn slots_keys(map: &DashMap<RequestId, PendingRequest>) -> (ids: Vec<RequestId>)
    ensures
        forall|i: int, j: int| 0 <= i < j < ids.len() ==> ids[i]@ != ids[j]@,
        forall|i: int| 0 <= i < ids.len() ==> slots_of(*map).contains_key(#[trigger] ids[i]@),
        forall|k: IdView|
            slots_of(*map).contains_key(k) ==> exists|i: int|
                0 <= i < ids.len() && #[trigger] ids[i]@ == k,
{
    map.iter().map(|entry| entry.key().clone()).collect()
}

/// `DashMap::clear`: the map then holds nothing.
#[verifier::external_body]
fn slots_clear(map: &mut DashMap<RequestId, PendingRequest>)
    ensures
        slots_of(*final(map)) =~= Map::empty(),
{
    map.clear()
}

/// The table after `register`: unchanged when the id is pending, else with
/// the new slot.
pub open spec fn registered(
    table: Map<IdView, PendingView>,
    id: IdView,
    slot: PendingView,
) -> Map<IdView, PendingView> {
    if table.contains_key(id) {
        table
    } else {
        table.insert(id, slot)
    }
}

/// What a waiter is handed when its slot is removed with an outcome.
pub open spec fn delivered(table: Map<IdView, PendingView>, id: IdView) -> Option<PendingView> {
    if table.contains_key(id) {
        Some(table[id])
    } else {
        None
    }
}

impl PendingView {
    /// Whether the deadline of the slot has passed at `now`. A slot whose
    /// deadline is the largest time has none.
    pub open spec fn due(self, now: u64) -> bool {
        self.deadline < u64::MAX && self.deadline <= now
    }
}

/// Whether the request `id` is outstanding and its deadline has passed at
/// `now`.
pub open spec fn expires(table: Map<IdView, PendingView>, id: IdView, now: u64) -> bool {
    table.contains_key(id) && table[id].due(now)
}

/// Outstanding request ids and their one-shot slots.
pub struct CorrelationTable {
    slots: DashMap<RequestId, PendingRequest>,
}

impl View for CorrelationTable {
    type V = Map<IdView, PendingView>;

    closed spec fn view(&self) -> Map<IdView, PendingView> {
        slots_of(self.slots)
    }
}

impl CorrelationTable {
    /// A table without slots.
    pub fn new() -> (t: CorrelationTable)
        ensures
            t@ == Map::<IdView, PendingView>::empty(),
    {
        CorrelationTable { slots: slots_new() }
    }

    /// Whether a request with this id is outstanding.
    pub fn contains(&self, id: &RequestId) -> (r: bool)
        ensures
            r == self@.contains_key(id@),
    {
        slots_contains(&self.slots, id)
    }

    /// The number of outstanding requests.
    pub fn len(&self) -> (n: usize)
        ensures
            n == self@.dom().len(),
    {
        slots_len(&self.slots)
    }

    /// Whether no request is outstanding.
    pub fn is_empty(&self) -> (r: bool)
        ensures
            r == (self@ == Map::<IdView, PendingView>::empty()),
    {
        let empty = slots_is_empty(&self.slots);
        proof {
            if empty {
                assert(self@ =~= Map::empty());
            } else {
                assert(Map::<IdView, PendingView>::empty().dom() =~= Set::empty());
            }
        }
        empty
    }

    /// Inserts a slot for `id`. An id that is already outstanding is refused
    /// with `InternalError`, and the table stays as it was.
    pub fn register(&mut self, id: RequestId, method: &str, deadline: u64) -> (r: Result<
        (),
        Error,
    >)
        ensures
            final(self)@ == registered(old(self)@, id@, PendingView { method: method@, deadline }),
            r is Ok <==> !old(self)@.contains_key(id@),
            r matches Err(e) ==> e is InternalError,
    {
        if slots_contains(&self.slots, &id) {
            return Err(Error::internal("request id is already in flight"));
        }
        let slot = PendingRequest { method: method.to_owned(), deadline };
        let _ = slots_insert(&mut self.slots, id, slot);
        Ok(())
    }

    /// Removes the slot of `id` so that its outcome can be delivered; `None`
    /// when no such request is outstanding (a late or duplicate response).
    pub fn complete(&mut self, id: &RequestId) -> (slot: Option<PendingRequest>)
        ensures
            final(self)@ == old(self)@.remove(id@),
            match slot {
                Some(s) => delivered(old(self)@, id@) == Some(s@),
                None => delivered(old(self)@, id@) is None,
            },
    {
        slots_remove(&mut self.slots, id)
    }

    /// Removes the slot of `id` without an outcome from the peer. The caller
    /// tells the peer with `notifications/cancelled` and hands `Cancelled`
    /// to the waiter.
    pub fn cancel(&mut self, id: &RequestId) -> (slot: Option<PendingRequest>)
        ensures
            final(self)@ == old(self)@.remove(id@),
            match slot {
                Some(s) => delivered(old(self)@, id@) == Some(s@),
                None => delivered(old(self)@, id@) is None,
            },
    {
        slots_remove(&mut self.slots, id)
    }

    /// A copy of the slot of `id`.
    pub fn get(&self, id: &RequestId) -> (slot: Option<PendingRequest>)
        ensures
            match slot {
                Some(s) => delivered(self@, id@) == Some(s@),
                None => delivered(self@, id@) is None,
            },
    {
        slots_get(&self.slots, id)
    }

    /// The ids of the outstanding requests, each once, in no particular
    /// order.
    pub fn outstanding(&self) -> (ids: Vec<RequestId>)
        ensures
            forall|i: int, j: int| 0 <= i < j < ids.len() ==> ids[i]@ != ids[j]@,
            forall|i: int| 0 <= i < ids.len() ==> self@.contains_key(#[trigger] ids[i]@),
            forall|k: IdView|
                self@.contains_key(k) ==> exists|i: int|
                    0 <= i < ids.len() && #[trigger] ids[i]@ == k,
    {
        slots_keys(&self.slots)
    }

    /// Removes the slot of `id` if its deadline has passed at `now`; its
    /// waiter is then handed `Timeout`. A slot that is not due, and a table
    /// without the id, stay as they were.
    pub fn expire(&mut self, id: &RequestId, now: u64) -> (slot: Option<PendingRequest>)
        ensures
            final(self)@ == if expires(old(self)@, id@, now) {
                old(self)@.remove(id@)
            } else {
                old(self)@
            },
            match slot {
                Some(s) => expires(old(self)@, id@, now) && old(self)@[id@] == s@,
                None => !expires(old(self)@, id@, now),
            },
    {
        match slots_get(&self.slots, id) {
            Some(slot) => {
                if slot.deadline < u64::MAX && slot.deadline <= now {
                    slots_remove(&mut self.slots, id)
                } else {
                    None
                }
            },
            None => None,
        }
    }

    /// Removes every slot and returns the ids of the requests that were
    /// outstanding, each once; their waiters are handed `ConnectionClosed`.
    pub fn fail_all(&mut self) -> (ids: Vec<RequestId>)
        ensures
            final(self)@ == Map::<IdView, PendingView>::empty(),
            forall|i: int, j: int| 0 <= i < j < ids.len() ==> ids[i]@ != ids[j]@,
            forall|i: int| 0 <= i < ids.len() ==> old(self)@.contains_key(#[trigger] ids[i]@),
            forall|k: IdView|
                old(self)@.contains_key(k) ==> exists|i: int|
                    0 <= i < ids.len() && #[trigger] ids[i]@ == k,
    {
        let ids = slots_keys(&self.slots);
        slots_clear(&mut self.slots);
        ids
    }
}

/// A slot delivers at most once: after `complete` or `cancel` has removed
/// the slot of an id, a second outcome for that id finds nothing.
pub proof fn lemma_delivered_once(table: Map<IdView, PendingView>, id: IdView)
    ensures
        delivered(table.remove(id), id) is None,
{
}

/// An id that is already outstanding cannot be registered again, and the
/// attempt leaves the table as it was.
pub proof fn lemma_collision_keeps_table(
    table: Map<IdView, PendingView>,
    id: IdView,
    slot: PendingView,
)
    requires
        table.contains_key(id),
    ensures
        registered(table, id, slot) == table,
{
}

/// Removing one slot leaves every other outstanding request as it was.
pub proof fn lemma_others_untouched(table: Map<IdView, PendingView>, id: IdView, other: IdView)
    requires
        other != id,
    ensures
        delivered(table.remove(id), other) == delivered(table, other),
{
}

} // verus!
