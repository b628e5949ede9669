//! The in-flight registry and the identifier allocator.
//!
//! A [`Registry`] holds every request that has been issued and not yet
//! completed, keyed by its correlation identifier, together with the
//! allocator's counter (the two are guarded by one lock in the client, which
//! serialises allocation with registration).  Its invariant: the identifiers
//! of the entries currently present are pairwise distinct.

use crate::channel::{now_instant, send_value, single_slot_channel};
use vstd::prelude::*;

verus! {

/// The payload a completed request resolves to.
pub type Response = u16;

/// Why a request failed.
#[derive(Clone, Copy, Debug, PartialEq, Eq, Structural)]
pub enum RpcError {
    /// The completion channel was closed before a value was sent.
    DeliveryFailure,
    /// The allocator's next identifier still belongs to an in-flight request,
    /// so registering under it would break the registry's invariant.
    DuplicateIdentifier,
}

/// One request in flight: its correlation identifier, the moment it was
/// issued, and the send side of its one-shot completion channel.
pub struct InFlightMessage {
    pub message_id: u16,
    pub start_time: std::time::Instant,
    pub tx: flume::Sender<Response>,
}

/// The identifiers of the entries of `s`, in insertion order.
pub open spec fn ids_of(s: Seq<InFlightMessage>) -> Seq<u16> {
    s.map_values(|m: InFlightMessage| m.message_id)
}

/// No two entries of `s` share an identifier.
pub open spec fn distinct_ids(s: Seq<InFlightMessage>) -> bool {
    forall|i: int, j: int| #![trigger s[i].message_id, s[j].message_id]
        0 <= i < j < s.len() ==> s[i].message_id != s[j].message_id
}

/// The identifier the allocator hands out after `id`: a wrapping increment at
/// the 16-bit boundary.
pub open spec fn wrapping_successor(id: u16) -> u16 {
    if id == 0xFFFF {
        0
    } else {
        (id + 1) as u16
    }
}

/// The in-flight requests, oldest first, with the allocator's counter.
pub struct Registry {
    messages: Vec<InFlightMessage>,
    next_message_id: u16,
}

impl View for Registry {
    type V = Seq<InFlightMessage>;

    closed spec fn view(&self) -> Seq<InFlightMessage> {
        self.messages@
    }
}

impl Registry {
    /// The identifiers currently in flight, oldest first.
    pub open spec fn ids(self) -> Seq<u16> {
        ids_of(self@)
    }

    /// The identifier the allocator will hand out next.
    pub closed spec fn upcoming_id(self) -> u16 {
        self.next_message_id
    }

    /// Well-formed: identifiers of the entries present are pairwise distinct.
    pub open spec fn wf(self) -> bool {
        distinct_ids(self@)
    }

    /// An idle registry: nothing in flight, the allocator at zero.
    pub fn new() -> (r: Self)
        ensures
            r.wf(),
            r@.len() == 0,
            r.upcoming_id() == 0,
    {
        Registry { messages: Vec::new(), next_message_id: 0 }
    }

    /// Hands out a fresh correlation identifier: a monotonically increasing
    /// counter that wraps silently at the 16-bit boundary.
    pub fn next_id(&mut self) -> (r: u16)
        ensures
            r == old(self).upcoming_id(),
            final(self).upcoming_id() == wrapping_successor(old(self).upcoming_id()),
            final(self)@ == old(self)@,
    {
        let id = self.next_message_id;
        self.next_message_id = if id == 0xFFFF {
            0
        } else {
            id + 1
        };
        id
    }

    /// Whether some in-flight entry carries the identifier `id`.
    pub fn contains_id(&self, id: u16) -> (r: bool)
        ensures
            r == self.ids().contains(id),
    {
        let mut i: usize = 0;
        while i < self.messages.len()
            invariant
                i <= self.messages.len(),
                forall|k: int| 0 <= k < i ==> self@[k].message_id != id,
            decreases self.messages.len() - i,
        {
            if self.messages[i].message_id == id {
                assert(self.ids()[i as int] == id);
                return true;
            }
            i = i + 1;
        }
        assert(forall|k: int| 0 <= k < self.ids().len() ==> self.ids()[k] != id);
        false
    }

    /// Inserts a new in-flight entry; the identifier must be fresh, which the
    /// client guarantees by checking before it allocates.
    pub fn register(&mut self, message: InFlightMessage)
        requires
            old(self).wf(),
            !old(self).ids().contains(message.message_id),
        ensures
            final(self).wf(),
            final(self)@ == old(self)@.push(message),
            final(self).upcoming_id() == old(self).upcoming_id(),
    {
        proof {
            assert forall|k: int| 0 <= k < self@.len() implies self@[k].message_id
                != message.message_id by {
                assert(self.ids()[k] == self@[k].message_id);
            }
        }
        self.messages.push(message);
    }

    /// Removes and returns some entry if any is present: the most recently
    /// inserted one, in stack order.
    pub fn take_one(&mut self) -> (r: Option<InFlightMessage>)
        requires
            old(self).wf(),
        ensures
            final(self).wf(),
            final(self).upcoming_id() == old(self).upcoming_id(),
            old(self)@.len() == 0 ==> r is None && final(self)@ == old(self)@,
            old(self)@.len() > 0 ==> r == Some(old(self)@.last()) && final(self)@ == old(
                self,
            )@.drop_last(),
    {
        self.messages.pop()
    }

    /// Removes and returns the entry whose identifier is `id`, or `None` if
    /// no such entry is in flight (already completed, or never issued).  This
    /// is the operation a transport-driven completer should use, matching the
    /// identifier carried by an incoming response.
    pub fn take_by_id(&mut self, id: u16) -> (r: Option<InFlightMessage>)
        requires
            old(self).wf(),
        ensures
            final(self).wf(),
            final(self).upcoming_id() == old(self).upcoming_id(),
            !old(self).ids().contains(id) ==> r is None && final(self)@ == old(self)@,
            old(self).ids().contains(id) ==> exists|k: int|
                0 <= k < old(self)@.len() && old(self)@[k].message_id == id && r == Some(
                    old(self)@[k],
                ) && final(self)@ == old(self)@.remove(k),
            r matches Some(m) ==> m.message_id == id,
            r is Some <==> old(self).ids().contains(id),
    {
        let mut i: usize = 0;
        while i < self.messages.len()
            invariant
                *self == *old(self),
                old(self).wf(),
                i <= self.messages.len(),
                forall|k: int| 0 <= k < i ==> self@[k].message_id != id,
            decreases self.messages.len() - i,
        {
            if self.messages[i].message_id == id {
                let m = self.messages.remove(i);
                proof {
                    let s = old(self)@;
                    s.remove_ensures(i as int);
                    assert forall|a: int, b: int|
                        0 <= a < b < self@.len() implies self@[a].message_id
                        != self@[b].message_id by {
                        let a0 = if a < i as int {
                            a
                        } else {
                            a + 1
                        };
                        let b0 = if b < i as int {
                            b
                        } else {
                            b + 1
                        };
                        assert(s.remove(i as int)[a] == s[a0]);
                        assert(s.remove(i as int)[b] == s[b0]);
                        assert(s[a0].message_id != s[b0].message_id);
                    }
                    assert(old(self).ids()[i as int] == id);
                }
                return Some(m);
            }
            i = i + 1;
        }
        proof {
            assert(forall|k: int| 0 <= k < self.ids().len() ==> self.ids()[k] != id);
        }
        None
    }

    /// Issues a request: allocates a fresh
    /// identifier, opens the one-shot completion channel, and registers the
    /// entry.  Returns the identifier and the receive end to wait on.  When
    /// the allocator's next identifier still belongs to an in-flight request
    /// (possible only after 2^16 allocations with one of them still pending),
    /// nothing is registered and registration is refused instead of breaking
    /// the registry's invariant.
    pub fn begin_request(&mut self) -> (r: Result<(u16, flume::Receiver<Response>), RpcError>)
        requires
            old(self).wf(),
        ensures
            final(self).wf(),
            r is Ok <==> !old(self).ids().contains(old(self).upcoming_id()),
            r matches Ok(p) ==> ({
                &&& p.0 == old(self).upcoming_id()
                &&& final(self)@.len() == old(self)@.len() + 1
                &&& final(self)@ == old(self)@.push(final(self)@.last())
                &&& final(self)@.last().message_id == p.0
                &&& final(self).ids() == old(self).ids().push(p.0)
                &&& final(self).upcoming_id() == wrapping_successor(old(self).upcoming_id())
            }),
            r matches Err(e) ==> e == RpcError::DuplicateIdentifier && *final(self) == *old(self),
    {
        if self.contains_id(self.next_message_id) {
            return Err(RpcError::DuplicateIdentifier);
        }
        let id = self.next_id();
        let (tx, rx) = single_slot_channel();
        self.register(InFlightMessage { message_id: id, start_time: now_instant(), tx });
        proof {
            assert(self.ids() =~= old(self).ids().push(id));
        }
        Ok((id, rx))
    }

    /// Issues two independent requests with no wait in between: both
    /// entries are registered, in one critical section, before either receive
    /// end is waited on, so both are visible to the completer from the start.
    pub fn begin_request_pair(&mut self) -> (r: Result<
        ((u16, flume::Receiver<Response>), (u16, flume::Receiver<Response>)),
        RpcError,
    >)
        requires
            old(self).wf(),
        ensures
            final(self).wf(),
            r is Ok <==> ({
                &&& !old(self).ids().contains(old(self).upcoming_id())
                &&& !old(self).ids().contains(wrapping_successor(old(self).upcoming_id()))
            }),
            r matches Ok(p) ==> ({
                &&& p.0.0 == old(self).upcoming_id()
                &&& p.1.0 == wrapping_successor(old(self).upcoming_id())
                &&& p.0.0 != p.1.0
                &&& final(self).ids() == old(self).ids().push(p.0.0).push(p.1.0)
                &&& final(self).upcoming_id() == wrapping_successor(
                    wrapping_successor(old(self).upcoming_id()),
                )
            }),
            r matches Err(e) ==> e == RpcError::DuplicateIdentifier && *final(self) == *old(self),
    {
        if self.contains_id(self.next_message_id) {
            return Err(RpcError::DuplicateIdentifier);
        }
        let second = if self.next_message_id == 0xFFFF {
            0
        } else {
            self.next_message_id + 1
        };
        if self.contains_id(second) {
            return Err(RpcError::DuplicateIdentifier);
        }
        let first = match self.begin_request() {
            Ok(p) => p,
            Err(e) => {
                return Err(e);
            },
        };
        match self.begin_request() {
            Ok(p) => Ok((first, p)),
            Err(e) => Err(e),
        }
    }

    /// One completion cycle: removes some in-flight entry, if any, and
    /// delivers that entry's own identifier through that entry's own sender
    /// as the response payload.  Returns the delivered value.
    pub fn complete_one(&mut self) -> (r: Option<Response>)
        requires
            old(self).wf(),
        ensures
            final(self).wf(),
            final(self).upcoming_id() == old(self).upcoming_id(),
            old(self)@.len() == 0 ==> r is None && final(self)@ == old(self)@,
            old(self)@.len() > 0 ==> r == Some(old(self)@.last().message_id) && final(self)@
                == old(self)@.drop_last(),
    {
        match self.take_one() {
            None => None,
            Some(message) => {
                send_value(&message.tx, message.message_id);
                Some(message.message_id)
            },
        }
    }
}

/// Law (uniqueness): in a well-formed registry, however many requests are
/// concurrently outstanding, the allocated identifiers currently in flight
/// are pairwise distinct.
pub proof fn lemma_inflight_ids_pairwise_distinct(r: Registry)
    requires
        r.wf(),
    ensures
        forall|i: int, j: int| 0 <= i < j < r.ids().len() ==> r.ids()[i] != r.ids()[j],
{
    assert forall|i: int, j: int| 0 <= i < j < r.ids().len() implies r.ids()[i] != r.ids()[j] by {
        assert(r.ids()[i] == r@[i].message_id);
        assert(r.ids()[j] == r@[j].message_id);
    }
}

/// Law (correlation round trip): after an entry is registered under a fresh
/// identifier, that identifier selects exactly the registered entry, so a
/// completion matched by identifier resolves the very request that allocated
/// it.
pub proof fn lemma_register_then_select_round_trip(
    s: Seq<InFlightMessage>,
    m: InFlightMessage,
    k: int,
)
    requires
        distinct_ids(s),
        !ids_of(s).contains(m.message_id),
        0 <= k < s.push(m).len(),
        s.push(m)[k].message_id == m.message_id,
    ensures
        k == s.len(),
        s.push(m)[k] == m,
{
    if k < s.len() {
        assert(s.push(m)[k] == s[k]);
        assert(ids_of(s)[k] == m.message_id);
        assert(ids_of(s).contains(m.message_id));
    }
}

/// Law (single-completion delivery): an identifier selects at most one
/// in-flight entry of a well-formed registry, so a completion carrying it can
/// reach at most one waiter.
pub proof fn lemma_id_selects_at_most_one_entry(r: Registry, i: int, j: int)
    requires
        r.wf(),
        0 <= i < r@.len(),
        0 <= j < r@.len(),
        r@[i].message_id == r@[j].message_id,
    ensures
        i == j,
{
}

} // verus!
