//! The registry of outstanding outbound calls, keyed by the identifiers it hands out.
use vstd::prelude::*;
use std::collections::HashMap;
use futures::channel::oneshot::{Receiver, Sender};
use crate::message::{Id, Message, Params, Request, Response, Version};

verus! {

broadcast use vstd::std_specs::hash::group_hash_axioms;

#[verifier::external_type_specification]
#[verifier::external_body]
#[verifier::reject_recursive_types(T)]
pub struct ExOneshotSender<T>(Sender<T>);

#[verifier::external_type_specification]
#[verifier::external_body]
#[verifier::reject_recursive_types(T)]
pub struct ExOneshotReceiver<T>(Receiver<T>);

/// The error of a reply slot whose sending end was dropped; named so that the
/// receiving end can be declared.
#[verifier::external_type_specification]
#[verifier::external_body]
pub struct ExOneshotCanceled(futures::channel::oneshot::Canceled);

/// Relies on futures' `oneshot::channel`: a fresh single-use reply slot.
pub assume_specification<T>[ futures::channel::oneshot::channel::<T> ]() -> (Sender<T>, Receiver<T>);

/// Relies on futures' `oneshot::Sender::send`: the value comes back only when the
/// receiving end is gone.
pub assume_specification<T>[ Sender::<T>::send ](tx: Sender<T>, t: T) -> (r: Result<(), T>)
    ensures
        r matches Err(v) ==> v == t,
;

/// Tracks outstanding outbound calls: each holds the slot its reply goes into.
pub struct PendingRequests {
    next_request_id: u32,
    pending_requests: HashMap<u32, Sender<Response>>,
}

/// One registration: `id` was the next identifier, and is now pending.
pub open spec fn allocates(before: PendingRequests, after: PendingRequests, id: u32) -> bool {
    &&& id == before.next_id()
    &&& after.next_id() == before.next_id() + 1
    &&& after.pending() == before.pending().insert(id)
}

/// What a response does to the registry: a pending numeric identifier is removed;
/// anything else leaves it as it was.
pub open spec fn resolved(before: PendingRequests, after: PendingRequests, id: Option<Id>) -> bool {
    &&& after.next_id() == before.next_id()
    &&& match id {
        Some(Id::Number(n)) => after.pending() == before.pending().remove(n),
        _ => after.pending() == before.pending(),
    }
}

impl PendingRequests {
    /// The identifier that the next registration receives.
    pub closed spec fn next_id(self) -> nat {
        self.next_request_id as nat
    }

    /// The identifiers of the calls that await their reply.
    pub closed spec fn pending(self) -> Set<u32> {
        self.pending_requests@.dom()
    }

    /// The reply slot stored under each pending identifier.
    pub closed spec fn slots(self) -> Map<u32, Sender<Response>> {
        self.pending_requests@
    }

    /// Identifiers start at 1, and every pending one was handed out before.
    pub open spec fn wf(self) -> bool {
        &&& 1 <= self.next_id() <= u32::MAX
        &&& forall|k: u32| #[trigger] self.pending().contains(k) ==> 1 <= k < self.next_id()
    }

    /// An empty registry.
    pub fn new() -> (r: Self)
        ensures
            r.wf(),
            r.next_id() == 1,
            r.pending() == Set::<u32>::empty(),
    {
        let r = PendingRequests { next_request_id: 1, pending_requests: HashMap::new() };
        assert(r.pending() =~= Set::<u32>::empty());
        r
    }

    /// Whether an identifier is left to hand out.
    pub fn can_insert(&self) -> (r: bool)
        ensures
            r == (self.next_id() < u32::MAX),
    {
        self.next_request_id < u32::MAX
    }

    /// Registers an outbound call: allocates the next identifier, stores a fresh reply
    /// slot under it, and returns the request to send with the slot's receiving end.
    pub fn insert(&mut self, method: String, params: Option<Params>) -> (r: (
        Message,
        Receiver<Response>,
    ))
        requires
            old(self).wf(),
            old(self).next_id() < u32::MAX,
        ensures
            final(self).wf(),
            allocates(*old(self), *final(self), old(self).next_id() as u32),
            !old(self).pending().contains(old(self).next_id() as u32),
            final(self).slots().remove(old(self).next_id() as u32) == old(self).slots(),
            r.0 == Message::Request(
                Request {
                    jsonrpc: Some(Version::V2),
                    method,
                    params,
                    id: Some(Id::Number(old(self).next_id() as u32)),
                },
            ),
    {
        let n = self.next_request_id;
        self.next_request_id = n + 1;
        let (tx, rx) = futures::channel::oneshot::channel();
        self.pending_requests.insert(n, tx);
        assert(self.pending() == old(self).pending().insert(n));
        assert(self.slots().remove(n) =~= old(self).slots());
        assert forall|k: u32| #[trigger] self.pending().contains(k) implies 1 <= k < self.next_id() by {
            if k != n {
                assert(old(self).pending().contains(k));
            }
        }
        let request = Request { jsonrpc: Some(Version::V2), method, params, id: Some(Id::Number(n)) };
        (Message::Request(request), rx)
    }

    /// Takes the reply slot of the call that a response answers out of the registry,
    /// and returns it with the response to put into it. A response for no pending
    /// call takes nothing.
    pub fn take_slot(&mut self, response: Response) -> (r: Option<(Sender<Response>, Response)>)
        requires
            old(self).wf(),
        ensures
            final(self).wf(),
            resolved(*old(self), *final(self), response.id),
            match response.id {
                Some(Id::Number(n)) => if old(self).slots().contains_key(n) {
                    &&& r == Some((old(self).slots()[n], response))
                    &&& final(self).slots() == old(self).slots().remove(n)
                } else {
                    r is None && final(self).slots() == old(self).slots()
                },
                _ => r is None && final(self).slots() == old(self).slots(),
            },
    {
        let n = match &response.id {
            Some(Id::Number(n)) => *n,
            _ => return None,
        };
        let taken = self.pending_requests.remove(&n);
        assert forall|k: u32| #[trigger] self.pending().contains(k) implies 1 <= k < self.next_id() by {
            assert(old(self).pending().contains(k));
        }
        match taken {
            Some(tx) => Some((tx, response)),
            None => {
                assert(self.slots() =~= old(self).slots());
                None
            },
        }
    }

    /// Delivers a response into the slot of the call with its identifier, and forgets
    /// that call. A response for no pending call is dropped. The slot and the
    /// response handed to the send are the ones `take_slot` returns.
    pub fn handle_response(&mut self, response: Response)
        requires
            old(self).wf(),
        ensures
            final(self).wf(),
            resolved(*old(self), *final(self), response.id),
            match response.id {
                Some(Id::Number(n)) => final(self).slots() == old(self).slots().remove(n),
                _ => final(self).slots() == old(self).slots(),
            },
    {
        match self.take_slot(response) {
            Some((tx, res)) => {
                let _ = tx.send(res);
            },
            None => {},
        }
    }

    /// Forgets a pending call without a reply, as when its request could not be
    /// sent; its slot is dropped, and the identifier is not handed out again.
    pub fn cancel(&mut self, id: u32)
        requires
            old(self).wf(),
        ensures
            final(self).wf(),
            final(self).next_id() == old(self).next_id(),
            final(self).pending() == old(self).pending().remove(id),
            final(self).slots() == old(self).slots().remove(id),
    {
        let _ = self.pending_requests.remove(&id);
        assert forall|k: u32| #[trigger] self.pending().contains(k) implies 1 <= k < self.next_id() by {
            assert(old(self).pending().contains(k));
        }
    }
}

/// A reply whose identifier belongs to no pending call leaves the registry as it
/// was: nothing is removed, and no identifier is used up.
pub proof fn lemma_unknown_reply_changes_nothing(
    before: PendingRequests,
    after: PendingRequests,
    id: Option<Id>,
)
    requires
        resolved(before, after, id),
        !(id matches Some(Id::Number(n)) && before.pending().contains(n)),
    ensures
        after.pending() == before.pending(),
        after.next_id() == before.next_id(),
{
    if let Some(Id::Number(n)) = id {
        assert(before.pending().remove(n) =~= before.pending());
    }
}

/// Registrations made one after another on a fresh registry hand out the
/// identifiers 1, 2, 3, ... in order: no two are the same, and none is 0.
pub proof fn lemma_registrations_distinct(states: Seq<PendingRequests>, ids: Seq<u32>)
    requires
        states.len() == ids.len() + 1,
        states[0].next_id() == 1,
        forall|i: int| 0 <= i < ids.len() ==> allocates(#[trigger] states[i], states[i + 1], ids[i]),
    ensures
        forall|i: int| 0 <= i < ids.len() ==> #[trigger] ids[i] == i + 1,
        forall|i: int, j: int| 0 <= i < j < ids.len() ==> ids[i] != ids[j],
        forall|i: int| 0 <= i < ids.len() ==> #[trigger] ids[i] != 0,
{
    assert forall|i: int| 0 <= i < ids.len() implies #[trigger] ids[i] == i + 1 by {
        lemma_next_id_counts(states, ids, i);
    }
}

proof fn lemma_next_id_counts(states: Seq<PendingRequests>, ids: Seq<u32>, k: int)
    requires
        states.len() == ids.len() + 1,
        states[0].next_id() == 1,
        forall|i: int| 0 <= i < ids.len() ==> allocates(#[trigger] states[i], states[i + 1], ids[i]),
        0 <= k <= ids.len(),
    ensures
        states[k].next_id() == k + 1,
        k < ids.len() ==> ids[k] == k + 1,
    decreases k,
{
    if k > 0 {
        lemma_next_id_counts(states, ids, k - 1);
        assert(allocates(states[k - 1], states[k], ids[k - 1]));
    }
    if k < ids.len() {
        assert(allocates(states[k], states[k + 1], ids[k]));
    }
}

} // verus!
