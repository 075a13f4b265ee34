//! Round-scoped message collection: a store that accumulates exactly one
//! message per remote party, detects duplicate, self-sourced and out-of-range
//! contributions, and yields the completed batch in ascending sender order.

use vstd::prelude::*;

use crate::state_machine::Msg;

verus! {

/// The completed batch of one round: the peers' message bodies in ascending
/// sender order, with the collecting party's own slot skipped.
#[derive(Clone, Debug)]
pub struct BroadcastMsgs<M> {
    pub msgs: Vec<M>,
}

/// Why a message was refused by the store; a refused push leaves the store
/// unchanged.
#[derive(Clone, Copy, Debug, PartialEq, Eq, Structural)]
pub enum StoreError {
    /// The sender index is zero or above the number of parties.
    UnknownSender,
    /// The collecting party's own index appears as the sender.
    MsgFromSelf,
    /// A message from this sender is already present.
    DuplicateMsg,
}

/// The sender index that slot `k` of a store for party `party_i` stands for:
/// the senders `1..=n` in ascending order, skipping `party_i` itself.
pub open spec fn sender_at(party_i: u16, k: int) -> int {
    if k + 1 < party_i { k + 1 } else { k + 2 }
}

/// The slot that messages from `sender` go to (inverse of `sender_at`).
pub open spec fn slot_of(party_i: u16, sender: u16) -> int {
    if sender < party_i { sender - 1 } else { sender - 2 }
}

/// What `push` answers for a message from `sender`, given the store's
/// occupancy: refused for the collecting party itself, an out-of-range
/// index, or a sender already present; accepted otherwise.
pub open spec fn push_result<M>(
    party_i: u16,
    party_n: u16,
    slots: Seq<Option<M>>,
    sender: u16,
) -> Result<(), StoreError> {
    if sender == party_i {
        Err(StoreError::MsgFromSelf)
    } else if sender == 0 || sender > party_n {
        Err(StoreError::UnknownSender)
    } else if slots[slot_of(party_i, sender)] is Some {
        Err(StoreError::DuplicateMsg)
    } else {
        Ok(())
    }
}

/// The senders whose slots are still empty, in ascending order.
pub open spec fn missing_of<M>(slots: Seq<Option<M>>, party_i: u16) -> Seq<u16>
    decreases slots.len(),
{
    if slots.len() == 0 {
        Seq::empty()
    } else {
        let pre = missing_of(slots.drop_last(), party_i);
        if slots.last() is None {
            pre.push(sender_at(party_i, slots.len() - 1) as u16)
        } else {
            pre
        }
    }
}

/// Collects one message from each of the other `party_n - 1` parties for one
/// round. A completed store holds exactly one entry per remote sender, with
/// no duplicate and no gap, and is consumed once to produce an ordered batch.
pub struct BroadcastMsgsStore<M> {
    pub party_i: u16,
    pub party_n: u16,
    pub slots: Vec<Option<M>>,
}

impl<M> BroadcastMsgsStore<M> {
    pub open spec fn wf(&self) -> bool {
        &&& 1 <= self.party_i <= self.party_n
        &&& self.slots@.len() == self.party_n - 1
    }

    /// Every expected sender has contributed.
    pub open spec fn ready(&self) -> bool {
        forall|k: int| 0 <= k < self.slots@.len() ==> self.slots@[k] is Some
    }

    /// Creates a store for one round, expecting one message from each of the
    /// other `party_n - 1` parties.
    pub fn new(party_i: u16, party_n: u16) -> (r: Self)
        requires
            1 <= party_i <= party_n,
        ensures
            r.wf(),
            r.party_i == party_i,
            r.party_n == party_n,
            forall|k: int| 0 <= k < r.slots@.len() ==> r.slots@[k] is None,
    {
        let expected = (party_n - 1) as usize;
        let mut slots: Vec<Option<M>> = Vec::new();
        let mut j: usize = 0;
        while j < expected
            invariant
                j <= expected,
                slots@.len() == j,
                forall|k: int| 0 <= k < j ==> slots@[k] is None,
            decreases expected - j,
        {
            slots.push(None);
            j = j + 1;
        }
        BroadcastMsgsStore { party_i, party_n, slots }
    }

    /// Accepts one message. Fails, leaving the store unchanged, when the
    /// sender is the collecting party itself, outside `1..=party_n`, or
    /// already present; otherwise records the message body in the sender's
    /// slot.
    pub fn push(&mut self, msg: Msg<M>) -> (r: Result<(), StoreError>)
        requires
            old(self).wf(),
        ensures
            final(self).wf(),
            final(self).party_i == old(self).party_i,
            final(self).party_n == old(self).party_n,
            r == push_result(old(self).party_i, old(self).party_n, old(self).slots@, msg.sender),
            r is Err ==> *final(self) == *old(self),
            r is Ok ==> final(self).slots@ == old(self).slots@.update(
                slot_of(old(self).party_i, msg.sender),
                Some(msg.body),
            ),
    {
        if msg.sender == self.party_i {
            return Err(StoreError::MsgFromSelf);
        }
        if msg.sender == 0 || msg.sender > self.party_n {
            return Err(StoreError::UnknownSender);
        }
        let slot: usize = if msg.sender < self.party_i {
            (msg.sender - 1) as usize
        } else {
            (msg.sender - 2) as usize
        };
        if self.slots[slot].is_some() {
            return Err(StoreError::DuplicateMsg);
        }
        self.slots[slot] = Some(msg.body);
        Ok(())
    }

    /// True iff every expected sender has contributed; a pure predicate.
    pub fn is_ready(&self) -> (r: bool)
        requires
            self.wf(),
        ensures
            r == self.ready(),
    {
        let len = self.slots.len();
        let mut j: usize = 0;
        while j < len
            invariant
                j <= len,
                len == self.slots@.len(),
                forall|k: int| 0 <= k < j ==> self.slots@[k] is Some,
            decreases len - j,
        {
            if self.slots[j].is_none() {
                return false;
            }
            j = j + 1;
        }
        true
    }

    /// True while at least one expected sender is still missing.
    pub fn wants_more(&self) -> (r: bool)
        requires
            self.wf(),
        ensures
            r == !self.ready(),
    {
        !self.is_ready()
    }

    /// The senders that have not contributed yet, in ascending index order.
    pub fn missing(&self) -> (r: Vec<u16>)
        requires
            self.wf(),
        ensures
            r@ == missing_of(self.slots@, self.party_i),
    {
        let len = self.slots.len();
        let mut out: Vec<u16> = Vec::new();
        let mut j: usize = 0;
        while j < len
            invariant
                j <= len,
                len == self.slots@.len(),
                self.wf(),
                out@ == missing_of(self.slots@.take(j as int), self.party_i),
            decreases len - j,
        {
            proof {
                assert(self.slots@.take(j + 1).drop_last() =~= self.slots@.take(j as int));
                assert(self.slots@.take(j + 1).last() == self.slots@[j as int]);
            }
            if self.slots[j].is_none() {
                let sender: u16 = if j + 1 < self.party_i as usize {
                    (j + 1) as u16
                } else {
                    (j + 2) as u16
                };
                out.push(sender);
            }
            j = j + 1;
        }
        proof {
            assert(self.slots@.take(len as int) =~= self.slots@);
        }
        out
    }
}

impl<M> BroadcastMsgsStore<M> {
    /// Consumes a completed store and yields the batch: slot `k` of the
    /// result is the body sent by the `k`-th remote sender in ascending
    /// index order.
    pub fn finish(self) -> (r: BroadcastMsgs<M>)
        requires
            self.wf(),
            self.ready(),
        ensures
            r.msgs@.len() == self.party_n - 1,
            forall|k: int| 0 <= k < r.msgs@.len() ==> r.msgs@[k] == self.slots@[k].unwrap(),
    {
        let BroadcastMsgsStore { party_i: _, party_n: _, slots } = self;
        let mut slots = slots;
        let len = slots.len();
        let mut msgs: Vec<M> = Vec::new();
        let mut j: usize = 0;
        while j < len
            invariant
                j <= len,
                len == slots@.len(),
                slots@.len() == self.slots@.len(),
                self.ready(),
                forall|k: int| j <= k < len ==> slots@[k] == self.slots@[k],
                msgs@.len() == j,
                forall|k: int| 0 <= k < j ==> msgs@[k] == self.slots@[k].unwrap(),
            decreases len - j,
        {
            let body = slots[j].take().unwrap();
            msgs.push(body);
            j = j + 1;
        }
        BroadcastMsgs { msgs }
    }
}

/// The senders listed as missing are pairwise distinct and strictly
/// ascending, each lies in `1..=slots.len() + 1`, and none is the collecting
/// party itself.
pub proof fn lemma_missing_ascending<M>(slots: Seq<Option<M>>, party_i: u16)
    requires
        party_i >= 1,
        slots.len() + 1 <= u16::MAX,
    ensures
        missing_of(slots, party_i).len() <= slots.len(),
        forall|a: int, b: int|
            0 <= a < b < missing_of(slots, party_i).len()
                ==> missing_of(slots, party_i)[a] < missing_of(slots, party_i)[b],
        forall|a: int|
            0 <= a < missing_of(slots, party_i).len()
                ==> missing_of(slots, party_i)[a] < sender_at(party_i, slots.len() as int),
        forall|a: int|
            0 <= a < missing_of(slots, party_i).len()
                ==> 1 <= missing_of(slots, party_i)[a] && missing_of(slots, party_i)[a]
                != party_i,
    decreases slots.len(),
{
    if slots.len() > 0 {
        lemma_missing_ascending(slots.drop_last(), party_i);
    }
}

/// A store with an empty slot lists at least one missing sender.
pub proof fn lemma_missing_nonempty<M>(slots: Seq<Option<M>>, party_i: u16, k: int)
    requires
        0 <= k < slots.len(),
        slots[k] is None,
    ensures
        missing_of(slots, party_i).len() > 0,
    decreases slots.len(),
{
    if k < slots.len() - 1 {
        lemma_missing_nonempty(slots.drop_last(), party_i, k);
    }
}

/// A store whose every slot is filled lists no missing sender.
pub proof fn lemma_missing_empty<M>(slots: Seq<Option<M>>, party_i: u16)
    requires
        forall|k: int| 0 <= k < slots.len() ==> slots[k] is Some,
    ensures
        missing_of(slots, party_i).len() == 0,
    decreases slots.len(),
{
    if slots.len() > 0 {
        lemma_missing_empty(slots.drop_last(), party_i);
    }
}

/// Extraction order: slot `k` of a completed batch holds the message of
/// sender `sender_at(party_i, k)`, and these senders are strictly ascending,
/// so a batch is always ordered by ascending sender index.
pub proof fn lemma_extraction_ascending(party_i: u16, len: int)
    requires
        party_i >= 1,
    ensures
        forall|a: int, b: int|
            0 <= a < b < len ==> sender_at(party_i, a) < sender_at(party_i, b),
{
}

/// Readiness and the missing list agree: a store is ready exactly when it
/// lists no missing sender.
pub proof fn lemma_ready_iff_no_missing<M>(store: &BroadcastMsgsStore<M>)
    requires
        store.wf(),
    ensures
        store.ready() <==> missing_of(store.slots@, store.party_i).len() == 0,
{
    if store.ready() {
        lemma_missing_empty(store.slots@, store.party_i);
    } else {
        let k = choose|k: int| 0 <= k < store.slots@.len() && !(store.slots@[k] is Some);
        lemma_missing_nonempty(store.slots@, store.party_i, k);
    }
}

} // verus!
