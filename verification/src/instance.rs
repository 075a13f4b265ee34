//! One party's signing session as a round-driven state machine: the live
//! round state sits in an option slot so that "already consumed" is a
//! representable condition, a fresh message store is created for each
//! communication round, and the executors drive it purely through the
//! `StateMachine` contract. The `proceed_rel` and `handle_rel` relations
//! below say exactly, round by round, what one step does.

use vstd::prelude::*;

use crate::message_store::{
    missing_of, push_result, slot_of, BroadcastMsgsStore, StoreError,
};
use crate::keys::{base_mul_of, KeyPair, Musig2Error};
use crate::rounds::{
    full_nonce_views, full_pk_views, fragment_views, MessageRound1, MessageRound2, Prepare,
    ProceedError, Round1, Round2, SignResult,
};
use crate::signature::{
    agg_coeff_of, agg_key_of, commit_of, global_r_of, key_views, nonce_scalar_of,
    own_fragment_of, sum_fragments, verify_ok,
};
use crate::state_machine::{DupBody, IsCritical, Msg, StateMachine};

verus! {

/// A message of the signing protocol, tagged by the round it belongs to.
#[derive(Clone, Debug)]
pub enum Musig2Message {
    Round1(MessageRound1),
    Round2(MessageRound2),
}

/// Errors of a signing session. Refused messages are non-critical: the run
/// continues without them. Round-computation errors are critical.
#[derive(Clone, Debug, PartialEq)]
pub enum InstanceError {
    /// The current round's store refused the message.
    Store(StoreError),
    /// The message belongs to no round this party is collecting for.
    WrongRound,
    /// Advancing was attempted before the round's input was complete.
    NotReady,
    /// A round computation failed; the run is over for this party.
    Proceed(ProceedError),
}

impl DupBody for Musig2Message {
    /// Interchangeable messages carry the same round tag and the same field
    /// contents; the step relations below read nothing else.
    open spec fn equiv(a: Musig2Message, b: Musig2Message) -> bool {
        match (a, b) {
            (Musig2Message::Round1(x), Musig2Message::Round1(y)) => {
                &&& x.ephemeral_keys@ == y.ephemeral_keys@
                &&& x.message@ == y.message@
                &&& x.pubkey == y.pubkey
            },
            (Musig2Message::Round2(x), Musig2Message::Round2(y)) => x == y,
            _ => false,
        }
    }

    fn duplicate(&self) -> (r: Self) {
        match self {
            Musig2Message::Round1(m1) => Musig2Message::Round1(
                MessageRound1 {
                    ephemeral_keys: crate::rounds::copy_keys(&m1.ephemeral_keys),
                    message: crate::rounds::copy_bytes(&m1.message),
                    pubkey: m1.pubkey,
                },
            ),
            Musig2Message::Round2(m2) => Musig2Message::Round2(*m2),
        }
    }
}

impl IsCritical for InstanceError {
    open spec fn critical(&self) -> bool {
        self is Proceed
    }

    /// Only round-computation errors abort the run; refused messages and
    /// premature advancing are reported and tolerated.
    fn is_critical(&self) -> (r: bool) {
        match self {
            InstanceError::Proceed(_) => true,
            _ => false,
        }
    }
}

/// The live round state of one party; consumed (moved out) when advancing.
pub enum RoundState {
    Prep(Prepare),
    R1(Round1, BroadcastMsgsStore<MessageRound1>),
    R2(Round2, BroadcastMsgsStore<MessageRound2>),
}

/// One party's signing session.
pub struct Musig2Instance {
    pub party_i: u16,
    pub party_n: u16,
    pub round: Option<RoundState>,
    pub queue: Vec<Msg<Musig2Message>>,
    pub output: Option<Result<SignResult, ProceedError>>,
    pub timeout_ms: Option<u64>,
}

/// The bodies of a completed store, slot by slot.
pub open spec fn batch_of<M>(slots: Seq<Option<M>>) -> Seq<M> {
    Seq::new(slots.len(), |k: int| slots[k].unwrap())
}

/// A first-round buffer entry wrapped for the instance's queue.
pub open spec fn wrap_round1(m: Msg<MessageRound1>) -> Msg<Musig2Message> {
    Msg { sender: m.sender, receiver: m.receiver, body: Musig2Message::Round1(m.body) }
}

/// A second-round buffer entry wrapped for the instance's queue.
pub open spec fn wrap_round2(m: Msg<MessageRound2>) -> Msg<Musig2Message> {
    Msg { sender: m.sender, receiver: m.receiver, body: Musig2Message::Round2(m.body) }
}

/// What `proceed` does from the preparation round: derive the nonce set,
/// broadcast it with the message and public key, and enter the first
/// communication round with a fresh, empty store; fail (only when a derived
/// nonce maps the generator to infinity) leaving the queue untouched.
pub open spec fn prep_step(
    pre: Musig2Instance,
    p: Prepare,
    post: Musig2Instance,
    r: Result<(), InstanceError>,
) -> bool {
    let ok = base_mul_of(nonce_scalar_of(p.key_pair.private_key@, p.seed@, 0)) is Some
        && base_mul_of(nonce_scalar_of(p.key_pair.private_key@, p.seed@, 1)) is Some;
    &&& (r is Ok <==> ok)
    &&& (r is Ok ==> ({
        &&& (post.round matches Some(RoundState::R1(r1, store)) && ({
            &&& r1.my_ind == p.my_ind
            &&& r1.key_pair == p.key_pair
            &&& r1.message@ == p.message@
            &&& r1.state1.keypair == p.key_pair
            &&& r1.state1.nonce_secrets@.len() == 2
            &&& r1.state1.nonce_points@.len() == 2
            &&& (forall|j: int|
                0 <= j < 2 ==> #[trigger] r1.state1.nonce_secrets@[j]@ == nonce_scalar_of(
                    p.key_pair.private_key@,
                    p.seed@,
                    j,
                ))
            &&& (forall|j: int|
                0 <= j < 2 ==> Some(#[trigger] r1.state1.nonce_points@[j]@) == base_mul_of(
                    r1.state1.nonce_secrets@[j]@,
                ))
            &&& store.party_i == pre.party_i
            &&& store.party_n == pre.party_n
            &&& (forall|k: int| 0 <= k < store.slots@.len() ==> store.slots@[k] is None)
            &&& post.queue@.len() == pre.queue@.len() + 1
            &&& post.queue@.subrange(0, pre.queue@.len() as int) == pre.queue@
            &&& post.queue@.last().sender == pre.party_i
            &&& post.queue@.last().receiver is None
            &&& (post.queue@.last().body matches Musig2Message::Round1(m1) && ({
                &&& m1.message@ == p.message@
                &&& m1.pubkey == p.key_pair.public_key
                &&& m1.ephemeral_keys@ == r1.state1.nonce_points@
            }))
        }))
        &&& post.output == pre.output
    }))
    &&& (r is Err ==> ({
        &&& r == Err::<(), InstanceError>(
            InstanceError::Proceed(ProceedError::Curve(Musig2Error::InvalidPrivateKey)),
        )
        &&& post.round is None
        &&& post.queue@ == pre.queue@
        &&& post.output == pre.output
    }))
}

/// What `proceed` does from the first communication round: nothing before the
/// store is complete; then the collected batch (a malformed nonce list is a
/// critical error) drives key aggregation, the shared commitment and this
/// party's fragment, the fragment is broadcast, and the second round starts
/// with a fresh store.
pub open spec fn round1_step(
    pre: Musig2Instance,
    r1: Round1,
    store: BroadcastMsgsStore<MessageRound1>,
    post: Musig2Instance,
    r: Result<(), InstanceError>,
) -> bool {
    if !store.ready() {
        post == pre && r == Err::<(), InstanceError>(InstanceError::NotReady)
    } else {
        let msgs = batch_of(store.slots@);
        if !(forall|t: int| 0 <= t < msgs.len() ==> #[trigger] msgs[t].ephemeral_keys@.len()
            == 2) {
            &&& r == Err::<(), InstanceError>(
                InstanceError::Proceed(ProceedError::Curve(Musig2Error::Invalid)),
            )
            &&& post.round is None
            &&& post.queue@ == pre.queue@
            &&& post.output == pre.output
        } else {
            let pks = full_pk_views(r1.key_pair.public_key@, msgs, r1.my_ind - 1);
            let nonces = full_nonce_views(
                key_views(r1.state1.nonce_points@),
                msgs,
                r1.my_ind - 1,
            );
            &&& (r is Ok <==> commit_of(pks, nonces, r1.message@) is Some)
            &&& (r is Ok ==> ({
                &&& (post.round matches Some(RoundState::R2(r2, store2)) && ({
                    &&& r2.my_ind == r1.my_ind
                    &&& r2.key_pair == r1.key_pair
                    &&& Some(r2.commit@) == commit_of(pks, nonces, r1.message@)
                    &&& Some(r2.r@) == global_r_of(pks, nonces, r1.message@)
                    &&& Some(r2.key_agg.x_tilde@) == agg_key_of(pks)
                    &&& r2.key_agg.a_i@ == agg_coeff_of(pks, r1.my_ind - 1)
                    &&& Some(r2.state2.own_fragment@) == own_fragment_of(
                        pks,
                        nonces,
                        r1.message@,
                        r1.my_ind - 1,
                        r1.state1.keypair.private_key@,
                        r1.state1.nonce_secrets@[0]@,
                        r1.state1.nonce_secrets@[1]@,
                    )
                    &&& store2.party_i == pre.party_i
                    &&& store2.party_n == pre.party_n
                    &&& (forall|k: int|
                        0 <= k < store2.slots@.len() ==> store2.slots@[k] is None)
                    &&& post.queue@.len() == pre.queue@.len() + 1
                    &&& post.queue@.subrange(0, pre.queue@.len() as int) == pre.queue@
                    &&& post.queue@.last().sender == pre.party_i
                    &&& post.queue@.last().receiver is None
                    &&& (post.queue@.last().body matches Musig2Message::Round2(m2)
                        && m2.sign_fragment == r2.state2.own_fragment)
                }))
                &&& post.output == pre.output
            }))
            &&& (r is Err ==> ({
                &&& r == Err::<(), InstanceError>(
                    InstanceError::Proceed(ProceedError::Curve(Musig2Error::InvalidPublicKey)),
                )
                &&& post.round is None
                &&& post.queue@ == pre.queue@
                &&& post.output == pre.output
            }))
        }
    }
}

/// What `proceed` does from the second communication round: nothing before
/// the store is complete; then the fragments are summed and the aggregate
/// signature verified — success stores the verified output, failure is the
/// critical verification error and no output appears.
pub open spec fn round2_step(
    pre: Musig2Instance,
    r2: Round2,
    store: BroadcastMsgsStore<MessageRound2>,
    post: Musig2Instance,
    r: Result<(), InstanceError>,
) -> bool {
    if !store.ready() {
        post == pre && r == Err::<(), InstanceError>(InstanceError::NotReady)
    } else {
        let s = sum_fragments(r2.state2.own_fragment@, fragment_views(batch_of(store.slots@)));
        let ok = verify_ok(s, r2.r@.subrange(1, 33), r2.key_agg.x_tilde@, r2.commit@);
        &&& (r is Ok <==> ok)
        &&& (r is Ok ==> ({
            &&& post.round is None
            &&& post.queue@ == pre.queue@
            &&& (post.output matches Some(Ok(sr)) && sr.s@ == s && sr.r == r2.r && sr.commit@
                == r2.commit@)
        }))
        &&& (r is Err ==> ({
            &&& r == Err::<(), InstanceError>(
                InstanceError::Proceed(ProceedError::VerificationFailed),
            )
            &&& post.round is None
            &&& post.queue@ == pre.queue@
            &&& post.output == pre.output
        }))
    }
}

impl Musig2Instance {
    /// The round this party is currently in: preparation, first or second
    /// communication round, or done.
    pub open spec fn round_num(&self) -> u16 {
        match self.round {
            Some(RoundState::Prep(_)) => 0,
            Some(RoundState::R1(_, _)) => 1,
            Some(RoundState::R2(_, _)) => 2,
            None => 3,
        }
    }

    pub open spec fn wf(&self) -> bool {
        &&& 2 <= self.party_n
        &&& 1 <= self.party_i <= self.party_n
        &&& match self.output {
            Some(Ok(sr)) => exists|xt: Seq<u8>|
                verify_ok(sr.s@, #[trigger] sr.r@.subrange(1, 33), xt, sr.commit@),
            _ => true,
        }
        &&& match self.round {
            Some(RoundState::Prep(p)) => p.my_ind == self.party_i,
            Some(RoundState::R1(r1, store)) => {
                &&& r1.my_ind == self.party_i
                &&& r1.state1.nonce_secrets@.len() == 2
                &&& r1.state1.nonce_points@.len() == 2
                &&& store.wf()
                &&& store.party_i == self.party_i
                &&& store.party_n == self.party_n
            },
            Some(RoundState::R2(r2, store)) => {
                &&& r2.my_ind == self.party_i
                &&& store.wf()
                &&& store.party_i == self.party_i
                &&& store.party_n == self.party_n
            },
            None => true,
        }
    }

    /// A session over `party_n` parties for the party at 1-based index
    /// `party_i`, signing `message` with `key_pair`; the nonce set is derived
    /// from `seed`, and `timeout_ms`, when given, bounds every round's wait.
    pub fn with_fixed_seed(
        party_i: u16,
        party_n: u16,
        message: Vec<u8>,
        key_pair: KeyPair,
        seed: [u8; 32],
        timeout_ms: Option<u64>,
    ) -> (r: Musig2Instance)
        requires
            2 <= party_n,
            1 <= party_i <= party_n,
        ensures
            r.wf(),
            r.round_num() == 0,
            r.party_i == party_i,
            r.party_n == party_n,
            r.queue@.len() == 0,
            r.output is None,
            r.timeout_ms == timeout_ms,
    {
        Musig2Instance {
            party_i,
            party_n,
            round: Some(
                RoundState::Prep(Prepare { my_ind: party_i, key_pair, message, seed }),
            ),
            queue: Vec::new(),
            output: None,
            timeout_ms,
        }
    }

    /// The protocol error for an elapsed round deadline: it names exactly
    /// the parties whose contribution for the current round is missing, in
    /// ascending index order; while the round's input is incomplete the list
    /// is never empty.
    pub fn timeout_error(&self) -> (r: InstanceError)
        requires
            self.wf(),
        ensures
            self.is_timeout_err(r),
    {
        let missing: Vec<u16> = match &self.round {
            Some(RoundState::R1(_, store)) => {
                proof {
                    missing_nonempty_when_not_ready(store);
                }
                store.missing()
            },
            Some(RoundState::R2(_, store)) => {
                proof {
                    missing_nonempty_when_not_ready(store);
                }
                store.missing()
            },
            _ => Vec::new(),
        };
        InstanceError::Proceed(ProceedError::PartiesDidntRevealItsSeed { party_ind: missing })
    }

    /// Moves a batch of first-round broadcasts into the outgoing queue,
    /// wrapped and in order; everything else is untouched.
    fn enqueue_round1(&mut self, buf: Vec<Msg<MessageRound1>>)
        ensures
            final(self).round == old(self).round,
            final(self).output == old(self).output,
            final(self).party_i == old(self).party_i,
            final(self).party_n == old(self).party_n,
            final(self).timeout_ms == old(self).timeout_ms,
            final(self).queue@.len() == old(self).queue@.len() + buf@.len(),
            final(self).queue@.subrange(0, old(self).queue@.len() as int) == old(self).queue@,
            forall|j: int|
                0 <= j < buf@.len() ==> final(self).queue@[old(self).queue@.len() + j]
                    == wrap_round1(#[trigger] buf@[j]),
    {
        let ghost orig = buf@;
        let ghost base = self.queue@.len() as int;
        let mut buf = buf;
        let ghost mut k: int = 0;
        while buf.len() > 0
            invariant
                self.round == old(self).round,
                self.output == old(self).output,
                self.party_i == old(self).party_i,
                self.party_n == old(self).party_n,
                self.timeout_ms == old(self).timeout_ms,
                base == old(self).queue@.len(),
                0 <= k,
                orig.len() == k + buf@.len(),
                buf@ == orig.skip(k),
                self.queue@.len() == base + k,
                self.queue@.subrange(0, base) == old(self).queue@,
                forall|j: int|
                    0 <= j < k ==> self.queue@[base + j] == wrap_round1(#[trigger] orig[j]),
            decreases buf@.len(),
        {
            let m = buf.remove(0);
            proof {
                assert(m == orig[k]);
                assert(buf@ =~= orig.skip(k + 1));
            }
            self.queue.push(
                Msg {
                    sender: m.sender,
                    receiver: m.receiver,
                    body: Musig2Message::Round1(m.body),
                },
            );
            proof {
                assert(self.queue@.subrange(0, base) =~= old(self).queue@);
                k = k + 1;
            }
        }
    }

    /// Moves a batch of second-round broadcasts into the outgoing queue,
    /// wrapped and in order; everything else is untouched.
    fn enqueue_round2(&mut self, buf: Vec<Msg<MessageRound2>>)
        ensures
            final(self).round == old(self).round,
            final(self).output == old(self).output,
            final(self).party_i == old(self).party_i,
            final(self).party_n == old(self).party_n,
            final(self).timeout_ms == old(self).timeout_ms,
            final(self).queue@.len() == old(self).queue@.len() + buf@.len(),
            final(self).queue@.subrange(0, old(self).queue@.len() as int) == old(self).queue@,
            forall|j: int|
                0 <= j < buf@.len() ==> final(self).queue@[old(self).queue@.len() + j]
                    == wrap_round2(#[trigger] buf@[j]),
    {
        let ghost orig = buf@;
        let ghost base = self.queue@.len() as int;
        let mut buf = buf;
        let ghost mut k: int = 0;
        while buf.len() > 0
            invariant
                self.round == old(self).round,
                self.output == old(self).output,
                self.party_i == old(self).party_i,
                self.party_n == old(self).party_n,
                self.timeout_ms == old(self).timeout_ms,
                base == old(self).queue@.len(),
                0 <= k,
                orig.len() == k + buf@.len(),
                buf@ == orig.skip(k),
                self.queue@.len() == base + k,
                self.queue@.subrange(0, base) == old(self).queue@,
                forall|j: int|
                    0 <= j < k ==> self.queue@[base + j] == wrap_round2(#[trigger] orig[j]),
            decreases buf@.len(),
        {
            let m = buf.remove(0);
            proof {
                assert(m == orig[k]);
                assert(buf@ =~= orig.skip(k + 1));
            }
            self.queue.push(
                Msg {
                    sender: m.sender,
                    receiver: m.receiver,
                    body: Musig2Message::Round2(m.body),
                },
            );
            proof {
                assert(self.queue@.subrange(0, base) =~= old(self).queue@);
                k = k + 1;
            }
        }
    }
}

/// An incomplete store lists at least one missing sender.
proof fn missing_nonempty_when_not_ready<M>(store: &BroadcastMsgsStore<M>)
    requires
        store.wf(),
    ensures
        !store.ready() ==> missing_of(store.slots@, store.party_i).len() > 0,
{
    if !store.ready() {
        let k = choose|k: int| 0 <= k < store.slots@.len() && !(store.slots@[k] is Some);
        crate::message_store::lemma_missing_nonempty(store.slots@, store.party_i, k);
    }
}

/// True iff every collected first-round message carries exactly two nonce
/// points.
fn nonce_lists_ok(msgs: &Vec<MessageRound1>) -> (r: bool)
    ensures
        r == (forall|t: int|
            0 <= t < msgs@.len() ==> #[trigger] msgs@[t].ephemeral_keys@.len() == 2),
{
    let len = msgs.len();
    let mut j: usize = 0;
    while j < len
        invariant
            j <= len,
            len == msgs@.len(),
            forall|t: int| 0 <= t < j ==> #[trigger] msgs@[t].ephemeral_keys@.len() == 2,
        decreases len - j,
    {
        if msgs[j].ephemeral_keys.len() != 2 {
            return false;
        }
        j = j + 1;
    }
    true
}

impl StateMachine for Musig2Instance {
    type MessageBody = Musig2Message;

    type Err = InstanceError;

    type Output = SignResult;

    open spec fn inv(&self) -> bool {
        self.wf()
    }

    open spec fn round_of(&self) -> u16 {
        self.round_num()
    }

    open spec fn party_of(&self) -> u16 {
        self.party_i
    }

    open spec fn finished_of(&self) -> bool {
        self.output is Some
    }

    open spec fn wants_of(&self) -> bool {
        match self.round {
            Some(RoundState::Prep(_)) => true,
            Some(RoundState::R1(_, store)) => store.ready(),
            Some(RoundState::R2(_, store)) => store.ready(),
            None => false,
        }
    }

    open spec fn queue_of(&self) -> Seq<Msg<Musig2Message>> {
        self.queue@
    }

    open spec fn output_of(&self) -> Option<Result<SignResult, InstanceError>> {
        match self.output {
            None => None,
            Some(Ok(sr)) => Some(Ok(sr)),
            Some(Err(e)) => Some(Err(InstanceError::Proceed(e))),
        }
    }

    open spec fn timeout_of(&self) -> Option<u64> {
        self.timeout_ms
    }

    open spec fn is_timeout_err(&self, e: InstanceError) -> bool {
        match self.round {
            Some(RoundState::R1(_, store)) => (e matches InstanceError::Proceed(
                ProceedError::PartiesDidntRevealItsSeed { party_ind },
            ) && ({
                &&& party_ind@ == missing_of(store.slots@, store.party_i)
                &&& !store.ready() ==> party_ind@.len() > 0
            })),
            Some(RoundState::R2(_, store)) => (e matches InstanceError::Proceed(
                ProceedError::PartiesDidntRevealItsSeed { party_ind },
            ) && ({
                &&& party_ind@ == missing_of(store.slots@, store.party_i)
                &&& !store.ready() ==> party_ind@.len() > 0
            })),
            _ => (e matches InstanceError::Proceed(
                ProceedError::PartiesDidntRevealItsSeed { party_ind },
            ) && party_ind@ == Seq::<u16>::empty()),
        }
    }

    open spec fn proceed_rel(pre: Self, post: Self, r: Result<(), InstanceError>) -> bool {
        &&& post.party_n == pre.party_n
        &&& post.timeout_ms == pre.timeout_ms
        &&& match pre.round {
            Some(RoundState::Prep(p)) => prep_step(pre, p, post, r),
            Some(RoundState::R1(r1, store)) => round1_step(pre, r1, store, post, r),
            Some(RoundState::R2(r2, store)) => round2_step(pre, r2, store, post, r),
            None => post == pre && r == Err::<(), InstanceError>(InstanceError::NotReady),
        }
    }

    open spec fn handle_rel(
        pre: Self,
        post: Self,
        msg: Msg<Musig2Message>,
        r: Result<(), InstanceError>,
    ) -> bool {
        &&& post.party_n == pre.party_n
        &&& post.timeout_ms == pre.timeout_ms
        &&& post.queue@ == pre.queue@
        &&& post.output == pre.output
        &&& match (pre.round, msg.body) {
            (Some(RoundState::R1(r1, store)), Musig2Message::Round1(m1)) => match push_result(
                store.party_i,
                store.party_n,
                store.slots@,
                msg.sender,
            ) {
                Ok(()) => r is Ok && (post.round matches Some(RoundState::R1(r1b, store2))
                    && ({
                    &&& r1b == r1
                    &&& store2.party_i == store.party_i
                    &&& store2.party_n == store.party_n
                    &&& store2.slots@ == store.slots@.update(
                        slot_of(store.party_i, msg.sender),
                        Some(m1),
                    )
                })),
                Err(se) => post == pre && r == Err::<(), InstanceError>(
                    InstanceError::Store(se),
                ),
            },
            (Some(RoundState::R2(r2, store)), Musig2Message::Round2(m2)) => match push_result(
                store.party_i,
                store.party_n,
                store.slots@,
                msg.sender,
            ) {
                Ok(()) => r is Ok && (post.round matches Some(RoundState::R2(r2b, store2))
                    && ({
                    &&& r2b == r2
                    &&& store2.party_i == store.party_i
                    &&& store2.party_n == store.party_n
                    &&& store2.slots@ == store.slots@.update(
                        slot_of(store.party_i, msg.sender),
                        Some(m2),
                    )
                })),
                Err(se) => post == pre && r == Err::<(), InstanceError>(
                    InstanceError::Store(se),
                ),
            },
            _ => post == pre && r == Err::<(), InstanceError>(InstanceError::WrongRound),
        }
    }

    fn party_ind(&self) -> (r: u16) {
        self.party_i
    }

    fn current_round(&self) -> (r: u16) {
        match &self.round {
            Some(RoundState::Prep(_)) => 0,
            Some(RoundState::R1(_, _)) => 1,
            Some(RoundState::R2(_, _)) => 2,
            None => 3,
        }
    }

    fn wants_to_proceed(&self) -> (r: bool) {
        match &self.round {
            Some(RoundState::Prep(_)) => true,
            Some(RoundState::R1(_, store)) => store.is_ready(),
            Some(RoundState::R2(_, store)) => store.is_ready(),
            None => false,
        }
    }

    fn proceed(&mut self) -> (r: Result<(), InstanceError>) {
        let round = self.round.take();
        match round {
            Some(RoundState::Prep(p)) => {
                let mut buf: Vec<Msg<MessageRound1>> = Vec::new();
                match p.proceed(&mut buf) {
                    Ok(r1) => {
                        self.enqueue_round1(buf);
                        let store = Round1::expects_messages(self.party_i, self.party_n);
                        self.round = Some(RoundState::R1(r1, store));
                        Ok(())
                    },
                    Err(e) => Err(InstanceError::Proceed(e)),
                }
            },
            Some(RoundState::R1(r1, store)) => {
                if !store.is_ready() {
                    self.round = Some(RoundState::R1(r1, store));
                    return Err(InstanceError::NotReady);
                }
                let ghost slots = store.slots@;
                let batch = store.finish();
                proof {
                    assert(batch.msgs@ =~= batch_of(slots));
                }
                if !nonce_lists_ok(&batch.msgs) {
                    return Err(
                        InstanceError::Proceed(
                            ProceedError::Curve(crate::keys::Musig2Error::Invalid),
                        ),
                    );
                }
                let mut buf: Vec<Msg<MessageRound2>> = Vec::new();
                match r1.proceed(batch, &mut buf) {
                    Ok(r2) => {
                        self.enqueue_round2(buf);
                        let store2 = Round2::expects_messages(self.party_i, self.party_n);
                        self.round = Some(RoundState::R2(r2, store2));
                        Ok(())
                    },
                    Err(e) => Err(InstanceError::Proceed(e)),
                }
            },
            Some(RoundState::R2(r2, store)) => {
                if !store.is_ready() {
                    self.round = Some(RoundState::R2(r2, store));
                    return Err(InstanceError::NotReady);
                }
                let ghost slots = store.slots@;
                let batch = store.finish();
                proof {
                    assert(batch.msgs@ =~= batch_of(slots));
                }
                match r2.proceed(batch) {
                    Ok(sr) => {
                        let ghost gsr = sr;
                        proof {
                            assert(verify_ok(
                                gsr.s@,
                                gsr.r@.subrange(1, 33),
                                r2.key_agg.x_tilde@,
                                gsr.commit@,
                            ));
                        }
                        self.output = Some(Ok(sr));
                        Ok(())
                    },
                    Err(e) => Err(InstanceError::Proceed(e)),
                }
            },
            None => Err(InstanceError::NotReady),
        }
    }

    fn handle_incoming(&mut self, msg: Msg<Musig2Message>) -> (r: Result<(), InstanceError>) {
        let Msg { sender, receiver, body } = msg;
        match (&mut self.round, body) {
            (Some(RoundState::R1(_, store)), Musig2Message::Round1(m1)) => {
                match store.push(Msg { sender, receiver, body: m1 }) {
                    Ok(()) => Ok(()),
                    Err(e) => Err(InstanceError::Store(e)),
                }
            },
            (Some(RoundState::R2(_, store)), Musig2Message::Round2(m2)) => {
                match store.push(Msg { sender, receiver, body: m2 }) {
                    Ok(()) => Ok(()),
                    Err(e) => Err(InstanceError::Store(e)),
                }
            },
            _ => Err(InstanceError::WrongRound),
        }
    }

    fn take_message_queue(&mut self) -> (r: Vec<Msg<Musig2Message>>) {
        let out = self.queue.split_off(0);
        proof {
            assert(out@ =~= old(self).queue@);
            assert(self.queue@ =~= Seq::<Msg<Musig2Message>>::empty());
        }
        out
    }

    fn round_timeout(&self) -> (r: Option<u64>) {
        self.timeout_ms
    }

    fn round_timeout_reached(&self) -> (r: InstanceError) {
        self.timeout_error()
    }

    fn is_finished(&self) -> (r: bool) {
        self.output.is_some()
    }

    fn pick_output(&mut self) -> (r: Option<Result<SignResult, InstanceError>>) {
        match self.output.take() {
            Some(Ok(sr)) => Some(Ok(sr)),
            Some(Err(e)) => Some(Err(InstanceError::Proceed(e))),
            None => None,
        }
    }
}

/// Every success a finished session stores has passed verification: there is
/// an aggregate key against which the signature equation of `verify_ok`
/// holds for the stored `(r, s, commit)`. Together with the simulation's
/// success contract — one output per party, each a party's own stored
/// output — no run ever hands out an unverified signature.
pub proof fn lemma_outputs_verified(m: Musig2Instance, sr: SignResult)
    requires
        m.wf(),
        m.output_of() == Some(Ok::<SignResult, InstanceError>(sr)),
    ensures
        exists|xt: Seq<u8>|
            verify_ok(sr.s@, #[trigger] sr.r@.subrange(1, 33), xt, sr.commit@),
{
}

} // verus!
