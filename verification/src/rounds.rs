//! The three signing rounds. `Prepare` derives the ephemeral nonce set and
//! broadcasts it with the party's public key; `Round1` collects every peer's
//! contribution, aggregates keys, computes the shared commitment and this
//! party's signature fragment, and broadcasts the fragment; `Round2` sums the
//! fragments and verifies the aggregate signature before yielding it. Each
//! round state is consumed when advancing: a round cannot be run twice.

use vstd::prelude::*;

use crate::keys::{base_mul_of, KeyPair, Musig2Error, PrivateKey, PublicKey};
use crate::signature::{
    agg_coeff_of, agg_key_of, commit_of, compute_global_params, global_r_of, key_views,
    nonce_scalar_of, own_fragment_of, scalar_views, sign, sign_double_prime, sum_fragments,
    verify, verify_ok, KeyAgg, State, StatePrime,
};
use crate::message_store::{BroadcastMsgs, BroadcastMsgsStore};
use crate::state_machine::{IsCritical, Msg, Push};

verus! {

/// Errors a round can produce; every one of them aborts the run.
#[derive(Clone, Debug, PartialEq)]
pub enum ProceedError {
    /// The round deadline elapsed before these parties contributed.
    PartiesDidntRevealItsSeed { party_ind: Vec<u16> },
    /// A curve operation failed while computing a round.
    Curve(Musig2Error),
    /// The final aggregate signature did not verify.
    VerificationFailed,
}

impl IsCritical for ProceedError {
    open spec fn critical(&self) -> bool {
        true
    }

    /// Every round error is critical: a round cannot continue without the
    /// value it failed to compute.
    fn is_critical(&self) -> (r: bool) {
        true
    }
}

/// The first round's broadcast: the sender's ephemeral nonce points, the
/// message being signed, and the sender's public key (exchanged here because
/// parties may not have shared keys out-of-band).
#[derive(Clone, Debug)]
pub struct MessageRound1 {
    pub ephemeral_keys: Vec<PublicKey>,
    pub message: Vec<u8>,
    pub pubkey: PublicKey,
}

/// The second round's broadcast: the sender's partial-signature scalar.
#[derive(Clone, Copy, Debug)]
pub struct MessageRound2 {
    pub sign_fragment: PrivateKey,
}

/// The final verified aggregate signature.
#[derive(Clone, Copy, Debug)]
pub struct SignResult {
    pub r: PublicKey,
    pub s: PrivateKey,
    pub commit: [u8; 32],
}

/// A commitment to a seed, exchanged before the seed itself is revealed.
#[derive(Clone, Debug)]
pub struct CommittedSeed(pub [u8; 32]);

/// A revealed seed together with the blinding of its commitment.
#[derive(Clone, Debug)]
pub struct RevealedSeed {
    pub seed: u32,
    pub blinding: [u8; 32],
}

/// The preparation round: owns the key pair, the message and the session
/// seed, and produces the `Round1` broadcast.
#[derive(Clone, Debug)]
pub struct Prepare {
    pub my_ind: u16,
    pub key_pair: KeyPair,
    pub message: Vec<u8>,
    pub seed: [u8; 32],
}

/// The first communication round: holds the nonce state while peers'
/// contributions are collected.
#[derive(Clone, Debug)]
pub struct Round1 {
    pub my_ind: u16,
    pub state1: State,
    pub key_pair: KeyPair,
    pub message: Vec<u8>,
}

/// The second communication round: holds the shared commitment, the group
/// nonce and this party's fragment while peers' fragments are collected.
#[derive(Clone, Debug)]
pub struct Round2 {
    pub my_ind: u16,
    pub commit: [u8; 32],
    pub r: PublicKey,
    pub state2: StatePrime,
    pub key_pair: KeyPair,
    pub key_agg: KeyAgg,
}

/// The ordered key list a party reconstructs in `Round1`: the peers' keys in
/// sender order with its own key inserted at its own position.
#[verifier::opaque]
pub open spec fn full_pk_views(own: Seq<u8>, msgs: Seq<MessageRound1>, my_pos: int) -> Seq<
    Seq<u8>,
> {
    Seq::new(
        (msgs.len() + 1) as nat,
        |k: int|
            if k < my_pos {
                msgs[k].pubkey@
            } else if k == my_pos {
                own
            } else {
                msgs[k - 1].pubkey@
            },
    )
}

/// The ordered nonce lists a party reconstructs in `Round1`, its own nonce
/// points inserted at its own position.
#[verifier::opaque]
pub open spec fn full_nonce_views(
    own: Seq<Seq<u8>>,
    msgs: Seq<MessageRound1>,
    my_pos: int,
) -> Seq<Seq<Seq<u8>>> {
    Seq::new(
        (msgs.len() + 1) as nat,
        |k: int|
            if k < my_pos {
                key_views(msgs[k].ephemeral_keys@)
            } else if k == my_pos {
                own
            } else {
                key_views(msgs[k - 1].ephemeral_keys@)
            },
    )
}

/// The fragments carried by a batch of second-round messages.
pub open spec fn fragment_views(msgs: Seq<MessageRound2>) -> Seq<Seq<u8>> {
    Seq::new(msgs.len(), |k: int| msgs[k].sign_fragment@)
}

/// A copy of a key list.
pub(crate) fn copy_keys(v: &Vec<PublicKey>) -> (r: Vec<PublicKey>)
    ensures
        r@ == v@,
{
    let len = v.len();
    let mut out: Vec<PublicKey> = Vec::new();
    let mut j: usize = 0;
    while j < len
        invariant
            j <= len,
            len == v@.len(),
            out@.len() == j,
            forall|k: int| 0 <= k < j ==> out@[k] == v@[k],
        decreases len - j,
    {
        out.push(v[j]);
        j = j + 1;
    }
    proof {
        assert(out@ =~= v@);
    }
    out
}

/// A copy of a byte string.
pub(crate) fn copy_bytes(v: &Vec<u8>) -> (r: Vec<u8>)
    ensures
        r@ == v@,
{
    let mut out: Vec<u8> = Vec::new();
    out.extend_from_slice(v.as_slice());
    out
}

/// Reconstructs the full ordered key and nonce lists of one run: the peers'
/// entries in sender order, this party's own entries inserted at `my_pos`.
fn build_full_lists(
    own_pk: &PublicKey,
    own_nonces: &Vec<PublicKey>,
    msgs: &Vec<MessageRound1>,
    my_pos: usize,
) -> (r: (Vec<PublicKey>, Vec<Vec<PublicKey>>))
    requires
        my_pos <= msgs@.len(),
        msgs@.len() < usize::MAX,
        own_nonces@.len() == 2,
        forall|t: int| 0 <= t < msgs@.len() ==> #[trigger] msgs@[t].ephemeral_keys@.len() == 2,
    ensures
        key_views(r.0@) == full_pk_views(own_pk@, msgs@, my_pos as int),
        crate::signature::nonce_views(r.1@) == full_nonce_views(
            key_views(own_nonces@),
            msgs@,
            my_pos as int,
        ),
        r.0@.len() == msgs@.len() + 1,
        r.1@.len() == msgs@.len() + 1,
        forall|t: int| 0 <= t < r.1@.len() ==> #[trigger] r.1@[t]@.len() == 2,
{
    let m = msgs.len();
    let total = m + 1;
    let mut pks: Vec<PublicKey> = Vec::new();
    let mut nonces: Vec<Vec<PublicKey>> = Vec::new();
    let mut k: usize = 0;
    while k < total
        invariant
            k <= total,
            total == m + 1,
            m == msgs@.len(),
            my_pos <= m,
            own_nonces@.len() == 2,
            forall|t: int| 0 <= t < m ==> #[trigger] msgs@[t].ephemeral_keys@.len() == 2,
            pks@.len() == k,
            nonces@.len() == k,
            forall|t: int| 0 <= t < k && t < my_pos ==> #[trigger] pks@[t] == msgs@[t].pubkey,
            k > my_pos ==> pks@[my_pos as int] == own_pk,
            forall|t: int|
                my_pos < t < k ==> #[trigger] pks@[t] == msgs@[t - 1].pubkey,
            forall|t: int|
                0 <= t < k && t < my_pos ==> #[trigger] nonces@[t]@ == msgs@[t].ephemeral_keys@,
            k > my_pos ==> nonces@[my_pos as int]@ == own_nonces@,
            forall|t: int|
                my_pos < t < k ==> #[trigger] nonces@[t]@ == msgs@[t - 1].ephemeral_keys@,
        decreases total - k,
    {
        if k < my_pos {
            pks.push(msgs[k].pubkey);
            nonces.push(copy_keys(&msgs[k].ephemeral_keys));
        } else if k == my_pos {
            pks.push(*own_pk);
            nonces.push(copy_keys(own_nonces));
        } else {
            pks.push(msgs[k - 1].pubkey);
            nonces.push(copy_keys(&msgs[k - 1].ephemeral_keys));
        }
        k = k + 1;
    }
    proof {
        reveal(full_pk_views);
        reveal(full_nonce_views);
        let spec_pks = full_pk_views(own_pk@, msgs@, my_pos as int);
        let spec_nonces = full_nonce_views(key_views(own_nonces@), msgs@, my_pos as int);
        assert forall|t: int| 0 <= t < pks@.len() implies #[trigger] key_views(pks@)[t]
            == spec_pks[t] by {
            if t < my_pos {
            } else if t == my_pos {
            } else {
            }
        }
        assert(key_views(pks@) =~= spec_pks);
        assert forall|t: int|
            0 <= t < nonces@.len() implies #[trigger] crate::signature::nonce_views(nonces@)[t]
            == spec_nonces[t] by {
            if t < my_pos {
            } else if t == my_pos {
            } else {
            }
        }
        assert(crate::signature::nonce_views(nonces@) =~= spec_nonces);
    }
    (pks, nonces)
}

/// Runs the first round's computations over the reconstructed ordered
/// lists: key aggregation, the shared commitment and group nonce, and this
/// party's signature fragment.
fn round1_compute(
    state1: &State,
    message: &Vec<u8>,
    pks: &Vec<PublicKey>,
    nonces: &Vec<Vec<PublicKey>>,
    party_index: usize,
) -> (r: Result<(KeyAgg, StatePrime, PrivateKey, [u8; 32], PublicKey), Musig2Error>)
    requires
        pks@.len() >= 1,
        party_index < pks@.len(),
        nonces@.len() >= 1,
        forall|p: int| 0 <= p < nonces@.len() ==> #[trigger] nonces@[p]@.len() == 2,
        state1.nonce_secrets@.len() == 2,
    ensures
        r is Ok <==> commit_of(key_views(pks@), crate::signature::nonce_views(nonces@), message@)
            is Some,
        r matches Ok(v) ==> ({
            &&& Some(v.0.x_tilde@) == agg_key_of(key_views(pks@))
            &&& v.0.a_i@ == agg_coeff_of(key_views(pks@), party_index as int)
            &&& Some(v.1.own_fragment@) == own_fragment_of(
                key_views(pks@),
                crate::signature::nonce_views(nonces@),
                message@,
                party_index as int,
                state1.keypair.private_key@,
                state1.nonce_secrets@[0]@,
                state1.nonce_secrets@[1]@,
            )
            &&& v.2 == v.1.own_fragment
            &&& Some(v.3@) == commit_of(
                key_views(pks@),
                crate::signature::nonce_views(nonces@),
                message@,
            )
            &&& Some(v.4@) == global_r_of(
                key_views(pks@),
                crate::signature::nonce_views(nonces@),
                message@,
            )
        }),
        r is Err ==> r == Err::<(KeyAgg, StatePrime, PrivateKey, [u8; 32], PublicKey),
            Musig2Error,
        >(Musig2Error::InvalidPublicKey),
{
    let key_agg = match KeyAgg::key_aggregation_n(pks, party_index) {
        Ok(ka) => ka,
        Err(e) => {
            return Err(e);
        },
    };
    let (state2, sign_fragment) = match state1.sign_prime(message, pks, nonces, party_index) {
        Ok(sf) => sf,
        Err(e) => {
            return Err(e);
        },
    };
    let (commit, rr) = match compute_global_params(message, pks, nonces) {
        Ok(cr) => cr,
        Err(e) => {
            return Err(e);
        },
    };
    Ok((key_agg, state2, sign_fragment, commit, rr))
}

impl Prepare {
    /// Derives the ephemeral nonce set from the key pair and seed, broadcasts
    /// it with the message and public key, and advances to `Round1`. Fails
    /// only when a derived nonce maps the generator to infinity, pushing
    /// nothing.
    pub fn proceed<O: Push<Msg<MessageRound1>>>(self, output: &mut O) -> (r: Result<
        Round1,
        ProceedError,
    >)
        ensures
            r is Ok <==> (base_mul_of(
                nonce_scalar_of(self.key_pair.private_key@, self.seed@, 0),
            ) is Some && base_mul_of(
                nonce_scalar_of(self.key_pair.private_key@, self.seed@, 1),
            ) is Some),
            r matches Ok(r1) ==> ({
                &&& r1.my_ind == self.my_ind
                &&& r1.key_pair == self.key_pair
                &&& r1.message@ == self.message@
                &&& r1.state1.keypair == self.key_pair
                &&& r1.state1.nonce_secrets@.len() == 2
                &&& r1.state1.nonce_points@.len() == 2
                &&& forall|j: int|
                    0 <= j < 2 ==> #[trigger] r1.state1.nonce_secrets@[j]@ == nonce_scalar_of(
                        self.key_pair.private_key@,
                        self.seed@,
                        j,
                    )
                &&& forall|j: int|
                    0 <= j < 2 ==> Some(#[trigger] r1.state1.nonce_points@[j]@) == base_mul_of(
                        r1.state1.nonce_secrets@[j]@,
                    )
                &&& final(output).buffer() == old(output).buffer().push(
                    final(output).buffer().last(),
                )
                &&& final(output).buffer().last().sender == self.my_ind
                &&& final(output).buffer().last().receiver is None
                &&& final(output).buffer().last().body.ephemeral_keys@
                    == r1.state1.nonce_points@
                &&& final(output).buffer().last().body.message@ == self.message@
                &&& final(output).buffer().last().body.pubkey == self.key_pair.public_key
            }),
            r is Err ==> r == Err::<Round1, ProceedError>(
                ProceedError::Curve(Musig2Error::InvalidPrivateKey),
            ) && final(output).buffer() == old(output).buffer(),
    {
        let (nonce, state1) = match sign(&self.key_pair, &self.seed) {
            Ok(ns) => ns,
            Err(e) => {
                return Err(ProceedError::Curve(e));
            },
        };
        let body = MessageRound1 {
            ephemeral_keys: nonce,
            message: copy_bytes(&self.message),
            pubkey: self.key_pair.public_key,
        };
        output.push(Msg { sender: self.my_ind, receiver: None, body });
        Ok(Round1 { my_ind: self.my_ind, state1, key_pair: self.key_pair, message: self.message })
    }

    /// Nonce derivation is hashing; treated as cheap.
    pub fn is_expensive(&self) -> (r: bool)
        ensures
            r == false,
    {
        false
    }
}

impl Round1 {
    /// Consumes the collected first-round batch: reconstructs the full
    /// ordered key and nonce lists with this party's own entries at its own
    /// position, aggregates the keys, computes the shared commitment, the
    /// group nonce and this party's signature fragment, broadcasts the
    /// fragment and advances to `Round2`. Fails, pushing nothing, exactly
    /// when a curve operation on the collected inputs fails.
    #[verifier::rlimit(100)]
    pub fn proceed<O: Push<Msg<MessageRound2>>>(
        self,
        input: BroadcastMsgs<MessageRound1>,
        output: &mut O,
    ) -> (r: Result<Round2, ProceedError>)
        requires
            1 <= self.my_ind,
            self.my_ind - 1 <= input.msgs@.len(),
            1 <= input.msgs@.len() < usize::MAX,
            forall|t: int|
                0 <= t < input.msgs@.len() ==> #[trigger] input.msgs@[t].ephemeral_keys@.len()
                    == 2,
            self.state1.nonce_secrets@.len() == 2,
            self.state1.nonce_points@.len() == 2,
        ensures
            ({
                let pks = full_pk_views(
                    self.key_pair.public_key@,
                    input.msgs@,
                    self.my_ind - 1,
                );
                let nonces = full_nonce_views(
                    key_views(self.state1.nonce_points@),
                    input.msgs@,
                    self.my_ind - 1,
                );
                &&& (r is Ok <==> commit_of(pks, nonces, self.message@) is Some)
                &&& r matches Ok(r2) ==> ({
                    &&& r2.my_ind == self.my_ind
                    &&& r2.key_pair == self.key_pair
                    &&& Some(r2.commit@) == commit_of(pks, nonces, self.message@)
                    &&& Some(r2.r@) == global_r_of(pks, nonces, self.message@)
                    &&& Some(r2.key_agg.x_tilde@) == agg_key_of(pks)
                    &&& r2.key_agg.a_i@ == agg_coeff_of(pks, self.my_ind - 1)
                    &&& Some(r2.state2.own_fragment@) == own_fragment_of(
                        pks,
                        nonces,
                        self.message@,
                        self.my_ind - 1,
                        self.state1.keypair.private_key@,
                        self.state1.nonce_secrets@[0]@,
                        self.state1.nonce_secrets@[1]@,
                    )
                    &&& final(output).buffer() == old(output).buffer().push(
                        final(output).buffer().last(),
                    )
                    &&& final(output).buffer().last().sender == self.my_ind
                    &&& final(output).buffer().last().receiver is None
                    &&& final(output).buffer().last().body.sign_fragment
                        == r2.state2.own_fragment
                })
                &&& r is Err ==> r == Err::<Round2, ProceedError>(
                    ProceedError::Curve(Musig2Error::InvalidPublicKey),
                ) && final(output).buffer() == old(output).buffer()
            }),
    {
        let my_pos = (self.my_ind - 1) as usize;
        let (pks, nonces) = build_full_lists(
            &self.key_pair.public_key,
            &self.state1.nonce_points,
            &input.msgs,
            my_pos,
        );
        let (key_agg, state2, sign_fragment, commit, rr) = match round1_compute(
            &self.state1,
            &self.message,
            &pks,
            &nonces,
            my_pos,
        ) {
            Ok(v) => v,
            Err(_) => {
                return Err(ProceedError::Curve(Musig2Error::InvalidPublicKey));
            },
        };
        output.push(
            Msg { sender: self.my_ind, receiver: None, body: MessageRound2 { sign_fragment } },
        );
        Ok(
            Round2 {
                my_ind: self.my_ind,
                commit,
                r: rr,
                state2,
                key_pair: self.key_pair,
                key_agg,
            },
        )
    }

    /// The store collecting the first round's broadcasts.
    pub fn expects_messages(party_i: u16, party_n: u16) -> (r: BroadcastMsgsStore<MessageRound1>)
        requires
            1 <= party_i <= party_n,
        ensures
            r.wf(),
            r.party_i == party_i,
            r.party_n == party_n,
            forall|k: int| 0 <= k < r.slots@.len() ==> r.slots@[k] is None,
    {
        BroadcastMsgsStore::new(party_i, party_n)
    }

    /// Forwarding the cached broadcast is cheap.
    pub fn is_expensive(&self) -> (r: bool)
        ensures
            r == false,
    {
        false
    }
}

impl Round2 {
    /// Consumes the collected second-round batch: sums every fragment into
    /// the aggregate signature scalar and verifies the aggregate signature
    /// against the aggregate key and the shared commitment. A signature that
    /// does not verify is never returned.
    pub fn proceed(self, input: BroadcastMsgs<MessageRound2>) -> (r: Result<
        SignResult,
        ProceedError,
    >)
        ensures
            ({
                let s = sum_fragments(
                    self.state2.own_fragment@,
                    fragment_views(input.msgs@),
                );
                &&& (r is Ok <==> verify_ok(
                    s,
                    self.r@.subrange(1, 33),
                    self.key_agg.x_tilde@,
                    self.commit@,
                ))
                &&& r matches Ok(sr) ==> (sr.s@ == s && sr.r == self.r && sr.commit@
                    == self.commit@)
                &&& r is Err ==> r == Err::<SignResult, ProceedError>(
                    ProceedError::VerificationFailed,
                )
            }),
    {
        let len = input.msgs.len();
        let mut received: Vec<PrivateKey> = Vec::new();
        let mut i: usize = 0;
        while i < len
            invariant
                i <= len,
                len == input.msgs@.len(),
                received@.len() == i,
                forall|t: int|
                    0 <= t < i ==> #[trigger] received@[t] == input.msgs@[t].sign_fragment,
            decreases len - i,
        {
            received.push(input.msgs[i].sign_fragment);
            i = i + 1;
        }
        proof {
            assert(scalar_views(received@) =~~= fragment_views(input.msgs@));
        }
        let s = sign_double_prime(self.state2, &received);
        let rx = self.r.x_coor();
        match verify(&s, &rx, &self.key_agg.x_tilde, &self.commit) {
            Ok(()) => Ok(SignResult { r: self.r, s, commit: self.commit }),
            Err(_) => Err(ProceedError::VerificationFailed),
        }
    }

    /// The store collecting the second round's broadcasts.
    pub fn expects_messages(party_i: u16, party_n: u16) -> (r: BroadcastMsgsStore<MessageRound2>)
        requires
            1 <= party_i <= party_n,
        ensures
            r.wf(),
            r.party_i == party_i,
            r.party_n == party_n,
            forall|k: int| 0 <= k < r.slots@.len() ==> r.slots@[k] is None,
    {
        BroadcastMsgsStore::new(party_i, party_n)
    }

    /// Summation and one verification; treated as cheap.
    pub fn is_expensive(&self) -> (r: bool)
        ensures
            r == false,
    {
        false
    }
}

} // verus!
