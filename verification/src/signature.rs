//! The aggregated-signature computations the signing rounds invoke: nonce
//! derivation, key aggregation with per-party anti-rogue-key coefficients,
//! the shared group nonce and challenge, partial-signature fragments, their
//! sum, and verification of the aggregate. Every function is specified as an
//! exact composition of the scalar arithmetic and named point operations of
//! the key layer, so two parties fed the same ordered inputs are bound to
//! the same results.

use vstd::prelude::*;

use crate::keys::{
    base_mul_of, be_value, group_order, point_add_of, point_mul_of, point_neg_of, scalar_add_of,
    scalar_mul_of, scalar_reduce_of, sha256_of, KeyPair, Musig2Error, PrivateKey, PublicKey,
};
use crate::keys::{
    base_mul_raw, point_add_raw, point_mul_raw, point_neg_raw, scalar_add_raw, scalar_mul_raw,
    scalar_reduce_raw, sha256_vec,
};

verus! {

/// The serializations of a list of public keys.
pub open spec fn key_views(pks: Seq<PublicKey>) -> Seq<Seq<u8>> {
    Seq::new(pks.len(), |k: int| pks[k]@)
}

/// The serializations of a list of private scalars.
pub open spec fn scalar_views(ks: Seq<PrivateKey>) -> Seq<Seq<u8>> {
    Seq::new(ks.len(), |k: int| ks[k]@)
}

/// The serializations of every party's nonce list.
pub open spec fn nonce_views(nonces: Seq<Vec<PublicKey>>) -> Seq<Seq<Seq<u8>>> {
    Seq::new(nonces.len(), |p: int| key_views(nonces[p]@))
}

/// The concatenation of a list of byte strings.
pub open spec fn concat_all(parts: Seq<Seq<u8>>) -> Seq<u8>
    decreases parts.len(),
{
    if parts.len() == 0 {
        Seq::empty()
    } else {
        concat_all(parts.drop_last()) + parts.last()
    }
}

/// The ephemeral nonce scalar a party derives for slot `j`: the digest of its
/// private key, the session seed and the slot index, reduced modulo the group
/// order.
pub open spec fn nonce_scalar_of(sk: Seq<u8>, seed: Seq<u8>, j: int) -> Seq<u8> {
    scalar_reduce_of(sha256_of(sk + seed + seq![j as u8]))
}

/// Party `i`'s key-aggregation coefficient: the digest of the whole ordered
/// key list and that party's key, reduced modulo the group order.
pub open spec fn agg_coeff_of(pks: Seq<Seq<u8>>, i: int) -> Seq<u8> {
    scalar_reduce_of(sha256_of(concat_all(pks) + pks[i]))
}

/// Party `i`'s contribution to the aggregate key: its key times its
/// coefficient.
pub open spec fn agg_term_of(pks: Seq<Seq<u8>>, i: int) -> Option<Seq<u8>> {
    point_mul_of(pks[i], agg_coeff_of(pks, i))
}

/// The sum of the first `m` parties' contributions to the aggregate key.
pub open spec fn agg_key_upto(pks: Seq<Seq<u8>>, m: int) -> Option<Seq<u8>>
    decreases m,
{
    if m <= 0 {
        None
    } else if m == 1 {
        agg_term_of(pks, 0)
    } else {
        match agg_key_upto(pks, m - 1) {
            Some(acc) => match agg_term_of(pks, m - 1) {
                Some(t) => point_add_of(acc, t),
                None => None,
            },
            None => None,
        }
    }
}

/// The aggregate public key of an ordered key list.
pub open spec fn agg_key_of(pks: Seq<Seq<u8>>) -> Option<Seq<u8>> {
    agg_key_upto(pks, pks.len() as int)
}

/// The sum of the first `m` parties' nonce points in slot `j`.
pub open spec fn nonce_sum_upto(nonces: Seq<Seq<Seq<u8>>>, j: int, m: int) -> Option<Seq<u8>>
    decreases m,
{
    if m <= 0 {
        None
    } else if m == 1 {
        Some(nonces[0][j])
    } else {
        match nonce_sum_upto(nonces, j, m - 1) {
            Some(acc) => point_add_of(acc, nonces[m - 1][j]),
            None => None,
        }
    }
}

/// The sum of every party's nonce point in slot `j`.
pub open spec fn nonce_sum_of(nonces: Seq<Seq<Seq<u8>>>, j: int) -> Option<Seq<u8>> {
    nonce_sum_upto(nonces, j, nonces.len() as int)
}


/// Once a partial aggregate-key sum fails, every longer sum fails too.
proof fn lemma_agg_key_none(pks: Seq<Seq<u8>>, m: int, n: int)
    requires
        1 <= m <= n,
        agg_key_upto(pks, m) is None,
    ensures
        agg_key_upto(pks, n) is None,
    decreases n,
{
    if n > m {
        lemma_agg_key_none(pks, m, n - 1);
    }
}

/// Once a partial nonce sum fails, every longer sum fails too.
proof fn lemma_nonce_sum_none(nonces: Seq<Seq<Seq<u8>>>, j: int, m: int, n: int)
    requires
        1 <= m <= n,
        nonce_sum_upto(nonces, j, m) is None,
    ensures
        nonce_sum_upto(nonces, j, n) is None,
    decreases n,
{
    if n > m {
        lemma_nonce_sum_none(nonces, j, m, n - 1);
    }
}

/// The nonce-combination coefficient: the digest of the aggregate key, the
/// two nonce sums and the message, reduced modulo the group order.
pub open spec fn b_coeff_of(x_tilde: Seq<u8>, r1: Seq<u8>, r2: Seq<u8>, message: Seq<u8>) -> Seq<
    u8,
> {
    scalar_reduce_of(sha256_of(x_tilde + r1 + r2 + message))
}

/// The group nonce: the first nonce sum plus the second scaled by the
/// combination coefficient.
pub open spec fn global_r_of(
    pks: Seq<Seq<u8>>,
    nonces: Seq<Seq<Seq<u8>>>,
    message: Seq<u8>,
) -> Option<Seq<u8>> {
    match agg_key_of(pks) {
        Some(x_tilde) => match (nonce_sum_of(nonces, 0), nonce_sum_of(nonces, 1)) {
            (Some(r1), Some(r2)) => match point_mul_of(
                r2,
                b_coeff_of(x_tilde, r1, r2, message),
            ) {
                Some(t) => point_add_of(r1, t),
                None => None,
            },
            _ => None,
        },
        None => None,
    }
}

/// The shared challenge: the digest of the group nonce's x coordinate, the
/// aggregate key and the message, reduced modulo the group order.
pub open spec fn challenge_of(r: Seq<u8>, x_tilde: Seq<u8>, message: Seq<u8>) -> Seq<u8> {
    scalar_reduce_of(sha256_of(r.subrange(1, 33) + x_tilde + message))
}

/// The shared commitment of a run: the challenge over the group nonce, the
/// aggregate key and the message; `None` when any point operation fails.
pub open spec fn commit_of(
    pks: Seq<Seq<u8>>,
    nonces: Seq<Seq<Seq<u8>>>,
    message: Seq<u8>,
) -> Option<Seq<u8>> {
    match (agg_key_of(pks), global_r_of(pks, nonces, message)) {
        (Some(x_tilde), Some(r)) => Some(challenge_of(r, x_tilde, message)),
        _ => None,
    }
}

/// Party `i`'s partial-signature fragment:
/// `c * a_i * sk + (n1 + b * n2)` over the scalars, where `c` is the shared
/// challenge, `a_i` the party's aggregation coefficient, `sk` its private
/// key, `n1`, `n2` its secret nonces and `b` the combination coefficient.
pub open spec fn own_fragment_of(
    pks: Seq<Seq<u8>>,
    nonces: Seq<Seq<Seq<u8>>>,
    message: Seq<u8>,
    i: int,
    sk: Seq<u8>,
    n1: Seq<u8>,
    n2: Seq<u8>,
) -> Option<Seq<u8>> {
    match (agg_key_of(pks), nonce_sum_of(nonces, 0), nonce_sum_of(nonces, 1)) {
        (Some(x_tilde), Some(r1), Some(r2)) => {
            let b = b_coeff_of(x_tilde, r1, r2, message);
            match global_r_of(pks, nonces, message) {
                Some(r) => {
                    let c = challenge_of(r, x_tilde, message);
                    Some(
                        scalar_add_of(
                            scalar_mul_of(scalar_mul_of(c, agg_coeff_of(pks, i)), sk),
                            scalar_add_of(n1, scalar_mul_of(b, n2)),
                        ),
                    )
                },
                None => None,
            }
        },
        _ => None,
    }
}

/// The aggregate signature scalar: a party's own fragment plus every received
/// fragment, modulo the group order.
pub open spec fn sum_fragments(own: Seq<u8>, frags: Seq<Seq<u8>>) -> Seq<u8>
    decreases frags.len(),
{
    if frags.len() == 0 {
        own
    } else {
        scalar_add_of(sum_fragments(own, frags.drop_last()), frags.last())
    }
}

/// The verification equation: `s * G - c * X̃` is a finite point whose x
/// coordinate is `rx`.
pub open spec fn verify_ok(s: Seq<u8>, rx: Seq<u8>, x_tilde: Seq<u8>, c: Seq<u8>) -> bool {
    match base_mul_of(s) {
        Some(sg) => match point_mul_of(x_tilde, c) {
            Some(cx) => match point_neg_of(cx) {
                Some(ncx) => match point_add_of(sg, ncx) {
                    Some(rr) => rr.subrange(1, 33) == rx,
                    None => false,
                },
                None => false,
            },
            None => false,
        },
        None => false,
    }
}

/// A party's secret state after nonce generation: the key pair and the
/// ephemeral nonces, secrets beside points.
#[derive(Clone, Debug)]
pub struct State {
    pub keypair: KeyPair,
    pub nonce_secrets: Vec<PrivateKey>,
    pub nonce_points: Vec<PublicKey>,
}

/// A party's secret state after the partial signature was computed: its own
/// fragment, waiting to be summed with the received ones.
#[derive(Clone, Copy, Debug)]
pub struct StatePrime {
    pub own_fragment: PrivateKey,
}

/// Aggregated key material: the aggregate public key and the local party's
/// aggregation coefficient.
#[derive(Clone, Copy, Debug)]
pub struct KeyAgg {
    pub x_tilde: PublicKey,
    pub a_i: PrivateKey,
}

/// Generates the deterministic nonce set for one signing session: two secret
/// scalars derived from the private key and the seed, and their points.
/// Fails only when a derived scalar maps the generator to infinity.
pub fn sign(keypair: &KeyPair, seed: &[u8; 32]) -> (r: Result<(Vec<PublicKey>, State), Musig2Error>)
    ensures
        r is Ok <==> (base_mul_of(nonce_scalar_of(keypair.private_key@, seed@, 0)) is Some
            && base_mul_of(nonce_scalar_of(keypair.private_key@, seed@, 1)) is Some),
        r matches Ok(ns) ==> ({
            &&& ns.1.keypair == keypair
            &&& ns.1.nonce_secrets@.len() == 2
            &&& ns.1.nonce_points@.len() == 2
            &&& forall|j: int|
                0 <= j < 2 ==> #[trigger] ns.1.nonce_secrets@[j]@ == nonce_scalar_of(
                    keypair.private_key@,
                    seed@,
                    j,
                )
            &&& forall|j: int|
                0 <= j < 2 ==> Some(#[trigger] ns.1.nonce_points@[j]@) == base_mul_of(
                    ns.1.nonce_secrets@[j]@,
                )
            &&& ns.0@ == ns.1.nonce_points@
        }),
        r is Err ==> r == Err::<(Vec<PublicKey>, State), Musig2Error>(
            Musig2Error::InvalidPrivateKey,
        ),
{
    let s0 = derive_nonce_scalar(&keypair.private_key, seed, 0);
    let s1 = derive_nonce_scalar(&keypair.private_key, seed, 1);
    let p0 = match base_mul_raw(&s0.0) {
        Some(b) => PublicKey(b),
        None => {
            return Err(Musig2Error::InvalidPrivateKey);
        },
    };
    let p1 = match base_mul_raw(&s1.0) {
        Some(b) => PublicKey(b),
        None => {
            return Err(Musig2Error::InvalidPrivateKey);
        },
    };
    let mut secrets: Vec<PrivateKey> = Vec::new();
    secrets.push(s0);
    secrets.push(s1);
    let mut points: Vec<PublicKey> = Vec::new();
    points.push(p0);
    points.push(p1);
    let state = State { keypair: *keypair, nonce_secrets: secrets, nonce_points: points };
    let mut out: Vec<PublicKey> = Vec::new();
    out.push(p0);
    out.push(p1);
    proof {
        assert(out@ =~= state.nonce_points@);
    }
    Ok((out, state))
}

/// The nonce scalar for slot `j`: the reduced digest of private key, seed and
/// slot index.
fn derive_nonce_scalar(sk: &PrivateKey, seed: &[u8; 32], j: u8) -> (r: PrivateKey)
    ensures
        r@ == nonce_scalar_of(sk@, seed@, j as int),
{
    let mut data: Vec<u8> = Vec::new();
    data.extend_from_slice(sk.0.as_slice());
    data.extend_from_slice(seed.as_slice());
    data.push(j);
    proof {
        assert(data@ =~= sk@ + seed@ + seq![j]);
    }
    PrivateKey(scalar_reduce_raw(&sha256_vec(&data)))
}

/// The concatenation of the serializations of an ordered key list.
fn concat_keys(pks: &Vec<PublicKey>) -> (r: Vec<u8>)
    ensures
        r@ == concat_all(key_views(pks@)),
{
    let len = pks.len();
    let mut out: Vec<u8> = Vec::new();
    let mut j: usize = 0;
    while j < len
        invariant
            j <= len,
            len == pks@.len(),
            out@ == concat_all(key_views(pks@).take(j as int)),
        decreases len - j,
    {
        proof {
            assert(key_views(pks@).take(j + 1).drop_last() =~= key_views(pks@).take(j as int));
            assert(key_views(pks@).take(j + 1).last() == pks@[j as int]@);
        }
        out.extend_from_slice(pks[j].0.as_slice());
        j = j + 1;
    }
    proof {
        assert(key_views(pks@).take(len as int) =~= key_views(pks@));
    }
    out
}

/// The aggregation coefficient for one key against a prepared key-list
/// concatenation.
fn coeff_for(l: &Vec<u8>, pk: &PublicKey) -> (r: PrivateKey)
    ensures
        r@ == scalar_reduce_of(sha256_of(l@ + pk@)),
{
    let mut data: Vec<u8> = Vec::new();
    data.extend_from_slice(l.as_slice());
    data.extend_from_slice(pk.0.as_slice());
    proof {
        assert(data@ =~= l@ + pk@);
    }
    PrivateKey(scalar_reduce_raw(&sha256_vec(&data)))
}

impl KeyAgg {
    /// Aggregates an ordered key list: every key scaled by its coefficient
    /// and summed. Returns the aggregate key and the coefficient of the party
    /// at `party_index`. Fails when a scaled key or a partial sum is the
    /// point at infinity or a key does not parse.
    pub fn key_aggregation_n(pks: &Vec<PublicKey>, party_index: usize) -> (r: Result<
        KeyAgg,
        Musig2Error,
    >)
        requires
            pks@.len() >= 1,
            party_index < pks@.len(),
        ensures
            r is Ok <==> agg_key_of(key_views(pks@)) is Some,
            r matches Ok(ka) ==> (Some(ka.x_tilde@) == agg_key_of(key_views(pks@)) && ka.a_i@
                == agg_coeff_of(key_views(pks@), party_index as int)),
            r is Err ==> r == Err::<KeyAgg, Musig2Error>(Musig2Error::InvalidPublicKey),
    {
        let l = concat_keys(pks);
        let len = pks.len();
        let c0 = coeff_for(&l, &pks[0]);
        let mut acc = match point_mul_raw(&pks[0].0, &c0.0) {
            Some(b) => PublicKey(b),
            None => {
                proof {
                    assert(agg_key_upto(key_views(pks@), 1) is None);
                    lemma_agg_key_none(key_views(pks@), 1, pks@.len() as int);
                }
                return Err(Musig2Error::InvalidPublicKey);
            },
        };
        let mut j: usize = 1;
        while j < len
            invariant
                1 <= j <= len,
                len == pks@.len(),
                l@ == concat_all(key_views(pks@)),
                agg_key_upto(key_views(pks@), j as int) == Some(acc@),
            decreases len - j,
        {
            let cj = coeff_for(&l, &pks[j]);
            let t = match point_mul_raw(&pks[j].0, &cj.0) {
                Some(b) => b,
                None => {
                    proof {
                        assert(agg_term_of(key_views(pks@), j as int) is None);
                        assert(agg_key_upto(key_views(pks@), j + 1) is None);
                        lemma_agg_key_none(key_views(pks@), j + 1, pks@.len() as int);
                    }
                    return Err(Musig2Error::InvalidPublicKey);
                },
            };
            proof {
                assert(agg_term_of(key_views(pks@), j as int) == Some(t@));
            }
            acc = match point_add_raw(&acc.0, &t) {
                Some(b) => PublicKey(b),
                None => {
                    proof {
                        assert(agg_key_upto(key_views(pks@), j + 1) is None);
                        lemma_agg_key_none(key_views(pks@), j + 1, pks@.len() as int);
                    }
                    return Err(Musig2Error::InvalidPublicKey);
                },
            };
            j = j + 1;
        }
        let a_i = coeff_for(&l, &pks[party_index]);
        Ok(KeyAgg { x_tilde: acc, a_i })
    }
}

/// The sum of every party's nonce point in slot `j`. Fails when a partial
/// sum is the point at infinity or a point does not parse.
fn nonce_sum(nonces: &Vec<Vec<PublicKey>>, j: usize) -> (r: Result<PublicKey, Musig2Error>)
    requires
        nonces@.len() >= 1,
        forall|p: int| 0 <= p < nonces@.len() ==> #[trigger] nonces@[p]@.len() == 2,
        j < 2,
    ensures
        r is Ok <==> nonce_sum_of(nonce_views(nonces@), j as int) is Some,
        r matches Ok(q) ==> Some(q@) == nonce_sum_of(nonce_views(nonces@), j as int),
        r is Err ==> r == Err::<PublicKey, Musig2Error>(Musig2Error::InvalidPublicKey),
{
    let len = nonces.len();
    let mut acc = nonces[0][j];
    let mut p: usize = 1;
    while p < len
        invariant
            1 <= p <= len,
            len == nonces@.len(),
            forall|q: int| 0 <= q < nonces@.len() ==> #[trigger] nonces@[q]@.len() == 2,
            j < 2,
            nonce_sum_upto(nonce_views(nonces@), j as int, p as int) == Some(acc@),
        decreases len - p,
    {
        acc = match point_add_raw(&acc.0, &nonces[p][j].0) {
            Some(b) => PublicKey(b),
            None => {
                proof {
                    assert(nonce_views(nonces@)[p as int][j as int] == nonces@[p as int]@[
                        j as int
                    ]@);
                    assert(nonce_sum_upto(nonce_views(nonces@), j as int, p + 1) is None);
                    lemma_nonce_sum_none(nonce_views(nonces@), j as int, p + 1,
                        nonces@.len() as int);
                }
                return Err(Musig2Error::InvalidPublicKey);
            },
        };
        p = p + 1;
    }
    Ok(acc)
}

/// Computes what one run shares: the aggregate key, the group nonce `r` and
/// the commitment (challenge) over it.
///
/// These values are a function of the ordered key list, the ordered nonce
/// lists and the message alone: every party that collects the same inputs
/// derives bit-for-bit the same pair.
pub fn compute_global_params(
    message: &Vec<u8>,
    pks: &Vec<PublicKey>,
    nonces: &Vec<Vec<PublicKey>>,
) -> (r: Result<([u8; 32], PublicKey), Musig2Error>)
    requires
        pks@.len() >= 1,
        nonces@.len() >= 1,
        forall|p: int| 0 <= p < nonces@.len() ==> #[trigger] nonces@[p]@.len() == 2,
    ensures
        r is Ok <==> commit_of(key_views(pks@), nonce_views(nonces@), message@) is Some,
        r matches Ok(cr) ==> (Some(cr.0@) == commit_of(key_views(pks@), nonce_views(nonces@),
        message@) && Some(cr.1@) == global_r_of(key_views(pks@), nonce_views(nonces@), message@)),
        r is Err ==> r == Err::<([u8; 32], PublicKey), Musig2Error>(Musig2Error::InvalidPublicKey),
{
    let ka = match KeyAgg::key_aggregation_n(pks, 0) {
        Ok(ka) => ka,
        Err(e) => {
            return Err(e);
        },
    };
    let r1 = match nonce_sum(nonces, 0) {
        Ok(p) => p,
        Err(e) => {
            return Err(e);
        },
    };
    let r2 = match nonce_sum(nonces, 1) {
        Ok(p) => p,
        Err(e) => {
            return Err(e);
        },
    };
    let b = b_coeff(&ka.x_tilde, &r1, &r2, message);
    let t = match point_mul_raw(&r2.0, &b.0) {
        Some(b) => b,
        None => {
            return Err(Musig2Error::InvalidPublicKey);
        },
    };
    let rr = match point_add_raw(&r1.0, &t) {
        Some(b) => PublicKey(b),
        None => {
            return Err(Musig2Error::InvalidPublicKey);
        },
    };
    let commit = challenge(&rr, &ka.x_tilde, message);
    Ok((commit, rr))
}

/// The nonce-combination coefficient over prepared values.
fn b_coeff(x_tilde: &PublicKey, r1: &PublicKey, r2: &PublicKey, message: &Vec<u8>) -> (r:
    PrivateKey)
    ensures
        r@ == b_coeff_of(x_tilde@, r1@, r2@, message@),
{
    let mut data: Vec<u8> = Vec::new();
    data.extend_from_slice(x_tilde.0.as_slice());
    data.extend_from_slice(r1.0.as_slice());
    data.extend_from_slice(r2.0.as_slice());
    data.extend_from_slice(message.as_slice());
    proof {
        assert(data@ =~= x_tilde@ + r1@ + r2@ + message@);
    }
    PrivateKey(scalar_reduce_raw(&sha256_vec(&data)))
}

/// The shared challenge over prepared values.
fn challenge(rr: &PublicKey, x_tilde: &PublicKey, message: &Vec<u8>) -> (r: [u8; 32])
    ensures
        r@ == challenge_of(rr@, x_tilde@, message@),
{
    let rx = rr.x_coor();
    let mut data: Vec<u8> = Vec::new();
    data.extend_from_slice(rx.as_slice());
    data.extend_from_slice(x_tilde.0.as_slice());
    data.extend_from_slice(message.as_slice());
    proof {
        assert(data@ =~= rr@.subrange(1, 33) + x_tilde@ + message@);
    }
    scalar_reduce_raw(&sha256_vec(&data))
}

impl State {
    /// Computes this party's partial-signature fragment from the collected
    /// ordered key and nonce lists, and keeps it for the final summation.
    pub fn sign_prime(
        &self,
        message: &Vec<u8>,
        pks: &Vec<PublicKey>,
        nonces: &Vec<Vec<PublicKey>>,
        party_index: usize,
    ) -> (r: Result<(StatePrime, PrivateKey), Musig2Error>)
        requires
            pks@.len() >= 1,
            party_index < pks@.len(),
            nonces@.len() >= 1,
            forall|p: int| 0 <= p < nonces@.len() ==> #[trigger] nonces@[p]@.len() == 2,
            self.nonce_secrets@.len() == 2,
        ensures
            r is Ok <==> commit_of(key_views(pks@), nonce_views(nonces@), message@) is Some,
            r matches Ok(sp) ==> (Some(sp.1@) == own_fragment_of(
                key_views(pks@),
                nonce_views(nonces@),
                message@,
                party_index as int,
                self.keypair.private_key@,
                self.nonce_secrets@[0]@,
                self.nonce_secrets@[1]@,
            ) && sp.0.own_fragment == sp.1),
            r is Err ==> r == Err::<(StatePrime, PrivateKey), Musig2Error>(
                Musig2Error::InvalidPublicKey,
            ),
    {
        let ka = match KeyAgg::key_aggregation_n(pks, party_index) {
            Ok(ka) => ka,
            Err(e) => {
                return Err(e);
            },
        };
        let r1 = match nonce_sum(nonces, 0) {
            Ok(p) => p,
            Err(e) => {
                return Err(e);
            },
        };
        let r2 = match nonce_sum(nonces, 1) {
            Ok(p) => p,
            Err(e) => {
                return Err(e);
            },
        };
        let b = b_coeff(&ka.x_tilde, &r1, &r2, message);
        let t = match point_mul_raw(&r2.0, &b.0) {
            Some(bs) => bs,
            None => {
                return Err(Musig2Error::InvalidPublicKey);
            },
        };
        let rr = match point_add_raw(&r1.0, &t) {
            Some(bs) => PublicKey(bs),
            None => {
                return Err(Musig2Error::InvalidPublicKey);
            },
        };
        let c = challenge(&rr, &ka.x_tilde, message);
        let lhs = scalar_mul_raw(&scalar_mul_raw(&c, &ka.a_i.0), &self.keypair.private_key.0);
        let bn2 = scalar_mul_raw(&b.0, &self.nonce_secrets[1].0);
        let rhs = scalar_add_raw(&self.nonce_secrets[0].0, &bn2);
        let frag = PrivateKey(scalar_add_raw(&lhs, &rhs));
        Ok((StatePrime { own_fragment: frag }, frag))
    }
}

/// Sums this party's own fragment with every received fragment into the
/// aggregate signature scalar.
pub fn sign_double_prime(state2: StatePrime, received: &Vec<PrivateKey>) -> (r: PrivateKey)
    ensures
        r@ == sum_fragments(state2.own_fragment@, scalar_views(received@)),
{
    let len = received.len();
    let mut acc = state2.own_fragment;
    let mut j: usize = 0;
    while j < len
        invariant
            j <= len,
            len == received@.len(),
            acc@ == sum_fragments(state2.own_fragment@, scalar_views(received@).take(j as int)),
        decreases len - j,
    {
        proof {
            assert(scalar_views(received@).take(j + 1).drop_last() =~= scalar_views(
                received@,
            ).take(j as int));
            assert(scalar_views(received@).take(j + 1).last() == received@[j as int]@);
        }
        acc = PrivateKey(scalar_add_raw(&acc.0, &received[j].0));
        j = j + 1;
    }
    proof {
        assert(scalar_views(received@).take(len as int) =~= scalar_views(received@));
    }
    acc
}

/// True iff two 32-byte strings are equal.
fn eq32(a: &[u8; 32], b: &[u8; 32]) -> (r: bool)
    ensures
        r == (a@ == b@),
{
    let mut j: usize = 0;
    while j < 32
        invariant
            j <= 32,
            a@.len() == 32,
            b@.len() == 32,
            forall|k: int| 0 <= k < j ==> a@[k] == b@[k],
        decreases 32 - j,
    {
        if a[j] != b[j] {
            return false;
        }
        j = j + 1;
    }
    proof {
        assert(a@ =~= b@);
    }
    true
}

/// Verifies an aggregate signature: `s * G - c * X̃` must be a finite point
/// whose x coordinate is `rx`. The protocol never emits a signature this
/// check refuses.
pub fn verify(s: &PrivateKey, rx: &[u8; 32], x_tilde: &PublicKey, commit: &[u8; 32]) -> (r: Result<
    (),
    Musig2Error,
>)
    ensures
        r is Ok <==> verify_ok(s@, rx@, x_tilde@, commit@),
        r is Err ==> r == Err::<(), Musig2Error>(Musig2Error::Invalid),
{
    let sg = match base_mul_raw(&s.0) {
        Some(b) => b,
        None => {
            return Err(Musig2Error::Invalid);
        },
    };
    let cx = match point_mul_raw(&x_tilde.0, commit) {
        Some(b) => b,
        None => {
            return Err(Musig2Error::Invalid);
        },
    };
    let ncx = match point_neg_raw(&cx) {
        Some(b) => b,
        None => {
            return Err(Musig2Error::Invalid);
        },
    };
    let rr = match point_add_raw(&sg, &ncx) {
        Some(b) => PublicKey(b),
        None => {
            return Err(Musig2Error::Invalid);
        },
    };
    let rrx = rr.x_coor();
    if eq32(&rrx, rx) {
        Ok(())
    } else {
        Err(Musig2Error::Invalid)
    }
}

/// Agreement: the aggregate key, the group nonce and the commitment are
/// functions of the ordered key list, the ordered nonce lists and the
/// message alone. Two parties that collect the same inputs are bound,
/// bit-for-bit, to the same aggregate key, the same `r` and the same
/// commitment, whatever their own indices are.
pub proof fn lemma_shared_params_agree(
    pks1: Seq<Seq<u8>>,
    nonces1: Seq<Seq<Seq<u8>>>,
    message1: Seq<u8>,
    pks2: Seq<Seq<u8>>,
    nonces2: Seq<Seq<Seq<u8>>>,
    message2: Seq<u8>,
)
    requires
        pks1 == pks2,
        nonces1 == nonces2,
        message1 == message2,
    ensures
        agg_key_of(pks1) == agg_key_of(pks2),
        global_r_of(pks1, nonces1, message1) == global_r_of(pks2, nonces2, message2),
        commit_of(pks1, nonces1, message1) == commit_of(pks2, nonces2, message2),
{
}

/// Determinism: the aggregate signature scalar is a function of the own
/// fragment and the ordered received fragments alone, so repeated runs over
/// identical inputs produce identical signatures.
pub proof fn lemma_signature_deterministic(
    own1: Seq<u8>,
    frags1: Seq<Seq<u8>>,
    own2: Seq<u8>,
    frags2: Seq<Seq<u8>>,
)
    requires
        own1 == own2,
        frags1 == frags2,
    ensures
        sum_fragments(own1, frags1) == sum_fragments(own2, frags2),
{
}

} // verus!
