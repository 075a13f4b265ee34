//! Private and public keys over the secp256k1 curve, held as their canonical
//! byte serializations: a scalar as 32 big-endian bytes, a point as its
//! 65-byte uncompressed form. Scalar arithmetic is specified exactly as
//! arithmetic modulo the group order; the point operations, which no short
//! statement captures, are named and every contract speaks of those names.
//! The curve arithmetic itself is done by an outside library behind the
//! trusted wrappers at the bottom of this file.

use vstd::prelude::*;

use libsecp256k1::curve::{Affine, Field, Jacobian, Scalar};
use libsecp256k1::{ECMULT_CONTEXT, ECMULT_GEN_CONTEXT};
use rand_core::RngCore;
use sha2::Digest;

verus! {

/// Errors of the key layer.
#[derive(Clone, Copy, Debug, PartialEq, Eq, Structural)]
pub enum Musig2Error {
    Invalid,
    InvalidPublicKey,
    InvalidPrivateKey,
    InvalidInputLength,
    InvalidStringLength,
    XCoordinateNotExist,
}

/// The value of a big-endian byte string.
pub open spec fn be_value(s: Seq<u8>) -> int
    decreases s.len(),
{
    if s.len() == 0 {
        0
    } else {
        be_value(s.drop_last()) * 256 + s.last()
    }
}

/// The big-endian byte string of length `len` for a value `v` with
/// `0 <= v < 256^len`.
pub open spec fn be_bytes(v: int, len: nat) -> Seq<u8>
    decreases len,
{
    if len == 0 {
        Seq::empty()
    } else {
        be_bytes(v / 256, (len - 1) as nat).push((v % 256) as u8)
    }
}

/// 256 to the power `len`.
pub open spec fn pow256(len: nat) -> int
    decreases len,
{
    if len == 0 {
        1
    } else {
        256 * pow256((len - 1) as nat)
    }
}

/// The order of the secp256k1 group.
pub open spec fn group_order() -> int {
    0xFFFFFFFFFFFFFFFFFFFFFFFFFFFFFFFEBAAEDCE6AF48A03BBFD25E8CD0364141int
}

/// The sum of two scalars, modulo the group order; inputs are reduced first.
pub open spec fn scalar_add_of(a: Seq<u8>, b: Seq<u8>) -> Seq<u8> {
    be_bytes((be_value(a) + be_value(b)) % group_order(), 32)
}

/// The product of two scalars, modulo the group order.
pub open spec fn scalar_mul_of(a: Seq<u8>, b: Seq<u8>) -> Seq<u8> {
    be_bytes((be_value(a) * be_value(b)) % group_order(), 32)
}

/// The negation of a scalar, modulo the group order.
pub open spec fn scalar_neg_of(a: Seq<u8>) -> Seq<u8> {
    be_bytes((group_order() - be_value(a) % group_order()) % group_order(), 32)
}

/// A value reduced modulo the group order, as 32 big-endian bytes.
pub open spec fn scalar_reduce_of(a: Seq<u8>) -> Seq<u8> {
    be_bytes(be_value(a) % group_order(), 32)
}

/// The uncompressed serialization of the sum of two points, `None` when an
/// input does not parse as a curve point or the sum is the point at infinity.
pub uninterp spec fn point_add_of(a: Seq<u8>, b: Seq<u8>) -> Option<Seq<u8>>;

/// The serialization of a point multiplied by a scalar, `None` when the point
/// does not parse or the product is the point at infinity.
pub uninterp spec fn point_mul_of(p: Seq<u8>, k: Seq<u8>) -> Option<Seq<u8>>;

/// The serialization of the generator multiplied by a scalar, `None` when the
/// product is the point at infinity.
pub uninterp spec fn base_mul_of(k: Seq<u8>) -> Option<Seq<u8>>;

/// The serialization of a negated point, `None` when the input does not parse
/// as a curve point.
pub uninterp spec fn point_neg_of(p: Seq<u8>) -> Option<Seq<u8>>;

/// The canonical serialization of a parsed point, `None` when the bytes do
/// not encode a valid, finite curve point.
pub uninterp spec fn point_parse_of(p: Seq<u8>) -> Option<Seq<u8>>;

/// The serialization of the curve point with the given x coordinate and even
/// y, `None` when no such point exists.
pub uninterp spec fn lift_x_of(x: Seq<u8>) -> Option<Seq<u8>>;

/// The SHA-256 digest of a byte string.
pub uninterp spec fn sha256_of(data: Seq<u8>) -> Seq<u8>;

/// A byte string's value is zero exactly when every byte is zero.
pub proof fn lemma_be_value_zero(s: Seq<u8>)
    ensures
        be_value(s) >= 0,
        (be_value(s) == 0) <==> (forall|k: int| 0 <= k < s.len() ==> s[k] == 0),
    decreases s.len(),
{
    if s.len() > 0 {
        let pre = s.drop_last();
        lemma_be_value_zero(pre);
        if be_value(s) == 0 {
            assert(be_value(pre) == 0 && s.last() == 0);
            assert forall|k: int| 0 <= k < s.len() implies s[k] == 0 by {
                if k < s.len() - 1 {
                    assert(pre[k] == 0);
                }
            }
        }
        if forall|k: int| 0 <= k < s.len() ==> s[k] == 0 {
            assert forall|k: int| 0 <= k < pre.len() implies pre[k] == 0 by {
                assert(s[k] == 0);
            }
            assert(be_value(pre) == 0);
            assert(s.last() == 0);
        }
    }
}

/// `be_bytes` has the requested length and inverts `be_value` for values in
/// range.
pub proof fn lemma_be_bytes_value(v: int, len: nat)
    requires
        0 <= v < pow256(len),
    ensures
        be_bytes(v, len).len() == len,
        be_value(be_bytes(v, len)) == v,
    decreases len,
{
    if len > 0 {
        assert(v / 256 < pow256((len - 1) as nat)) by (nonlinear_arith)
            requires
                0 <= v < 256 * pow256((len - 1) as nat),
        ;
        lemma_be_bytes_value(v / 256, (len - 1) as nat);
        assert(be_bytes(v, len).drop_last() =~= be_bytes(v / 256, (len - 1) as nat));
    }
}

/// The group order is positive and fits in 32 bytes.
pub proof fn lemma_group_order_bounds()
    ensures
        0 < group_order() < pow256(32),
{
    assert(pow256(32) == 0x10000000000000000000000000000000000000000000000000000000000000000int) by {
        reveal_with_fuel(pow256, 33);
    }
}

/// A private key: a scalar as 32 big-endian bytes.
#[derive(Clone, Copy, Debug)]
pub struct PrivateKey(pub [u8; 32]);

/// A public key: a point as its 65-byte uncompressed serialization.
#[derive(Clone, Copy, Debug)]
pub struct PublicKey(pub [u8; 65]);

impl View for PrivateKey {
    type V = Seq<u8>;

    open spec fn view(&self) -> Seq<u8> {
        self.0@
    }
}

impl View for PublicKey {
    type V = Seq<u8>;

    open spec fn view(&self) -> Seq<u8> {
        self.0@
    }
}

/// A party's key pair; generated before the protocol starts, never sent.
#[derive(Clone, Copy, Debug)]
pub struct KeyPair {
    pub public_key: PublicKey,
    pub private_key: PrivateKey,
}

/// True iff all 32 bytes are zero, that is, the scalar value is zero.
fn all_zero32(b: &[u8; 32]) -> (r: bool)
    ensures
        r == (be_value(b@) == 0),
{
    proof {
        lemma_be_value_zero(b@);
    }
    let mut j: usize = 0;
    while j < 32
        invariant
            j <= 32,
            forall|k: int| 0 <= k < j ==> b@[k] == 0,
            (be_value(b@) == 0) <==> (forall|k: int| 0 <= k < b@.len() ==> b@[k] == 0),
            b@.len() == 32,
        decreases 32 - j,
    {
        if b[j] != 0 {
            return false;
        }
        j = j + 1;
    }
    true
}

impl PublicKey {
    /// Point addition. Fails when an operand does not parse as a curve point
    /// or the sum is the point at infinity.
    pub fn add_point(&self, rhs: &Self) -> (r: Result<PublicKey, Musig2Error>)
        ensures
            r is Ok <==> point_add_of(self@, rhs@) is Some,
            r matches Ok(q) ==> Some(q@) == point_add_of(self@, rhs@),
            r is Err ==> r == Err::<PublicKey, Musig2Error>(Musig2Error::InvalidPublicKey),
    {
        match point_add_raw(&self.0, &rhs.0) {
            Some(b) => Ok(PublicKey(b)),
            None => Err(Musig2Error::InvalidPublicKey),
        }
    }

    /// Multiplication of this point by a scalar; a zero scalar is refused.
    pub fn mul_scalar(&self, rhs: &PrivateKey) -> (r: Result<PublicKey, Musig2Error>)
        ensures
            be_value(rhs@) == 0 ==> r == Err::<PublicKey, Musig2Error>(
                Musig2Error::InvalidPrivateKey,
            ),
            be_value(rhs@) != 0 ==> (r is Ok <==> point_mul_of(self@, rhs@) is Some),
            be_value(rhs@) != 0 && r is Err ==> r == Err::<PublicKey, Musig2Error>(
                Musig2Error::InvalidPublicKey,
            ),
            r matches Ok(q) ==> Some(q@) == point_mul_of(self@, rhs@),
    {
        if all_zero32(&rhs.0) {
            return Err(Musig2Error::InvalidPrivateKey);
        }
        match point_mul_raw(&self.0, &rhs.0) {
            Some(b) => Ok(PublicKey(b)),
            None => Err(Musig2Error::InvalidPublicKey),
        }
    }

    /// The full 65-byte uncompressed serialization.
    pub fn serialize(&self) -> (r: [u8; 65])
        ensures
            r@ == self@,
    {
        self.0
    }

    /// The 33-byte compressed serialization: a parity tag, then the x
    /// coordinate.
    pub fn serialize_compressed(&self) -> (r: [u8; 33])
        ensures
            r@[0] == (if self@[64] % 2 == 1 {
                3u8
            } else {
                2u8
            }),
            r@.subrange(1, 33) == self@.subrange(1, 33),
    {
        let mut out = [0u8; 33];
        out[0] = if self.0[64] % 2 == 1 {
            3
        } else {
            2
        };
        let mut j: usize = 1;
        while j < 33
            invariant
                1 <= j <= 33,
                out@.len() == 33,
                self@.len() == 65,
                out@[0] == (if self@[64] % 2 == 1 {
                    3u8
                } else {
                    2u8
                }),
                forall|k: int| 1 <= k < j ==> out@[k] == self@[k],
            decreases 33 - j,
        {
            out[j] = self.0[j];
            j = j + 1;
        }
        proof {
            assert(out@.subrange(1, 33) =~= self@.subrange(1, 33));
        }
        out
    }

    /// The x coordinate, 32 big-endian bytes.
    pub fn x_coor(&self) -> (r: [u8; 32])
        ensures
            r@ == self@.subrange(1, 33),
    {
        let mut out = [0u8; 32];
        let mut j: usize = 0;
        while j < 32
            invariant
                j <= 32,
                out@.len() == 32,
                self@.len() == 65,
                forall|k: int| 0 <= k < j ==> out@[k] == self@[k + 1],
            decreases 32 - j,
        {
            out[j] = self.0[j + 1];
            j = j + 1;
        }
        proof {
            assert(out@ =~= self@.subrange(1, 33));
        }
        out
    }

    /// The y coordinate, 32 big-endian bytes.
    pub fn y_coor(&self) -> (r: [u8; 32])
        ensures
            r@ == self@.subrange(33, 65),
    {
        let mut out = [0u8; 32];
        let mut j: usize = 0;
        while j < 32
            invariant
                j <= 32,
                out@.len() == 32,
                self@.len() == 65,
                forall|k: int| 0 <= k < j ==> out@[k] == self@[k + 33],
            decreases 32 - j,
        {
            out[j] = self.0[j + 33];
            j = j + 1;
        }
        proof {
            assert(out@ =~= self@.subrange(33, 65));
        }
        out
    }

    /// Whether the y coordinate is odd.
    pub fn is_odd_y(&self) -> (r: bool)
        ensures
            r == (self@[64] % 2 == 1),
    {
        self.0[64] % 2 == 1
    }

    /// The public key of a private key: the generator times the scalar. A
    /// zero scalar is refused.
    pub fn create_from_private_key(s: &PrivateKey) -> (r: Result<PublicKey, Musig2Error>)
        ensures
            r is Ok <==> base_mul_of(s@) is Some,
            r matches Ok(q) ==> Some(q@) == base_mul_of(s@),
            r is Err ==> r == Err::<PublicKey, Musig2Error>(Musig2Error::InvalidPrivateKey),
    {
        match base_mul_raw(&s.0) {
            Some(b) => Ok(PublicKey(b)),
            None => Err(Musig2Error::InvalidPrivateKey),
        }
    }

    /// Point negation. Fails when the bytes do not parse as a curve point.
    pub fn neg(&self) -> (r: Result<PublicKey, Musig2Error>)
        ensures
            r is Ok <==> point_neg_of(self@) is Some,
            r matches Ok(q) ==> Some(q@) == point_neg_of(self@),
            r is Err ==> r == Err::<PublicKey, Musig2Error>(Musig2Error::InvalidPublicKey),
    {
        match point_neg_raw(&self.0) {
            Some(b) => Ok(PublicKey(b)),
            None => Err(Musig2Error::InvalidPublicKey),
        }
    }

    /// Parses a 65-byte uncompressed serialization; fails when it does not
    /// encode a valid, finite curve point.
    pub fn parse(p: &[u8; 65]) -> (r: Result<Self, Musig2Error>)
        ensures
            r is Ok <==> point_parse_of(p@) is Some,
            r matches Ok(q) ==> Some(q@) == point_parse_of(p@),
            r is Err ==> r == Err::<PublicKey, Musig2Error>(Musig2Error::InvalidPublicKey),
    {
        match point_parse_raw(p) {
            Some(b) => Ok(PublicKey(b)),
            None => Err(Musig2Error::InvalidPublicKey),
        }
    }

    /// Recovers the public key with the given x coordinate and even y, as in
    /// a Schnorr signature; fails when no curve point has that x coordinate.
    pub fn parse_x_coor(x: &[u8; 32]) -> (r: Result<Self, Musig2Error>)
        ensures
            r is Ok <==> lift_x_of(x@) is Some,
            r matches Ok(q) ==> Some(q@) == lift_x_of(x@),
            r matches Ok(q) ==> (q@.subrange(1, 33) == x@ && q@[64] % 2 == 0),
            r is Err ==> r == Err::<PublicKey, Musig2Error>(Musig2Error::XCoordinateNotExist),
    {
        match lift_x_raw(x) {
            Some(b) => Ok(PublicKey(b)),
            None => Err(Musig2Error::XCoordinateNotExist),
        }
    }
}

impl PrivateKey {
    /// Scalar addition modulo the group order; a zero sum is refused.
    pub fn add_scalar(&self, rhs: &Self) -> (r: Result<Self, Musig2Error>)
        ensures
            (be_value(self@) + be_value(rhs@)) % group_order() == 0 ==> r == Err::<
                PrivateKey,
                Musig2Error,
            >(Musig2Error::InvalidPrivateKey),
            (be_value(self@) + be_value(rhs@)) % group_order() != 0 ==> (r matches Ok(k) && k@
                == scalar_add_of(self@, rhs@)),
    {
        let v = scalar_add_raw(&self.0, &rhs.0);
        proof {
            lemma_group_order_bounds();
            lemma_be_bytes_value((be_value(self@) + be_value(rhs@)) % group_order(), 32);
        }
        if all_zero32(&v) {
            proof {
                lemma_be_value_zero(v@);
            }
            Err(Musig2Error::InvalidPrivateKey)
        } else {
            Ok(PrivateKey(v))
        }
    }

    /// Scalar multiplication modulo the group order; a zero product is
    /// refused.
    pub fn mul_scalar(&self, rhs: &Self) -> (r: Result<Self, Musig2Error>)
        ensures
            (be_value(self@) * be_value(rhs@)) % group_order() == 0 ==> r == Err::<
                PrivateKey,
                Musig2Error,
            >(Musig2Error::InvalidPrivateKey),
            (be_value(self@) * be_value(rhs@)) % group_order() != 0 ==> (r matches Ok(k) && k@
                == scalar_mul_of(self@, rhs@)),
    {
        let v = scalar_mul_raw(&self.0, &rhs.0);
        proof {
            lemma_group_order_bounds();
            lemma_be_bytes_value((be_value(self@) * be_value(rhs@)) % group_order(), 32);
        }
        if all_zero32(&v) {
            proof {
                lemma_be_value_zero(v@);
            }
            Err(Musig2Error::InvalidPrivateKey)
        } else {
            Ok(PrivateKey(v))
        }
    }

    /// Multiplication of a point by this scalar; a zero scalar is refused.
    pub fn mul_point(&self, rhs: &PublicKey) -> (r: Result<PublicKey, Musig2Error>)
        ensures
            be_value(self@) == 0 ==> r == Err::<PublicKey, Musig2Error>(
                Musig2Error::InvalidPrivateKey,
            ),
            be_value(self@) != 0 ==> (r is Ok <==> point_mul_of(rhs@, self@) is Some),
            be_value(self@) != 0 && r is Err ==> r == Err::<PublicKey, Musig2Error>(
                Musig2Error::InvalidPublicKey,
            ),
            r matches Ok(q) ==> Some(q@) == point_mul_of(rhs@, self@),
    {
        if all_zero32(&self.0) {
            return Err(Musig2Error::InvalidPrivateKey);
        }
        match point_mul_raw(&rhs.0, &self.0) {
            Some(b) => Ok(PublicKey(b)),
            None => Err(Musig2Error::InvalidPublicKey),
        }
    }

    /// The 32-byte big-endian serialization.
    pub fn serialize(&self) -> (r: [u8; 32])
        ensures
            r@ == self@,
    {
        self.0
    }

    /// Parses 32 big-endian bytes; fails when the value is not below the
    /// group order.
    pub fn parse(s: &[u8; 32]) -> (r: Result<Self, Musig2Error>)
        ensures
            r is Ok <==> be_value(s@) < group_order(),
            r matches Ok(k) ==> k@ == s@,
            r is Err ==> r == Err::<PrivateKey, Musig2Error>(Musig2Error::InvalidPrivateKey),
    {
        if scalar_check_raw(s) {
            Ok(PrivateKey(*s))
        } else {
            Err(Musig2Error::InvalidPrivateKey)
        }
    }

    /// Parses a byte slice; fails when it is not exactly 32 bytes long or the
    /// value is not below the group order.
    pub fn parse_slice(s: &[u8]) -> (r: Result<Self, Musig2Error>)
        ensures
            s@.len() != 32 ==> r == Err::<PrivateKey, Musig2Error>(Musig2Error::InvalidInputLength),
            s@.len() == 32 ==> (r is Ok <==> be_value(s@) < group_order()),
            r matches Ok(k) ==> k@ == s@,
            s@.len() == 32 && r is Err ==> r == Err::<PrivateKey, Musig2Error>(
                Musig2Error::InvalidPrivateKey,
            ),
    {
        if s.len() != 32 {
            return Err(Musig2Error::InvalidInputLength);
        }
        let mut k = [0u8; 32];
        let mut j: usize = 0;
        while j < 32
            invariant
                j <= 32,
                k@.len() == 32,
                s@.len() == 32,
                forall|t: int| 0 <= t < j ==> k@[t] == s@[t],
            decreases 32 - j,
        {
            k[j] = s[j];
            j = j + 1;
        }
        proof {
            assert(k@ =~= s@);
        }
        Self::parse(&k)
    }

    /// Scalar negation modulo the group order.
    pub fn neg(&self) -> (r: Self)
        ensures
            r@ == scalar_neg_of(self@),
    {
        PrivateKey(scalar_neg_raw(&self.0))
    }

    /// A private key from the operating system's randomness; fails for the
    /// rare draw that is not below the group order.
    pub fn generate_random() -> (r: Result<Self, Musig2Error>)
        ensures
            r matches Ok(k) ==> be_value(k@) < group_order(),
            r is Err ==> r == Err::<PrivateKey, Musig2Error>(Musig2Error::InvalidPrivateKey),
    {
        let bytes = random_bytes32();
        Self::parse(&bytes)
    }
}

impl KeyPair {
    /// A fresh random key pair: the private scalar and its public point.
    pub fn create() -> (r: Result<KeyPair, Musig2Error>)
        ensures
            r matches Ok(kp) ==> (Some(kp.public_key@) == base_mul_of(kp.private_key@)
                && be_value(kp.private_key@) < group_order()),
    {
        let sk = match PrivateKey::generate_random() {
            Ok(sk) => sk,
            Err(e) => {
                return Err(e);
            },
        };
        let pk = match PublicKey::create_from_private_key(&sk) {
            Ok(pk) => pk,
            Err(e) => {
                return Err(e);
            },
        };
        Ok(KeyPair { public_key: pk, private_key: sk })
    }

    /// The key pair deterministically derived from a 32-byte seed: the seed's
    /// digest, reduced modulo the group order, is the private scalar.
    pub fn create_from_seed(seed: &[u8; 32]) -> (r: Result<KeyPair, Musig2Error>)
        ensures
            r matches Ok(kp) ==> (kp.private_key@ == scalar_reduce_of(sha256_of(seed@))
                && Some(kp.public_key@) == base_mul_of(kp.private_key@)),
    {
        let digest = sha256_slice(seed);
        let sk = PrivateKey(scalar_reduce_raw(&digest));
        let pk = match PublicKey::create_from_private_key(&sk) {
            Ok(pk) => pk,
            Err(e) => {
                return Err(e);
            },
        };
        Ok(KeyPair { public_key: pk, private_key: sk })
    }
}

/// SHA-256 of a 32-byte block.
pub fn sha256_slice(data: &[u8; 32]) -> (r: [u8; 32])
    ensures
        r@ == sha256_of(data@),
{
    sha256_raw(data.as_slice())
}

/// SHA-256 of a byte vector.
pub fn sha256_vec(data: &Vec<u8>) -> (r: [u8; 32])
    ensures
        r@ == sha256_of(data@),
{
    sha256_raw(data.as_slice())
}


/// The serializations in a list of byte vectors.
pub open spec fn byte_views(v: Seq<Vec<u8>>) -> Seq<Seq<u8>> {
    Seq::new(v.len(), |j: int| v[j]@)
}

/// The canonical forms of the entries that parse as valid points, in order;
/// entries that do not parse are dropped.
pub open spec fn parsed_keys_of(v: Seq<Seq<u8>>) -> Seq<Seq<u8>>
    decreases v.len(),
{
    if v.len() == 0 {
        Seq::empty()
    } else {
        let pre = parsed_keys_of(v.drop_last());
        match point_parse_of(v.last()) {
            Some(q) => pre.push(q),
            None => pre,
        }
    }
}

impl PublicKey {
    /// Parses each 65-byte serialization in the list, keeping the valid
    /// points in order and dropping the rest.
    pub fn convert_from_vec(v: Vec<Vec<u8>>) -> (r: Vec<Self>)
        requires
            forall|j: int| 0 <= j < v@.len() ==> #[trigger] v@[j]@.len() == 65,
        ensures
            r@.len() == parsed_keys_of(byte_views(v@)).len(),
            forall|k: int|
                0 <= k < r@.len() ==> #[trigger] r@[k]@ == parsed_keys_of(byte_views(v@))[k],
    {
        let len = v.len();
        let mut pks: Vec<PublicKey> = Vec::new();
        let mut j: usize = 0;
        while j < len
            invariant
                j <= len,
                len == v@.len(),
                forall|t: int| 0 <= t < len ==> #[trigger] v@[t]@.len() == 65,
                pks@.len() == parsed_keys_of(byte_views(v@).take(j as int)).len(),
                forall|k: int|
                    0 <= k < pks@.len() ==> #[trigger] pks@[k]@ == parsed_keys_of(
                        byte_views(v@).take(j as int),
                    )[k],
            decreases len - j,
        {
            proof {
                assert(byte_views(v@).take(j + 1).drop_last() =~= byte_views(v@).take(j as int));
                assert(byte_views(v@).take(j + 1).last() == v@[j as int]@);
            }
            let mut tt = [0u8; 65];
            let entry = &v[j];
            let mut t: usize = 0;
            while t < 65
                invariant
                    t <= 65,
                    tt@.len() == 65,
                    entry@.len() == 65,
                    forall|q: int| 0 <= q < t ==> tt@[q] == entry@[q],
                decreases 65 - t,
            {
                tt[t] = entry[t];
                t = t + 1;
            }
            proof {
                assert(tt@ =~= v@[j as int]@);
            }
            match PublicKey::parse(&tt) {
                Ok(pk) => {
                    pks.push(pk);
                },
                Err(_) => (),
            }
            j = j + 1;
        }
        proof {
            assert(byte_views(v@).take(len as int) =~= byte_views(v@));
        }
        pks
    }

    /// The full serialization of each key in the list, in order.
    pub fn convert_to_vec(pks: Vec<PublicKey>) -> (r: Vec<Vec<u8>>)
        ensures
            r@.len() == pks@.len(),
            forall|k: int| 0 <= k < r@.len() ==> #[trigger] r@[k]@ == pks@[k]@,
    {
        let len = pks.len();
        let mut vv: Vec<Vec<u8>> = Vec::new();
        let mut j: usize = 0;
        while j < len
            invariant
                j <= len,
                len == pks@.len(),
                vv@.len() == j,
                forall|k: int| 0 <= k < j ==> #[trigger] vv@[k]@ == pks@[k]@,
            decreases len - j,
        {
            let ser = pks[j].serialize();
            vv.push(vstd::slice::slice_to_vec(ser.as_slice()));
            j = j + 1;
        }
        vv
    }
}

// ---------------------------------------------------------------------------
// Trusted wrappers over the outside curve and hash libraries. Verus believes
// the contracts below; their bodies make the outside calls.
// ---------------------------------------------------------------------------

/// libsecp256k1's affine curve point, opaque to the contracts here; it only
/// carries parsed points between the wrappers below.
#[verifier::external_type_specification]
#[verifier::external_body]
pub struct ExAffine(Affine);

/// Relies on libsecp256k1's `Field::set_b32`, `Affine::set_xy`,
/// `Affine::is_infinity` and `Affine::is_valid_var`: parses 65 uncompressed
/// bytes into a curve point, `None` when a coordinate is out of the field
/// range or the pair does not satisfy the curve equation.
#[verifier::external_body]
fn affine_from_bytes(p: &[u8; 65]) -> Option<Affine> {
    let mut xb = [0u8; 32];
    let mut yb = [0u8; 32];
    xb.copy_from_slice(&p[1..33]);
    yb.copy_from_slice(&p[33..65]);
    let mut x = Field::default();
    let mut y = Field::default();
    if !x.set_b32(&xb) || !y.set_b32(&yb) {
        return None;
    }
    let mut elem = Affine::default();
    elem.set_xy(&x, &y);
    if elem.is_infinity() || !elem.is_valid_var() {
        return None;
    }
    Some(elem)
}

/// Relies on libsecp256k1's `Field::normalize` and `Field::fill_b32`: writes
/// the canonical 65-byte uncompressed serialization of a finite point.
#[verifier::external_body]
fn affine_to_bytes(p: &Affine) -> [u8; 65] {
    let mut elem = p.clone();
    elem.x.normalize();
    elem.y.normalize();
    let mut out = [0u8; 65];
    out[0] = 4;
    elem.x.fill_b32((&mut out[1..33]).try_into().unwrap());
    elem.y.fill_b32((&mut out[33..65]).try_into().unwrap());
    out
}

/// Relies on libsecp256k1's `Jacobian::add_ge` point addition.
#[verifier::external_body]
pub(crate) fn point_add_raw(a: &[u8; 65], b: &[u8; 65]) -> (r: Option<[u8; 65]>)
    ensures
        r is Some <==> point_add_of(a@, b@) is Some,
        r matches Some(q) ==> Some(q@) == point_add_of(a@, b@),
{
    let pa = affine_from_bytes(a)?;
    let pb = affine_from_bytes(b)?;
    let mut qj = Jacobian::default();
    qj.set_infinity();
    qj = qj.add_ge(&pa);
    qj = qj.add_ge(&pb);
    if qj.is_infinity() {
        return None;
    }
    Some(affine_to_bytes(&Affine::from_gej(&qj)))
}

/// Relies on libsecp256k1's `ECMultContext::ecmult` scalar multiplication;
/// the scalar is reduced modulo the group order by `Scalar::set_b32`.
#[verifier::external_body]
pub(crate) fn point_mul_raw(p: &[u8; 65], k: &[u8; 32]) -> (r: Option<[u8; 65]>)
    ensures
        r is Some <==> point_mul_of(p@, k@) is Some,
        r matches Some(q) ==> Some(q@) == point_mul_of(p@, k@),
{
    let pa = affine_from_bytes(p)?;
    let mut ks = Scalar::default();
    let _ = ks.set_b32(k);
    let mut r = Jacobian::default();
    ECMULT_CONTEXT.ecmult(&mut r, &Jacobian::from_ge(&pa), &ks, &Scalar::from_int(0));
    if r.is_infinity() {
        return None;
    }
    Some(affine_to_bytes(&Affine::from_gej(&r)))
}

/// Relies on libsecp256k1's `ECMultGenContext::ecmult_gen` generator
/// multiplication; the scalar is reduced modulo the group order.
#[verifier::external_body]
pub(crate) fn base_mul_raw(k: &[u8; 32]) -> (r: Option<[u8; 65]>)
    ensures
        r is Some <==> base_mul_of(k@) is Some,
        r matches Some(q) ==> Some(q@) == base_mul_of(k@),
{
    let mut ks = Scalar::default();
    let _ = ks.set_b32(k);
    let mut pj = Jacobian::default();
    ECMULT_GEN_CONTEXT.ecmult_gen(&mut pj, &ks);
    if pj.is_infinity() {
        return None;
    }
    let mut p = Affine::default();
    p.set_gej(&pj);
    Some(affine_to_bytes(&p))
}

/// Relies on libsecp256k1's `Affine::neg` point negation.
#[verifier::external_body]
pub(crate) fn point_neg_raw(p: &[u8; 65]) -> (r: Option<[u8; 65]>)
    ensures
        r is Some <==> point_neg_of(p@) is Some,
        r matches Some(q) ==> Some(q@) == point_neg_of(p@),
{
    let pa = affine_from_bytes(p)?;
    Some(affine_to_bytes(&pa.neg()))
}

/// Relies on the parse and serialize helpers above: the canonical form of a
/// valid encoding, `None` otherwise.
#[verifier::external_body]
pub(crate) fn point_parse_raw(p: &[u8; 65]) -> (r: Option<[u8; 65]>)
    ensures
        r is Some <==> point_parse_of(p@) is Some,
        r matches Some(q) ==> Some(q@) == point_parse_of(p@),
{
    let pa = affine_from_bytes(p)?;
    Some(affine_to_bytes(&pa))
}

/// Relies on libsecp256k1's `Field::set_b32` and `Affine::set_xo_var`: the
/// curve point with the given x coordinate and even y, if one exists. The
/// canonical x bytes round-trip, and the chosen y is even.
#[verifier::external_body]
pub(crate) fn lift_x_raw(x: &[u8; 32]) -> (r: Option<[u8; 65]>)
    ensures
        r is Some <==> lift_x_of(x@) is Some,
        r matches Some(q) ==> Some(q@) == lift_x_of(x@),
        r matches Some(q) ==> (q@.subrange(1, 33) == x@ && q@[64] % 2 == 0),
{
    let mut elem = Field::default();
    let mut affine = Affine::default();
    if elem.set_b32(x) && affine.set_xo_var(&elem, false) {
        Some(affine_to_bytes(&affine))
    } else {
        None
    }
}

/// Relies on libsecp256k1's `Scalar`: `set_b32` reduces modulo the group
/// order, `+` adds modulo the order, `b32` writes the canonical big-endian
/// form.
#[verifier::external_body]
pub(crate) fn scalar_add_raw(a: &[u8; 32], b: &[u8; 32]) -> (r: [u8; 32])
    ensures
        r@ == scalar_add_of(a@, b@),
{
    let mut sa = Scalar::default();
    let _ = sa.set_b32(a);
    let mut sb = Scalar::default();
    let _ = sb.set_b32(b);
    (sa + sb).b32()
}

/// Relies on libsecp256k1's `Scalar`: `*` multiplies modulo the group order.
#[verifier::external_body]
pub(crate) fn scalar_mul_raw(a: &[u8; 32], b: &[u8; 32]) -> (r: [u8; 32])
    ensures
        r@ == scalar_mul_of(a@, b@),
{
    let mut sa = Scalar::default();
    let _ = sa.set_b32(a);
    let mut sb = Scalar::default();
    let _ = sb.set_b32(b);
    (sa * sb).b32()
}

/// Relies on libsecp256k1's `Scalar` negation modulo the group order.
#[verifier::external_body]
pub(crate) fn scalar_neg_raw(a: &[u8; 32]) -> (r: [u8; 32])
    ensures
        r@ == scalar_neg_of(a@),
{
    let mut sa = Scalar::default();
    let _ = sa.set_b32(a);
    (-sa).b32()
}

/// Relies on libsecp256k1's `Scalar::set_b32` reduction modulo the group
/// order and `b32` canonical serialization.
#[verifier::external_body]
pub(crate) fn scalar_reduce_raw(a: &[u8; 32]) -> (r: [u8; 32])
    ensures
        r@ == scalar_reduce_of(a@),
{
    let mut sa = Scalar::default();
    let _ = sa.set_b32(a);
    sa.b32()
}

/// Relies on libsecp256k1's `Scalar::set_b32`: the overflow flag is set
/// exactly when the value is not below the group order.
#[verifier::external_body]
pub(crate) fn scalar_check_raw(b: &[u8; 32]) -> (r: bool)
    ensures
        r == (be_value(b@) < group_order()),
{
    let mut s = Scalar::default();
    !bool::from(s.set_b32(b))
}

/// Relies on sha2's `Sha256`: the digest depends on the input bytes alone and
/// is 32 bytes long.
#[verifier::external_body]
pub(crate) fn sha256_raw(data: &[u8]) -> (r: [u8; 32])
    ensures
        r@ == sha256_of(data@),
{
    let mut h = sha2::Sha256::new();
    h.update(data);
    h.finalize().into()
}

/// Relies on rand_core's `OsRng`: 32 bytes from the operating system's
/// randomness; nothing is promised of the value.
#[verifier::external_body]
fn random_bytes32() -> [u8; 32] {
    let mut key = [0u8; 32];
    rand_core::OsRng.fill_bytes(&mut key);
    key
}

} // verus!
