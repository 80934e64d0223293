//! Group elements and scalars of the secp256k1 curve.
//!
//! A value of either type is held as its canonical byte encoding: a
//! scalar as 32 big-endian bytes below the group order, a group
//! element as 65 bytes — all zero for the point at infinity, or an
//! uncompressed `0x04 || x || y` point on the curve.  The curve
//! arithmetic itself is done by the `eccoxide` crate behind trusted
//! wrappers from bytes to bytes, whose results are named; hashing to
//! the curve relies on `cryptoxide`'s Blake2b.  Everything around the
//! arithmetic — encodings, validity checks, and the walk from a hash
//! to a curve point — is verified.

use vstd::prelude::*;
use eccoxide::curve::sec2::p256k1;
use cryptoxide::hashing::blake2b::ContextDyn;

verus! {

/// The order of the secp256k1 group: the modulus of all scalar
/// arithmetic.
pub open spec fn scalar_order() -> nat {
    0xfffffffffffffffffffffffffffffffebaaedce6af48a03bbfd25e8cd0364141nat
}

/// The prime of the secp256k1 base field, `2^256 - 2^32 - 977`: the
/// modulus of the coordinate arithmetic.
pub open spec fn fe_prime() -> nat {
    0xfffffffffffffffffffffffffffffffffffffffffffffffffffffffefffffc2fnat
}

/// The value of a big-endian byte sequence.
pub open spec fn be_nat(b: Seq<u8>) -> nat
    decreases b.len(),
{
    if b.len() == 0 {
        0
    } else {
        be_nat(b.drop_last()) * 256 + (b.last() as nat)
    }
}

/// The `n`-byte big-endian encoding of a value; values at or above
/// `256^n` are truncated to their low bytes.
pub open spec fn nat_be(n: nat, v: nat) -> Seq<u8>
    decreases n,
{
    if n == 0 {
        Seq::empty()
    } else {
        nat_be((n - 1) as nat, v / 256).push((v % 256) as u8)
    }
}

/// 256 to the `n`-th power: the number of `n`-byte strings.
pub open spec fn pow256(n: nat) -> nat
    decreases n,
{
    if n == 0 {
        1
    } else {
        256 * pow256((n - 1) as nat)
    }
}

/// `base` to the `e`-th power, modulo `m`.
pub open spec fn pow_mod(base: nat, e: nat, m: nat) -> nat
    decreases e,
{
    if m == 0 {
        0
    } else if e == 0 {
        1nat % m
    } else {
        (base * pow_mod(base, (e - 1) as nat, m)) % m
    }
}

/// Whether 32 bytes are the canonical big-endian encoding of a scalar,
/// that is, of a value strictly below the secp256k1 group order.
pub open spec fn scalar_canonical(b: Seq<u8>) -> bool {
    b.len() == 32 && be_nat(b) < scalar_order()
}

/// The canonical encoding of the scalar with the given small value.
pub open spec fn scalar_of_u64(v: u64) -> Seq<u8> {
    nat_be(32, v as nat)
}

/// The canonical encoding of the sum of the two encoded scalars,
/// modulo the group order.
pub open spec fn scalar_add_bytes(a: Seq<u8>, b: Seq<u8>) -> Seq<u8> {
    nat_be(32, (be_nat(a) + be_nat(b)) % scalar_order())
}

/// The canonical encoding of the difference of the two encoded
/// scalars, modulo the group order.
pub open spec fn scalar_sub_bytes(a: Seq<u8>, b: Seq<u8>) -> Seq<u8> {
    nat_be(
        32,
        (((be_nat(a) + scalar_order() - be_nat(b)) as int) % (scalar_order() as int)) as nat,
    )
}

/// The canonical encoding of the product of the two encoded scalars,
/// modulo the group order.
pub open spec fn scalar_mul_bytes(a: Seq<u8>, b: Seq<u8>) -> Seq<u8> {
    nat_be(32, (be_nat(a) * be_nat(b)) % scalar_order())
}

/// The canonical encoding of the additive inverse of the encoded
/// scalar, modulo the group order.
pub open spec fn scalar_neg_bytes(a: Seq<u8>) -> Seq<u8> {
    nat_be(32, (((scalar_order() - be_nat(a)) as int) % (scalar_order() as int)) as nat)
}

/// The canonical encoding of the multiplicative inverse of the encoded
/// scalar.  Unlike the ring operations above, the inverse has no
/// closed byte-level form of a few lines, so it stays a name tied to
/// the one operation that computes it.
pub uninterp spec fn scalar_inv_bytes(a: Seq<u8>) -> Seq<u8>;

/// The canonical encoding of the encoded scalar raised to the given
/// power, modulo the group order.
pub open spec fn scalar_pow_bytes(a: Seq<u8>, n: u64) -> Seq<u8> {
    nat_be(32, pow_mod(be_nat(a), n as nat, scalar_order()))
}

/// Whether 32 bytes are the canonical big-endian encoding of a field
/// element, that is, of a value strictly below the field prime.
pub open spec fn fe_canonical(b: Seq<u8>) -> bool {
    b.len() == 32 && be_nat(b) < fe_prime()
}

/// Whether the two canonically encoded field elements are the
/// coordinates of a point on the curve `y^2 = x^3 + 7` over the base
/// field.
pub open spec fn xy_on_curve(x: Seq<u8>, y: Seq<u8>) -> bool {
    (be_nat(y) * be_nat(y)) % fe_prime() == (be_nat(x) * be_nat(x) * be_nat(x) + 7) % fe_prime()
}

/// The canonical encoding of the point recovered from an x coordinate
/// and the sign of y, if the x coordinate is on the curve.
pub uninterp spec fn decompress_bytes(x: Seq<u8>, negative: bool) -> Option<Seq<u8>>;

/// The canonical encoding of the sum of the two encoded points.
pub uninterp spec fn point_add_bytes(a: Seq<u8>, b: Seq<u8>) -> Seq<u8>;

/// The canonical encoding of the difference of the two encoded points.
pub uninterp spec fn point_sub_bytes(a: Seq<u8>, b: Seq<u8>) -> Seq<u8>;

/// The canonical encoding of the curve generator multiplied by the
/// encoded scalar.
pub uninterp spec fn point_base_mul_bytes(s: Seq<u8>) -> Seq<u8>;

/// The 33-byte Blake2b digest of the given data.
pub uninterp spec fn blake2b33_of(data: Seq<u8>) -> Seq<u8>;

/// The 65-byte encoding of the point at infinity: all zeroes.
pub open spec fn zero_point_bytes() -> Seq<u8> {
    Seq::new(65, |i: int| 0u8)
}

/// Whether 65 bytes canonically encode a group element: the point at
/// infinity as all zeroes, or an uncompressed point on the curve.
pub open spec fn point_encoding_valid(b: Seq<u8>) -> bool {
    b.len() == 65 && (b =~= zero_point_bytes() || (b[0] == 4 && fe_canonical(b.subrange(1, 33))
        && fe_canonical(b.subrange(33, 65)) && xy_on_curve(b.subrange(1, 33), b.subrange(33, 65))))
}

/// What reading a group element from arbitrary bytes yields: an input
/// led by `0x04` is read as an uncompressed point from its first 65
/// bytes, any tail ignored; exactly 65 zero bytes are the point at
/// infinity; everything else is rejected.  (An input led by `0x04`
/// but shorter than 65 bytes is rejected too; it has no complete
/// point to read.)
pub open spec fn spec_point_decoding(b: Seq<u8>) -> Option<Seq<u8>> {
    if b.len() >= 1 && b[0] == 4 {
        if b.len() >= 65 && point_encoding_valid(b.subrange(0, 65)) {
            Some(b.subrange(0, 65))
        } else {
            None
        }
    } else if b =~= zero_point_bytes() {
        Some(zero_point_bytes())
    } else {
        None
    }
}

/// Copies a byte slice into a fresh vector.
fn bytes_to_vec(s: &[u8]) -> (r: Vec<u8>)
    ensures
        r@ == s@,
{
    let n: usize = s.len();
    let mut r: Vec<u8> = Vec::new();
    let mut i: usize = 0;
    while i < n
        invariant
            i <= n,
            n == s@.len(),
            r@ == s@.subrange(0, i as int),
        decreases n - i,
    {
        r.push(s[i]);
        proof {
            assert(r@ =~= s@.subrange(0, i + 1));
        }
        i = i + 1;
    }
    proof {
        assert(r@ =~= s@);
    }
    r
}

/// Whether two byte vectors hold the same bytes.
fn vecs_eq(a: &Vec<u8>, b: &Vec<u8>) -> (r: bool)
    ensures
        r == (a@ == b@),
{
    let n: usize = a.len();
    if n != b.len() {
        proof {
            assert(a@ != b@);
        }
        return false;
    }
    let mut i: usize = 0;
    while i < n
        invariant
            i <= n,
            n == a@.len(),
            n == b@.len(),
            forall|k: int| 0 <= k < i ==> a@[k] == b@[k],
        decreases n - i,
    {
        if a[i] != b[i] {
            proof {
                assert(a@[i as int] != b@[i as int]);
            }
            return false;
        }
        i = i + 1;
    }
    proof {
        assert(a@ =~= b@);
    }
    true
}

/// A scalar of the group order, as its canonical 32-byte encoding.
#[derive(Clone, Debug)]
pub struct Scalar {
    bytes: Vec<u8>,
}

/// Relies on eccoxide `Scalar::from_bytes`: it accepts exactly the
/// canonical 32-byte big-endian encodings, those of values strictly
/// below the group order.
#[verifier::external_body]
fn scalar_check(bytes: &Vec<u8>) -> (r: bool)
    requires
        bytes@.len() == 32,
    ensures
        r == scalar_canonical(bytes@),
{
    p256k1::Scalar::from_slice(&bytes[..]).is_some()
}

/// Relies on eccoxide `Scalar::from_u64` and `Scalar::to_bytes`: the
/// encoding of a 64-bit value is canonical, as every such value is far
/// below the group order.
#[verifier::external_body]
fn scalar_of_u64_exec(v: u64) -> (r: Vec<u8>)
    ensures
        r@ == scalar_of_u64(v),
        r@.len() == 32,
        scalar_canonical(r@),
{
    p256k1::Scalar::from_u64(v).to_bytes().to_vec()
}

impl Scalar {
    /// The canonical encoding the scalar is held as.
    pub closed spec fn repr(self) -> Seq<u8> {
        self.bytes@
    }

    /// Validity: the held bytes canonically encode a scalar.
    pub open spec fn wf(self) -> bool {
        self.repr().len() == 32 && scalar_canonical(self.repr())
    }

    /// The additive identity.
    pub fn zero() -> (r: Scalar)
        ensures
            r.repr() == scalar_of_u64(0),
            r.wf(),
    {
        Scalar::from_u64(0)
    }

    /// The multiplicative identity.
    pub fn one() -> (r: Scalar)
        ensures
            r.repr() == scalar_of_u64(1),
            r.wf(),
    {
        Scalar::from_u64(1)
    }

    /// The scalar with the given small value.
    pub fn from_u64(v: u64) -> (r: Scalar)
        ensures
            r.repr() == scalar_of_u64(v),
            r.wf(),
    {
        Scalar { bytes: scalar_of_u64_exec(v) }
    }

    /// The canonical 32-byte encoding of the scalar.
    pub fn to_bytes(&self) -> (r: Vec<u8>)
        requires
            self.wf(),
        ensures
            r@ == self.repr(),
    {
        bytes_to_vec(self.bytes.as_slice())
    }

    /// Reads a scalar back from its canonical encoding; any other
    /// input, wrong length or out of range, is rejected.
    pub fn from_bytes(slice: &[u8]) -> (r: Option<Scalar>)
        ensures
            match r {
                Some(s) => {
                    &&& s.wf()
                    &&& s.repr() == slice@
                },
                None => slice@.len() != 32 || !scalar_canonical(slice@),
            },
    {
        if slice.len() != 32 {
            return None;
        }
        let bytes = bytes_to_vec(slice);
        if scalar_check(&bytes) {
            Some(Scalar { bytes })
        } else {
            None
        }
    }

    /// The sum of two scalars.
    ///
    /// Relies on eccoxide scalar addition: the sum of the encoded
    /// values modulo the group order, re-encoded canonically.
    #[verifier::external_body]
    pub fn add(&self, other: &Scalar) -> (r: Scalar)
        requires
            self.wf(),
            other.wf(),
        ensures
            r.repr() == scalar_add_bytes(self.repr(), other.repr()),
            r.wf(),
    {
        let a = p256k1::Scalar::from_slice(&self.bytes[..]).unwrap();
        let b = p256k1::Scalar::from_slice(&other.bytes[..]).unwrap();
        Scalar { bytes: (&a + &b).to_bytes().to_vec() }
    }

    /// The difference of two scalars.
    ///
    /// Relies on eccoxide scalar subtraction: the difference of the
    /// encoded values modulo the group order, re-encoded canonically.
    #[verifier::external_body]
    pub fn sub(&self, other: &Scalar) -> (r: Scalar)
        requires
            self.wf(),
            other.wf(),
        ensures
            r.repr() == scalar_sub_bytes(self.repr(), other.repr()),
            r.wf(),
    {
        let a = p256k1::Scalar::from_slice(&self.bytes[..]).unwrap();
        let b = p256k1::Scalar::from_slice(&other.bytes[..]).unwrap();
        Scalar { bytes: (&a - &b).to_bytes().to_vec() }
    }

    /// The product of two scalars.
    ///
    /// Relies on eccoxide scalar multiplication: the product of the
    /// encoded values modulo the group order, re-encoded canonically.
    #[verifier::external_body]
    pub fn mul(&self, other: &Scalar) -> (r: Scalar)
        requires
            self.wf(),
            other.wf(),
        ensures
            r.repr() == scalar_mul_bytes(self.repr(), other.repr()),
            r.wf(),
    {
        let a = p256k1::Scalar::from_slice(&self.bytes[..]).unwrap();
        let b = p256k1::Scalar::from_slice(&other.bytes[..]).unwrap();
        Scalar { bytes: (&a * &b).to_bytes().to_vec() }
    }

    /// The additive inverse.
    ///
    /// Relies on eccoxide scalar negation: the encoded value negated
    /// modulo the group order, re-encoded canonically.
    #[verifier::external_body]
    pub fn negate(&self) -> (r: Scalar)
        requires
            self.wf(),
        ensures
            r.repr() == scalar_neg_bytes(self.repr()),
            r.wf(),
    {
        let a = p256k1::Scalar::from_slice(&self.bytes[..]).unwrap();
        Scalar { bytes: (-&a).to_bytes().to_vec() }
    }

    /// The multiplicative inverse.  Zero has none, so the zero scalar
    /// is excluded.
    ///
    /// Relies on eccoxide `Scalar::inverse`, through the canonical
    /// encodings on both sides; it panics on zero, which the
    /// precondition rules out.
    #[verifier::external_body]
    pub fn inverse(&self) -> (r: Scalar)
        requires
            self.wf(),
            self.repr() != scalar_of_u64(0),
        ensures
            r.repr() == scalar_inv_bytes(self.repr()),
            r.wf(),
    {
        let a = p256k1::Scalar::from_slice(&self.bytes[..]).unwrap();
        Scalar { bytes: a.inverse().to_bytes().to_vec() }
    }

    /// The multiplicative inverse, where one exists: every scalar but
    /// zero has one, and zero gets `None`.
    pub fn try_inverse(&self) -> (r: Option<Scalar>)
        requires
            self.wf(),
        ensures
            match r {
                Some(s) => {
                    &&& self.repr() != scalar_of_u64(0)
                    &&& s.repr() == scalar_inv_bytes(self.repr())
                    &&& s.wf()
                },
                None => self.repr() == scalar_of_u64(0),
            },
    {
        let z = Scalar::zero();
        if vecs_eq(&self.bytes, &z.bytes) {
            None
        } else {
            Some(self.inverse())
        }
    }

    /// Adds one to the scalar in place.
    pub fn increment(&mut self)
        requires
            old(self).wf(),
        ensures
            final(self).repr() == scalar_add_bytes(old(self).repr(), scalar_of_u64(1)),
            final(self).wf(),
    {
        let one = Scalar::one();
        *self = self.add(&one);
    }

    /// The scalar raised to the given power.
    ///
    /// Relies on eccoxide `Scalar::power_u64`: the encoded value
    /// raised to the power modulo the group order, re-encoded
    /// canonically; the zeroth power of anything is one.
    #[verifier::external_body]
    pub fn power(&self, n: usize) -> (r: Scalar)
        requires
            self.wf(),
        ensures
            r.repr() == scalar_pow_bytes(self.repr(), n as u64),
            r.wf(),
    {
        let a = p256k1::Scalar::from_slice(&self.bytes[..]).unwrap();
        Scalar { bytes: a.power_u64(n as u64).to_bytes().to_vec() }
    }

    /// The sum of a sequence of scalars, `None` when it is empty.
    pub fn sum(items: &Vec<Scalar>) -> (r: Option<Scalar>)
        requires
            forall|i: int| 0 <= i < items@.len() ==> (#[trigger] items@[i]).wf(),
        ensures
            match r {
                Some(s) => items@.len() > 0 && s.wf() && s.repr() == spec_scalar_sum(
                    items@[0].repr(),
                    items@.map(|i: int, x: Scalar| x.repr()).drop_first(),
                ),
                None => items@.len() == 0,
            },
    {
        if items.len() == 0 {
            return None;
        }
        let ghost reprs = items@.map(|i: int, x: Scalar| x.repr());
        let mut acc = items[0].clone_scalar();
        let mut i: usize = 1;
        while i < items.len()
            invariant
                1 <= i <= items@.len(),
                forall|k: int| 0 <= k < items@.len() ==> (#[trigger] items@[k]).wf(),
                reprs == items@.map(|k: int, x: Scalar| x.repr()),
                acc.wf(),
                acc.repr() == spec_scalar_sum(reprs[0], reprs.subrange(1, i as int)),
            decreases items@.len() - i,
        {
            acc = acc.add(&items[i]);
            proof {
                lemma_scalar_sum_step(reprs[0], reprs.subrange(1, i as int), reprs[i as int]);
                assert(reprs.subrange(1, i + 1) =~= reprs.subrange(1, i as int).push(
                    reprs[i as int],
                ));
            }
            i = i + 1;
        }
        proof {
            assert(reprs.subrange(1, items@.len() as int) =~= reprs.drop_first());
        }
        Some(acc)
    }

    /// An exact copy of the scalar.
    pub fn clone_scalar(&self) -> (r: Scalar)
        ensures
            r.repr() == self.repr(),
    {
        Scalar { bytes: bytes_to_vec(self.bytes.as_slice()) }
    }
}

/// The encoding of a left fold of scalar addition over a sequence of
/// encodings, seeded with `first`.
pub open spec fn spec_scalar_sum(first: Seq<u8>, rest: Seq<Seq<u8>>) -> Seq<u8>
    decreases rest.len(),
{
    if rest.len() == 0 {
        first
    } else {
        spec_scalar_sum(scalar_add_bytes(first, rest[0]), rest.drop_first())
    }
}

/// Folding one more encoding extends the sum on the right.
pub proof fn lemma_scalar_sum_step(first: Seq<u8>, rest: Seq<Seq<u8>>, last: Seq<u8>)
    ensures
        spec_scalar_sum(first, rest.push(last)) == scalar_add_bytes(
            spec_scalar_sum(first, rest),
            last,
        ),
    decreases rest.len(),
{
    let p = rest.push(last);
    if rest.len() == 0 {
        assert(p[0] == last);
        assert(p.drop_first() =~~= Seq::<Seq<u8>>::empty());
        assert(spec_scalar_sum(first, p) == spec_scalar_sum(
            scalar_add_bytes(first, last),
            Seq::<Seq<u8>>::empty(),
        ));
        assert(spec_scalar_sum(scalar_add_bytes(first, last), Seq::<Seq<u8>>::empty())
            == scalar_add_bytes(first, last));
        assert(spec_scalar_sum(first, rest) == first);
    } else {
        assert(p[0] == rest[0]);
        assert(p.drop_first() =~~= rest.drop_first().push(last));
        assert(spec_scalar_sum(first, p) == spec_scalar_sum(
            scalar_add_bytes(first, rest[0]),
            rest.drop_first().push(last),
        ));
        lemma_scalar_sum_step(scalar_add_bytes(first, rest[0]), rest.drop_first(), last);
    }
}

/// The group order fits 32 bytes: every reduced value has a faithful
/// canonical encoding.
proof fn lemma_order_below_width()
    ensures
        scalar_order() < pow256(32),
        scalar_order() > 0,
{
    assert(pow256(32)
        == 0x10000000000000000000000000000000000000000000000000000000000000000nat) by {
        reveal_with_fuel(pow256, 33);
    }
}

/// Reading back an `n`-byte encoding gives the value, for values the
/// width can hold.
proof fn lemma_nat_be_value(n: nat, v: nat)
    requires
        v < pow256(n),
    ensures
        nat_be(n, v).len() == n,
        be_nat(nat_be(n, v)) == v,
    decreases n,
{
    if n > 0 {
        assert(v / 256 < pow256((n - 1) as nat)) by (nonlinear_arith)
            requires
                v < 256 * pow256((n - 1) as nat),
        ;
        lemma_nat_be_value((n - 1) as nat, v / 256);
        let s = nat_be((n - 1) as nat, v / 256);
        let whole = s.push((v % 256) as u8);
        assert(whole.drop_last() =~= s);
        assert(whole.last() == (v % 256) as u8);
        assert(v == (v / 256) * 256 + v % 256) by {
            vstd::arithmetic::div_mod::lemma_fundamental_div_mod(v as int, 256);
        }
    }
}

/// Scalar addition of encodings is commutative.
pub proof fn lemma_scalar_add_comm(a: Seq<u8>, b: Seq<u8>)
    ensures
        scalar_add_bytes(a, b) == scalar_add_bytes(b, a),
{
}

/// The two-step sums `(v + x) + y` and `(v + y) + x` of encodings
/// agree: adding a collection of scalars one by one does not depend
/// on which comes first.
pub proof fn lemma_scalar_add_shuffle(v: Seq<u8>, x: Seq<u8>, y: Seq<u8>)
    ensures
        scalar_add_bytes(scalar_add_bytes(v, x), y) == scalar_add_bytes(
            scalar_add_bytes(v, y),
            x,
        ),
{
    let o = scalar_order();
    lemma_order_below_width();
    lemma_nat_be_value(32, (be_nat(v) + be_nat(x)) % o);
    lemma_nat_be_value(32, (be_nat(v) + be_nat(y)) % o);
    vstd::arithmetic::div_mod::lemma_add_mod_noop_right(
        be_nat(y) as int,
        (be_nat(v) + be_nat(x)) as int,
        o as int,
    );
    vstd::arithmetic::div_mod::lemma_add_mod_noop_right(
        be_nat(x) as int,
        (be_nat(v) + be_nat(y)) as int,
        o as int,
    );
}

/// Scalar addition of encodings is associative.
pub proof fn lemma_scalar_add_assoc(a: Seq<u8>, b: Seq<u8>, c: Seq<u8>)
    ensures
        scalar_add_bytes(scalar_add_bytes(a, b), c) == scalar_add_bytes(
            a,
            scalar_add_bytes(b, c),
        ),
{
    let o = scalar_order();
    lemma_order_below_width();
    lemma_nat_be_value(32, (be_nat(a) + be_nat(b)) % o);
    lemma_nat_be_value(32, (be_nat(b) + be_nat(c)) % o);
    vstd::arithmetic::div_mod::lemma_add_mod_noop_right(
        be_nat(c) as int,
        (be_nat(a) + be_nat(b)) as int,
        o as int,
    );
    vstd::arithmetic::div_mod::lemma_add_mod_noop_right(
        be_nat(a) as int,
        (be_nat(b) + be_nat(c)) as int,
        o as int,
    );
}

/// The running sum is a left fold of scalar addition.
proof fn lemma_scalar_sum_is_fold(
    first: Seq<u8>,
    rest: Seq<Seq<u8>>,
    f: spec_fn(Seq<u8>, Seq<u8>) -> Seq<u8>,
)
    requires
        forall|v: Seq<u8>, b: Seq<u8>| #[trigger] f(v, b) == scalar_add_bytes(v, b),
    ensures
        rest.fold_left(first, f) == spec_scalar_sum(first, rest),
    decreases rest.len(),
{
    if rest.len() > 0 {
        lemma_scalar_sum_is_fold(first, rest.drop_last(), f);
        lemma_scalar_sum_step(first, rest.drop_last(), rest.last());
        assert(rest =~~= rest.drop_last().push(rest.last()));
    }
}

/// Order independence: summing scalar encodings is invariant under
/// any rearrangement of the summands — two sequences holding the same
/// encodings the same number of times fold to the same scalar.
pub proof fn lemma_scalar_sum_permutation(
    first: Seq<u8>,
    rest1: Seq<Seq<u8>>,
    rest2: Seq<Seq<u8>>,
)
    requires
        rest1.to_multiset() == rest2.to_multiset(),
    ensures
        spec_scalar_sum(first, rest1) == spec_scalar_sum(first, rest2),
{
    let f = |v: Seq<u8>, b: Seq<u8>| scalar_add_bytes(v, b);
    lemma_scalar_sum_is_fold(first, rest1, f);
    lemma_scalar_sum_is_fold(first, rest2, f);
    assert(vstd::seq_lib::commutative_foldl(f)) by {
        assert forall|x: Seq<u8>, y: Seq<u8>, v: Seq<u8>| #[trigger] f(f(v, x), y) == f(
            f(v, y),
            x,
        ) by {
            lemma_scalar_add_shuffle(v, x, y);
        }
    }
    vstd::seq_lib::lemma_fold_left_permutation(rest1, rest2, f, first);
}

/// An x coordinate of a curve point: a canonically encoded field
/// element, as its 32 bytes.
#[derive(Clone, Debug)]
pub struct Coordinate {
    bytes: Vec<u8>,
}

/// The sign of a point's y coordinate, telling the two points with a
/// given x coordinate apart; `true` means negative.
#[derive(Clone, Copy, PartialEq, Eq, Structural, Debug)]
pub struct Sign(pub bool);

/// Relies on eccoxide `FieldElement::from_slice`: it accepts exactly
/// the canonical 32-byte big-endian encodings, those of values
/// strictly below the field prime.
#[verifier::external_body]
fn fe_check(bytes: &Vec<u8>) -> (r: bool)
    requires
        bytes@.len() == 32,
    ensures
        r == fe_canonical(bytes@),
{
    p256k1::FieldElement::from_slice(&bytes[..]).is_some()
}

/// Relies on eccoxide `PointAffine::from_coordinate`: it accepts
/// exactly the coordinate pairs that satisfy the curve equation
/// `y^2 = x^3 + 7` over the base field.
#[verifier::external_body]
fn xy_check(x: &Vec<u8>, y: &Vec<u8>) -> (r: bool)
    requires
        x@.len() == 32,
        y@.len() == 32,
        fe_canonical(x@),
        fe_canonical(y@),
    ensures
        r == xy_on_curve(x@, y@),
{
    let xe = p256k1::FieldElement::from_slice(&x[..]).unwrap();
    let ye = p256k1::FieldElement::from_slice(&y[..]).unwrap();
    p256k1::PointAffine::from_coordinate(&xe, &ye).is_some()
}

impl Coordinate {
    /// The canonical encoding the coordinate is held as.
    pub closed spec fn repr(self) -> Seq<u8> {
        self.bytes@
    }

    /// Validity: the held bytes canonically encode a field element.
    pub open spec fn wf(self) -> bool {
        self.repr().len() == 32 && fe_canonical(self.repr())
    }

    /// The canonical 32-byte encoding of the coordinate.
    pub fn to_bytes(&self) -> (r: Vec<u8>)
        ensures
            r@ == self.repr(),
    {
        bytes_to_vec(self.bytes.as_slice())
    }

    /// Reads a coordinate from the first 32 bytes of the input; a
    /// shorter input or a value at or above the field prime is
    /// rejected.
    pub fn from_bytes(input: &[u8]) -> (r: Option<Coordinate>)
        ensures
            match r {
                Some(c) => {
                    &&& c.wf()
                    &&& input@.len() >= 32
                    &&& c.repr() == input@.subrange(0, 32)
                },
                None => input@.len() < 32 || !fe_canonical(input@.subrange(0, 32)),
            },
    {
        if input.len() < 32 {
            return None;
        }
        let head: &[u8] = slice_take32(input);
        let bytes = bytes_to_vec(head);
        if fe_check(&bytes) {
            Some(Coordinate { bytes })
        } else {
            None
        }
    }
}

/// The first 32 bytes of a slice.
fn slice_take32(s: &[u8]) -> (r: &[u8])
    requires
        s@.len() >= 32,
    ensures
        r@ == s@.subrange(0, 32),
{
    &s[0..32]
}

/// The first 65 bytes of a slice.
fn slice_take65(s: &[u8]) -> (r: &[u8])
    requires
        s@.len() >= 65,
    ensures
        r@ == s@.subrange(0, 65),
{
    &s[0..65]
}

/// A group element of the curve, as its canonical 65-byte encoding:
/// all zeroes for the point at infinity, `0x04 || x || y` otherwise.
#[derive(Clone, Debug)]
pub struct GroupElement {
    bytes: Vec<u8>,
}

/// Relies on eccoxide `PointAffine::decompress`: given a canonical x
/// coordinate and a sign it recovers the point with that x coordinate
/// whose y coordinate has that sign, if the x coordinate lies on the
/// curve; the encoding of the recovered point carries the same x
/// coordinate.
#[verifier::external_body]
fn decompress_exec(x: &Vec<u8>, negative: bool) -> (r: Option<Vec<u8>>)
    requires
        x@.len() == 32,
        fe_canonical(x@),
    ensures
        match r {
            Some(b) => {
                &&& decompress_bytes(x@, negative) == Some(b@)
                &&& point_encoding_valid(b@)
                &&& b@.len() == 65
                &&& b@[0] == 4
                &&& b@.subrange(1, 33) == x@
            },
            None => decompress_bytes(x@, negative) is None,
        },
{
    let xe = p256k1::FieldElement::from_slice(&x[..]).unwrap();
    let sign = if negative { eccoxide::curve::Sign::Negative } else { eccoxide::curve::Sign::Positive };
    let p = p256k1::PointAffine::decompress(&xe, sign).into_option()?;
    let (px, py) = p.to_coordinate();
    let mut out = vec![4u8];
    out.extend_from_slice(&px.to_bytes()[..]);
    out.extend_from_slice(&py.to_bytes()[..]);
    Some(out)
}

/// Relies on eccoxide point addition (`&Point + &Point`), through the
/// canonical encodings on both sides; the point at infinity is
/// decoded from and encoded to all zeroes as the additive zero.
#[verifier::external_body]
fn point_add_exec(a: &Vec<u8>, b: &Vec<u8>) -> (r: Vec<u8>)
    requires
        point_encoding_valid(a@),
        point_encoding_valid(b@),
    ensures
        r@ == point_add_bytes(a@, b@),
        point_encoding_valid(r@),
{
    let pa = decode_point(a);
    let pb = decode_point(b);
    encode_point(&(&pa + &pb))
}

/// Relies on eccoxide point subtraction (`&Point - &Point`), through
/// the canonical encodings on both sides; the point at infinity is
/// decoded from and encoded to all zeroes.
#[verifier::external_body]
fn point_sub_exec(a: &Vec<u8>, b: &Vec<u8>) -> (r: Vec<u8>)
    requires
        point_encoding_valid(a@),
        point_encoding_valid(b@),
    ensures
        r@ == point_sub_bytes(a@, b@),
        point_encoding_valid(r@),
{
    let pa = decode_point(a);
    let pb = decode_point(b);
    encode_point(&(&pa - &pb))
}

/// Relies on eccoxide scalar multiplication of the curve generator
/// (`&Point * &Scalar` on `Point::GENERATOR`), through the canonical
/// encodings on both sides.
#[verifier::external_body]
fn base_mul_exec(s: &Vec<u8>) -> (r: Vec<u8>)
    requires
        s@.len() == 32,
        scalar_canonical(s@),
    ensures
        r@ == point_base_mul_bytes(s@),
        point_encoding_valid(r@),
{
    let sc = p256k1::Scalar::from_slice(&s[..]).unwrap();
    encode_point(&(&p256k1::Point::GENERATOR * &sc))
}

/// Relies on eccoxide `Point::GENERATOR`: the curve generator, which
/// is not the point at infinity.
#[verifier::external_body]
fn generator_exec() -> (r: Vec<u8>)
    ensures
        point_encoding_valid(r@),
        r@ != zero_point_bytes(),
{
    encode_point(&p256k1::Point::GENERATOR)
}

/// Declares eccoxide's projective point type, so the helpers below
/// can pass one between them; Verus sees nothing of its inside.
#[verifier::external_type_specification]
#[verifier::external_body]
pub struct ExPoint(p256k1::Point);

/// Decodes a canonically encoded point; helper of the trusted
/// wrappers above, never called from verified code.
#[verifier::external_body]
fn decode_point(b: &Vec<u8>) -> (r: p256k1::Point) {
    if b.iter().all(|x| *x == 0) {
        return p256k1::Point::INFINITY;
    }
    let x = p256k1::FieldElement::from_slice(&b[1..33]).unwrap();
    let y = p256k1::FieldElement::from_slice(&b[33..65]).unwrap();
    p256k1::Point::from_affine(&p256k1::PointAffine::from_coordinate(&x, &y).unwrap())
}

/// Encodes a point canonically; helper of the trusted wrappers above,
/// never called from verified code.
#[verifier::external_body]
fn encode_point(p: &p256k1::Point) -> (r: Vec<u8>) {
    match p.to_affine() {
        None => vec![0u8; 65],
        Some(pa) => {
            let (x, y) = pa.to_coordinate();
            let mut out = vec![4u8];
            out.extend_from_slice(&x.to_bytes()[..]);
            out.extend_from_slice(&y.to_bytes()[..]);
            out
        },
    }
}

/// Relies on cryptoxide's Blake2b with a 33-byte output: a digest of
/// the data alone, the same on every machine.
#[verifier::external_body]
fn blake2b33(data: &Vec<u8>) -> (r: Vec<u8>)
    ensures
        r@ == blake2b33_of(data@),
        r@.len() == 33,
{
    let mut result = [0u8; 33];
    let mut hash = ContextDyn::new(33);
    hash.update_mut(&data[..]);
    hash.finalize_at(&mut result);
    result.to_vec()
}

impl GroupElement {
    /// The canonical encoding the group element is held as.
    pub closed spec fn repr(self) -> Seq<u8> {
        self.bytes@
    }

    /// Validity: the held bytes canonically encode a group element.
    pub open spec fn wf(self) -> bool {
        point_encoding_valid(self.repr())
    }

    /// The point at infinity, the additive zero of the group.
    pub fn zero() -> (r: GroupElement)
        ensures
            r.repr() == zero_point_bytes(),
            r.wf(),
    {
        let mut bytes: Vec<u8> = Vec::new();
        let mut i: usize = 0;
        while i < 65
            invariant
                i <= 65,
                bytes@.len() == i,
                forall|k: int| 0 <= k < i ==> bytes@[k] == 0u8,
            decreases 65 - i,
        {
            bytes.push(0u8);
            i = i + 1;
        }
        proof {
            assert(bytes@ =~= zero_point_bytes());
        }
        GroupElement { bytes }
    }

    /// The curve generator.
    pub fn generator() -> (r: GroupElement)
        ensures
            r.wf(),
            r.repr() != zero_point_bytes(),
    {
        GroupElement { bytes: generator_exec() }
    }

    /// The canonical 65-byte encoding of the group element.
    pub fn to_bytes(&self) -> (r: Vec<u8>)
        ensures
            r@ == self.repr(),
    {
        bytes_to_vec(self.bytes.as_slice())
    }

    /// Reads a group element back from an encoding: `0x04` followed
    /// by the coordinates of a point on the curve, read from the first
    /// 65 bytes with any tail ignored, or exactly 65 zero bytes for
    /// the point at infinity.  Anything else is rejected — including
    /// an input led by `0x04` but shorter than 65 bytes, which holds
    /// no complete point to read.
    pub fn from_bytes(bytes: &[u8]) -> (r: Option<GroupElement>)
        ensures
            match r {
                Some(g) => {
                    &&& g.wf()
                    &&& Some(g.repr()) == spec_point_decoding(bytes@)
                },
                None => spec_point_decoding(bytes@) is None,
            },
    {
        let n: usize = bytes.len();
        if n >= 1 && bytes[0] == 4 {
            if n < 65 {
                return None;
            }
            let head: &[u8] = slice_take65(bytes);
            let own = bytes_to_vec(head);
            proof {
                assert(own@[0] == 4);
                assert(zero_point_bytes()[0] == 0u8);
                assert(!(own@ =~= zero_point_bytes()));
            }
            let x = subvec(&own, 1, 33);
            let y = subvec(&own, 33, 65);
            if !fe_check(&x) {
                return None;
            }
            if !fe_check(&y) {
                return None;
            }
            if xy_check(&x, &y) {
                Some(GroupElement { bytes: own })
            } else {
                None
            }
        } else if n == 65 {
            let own = bytes_to_vec(bytes);
            if is_all_zero(&own) {
                proof {
                    assert(own@ =~= zero_point_bytes());
                }
                Some(GroupElement { bytes: own })
            } else {
                None
            }
        } else {
            None
        }
    }

    /// The point recovered from an x coordinate and a sign of y, if
    /// the x coordinate lies on the curve.
    pub fn decompress(coord: &Coordinate, sign: Sign) -> (r: Option<GroupElement>)
        requires
            coord.wf(),
        ensures
            match r {
                Some(g) => {
                    &&& g.wf()
                    &&& decompress_bytes(coord.repr(), sign.0) == Some(g.repr())
                },
                None => decompress_bytes(coord.repr(), sign.0) is None,
            },
    {
        match decompress_exec(&coord.bytes, sign.0) {
            Some(bytes) => Some(GroupElement { bytes }),
            None => None,
        }
    }

    /// Maps arbitrary bytes onto the curve: Blake2b digests of the
    /// input and a big-endian attempt counter are tried as compressed
    /// points — 32 bytes of x coordinate and a sign bit — until one
    /// decompresses.  Nearly half of all digests do, so the walk ends
    /// after a handful of attempts; should the counter ever be
    /// exhausted, the point at infinity is returned.
    pub fn from_hash(buffer: &[u8]) -> (r: GroupElement)
        ensures
            r.wf(),
    {
        let base = bytes_to_vec(buffer);
        let mut i: u32 = 0;
        while i < u32::MAX
            invariant
                true,
            decreases u32::MAX - i,
        {
            let mut data = bytes_to_vec(base.as_slice());
            crate::block::push_u32_be(&mut data, i);
            let digest = blake2b33(&data);
            let negative = digest[32] & 1 == 1;
            let x = subvec(&digest, 0, 32);
            if fe_check(&x) {
                match decompress_exec(&x, negative) {
                    Some(bytes) => {
                        return GroupElement { bytes };
                    },
                    None => {},
                }
            }
            i = i + 1;
        }
        GroupElement::zero()
    }

    /// An exact copy of the group element.
    pub fn clone_element(&self) -> (r: GroupElement)
        ensures
            r.repr() == self.repr(),
    {
        GroupElement { bytes: bytes_to_vec(self.bytes.as_slice()) }
    }

    /// The sum of two group elements.
    pub fn add(&self, other: &GroupElement) -> (r: GroupElement)
        requires
            self.wf(),
            other.wf(),
        ensures
            r.repr() == point_add_bytes(self.repr(), other.repr()),
            r.wf(),
    {
        GroupElement { bytes: point_add_exec(&self.bytes, &other.bytes) }
    }

    /// The difference of two group elements.
    pub fn sub(&self, other: &GroupElement) -> (r: GroupElement)
        requires
            self.wf(),
            other.wf(),
        ensures
            r.repr() == point_sub_bytes(self.repr(), other.repr()),
            r.wf(),
    {
        GroupElement { bytes: point_sub_exec(&self.bytes, &other.bytes) }
    }

    /// The generator multiplied by a scalar.
    pub fn base_mul(s: &Scalar) -> (r: GroupElement)
        requires
            s.wf(),
        ensures
            r.repr() == point_base_mul_bytes(s.repr()),
            r.wf(),
    {
        GroupElement { bytes: base_mul_exec(&s.to_bytes()) }
    }

    /// Brings the internal representation to its canonical form; the
    /// encoding held here already is canonical, so nothing changes.
    pub fn normalize(&mut self)
        ensures
            *final(self) == *old(self),
    {
    }

    /// The sum of a sequence of group elements, starting from the
    /// point at infinity.
    pub fn sum(items: &Vec<GroupElement>) -> (r: GroupElement)
        requires
            forall|i: int| 0 <= i < items@.len() ==> (#[trigger] items@[i]).wf(),
        ensures
            r.wf(),
            r.repr() == spec_point_sum(
                zero_point_bytes(),
                items@.map(|i: int, x: GroupElement| x.repr()),
            ),
    {
        let ghost reprs = items@.map(|i: int, x: GroupElement| x.repr());
        let mut acc = GroupElement::zero();
        let mut i: usize = 0;
        while i < items.len()
            invariant
                i <= items@.len(),
                forall|k: int| 0 <= k < items@.len() ==> (#[trigger] items@[k]).wf(),
                reprs == items@.map(|k: int, x: GroupElement| x.repr()),
                acc.wf(),
                acc.repr() == spec_point_sum(zero_point_bytes(), reprs.subrange(0, i as int)),
            decreases items@.len() - i,
        {
            acc = acc.add(&items[i]);
            proof {
                lemma_point_sum_step(zero_point_bytes(), reprs.subrange(0, i as int), reprs[i as int]);
                assert(reprs.subrange(0, i + 1) =~= reprs.subrange(0, i as int).push(
                    reprs[i as int],
                ));
            }
            i = i + 1;
        }
        proof {
            assert(reprs.subrange(0, items@.len() as int) =~= reprs);
        }
        acc
    }
}

/// Whether every byte of the vector is zero.
fn is_all_zero(v: &Vec<u8>) -> (r: bool)
    ensures
        r == forall|k: int| 0 <= k < v@.len() ==> v@[k] == 0u8,
{
    let n: usize = v.len();
    let mut i: usize = 0;
    while i < n
        invariant
            i <= n,
            n == v@.len(),
            forall|k: int| 0 <= k < i ==> v@[k] == 0u8,
        decreases n - i,
    {
        if v[i] != 0 {
            return false;
        }
        i = i + 1;
    }
    true
}

/// The bytes of `v` from `from` (inclusive) to `to` (exclusive).
fn subvec(v: &Vec<u8>, from: usize, to: usize) -> (r: Vec<u8>)
    requires
        from <= to,
        to <= v@.len(),
    ensures
        r@ == v@.subrange(from as int, to as int),
{
    let mut r: Vec<u8> = Vec::new();
    let mut i: usize = from;
    while i < to
        invariant
            from <= i <= to,
            to <= v@.len(),
            r@ == v@.subrange(from as int, i as int),
        decreases to - i,
    {
        r.push(v[i]);
        proof {
            assert(r@ =~= v@.subrange(from as int, i + 1));
        }
        i = i + 1;
    }
    r
}

/// The encoding of a left fold of point addition over a sequence of
/// encodings, seeded with `first`.
pub open spec fn spec_point_sum(first: Seq<u8>, rest: Seq<Seq<u8>>) -> Seq<u8>
    decreases rest.len(),
{
    if rest.len() == 0 {
        first
    } else {
        spec_point_sum(point_add_bytes(first, rest[0]), rest.drop_first())
    }
}

/// Folding one more encoding extends the sum on the right.
pub proof fn lemma_point_sum_step(first: Seq<u8>, rest: Seq<Seq<u8>>, last: Seq<u8>)
    ensures
        spec_point_sum(first, rest.push(last)) == point_add_bytes(
            spec_point_sum(first, rest),
            last,
        ),
    decreases rest.len(),
{
    let p = rest.push(last);
    if rest.len() == 0 {
        assert(p[0] == last);
        assert(p.drop_first() =~~= Seq::<Seq<u8>>::empty());
        assert(spec_point_sum(first, p) == spec_point_sum(
            point_add_bytes(first, last),
            Seq::<Seq<u8>>::empty(),
        ));
        assert(spec_point_sum(point_add_bytes(first, last), Seq::<Seq<u8>>::empty())
            == point_add_bytes(first, last));
        assert(spec_point_sum(first, rest) == first);
    } else {
        assert(p[0] == rest[0]);
        assert(p.drop_first() =~~= rest.drop_first().push(last));
        assert(spec_point_sum(first, p) == spec_point_sum(
            point_add_bytes(first, rest[0]),
            rest.drop_first().push(last),
        ));
        lemma_point_sum_step(point_add_bytes(first, rest[0]), rest.drop_first(), last);
    }
}

} // verus!
