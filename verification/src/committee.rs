//! Committee member election keys: the byte encodings of the secret,
//! public and communication keys members exchange, and the overall
//! election public key everyone encrypts their vote to.

use vstd::prelude::*;
use crate::gang::GroupElement;
use crate::gang::Scalar;
use crate::gang::point_base_mul_bytes;
use crate::gang::scalar_canonical;
use crate::gang::spec_point_decoding;
use crate::gang::spec_point_sum;
use crate::gargamel::PublicKey;
use crate::gargamel::SecretKey;

verus! {

/// Committee member election secret key.
#[derive(Clone, Debug)]
pub struct MemberSecretKey(pub SecretKey);

/// Committee member election public key.
#[derive(Clone, Debug)]
pub struct MemberPublicKey(pub PublicKey);

/// Committee member communication secret key.
#[derive(Clone, Debug)]
pub struct MemberCommunicationKey(SecretKey);

/// Committee member communication public key (with other committee
/// members).
#[derive(Clone, Debug)]
pub struct MemberCommunicationPublicKey(PublicKey);

/// The overall committee public key used for everyone to encrypt
/// their vote to.
#[derive(Clone, Debug)]
pub struct ElectionPublicKey(pub PublicKey);

impl MemberSecretKey {
    /// Validity: the held scalar is canonical.
    pub open spec fn wf(self) -> bool {
        self.0.wf()
    }

    /// The canonical 32-byte encoding of the key's scalar.
    pub fn to_bytes(&self) -> (r: Vec<u8>)
        requires
            self.wf(),
        ensures
            r@ == self.0.sk.repr(),
    {
        self.0.sk.to_bytes()
    }

    /// Reads a member secret key back from its canonical encoding.
    pub fn from_bytes(bytes: &[u8]) -> (r: Option<MemberSecretKey>)
        ensures
            match r {
                Some(k) => {
                    &&& k.wf()
                    &&& k.0.sk.repr() == bytes@
                },
                None => bytes@.len() != 32 || !scalar_canonical(bytes@),
            },
    {
        match Scalar::from_bytes(bytes) {
            Some(sk) => Some(MemberSecretKey(SecretKey { sk })),
            None => None,
        }
    }
}

impl MemberPublicKey {
    /// Validity: the held group element is canonically encoded.
    pub open spec fn wf(self) -> bool {
        self.0.wf()
    }

    /// The canonical 65-byte encoding of the key's group element.
    pub fn to_bytes(&self) -> (r: Vec<u8>)
        ensures
            r@ == self.0.pk.repr(),
    {
        self.0.to_bytes()
    }

    /// Reads a member public key back from the first 65 bytes of its
    /// encoding.
    pub fn from_bytes(buf: &[u8]) -> (r: Option<MemberPublicKey>)
        ensures
            match r {
                Some(k) => {
                    &&& k.wf()
                    &&& Some(k.0.pk.repr()) == spec_point_decoding(buf@)
                },
                None => spec_point_decoding(buf@) is None,
            },
    {
        match PublicKey::from_bytes(buf) {
            Some(pk) => Some(MemberPublicKey(pk)),
            None => None,
        }
    }
}

impl MemberCommunicationKey {
    /// The encoding of the held scalar.
    pub closed spec fn spec_scalar(self) -> Seq<u8> {
        self.0.sk.repr()
    }

    /// Validity: the held scalar is canonical.
    pub closed spec fn wf(self) -> bool {
        self.0.wf()
    }

    /// The communication public key matching this secret key: the
    /// curve generator multiplied by the key's scalar.
    pub fn to_public(&self) -> (r: MemberCommunicationPublicKey)
        requires
            self.wf(),
        ensures
            r.wf(),
            r.spec_element() == point_base_mul_bytes(self.spec_scalar()),
    {
        MemberCommunicationPublicKey(PublicKey { pk: GroupElement::base_mul(&self.0.sk) })
    }

    /// Reads a communication secret key back from its canonical
    /// encoding.
    pub fn from_bytes(bytes: &[u8]) -> (r: Option<MemberCommunicationKey>)
        ensures
            match r {
                Some(k) => {
                    &&& k.wf()
                    &&& k.spec_scalar() == bytes@
                },
                None => bytes@.len() != 32 || !scalar_canonical(bytes@),
            },
    {
        match SecretKey::from_bytes(bytes) {
            Some(sk) => Some(MemberCommunicationKey(sk)),
            None => None,
        }
    }

    /// The canonical 32-byte encoding of the key's scalar: reading it
    /// back with `from_bytes` always succeeds.
    pub fn to_bytes(&self) -> (r: Vec<u8>)
        requires
            self.wf(),
        ensures
            r@ == self.spec_scalar(),
            r@.len() == 32,
            scalar_canonical(r@),
    {
        self.0.sk.to_bytes()
    }
}

impl MemberCommunicationPublicKey {
    /// The encoding of the held group element.
    pub closed spec fn spec_element(self) -> Seq<u8> {
        self.0.pk.repr()
    }

    /// Validity: the held group element is canonically encoded.
    pub closed spec fn wf(self) -> bool {
        self.0.wf()
    }

    /// Wraps a public key as a communication public key.
    pub fn from_public_key(pk: PublicKey) -> (r: MemberCommunicationPublicKey)
        ensures
            r.spec_element() == pk.pk.repr(),
    {
        MemberCommunicationPublicKey(pk)
    }

    /// The canonical 65-byte encoding of the key's group element.
    pub fn to_bytes(&self) -> (r: Vec<u8>)
        ensures
            r@ == self.spec_element(),
    {
        self.0.to_bytes()
    }
}

impl ElectionPublicKey {
    /// Validity: the held group element is canonically encoded.
    pub open spec fn wf(self) -> bool {
        self.0.wf()
    }

    /// The underlying public key.
    pub fn as_raw(&self) -> (r: &PublicKey)
        ensures
            *r == self.0,
    {
        &self.0
    }

    /// Creates an election public key from all the participants of
    /// this committee: the sum of their public keys' group elements.
    pub fn from_participants(pks: &[MemberPublicKey]) -> (r: ElectionPublicKey)
        requires
            pks@.len() >= 1,
            forall|i: int| 0 <= i < pks@.len() ==> (#[trigger] pks@[i]).wf(),
        ensures
            r.wf(),
            r.0.pk.repr() == spec_point_sum(
                pks@[0].0.pk.repr(),
                pks@.map(|i: int, k: MemberPublicKey| k.0.pk.repr()).drop_first(),
            ),
    {
        let ghost reprs = pks@.map(|i: int, k: MemberPublicKey| k.0.pk.repr());
        let mut k = pks[0].0.pk.clone_element();
        let mut i: usize = 1;
        while i < pks.len()
            invariant
                1 <= i <= pks@.len(),
                forall|j: int| 0 <= j < pks@.len() ==> (#[trigger] pks@[j]).wf(),
                reprs == pks@.map(|j: int, x: MemberPublicKey| x.0.pk.repr()),
                k.wf(),
                k.repr() == spec_point_sum(reprs[0], reprs.subrange(1, i as int)),
            decreases pks@.len() - i,
        {
            k = k.add(&pks[i].0.pk);
            proof {
                crate::gang::lemma_point_sum_step(reprs[0], reprs.subrange(1, i as int), reprs[i as int]);
                assert(reprs.subrange(1, i + 1) =~= reprs.subrange(1, i as int).push(
                    reprs[i as int],
                ));
            }
            i = i + 1;
        }
        proof {
            assert(reprs.subrange(1, pks@.len() as int) =~= reprs.drop_first());
        }
        ElectionPublicKey(PublicKey { pk: k })
    }

    /// The canonical 65-byte encoding of the key's group element.
    pub fn to_bytes(&self) -> (r: Vec<u8>)
        ensures
            r@ == self.0.pk.repr(),
    {
        self.0.to_bytes()
    }

    /// Reads an election public key back from the first 65 bytes of
    /// its encoding.
    pub fn from_bytes(buf: &[u8]) -> (r: Option<ElectionPublicKey>)
        ensures
            match r {
                Some(k) => {
                    &&& k.wf()
                    &&& Some(k.0.pk.repr()) == spec_point_decoding(buf@)
                },
                None => spec_point_decoding(buf@) is None,
            },
    {
        match PublicKey::from_bytes(buf) {
            Some(pk) => Some(ElectionPublicKey(pk)),
            None => None,
        }
    }
}

} // verus!
