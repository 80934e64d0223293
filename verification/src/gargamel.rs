//! Key pairs over the curve group: a secret key is a scalar, a public
//! key the matching group element.

use vstd::prelude::*;
use crate::gang::GroupElement;
use crate::gang::Scalar;
use crate::gang::scalar_canonical;
use crate::gang::spec_point_decoding;

verus! {

/// A secret key: a scalar of the group order.
#[derive(Clone, Debug)]
pub struct SecretKey {
    pub sk: Scalar,
}

/// A public key: a group element.
#[derive(Clone, Debug)]
pub struct PublicKey {
    pub pk: GroupElement,
}

impl SecretKey {
    /// Validity: the held scalar is canonical.
    pub open spec fn wf(self) -> bool {
        self.sk.wf()
    }

    /// Reads a secret key back from the canonical encoding of its
    /// scalar.
    pub fn from_bytes(bytes: &[u8]) -> (r: Option<SecretKey>)
        ensures
            match r {
                Some(k) => {
                    &&& k.wf()
                    &&& k.sk.repr() == bytes@
                },
                None => bytes@.len() != 32 || !scalar_canonical(bytes@),
            },
    {
        match Scalar::from_bytes(bytes) {
            Some(sk) => Some(SecretKey { sk }),
            None => None,
        }
    }
}

impl PublicKey {
    /// Validity: the held group element is canonically encoded.
    pub open spec fn wf(self) -> bool {
        self.pk.wf()
    }

    /// The canonical 65-byte encoding of the public key.
    pub fn to_bytes(&self) -> (r: Vec<u8>)
        ensures
            r@ == self.pk.repr(),
    {
        self.pk.to_bytes()
    }

    /// Reads a public key back from the encoding of its group
    /// element, read from the first 65 bytes of the input.
    pub fn from_bytes(bytes: &[u8]) -> (r: Option<PublicKey>)
        ensures
            match r {
                Some(k) => {
                    &&& k.wf()
                    &&& Some(k.pk.repr()) == spec_point_decoding(bytes@)
                },
                None => spec_point_decoding(bytes@) is None,
            },
    {
        match GroupElement::from_bytes(bytes) {
            Some(pk) => Some(PublicKey { pk }),
            None => None,
        }
    }
}

} // verus!
