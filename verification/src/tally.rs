//! The encrypted-vote-tally certificate: the request to tally a vote
//! plan whose ballots were cast encrypted.
//!
//! The vote-plan identifier, the committee identifier and the binding
//! signature are digests and key material produced elsewhere; here
//! each is held as its plain bytes.

use vstd::prelude::*;

verus! {

/// Identifier of a vote plan: the bytes of its digest.
#[derive(Clone, PartialEq, Eq, Debug)]
pub struct VotePlanId(pub Vec<u8>);

/// Identifier of a committee: the bytes of its public identifier.
#[derive(Clone, PartialEq, Eq, Debug)]
pub struct CommitteeId(pub Vec<u8>);

/// A single-account binding signature, as its bytes.
#[derive(Clone, PartialEq, Eq, Debug)]
pub struct SingleAccountBindingSignature(pub Vec<u8>);

/// How the ballots of a vote plan are tallied.
#[derive(Clone, Copy, PartialEq, Eq, Structural, Debug)]
pub enum PayloadType {
    /// Ballots are cast and counted in the clear.
    Public,
    /// Ballots are cast encrypted and tallied by the committee.
    Private,
}

/// The tally payload a certificate carries, determining the payload
/// type.
#[derive(Clone, Copy, PartialEq, Eq, Structural, Debug)]
pub enum VoteTallyPayload {
    Public,
    Private,
}

impl PayloadType {
    /// The wire tag of the payload type: 1 for public ballots, 2 for
    /// private ones.
    pub open spec fn spec_tag(self) -> u8 {
        match self {
            PayloadType::Public => 1u8,
            PayloadType::Private => 2u8,
        }
    }

    /// The wire tag, as written into a serialized certificate.
    pub fn tag(&self) -> (r: u8)
        ensures
            r == self.spec_tag(),
    {
        match self {
            PayloadType::Public => 1,
            PayloadType::Private => 2,
        }
    }
}

impl VoteTallyPayload {
    /// The payload type this payload tallies under.
    pub fn payload_type(&self) -> (r: PayloadType)
        ensures
            r == self.spec_payload_type(),
    {
        match self {
            VoteTallyPayload::Public => PayloadType::Public,
            VoteTallyPayload::Private => PayloadType::Private,
        }
    }

    /// The payload type, at the specification level.
    pub open spec fn spec_payload_type(self) -> PayloadType {
        match self {
            VoteTallyPayload::Public => PayloadType::Public,
            VoteTallyPayload::Private => PayloadType::Private,
        }
    }
}

/// Appends the bytes of `src` to `out`.
fn push_all(out: &mut Vec<u8>, src: &Vec<u8>)
    ensures
        final(out)@ == old(out)@ + src@,
{
    let n: usize = src.len();
    let mut i: usize = 0;
    while i < n
        invariant
            i <= n,
            n == src@.len(),
            out@ == old(out)@ + src@.subrange(0, i as int),
        decreases n - i,
    {
        out.push(src[i]);
        proof {
            assert(out@ =~= old(out)@ + src@.subrange(0, i + 1));
        }
        i = i + 1;
    }
    proof {
        assert(out@ =~= old(out)@ + src@);
    }
}

/// The serialized form of a tally certificate: the vote-plan
/// identifier's bytes followed by the payload-type tag.
pub open spec fn spec_serialize_tally(t: EncryptedVoteTally) -> Seq<u8> {
    t.spec_id().push(t.spec_payload().spec_payload_type().spec_tag())
}

/// The serialized form of a tally proof: a leading zero tag, then the
/// committee identifier's bytes, then the signature's bytes.
pub open spec fn spec_serialize_proof(p: EncryptedVoteTallyProof) -> Seq<u8> {
    seq![0u8] + p.id.0@ + p.signature.0@
}

/// The proof that a committee member authorized an encrypted-vote
/// tally: the member's committee identifier and a binding signature.
#[derive(Clone, Debug)]
pub struct EncryptedVoteTallyProof {
    pub id: CommitteeId,
    pub signature: SingleAccountBindingSignature,
}

/// An encrypted-vote-tally certificate: the vote plan it tallies and
/// the payload it carries.
#[derive(Clone, Debug)]
pub struct EncryptedVoteTally {
    id: VotePlanId,
    payload: VoteTallyPayload,
}

impl EncryptedVoteTally {
    /// The identifier of the vote plan being tallied.
    pub closed spec fn spec_id(self) -> Seq<u8> {
        self.id.0@
    }

    /// The payload the certificate carries.
    pub closed spec fn spec_payload(self) -> VoteTallyPayload {
        self.payload
    }

    /// A tally certificate for the given vote plan, carrying the
    /// public payload.
    pub fn new_private(id: VotePlanId) -> (r: EncryptedVoteTally)
        ensures
            r.spec_id() == id.0@,
            r.spec_payload() == VoteTallyPayload::Public,
    {
        Self { id, payload: VoteTallyPayload::Public }
    }

    /// The identifier of the vote plan being tallied.
    pub fn id(&self) -> (r: &VotePlanId)
        ensures
            r.0@ == self.spec_id(),
    {
        &self.id
    }

    /// The payload type of the tally.
    pub fn tally_type(&self) -> (r: PayloadType)
        ensures
            r == self.spec_payload().spec_payload_type(),
    {
        self.payload.payload_type()
    }

    /// The serialized certificate: the vote-plan identifier's bytes
    /// followed by the payload-type tag.
    pub fn serialize(&self) -> (r: Vec<u8>)
        ensures
            r@ == spec_serialize_tally(*self),
    {
        let mut out: Vec<u8> = Vec::new();
        push_all(&mut out, &self.id.0);
        out.push(self.payload.payload_type().tag());
        proof {
            assert(out@ =~= spec_serialize_tally(*self));
        }
        out
    }
}

impl EncryptedVoteTallyProof {
    /// The serialized proof: a leading zero tag, then the committee
    /// identifier's bytes, then the signature's bytes.
    pub fn serialize(&self) -> (r: Vec<u8>)
        ensures
            r@ == spec_serialize_proof(*self),
    {
        let mut out: Vec<u8> = Vec::new();
        out.push(0);
        push_all(&mut out, &self.id.0);
        push_all(&mut out, &self.signature.0);
        proof {
            assert(out@ =~= spec_serialize_proof(*self));
        }
        out
    }
}

} // verus!
