//! BFT leader selection: a round robin over the ledger's expected
//! leaders.
//!
//! A leader identifier is the bytes of the leader's public key; the
//! ledger is represented by the part this selection reads, the list of
//! BFT leaders in its settings.

use vstd::prelude::*;
use crate::block::BlockDate;

verus! {

/// Identifier of a BFT leader: the bytes of its public key.
#[derive(Clone, PartialEq, Eq, Hash, Debug)]
pub struct BftLeaderId(pub Vec<u8>);

impl BftLeaderId {
    /// An exact copy of the identifier.
    pub fn duplicate(&self) -> (r: BftLeaderId)
        ensures
            r.0@ == self.0@,
    {
        BftLeaderId(copy_bytes(&self.0))
    }
}

/// A position in the round robin of leaders.
#[derive(Debug, Clone, Copy, PartialEq, Eq, Structural)]
pub struct BftRoundRobinIndex(u64);

/// The part of the ledger's settings that leader selection reads: the
/// expected BFT leaders, in rotation order.
#[derive(Clone, Debug)]
pub struct Settings {
    pub bft_leaders: Vec<BftLeaderId>,
}

/// The part of the ledger that leader selection reads.
#[derive(Clone, Debug)]
pub struct Ledger {
    pub settings: Settings,
}

/// The proof a BFT block header carries: the identifier of the leader
/// that signed it.
#[derive(Clone, Debug)]
pub struct BftProof {
    pub leader_id: BftLeaderId,
}

/// The proof part of a block header.
#[derive(Clone, Debug)]
pub enum Proof {
    Absent,
    Bft(BftProof),
    GenesisPraos,
}

/// The part of a block header that leader verification reads: its
/// proof and its date.
#[derive(Clone, Debug)]
pub struct Header {
    pub leader_proof: Proof,
    pub date: BlockDate,
}

impl Header {
    /// The proof the header carries.
    pub fn leader_proof(&self) -> (r: &Proof)
        ensures
            *r == self.leader_proof,
    {
        &self.leader_proof
    }

    /// The date the header carries.
    pub fn block_date(&self) -> (r: BlockDate)
        ensures
            r == self.date,
    {
        self.date
    }
}

/// What can be wrong with a block's claimed leadership.
#[derive(Clone, Copy, PartialEq, Eq, Structural, Debug)]
pub enum ErrorKind {
    InvalidLeader,
    InvalidLeaderSignature,
}

/// A leadership verification failure, by kind.
#[derive(Clone, Copy, PartialEq, Eq, Structural, Debug)]
pub struct Error {
    pub kind: ErrorKind,
}

impl Error {
    pub fn new(kind: ErrorKind) -> (r: Error)
        ensures
            r.kind == kind,
    {
        Error { kind }
    }
}

/// The outcome of verifying a block header's leadership.
#[derive(Clone, Copy, PartialEq, Eq, Structural, Debug)]
pub enum Verification {
    Success,
    Failure(Error),
}

/// The BFT leader selection is based on a round robin of the expected
/// leaders.
#[derive(Debug)]
pub struct LeadershipData {
    pub(crate) leaders: Vec<BftLeaderId>,
}

/// Copies a byte vector.
fn copy_bytes(v: &Vec<u8>) -> (r: Vec<u8>)
    ensures
        r@ == v@,
{
    let n: usize = v.len();
    let mut r: Vec<u8> = Vec::new();
    let mut i: usize = 0;
    while i < n
        invariant
            i <= n,
            n == v@.len(),
            r@ == v@.subrange(0, i as int),
        decreases n - i,
    {
        r.push(v[i]);
        proof {
            assert(r@ =~= v@.subrange(0, i + 1));
        }
        i = i + 1;
    }
    proof {
        assert(r@ =~= v@);
    }
    r
}

/// Whether two byte vectors hold the same bytes.
fn bytes_eq(a: &Vec<u8>, b: &Vec<u8>) -> (r: bool)
    ensures
        r == (a@ == b@),
{
    let n: usize = a.len();
    if n != b.len() {
        proof {
            assert(a@ != b@);
        }
        return false;
    }
    let mut i: usize = 0;
    while i < n
        invariant
            i <= n,
            n == a@.len(),
            n == b@.len(),
            forall|k: int| 0 <= k < i ==> a@[k] == b@[k],
        decreases n - i,
    {
        if a[i] != b[i] {
            proof {
                assert(a@[i as int] != b@[i as int]);
            }
            return false;
        }
        i = i + 1;
    }
    proof {
        assert(a@ =~= b@);
    }
    true
}

impl LeadershipData {
    /// The leaders taking part, in rotation order.
    pub closed spec fn spec_leader_vec(self) -> Seq<BftLeaderId> {
        self.leaders@
    }

    /// Validity: the rotation is never empty.
    pub open spec fn wf(self) -> bool {
        self.spec_leaders().len() > 0
    }

    /// The leader identifiers, as byte sequences, in rotation order.
    pub open spec fn spec_leaders(self) -> Seq<Seq<u8>> {
        self.spec_leader_vec().map(|i: int, l: BftLeaderId| l.0@)
    }

    /// The leader expected at a slot: the round robin position is the
    /// slot number modulo the number of leaders.
    pub open spec fn spec_leader_at(self, slot_id: u32) -> Seq<u8> {
        self.spec_leaders()[(slot_id as int) % (self.spec_leaders().len() as int)]
    }

    /// Create a new BFT leadership from the ledger's settings; a
    /// ledger with no BFT leaders has none.
    pub fn new(ledger: &Ledger) -> (r: Option<LeadershipData>)
        ensures
            match r {
                Some(d) => {
                    &&& ledger.settings.bft_leaders@.len() > 0
                    &&& d.wf()
                    &&& d.spec_leaders() == ledger.settings.bft_leaders@.map(
                        |i: int, l: BftLeaderId| l.0@,
                    )
                },
                None => ledger.settings.bft_leaders@.len() == 0,
            },
    {
        if ledger.settings.bft_leaders.len() == 0 {
            return None;
        }
        let src = &ledger.settings.bft_leaders;
        let n: usize = src.len();
        let mut leaders: Vec<BftLeaderId> = Vec::new();
        let mut i: usize = 0;
        while i < n
            invariant
                i <= n,
                n == src@.len(),
                leaders@.len() == i,
                forall|k: int| 0 <= k < i ==> (#[trigger] leaders@[k]).0@ == src@[k].0@,
            decreases n - i,
        {
            leaders.push(src[i].duplicate());
            i = i + 1;
        }
        let d = LeadershipData { leaders };
        proof {
            assert(d.spec_leaders() =~= ledger.settings.bft_leaders@.map(
                |i: int, l: BftLeaderId| l.0@,
            ));
        }
        Some(d)
    }

    /// How many leaders take part in the rotation.
    pub fn number_of_leaders(&self) -> (r: usize)
        ensures
            r == self.spec_leaders().len(),
    {
        self.leaders.len()
    }

    /// The leaders taking part in the rotation.
    pub fn leaders(&self) -> (r: &[BftLeaderId])
        ensures
            r@ == self.spec_leader_vec(),
    {
        self.leaders.as_slice()
    }

    /// The round robin position for a block number.
    fn offset(&self, block_number: u64) -> (r: BftRoundRobinIndex)
        requires
            self.wf(),
        ensures
            r.0 == block_number as int % self.spec_leaders().len() as int,
            r.0 < self.spec_leaders().len(),
    {
        let max = self.number_of_leaders() as u64;
        BftRoundRobinIndex(block_number % max)
    }

    /// Verifies that a header was produced by the leader the round
    /// robin expects at the header's date: a BFT proof naming any
    /// other leader is an invalid leader, and any other kind of proof
    /// an invalid leader signature.
    pub fn verify(&self, block_header: &Header) -> (r: Verification)
        requires
            self.wf(),
        ensures
            match block_header.leader_proof {
                Proof::Bft(ref p) => {
                    &&& p.leader_id.0@ == self.spec_leader_at(block_header.date.1)
                        ==> r == Verification::Success
                    &&& p.leader_id.0@ != self.spec_leader_at(block_header.date.1)
                        ==> r == Verification::Failure(Error { kind: ErrorKind::InvalidLeader })
                },
                _ => r == Verification::Failure(
                    Error { kind: ErrorKind::InvalidLeaderSignature },
                ),
            },
    {
        match block_header.leader_proof() {
            Proof::Bft(bft_proof) => {
                let expected = self.get_leader_at(block_header.block_date());
                if !bytes_eq(&bft_proof.leader_id.0, &expected.0) {
                    Verification::Failure(Error::new(ErrorKind::InvalidLeader))
                } else {
                    Verification::Success
                }
            },
            _ => Verification::Failure(Error::new(ErrorKind::InvalidLeaderSignature)),
        }
    }

    /// The leader the round robin expects at a date: the one at the
    /// slot number's position.
    pub fn get_leader_at(&self, date: BlockDate) -> (r: BftLeaderId)
        requires
            self.wf(),
        ensures
            r.0@ == self.spec_leader_at(date.1),
    {
        let nlead: usize = self.leaders.len();
        let BftRoundRobinIndex(ofs) = self.offset(date.1 as u64);
        proof {
            assert(ofs < nlead);
            assert(self.spec_leaders()[ofs as int] == self.spec_leader_vec()[ofs as int].0@);
        }
        self.leaders[ofs as usize].duplicate()
    }
}

} // verus!
