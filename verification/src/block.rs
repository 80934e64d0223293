//! The block model: identifiers, chain lengths, dates, and the block
//! payload codec.
//!
//! The store treats a block as an opaque payload that exposes its own
//! identifier, its parent's identifier and a chain length, together with
//! a fixed 32-byte serialization.  Identifiers are 64-bit values; the
//! zero identifier is reserved to mean "no parent" and is used only by
//! the genesis block.

use vstd::prelude::*;

verus! {

/// A block identifier.  The zero value is reserved: it denotes "no
/// parent" and never names a stored block's own position in a chain.
#[derive(Clone, Copy, PartialEq, Eq, Structural, Hash, Debug)]
pub struct BlockId(pub u64);

impl BlockId {
    /// The reserved identifier meaning "no parent".
    pub fn zero() -> (r: BlockId)
        ensures
            r.0 == 0,
    {
        BlockId(0)
    }
}

/// Depth of a block counted from genesis: genesis has chain length 1,
/// its children 2, and so on.  Chain length 0 never occurs.
#[derive(Clone, Copy, PartialEq, Eq, Structural, Hash, Debug)]
pub struct ChainLength(pub u64);

impl ChainLength {
    /// The chain length of a direct child.
    pub fn next(&self) -> (r: ChainLength)
        requires
            self.0 < u64::MAX,
        ensures
            r.0 == self.0 + 1,
    {
        ChainLength(self.0 + 1)
    }
}

/// A block's date, as an (epoch, slot) pair.
#[derive(Clone, Copy, PartialEq, Eq, Structural, Debug)]
pub struct BlockDate(pub u32, pub u32);

impl BlockDate {
    pub fn from_epoch_slot_id(epoch: u32, slot_id: u32) -> (r: BlockDate)
        ensures
            r.0 == epoch && r.1 == slot_id,
    {
        BlockDate(epoch, slot_id)
    }
}

/// A block: the payload the store persists verbatim.  It exposes its
/// identifier, its parent's identifier and its chain length, and
/// serializes to exactly 32 bytes.
#[derive(Clone, Copy, PartialEq, Eq, Structural, Debug)]
pub struct Block {
    pub id: BlockId,
    pub parent: BlockId,
    pub date: BlockDate,
    pub chain_length: ChainLength,
}

/// The big-endian bytes of a 64-bit value, most significant first.
pub open spec fn u64_be(v: u64) -> Seq<u8> {
    seq![
        ((v >> 56) & 0xff) as u8,
        ((v >> 48) & 0xff) as u8,
        ((v >> 40) & 0xff) as u8,
        ((v >> 32) & 0xff) as u8,
        ((v >> 24) & 0xff) as u8,
        ((v >> 16) & 0xff) as u8,
        ((v >> 8) & 0xff) as u8,
        (v & 0xff) as u8,
    ]
}

/// The big-endian bytes of a 32-bit value.
pub open spec fn u32_be(v: u32) -> Seq<u8> {
    seq![
        ((v >> 24) & 0xff) as u8,
        ((v >> 16) & 0xff) as u8,
        ((v >> 8) & 0xff) as u8,
        (v & 0xff) as u8,
    ]
}

/// The 64-bit value read from 8 big-endian bytes.
pub open spec fn u64_of_be(s: Seq<u8>) -> u64 {
    (((s[0] as u64) << 56) | ((s[1] as u64) << 48) | ((s[2] as u64) << 40)
        | ((s[3] as u64) << 32) | ((s[4] as u64) << 24) | ((s[5] as u64) << 16)
        | ((s[6] as u64) << 8) | (s[7] as u64)) as u64
}

/// The 32-bit value read from 4 big-endian bytes.
pub open spec fn u32_of_be(s: Seq<u8>) -> u32 {
    (((s[0] as u32) << 24) | ((s[1] as u32) << 16) | ((s[2] as u32) << 8)
        | (s[3] as u32)) as u32
}

/// Reading back the written bytes of a 64-bit value gives the value.
pub proof fn lemma_u64_be_of(v: u64)
    ensures
        u64_of_be(u64_be(v)) == v,
{
    assert(((((v >> 56) & 0xff) as u8 as u64) << 56)
        | ((((v >> 48) & 0xff) as u8 as u64) << 48)
        | ((((v >> 40) & 0xff) as u8 as u64) << 40)
        | ((((v >> 32) & 0xff) as u8 as u64) << 32)
        | ((((v >> 24) & 0xff) as u8 as u64) << 24)
        | ((((v >> 16) & 0xff) as u8 as u64) << 16)
        | ((((v >> 8) & 0xff) as u8 as u64) << 8)
        | ((v & 0xff) as u8 as u64) == v) by (bit_vector);
}

/// Reading back the written bytes of a 32-bit value gives the value.
pub proof fn lemma_u32_be_of(v: u32)
    ensures
        u32_of_be(u32_be(v)) == v,
{
    assert(((((v >> 24) & 0xff) as u8 as u32) << 24)
        | ((((v >> 16) & 0xff) as u8 as u32) << 16)
        | ((((v >> 8) & 0xff) as u8 as u32) << 8)
        | ((v & 0xff) as u8 as u32) == v) by (bit_vector);
}

/// Appends the big-endian bytes of a 64-bit value.
fn push_u64_be(out: &mut Vec<u8>, v: u64)
    ensures
        final(out)@ == old(out)@ + u64_be(v),
{
    proof {
        assert((v >> 56) & 0xff <= 0xff && (v >> 48) & 0xff <= 0xff
            && (v >> 40) & 0xff <= 0xff && (v >> 32) & 0xff <= 0xff
            && (v >> 24) & 0xff <= 0xff && (v >> 16) & 0xff <= 0xff
            && (v >> 8) & 0xff <= 0xff && v & 0xff <= 0xff) by (bit_vector);
    }
    out.push(((v >> 56) & 0xff) as u8);
    out.push(((v >> 48) & 0xff) as u8);
    out.push(((v >> 40) & 0xff) as u8);
    out.push(((v >> 32) & 0xff) as u8);
    out.push(((v >> 24) & 0xff) as u8);
    out.push(((v >> 16) & 0xff) as u8);
    out.push(((v >> 8) & 0xff) as u8);
    out.push((v & 0xff) as u8);
    proof {
        assert(out@ =~= old(out)@ + u64_be(v));
    }
}

/// Appends the big-endian bytes of a 32-bit value.
pub(crate) fn push_u32_be(out: &mut Vec<u8>, v: u32)
    ensures
        final(out)@ == old(out)@ + u32_be(v),
{
    proof {
        assert((v >> 24) & 0xff <= 0xff && (v >> 16) & 0xff <= 0xff
            && (v >> 8) & 0xff <= 0xff && v & 0xff <= 0xff) by (bit_vector);
    }
    out.push(((v >> 24) & 0xff) as u8);
    out.push(((v >> 16) & 0xff) as u8);
    out.push(((v >> 8) & 0xff) as u8);
    out.push((v & 0xff) as u8);
    proof {
        assert(out@ =~= old(out)@ + u32_be(v));
    }
}

/// Reads a 64-bit value from 8 big-endian bytes starting at `at`.
fn read_u64_be(s: &Vec<u8>, at: usize) -> (r: u64)
    requires
        at + 8 <= s@.len(),
    ensures
        r == u64_of_be(s@.subrange(at as int, at + 8)),
{
    let _len: usize = s.len();
    let r: u64 = ((s[at] as u64) << 56) | ((s[at + 1] as u64) << 48)
        | ((s[at + 2] as u64) << 40) | ((s[at + 3] as u64) << 32)
        | ((s[at + 4] as u64) << 24) | ((s[at + 5] as u64) << 16)
        | ((s[at + 6] as u64) << 8) | (s[at + 7] as u64);
    proof {
        let sub = s@.subrange(at as int, at + 8);
        assert(sub[0] == s@[at as int] && sub[1] == s@[at + 1] && sub[2] == s@[at + 2]
            && sub[3] == s@[at + 3] && sub[4] == s@[at + 4] && sub[5] == s@[at + 5]
            && sub[6] == s@[at + 6] && sub[7] == s@[at + 7]);
    }
    r
}

/// Reads a 32-bit value from 4 big-endian bytes starting at `at`.
fn read_u32_be(s: &Vec<u8>, at: usize) -> (r: u32)
    requires
        at + 4 <= s@.len(),
    ensures
        r == u32_of_be(s@.subrange(at as int, at + 4)),
{
    let _len: usize = s.len();
    let r: u32 = ((s[at] as u32) << 24) | ((s[at + 1] as u32) << 16)
        | ((s[at + 2] as u32) << 8) | (s[at + 3] as u32);
    proof {
        let sub = s@.subrange(at as int, at + 4);
        assert(sub[0] == s@[at as int] && sub[1] == s@[at + 1] && sub[2] == s@[at + 2]
            && sub[3] == s@[at + 3]);
    }
    r
}

/// The serialized form of a block: its identifier, parent identifier,
/// date and chain length, each in big-endian order, 32 bytes in all.
pub open spec fn spec_serialize(b: Block) -> Seq<u8> {
    u64_be(b.id.0) + u64_be(b.parent.0) + u32_be(b.date.0) + u32_be(b.date.1)
        + u64_be(b.chain_length.0)
}

/// The block read back from a 32-byte payload; any other length is
/// rejected.
pub open spec fn spec_deserialize(s: Seq<u8>) -> Option<Block> {
    if s.len() == 32 {
        Some(Block {
            id: BlockId(u64_of_be(s.subrange(0, 8))),
            parent: BlockId(u64_of_be(s.subrange(8, 16))),
            date: BlockDate(u32_of_be(s.subrange(16, 20)), u32_of_be(s.subrange(20, 24))),
            chain_length: ChainLength(u64_of_be(s.subrange(24, 32))),
        })
    } else {
        None
    }
}

/// Deserialization undoes serialization: the codec loses nothing.
pub proof fn lemma_codec_round_trip(b: Block)
    ensures
        spec_deserialize(spec_serialize(b)) == Some(b),
{
    let s = spec_serialize(b);
    assert(s.len() == 32);
    assert(s.subrange(0, 8) =~= u64_be(b.id.0));
    assert(s.subrange(8, 16) =~= u64_be(b.parent.0));
    assert(s.subrange(16, 20) =~= u32_be(b.date.0));
    assert(s.subrange(20, 24) =~= u32_be(b.date.1));
    assert(s.subrange(24, 32) =~= u64_be(b.chain_length.0));
    lemma_u64_be_of(b.id.0);
    lemma_u64_be_of(b.parent.0);
    lemma_u32_be_of(b.date.0);
    lemma_u32_be_of(b.date.1);
    lemma_u64_be_of(b.chain_length.0);
}

impl Block {
    /// The block's own identifier.
    pub fn id(&self) -> (r: BlockId)
        ensures
            r == self.id,
    {
        self.id
    }

    /// The identifier of the block's parent; zero for genesis.
    pub fn parent_id(&self) -> (r: BlockId)
        ensures
            r == self.parent,
    {
        self.parent
    }

    /// The block's date.
    pub fn date(&self) -> (r: BlockDate)
        ensures
            r == self.date,
    {
        self.date
    }

    /// The chain length the block claims for itself.
    pub fn chain_length(&self) -> (r: ChainLength)
        ensures
            r == self.chain_length,
    {
        self.chain_length
    }

    /// A genesis block: no parent, chain length 1, epoch and slot 0.
    /// The identifier is supplied by the caller.
    pub fn genesis(id: BlockId) -> (r: Block)
        ensures
            r.id == id && r.parent.0 == 0 && r.chain_length.0 == 1,
            r.date == BlockDate(0, 0),
    {
        Block {
            id,
            parent: BlockId::zero(),
            date: BlockDate::from_epoch_slot_id(0, 0),
            chain_length: ChainLength(1),
        }
    }

    /// A direct child of this block, one slot later, with the supplied
    /// identifier.
    pub fn make_child(&self, id: BlockId) -> (r: Block)
        requires
            self.chain_length.0 < u64::MAX,
            self.date.1 < u32::MAX,
        ensures
            r.id == id && r.parent == self.id,
            r.chain_length.0 == self.chain_length.0 + 1,
            r.date == BlockDate(self.date.0, (self.date.1 + 1) as u32),
    {
        Block {
            id,
            parent: self.id,
            date: BlockDate(self.date.0, self.date.1 + 1),
            chain_length: self.chain_length.next(),
        }
    }

    /// The 32-byte serialized payload of the block.
    pub fn serialize_as_vec(&self) -> (r: Vec<u8>)
        ensures
            r@ == spec_serialize(*self),
            r@.len() == 32,
    {
        let mut out: Vec<u8> = Vec::new();
        push_u64_be(&mut out, self.id.0);
        push_u64_be(&mut out, self.parent.0);
        push_u32_be(&mut out, self.date.0);
        push_u32_be(&mut out, self.date.1);
        push_u64_be(&mut out, self.chain_length.0);
        proof {
            assert(out@ =~= spec_serialize(*self));
        }
        out
    }

    /// Reads a block back from its serialized payload.
    pub fn deserialize(bytes: &Vec<u8>) -> (r: Option<Block>)
        ensures
            r == spec_deserialize(bytes@),
    {
        if bytes.len() != 32 {
            return None;
        }
        let id = BlockId(read_u64_be(bytes, 0));
        let parent = BlockId(read_u64_be(bytes, 8));
        let epoch = read_u32_be(bytes, 16);
        let slot = read_u32_be(bytes, 20);
        let chain_length = ChainLength(read_u64_be(bytes, 24));
        Some(Block { id, parent, date: BlockDate(epoch, slot), chain_length })
    }
}

} // verus!
