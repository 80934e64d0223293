//! Index records: a block's position in the chain and its ancestor
//! shortcuts, and the deterministic skip-link schedule.

use vstd::prelude::*;
use crate::block::BlockId;
use crate::chain::InfoModel;

verus! {

/// A stored pointer from a block to one of its ancestors: the ancestor
/// `distance` hops back along the parent chain.
#[derive(Clone, Copy, Debug)]
pub struct BackLink {
    /// The distance to this ancestor.
    pub distance: u64,
    /// The hash of the ancestor.
    pub block_hash: BlockId,
}

/// A block's index record: its hash, its chain length, and one or two
/// back links.  The first back link always has distance 1 and names the
/// direct parent; the optional second one is the fast link, at a
/// distance of at least 2.
#[derive(Clone, Debug)]
pub struct BlockInfo {
    pub block_hash: BlockId,
    /// Length of the chain: a block whose parent is the zero hash has
    /// chain length 1, its children 2, and so on.
    pub chain_length: u64,
    /// The ancestors of this block: the parent, and possibly one
    /// further ancestor enabling efficient random access in
    /// `get_nth_ancestor`.
    pub back_links: Vec<BackLink>,
}

impl BlockInfo {
    /// Shape of a valid record: one or two back links, the first at
    /// distance 1, the second (if any) at distance 2 or more.
    pub open spec fn wf(self) -> bool {
        &&& 1 <= self.back_links@.len() <= 2
        &&& self.back_links@[0].distance == 1
        &&& self.back_links@.len() == 2 ==> self.back_links@[1].distance >= 2
    }

    /// The index row this record stands for.
    pub open spec fn model(self) -> InfoModel {
        InfoModel {
            chain_length: self.chain_length,
            parent: self.back_links@[0].block_hash.0,
            fast: if self.back_links@.len() == 2 {
                Some((self.back_links@[1].distance, self.back_links@[1].block_hash.0))
            } else {
                None
            },
        }
    }

    /// The direct parent: the back link at distance 1.
    pub open spec fn spec_parent(self) -> BlockId {
        self.back_links@[0].block_hash
    }

    /// The identifier of the block's direct parent.
    pub fn parent_id(&self) -> (r: BlockId)
        requires
            self.wf(),
        ensures
            r == self.spec_parent(),
    {
        self.back_links[0].block_hash
    }
}

/// The chain length of the fast-link target for a block of the given
/// chain length: the jump distance cycles through powers of two minus
/// one (1, 3, 7, 15, 31, ...) as the chain grows; 0 means no target is
/// in reach.
pub open spec fn spec_fast_link(chain_length: u64) -> u64 {
    let order = chain_length % 32;
    let distance = if order == 0 { 1u64 } else { ((1u64 << order) - 1) as u64 };
    if distance < chain_length {
        (chain_length - distance) as u64
    } else {
        0
    }
}

/// Compute the fast link for a block with a given chain length.
/// Successive blocks make a chain-length jump equal to different powers
/// of two, minus 1, e.g. 1, 3, 7, 15, 31, ...
pub fn compute_fast_link(chain_length: u64) -> (r: u64)
    ensures
        r == spec_fast_link(chain_length),
        r == 0 || r < chain_length,
{
    let order: u64 = chain_length % 32;
    proof {
        let o = order;
        assert(o < 32 ==> 1u64 << o >= 1u64) by (bit_vector);
        assert(1 <= o && o < 32 ==> 1u64 << o >= 2u64) by (bit_vector);
    }
    let distance: u64 = if order == 0 { 1 } else { (1u64 << order) - 1 };
    if distance < chain_length {
        chain_length - distance
    } else {
        0
    }
}

} // verus!
