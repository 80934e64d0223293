//! Range iteration: the ordered sequence of index records between two
//! related blocks.
//!
//! `iterate_range(store, from, to)` hands back an iterator over the
//! half-open path `(from, to]`: all blocks strictly after `from` up to
//! and including `to`, by strictly increasing chain length, each one
//! the direct parent of the next.  The iterator keeps a stack of
//! records it already knows; each step either pops the record at the
//! next position or seeks it from the nearest known ancestor, pushing
//! every record that seek visits so later steps reuse the work.

use vstd::prelude::*;
use crate::block::BlockId;
use crate::chain::InfoModel;
use crate::chain::anc;
use crate::chain::lemma_anc_add;
use crate::chain::row_ok;
use crate::index::BlockInfo;
use crate::store::BlockStore;
use crate::store::Error;
use crate::store::for_path_to_nth_ancestor;
use crate::store::visited_ok;

verus! {

/// A single-pass, finite iterator over the records of the path
/// `(from, to]`, oldest first.  It is driven by repeated calls of
/// [`BlockIterator::next`] with the store it was created from, and
/// cannot be restarted.
pub struct BlockIterator {
    to_chain_length: u64,
    cur_chain_length: u64,
    pending_infos: Vec<BlockInfo>,
    to_hash: Ghost<u64>,
}

impl BlockIterator {
    /// The chain length of the end of the range.
    pub closed spec fn spec_to_chain_length(self) -> u64 {
        self.to_chain_length
    }

    /// The chain length of the last record already yielded; the next
    /// yield is one deeper.
    pub closed spec fn spec_cur_chain_length(self) -> u64 {
        self.cur_chain_length
    }

    /// The identifier of the end of the range.
    pub closed spec fn spec_to_hash(self) -> u64 {
        self.to_hash@
    }

    /// Validity of the iterator against the index it was created
    /// from: the end of the range is stored at the recorded chain
    /// length, and every pending record is the true ancestor of the
    /// end at its own depth, faithfully read, strictly deeper than
    /// the cursor, with depths strictly decreasing from the bottom of
    /// the stack (the end itself, while the iteration is unfinished)
    /// to the top.
    pub closed spec fn wf_for(self, infos: Map<u64, InfoModel>) -> bool {
        let to = self.to_hash@;
        &&& infos.dom().contains(to)
        &&& infos[to].chain_length == self.to_chain_length
        &&& self.cur_chain_length <= self.to_chain_length
        &&& forall|i: int|
            0 <= i < self.pending_infos@.len() ==> {
                let v = #[trigger] self.pending_infos@[i];
                &&& v.wf()
                &&& infos.dom().contains(v.block_hash.0)
                &&& v.model() == infos[v.block_hash.0]
                &&& self.cur_chain_length < v.chain_length
                &&& v.chain_length <= self.to_chain_length
                &&& v.block_hash.0 == anc(
                    infos,
                    to,
                    (self.to_chain_length - v.chain_length) as nat,
                )
            }
        &&& forall|i: int, j: int|
            #![trigger self.pending_infos@[i], self.pending_infos@[j]]
            0 <= i < j < self.pending_infos@.len()
                ==> self.pending_infos@[i].chain_length > self.pending_infos@[j].chain_length
        &&& (self.cur_chain_length < self.to_chain_length ==> self.pending_infos@.len() > 0
            && self.pending_infos@[0].chain_length == self.to_chain_length)
    }

    /// How many records are still to come.
    pub open spec fn spec_remaining(self) -> int {
        self.spec_to_chain_length() - self.spec_cur_chain_length()
    }

    /// The next record of the path, oldest first: the ancestor of the
    /// end of the range at depth `remaining - 1`, whose chain length
    /// is one past the cursor.  `None` once the end has been yielded.
    /// A backend fault surfaces as `Some(Err(..))` and leaves the
    /// iterator unchanged, so the call can be retried.
    pub fn next(&mut self, store: &BlockStore) -> (r: Option<Result<BlockInfo, Error>>)
        requires
            store.wf(),
            old(self).wf_for(store.infos()),
        ensures
            final(self).wf_for(store.infos()),
            final(self).spec_to_hash() == old(self).spec_to_hash(),
            final(self).spec_to_chain_length() == old(self).spec_to_chain_length(),
            match r {
                None => {
                    &&& old(self).spec_remaining() == 0
                    &&& *final(self) == *old(self)
                },
                Some(Ok(info)) => {
                    &&& old(self).spec_remaining() > 0
                    &&& final(self).spec_cur_chain_length() == old(self).spec_cur_chain_length()
                        + 1
                    &&& info.wf()
                    &&& info.chain_length == old(self).spec_cur_chain_length() + 1
                    &&& info.block_hash.0 == anc(
                        store.infos(),
                        old(self).spec_to_hash(),
                        (old(self).spec_remaining() - 1) as nat,
                    )
                    &&& store.infos().dom().contains(info.block_hash.0)
                    &&& info.model() == store.infos()[info.block_hash.0]
                },
                Some(Err(Error::BackendError(_))) => old(self).spec_remaining() > 0
                    && *final(self) == *old(self),
                Some(Err(_)) => false,
            },
    {
        if self.cur_chain_length >= self.to_chain_length {
            return None;
        }
        let n = self.pending_infos.len();
        let top_len: u64 = self.pending_infos[n - 1].chain_length;
        if top_len == self.cur_chain_length + 1 {
            // We have seen this record on a previous ancestor
            // traversal: it is the next one of the path.
            let info = self.pending_infos.pop().unwrap();
            self.cur_chain_length = self.cur_chain_length + 1;
            Some(Ok(info))
        } else {
            // The next record is not at hand yet: seek back from the
            // shallowest record we do have, keeping what the seek
            // visits.
            let ghost infos = store.infos();
            let ghost to = self.to_hash@;
            let top = &self.pending_infos[n - 1];
            let ghost top_hash = top.block_hash.0;
            proof {
                assert(row_ok(infos, top_hash));
            }
            let parent = top.parent_id();
            let distance: u64 = top_len - self.cur_chain_length - 2;
            proof {
                let jt = (self.to_chain_length - top_len) as nat;
                lemma_anc_add(infos, to, jt, 1);
                assert(anc(infos, top_hash, 1) == anc(infos, infos[top_hash].parent, 0));
                assert(parent.0 == anc(infos, to, (jt + 1) as nat));
            }
            let (info, mut visited) = match for_path_to_nth_ancestor(store, &parent, distance) {
                Ok(pair) => pair,
                Err(e) => {
                    return Some(Err(e));
                },
            };
            proof {
                let jp = (self.to_chain_length - top_len + 1) as nat;
                lemma_anc_add(infos, to, jp, distance as nat);
                assert forall|i: int| 0 <= i < visited@.len() implies {
                    let v = #[trigger] visited@[i];
                    v.block_hash.0 == anc(infos, to, (self.to_chain_length - v.chain_length) as nat)
                } by {
                    let v = visited@[i];
                    lemma_anc_add(infos, to, jp, (infos[parent.0].chain_length
                        - v.chain_length) as nat);
                }
            }
            self.pending_infos.append(&mut visited);
            self.cur_chain_length = self.cur_chain_length + 1;
            Some(Ok(info))
        }
    }
}

/// Returns an iterator that yields the index records of the blocks of
/// `store` in the half-open range `(from, to]`.  `from` must be an
/// ancestor of `to` and may be the zero hash; otherwise the request
/// fails with `CannotIterate`, and with `BlockNotFound` when either
/// end is unknown to the store.
pub fn iterate_range(store: &BlockStore, from: &BlockId, to: &BlockId) -> (r: Result<
    BlockIterator,
    Error,
>)
    requires
        store.wf(),
    ensures
        match r {
            Ok(it) => {
                &&& it.wf_for(store.infos())
                &&& it.spec_to_hash() == to.0
                &&& store.infos().dom().contains(to.0)
                &&& it.spec_to_chain_length() == store.infos()[to.0].chain_length
                &&& anc(store.infos(), to.0, it.spec_remaining() as nat) == from.0
                &&& (from.0 == to.0 ==> it.spec_remaining() == 0)
                &&& (from.0 != to.0 && from.0 == 0 ==> it.spec_remaining()
                    == store.infos()[to.0].chain_length)
                &&& (from.0 != to.0 && from.0 != 0 ==> store.infos().dom().contains(from.0)
                    && store.infos()[from.0].chain_length + it.spec_remaining()
                    == store.infos()[to.0].chain_length)
            },
            Err(Error::CannotIterate) => {
                &&& from.0 != to.0 && from.0 != 0
                &&& store.infos().dom().contains(from.0)
                &&& store.infos().dom().contains(to.0)
                &&& {
                    ||| store.infos()[to.0].chain_length <= store.infos()[from.0].chain_length
                    ||| anc(
                        store.infos(),
                        to.0,
                        (store.infos()[to.0].chain_length
                            - store.infos()[from.0].chain_length) as nat,
                    ) != from.0
                }
            },
            Err(Error::BlockNotFound) => !store.infos().dom().contains(to.0) || (from.0 != to.0
                && from.0 != 0 && !store.infos().dom().contains(from.0)),
            Err(Error::BackendError(_)) => true,
            Err(_) => false,
        },
{
    let distance = match store.is_ancestor(from, to)? {
        None => {
            return Err(Error::CannotIterate);
        },
        Some(distance) => distance,
    };
    let to_info = store.get_block_info(to)?;
    let to_chain_length = to_info.chain_length;
    let mut pending_infos: Vec<BlockInfo> = Vec::new();
    if distance > 0 {
        pending_infos.push(to_info);
    }
    Ok(BlockIterator {
        to_chain_length,
        cur_chain_length: to_chain_length - distance,
        pending_infos,
        to_hash: Ghost(to.0),
    })
}

} // verus!
