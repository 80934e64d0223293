//! The store façade: opening a store, writing and reading blocks,
//! tags, and the ancestor queries built on the index.
//!
//! Every operation is specified against the three content maps of the
//! backend — index rows, payloads and tags — and each contract states,
//! for every input, which result comes back and how the maps change.
//! Backend faults (`Error::BackendError`) can accompany any operation;
//! every contract promises that the maps are then unchanged.

use vstd::prelude::*;
use crate::backend::StorePool;
use crate::block::Block;
use crate::block::BlockId;
use crate::block::spec_deserialize;
use crate::block::spec_serialize;
use crate::chain::InfoModel;
use crate::chain::MAX_CHAIN_LENGTH;
use crate::chain::anc;
use crate::chain::lemma_anc_add;
use crate::chain::lemma_wf_insert;
use crate::chain::row_ok;
use crate::chain::state_wf;
use crate::index::BackLink;
use crate::index::BlockInfo;
use crate::index::compute_fast_link;
use crate::index::spec_fast_link;

verus! {

/// What can go wrong when driving the store.
#[derive(Debug)]
pub enum Error {
    /// A lookup missed: no block with the given identifier is stored.
    BlockNotFound,
    /// A range was requested between two blocks that are not related.
    CannotIterate,
    /// The backend failed; the message describes the fault.
    BackendError(String),
    /// Reserved for future genesis-ordering validation.
    Block0InFuture,
    /// A concurrent writer committed the same identifier between the
    /// duplicate check and the transactional insert.
    BlockAlreadyPresent,
    /// The parent block is missing for the required write.
    MissingParent,
}

/// The block store: a pool of backend connections holding the block
/// payloads, the ancestry index and the tags.
pub struct BlockStore {
    db: StorePool,
}

/// The chain length `put_block` derives for a new block: 1 when the
/// parent is the zero identifier, one more than the parent's stored
/// chain length otherwise.
pub open spec fn spec_new_chain_length(infos: Map<u64, InfoModel>, b: Block) -> u64 {
    if b.parent.0 == 0 {
        1u64
    } else {
        (infos[b.parent.0].chain_length + 1) as u64
    }
}

/// The fast link `put_block` derives for a new block: when the
/// skip-link schedule names a target chain length other than the
/// parent's, the link points at the true ancestor at that distance.
pub open spec fn spec_new_fast(infos: Map<u64, InfoModel>, b: Block) -> Option<(u64, u64)> {
    let len = spec_new_chain_length(infos, b);
    let target = spec_fast_link(len);
    let d = (len - target) as u64;
    if b.parent.0 != 0 && target > 0 && d != 1 {
        Some((d, anc(infos, b.parent.0, (d - 1) as nat)))
    } else {
        None
    }
}

/// The index row `put_block` stores for a new block.
pub open spec fn spec_new_info(infos: Map<u64, InfoModel>, b: Block) -> InfoModel {
    InfoModel {
        chain_length: spec_new_chain_length(infos, b),
        parent: b.parent.0,
        fast: spec_new_fast(infos, b),
    }
}

impl BlockStore {
    /// The stored index rows, by block identifier.
    pub closed spec fn infos(self) -> Map<u64, InfoModel> {
        crate::backend::infos_of(self.db)
    }

    /// The stored payloads, by block identifier.
    pub closed spec fn blocks(self) -> Map<u64, Seq<u8>> {
        crate::backend::blocks_of(self.db)
    }

    /// The stored tags, by name.
    pub closed spec fn tags(self) -> Map<Seq<char>, u64> {
        crate::backend::tags_of(self.db)
    }

    /// Well-formedness of the store: the invariant every constructor
    /// establishes and every operation preserves.
    pub open spec fn wf(self) -> bool {
        state_wf(self.infos(), self.blocks(), self.tags())
    }

    /// An ephemeral store whose state vanishes at process end.  Each
    /// call opens its own private in-memory database — two ephemeral
    /// stores never share state — held by a single pooled connection
    /// that every operation uses, and the store starts empty.  A
    /// backend fault at construction surfaces as `BackendError`.
    pub fn memory() -> (r: Result<BlockStore, Error>)
        ensures
            match r {
                Ok(s) => {
                    &&& s.wf()
                    &&& s.infos() == Map::<u64, InfoModel>::empty()
                    &&& s.blocks() == Map::<u64, Seq<u8>>::empty()
                    &&& s.tags() == Map::<Seq<char>, u64>::empty()
                },
                Err(Error::BackendError(_)) => true,
                Err(_) => false,
            },
    {
        match StorePool::open_memory() {
            Ok(db) => {
                proof {
                    crate::chain::lemma_state_wf_empty();
                }
                Ok(BlockStore { db })
            },
            Err(msg) => Err(Error::BackendError(msg)),
        }
    }

    /// A durable store rooted at the given path, surviving process
    /// restarts.  The schema is created if absent.  A backend fault at
    /// construction surfaces as `BackendError`.
    ///
    /// The contract trusts the premise stated at [`StorePool::open`]:
    /// the named database is fresh or was written only through this
    /// library, and no other handle reaches it while this one lives.
    pub fn file(path: &str) -> (r: Result<BlockStore, Error>)
        ensures
            match r {
                Ok(s) => s.wf(),
                Err(Error::BackendError(_)) => true,
                Err(_) => false,
            },
    {
        match StorePool::open(path) {
            Ok(db) => Ok(BlockStore { db }),
            Err(msg) => Err(Error::BackendError(msg)),
        }
    }

    /// Reads a block's index record.  Returns `BlockNotFound` exactly
    /// when no block with this identifier is stored; a backend fault
    /// can surface as `BackendError`.
    pub fn get_block_info(&self, block_hash: &BlockId) -> (r: Result<BlockInfo, Error>)
        requires
            self.wf(),
        ensures
            match r {
                Ok(info) => {
                    &&& self.infos().dom().contains(block_hash.0)
                    &&& info.wf()
                    &&& info.model() == self.infos()[block_hash.0]
                    &&& info.block_hash == *block_hash
                    &&& info.chain_length == self.infos()[block_hash.0].chain_length
                },
                Err(Error::BlockNotFound) => !self.infos().dom().contains(block_hash.0),
                Err(Error::BackendError(_)) => true,
                Err(_) => false,
            },
    {
        match self.db.get_info_row(block_hash.0) {
            Ok(Some((chain_length, parent, fast))) => {
                proof {
                    assert(row_ok(self.infos(), block_hash.0));
                }
                let mut back_links: Vec<BackLink> = Vec::new();
                back_links.push(BackLink { distance: 1, block_hash: BlockId(parent) });
                match fast {
                    Some((d, fh)) => {
                        back_links.push(BackLink { distance: d, block_hash: BlockId(fh) });
                    },
                    None => {},
                }
                let info = BlockInfo { block_hash: *block_hash, chain_length, back_links };
                proof {
                    assert(info.model() == self.infos()[block_hash.0]);
                }
                Ok(info)
            },
            Ok(None) => Err(Error::BlockNotFound),
            Err(msg) => Err(Error::BackendError(msg)),
        }
    }

    /// Whether a block with this identifier is stored.
    pub fn block_exists(&self, block_hash: &BlockId) -> (r: Result<bool, Error>)
        requires
            self.wf(),
        ensures
            match r {
                Ok(b) => b == self.infos().dom().contains(block_hash.0),
                Err(Error::BackendError(_)) => true,
                Err(_) => false,
            },
    {
        match self.get_block_info(block_hash) {
            Ok(_) => Ok(true),
            Err(Error::BlockNotFound) => Ok(false),
            Err(err) => Err(err),
        }
    }

    /// Reads a block back: its payload, deserialized, and its index
    /// record.  Returns `BlockNotFound` exactly when no block with
    /// this identifier is stored.
    pub fn get_block(&self, block_hash: &BlockId) -> (r: Result<(Block, BlockInfo), Error>)
        requires
            self.wf(),
        ensures
            match r {
                Ok((b, info)) => {
                    &&& self.blocks().dom().contains(block_hash.0)
                    &&& Some(b) == spec_deserialize(self.blocks()[block_hash.0])
                    &&& b.id == *block_hash
                    &&& info.wf()
                    &&& info.model() == self.infos()[block_hash.0]
                    &&& info.block_hash == *block_hash
                },
                Err(Error::BlockNotFound) => !self.infos().dom().contains(block_hash.0),
                Err(Error::BackendError(_)) => true,
                Err(_) => false,
            },
    {
        let blob = match self.db.get_block_blob(block_hash.0) {
            Ok(Some(payload)) => payload,
            Ok(None) => {
                return Err(Error::BlockNotFound);
            },
            Err(msg) => {
                return Err(Error::BackendError(msg));
            },
        };
        proof {
            assert(crate::chain::payload_keyed(self.blocks()[block_hash.0], block_hash.0));
            assert(self.blocks()[block_hash.0].len() == 32);
        }
        let blk = Block::deserialize(&blob).unwrap();
        let info = self.get_block_info(block_hash)?;
        Ok((blk, info))
    }

    /// Writes a block to the store.  The parent of the block must
    /// already be stored, unless it is the zero hash (the genesis
    /// case).  The chain length is derived from the parent's stored
    /// record, never taken from the caller, and the index row gets a
    /// fast back link following the skip-link schedule.  Payload and
    /// index row are committed in one atomic transaction.
    ///
    /// Writing an already stored identifier succeeds without touching
    /// the store.  A concurrent writer committing the same identifier
    /// between that duplicate check and the transactional insert
    /// would surface as `BlockAlreadyPresent`; under this store's
    /// exclusive handle no such writer exists, which is why the
    /// contract rules the case out, but the code still reports the
    /// backend's answer faithfully.
    pub fn put_block(&mut self, block: &Block) -> (r: Result<(), Error>)
        requires
            old(self).wf(),
        ensures
            final(self).wf(),
            match r {
                Ok(()) => {
                    ||| {
                        &&& old(self).infos().dom().contains(block.id.0)
                        &&& *final(self) == *old(self)
                    }
                    ||| {
                        &&& !old(self).infos().dom().contains(block.id.0)
                        &&& block.parent.0 == 0 || (old(self).infos().dom().contains(block.parent.0)
                            && old(self).infos()[block.parent.0].chain_length < MAX_CHAIN_LENGTH)
                        &&& final(self).infos() == old(self).infos().insert(
                            block.id.0,
                            spec_new_info(old(self).infos(), *block),
                        )
                        &&& final(self).blocks() == old(self).blocks().insert(
                            block.id.0,
                            spec_serialize(*block),
                        )
                        &&& final(self).tags() == old(self).tags()
                    }
                },
                Err(Error::MissingParent) => {
                    &&& !old(self).infos().dom().contains(block.id.0)
                    &&& block.parent.0 != 0
                    &&& !old(self).infos().dom().contains(block.parent.0)
                    &&& *final(self) == *old(self)
                },
                Err(Error::BackendError(_)) => *final(self) == *old(self),
                Err(_) => false,
            },
    {
        let block_hash = block.id();

        match self.block_exists(&block_hash) {
            Ok(true) => {
                return Ok(());
            },
            Ok(false) => {},
            Err(e) => {
                return Err(e);
            },
        }

        let parent_hash = block.parent_id();

        // Always include a link to the parent.
        let mut back_links: Vec<BackLink> = Vec::new();
        back_links.push(BackLink { distance: 1, block_hash: parent_hash });

        let chain_length: u64;
        if parent_hash.0 == 0 {
            chain_length = 1;
        } else {
            let parent_info = match self.get_block_info(&parent_hash) {
                Ok(info) => info,
                Err(Error::BlockNotFound) => {
                    return Err(Error::MissingParent);
                },
                Err(e) => {
                    return Err(e);
                },
            };
            // A machine limit, not a rule of the data model: the
            // backend's depth column is a 64-bit signed integer, so a
            // chain one longer than its maximum cannot be stored.
            if parent_info.chain_length >= MAX_CHAIN_LENGTH {
                return Err(Error::BackendError("the chain length limit is reached".to_string()));
            }
            chain_length = 1 + parent_info.chain_length;
            let fast_link = compute_fast_link(chain_length);
            let distance = chain_length - fast_link;
            if distance != 1 && fast_link > 0 {
                let far_block_info = self.get_nth_ancestor(
                    &parent_hash,
                    chain_length - 1 - fast_link,
                )?;
                back_links.push(BackLink { distance, block_hash: far_block_info.block_hash });
            }
        }

        let fast: Option<(u64, u64)> = if back_links.len() == 2 {
            Some((back_links[1].distance, back_links[1].block_hash.0))
        } else {
            None
        };
        proof {
            assert(InfoModel { chain_length, parent: parent_hash.0, fast } == spec_new_info(
                self.infos(),
                *block,
            ));
        }

        let payload = block.serialize_as_vec();
        match self.db.put_block_row(block_hash.0, &payload, chain_length, parent_hash.0, fast) {
            Ok(true) => {
                proof {
                    lemma_put_preserves_wf(old(self).infos(), old(self).blocks(), old(self).tags(), *block);
                }
                Ok(())
            },
            Ok(false) => Err(Error::BlockAlreadyPresent),
            Err(msg) => Err(Error::BackendError(msg)),
        }
    }

    /// Seeks the ancestor of a block at a given distance: the unique
    /// block reached by following exactly `distance` parent links.
    /// The back-link structure lets the walk skip, so the number of
    /// hops is logarithmic in the distance, not linear.
    ///
    /// A distance at or beyond the block's chain length asks for an
    /// ancestor that does not exist and is reported as
    /// `BlockNotFound`, as is an unknown starting block.
    pub fn get_nth_ancestor(&self, block_hash: &BlockId, distance: u64) -> (r: Result<
        BlockInfo,
        Error,
    >)
        requires
            self.wf(),
        ensures
            match r {
                Ok(info) => {
                    &&& self.infos().dom().contains(block_hash.0)
                    &&& distance < self.infos()[block_hash.0].chain_length
                    &&& info.wf()
                    &&& info.block_hash.0 == anc(self.infos(), block_hash.0, distance as nat)
                    &&& self.infos().dom().contains(info.block_hash.0)
                    &&& info.model() == self.infos()[info.block_hash.0]
                    &&& info.chain_length == self.infos()[block_hash.0].chain_length - distance
                },
                Err(Error::BlockNotFound) => !self.infos().dom().contains(block_hash.0)
                    || distance >= self.infos()[block_hash.0].chain_length,
                Err(Error::BackendError(_)) => true,
                Err(_) => false,
            },
    {
        match for_path_to_nth_ancestor(self, block_hash, distance) {
            Ok((info, _)) => Ok(info),
            Err(e) => Err(e),
        }
    }

    /// Determines whether block `ancestor` is an ancestor of block
    /// `descendent`.
    ///
    /// Returned values:
    /// - `Ok(Some(dist))` — `ancestor` is an ancestor of `descendent`
    ///   and there are `dist` blocks between them;
    /// - `Ok(None)` — `ancestor` is not an ancestor of `descendent`;
    /// - `Err(error)` — `ancestor` or `descendent` was not found.
    ///
    /// Identical identifiers are related at distance 0 without any
    /// lookup, and the zero identifier is an ancestor of every stored
    /// block at a distance of its whole chain length.
    pub fn is_ancestor(&self, ancestor: &BlockId, descendent: &BlockId) -> (r: Result<
        Option<u64>,
        Error,
    >)
        requires
            self.wf(),
        ensures
            match r {
                Ok(Some(k)) => {
                    ||| (ancestor.0 == descendent.0 && k == 0)
                    ||| {
                        &&& ancestor.0 != descendent.0
                        &&& ancestor.0 == 0
                        &&& self.infos().dom().contains(descendent.0)
                        &&& k == self.infos()[descendent.0].chain_length
                        &&& anc(self.infos(), descendent.0, k as nat) == 0
                    }
                    ||| {
                        &&& ancestor.0 != descendent.0 && ancestor.0 != 0
                        &&& self.infos().dom().contains(ancestor.0)
                        &&& self.infos().dom().contains(descendent.0)
                        &&& self.infos()[descendent.0].chain_length
                            == self.infos()[ancestor.0].chain_length + k
                        &&& k > 0
                        &&& anc(self.infos(), descendent.0, k as nat) == ancestor.0
                    }
                },
                Ok(None) => {
                    &&& ancestor.0 != descendent.0 && ancestor.0 != 0
                    &&& self.infos().dom().contains(ancestor.0)
                    &&& self.infos().dom().contains(descendent.0)
                    &&& {
                        ||| self.infos()[descendent.0].chain_length
                            <= self.infos()[ancestor.0].chain_length
                        ||| anc(
                            self.infos(),
                            descendent.0,
                            (self.infos()[descendent.0].chain_length
                                - self.infos()[ancestor.0].chain_length) as nat,
                        ) != ancestor.0
                    }
                },
                Err(Error::BlockNotFound) => {
                    &&& ancestor.0 != descendent.0
                    &&& (!self.infos().dom().contains(descendent.0) || (ancestor.0 != 0
                        && !self.infos().dom().contains(ancestor.0)))
                },
                Err(Error::BackendError(_)) => ancestor.0 != descendent.0,
                Err(_) => false,
            },
    {
        // Optimization.
        if ancestor.0 == descendent.0 {
            return Ok(Some(0));
        }

        let descendent_info = self.get_block_info(descendent)?;

        if ancestor.0 == 0 {
            proof {
                crate::chain::lemma_anc_to_zero(self.infos(), descendent.0);
            }
            return Ok(Some(descendent_info.chain_length));
        }

        let ancestor_info = self.get_block_info(ancestor)?;

        // Bail out right away if the descendent does not have a higher
        // chain length.
        if descendent_info.chain_length <= ancestor_info.chain_length {
            return Ok(None);
        }

        // Seek back from the descendent to check whether it has the
        // ancestor at the expected place.
        proof {
            assert(row_ok(self.infos(), ancestor.0));
            assert(row_ok(self.infos(), descendent.0));
        }
        let k = descendent_info.chain_length - ancestor_info.chain_length;
        let info = self.get_nth_ancestor(descendent, k)?;

        if info.block_hash.0 == ancestor.0 {
            Ok(Some(k))
        } else {
            Ok(None)
        }
    }

    /// Upserts a tag: afterwards the name points at the given block,
    /// and the last write wins.  Returns `BlockNotFound` exactly when
    /// no block with this identifier is stored; the store is then
    /// unchanged.
    pub fn put_tag(&mut self, tag_name: &str, block_hash: &BlockId) -> (r: Result<(), Error>)
        requires
            old(self).wf(),
        ensures
            final(self).wf(),
            match r {
                Ok(()) => {
                    &&& old(self).infos().dom().contains(block_hash.0)
                    &&& final(self).tags() == old(self).tags().insert(tag_name@, block_hash.0)
                    &&& final(self).infos() == old(self).infos()
                    &&& final(self).blocks() == old(self).blocks()
                },
                Err(Error::BlockNotFound) => {
                    &&& !old(self).infos().dom().contains(block_hash.0)
                    &&& *final(self) == *old(self)
                },
                Err(Error::BackendError(_)) => *final(self) == *old(self),
                Err(_) => false,
            },
    {
        let exists = match self.block_exists(block_hash) {
            Ok(b) => b,
            Err(e) => {
                return Err(e);
            },
        };
        if !exists {
            return Err(Error::BlockNotFound);
        }
        match self.db.put_tag_row(tag_name, block_hash.0) {
            Ok(true) => Ok(()),
            Ok(false) => Err(Error::BlockNotFound),
            Err(msg) => Err(Error::BackendError(msg)),
        }
    }

    /// Reads the block identifier a tag names; an absent tag is not an
    /// error.
    pub fn get_tag(&self, tag_name: &str) -> (r: Result<Option<BlockId>, Error>)
        requires
            self.wf(),
        ensures
            match r {
                Ok(Some(id)) => {
                    &&& self.tags().dom().contains(tag_name@)
                    &&& id.0 == self.tags()[tag_name@]
                },
                Ok(None) => !self.tags().dom().contains(tag_name@),
                Err(Error::BackendError(_)) => true,
                Err(_) => false,
            },
    {
        match self.db.get_tag_row(tag_name) {
            Ok(Some(id)) => Ok(Some(BlockId(id))),
            Ok(None) => Ok(None),
            Err(msg) => Err(Error::BackendError(msg)),
        }
    }
}

/// The distance of the skip-link schedule is at least 1, so a nonzero
/// fast-link target is always strictly below the chain length, and a
/// jump other than the parent link spans at least 2.
proof fn lemma_fast_link_shape(len: u64)
    ensures
        spec_fast_link(len) > 0 ==> spec_fast_link(len) < len,
        spec_fast_link(len) > 0 ==> len - spec_fast_link(len) >= 1,
{
    let order = len % 32;
    assert(order < 32 ==> 1u64 << order >= 1u64) by (bit_vector);
    assert(1 <= order && order < 32 ==> 1u64 << order >= 2u64) by (bit_vector);
    let distance = if order == 0 { 1u64 } else { ((1u64 << order) - 1) as u64 };
    assert(distance >= 1);
}

/// Writing a fresh block with a stored (or zero) parent preserves the
/// well-formedness of the whole stored state.
proof fn lemma_put_preserves_wf(
    infos: Map<u64, InfoModel>,
    blocks: Map<u64, Seq<u8>>,
    tags: Map<Seq<char>, u64>,
    b: Block,
)
    requires
        state_wf(infos, blocks, tags),
        !infos.dom().contains(b.id.0),
        b.parent.0 == 0 || (infos.dom().contains(b.parent.0) && infos[b.parent.0].chain_length
            < MAX_CHAIN_LENGTH),
    ensures
        state_wf(
            infos.insert(b.id.0, spec_new_info(infos, b)),
            blocks.insert(b.id.0, spec_serialize(b)),
            tags,
        ),
{
    let row = spec_new_info(infos, b);
    let len = row.chain_length;
    if b.parent.0 != 0 {
        assert(row_ok(infos, b.parent.0));
        lemma_fast_link_shape(len);
    }
    lemma_wf_insert(infos, b.id.0, row);
    let infos2 = infos.insert(b.id.0, row);
    let blocks2 = blocks.insert(b.id.0, spec_serialize(b));
    assert(blocks2.dom() =~= infos2.dom());
    crate::block::lemma_codec_round_trip(b);
    assert(crate::chain::payload_keyed(spec_serialize(b), b.id.0));
}

/// What holds of the records a seek hands back besides its result:
/// each one is the true ancestor of `start` at its own depth, stored
/// and faithfully read, with chain lengths strictly decreasing along
/// the sequence, all above `stop_len` and at most `start`'s own.
pub open spec fn visited_ok(
    infos: Map<u64, InfoModel>,
    start: u64,
    vs: Seq<BlockInfo>,
    stop_len: u64,
) -> bool {
    &&& forall|i: int|
        0 <= i < vs.len() ==> {
            let v = #[trigger] vs[i];
            &&& v.wf()
            &&& infos.dom().contains(v.block_hash.0)
            &&& v.model() == infos[v.block_hash.0]
            &&& v.chain_length <= infos[start].chain_length
            &&& stop_len < v.chain_length
            &&& v.block_hash.0 == anc(
                infos,
                start,
                (infos[start].chain_length - v.chain_length) as nat,
            )
        }
    &&& forall|i: int, j: int|
        #![trigger vs[i], vs[j]]
        0 <= i < j < vs.len() ==> vs[i].chain_length > vs[j].chain_length
}

/// Like `BlockStore::get_nth_ancestor`, but also hands back every
/// intermediate record the walk fetched on its way, in the order the
/// walk visited them (the starting block first, the result excluded),
/// so a caller can reuse that work.
pub fn for_path_to_nth_ancestor(store: &BlockStore, block_hash: &BlockId, distance: u64) -> (r:
    Result<(BlockInfo, Vec<BlockInfo>), Error>)
    requires
        store.wf(),
    ensures
        match r {
            Ok((info, visited)) => {
                &&& store.infos().dom().contains(block_hash.0)
                &&& distance < store.infos()[block_hash.0].chain_length
                &&& info.wf()
                &&& info.block_hash.0 == anc(store.infos(), block_hash.0, distance as nat)
                &&& store.infos().dom().contains(info.block_hash.0)
                &&& info.model() == store.infos()[info.block_hash.0]
                &&& info.chain_length == store.infos()[block_hash.0].chain_length - distance
                &&& visited_ok(store.infos(), block_hash.0, visited@, info.chain_length)
                &&& distance > 0 ==> visited@.len() > 0 && visited@[0].block_hash.0
                    == block_hash.0
            },
            Err(Error::BlockNotFound) => !store.infos().dom().contains(block_hash.0)
                || distance >= store.infos()[block_hash.0].chain_length,
            Err(Error::BackendError(_)) => true,
            Err(_) => false,
        },
{
    let mut cur = store.get_block_info(block_hash)?;
    if distance >= cur.chain_length {
        return Err(Error::BlockNotFound);
    }
    let ghost start_len: u64 = cur.chain_length;
    let target: u64 = cur.chain_length - distance;
    let mut visited: Vec<BlockInfo> = Vec::new();

    while target < cur.chain_length
        invariant
            store.wf(),
            store.infos().dom().contains(block_hash.0),
            start_len == store.infos()[block_hash.0].chain_length,
            target == start_len - distance,
            1 <= target,
            target <= cur.chain_length,
            cur.wf(),
            store.infos().dom().contains(cur.block_hash.0),
            cur.model() == store.infos()[cur.block_hash.0],
            cur.chain_length == store.infos()[cur.block_hash.0].chain_length,
            cur.chain_length <= start_len,
            cur.block_hash.0 == anc(
                store.infos(),
                block_hash.0,
                (start_len - cur.chain_length) as nat,
            ),
            visited_ok(store.infos(), block_hash.0, visited@, target),
            visited@.len() == 0 ==> cur.block_hash.0 == block_hash.0,
            visited@.len() > 0 ==> visited@[0].block_hash.0 == block_hash.0,
            forall|i: int|
                0 <= i < visited@.len() ==> #[trigger] visited@[i].chain_length
                    > cur.chain_length,
        decreases cur.chain_length - target,
    {
        proof {
            assert(row_ok(store.infos(), cur.block_hash.0));
        }
        let gap: u64 = cur.chain_length - target;
        let mut best: BackLink = cur.back_links[0];
        if cur.back_links.len() == 2 {
            let second: BackLink = cur.back_links[1];
            if second.distance <= gap {
                best = second;
            }
        }
        proof {
            let infos = store.infos();
            let ch = cur.block_hash.0;
            let k = (start_len - cur.chain_length) as nat;
            let d = best.distance as nat;
            // the chosen link names the true ancestor `d` steps back
            if best.distance == 1 {
                assert(anc(infos, infos[ch].parent, 0) == infos[ch].parent);
                assert(best.block_hash.0 == anc(infos, ch, 1));
            }
            assert(best.block_hash.0 == anc(infos, ch, d));
            assert(infos.dom().contains(best.block_hash.0));
            assert(infos[best.block_hash.0].chain_length + best.distance == cur.chain_length);
            lemma_anc_add(infos, block_hash.0, k, d);
            assert(anc(infos, block_hash.0, k + d) == best.block_hash.0);
        }
        let next = store.get_block_info(&best.block_hash)?;
        visited.push(cur);
        cur = next;
    }
    Ok((cur, visited))
}

} // verus!
