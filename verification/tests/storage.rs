//! Tests of the block store: writing and reading blocks and tags,
//! ancestor seeks over long chains, and range iteration.

use chain_storage::Block;
use chain_storage::BlockId;
use chain_storage::BlockStore;
use chain_storage::Error;
use chain_storage::for_path_to_nth_ancestor;
use chain_storage::iterate_range;
use chain_storage::unique::R;
use std::collections::HashMap;

/// A deterministic stand-in for random choices, with caller-supplied
/// block identifiers.
struct Ids {
    next: u64,
}

impl Ids {
    fn fresh(&mut self) -> BlockId {
        let id = BlockId(self.next);
        self.next += 1;
        id
    }
}

fn pick_from_vector<'a, A>(r: &mut R, v: &'a Vec<A>) -> &'a A {
    let s = r.next_u64() as usize;
    // this doesn't need to be uniform
    &v[s % v.len()]
}

fn generate_chain(r: &mut R, store: &mut BlockStore, ids: &mut Ids) -> Vec<Block> {
    let mut blocks = vec![];

    let genesis_block = Block::genesis(ids.fresh());
    store.put_block(&genesis_block).unwrap();
    blocks.push(genesis_block);

    for _ in 0..10 {
        let mut parent_block = pick_from_vector(r, &blocks).clone();
        let n = 1 + (r.next_u64() % 9999);
        for _ in 0..n {
            let block = parent_block.make_child(ids.fresh());
            store.put_block(&block).unwrap();
            parent_block = block.clone();
            blocks.push(block);
        }
    }

    blocks
}

#[test]
pub fn test_put_get() {
    let mut store = BlockStore::file("file:test_put_get?mode=memory&cache=shared").unwrap();
    assert!(store.get_tag("tip").unwrap().is_none());

    match store.put_tag("tip", &BlockId::zero()) {
        Err(Error::BlockNotFound) => {}
        err => panic!("{:?}", err),
    }

    let genesis_block = Block::genesis(BlockId(1));
    store.put_block(&genesis_block).unwrap();
    let (genesis_block_restored, block_info) = store.get_block(&genesis_block.id()).unwrap();
    assert_eq!(genesis_block, genesis_block_restored);
    assert_eq!(block_info.block_hash, genesis_block.id());
    assert_eq!(block_info.chain_length, genesis_block.chain_length().0);
    assert_eq!(block_info.back_links.len(), 1);
    assert_eq!(block_info.parent_id(), BlockId::zero());

    store.put_tag("tip", &genesis_block.id()).unwrap();
    assert_eq!(store.get_tag("tip").unwrap().unwrap(), genesis_block.id());
}

#[test]
pub fn test_nth_ancestor() {
    let mut rng = R::new(7);
    let mut ids = Ids { next: 1 };
    let mut store = BlockStore::file("file:test_nth_ancestor?mode=memory&cache=shared").unwrap();
    let blocks = generate_chain(&mut rng, &mut store, &mut ids);

    let mut blocks_fetched = 0usize;
    let mut total_distance = 0u64;
    let nr_tests = 1000;

    for _ in 0..nr_tests {
        let block = pick_from_vector(&mut rng, &blocks);
        assert_eq!(&store.get_block(&block.id()).unwrap().0, block);

        let distance = rng.next_u64() % block.chain_length().0;
        total_distance += distance;

        let (ancestor_info, visited) =
            for_path_to_nth_ancestor(&store, &block.id(), distance).unwrap();
        blocks_fetched += visited.len();

        assert_eq!(ancestor_info.chain_length + distance, block.chain_length().0);

        let ancestor = store.get_block(&ancestor_info.block_hash).unwrap().0;

        assert_eq!(ancestor.chain_length().0 + distance, block.chain_length().0);
    }

    let blocks_per_test = blocks_fetched as f64 / nr_tests as f64;

    println!(
        "fetched {} intermediate blocks ({} per test), total distance {}",
        blocks_fetched, blocks_per_test, total_distance
    );

    assert!(blocks_per_test < 35.0);
}

#[test]
pub fn test_iterate_range() {
    let mut rng = R::new(13);
    let mut ids = Ids { next: 1 };
    let mut store = BlockStore::file("file:test_iterate_range?mode=memory&cache=shared").unwrap();
    let blocks = generate_chain(&mut rng, &mut store, &mut ids);

    let blocks_by_id: HashMap<BlockId, &Block> = blocks.iter().map(|b| (b.id(), b)).collect();

    for _ in 0..1000 {
        let from = pick_from_vector(&mut rng, &blocks);
        let to = pick_from_vector(&mut rng, &blocks);

        match iterate_range(&store, &from.id(), &to.id()) {
            Ok(mut iter) => {
                let mut prev = from.id();
                while let Some(block_info) = iter.next(&store) {
                    let block_info = block_info.unwrap();
                    assert_eq!(block_info.parent_id(), prev);
                    prev = block_info.block_hash;
                }
                assert_eq!(prev, to.id());
            }
            Err(Error::CannotIterate) => {
                // Check that 'from' really isn't an ancestor of 'to'.
                let mut cur = to.id();
                while cur != BlockId::zero() {
                    assert_ne!(cur, from.id());
                    cur = blocks_by_id[&cur].parent_id();
                }
            }
            Err(_) => panic!(),
        }
    }
}

#[test]
fn worked_example() {
    // Genesis G (chain length 1, parent = zero), child C1 (chain
    // length 2).
    let mut store = BlockStore::file("file:worked_example?mode=memory&cache=shared").unwrap();
    let g = Block::genesis(BlockId(10));
    let c1 = g.make_child(BlockId(11));
    store.put_block(&g).unwrap();
    store.put_block(&c1).unwrap();

    let info = store.get_nth_ancestor(&c1.id(), 1).unwrap();
    assert_eq!(info.block_hash, g.id());
    assert_eq!(info.chain_length, 1);

    assert_eq!(store.is_ancestor(&g.id(), &c1.id()).unwrap(), Some(1));

    let mut iter = iterate_range(&store, &g.id(), &c1.id()).unwrap();
    let first = iter.next(&store).unwrap().unwrap();
    assert_eq!(first.block_hash, c1.id());
    assert_eq!(first.chain_length, 2);
    assert!(iter.next(&store).is_none());
}

#[test]
fn put_block_is_idempotent() {
    let mut store = BlockStore::file("file:put_idempotent?mode=memory&cache=shared").unwrap();
    let g = Block::genesis(BlockId(1));
    let c1 = g.make_child(BlockId(2));
    store.put_block(&g).unwrap();
    store.put_block(&c1).unwrap();

    // Both calls report success and the store is observably unchanged
    // after the first.
    store.put_block(&c1).unwrap();
    let (restored, info) = store.get_block(&c1.id()).unwrap();
    assert_eq!(restored, c1);
    assert_eq!(info.chain_length, 2);
    assert_eq!(info.parent_id(), g.id());
}

#[test]
fn missing_parent_is_rejected() {
    let mut store = BlockStore::file("file:missing_parent?mode=memory&cache=shared").unwrap();
    let g = Block::genesis(BlockId(1));
    let orphan = g.make_child(BlockId(2));
    // The parent was never stored.
    match store.put_block(&orphan) {
        Err(Error::MissingParent) => {}
        other => panic!("{:?}", other),
    }
    // The store is left unchanged.
    match store.get_block(&orphan.id()) {
        Err(Error::BlockNotFound) => {}
        other => panic!("{:?}", other),
    }
    assert!(!store.block_exists(&orphan.id()).unwrap());
}

#[test]
fn tag_upsert_last_write_wins() {
    let mut store = BlockStore::file("file:tag_upsert?mode=memory&cache=shared").unwrap();
    let g = Block::genesis(BlockId(1));
    let c1 = g.make_child(BlockId(2));
    store.put_block(&g).unwrap();
    store.put_block(&c1).unwrap();

    store.put_tag("tip", &g.id()).unwrap();
    store.put_tag("tip", &c1.id()).unwrap();
    assert_eq!(store.get_tag("tip").unwrap().unwrap(), c1.id());
    assert!(store.get_tag("other").unwrap().is_none());
}

#[test]
fn ancestor_relation_cases() {
    let mut store = BlockStore::file("file:ancestor_relation?mode=memory&cache=shared").unwrap();
    let g = Block::genesis(BlockId(1));
    let c1 = g.make_child(BlockId(2));
    let c2 = c1.make_child(BlockId(3));
    // A fork off genesis.
    let f1 = g.make_child(BlockId(4));
    store.put_block(&g).unwrap();
    store.put_block(&c1).unwrap();
    store.put_block(&c2).unwrap();
    store.put_block(&f1).unwrap();

    // A block is its own ancestor at distance 0.
    assert_eq!(store.is_ancestor(&c2.id(), &c2.id()).unwrap(), Some(0));
    // The zero identifier is an ancestor of everything, at the whole
    // chain length.
    assert_eq!(store.is_ancestor(&BlockId::zero(), &c2.id()).unwrap(), Some(3));
    // Straight-line ancestry at the exact distance.
    assert_eq!(store.is_ancestor(&g.id(), &c2.id()).unwrap(), Some(2));
    // A descendent is no ancestor of its ancestor.
    assert_eq!(store.is_ancestor(&c2.id(), &g.id()).unwrap(), None);
    // Two forks are unrelated.
    assert_eq!(store.is_ancestor(&c1.id(), &f1.id()).unwrap(), None);
    // An unknown descendent is an error.
    match store.is_ancestor(&g.id(), &BlockId(99)) {
        Err(Error::BlockNotFound) => {}
        other => panic!("{:?}", other),
    }
}

#[test]
fn iterate_range_rejects_unrelated() {
    let mut store = BlockStore::file("file:range_unrelated?mode=memory&cache=shared").unwrap();
    let g = Block::genesis(BlockId(1));
    let c1 = g.make_child(BlockId(2));
    let f1 = g.make_child(BlockId(3));
    store.put_block(&g).unwrap();
    store.put_block(&c1).unwrap();
    store.put_block(&f1).unwrap();

    match iterate_range(&store, &c1.id(), &f1.id()) {
        Err(Error::CannotIterate) => {}
        Err(e) => panic!("{:?}", e),
        Ok(_) => panic!(),
    }
}

#[test]
fn seek_distance_beyond_chain_is_an_error() {
    let mut store = BlockStore::file("file:seek_too_far?mode=memory&cache=shared").unwrap();
    let g = Block::genesis(BlockId(1));
    store.put_block(&g).unwrap();
    // Genesis has chain length 1: distance 1 asks for an ancestor
    // that does not exist.
    match store.get_nth_ancestor(&g.id(), 1) {
        Err(Error::BlockNotFound) => {}
        other => panic!("{:?}", other),
    }
}

#[test]
fn memory_store_works() {
    let mut store = BlockStore::memory().unwrap();
    let g = Block::genesis(BlockId(501));
    store.put_block(&g).unwrap();
    assert!(store.block_exists(&g.id()).unwrap());
}

#[test]
fn memory_stores_are_independent() {
    // Two ephemeral stores never share a database: a write through one
    // is invisible to the other, and each starts empty.
    let mut first = BlockStore::memory().unwrap();
    let mut second = BlockStore::memory().unwrap();
    let g = Block::genesis(BlockId(601));
    assert!(!first.block_exists(&g.id()).unwrap());
    second.put_block(&g).unwrap();
    assert!(!first.block_exists(&g.id()).unwrap());
    assert!(second.block_exists(&g.id()).unwrap());
    // The first store accepts the same block as a fresh write.
    first.put_block(&g).unwrap();
    assert!(first.block_exists(&g.id()).unwrap());
}
