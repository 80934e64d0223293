//! Tests of the block payload codec and of the skip-link schedule.

use chain_storage::Block;
use chain_storage::BlockDate;
use chain_storage::BlockId;
use chain_storage::ChainLength;
use chain_storage::compute_fast_link;

#[test]
fn serialization_layout_is_big_endian() {
    let b = Block {
        id: BlockId(0x0102030405060708),
        parent: BlockId(0x1112131415161718),
        date: BlockDate(0x21222324, 0x31323334),
        chain_length: ChainLength(0x4142434445464748),
    };
    let bytes = b.serialize_as_vec();
    assert_eq!(
        bytes,
        vec![
            0x01, 0x02, 0x03, 0x04, 0x05, 0x06, 0x07, 0x08, 0x11, 0x12, 0x13, 0x14, 0x15, 0x16,
            0x17, 0x18, 0x21, 0x22, 0x23, 0x24, 0x31, 0x32, 0x33, 0x34, 0x41, 0x42, 0x43, 0x44,
            0x45, 0x46, 0x47, 0x48,
        ]
    );
}

#[test]
fn deserialization_undoes_serialization() {
    let b = Block {
        id: BlockId(77),
        parent: BlockId(76),
        date: BlockDate(3, 9),
        chain_length: ChainLength(12),
    };
    let bytes = b.serialize_as_vec();
    assert_eq!(Block::deserialize(&bytes), Some(b));
}

#[test]
fn deserialization_rejects_wrong_length() {
    let short = vec![0u8; 31];
    assert_eq!(Block::deserialize(&short), None);
    let long = vec![0u8; 33];
    assert_eq!(Block::deserialize(&long), None);
}

#[test]
fn fast_link_schedule() {
    // Below the first reachable jump no target is in reach.
    assert_eq!(compute_fast_link(1), 0);
    assert_eq!(compute_fast_link(2), 0);
    assert_eq!(compute_fast_link(5), 0);
    // A jump of 7 from chain length 35 (order 3).
    assert_eq!(compute_fast_link(35), 28);
    // A jump of 1 from chain length 33 (order 1).
    assert_eq!(compute_fast_link(33), 32);
    // Order 0 always jumps by 1.
    assert_eq!(compute_fast_link(64), 63);
    // A jump of 31 from chain length 37 (order 5).
    assert_eq!(compute_fast_link(37), 6);
}

#[test]
fn genesis_and_children() {
    let g = Block::genesis(BlockId(5));
    assert_eq!(g.parent_id(), BlockId::zero());
    assert_eq!(g.chain_length(), ChainLength(1));
    let c = g.make_child(BlockId(6));
    assert_eq!(c.parent_id(), BlockId(5));
    assert_eq!(c.chain_length(), ChainLength(2));
    assert_eq!(c.date(), BlockDate(0, 1));
}
