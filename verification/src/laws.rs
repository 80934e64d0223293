//! The store's governing laws, stated once over the model and proved.
//!
//! Each operation's own contract pins its result; the lemmas here
//! state the properties that relate several operations — what a write
//! leaves for a later read, that repeating a write changes nothing,
//! and how ancestor walks determine distances and order the records
//! of a range.

use vstd::prelude::*;
use crate::block::Block;
use crate::block::lemma_codec_round_trip;
use crate::block::spec_deserialize;
use crate::block::spec_serialize;
use crate::chain::InfoModel;
use crate::chain::MAX_CHAIN_LENGTH;
use crate::chain::anc;
use crate::chain::infos_wf;
use crate::chain::lemma_anc_add;
use crate::chain::lemma_anc_props;
use crate::chain::lemma_anc_to_zero;
use crate::chain::row_ok;
use crate::chain::state_wf;
use crate::store::spec_new_info;

verus! {

/// Round trip: a successful fresh write leaves exactly the payload
/// that reading the same identifier deserializes back to the written
/// block; the stored row names the block's parent at distance 1; and
/// when the block's own chain length is consistent with its stored
/// parent (as every chain built through this store is), the stored
/// chain length equals it.
pub proof fn lemma_put_get_round_trip(
    infos: Map<u64, InfoModel>,
    blocks: Map<u64, Seq<u8>>,
    tags: Map<Seq<char>, u64>,
    b: Block,
)
    requires
        state_wf(infos, blocks, tags),
        !infos.dom().contains(b.id.0),
        b.parent.0 == 0 || (infos.dom().contains(b.parent.0) && infos[b.parent.0].chain_length
            < MAX_CHAIN_LENGTH),
    ensures
        spec_deserialize(blocks.insert(b.id.0, spec_serialize(b))[b.id.0]) == Some(b),
        spec_new_info(infos, b).parent == b.parent.0,
        b.parent.0 == 0 ==> spec_new_info(infos, b).chain_length == 1,
        b.parent.0 != 0 && infos[b.parent.0].chain_length + 1 == b.chain_length.0
            ==> spec_new_info(infos, b).chain_length == b.chain_length.0,
{
    lemma_codec_round_trip(b);
    assert(blocks.insert(b.id.0, spec_serialize(b))[b.id.0] == spec_serialize(b));
}

/// Idempotence: after a fresh write the identifier is stored, which is
/// exactly the condition under which `put_block`'s contract has a
/// second call of the same block succeed with every map unchanged.
pub proof fn lemma_put_idempotent(infos: Map<u64, InfoModel>, b: Block)
    requires
        !infos.dom().contains(b.id.0),
    ensures
        infos.insert(b.id.0, spec_new_info(infos, b)).dom().contains(b.id.0),
{
}

/// Relation correctness: if walking `k` parent links from a stored
/// block `b` reaches a stored block `a` other than the zero
/// identifier, then `k` is determined by the two chain lengths — so
/// the distance `is_ancestor` reports, its own contract's walk
/// equation, and this lemma together say that `Some(k)` comes back
/// exactly when the `k`-link walk from the descendent reaches the
/// ancestor.  (A walk of more than `b`'s chain length leaves the
/// stored graph, so only `k` up to the chain length speaks of stored
/// links; the walk of the whole chain length reaches the zero
/// identifier, the case `is_ancestor` answers separately.)
pub proof fn lemma_walk_determines_distance(
    infos: Map<u64, InfoModel>,
    a: u64,
    b: u64,
    k: nat,
)
    requires
        infos_wf(infos),
        infos.dom().contains(a),
        infos.dom().contains(b),
        a != 0,
        k <= infos[b].chain_length,
        anc(infos, b, k) == a,
    ensures
        infos[a].chain_length + k == infos[b].chain_length,
{
    if k == infos[b].chain_length {
        lemma_anc_to_zero(infos, b);
        assert(a == 0);
    } else {
        lemma_anc_props(infos, b, k);
    }
}

/// Range order: along a stored chain, the record at depth `j - 1`
/// below a block has the record at depth `j` as its direct parent.
/// With `iterate_range`'s contract — the `i`-th record yielded is the
/// ancestor of `to` at depth `remaining - 1 - i` — this orders every
/// yield after the first as the direct child of the one before it,
/// by strictly increasing chain length.
pub proof fn lemma_range_steps(infos: Map<u64, InfoModel>, to: u64, j: nat)
    requires
        infos_wf(infos),
        infos.dom().contains(to),
        1 <= j && j < infos[to].chain_length,
    ensures
        infos[anc(infos, to, (j - 1) as nat)].parent == anc(infos, to, j),
        infos[anc(infos, to, (j - 1) as nat)].chain_length == infos[to].chain_length - (j - 1),
        infos.dom().contains(anc(infos, to, j)),
        infos[anc(infos, to, j)].chain_length == infos[to].chain_length - j,
{
    lemma_anc_props(infos, to, (j - 1) as nat);
    lemma_anc_props(infos, to, j);
    let c = anc(infos, to, (j - 1) as nat);
    assert(row_ok(infos, c));
    lemma_anc_add(infos, to, (j - 1) as nat, 1);
    assert(anc(infos, c, 1) == anc(infos, infos[c].parent, 0));
}

} // verus!
