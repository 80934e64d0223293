//! The mathematical model of the stored ancestry index.
//!
//! The index is modelled as a map from block identifier to an
//! [`InfoModel`] row.  A well-formed index is one in which every row's
//! chain length and parent link are consistent (genesis rows have chain
//! length 1 and the zero parent; every other row's parent is stored one
//! step shallower) and every fast link points at the true ancestor at
//! its distance.  All the store's algorithms are proved against this
//! model.

use vstd::prelude::*;

verus! {

/// The largest chain length the backend can hold: the depth column of
/// the index is a 64-bit signed integer.
pub const MAX_CHAIN_LENGTH: u64 = 0x7fff_ffff_ffff_ffff;

/// One stored index row: the chain length, the parent identifier, and
/// the optional fast link as a (distance, identifier) pair.
pub struct InfoModel {
    pub chain_length: u64,
    pub parent: u64,
    pub fast: Option<(u64, u64)>,
}

/// The identifier reached from `h` by following exactly `k` parent
/// links through `infos`.
pub open spec fn anc(infos: Map<u64, InfoModel>, h: u64, k: nat) -> u64
    decreases k,
{
    if k == 0 {
        h
    } else {
        anc(infos, infos[h].parent, (k - 1) as nat)
    }
}

/// Consistency of the row stored under `h`: the chain length is
/// positive and fits the backend; a genesis row points at the zero
/// identifier; any other row's parent is stored exactly one step
/// shallower; and a fast link of distance `d` names the true ancestor
/// `d` steps back, which is stored `d` steps shallower.
pub open spec fn row_ok(infos: Map<u64, InfoModel>, h: u64) -> bool {
    let r = infos[h];
    &&& 1 <= r.chain_length && r.chain_length <= MAX_CHAIN_LENGTH
    &&& (r.chain_length == 1 ==> r.parent == 0)
    &&& (r.chain_length > 1 ==> infos.dom().contains(r.parent)
        && infos[r.parent].chain_length + 1 == r.chain_length)
    &&& match r.fast {
        None => true,
        Some((d, fh)) => {
            &&& 2 <= d && d < r.chain_length
            &&& fh == anc(infos, h, d as nat)
            &&& infos.dom().contains(fh)
            &&& infos[fh].chain_length + d == r.chain_length
        },
    }
}

/// Well-formedness of the whole index: every stored row is consistent.
pub open spec fn infos_wf(infos: Map<u64, InfoModel>) -> bool {
    forall|h: u64| infos.dom().contains(h) ==> #[trigger] row_ok(infos, h)
}

/// Whether a stored payload belongs under its key: it deserializes to
/// a block whose own identifier is that key.  This is what makes the
/// store content-addressed.
pub open spec fn payload_keyed(payload: Seq<u8>, h: u64) -> bool {
    match crate::block::spec_deserialize(payload) {
        Some(b) => b.id.0 == h,
        None => false,
    }
}

/// Well-formedness of the whole stored state: the index is well
/// formed, payloads and index rows exist for exactly the same
/// identifiers, every payload is the serialization of a block whose
/// identifier is its key, and every tag names a stored block.
pub open spec fn state_wf(
    infos: Map<u64, InfoModel>,
    blocks: Map<u64, Seq<u8>>,
    tags: Map<Seq<char>, u64>,
) -> bool {
    &&& infos_wf(infos)
    &&& blocks.dom() == infos.dom()
    &&& forall|h: u64| #[trigger] blocks.dom().contains(h) ==> payload_keyed(blocks[h], h)
    &&& forall|n: Seq<char>| #[trigger] tags.dom().contains(n) ==> infos.dom().contains(tags[n])
}

/// The empty state is well formed: a fresh store satisfies the
/// invariant before its first write.
pub proof fn lemma_state_wf_empty()
    ensures
        state_wf(
            Map::<u64, InfoModel>::empty(),
            Map::<u64, Seq<u8>>::empty(),
            Map::<Seq<char>, u64>::empty(),
        ),
{
    assert(Map::<u64, Seq<u8>>::empty().dom() =~= Map::<u64, InfoModel>::empty().dom());
}

/// Walking `k` parent links from a stored block, with `k` below its
/// chain length, stays inside the index and lowers the chain length by
/// exactly `k`.
pub proof fn lemma_anc_props(infos: Map<u64, InfoModel>, h: u64, k: nat)
    requires
        infos_wf(infos),
        infos.dom().contains(h),
        k < infos[h].chain_length,
    ensures
        infos.dom().contains(anc(infos, h, k)),
        infos[anc(infos, h, k)].chain_length == infos[h].chain_length - k,
    decreases k,
{
    if k > 0 {
        assert(row_ok(infos, h));
        let p = infos[h].parent;
        lemma_anc_props(infos, p, (k - 1) as nat);
    }
}

/// Parent walks compose: `a + b` links from `h` land where `b` links
/// from the block `a` links back land.
pub proof fn lemma_anc_add(infos: Map<u64, InfoModel>, h: u64, a: nat, b: nat)
    ensures
        anc(infos, h, a + b) == anc(infos, anc(infos, h, a), b),
    decreases a,
{
    if a > 0 {
        lemma_anc_add(infos, infos[h].parent, (a - 1) as nat, b);
    }
}

/// Walking a stored block's whole chain length in parent links reaches
/// the zero identifier.
pub proof fn lemma_anc_to_zero(infos: Map<u64, InfoModel>, h: u64)
    requires
        infos_wf(infos),
        infos.dom().contains(h),
    ensures
        anc(infos, h, infos[h].chain_length as nat) == 0,
{
    assert(row_ok(infos, h));
    let len = infos[h].chain_length;
    lemma_anc_props(infos, h, (len - 1) as nat);
    let g = anc(infos, h, (len - 1) as nat);
    assert(row_ok(infos, g));
    lemma_anc_add(infos, h, (len - 1) as nat, 1);
    assert(anc(infos, infos[g].parent, 0) == infos[g].parent);
    assert(anc(infos, g, 1) == infos[g].parent);
    assert((len - 1) as nat + 1 == len as nat);
}

/// Adding a fresh row leaves every parent walk from an already stored
/// block unchanged, as long as the walk stays above genesis.
pub proof fn lemma_anc_frame(
    infos: Map<u64, InfoModel>,
    extra: u64,
    row: InfoModel,
    h: u64,
    k: nat,
)
    requires
        infos_wf(infos),
        infos.dom().contains(h),
        k < infos[h].chain_length,
        !infos.dom().contains(extra),
    ensures
        anc(infos.insert(extra, row), h, k) == anc(infos, h, k),
    decreases k,
{
    if k > 0 {
        assert(row_ok(infos, h));
        let p = infos[h].parent;
        assert(h != extra);
        lemma_anc_frame(infos, extra, row, p, (k - 1) as nat);
    }
}

/// Inserting a fresh, internally consistent row preserves the
/// well-formedness of the index.  The new row's fast link is given
/// relative to the old index, as a walk from the new row's parent.
pub proof fn lemma_wf_insert(infos: Map<u64, InfoModel>, id: u64, row: InfoModel)
    requires
        infos_wf(infos),
        !infos.dom().contains(id),
        1 <= row.chain_length && row.chain_length <= MAX_CHAIN_LENGTH,
        row.chain_length == 1 ==> row.parent == 0,
        row.chain_length > 1 ==> infos.dom().contains(row.parent)
            && infos[row.parent].chain_length + 1 == row.chain_length,
        match row.fast {
            None => true,
            Some((d, fh)) => {
                &&& 2 <= d && d < row.chain_length
                &&& fh == anc(infos, row.parent, (d - 1) as nat)
            },
        },
    ensures
        infos_wf(infos.insert(id, row)),
{
    let infos2 = infos.insert(id, row);
    assert forall|h: u64| infos2.dom().contains(h) implies #[trigger] row_ok(infos2, h) by {
        if h == id {
            match row.fast {
                None => {},
                Some((d, fh)) => {
                    lemma_anc_frame(infos, id, row, row.parent, (d - 1) as nat);
                    lemma_anc_props(infos, row.parent, (d - 1) as nat);
                    assert(anc(infos2, id, d as nat) == anc(infos2, row.parent, (d - 1) as nat));
                },
            }
            assert(row_ok(infos2, h));
        } else {
            assert(infos.dom().contains(h));
            assert(row_ok(infos, h));
            match infos[h].fast {
                None => {},
                Some((d, fh)) => {
                    lemma_anc_frame(infos, id, row, h, d as nat);
                },
            }
            assert(row_ok(infos2, h));
        }
    }
}

} // verus!
