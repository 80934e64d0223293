//! `Unique` filters the items another generator produces so that no
//! value comes out twice.  Internally it keeps the values already
//! handed out and asks the inner generator again on a repeat.
//!
//! ⚠ For huge quantities of generated items this may take long: every
//! new item is checked against all the visited ones.

use vstd::prelude::*;

verus! {

/// A deterministic pseudo-random state that generators draw from,
/// stepped by the xorshift recurrence.
pub struct R {
    state: u64,
}

/// One xorshift step of the 64-bit state.
pub open spec fn spec_xorshift(x: u64) -> u64 {
    let a = (x ^ (x << 13)) as u64;
    let b = (a ^ (a >> 7)) as u64;
    (b ^ (b << 17)) as u64
}

impl R {
    /// The current state.
    pub closed spec fn spec_state(self) -> u64 {
        self.state
    }

    /// A state seeded from the given value; the all-zero state, the
    /// one fixed point of the recurrence, is replaced.
    pub fn new(seed: u64) -> (r: R)
        ensures
            r.spec_state() == if seed == 0 {
                0x9e3779b97f4a7c15u64
            } else {
                seed
            },
    {
        R { state: if seed == 0 { 0x9e3779b97f4a7c15 } else { seed } }
    }

    /// The next value of the recurrence, which becomes the new state.
    pub fn next_u64(&mut self) -> (r: u64)
        ensures
            r == spec_xorshift(old(self).spec_state()),
            final(self).spec_state() == r,
    {
        let x0: u64 = self.state;
        let a: u64 = x0 ^ (x0 << 13);
        let b: u64 = a ^ (a >> 7);
        let c: u64 = b ^ (b << 17);
        self.state = c;
        c
    }
}

/// A source of items driven by the pseudo-random state.
pub trait Generator {
    type Item;

    /// The next item.
    fn gen(&mut self, r: &mut R) -> Self::Item;
}

/// `Unique` filters the generated items (from another generator) so
/// there are no duplicates, remembering the values already handed out.
pub struct Unique<Gen: Generator<Item = u64>> {
    inner_generator: Gen,
    visited: Vec<u64>,
}

/// Whether a vector holds a value.
fn vec_contains(v: &Vec<u64>, x: u64) -> (r: bool)
    ensures
        r == v@.contains(x),
{
    let n: usize = v.len();
    let mut i: usize = 0;
    while i < n
        invariant
            i <= n,
            n == v@.len(),
            forall|k: int| 0 <= k < i ==> v@[k] != x,
        decreases n - i,
    {
        if v[i] == x {
            proof {
                assert(v@.contains(x));
            }
            return true;
        }
        i = i + 1;
    }
    proof {
        assert(!v@.contains(x));
    }
    false
}

impl<Gen: Generator<Item = u64>> Unique<Gen> {
    /// The values already handed out.
    pub closed spec fn spec_visited(self) -> Seq<u64> {
        self.visited@
    }

    /// A fresh filter around the given generator, with nothing handed
    /// out yet.
    pub fn new(inner_generator: Gen) -> (r: Unique<Gen>)
        ensures
            r.spec_visited() == Seq::<u64>::empty(),
    {
        Self { inner_generator, visited: Vec::new() }
    }

    /// The next item the inner generator produces that was not handed
    /// out before; it is recorded as visited.  Only if the inner
    /// generator yields nothing fresh over an enormous number of
    /// draws is the last repeated item handed back, unrecorded.
    pub fn gen(&mut self, r: &mut R) -> (item: u64)
        ensures
            (!old(self).spec_visited().contains(item)
                && final(self).spec_visited() == old(self).spec_visited().push(item))
                || (final(self).spec_visited() == old(self).spec_visited()
                && old(self).spec_visited().contains(item)),
    {
        let ghost vis0 = self.visited@;
        let mut attempts: u64 = 0;
        let mut candidate: u64 = self.inner_generator.gen(r);
        while attempts < u64::MAX
            invariant
                self.visited@ == vis0,
                vis0 == old(self).visited@,
            decreases u64::MAX - attempts,
        {
            if !vec_contains(&self.visited, candidate) {
                self.visited.push(candidate);
                return candidate;
            }
            candidate = self.inner_generator.gen(r);
            attempts = attempts + 1;
        }
        if vec_contains(&self.visited, candidate) {
            return candidate;
        }
        self.visited.push(candidate);
        candidate
    }
}

} // verus!
