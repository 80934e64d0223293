//! Tests of the duplicate-filtering generator.

use chain_storage::unique::Generator;
use chain_storage::unique::R;
use chain_storage::unique::Unique;
use std::collections::HashSet;

/// A plain number generator drawing straight from the state.
struct NumGen;

impl Generator for NumGen {
    type Item = u64;

    fn gen(&mut self, r: &mut R) -> u64 {
        r.next_u64()
    }
}

/// A generator that keeps yielding the same few values, to force the
/// filter to retry.
struct FewGen {
    at: usize,
}

impl Generator for FewGen {
    type Item = u64;

    fn gen(&mut self, _r: &mut R) -> u64 {
        let values = [10u64, 10, 20, 20, 30];
        let v = values[self.at % values.len()];
        self.at += 1;
        v
    }
}

#[test]
fn unique_range() {
    let mut unique_generator = Unique::new(NumGen);
    let mut r = R::new(1);
    let mut set: HashSet<u64> = HashSet::new();
    for _ in 0..100 {
        set.insert(unique_generator.gen(&mut r));
    }
    assert_eq!(set.len(), 100);
}

#[test]
fn repeats_are_filtered() {
    let mut unique_generator = Unique::new(FewGen { at: 0 });
    let mut r = R::new(1);
    let a = unique_generator.gen(&mut r);
    let b = unique_generator.gen(&mut r);
    let c = unique_generator.gen(&mut r);
    assert_eq!((a, b, c), (10, 20, 30));
}

#[test]
fn state_steps_deterministically() {
    let mut r1 = R::new(99);
    let mut r2 = R::new(99);
    assert_eq!(r1.next_u64(), r2.next_u64());
    assert_eq!(r1.next_u64(), r2.next_u64());
    // The all-zero seed is replaced, so the stream moves.
    let mut r0 = R::new(0);
    assert_ne!(r0.next_u64(), 0);
}
