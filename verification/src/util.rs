//! Small helpers: token comparison and the synthetic data generator.

use vstd::prelude::*;
use crate::data::Record;
use crate::data::RecordGenerator;

verus! {

/// Compares a runtime token with an expected literal, character for
/// character.
pub(crate) fn token_eq(token: &String, expected: &str) -> (r: bool)
    ensures
        r == (token@ == expected@),
{
    *token == expected.to_owned()
}

/// The multiplier of the linear-congruential step.
pub const LCG_MULTIPLIER: u64 = 6364136223846793005;

/// The increment of the linear-congruential step.
pub const LCG_INCREMENT: u64 = 1442695040888963407;

/// The seed every fresh generator starts from.
pub const DEFAULT_SEED: u64 = 42;

/// The generator state after `k` steps from `seed`.
pub open spec fn spec_lcg_iter(seed: u64, k: nat) -> u64
    decreases k,
{
    if k == 0 {
        seed
    } else {
        spec_lcg_iter(seed, (k - 1) as nat).wrapping_mul(LCG_MULTIPLIER).wrapping_add(
            LCG_INCREMENT,
        )
    }
}

/// A deterministic linear-congruential generator for synthetic benchmark
/// data. Each step multiplies and increments the state modulo 2^64.
pub struct RandomNumberGenerator {
    state: u64,
}

impl RandomNumberGenerator {
    /// The current generator state.
    pub closed spec fn spec_state(&self) -> u64 {
        self.state
    }

    /// A generator starting from the given seed.
    pub fn new(seed: u64) -> (g: RandomNumberGenerator)
        ensures
            g.spec_state() == seed,
    {
        RandomNumberGenerator { state: seed }
    }

    /// The next value of the sequence; advances the state by one step.
    pub fn next_value(&mut self) -> (r: u64)
        ensures
            final(self).spec_state() == old(self).spec_state().wrapping_mul(
                LCG_MULTIPLIER,
            ).wrapping_add(LCG_INCREMENT),
            r == final(self).spec_state(),
    {
        self.state = self.state.wrapping_mul(LCG_MULTIPLIER).wrapping_add(LCG_INCREMENT);
        self.state
    }

    /// Exactly `count` synthetic values, in generation order: the next
    /// `count` steps of the congruence.
    pub fn generate(&mut self, count: usize) -> (data: Vec<u64>)
        ensures
            data@.len() == count as int,
            forall|k: int|
                0 <= k < count ==> #[trigger] data@[k] == spec_lcg_iter(
                    old(self).spec_state(),
                    (k + 1) as nat,
                ),
            final(self).spec_state() == spec_lcg_iter(old(self).spec_state(), count as nat),
    {
        let mut data: Vec<u64> = Vec::new();
        let mut i: usize = 0;
        while i < count
            invariant
                i <= count,
                data@.len() == i as int,
                self.spec_state() == spec_lcg_iter(old(self).spec_state(), i as nat),
                forall|k: int|
                    0 <= k < i ==> #[trigger] data@[k] == spec_lcg_iter(
                        old(self).spec_state(),
                        (k + 1) as nat,
                    ),
            decreases count - i,
        {
            let x = self.next_value();
            data.push(x);
            i += 1;
        }
        data
    }
}

impl RecordGenerator<u64> for RandomNumberGenerator {
    fn generate_record(&mut self) -> u64 {
        self.next_value()
    }
}

} // verus!
