use vstd::prelude::*;
use vstd::arithmetic::power2::pow2;
use vstd::bits::lemma_u32_shr_is_div;

use crate::grid::Grid;

verus! {

/// The seed that a fresh seeder starts from.
pub const INITIAL_SEED: u16 = 39333;

/// The square of the seed, which fits in 32 bits.
pub open spec fn square(seed: u16) -> nat {
    (seed as nat) * (seed as nat)
}

/// The seed that follows `seed`: bits 8 to 23 of its square.
pub open spec fn next_seed(seed: u16) -> u16 {
    ((square(seed) / 256) % 65536) as u16
}

/// The grid drawn from `seed`: the cell at row-major position `i` is alive
/// when bit `i` of the seed's square is set.
pub open spec fn seeded_grid(seed: u16) -> Seq<bool> {
    Seq::new(25, |i: int| (square(seed) / pow2(i as nat)) % 2 == 1)
}

/// A deterministic generator of grids, driven by a 16-bit middle-square seed.
pub struct PseudoRandomSeeder {
    pub seed: u16,
}

impl PseudoRandomSeeder {
    /// A seeder at the initial seed.
    pub fn new() -> (s: PseudoRandomSeeder)
        ensures
            s.seed == INITIAL_SEED,
    {
        PseudoRandomSeeder { seed: INITIAL_SEED }
    }

    /// A seeder at the given seed.
    pub fn with_seed(seed: u16) -> (s: PseudoRandomSeeder)
        ensures
            s.seed == seed,
    {
        PseudoRandomSeeder { seed }
    }

    /// Draws the grid of the current seed and moves on to the next seed.
    pub fn random_automata(&mut self) -> (g: Grid)
        ensures
            g@ == seeded_grid(old(self).seed),
            final(self).seed == next_seed(old(self).seed),
    {
        let seed = self.seed;
        proof {
            vstd::arithmetic::mul::lemma_mul_upper_bound(
                seed as int,
                65535,
                seed as int,
                65535,
            );
        }
        let sq: u32 = seed as u32 * seed as u32;
        let next: u32 = (sq << 8u32) >> 16u32;
        assert(((sq << 8u32) >> 16u32) == (sq / 256u32) % 65536u32) by (bit_vector);
        self.seed = next as u16;

        let mut cells = [false; 25];
        let mut i: u32 = 0;
        while i < 25
            invariant
                0 <= i <= 25,
                sq == square(seed),
                forall|j: int| 0 <= j < i ==> #[trigger] cells[j] == seeded_grid(seed)[j],
            decreases 25 - i,
        {
            let bit = (sq >> i) & 1u32;
            proof {
                lemma_u32_shr_is_div(sq, i);
                let shifted = sq >> i;
                assert(shifted & 1u32 == shifted % 2) by (bit_vector);
            }
            cells[i as usize] = bit == 1;
            i = i + 1;
        }
        let g = Grid { cells };
        assert(g@ =~= seeded_grid(seed));
        g
    }
}

} // verus!
