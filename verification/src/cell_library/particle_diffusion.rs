//! Particle bookkeeping for a discrete diffusion rule: a per-cell counter
//! of particles leaving in each of the four directions, refilled by
//! distributing an incoming particle count over uniform random draws.
use vstd::prelude::*;

verus! {

use crate::rng::{Pcg32, pcg_next_bounded};

/// How many particles leave this cell in each direction.
#[derive(Clone, Copy, Debug, Default, PartialEq, Eq, Structural)]
pub struct ParticleCounter {
    pub up: u32,
    pub down: u32,
    pub left: u32,
    pub right: u32,
}

impl ParticleCounter {
    /// The total number of particles in the counter.
    pub open spec fn total_spec(self) -> int {
        self.up + self.down + self.left + self.right
    }

    /// The counter with one more particle in the slot drawn.
    pub open spec fn bump_spec(self, slot: u32) -> Self {
        if slot == 0 {
            ParticleCounter { up: (self.up + 1) as u32, ..self }
        } else if slot == 1 {
            ParticleCounter { down: (self.down + 1) as u32, ..self }
        } else if slot == 2 {
            ParticleCounter { left: (self.left + 1) as u32, ..self }
        } else {
            ParticleCounter { right: (self.right + 1) as u32, ..self }
        }
    }

    /// `n` particles distributed over the four slots, one uniform draw
    /// per particle, together with the generator state left behind.
    pub open spec fn randomize_n_spec(n: int, rng: Pcg32) -> (Self, Pcg32)
        decreases n,
    {
        if n <= 0 {
            (ParticleCounter { up: 0, down: 0, left: 0, right: 0 }, rng)
        } else {
            let prev = Self::randomize_n_spec(n - 1, rng);
            let d = pcg_next_bounded(prev.1, 4);
            (prev.0.bump_spec(d.0), d.1)
        }
    }

    /// Distribute `n` particles over the four slots by uniform draws from
    /// the caller's generator. Exactly `n` particles come out.
    pub fn randomize_n(n: u32, rng: &mut Pcg32) -> (r: ParticleCounter)
        ensures
            (r, *final(rng)) == Self::randomize_n_spec(n as int, *old(rng)),
            r.total_spec() == n,
    {
        let ghost rng0 = *rng;
        let mut counter = ParticleCounter { up: 0, down: 0, left: 0, right: 0 };
        let mut k: u32 = 0;
        while k < n
            invariant
                k <= n,
                (counter, *rng) == Self::randomize_n_spec(k as int, rng0),
                counter.total_spec() == k,
            decreases n - k,
        {
            let slot = rng.next_bounded(4);
            if slot == 0 {
                counter.up = counter.up + 1;
            } else if slot == 1 {
                counter.down = counter.down + 1;
            } else if slot == 2 {
                counter.left = counter.left + 1;
            } else {
                counter.right = counter.right + 1;
            }
            k = k + 1;
        }
        counter
    }

    /// Build a counter from `[up, down, left, right]`.
    pub fn from_arr(arr: &[u32; 4]) -> (r: Self)
        ensures
            r.up == arr[0],
            r.down == arr[1],
            r.left == arr[2],
            r.right == arr[3],
    {
        Self { up: arr[0], down: arr[1], left: arr[2], right: arr[3] }
    }

    /// The counter as `[up, down, left, right]`.
    pub fn to_arr(&self) -> (r: [u32; 4])
        ensures
            r@ == seq![self.up, self.down, self.left, self.right],
    {
        let r = [self.up, self.down, self.left, self.right];
        proof {
            assert(r@ =~= seq![self.up, self.down, self.left, self.right]);
        }
        r
    }

    /// The total number of particles. The counter must not hold more than
    /// the count type can carry.
    pub fn total(&self) -> (r: u32)
        requires
            self.total_spec() <= u32::MAX,
        ensures
            r == self.total_spec(),
    {
        self.up + self.down + self.left + self.right
    }
}

} // verus!
