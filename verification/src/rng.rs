//! A small deterministic pseudo-random generator (a PCG-family step on 64-bit
//! state with 32-bit output). The generator is an explicit value owned by the
//! caller and threaded through every bulk-randomization entry point, so that
//! seeding and determinism are directly testable: the whole output stream is a
//! function of the seed alone.
use vstd::prelude::*;

verus! {

/// The 64-bit multiplier of the linear step.
pub const PCG_MULTIPLIER: u64 = 6364136223846793005;

/// Generator state: a 64-bit linear congruential state plus a stream
/// increment. The increment is chosen odd by `seed`, but no operation
/// depends on that.
#[derive(Clone, Copy, PartialEq, Eq, Structural, Debug)]
pub struct Pcg32 {
    pub state: u64,
    pub inc: u64,
}

/// The linear state transition: `state * PCG_MULTIPLIER + inc`, wrapping.
pub open spec fn pcg_advance(s: Pcg32) -> Pcg32 {
    Pcg32 {
        state: vstd::wrapping::u64_specs::wrapping_add(
            vstd::wrapping::u64_specs::wrapping_mul(s.state, PCG_MULTIPLIER),
            s.inc,
        ),
        inc: s.inc,
    }
}

/// The output permutation (xorshift-high followed by a random rotation),
/// computed from the state before the transition.
pub open spec fn pcg_output(state: u64) -> u32 {
    let xorshifted = ((((state >> 18u64) ^ state) >> 27u64) & 0xFFFF_FFFFu64) as u32;
    let rot = ((state >> 59u64) & 31u64) as u32;
    (xorshifted >> rot) | (xorshifted << (((32u32 - rot) as u32) & 31u32))
}

/// One draw: the output word and the successor state.
pub open spec fn pcg_next(s: Pcg32) -> (u32, Pcg32) {
    (pcg_output(s.state), pcg_advance(s))
}

/// One bounded draw: the output word reduced modulo `bound`, and the
/// successor state.
pub open spec fn pcg_next_bounded(s: Pcg32, bound: u32) -> (u32, Pcg32) {
    ((pcg_output(s.state) % bound) as u32, pcg_advance(s))
}

/// The state obtained by seeding: the stream increment is forced odd, and
/// the state is mixed by two linear steps around adding the seed.
pub open spec fn pcg_seeded(initstate: u64, initseq: u64) -> Pcg32 {
    let inc = (initseq << 1u64) | 1u64;
    let s0 = Pcg32 { state: 0u64, inc: inc };
    let s1 = pcg_advance(s0);
    let s2 = Pcg32 {
        state: vstd::wrapping::u64_specs::wrapping_add(s1.state, initstate),
        inc: inc,
    };
    pcg_advance(s2)
}

impl Pcg32 {
    /// Build a generator from a two-word seed.
    pub fn seed(initstate: u64, initseq: u64) -> (r: Pcg32)
        ensures
            r == pcg_seeded(initstate, initseq),
    {
        let inc = (initseq << 1u64) | 1u64;
        let mut g = Pcg32 { state: 0u64, inc: inc };
        g.step();
        g.state = g.state.wrapping_add(initstate);
        g.step();
        g
    }

    /// Advance the state by one linear step, producing no output.
    fn step(&mut self)
        ensures
            *final(self) == pcg_advance(*old(self)),
    {
        self.state = self.state.wrapping_mul(PCG_MULTIPLIER).wrapping_add(self.inc);
    }

    /// Draw the next 32-bit word.
    pub fn next_u32(&mut self) -> (r: u32)
        ensures
            (r, *final(self)) == pcg_next(*old(self)),
    {
        let s = self.state;
        self.step();
        proof {
            assert((((s >> 18u64) ^ s) >> 27u64) & 0xFFFF_FFFFu64 <= 0xFFFF_FFFFu64)
                by (bit_vector);
            assert(((s >> 59u64) & 31u64) < 32u64) by (bit_vector);
        }
        let xorshifted: u32 = ((((s >> 18u64) ^ s) >> 27u64) & 0xFFFF_FFFFu64) as u32;
        let rot: u32 = ((s >> 59u64) & 31u64) as u32;
        let rot_back: u32 = (32u32 - rot) & 31u32;
        proof {
            let rb = (32u32 - rot) as u32;
            assert(rb & 31u32 < 32u32) by (bit_vector);
        }
        (xorshifted >> rot) | (xorshifted << rot_back)
    }

    /// Draw a value below `bound`.
    pub fn next_bounded(&mut self, bound: u32) -> (r: u32)
        requires
            bound >= 1,
        ensures
            (r, *final(self)) == pcg_next_bounded(*old(self), bound),
            r < bound,
    {
        let v = self.next_u32();
        v % bound
    }
}

} // verus!
