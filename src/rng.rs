//! Small seedable pseudo-random generators, one owned by each component.

use vstd::prelude::*;

verus! {

/// Seed used when a xorshift generator is asked to start from zero, the one
/// state it could never leave.
pub const XORSHIFT_FALLBACK_SEED: u32 = 0x9E37_79B9;

/// Multiplier of the linear congruential generator.
pub const LCG_MULTIPLIER: u32 = 1_664_525;

/// Increment of the linear congruential generator.
pub const LCG_INCREMENT: u32 = 1_013_904_223;

/// One xorshift32 step (shifts 13, 17, 5).
pub open spec fn xorshift_step(x: u32) -> u32 {
    let a = x ^ (x << 13u32);
    let b = a ^ (a >> 17u32);
    b ^ (b << 5u32)
}

/// One step of the linear congruential generator, modulo 2^32.
pub open spec fn lcg_step(x: u32) -> u32 {
    ((x as int * LCG_MULTIPLIER as int + LCG_INCREMENT as int) % 0x1_0000_0000) as u32
}

/// A nonzero state stays nonzero under a xorshift step.
pub proof fn lemma_xorshift_nonzero(x: u32)
    requires
        x != 0,
    ensures
        xorshift_step(x) != 0,
{
    let a = x ^ (x << 13u32);
    let b = a ^ (a >> 17u32);
    assert(a != 0) by (bit_vector)
        requires
            x != 0,
            a == x ^ (x << 13u32),
    ;
    assert(b != 0) by (bit_vector)
        requires
            a != 0,
            b == a ^ (a >> 17u32),
    ;
    assert(b ^ (b << 5u32) != 0) by (bit_vector)
        requires
            b != 0,
    ;
}

/// Marsaglia's xorshift32 generator; its state is never zero.
pub struct XorShift32 {
    state: u32,
}

impl XorShift32 {
    /// The current state.
    pub closed spec fn state(&self) -> u32 {
        self.state
    }

    /// Well-formed: the state is nonzero.
    pub open spec fn wf(&self) -> bool {
        self.state() != 0
    }

    /// A generator seeded with `seed`, or with the fallback seed when `seed` is zero.
    pub fn new(seed: u32) -> (r: Self)
        ensures
            r.wf(),
            r.state() == if seed == 0 {
                XORSHIFT_FALLBACK_SEED
            } else {
                seed
            },
    {
        if seed == 0 {
            XorShift32 { state: XORSHIFT_FALLBACK_SEED }
        } else {
            XorShift32 { state: seed }
        }
    }

    /// Advance one step and return the new state.
    pub fn next_u32(&mut self) -> (r: u32)
        requires
            old(self).wf(),
        ensures
            final(self).wf(),
            r == xorshift_step(old(self).state()),
            final(self).state() == r,
    {
        let x = self.state;
        let a = x ^ (x << 13u32);
        let b = a ^ (a >> 17u32);
        let c = b ^ (b << 5u32);
        proof {
            lemma_xorshift_nonzero(x);
        }
        self.state = c;
        c
    }
}

/// The linear congruential generator `x' = 1664525 x + 1013904223 (mod 2^32)`.
pub struct Lcg32 {
    state: u32,
}

impl Lcg32 {
    /// The current state.
    pub closed spec fn state(&self) -> u32 {
        self.state
    }

    /// A generator starting from `seed`.
    pub fn new(seed: u32) -> (r: Self)
        ensures
            r.state() == seed,
    {
        Lcg32 { state: seed }
    }

    /// Advance one step and return the top 24 bits of the new state.
    pub fn next_u24(&mut self) -> (r: u32)
        ensures
            final(self).state() == lcg_step(old(self).state()),
            r == final(self).state() >> 8u32,
            r < 0x100_0000,
    {
        let x = self.state.wrapping_mul(LCG_MULTIPLIER).wrapping_add(LCG_INCREMENT);
        proof {
            vstd::arithmetic::div_mod::lemma_add_mod_noop(
                self.state as int * LCG_MULTIPLIER as int,
                LCG_INCREMENT as int,
                0x1_0000_0000,
            );
            vstd::arithmetic::div_mod::lemma_small_mod(LCG_INCREMENT as nat, 0x1_0000_0000);
        }
        self.state = x;
        let r = x >> 8u32;
        assert(r < 0x100_0000) by (bit_vector)
            requires
                r == x >> 8u32,
        ;
        r
    }
}

} // verus!
