use vstd::prelude::*;

verus! {

/// One step of the 13/17/5 xorshift generator on a 32-bit state.
pub open spec fn xorshift(x: u32) -> u32 {
    let a = x ^ (x << 13u32);
    let b = a ^ (a >> 17u32);
    b ^ (b << 5u32)
}

/// A deterministic xorshift pseudo-random generator.
///
/// The state is never zero (zero is the one fixed point of the step),
/// so the stream never collapses.
pub struct Rng {
    state: u32,
}

impl Rng {
    pub closed spec fn state(&self) -> u32 {
        self.state
    }

    pub open spec fn wf(&self) -> bool {
        self.state() != 0
    }

    /// Seeds a generator; a zero seed is replaced by one.
    pub fn new(seed: u32) -> (r: Rng)
        ensures
            r.state() == if seed == 0 { 1u32 } else { seed },
            r.wf(),
    {
        Rng { state: if seed == 0 { 1 } else { seed } }
    }

    /// Advances the state by one xorshift step and returns the new state.
    pub fn next_u32(&mut self) -> (r: u32)
        requires
            old(self).wf(),
        ensures
            r == xorshift(old(self).state()),
            final(self).state() == r,
            final(self).wf(),
    {
        let mut x: u32 = self.state;
        x = x ^ (x << 13u32);
        x = x ^ (x >> 17u32);
        x = x ^ (x << 5u32);
        proof {
            lemma_xorshift_nonzero(self.state);
        }
        self.state = x;
        x
    }
}

/// The xorshift step maps a nonzero state to a nonzero state.
pub proof fn lemma_xorshift_nonzero(x: u32)
    requires
        x != 0,
    ensures
        xorshift(x) != 0,
{
    let a = x ^ (x << 13u32);
    let b = a ^ (a >> 17u32);
    let c = b ^ (b << 5u32);
    assert(a != 0) by (bit_vector)
        requires
            x != 0,
            a == x ^ (x << 13u32),
    ;
    assert(b != 0) by (bit_vector)
        requires
            a != 0,
            b == a ^ (a >> 17u32),
    ;
    assert(c != 0) by (bit_vector)
        requires
            b != 0,
            c == b ^ (b << 5u32),
    ;
}

} // verus!
