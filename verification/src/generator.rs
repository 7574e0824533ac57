//! Deterministic pseudo-random generator: a single 64-bit register stepped
//! by xor, wrapping multiply and wrapping add with fixed constants. The
//! output stream is a pure function of the initial state, which makes the
//! sampled corpus reproducible across runs.

use vstd::prelude::*;

verus! {

pub const XOR_CONST: u64 = 0x4f2357a2e6b9d8c1;

pub const MUL_CONST: u64 = 0x8d1f5e2c84560baf;

pub const ADD_CONST: u64 = 0xf0c3be9a71d8246e;

/// One step of the generator: xor, wrapping multiply, wrapping add.
pub open spec fn step(s: u64) -> u64 {
    (s ^ XOR_CONST).wrapping_mul(MUL_CONST).wrapping_add(ADD_CONST)
}

/// The register after `k` calls of `next` starting from state `s`.
pub open spec fn state_after(s: u64, k: nat) -> u64
    decreases k,
{
    if k == 0 {
        s
    } else {
        step(state_after(s, (k - 1) as nat))
    }
}

/// The `i`-th value (0-based) that `next` returns when the generator
/// starts in state `s`: the register after `i + 1` steps.
pub open spec fn nth_output(s: u64, i: nat) -> u64 {
    state_after(s, i + 1)
}

/// The first `n` outputs of a generator started in state `s`.
pub open spec fn outputs(s: u64, n: nat) -> Seq<u64> {
    Seq::new(n, |i: int| nth_output(s, i as nat))
}

/// Determinism: the output stream is a function of the initial state and
/// the call count alone. Two runs from the same state agree on every
/// position they both reach, however many calls each run makes.
pub proof fn lemma_outputs_deterministic(s: u64, n: nat, m: nat)
    requires
        n <= m,
    ensures
        forall|i: int| 0 <= i < n ==> outputs(s, n)[i] == outputs(s, m)[i],
{
}

/// The generator state: a single 64-bit register, mutated in place.
pub struct Random(pub u64);

impl Random {
    /// Advance the register by one `step` and return the new value.
    /// Wrapping arithmetic means no input can overflow.
    pub fn next(&mut self) -> (r: u64)
        ensures
            final(self).0 == step(old(self).0),
            r == final(self).0,
    {
        self.0 = self.0 ^ XOR_CONST;
        self.0 = self.0.wrapping_mul(MUL_CONST);
        self.0 = self.0.wrapping_add(ADD_CONST);
        self.0
    }
}

impl Default for Random {
    /// The default generator starts from the all-zero register.
    fn default() -> (r: Random)
        ensures
            r.0 == 0,
    {
        Random(0)
    }
}

} // verus!
