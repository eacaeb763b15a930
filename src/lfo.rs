use vstd::prelude::*;
use rand_chacha::rand_core::{RngCore, SeedableRng};
use vstd::arithmetic::div_mod::lemma_add_mod_noop;

verus! {

/// One full turn of the oscillator (2π) in phase units: the phase is a
/// 32-bit accumulator, so wrapping to `[0, 2π)` is exact.
pub const PHASE_CYCLE: u64 = 0x1_0000_0000;

/// The phase reached from `phase` after `n` steps of `increment`.
pub open spec fn phase_after(phase: nat, increment: nat, n: nat) -> nat {
    (phase + n * increment) % (PHASE_CYCLE as nat)
}

/// The first `u32` drawn from a ChaCha8 generator seeded with `seed`.
pub uninterp spec fn seeded_draw(seed: u64) -> u32;

/// Relies on rand_chacha's `ChaCha8Rng::seed_from_u64` and `next_u32`: the
/// stream is a fixed function of the seed (ChaCha8 keyed by PCG32 output of
/// the seed), touches no operating-system source and does not panic.
#[verifier::external_body]
fn first_draw(seed: u64) -> (r: u32)
    ensures
        r == seeded_draw(seed),
{
    let mut rng = rand_chacha::ChaCha8Rng::seed_from_u64(seed);
    rng.next_u32()
}

/// A low-frequency oscillator's phase accumulator.
///
/// The phase lies in `[0, PHASE_CYCLE)`, which stands for `[0, 2π)`. Each
/// `update_lfo` adds `increment` (the rate divided by the sample rate, in
/// phase units) and wraps. Reading the phase does not advance it, so both
/// channels of a stereo frame can read the same value.
#[derive(Clone, Copy, Debug)]
pub struct LFO {
    increment: u32,
    phase: u32,
}

impl LFO {
    pub closed spec fn phase_spec(&self) -> nat {
        self.phase as nat
    }

    /// The phase step taken by each `update_lfo`.
    pub closed spec fn increment_spec(&self) -> nat {
        self.increment as nat
    }

    /// An oscillator at phase zero.
    pub fn new(increment: u32) -> (r: Self)
        ensures
            r.phase_spec() == 0,
            r.increment_spec() == increment,
    {
        LFO { increment, phase: 0 }
    }

    /// An oscillator at a pseudo-random phase drawn once from `seed`, to
    /// decorrelate several modulators running at the same rate. The same
    /// seed always gives the same phase.
    pub fn new_random_phase(increment: u32, seed: u64) -> (r: Self)
        ensures
            r.increment_spec() == increment,
            r.phase_spec() == seeded_draw(seed),
    {
        let phase: u32 = first_draw(seed);
        LFO { increment, phase }
    }

    /// An oscillator at a given phase.
    pub fn new_with_phase(increment: u32, phase: u32) -> (r: Self)
        ensures
            r.phase_spec() == phase,
            r.increment_spec() == increment,
    {
        LFO { increment, phase }
    }

    /// Every phase lies within one turn.
    pub proof fn lemma_phase_in_turn(&self)
        ensures
            self.phase_spec() < PHASE_CYCLE,
    {
    }

    /// The current phase, in `[0, PHASE_CYCLE)`.
    pub fn phase(&self) -> (r: u32)
        ensures
            r == self.phase_spec(),
    {
        self.phase
    }

    /// The phase step taken by each `update_lfo`.
    pub fn increment(&self) -> (r: u32)
        ensures
            r == self.increment_spec(),
    {
        self.increment
    }

    /// Changes the rate; it takes effect at the next `update_lfo`, with no
    /// correction of the phase.
    pub fn set_increment(&mut self, increment: u32)
        ensures
            final(self).increment_spec() == increment,
            final(self).phase_spec() == old(self).phase_spec(),
    {
        self.increment = increment;
    }

    /// Advances the phase by one step and wraps it to a single turn.
    pub fn update_lfo(&mut self)
        ensures
            final(self).increment_spec() == old(self).increment_spec(),
            final(self).phase_spec() == phase_after(old(self).phase_spec(), old(self).increment_spec(), 1),
    {
        let next: u64 = (self.phase as u64 + self.increment as u64) % PHASE_CYCLE;
        self.phase = next as u32;
    }
}

/// Advancing `n` steps and then one more is advancing `n + 1` steps.
pub proof fn lemma_phase_step(phase: nat, increment: nat, n: nat)
    ensures
        phase_after(phase_after(phase, increment, n), increment, 1) == phase_after(phase, increment, n + 1),
{
    let m = PHASE_CYCLE as int;
    let a = (phase + n * increment) as int;
    lemma_add_mod_noop(a, increment as int, m);
    lemma_add_mod_noop(a % m, 0, m);
    lemma_add_mod_noop(increment as int, 0, m);
    assert(phase + (n + 1) * increment == a + increment) by (nonlinear_arith)
        requires
            a == phase + n * increment,
    ;
}

/// Period of the oscillator: when `n` steps of `increment` make whole
/// turns, `n` steps bring any phase back to where it started.
pub proof fn lemma_lfo_period(phase: nat, increment: nat, n: nat)
    requires
        phase < PHASE_CYCLE,
        (n * increment) % (PHASE_CYCLE as nat) == 0,
    ensures
        phase_after(phase, increment, n) == phase,
{
    let m = PHASE_CYCLE as int;
    lemma_add_mod_noop(phase as int, (n * increment) as int, m);
    vstd::arithmetic::div_mod::lemma_small_mod(phase, m as nat);
}

} // verus!
