use vstd::prelude::*;
use crate::lfo::{phase_after, LFO, PHASE_CYCLE};

verus! {

/// Phase offset of the right oscillator: a quarter turn (90°) for stereo
/// width.
pub const QUARTER_TURN: u32 = 0x4000_0000;

/// The flanger's modulation: one oscillator per channel, the right one a
/// quarter turn ahead.
///
/// The left channel reads the left phase. The right channel completes the
/// frame: it advances both oscillators, then reads the right phase in
/// stereo mode and mirrors the left phase otherwise.
pub struct FlangerModulation {
    left: LFO,
    right: LFO,
    stereo: bool,
}

impl FlangerModulation {
    pub closed spec fn left_phase_spec(&self) -> nat {
        self.left.phase_spec()
    }

    pub closed spec fn right_phase_spec(&self) -> nat {
        self.right.phase_spec()
    }

    pub closed spec fn increment_spec(&self) -> nat {
        self.left.increment_spec()
    }

    pub closed spec fn stereo_spec(&self) -> bool {
        self.stereo
    }

    pub closed spec fn wf(&self) -> bool {
        self.left.increment_spec() == self.right.increment_spec()
    }

    pub fn new(increment: u32) -> (r: Self)
        ensures
            r.wf(),
            r.left_phase_spec() == 0,
            r.right_phase_spec() == QUARTER_TURN,
            r.increment_spec() == increment,
            !r.stereo_spec(),
    {
        FlangerModulation {
            left: LFO::new_with_phase(increment, 0),
            right: LFO::new_with_phase(increment, QUARTER_TURN),
            stereo: false,
        }
    }

    /// Sets the rate of both oscillators and the stereo mode.
    pub fn set_params(&mut self, increment: u32, stereo: bool)
        ensures
            final(self).wf(),
            final(self).increment_spec() == increment,
            final(self).stereo_spec() == stereo,
            final(self).left_phase_spec() == old(self).left_phase_spec(),
            final(self).right_phase_spec() == old(self).right_phase_spec(),
    {
        self.left.set_increment(increment);
        self.right.set_increment(increment);
        self.stereo = stereo;
    }

    /// The phase that modulates the left channel.
    pub fn left_phase(&self) -> (r: u32)
        ensures
            r == self.left_phase_spec(),
    {
        self.left.phase()
    }

    /// Advances the oscillators for the frame and returns the phase that
    /// modulates the right channel.
    pub fn right_phase(&mut self) -> (r: u32)
        requires
            old(self).wf(),
        ensures
            final(self).wf(),
            final(self).increment_spec() == old(self).increment_spec(),
            final(self).stereo_spec() == old(self).stereo_spec(),
            final(self).left_phase_spec()
                == phase_after(old(self).left_phase_spec(), old(self).increment_spec(), 1),
            final(self).right_phase_spec()
                == phase_after(old(self).right_phase_spec(), old(self).increment_spec(), 1),
            r == (if old(self).stereo_spec() {
                final(self).right_phase_spec()
            } else {
                final(self).left_phase_spec()
            }),
    {
        self.right.update_lfo();
        self.left.update_lfo();
        if self.stereo {
            self.right.phase()
        } else {
            self.left.phase()
        }
    }
}

/// The two oscillators keep the distance they started with: after a frame,
/// the right phase is still the left phase plus the same offset, modulo a
/// turn.
pub proof fn lemma_stereo_offset_kept(left: nat, right: nat, increment: nat)
    requires
        left < PHASE_CYCLE,
        right < PHASE_CYCLE,
    ensures
        (phase_after(right, increment, 1) + PHASE_CYCLE - phase_after(left, increment, 1)) % (PHASE_CYCLE as int)
            == (right + PHASE_CYCLE - left) % (PHASE_CYCLE as int),
{
    let m = PHASE_CYCLE as int;
    let a = phase_after(left, increment, 1) as int;
    let b = phase_after(right, increment, 1) as int;
    assert(left + 1 * increment == left + increment);
    assert(right + 1 * increment == right + increment);
    vstd::arithmetic::div_mod::lemma_fundamental_div_mod((left + increment) as int, m);
    vstd::arithmetic::div_mod::lemma_fundamental_div_mod((right + increment) as int, m);
    let ql = (left + increment) as int / m;
    let qr = (right + increment) as int / m;
    assert(b + m - a == (right + m - left) + (ql - qr) * m) by (nonlinear_arith)
        requires
            left + increment == ql * m + a,
            right + increment == qr * m + b,
    ;
    vstd::arithmetic::div_mod::lemma_mod_multiples_vanish(ql - qr, (right + m - left) as int, m);
    assert((ql - qr) * m + (right + m - left) == (right + m - left) + (ql - qr) * m);
}

} // verus!
