use vstd::prelude::*;
use crate::lfo::{phase_after, LFO};

verus! {

/// Number of first-order all-pass sections of the phaser.
pub const PHASER_ALLPASSES: usize = 6;

/// Largest stage count; each stage enables two all-pass sections.
pub const MAX_PHASER_STAGES: usize = 3;

/// Lowest corner frequency, in Hz, that all-pass section `i` sweeps to.
pub open spec fn corner_low_spec(i: nat) -> nat {
    if i == 0 {
        16
    } else if i == 1 {
        33
    } else if i == 2 {
        48
    } else if i == 3 {
        98
    } else if i == 4 {
        160
    } else {
        260
    }
}

/// Highest corner frequency, in Hz, that all-pass section `i` sweeps to.
pub open spec fn corner_high_spec(i: nat) -> nat {
    if i == 0 {
        1600
    } else if i == 1 {
        3300
    } else if i == 2 {
        4800
    } else if i == 3 {
        9800
    } else if i == 4 {
        16000
    } else {
        20480
    }
}

/// The corner-frequency range, in Hz, of all-pass section `i`: the section
/// sweeps from the first to the second as the modulation goes from its
/// lowest to its highest value.
pub fn corner_range(i: usize) -> (r: (u32, u32))
    requires
        i < PHASER_ALLPASSES,
    ensures
        r.0 == corner_low_spec(i as nat),
        r.1 == corner_high_spec(i as nat),
        r.0 < r.1,
{
    match i {
        0 => (16, 1600),
        1 => (33, 3300),
        2 => (48, 4800),
        3 => (98, 9800),
        4 => (160, 16000),
        _ => (260, 20480),
    }
}

/// `stages` clamped to `[1, MAX_PHASER_STAGES]`.
pub open spec fn clamp_stages(stages: nat) -> nat {
    if stages < 1 {
        1
    } else if stages > MAX_PHASER_STAGES {
        MAX_PHASER_STAGES as nat
    } else {
        stages
    }
}

/// The phaser's shared modulation: one oscillator drives every all-pass
/// section of both channels.
///
/// Within a frame the left channel is processed first and reads the phase;
/// the right channel reads the same phase and then advances the oscillator,
/// so the phase advances exactly once per frame.
pub struct PhaserModulation {
    lfo: LFO,
    stages: usize,
}

impl PhaserModulation {
    pub closed spec fn phase_spec(&self) -> nat {
        self.lfo.phase_spec()
    }

    pub closed spec fn increment_spec(&self) -> nat {
        self.lfo.increment_spec()
    }

    pub closed spec fn stages_spec(&self) -> nat {
        self.stages as nat
    }

    pub closed spec fn wf(&self) -> bool {
        1 <= self.stages <= MAX_PHASER_STAGES
    }

    /// A modulation at phase zero with one stage.
    pub fn new(increment: u32) -> (r: Self)
        ensures
            r.wf(),
            r.phase_spec() == 0,
            r.increment_spec() == increment,
            r.stages_spec() == 1,
    {
        PhaserModulation { lfo: LFO::new(increment), stages: 1 }
    }

    /// Sets the rate and the stage count; the stage count is clamped to
    /// `[1, MAX_PHASER_STAGES]`.
    pub fn set_params(&mut self, increment: u32, stages: usize)
        ensures
            final(self).wf(),
            final(self).increment_spec() == increment,
            final(self).stages_spec() == clamp_stages(stages as nat),
            final(self).phase_spec() == old(self).phase_spec(),
    {
        self.lfo.set_increment(increment);
        self.stages = if stages < 1 {
            1
        } else if stages > MAX_PHASER_STAGES {
            MAX_PHASER_STAGES
        } else {
            stages
        };
    }

    /// Number of all-pass sections in use: two per stage.
    pub fn active_allpasses(&self) -> (r: usize)
        requires
            self.wf(),
        ensures
            r == 2 * self.stages_spec(),
            2 <= r <= PHASER_ALLPASSES,
    {
        self.stages * 2
    }

    /// The phase that modulates the left channel of the current frame.
    pub fn left_phase(&self) -> (r: u32)
        ensures
            r == self.phase_spec(),
    {
        self.lfo.phase()
    }

    /// The phase that modulates the right channel of the current frame;
    /// the frame is then complete and the oscillator advances once.
    pub fn right_phase(&mut self) -> (r: u32)
        ensures
            r == old(self).phase_spec(),
            final(self).phase_spec() == phase_after(old(self).phase_spec(), old(self).increment_spec(), 1),
            final(self).increment_spec() == old(self).increment_spec(),
            final(self).stages_spec() == old(self).stages_spec(),
            old(self).wf() ==> final(self).wf(),
    {
        let r = self.lfo.phase();
        self.lfo.update_lfo();
        r
    }

    /// Both phases of one frame, left then right, advancing once.
    pub fn frame_phases(&mut self) -> (r: (u32, u32))
        ensures
            r.0 == old(self).phase_spec(),
            r.1 == old(self).phase_spec(),
            final(self).phase_spec() == phase_after(old(self).phase_spec(), old(self).increment_spec(), 1),
            final(self).increment_spec() == old(self).increment_spec(),
            final(self).stages_spec() == old(self).stages_spec(),
            old(self).wf() ==> final(self).wf(),
    {
        let l = self.left_phase();
        let r = self.right_phase();
        (l, r)
    }
}

/// The ordering of the phaser's channels within a frame. Left then right:
/// both channels read the phase the frame started at and the oscillator
/// has advanced exactly once at the end of the frame. Right then left: the
/// left channel reads the phase already advanced, which differs from the
/// right channel's whenever the step is not a whole number of turns, so the
/// wrong order is observable.
pub proof fn lemma_frame_order(phase: nat, increment: nat)
    requires
        phase < crate::lfo::PHASE_CYCLE,
    ensures
        phase_after(phase, increment, 0) == phase,
        (phase_after(phase, increment, 1) == phase) <==> (increment % (crate::lfo::PHASE_CYCLE as nat) == 0),
{
    let m = crate::lfo::PHASE_CYCLE as int;
    vstd::arithmetic::div_mod::lemma_small_mod(phase, m as nat);
    vstd::arithmetic::div_mod::lemma_add_mod_noop(phase as int, increment as int, m);
    vstd::arithmetic::div_mod::lemma_mod_bound(increment as int, m);
    vstd::arithmetic::div_mod::lemma_mod_bound((phase + increment) as int, m);
    if (increment as int) % m != 0 {
        let k = (increment as int) % m;
        assert(0 < k < m);
        if phase + k < m {
            vstd::arithmetic::div_mod::lemma_small_mod((phase + k) as nat, m as nat);
        } else {
            vstd::arithmetic::div_mod::lemma_mod_sub_multiples_vanish((phase + k) as int, m);
            vstd::arithmetic::div_mod::lemma_small_mod((phase + k - m) as nat, m as nat);
        }
    }
}

} // verus!
