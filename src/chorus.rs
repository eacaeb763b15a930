use vstd::prelude::*;
use crate::lfo::{phase_after, seeded_draw, LFO, PHASE_CYCLE};

verus! {

/// Voices held per channel.
pub const CHORUS_VOICES: usize = 5;

/// Voices that take part in the output of each channel.
pub const ACTIVE_VOICES: usize = 3;

/// Advances every oscillator of `lfos` by one step.
fn advance_all(lfos: &mut Vec<LFO>)
    ensures
        final(lfos)@.len() == old(lfos)@.len(),
        forall|i: int|
            0 <= i < old(lfos)@.len() ==> {
                &&& (#[trigger] final(lfos)@[i]).increment_spec() == old(lfos)@[i].increment_spec()
                &&& final(lfos)@[i].phase_spec() == phase_after(
                    old(lfos)@[i].phase_spec(),
                    old(lfos)@[i].increment_spec(),
                    1,
                )
            },
{
    let n = lfos.len();
    let mut i: usize = 0;
    while i < n
        invariant
            n == old(lfos)@.len(),
            lfos@.len() == n,
            i <= n,
            forall|j: int|
                0 <= j < i ==> {
                    &&& (#[trigger] lfos@[j]).increment_spec() == old(lfos)@[j].increment_spec()
                    &&& lfos@[j].phase_spec() == phase_after(
                        old(lfos)@[j].phase_spec(),
                        old(lfos)@[j].increment_spec(),
                        1,
                    )
                },
            forall|j: int| i <= j < n ==> #[trigger] lfos@[j] == old(lfos)@[j],
        decreases n - i,
    {
        let mut lfo = lfos[i];
        lfo.update_lfo();
        lfos.set(i, lfo);
        i = i + 1;
    }
}

/// Sets the step of every oscillator of `lfos`, keeping their phases.
fn set_all_increments(lfos: &mut Vec<LFO>, increment: u32)
    ensures
        final(lfos)@.len() == old(lfos)@.len(),
        forall|i: int|
            0 <= i < old(lfos)@.len() ==> {
                &&& (#[trigger] final(lfos)@[i]).increment_spec() == increment
                &&& final(lfos)@[i].phase_spec() == old(lfos)@[i].phase_spec()
            },
{
    let n = lfos.len();
    let mut i: usize = 0;
    while i < n
        invariant
            n == old(lfos)@.len(),
            lfos@.len() == n,
            i <= n,
            forall|j: int|
                0 <= j < i ==> {
                    &&& (#[trigger] lfos@[j]).increment_spec() == increment
                    &&& lfos@[j].phase_spec() == old(lfos)@[j].phase_spec()
                },
            forall|j: int| i <= j < n ==> #[trigger] lfos@[j] == old(lfos)@[j],
        decreases n - i,
    {
        let mut lfo = lfos[i];
        lfo.set_increment(increment);
        lfos.set(i, lfo);
        i = i + 1;
    }
}

/// The seed of voice `k` of a chorus seeded with `seed`: the voices of the
/// left channel are numbered from `0`, those of the right channel from
/// `CHORUS_VOICES`.
pub open spec fn voice_seed(seed: u64, k: nat) -> u64 {
    ((seed + k) % 0x1_0000_0000_0000_0000) as u64
}

/// `count` oscillators at `increment`; oscillator `j` starts at the phase
/// drawn from the seed of voice `first + j`.
fn seeded_voices(increment: u32, seed: u64, first: usize, count: usize) -> (r: Vec<LFO>)
    requires
        first + count <= 2 * CHORUS_VOICES,
    ensures
        r@.len() == count,
        forall|i: int| 0 <= i < count ==> (#[trigger] r@[i]).increment_spec() == increment,
        forall|i: int|
            0 <= i < count ==> (#[trigger] r@[i]).phase_spec() == seeded_draw(
                voice_seed(seed, (first + i) as nat),
            ),
{
    let mut r: Vec<LFO> = Vec::with_capacity(count);
    let mut i: usize = 0;
    while i < count
        invariant
            i <= count,
            first + count <= 2 * CHORUS_VOICES,
            r@.len() == i,
            forall|j: int| 0 <= j < i ==> (#[trigger] r@[j]).increment_spec() == increment,
            forall|j: int|
                0 <= j < i ==> (#[trigger] r@[j]).phase_spec() == seeded_draw(
                    voice_seed(seed, (first + j) as nat),
                ),
        decreases count - i,
    {
        let k: u128 = (first + i) as u128;
        let voice: u64 = ((seed as u128 + k) % 0x1_0000_0000_0000_0000u128) as u64;
        r.push(LFO::new_random_phase(increment, voice));
        i = i + 1;
    }
    r
}

/// The phases of the first `ACTIVE_VOICES` oscillators of `lfos`.
fn active_phases(lfos: &Vec<LFO>) -> (r: Vec<u32>)
    requires
        lfos@.len() >= ACTIVE_VOICES,
    ensures
        r@.len() == ACTIVE_VOICES,
        forall|i: int| 0 <= i < ACTIVE_VOICES ==> r@[i] == (#[trigger] lfos@[i]).phase_spec(),
{
    let mut r: Vec<u32> = Vec::with_capacity(ACTIVE_VOICES);
    let mut i: usize = 0;
    while i < ACTIVE_VOICES
        invariant
            i <= ACTIVE_VOICES,
            lfos@.len() >= ACTIVE_VOICES,
            r@.len() == i,
            forall|j: int| 0 <= j < i ==> r@[j] == (#[trigger] lfos@[j]).phase_spec(),
        decreases ACTIVE_VOICES - i,
    {
        r.push(lfos[i].phase());
        i = i + 1;
    }
    r
}

/// The chorus's modulation: `CHORUS_VOICES` oscillators per channel at the
/// same rate and at decorrelated phases, of which the first
/// `ACTIVE_VOICES` modulate the delay taps. In mono mode the right channel
/// is modulated by the left channel's oscillators.
pub struct ChorusModulation {
    left: Vec<LFO>,
    right: Vec<LFO>,
    increment: u32,
    mono: bool,
}

impl ChorusModulation {
    pub closed spec fn wf(&self) -> bool {
        &&& self.left@.len() == CHORUS_VOICES
        &&& self.right@.len() == CHORUS_VOICES
        &&& forall|i: int| 0 <= i < CHORUS_VOICES ==> (#[trigger] self.left@[i]).increment_spec() == self.increment
        &&& forall|i: int| 0 <= i < CHORUS_VOICES ==> (#[trigger] self.right@[i]).increment_spec() == self.increment
    }

    /// Phases of the left channel's oscillators.
    pub closed spec fn left_phases_spec(&self) -> Seq<nat> {
        self.left@.map_values(|l: LFO| l.phase_spec())
    }

    /// Phases of the right channel's own oscillators.
    pub closed spec fn right_phases_spec(&self) -> Seq<nat> {
        self.right@.map_values(|l: LFO| l.phase_spec())
    }

    pub closed spec fn increment_spec(&self) -> nat {
        self.increment as nat
    }

    pub closed spec fn mono_spec(&self) -> bool {
        self.mono
    }

    /// A modulation in stereo mode whose oscillators all step by
    /// `increment`, each starting at a phase drawn from `seed` and its own
    /// voice number, so that the voices are decorrelated and the same seed
    /// always gives the same phases.
    pub fn new(increment: u32, seed: u64) -> (r: Self)
        ensures
            r.wf(),
            r.increment_spec() == increment,
            !r.mono_spec(),
            r.left_phases_spec().len() == CHORUS_VOICES,
            r.right_phases_spec().len() == CHORUS_VOICES,
            forall|i: int|
                0 <= i < CHORUS_VOICES ==> #[trigger] r.left_phases_spec()[i] == seeded_draw(
                    voice_seed(seed, i as nat),
                ),
            forall|i: int|
                0 <= i < CHORUS_VOICES ==> #[trigger] r.right_phases_spec()[i] == seeded_draw(
                    voice_seed(seed, (CHORUS_VOICES + i) as nat),
                ),
            forall|i: int| 0 <= i < CHORUS_VOICES ==> #[trigger] r.left_phases_spec()[i] < PHASE_CYCLE,
            forall|i: int| 0 <= i < CHORUS_VOICES ==> #[trigger] r.right_phases_spec()[i] < PHASE_CYCLE,
    {
        ChorusModulation {
            left: seeded_voices(increment, seed, 0, CHORUS_VOICES),
            right: seeded_voices(increment, seed, CHORUS_VOICES, CHORUS_VOICES),
            increment,
            mono: false,
        }
    }

    /// Each channel holds `CHORUS_VOICES` oscillators, every phase within
    /// one turn.
    pub proof fn lemma_voices_in_turn(&self)
        requires
            self.wf(),
        ensures
            self.left_phases_spec().len() == CHORUS_VOICES,
            self.right_phases_spec().len() == CHORUS_VOICES,
            forall|i: int| 0 <= i < CHORUS_VOICES ==> #[trigger] self.left_phases_spec()[i] < PHASE_CYCLE,
            forall|i: int| 0 <= i < CHORUS_VOICES ==> #[trigger] self.right_phases_spec()[i] < PHASE_CYCLE,
    {
        assert forall|i: int| 0 <= i < CHORUS_VOICES implies #[trigger] self.left_phases_spec()[i] < PHASE_CYCLE by {
            self.left@[i].lemma_phase_in_turn();
        }
        assert forall|i: int| 0 <= i < CHORUS_VOICES implies #[trigger] self.right_phases_spec()[i] < PHASE_CYCLE by {
            self.right@[i].lemma_phase_in_turn();
        }
    }

    /// Sets the rate of every oscillator and the mono mode; phases are kept.
    pub fn set_params(&mut self, increment: u32, mono: bool)
        requires
            old(self).wf(),
        ensures
            final(self).wf(),
            final(self).increment_spec() == increment,
            final(self).mono_spec() == mono,
            final(self).left_phases_spec().len() == CHORUS_VOICES,
            final(self).left_phases_spec() == old(self).left_phases_spec(),
            final(self).right_phases_spec() == old(self).right_phases_spec(),
    {
        set_all_increments(&mut self.left, increment);
        set_all_increments(&mut self.right, increment);
        self.increment = increment;
        self.mono = mono;
        assert(self.left_phases_spec() =~= old(self).left_phases_spec());
        assert(self.right_phases_spec() =~= old(self).right_phases_spec());
    }

    /// Phases that modulate the active voices of the left channel.
    pub fn left_phases(&self) -> (r: Vec<u32>)
        requires
            self.wf(),
        ensures
            r@.len() == ACTIVE_VOICES,
            forall|i: int| 0 <= i < ACTIVE_VOICES ==> r@[i] == #[trigger] self.left_phases_spec()[i],
    {
        active_phases(&self.left)
    }

    /// Phases that modulate the active voices of the right channel: the
    /// left channel's in mono mode, its own otherwise.
    pub fn right_phases(&self) -> (r: Vec<u32>)
        requires
            self.wf(),
        ensures
            r@.len() == ACTIVE_VOICES,
            forall|i: int|
                0 <= i < ACTIVE_VOICES ==> r@[i] == (if self.mono_spec() {
                    #[trigger] self.left_phases_spec()[i]
                } else {
                    self.right_phases_spec()[i]
                }),
    {
        if self.mono {
            active_phases(&self.left)
        } else {
            active_phases(&self.right)
        }
    }

    /// Advances every oscillator of both channels once; called once per
    /// frame.
    pub fn update_modulators(&mut self)
        requires
            old(self).wf(),
        ensures
            final(self).wf(),
            final(self).increment_spec() == old(self).increment_spec(),
            final(self).mono_spec() == old(self).mono_spec(),
            final(self).left_phases_spec().len() == CHORUS_VOICES,
            final(self).right_phases_spec().len() == CHORUS_VOICES,
            forall|i: int|
                0 <= i < CHORUS_VOICES ==> #[trigger] final(self).left_phases_spec()[i] == phase_after(
                    old(self).left_phases_spec()[i],
                    old(self).increment_spec(),
                    1,
                ),
            forall|i: int|
                0 <= i < CHORUS_VOICES ==> #[trigger] final(self).right_phases_spec()[i] == phase_after(
                    old(self).right_phases_spec()[i],
                    old(self).increment_spec(),
                    1,
                ),
    {
        advance_all(&mut self.left);
        advance_all(&mut self.right);
    }
}

} // verus!
