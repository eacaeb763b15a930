//! Verified building blocks for per-sample stereo audio effects: circular
//! sample histories, phase accumulators, filter-topology selection and the
//! modulation state machines of the chorus, flanger and phaser engines.
//!
//! The sample type is a parameter throughout: the arithmetic on samples is
//! done by the caller, while indexing, wrap-around, clamping and the order in
//! which modulators advance are proved here.

mod chorus;
mod delay;
mod disperser;
mod filter;
mod flanger;
mod history;
mod lfo;
mod phaser;

pub use chorus::{voice_seed, ChorusModulation, ACTIVE_VOICES, CHORUS_VOICES};
pub use delay::{
    capacity_for, capacity_for_spec, clamp_delay, impulse, lemma_impulse_response, max_delay, DelayLine,
    MIN_DELAY_CAPACITY,
};
pub use disperser::{active_stages, clamp_amount, MAX_DISPERSER_STAGES};
pub use filter::{BiquadState, FilterType, FilterTypeTracker, FILTER_TYPE_COUNT};
pub use flanger::{lemma_stereo_offset_kept, FlangerModulation, QUARTER_TURN};
pub use history::{lemma_written_all, newest_first, written, written_all, History};
pub use lfo::{lemma_lfo_period, lemma_phase_step, phase_after, seeded_draw, LFO, PHASE_CYCLE};
pub use phaser::{
    clamp_stages, corner_high_spec, corner_low_spec, corner_range, lemma_frame_order,
    PhaserModulation, MAX_PHASER_STAGES, PHASER_ALLPASSES,
};
