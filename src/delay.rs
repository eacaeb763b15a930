use vstd::prelude::*;
use crate::history::{lemma_written_all, newest_first, written, written_all, History};

verus! {

/// Smallest number of samples a delay line holds: a fractional read needs
/// two neighbouring taps.
pub const MIN_DELAY_CAPACITY: usize = 2;

/// The largest whole delay, in samples, that a line of `capacity` samples
/// can read.
pub open spec fn max_delay(capacity: nat) -> nat {
    (capacity - 1) as nat
}

/// A requested delay clamped to what a line of `capacity` samples holds.
pub open spec fn clamp_delay(delay: nat, capacity: nat) -> nat {
    if delay <= max_delay(capacity) {
        delay
    } else {
        max_delay(capacity)
    }
}

/// Capacity, in samples, of a line holding `seconds` of signal at
/// `sample_rate`: never below `MIN_DELAY_CAPACITY`, and saturated at the
/// largest `usize`.
pub open spec fn capacity_for_spec(seconds: nat, sample_rate: nat) -> nat {
    if seconds * sample_rate < MIN_DELAY_CAPACITY {
        MIN_DELAY_CAPACITY as nat
    } else if seconds * sample_rate > usize::MAX {
        usize::MAX as nat
    } else {
        seconds * sample_rate
    }
}

/// The capacity of a line holding `seconds` of signal at `sample_rate`.
pub fn capacity_for(seconds: usize, sample_rate: usize) -> (r: usize)
    ensures
        r == capacity_for_spec(seconds as nat, sample_rate as nat),
        r >= MIN_DELAY_CAPACITY,
{
    assert(seconds as u128 * sample_rate as u128 <= u64::MAX as u128 * u64::MAX as u128) by (nonlinear_arith)
        requires
            seconds <= u64::MAX,
            sample_rate <= u64::MAX,
    ;
    let product: u128 = seconds as u128 * sample_rate as u128;
    if product < MIN_DELAY_CAPACITY as u128 {
        MIN_DELAY_CAPACITY
    } else if product > usize::MAX as u128 {
        usize::MAX
    } else {
        product as usize
    }
}

/// A unit impulse `imp` followed by `d` samples of `silence`.
pub open spec fn impulse<T>(imp: T, silence: T, d: nat) -> Seq<T> {
    seq![imp] + Seq::new(d, |_k: int| silence)
}

/// Impulse response of a delay line: into a silent line of `capacity`
/// samples, write an impulse and then `d` silent samples. The sample `d`
/// writes ago is the impulse, every other sample held is silence, so a read
/// at the whole delay `d` reproduces the impulse and nothing is smeared
/// onto other delays.
pub proof fn lemma_impulse_response<T>(capacity: nat, imp: T, silence: T, d: nat, k: nat)
    requires
        d < capacity,
        k < capacity,
    ensures
        written_all(Seq::new(capacity, |_k: int| silence), impulse(imp, silence, d))[k as int]
            == (if k == d { imp } else { silence }),
        clamp_delay(d, capacity) == d,
{
    let h = Seq::new(capacity, |_k: int| silence);
    let xs = impulse(imp, silence, d);
    lemma_written_all(h, xs);
    assert(newest_first(h, xs)[k as int] == (if k == d { imp } else { silence }));
}

/// A delay line: a history of the input samples and a parallel history of
/// the output samples, both of the same capacity.
///
/// The input is written before it is read, so a delay of `0` reads the
/// sample just written. Requests beyond the capacity are clamped to the
/// oldest sample held, never indexed out of range.
pub struct DelayLine<T> {
    inputs: History<T>,
    outputs: History<T>,
}

impl<T: Copy> DelayLine<T> {
    pub closed spec fn wf(&self) -> bool {
        &&& self.inputs.wf()
        &&& self.outputs.wf()
        &&& self.inputs@.len() == self.outputs@.len()
        &&& self.inputs@.len() >= MIN_DELAY_CAPACITY
    }

    /// Input samples, most recent first.
    pub closed spec fn inputs(&self) -> Seq<T> {
        self.inputs@
    }

    /// Output samples, most recent first.
    pub closed spec fn outputs(&self) -> Seq<T> {
        self.outputs@
    }

    /// A silent line holding `capacity` samples of each history.
    pub fn new(capacity: usize, silence: T) -> (r: Self)
        requires
            capacity >= MIN_DELAY_CAPACITY,
        ensures
            r.wf(),
            r.inputs() == Seq::new(capacity as nat, |_k: int| silence),
            r.outputs() == Seq::new(capacity as nat, |_k: int| silence),
    {
        DelayLine { inputs: History::new(capacity, silence), outputs: History::new(capacity, silence) }
    }

    /// Resizes both histories to `capacity` and silences them: what was
    /// in flight is lost.
    pub fn resize_buffers(&mut self, capacity: usize, silence: T)
        requires
            capacity >= MIN_DELAY_CAPACITY,
        ensures
            final(self).wf(),
            final(self).inputs() == Seq::new(capacity as nat, |_k: int| silence),
            final(self).outputs() == Seq::new(capacity as nat, |_k: int| silence),
    {
        self.inputs.reset(capacity, silence);
        self.outputs.reset(capacity, silence);
    }

    /// Number of samples each history holds.
    pub fn capacity(&self) -> (r: usize)
        requires
            self.wf(),
        ensures
            r == self.inputs().len(),
            r == self.outputs().len(),
            r >= MIN_DELAY_CAPACITY,
    {
        self.inputs.len()
    }

    /// Writes the next input sample.
    pub fn write_input(&mut self, x: T)
        requires
            old(self).wf(),
        ensures
            final(self).wf(),
            final(self).inputs() == written(old(self).inputs(), x),
            final(self).outputs() == old(self).outputs(),
    {
        self.inputs.write(x);
    }

    /// Writes the next output sample.
    pub fn write_output(&mut self, y: T)
        requires
            old(self).wf(),
        ensures
            final(self).wf(),
            final(self).outputs() == written(old(self).outputs(), y),
            final(self).inputs() == old(self).inputs(),
    {
        self.outputs.write(y);
    }

    /// The input sample `delay` writes ago, with `delay` clamped to the
    /// capacity.
    pub fn read_input(&self, delay: usize) -> (r: T)
        requires
            self.wf(),
        ensures
            r == self.inputs()[clamp_delay(delay as nat, self.inputs().len()) as int],
    {
        let n = self.clamp(delay);
        self.inputs.ago(n)
    }

    /// The output sample `delay` writes ago, with `delay` clamped to the
    /// capacity.
    pub fn read_output(&self, delay: usize) -> (r: T)
        requires
            self.wf(),
        ensures
            r == self.outputs()[clamp_delay(delay as nat, self.outputs().len()) as int],
    {
        let n = self.clamp(delay);
        self.outputs.ago(n)
    }

    /// The two input taps around a fractional delay whose whole part is
    /// `whole`: the sample `whole` writes ago and the one before it, each
    /// clamped on its own to the oldest sample held. A fractional delay
    /// `whole + f` reads `(1 - f)` of the first and `f` of the second, so a
    /// whole delay reads the first tap alone.
    pub fn read_input_pair(&self, whole: usize) -> (r: (T, T))
        requires
            self.wf(),
        ensures
            r.0 == self.inputs()[clamp_delay(whole as nat, self.inputs().len()) as int],
            r.1 == self.inputs()[clamp_delay(whole as nat + 1, self.inputs().len()) as int],
    {
        let first = self.clamp(whole);
        let second: usize = if first < self.inputs.len() - 1 {
            first + 1
        } else {
            first
        };
        (self.inputs.ago(first), self.inputs.ago(second))
    }

    /// `delay` clamped to the largest delay the line holds.
    pub fn clamp(&self, delay: usize) -> (r: usize)
        requires
            self.wf(),
        ensures
            r == clamp_delay(delay as nat, self.inputs().len()),
    {
        let cap = self.inputs.len();
        if delay <= cap - 1 {
            delay
        } else {
            cap - 1
        }
    }
}

} // verus!
