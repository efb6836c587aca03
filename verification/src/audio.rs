//! The cadence of audio samples.
//!
//! Audio is sampled on the emulated clock, not on the wall clock: a counter
//! advances with every tick of the core, and each time it reaches the number
//! of ticks per sample one stereo pair is due and the counter starts over.
//! While the sound is muted the counter keeps running and no pair is due.

use vstd::prelude::*;

verus! {

/// Frequency of the master clock of the console, in Hz.
pub const CRYSTAL_FREQUENCY: u32 = 16_000_000;

/// Audio samples per second.
pub const SAMPLE_RATE: u32 = 16_000;

/// Ticks of the master clock between two audio samples.
pub const TICKS_PER_AUDIO_SAMPLE: u64 = 1_000;

/// The counter after one more tick.
pub open spec fn next_tick(tick: nat) -> nat {
    if tick + 1 == TICKS_PER_AUDIO_SAMPLE {
        0
    } else {
        tick + 1
    }
}

/// Whether the tick that moves the counter on from `tick` draws a sample.
pub open spec fn sample_due(tick: nat, muted: bool) -> bool {
    !muted && tick + 1 == TICKS_PER_AUDIO_SAMPLE
}

/// The counter after `n` more ticks.
pub open spec fn tick_after(tick: nat, n: nat) -> nat
    decreases n,
{
    if n == 0 {
        tick
    } else {
        next_tick(tick_after(tick, (n - 1) as nat))
    }
}

/// How many stereo pairs `n` ticks draw, the counter starting at `tick`.
pub open spec fn pairs_drawn(tick: nat, n: nat, muted: bool) -> nat
    decreases n,
{
    if n == 0 {
        0
    } else {
        let before = pairs_drawn(tick, (n - 1) as nat, muted);
        if sample_due(tick_after(tick, (n - 1) as nat), muted) {
            before + 1
        } else {
            before
        }
    }
}

/// What the accumulator holds: the tick counter and the samples gathered
/// since the last flush, left and right in turn.
pub struct AccumulatorModel {
    pub tick: nat,
    pub samples: Seq<i16>,
}

/// The tick counter together with the samples of the current frame.
pub struct SampleAccumulator {
    tick: u64,
    samples: Vec<i16>,
}

impl View for SampleAccumulator {
    type V = AccumulatorModel;

    closed spec fn view(&self) -> AccumulatorModel {
        AccumulatorModel { tick: self.tick as nat, samples: self.samples@ }
    }
}

impl SampleAccumulator {
    #[verifier::type_invariant]
    spec fn well_formed(&self) -> bool {
        self.tick < TICKS_PER_AUDIO_SAMPLE
    }

    /// An accumulator at the start of a sample period, with no samples.
    pub fn new() -> (accumulator: SampleAccumulator)
        ensures
            accumulator@ == (AccumulatorModel { tick: 0, samples: Seq::empty() }),
    {
        SampleAccumulator { tick: 0, samples: Vec::new() }
    }

    /// Counts one tick of the core.  Returns whether a stereo pair is now to
    /// be read from the core and handed to `push`.
    pub fn advance(&mut self, muted: bool) -> (due: bool)
        ensures
            old(self)@.tick < TICKS_PER_AUDIO_SAMPLE,
            final(self)@.tick == next_tick(old(self)@.tick),
            final(self)@.samples == old(self)@.samples,
            due == sample_due(old(self)@.tick, muted),
    {
        proof {
            use_type_invariant(&*self);
        }
        if self.tick + 1 == TICKS_PER_AUDIO_SAMPLE {
            self.tick = 0;
            !muted
        } else {
            self.tick = self.tick + 1;
            false
        }
    }

    /// Appends one stereo pair.
    pub fn push(&mut self, left: i16, right: i16)
        ensures
            final(self)@.tick == old(self)@.tick,
            final(self)@.samples == old(self)@.samples.push(left).push(right),
    {
        proof {
            use_type_invariant(&*self);
        }
        let mut samples: Vec<i16> = Vec::new();
        core::mem::swap(&mut samples, &mut self.samples);
        samples.push(left);
        samples.push(right);
        self.samples = samples;
    }

    /// Number of sample values gathered since the last flush.
    pub fn len(&self) -> (n: usize)
        ensures
            n == self@.samples.len(),
    {
        self.samples.len()
    }

    /// Hands out the samples of the frame as one buffer and starts the next
    /// frame with none.  Without samples there is no buffer.
    pub fn flush(&mut self) -> (buffer: Option<Vec<i16>>)
        ensures
            final(self)@.tick == old(self)@.tick,
            final(self)@.samples == Seq::<i16>::empty(),
            match buffer {
                Some(samples) => samples@ == old(self)@.samples && samples@.len() > 0,
                None => old(self)@.samples.len() == 0,
            },
    {
        proof {
            use_type_invariant(&*self);
        }
        if self.samples.len() == 0 {
            assert(self.samples@ =~= Seq::<i16>::empty());
            None
        } else {
            let mut samples: Vec<i16> = Vec::new();
            core::mem::swap(&mut samples, &mut self.samples);
            Some(samples)
        }
    }
}

/// After `n` ticks the counter has wrapped `(tick + n) / ticks-per-sample`
/// times.
pub proof fn lemma_tick_after(tick: nat, n: nat)
    requires
        tick < TICKS_PER_AUDIO_SAMPLE,
    ensures
        tick_after(tick, n) == (tick + n) % (TICKS_PER_AUDIO_SAMPLE as nat),
    decreases n,
{
    if n > 0 {
        lemma_tick_after(tick, (n - 1) as nat);
    }
}

/// One stereo pair is drawn every `TICKS_PER_AUDIO_SAMPLE` ticks, neither
/// more nor fewer: `n` ticks draw `(tick + n) / TICKS_PER_AUDIO_SAMPLE`
/// pairs when the sound is on, and none when it is muted.
pub proof fn lemma_sample_cadence(tick: nat, n: nat)
    requires
        tick < TICKS_PER_AUDIO_SAMPLE,
    ensures
        pairs_drawn(tick, n, false) == (tick + n) / (TICKS_PER_AUDIO_SAMPLE as nat),
        pairs_drawn(tick, n, true) == 0,
    decreases n,
{
    if n > 0 {
        lemma_sample_cadence(tick, (n - 1) as nat);
        lemma_tick_after(tick, (n - 1) as nat);
    }
}

/// Counted from the start of a sample period, `n` ticks gather
/// `2 * (n / TICKS_PER_AUDIO_SAMPLE)` sample values.
pub proof fn lemma_samples_from_start(n: nat)
    ensures
        2 * pairs_drawn(0, n, false) == 2 * (n / (TICKS_PER_AUDIO_SAMPLE as nat)),
        pairs_drawn(0, n, true) == 0,
        TICKS_PER_AUDIO_SAMPLE == CRYSTAL_FREQUENCY / SAMPLE_RATE,
{
    lemma_sample_cadence(0, n);
}

} // verus!
