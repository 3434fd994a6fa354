//! Bresenham box-filter audio resampling.
//!
//! Downsamples from an input clock rate to an output sample rate by averaging
//! every input sample that falls inside one output period.

use vstd::prelude::*;
use crate::clock::{
    bresenham_run,
    bresenham_step,
    law_bresenham_exact_over_one_period,
    law_bresenham_count_from_any_phase,
};

verus! {

/// Integer division rounding toward zero, as Rust's `/` on signed integers.
pub open spec fn div_toward_zero(a: int, b: int) -> int
    recommends
        b > 0,
{
    if a >= 0 {
        a / b
    } else {
        -((-a) / b)
    }
}

/// One input tick of the Bresenham phase shared by the resamplers: the
/// phase moves on by the output rate, and an output sample is due when it
/// reaches the input rate, which it then gives back.
pub fn next_phase(phase: u64, input_rate: u64, output_rate: u64) -> (r: (u64, bool))
    requires
        phase + output_rate <= u64::MAX,
    ensures
        r == if phase + output_rate >= input_rate {
            ((phase + output_rate - input_rate) as u64, true)
        } else {
            ((phase + output_rate) as u64, false)
        },
{
    let ph = phase + output_rate;
    if ph >= input_rate {
        (ph - input_rate, true)
    } else {
        (ph, false)
    }
}

/// One more sample at `input_rate` to `output_rate`, from (accumulator,
/// count, phase) `st`: the sample is added in and the phase moves on by the
/// output rate; when it reaches the input rate an output is due, the
/// average of the accumulated samples truncated toward zero, and the
/// accumulator starts over.
pub open spec fn resample_step(input_rate: u64, output_rate: u64, st: (i64, u32, u64), sample: i16) -> (
    i64,
    u32,
    u64,
    Option<i16>,
) {
    let acc = st.0 + sample;
    let cnt = st.1 + 1;
    let ph = st.2 + output_rate;
    if ph >= input_rate {
        (0, 0, (ph - input_rate) as u64, Some(div_toward_zero(acc, cnt) as i16))
    } else {
        (acc as i64, cnt as u32, ph as u64, None)
    }
}

/// Bresenham box-filter audio resampler (i64 accumulator, i16 output).
///
/// Each `tick()` accumulates a sample; when the Bresenham phase crosses the
/// input rate, the average of the accumulated samples is pushed to the
/// internal buffer.
pub struct AudioResampler {
    pub input_rate: u64,
    pub output_rate: u64,
    pub sample_accum: i64,
    pub sample_count: u32,
    pub sample_phase: u64,
    pub buffer: Vec<i16>,
}

impl AudioResampler {
    /// The accumulator holds a sum of `sample_count` i16 samples, so their
    /// average is itself an i16.
    pub open spec fn wf(&self) -> bool {
        -32768 * self.sample_count <= self.sample_accum <= 32767 * self.sample_count
    }

    /// What one more sample does to (accumulator, count, phase, output), as a
    /// pure function of the state before it.
    pub open spec fn step(&self, sample: i16) -> (i64, u32, u64, Option<i16>) {
        resample_step(
            self.input_rate,
            self.output_rate,
            (self.sample_accum, self.sample_count, self.sample_phase),
            sample,
        )
    }

    /// Whether one more sample can be taken without an integer overflowing.
    pub open spec fn can_tick(&self, sample: i16) -> bool {
        &&& self.sample_accum + sample <= i64::MAX
        &&& self.sample_accum + sample >= i64::MIN
        &&& self.sample_count < u32::MAX
        &&& self.sample_phase + self.output_rate <= u64::MAX
    }

    /// Create a new resampler from `input_rate` Hz to `output_rate` Hz.
    pub fn new(input_rate: u64, output_rate: u64) -> (r: Self)
        ensures
            r.wf(),
            r.input_rate == input_rate,
            r.output_rate == output_rate,
            r.sample_accum == 0,
            r.sample_count == 0,
            r.sample_phase == 0,
            r.buffer@ == Seq::<i16>::empty(),
    {
        AudioResampler {
            input_rate,
            output_rate,
            sample_accum: 0,
            sample_count: 0,
            sample_phase: 0,
            buffer: Vec::with_capacity(2048),
        }
    }

    /// Accumulate one input sample, pushing the average to the buffer when
    /// this tick completes an output sample.
    pub fn tick(&mut self, sample: i16)
        requires
            old(self).wf(),
            old(self).can_tick(sample),
        ensures
            final(self).wf(),
            final(self).input_rate == old(self).input_rate,
            final(self).output_rate == old(self).output_rate,
            (final(self).sample_accum, final(self).sample_count, final(self).sample_phase)
                == ({
                let s = old(self).step(sample);
                (s.0, s.1, s.2)
            }),
            final(self).buffer@ == match old(self).step(sample).3 {
                Some(avg) => old(self).buffer@.push(avg),
                None => old(self).buffer@,
            },
    {
        let out = self.tick_sample(sample);
        if let Some(avg) = out {
            self.buffer.push(avg);
        }
    }

    /// Accumulate one input sample. If this tick completes an output sample,
    /// return the box-filtered average without pushing it to the buffer.
    pub fn tick_sample(&mut self, sample: i16) -> (r: Option<i16>)
        requires
            old(self).wf(),
            old(self).can_tick(sample),
        ensures
            final(self).wf(),
            final(self).input_rate == old(self).input_rate,
            final(self).output_rate == old(self).output_rate,
            final(self).buffer@ == old(self).buffer@,
            (final(self).sample_accum, final(self).sample_count, final(self).sample_phase, r)
                == old(self).step(sample),
    {
        self.sample_accum = self.sample_accum + sample as i64;
        self.sample_count = self.sample_count + 1;
        self.sample_phase = self.sample_phase + self.output_rate;
        if self.sample_phase >= self.input_rate {
            self.sample_phase = self.sample_phase - self.input_rate;
            let acc = self.sample_accum;
            let cnt = self.sample_count;
            proof {
                let c = cnt as int;
                let a = acc as int;
                assert(-32768 * c <= a <= 32767 * c);
                assert(c > 0);
                assert(-32768 <= div_toward_zero(a, c) <= 32767) by (nonlinear_arith)
                    requires
                        -32768 * c <= a <= 32767 * c,
                        c > 0,
                ;
            }
            let avg: i16 = if cnt > 0 {
                (acc / cnt as i64) as i16
            } else {
                0
            };
            self.sample_accum = 0;
            self.sample_count = 0;
            Some(avg)
        } else {
            None
        }
    }

    /// Manually push a sample to the output buffer.
    pub fn push_sample(&mut self, sample: i16)
        ensures
            final(self).buffer@ == old(self).buffer@.push(sample),
            final(self).input_rate == old(self).input_rate,
            final(self).output_rate == old(self).output_rate,
            final(self).sample_accum == old(self).sample_accum,
            final(self).sample_count == old(self).sample_count,
            final(self).sample_phase == old(self).sample_phase,
    {
        self.buffer.push(sample);
    }

    /// Drain buffered samples into `buffer`, oldest first. Returns how many
    /// were written: as many as both the buffer and the backlog allow.
    pub fn fill_audio(&mut self, buffer: &mut [i16]) -> (n: usize)
        ensures
            n == if old(buffer)@.len() < old(self).buffer@.len() {
                old(buffer)@.len()
            } else {
                old(self).buffer@.len()
            },
            final(buffer)@ == old(self).buffer@.take(n as int) + old(buffer)@.skip(n as int),
            final(self).buffer@ == old(self).buffer@.skip(n as int),
            final(self).input_rate == old(self).input_rate,
            final(self).output_rate == old(self).output_rate,
            final(self).sample_accum == old(self).sample_accum,
            final(self).sample_count == old(self).sample_count,
            final(self).sample_phase == old(self).sample_phase,
    {
        let n = if buffer.len() < self.buffer.len() {
            buffer.len()
        } else {
            self.buffer.len()
        };
        let mut i: usize = 0;
        while i < n
            invariant
                n <= buffer.len(),
                n <= self.buffer.len(),
                buffer@.len() == old(buffer)@.len(),
                self.buffer@ == old(self).buffer@,
                0 <= i <= n,
                forall|k: int| 0 <= k < i ==> buffer@[k] == self.buffer@[k],
                forall|k: int| i <= k < buffer@.len() ==> buffer@[k] == old(buffer)@[k],
            decreases n - i,
        {
            buffer[i] = self.buffer[i];
            i += 1;
        }
        let mut rest: Vec<i16> = Vec::new();
        let mut j: usize = n;
        while j < self.buffer.len()
            invariant
                n <= j <= self.buffer.len(),
                rest@ == self.buffer@.subrange(n as int, j as int),
            decreases self.buffer.len() - j,
        {
            rest.push(self.buffer[j]);
            j += 1;
        }
        self.buffer = rest;
        assert(buffer@ =~= old(self).buffer@.take(n as int) + old(buffer)@.skip(n as int));
        assert(self.buffer@ =~= old(self).buffer@.skip(n as int));
        n
    }

    /// Clear all runtime state (phase, accumulator, buffer).
    pub fn reset(&mut self)
        ensures
            final(self).wf(),
            final(self).input_rate == old(self).input_rate,
            final(self).output_rate == old(self).output_rate,
            final(self).sample_accum == 0,
            final(self).sample_count == 0,
            final(self).sample_phase == 0,
            final(self).buffer@ == Seq::<i16>::empty(),
    {
        self.sample_accum = 0;
        self.sample_count = 0;
        self.sample_phase = 0;
        self.buffer.clear();
    }
}

/// The resampler keeps time as the clock divider does: each sample is one
/// Bresenham step of the output rate over the input rate, an output due
/// exactly when the step fires. So from a zero phase, over `input_rate`
/// samples it emits exactly `output_rate` outputs (an output rate no higher
/// than the input rate) and its phase is back at zero.
pub proof fn law_resampler_keeps_the_divider_ratio(r: AudioResampler, sample: i16)
    requires
        r.can_tick(sample),
    ensures
        (r.step(sample).2 as int, r.step(sample).3 is Some) == bresenham_step(
            r.sample_phase as int,
            r.output_rate as int,
            r.input_rate as int,
        ),
        0 < r.input_rate && r.output_rate <= r.input_rate ==> bresenham_run(
            0,
            r.output_rate as int,
            r.input_rate as int,
            r.input_rate as nat,
        ) == (0int, r.output_rate as int),
{
    if 0 < r.input_rate && r.output_rate <= r.input_rate {
        law_bresenham_exact_over_one_period(r.output_rate as int, r.input_rate as int);
    }
}


/// The resampler's state (accumulator, count, phase) and the outputs it
/// emitted after taking `samples` in order from `state`, at `input_rate`
/// to `output_rate`, each sample as `resample_step` takes it.
pub open spec fn resample_run(
    input_rate: u64,
    output_rate: u64,
    state: (i64, u32, u64),
    samples: Seq<i16>,
) -> ((i64, u32, u64), Seq<i16>)
    decreases samples.len(),
{
    if samples.len() == 0 {
        (state, Seq::empty())
    } else {
        let (st, outs) = resample_run(input_rate, output_rate, state, samples.drop_last());
        let (a, c, p, o) = resample_step(input_rate, output_rate, st, samples.last());
        (
            (a, c, p),
            match o {
                Some(v) => outs.push(v),
                None => outs,
            },
        )
    }
}

/// From a fresh or reset resampler (zero phase, nothing accumulated), `n`
/// input samples at an output rate no higher than the input rate yield
/// exactly `n * output_rate / input_rate` outputs, rounded down, and leave
/// the phase at `n * output_rate % input_rate`.
pub proof fn law_resampler_sample_count(input_rate: u64, output_rate: u64, samples: Seq<i16>)
    requires
        0 < output_rate <= input_rate,
    ensures
        resample_run(input_rate, output_rate, (0, 0, 0), samples).1.len() == samples.len()
            * output_rate / input_rate as int,
        resample_run(input_rate, output_rate, (0, 0, 0), samples).0.2 == samples.len()
            * output_rate % input_rate as int,
{
    lemma_resample_run_follows_the_divider(input_rate, output_rate, samples);
    law_bresenham_count_from_any_phase(
        0,
        output_rate as int,
        input_rate as int,
        samples.len(),
    );
}

/// The resampler's phase and output count over a run of samples are the
/// divider's phase and fire count over as many ticks.
proof fn lemma_resample_run_follows_the_divider(
    input_rate: u64,
    output_rate: u64,
    samples: Seq<i16>,
)
    requires
        0 < output_rate <= input_rate,
    ensures
        (
            resample_run(input_rate, output_rate, (0, 0, 0), samples).0.2 as int,
            resample_run(input_rate, output_rate, (0, 0, 0), samples).1.len() as int,
        ) == bresenham_run(0, output_rate as int, input_rate as int, samples.len()),
        resample_run(input_rate, output_rate, (0, 0, 0), samples).0.2 < input_rate,
    decreases samples.len(),
{
    if samples.len() > 0 {
        lemma_resample_run_follows_the_divider(input_rate, output_rate, samples.drop_last());
    }
}


/// Each output averages its own period alone. When a sample completes an
/// output, the accumulator and the count start over at zero, and the output
/// is the truncated average of the samples accumulated before it together
/// with this one; when it does not, the sample is added in and counted.
pub proof fn law_each_output_averages_only_its_own_period(
    input_rate: u64,
    output_rate: u64,
    acc: i64,
    cnt: u32,
    phase: u64,
    sample: i16,
)
    requires
        acc + sample <= i64::MAX,
        acc + sample >= i64::MIN,
        cnt < u32::MAX,
    ensures
        ({
            let (a, c, p, out) = resample_step(input_rate, output_rate, (acc, cnt, phase), sample);
            match out {
                Some(v) => a == 0 && c == 0 && v == div_toward_zero(acc + sample, cnt + 1) as i16,
                None => a == acc + sample && c == cnt + 1,
            }
        }),
{
}

/// The sum of a run of samples.
pub open spec fn sample_sum(s: Seq<i16>) -> int
    decreases s.len(),
{
    if s.len() == 0 {
        0
    } else {
        sample_sum(s.drop_last()) + s.last()
    }
}

/// Over a run of samples from a fresh resampler, the accumulator holds
/// exactly the sum of the last `count` samples, the ones taken since the
/// previous output, and every output is the truncated average of the samples
/// of its own period: the run's `k`-th output, emitted at sample `j`,
/// averages the samples after the output before it, up to and including
/// sample `j`.
pub proof fn law_resampler_accumulates_since_the_last_output(
    input_rate: u64,
    output_rate: u64,
    samples: Seq<i16>,
)
    requires
        samples.len() < 0x1_0000_0000,
    ensures
        ({
            let ((acc, cnt, _), outs) = resample_run(input_rate, output_rate, (0, 0, 0), samples);
            &&& cnt <= samples.len()
            &&& acc == sample_sum(samples.skip(samples.len() - cnt))
            &&& forall|j: int|
                0 <= j < samples.len() ==> {
                    let ((a0, c0, _), o0) = resample_run(
                        input_rate,
                        output_rate,
                        (0, 0, 0),
                        samples.take(j),
                    );
                    let ((_, _, _), o1) = resample_run(
                        input_rate,
                        output_rate,
                        (0, 0, 0),
                        #[trigger] samples.take(j + 1),
                    );
                    o1.len() > o0.len() ==> o1.last() == div_toward_zero(
                        sample_sum(samples.take(j + 1).skip(j - c0)),
                        c0 + 1,
                    ) as i16
                }
        }),
    decreases samples.len(),
{
    lemma_run_sum(input_rate, output_rate, samples);
    assert forall|j: int|
        0 <= j < samples.len() implies {
        let ((a0, c0, _), o0) = resample_run(input_rate, output_rate, (0, 0, 0), samples.take(j));
        let ((_, _, _), o1) = resample_run(
            input_rate,
            output_rate,
            (0, 0, 0),
            #[trigger] samples.take(j + 1),
        );
        o1.len() > o0.len() ==> o1.last() == div_toward_zero(
            sample_sum(samples.take(j + 1).skip(j - c0)),
            c0 + 1,
        ) as i16
    } by {
        let t = samples.take(j + 1);
        assert(t.drop_last() =~= samples.take(j));
        lemma_run_sum(input_rate, output_rate, samples.take(j));
        let ((a0, c0, _), o0) = resample_run(input_rate, output_rate, (0, 0, 0), samples.take(j));
        let tail = samples.take(j).skip(j - c0);
        assert(t.skip(j - c0).drop_last() =~= tail);
        assert(t.skip(j - c0).last() == t.last());
    }
}

/// The accumulator of a run from a fresh resampler is the sum of the last
/// `count` samples, and it fits its integer.
proof fn lemma_run_sum(input_rate: u64, output_rate: u64, samples: Seq<i16>)
    requires
        samples.len() < 0x1_0000_0000,
    ensures
        ({
            let ((acc, cnt, _), _) = resample_run(input_rate, output_rate, (0, 0, 0), samples);
            &&& cnt <= samples.len()
            &&& acc == sample_sum(samples.skip(samples.len() - cnt))
            &&& -32768 * cnt <= acc <= 32767 * cnt
        }),
    decreases samples.len(),
{
    if samples.len() > 0 {
        let init = samples.drop_last();
        lemma_run_sum(input_rate, output_rate, init);
        let ((a, c, _), _) = resample_run(input_rate, output_rate, (0, 0, 0), init);
        let n = samples.len();
        assert(samples.skip(n - (c + 1)).drop_last() =~= init.skip(init.len() - c));
        assert(samples.skip(n - (c + 1)).last() == samples.last());
        assert(samples.skip(n - 0) =~= Seq::<i16>::empty());
        assert(-32768 * (c + 1) <= a + samples.last() <= 32767 * (c + 1)) by (nonlinear_arith)
            requires
                -32768 * c <= a <= 32767 * c,
                -32768 <= samples.last() <= 32767,
        ;
        assert(c * 32767 <= 0x1_0000_0000 * 32767) by (nonlinear_arith)
            requires
                c <= 0x1_0000_0000,
        ;
    } else {
        assert(samples.skip(0) =~= samples);
    }
}

} // verus!
