//! The phase-accumulator sequencer: steps through independently cycling
//! lists of frequencies, shapes and phase offsets, one step per cycle (or
//! half cycle), and emits one sample per tick of the sample clock.
use crate::waveform::{
    cycle_len, cycle_length, evaluate, lemma_scaled_fits, position_ok, sample_of, wrap_phase,
    wrapped, Sample, Wave,
};
use vstd::prelude::*;

verus! {

/// Why a run cannot start.
#[derive(Clone, Copy, Debug, PartialEq, Eq, Structural)]
pub enum SynthError {
    EmptyFrequencies,
    EmptyWaveforms,
}

/// Number of steps in a run: the length of the longest of the three lists.
pub open spec fn step_count(n_freqs: int, n_waves: int, n_offsets: int) -> int {
    let m = if n_freqs >= n_waves {
        n_freqs
    } else {
        n_waves
    };
    if m >= n_offsets {
        m
    } else {
        n_offsets
    }
}

/// Frequency of a step, in millionths of a hertz (ticks per sample).
pub open spec fn freq_at(freqs: Seq<u64>, step: int) -> int {
    freqs[step % freqs.len() as int] as int
}

pub open spec fn wave_at(waves: Seq<Wave>, step: int) -> Wave {
    waves[step % waves.len() as int]
}

/// Phase offset of a step, in millionths of a cycle; 0 where there are none.
pub open spec fn offset_at(offsets: Seq<i64>, step: int) -> int {
    if offsets.len() == 0 {
        0
    } else {
        offsets[step % offsets.len() as int] as int
    }
}

pub open spec fn offsets_view(phase_offsets: Option<&[i64]>) -> Seq<i64> {
    match phase_offsets {
        Some(p) => p@,
        None => Seq::empty(),
    }
}

/// Whether the phase, just advanced to `next`, ends the current step: a full
/// cycle always does; with two breakpoints per cycle, so does reaching half
/// a cycle from below it, as judged on the phase the step started with.
pub open spec fn crosses(next: int, last: int, breakpoints: u16, cycle: int) -> bool {
    next >= cycle || (breakpoints == 2 && 2 * next >= cycle && 2 * last < cycle)
}

/// The samples that a run emits from the state (`step`, `phase`, `last`) on.
/// A state that no run reaches (a step past the end, a phase outside the
/// cycle, a frequency of zero) emits nothing.
pub open spec fn samples_from(
    freqs: Seq<u64>,
    waves: Seq<Wave>,
    offsets: Seq<i64>,
    breakpoints: u16,
    sample_rate: u32,
    step: int,
    phase: int,
    last: int,
) -> Seq<Sample>
    decreases
            step_count(freqs.len() as int, waves.len() as int, offsets.len() as int) - step,
            cycle_len(sample_rate) - phase,
{
    let n = step_count(freqs.len() as int, waves.len() as int, offsets.len() as int);
    let c = cycle_len(sample_rate);
    if freqs.len() == 0 || waves.len() == 0 || step < 0 || step >= n || phase < 0 || phase >= c
        || freq_at(freqs, step) <= 0 {
        Seq::empty()
    } else {
        let s = sample_of(
            wave_at(waves, step),
            phase + offset_at(offsets, step) * sample_rate,
            sample_rate,
        );
        let next = phase + freq_at(freqs, step);
        if crosses(next, last, breakpoints, c) {
            seq![s] + samples_from(
                freqs,
                waves,
                offsets,
                breakpoints,
                sample_rate,
                step + 1,
                wrapped(next, c),
                wrapped(next, c),
            )
        } else {
            seq![s] + samples_from(freqs, waves, offsets, breakpoints, sample_rate, step, next, last)
        }
    }
}

/// The outcome of a whole run.
pub open spec fn synthesis(
    freqs: Seq<u64>,
    waves: Seq<Wave>,
    breakpoints: u16,
    sample_rate: u32,
    offsets: Seq<i64>,
) -> Result<Seq<Sample>, SynthError> {
    if freqs.len() == 0 {
        Err(SynthError::EmptyFrequencies)
    } else if waves.len() == 0 {
        Err(SynthError::EmptyWaveforms)
    } else {
        Ok(samples_from(freqs, waves, offsets, breakpoints, sample_rate, 0, 0, 0))
    }
}

pub open spec fn result_view(r: Result<Vec<Sample>, SynthError>) -> Result<Seq<Sample>, SynthError> {
    match r {
        Ok(v) => Ok(v@),
        Err(e) => Err(e),
    }
}

/// The frequency, shape and phase offset of a step: each list is indexed by
/// the step modulo its own length.
pub fn step_settings(
    frequencies: &[u64],
    waves: &[Wave],
    phase_offsets: Option<&[i64]>,
    step: usize,
) -> (r: (u64, Wave, i64))
    requires
        frequencies@.len() > 0,
        waves@.len() > 0,
    ensures
        r.0 == frequencies@[step as int % frequencies@.len() as int],
        r.1 == waves@[step as int % waves@.len() as int],
        r.2 == offset_at(offsets_view(phase_offsets), step as int),
{
    let offset = match phase_offsets {
        Some(p) => {
            if p.len() == 0 {
                0
            } else {
                p[step % p.len()]
            }
        },
        None => 0,
    };
    (frequencies[step % frequencies.len()], waves[step % waves.len()], offset)
}

/// The state of one run: the three lists, the settings, and where the run
/// stands (step, phase, the phase the step started with, and the active
/// increment, shape and offset).
pub struct Sequencer {
    frequencies: Vec<u64>,
    waves: Vec<Wave>,
    offsets: Vec<i64>,
    breakpoints: u16,
    sample_rate: u32,
    n: usize,
    cycle: i128,
    step: usize,
    phase: i128,
    last: i128,
    inc: i128,
    wave: Wave,
    offset: i128,
}

impl Sequencer {
    /// The samples that the run has still to emit.
    pub closed spec fn remaining(&self) -> Seq<Sample> {
        samples_from(
            self.frequencies@,
            self.waves@,
            self.offsets@,
            self.breakpoints,
            self.sample_rate,
            self.step as int,
            self.phase as int,
            self.last as int,
        )
    }

    pub closed spec fn wf(&self) -> bool {
        let freqs = self.frequencies@;
        &&& freqs.len() > 0
        &&& self.waves@.len() > 0
        &&& forall|i: int| 0 <= i < freqs.len() ==> freqs[i] > 0
        &&& self.sample_rate > 0
        &&& self.n == step_count(freqs.len() as int, self.waves@.len() as int, self.offsets@.len() as int)
        &&& self.cycle == cycle_len(self.sample_rate)
        &&& 0 <= self.step <= self.n
        &&& 0 <= self.phase < self.cycle
        &&& 0 <= self.last < self.cycle
        &&& self.inc == freq_at(freqs, self.step as int)
        &&& self.wave == wave_at(self.waves@, self.step as int)
        &&& self.offset == offset_at(self.offsets@, self.step as int) * self.sample_rate
        &&& position_ok(self.offset as int)
    }

    /// Sets up a run at step 0 with phase 0; fails on an empty frequency or
    /// waveform list.
    pub fn new(
        frequencies: &[u64],
        waves: &[Wave],
        breakpoints: u16,
        sample_rate: u32,
        phase_offsets: Option<&[i64]>,
    ) -> (r: Result<Sequencer, SynthError>)
        requires
            sample_rate > 0,
            forall|i: int| 0 <= i < frequencies@.len() ==> frequencies@[i] > 0,
        ensures
            frequencies@.len() == 0 ==> r == Err::<Sequencer, SynthError>(
                SynthError::EmptyFrequencies,
            ),
            frequencies@.len() > 0 && waves@.len() == 0 ==> r == Err::<Sequencer, SynthError>(
                SynthError::EmptyWaveforms,
            ),
            frequencies@.len() > 0 && waves@.len() > 0 ==> (r matches Ok(s) && s.wf()
                && s.remaining() == samples_from(
                frequencies@,
                waves@,
                offsets_view(phase_offsets),
                breakpoints,
                sample_rate,
                0,
                0,
                0,
            )),
    {
        if frequencies.len() == 0 {
            return Err(SynthError::EmptyFrequencies);
        }
        if waves.len() == 0 {
            return Err(SynthError::EmptyWaveforms);
        }
        let offsets: Vec<i64> = match phase_offsets {
            Some(p) => vstd::slice::slice_to_vec(p),
            None => Vec::new(),
        };
        let mut n = frequencies.len();
        if waves.len() > n {
            n = waves.len();
        }
        if offsets.len() > n {
            n = offsets.len();
        }
        let (f0, w0, o0) = step_settings(frequencies, waves, phase_offsets, 0);
        proof {
            lemma_scaled_fits(o0, sample_rate);
        }
        Ok(Sequencer {
            frequencies: vstd::slice::slice_to_vec(frequencies),
            waves: vstd::slice::slice_to_vec(waves),
            offsets,
            breakpoints,
            sample_rate,
            n,
            cycle: cycle_length(sample_rate),
            step: 0,
            phase: 0,
            last: 0,
            inc: f0 as i128,
            wave: w0,
            offset: o0 as i128 * sample_rate as i128,
        })
    }

    /// Emits the next sample and advances the run by one tick; `None` once
    /// the run is over.
    pub fn next_sample(&mut self) -> (r: Option<Sample>)
        requires
            old(self).wf(),
        ensures
            final(self).wf(),
            old(self).remaining().len() == 0 ==> r is None && final(self).remaining() == old(
                self,
            ).remaining(),
            old(self).remaining().len() > 0 ==> r == Some(old(self).remaining()[0])
                && final(self).remaining() == old(self).remaining().drop_first(),
    {
        if self.step >= self.n {
            return None;
        }
        let ghost rest = self.remaining();
        assert(0 < freq_at(self.frequencies@, self.step as int)) by {
            assert(0 <= (self.step as int) % (self.frequencies@.len() as int)
                < self.frequencies@.len());
        }
        let s = evaluate(self.wave, self.phase, self.offset, self.sample_rate);
        let next = self.phase + self.inc;
        if next >= self.cycle || (self.breakpoints == 2 && 2 * next >= self.cycle && 2 * self.last
            < self.cycle) {
            let step = self.step + 1;
            let phase = wrap_phase(next, self.cycle);
            let (f, w, o) = step_settings(
                self.frequencies.as_slice(),
                self.waves.as_slice(),
                Some(self.offsets.as_slice()),
                step,
            );
            proof {
                lemma_scaled_fits(o, self.sample_rate);
            }
            self.step = step;
            self.phase = phase;
            self.last = phase;
            self.inc = f as i128;
            self.wave = w;
            self.offset = o as i128 * self.sample_rate as i128;
        } else {
            self.phase = next;
        }
        assert(seq![s] + self.remaining() =~= rest);
        Some(s)
    }
}

/// Runs the sequencer to completion.
///
/// Frequencies are in millionths of a hertz, phase offsets in millionths of
/// a cycle; every sample is over the cycle length `sample_rate * UNITS`.
pub fn synthesize(
    frequencies: &[u64],
    waves: &[Wave],
    breakpoints: u16,
    sample_rate: u32,
    phase_offsets: Option<&[i64]>,
) -> (r: Result<Vec<Sample>, SynthError>)
    requires
        sample_rate > 0,
        forall|i: int| 0 <= i < frequencies@.len() ==> frequencies@[i] > 0,
    ensures
        result_view(r) == synthesis(
            frequencies@,
            waves@,
            breakpoints,
            sample_rate,
            offsets_view(phase_offsets),
        ),
{
    let mut run = match Sequencer::new(frequencies, waves, breakpoints, sample_rate, phase_offsets) {
        Ok(run) => run,
        Err(e) => return Err(e),
    };
    let ghost total = run.remaining();
    let mut out: Vec<Sample> = Vec::new();
    let mut done = false;
    while !done
        invariant
            run.wf(),
            out@ + run.remaining() == total,
            done ==> run.remaining().len() == 0,
        decreases run.remaining().len() + if done {
            0int
        } else {
            1int
        },
    {
        match run.next_sample() {
            Some(s) => {
                out.push(s);
                assert(out@ + run.remaining() =~= total);
            },
            None => {
                done = true;
            },
        }
    }
    assert(out@ =~= total);
    Ok(out)
}

} // verus!
