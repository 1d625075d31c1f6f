//! Properties of whole runs.
use crate::sequencer::{crosses, freq_at, samples_from, step_count, synthesis, SynthError};
use crate::waveform::{cycle_len, wrapped, Sample, Wave};
use vstd::arithmetic::div_mod::lemma_fundamental_div_mod_converse;
use vstd::prelude::*;

verus! {

/// The phase at which the current step ends: half a cycle (rounded up to a
/// whole tick) while a half-cycle breakpoint is still ahead, else a full cycle.
pub open spec fn step_end(breakpoints: u16, last: int, cycle: int) -> int {
    if breakpoints == 2 && 2 * last < cycle {
        (cycle + 1) / 2
    } else {
        cycle
    }
}

/// Number of samples until the phase, advancing by `inc` from `phase`,
/// reaches `end`: `ceil((end - phase) / inc)`.
pub open spec fn samples_until(end: int, phase: int, inc: int) -> int {
    (end - phase + inc - 1) / inc
}

proof fn lemma_crosses_at_end(next: int, last: int, breakpoints: u16, cycle: int)
    requires
        cycle > 0,
    ensures
        crosses(next, last, breakpoints, cycle) <==> next >= step_end(breakpoints, last, cycle),
{
}

proof fn lemma_single_entry_from(
    freq: u64,
    wave: Wave,
    breakpoints: u16,
    sample_rate: u32,
    phase: int,
    last: int,
)
    requires
        freq > 0,
        sample_rate > 0,
        0 <= phase < step_end(breakpoints, last, cycle_len(sample_rate)),
        step_end(breakpoints, last, cycle_len(sample_rate)) <= cycle_len(sample_rate),
    ensures
        samples_from(seq![freq], seq![wave], Seq::empty(), breakpoints, sample_rate, 0, phase, last).len()
            == samples_until(step_end(breakpoints, last, cycle_len(sample_rate)), phase, freq as int),
    decreases cycle_len(sample_rate) - phase,
{
    let c = cycle_len(sample_rate);
    let end = step_end(breakpoints, last, c);
    let f = freq as int;
    let freqs = seq![freq];
    let waves = seq![wave];
    let offsets = Seq::<i64>::empty();
    assert(step_count(1, 1, 0) == 1);
    assert(freq_at(freqs, 0) == f);
    let next = phase + f;
    lemma_crosses_at_end(next, last, breakpoints, c);
    if next >= end {
        let w = wrapped(next, c);
        assert(samples_from(freqs, waves, offsets, breakpoints, sample_rate, 1, w, w).len() == 0);
        assert(samples_until(end, phase, f) == 1) by {
            lemma_fundamental_div_mod_converse(end - phase + f - 1, f, 1, end - phase - 1);
        }
    } else {
        lemma_single_entry_from(freq, wave, breakpoints, sample_rate, next, last);
        let q = (end - next + f - 1) / f;
        let r = (end - next + f - 1) % f;
        assert(end - next + f - 1 == q * f + r && 0 <= r < f) by {
            vstd::arithmetic::div_mod::lemma_fundamental_div_mod(end - next + f - 1, f);
        }
        assert(end - phase + f - 1 == (q + 1) * f + r) by (nonlinear_arith)
            requires
                end - next + f - 1 == q * f + r,
                next == phase + f;
        lemma_fundamental_div_mod_converse(end - phase + f - 1, f, q + 1, r);
    }
}

/// A single-entry sequence runs for exactly as many samples as it takes the
/// phase to reach the end of its one step: a full cycle, or with two
/// breakpoints per cycle the half cycle, `ceil(end / increment)`.
pub proof fn lemma_single_entry_length(freq: u64, wave: Wave, breakpoints: u16, sample_rate: u32)
    requires
        freq > 0,
        sample_rate > 0,
    ensures
        synthesis(seq![freq], seq![wave], breakpoints, sample_rate, Seq::empty()) matches Ok(s)
            && s.len() == samples_until(
            step_end(breakpoints, 0, cycle_len(sample_rate)),
            0,
            freq as int,
        ),
{
    lemma_single_entry_from(freq, wave, breakpoints, sample_rate, 0, 0);
}

/// A run is a function of its inputs: the same inputs give the same outcome,
/// sample for sample.
pub proof fn lemma_synthesis_deterministic(
    freqs: Seq<u64>,
    waves: Seq<Wave>,
    breakpoints: u16,
    sample_rate: u32,
    offsets: Seq<i64>,
    freqs2: Seq<u64>,
    waves2: Seq<Wave>,
    breakpoints2: u16,
    sample_rate2: u32,
    offsets2: Seq<i64>,
)
    requires
        freqs == freqs2,
        waves == waves2,
        breakpoints == breakpoints2,
        sample_rate == sample_rate2,
        offsets == offsets2,
    ensures
        synthesis(freqs, waves, breakpoints, sample_rate, offsets) == synthesis(
            freqs2,
            waves2,
            breakpoints2,
            sample_rate2,
            offsets2,
        ),
{
}

/// A run with no frequencies fails before it emits anything.
pub proof fn lemma_empty_frequencies_fail(
    waves: Seq<Wave>,
    breakpoints: u16,
    sample_rate: u32,
    offsets: Seq<i64>,
)
    ensures
        synthesis(Seq::empty(), waves, breakpoints, sample_rate, offsets) == Err::<
            Seq<Sample>,
            SynthError,
        >(SynthError::EmptyFrequencies),
{
}

} // verus!
