//! Waveform shapes and their evaluation at a point of the cycle.
//!
//! Everything here is exact integer arithmetic. A cycle is divided into
//! `cycle` ticks; a position is a tick count (it may lie outside one
//! cycle, or be negative), and an amplitude is a numerator over `cycle`,
//! so that `cycle` stands for full scale `1.0`.
use vstd::arithmetic::div_mod::{lemma_fundamental_div_mod, lemma_fundamental_div_mod_converse};
use vstd::prelude::*;

verus! {

/// Sub-units per unit: frequencies are given in millionths of a hertz,
/// phase offsets in millionths of a cycle, constant levels in millionths
/// of full scale.
pub const UNITS: u64 = 1_000_000;

/// The largest cycle length in ticks that the evaluators accept.
pub const CYCLE_LIMIT: i128 = 0x1000_0000_0000_0000;

/// The largest magnitude of a position that the evaluators accept.
pub const POSITION_LIMIT: i128 = 0x10_0000_0000_0000_0000_0000_0000;

/// The shape of one oscillator step.
#[derive(Clone, Copy, Debug, PartialEq, Eq, Structural)]
pub enum Wave {
    Sine,
    Cosine,
    Pulse,
    Triangle,
    SawUp,
    SawDown,
    /// A constant level, in millionths of full scale.
    DC(i64),
}

/// One output sample, over the cycle length of the run as denominator.
///
/// The piecewise-linear shapes and constants are computed exactly here and
/// come out as `Level(n)`, the amplitude `n / cycle`. Sine and cosine are
/// left to the consumer, which evaluates `sin` or `cos` of `2π · p / cycle`
/// for the carried position `p`.
#[derive(Clone, Copy, Debug, PartialEq, Eq, Structural)]
pub enum Sample {
    Level(i128),
    Sine(i128),
    Cosine(i128),
}

/// Number of ticks in one cycle at the given sample rate: a frequency of
/// `f` millionths of a hertz then advances the phase by exactly `f` ticks
/// per sample.
pub open spec fn cycle_len(sample_rate: u32) -> int {
    sample_rate as int * UNITS as int
}

/// A position wrapped into one cycle, `[0, cycle)`.
pub open spec fn wrapped(position: int, cycle: int) -> int {
    position % cycle
}

/// Rising from 0 to full scale over the first quarter, falling to minus
/// full scale over the next half, and rising back to 0 over the last
/// quarter; `ph` is a wrapped position.
pub open spec fn triangle_level(ph: int, cycle: int) -> int {
    if 4 * ph <= cycle {
        4 * ph
    } else if 4 * ph <= 3 * cycle {
        2 * cycle - 4 * ph
    } else {
        4 * ph - 4 * cycle
    }
}

pub open spec fn saw_up_level(ph: int, cycle: int) -> int {
    2 * ph - cycle
}

pub open spec fn saw_down_level(ph: int, cycle: int) -> int {
    cycle - 2 * ph
}

/// Full scale below half a cycle, minus full scale from there on, judged on
/// the raw position without wrapping it.
pub open spec fn pulse_level(position: int, cycle: int) -> int {
    if 2 * position < cycle {
        cycle
    } else {
        -cycle
    }
}

/// The sample that `wave` gives at `position` ticks, at the given sample rate.
pub open spec fn sample_of(wave: Wave, position: int, sample_rate: u32) -> Sample {
    let c = cycle_len(sample_rate);
    match wave {
        Wave::Sine => Sample::Sine(position as i128),
        Wave::Cosine => Sample::Cosine(position as i128),
        Wave::Pulse => Sample::Level(pulse_level(position, c) as i128),
        Wave::Triangle => Sample::Level(triangle_level(wrapped(position, c), c) as i128),
        Wave::SawUp => Sample::Level(saw_up_level(wrapped(position, c), c) as i128),
        Wave::SawDown => Sample::Level(saw_down_level(wrapped(position, c), c) as i128),
        Wave::DC(v) => Sample::Level((v as int * sample_rate as int) as i128),
    }
}

pub open spec fn position_ok(position: int) -> bool {
    -POSITION_LIMIT <= position <= POSITION_LIMIT
}

/// Cycle length in ticks at the given sample rate.
pub fn cycle_length(sample_rate: u32) -> (c: i128)
    ensures
        c == cycle_len(sample_rate),
        0 <= c < CYCLE_LIMIT,
{
    sample_rate as i128 * UNITS as i128
}

/// Wraps a position into `[0, cycle)`, keeping the remainder for negative
/// positions too.
pub fn wrap_phase(position: i128, cycle: i128) -> (r: i128)
    requires
        0 < cycle,
        i128::MIN < position,
    ensures
        r == wrapped(position as int, cycle as int),
        0 <= r < cycle,
{
    if position >= 0 {
        position % cycle
    } else {
        let m = (-position) % cycle;
        proof {
            let q: int = (-position as int) / (cycle as int);
            lemma_fundamental_div_mod(-position as int, cycle as int);
            assert(-position == q * cycle + m);
            if m == 0 {
                assert(position == (-q) * cycle + 0) by (nonlinear_arith)
                    requires -position == q * cycle + m, m == 0;
                lemma_fundamental_div_mod_converse(position as int, cycle as int, -q, 0);
            } else {
                assert(position == (-q - 1) * cycle + (cycle - m)) by (nonlinear_arith)
                    requires -position == q * cycle + m;
                lemma_fundamental_div_mod_converse(
                    position as int,
                    cycle as int,
                    -q - 1,
                    cycle - m,
                );
            }
        }
        if m == 0 {
            0
        } else {
            cycle - m
        }
    }
}

/// Sine of the raw position: periodic as it stands, so nothing is wrapped.
pub fn sine(phase: i128, phase_offset: i128) -> (r: Sample)
    requires
        position_ok(phase as int),
        position_ok(phase_offset as int),
    ensures
        r == Sample::Sine((phase + phase_offset) as i128),
{
    Sample::Sine(phase + phase_offset)
}

/// Cosine of the raw position: periodic as it stands, so nothing is wrapped.
pub fn cosine(phase: i128, phase_offset: i128) -> (r: Sample)
    requires
        position_ok(phase as int),
        position_ok(phase_offset as int),
    ensures
        r == Sample::Cosine((phase + phase_offset) as i128),
{
    Sample::Cosine(phase + phase_offset)
}

pub fn pulse(phase: i128, phase_offset: i128, cycle: i128) -> (r: i128)
    requires
        0 < cycle < CYCLE_LIMIT,
        position_ok(phase as int),
        position_ok(phase_offset as int),
    ensures
        r == pulse_level(phase + phase_offset, cycle as int),
{
    let ph = phase + phase_offset;
    if 2 * ph < cycle {
        cycle
    } else {
        -cycle
    }
}

pub fn triangle(phase: i128, phase_offset: i128, cycle: i128) -> (r: i128)
    requires
        0 < cycle < CYCLE_LIMIT,
        position_ok(phase as int),
        position_ok(phase_offset as int),
    ensures
        r == triangle_level(wrapped(phase + phase_offset, cycle as int), cycle as int),
        -cycle <= r <= cycle,
{
    let ph = wrap_phase(phase + phase_offset, cycle);
    if 4 * ph <= cycle {
        4 * ph
    } else if 4 * ph <= 3 * cycle {
        2 * cycle - 4 * ph
    } else {
        4 * ph - 4 * cycle
    }
}

pub fn saw_up(phase: i128, phase_offset: i128, cycle: i128) -> (r: i128)
    requires
        0 < cycle < CYCLE_LIMIT,
        position_ok(phase as int),
        position_ok(phase_offset as int),
    ensures
        r == saw_up_level(wrapped(phase + phase_offset, cycle as int), cycle as int),
        -cycle <= r < cycle,
{
    let ph = wrap_phase(phase + phase_offset, cycle);
    2 * ph - cycle
}

pub fn saw_down(phase: i128, phase_offset: i128, cycle: i128) -> (r: i128)
    requires
        0 < cycle < CYCLE_LIMIT,
        position_ok(phase as int),
        position_ok(phase_offset as int),
    ensures
        r == saw_down_level(wrapped(phase + phase_offset, cycle as int), cycle as int),
        -cycle < r <= cycle,
{
    let ph = wrap_phase(phase + phase_offset, cycle);
    cycle - 2 * ph
}

/// The sample that `wave` gives at `phase + phase_offset` ticks.
pub fn evaluate(wave: Wave, phase: i128, phase_offset: i128, sample_rate: u32) -> (r: Sample)
    requires
        sample_rate > 0,
        position_ok(phase as int),
        position_ok(phase_offset as int),
    ensures
        r == sample_of(wave, phase + phase_offset, sample_rate),
{
    let cycle = cycle_length(sample_rate);
    match wave {
        Wave::Sine => sine(phase, phase_offset),
        Wave::Cosine => cosine(phase, phase_offset),
        Wave::Pulse => Sample::Level(pulse(phase, phase_offset, cycle)),
        Wave::Triangle => Sample::Level(triangle(phase, phase_offset, cycle)),
        Wave::SawUp => Sample::Level(saw_up(phase, phase_offset, cycle)),
        Wave::SawDown => Sample::Level(saw_down(phase, phase_offset, cycle)),
        Wave::DC(v) => {
            proof {
                lemma_scaled_fits(v, sample_rate);
            }
            Sample::Level(v as i128 * sample_rate as i128)
        },
    }
}

/// A level or offset in millionths, scaled to ticks, stays within bounds.
pub proof fn lemma_scaled_fits(v: i64, sample_rate: u32)
    ensures
        i128::MIN < (v as int) * (sample_rate as int) < i128::MAX,
        position_ok((v as int) * (sample_rate as int)),
{
    assert(-0x8000_0000_0000_0000 * 0x1_0000_0000 <= v as int * sample_rate as int
        <= 0x8000_0000_0000_0000 * 0x1_0000_0000) by (nonlinear_arith)
        requires
            -0x8000_0000_0000_0000 <= v <= 0x8000_0000_0000_0000,
            0 <= sample_rate <= 0x1_0000_0000;
}

/// A constant level ignores the phase and the offset: at any two positions
/// it gives the same sample, its own level scaled to the cycle.
pub proof fn lemma_dc_ignores_phase(level: i64, p1: int, p2: int, sample_rate: u32)
    ensures
        sample_of(Wave::DC(level), p1, sample_rate) == sample_of(Wave::DC(level), p2, sample_rate),
        sample_of(Wave::DC(level), p1, sample_rate) == Sample::Level(
            (level as int * sample_rate as int) as i128,
        ),
{
}

} // verus!
