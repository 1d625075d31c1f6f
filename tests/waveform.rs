use wave_sequencer::waveform::{cycle_length, evaluate, wrap_phase, Sample, Wave};

const SR: u32 = 48000;
const C: i128 = 48_000_000_000;

#[test]
fn cycle_length_is_rate_times_units() {
    assert_eq!(cycle_length(SR), C);
    assert_eq!(cycle_length(1), 1_000_000);
}

#[test]
fn triangle_corners() {
    assert_eq!(evaluate(Wave::Triangle, 0, 0, SR), Sample::Level(0));
    assert_eq!(evaluate(Wave::Triangle, C / 4, 0, SR), Sample::Level(C));
    assert_eq!(evaluate(Wave::Triangle, C / 2, 0, SR), Sample::Level(0));
    assert_eq!(evaluate(Wave::Triangle, 3 * C / 4, 0, SR), Sample::Level(-C));
}

#[test]
fn triangle_wraps_its_input() {
    assert_eq!(evaluate(Wave::Triangle, C + C / 4, 0, SR), Sample::Level(C));
    assert_eq!(evaluate(Wave::Triangle, 0, -C / 4, SR), Sample::Level(-C));
    assert_eq!(evaluate(Wave::Triangle, C / 8, 0, SR), Sample::Level(C / 2));
}

#[test]
fn saw_up_values() {
    assert_eq!(evaluate(Wave::SawUp, 0, 0, SR), Sample::Level(-C));
    assert_eq!(evaluate(Wave::SawUp, C / 2, 0, SR), Sample::Level(0));
    assert_eq!(evaluate(Wave::SawUp, C / 4, C, SR), Sample::Level(-C / 2));
}

#[test]
fn saw_down_values() {
    assert_eq!(evaluate(Wave::SawDown, 0, 0, SR), Sample::Level(C));
    assert_eq!(evaluate(Wave::SawDown, C / 2, 0, SR), Sample::Level(0));
    assert_eq!(evaluate(Wave::SawDown, 3 * C / 4, 0, SR), Sample::Level(-C / 2));
}

#[test]
fn pulse_values() {
    assert_eq!(evaluate(Wave::Pulse, 2 * C / 5, 0, SR), Sample::Level(C));
    assert_eq!(evaluate(Wave::Pulse, 3 * C / 5, 0, SR), Sample::Level(-C));
}

#[test]
fn pulse_does_not_wrap() {
    // 1.1 of a cycle would wrap to 0.1 (high), but the raw sum decides.
    assert_eq!(evaluate(Wave::Pulse, C, C / 10, SR), Sample::Level(-C));
    // -0.4 would wrap to 0.6 (low), but the raw sum is below one half.
    assert_eq!(evaluate(Wave::Pulse, 0, -2 * C / 5, SR), Sample::Level(C));
}

#[test]
fn dc_is_constant() {
    for (p, o) in [(0, 0), (C / 3, 0), (C / 2, -C), (7, 123456789)] {
        assert_eq!(evaluate(Wave::DC(500_000), p, o, SR), Sample::Level(C / 2));
    }
    assert_eq!(evaluate(Wave::DC(-1_000_000), 5, 5, SR), Sample::Level(-C));
}

#[test]
fn sine_and_cosine_carry_the_raw_position() {
    assert_eq!(evaluate(Wave::Sine, C / 4, C, SR), Sample::Sine(C + C / 4));
    assert_eq!(evaluate(Wave::Cosine, 10, -30, SR), Sample::Cosine(-20));
}

#[test]
fn wrap_phase_keeps_the_remainder() {
    assert_eq!(wrap_phase(C + 5, C), 5);
    assert_eq!(wrap_phase(-5, C), C - 5);
    assert_eq!(wrap_phase(-C, C), 0);
    assert_eq!(wrap_phase(3 * C, C), 0);
}
