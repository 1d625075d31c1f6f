use wave_sequencer::pcm::{quantize, FULL_SCALE};
use wave_sequencer::tokens::{parse_wave, wave_from_code};
use wave_sequencer::waveform::Wave;

const C: i128 = 48_000_000_000;

#[test]
fn quantize_full_scale_is_symmetric() {
    assert_eq!(quantize(C, C), FULL_SCALE);
    assert_eq!(quantize(-C, C), -FULL_SCALE);
    assert_eq!(quantize(0, C), 0);
}

#[test]
fn quantize_clips() {
    assert_eq!(quantize(3 * C, C), 8_388_607);
    assert_eq!(quantize(-2 * C, C), -8_388_607);
}

#[test]
fn quantize_rounds_to_nearest() {
    // 0.5 * 8388607 = 4194303.5, halves away from zero.
    assert_eq!(quantize(C / 2, C), 4_194_304);
    assert_eq!(quantize(-C / 2, C), -4_194_304);
    // 0.25 * 8388607 = 2097151.75
    assert_eq!(quantize(C / 4, C), 2_097_152);
    assert_eq!(quantize(-C / 4, C), -2_097_152);
}

#[test]
fn letter_codes_either_case() {
    assert_eq!(wave_from_code("s"), Some(Wave::Sine));
    assert_eq!(wave_from_code("C"), Some(Wave::Cosine));
    assert_eq!(wave_from_code("p"), Some(Wave::Pulse));
    assert_eq!(wave_from_code("T"), Some(Wave::Triangle));
    assert_eq!(wave_from_code("u"), Some(Wave::SawUp));
    assert_eq!(wave_from_code("D"), Some(Wave::SawDown));
    assert_eq!(wave_from_code("x"), None);
    assert_eq!(wave_from_code("ss"), None);
    assert_eq!(wave_from_code(""), None);
}

#[test]
fn other_tokens_are_levels() {
    assert_eq!(parse_wave("0.5", Some(500_000)), Some(Wave::DC(500_000)));
    assert_eq!(parse_wave("u", Some(7)), Some(Wave::SawUp));
    assert_eq!(parse_wave("sine", None), None);
}
