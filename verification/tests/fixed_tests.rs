//! The fixed-point sample and gain arithmetic.

use subtractive_synth::{
    gain_ratio_q32, mix_oscillators, scale_q32, GAIN_MAX, GAIN_ONE, SAMPLE_ONE,
};

#[test]
fn gain_ratio_of_zero_decibels_is_unity() {
    assert_eq!(gain_ratio_q32(0), GAIN_ONE);
}

#[test]
fn gain_ratio_of_one_thousandth_is_one_step() {
    assert_eq!(gain_ratio_q32(1), 4295956363);
    assert_eq!(gain_ratio_q32(-1), 4293978457);
}

#[test]
fn gain_ratio_tracks_the_decibel_law() {
    // -10 dB is a ratio of 0.1: 0.1 * 2^32 = 429496729.6.
    let down = gain_ratio_q32(-10000);
    assert_eq!(down, 429494696);
    assert!((down as i64 - 429496730).abs() < 5000);
    // +10 dB is a ratio of 10: 10 * 2^32 = 42949672960.
    let up = gain_ratio_q32(10000);
    assert_eq!(up, 42949690075);
    assert!((up as i64 - 42949672960).abs() < 50000);
    // -6 dB is a ratio of about 0.2512.
    assert_eq!(gain_ratio_q32(-6000), 1078845252);
}

#[test]
fn gain_ratio_saturates_at_the_clamp() {
    assert_eq!(gain_ratio_q32(96000), GAIN_MAX);
    assert_eq!(gain_ratio_q32(200000), GAIN_MAX);
    assert_eq!(gain_ratio_q32(-96000), 0);
    assert_eq!(gain_ratio_q32(-200000), 0);
}

#[test]
fn scaling_by_unity_returns_the_sample() {
    assert_eq!(scale_q32(GAIN_ONE, SAMPLE_ONE), SAMPLE_ONE);
    assert_eq!(scale_q32(GAIN_ONE, -12345), -12345);
    assert_eq!(scale_q32(GAIN_ONE, 0), 0);
}

#[test]
fn scaling_halves_and_rounds_toward_zero() {
    let half = GAIN_ONE / 2;
    assert_eq!(scale_q32(half, 9), 4);
    assert_eq!(scale_q32(half, -9), -4);
}

#[test]
fn silence_scales_to_silence_whatever_the_gain() {
    for mdb in [-200000, -96000, -6000, 0, 3000, 96000] {
        let g = gain_ratio_q32(mdb);
        assert_eq!(scale_q32(g, 0), 0);
    }
}

#[test]
fn oscillator_mix_is_the_average_toward_zero() {
    assert_eq!(mix_oscillators(3, 5), 4);
    assert_eq!(mix_oscillators(-3, -5), -4);
    assert_eq!(mix_oscillators(3, -6), -1);
    assert_eq!(mix_oscillators(-3, 6), 1);
    assert_eq!(mix_oscillators(0, 0), 0);
    assert_eq!(mix_oscillators(SAMPLE_ONE, SAMPLE_ONE), SAMPLE_ONE);
}
