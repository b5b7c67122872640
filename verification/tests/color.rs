use plotters_piet::binary64::Binary64;
use plotters_piet::color::{plotters_color_to_piet, BackendColor, Color};

fn number(value: f64) -> Binary64 {
    Binary64::from_bits(value.to_bits())
}

fn channel(alpha: f64) -> u8 {
    plotters_color_to_piet(&BackendColor { alpha: number(alpha), rgb: (0, 0, 0) }).a
}

#[test]
fn channels_pass_unchanged() {
    let col = BackendColor { alpha: number(0.5), rgb: (1, 20, 255) };
    assert_eq!(plotters_color_to_piet(&col), Color { r: 1, g: 20, b: 255, a: 128 });
}

#[test]
fn opaque_is_clipped_to_255() {
    assert_eq!(channel(1.0), 255);
}

#[test]
fn transparent_is_zero() {
    assert_eq!(channel(0.0), 0);
    assert_eq!(channel(-0.0), 0);
}

#[test]
fn alpha_is_floored_after_times_256() {
    assert_eq!(channel(0.5), 128);
    assert_eq!(channel(0.25), 64);
    assert_eq!(channel(0.2), 51);
    assert_eq!(channel(0.999), 255);
    assert_eq!(channel(0.996), 254);
    assert_eq!(channel(255.0 / 256.0), 255);
    assert_eq!(channel(1.0 / 256.0), 1);
    assert_eq!(channel(0.00390624), 0);
    assert_eq!(channel(0.1), 25);
}

#[test]
fn alpha_out_of_range_is_clipped() {
    assert_eq!(channel(1.5), 255);
    assert_eq!(channel(2.0), 255);
    assert_eq!(channel(1e300), 255);
    assert_eq!(channel(f64::MAX), 255);
    assert_eq!(channel(f64::INFINITY), 255);
    assert_eq!(channel(-0.5), 0);
    assert_eq!(channel(-3.0), 0);
    assert_eq!(channel(f64::NEG_INFINITY), 0);
    assert_eq!(channel(f64::NAN), 0);
    assert_eq!(channel(-f64::NAN), 0);
    assert_eq!(channel(f64::MIN_POSITIVE), 0);
    assert_eq!(channel(5e-324), 0);
}

#[test]
fn alpha_agrees_with_the_float_cast() {
    let mut state: u64 = 0x9e37_79b9_7f4a_7c15;
    for round in 0..200_000u32 {
        state = state.wrapping_mul(6364136223846793005).wrapping_add(1442695040888963407);
        let bits = if round % 2 == 0 {
            state
        } else {
            // Opacities near the unit interval: exponents between 2^-12 and 2^3.
            let exponent = 1011 + (state >> 60);
            (exponent << 52) | (state & 0x000f_ffff_ffff_ffff)
        };
        let alpha = f64::from_bits(bits);
        let expected = (alpha * 256.) as u8;
        assert_eq!(Binary64::from_bits(bits).saturating_floor_u8(8), expected, "alpha {alpha:e}");
    }
}

#[test]
fn every_channel_has_its_least_alpha() {
    for c in 0..=255u32 {
        let alpha = c as f64 / 256.0;
        assert_eq!(channel(alpha), c as u8);
        if c > 0 {
            let below = f64::from_bits(alpha.to_bits() - 1);
            assert_eq!(channel(below), (c - 1) as u8);
        }
    }
}

#[test]
fn channel_grows_with_alpha() {
    let alphas = [
        f64::NEG_INFINITY, -2.0, -1e-300, -0.0, 0.0, 5e-324, 1e-300, 0.001, 0.0039, 0.00390625,
        0.1, 0.25, 0.49999, 0.5, 0.75, 0.996, 0.99999, 1.0, 1.0000001, 2.0, 1e300, f64::INFINITY,
    ];
    for pair in alphas.windows(2) {
        assert!(pair[0] <= pair[1]);
        assert!(channel(pair[0]) <= channel(pair[1]), "{} and {}", pair[0], pair[1]);
    }
    let mut last = 0;
    for step in 0..=4096u32 {
        let now = channel(step as f64 / 4096.0);
        assert!(last <= now);
        assert_eq!(now as u32, (step / 16).min(255));
        last = now;
    }
}

#[test]
fn floor_scales_by_other_powers() {
    assert_eq!(number(3.75).saturating_floor_u8(0), 3);
    assert_eq!(number(3.75).saturating_floor_u8(1), 7);
    assert_eq!(number(3.75).saturating_floor_u8(2), 15);
    assert_eq!(number(254.999).saturating_floor_u8(0), 254);
    assert_eq!(number(256.0).saturating_floor_u8(0), 255);
    assert_eq!(number(5e-324).saturating_floor_u8(255), 0);
    assert_eq!(number(1e-70).saturating_floor_u8(255), 255);
}

#[test]
fn floor_clips_to_any_limit() {
    assert_eq!(number(1000.5).saturating_floor_u64(0, 999), 999);
    assert_eq!(number(1000.5).saturating_floor_u64(0, 1000), 1000);
    assert_eq!(number(1000.5).saturating_floor_u64(1, u64::MAX), 2001);
    assert_eq!(number(1.0).saturating_floor_u64(63, u64::MAX), 1 << 63);
    assert_eq!(number(1.0).saturating_floor_u64(64, u64::MAX), u64::MAX);
    assert_eq!(number(1.5).saturating_floor_u64(63, u64::MAX), 3 << 62);
    assert_eq!(number(9007199254740993.0).saturating_floor_u64(0, u64::MAX), 9007199254740992);
    assert_eq!(number(18446744073709549568.0).saturating_floor_u64(0, u64::MAX), 18446744073709549568);
    assert_eq!(number(18446744073709551616.0).saturating_floor_u64(0, u64::MAX), u64::MAX);
    assert_eq!(number(f64::INFINITY).saturating_floor_u64(0, 7), 7);
    assert_eq!(number(f64::NAN).saturating_floor_u64(0, 7), 0);
    assert_eq!(number(-8.0).saturating_floor_u64(0, 7), 0);
    assert_eq!(number(0.75).saturating_floor_u32(), 0);
    assert_eq!(number(65536.75).saturating_floor_u32(), 65536);
}

#[test]
fn floor_agrees_with_the_float_cast_to_64_bits() {
    let mut state: u64 = 0x1234_5678_9abc_def1;
    for round in 0..200_000u32 {
        state = state.wrapping_mul(6364136223846793005).wrapping_add(1442695040888963407);
        let bits = if round % 2 == 0 {
            state
        } else {
            let exponent = 1010 + (state >> 57) % 90;
            (exponent << 52) | (state & 0x000f_ffff_ffff_ffff)
        };
        let value = f64::from_bits(bits);
        assert_eq!(
            Binary64::from_bits(bits).saturating_floor_u64(0, u64::MAX),
            value as u64,
            "value {value:e}"
        );
    }
}

#[test]
fn zero_of_either_sign_is_zero() {
    assert!(number(0.0).is_zero());
    assert!(number(-0.0).is_zero());
    assert!(!number(5e-324).is_zero());
    assert!(!number(1.0).is_zero());
    assert!(!number(f64::NAN).is_zero());
    assert!(!number(f64::INFINITY).is_zero());
    let clear = BackendColor { alpha: number(0.0), rgb: (9, 9, 9) };
    assert!(clear.is_transparent());
    assert!(!BackendColor { alpha: number(0.01), rgb: (9, 9, 9) }.is_transparent());
}
