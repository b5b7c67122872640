//! Colours: as the chart hands them over, and as the rendering context
//! takes them.

use vstd::prelude::*;
use vstd::arithmetic::div_mod::{
    lemma_basic_div, lemma_div_denominator, lemma_div_is_ordered,
    lemma_div_is_ordered_by_denominator, lemma_div_multiples_vanish,
    lemma_fundamental_div_mod_converse_div,
};
use vstd::arithmetic::power2::{
    lemma2_to64, lemma2_to64_rest, lemma_pow2_pos, lemma_pow2_strictly_increases,
    lemma_pow2_unfold, pow2,
};
use crate::binary64::Binary64;

verus! {

/// A colour of the chart: three channels of eight bits, and an opacity
/// between zero (transparent) and one (opaque).
#[derive(Clone, Copy, Debug)]
pub struct BackendColor {
    pub alpha: Binary64,
    pub rgb: (u8, u8, u8),
}

/// A colour of the rendering context: four channels of eight bits.
#[derive(Clone, Copy, Debug, PartialEq, Eq, Structural)]
pub struct Color {
    pub r: u8,
    pub g: u8,
    pub b: u8,
    pub a: u8,
}

/// The opacity as a channel: the floor of 256 times the opacity, clipped to
/// what a byte holds.
pub open spec fn alpha_channel(alpha: Binary64) -> nat {
    alpha.saturating_floor(8, 255)
}

/// The colour that the rendering context paints for a colour of the chart.
pub open spec fn render_color(col: BackendColor) -> Color {
    Color { r: col.rgb.0, g: col.rgb.1, b: col.rgb.2, a: alpha_channel(col.alpha) as u8 }
}

impl BackendColor {
    /// Whether painting in this colour leaves no trace.
    pub open spec fn spec_is_transparent(&self) -> bool {
        self.alpha.is_zero()
    }

    /// Tells whether the opacity is zero.
    #[verifier::when_used_as_spec(spec_is_transparent)]
    pub fn is_transparent(&self) -> (transparent: bool)
        ensures
            transparent == self.spec_is_transparent(),
    {
        self.alpha.is_zero()
    }
}

/// Converts a colour of the chart to one of the rendering context. The three
/// colour channels pass unchanged; the opacity is multiplied by 256, cut to
/// a whole number and clipped to a byte.
pub fn plotters_color_to_piet(col: &BackendColor) -> (out: Color)
    ensures
        out.r == col.rgb.0,
        out.g == col.rgb.1,
        out.b == col.rgb.2,
        out.a == alpha_channel(col.alpha),
        out == render_color(*col),
{
    Color { r: col.rgb.0, g: col.rgb.1, b: col.rgb.2, a: col.alpha.saturating_floor_u8(8) }
}

/// A transparent colour has the channel zero.
pub proof fn lemma_transparent_channel(alpha: Binary64)
    requires
        alpha.is_zero(),
    ensures
        alpha_channel(alpha) == 0,
{
    if !alpha.is_sign_negative() {
        lemma_pow2_pos(1066);
        lemma_basic_div(0, pow2(1066) as int);
    }
}

/// An opacity from zero up to, but not one, is not clipped: its channel is
/// the floor of 256 times the opacity.
pub proof fn lemma_unit_interval_channel(alpha: Binary64)
    requires
        alpha.is_below_one(),
    ensures
        alpha_channel(alpha) == alpha.floor_scaled(8) < 256,
{
    let down = (-(alpha.exponent() + 8)) as nat;
    let s = alpha.significand();
    lemma2_to64_rest();
    if down > 45 {
        lemma_pow2_strictly_increases(45, down);
    }
    lemma_pow2_pos(down);
    lemma_div_is_ordered(s as int, (256 * pow2(down) - 1) as int, pow2(down) as int);
    lemma_fundamental_div_mod_converse_div(
        (256 * pow2(down) - 1) as int,
        pow2(down) as int,
        255,
        (pow2(down) - 1) as int,
    );
    if alpha.is_sign_negative() {
        lemma_basic_div(0, pow2(down) as int);
    }
}

/// The channel grows with the opacity: of two opacities, the one that is
/// no more than the other has no greater channel.
pub proof fn lemma_alpha_channel_monotonic(low: Binary64, high: Binary64)
    requires
        !low.is_nan(),
        !high.is_nan(),
        low.at_most(high),
    ensures
        alpha_channel(low) <= alpha_channel(high),
{
    if low.is_sign_negative() {
    } else if high.is_sign_negative() {
        lemma_transparent_channel(low);
    } else if high.is_at_least_one() {
        lemma_opaque_channel(high);
    } else {
        lemma_unit_interval_channel(low);
        lemma_unit_interval_channel(high);
        let down_low = (-(low.exponent() + 8)) as nat;
        let down_high = (-(high.exponent() + 8)) as nat;
        let s_low = low.significand() as int;
        let s_high = high.significand() as int;
        let d = pow2(down_high) as int;
        lemma_pow2_pos(down_high);
        if down_low == down_high {
            lemma_div_is_ordered(s_low, s_high, d);
        } else {
            // The higher number is normal and has the greater exponent: its
            // significand is more than half of the lower one.
            lemma_pow2_unfold(down_high + 1);
            if down_low > down_high + 1 {
                lemma_pow2_strictly_increases(down_high + 1, down_low);
            }
            lemma_div_is_ordered_by_denominator(s_low, 2 * d, pow2(down_low) as int);
            lemma_div_denominator(s_low, 2, d);
            lemma_div_is_ordered(s_low / 2, s_high, d);
        }
    }
}

/// An opacity of one or more has the greatest channel: the product with 256
/// is clipped.
pub proof fn lemma_opaque_channel(alpha: Binary64)
    requires
        alpha.is_at_least_one(),
    ensures
        alpha_channel(alpha) == 255,
{
    if alpha.is_finite() {
        let e = alpha.exponent() + 8;
        let s = alpha.significand();
        if e >= 0 {
            lemma_pow2_pos(e as nat);
            assert(s * pow2(e as nat) >= s) by (nonlinear_arith)
                requires
                    pow2(e as nat) >= 1,
            ;
        } else {
            let down = (-e) as nat;
            lemma2_to64();
            lemma2_to64_rest();
            if down < 44 {
                lemma_pow2_strictly_increases(down, 44);
            }
            lemma_pow2_pos(down);
            lemma_div_is_ordered((256 * pow2(down)) as int, s as int, pow2(down) as int);
            lemma_div_multiples_vanish(256, pow2(down) as int);
        }
    }
}

} // verus!
