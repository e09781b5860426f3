//! The eight hue bands of the colour mixer.

use vstd::prelude::*;
use crate::scalar::Scalar;
use crate::settings::ImageSettings;

verus! {

/// Number of hue bands.
pub const BAND_COUNT: usize = 8;

/// Half-width of a band's influence, in degrees of hue.
pub const BAND_HALF_WIDTH: u16 = 50;

/// One hue band: where it is centred and what it does to the pixels near
/// that hue.
#[derive(Clone, Copy, Debug, PartialEq, Eq, Structural)]
pub struct HslBand {
    /// Centre hue, in whole degrees.
    pub center: u16,
    /// Shift of the hue, in degrees.
    pub hue: Scalar,
    /// Relative change of the saturation.
    pub saturation: Scalar,
    /// Shift of the lightness.
    pub lightness: Scalar,
}

impl HslBand {
    /// The band changes something: one of its three deltas is more than one
    /// millionth away from zero.
    pub open spec fn changes_pixels(self) -> bool {
        ||| self.hue.magnitude_above_epsilon()
        ||| self.saturation.magnitude_above_epsilon()
        ||| self.lightness.magnitude_above_epsilon()
    }

    /// Whether the band shifts hue.
    pub fn shifts_hue(&self) -> (r: bool)
        ensures
            r == self.hue.magnitude_above_epsilon(),
    {
        self.hue.magnitude_exceeds_epsilon()
    }

    /// Whether the band scales saturation.
    pub fn scales_saturation(&self) -> (r: bool)
        ensures
            r == self.saturation.magnitude_above_epsilon(),
    {
        self.saturation.magnitude_exceeds_epsilon()
    }

    /// Whether the band shifts lightness.
    pub fn shifts_lightness(&self) -> (r: bool)
        ensures
            r == self.lightness.magnitude_above_epsilon(),
    {
        self.lightness.magnitude_exceeds_epsilon()
    }

    /// Whether the band changes anything.
    pub fn is_active(&self) -> (r: bool)
        ensures
            r == self.changes_pixels(),
    {
        self.shifts_hue() || self.scales_saturation() || self.shifts_lightness()
    }
}

/// The bands of a settings record, in the order in which the mixer applies
/// them: red, orange, yellow, green, aqua, blue, purple, magenta.
pub open spec fn band_table(s: ImageSettings) -> Seq<HslBand> {
    seq![
        HslBand { center: 0, hue: s.h_red, saturation: s.s_red, lightness: s.l_red },
        HslBand { center: 30, hue: s.h_orange, saturation: s.s_orange, lightness: s.l_orange },
        HslBand { center: 60, hue: s.h_yellow, saturation: s.s_yellow, lightness: s.l_yellow },
        HslBand { center: 120, hue: s.h_green, saturation: s.s_green, lightness: s.l_green },
        HslBand { center: 180, hue: s.h_aqua, saturation: s.s_aqua, lightness: s.l_aqua },
        HslBand { center: 240, hue: s.h_blue, saturation: s.s_blue, lightness: s.l_blue },
        HslBand { center: 280, hue: s.h_purple, saturation: s.s_purple, lightness: s.l_purple },
        HslBand { center: 320, hue: s.h_magenta, saturation: s.s_magenta, lightness: s.l_magenta },
    ]
}

/// The mixer has work to do: some band changes something.
pub open spec fn mixer_runs(s: ImageSettings) -> bool {
    exists|i: int| 0 <= i < band_table(s).len() && #[trigger] band_table(s)[i].changes_pixels()
}

/// The bands of a settings record, in mixing order.
pub fn color_bands(s: &ImageSettings) -> (r: Vec<HslBand>)
    ensures
        r@ == band_table(*s),
{
    let mut bands: Vec<HslBand> = Vec::new();
    bands.push(HslBand { center: 0, hue: s.h_red, saturation: s.s_red, lightness: s.l_red });
    bands.push(
        HslBand { center: 30, hue: s.h_orange, saturation: s.s_orange, lightness: s.l_orange },
    );
    bands.push(
        HslBand { center: 60, hue: s.h_yellow, saturation: s.s_yellow, lightness: s.l_yellow },
    );
    bands.push(
        HslBand { center: 120, hue: s.h_green, saturation: s.s_green, lightness: s.l_green },
    );
    bands.push(HslBand { center: 180, hue: s.h_aqua, saturation: s.s_aqua, lightness: s.l_aqua });
    bands.push(HslBand { center: 240, hue: s.h_blue, saturation: s.s_blue, lightness: s.l_blue });
    bands.push(
        HslBand { center: 280, hue: s.h_purple, saturation: s.s_purple, lightness: s.l_purple },
    );
    bands.push(
        HslBand { center: 320, hue: s.h_magenta, saturation: s.s_magenta, lightness: s.l_magenta },
    );
    assert(bands@ =~= band_table(*s));
    bands
}

/// Whether the mixer has work to do.
pub fn has_hsl(s: &ImageSettings) -> (r: bool)
    ensures
        r == mixer_runs(*s),
{
    let bands = color_bands(s);
    let mut i: usize = 0;
    while i < bands.len()
        invariant
            bands@ == band_table(*s),
            i <= bands@.len(),
            forall|j: int| 0 <= j < i ==> !(#[trigger] bands@[j]).changes_pixels(),
        decreases bands@.len() - i,
    {
        if bands[i].is_active() {
            return true;
        }
        i += 1;
    }
    false
}

} // verus!
