//! The settings record: one named control per field.

use vstd::prelude::*;
use vstd::hash_map::StringHashMap;
use crate::scalar::{Scalar, ONE_BITS, ZERO_BITS};

verus! {

/// Every control of one pipeline run. A control that was never set holds
/// its neutral value, so an absent control and a neutral one are the same
/// record.
#[derive(Clone, Copy, Debug, PartialEq, Eq, Structural)]
pub struct ImageSettings {
    /// Exposure, in stops.
    pub exposure: Scalar,
    /// Contrast around the midpoint.
    pub contrast: Scalar,
    /// Gain of the bright tone region.
    pub highlights: Scalar,
    /// Gain of the dark tone region.
    pub shadows: Scalar,
    /// Gain of the white point.
    pub whites: Scalar,
    /// Offset of the black point.
    pub blacks: Scalar,
    /// Saturation.
    pub saturation: Scalar,
    /// Saturation that spares vivid pixels.
    pub vibrance: Scalar,
    /// White balance, blue to amber.
    pub temperature: Scalar,
    /// White balance, magenta to green.
    pub tint: Scalar,
    /// Gamma; neutral at 1.
    pub gamma: Scalar,
    /// Clarity; carried, read by no stage.
    pub clarity: Scalar,
    /// Texture; carried, read by no stage.
    pub texture: Scalar,
    /// Contrast of the midtones.
    pub mid_contrast: Scalar,
    /// Strength of the veil removal.
    pub dehaze: Scalar,
    /// Blend factor of the smoothing pass.
    pub denoise: Scalar,
    /// Darkening toward the corners.
    pub vignette: Scalar,
    /// Sharpening on export; carried, read by no stage.
    pub export_sharpen: Scalar,
    /// Tone curve amount; carried, read by no stage.
    pub tone_curve: Scalar,
    /// Strength of the purple-fringe removal.
    pub defringe: Scalar,
    /// Amplitude of the film grain.
    pub grain_amount: Scalar,
    /// Size of the film grain.
    pub grain_size: Scalar,
    /// Roughness of the film grain.
    pub grain_roughness: Scalar,
    /// Hue shift of the red band.
    pub h_red: Scalar,
    /// Saturation scale of the red band.
    pub s_red: Scalar,
    /// Lightness shift of the red band.
    pub l_red: Scalar,
    /// Hue shift of the orange band.
    pub h_orange: Scalar,
    /// Saturation scale of the orange band.
    pub s_orange: Scalar,
    /// Lightness shift of the orange band.
    pub l_orange: Scalar,
    /// Hue shift of the yellow band.
    pub h_yellow: Scalar,
    /// Saturation scale of the yellow band.
    pub s_yellow: Scalar,
    /// Lightness shift of the yellow band.
    pub l_yellow: Scalar,
    /// Hue shift of the green band.
    pub h_green: Scalar,
    /// Saturation scale of the green band.
    pub s_green: Scalar,
    /// Lightness shift of the green band.
    pub l_green: Scalar,
    /// Hue shift of the aqua band.
    pub h_aqua: Scalar,
    /// Saturation scale of the aqua band.
    pub s_aqua: Scalar,
    /// Lightness shift of the aqua band.
    pub l_aqua: Scalar,
    /// Hue shift of the blue band.
    pub h_blue: Scalar,
    /// Saturation scale of the blue band.
    pub s_blue: Scalar,
    /// Lightness shift of the blue band.
    pub l_blue: Scalar,
    /// Hue shift of the purple band.
    pub h_purple: Scalar,
    /// Saturation scale of the purple band.
    pub s_purple: Scalar,
    /// Lightness shift of the purple band.
    pub l_purple: Scalar,
    /// Hue shift of the magenta band.
    pub h_magenta: Scalar,
    /// Saturation scale of the magenta band.
    pub s_magenta: Scalar,
    /// Lightness shift of the magenta band.
    pub l_magenta: Scalar,
}

/// The value that `key` has in `controls`, or `neutral` where it has none.
pub open spec fn control_or(
    controls: Map<Seq<char>, Scalar>,
    key: Seq<char>,
    neutral: Scalar,
) -> Scalar {
    if controls.contains_key(key) {
        controls[key]
    } else {
        neutral
    }
}

/// The number 0.0, neutral for every control but gamma.
pub open spec fn scalar_zero() -> Scalar {
    Scalar { bits: ZERO_BITS }
}

/// The number 1.0, neutral for gamma.
pub open spec fn scalar_one() -> Scalar {
    Scalar { bits: ONE_BITS }
}

/// The record that a sparse mapping from control names to values stands
/// for. Names that are no control are not read.
pub open spec fn settings_of(controls: Map<Seq<char>, Scalar>) -> ImageSettings {
    ImageSettings {
        exposure: control_or(controls, "exposure"@, scalar_zero()),
        contrast: control_or(controls, "contrast"@, scalar_zero()),
        highlights: control_or(controls, "highlights"@, scalar_zero()),
        shadows: control_or(controls, "shadows"@, scalar_zero()),
        whites: control_or(controls, "whites"@, scalar_zero()),
        blacks: control_or(controls, "blacks"@, scalar_zero()),
        saturation: control_or(controls, "saturation"@, scalar_zero()),
        vibrance: control_or(controls, "vibrance"@, scalar_zero()),
        temperature: control_or(controls, "temperature"@, scalar_zero()),
        tint: control_or(controls, "tint"@, scalar_zero()),
        gamma: control_or(controls, "gamma"@, scalar_one()),
        clarity: control_or(controls, "clarity"@, scalar_zero()),
        texture: control_or(controls, "texture"@, scalar_zero()),
        mid_contrast: control_or(controls, "mid_contrast"@, scalar_zero()),
        dehaze: control_or(controls, "dehaze"@, scalar_zero()),
        denoise: control_or(controls, "denoise"@, scalar_zero()),
        vignette: control_or(controls, "vignette"@, scalar_zero()),
        export_sharpen: control_or(controls, "export_sharpen"@, scalar_zero()),
        tone_curve: control_or(controls, "tone_curve"@, scalar_zero()),
        defringe: control_or(controls, "defringe"@, scalar_zero()),
        grain_amount: control_or(controls, "grain_amount"@, scalar_zero()),
        grain_size: control_or(controls, "grain_size"@, scalar_zero()),
        grain_roughness: control_or(controls, "grain_roughness"@, scalar_zero()),
        h_red: control_or(controls, "h_red"@, scalar_zero()),
        s_red: control_or(controls, "s_red"@, scalar_zero()),
        l_red: control_or(controls, "l_red"@, scalar_zero()),
        h_orange: control_or(controls, "h_orange"@, scalar_zero()),
        s_orange: control_or(controls, "s_orange"@, scalar_zero()),
        l_orange: control_or(controls, "l_orange"@, scalar_zero()),
        h_yellow: control_or(controls, "h_yellow"@, scalar_zero()),
        s_yellow: control_or(controls, "s_yellow"@, scalar_zero()),
        l_yellow: control_or(controls, "l_yellow"@, scalar_zero()),
        h_green: control_or(controls, "h_green"@, scalar_zero()),
        s_green: control_or(controls, "s_green"@, scalar_zero()),
        l_green: control_or(controls, "l_green"@, scalar_zero()),
        h_aqua: control_or(controls, "h_aqua"@, scalar_zero()),
        s_aqua: control_or(controls, "s_aqua"@, scalar_zero()),
        l_aqua: control_or(controls, "l_aqua"@, scalar_zero()),
        h_blue: control_or(controls, "h_blue"@, scalar_zero()),
        s_blue: control_or(controls, "s_blue"@, scalar_zero()),
        l_blue: control_or(controls, "l_blue"@, scalar_zero()),
        h_purple: control_or(controls, "h_purple"@, scalar_zero()),
        s_purple: control_or(controls, "s_purple"@, scalar_zero()),
        l_purple: control_or(controls, "l_purple"@, scalar_zero()),
        h_magenta: control_or(controls, "h_magenta"@, scalar_zero()),
        s_magenta: control_or(controls, "s_magenta"@, scalar_zero()),
        l_magenta: control_or(controls, "l_magenta"@, scalar_zero()),
    }
}

/// The record with every control neutral.
pub open spec fn neutral_settings() -> ImageSettings {
    ImageSettings {
        exposure: scalar_zero(),
        contrast: scalar_zero(),
        highlights: scalar_zero(),
        shadows: scalar_zero(),
        whites: scalar_zero(),
        blacks: scalar_zero(),
        saturation: scalar_zero(),
        vibrance: scalar_zero(),
        temperature: scalar_zero(),
        tint: scalar_zero(),
        gamma: scalar_one(),
        clarity: scalar_zero(),
        texture: scalar_zero(),
        mid_contrast: scalar_zero(),
        dehaze: scalar_zero(),
        denoise: scalar_zero(),
        vignette: scalar_zero(),
        export_sharpen: scalar_zero(),
        tone_curve: scalar_zero(),
        defringe: scalar_zero(),
        grain_amount: scalar_zero(),
        grain_size: scalar_zero(),
        grain_roughness: scalar_zero(),
        h_red: scalar_zero(),
        s_red: scalar_zero(),
        l_red: scalar_zero(),
        h_orange: scalar_zero(),
        s_orange: scalar_zero(),
        l_orange: scalar_zero(),
        h_yellow: scalar_zero(),
        s_yellow: scalar_zero(),
        l_yellow: scalar_zero(),
        h_green: scalar_zero(),
        s_green: scalar_zero(),
        l_green: scalar_zero(),
        h_aqua: scalar_zero(),
        s_aqua: scalar_zero(),
        l_aqua: scalar_zero(),
        h_blue: scalar_zero(),
        s_blue: scalar_zero(),
        l_blue: scalar_zero(),
        h_purple: scalar_zero(),
        s_purple: scalar_zero(),
        l_purple: scalar_zero(),
        h_magenta: scalar_zero(),
        s_magenta: scalar_zero(),
        l_magenta: scalar_zero(),
    }
}

/// Reads one control from the mapping.
fn read_control(map: &StringHashMap<Scalar>, key: &str, neutral: Scalar) -> (r: Scalar)
    ensures
        r == control_or(map@, key@, neutral),
{
    match map.get(key) {
        Some(value) => *value,
        None => neutral,
    }
}

impl ImageSettings {
    /// Builds the record from a sparse mapping: each control takes the
    /// mapping's value for its name, or its neutral value where the name is
    /// absent. Other names in the mapping are ignored.
    pub fn from_hashmap(map: &StringHashMap<Scalar>) -> (r: ImageSettings)
        ensures
            r == settings_of(map@),
    {
        let zero = Scalar::zero();
        let one = Scalar::one();
        ImageSettings {
            exposure: read_control(map, "exposure", zero),
            contrast: read_control(map, "contrast", zero),
            highlights: read_control(map, "highlights", zero),
            shadows: read_control(map, "shadows", zero),
            whites: read_control(map, "whites", zero),
            blacks: read_control(map, "blacks", zero),
            saturation: read_control(map, "saturation", zero),
            vibrance: read_control(map, "vibrance", zero),
            temperature: read_control(map, "temperature", zero),
            tint: read_control(map, "tint", zero),
            gamma: read_control(map, "gamma", one),
            clarity: read_control(map, "clarity", zero),
            texture: read_control(map, "texture", zero),
            mid_contrast: read_control(map, "mid_contrast", zero),
            dehaze: read_control(map, "dehaze", zero),
            denoise: read_control(map, "denoise", zero),
            vignette: read_control(map, "vignette", zero),
            export_sharpen: read_control(map, "export_sharpen", zero),
            tone_curve: read_control(map, "tone_curve", zero),
            defringe: read_control(map, "defringe", zero),
            grain_amount: read_control(map, "grain_amount", zero),
            grain_size: read_control(map, "grain_size", zero),
            grain_roughness: read_control(map, "grain_roughness", zero),
            h_red: read_control(map, "h_red", zero),
            s_red: read_control(map, "s_red", zero),
            l_red: read_control(map, "l_red", zero),
            h_orange: read_control(map, "h_orange", zero),
            s_orange: read_control(map, "s_orange", zero),
            l_orange: read_control(map, "l_orange", zero),
            h_yellow: read_control(map, "h_yellow", zero),
            s_yellow: read_control(map, "s_yellow", zero),
            l_yellow: read_control(map, "l_yellow", zero),
            h_green: read_control(map, "h_green", zero),
            s_green: read_control(map, "s_green", zero),
            l_green: read_control(map, "l_green", zero),
            h_aqua: read_control(map, "h_aqua", zero),
            s_aqua: read_control(map, "s_aqua", zero),
            l_aqua: read_control(map, "l_aqua", zero),
            h_blue: read_control(map, "h_blue", zero),
            s_blue: read_control(map, "s_blue", zero),
            l_blue: read_control(map, "l_blue", zero),
            h_purple: read_control(map, "h_purple", zero),
            s_purple: read_control(map, "s_purple", zero),
            l_purple: read_control(map, "l_purple", zero),
            h_magenta: read_control(map, "h_magenta", zero),
            s_magenta: read_control(map, "s_magenta", zero),
            l_magenta: read_control(map, "l_magenta", zero),
        }
    }

    /// The record with every control neutral.
    pub fn neutral() -> (r: ImageSettings)
        ensures
            r == neutral_settings(),
    {
        let zero = Scalar::zero();
        let one = Scalar::one();
        ImageSettings {
            exposure: zero,
            contrast: zero,
            highlights: zero,
            shadows: zero,
            whites: zero,
            blacks: zero,
            saturation: zero,
            vibrance: zero,
            temperature: zero,
            tint: zero,
            gamma: one,
            clarity: zero,
            texture: zero,
            mid_contrast: zero,
            dehaze: zero,
            denoise: zero,
            vignette: zero,
            export_sharpen: zero,
            tone_curve: zero,
            defringe: zero,
            grain_amount: zero,
            grain_size: zero,
            grain_roughness: zero,
            h_red: zero,
            s_red: zero,
            l_red: zero,
            h_orange: zero,
            s_orange: zero,
            l_orange: zero,
            h_yellow: zero,
            s_yellow: zero,
            l_yellow: zero,
            h_green: zero,
            s_green: zero,
            l_green: zero,
            h_aqua: zero,
            s_aqua: zero,
            l_aqua: zero,
            h_blue: zero,
            s_blue: zero,
            l_blue: zero,
            h_purple: zero,
            s_purple: zero,
            l_purple: zero,
            h_magenta: zero,
            s_magenta: zero,
            l_magenta: zero,
        }
    }
}

/// A mapping without any control name stands for the neutral record.
pub proof fn lemma_empty_mapping_is_neutral()
    ensures
        settings_of(Map::<Seq<char>, Scalar>::empty()) == neutral_settings(),
{
}

/// The text is the name of a control.
pub open spec fn is_control_name(key: Seq<char>) -> bool {
    ||| key == "exposure"@
    ||| key == "contrast"@
    ||| key == "highlights"@
    ||| key == "shadows"@
    ||| key == "whites"@
    ||| key == "blacks"@
    ||| key == "saturation"@
    ||| key == "vibrance"@
    ||| key == "temperature"@
    ||| key == "tint"@
    ||| key == "gamma"@
    ||| key == "clarity"@
    ||| key == "texture"@
    ||| key == "mid_contrast"@
    ||| key == "dehaze"@
    ||| key == "denoise"@
    ||| key == "vignette"@
    ||| key == "export_sharpen"@
    ||| key == "tone_curve"@
    ||| key == "defringe"@
    ||| key == "grain_amount"@
    ||| key == "grain_size"@
    ||| key == "grain_roughness"@
    ||| key == "h_red"@
    ||| key == "s_red"@
    ||| key == "l_red"@
    ||| key == "h_orange"@
    ||| key == "s_orange"@
    ||| key == "l_orange"@
    ||| key == "h_yellow"@
    ||| key == "s_yellow"@
    ||| key == "l_yellow"@
    ||| key == "h_green"@
    ||| key == "s_green"@
    ||| key == "l_green"@
    ||| key == "h_aqua"@
    ||| key == "s_aqua"@
    ||| key == "l_aqua"@
    ||| key == "h_blue"@
    ||| key == "s_blue"@
    ||| key == "l_blue"@
    ||| key == "h_purple"@
    ||| key == "s_purple"@
    ||| key == "l_purple"@
    ||| key == "h_magenta"@
    ||| key == "s_magenta"@
    ||| key == "l_magenta"@
}

/// The neutral value of the control with the given name.
pub open spec fn neutral_value(key: Seq<char>) -> Scalar {
    if key == "gamma"@ {
        scalar_one()
    } else {
        scalar_zero()
    }
}

/// Names that are no control are ignored: an entry under such a name
/// changes nothing in the record.
pub proof fn lemma_unknown_name_is_ignored(
    controls: Map<Seq<char>, Scalar>,
    key: Seq<char>,
    value: Scalar,
)
    requires
        !is_control_name(key),
    ensures
        settings_of(controls.insert(key, value)) == settings_of(controls),
{
}

/// Absence cannot be told from neutrality: naming a control that was
/// absent, with its neutral value, changes nothing in the record.
pub proof fn lemma_neutral_value_is_absence(controls: Map<Seq<char>, Scalar>, key: Seq<char>)
    requires
        !controls.contains_key(key),
    ensures
        settings_of(controls.insert(key, neutral_value(key))) == settings_of(controls),
{
    reveal_strlit("gamma");
    assert("exposure"@ != "gamma"@) by {
        reveal_strlit("exposure");
        assert("exposure"@.len() != "gamma"@.len());
    }
    assert("contrast"@ != "gamma"@) by {
        reveal_strlit("contrast");
        assert("contrast"@.len() != "gamma"@.len());
    }
    assert("highlights"@ != "gamma"@) by {
        reveal_strlit("highlights");
        assert("highlights"@.len() != "gamma"@.len());
    }
    assert("shadows"@ != "gamma"@) by {
        reveal_strlit("shadows");
        assert("shadows"@.len() != "gamma"@.len());
    }
    assert("whites"@ != "gamma"@) by {
        reveal_strlit("whites");
        assert("whites"@.len() != "gamma"@.len());
    }
    assert("blacks"@ != "gamma"@) by {
        reveal_strlit("blacks");
        assert("blacks"@.len() != "gamma"@.len());
    }
    assert("saturation"@ != "gamma"@) by {
        reveal_strlit("saturation");
        assert("saturation"@.len() != "gamma"@.len());
    }
    assert("vibrance"@ != "gamma"@) by {
        reveal_strlit("vibrance");
        assert("vibrance"@.len() != "gamma"@.len());
    }
    assert("temperature"@ != "gamma"@) by {
        reveal_strlit("temperature");
        assert("temperature"@.len() != "gamma"@.len());
    }
    assert("tint"@ != "gamma"@) by {
        reveal_strlit("tint");
        assert("tint"@.len() != "gamma"@.len());
    }
    assert("clarity"@ != "gamma"@) by {
        reveal_strlit("clarity");
        assert("clarity"@.len() != "gamma"@.len());
    }
    assert("texture"@ != "gamma"@) by {
        reveal_strlit("texture");
        assert("texture"@.len() != "gamma"@.len());
    }
    assert("mid_contrast"@ != "gamma"@) by {
        reveal_strlit("mid_contrast");
        assert("mid_contrast"@.len() != "gamma"@.len());
    }
    assert("dehaze"@ != "gamma"@) by {
        reveal_strlit("dehaze");
        assert("dehaze"@.len() != "gamma"@.len());
    }
    assert("denoise"@ != "gamma"@) by {
        reveal_strlit("denoise");
        assert("denoise"@.len() != "gamma"@.len());
    }
    assert("vignette"@ != "gamma"@) by {
        reveal_strlit("vignette");
        assert("vignette"@.len() != "gamma"@.len());
    }
    assert("export_sharpen"@ != "gamma"@) by {
        reveal_strlit("export_sharpen");
        assert("export_sharpen"@.len() != "gamma"@.len());
    }
    assert("tone_curve"@ != "gamma"@) by {
        reveal_strlit("tone_curve");
        assert("tone_curve"@.len() != "gamma"@.len());
    }
    assert("defringe"@ != "gamma"@) by {
        reveal_strlit("defringe");
        assert("defringe"@.len() != "gamma"@.len());
    }
    assert("grain_amount"@ != "gamma"@) by {
        reveal_strlit("grain_amount");
        assert("grain_amount"@.len() != "gamma"@.len());
    }
    assert("grain_size"@ != "gamma"@) by {
        reveal_strlit("grain_size");
        assert("grain_size"@.len() != "gamma"@.len());
    }
    assert("grain_roughness"@ != "gamma"@) by {
        reveal_strlit("grain_roughness");
        assert("grain_roughness"@.len() != "gamma"@.len());
    }
    assert("h_red"@ != "gamma"@) by {
        reveal_strlit("h_red");
        assert("h_red"@[0] != "gamma"@[0]);
    }
    assert("s_red"@ != "gamma"@) by {
        reveal_strlit("s_red");
        assert("s_red"@[0] != "gamma"@[0]);
    }
    assert("l_red"@ != "gamma"@) by {
        reveal_strlit("l_red");
        assert("l_red"@[0] != "gamma"@[0]);
    }
    assert("h_orange"@ != "gamma"@) by {
        reveal_strlit("h_orange");
        assert("h_orange"@.len() != "gamma"@.len());
    }
    assert("s_orange"@ != "gamma"@) by {
        reveal_strlit("s_orange");
        assert("s_orange"@.len() != "gamma"@.len());
    }
    assert("l_orange"@ != "gamma"@) by {
        reveal_strlit("l_orange");
        assert("l_orange"@.len() != "gamma"@.len());
    }
    assert("h_yellow"@ != "gamma"@) by {
        reveal_strlit("h_yellow");
        assert("h_yellow"@.len() != "gamma"@.len());
    }
    assert("s_yellow"@ != "gamma"@) by {
        reveal_strlit("s_yellow");
        assert("s_yellow"@.len() != "gamma"@.len());
    }
    assert("l_yellow"@ != "gamma"@) by {
        reveal_strlit("l_yellow");
        assert("l_yellow"@.len() != "gamma"@.len());
    }
    assert("h_green"@ != "gamma"@) by {
        reveal_strlit("h_green");
        assert("h_green"@.len() != "gamma"@.len());
    }
    assert("s_green"@ != "gamma"@) by {
        reveal_strlit("s_green");
        assert("s_green"@.len() != "gamma"@.len());
    }
    assert("l_green"@ != "gamma"@) by {
        reveal_strlit("l_green");
        assert("l_green"@.len() != "gamma"@.len());
    }
    assert("h_aqua"@ != "gamma"@) by {
        reveal_strlit("h_aqua");
        assert("h_aqua"@.len() != "gamma"@.len());
    }
    assert("s_aqua"@ != "gamma"@) by {
        reveal_strlit("s_aqua");
        assert("s_aqua"@.len() != "gamma"@.len());
    }
    assert("l_aqua"@ != "gamma"@) by {
        reveal_strlit("l_aqua");
        assert("l_aqua"@.len() != "gamma"@.len());
    }
    assert("h_blue"@ != "gamma"@) by {
        reveal_strlit("h_blue");
        assert("h_blue"@.len() != "gamma"@.len());
    }
    assert("s_blue"@ != "gamma"@) by {
        reveal_strlit("s_blue");
        assert("s_blue"@.len() != "gamma"@.len());
    }
    assert("l_blue"@ != "gamma"@) by {
        reveal_strlit("l_blue");
        assert("l_blue"@.len() != "gamma"@.len());
    }
    assert("h_purple"@ != "gamma"@) by {
        reveal_strlit("h_purple");
        assert("h_purple"@.len() != "gamma"@.len());
    }
    assert("s_purple"@ != "gamma"@) by {
        reveal_strlit("s_purple");
        assert("s_purple"@.len() != "gamma"@.len());
    }
    assert("l_purple"@ != "gamma"@) by {
        reveal_strlit("l_purple");
        assert("l_purple"@.len() != "gamma"@.len());
    }
    assert("h_magenta"@ != "gamma"@) by {
        reveal_strlit("h_magenta");
        assert("h_magenta"@.len() != "gamma"@.len());
    }
    assert("s_magenta"@ != "gamma"@) by {
        reveal_strlit("s_magenta");
        assert("s_magenta"@.len() != "gamma"@.len());
    }
    assert("l_magenta"@ != "gamma"@) by {
        reveal_strlit("l_magenta");
        assert("l_magenta"@.len() != "gamma"@.len());
    }
}

} // verus!
