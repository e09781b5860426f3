use ninlab_core_rs::scalar::Scalar;
use ninlab_core_rs::settings::ImageSettings;
use ninlab_core_rs::StringHashMap;

fn sc(x: f32) -> Scalar {
    Scalar::from_bits(x.to_bits())
}

fn val(s: Scalar) -> f32 {
    f32::from_bits(s.to_bits())
}

#[test]
fn empty_mapping_gives_neutral_record() {
    let map: StringHashMap<Scalar> = StringHashMap::new();
    let s = ImageSettings::from_hashmap(&map);
    assert_eq!(s, ImageSettings::neutral());
    assert_eq!(val(s.gamma), 1.0);
    assert_eq!(val(s.exposure), 0.0);
    assert_eq!(val(s.denoise), 0.0);
    assert_eq!(val(s.l_magenta), 0.0);
}

#[test]
fn neutral_record_is_zero_everywhere_but_gamma() {
    let s = ImageSettings::neutral();
    let zeros = [
        s.exposure, s.contrast, s.highlights, s.shadows, s.whites, s.blacks, s.saturation,
        s.vibrance, s.temperature, s.tint, s.clarity, s.texture, s.mid_contrast, s.dehaze,
        s.denoise, s.vignette, s.export_sharpen, s.tone_curve, s.defringe, s.grain_amount,
        s.grain_size, s.grain_roughness, s.h_red, s.s_red, s.l_red, s.h_orange, s.s_orange,
        s.l_orange, s.h_yellow, s.s_yellow, s.l_yellow, s.h_green, s.s_green, s.l_green,
        s.h_aqua, s.s_aqua, s.l_aqua, s.h_blue, s.s_blue, s.l_blue, s.h_purple, s.s_purple,
        s.l_purple, s.h_magenta, s.s_magenta, s.l_magenta,
    ];
    assert_eq!(zeros.len(), 46);
    for z in zeros {
        assert_eq!(z.to_bits(), 0);
    }
    assert_eq!(s.gamma.to_bits(), 0x3f80_0000);
}

#[test]
fn present_keys_are_taken_and_absent_ones_default() {
    let mut map: StringHashMap<Scalar> = StringHashMap::new();
    map.insert(String::from("exposure"), sc(1.5));
    map.insert(String::from("gamma"), sc(2.2));
    map.insert(String::from("s_green"), sc(-0.25));
    map.insert(String::from("grain_roughness"), sc(0.75));
    let s = ImageSettings::from_hashmap(&map);
    assert_eq!(val(s.exposure), 1.5);
    assert_eq!(val(s.gamma), 2.2);
    assert_eq!(val(s.s_green), -0.25);
    assert_eq!(val(s.grain_roughness), 0.75);
    assert_eq!(val(s.contrast), 0.0);
    assert_eq!(val(s.h_green), 0.0);
    assert_eq!(val(s.l_green), 0.0);
}

#[test]
fn unknown_keys_are_ignored() {
    let mut map: StringHashMap<Scalar> = StringHashMap::new();
    map.insert(String::from("sharpness"), sc(9.0));
    map.insert(String::from("Exposure"), sc(3.0));
    map.insert(String::from(""), sc(1.0));
    let s = ImageSettings::from_hashmap(&map);
    assert_eq!(s, ImageSettings::neutral());
}

#[test]
fn explicit_neutral_value_is_the_same_as_absence() {
    let mut map: StringHashMap<Scalar> = StringHashMap::new();
    map.insert(String::from("gamma"), sc(1.0));
    map.insert(String::from("vignette"), sc(0.0));
    assert_eq!(ImageSettings::from_hashmap(&map), ImageSettings::neutral());
}

#[test]
fn every_control_name_reaches_its_own_field() {
    let names: [&str; 47] = [
        "exposure", "contrast", "highlights", "shadows", "whites", "blacks", "saturation",
        "vibrance", "temperature", "tint", "gamma", "clarity", "texture", "mid_contrast",
        "dehaze", "denoise", "vignette", "export_sharpen", "tone_curve", "defringe",
        "grain_amount", "grain_size", "grain_roughness", "h_red", "s_red", "l_red", "h_orange",
        "s_orange", "l_orange", "h_yellow", "s_yellow", "l_yellow", "h_green", "s_green",
        "l_green", "h_aqua", "s_aqua", "l_aqua", "h_blue", "s_blue", "l_blue", "h_purple",
        "s_purple", "l_purple", "h_magenta", "s_magenta", "l_magenta",
    ];
    let mut map: StringHashMap<Scalar> = StringHashMap::new();
    let mut k: u32 = 0;
    for name in names {
        map.insert(String::from(name), Scalar::from_bits(1000 + k));
        k += 1;
    }
    let s = ImageSettings::from_hashmap(&map);
    let fields = [
        s.exposure, s.contrast, s.highlights, s.shadows, s.whites, s.blacks, s.saturation,
        s.vibrance, s.temperature, s.tint, s.gamma, s.clarity, s.texture, s.mid_contrast,
        s.dehaze, s.denoise, s.vignette, s.export_sharpen, s.tone_curve, s.defringe,
        s.grain_amount, s.grain_size, s.grain_roughness, s.h_red, s.s_red, s.l_red, s.h_orange,
        s.s_orange, s.l_orange, s.h_yellow, s.s_yellow, s.l_yellow, s.h_green, s.s_green,
        s.l_green, s.h_aqua, s.s_aqua, s.l_aqua, s.h_blue, s.s_blue, s.l_blue, s.h_purple,
        s.s_purple, s.l_purple, s.h_magenta, s.s_magenta, s.l_magenta,
    ];
    let mut i: u32 = 0;
    for f in fields {
        assert_eq!(f.to_bits(), 1000 + i);
        i += 1;
    }
}
