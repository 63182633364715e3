use egui_color::color32::{srgba, Color32};
use egui_color::palette;

fn scale_by_alpha(x: u8, a: u8) -> u8 {
    ((x as u32 * a as u32 + 127) / 255) as u8
}

fn divide_by_alpha(x: u8, a: u8) -> u8 {
    let v = (x as u32 * 255 + a as u32 / 2) / a as u32;
    if v > 255 {
        255
    } else {
        v as u8
    }
}

#[test]
fn gray_is_opaque_and_black_alpha_zero_is_not() {
    assert!(Color32::gray(128).is_opaque());
    assert!(!Color32::black_alpha(0).is_opaque());
}

#[test]
fn constructors_place_channels() {
    assert_eq!(Color32::from_rgb(1, 2, 3).to_tuple(), (1, 2, 3, 255));
    assert_eq!(Color32::from_rgb_additive(1, 2, 3).to_tuple(), (1, 2, 3, 0));
    assert_eq!(Color32::from_rgba_premultiplied(1, 2, 3, 4).to_array(), [1, 2, 3, 4]);
    assert_eq!(Color32::new(9, 8, 7, 6).to_array(), [9, 8, 7, 6]);
    assert_eq!(srgba(9, 8, 7, 6), Color32::from_rgba_premultiplied(9, 8, 7, 6));
    assert_eq!(Color32::gray(77).to_array(), [77, 77, 77, 255]);
    assert_eq!(Color32::black_alpha(40).to_array(), [0, 0, 0, 40]);
    assert_eq!(Color32::additive_luminance(90).to_array(), [90, 90, 90, 0]);
}

#[test]
fn getters_read_each_channel() {
    let c = Color32::from_rgba_premultiplied(10, 20, 30, 40);
    assert_eq!((c.r(), c.g(), c.b(), c.a()), (10, 20, 30, 40));
    assert_eq!(c.channel(0), 10);
    assert_eq!(c.channel(1), 20);
    assert_eq!(c.channel(2), 30);
    assert_eq!(c.channel(3), 40);
}

#[test]
fn set_channel_replaces_one_channel() {
    let mut c = Color32::from_rgba_premultiplied(10, 20, 30, 40);
    c.set_channel(2, 99);
    assert_eq!(c.to_array(), [10, 20, 99, 40]);
    c.set_channel(3, 255);
    assert_eq!(c.to_array(), [10, 20, 99, 255]);
    assert!(c.is_opaque());
}

#[test]
fn unmultiplied_opaque_equals_premultiplied() {
    for r in 0..=255u8 {
        for g in 0..=255u8 {
            for b in [0u8, 1, 127, 128, 254, 255] {
                assert_eq!(
                    Color32::from_rgba_unmultiplied(r, g, b, 255, |_, _| 7),
                    Color32::from_rgba_premultiplied(r, g, b, 255)
                );
            }
        }
    }
}

#[test]
fn unmultiplied_translucent_scales_color_and_keeps_alpha() {
    let c = Color32::from_rgba_unmultiplied(255, 128, 0, 128, scale_by_alpha);
    assert_eq!(c.to_array(), [128, 64, 0, 128]);
    let z = Color32::from_rgba_unmultiplied(255, 255, 255, 0, scale_by_alpha);
    assert_eq!(z, palette::transparent());
}

#[test]
fn white_alpha_encodes_color_channels_only() {
    let c = Color32::white_alpha(100, |a| a.wrapping_add(50));
    assert_eq!(c.to_array(), [150, 150, 150, 100]);
}

#[test]
fn to_opaque_of_additive_color_passes_channels_through() {
    let c = Color32::from_rgb_additive(51, 102, 153);
    assert_eq!(c.to_opaque(divide_by_alpha), Color32::from_rgb(51, 102, 153));
}

#[test]
fn to_opaque_of_opaque_color_is_itself() {
    let c = Color32::from_rgb(5, 6, 7);
    assert_eq!(c.to_opaque(|_, _| 0), c);
}

#[test]
fn to_opaque_unmultiplies_translucent_color() {
    let c = Color32::from_rgba_premultiplied(64, 32, 0, 128);
    assert_eq!(c.to_opaque(divide_by_alpha).to_array(), [128, 64, 0, 255]);
}

#[test]
fn named_colors_have_canonical_bytes() {
    assert_eq!(palette::transparent().to_array(), [0, 0, 0, 0]);
    assert_eq!(palette::black().to_array(), [0, 0, 0, 255]);
    assert_eq!(palette::light_gray().to_array(), [220, 220, 220, 255]);
    assert_eq!(palette::gray().to_array(), [160, 160, 160, 255]);
    assert_eq!(palette::white().to_array(), [255, 255, 255, 255]);
    assert_eq!(palette::red().to_array(), [255, 0, 0, 255]);
    assert_eq!(palette::green().to_array(), [0, 255, 0, 255]);
    assert_eq!(palette::blue().to_array(), [0, 0, 255, 255]);
    assert_eq!(palette::yellow().to_array(), [255, 255, 0, 255]);
    assert_eq!(palette::light_blue().to_array(), [140, 160, 255, 255]);
}
