//! The renderer configuration model: setters store values, order does
//! not matter, and the render-call decisions decode native results.

use libass::classify_frame;
use libass::font_update_status;
use libass::Change;
use libass::DefaultFontProvider;
use libass::FontSelection;
use libass::Hinting;
use libass::OverrideBits;
use libass::RendererConfig;
use libass::ShapingLevel;

#[test]
fn setters_store_their_setting() {
    let mut c = RendererConfig::new();
    c.set_frame_size(1920, 1080);
    c.set_storage_size(1280, 720);
    c.set_margins(10, 20, 30, 40);
    c.use_margins(true);
    c.set_shaper(ShapingLevel::Simple);
    c.set_hinting(Hinting::Light);
    c.set_font_scale((1.5f64).to_bits());
    c.set_pixel_aspect_ratio((1.0f64).to_bits());
    c.set_aspect_ratio((16.0f64 / 9.0).to_bits(), (1.0f64).to_bits());
    c.set_line_spacing((0.0f64).to_bits());
    c.set_line_position((5.0f64).to_bits());
    c.set_cache_limits(512, 64);
    c.set_selective_style_override_enabled(OverrideBits::from_bits(3));
    assert_eq!(c.frame_width, 1920);
    assert_eq!(c.frame_height, 1080);
    assert_eq!(c.storage_width, 1280);
    assert_eq!(c.storage_height, 720);
    assert_eq!(c.margin_top, 10);
    assert_eq!(c.margin_bottom, 20);
    assert_eq!(c.margin_left, 30);
    assert_eq!(c.margin_right, 40);
    assert!(c.use_margins);
    assert_eq!(c.shaping, ShapingLevel::Simple);
    assert_eq!(c.hinting, Hinting::Light);
    assert_eq!(c.font_scale, (1.5f64).to_bits());
    assert_eq!(c.glyph_cache_max, 512);
    assert_eq!(c.bitmap_cache_max, 64);
    assert_eq!(c.override_enabled.bits(), 3);
}

#[test]
fn setter_order_does_not_matter() {
    let mut a = RendererConfig::new();
    a.set_frame_size(1920, 1080);
    a.set_hinting(Hinting::Normal);
    a.set_shaper(ShapingLevel::Complex);
    a.set_cache_limits(100, 200);

    let mut b = RendererConfig::new();
    b.set_cache_limits(100, 200);
    b.set_shaper(ShapingLevel::Complex);
    b.set_hinting(Hinting::Normal);
    b.set_frame_size(1920, 1080);

    assert_eq!(a.frame_width, b.frame_width);
    assert_eq!(a.frame_height, b.frame_height);
    assert_eq!(a.hinting, b.hinting);
    assert_eq!(a.shaping, b.shaping);
    assert_eq!(a.glyph_cache_max, b.glyph_cache_max);
    assert_eq!(a.bitmap_cache_max, b.bitmap_cache_max);
}

fn plain_style() -> libass::Style {
    libass::Style {
        name: b"Default".to_vec(),
        font_name: b"Sans".to_vec(),
        font_size: 0,
        primary_color: 0,
        secondary_color: 0,
        outline_color: 0,
        back_color: 0,
        bold: false,
        italic: false,
        underline: false,
        strikeout: false,
        scale_x: 0,
        scale_y: 0,
        spacing: 0,
        angle: 0,
        border_style: 0,
        outline: 0,
        shadow: 0,
        alignment: 0,
        margin_l: 0,
        margin_r: 0,
        margin_v: 0,
        encoding: 0,
        treat_fontname_as_pattern: false,
        blur: 0,
        justify: 0,
    }
}

#[test]
fn override_style_and_mask_store_independently() {
    // The override style and its enabled mask are distinct settings:
    // setting them in either order stores the same pair.
    let mut a = RendererConfig::new();
    a.set_selective_style_override(plain_style());
    a.set_selective_style_override_enabled(OverrideBits::from_bits(libass::BIT_STYLE));

    let mut b = RendererConfig::new();
    b.set_selective_style_override_enabled(OverrideBits::from_bits(libass::BIT_STYLE));
    b.set_selective_style_override(plain_style());

    assert_eq!(a.override_enabled.bits(), b.override_enabled.bits());
    let sa = a.override_style.unwrap();
    let sb = b.override_style.unwrap();
    assert_eq!(sa.name, sb.name);
    assert_eq!(sa.font_size, sb.font_size);
}

#[test]
fn repeated_setter_keeps_last_value() {
    let mut c = RendererConfig::new();
    c.set_frame_size(640, 480);
    c.set_frame_size(1920, 1080);
    assert_eq!(c.frame_width, 1920);
    assert_eq!(c.frame_height, 1080);
}

#[test]
fn font_selection_checks_text_fields() {
    let good = FontSelection {
        font: None,
        family: Some(b"sans-serif".to_vec()),
        provider: DefaultFontProvider::Autodetect,
        fontconfig_path: None,
        update_cache: false,
    };
    assert!(good.check().is_ok());
    let bad = FontSelection {
        font: Some(b"a\0b".to_vec()),
        family: None,
        provider: DefaultFontProvider::Autodetect,
        fontconfig_path: None,
        update_cache: false,
    };
    assert!(bad.check().is_err());
}

#[test]
fn font_update_status_passes_code_through() {
    assert_eq!(font_update_status(0), Ok(()));
    assert_eq!(font_update_status(-3), Err(-3));
    assert_eq!(font_update_status(7), Err(7));
}

#[test]
fn classify_frame_decodes_render_outcome() {
    assert_eq!(classify_frame(true, 0), Some((false, Change::Unchanged)));
    assert_eq!(classify_frame(false, 1), Some((true, Change::Position)));
    assert_eq!(classify_frame(false, 2), Some((true, Change::Content)));
    assert_eq!(classify_frame(false, 7), None);
}

#[test]
fn null_image_means_no_layers() {
    // A render call whose image list is null produces no sequence at
    // all: the decision reports the absence, and there is nothing to
    // iterate.
    let outcome = classify_frame(true, 2).unwrap();
    assert!(!outcome.0);
    let layers: Vec<libass::Layer> = Vec::new();
    assert_eq!(layers.into_iter().count(), 0);
}
