//! Style conversion to the native record and back, text validation at
//! the boundary, and the override bit mask.

use libass::NativeStyle;
use libass::OverrideBits;
use libass::Style;
use libass::BIT_ALIGNMENT;
use libass::BIT_COLORS;
use libass::BIT_FONT_SIZE;
use libass::BIT_SELECTIVE_FONT_SCALE;
use libass::BIT_STYLE;
use libass::FULL_STYLE;

fn sample_style() -> Style {
    Style {
        name: b"Default".to_vec(),
        font_name: b"Sans".to_vec(),
        font_size: (20.0f64).to_bits(),
        primary_color: 0x00FF_0000,
        secondary_color: 0x00FF_FF00,
        outline_color: 0x0000_0000,
        back_color: 0x0000_00FF,
        bold: true,
        italic: false,
        underline: true,
        strikeout: false,
        scale_x: (1.0f64).to_bits(),
        scale_y: (1.25f64).to_bits(),
        spacing: (0.5f64).to_bits(),
        angle: (0.0f64).to_bits(),
        border_style: 1,
        outline: (2.0f64).to_bits(),
        shadow: (3.0f64).to_bits(),
        alignment: 2,
        margin_l: 10,
        margin_r: 20,
        margin_v: 30,
        encoding: 1,
        treat_fontname_as_pattern: false,
        blur: (0.75f64).to_bits(),
        justify: 0,
    }
}

#[test]
fn style_round_trip() {
    let s = sample_style();
    let n: NativeStyle = s.to_native().unwrap();
    assert_eq!(n.bold, 1);
    assert_eq!(n.italic, 0);
    assert_eq!(n.underline, 1);
    assert_eq!(n.strikeout, 0);
    assert_eq!(n.treat_fontname_as_pattern, 0);
    assert_eq!(n.name, b"Default".to_vec());
    assert_eq!(n.font_name, b"Sans".to_vec());
    let s2 = Style::from_native(&n);
    assert_eq!(s2.name, s.name);
    assert_eq!(s2.font_name, s.font_name);
    assert_eq!(s2.font_size, s.font_size);
    assert_eq!(f64::from_bits(s2.font_size), 20.0);
    assert_eq!(s2.primary_color, s.primary_color);
    assert_eq!(s2.secondary_color, s.secondary_color);
    assert_eq!(s2.outline_color, s.outline_color);
    assert_eq!(s2.back_color, s.back_color);
    assert_eq!(s2.bold, s.bold);
    assert_eq!(s2.italic, s.italic);
    assert_eq!(s2.underline, s.underline);
    assert_eq!(s2.strikeout, s.strikeout);
    assert_eq!(s2.scale_x, s.scale_x);
    assert_eq!(s2.scale_y, s.scale_y);
    assert_eq!(s2.spacing, s.spacing);
    assert_eq!(s2.angle, s.angle);
    assert_eq!(s2.border_style, s.border_style);
    assert_eq!(s2.outline, s.outline);
    assert_eq!(s2.shadow, s.shadow);
    assert_eq!(s2.alignment, s.alignment);
    assert_eq!(s2.margin_l, s.margin_l);
    assert_eq!(s2.margin_r, s.margin_r);
    assert_eq!(s2.margin_v, s.margin_v);
    assert_eq!(s2.encoding, s.encoding);
    assert_eq!(s2.treat_fontname_as_pattern, s.treat_fontname_as_pattern);
    assert_eq!(s2.blur, s.blur);
    assert_eq!(s2.justify, s.justify);
}

#[test]
fn style_name_with_embedded_zero_rejected() {
    let mut s = sample_style();
    s.name = b"bad\0name".to_vec();
    assert!(s.to_native().is_err());
}

#[test]
fn style_font_name_with_embedded_zero_rejected() {
    let mut s = sample_style();
    s.font_name = vec![0x53, 0x00, 0x61];
    assert!(s.to_native().is_err());
}

#[test]
fn override_bits_combine() {
    let m = OverrideBits::from_bits(BIT_STYLE).union(OverrideBits::from_bits(BIT_COLORS));
    assert_eq!(m.bits(), BIT_STYLE | BIT_COLORS);
    assert!(m.contains(OverrideBits::from_bits(BIT_STYLE)));
    assert!(m.contains(OverrideBits::from_bits(BIT_COLORS)));
    assert!(!m.contains(OverrideBits::from_bits(BIT_ALIGNMENT)));
    let i = m.intersect(OverrideBits::from_bits(BIT_COLORS | FULL_STYLE));
    assert_eq!(i.bits(), BIT_COLORS);
}

#[test]
fn override_bits_default_and_native_form() {
    assert_eq!(OverrideBits::default_bits().bits(), 0);
    let m = OverrideBits::from_bits(FULL_STYLE);
    assert_eq!(m.to_native(), 512);
}

#[test]
fn override_font_size_bit_aliases_selective_font_scale() {
    assert_eq!(BIT_FONT_SIZE, BIT_SELECTIVE_FONT_SCALE);
    assert_eq!(BIT_FONT_SIZE, 2);
}
