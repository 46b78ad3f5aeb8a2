use cheime_tip::display_attribute::{AttributeEnumerator, EnumError, NextResult};
use cheime_tip::colors::{
    attribute_color, clamped_corner_radius, colorref_to_argb, parse_hex, preedit_attribute,
    AttributeColor, LineStyle,
};
use cheime_tip::ui_config::{ColorScheme, StyleConfig, UnderlineStyle};

#[test]
fn parse_hex_6_digit() {
    let c = parse_hex("#1e1e2e").unwrap();
    assert_eq!(c & 0xff, 0x1e); // R
    assert_eq!((c >> 8) & 0xff, 0x1e); // G
    assert_eq!((c >> 16) & 0xff, 0x2e); // B
}

#[test]
fn parse_hex_rejects_3_digit_shorthand() {
    assert!(parse_hex("#fff").is_none());
}

#[test]
fn parse_hex_no_prefix() {
    assert!(parse_hex("ffffff").is_none());
}

#[test]
fn parse_hex_reads_like_from_str_radix() {
    assert_eq!(parse_hex("#123456"), Some(0x563412));
    assert_eq!(parse_hex("#+12345"), Some(0x452301));
    assert!(parse_hex("#-12345").is_none());
    assert!(parse_hex("#12345g").is_none());
    assert!(parse_hex("#1234567").is_none());
}

#[test]
fn corner_radius_is_clamped_to_half_height() {
    assert_eq!(clamped_corner_radius(300, 40, 100), 20);
    assert_eq!(clamped_corner_radius(300, 40, -1), 0);
}

#[test]
fn corner_radius_is_clamped_to_half_width_too() {
    assert_eq!(clamped_corner_radius(30, 400, 100), 15);
    assert_eq!(clamped_corner_radius(300, 400, 7), 7);
    assert_eq!(clamped_corner_radius(-5, 400, 7), -2);
}

#[test]
fn colorref_becomes_opaque_argb() {
    assert_eq!(colorref_to_argb(0x00563412), 0xff123456);
    assert_eq!(colorref_to_argb(0), 0xff000000);
}

#[test]
fn attribute_colors_read_any_hex_length_and_default_to_black() {
    assert_eq!(attribute_color("#316DCA"), AttributeColor::ColorRef(0xCA6D31));
    assert_eq!(attribute_color("#FFF"), AttributeColor::ColorRef(0xFF0F00));
    assert_eq!(attribute_color("316DCA"), AttributeColor::ColorRef(0));
    assert_eq!(attribute_color("#zz"), AttributeColor::ColorRef(0));
}

#[test]
fn preedit_attribute_follows_style_and_scheme() {
    let scheme = ColorScheme::default();
    let mut style = StyleConfig::default();
    let attribute = preedit_attribute(&style, &scheme);
    assert_eq!(attribute.text, AttributeColor::ColorRef(0x28231F));
    assert_eq!(attribute.background, AttributeColor::NoColor);
    assert_eq!(attribute.line_style, LineStyle::Dash);
    assert!(!attribute.bold_line);
    assert_eq!(attribute.line, AttributeColor::ColorRef(0xCA6D31));
    style.preedit_background_enabled = true;
    style.preedit_underline_style = UnderlineStyle::NoUnderline;
    style.preedit_underline_bold = true;
    let attribute = preedit_attribute(&style, &scheme);
    assert_eq!(attribute.background, AttributeColor::ColorRef(0xFFFFFF));
    assert_eq!(attribute.line_style, LineStyle::NoLine);
    assert!(attribute.bold_line);
}

#[test]
fn the_enumerator_yields_the_attribute_once_until_reset() {
    let mut e = AttributeEnumerator::new(false);
    assert_eq!(e.next(1, true, false), Ok(NextResult { produced: 1, complete: true }));
    assert_eq!(e.next(1, true, false), Ok(NextResult { produced: 0, complete: false }));
    e.reset();
    assert_eq!(e.next(2, true, true), Ok(NextResult { produced: 1, complete: false }));
    assert_eq!(e.next(1, false, true), Err(EnumError::NullPointer));
    assert_eq!(e.next(0, false, false), Err(EnumError::NullPointer));
    assert_eq!(e.next(0, false, true), Ok(NextResult { produced: 0, complete: true }));
    e.reset();
    assert!(e.skip(0));
    assert!(e.skip(1));
    assert!(!e.skip(1));
    let mut copy = e.duplicate();
    assert_eq!(copy.next(1, true, true), Ok(NextResult { produced: 0, complete: false }));
}
