//! Colour values: `#RRGGBB` text to Windows' `COLORREF` (`0x00BBGGRR`), the
//! ARGB form GDI+ draws with, and the colour fields of the preedit's
//! display attribute.

use crate::text::chars_of;
use crate::ui_config::{is_hex_digit, ColorScheme, StyleConfig, UnderlineStyle};
use vstd::prelude::*;

verus! {

/// The value of a hexadecimal digit.
pub open spec fn hex_digit_value(c: char) -> int {
    if '0' <= c && c <= '9' {
        (c as u32) - ('0' as u32)
    } else if 'a' <= c && c <= 'f' {
        (c as u32) - ('a' as u32) + 10
    } else {
        (c as u32) - ('A' as u32) + 10
    }
}

/// The number that hexadecimal digits denote.
pub open spec fn hex_value(s: Seq<char>) -> int
    decreases s.len(),
{
    if s.len() == 0 {
        0
    } else {
        hex_value(s.drop_last()) * 16 + hex_digit_value(s.last())
    }
}

pub open spec fn all_hex(s: Seq<char>) -> bool {
    forall|i: int| 0 <= i < s.len() ==> is_hex_digit(#[trigger] s[i])
}

/// Base-16 text as `u32::from_str_radix` reads it: an optional `+`, then at
/// least one hexadecimal digit, denoting at most `u32::MAX`.
pub open spec fn radix16_u32(s: Seq<char>) -> Option<u32> {
    let digits = if s.len() > 0 && s[0] == '+' {
        s.drop_first()
    } else {
        s
    };
    if digits.len() > 0 && all_hex(digits) && hex_value(digits) <= u32::MAX {
        Some(hex_value(digits) as u32)
    } else {
        None
    }
}

/// `0xRRGGBB` as a `COLORREF`, `0x00BBGGRR` (bits above the low 24 drop).
pub open spec fn rgb_to_colorref(rgb: int) -> int {
    (rgb / 0x10000) % 0x100 + ((rgb / 0x100) % 0x100) * 0x100 + (rgb % 0x100) * 0x10000
}

/// A `#RRGGBB` colour as a `COLORREF`: exactly six characters after the
/// `#`, read in base 16.
pub open spec fn parse_hex_spec(s: Seq<char>) -> Option<u32> {
    if s.len() == 7 && s[0] == '#' {
        match radix16_u32(s.drop_first()) {
            Some(n) => Some(rgb_to_colorref(n as int) as u32),
            None => None,
        }
    } else {
        None
    }
}

/// A `COLORREF` as opaque ARGB, `0xFFRRGGBB`.
pub open spec fn colorref_to_argb_spec(color: u32) -> int {
    0xff00_0000 + (color % 0x100) * 0x10000 + ((color / 0x100) % 0x100) * 0x100 + (color / 0x10000) % 0x100
}

proof fn lemma_hex_value_nonneg(s: Seq<char>)
    requires
        all_hex(s),
    ensures
        hex_value(s) >= 0,
    decreases s.len(),
{
    if s.len() > 0 {
        assert(all_hex(s.drop_last()));
        lemma_hex_value_nonneg(s.drop_last());
        assert(is_hex_digit(s[s.len() - 1]));
    }
}

/// Extending hexadecimal digits never lowers their value.
proof fn lemma_hex_value_prefix(s: Seq<char>, j: int)
    requires
        all_hex(s),
        0 <= j <= s.len(),
    ensures
        hex_value(s.take(j)) <= hex_value(s),
    decreases s.len() - j,
{
    if j < s.len() {
        lemma_hex_value_prefix(s, j + 1);
        assert(s.take(j + 1).drop_last() == s.take(j));
        assert(all_hex(s.take(j)));
        lemma_hex_value_nonneg(s.take(j));
        assert(is_hex_digit(s[j]));
    } else {
        assert(s.take(j) == s);
    }
}

fn hex_digit(c: char) -> (r: Option<u64>)
    ensures
        r is Some <==> is_hex_digit(c),
        r matches Some(v) ==> v == hex_digit_value(c) && v < 16,
{
    if '0' <= c && c <= '9' {
        Some((c as u32 - '0' as u32) as u64)
    } else if 'a' <= c && c <= 'f' {
        Some((c as u32 - 'a' as u32 + 10) as u64)
    } else if 'A' <= c && c <= 'F' {
        Some((c as u32 - 'A' as u32 + 10) as u64)
    } else {
        None
    }
}

/// Read `s` from position `start` in base 16 as `u32::from_str_radix` does.
fn radix16(s: &Vec<char>, start: usize) -> (r: Option<u32>)
    requires
        start <= s@.len(),
    ensures
        r == radix16_u32(s@.skip(start as int)),
{
    let ghost t = s@.skip(start as int);
    let mut i = start;
    if i < s.len() && s[i] == '+' {
        i = i + 1;
    }
    let ghost digits = s@.skip(i as int);
    proof {
        if t.len() > 0 && t[0] == '+' {
            assert(digits == t.drop_first());
        } else {
            assert(digits == t);
        }
    }
    if i >= s.len() {
        return None;
    }
    let mut value: u64 = 0;
    let mut j = i;
    while j < s.len()
        invariant
            i <= j <= s@.len(),
            digits == s@.skip(i as int),
            digits.len() > 0,
            radix16_u32(s@.skip(start as int)) == (if all_hex(digits) && hex_value(digits) <= u32::MAX {
                Some(hex_value(digits) as u32)
            } else {
                None
            }),
            all_hex(digits.take(j - i)),
            value == hex_value(digits.take(j - i)),
            value <= u32::MAX,
        decreases s@.len() - j,
    {
        let ghost k = j - i;
        proof {
            assert(digits[k] == s@[j as int]);
            assert(digits.take(k + 1).drop_last() == digits.take(k));
        }
        match hex_digit(s[j]) {
            None => {
                assert(!is_hex_digit(digits[k]));
                assert(!all_hex(digits));
                return None;
            },
            Some(d) => {
                let next = value * 16 + d;
                assert(digits.take(k + 1).last() == digits[k]);
                assert(hex_value(digits.take(k + 1)) == next);
                proof {
                    assert(all_hex(digits.take(k + 1))) by {
                        assert forall|m: int| 0 <= m < k + 1 implies is_hex_digit(#[trigger] digits.take(k + 1)[m]) by {
                            if m < k {
                                assert(digits.take(k + 1)[m] == digits.take(k)[m]);
                            }
                        }
                    }
                }
                if next > u32::MAX as u64 {
                    proof {
                        if all_hex(digits) {
                            lemma_hex_value_prefix(digits, k + 1);
                        }
                    }
                    return None;
                }
                value = next;
            },
        }
        j = j + 1;
    }
    proof {
        assert(digits.take(j - i) == digits);
    }
    Some(value as u32)
}

/// A `#RRGGBB` colour as a `COLORREF`.
pub fn parse_hex(s: &str) -> (r: Option<u32>)
    ensures
        r == parse_hex_spec(s@),
{
    let v = chars_of(s);
    if v.len() != 7 || v[0] != '#' {
        return None;
    }
    proof {
        assert(v@.skip(1) == v@.drop_first());
    }
    match radix16(&v, 1) {
        Some(n) => Some(rgb_colorref(n)),
        None => None,
    }
}

fn rgb_colorref(rgb: u32) -> (c: u32)
    ensures
        c == rgb_to_colorref(rgb as int),
{
    (rgb / 0x10000) % 0x100 + ((rgb / 0x100) % 0x100) * 0x100 + (rgb % 0x100) * 0x10000
}

/// A `COLORREF` as opaque ARGB.
pub fn colorref_to_argb(color: u32) -> (argb: u32)
    ensures
        argb == colorref_to_argb_spec(color),
{
    0xff00_0000 + (color % 0x100) * 0x10000 + ((color / 0x100) % 0x100) * 0x100 + (color / 0x10000) % 0x100
}

/// Half of `v`, rounded toward zero as `i32` division does.
pub open spec fn half_toward_zero(v: int) -> int {
    if v >= 0 {
        v / 2
    } else {
        -((-v) / 2)
    }
}

/// The corner radius the window gets: the configured one, not negative and
/// at most half the height and half the width.
pub open spec fn clamped_radius(width: int, height: int, configured: int) -> int {
    let r = if configured < 0 {
        0
    } else {
        configured
    };
    let r = if half_toward_zero(height) < r {
        half_toward_zero(height)
    } else {
        r
    };
    if half_toward_zero(width) < r {
        half_toward_zero(width)
    } else {
        r
    }
}

fn half_i32(v: i32) -> (h: i32)
    ensures
        h == half_toward_zero(v as int),
{
    let w = v as i64;
    if w >= 0 {
        (w / 2) as i32
    } else {
        (-((-w) / 2)) as i32
    }
}

pub fn clamped_corner_radius(width: i32, height: i32, configured_radius: i32) -> (r: i32)
    ensures
        r == clamped_radius(width as int, height as int, configured_radius as int),
{
    let mut r = if configured_radius < 0 {
        0
    } else {
        configured_radius
    };
    let h = half_i32(height);
    if h < r {
        r = h;
    }
    let w = half_i32(width);
    if w < r {
        r = w;
    }
    r
}

/// A colour of a display attribute: none, or a `COLORREF`.
#[derive(Clone, Copy, Debug, PartialEq, Eq, Structural)]
pub enum AttributeColor {
    NoColor,
    ColorRef(u32),
}

/// How the preedit is underlined.
#[derive(Clone, Copy, Debug, PartialEq, Eq, Structural)]
pub enum LineStyle {
    NoLine,
    Solid,
    Dot,
    Dash,
    Squiggle,
}

/// The display attribute of the inline preedit.
#[derive(Clone, Copy, Debug, PartialEq, Eq, Structural)]
pub struct PreeditAttribute {
    pub text: AttributeColor,
    pub background: AttributeColor,
    pub line_style: LineStyle,
    pub bold_line: bool,
    pub line: AttributeColor,
}

/// The colour of an attribute: the text after a leading `#` read in base 16
/// (`0` when there is no `#` or the rest is not base-16 text), as a
/// `COLORREF`.
pub open spec fn attribute_color_value(value: Seq<char>) -> int {
    let rgb = if value.len() > 0 && value[0] == '#' {
        match radix16_u32(value.drop_first()) {
            Some(n) => n as int,
            None => 0,
        }
    } else {
        0
    };
    rgb_to_colorref(rgb)
}

pub fn attribute_color(value: &str) -> (c: AttributeColor)
    ensures
        c == AttributeColor::ColorRef(attribute_color_value(value@) as u32),
{
    let v = chars_of(value);
    let rgb = if v.len() > 0 && v[0] == '#' {
        proof {
            assert(v@.skip(1) == v@.drop_first());
        }
        match radix16(&v, 1) {
            Some(n) => n,
            None => 0,
        }
    } else {
        0
    };
    AttributeColor::ColorRef(rgb_colorref(rgb))
}

pub open spec fn line_style_of(style: UnderlineStyle) -> LineStyle {
    match style {
        UnderlineStyle::NoUnderline => LineStyle::NoLine,
        UnderlineStyle::Solid => LineStyle::Solid,
        UnderlineStyle::Dot => LineStyle::Dot,
        UnderlineStyle::Dash => LineStyle::Dash,
        UnderlineStyle::Squiggle => LineStyle::Squiggle,
    }
}

/// The preedit's display attribute under the given style and scheme: the
/// scheme's preedit text and underline colours, its preedit background only
/// when the style enables it, and the style's underline shape and weight.
pub fn preedit_attribute(style: &StyleConfig, scheme: &ColorScheme) -> (a: PreeditAttribute)
    ensures
        a.text == AttributeColor::ColorRef(attribute_color_value(scheme.preedit_text_color@) as u32),
        a.background == (if style.preedit_background_enabled {
            AttributeColor::ColorRef(attribute_color_value(scheme.preedit_back_color@) as u32)
        } else {
            AttributeColor::NoColor
        }),
        a.line_style == line_style_of(style.preedit_underline_style),
        a.bold_line == style.preedit_underline_bold,
        a.line == AttributeColor::ColorRef(attribute_color_value(scheme.preedit_underline_color@) as u32),
{
    let line_style = match style.preedit_underline_style {
        UnderlineStyle::NoUnderline => LineStyle::NoLine,
        UnderlineStyle::Solid => LineStyle::Solid,
        UnderlineStyle::Dot => LineStyle::Dot,
        UnderlineStyle::Dash => LineStyle::Dash,
        UnderlineStyle::Squiggle => LineStyle::Squiggle,
    };
    PreeditAttribute {
        text: attribute_color(scheme.preedit_text_color.as_str()),
        background: if style.preedit_background_enabled {
            attribute_color(scheme.preedit_back_color.as_str())
        } else {
            AttributeColor::NoColor
        },
        line_style,
        bold_line: style.preedit_underline_bold,
        line: attribute_color(scheme.preedit_underline_color.as_str()),
    }
}

/// For a window of non-negative size, the corner radius is never negative
/// and at most half the height and half the width; a radius that already
/// fits is kept.
pub proof fn lemma_radius_clamped(width: int, height: int, configured: int)
    requires
        width >= 0,
        height >= 0,
    ensures
        0 <= clamped_radius(width, height, configured),
        clamped_radius(width, height, configured) <= height / 2,
        clamped_radius(width, height, configured) <= width / 2,
        0 <= configured <= height / 2 && configured <= width / 2 ==> clamped_radius(width, height, configured)
            == configured,
{
}

/// Six hexadecimal digits denote less than `16^6`.
proof fn lemma_hex_value_below(s: Seq<char>)
    requires
        all_hex(s),
        s.len() <= 6,
    ensures
        0 <= hex_value(s),
        s.len() == 0 ==> hex_value(s) < 1,
        s.len() == 1 ==> hex_value(s) < 0x10,
        s.len() == 2 ==> hex_value(s) < 0x100,
        s.len() == 3 ==> hex_value(s) < 0x1000,
        s.len() == 4 ==> hex_value(s) < 0x10000,
        s.len() == 5 ==> hex_value(s) < 0x100000,
        s.len() == 6 ==> hex_value(s) < 0x1000000,
    decreases s.len(),
{
    if s.len() > 0 {
        assert(all_hex(s.drop_last()));
        lemma_hex_value_below(s.drop_last());
        assert(is_hex_digit(s[s.len() - 1]));
    }
}

/// Every colour that configuration validation accepts can be drawn: it
/// reads as a `COLORREF`.
pub proof fn lemma_valid_colors_parse(v: Seq<char>)
    requires
        crate::ui_config::is_rrggbb(v),
    ensures
        parse_hex_spec(v) is Some,
{
    let digits = v.drop_first();
    assert forall|i: int| 0 <= i < digits.len() implies is_hex_digit(#[trigger] digits[i]) by {
        assert(digits[i] == v[i + 1]);
    }
    lemma_hex_value_below(digits);
    assert(digits[0] == v[1]);
    assert(digits[0] != '+');
}

} // verus!
