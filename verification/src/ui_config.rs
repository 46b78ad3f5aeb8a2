//! Candidate-window UI configuration: style, layout and named colour
//! schemes with CSS-like `#RRGGBB` colours, their defaults, scheme selection
//! and validation. Reading the YAML file is the caller's part.

use crate::schemes::{has_name, keys_increasing, lemma_named_at, scheme_named, SchemeMap};
use crate::text::{chars_lt, chars_of};
use vstd::prelude::*;
use vstd::string::StringExecFns;

verus! {

#[derive(Clone, Copy, Debug, PartialEq, Eq, Structural)]
pub enum LayoutType {
    Horizontal,
    Vertical,
}

#[derive(Clone, Copy, Debug, PartialEq, Eq, Structural)]
pub enum TextVerticalAlign {
    Top,
    Center,
    Bottom,
}

#[derive(Clone, Copy, Debug, PartialEq, Eq, Structural)]
pub enum PreeditType {
    Composition,
    Preview,
    PreviewAll,
}

#[derive(Clone, Copy, Debug, PartialEq, Eq, Structural)]
pub enum UnderlineStyle {
    /// No underline (`none` in the configuration file).
    NoUnderline,
    Solid,
    Dot,
    Dash,
    Squiggle,
}

#[derive(Clone, Copy, Debug, PartialEq, Eq, Structural)]
pub enum AntialiasMode {
    Default,
    ForceDword,
    Cleartype,
    Grayscale,
    Aliased,
}

#[derive(Clone, Copy, Debug, PartialEq, Eq, Structural)]
pub enum HoverType {
    /// Hovering highlights nothing (`none` in the configuration file).
    NoHover,
    Hilite,
    SemiHilite,
}

impl Default for LayoutType {
    fn default() -> (v: Self)
        ensures
            v == LayoutType::Vertical,
    {
        LayoutType::Vertical
    }
}

impl Default for TextVerticalAlign {
    fn default() -> (v: Self)
        ensures
            v == TextVerticalAlign::Center,
    {
        TextVerticalAlign::Center
    }
}

impl Default for PreeditType {
    fn default() -> (v: Self)
        ensures
            v == PreeditType::Composition,
    {
        PreeditType::Composition
    }
}

impl Default for UnderlineStyle {
    fn default() -> (v: Self)
        ensures
            v == UnderlineStyle::Dash,
    {
        UnderlineStyle::Dash
    }
}

impl Default for AntialiasMode {
    fn default() -> (v: Self)
        ensures
            v == AntialiasMode::Default,
    {
        AntialiasMode::Default
    }
}

impl Default for HoverType {
    fn default() -> (v: Self)
        ensures
            v == HoverType::NoHover,
    {
        HoverType::NoHover
    }
}

/// A named colour scheme; every colour is `#RRGGBB`.
#[derive(Clone, Debug, PartialEq, Eq)]
pub struct ColorScheme {
    pub name: String,
    pub back_color: String,
    pub border_color: String,
    pub text_color: String,
    pub candidate_text_color: String,
    pub comment_text_color: String,
    pub label_color: String,
    pub hilited_candidate_text_color: String,
    pub hilited_candidate_back_color: String,
    pub hilited_candidate_border_color: String,
    pub hilited_mark_color: String,
    pub shadow_color: String,
    pub preedit_text_color: String,
    pub preedit_back_color: String,
    pub preedit_underline_color: String,
}

#[derive(Clone, Debug, PartialEq, Eq)]
pub struct LayoutConfig {
    pub layout_type: LayoutType,
    pub text_vertical_align: TextVerticalAlign,
    pub min_width: i32,
    pub max_width: i32,
    pub margin_x: i32,
    pub margin_y: i32,
    pub spacing: i32,
    pub candidate_spacing: i32,
    pub hilite_spacing: i32,
    pub hilite_padding_x: i32,
    pub hilite_padding_y: i32,
    pub corner_radius: i32,
    pub hilited_corner_radius: i32,
    pub border_width: i32,
    pub hilited_border_width: i32,
    pub mark_width: i32,
    pub mark_height: i32,
    pub mark_gap: i32,
    pub shadow_enabled: bool,
    pub shadow_radius: i32,
    pub shadow_opacity: i32,
    pub shadow_offset_x: i32,
    pub shadow_offset_y: i32,
    pub caret_offset_x: i32,
    pub caret_offset_y: i32,
    pub screen_edge_margin: i32,
}

#[derive(Clone, Debug, PartialEq, Eq)]
pub struct StyleConfig {
    pub color_scheme: String,
    pub color_scheme_dark: String,
    pub font_face: String,
    pub label_font_face: String,
    pub comment_font_face: String,
    pub font_point: i32,
    pub label_font_point: i32,
    pub comment_font_point: i32,
    pub page_size: usize,
    pub show_labels: bool,
    pub show_candidate_annotations: bool,
    pub label_format: String,
    pub inline_preedit: bool,
    pub preedit_type: PreeditType,
    pub preedit_underline_style: UnderlineStyle,
    pub preedit_underline_bold: bool,
    pub preedit_background_enabled: bool,
    pub antialias_mode: AntialiasMode,
    pub mark_text: String,
    pub hover_type: HoverType,
    pub paging_on_scroll: bool,
    pub candidate_abbreviate_length: usize,
    pub layout: LayoutConfig,
}

fn light_scheme() -> (s: String)
    ensures
        s@ == "cheime_light"@,
{
    String::from_str("cheime_light")
}

fn dark_scheme() -> (s: String)
    ensures
        s@ == "cheime_dark"@,
{
    String::from_str("cheime_dark")
}

fn font_face() -> (s: String)
    ensures
        s@ == "Microsoft YaHei UI"@,
{
    String::from_str("Microsoft YaHei UI")
}

fn font_point() -> (v: i32)
    ensures
        v == 18,
{
    18
}

fn label_font_point() -> (v: i32)
    ensures
        v == 13,
{
    13
}

fn comment_font_point() -> (v: i32)
    ensures
        v == 13,
{
    13
}

fn page_size() -> (v: usize)
    ensures
        v == 5,
{
    5
}

fn label_format() -> (s: String)
    ensures
        s@ == "%s"@,
{
    String::from_str("%s")
}

fn min_width() -> (v: i32)
    ensures
        v == 280,
{
    280
}

fn margin_x() -> (v: i32)
    ensures
        v == 10,
{
    10
}

fn margin_y() -> (v: i32)
    ensures
        v == 8,
{
    8
}

fn spacing() -> (v: i32)
    ensures
        v == 6,
{
    6
}

fn candidate_spacing() -> (v: i32)
    ensures
        v == 4,
{
    4
}

fn hilite_spacing() -> (v: i32)
    ensures
        v == 8,
{
    8
}

fn hilite_padding_x() -> (v: i32)
    ensures
        v == 10,
{
    10
}

fn hilite_padding_y() -> (v: i32)
    ensures
        v == 5,
{
    5
}

fn corner_radius() -> (v: i32)
    ensures
        v == 10,
{
    10
}

fn hilited_corner_radius() -> (v: i32)
    ensures
        v == 7,
{
    7
}

fn border_width() -> (v: i32)
    ensures
        v == 1,
{
    1
}

fn mark_width() -> (v: i32)
    ensures
        v == 3,
{
    3
}

fn mark_height() -> (v: i32)
    ensures
        v == 18,
{
    18
}

fn mark_gap() -> (v: i32)
    ensures
        v == 6,
{
    6
}

fn caret_offset_y() -> (v: i32)
    ensures
        v == 8,
{
    8
}

fn shadow_opacity() -> (v: i32)
    ensures
        v == 28,
{
    28
}

fn screen_edge_margin() -> (v: i32)
    ensures
        v == 12,
{
    12
}

fn background() -> (s: String)
    ensures
        s@ == "#FFFFFF"@,
{
    String::from_str("#FFFFFF")
}

fn border() -> (s: String)
    ensures
        s@ == "#E1E4E8"@,
{
    String::from_str("#E1E4E8")
}

fn text() -> (s: String)
    ensures
        s@ == "#1F2328"@,
{
    String::from_str("#1F2328")
}

fn candidate() -> (s: String)
    ensures
        s@ == "#1F2328"@,
{
    String::from_str("#1F2328")
}

fn comment() -> (s: String)
    ensures
        s@ == "#6E7781"@,
{
    String::from_str("#6E7781")
}

fn label() -> (s: String)
    ensures
        s@ == "#8C959F"@,
{
    String::from_str("#8C959F")
}

fn highlight_text() -> (s: String)
    ensures
        s@ == "#FFFFFF"@,
{
    String::from_str("#FFFFFF")
}

fn highlight() -> (s: String)
    ensures
        s@ == "#316DCA"@,
{
    String::from_str("#316DCA")
}

fn shadow() -> (s: String)
    ensures
        s@ == "#8C959F"@,
{
    String::from_str("#8C959F")
}

impl Default for ColorScheme {
    /// The light scheme.
    fn default() -> (s: Self)
        ensures
            is_light_scheme(s),
    {
        ColorScheme {
            name: String::from_str("澈 · 明"),
            back_color: background(),
            border_color: border(),
            text_color: text(),
            candidate_text_color: candidate(),
            comment_text_color: comment(),
            label_color: label(),
            hilited_candidate_text_color: highlight_text(),
            hilited_candidate_back_color: highlight(),
            hilited_candidate_border_color: border(),
            hilited_mark_color: highlight(),
            shadow_color: shadow(),
            preedit_text_color: text(),
            preedit_back_color: background(),
            preedit_underline_color: highlight(),
        }
    }
}

/// The dark scheme.
pub fn dark_colors() -> (s: ColorScheme)
    ensures
        is_dark_scheme(s),
{
    ColorScheme {
        name: String::from_str("澈 · 暗"),
        back_color: String::from_str("#202124"),
        border_color: String::from_str("#34363A"),
        text_color: String::from_str("#E8EAED"),
        candidate_text_color: String::from_str("#E8EAED"),
        comment_text_color: String::from_str("#9AA0A6"),
        label_color: String::from_str("#9AA0A6"),
        hilited_candidate_text_color: String::from_str("#FFFFFF"),
        hilited_candidate_back_color: String::from_str("#3F6AE0"),
        hilited_candidate_border_color: String::from_str("#5F6368"),
        hilited_mark_color: String::from_str("#8AB4F8"),
        shadow_color: String::from_str("#111318"),
        preedit_text_color: String::from_str("#E8EAED"),
        preedit_back_color: String::from_str("#202124"),
        preedit_underline_color: String::from_str("#8AB4F8"),
    }
}

/// The default layout: vertical, 280 px wide at least, no upper bound.
pub open spec fn is_default_layout(c: LayoutConfig) -> bool {
    &&& c.layout_type == LayoutType::Vertical
    &&& c.text_vertical_align == TextVerticalAlign::Center
    &&& c.min_width == 280
    &&& c.max_width == 0
    &&& c.margin_x == 10
    &&& c.margin_y == 8
    &&& c.spacing == 6
    &&& c.candidate_spacing == 4
    &&& c.hilite_spacing == 8
    &&& c.hilite_padding_x == 10
    &&& c.hilite_padding_y == 5
    &&& c.corner_radius == 10
    &&& c.hilited_corner_radius == 7
    &&& c.border_width == 1
    &&& c.hilited_border_width == 1
    &&& c.mark_width == 3
    &&& c.mark_height == 18
    &&& c.mark_gap == 6
    &&& c.shadow_enabled
    &&& c.shadow_radius == 0
    &&& c.shadow_opacity == 28
    &&& c.shadow_offset_x == 0
    &&& c.shadow_offset_y == 0
    &&& c.caret_offset_x == 0
    &&& c.caret_offset_y == 8
    &&& c.screen_edge_margin == 12
}

impl Default for LayoutConfig {
    fn default() -> (c: Self)
        ensures
            is_default_layout(c),
    {
        LayoutConfig {
            layout_type: LayoutType::Vertical,
            text_vertical_align: TextVerticalAlign::Center,
            min_width: min_width(),
            max_width: 0,
            margin_x: margin_x(),
            margin_y: margin_y(),
            spacing: spacing(),
            candidate_spacing: candidate_spacing(),
            hilite_spacing: hilite_spacing(),
            hilite_padding_x: hilite_padding_x(),
            hilite_padding_y: hilite_padding_y(),
            corner_radius: corner_radius(),
            hilited_corner_radius: hilited_corner_radius(),
            border_width: border_width(),
            hilited_border_width: border_width(),
            mark_width: mark_width(),
            mark_height: mark_height(),
            mark_gap: mark_gap(),
            shadow_enabled: true,
            shadow_radius: 0,
            shadow_opacity: shadow_opacity(),
            shadow_offset_x: 0,
            shadow_offset_y: 0,
            caret_offset_x: 0,
            caret_offset_y: caret_offset_y(),
            screen_edge_margin: screen_edge_margin(),
        }
    }
}

/// The default style, with the default layout.
pub open spec fn is_default_style(c: StyleConfig) -> bool {
    &&& c.color_scheme@ == "cheime_light"@
    &&& c.color_scheme_dark@ == "cheime_dark"@
    &&& c.font_face@ == "Microsoft YaHei UI"@
    &&& c.label_font_face@ == "Microsoft YaHei UI"@
    &&& c.comment_font_face@ == "Microsoft YaHei UI"@
    &&& c.font_point == 18
    &&& c.label_font_point == 13
    &&& c.comment_font_point == 13
    &&& c.page_size == 5
    &&& c.show_labels
    &&& c.show_candidate_annotations
    &&& c.label_format@ == "%s"@
    &&& !c.inline_preedit
    &&& c.preedit_type == PreeditType::Composition
    &&& c.preedit_underline_style == UnderlineStyle::Dash
    &&& !c.preedit_underline_bold
    &&& !c.preedit_background_enabled
    &&& c.antialias_mode == AntialiasMode::Default
    &&& c.mark_text@ == Seq::<char>::empty()
    &&& c.hover_type == HoverType::NoHover
    &&& c.paging_on_scroll
    &&& c.candidate_abbreviate_length == 0
    &&& is_default_layout(c.layout)
}

impl Default for StyleConfig {
    fn default() -> (c: Self)
        ensures
            is_default_style(c),
    {
        StyleConfig {
            color_scheme: light_scheme(),
            color_scheme_dark: dark_scheme(),
            font_face: font_face(),
            label_font_face: font_face(),
            comment_font_face: font_face(),
            font_point: font_point(),
            label_font_point: label_font_point(),
            comment_font_point: comment_font_point(),
            page_size: page_size(),
            show_labels: true,
            show_candidate_annotations: true,
            label_format: label_format(),
            inline_preedit: false,
            preedit_type: PreeditType::Composition,
            preedit_underline_style: UnderlineStyle::Dash,
            preedit_underline_bold: false,
            preedit_background_enabled: false,
            antialias_mode: AntialiasMode::Default,
            mark_text: String::new(),
            hover_type: HoverType::NoHover,
            paging_on_scroll: true,
            candidate_abbreviate_length: 0,
            layout: LayoutConfig::default(),
        }
    }
}


/// The light scheme's colours.
pub open spec fn is_light_scheme(s: ColorScheme) -> bool {
    &&& s.name@ == "澈 · 明"@
    &&& s.back_color@ == "#FFFFFF"@
    &&& s.border_color@ == "#E1E4E8"@
    &&& s.text_color@ == "#1F2328"@
    &&& s.candidate_text_color@ == "#1F2328"@
    &&& s.comment_text_color@ == "#6E7781"@
    &&& s.label_color@ == "#8C959F"@
    &&& s.hilited_candidate_text_color@ == "#FFFFFF"@
    &&& s.hilited_candidate_back_color@ == "#316DCA"@
    &&& s.hilited_candidate_border_color@ == "#E1E4E8"@
    &&& s.hilited_mark_color@ == "#316DCA"@
    &&& s.shadow_color@ == "#8C959F"@
    &&& s.preedit_text_color@ == "#1F2328"@
    &&& s.preedit_back_color@ == "#FFFFFF"@
    &&& s.preedit_underline_color@ == "#316DCA"@
}

/// The dark scheme's colours.
pub open spec fn is_dark_scheme(s: ColorScheme) -> bool {
    &&& s.name@ == "澈 · 暗"@
    &&& s.back_color@ == "#202124"@
    &&& s.border_color@ == "#34363A"@
    &&& s.text_color@ == "#E8EAED"@
    &&& s.candidate_text_color@ == "#E8EAED"@
    &&& s.comment_text_color@ == "#9AA0A6"@
    &&& s.label_color@ == "#9AA0A6"@
    &&& s.hilited_candidate_text_color@ == "#FFFFFF"@
    &&& s.hilited_candidate_back_color@ == "#3F6AE0"@
    &&& s.hilited_candidate_border_color@ == "#5F6368"@
    &&& s.hilited_mark_color@ == "#8AB4F8"@
    &&& s.shadow_color@ == "#111318"@
    &&& s.preedit_text_color@ == "#E8EAED"@
    &&& s.preedit_back_color@ == "#202124"@
    &&& s.preedit_underline_color@ == "#8AB4F8"@
}

/// The whole UI configuration: style and the named colour schemes.
#[derive(Clone, Debug)]
pub struct UiConfig {
    pub style: StyleConfig,
    pub preset_color_schemes: SchemeMap,
}

/// The two built-in schemes, `cheime_dark` before `cheime_light`.
pub fn default_schemes() -> (m: SchemeMap)
    ensures
        m.entries().len() == 2,
        m.entries()[0].0@ == "cheime_dark"@,
        is_dark_scheme(m.entries()[0].1),
        m.entries()[1].0@ == "cheime_light"@,
        is_light_scheme(m.entries()[1].1),
        keys_increasing(m.entries()),
{
    let mut m = SchemeMap::new();
    m.insert(String::from_str("cheime_dark"), dark_colors());
    proof {
        reveal_strlit("cheime_dark");
        reveal_strlit("cheime_light");
        reveal_with_fuel(chars_lt, 9);
        assert(chars_lt("cheime_dark"@, "cheime_light"@));
        crate::text::lemma_chars_lt_asymmetric("cheime_dark"@, "cheime_light"@);
    }
    m.insert(String::from_str("cheime_light"), ColorScheme::default());
    proof {
        if m.entries()[0].0@ == "cheime_light"@ {
            assert(chars_lt(m.entries()[0].0@, m.entries()[1].0@));
        }
    }
    m
}

impl Default for UiConfig {
    fn default() -> (c: Self)
        ensures
            is_default_style(c.style),
            c.preset_color_schemes.entries().len() == 2,
            c.preset_color_schemes.entries()[0].0@ == "cheime_dark"@,
            is_dark_scheme(c.preset_color_schemes.entries()[0].1),
            c.preset_color_schemes.entries()[1].0@ == "cheime_light"@,
            is_light_scheme(c.preset_color_schemes.entries()[1].1),
    {
        UiConfig { style: StyleConfig::default(), preset_color_schemes: default_schemes() }
    }
}

/// The scheme shown for the light or dark system theme: the one the style
/// names for that theme, else the light one, else the first by name.
pub open spec fn chosen_scheme(style: StyleConfig, entries: Seq<(String, ColorScheme)>, dark: bool) -> ColorScheme {
    let requested = if dark {
        style.color_scheme_dark@
    } else {
        style.color_scheme@
    };
    if has_name(entries, requested) {
        scheme_named(entries, requested).unwrap()
    } else if has_name(entries, style.color_scheme@) {
        scheme_named(entries, style.color_scheme@).unwrap()
    } else {
        entries[0].1
    }
}

/// An ASCII hexadecimal digit.
pub open spec fn is_hex_digit(c: char) -> bool {
    ||| ('0' <= c && c <= '9')
    ||| ('a' <= c && c <= 'f')
    ||| ('A' <= c && c <= 'F')
}

/// A CSS-like colour: `#` and six hexadecimal digits.
pub open spec fn is_rrggbb(v: Seq<char>) -> bool {
    &&& v.len() == 7
    &&& v[0] == '#'
    &&& forall|i: int| 1 <= i < 7 ==> is_hex_digit(#[trigger] v[i])
}

/// The colours of a scheme with their field names, in declaration order.
pub open spec fn color_fields(s: ColorScheme) -> Seq<(Seq<char>, Seq<char>)> {
    seq![
        ("back_color"@, s.back_color@),
        ("border_color"@, s.border_color@),
        ("text_color"@, s.text_color@),
        ("candidate_text_color"@, s.candidate_text_color@),
        ("comment_text_color"@, s.comment_text_color@),
        ("label_color"@, s.label_color@),
        ("hilited_candidate_text_color"@, s.hilited_candidate_text_color@),
        ("hilited_candidate_back_color"@, s.hilited_candidate_back_color@),
        ("hilited_candidate_border_color"@, s.hilited_candidate_border_color@),
        ("hilited_mark_color"@, s.hilited_mark_color@),
        ("shadow_color"@, s.shadow_color@),
        ("preedit_text_color"@, s.preedit_text_color@),
        ("preedit_back_color"@, s.preedit_back_color@),
        ("preedit_underline_color"@, s.preedit_underline_color@),
    ]
}

/// The first field from position `j` on whose colour is not `#RRGGBB`.
pub open spec fn first_bad_field(fields: Seq<(Seq<char>, Seq<char>)>, j: int) -> Option<Seq<char>>
    decreases fields.len() - j,
{
    if j < 0 || j >= fields.len() {
        None
    } else if !is_rrggbb(fields[j].1) {
        Some(fields[j].0)
    } else {
        first_bad_field(fields, j + 1)
    }
}

/// The message for a colour field that is not `#RRGGBB`.
pub open spec fn bad_color_message(scheme: Seq<char>, field: Seq<char>) -> Seq<char> {
    "preset_color_schemes."@ + scheme + "."@ + field + " must be #RRGGBB"@
}

/// The message for a style that names a scheme that does not exist.
pub open spec fn unknown_scheme_message(name: Seq<char>) -> Seq<char> {
    "unknown color scheme '"@ + name + "'"@
}

/// The first bad colour of the schemes from position `i` on, as a message.
pub open spec fn first_bad_scheme(entries: Seq<(String, ColorScheme)>, i: int) -> Option<Seq<char>>
    decreases entries.len() - i,
{
    if i < 0 || i >= entries.len() {
        None
    } else {
        match first_bad_field(color_fields(entries[i].1), 0) {
            Some(field) => Some(bad_color_message(entries[i].0@, field)),
            None => first_bad_scheme(entries, i + 1),
        }
    }
}

/// Why a configuration is refused, if it is: a selected scheme that does
/// not exist (the light one first), else the first colour, by scheme name
/// and then field order, that is not `#RRGGBB`.
pub open spec fn validation_error(style: StyleConfig, entries: Seq<(String, ColorScheme)>) -> Option<Seq<char>> {
    if !has_name(entries, style.color_scheme@) {
        Some(unknown_scheme_message(style.color_scheme@))
    } else if !has_name(entries, style.color_scheme_dark@) {
        Some(unknown_scheme_message(style.color_scheme_dark@))
    } else {
        first_bad_scheme(entries, 0)
    }
}

fn is_hex_char(c: char) -> (b: bool)
    ensures
        b == is_hex_digit(c),
{
    ('0' <= c && c <= '9') || ('a' <= c && c <= 'f') || ('A' <= c && c <= 'F')
}

/// Whether `value` is `#` followed by six hexadecimal digits.
pub fn is_rrggbb_color(value: &str) -> (b: bool)
    ensures
        b == is_rrggbb(value@),
{
    let v = chars_of(value);
    if v.len() != 7 || v[0] != '#' {
        return false;
    }
    let mut i: usize = 1;
    while i < 7
        invariant
            v@ == value@,
            v@.len() == 7,
            1 <= i <= 7,
            forall|k: int| 1 <= k < i ==> is_hex_digit(#[trigger] v@[k]),
        decreases 7 - i,
    {
        if !is_hex_char(v[i]) {
            return false;
        }
        i = i + 1;
    }
    true
}

impl ColorScheme {
    /// The colours with their field names, in declaration order.
    fn colors(&self) -> (v: Vec<(&'static str, &str)>)
        ensures
            v@.len() == 14,
            forall|i: int| 0 <= i < 14 ==> (#[trigger] v@[i]).0@ == color_fields(*self)[i].0 && v@[i].1@ == color_fields(*self)[i].1,
    {
        let v = vec![
            ("back_color", self.back_color.as_str()),
            ("border_color", self.border_color.as_str()),
            ("text_color", self.text_color.as_str()),
            ("candidate_text_color", self.candidate_text_color.as_str()),
            ("comment_text_color", self.comment_text_color.as_str()),
            ("label_color", self.label_color.as_str()),
            ("hilited_candidate_text_color", self.hilited_candidate_text_color.as_str()),
            ("hilited_candidate_back_color", self.hilited_candidate_back_color.as_str()),
            ("hilited_candidate_border_color", self.hilited_candidate_border_color.as_str()),
            ("hilited_mark_color", self.hilited_mark_color.as_str()),
            ("shadow_color", self.shadow_color.as_str()),
            ("preedit_text_color", self.preedit_text_color.as_str()),
            ("preedit_back_color", self.preedit_back_color.as_str()),
            ("preedit_underline_color", self.preedit_underline_color.as_str()),
        ];
        v
    }
}

fn unknown_scheme_error(name: &str) -> (e: String)
    ensures
        e@ == unknown_scheme_message(name@),
{
    let mut e = String::from_str("unknown color scheme '");
    e.append(name);
    e.append("'");
    e
}

fn bad_color_error(scheme: &str, field: &str) -> (e: String)
    ensures
        e@ == bad_color_message(scheme@, field@),
{
    let mut e = String::from_str("preset_color_schemes.");
    e.append(scheme);
    e.append(".");
    e.append(field);
    e.append(" must be #RRGGBB");
    e
}

/// The first field of `scheme` whose colour is not `#RRGGBB`.
fn first_invalid_color(scheme: &ColorScheme) -> (r: Option<&'static str>)
    ensures
        match r {
            Some(f) => first_bad_field(color_fields(*scheme), 0) == Some(f@),
            None => first_bad_field(color_fields(*scheme), 0) is None,
        },
{
    let colors = scheme.colors();
    let ghost fields = color_fields(*scheme);
    let mut j: usize = 0;
    while j < 14
        invariant
            j <= 14,
            colors@.len() == 14,
            fields == color_fields(*scheme),
            fields.len() == 14,
            forall|i: int| 0 <= i < 14 ==> (#[trigger] colors@[i]).0@ == fields[i].0 && colors@[i].1@ == fields[i].1,
            first_bad_field(fields, 0) == first_bad_field(fields, j as int),
        decreases 14 - j,
    {
        let (field, value) = colors[j];
        if !is_rrggbb_color(value) {
            return Some(field);
        }
        j = j + 1;
    }
    None
}

impl UiConfig {
    /// The colour scheme for the light (`dark == false`) or dark theme.
    pub fn active_scheme(&self, dark: bool) -> (s: &ColorScheme)
        requires
            self.preset_color_schemes.entries().len() > 0,
        ensures
            *s == chosen_scheme(self.style, self.preset_color_schemes.entries(), dark),
            keys_increasing(self.preset_color_schemes.entries()),
    {
        let requested = if dark {
            self.style.color_scheme_dark.as_str()
        } else {
            self.style.color_scheme.as_str()
        };
        match self.preset_color_schemes.get(requested) {
            Some(s) => s,
            None => match self.preset_color_schemes.get(self.style.color_scheme.as_str()) {
                Some(s) => s,
                None => self.preset_color_schemes.first().unwrap(),
            },
        }
    }

    /// Accept the configuration or say why it is refused.
    pub fn validate(&self) -> (r: Result<(), String>)
        ensures
            match r {
                Ok(()) => validation_error(self.style, self.preset_color_schemes.entries()) is None,
                Err(e) => validation_error(self.style, self.preset_color_schemes.entries()) == Some(e@),
            },
    {
        let schemes = &self.preset_color_schemes;
        if !schemes.contains_key(self.style.color_scheme.as_str()) {
            return Err(unknown_scheme_error(self.style.color_scheme.as_str()));
        }
        if !schemes.contains_key(self.style.color_scheme_dark.as_str()) {
            return Err(unknown_scheme_error(self.style.color_scheme_dark.as_str()));
        }
        let ghost entries = schemes.entries();
        let n = schemes.len();
        let mut i: usize = 0;
        while i < n
            invariant
                n == entries.len(),
                entries == self.preset_color_schemes.entries(),
                i <= n,
                validation_error(self.style, entries) == first_bad_scheme(entries, i as int),
            decreases n - i,
        {
            let (name, scheme) = self.preset_color_schemes.entry(i);
            match first_invalid_color(scheme) {
                Some(field) => {
                    return Err(bad_color_error(name.as_str(), field));
                },
                None => {},
            }
            i = i + 1;
        }
        Ok(())
    }
}

/// Every colour of every scheme is `#RRGGBB`.
pub open spec fn all_colors_valid(entries: Seq<(String, ColorScheme)>) -> bool {
    forall|k: int, f: int|
        0 <= k < entries.len() && 0 <= f < color_fields(entries[k].1).len() ==> is_rrggbb(
            #[trigger] color_fields(entries[k].1)[f].1,
        )
}

proof fn lemma_no_bad_field(fields: Seq<(Seq<char>, Seq<char>)>, j: int)
    requires
        0 <= j,
    ensures
        first_bad_field(fields, j) is None <==> forall|f: int|
            j <= f < fields.len() ==> is_rrggbb(#[trigger] fields[f].1),
    decreases fields.len() - j,
{
    if j < fields.len() {
        lemma_no_bad_field(fields, j + 1);
    }
}

proof fn lemma_no_bad_scheme(entries: Seq<(String, ColorScheme)>, i: int)
    requires
        0 <= i,
    ensures
        first_bad_scheme(entries, i) is None <==> forall|k: int, f: int|
            i <= k < entries.len() && 0 <= f < color_fields(entries[k].1).len() ==> is_rrggbb(
                #[trigger] color_fields(entries[k].1)[f].1,
            ),
    decreases entries.len() - i,
{
    if i < entries.len() {
        lemma_no_bad_scheme(entries, i + 1);
        lemma_no_bad_field(color_fields(entries[i].1), 0);
        if first_bad_scheme(entries, i) is None {
            assert forall|k: int, f: int|
                i <= k < entries.len() && 0 <= f < color_fields(entries[k].1).len() implies is_rrggbb(
                #[trigger] color_fields(entries[k].1)[f].1,
            ) by {
                if k == i {
                    assert(is_rrggbb(color_fields(entries[i].1)[f].1));
                }
            }
        } else {
            if first_bad_field(color_fields(entries[i].1), 0) is Some {
                let f = choose|f: int|
                    0 <= f < color_fields(entries[i].1).len() && !is_rrggbb(
                        #[trigger] color_fields(entries[i].1)[f].1,
                    );
                assert(!is_rrggbb(color_fields(entries[i].1)[f].1));
            }
        }
    }
}

/// A configuration is accepted exactly when both selected schemes exist
/// and every colour of every scheme is `#RRGGBB`.
pub proof fn lemma_valid_iff_all_fields(style: StyleConfig, entries: Seq<(String, ColorScheme)>)
    ensures
        validation_error(style, entries) is None <==> (has_name(entries, style.color_scheme@)
            && has_name(entries, style.color_scheme_dark@) && all_colors_valid(entries)),
{
    lemma_no_bad_scheme(entries, 0);
}

/// The scheme shown for a theme is the entry named by the style for that
/// theme when there is one, else the entry named by the light scheme when
/// there is one, else the entry with the least name.
pub proof fn lemma_chosen_scheme_entry(style: StyleConfig, entries: Seq<(String, ColorScheme)>, dark: bool)
    requires
        keys_increasing(entries),
        entries.len() > 0,
    ensures
        ({
            let requested = if dark {
                style.color_scheme_dark@
            } else {
                style.color_scheme@
            };
            let chosen = chosen_scheme(style, entries, dark);
            &&& forall|i: int|
                0 <= i < entries.len() && (#[trigger] entries[i]).0@ == requested ==> chosen
                    == entries[i].1
            &&& !has_name(entries, requested) ==> forall|i: int|
                0 <= i < entries.len() && (#[trigger] entries[i]).0@ == style.color_scheme@
                    ==> chosen == entries[i].1
            &&& !has_name(entries, requested) && !has_name(entries, style.color_scheme@) ==> chosen
                == entries[0].1
            &&& forall|i: int| 0 < i < entries.len() ==> chars_lt(entries[0].0@, (#[trigger] entries[i]).0@)
        }),
{
    assert forall|i: int| 0 <= i < entries.len() implies scheme_named(entries, (#[trigger] entries[i]).0@)
        == Some(entries[i].1) by {
        lemma_named_at(entries, i);
    }
    assert forall|i: int| 0 < i < entries.len() implies chars_lt(entries[0].0@, (#[trigger] entries[i]).0@) by {
        assert(chars_lt(entries[0].0@, entries[i].0@));
    }
}

} // verus!
