use cheime_tip::schemes::SchemeMap;
use cheime_tip::ui_config::{
    dark_colors, is_rrggbb_color, ColorScheme, HoverType, LayoutConfig, LayoutType, StyleConfig,
    UiConfig, UnderlineStyle,
};

fn set_light_back_color(config: &mut UiConfig, value: &str) {
    let mut scheme = config
        .preset_color_schemes
        .get("cheime_light")
        .unwrap()
        .clone();
    scheme.back_color = value.into();
    config
        .preset_color_schemes
        .insert("cheime_light".into(), scheme);
}

#[test]
fn rejects_weasel_bgr_and_short_hex_colors() {
    let mut config = UiConfig::default();
    set_light_back_color(&mut config, "0xFFFFFF");
    assert!(config.validate().unwrap_err().contains("#RRGGBB"));
    set_light_back_color(&mut config, "#FFF");
    assert!(config.validate().is_err());
}

#[test]
fn default_roundtrip_and_schemes() {
    let config = UiConfig::default();
    config.validate().unwrap();
    assert_eq!(config.style.layout.layout_type, LayoutType::Vertical);
    assert_eq!(config.active_scheme(false).back_color, "#FFFFFF");
    assert_eq!(config.active_scheme(true).back_color, "#202124");
}

#[test]
fn missing_shadow_fields_use_rendering_defaults() {
    let layout = LayoutConfig::default();
    assert!(layout.shadow_enabled);
    assert_eq!(layout.shadow_opacity, 28);
    assert_eq!(layout.shadow_offset_x, 0);
    assert_eq!(layout.shadow_offset_y, 0);
    assert_eq!(layout.shadow_radius, 0);
}

#[test]
fn default_style_values() {
    let style = StyleConfig::default();
    assert_eq!(style.color_scheme, "cheime_light");
    assert_eq!(style.color_scheme_dark, "cheime_dark");
    assert_eq!(style.font_face, "Microsoft YaHei UI");
    assert_eq!(style.font_point, 18);
    assert_eq!(style.page_size, 5);
    assert_eq!(style.label_format, "%s");
    assert_eq!(style.preedit_underline_style, UnderlineStyle::Dash);
    assert_eq!(style.hover_type, HoverType::NoHover);
    assert_eq!(style.layout.min_width, 280);
    assert_eq!(style.layout.corner_radius, 10);
}

#[test]
fn validation_reports_unknown_selected_schemes_light_first() {
    let mut config = UiConfig::default();
    config.style.color_scheme = "missing".into();
    config.style.color_scheme_dark = "also_missing".into();
    assert_eq!(
        config.validate().unwrap_err(),
        "unknown color scheme 'missing'"
    );
    config.style.color_scheme = "cheime_dark".into();
    assert_eq!(
        config.validate().unwrap_err(),
        "unknown color scheme 'also_missing'"
    );
}

#[test]
fn validation_names_the_first_bad_field_in_name_order() {
    let mut config = UiConfig::default();
    let mut dark = dark_colors();
    dark.shadow_color = "blue".into();
    config.preset_color_schemes.insert("cheime_dark".into(), dark);
    let mut light = ColorScheme::default();
    light.border_color = "#12345".into();
    config
        .preset_color_schemes
        .insert("cheime_light".into(), light);
    assert_eq!(
        config.validate().unwrap_err(),
        "preset_color_schemes.cheime_dark.shadow_color must be #RRGGBB"
    );
}

#[test]
fn active_scheme_falls_back_to_light_then_first_by_name() {
    let mut config = UiConfig::default();
    config.style.color_scheme_dark = "missing".into();
    assert_eq!(config.active_scheme(true).back_color, "#FFFFFF");
    config.style.color_scheme = "also_missing".into();
    assert_eq!(config.active_scheme(true).back_color, "#202124");
    assert_eq!(config.active_scheme(false).back_color, "#202124");
}

#[test]
fn rrggbb_accepts_exactly_hash_and_six_hex_digits() {
    assert!(is_rrggbb_color("#1e1E2e"));
    assert!(!is_rrggbb_color("1e1e2e"));
    assert!(!is_rrggbb_color("#1e1e2"));
    assert!(!is_rrggbb_color("#1e1e2g"));
    assert!(!is_rrggbb_color("#+1e1e2"));
    assert!(!is_rrggbb_color("#1e1e2e0"));
}

#[test]
fn scheme_map_keeps_names_in_order_and_replaces_in_place() {
    let mut map = SchemeMap::new();
    assert!(map.insert("b".into(), ColorScheme::default()).is_none());
    assert!(map.insert("a".into(), dark_colors()).is_none());
    assert!(map.insert("c".into(), ColorScheme::default()).is_none());
    assert_eq!(map.len(), 3);
    assert_eq!(map.entry(0).0, "a");
    assert_eq!(map.entry(1).0, "b");
    assert_eq!(map.entry(2).0, "c");
    assert_eq!(map.first().unwrap().back_color, "#202124");
    let previous = map.insert("b".into(), dark_colors()).unwrap();
    assert_eq!(previous.back_color, "#FFFFFF");
    assert_eq!(map.len(), 3);
    assert_eq!(map.get("b").unwrap().back_color, "#202124");
    assert!(map.contains_key("c"));
    assert!(!map.contains_key("d"));
    assert!(map.get("d").is_none());
}
