use cheime_tip::candidate_rows::{build_rows, Bounds, RowRender};
use cheime_tip::candidate_window::{
    click, font_changed, font_quality, hit_candidate, hover, leave, paint_colors,
    plan_snapshot, render_metrics, surface, window_origin, window_size, CandidateSelection,
    FontQuality,
};
use cheime_tip::model::{Candidate, CandidateSnapshot};
use cheime_tip::ui_config::{AntialiasMode, ColorScheme, LayoutConfig, StyleConfig};

fn snapshot() -> CandidateSnapshot {
    CandidateSnapshot {
        epoch: 3,
        revision: 4,
        preedit: "ni".into(),
        cursor: 2,
        candidates: vec![
            Candidate { id: 10, text: "你".into(), annotation: None },
            Candidate { id: 11, text: "呢".into(), annotation: None },
        ],
        highlighted: Some(10),
    }
}

fn rows() -> Vec<RowRender> {
    build_rows(&snapshot(), 22, 18, &StyleConfig::default()).0
}

#[test]
fn metrics_come_from_the_font_size_and_padding() {
    let style = StyleConfig::default();
    assert_eq!(render_metrics(&style), (28, 18));
    let mut tiny = StyleConfig::default();
    tiny.font_point = -3;
    tiny.layout.hilite_padding_y = -1;
    assert_eq!(render_metrics(&tiny), (1, 1));
}

#[test]
fn window_size_respects_minimum_and_positive_maximum() {
    let mut layout = LayoutConfig::default();
    assert_eq!(window_size(100, 50, &layout), (280, 50));
    assert_eq!(window_size(400, 0, &layout), (400, 1));
    layout.max_width = 300;
    assert_eq!(window_size(400, 50, &layout), (300, 50));
    layout.min_width = -5;
    layout.max_width = 0;
    assert_eq!(window_size(-9, -9, &layout), (1, 1));
}

#[test]
fn window_goes_below_the_caret_or_at_the_offsets() {
    let layout = LayoutConfig::default();
    assert_eq!(window_origin(Some((100, 200)), &layout), (100, 208));
    assert_eq!(window_origin(None, &layout), (0, 8));
}

#[test]
fn font_is_rebuilt_only_when_size_face_or_antialiasing_change() {
    let a = StyleConfig::default();
    let mut b = StyleConfig::default();
    assert!(!font_changed(&a, &b));
    b.label_font_point = 40;
    assert!(!font_changed(&a, &b));
    b.font_face = "SimSun".into();
    assert!(font_changed(&a, &b));
    let mut c = StyleConfig::default();
    c.antialias_mode = AntialiasMode::Grayscale;
    assert!(font_changed(&a, &c));
    assert_eq!(font_quality(AntialiasMode::ForceDword), FontQuality::ClearType);
    assert_eq!(font_quality(AntialiasMode::Aliased), FontQuality::NonAntialiased);
}

#[test]
fn hits_skip_the_preedit_row_and_miss_outside() {
    let rows = rows();
    assert_eq!(hit_candidate(&rows, 15, 40), Some(0));
    assert_eq!(hit_candidate(&rows, 15, 10), None);
    assert_eq!(hit_candidate(&rows, 5000, 40), None);
}

#[test]
fn hover_highlights_the_candidate_under_the_pointer_and_leave_restores() {
    let snap = snapshot();
    let mut rows = rows();
    assert!(rows[1].highlighted && !rows[2].highlighted);
    let y = rows[2].bounds.top;
    assert!(hover(&mut rows, &snap, 15, y));
    assert!(!rows[1].highlighted && rows[2].highlighted);
    assert!(!hover(&mut rows, &snap, 15, y));
    leave(&mut rows, &snap);
    assert!(rows[1].highlighted && !rows[2].highlighted);
}

#[test]
fn a_click_selects_the_candidate_under_the_pointer() {
    let snap = snapshot();
    let rows = rows();
    let y = rows[2].bounds.top;
    assert_eq!(
        click(&rows, &snap, 15, y),
        Some(CandidateSelection { epoch: 3, snapshot_revision: 4, candidate_id: 11 })
    );
    assert_eq!(click(&rows, &snap, 15, 10), None);
}

#[test]
fn a_row_for_a_missing_candidate_is_never_highlighted() {
    let snap = snapshot();
    let mut rows = vec![RowRender {
        text: vec!['x'],
        x: 0,
        y: 0,
        bounds: Bounds { left: 0, top: 0, right: 10, bottom: 10 },
        candidate_index: Some(7),
        highlighted: true,
    }];
    assert!(hover(&mut rows, &snap, 5, 5));
    assert!(!rows[0].highlighted);
}

#[test]
fn paint_and_surface_colors_fall_back_to_the_system() {
    let mut scheme = ColorScheme::default();
    let colors = paint_colors(&scheme, 0x111111);
    assert_eq!(colors.text, 0x28231F);
    assert_eq!(colors.selected_text, 0xFFFFFF);
    assert_eq!(colors.selected_back, 0xCA6D31);
    scheme.hilited_candidate_text_color = "bad".into();
    scheme.candidate_text_color = "bad".into();
    let colors = paint_colors(&scheme, 0x111111);
    assert_eq!(colors.text, 0x111111);
    assert_eq!(colors.selected_text, 0x111111);
    let layout = LayoutConfig::default();
    let s = surface(&layout, &scheme, 0x222222, 0x333333);
    assert_eq!(s.corner_radius, 10);
    assert_eq!(s.background, 0xFFFFFF);
    assert_eq!(s.border, Some((1, 0xE8E4E1)));
    let mut flat = LayoutConfig::default();
    flat.border_width = 0;
    flat.corner_radius = -4;
    let s = surface(&flat, &scheme, 0x222222, 0x333333);
    assert_eq!(s.corner_radius, 0);
    assert_eq!(s.border, None);
}

#[test]
fn snapshot_plan_lays_out_rows_and_hides_on_empty_preedit() {
    let style = StyleConfig::default();
    let plan = plan_snapshot(&style, &style, &snapshot());
    assert!(!plan.rebuild_font);
    assert!(plan.has_composition);
    let shown = plan.shown.expect("a preedit shows the window");
    let (line_height, char_width) = render_metrics(&style);
    let (rows, width, height) = build_rows(&snapshot(), line_height, char_width, &style);
    assert_eq!(shown.rows, rows);
    assert_eq!((shown.width, shown.height), window_size(width, height, &style.layout));

    let mut empty = snapshot();
    empty.preedit = String::new();
    let mut bigger = StyleConfig::default();
    bigger.font_point = 20;
    let plan = plan_snapshot(&style, &bigger, &empty);
    assert!(plan.rebuild_font);
    assert!(!plan.has_composition);
    assert!(plan.shown.is_none());
}
