use cheime_tip::candidate_rows::{build_rows, text_pixel_width, RowRender};
use cheime_tip::model::{Candidate, CandidateSnapshot};
use cheime_tip::ui_config::{LayoutConfig, LayoutType, PreeditType, StyleConfig};

fn candidate(id: u64, text: &str, annotation: Option<&str>) -> Candidate {
    Candidate {
        id,
        text: text.into(),
        annotation: annotation.map(String::from),
    }
}

fn snapshot(preedit: &str, candidates: Vec<Candidate>, highlighted: Option<u64>) -> CandidateSnapshot {
    CandidateSnapshot {
        epoch: 1,
        revision: 1,
        preedit: preedit.into(),
        cursor: preedit.len(),
        candidates,
        highlighted,
    }
}

fn text(row: &RowRender) -> String {
    row.text.iter().collect()
}

#[test]
fn build_rows_with_config() {
    let snap = snapshot(
        "ni",
        vec![candidate(1, "你", Some("ni3")), candidate(2, "尼", None)],
        Some(1),
    );
    let cfg = StyleConfig::default();
    let (rows, _, _) = build_rows(&snap, 22, 18, &cfg);
    assert!(rows.len() >= 2, "preedit + at least 1 candidate");
    // First row = preedit, not highlighted
    assert!(!rows[0].highlighted);
}

#[test]
fn horizontal_layout_hides_labels_and_limits_candidates() {
    let snap = snapshot(
        "ni",
        (0..3)
            .map(|index| candidate(index + 1, &format!("word{index}"), None))
            .collect(),
        Some(1),
    );
    let cfg = StyleConfig {
        layout: LayoutConfig {
            layout_type: LayoutType::Horizontal,
            ..Default::default()
        },
        show_labels: false,
        page_size: 2,
        ..Default::default()
    };
    let (rows, width, height) = build_rows(&snap, 22, 9, &cfg);
    let candidates = rows
        .iter()
        .filter(|row| row.candidate_index.is_some())
        .collect::<Vec<_>>();
    assert_eq!(candidates.len(), 2);
    assert_eq!(candidates[0].bounds.top, candidates[1].bounds.top);
    assert!(candidates[1].bounds.left >= candidates[0].bounds.right);
    assert_eq!(candidates[0].bounds.right - candidates[0].bounds.left, 45);
    assert!(!text(candidates[0]).contains("1."));
    assert!(width > 0);
    assert_eq!(height, 66);
}

#[test]
fn inline_preedit_removes_candidate_window_preedit_row() {
    let snap = snapshot("nihao", vec![], None);
    let mut cfg = StyleConfig::default();
    cfg.inline_preedit = true;
    let (rows, _, _) = build_rows(&snap, 22, 18, &cfg);
    assert!(rows.iter().all(|row| row.candidate_index.is_some()));
}

#[test]
fn vertical_rows_carry_labels_annotations_and_exact_geometry() {
    let snap = snapshot(
        "ni",
        vec![candidate(1, "你", Some("ni3")), candidate(2, "尼", None)],
        Some(1),
    );
    let cfg = StyleConfig::default();
    let (rows, width, height) = build_rows(&snap, 22, 18, &cfg);
    assert_eq!(rows.len(), 3);
    assert_eq!(text(&rows[0]), "ni");
    assert_eq!(text(&rows[1]), "1 你 ni3");
    assert_eq!(text(&rows[2]), "2 尼");
    // margins 10/8, spacing 6, candidate spacing 4
    assert_eq!((rows[0].x, rows[0].y), (10, 8));
    assert_eq!(rows[0].bounds.right, 9 + 9 + 20);
    assert_eq!(rows[1].y, 8 + 22 + 6);
    assert_eq!(rows[2].y, 36 + 22 + 4);
    assert_eq!(rows[1].candidate_index, Some(0));
    assert!(rows[1].highlighted);
    assert!(!rows[2].highlighted);
    // "1 你 ni3": 6 ascii characters of 9 px and one of 18 px
    assert_eq!(rows[1].bounds.right, 6 * 9 + 18 + 20);
    assert_eq!(width, 92);
    assert_eq!(height, 62 + 22 + 4 + 8);
}

#[test]
fn mark_label_format_and_abbreviation_shape_the_candidate_line() {
    let snap = snapshot("x", vec![candidate(5, "abcdef", Some("note"))], Some(5));
    let mut cfg = StyleConfig::default();
    cfg.mark_text = "▶".into();
    cfg.label_format = "%s.%s".into();
    cfg.candidate_abbreviate_length = 3;
    let (rows, _, _) = build_rows(&snap, 20, 10, &cfg);
    assert_eq!(text(&rows[1]), "▶ 1.1 abc… note");
}

#[test]
fn the_tenth_candidate_is_labelled_zero() {
    let candidates = (0..10).map(|i| candidate(i, "x", None)).collect();
    let snap = snapshot("p", candidates, None);
    let mut cfg = StyleConfig::default();
    cfg.page_size = 10;
    let (rows, _, _) = build_rows(&snap, 20, 10, &cfg);
    assert_eq!(rows.len(), 11);
    assert_eq!(text(&rows[10]), "0 x");
    assert_eq!(text(&rows[9]), "9 x");
}

#[test]
fn preview_preedit_shows_the_highlighted_candidate_or_the_page() {
    let snap = snapshot("ni", vec![candidate(1, "你", None), candidate(2, "尼", None)], Some(2));
    let mut cfg = StyleConfig::default();
    cfg.preedit_type = PreeditType::Preview;
    let (rows, _, _) = build_rows(&snap, 20, 10, &cfg);
    assert_eq!(text(&rows[0]), "尼");
    cfg.preedit_type = PreeditType::PreviewAll;
    let (rows, _, _) = build_rows(&snap, 20, 10, &cfg);
    assert_eq!(text(&rows[0]), "你 尼");
    let unknown = snapshot("ni", vec![candidate(1, "你", None)], Some(9));
    cfg.preedit_type = PreeditType::Preview;
    let (rows, _, _) = build_rows(&unknown, 20, 10, &cfg);
    assert_eq!(text(&rows[0]), "ni");
}

#[test]
fn empty_snapshot_has_margins_and_one_line() {
    let snap = snapshot("", vec![], None);
    let cfg = StyleConfig::default();
    let (rows, width, height) = build_rows(&snap, 22, 18, &cfg);
    assert!(rows.is_empty());
    assert_eq!(width, 20);
    assert_eq!(height, 22);
}

#[test]
fn ascii_takes_half_width_rounded_up() {
    assert_eq!(text_pixel_width("ab", 9), 10);
    assert_eq!(text_pixel_width("你好", 9), 18);
    assert_eq!(text_pixel_width("", 9), 0);
    assert_eq!(text_pixel_width("a", -4), -1);
}
