use cheime_tip::layout::{compute_window_size, hit_test_candidate, layout_snapshot};
use cheime_tip::model::{Candidate, CandidateSnapshot};

fn sample() -> CandidateSnapshot {
    CandidateSnapshot {
        epoch: 1,
        revision: 2,
        preedit: String::from("ni"),
        cursor: 2,
        candidates: vec![
            Candidate {
                id: 10,
                text: String::from("你"),
                annotation: Some(String::from("ni3")),
            },
            Candidate {
                id: 11,
                text: String::from("呢"),
                annotation: None,
            },
        ],
        highlighted: Some(10),
    }
}

#[test]
fn layout_preedit_and_candidates() {
    let layout = layout_snapshot(&sample(), 22, 8);
    assert_eq!(layout.rows.len(), 3);
    assert!(layout.rows[0].is_preedit);
    assert_eq!(layout.rows[0].text, "ni");
    assert_eq!(layout.rows[1].text, "你");
    assert_eq!(layout.rows[1].index, Some(1));
    assert!(layout.rows[1].is_highlighted);
    assert!(!layout.rows[2].is_highlighted);
}

#[test]
fn empty_snapshot_zero_size() {
    let snap = CandidateSnapshot {
        preedit: String::new(),
        cursor: 0,
        candidates: vec![],
        highlighted: None,
        ..sample()
    };
    assert_eq!(compute_window_size(&snap, 22, 8), (0, 0));
}

#[test]
fn hit_test_hits_candidate_misses_preedit() {
    let layout = layout_snapshot(&sample(), 22, 8);
    assert_eq!(hit_test_candidate(&layout, 20, 24, 22), Some(1)); // first candidate
    assert_eq!(hit_test_candidate(&layout, 20, 2, 22), None); // preedit row
}
