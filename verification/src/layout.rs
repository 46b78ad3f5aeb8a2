//! Candidate layout: row positions, window size, highlight state and
//! hit-testing, computed from a snapshot and font metrics.

use crate::model::{byte_len, text_byte_len, Candidate, CandidateSnapshot};
use vstd::prelude::*;

verus! {

/// Spacing constants, in pixels.
pub const ROW_PADDING_X: i32 = 8;
pub const ROW_PADDING_Y: i32 = 2;
pub const INDEX_WIDTH: i32 = 24;
pub const INDEX_PADDING: i32 = 4;

/// How to render one row of the candidate window.
#[derive(Clone, Debug, PartialEq, Eq)]
pub struct LayoutRow {
    pub is_preedit: bool,
    pub y_offset: i32,
    pub text: String,
    /// 1-based display index.
    pub index: Option<usize>,
    pub annotation: Option<String>,
    pub is_highlighted: bool,
}

/// Layout result produced by `layout_snapshot`.
#[derive(Clone, Debug, PartialEq, Eq)]
pub struct CandidateLayout {
    pub preedit: String,
    pub preedit_cursor: usize,
    pub rows: Vec<LayoutRow>,
    pub total_width: i32,
    pub total_height: i32,
}

pub open spec fn in_i32(v: int) -> bool {
    i32::MIN <= v <= i32::MAX
}

/// A text's width: its byte length, taken as `i32`, times the character width.
pub open spec fn text_width(text: Seq<char>, char_width: i32) -> int {
    (byte_len(text) as i32) * char_width
}

pub open spec fn annotation_width(c: Candidate, char_width: i32) -> int {
    match c.annotation {
        Some(a) => text_width(a@, char_width),
        None => 0,
    }
}

/// The width a candidate row asks for: index column, text and annotation.
pub open spec fn candidate_width(c: Candidate, char_width: i32) -> int {
    INDEX_WIDTH + INDEX_PADDING + text_width(c.text@, char_width) + annotation_width(c, char_width)
}

/// Whether the width arithmetic of one candidate stays within `i32`.
pub open spec fn candidate_width_fits(c: Candidate, char_width: i32) -> bool {
    &&& in_i32(text_width(c.text@, char_width))
    &&& in_i32(annotation_width(c, char_width))
    &&& in_i32(INDEX_WIDTH + INDEX_PADDING + text_width(c.text@, char_width))
    &&& in_i32(candidate_width(c, char_width))
}

/// The widest text among the candidates, starting from `start`.
pub open spec fn widest(cands: Seq<Candidate>, char_width: i32, start: int) -> int
    decreases cands.len(),
{
    if cands.len() == 0 {
        start
    } else {
        let w = widest(cands.drop_last(), char_width, start);
        let c = candidate_width(cands.last(), char_width);
        if w >= c {
            w
        } else {
            c
        }
    }
}

pub open spec fn preedit_lines(s: CandidateSnapshot) -> int {
    if s@.preedit_empty() {
        0
    } else {
        1
    }
}

/// The total number of rows, as the `i32` arithmetic computes it.
pub open spec fn row_count(s: CandidateSnapshot) -> int {
    preedit_lines(s) + (s.candidates@.len() as i32)
}

/// The widest row before padding.
pub open spec fn content_width(s: CandidateSnapshot, char_width: i32) -> int {
    let start = if s@.preedit_empty() {
        0
    } else {
        if text_width(s.preedit@, char_width) >= 0 {
            text_width(s.preedit@, char_width)
        } else {
            0
        }
    };
    widest(s.candidates@, char_width, start)
}

/// The pixel size of the candidate window.
pub open spec fn window_size(s: CandidateSnapshot, line_height: i32, char_width: i32) -> (int, int) {
    if s@.preedit_empty() && s.candidates@.len() as i32 == 0 {
        (0, 0)
    } else {
        (
            content_width(s, char_width) + ROW_PADDING_X * 2,
            row_count(s) * line_height + ROW_PADDING_Y * 2,
        )
    }
}

/// Whether all the window-size arithmetic stays within `i32`.
pub open spec fn window_size_fits(s: CandidateSnapshot, line_height: i32, char_width: i32) -> bool {
    (s@.preedit_empty() && s.candidates@.len() as i32 == 0) || {
        &&& (!s@.preedit_empty() ==> in_i32(text_width(s.preedit@, char_width)))
        &&& forall|i: int|
            0 <= i < s.candidates@.len() ==> #[trigger] candidate_width_fits(
                s.candidates@[i],
                char_width,
            )
        &&& in_i32(content_width(s, char_width) + ROW_PADDING_X * 2)
        &&& in_i32(row_count(s))
        &&& in_i32(row_count(s) * line_height)
        &&& in_i32(row_count(s) * line_height + ROW_PADDING_Y * 2)
    }
}

/// A snapshot viewed for layout.
pub struct SnapshotView {
    pub preedit: Seq<char>,
}

impl SnapshotView {
    pub open spec fn preedit_empty(self) -> bool {
        self.preedit.len() == 0
    }
}

impl View for CandidateSnapshot {
    type V = SnapshotView;

    open spec fn view(&self) -> SnapshotView {
        SnapshotView { preedit: self.preedit@ }
    }
}

proof fn lemma_widest_mono(cands: Seq<Candidate>, char_width: i32, start: int)
    ensures
        widest(cands, char_width, start) >= start,
        forall|i: int|
            0 <= i < cands.len() ==> widest(cands, char_width, start) >= #[trigger] candidate_width(
                cands[i],
                char_width,
            ),
    decreases cands.len(),
{
    if cands.len() > 0 {
        lemma_widest_mono(cands.drop_last(), char_width, start);
        assert forall|i: int| 0 <= i < cands.len() implies widest(cands, char_width, start)
            >= #[trigger] candidate_width(cands[i], char_width) by {
            if i < cands.len() - 1 {
                assert(cands[i] == cands.drop_last()[i]);
            }
        }
    }
}

/// The width a candidate row asks for.
fn candidate_row_width(c: &Candidate, char_width: i32) -> (w: i32)
    requires
        candidate_width_fits(*c, char_width),
    ensures
        w == candidate_width(*c, char_width),
{
    let text_w = (text_byte_len(&c.text) as i32) * char_width;
    let ann_w = match &c.annotation {
        Some(a) => (text_byte_len(a) as i32) * char_width,
        None => 0,
    };
    INDEX_WIDTH + INDEX_PADDING + text_w + ann_w
}

/// Compute the pixel size of the candidate window.
pub fn compute_window_size(snapshot: &CandidateSnapshot, line_height: i32, char_width: i32) -> (size:
    (i32, i32))
    requires
        window_size_fits(*snapshot, line_height, char_width),
    ensures
        size.0 == window_size(*snapshot, line_height, char_width).0,
        size.1 == window_size(*snapshot, line_height, char_width).1,
{
    let preedit_empty = snapshot.preedit.as_str().is_empty();
    let preedit_lines: i32 = if preedit_empty {
        0
    } else {
        1
    };
    let candidate_count = snapshot.candidates.len() as i32;
    if preedit_lines == 0 && candidate_count == 0 {
        return (0, 0);
    }
    let mut max_text_width: i32 = 0;
    if !preedit_empty {
        let w = (text_byte_len(&snapshot.preedit) as i32) * char_width;
        if w > max_text_width {
            max_text_width = w;
        }
    }
    let ghost start = max_text_width as int;
    let mut i: usize = 0;
    while i < snapshot.candidates.len()
        invariant
            i <= snapshot.candidates@.len(),
            window_size_fits(*snapshot, line_height, char_width),
            !(snapshot@.preedit_empty() && snapshot.candidates@.len() as i32 == 0),
            start == (if snapshot@.preedit_empty() {
                0
            } else if text_width(snapshot.preedit@, char_width) >= 0 {
                text_width(snapshot.preedit@, char_width)
            } else {
                0
            }),
            max_text_width == widest(snapshot.candidates@.subrange(0, i as int), char_width, start),
        decreases snapshot.candidates@.len() - i,
    {
        assert(candidate_width_fits(snapshot.candidates@[i as int], char_width));
        let w = candidate_row_width(&snapshot.candidates[i], char_width);
        let ghost prefix = snapshot.candidates@.subrange(0, i + 1);
        assert(prefix.drop_last() == snapshot.candidates@.subrange(0, i as int));
        if w > max_text_width {
            max_text_width = w;
        }
        i = i + 1;
    }
    assert(snapshot.candidates@.subrange(0, i as int) == snapshot.candidates@);
    let width = max_text_width + ROW_PADDING_X * 2;
    let total_rows = preedit_lines + candidate_count;
    let height = total_rows * line_height + ROW_PADDING_Y * 2;
    (width, height)
}


/// The preedit row of a layout.
pub open spec fn preedit_row(s: CandidateSnapshot) -> LayoutRow {
    LayoutRow {
        is_preedit: true,
        y_offset: ROW_PADDING_Y,
        text: s.preedit,
        index: None,
        annotation: None,
        is_highlighted: false,
    }
}

/// The row of candidate `i`, below `first` earlier rows.
pub open spec fn candidate_row(s: CandidateSnapshot, i: int, first: int, line_height: i32) -> LayoutRow {
    LayoutRow {
        is_preedit: false,
        y_offset: (ROW_PADDING_Y + (first + i) * line_height) as i32,
        text: s.candidates@[i].text,
        index: Some((i + 1) as usize),
        annotation: s.candidates@[i].annotation,
        is_highlighted: s.highlighted == Some(s.candidates@[i].id),
    }
}

/// The rows of a layout: the preedit row when there is a preedit, then one
/// row per candidate, one line height apart.
pub open spec fn layout_rows(s: CandidateSnapshot, rows: Seq<LayoutRow>, line_height: i32) -> bool {
    let p = preedit_lines(s);
    &&& rows.len() == p + s.candidates@.len()
    &&& p == 1 ==> rows[0] == preedit_row(s)
    &&& forall|i: int|
        0 <= i < s.candidates@.len() ==> #[trigger] rows[p + i] == candidate_row(s, i, p, line_height)
}

/// Whether every row offset, including the one after the last row, stays
/// within `i32`.
pub open spec fn row_offsets_fit(s: CandidateSnapshot, line_height: i32) -> bool {
    &&& s.candidates@.len() <= i32::MAX
    &&& in_i32(ROW_PADDING_Y + (preedit_lines(s) + s.candidates@.len()) * line_height)
}

proof fn lemma_offset_fits(k: int, total: int, line_height: int)
    requires
        0 <= k <= total,
        in_i32(2 + total * line_height),
    ensures
        in_i32(2 + k * line_height),
{
    if line_height >= 0 {
        assert(0 <= k * line_height <= total * line_height) by (nonlinear_arith)
            requires
                0 <= k <= total,
                line_height >= 0,
        ;
    } else {
        assert(total * line_height <= k * line_height <= 0) by (nonlinear_arith)
            requires
                0 <= k <= total,
                line_height < 0,
        ;
    }
}

fn clone_annotation(annotation: &Option<String>) -> (r: Option<String>)
    ensures
        r == *annotation,
{
    match annotation {
        Some(a) => Some(a.clone()),
        None => None,
    }
}

/// Build the layout of a snapshot for the given metrics.
pub fn layout_snapshot(snapshot: &CandidateSnapshot, line_height: i32, char_width: i32) -> (layout:
    CandidateLayout)
    requires
        window_size_fits(*snapshot, line_height, char_width),
        row_offsets_fit(*snapshot, line_height),
    ensures
        layout.preedit == snapshot.preedit,
        layout.preedit_cursor == snapshot.cursor,
        layout.total_width == window_size(*snapshot, line_height, char_width).0,
        layout.total_height == window_size(*snapshot, line_height, char_width).1,
        layout_rows(*snapshot, layout.rows@, line_height),
{
    let (total_width, total_height) = compute_window_size(snapshot, line_height, char_width);
    let mut rows: Vec<LayoutRow> = Vec::new();
    let mut y: i32 = ROW_PADDING_Y;
    let ghost p = preedit_lines(*snapshot);
    let ghost total = p + snapshot.candidates@.len();
    if !snapshot.preedit.as_str().is_empty() {
        rows.push(
            LayoutRow {
                is_preedit: true,
                y_offset: y,
                text: snapshot.preedit.clone(),
                index: None,
                annotation: None,
                is_highlighted: false,
            },
        );
        proof {
            lemma_offset_fits(1, total, line_height as int);
        }
        y = y + line_height;
    }
    assert(y == ROW_PADDING_Y + (p + 0) * line_height) by (nonlinear_arith)
        requires
            p == 0 ==> y == ROW_PADDING_Y,
            p == 1 ==> y == ROW_PADDING_Y + line_height,
            p == 0 || p == 1,
    ;
    let mut i: usize = 0;
    while i < snapshot.candidates.len()
        invariant
            i <= snapshot.candidates@.len(),
            row_offsets_fit(*snapshot, line_height),
            p == preedit_lines(*snapshot),
            total == p + snapshot.candidates@.len(),
            y == ROW_PADDING_Y + (p + i) * line_height,
            rows@.len() == p + i,
            p == 1 ==> rows@[0] == preedit_row(*snapshot),
            forall|k: int|
                0 <= k < i ==> #[trigger] rows@[p + k] == candidate_row(*snapshot, k, p, line_height),
        decreases snapshot.candidates@.len() - i,
    {
        let cand = &snapshot.candidates[i];
        let highlighted = match snapshot.highlighted {
            Some(id) => id == cand.id,
            None => false,
        };
        let row = LayoutRow {
            is_preedit: false,
            y_offset: y,
            text: cand.text.clone(),
            index: Some(i + 1),
            annotation: clone_annotation(&cand.annotation),
            is_highlighted: highlighted,
        };
        assert(row == candidate_row(*snapshot, i as int, p, line_height));
        rows.push(row);
        proof {
            lemma_offset_fits(p + i + 1, total, line_height as int);
            assert(ROW_PADDING_Y + (p + i + 1) * line_height == y + line_height) by (nonlinear_arith)
                requires
                    y == ROW_PADDING_Y + (p + i) * line_height,
            ;
        }
        y = y + line_height;
        i = i + 1;
    }
    CandidateLayout {
        preedit: snapshot.preedit.clone(),
        preedit_cursor: snapshot.cursor,
        rows,
        total_width,
        total_height,
    }
}

/// The row hit at height `y`, scanning rows in order, or `None` when the
/// band of a scanned row that starts at or above `y` ends outside `i32`,
/// where the scan's arithmetic would overflow.
pub open spec fn hit_scan(rows: Seq<LayoutRow>, y: i32, line_height: i32, from: int) -> Option<
    Option<usize>,
>
    decreases rows.len() - from,
{
    if from < 0 || from >= rows.len() {
        Some(None)
    } else if y >= rows[from].y_offset && !in_i32(rows[from].y_offset + line_height) {
        None
    } else if y >= rows[from].y_offset && y < rows[from].y_offset + line_height
        && !rows[from].is_preedit {
        Some(rows[from].index)
    } else {
        hit_scan(rows, y, line_height, from + 1)
    }
}

/// The 1-based index of the candidate row at height `y`, if any. Preedit rows
/// are never hit.
pub fn hit_test_candidate(layout: &CandidateLayout, x: i32, y: i32, line_height: i32) -> (hit:
    Option<usize>)
    requires
        hit_scan(layout.rows@, y, line_height, 0) is Some,
    ensures
        hit == hit_scan(layout.rows@, y, line_height, 0)->Some_0,
{
    let mut i: usize = 0;
    while i < layout.rows.len()
        invariant
            i <= layout.rows@.len(),
            hit_scan(layout.rows@, y, line_height, i as int) == hit_scan(layout.rows@, y, line_height, 0),
            hit_scan(layout.rows@, y, line_height, 0) is Some,
        decreases layout.rows@.len() - i,
    {
        let row = &layout.rows[i];
        if y >= row.y_offset && y < row.y_offset + line_height && !row.is_preedit {
            return row.index;
        }
        i = i + 1;
    }
    None
}

/// The window is wide enough for every candidate row: its index column,
/// its text and its annotation (each as wide as its UTF-8 byte length in
/// character widths), within the row padding on both sides; and wide
/// enough for the preedit.
pub proof fn lemma_window_holds_every_candidate(s: CandidateSnapshot, line_height: i32, char_width: i32)
    requires
        window_size_fits(s, line_height, char_width),
        s.candidates@.len() <= i32::MAX,
    ensures
        forall|i: int|
            0 <= i < s.candidates@.len() && byte_len(s.candidates@[i].text@) <= i32::MAX && (
            match s.candidates@[i].annotation {
                Some(a) => byte_len(a@) <= i32::MAX,
                None => true,
            }) ==> window_size(s, line_height, char_width).0 >= ROW_PADDING_X * 2 + INDEX_WIDTH
                + INDEX_PADDING + (byte_len((#[trigger] s.candidates@[i]).text@) + match s.candidates@[i].annotation {
                Some(a) => byte_len(a@) as int,
                None => 0,
            }) * char_width,
        !s@.preedit_empty() && byte_len(s.preedit@) <= i32::MAX ==> window_size(s, line_height, char_width).0
            >= ROW_PADDING_X * 2 + byte_len(s.preedit@) * char_width,
{
    let start = if s@.preedit_empty() {
        0
    } else {
        if text_width(s.preedit@, char_width) >= 0 {
            text_width(s.preedit@, char_width)
        } else {
            0
        }
    };
    lemma_widest_mono(s.candidates@, char_width, start);
    assert forall|i: int|
        0 <= i < s.candidates@.len() && byte_len(s.candidates@[i].text@) <= i32::MAX && (
        match s.candidates@[i].annotation {
            Some(a) => byte_len(a@) <= i32::MAX,
            None => true,
        }) implies window_size(s, line_height, char_width).0 >= ROW_PADDING_X * 2 + INDEX_WIDTH
            + INDEX_PADDING + (byte_len((#[trigger] s.candidates@[i]).text@) + match s.candidates@[i].annotation {
            Some(a) => byte_len(a@) as int,
            None => 0,
        }) * char_width by {
        let c = s.candidates@[i];
        let t = byte_len(c.text@) as int;
        assert(text_width(c.text@, char_width) == t * char_width);
        match c.annotation {
            Some(a) => {
                let n = byte_len(a@) as int;
                assert(annotation_width(c, char_width) == n * char_width);
                assert((t + n) * char_width == t * char_width + n * char_width) by (nonlinear_arith);
            },
            None => {},
        }
        assert(widest(s.candidates@, char_width, start) >= candidate_width(c, char_width));
    }
}

} // verus!
