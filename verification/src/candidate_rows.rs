//! Where the candidate window draws its rows: the preedit line on top, then
//! the page's candidates stacked (vertical layout) or side by side
//! (horizontal layout), with the content size that bounds them.

use crate::layout::in_i32;
use crate::model::CandidateSnapshot;
use crate::row_text::{candidate_line, candidate_text, page_count, preedit_line, preedit_text};
use crate::ui_config::{LayoutType, StyleConfig};
use vstd::prelude::*;

verus! {

/// A row's rectangle, in client pixels.
#[derive(Clone, Copy, Debug, PartialEq, Eq, Structural)]
pub struct Bounds {
    pub left: i32,
    pub top: i32,
    pub right: i32,
    pub bottom: i32,
}

/// One row of the candidate window.
#[derive(Clone, Debug, PartialEq, Eq)]
pub struct RowRender {
    pub text: Vec<char>,
    pub x: i32,
    pub y: i32,
    pub bounds: Bounds,
    pub candidate_index: Option<usize>,
    pub highlighted: bool,
}

/// A row as integers.
pub struct RowSpec {
    pub text: Seq<char>,
    pub x: int,
    pub y: int,
    pub left: int,
    pub top: int,
    pub right: int,
    pub bottom: int,
    pub candidate_index: Option<int>,
    pub highlighted: bool,
}

pub open spec fn row_is(r: RowRender, s: RowSpec) -> bool {
    &&& r.text@ == s.text
    &&& r.x == s.x
    &&& r.y == s.y
    &&& r.bounds.left == s.left
    &&& r.bounds.top == s.top
    &&& r.bounds.right == s.right
    &&& r.bounds.bottom == s.bottom
    &&& match r.candidate_index {
        Some(i) => s.candidate_index == Some(i as int),
        None => s.candidate_index is None,
    }
    &&& r.highlighted == s.highlighted
}

pub open spec fn max0(v: int) -> int {
    if v < 0 {
        0
    } else {
        v
    }
}

/// `(w + 1) / 2`, rounded toward zero as `i32` division does.
pub open spec fn half_up(w: int) -> int {
    if w + 1 >= 0 {
        (w + 1) / 2
    } else {
        -((-(w + 1)) / 2)
    }
}

/// An ASCII character takes half the character width (rounded up), any
/// other the full width.
pub open spec fn char_px(c: char, char_width: int) -> int {
    if (c as u32) < 128 {
        half_up(char_width)
    } else {
        char_width
    }
}

/// The pixel width of a text.
pub open spec fn text_px(t: Seq<char>, char_width: int) -> int
    decreases t.len(),
{
    if t.len() == 0 {
        0
    } else {
        text_px(t.drop_last(), char_width) + char_px(t.last(), char_width)
    }
}

/// The top of the first candidate row: the margin, and the preedit line
/// with its spacing when there is one.
pub open spec fn first_candidate_y(snap: CandidateSnapshot, line_height: int, cfg: StyleConfig) -> int {
    max0(cfg.layout.margin_y as int) + if preedit_text(snap, cfg).len() > 0 {
        line_height + max0(cfg.layout.spacing as int)
    } else {
        0
    }
}

/// The top of the vertical row of candidate `i`.
pub open spec fn stacked_y(snap: CandidateSnapshot, line_height: int, cfg: StyleConfig, i: int) -> int
    decreases i,
{
    if i <= 0 {
        first_candidate_y(snap, line_height, cfg)
    } else {
        stacked_y(snap, line_height, cfg, i - 1) + line_height + max0(cfg.layout.candidate_spacing as int)
    }
}

/// The left edge of the horizontal cell of candidate `i`.
pub open spec fn cell_x(snap: CandidateSnapshot, char_width: int, cfg: StyleConfig, i: int) -> int
    decreases i,
{
    if i <= 0 {
        0
    } else {
        cell_x(snap, char_width, cfg, i - 1) + text_px(candidate_text(snap, cfg, i - 1), char_width) + max0(
            cfg.layout.hilite_padding_x as int,
        ) * 2 + max0(cfg.layout.candidate_spacing as int)
    }
}

/// The preedit row, when the preedit line is not empty.
pub open spec fn preedit_rows(snap: CandidateSnapshot, line_height: int, char_width: int, cfg: StyleConfig) -> Seq<RowSpec> {
    let p = preedit_text(snap, cfg);
    let pad_x = max0(cfg.layout.margin_x as int);
    let y = max0(cfg.layout.margin_y as int);
    if p.len() > 0 {
        seq![
            RowSpec {
                text: p,
                x: pad_x,
                y: y,
                left: 0,
                top: y,
                right: text_px(p, char_width) + pad_x * 2,
                bottom: y + line_height,
                candidate_index: None,
                highlighted: false,
            },
        ]
    } else {
        Seq::empty()
    }
}

/// The row of candidate `i` of the page.
pub open spec fn candidate_row(snap: CandidateSnapshot, line_height: int, char_width: int, cfg: StyleConfig, i: int) -> RowSpec {
    let t = candidate_text(snap, cfg, i);
    let w = text_px(t, char_width);
    let highlighted = snap.highlighted == Some(snap.candidates@[i].id);
    match cfg.layout.layout_type {
        LayoutType::Vertical => {
            let pad_x = max0(cfg.layout.margin_x as int);
            let y = stacked_y(snap, line_height, cfg, i);
            RowSpec {
                text: t,
                x: pad_x,
                y: y,
                left: 0,
                top: y,
                right: w + pad_x * 2,
                bottom: y + line_height,
                candidate_index: Some(i),
                highlighted,
            }
        },
        LayoutType::Horizontal => {
            let pad = max0(cfg.layout.hilite_padding_x as int);
            let x = cell_x(snap, char_width, cfg, i);
            let y = first_candidate_y(snap, line_height, cfg);
            RowSpec {
                text: t,
                x: x + pad,
                y: y,
                left: x,
                top: y,
                right: x + w + pad * 2,
                bottom: y + line_height,
                candidate_index: Some(i),
                highlighted,
            }
        },
    }
}

/// All rows: the preedit row, then the page's candidates in order.
pub open spec fn rows_of(snap: CandidateSnapshot, line_height: int, char_width: int, cfg: StyleConfig) -> Seq<RowSpec> {
    preedit_rows(snap, line_height, char_width, cfg) + Seq::new(
        page_count(snap, cfg) as nat,
        |i: int| candidate_row(snap, line_height, char_width, cfg, i),
    )
}

/// Where the rows end: below the last stacked row, or below the line of
/// cells when there is one.
pub open spec fn rows_end_y(snap: CandidateSnapshot, line_height: int, cfg: StyleConfig) -> int {
    let k = page_count(snap, cfg);
    match cfg.layout.layout_type {
        LayoutType::Vertical => stacked_y(snap, line_height, cfg, k),
        LayoutType::Horizontal => first_candidate_y(snap, line_height, cfg) + if k > 0 {
            line_height
        } else {
            0
        },
    }
}

/// The largest right edge of the rows, and at least `floor`.
pub open spec fn widest_right(rows: Seq<RowSpec>, floor: int) -> int
    decreases rows.len(),
{
    if rows.len() == 0 {
        floor
    } else {
        let w = widest_right(rows.drop_last(), floor);
        if rows.last().right > w {
            rows.last().right
        } else {
            w
        }
    }
}

/// The content width: the widest row, and at least both horizontal margins.
pub open spec fn content_width(snap: CandidateSnapshot, line_height: int, char_width: int, cfg: StyleConfig) -> int {
    widest_right(rows_of(snap, line_height, char_width, cfg), max0(cfg.layout.margin_x as int) * 2)
}

/// The content height: down to the end of the rows and the bottom margin,
/// and at least one line.
pub open spec fn content_height(snap: CandidateSnapshot, line_height: int, cfg: StyleConfig) -> int {
    let h = rows_end_y(snap, line_height, cfg) + max0(cfg.layout.margin_y as int);
    if h < line_height {
        line_height
    } else {
        h
    }
}

pub open spec fn row_fits(r: RowSpec) -> bool {
    &&& in_i32(r.x)
    &&& in_i32(r.y)
    &&& in_i32(r.left)
    &&& in_i32(r.top)
    &&& in_i32(r.right)
    &&& in_i32(r.bottom)
}

/// Whether every coordinate of the rows, and the content size, is an `i32`.
pub open spec fn rows_fit(snap: CandidateSnapshot, line_height: int, char_width: int, cfg: StyleConfig) -> bool {
    &&& forall|i: int|
        0 <= i < rows_of(snap, line_height, char_width, cfg).len() ==> row_fits(
            #[trigger] rows_of(snap, line_height, char_width, cfg)[i],
        )
    &&& in_i32(content_width(snap, line_height, char_width, cfg))
    &&& in_i32(content_height(snap, line_height, cfg))
}

/// A text of `n` characters is at most `n * 2^32` pixels wide either way.
pub proof fn lemma_text_px_bound(t: Seq<char>, char_width: int)
    requires
        in_i32(char_width),
    ensures
        -(t.len() * 0x1_0000_0000) <= text_px(t, char_width) <= t.len() * 0x1_0000_0000,
    decreases t.len(),
{
    if t.len() > 0 {
        lemma_text_px_bound(t.drop_last(), char_width);
    }
}

fn half_up_px(w: i32) -> (h: i64)
    ensures
        h == half_up(w as int),
{
    let x: i64 = w as i64 + 1;
    if x >= 0 {
        x / 2
    } else {
        -((-x) / 2)
    }
}

/// The pixel width of a text, without bound.
fn chars_px(v: &Vec<char>, char_width: i32) -> (w: i128)
    ensures
        w == text_px(v@, char_width as int),
{
    let half = half_up_px(char_width);
    let mut sum: i128 = 0;
    let mut i: usize = 0;
    while i < v.len()
        invariant
            i <= v@.len(),
            half == half_up(char_width as int),
            sum == text_px(v@.take(i as int), char_width as int),
        decreases v@.len() - i,
    {
        proof {
            lemma_text_px_bound(v@.take(i as int), char_width as int);
            assert(v@.take(i + 1).drop_last() == v@.take(i as int));
        }
        let c = v[i];
        if (c as u32) < 128 {
            sum = sum + half as i128;
        } else {
            sum = sum + char_width as i128;
        }
        i = i + 1;
    }
    assert(v@.take(v@.len() as int) == v@);
    sum
}

/// The pixel width of `text` at `char_width` pixels per full-width character.
pub fn text_pixel_width(text: &str, char_width: i32) -> (w: i32)
    requires
        in_i32(text_px(text@, char_width as int)),
    ensures
        w == text_px(text@, char_width as int),
{
    let v = crate::text::chars_of(text);
    chars_px(&v, char_width) as i32
}

/// The rows of the candidate window for `snapshot`, with the content width
/// and height.
pub fn build_rows(snapshot: &CandidateSnapshot, line_height: i32, char_width: i32, config: &StyleConfig) -> (r: (
    Vec<RowRender>,
    i32,
    i32,
))
    requires
        rows_fit(*snapshot, line_height as int, char_width as int, *config),
    ensures
        r.0@.len() == rows_of(*snapshot, line_height as int, char_width as int, *config).len(),
        forall|i: int|
            0 <= i < r.0@.len() ==> row_is(
                #[trigger] r.0@[i],
                rows_of(*snapshot, line_height as int, char_width as int, *config)[i],
            ),
        r.1 == content_width(*snapshot, line_height as int, char_width as int, *config),
        r.2 == content_height(*snapshot, line_height as int, *config),
{
    let ghost lh = line_height as int;
    let ghost cw = char_width as int;
    let ghost spec_rows = rows_of(*snapshot, lh, cw, *config);
    let pad_x: i64 = if config.layout.margin_x < 0 {
        0
    } else {
        config.layout.margin_x as i64
    };
    let pad_y: i64 = if config.layout.margin_y < 0 {
        0
    } else {
        config.layout.margin_y as i64
    };
    let spacing: i64 = if config.layout.spacing < 0 {
        0
    } else {
        config.layout.spacing as i64
    };
    let cand_spacing: i64 = if config.layout.candidate_spacing < 0 {
        0
    } else {
        config.layout.candidate_spacing as i64
    };
    let cell_pad: i64 = if config.layout.hilite_padding_x < 0 {
        0
    } else {
        config.layout.hilite_padding_x as i64
    };
    let mut rows: Vec<RowRender> = Vec::new();
    let mut width: i64 = pad_x * 2;
    let mut y: i64 = pad_y;
    let preedit = preedit_line(snapshot, config);
    let ghost p = preedit_rows(*snapshot, lh, cw, *config);
    if preedit.len() > 0 {
        let w = chars_px(&preedit, char_width);
        proof {
            assert(spec_rows[0] == p[0]);
            assert(row_fits(spec_rows[0]));
            lemma_text_px_bound(preedit@, cw);
        }
        let right = (w + (pad_x * 2) as i128) as i32;
        rows.push(
            RowRender {
                text: preedit,
                x: pad_x as i32,
                y: y as i32,
                bounds: Bounds { left: 0, top: y as i32, right, bottom: (y + line_height as i64) as i32 },
                candidate_index: None,
                highlighted: false,
            },
        );
        if right as i64 > width {
            width = right as i64;
        }
        y = y + line_height as i64 + spacing;
        proof {
            assert(p.len() == 1);
            assert(p.drop_last() =~= Seq::<RowSpec>::empty());
            assert(p[0].right == right);
            assert(widest_right(p.drop_last(), pad_x * 2) == pad_x * 2);
            assert(width == widest_right(p, pad_x * 2));
        }
    } else {
        assert(p.len() == 0);
    }
    proof {
        assert(rows@.len() == p.len());
        assert(spec_rows.take(p.len() as int) == p);
        if p.len() == 1 {
            assert(p.drop_last() == Seq::<RowSpec>::empty());
            assert(p.last() == spec_rows[0]);
        }
        assert(width == widest_right(spec_rows.take(rows@.len() as int), pad_x * 2));
        assert(y == first_candidate_y(*snapshot, lh, *config));
    }
    let k = crate::row_text::page_len(snapshot, config);
    let mut x: i64 = 0;
    let mut i: usize = 0;
    while i < k
        invariant
            k == page_count(*snapshot, *config),
            k <= snapshot.candidates@.len(),
            i <= k,
            spec_rows == rows_of(*snapshot, lh, cw, *config),
            p == preedit_rows(*snapshot, lh, cw, *config),
            p.len() <= 1,
            spec_rows.len() == p.len() + k,
            rows_fit(*snapshot, lh, cw, *config),
            lh == line_height,
            cw == char_width,
            pad_x == max0(config.layout.margin_x as int),
            cand_spacing == max0(config.layout.candidate_spacing as int),
            cell_pad == max0(config.layout.hilite_padding_x as int),
            rows@.len() == p.len() + i,
            forall|j: int| 0 <= j < rows@.len() ==> row_is(#[trigger] rows@[j], spec_rows[j]),
            width == widest_right(spec_rows.take(rows@.len() as int), pad_x * 2),
            config.layout.layout_type == LayoutType::Vertical ==> y == stacked_y(*snapshot, lh, *config, i as int),
            config.layout.layout_type == LayoutType::Horizontal ==> y == first_candidate_y(*snapshot, lh, *config),
            config.layout.layout_type == LayoutType::Horizontal ==> x == cell_x(*snapshot, cw, *config, i as int),
            -0x4_0000_0000 <= y <= 0x4_0000_0000,
            -0x4_0000_0000 <= x <= 0x4_0000_0000,
            -0x1_0000_0000 <= width <= 0x1_0000_0000,
        decreases k - i,
    {
        let t = candidate_line(snapshot, config, i);
        let w = chars_px(&t, char_width);
        let ghost row = candidate_row(*snapshot, lh, cw, *config, i as int);
        proof {
            assert(spec_rows[p.len() + i] == row);
            assert(row_fits(spec_rows[p.len() + i]));
            lemma_text_px_bound(t@, cw);
        }
        let highlighted = match snapshot.highlighted {
            Some(id) => id == snapshot.candidates[i].id,
            None => false,
        };
        let ghost before = rows@;
        match config.layout.layout_type {
            LayoutType::Vertical => {
                let right = (w + (pad_x * 2) as i128) as i32;
                rows.push(
                    RowRender {
                        text: t,
                        x: pad_x as i32,
                        y: y as i32,
                        bounds: Bounds {
                            left: 0,
                            top: y as i32,
                            right,
                            bottom: (y + line_height as i64) as i32,
                        },
                        candidate_index: Some(i),
                        highlighted,
                    },
                );
                if right as i64 > width {
                    width = right as i64;
                }
                y = y + line_height as i64 + cand_spacing;
            },
            LayoutType::Horizontal => {
                let right = (x as i128 + w + (cell_pad * 2) as i128) as i32;
                rows.push(
                    RowRender {
                        text: t,
                        x: (x + cell_pad) as i32,
                        y: y as i32,
                        bounds: Bounds { left: x as i32, top: y as i32, right, bottom: (y + line_height as i64) as i32 },
                        candidate_index: Some(i),
                        highlighted,
                    },
                );
                if right as i64 > width {
                    width = right as i64;
                }
                x = right as i64 + cand_spacing;
            },
        }
        proof {
            assert(spec_rows.take(rows@.len() as int).drop_last() == spec_rows.take(before.len() as int));
            assert forall|j: int| 0 <= j < rows@.len() implies row_is(#[trigger] rows@[j], spec_rows[j]) by {
                if j < before.len() {
                    assert(rows@[j] == before[j]);
                }
            }
        }
        i = i + 1;
    }
    if config.layout.layout_type == LayoutType::Horizontal && k > 0 {
        y = y + line_height as i64;
    }
    proof {
        assert(spec_rows.take(rows@.len() as int) == spec_rows);
        assert(y == rows_end_y(*snapshot, lh, *config));
    }
    let end = y + pad_y;
    let height: i64 = if end < line_height as i64 {
        line_height as i64
    } else {
        end
    };
    (rows, width as i32, height as i32)
}

proof fn lemma_widest_right_bounds(rows: Seq<RowSpec>, floor: int)
    ensures
        floor <= widest_right(rows, floor),
        forall|i: int| 0 <= i < rows.len() ==> #[trigger] rows[i].right <= widest_right(rows, floor),
    decreases rows.len(),
{
    if rows.len() > 0 {
        lemma_widest_right_bounds(rows.drop_last(), floor);
        assert forall|i: int| 0 <= i < rows.len() implies #[trigger] rows[i].right <= widest_right(rows, floor) by {
            if i < rows.len() - 1 {
                assert(rows[i] == rows.drop_last()[i]);
            }
        }
    }
}

/// The content is wide enough for every row and for both margins.
pub proof fn lemma_content_holds_every_row(snap: CandidateSnapshot, line_height: int, char_width: int, cfg: StyleConfig)
    ensures
        max0(cfg.layout.margin_x as int) * 2 <= content_width(snap, line_height, char_width, cfg),
        forall|i: int|
            0 <= i < rows_of(snap, line_height, char_width, cfg).len() ==> #[trigger] rows_of(
                snap,
                line_height,
                char_width,
                cfg,
            )[i].right <= content_width(snap, line_height, char_width, cfg),
{
    lemma_widest_right_bounds(rows_of(snap, line_height, char_width, cfg), max0(cfg.layout.margin_x as int) * 2);
}

/// Candidate rows never overlap: stacked rows start at or below the bottom
/// of the row before, and side-by-side cells share their top and start at
/// or right of the cell before. The preedit row is above every candidate.
pub proof fn lemma_rows_do_not_overlap(
    snap: CandidateSnapshot,
    line_height: int,
    char_width: int,
    cfg: StyleConfig,
    i: int,
)
    requires
        0 <= i,
        i + 1 < page_count(snap, cfg),
    ensures
        cfg.layout.layout_type == LayoutType::Vertical ==> candidate_row(snap, line_height, char_width, cfg, i + 1).top
            >= candidate_row(snap, line_height, char_width, cfg, i).bottom,
        cfg.layout.layout_type == LayoutType::Horizontal ==> candidate_row(snap, line_height, char_width, cfg, i + 1).top
            == candidate_row(snap, line_height, char_width, cfg, i).top && candidate_row(
            snap,
            line_height,
            char_width,
            cfg,
            i + 1,
        ).left >= candidate_row(snap, line_height, char_width, cfg, i).right,
        preedit_rows(snap, line_height, char_width, cfg).len() == 1 ==> candidate_row(
            snap,
            line_height,
            char_width,
            cfg,
            0,
        ).top >= preedit_rows(snap, line_height, char_width, cfg)[0].bottom,
{
}

/// The rows are at most one preedit row (first, not a candidate, never
/// highlighted) followed by exactly `k` candidate rows, `k` being the
/// smaller of the number of candidates and the page size (at least 1);
/// candidate row `i` shows candidate `i` and is highlighted exactly when
/// that candidate's id is the highlighted one; every row is one line high,
/// and the content is at least one line high.
pub proof fn lemma_rows_count_and_order(
    snap: CandidateSnapshot,
    line_height: int,
    char_width: int,
    cfg: StyleConfig,
)
    ensures
        ({
            let rows = rows_of(snap, line_height, char_width, cfg);
            let p = preedit_rows(snap, line_height, char_width, cfg).len();
            let size = if cfg.page_size < 1 {
                1
            } else {
                cfg.page_size as int
            };
            let k = if snap.candidates@.len() < size {
                snap.candidates@.len() as int
            } else {
                size
            };
            &&& p <= 1
            &&& rows.len() == p + k
            &&& p == 1 ==> rows[0].candidate_index is None && !rows[0].highlighted
            &&& forall|i: int|
                0 <= i < k ==> (#[trigger] rows[p + i]).candidate_index == Some(i)
                    && rows[p + i].highlighted == (snap.highlighted == Some(
                    snap.candidates@[i].id,
                ))
            &&& forall|j: int| 0 <= j < rows.len() ==> (#[trigger] rows[j]).bottom - rows[j].top == line_height
            &&& content_height(snap, line_height, cfg) >= line_height
        }),
{
    let rows = rows_of(snap, line_height, char_width, cfg);
    let pre = preedit_rows(snap, line_height, char_width, cfg);
    let cands = Seq::new(
        page_count(snap, cfg) as nat,
        |i: int| candidate_row(snap, line_height, char_width, cfg, i),
    );
    assert(rows == pre + cands);
    assert forall|i: int| 0 <= i < cands.len() implies (#[trigger] rows[pre.len() + i]) == cands[i] by {}
    assert forall|j: int| 0 <= j < rows.len() implies (#[trigger] rows[j]).bottom - rows[j].top == line_height by {
        if j < pre.len() {
            assert(rows[j] == pre[j]);
        } else {
            assert(rows[j] == cands[j - pre.len()]);
        }
    }
}

} // verus!
