//! The candidate window's decisions: font metrics and window size from the
//! style, where the window goes, when its font must be rebuilt, which row
//! the pointer is over, what a hover or a click highlights or selects.

use crate::candidate_rows::{build_rows, content_height, content_width, row_is, rows_fit, rows_of, RowRender};
use crate::layout::in_i32;
use crate::model::{Candidate, CandidateSnapshot};
use crate::colors::{parse_hex, parse_hex_spec};
use crate::ui_config::{AntialiasMode, ColorScheme, LayoutConfig, StyleConfig};
use vstd::prelude::*;

verus! {

/// The character width the rows are laid out with: the font size, at least 1.
pub open spec fn char_width_of(style: StyleConfig) -> int {
    if style.font_point < 1 {
        1
    } else {
        style.font_point as int
    }
}

/// The line height: the font size and the vertical highlight padding on
/// both sides, at least 1.
pub open spec fn line_height_of(style: StyleConfig) -> int {
    let pad = if style.layout.hilite_padding_y < 0 {
        0
    } else {
        style.layout.hilite_padding_y as int
    };
    let h = style.font_point + pad * 2;
    if h < 1 {
        1
    } else {
        h
    }
}

pub open spec fn metrics_fit(style: StyleConfig) -> bool {
    let pad = if style.layout.hilite_padding_y < 0 {
        0
    } else {
        style.layout.hilite_padding_y as int
    };
    in_i32(pad * 2) && in_i32(style.font_point + pad * 2)
}

/// The line height and character width for a style.
pub fn render_metrics(style: &StyleConfig) -> (m: (i32, i32))
    requires
        metrics_fit(*style),
    ensures
        m.0 == line_height_of(*style),
        m.1 == char_width_of(*style),
{
    let char_width = if style.font_point < 1 {
        1
    } else {
        style.font_point
    };
    let pad = if style.layout.hilite_padding_y < 0 {
        0
    } else {
        style.layout.hilite_padding_y
    };
    let h = style.font_point + pad * 2;
    let line_height = if h < 1 {
        1
    } else {
        h
    };
    (line_height, char_width)
}

/// The window's width: the content width, at least the minimum width and
/// 1, at most a positive maximum width.
pub open spec fn window_width_of(content_width: int, layout: LayoutConfig) -> int {
    let w = if content_width < layout.min_width {
        layout.min_width as int
    } else {
        content_width
    };
    let w = if w < 1 {
        1
    } else {
        w
    };
    if layout.max_width > 0 && layout.max_width < w {
        layout.max_width as int
    } else {
        w
    }
}

/// The window's size for the content size.
pub fn window_size(content_width: i32, content_height: i32, layout: &LayoutConfig) -> (s: (i32, i32))
    ensures
        s.0 == window_width_of(content_width as int, *layout),
        s.1 == (if content_height < 1 {
            1
        } else {
            content_height as int
        }),
{
    let mut width = if content_width < layout.min_width {
        layout.min_width
    } else {
        content_width
    };
    if width < 1 {
        width = 1;
    }
    if layout.max_width > 0 && layout.max_width < width {
        width = layout.max_width;
    }
    let height = if content_height < 1 {
        1
    } else {
        content_height
    };
    (width, height)
}

/// Where the window goes: below the composition's left and bottom, moved by
/// the caret offsets; at the offsets themselves when the position is unknown.
pub fn window_origin(caret: Option<(i32, i32)>, layout: &LayoutConfig) -> (p: (i32, i32))
    requires
        caret matches Some((left, bottom)) ==> in_i32(left + layout.caret_offset_x) && in_i32(
            bottom + layout.caret_offset_y,
        ),
    ensures
        match caret {
            Some((left, bottom)) => p == (
                (left + layout.caret_offset_x) as i32,
                (bottom + layout.caret_offset_y) as i32,
            ),
            None => p == (layout.caret_offset_x, layout.caret_offset_y),
        },
{
    match caret {
        Some((left, bottom)) => (left + layout.caret_offset_x, bottom + layout.caret_offset_y),
        None => (layout.caret_offset_x, layout.caret_offset_y),
    }
}

/// Whether the window's font must be rebuilt for a new style: its size,
/// face or antialiasing changed.
pub fn font_changed(current: &StyleConfig, fresh: &StyleConfig) -> (b: bool)
    ensures
        b == (current.font_point != fresh.font_point || current.font_face@ != fresh.font_face@
            || current.antialias_mode != fresh.antialias_mode),
{
    current.font_point != fresh.font_point || !(current.font_face == fresh.font_face)
        || current.antialias_mode != fresh.antialias_mode
}

/// The GDI font quality for an antialiasing mode.
#[derive(Clone, Copy, Debug, PartialEq, Eq, Structural)]
pub enum FontQuality {
    Default,
    ClearType,
    Antialiased,
    NonAntialiased,
}

pub fn font_quality(mode: AntialiasMode) -> (q: FontQuality)
    ensures
        q == match mode {
            AntialiasMode::Default => FontQuality::Default,
            AntialiasMode::ForceDword | AntialiasMode::Cleartype => FontQuality::ClearType,
            AntialiasMode::Grayscale => FontQuality::Antialiased,
            AntialiasMode::Aliased => FontQuality::NonAntialiased,
        },
{
    match mode {
        AntialiasMode::Default => FontQuality::Default,
        AntialiasMode::ForceDword | AntialiasMode::Cleartype => FontQuality::ClearType,
        AntialiasMode::Grayscale => FontQuality::Antialiased,
        AntialiasMode::Aliased => FontQuality::NonAntialiased,
    }
}

/// Whether the point lies in the row's rectangle (right and bottom edges
/// excluded).
pub open spec fn row_hit(r: RowRender, x: i32, y: i32) -> bool {
    x >= r.bounds.left && x < r.bounds.right && y >= r.bounds.top && y < r.bounds.bottom
}

/// The candidate position of the first candidate row, from `i` on, under the
/// point.
pub open spec fn first_hit(rows: Seq<RowRender>, x: i32, y: i32, i: int) -> Option<usize>
    decreases rows.len() - i,
{
    if i < 0 || i >= rows.len() {
        None
    } else if row_hit(rows[i], x, y) && rows[i].candidate_index is Some {
        rows[i].candidate_index
    } else {
        first_hit(rows, x, y, i + 1)
    }
}

/// The candidate position under the point, if any.
pub fn hit_candidate(rows: &Vec<RowRender>, x: i32, y: i32) -> (r: Option<usize>)
    ensures
        r == first_hit(rows@, x, y, 0),
{
    let mut i: usize = 0;
    while i < rows.len()
        invariant
            i <= rows@.len(),
            first_hit(rows@, x, y, 0) == first_hit(rows@, x, y, i as int),
        decreases rows@.len() - i,
    {
        let r = &rows[i];
        if x >= r.bounds.left && x < r.bounds.right && y >= r.bounds.top && y < r.bounds.bottom
            && r.candidate_index.is_some() {
            return r.candidate_index;
        }
        i = i + 1;
    }
    None
}

/// The id of the candidate at a position, if there is one.
pub open spec fn id_at(cands: Seq<Candidate>, index: Option<usize>) -> Option<u64> {
    match index {
        Some(i) => if i < cands.len() {
            Some(cands[i as int].id)
        } else {
            None
        },
        None => None,
    }
}

/// Whether a row shows as highlighted when `highlighted` is the candidate
/// id to highlight.
pub open spec fn shows_highlight(r: RowRender, cands: Seq<Candidate>, highlighted: Option<u64>) -> bool {
    match id_at(cands, r.candidate_index) {
        Some(id) => highlighted == Some(id),
        None => false,
    }
}

fn candidate_id(cands: &Vec<Candidate>, index: Option<usize>) -> (r: Option<u64>)
    ensures
        r == id_at(cands@, index),
{
    match index {
        Some(i) => if i < cands.len() {
            Some(cands[i].id)
        } else {
            None
        },
        None => None,
    }
}

/// Highlight exactly the rows of the candidate `highlighted`; say whether
/// any row changed.
pub fn set_highlight(rows: &mut Vec<RowRender>, snapshot: &CandidateSnapshot, highlighted: Option<u64>) -> (changed: bool)
    ensures
        final(rows)@.len() == old(rows)@.len(),
        forall|i: int|
            0 <= i < old(rows)@.len() ==> #[trigger] final(rows)@[i] == (RowRender {
                highlighted: shows_highlight(old(rows)@[i], snapshot.candidates@, highlighted),
                ..old(rows)@[i]
            }),
        changed == exists|i: int|
            0 <= i < old(rows)@.len() && #[trigger] old(rows)@[i].highlighted != shows_highlight(
                old(rows)@[i],
                snapshot.candidates@,
                highlighted,
            ),
{
    let ghost before_rows = rows@;
    let mut changed = false;
    let mut i: usize = 0;
    while i < rows.len()
        invariant
            i <= rows@.len(),
            rows@.len() == before_rows.len(),
            forall|j: int|
                0 <= j < i ==> #[trigger] rows@[j] == (RowRender {
                    highlighted: shows_highlight(before_rows[j], snapshot.candidates@, highlighted),
                    ..before_rows[j]
                }),
            forall|j: int| i <= j < rows@.len() ==> #[trigger] rows@[j] == before_rows[j],
            changed == exists|j: int|
                0 <= j < i && #[trigger] before_rows[j].highlighted != shows_highlight(
                    before_rows[j],
                    snapshot.candidates@,
                    highlighted,
                ),
        decreases before_rows.len() - i,
    {
        let mut row = rows.remove(i);
        let id = candidate_id(&snapshot.candidates, row.candidate_index);
        let now = match id {
            Some(id) => match highlighted {
                Some(h) => h == id,
                None => false,
            },
            None => false,
        };
        if row.highlighted != now {
            changed = true;
        }
        let ghost before = row;
        row.highlighted = now;
        rows.insert(i, row);
        proof {
            assert(before == before_rows[i as int]);
            assert forall|j: int| 0 <= j < i + 1 implies #[trigger] rows@[j] == (RowRender {
                highlighted: shows_highlight(before_rows[j], snapshot.candidates@, highlighted),
                ..before_rows[j]
            }) by {}
            if changed {
                if before.highlighted != now {
                    assert(before_rows[i as int].highlighted != shows_highlight(
                        before_rows[i as int],
                        snapshot.candidates@,
                        highlighted,
                    ));
                }
            }
        }
        i = i + 1;
    }
    changed
}

/// The pointer moved to `(x, y)`: highlight the candidate under it (none
/// when over no candidate); say whether the window must be repainted.
pub fn hover(rows: &mut Vec<RowRender>, snapshot: &CandidateSnapshot, x: i32, y: i32) -> (changed: bool)
    ensures
        final(rows)@.len() == old(rows)@.len(),
        forall|i: int|
            0 <= i < old(rows)@.len() ==> #[trigger] final(rows)@[i] == (RowRender {
                highlighted: shows_highlight(
                    old(rows)@[i],
                    snapshot.candidates@,
                    id_at(snapshot.candidates@, first_hit(old(rows)@, x, y, 0)),
                ),
                ..old(rows)@[i]
            }),
        changed == exists|i: int|
            0 <= i < old(rows)@.len() && #[trigger] old(rows)@[i].highlighted != shows_highlight(
                old(rows)@[i],
                snapshot.candidates@,
                id_at(snapshot.candidates@, first_hit(old(rows)@, x, y, 0)),
            ),
{
    let index = hit_candidate(rows, x, y);
    let highlighted = candidate_id(&snapshot.candidates, index);
    set_highlight(rows, snapshot, highlighted)
}

/// The pointer left the window: the engine's own highlight comes back.
pub fn leave(rows: &mut Vec<RowRender>, snapshot: &CandidateSnapshot)
    ensures
        final(rows)@.len() == old(rows)@.len(),
        forall|i: int|
            0 <= i < old(rows)@.len() ==> #[trigger] final(rows)@[i] == (RowRender {
                highlighted: shows_highlight(old(rows)@[i], snapshot.candidates@, snapshot.highlighted),
                ..old(rows)@[i]
            }),
{
    set_highlight(rows, snapshot, snapshot.highlighted);
}

/// The selection a click sends to the engine.
#[derive(Clone, Copy, Debug, PartialEq, Eq, Structural)]
pub struct CandidateSelection {
    pub epoch: u64,
    pub snapshot_revision: u64,
    pub candidate_id: u64,
}

/// A click at `(x, y)` selects the candidate under it, if any.
pub fn click(rows: &Vec<RowRender>, snapshot: &CandidateSnapshot, x: i32, y: i32) -> (s: Option<CandidateSelection>)
    ensures
        match id_at(snapshot.candidates@, first_hit(rows@, x, y, 0)) {
            Some(id) => s == Some(
                CandidateSelection { epoch: snapshot.epoch, snapshot_revision: snapshot.revision, candidate_id: id },
            ),
            None => s is None,
        },
{
    let index = hit_candidate(rows, x, y);
    match candidate_id(&snapshot.candidates, index) {
        Some(id) => Some(
            CandidateSelection { epoch: snapshot.epoch, snapshot_revision: snapshot.revision, candidate_id: id },
        ),
        None => None,
    }
}

/// A `#RRGGBB` colour as a `COLORREF`, or `fallback` when it does not parse.
pub open spec fn color_or(value: Seq<char>, fallback: u32) -> u32 {
    match parse_hex_spec(value) {
        Some(c) => c,
        None => fallback,
    }
}

fn parse_or(value: &str, fallback: u32) -> (c: u32)
    ensures
        c == color_or(value@, fallback),
{
    match parse_hex(value) {
        Some(c) => c,
        None => fallback,
    }
}

/// The colours the rows are painted with.
#[derive(Clone, Copy, Debug, PartialEq, Eq, Structural)]
pub struct PaintColors {
    pub text: u32,
    pub selected_text: u32,
    pub selected_back: u32,
}

/// The row colours of a scheme: its candidate text colour (the system's
/// text colour when it does not parse), its highlighted text colour (else
/// the plain text colour) and its highlighted background (else the
/// system's text colour).
pub fn paint_colors(scheme: &ColorScheme, system_text: u32) -> (c: PaintColors)
    ensures
        c.text == color_or(scheme.candidate_text_color@, system_text),
        c.selected_text == color_or(scheme.hilited_candidate_text_color@, c.text),
        c.selected_back == color_or(scheme.hilited_candidate_back_color@, system_text),
{
    let text = parse_or(scheme.candidate_text_color.as_str(), system_text);
    PaintColors {
        text,
        selected_text: parse_or(scheme.hilited_candidate_text_color.as_str(), text),
        selected_back: parse_or(scheme.hilited_candidate_back_color.as_str(), system_text),
    }
}

/// How the window's surface is drawn.
#[derive(Clone, Copy, Debug, PartialEq, Eq)]
pub struct Surface {
    pub corner_radius: i32,
    pub background: u32,
    /// The border's width and colour, when it has one.
    pub border: Option<(i32, u32)>,
}

/// The surface for a layout and scheme: the corner radius (not negative),
/// the scheme's background (else the system's window colour), and a border
/// of the layout's width in the scheme's border colour (else the system's
/// text colour) when that width is positive.
pub fn surface(layout: &LayoutConfig, scheme: &ColorScheme, system_window: u32, system_text: u32) -> (s: Surface)
    ensures
        s.corner_radius == (if layout.corner_radius < 0 {
            0
        } else {
            layout.corner_radius
        }),
        s.background == color_or(scheme.back_color@, system_window),
        layout.border_width > 0 ==> s.border == Some(
            (layout.border_width, color_or(scheme.border_color@, system_text)),
        ),
        layout.border_width <= 0 ==> s.border is None,
{
    let corner_radius = if layout.corner_radius < 0 {
        0
    } else {
        layout.corner_radius
    };
    let border = if layout.border_width > 0 {
        Some((layout.border_width, parse_or(scheme.border_color.as_str(), system_text)))
    } else {
        None
    };
    Surface { corner_radius, background: parse_or(scheme.back_color.as_str(), system_window), border }
}

/// The window as a snapshot leaves it shown: its rows and its size.
pub struct ShownWindow {
    pub rows: Vec<RowRender>,
    pub width: i32,
    pub height: i32,
}

/// What a new candidate snapshot does to the window.
pub struct SnapshotPlan {
    /// The window's font must be rebuilt for the fresh style.
    pub rebuild_font: bool,
    /// Whether the text service now has a composition.
    pub has_composition: bool,
    /// The rows and size to show; `None` hides the window.
    pub shown: Option<ShownWindow>,
}

/// The decisions taken when a snapshot reaches the window, with the style
/// in use and the freshly loaded one: rebuild the font when it changed,
/// lay out the rows with the fresh style's metrics, record whether there
/// is a composition, and hide the window when the preedit is empty.
pub fn plan_snapshot(current: &StyleConfig, fresh: &StyleConfig, snapshot: &CandidateSnapshot) -> (p: SnapshotPlan)
    requires
        metrics_fit(*fresh),
        rows_fit(*snapshot, line_height_of(*fresh), char_width_of(*fresh), *fresh),
    ensures
        p.rebuild_font == (current.font_point != fresh.font_point || current.font_face@
            != fresh.font_face@ || current.antialias_mode != fresh.antialias_mode),
        p.has_composition == (snapshot.preedit@.len() > 0),
        (p.shown is None) == (snapshot.preedit@.len() == 0),
        p.shown matches Some(w) ==> {
            let lh = line_height_of(*fresh);
            let cw = char_width_of(*fresh);
            &&& w.rows@.len() == rows_of(*snapshot, lh, cw, *fresh).len()
            &&& forall|i: int|
                0 <= i < w.rows@.len() ==> row_is(
                    #[trigger] w.rows@[i],
                    rows_of(*snapshot, lh, cw, *fresh)[i],
                )
            &&& w.width == window_width_of(content_width(*snapshot, lh, cw, *fresh), fresh.layout)
            &&& w.height == (if content_height(*snapshot, lh, *fresh) < 1 {
                1
            } else {
                content_height(*snapshot, lh, *fresh)
            })
        },
{
    let rebuild_font = font_changed(current, fresh);
    let (line_height, char_width) = render_metrics(fresh);
    let (rows, cw, ch) = build_rows(snapshot, line_height, char_width, fresh);
    let (width, height) = window_size(cw, ch, &fresh.layout);
    let has_composition = !snapshot.preedit.as_str().is_empty();
    let shown = if has_composition {
        Some(ShownWindow { rows, width, height })
    } else {
        None
    };
    SnapshotPlan { rebuild_font, has_composition, shown }
}

} // verus!
