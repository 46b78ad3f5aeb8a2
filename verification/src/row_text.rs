//! The texts of the candidate window's rows: the preedit line (composition,
//! preview of the highlighted candidate, or the whole page) and each
//! candidate's line (mark, label, abbreviated text, annotation).

use crate::model::{Candidate, CandidateSnapshot};
use crate::ui_config::{PreeditType, StyleConfig};
use vstd::prelude::*;

verus! {

/// The decimal digit `d` (`0 <= d < 10`).
pub open spec fn digit_char(d: nat) -> char {
    if d == 0 {
        '0'
    } else if d == 1 {
        '1'
    } else if d == 2 {
        '2'
    } else if d == 3 {
        '3'
    } else if d == 4 {
        '4'
    } else if d == 5 {
        '5'
    } else if d == 6 {
        '6'
    } else if d == 7 {
        '7'
    } else if d == 8 {
        '8'
    } else {
        '9'
    }
}

/// `n` written in decimal, without leading zeros.
pub open spec fn decimal(n: nat) -> Seq<char>
    decreases n,
{
    if n < 10 {
        seq![digit_char(n)]
    } else {
        decimal(n / 10).push(digit_char(n % 10))
    }
}

fn digit(d: usize) -> (c: char)
    requires
        d < 10,
    ensures
        c == digit_char(d as nat),
{
    match d {
        0 => '0',
        1 => '1',
        2 => '2',
        3 => '3',
        4 => '4',
        5 => '5',
        6 => '6',
        7 => '7',
        8 => '8',
        _ => '9',
    }
}

/// Append `n` in decimal to `out`.
pub fn push_decimal(n: usize, out: &mut Vec<char>)
    ensures
        final(out)@ == old(out)@ + decimal(n as nat),
    decreases n,
{
    if n >= 10 {
        push_decimal(n / 10, out);
    }
    out.push(digit(n % 10));
}

/// `s` from position `i` on, with each `%s` (left to right, without
/// overlap) replaced by `rep`.
pub open spec fn replaced_from(s: Seq<char>, rep: Seq<char>, i: int) -> Seq<char>
    decreases s.len() - i,
{
    if i < 0 || i >= s.len() {
        Seq::empty()
    } else if i + 1 < s.len() && s[i] == '%' && s[i + 1] == 's' {
        rep + replaced_from(s, rep, i + 2)
    } else {
        seq![s[i]] + replaced_from(s, rep, i + 1)
    }
}

/// Replace every `%s` of `s` by `rep`, as `str::replace` does.
pub fn replace_placeholder(s: &Vec<char>, rep: &Vec<char>) -> (r: Vec<char>)
    ensures
        r@ == replaced_from(s@, rep@, 0),
{
    let mut out: Vec<char> = Vec::new();
    let mut i: usize = 0;
    while i < s.len()
        invariant
            i <= s@.len(),
            out@ + replaced_from(s@, rep@, i as int) == replaced_from(s@, rep@, 0),
        decreases s@.len() - i,
    {
        if i + 1 < s.len() && s[i] == '%' && s[i + 1] == 's' {
            let ghost before = out@;
            let mut j: usize = 0;
            while j < rep.len()
                invariant
                    j <= rep@.len(),
                    out@ == before + rep@.subrange(0, j as int),
                decreases rep@.len() - j,
            {
                out.push(rep[j]);
                j = j + 1;
            }
            assert(rep@.subrange(0, rep@.len() as int) == rep@);
            assert(out@ + replaced_from(s@, rep@, i + 2) == before + replaced_from(s@, rep@, i as int));
            i = i + 2;
        } else {
            let ghost before = out@;
            out.push(s[i]);
            assert(out@ + replaced_from(s@, rep@, i + 1) == before + replaced_from(s@, rep@, i as int));
            i = i + 1;
        }
    }
    assert(out@ + replaced_from(s@, rep@, i as int) == out@);
    out
}

/// A text cut to `n` characters and an ellipsis when it is longer than a
/// positive `n`.
pub open spec fn abbreviated(t: Seq<char>, n: int) -> Seq<char> {
    if n > 0 && t.len() > n {
        t.take(n).push('…')
    } else {
        t
    }
}

/// The label of the candidate at position `index` of the page: 1 to 9, and
/// 0 for the tenth.
pub open spec fn label_number(index: int) -> int {
    if index == 9 {
        0
    } else {
        index + 1
    }
}

/// How many candidates a page shows.
pub open spec fn page_count(snap: CandidateSnapshot, cfg: StyleConfig) -> int {
    let size = if cfg.page_size < 1 {
        1
    } else {
        cfg.page_size as int
    };
    if snap.candidates@.len() < size {
        snap.candidates@.len() as int
    } else {
        size
    }
}

/// The position of the first candidate from `i` on with the id `id`.
pub open spec fn first_with_id(c: Seq<Candidate>, id: u64, i: int) -> Option<int>
    decreases c.len() - i,
{
    if i < 0 || i >= c.len() {
        None
    } else if c[i].id == id {
        Some(i)
    } else {
        first_with_id(c, id, i + 1)
    }
}

/// The texts of the first `k` candidates, separated by spaces.
pub open spec fn joined_texts(c: Seq<Candidate>, k: int) -> Seq<char>
    decreases k,
{
    if k <= 0 {
        Seq::empty()
    } else if k == 1 {
        c[0].text@
    } else {
        joined_texts(c, k - 1) + seq![' '] + c[k - 1].text@
    }
}

/// The text of the preedit line: nothing when the preedit is shown inline,
/// else the composition, the highlighted candidate's text (the composition
/// when none is highlighted), or the page's texts.
pub open spec fn preedit_text(snap: CandidateSnapshot, cfg: StyleConfig) -> Seq<char> {
    if cfg.inline_preedit {
        Seq::empty()
    } else {
        match cfg.preedit_type {
            PreeditType::Composition => snap.preedit@,
            PreeditType::Preview => match snap.highlighted {
                Some(id) => match first_with_id(snap.candidates@, id, 0) {
                    Some(i) => snap.candidates@[i].text@,
                    None => snap.preedit@,
                },
                None => snap.preedit@,
            },
            PreeditType::PreviewAll => joined_texts(snap.candidates@, page_count(snap, cfg)),
        }
    }
}

/// The mark before the highlighted candidate, with a space.
pub open spec fn mark_part(snap: CandidateSnapshot, cfg: StyleConfig, c: Candidate) -> Seq<char> {
    if snap.highlighted == Some(c.id) && cfg.mark_text@.len() > 0 {
        cfg.mark_text@.push(' ')
    } else {
        Seq::empty()
    }
}

/// The label of position `index`, with a space.
pub open spec fn label_part(cfg: StyleConfig, index: int) -> Seq<char> {
    if cfg.show_labels {
        replaced_from(cfg.label_format@, decimal(label_number(index) as nat), 0).push(' ')
    } else {
        Seq::empty()
    }
}

/// A space and the annotation, if there is one.
pub open spec fn annotation_part(c: Candidate) -> Seq<char> {
    match c.annotation {
        Some(a) => seq![' '] + a@,
        None => Seq::empty(),
    }
}

/// The line of the candidate at position `index`: the mark before the
/// highlighted one, the label, the (abbreviated) text and the annotation.
pub open spec fn candidate_text(snap: CandidateSnapshot, cfg: StyleConfig, index: int) -> Seq<char> {
    let c = snap.candidates@[index];
    mark_part(snap, cfg, c) + label_part(cfg, index) + abbreviated(c.text@, cfg.candidate_abbreviate_length as int)
        + annotation_part(c)
}

fn append_chars(out: &mut Vec<char>, v: &Vec<char>)
    ensures
        final(out)@ == old(out)@ + v@,
{
    let mut i: usize = 0;
    while i < v.len()
        invariant
            i <= v@.len(),
            out@ == old(out)@ + v@.subrange(0, i as int),
        decreases v@.len() - i,
    {
        out.push(v[i]);
        i = i + 1;
    }
    assert(v@.subrange(0, v@.len() as int) == v@);
}

fn push_all(out: &mut Vec<char>, s: &str)
    ensures
        final(out)@ == old(out)@ + s@,
{
    let v = crate::text::chars_of(s);
    let mut i: usize = 0;
    while i < v.len()
        invariant
            i <= v@.len(),
            v@ == s@,
            out@ == old(out)@ + v@.subrange(0, i as int),
        decreases v@.len() - i,
    {
        out.push(v[i]);
        i = i + 1;
    }
    assert(v@.subrange(0, v@.len() as int) == v@);
}

pub(crate) fn page_len(snap: &CandidateSnapshot, cfg: &StyleConfig) -> (k: usize)
    ensures
        k == page_count(*snap, *cfg),
{
    let size = if cfg.page_size < 1 {
        1
    } else {
        cfg.page_size
    };
    if snap.candidates.len() < size {
        snap.candidates.len()
    } else {
        size
    }
}

/// The position of the first candidate with the id `id`.
fn find_candidate(c: &Vec<Candidate>, id: u64) -> (r: Option<usize>)
    ensures
        match r {
            Some(i) => i < c@.len() && first_with_id(c@, id, 0) == Some(i as int),
            None => first_with_id(c@, id, 0) is None,
        },
{
    let mut i: usize = 0;
    while i < c.len()
        invariant
            i <= c@.len(),
            first_with_id(c@, id, 0) == first_with_id(c@, id, i as int),
        decreases c@.len() - i,
    {
        if c[i].id == id {
            return Some(i);
        }
        i = i + 1;
    }
    None
}

/// The text of the preedit line.
pub fn preedit_line(snap: &CandidateSnapshot, cfg: &StyleConfig) -> (t: Vec<char>)
    ensures
        t@ == preedit_text(*snap, *cfg),
{
    let mut out: Vec<char> = Vec::new();
    if cfg.inline_preedit {
        return out;
    }
    match cfg.preedit_type {
        PreeditType::Composition => {
            push_all(&mut out, snap.preedit.as_str());
        },
        PreeditType::Preview => {
            let found = match snap.highlighted {
                Some(id) => find_candidate(&snap.candidates, id),
                None => None,
            };
            match found {
                Some(j) => push_all(&mut out, snap.candidates[j].text.as_str()),
                None => push_all(&mut out, snap.preedit.as_str()),
            }
        },
        PreeditType::PreviewAll => {
            let k = page_len(snap, cfg);
            let mut i: usize = 0;
            while i < k
                invariant
                    k == page_count(*snap, *cfg),
                    k <= snap.candidates@.len(),
                    i <= k,
                    out@ == joined_texts(snap.candidates@, i as int),
                decreases k - i,
            {
                if i > 0 {
                    out.push(' ');
                }
                push_all(&mut out, snap.candidates[i].text.as_str());
                i = i + 1;
            }
        },
    }
    out
}

fn mark_chars(snap: &CandidateSnapshot, cfg: &StyleConfig, c: &Candidate) -> (t: Vec<char>)
    ensures
        t@ == mark_part(*snap, *cfg, *c),
{
    let mut out: Vec<char> = Vec::new();
    let marked = match snap.highlighted {
        Some(id) => id == c.id,
        None => false,
    };
    if marked && !cfg.mark_text.as_str().is_empty() {
        push_all(&mut out, cfg.mark_text.as_str());
        out.push(' ');
    }
    out
}

fn label_chars(cfg: &StyleConfig, index: usize) -> (t: Vec<char>)
    requires
        index < usize::MAX,
    ensures
        t@ == label_part(*cfg, index as int),
{
    if !cfg.show_labels {
        return Vec::new();
    }
    let number = if index == 9 {
        0
    } else {
        index + 1
    };
    let mut digits: Vec<char> = Vec::new();
    push_decimal(number, &mut digits);
    let format = crate::text::chars_of(cfg.label_format.as_str());
    let mut label = replace_placeholder(&format, &digits);
    label.push(' ');
    label
}

fn abbreviated_chars(text: &str, limit: usize) -> (t: Vec<char>)
    ensures
        t@ == abbreviated(text@, limit as int),
{
    let chars = crate::text::chars_of(text);
    if limit > 0 && chars.len() > limit {
        let mut out: Vec<char> = Vec::new();
        let mut j: usize = 0;
        while j < limit
            invariant
                limit < chars@.len(),
                j <= limit,
                out@ == chars@.subrange(0, j as int),
            decreases limit - j,
        {
            out.push(chars[j]);
            j = j + 1;
        }
        assert(chars@.take(limit as int) == chars@.subrange(0, limit as int));
        out.push('…');
        out
    } else {
        chars
    }
}

fn annotation_chars(c: &Candidate) -> (t: Vec<char>)
    ensures
        t@ == annotation_part(*c),
{
    let mut out: Vec<char> = Vec::new();
    match &c.annotation {
        Some(a) => {
            out.push(' ');
            push_all(&mut out, a.as_str());
        },
        None => {},
    }
    out
}

/// The line of the candidate at position `index`.
pub fn candidate_line(snap: &CandidateSnapshot, cfg: &StyleConfig, index: usize) -> (t: Vec<char>)
    requires
        index < snap.candidates@.len(),
    ensures
        t@ == candidate_text(*snap, *cfg, index as int),
{
    let c = &snap.candidates[index];
    assert(index < snap.candidates.len());
    let mut out = mark_chars(snap, cfg, c);
    let label = label_chars(cfg, index);
    append_chars(&mut out, &label);
    let text = abbreviated_chars(c.text.as_str(), cfg.candidate_abbreviate_length);
    append_chars(&mut out, &text);
    let annotation = annotation_chars(c);
    append_chars(&mut out, &annotation);
    out
}

/// The mark is drawn before the highlighted candidate only: with a
/// non-empty mark text, the highlighted candidate's line is the mark, a
/// space, and the line it would have without a mark; every other
/// candidate's line, and every line when the mark text is empty, is the
/// line without a mark.
pub proof fn lemma_mark_only_on_highlighted(
    snap: CandidateSnapshot,
    cfg: StyleConfig,
    unmarked: StyleConfig,
    index: int,
)
    requires
        0 <= index < snap.candidates@.len(),
        unmarked == (StyleConfig { mark_text: unmarked.mark_text, ..cfg }),
        unmarked.mark_text@.len() == 0,
    ensures
        snap.highlighted == Some(snap.candidates@[index].id) && cfg.mark_text@.len() > 0
            ==> candidate_text(snap, cfg, index) == cfg.mark_text@.push(' ') + candidate_text(
            snap,
            unmarked,
            index,
        ),
        !(snap.highlighted == Some(snap.candidates@[index].id) && cfg.mark_text@.len() > 0)
            ==> candidate_text(snap, cfg, index) == candidate_text(snap, unmarked, index),
{
    let c = snap.candidates@[index];
    let rest = label_part(cfg, index) + abbreviated(c.text@, cfg.candidate_abbreviate_length as int)
        + annotation_part(c);
    assert(label_part(unmarked, index) == label_part(cfg, index));
    assert(candidate_text(snap, unmarked, index) =~= rest);
    if snap.highlighted == Some(c.id) && cfg.mark_text@.len() > 0 {
        assert(candidate_text(snap, cfg, index) =~= cfg.mark_text@.push(' ') + rest);
    } else {
        assert(candidate_text(snap, cfg, index) =~= rest);
    }
}

} // verus!
