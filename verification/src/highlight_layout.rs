//! What the code views draw, as plain values: tab expansion, which columns
//! of a line a match highlights, how a token splits around the highlight,
//! and the rows of the before/after comparison of a rewrite. Colours and
//! fonts are applied by the caller.
use vstd::prelude::*;
use vstd::string::StringSliceAdditionalSpecFns;
use crate::search::MatchItem;
use crate::text::{decimal, lines, lines_vec, push_char, push_str, string_views, usize_string};

verus! {

/// Columns per tab stop.
pub const TAB_WIDTH: usize = 4;

pub open spec fn spaces(n: nat) -> Seq<char> {
    Seq::new(n, |i: int| ' ')
}

/// `s` with each tab replaced by spaces up to the next tab stop, starting at
/// visual column `col`; also the column reached.
pub open spec fn tab_expand(s: Seq<char>, col: nat) -> (Seq<char>, nat)
    decreases s.len(),
{
    if s.len() == 0 {
        (Seq::empty(), col)
    } else {
        let (r, c) = tab_expand(s.drop_last(), col);
        if s.last() == '\t' {
            let sp = (TAB_WIDTH - c % (TAB_WIDTH as nat)) as nat;
            (r + spaces(sp), c + sp)
        } else {
            (r.push(s.last()), c + 1)
        }
    }
}

proof fn lemma_tab_expand_col(s: Seq<char>, col: nat)
    ensures
        tab_expand(s, col).1 <= col + 4 * s.len(),
    decreases s.len(),
{
    if s.len() > 0 {
        lemma_tab_expand_col(s.drop_last(), col);
    }
}

/// Expands the tabs of `text` from visual column `*visual_col`, which moves
/// to the column reached.
pub fn expand_tabs(text: &str, visual_col: &mut usize) -> (r: String)
    requires
        *old(visual_col) + 4 * text@.len() <= usize::MAX,
    ensures
        (r@, *final(visual_col) as nat) == tab_expand(text@, *old(visual_col) as nat),
{
    let v = crate::text::chars_of(text);
    let mut out = String::new();
    let ghost start = *visual_col as nat;
    let mut i: usize = 0;
    proof { reveal_strlit(""); }
    assert(v@.take(0) =~= Seq::<char>::empty());
    while i < v.len()
        invariant
            i <= v.len(),
            v@ == text@,
            start + 4 * v@.len() <= usize::MAX,
            (out@, *visual_col as nat) == tab_expand(v@.take(i as int), start),
            *visual_col <= start + 4 * i,
        decreases v.len() - i,
    {
        let ch = v[i];
        assert(v@.take(i + 1).drop_last() =~= v@.take(i as int));
        assert(v@.take(i + 1).last() == ch);
        if ch == '\t' {
            let spaces_n = TAB_WIDTH - (*visual_col % TAB_WIDTH);
            let ghost before = out@;
            let mut k: usize = 0;
            while k < spaces_n
                invariant
                    k <= spaces_n <= 4,
                    out@ == before + spaces(k as nat),
                decreases spaces_n - k,
            {
                push_char(&mut out, ' ');
                assert(out@ =~= before + spaces((k + 1) as nat));
                k = k + 1;
            }
            *visual_col = *visual_col + spaces_n;
        } else {
            push_char(&mut out, ch);
            *visual_col = *visual_col + 1;
        }
        i = i + 1;
    }
    assert(v@.take(v.len() as int) =~= v@);
    out
}

/// The columns a match highlights on line `line` (1-based): its own span on
/// a one-line match; from its start to the line's end on its first line; the
/// whole line in between; up to its end on its last line.
pub open spec fn line_range(line: usize, m: MatchItem) -> (usize, usize) {
    if m.line_start == m.line_end {
        (m.col_start, m.col_end)
    } else if line == m.line_start {
        (m.col_start, usize::MAX)
    } else if line == m.line_end {
        (0, m.col_end)
    } else {
        (0, usize::MAX)
    }
}

/// The columns highlighted on a line: those of the first match that spans it.
pub open spec fn col_highlight_spec(line: usize, ms: Seq<MatchItem>) -> Option<(usize, usize)>
    decreases ms.len(),
{
    if ms.len() == 0 {
        None
    } else if line < ms[0].line_start || line > ms[0].line_end {
        col_highlight_spec(line, ms.drop_first())
    } else {
        Some(line_range(line, ms[0]))
    }
}

pub fn col_highlight_for_line(line_number: usize, matches: &[MatchItem]) -> (r: Option<(usize, usize)>)
    ensures
        r == col_highlight_spec(line_number, matches@),
{
    let mut i: usize = 0;
    assert(matches@.skip(0) =~= matches@);
    while i < matches.len()
        invariant
            i <= matches.len(),
            col_highlight_spec(line_number, matches@) == col_highlight_spec(line_number, matches@.skip(i as int)),
        decreases matches.len() - i,
    {
        let m = &matches[i];
        assert(matches@.skip(i as int)[0] == matches@[i as int]);
        assert(matches@.skip(i as int).drop_first() =~= matches@.skip(i + 1));
        if line_number < m.line_start || line_number > m.line_end {
            i = i + 1;
            continue;
        }
        let range = if m.line_start == m.line_end {
            (m.col_start, m.col_end)
        } else if line_number == m.line_start {
            (m.col_start, usize::MAX)
        } else if line_number == m.line_end {
            (0, m.col_end)
        } else {
            (0, usize::MAX)
        };
        return Some(range);
    }
    None
}

/// `n` right-aligned in `width` columns.
pub open spec fn right_aligned(n: nat, width: nat) -> Seq<char> {
    let d = decimal(n);
    if d.len() >= width { d } else { spaces((width - d.len()) as nat) + d }
}

fn right_aligned_string(n: usize, width: usize) -> (r: String)
    ensures
        r@ == right_aligned(n as nat, width as nat),
{
    let d = usize_string(n);
    let dv = crate::text::chars_of(d.as_str());
    if dv.len() >= width {
        return d;
    }
    let mut s = String::new();
    proof { reveal_strlit(""); }
    let pad = width - dv.len();
    let mut k: usize = 0;
    while k < pad
        invariant
            k <= pad,
            s@ == spaces(k as nat),
        decreases pad - k,
    {
        push_char(&mut s, ' ');
        assert(s@ =~= spaces((k + 1) as nat));
        k = k + 1;
    }
    push_str(&mut s, d.as_str());
    s
}

/// The line-number gutter of the code view: the number in four columns, a
/// bar and a space.
pub open spec fn line_number_label_spec(n: nat) -> Seq<char> {
    right_aligned(n, 4) + "│ "@
}

pub fn line_number_label(line_number: usize) -> (r: String)
    ensures
        r@ == line_number_label_spec(line_number as nat),
{
    let mut s = right_aligned_string(line_number, 4);
    push_str(&mut s, "│ ");
    s
}

/// One row of the before/after comparison of a rewrite.
#[derive(Debug)]
pub struct CompareRow {
    /// The 1-based row number, right-aligned, a bar and a space.
    pub gutter: String,
    /// The line before the rewrite (empty past its end).
    pub old_text: String,
    /// The line after the rewrite (empty past its end).
    pub new_text: String,
    /// Whether the two differ (a line on one side only counts as changed).
    pub changed: bool,
}

pub open spec fn line_at(ls: Seq<Seq<char>>, i: int) -> Option<Seq<char>> {
    if 0 <= i < ls.len() { Some(ls[i]) } else { None }
}

/// The width of the gutter: the digits of the row count, at least three.
pub open spec fn gutter_width(rows: nat) -> nat {
    if decimal(rows).len() > 3 { decimal(rows).len() } else { 3 }
}

/// Row `i` of the comparison of the lines `old` and `new`.
pub open spec fn compare_row_spec(old: Seq<Seq<char>>, new: Seq<Seq<char>>, i: int)
    -> (Seq<char>, Seq<char>, Seq<char>, bool) {
    let rows = if old.len() > new.len() { old.len() } else { new.len() };
    let o = line_at(old, i);
    let n = line_at(new, i);
    let changed = match (o, n) {
        (Some(a), Some(b)) => a != b,
        (None, None) => false,
        _ => true,
    };
    (
        right_aligned((i + 1) as nat, gutter_width(rows)) + " │ "@,
        match o { Some(a) => a, None => Seq::empty() },
        match n { Some(b) => b, None => Seq::empty() },
        changed,
    )
}

pub open spec fn compare_view(r: CompareRow) -> (Seq<char>, Seq<char>, Seq<char>, bool) {
    (r.gutter@, r.old_text@, r.new_text@, r.changed)
}

fn same_chars(a: &str, b: &str) -> (r: bool)
    ensures
        r == (a@ == b@),
{
    let av = crate::text::chars_of(a);
    crate::lang::str_eq(av.as_slice(), b)
}

/// The rows comparing a source before and after a rewrite, line by line.
pub fn compare_rows(old_source: &str, new_source: &str) -> (r: Vec<CompareRow>)
    ensures
        r@.len() == (if lines(old_source@).len() > lines(new_source@).len() { lines(old_source@).len() } else { lines(new_source@).len() }),
        forall|i: int| 0 <= i < r@.len() ==> compare_view(#[trigger] r@[i]) == compare_row_spec(lines(old_source@), lines(new_source@), i),
{
    let old_lines = lines_vec(old_source);
    let new_lines = lines_vec(new_source);
    let ghost ov = string_views(old_lines@);
    let ghost nv = string_views(new_lines@);
    let max_lines = if old_lines.len() > new_lines.len() { old_lines.len() } else { new_lines.len() };
    let digits = usize_string(max_lines);
    let dn = crate::text::chars_of(digits.as_str()).len();
    let width: usize = if dn > 3 { dn } else { 3 };
    assert(width == gutter_width(max_lines as nat));
    let mut out: Vec<CompareRow> = Vec::new();
    let mut i: usize = 0;
    while i < max_lines
        invariant
            i <= max_lines,
            ov == lines(old_source@),
            nv == lines(new_source@),
            ov == string_views(old_lines@),
            nv == string_views(new_lines@),
            ov.len() == old_lines@.len(),
            nv.len() == new_lines@.len(),
            max_lines == (if ov.len() > nv.len() { ov.len() } else { nv.len() }),
            width == gutter_width(max_lines as nat),
            out@.len() == i,
            forall|k: int| 0 <= k < i ==> compare_view(#[trigger] out@[k]) == compare_row_spec(ov, nv, k),
        decreases max_lines - i,
    {
        proof { reveal_strlit(""); }
        let mut gutter = right_aligned_string(i + 1, width);
        push_str(&mut gutter, " │ ");
        let has_old = i < old_lines.len();
        let has_new = i < new_lines.len();
        let old_text = if has_old { old_lines[i].clone() } else { String::new() };
        let new_text = if has_new { new_lines[i].clone() } else { String::new() };
        let changed = if has_old && has_new {
            !same_chars(old_lines[i].as_str(), new_lines[i].as_str())
        } else {
            has_old || has_new
        };
        assert(has_old ==> ov[i as int] == old_lines@[i as int]@);
        assert(has_new ==> nv[i as int] == new_lines@[i as int]@);
        assert(old_text@ == (match line_at(ov, i as int) { Some(a) => a, None => Seq::<char>::empty() }));
        assert(new_text@ == (match line_at(nv, i as int) { Some(a) => a, None => Seq::<char>::empty() }));
        assert(gutter@ == right_aligned((i + 1) as nat, gutter_width(max_lines as nat)) + " │ "@);
        let row = CompareRow { gutter, old_text, new_text, changed };
        assert(compare_view(row) == compare_row_spec(ov, nv, i as int));
        out.push(row);
        i = i + 1;
    }
    out
}

// ───────────────────────── match lines ─────────────────────────

/// How a piece of a code line is drawn.
#[derive(Debug, Clone, Copy, PartialEq, Eq, Structural)]
pub enum SegmentKind {
    /// A line without a match.
    Normal,
    /// A matched line, outside the highlighted columns (faint background).
    MatchLine,
    /// The highlighted columns of a matched line.
    MatchText,
}

/// `str::get(a..e)` on the bytes of a text: the bytes between two character
/// boundaries.
pub open spec fn get_bytes(b: Seq<u8>, a: int, e: int) -> Option<Seq<u8>> {
    if 0 <= a <= e <= b.len() && vstd::utf8::is_char_boundary(b, a) && vstd::utf8::is_char_boundary(b, e) {
        Some(b.subrange(a, e))
    } else {
        None
    }
}

/// `str::get(a..e)`: the part of `text` between two character boundaries.
pub fn str_get_pub<'a>(text: &'a str, a: usize, e: usize) -> (r: Option<&'a str>)
    requires
        text.spec_bytes().len() <= usize::MAX,
    ensures
        match r {
            Some(x) => get_bytes(text.spec_bytes(), a as int, e as int) == Some(x.spec_bytes()),
            None => get_bytes(text.spec_bytes(), a as int, e as int) is None,
        },
{
    str_get(text, a, e)
}

fn str_get<'a>(text: &'a str, a: usize, e: usize) -> (r: Option<&'a str>)
    requires
        text.spec_bytes().len() <= usize::MAX,
    ensures
        match r {
            Some(x) => get_bytes(text.spec_bytes(), a as int, e as int) == Some(x.spec_bytes()),
            None => get_bytes(text.spec_bytes(), a as int, e as int) is None,
        },
{
    if a <= e && e <= text.len() && text.is_char_boundary(a) && text.is_char_boundary(e) {
        let ghost b = text.spec_bytes();
        proof {
            vstd::utf8::encode_utf8_valid_utf8(text@);
            vstd::utf8::valid_utf8_split(b, e as int);
        }
        let (p, _) = text.split_at(e);
        let ghost pb = p.spec_bytes();
        assert(pb =~= b.subrange(0, e as int));
        proof {
            vstd::utf8::is_char_boundary_start_end_of_seq(pb);
            if 0 < a && a < e {
                vstd::utf8::is_char_boundary_iff_not_is_continuation_byte(b, a as int);
                vstd::utf8::is_char_boundary_iff_not_is_continuation_byte(pb, a as int);
                assert(pb[a as int] == b[a as int]);
            }
            if a == e {
                assert(pb.len() == e);
            }
        }
        let (_, m) = p.split_at(a);
        assert(m.spec_bytes() =~= b.subrange(a as int, e as int));
        assert(vstd::utf8::is_char_boundary(b, a as int));
        assert(vstd::utf8::is_char_boundary(b, e as int));
        assert(e <= b.len());
        assert(get_bytes(b, a as int, e as int) == Some(m.spec_bytes()));
        Some(m)
    } else {
        assert(get_bytes(text.spec_bytes(), a as int, e as int) is None);
        None
    }
}

/// The pieces of a token of a matched line, as bytes: the part before the
/// highlighted columns, the highlighted part and the part after (each kept
/// only where it falls on character boundaries; empty outer parts dropped),
/// or the whole token when the columns miss it.
pub open spec fn token_pieces(tb: Seq<u8>, ts: int, ra: int, rb: int) -> Seq<(Seq<u8>, SegmentKind)> {
    let te = ts + tb.len();
    let hs = if ra > ts { ra } else { ts };
    let he = if rb < te { rb } else { te };
    if hs >= he {
        seq![(tb, SegmentKind::MatchLine)]
    } else {
        (if hs - ts > 0 {
            match get_bytes(tb, 0, hs - ts) {
                Some(x) => seq![(x, SegmentKind::MatchLine)],
                None => Seq::empty(),
            }
        } else {
            Seq::empty()
        }) + (match get_bytes(tb, hs - ts, he - ts) {
            Some(x) => seq![(x, SegmentKind::MatchText)],
            None => Seq::empty(),
        }) + (match get_bytes(tb, he - ts, tb.len() as int) {
            Some(x) => if x.len() > 0 { seq![(x, SegmentKind::MatchLine)] } else { Seq::empty() },
            None => Seq::empty(),
        })
    }
}

pub open spec fn pieces_bytes_view(v: Seq<(&str, SegmentKind)>) -> Seq<(Seq<u8>, SegmentKind)> {
    v.map_values(|p: (&str, SegmentKind)| (p.0.spec_bytes(), p.1))
}

/// Splits a token of a matched line that starts at byte `token_start` of the
/// line around the highlighted columns `range`.
pub fn token_pieces_exec<'a>(text: &'a str, token_start: usize, range: (usize, usize)) -> (r: Vec<(&'a str, SegmentKind)>)
    requires
        token_start + text.spec_bytes().len() <= usize::MAX,
    ensures
        pieces_bytes_view(r@) == token_pieces(text.spec_bytes(), token_start as int, range.0 as int, range.1 as int),
{
    let token_end = token_start + text.len();
    let hl_start = if range.0 > token_start { range.0 } else { token_start };
    let hl_end = if range.1 < token_end { range.1 } else { token_end };
    let mut out: Vec<(&'a str, SegmentKind)> = Vec::new();
    if hl_start >= hl_end {
        out.push((text, SegmentKind::MatchLine));
        assert(pieces_bytes_view(out@) =~= token_pieces(text.spec_bytes(), token_start as int, range.0 as int, range.1 as int));
        return out;
    }
    let ghost tb = text.spec_bytes();
    let ghost want = token_pieces(tb, token_start as int, range.0 as int, range.1 as int);
    let before_len = hl_start - token_start;
    if before_len > 0 {
        match str_get(text, 0, before_len) {
            Some(before) => out.push((before, SegmentKind::MatchLine)),
            None => {},
        }
    }
    let ghost p1 = pieces_bytes_view(out@);
    match str_get(text, hl_start - token_start, hl_end - token_start) {
        Some(hl) => out.push((hl, SegmentKind::MatchText)),
        None => {},
    }
    let ghost p2 = pieces_bytes_view(out@);
    match str_get(text, hl_end - token_start, text.len()) {
        Some(after) => {
            if after.len() > 0 {
                out.push((after, SegmentKind::MatchLine));
            }
        },
        None => {},
    }
    assert(pieces_bytes_view(out@) =~= want);
    out
}

} // verus!
