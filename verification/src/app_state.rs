//! The state the search window keeps between frames: the search's progress,
//! the table's rows and their heights, and the pattern history.
use vstd::prelude::*;
use crate::lang::SupportedLanguage;
use crate::search::{FileResult, MatchItem, SearchMessage, SearchStats};
use crate::text::{string_views, trim, trim_string};

verus! {

/// Where the current search stands.
#[derive(Debug)]
pub enum SearchState {
    Idle,
    Running,
    Done,
    Error(String),
}

/// How results are shown.
#[derive(Debug, Clone, Copy, PartialEq, Eq, Structural)]
pub enum ViewMode {
    /// The code view.
    Code,
    /// The table.
    Table,
}

/// A table row: a match of a file.
#[derive(Debug, Clone, Copy, PartialEq, Eq, Structural)]
pub struct TableRowRef {
    pub file_idx: usize,
    pub match_idx: usize,
}

/// The language the pattern assistant parses snippets in (Rust for `Auto`).
pub fn pattern_assist_resolve_lang(selected: SupportedLanguage) -> (r: SupportedLanguage)
    ensures
        r == (if selected == SupportedLanguage::Auto { SupportedLanguage::Rust } else { selected }),
{
    match selected {
        SupportedLanguage::Auto => SupportedLanguage::Rust,
        x => x,
    }
}

pub open spec fn count_newlines(b: Seq<u8>) -> nat
    decreases b.len(),
{
    if b.len() == 0 { 0 } else { count_newlines(b.drop_last()) + if b.last() == 10 { 1nat } else { 0nat } }
}

/// Lines a text takes on screen: one for empty text, else its newlines plus one.
pub open spec fn display_lines_spec(b: Seq<u8>) -> nat {
    if b.len() == 0 { 1 } else { count_newlines(b) + 1 }
}

pub fn count_display_lines(text: &str) -> (r: usize)
    requires
        vstd::utf8::encode_utf8(text@).len() < usize::MAX,
    ensures
        r == display_lines_spec(vstd::utf8::encode_utf8(text@)),
{
    let b = text.as_bytes();
    if b.len() == 0 {
        return 1;
    }
    let mut n: usize = 0;
    let mut i: usize = 0;
    while i < b.len()
        invariant
            i <= b.len(),
            n <= i,
            n == count_newlines(b@.take(i as int)),
        decreases b.len() - i,
    {
        assert(b@.take(i + 1).drop_last() =~= b@.take(i as int));
        if b[i] == 10 {
            n = n + 1;
        }
        i = i + 1;
    }
    assert(b@.take(b.len() as int) =~= b@);
    n + 1
}

/// The lines a table row takes: context before, the matched lines (the
/// spanned lines, or the matched text when those are missing) and context
/// after; at least one.
pub open spec fn row_units_spec(m: MatchItem) -> nat {
    let center = if m.span_lines_text@.len() == 0 {
        display_lines_spec(vstd::utf8::encode_utf8(m.matched_text@))
    } else {
        display_lines_spec(vstd::utf8::encode_utf8(m.span_lines_text@))
    };
    let total = m.context_before@.len() + center + m.context_after@.len();
    if total > 1 { total } else { 1 }
}

pub fn table_row_line_units(m: &MatchItem) -> (r: usize)
    requires
        m.context_before@.len() + m.context_after@.len() + vstd::utf8::encode_utf8(m.matched_text@).len()
            + vstd::utf8::encode_utf8(m.span_lines_text@).len() + 2 <= usize::MAX,
    ensures
        r == row_units_spec(*m),
{
    let center = if m.span_lines_text.as_str().is_empty() {
        count_display_lines(m.matched_text.as_str())
    } else {
        count_display_lines(m.span_lines_text.as_str())
    };
    proof {
        lemma_display_lines_bound(vstd::utf8::encode_utf8(m.matched_text@));
        lemma_display_lines_bound(vstd::utf8::encode_utf8(m.span_lines_text@));
        vstd::utf8::encode_utf8_decode_utf8(m.span_lines_text@);
        if m.span_lines_text@.len() == 0 {
            assert(vstd::utf8::encode_utf8(m.span_lines_text@).len() == 0);
        }
    }
    let total = m.context_before.len() + center + m.context_after.len();
    if total > 1 { total } else { 1 }
}

proof fn lemma_display_lines_bound(b: Seq<u8>)
    ensures
        display_lines_spec(b) <= b.len() + 1,
{
    lemma_count_newlines_bound(b);
}

proof fn lemma_count_newlines_bound(b: Seq<u8>)
    ensures
        count_newlines(b) <= b.len(),
    decreases b.len(),
{
    if b.len() > 0 {
        lemma_count_newlines_bound(b.drop_last());
    }
}

/// Most patterns kept in the history.
pub const PATTERN_HISTORY_MAX: usize = 30;

/// Whether an entry differs from `p`.
pub open spec fn other_than(p: Seq<char>) -> spec_fn(Seq<char>) -> bool {
    |h: Seq<char>| h != p
}

proof fn lemma_filter_push(s: Seq<Seq<char>>, x: Seq<char>, p: Seq<char>)
    ensures
        s.push(x).filter(other_than(p)) == (if x != p { s.filter(other_than(p)).push(x) } else { s.filter(other_than(p)) }),
{
    reveal(Seq::filter);
    assert(s.push(x).drop_last() =~= s);
}

/// The history after searching for `pattern`: the trimmed pattern first
/// (unless blank, which changes nothing), its other occurrences removed, at
/// most 30 entries.
pub open spec fn history_after(history: Seq<Seq<char>>, pattern: Seq<char>) -> Seq<Seq<char>> {
    let p = trim(pattern);
    if p.len() == 0 {
        history
    } else {
        let rest = history.filter(other_than(p));
        let all = seq![p] + rest;
        if all.len() > PATTERN_HISTORY_MAX { all.take(PATTERN_HISTORY_MAX as int) } else { all }
    }
}

/// After a search the history starts with the trimmed pattern, holds it only
/// once and keeps at most 30 entries.
pub proof fn lemma_history_front(history: Seq<Seq<char>>, pattern: Seq<char>)
    requires
        trim(pattern).len() > 0,
    ensures
        history_after(history, pattern)[0] == trim(pattern),
        history_after(history, pattern).len() <= PATTERN_HISTORY_MAX,
        forall|i: int| 1 <= i < history_after(history, pattern).len() ==> #[trigger] history_after(history, pattern)[i] != trim(pattern),
{
    let p = trim(pattern);
    let rest = history.filter(other_than(p));
    let all = seq![p] + rest;
    assert forall|i: int| 1 <= i < all.len() implies #[trigger] all[i] != p by {
        history.lemma_filter_pred(other_than(p), i - 1);
    }
}

fn same_text(a: &str, b: &str) -> (r: bool)
    ensures
        r == (a@ == b@),
{
    let av = crate::text::chars_of(a);
    crate::lang::str_eq(av.as_slice(), b)
}

/// Records a searched pattern in the history (newest first).
pub fn push_pattern_history(history: &mut Vec<String>, pattern: &str)
    ensures
        string_views(final(history)@) == history_after(string_views(old(history)@), pattern@),
{
    let p = trim_string(pattern);
    if p.as_str().is_empty() {
        return;
    }
    let ghost hv = string_views(history@);
    let mut out: Vec<String> = Vec::new();
    out.push(p.clone());
    let mut i: usize = 0;
    proof {
        reveal(Seq::filter);
        assert(hv.take(0).filter(other_than(p@)) =~= Seq::<Seq<char>>::empty());
    }
    while i < history.len()
        invariant
            i <= history.len(),
            hv == string_views(history@),
            string_views(out@) == seq![p@] + hv.take(i as int).filter(other_than(p@)),
        decreases history.len() - i,
    {
        let ghost before = out@;
        assert(hv.take(i + 1).drop_last() =~= hv.take(i as int));
        assert(hv.take(i + 1).last() == history@[i as int]@);
        assert(hv.take(i + 1) =~= hv.take(i as int).push(history@[i as int]@));
        proof { lemma_filter_push(hv.take(i as int), history@[i as int]@, p@); }
        if !same_text(history[i].as_str(), p.as_str()) {
            out.push(history[i].clone());
            assert(string_views(out@) =~= string_views(before).push(history@[i as int]@));
        }
        i = i + 1;
    }
    assert(hv.take(history.len() as int) =~= hv);
    if out.len() > PATTERN_HISTORY_MAX {
        out.truncate(PATTERN_HISTORY_MAX);
    }
    let ghost want = history_after(hv, pattern@);
    assert(string_views(out@) =~= want);
    *history = out;
}

/// The table's rows, the lines each takes and their running totals (which
/// start at 0), so that a row can be found from a scroll offset.
#[derive(Debug)]
pub struct TableMetrics {
    pub rows: Vec<TableRowRef>,
    pub units: Vec<usize>,
    pub prefix_units: Vec<usize>,
}

impl TableMetrics {
    /// `prefix_units` holds the running totals of `units`, from 0, and there
    /// is one unit count per row.
    pub open spec fn wf(&self) -> bool {
        &&& self.units@.len() == self.rows@.len()
        &&& self.prefix_units@.len() == self.units@.len() + 1
        &&& self.prefix_units@[0] == 0
        &&& forall|i: int| 0 <= i < self.units@.len() ==> #[trigger] self.prefix_units@[i + 1] == self.prefix_units@[i] + self.units@[i]
    }

    pub fn new() -> (r: TableMetrics)
        ensures
            r.wf(),
            r.rows@.len() == 0,
    {
        TableMetrics { rows: Vec::new(), units: Vec::new(), prefix_units: vec![0] }
    }

    /// Adds a row that takes `units` lines.
    pub fn push_row(&mut self, row: TableRowRef, units: usize)
        requires
            old(self).wf(),
            old(self).prefix_units@.last() + units <= usize::MAX,
        ensures
            final(self).wf(),
            final(self).rows@ == old(self).rows@.push(row),
            final(self).units@ == old(self).units@.push(units),
            final(self).prefix_units@.last() == old(self).prefix_units@.last() + units,
    {
        let last = self.prefix_units[self.prefix_units.len() - 1];
        self.rows.push(row);
        self.units.push(units);
        self.prefix_units.push(last + units);
        assert forall|i: int| 0 <= i < self.units@.len() implies #[trigger] self.prefix_units@[i + 1] == self.prefix_units@[i] + self.units@[i] by {
            if i + 1 < self.units@.len() {
                assert(old(self).prefix_units@[i + 1] == old(self).prefix_units@[i] + old(self).units@[i]);
            }
        }
    }
}

} // verus!
