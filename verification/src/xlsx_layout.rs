//! The cells of the Excel exports: which text or number goes to which cell of
//! which sheet. Writing the workbook file is left to the caller.
use vstd::prelude::*;
use crate::batch::{BatchReport, BatchRunResult};
use crate::export::{file_filter_display, file_filter_display_spec, hint_text, sanitize_excel_sheet_name, search_mode_label_for_export, search_mode_label_spec, sheet_name_spec};
use crate::file_encoding::{fixed_label, preference_encoding, FileEncodingPreference};
use crate::i18n::{pick, Tr, UiLanguage};
use crate::lang::combo_label_spec;
use crate::search::{pattern_contains_dollar_recv, program_with_context_spec, FileResult, MatchItem, SearchConditions, SearchStats};
use crate::text::{contains, decimal, push_str, usize_string};
use crate::ui_text_specs as ts;

verus! {

/// At most this many bytes go into one cell (Excel allows a little more).
pub const EXCEL_MAX_CELL_BYTES: usize = 32_000;

/// Bytes of a character in UTF-8.
pub open spec fn utf8_len(c: char) -> nat {
    if (c as u32) < 0x80 { 1 } else if (c as u32) < 0x800 { 2 } else if (c as u32) < 0x10000 { 3 } else { 4 }
}

/// The number of leading characters of `s` kept when characters are taken
/// from index `k` on, with `used` bytes taken so far, until the next one
/// would pass the cell limit.
pub open spec fn cut_point(s: Seq<char>, k: nat, used: nat) -> nat
    decreases s.len() - k,
{
    if k >= s.len() || used + utf8_len(s[k as int]) > EXCEL_MAX_CELL_BYTES {
        k
    } else {
        cut_point(s, k + 1, used + utf8_len(s[k as int]))
    }
}

/// The longest prefix of `s` whose UTF-8 form fits in a cell.
pub open spec fn excel_cut(s: Seq<char>) -> Seq<char> {
    s.take(cut_point(s, 0, 0) as int)
}

/// The UTF-8 length of a text: the sum of its characters' lengths.
pub open spec fn utf8_total(s: Seq<char>) -> nat
    decreases s.len(),
{
    if s.len() == 0 { 0 } else { utf8_total(s.drop_last()) + utf8_len(s.last()) }
}

proof fn lemma_cut_point(s: Seq<char>, k: nat, used: nat)
    requires
        k <= s.len(),
        used == utf8_total(s.take(k as int)),
        used <= EXCEL_MAX_CELL_BYTES,
    ensures
        k <= cut_point(s, k, used) <= s.len(),
        utf8_total(s.take(cut_point(s, k, used) as int)) <= EXCEL_MAX_CELL_BYTES,
        cut_point(s, k, used) < s.len() ==> utf8_total(s.take(cut_point(s, k, used) as int + 1)) > EXCEL_MAX_CELL_BYTES,
    decreases s.len() - k,
{
    if k < s.len() {
        assert(s.take(k as int + 1).drop_last() =~= s.take(k as int));
        assert(s.take(k as int + 1).last() == s[k as int]);
        if used + utf8_len(s[k as int]) <= EXCEL_MAX_CELL_BYTES {
            lemma_cut_point(s, k + 1, used + utf8_len(s[k as int]));
        }
    }
}

/// The cell text is the longest prefix of the text whose UTF-8 form fits in
/// `EXCEL_MAX_CELL_BYTES` bytes: all of it when it fits, else one character
/// more would not fit.
pub proof fn lemma_excel_cut_longest(s: Seq<char>)
    ensures
        excel_cut(s).len() <= s.len(),
        excel_cut(s) == s.take(excel_cut(s).len() as int),
        utf8_total(excel_cut(s)) <= EXCEL_MAX_CELL_BYTES,
        excel_cut(s).len() < s.len() ==> utf8_total(s.take(excel_cut(s).len() as int + 1)) > EXCEL_MAX_CELL_BYTES,
{
    assert(s.take(0) =~= Seq::<char>::empty());
    lemma_cut_point(s, 0, 0);
}

/// The UTF-8 length of a character.
pub fn char_utf8_len_pub(c: char) -> (n: usize)
    ensures
        n == utf8_len(c),
{
    char_utf8_len(c)
}

fn char_utf8_len(c: char) -> (n: usize)
    ensures
        n == utf8_len(c),
{
    let u = c as u32;
    if u < 0x80 { 1 } else if u < 0x800 { 2 } else if u < 0x10000 { 3 } else { 4 }
}

/// The text cut to what fits in a cell, at a character boundary.
pub fn truncate_for_excel(s: &str) -> (r: String)
    ensures
        r@ == excel_cut(s@),
{
    let v = crate::text::chars_of(s);
    let mut k: usize = 0;
    let mut bytes: usize = 0;
    while k < v.len() && bytes + char_utf8_len(v[k]) <= EXCEL_MAX_CELL_BYTES
        invariant
            k <= v.len(),
            v@ == s@,
            bytes <= EXCEL_MAX_CELL_BYTES,
            cut_point(v@, k as nat, bytes as nat) == cut_point(v@, 0, 0),
        decreases v.len() - k,
    {
        bytes = bytes + char_utf8_len(v[k]);
        k = k + 1;
    }
    crate::text::string_of_range(&v, 0, k)
}

// ───────────────────────── sheets ─────────────────────────

/// How a cell looks.
#[derive(Debug, Clone, Copy, PartialEq, Eq, Structural)]
pub enum CellStyle {
    Plain,
    /// Bold white on dark grey (table headers).
    Header,
    Bold,
}

#[derive(Debug)]
pub enum CellValue {
    Text(String),
    Number(u32),
}

/// One written cell (rows and columns from 0).
#[derive(Debug)]
pub struct Cell {
    pub row: usize,
    pub col: u16,
    pub value: CellValue,
    pub style: CellStyle,
}

/// A worksheet: its name, cells and column widths.
#[derive(Debug)]
pub struct SheetLayout {
    pub name: String,
    pub cells: Vec<Cell>,
    pub column_widths: Vec<(u16, u32)>,
}

pub enum ValueView {
    Text(Seq<char>),
    Number(u32),
}

pub struct CellView {
    pub row: nat,
    pub col: nat,
    pub value: ValueView,
    pub style: CellStyle,
}

impl View for Cell {
    type V = CellView;

    open spec fn view(&self) -> CellView {
        CellView {
            row: self.row as nat,
            col: self.col as nat,
            value: match self.value {
                CellValue::Text(t) => ValueView::Text(t@),
                CellValue::Number(n) => ValueView::Number(n),
            },
            style: self.style,
        }
    }
}

pub open spec fn cells_view(v: Seq<Cell>) -> Seq<CellView> {
    v.map_values(|c: Cell| c@)
}

pub open spec fn text_cell(row: nat, col: nat, t: Seq<char>, style: CellStyle) -> CellView {
    CellView { row, col, value: ValueView::Text(t), style }
}

pub open spec fn num_cell(row: nat, col: nat, n: u32) -> CellView {
    CellView { row, col, value: ValueView::Number(n), style: CellStyle::Plain }
}

fn push_text(cells: &mut Vec<Cell>, row: usize, col: u16, text: String, style: CellStyle)
    ensures
        cells_view(final(cells)@) == cells_view(old(cells)@).push(text_cell(row as nat, col as nat, text@, style)),
{
    let ghost before = cells@;
    let ghost tv = text@;
    cells.push(Cell { row, col, value: CellValue::Text(text), style });
    assert(cells_view(cells@) =~= cells_view(before).push(text_cell(row as nat, col as nat, tv, style)));
}

fn push_num(cells: &mut Vec<Cell>, row: usize, col: u16, n: u32)
    ensures
        cells_view(final(cells)@) == cells_view(old(cells)@).push(num_cell(row as nat, col as nat, n)),
{
    let ghost before = cells@;
    cells.push(Cell { row, col, value: CellValue::Number(n), style: CellStyle::Plain });
    assert(cells_view(cells@) =~= cells_view(before).push(num_cell(row as nat, col as nat, n)));
}

/// The header row of a results sheet (a `$RECV` column when the pattern uses it).
pub open spec fn header_cells(lang: UiLanguage, show_recv: bool) -> Seq<CellView> {
    seq![
        text_cell(0, 0, ts::export_xlsx_col_file(lang), CellStyle::Header),
        text_cell(0, 1, ts::export_xlsx_col_line(lang), CellStyle::Header),
        text_cell(0, 2, ts::export_xlsx_col_col(lang), CellStyle::Header),
        text_cell(0, 3, ts::export_xlsx_col_match(lang), CellStyle::Header),
        text_cell(0, 4, ts::export_xlsx_col_source_context(lang), CellStyle::Header),
    ] + (if show_recv { seq![text_cell(0, 5, "$RECV"@, CellStyle::Header)] } else { Seq::empty() })
}

/// The row of one match: file, line, column, matched text, source with
/// context (and the receiver hint).
pub open spec fn match_cells(row: nat, path: Seq<char>, m: MatchItem, show_recv: bool) -> Seq<CellView> {
    seq![
        text_cell(row, 0, excel_cut(path), CellStyle::Plain),
        num_cell(row, 1, m.line_start as u32),
        num_cell(row, 2, m.col_start as u32),
        text_cell(row, 3, excel_cut(m.matched_text@), CellStyle::Plain),
        text_cell(row, 4, excel_cut(program_with_context_spec(m)), CellStyle::Plain),
    ] + (if show_recv { seq![text_cell(row, 5, excel_cut(hint_text(m)), CellStyle::Plain)] } else { Seq::empty() })
}

/// The rows of one file's matches, from row `row0` on.
pub open spec fn file_cells(row0: nat, path: Seq<char>, ms: Seq<MatchItem>, show_recv: bool) -> Seq<CellView>
    decreases ms.len(),
{
    if ms.len() == 0 {
        Seq::empty()
    } else {
        file_cells(row0, path, ms.drop_last(), show_recv) + match_cells((row0 + ms.len() - 1) as nat, path, ms.last(), show_recv)
    }
}

/// How many matches the files hold.
pub open spec fn match_count(fs: Seq<FileResult>) -> nat
    decreases fs.len(),
{
    if fs.len() == 0 { 0 } else { match_count(fs.drop_last()) + fs.last().matches@.len() }
}

/// The match rows of all files, one row per match from row 1 on.
pub open spec fn result_rows(fs: Seq<FileResult>, show_recv: bool) -> Seq<CellView>
    decreases fs.len(),
{
    if fs.len() == 0 {
        Seq::empty()
    } else {
        result_rows(fs.drop_last(), show_recv)
            + file_cells(1 + match_count(fs.drop_last()), fs.last().relative_path@, fs.last().matches@, show_recv)
    }
}

pub open spec fn results_widths(show_recv: bool) -> Seq<(u16, u32)> {
    seq![(0u16, 50u32), (1u16, 8u32), (2u16, 8u32), (3u16, 40u32), (4u16, 80u32)]
        + (if show_recv { seq![(5u16, 36u32)] } else { Seq::empty() })
}

fn push_header(cells: &mut Vec<Cell>, t: Tr, show_recv: bool)
    ensures
        cells_view(final(cells)@) == cells_view(old(cells)@) + header_cells(t.0, show_recv),
{
    let ghost before = cells_view(cells@);
    push_text(cells, 0, 0, t.export_xlsx_col_file().to_string(), CellStyle::Header);
    push_text(cells, 0, 1, t.export_xlsx_col_line().to_string(), CellStyle::Header);
    push_text(cells, 0, 2, t.export_xlsx_col_col().to_string(), CellStyle::Header);
    push_text(cells, 0, 3, t.export_xlsx_col_match().to_string(), CellStyle::Header);
    push_text(cells, 0, 4, t.export_xlsx_col_source_context().to_string(), CellStyle::Header);
    if show_recv {
        push_text(cells, 0, 5, "$RECV".to_string(), CellStyle::Header);
    }
    assert(cells_view(cells@) =~= before + header_cells(t.0, show_recv));
}

fn push_match_row(cells: &mut Vec<Cell>, row: usize, path: &str, m: &MatchItem, show_recv: bool)
    ensures
        cells_view(final(cells)@) == cells_view(old(cells)@) + match_cells(row as nat, path@, *m, show_recv),
{
    let ghost before = cells_view(cells@);
    let ghost row_cells = match_cells(row as nat, path@, *m, show_recv);
    push_text(cells, row, 0, truncate_for_excel(path), CellStyle::Plain);
    push_num(cells, row, 1, m.line_start as u32);
    push_num(cells, row, 2, m.col_start as u32);
    push_text(cells, row, 3, truncate_for_excel(m.matched_text.as_str()), CellStyle::Plain);
    let program = m.program_with_context();
    push_text(cells, row, 4, truncate_for_excel(program.as_str()), CellStyle::Plain);
    if show_recv {
        let hint: &str = match &m.recv_type_hint {
            Some(h) => h.as_str(),
            None => "",
        };
        proof { reveal_strlit(""); }
        assert(hint@ == hint_text(*m));
        push_text(cells, row, 5, truncate_for_excel(hint), CellStyle::Plain);
    }
    assert(row_cells.len() == if show_recv { 6int } else { 5int });
    assert(cells_view(cells@) =~= before + row_cells);
}

proof fn lemma_match_count_step(fs: Seq<FileResult>, i: int)
    requires
        0 <= i < fs.len(),
    ensures
        match_count(fs.take(i + 1)) == match_count(fs.take(i)) + fs[i].matches@.len(),
        fs.take(i + 1).drop_last() == fs.take(i),
{
    assert(fs.take(i + 1).drop_last() =~= fs.take(i));
}

proof fn lemma_match_count_prefix(fs: Seq<FileResult>, i: int)
    requires
        0 <= i <= fs.len(),
    ensures
        match_count(fs.take(i)) <= match_count(fs),
    decreases fs.len() - i,
{
    if i < fs.len() {
        lemma_match_count_step(fs, i);
        lemma_match_count_prefix(fs, i + 1);
    } else {
        assert(fs.take(i) =~= fs);
    }
}

/// Appends one row per match, from row 1 on.
fn push_result_rows(cells: &mut Vec<Cell>, results: &[FileResult], show_recv: bool)
    requires
        match_count(results@) < usize::MAX,
    ensures
        cells_view(final(cells)@) == cells_view(old(cells)@) + result_rows(results@, show_recv),
{
    let ghost start = cells_view(cells@);
    let mut row: usize = 1;
    let mut i: usize = 0;
    assert(results@.take(0) =~= Seq::<FileResult>::empty());
    while i < results.len()
        invariant
            i <= results.len(),
            match_count(results@) < usize::MAX,
            row == 1 + match_count(results@.take(i as int)),
            cells_view(cells@) == start + result_rows(results@.take(i as int), show_recv),
        decreases results.len() - i,
    {
        let file = &results[i];
        let ghost row0 = row as nat;
        let ghost base = cells_view(cells@);
        proof {
            lemma_match_count_step(results@, i as int);
            lemma_match_count_prefix(results@, i + 1);
        }
        let mut j: usize = 0;
        assert(file.matches@.take(0) =~= Seq::<MatchItem>::empty());
        while j < file.matches.len()
            invariant
                j <= file.matches.len(),
                row == row0 + j,
                row0 + file.matches@.len() <= match_count(results@) + 1,
                match_count(results@) < usize::MAX,
                cells_view(cells@) == base + file_cells(row0, file.relative_path@, file.matches@.take(j as int), show_recv),
            decreases file.matches.len() - j,
        {
            push_match_row(cells, row, file.relative_path.as_str(), &file.matches[j], show_recv);
            assert(file.matches@.take(j + 1).drop_last() =~= file.matches@.take(j as int));
            row = row + 1;
            j = j + 1;
        }
        assert(file.matches@.take(file.matches.len() as int) =~= file.matches@);
        assert(results@.take(i + 1).last() == results@[i as int]);
        i = i + 1;
    }
    assert(results@.take(results.len() as int) =~= results@);
}

fn widths(show_recv: bool) -> (r: Vec<(u16, u32)>)
    ensures
        r@ == results_widths(show_recv),
{
    let mut w = vec![(0u16, 50u32), (1u16, 8u32), (2u16, 8u32), (3u16, 40u32), (4u16, 80u32)];
    if show_recv {
        w.push((5u16, 36u32));
    }
    assert(w@ =~= results_widths(show_recv));
    w
}

/// The results sheet: the header row, then one row per match.
pub fn results_sheet(name: String, results: &[FileResult], cond: &SearchConditions, lang: UiLanguage) -> (r: SheetLayout)
    requires
        match_count(results@) < usize::MAX,
    ensures
        r.name@ == name@,
        cells_view(r.cells@) == header_cells(lang, contains(cond.pattern@, "$RECV"@))
            + result_rows(results@, contains(cond.pattern@, "$RECV"@)),
        r.column_widths@ == results_widths(contains(cond.pattern@, "$RECV"@)),
{
    let t = Tr(lang);
    let show_recv = pattern_contains_dollar_recv(cond.pattern.as_str());
    let mut cells: Vec<Cell> = Vec::new();
    assert(cells_view(cells@) =~= Seq::<CellView>::empty());
    push_header(&mut cells, t, show_recv);
    push_result_rows(&mut cells, results, show_recv);
    assert(cells_view(cells@) =~= header_cells(lang, show_recv) + result_rows(results@, show_recv));
    SheetLayout { name, cells, column_widths: widths(show_recv) }
}

/// The label of an encoding choice.
pub open spec fn preference_label_spec(p: FileEncodingPreference, lang: UiLanguage) -> Seq<char> {
    match preference_encoding(p) {
        None => pick(lang, "自動判定"@, "Auto detect"@),
        Some(e) => fixed_label(e),
    }
}

/// The first rows of a statistics sheet: totals, the hit-limit note, the
/// conditions title, root, pattern and language.
pub open spec fn stats_head_cells(stats: SearchStats, cond: SearchConditions, lang: UiLanguage) -> Seq<CellView> {
    seq![
        text_cell(0, 0, ts::export_xlsx_total_matches(lang), CellStyle::Plain),
        num_cell(0, 1, stats.total_matches as u32),
        text_cell(1, 0, ts::export_xlsx_file_count(lang), CellStyle::Plain),
        num_cell(1, 1, stats.total_files as u32),
        text_cell(2, 0, ts::export_xlsx_elapsed(lang), CellStyle::Plain),
        num_cell(2, 1, stats.elapsed_ms as u32),
    ] + (if stats.hit_limit_reached {
        seq![
            text_cell(3, 0, ts::export_xlsx_hit_limit_note(lang), CellStyle::Plain),
            text_cell(3, 1, ts::export_xlsx_hit_limit_truncated(lang), CellStyle::Plain),
        ]
    } else {
        Seq::empty()
    }) + seq![
        text_cell(4, 0, ts::export_conditions_title(lang), CellStyle::Bold),
        text_cell(5, 0, ts::export_cond_root(lang), CellStyle::Plain),
        text_cell(5, 1, excel_cut(cond.search_dir@), CellStyle::Plain),
        text_cell(6, 0, ts::export_cond_pattern(lang), CellStyle::Plain),
        text_cell(6, 1, excel_cut(cond.pattern@), CellStyle::Plain),
        text_cell(7, 0, ts::export_cond_lang(lang), CellStyle::Plain),
        text_cell(7, 1, combo_label_spec(cond.selected_lang, lang), CellStyle::Plain),
    ]
}

/// The remaining rows of a single search's statistics sheet.
pub open spec fn stats_tail_cells(cond: SearchConditions, lang: UiLanguage) -> Seq<CellView> {
    seq![
        text_cell(8, 0, ts::export_cond_context_lines(lang), CellStyle::Plain),
        num_cell(8, 1, cond.context_lines as u32),
        text_cell(9, 0, ts::export_cond_file_filter(lang), CellStyle::Plain),
        text_cell(9, 1, excel_cut(file_filter_display_spec(lang, cond)), CellStyle::Plain),
        text_cell(10, 0, ts::export_cond_file_encoding(lang), CellStyle::Plain),
        text_cell(10, 1, preference_label_spec(cond.file_encoding_preference, lang), CellStyle::Plain),
        text_cell(11, 0, ts::export_cond_max_file_mb(lang), CellStyle::Plain),
        num_cell(11, 1, cond.max_file_size_mb as u32),
        text_cell(12, 0, ts::export_cond_max_search_hits(lang), CellStyle::Plain),
        num_cell(12, 1, cond.max_search_hits as u32),
        text_cell(13, 0, ts::export_cond_skip_dirs(lang), CellStyle::Plain),
        text_cell(13, 1, excel_cut(cond.skip_dirs@), CellStyle::Plain),
        text_cell(14, 0, ts::export_cond_search_mode(lang), CellStyle::Plain),
        text_cell(14, 1, search_mode_label_spec(lang, cond.search_mode), CellStyle::Plain),
    ]
}

pub open spec fn stats_widths() -> Seq<(u16, u32)> {
    seq![(0u16, 28u32), (1u16, 72u32)]
}

fn push_stats_head(cells: &mut Vec<Cell>, t: Tr, stats: &SearchStats, cond: &SearchConditions)
    ensures
        cells_view(final(cells)@) == cells_view(old(cells)@) + stats_head_cells(*stats, *cond, t.0),
{
    let ghost before = cells_view(cells@);
    push_text(cells, 0, 0, t.export_xlsx_total_matches().to_string(), CellStyle::Plain);
    push_num(cells, 0, 1, stats.total_matches as u32);
    push_text(cells, 1, 0, t.export_xlsx_file_count().to_string(), CellStyle::Plain);
    push_num(cells, 1, 1, stats.total_files as u32);
    push_text(cells, 2, 0, t.export_xlsx_elapsed().to_string(), CellStyle::Plain);
    push_num(cells, 2, 1, stats.elapsed_ms as u32);
    let ghost mid = cells_view(cells@);
    if stats.hit_limit_reached {
        push_text(cells, 3, 0, t.export_xlsx_hit_limit_note().to_string(), CellStyle::Plain);
        push_text(cells, 3, 1, t.export_xlsx_hit_limit_truncated().to_string(), CellStyle::Plain);
    }
    push_text(cells, 4, 0, t.export_conditions_title().to_string(), CellStyle::Bold);
    push_text(cells, 5, 0, t.export_cond_root().to_string(), CellStyle::Plain);
    push_text(cells, 5, 1, truncate_for_excel(cond.search_dir.as_str()), CellStyle::Plain);
    push_text(cells, 6, 0, t.export_cond_pattern().to_string(), CellStyle::Plain);
    push_text(cells, 6, 1, truncate_for_excel(cond.pattern.as_str()), CellStyle::Plain);
    push_text(cells, 7, 0, t.export_cond_lang().to_string(), CellStyle::Plain);
    push_text(cells, 7, 1, cond.selected_lang.combo_label(t.0), CellStyle::Plain);
    assert(cells_view(cells@) =~= before + stats_head_cells(*stats, *cond, t.0));
}

fn push_stats_tail(cells: &mut Vec<Cell>, t: Tr, cond: &SearchConditions)
    ensures
        cells_view(final(cells)@) == cells_view(old(cells)@) + stats_tail_cells(*cond, t.0),
{
    let ghost before = cells_view(cells@);
    push_text(cells, 8, 0, t.export_cond_context_lines().to_string(), CellStyle::Plain);
    push_num(cells, 8, 1, cond.context_lines as u32);
    push_text(cells, 9, 0, t.export_cond_file_filter().to_string(), CellStyle::Plain);
    let filter = file_filter_display(t, cond);
    push_text(cells, 9, 1, truncate_for_excel(filter.as_str()), CellStyle::Plain);
    push_text(cells, 10, 0, t.export_cond_file_encoding().to_string(), CellStyle::Plain);
    push_text(cells, 10, 1, cond.file_encoding_preference.display_label(t.0).to_string(), CellStyle::Plain);
    push_text(cells, 11, 0, t.export_cond_max_file_mb().to_string(), CellStyle::Plain);
    push_num(cells, 11, 1, cond.max_file_size_mb as u32);
    push_text(cells, 12, 0, t.export_cond_max_search_hits().to_string(), CellStyle::Plain);
    push_num(cells, 12, 1, cond.max_search_hits as u32);
    push_text(cells, 13, 0, t.export_cond_skip_dirs().to_string(), CellStyle::Plain);
    push_text(cells, 13, 1, truncate_for_excel(cond.skip_dirs.as_str()), CellStyle::Plain);
    push_text(cells, 14, 0, t.export_cond_search_mode().to_string(), CellStyle::Plain);
    push_text(cells, 14, 1, search_mode_label_for_export(t, cond.search_mode).to_string(), CellStyle::Plain);
    assert(cells_view(cells@) =~= before + stats_tail_cells(*cond, t.0));
}

fn stats_widths_exec() -> (r: Vec<(u16, u32)>)
    ensures
        r@ == stats_widths(),
{
    let w = vec![(0u16, 28u32), (1u16, 72u32)];
    assert(w@ =~= stats_widths());
    w
}

/// The workbook of a single search: the results sheet, then the statistics
/// and conditions sheet.
pub fn results_workbook(results: &[FileResult], stats: &SearchStats, cond: &SearchConditions, lang: UiLanguage) -> (r: Vec<SheetLayout>)
    requires
        match_count(results@) < usize::MAX,
    ensures
        r@.len() == 2,
        r@[0].name@ == ts::export_xlsx_sheet_results(lang),
        cells_view(r@[0].cells@) == header_cells(lang, contains(cond.pattern@, "$RECV"@))
            + result_rows(results@, contains(cond.pattern@, "$RECV"@)),
        r@[0].column_widths@ == results_widths(contains(cond.pattern@, "$RECV"@)),
        r@[1].name@ == ts::export_xlsx_sheet_stats(lang),
        cells_view(r@[1].cells@) == stats_head_cells(*stats, *cond, lang) + stats_tail_cells(*cond, lang),
        r@[1].column_widths@ == stats_widths(),
{
    let t = Tr(lang);
    let first = results_sheet(t.export_xlsx_sheet_results().to_string(), results, cond, lang);
    let mut cells: Vec<Cell> = Vec::new();
    assert(cells_view(cells@) =~= Seq::<CellView>::empty());
    push_stats_head(&mut cells, t, stats, cond);
    push_stats_tail(&mut cells, t, cond);
    assert(cells_view(cells@) =~= stats_head_cells(*stats, *cond, lang) + stats_tail_cells(*cond, lang));
    let second = SheetLayout { name: t.export_xlsx_sheet_stats().to_string(), cells, column_widths: stats_widths_exec() };
    vec![first, second]
}

pub open spec fn sheet_view(s: SheetLayout) -> (Seq<char>, Seq<CellView>, Seq<(u16, u32)>) {
    (s.name@, cells_view(s.cells@), s.column_widths@)
}

pub open spec fn sheets_view(v: Seq<SheetLayout>) -> Seq<(Seq<char>, Seq<CellView>, Seq<(u16, u32)>)> {
    v.map_values(|s: SheetLayout| sheet_view(s))
}

/// A number written with at least two digits.
pub open spec fn pad2(i: nat) -> Seq<char> {
    if i < 10 { "0"@ + decimal(i) } else { decimal(i) }
}

/// `<index, two digits>_<label>_<job id>`: the raw name of a run's sheet.
pub open spec fn run_sheet_label(i: nat, run: BatchRunResult) -> Seq<char> {
    pad2(i) + "_"@ + run.label@ + "_"@ + decimal(run.job_id as nat)
}

/// The sheets of run `i` of a batch: one sheet with the error when it
/// failed; else its results sheet and a statistics sheet named `m<i>`.
pub open spec fn run_sheets(i: nat, run: BatchRunResult, lang: UiLanguage) -> Seq<(Seq<char>, Seq<CellView>, Seq<(u16, u32)>)> {
    let name = sheet_name_spec(run_sheet_label(i, run), i as usize);
    match run.error {
        Some(e) => seq![(name, seq![text_cell(0, 0, "ERROR: "@ + e@, CellStyle::Plain)], Seq::<(u16, u32)>::empty())],
        None => {
            let show = contains(run.conditions.pattern@, "$RECV"@);
            seq![
                (name, header_cells(lang, show) + result_rows(run.results@, show), results_widths(show)),
                (sheet_name_spec("m"@ + decimal(i), i as usize), stats_head_cells(run.stats, run.conditions, lang), stats_widths()),
            ]
        },
    }
}

/// The sheets of all runs, in order.
pub open spec fn batch_sheets(runs: Seq<BatchRunResult>, lang: UiLanguage) -> Seq<(Seq<char>, Seq<CellView>, Seq<(u16, u32)>)>
    decreases runs.len(),
{
    if runs.len() == 0 {
        Seq::empty()
    } else {
        batch_sheets(runs.drop_last(), lang) + run_sheets((runs.len() - 1) as nat, runs.last(), lang)
    }
}

/// Every run's matches can be numbered by row.
pub open spec fn runs_fit(runs: Seq<BatchRunResult>) -> bool {
    forall|i: int| 0 <= i < runs.len() ==> match_count((#[trigger] runs[i]).results@) < usize::MAX
}

fn pad2_string(i: usize) -> (r: String)
    ensures
        r@ == pad2(i as nat),
{
    let d = usize_string(i);
    if i < 10 {
        let mut s = "0".to_string();
        push_str(&mut s, d.as_str());
        s
    } else {
        d
    }
}

fn run_sheets_exec(i: usize, run: &BatchRunResult, lang: UiLanguage) -> (r: Vec<SheetLayout>)
    requires
        match_count(run.results@) < usize::MAX,
    ensures
        sheets_view(r@) == run_sheets(i as nat, *run, lang),
{
    let t = Tr(lang);
    let mut label = pad2_string(i);
    push_str(&mut label, "_");
    push_str(&mut label, run.label.as_str());
    push_str(&mut label, "_");
    let jid = usize_string(run.job_id);
    push_str(&mut label, jid.as_str());
    assert(label@ == run_sheet_label(i as nat, *run));
    let name = sanitize_excel_sheet_name(label.as_str(), i);
    match &run.error {
        Some(e) => {
            let mut msg = "ERROR: ".to_string();
            push_str(&mut msg, e.as_str());
            let mut cells: Vec<Cell> = Vec::new();
            assert(cells_view(cells@) =~= Seq::<CellView>::empty());
            push_text(&mut cells, 0, 0, msg, CellStyle::Plain);
            let r = vec![SheetLayout { name, cells, column_widths: Vec::new() }];
            assert(sheets_view(r@) =~= run_sheets(i as nat, *run, lang));
            r
        },
        None => {
            let first = results_sheet(name, run.results.as_slice(), &run.conditions, lang);
            let mut cells: Vec<Cell> = Vec::new();
            assert(cells_view(cells@) =~= Seq::<CellView>::empty());
            push_stats_head(&mut cells, t, &run.stats, &run.conditions);
            assert(cells_view(cells@) =~= stats_head_cells(run.stats, run.conditions, lang));
            let mut sn = "m".to_string();
            let d = usize_string(i);
            push_str(&mut sn, d.as_str());
            let second = SheetLayout {
                name: sanitize_excel_sheet_name(sn.as_str(), i),
                cells,
                column_widths: stats_widths_exec(),
            };
            let r = vec![first, second];
            assert(sheets_view(r@) =~= run_sheets(i as nat, *run, lang));
            r
        },
    }
}

/// The workbook of a batch: for each run, in order, its sheets (see
/// `run_sheets`).
pub fn batch_workbook(report: &BatchReport, lang: UiLanguage) -> (r: Vec<SheetLayout>)
    requires
        runs_fit(report.runs@),
    ensures
        sheets_view(r@) == batch_sheets(report.runs@, lang),
{
    let mut out: Vec<SheetLayout> = Vec::new();
    let mut i: usize = 0;
    assert(report.runs@.take(0) =~= Seq::<BatchRunResult>::empty());
    assert(sheets_view(out@) =~= Seq::empty());
    while i < report.runs.len()
        invariant
            i <= report.runs.len(),
            runs_fit(report.runs@),
            sheets_view(out@) == batch_sheets(report.runs@.take(i as int), lang),
        decreases report.runs.len() - i,
    {
        let run = &report.runs[i];
        assert(match_count(report.runs@[i as int].results@) < usize::MAX);
        let mut more = run_sheets_exec(i, run, lang);
        let ghost before = out@;
        let ghost added = more@;
        out.append(&mut more);
        assert(sheets_view(out@) =~= sheets_view(before) + sheets_view(added));
        assert(report.runs@.take(i + 1).drop_last() =~= report.runs@.take(i as int));
        i = i + 1;
    }
    assert(report.runs@.take(report.runs.len() as int) =~= report.runs@);
    out
}

} // verus!
