//! Export of search results and batch reports as text, Markdown and HTML.
use vstd::prelude::*;
use crate::batch::{count_failed, sum_files, sum_matches, BatchReport, BatchRunResult};
use crate::file_encoding::{fixed_label, preference_encoding};
use crate::i18n::{pick, totals_text, Tr, UiLanguage};
use crate::lang::combo_label_spec;
use crate::search::{
    program_with_context_spec, FileResult, MatchItem, SearchConditions, SearchMode, SearchStats,
};
use crate::text::{
    chars_of, contains, contains_char, decimal, join, lines, lines_vec, lowercase, push_char, push_decimal,
    push_str, replace_char, replace_char_string, to_lowercase, trim, trim_string, usize_string,
};
use crate::ui_text_specs as ts;

verus! {

// ───────────────────────── output choices ─────────────────────────

/// One section of a batch report.
#[derive(Debug, Clone, Copy, PartialEq, Eq, Structural)]
pub enum OutputView {
    Code,
    Table,
    Summary,
}

/// The sections chosen for a batch report (a set).
#[derive(Debug, Clone, Copy, PartialEq, Eq, Structural)]
pub struct OutputViewSet {
    pub code: bool,
    pub table: bool,
    pub summary: bool,
}

impl Default for OutputViewSet {
    fn default() -> (r: Self)
        ensures
            !r.code && !r.table && !r.summary,
    {
        OutputViewSet { code: false, table: false, summary: false }
    }
}

pub open spec fn view_in(set: OutputViewSet, v: OutputView) -> bool {
    match v {
        OutputView::Code => set.code,
        OutputView::Table => set.table,
        OutputView::Summary => set.summary,
    }
}

/// `set` with `v` added.
pub open spec fn with_view(set: OutputViewSet, v: OutputView) -> OutputViewSet {
    match v {
        OutputView::Code => OutputViewSet { code: true, ..set },
        OutputView::Table => OutputViewSet { table: true, ..set },
        OutputView::Summary => OutputViewSet { summary: true, ..set },
    }
}

pub open spec fn view_cli_name(v: OutputView) -> Seq<char> {
    match v {
        OutputView::Code => "code"@,
        OutputView::Table => "table"@,
        OutputView::Summary => "summary"@,
    }
}

/// The chosen sections' names, in the order code, table, summary, joined by `,`.
pub open spec fn views_cli_arg(set: OutputViewSet) -> Seq<char> {
    let names = (if set.code { seq!["code"@] } else { Seq::<Seq<char>>::empty() })
        + (if set.table { seq!["table"@] } else { Seq::<Seq<char>>::empty() })
        + (if set.summary { seq!["summary"@] } else { Seq::<Seq<char>>::empty() });
    crate::text::join(names, ","@)
}

impl OutputViewSet {
    pub fn insert(&mut self, v: OutputView)
        ensures
            *final(self) == with_view(*old(self), v),
    {
        match v {
            OutputView::Code => self.code = true,
            OutputView::Table => self.table = true,
            OutputView::Summary => self.summary = true,
        }
    }

    pub fn contains(&self, v: OutputView) -> (b: bool)
        ensures
            b == view_in(*self, v),
    {
        match v {
            OutputView::Code => self.code,
            OutputView::Table => self.table,
            OutputView::Summary => self.summary,
        }
    }

    pub fn is_empty(&self) -> (b: bool)
        ensures
            b == (!self.code && !self.table && !self.summary),
    {
        !self.code && !self.table && !self.summary
    }

    /// Only the table, which is what the command line assumes without `--view`.
    pub fn is_default_table_only(&self) -> (b: bool)
        ensures
            b == (!self.code && self.table && !self.summary),
    {
        !self.code && self.table && !self.summary
    }

    /// The `--view` value that selects this set.
    pub fn to_cli_arg(&self) -> (r: String)
        ensures
            r@ == views_cli_arg(*self),
    {
        let mut names: Vec<&str> = Vec::new();
        if self.code {
            names.push("code");
        }
        if self.table {
            names.push("table");
        }
        if self.summary {
            names.push("summary");
        }
        let r = crate::text::join_strs(names.as_slice(), ",");
        proof {
            let expected = (if self.code { seq!["code"@] } else { Seq::<Seq<char>>::empty() })
                + (if self.table { seq!["table"@] } else { Seq::<Seq<char>>::empty() })
                + (if self.summary { seq!["summary"@] } else { Seq::<Seq<char>>::empty() });
            assert(crate::text::str_views(names@) =~= expected);
        }
        r
    }
}

/// File format of an export.
#[derive(Debug, Clone, Copy, PartialEq, Eq, Structural)]
pub enum OutputFormat {
    Json,
    Text,
    Markdown,
    Html,
    Xlsx,
}

pub open spec fn format_cli_name(f: OutputFormat) -> Seq<char> {
    match f {
        OutputFormat::Json => "json"@,
        OutputFormat::Text => "text"@,
        OutputFormat::Markdown => "markdown"@,
        OutputFormat::Html => "html"@,
        OutputFormat::Xlsx => "xlsx"@,
    }
}

/// The format a lower-cased `--format` value names.
pub open spec fn format_for_name(s: Seq<char>) -> Option<OutputFormat> {
    if s == "json"@ {
        Some(OutputFormat::Json)
    } else if s == "text"@ || s == "txt"@ {
        Some(OutputFormat::Text)
    } else if s == "markdown"@ || s == "md"@ {
        Some(OutputFormat::Markdown)
    } else if s == "html"@ || s == "htm"@ {
        Some(OutputFormat::Html)
    } else if s == "xlsx"@ || s == "excel"@ {
        Some(OutputFormat::Xlsx)
    } else {
        None
    }
}

impl OutputFormat {
    pub fn cli_name(self) -> (r: &'static str)
        ensures
            r@ == format_cli_name(self),
    {
        match self {
            OutputFormat::Json => "json",
            OutputFormat::Text => "text",
            OutputFormat::Markdown => "markdown",
            OutputFormat::Html => "html",
            OutputFormat::Xlsx => "xlsx",
        }
    }

    /// Only a file can hold a workbook.
    pub fn requires_output_file(self) -> (b: bool)
        ensures
            b == (self == OutputFormat::Xlsx),
    {
        match self {
            OutputFormat::Xlsx => true,
            _ => false,
        }
    }

    /// The format a `--format` value names (case-insensitive).
    pub fn from_cli_str(s: &str) -> (r: Option<OutputFormat>)
        ensures
            r == format_for_name(lowercase(s@)),
    {
        let lower = to_lowercase(s);
        let v = chars_of(lower.as_str());
        if crate::lang::str_eq(v.as_slice(), "json") {
            Some(OutputFormat::Json)
        } else if crate::lang::str_eq(v.as_slice(), "text") || crate::lang::str_eq(v.as_slice(), "txt") {
            Some(OutputFormat::Text)
        } else if crate::lang::str_eq(v.as_slice(), "markdown") || crate::lang::str_eq(v.as_slice(), "md") {
            Some(OutputFormat::Markdown)
        } else if crate::lang::str_eq(v.as_slice(), "html") || crate::lang::str_eq(v.as_slice(), "htm") {
            Some(OutputFormat::Html)
        } else if crate::lang::str_eq(v.as_slice(), "xlsx") || crate::lang::str_eq(v.as_slice(), "excel") {
            Some(OutputFormat::Xlsx)
        } else {
            None
        }
    }
}


// ───────────────────────── shared pieces ─────────────────────────

/// `|---|---|…|` with `n` columns, and a newline.
pub open spec fn md_table_sep_spec(n: nat) -> Seq<char> {
    "|"@ + join(Seq::new(n, |i: int| "---"@), "|"@) + "|\n"@
}

fn markdown_table_sep(n: usize) -> (r: String)
    ensures
        r@ == md_table_sep_spec(n as nat),
{
    let mut cells: Vec<&str> = Vec::new();
    let mut i: usize = 0;
    while i < n
        invariant
            i <= n,
            cells@.len() == i,
            forall|k: int| 0 <= k < i ==> (#[trigger] cells@[k])@ == "---"@,
        decreases n - i,
    {
        cells.push("---");
        i = i + 1;
    }
    assert(crate::text::str_views(cells@) =~= Seq::new(n as nat, |k: int| "---"@));
    let mut s = "|".to_string();
    let j = crate::text::join_strs(cells.as_slice(), "|");
    push_str(&mut s, j.as_str());
    push_str(&mut s, "|\n");
    s
}

pub open spec fn search_mode_label_spec(lang: UiLanguage, mode: SearchMode) -> Seq<char> {
    match mode {
        SearchMode::AstGrep => ts::mode_ast(lang),
        SearchMode::TokenSearch => ts::mode_token(lang),
        SearchMode::PlainText => ts::mode_plain(lang),
        SearchMode::Regex => ts::mode_regex(lang),
    }
}

fn search_mode_label(t: Tr, mode: SearchMode) -> (r: &'static str)
    ensures
        r@ == search_mode_label_spec(t.0, mode),
{
    match mode {
        SearchMode::AstGrep => t.mode_ast(),
        SearchMode::TokenSearch => t.mode_token(),
        SearchMode::PlainText => t.mode_plain(),
        SearchMode::Regex => t.mode_regex(),
    }
}

/// The label of a search mode (for the UI and reports).
pub fn search_mode_label_for_export(t: Tr, mode: SearchMode) -> (r: &'static str)
    ensures
        r@ == search_mode_label_spec(t.0, mode),
{
    search_mode_label(t, mode)
}

/// The file filter as exported: the "default" text when it is blank.
pub open spec fn file_filter_display_spec(lang: UiLanguage, cond: SearchConditions) -> Seq<char> {
    if trim(cond.file_filter@).len() == 0 { ts::export_cond_file_filter_default(lang) } else { cond.file_filter@ }
}

pub fn file_filter_display(t: Tr, cond: &SearchConditions) -> (r: String)
    ensures
        r@ == file_filter_display_spec(t.0, *cond),
{
    let f = trim_string(cond.file_filter.as_str());
    if f.as_str().is_empty() {
        t.export_cond_file_filter_default().to_string()
    } else {
        cond.file_filter.clone()
    }
}

/// The exported search conditions as (label, value) rows, in report order.
pub open spec fn condition_rows(lang: UiLanguage, c: SearchConditions) -> Seq<(Seq<char>, Seq<char>)> {
    seq![
        (ts::export_cond_root(lang), c.search_dir@),
        (ts::export_cond_pattern(lang), c.pattern@),
        (ts::export_cond_lang(lang), combo_label_spec(c.selected_lang, lang)),
        (ts::export_cond_context_lines(lang), decimal(c.context_lines as nat)),
        (ts::export_cond_file_filter(lang), file_filter_display_spec(lang, c)),
        (ts::export_cond_file_encoding(lang), match preference_encoding(c.file_encoding_preference) {
            None => pick(lang, "自動判定"@, "Auto detect"@),
            Some(e) => fixed_label(e),
        }),
        (ts::export_cond_max_file_mb(lang), decimal(c.max_file_size_mb as nat)),
        (ts::export_cond_max_search_hits(lang), decimal(c.max_search_hits as nat)),
        (ts::export_cond_skip_dirs(lang), c.skip_dirs@),
        (ts::export_cond_search_mode(lang), search_mode_label_spec(lang, c.search_mode)),
    ]
}

pub open spec fn row_views(v: Seq<(String, String)>) -> Seq<(Seq<char>, Seq<char>)> {
    Seq::new(v.len(), |i: int| (v[i].0@, v[i].1@))
}

fn condition_rows_exec(t: Tr, c: &SearchConditions) -> (r: Vec<(String, String)>)
    ensures
        row_views(r@) == condition_rows(t.0, *c),
{
    let lang = t.0;
    let mut r: Vec<(String, String)> = Vec::new();
    r.push((t.export_cond_root().to_string(), c.search_dir.clone()));
    r.push((t.export_cond_pattern().to_string(), c.pattern.clone()));
    r.push((t.export_cond_lang().to_string(), c.selected_lang.combo_label(lang)));
    r.push((t.export_cond_context_lines().to_string(), usize_string(c.context_lines)));
    r.push((t.export_cond_file_filter().to_string(), file_filter_display(t, c)));
    r.push((t.export_cond_file_encoding().to_string(), c.file_encoding_preference.display_label(lang).to_string()));
    r.push((t.export_cond_max_file_mb().to_string(), crate::text::decimal_string(c.max_file_size_mb)));
    r.push((t.export_cond_max_search_hits().to_string(), usize_string(c.max_search_hits)));
    r.push((t.export_cond_skip_dirs().to_string(), c.skip_dirs.clone()));
    r.push((t.export_cond_search_mode().to_string(), search_mode_label(t, c.search_mode).to_string()));
    assert(row_views(r@) =~= condition_rows(lang, *c));
    r
}

/// Each row as `open label mid value` and a newline.
pub open spec fn row_lines(rows: Seq<(Seq<char>, Seq<char>)>, open: Seq<char>, mid: Seq<char>) -> Seq<char>
    decreases rows.len(),
{
    if rows.len() == 0 {
        Seq::empty()
    } else {
        row_lines(rows.drop_last(), open, mid) + open + rows.last().0 + mid + rows.last().1 + "\n"@
    }
}

fn push_row_lines(s: &mut String, rows: &Vec<(String, String)>, open: &str, mid: &str)
    ensures
        final(s)@ == old(s)@ + row_lines(row_views(rows@), open@, mid@),
{
    let ghost start = s@;
    let mut i: usize = 0;
    assert(row_views(rows@).take(0) =~= Seq::<(Seq<char>, Seq<char>)>::empty());
    assert(start + Seq::<char>::empty() =~= start);
    while i < rows.len()
        invariant
            i <= rows.len(),
            s@ == start + row_lines(row_views(rows@).take(i as int), open@, mid@),
        decreases rows.len() - i,
    {
        push_str(s, open);
        push_str(s, rows[i].0.as_str());
        push_str(s, mid);
        push_str(s, rows[i].1.as_str());
        push_str(s, "\n");
        proof {
            let a = row_views(rows@).take(i + 1);
            assert(a.drop_last() =~= row_views(rows@).take(i as int));
            assert(a.last() == (rows@[i as int].0@, rows@[i as int].1@));
        }
        i = i + 1;
    }
    assert(row_views(rows@).take(rows.len() as int) =~= row_views(rows@));
}

/// The conditions block of plain-text exports.
pub open spec fn conditions_plain_spec(lang: UiLanguage, c: SearchConditions) -> Seq<char> {
    ts::export_conditions_title(lang) + "\n"@ + row_lines(condition_rows(lang, c), "- "@, ": "@) + "\n"@
}

/// The conditions block of Markdown exports.
pub open spec fn conditions_markdown_spec(lang: UiLanguage, c: SearchConditions) -> Seq<char> {
    "## "@ + ts::export_conditions_title(lang) + "\n\n"@ + row_lines(condition_rows(lang, c), "- **"@, "**: "@) + "\n"@
}

pub fn format_search_conditions_plain(t: Tr, cond: &SearchConditions, lang: UiLanguage) -> (r: String)
    requires
        t.0 == lang,
    ensures
        r@ == conditions_plain_spec(lang, *cond),
{
    let rows = condition_rows_exec(t, cond);
    let mut s = t.export_conditions_title().to_string();
    push_str(&mut s, "\n");
    push_row_lines(&mut s, &rows, "- ", ": ");
    push_str(&mut s, "\n");
    s
}

/// The search conditions as a Markdown section.
pub fn format_search_conditions_markdown(t: Tr, cond: &SearchConditions, lang: UiLanguage) -> (r: String)
    requires
        t.0 == lang,
    ensures
        r@ == conditions_markdown_spec(lang, *cond),
{
    let rows = condition_rows_exec(t, cond);
    let mut s = "## ".to_string();
    push_str(&mut s, t.export_conditions_title());
    push_str(&mut s, "\n\n");
    push_row_lines(&mut s, &rows, "- **", "**: ");
    push_str(&mut s, "\n");
    s
}

// ───────────────────────── plain text ─────────────────────────

pub open spec fn text_total_spec(lang: UiLanguage, st: SearchStats) -> Seq<char> {
    totals_text(lang, ("合計: "@, "件 / "@, "ファイル / "@, "ms"@), ("Total: "@, " matches / "@, " files / "@, "ms"@),
        "\n\n"@, st.total_matches as nat, st.total_files as nat, st.elapsed_ms as nat, st.hit_limit_reached)
}

pub open spec fn line_header_spec(lang: UiLanguage, line: usize, col: usize) -> Seq<char> {
    pick(lang, "  行 "@ + decimal(line as nat) + ":"@ + decimal(col as nat) + " \n"@,
        "  line "@ + decimal(line as nat) + ":"@ + decimal(col as nat) + " \n"@)
}

/// Each line indented by two blanks, with a newline.
pub open spec fn indented(ls: Seq<Seq<char>>) -> Seq<char>
    decreases ls.len(),
{
    if ls.len() == 0 { Seq::empty() } else { indented(ls.drop_last()) + "  "@ + ls.last() + "\n"@ }
}

pub open spec fn text_matches(ms: Seq<MatchItem>, lang: UiLanguage) -> Seq<char>
    decreases ms.len(),
{
    if ms.len() == 0 {
        Seq::empty()
    } else {
        let m = ms.last();
        text_matches(ms.drop_last(), lang) + line_header_spec(lang, m.line_start, m.col_start)
            + indented(lines(program_with_context_spec(m)))
    }
}

pub open spec fn text_files(fs: Seq<FileResult>, lang: UiLanguage) -> Seq<char>
    decreases fs.len(),
{
    if fs.len() == 0 {
        Seq::empty()
    } else {
        let f = fs.last();
        text_files(fs.drop_last(), lang) + "## "@ + f.relative_path@ + "\n"@ + text_matches(f.matches@, lang) + "\n"@
    }
}

/// The plain-text export: title, conditions, totals, then each file's matches
/// with their context lines.
pub open spec fn results_text_spec(fs: Seq<FileResult>, st: SearchStats, c: SearchConditions, lang: UiLanguage) -> Seq<char> {
    "# "@ + ts::export_text_title(lang) + "\n"@ + conditions_plain_spec(lang, c) + text_total_spec(lang, st) + text_files(fs, lang)
}

fn push_indented(s: &mut String, text: &str)
    ensures
        final(s)@ == old(s)@ + indented(lines(text@)),
{
    let ls = lines_vec(text);
    let ghost lv = crate::text::string_views(ls@);
    let ghost start = s@;
    let mut i: usize = 0;
    assert(lv.take(0) =~= Seq::<Seq<char>>::empty());
    assert(start + Seq::<char>::empty() =~= start);
    while i < ls.len()
        invariant
            i <= ls.len(),
            lv == crate::text::string_views(ls@),
            s@ == start + indented(lv.take(i as int)),
        decreases ls.len() - i,
    {
        push_str(s, "  ");
        push_str(s, ls[i].as_str());
        push_str(s, "\n");
        assert(lv.take(i + 1).drop_last() =~= lv.take(i as int));
        i = i + 1;
    }
    assert(lv.take(ls.len() as int) =~= lv);
}

fn push_text_file(s: &mut String, f: &FileResult, t: Tr)
    ensures
        final(s)@ == old(s)@ + "## "@ + f.relative_path@ + "\n"@ + text_matches(f.matches@, t.0) + "\n"@,
{
    let ghost start = s@;
    push_str(s, "## ");
    push_str(s, f.relative_path.as_str());
    push_str(s, "\n");
    let ghost head = s@;
    let mut i: usize = 0;
    assert(f.matches@.take(0) =~= Seq::<MatchItem>::empty());
    assert(head + Seq::<char>::empty() =~= head);
    while i < f.matches.len()
        invariant
            i <= f.matches.len(),
            s@ == head + text_matches(f.matches@.take(i as int), t.0),
        decreases f.matches.len() - i,
    {
        let m = &f.matches[i];
        let h = t.export_line_match_header(m.line_start, m.col_start);
        push_str(s, h.as_str());
        let p = m.program_with_context();
        push_indented(s, p.as_str());
        assert(f.matches@.take(i + 1).drop_last() =~= f.matches@.take(i as int));
        i = i + 1;
    }
    assert(f.matches@.take(f.matches.len() as int) =~= f.matches@);
    push_str(s, "\n");
}

/// The results as plain text.
pub fn results_to_text(results: &[FileResult], stats: &SearchStats, cond: &SearchConditions, lang: UiLanguage) -> (r: String)
    ensures
        r@ == results_text_spec(results@, *stats, *cond, lang),
{
    let t = Tr(lang);
    let mut out = "# ".to_string();
    push_str(&mut out, t.export_text_title());
    push_str(&mut out, "\n");
    let c = format_search_conditions_plain(t, cond, lang);
    push_str(&mut out, c.as_str());
    let tot = t.export_text_total(stats.total_matches, stats.total_files, stats.elapsed_ms, stats.hit_limit_reached);
    push_str(&mut out, tot.as_str());
    let ghost head = out@;
    let mut i: usize = 0;
    assert(results@.take(0) =~= Seq::<FileResult>::empty());
    assert(head + Seq::<char>::empty() =~= head);
    while i < results.len()
        invariant
            i <= results.len(),
            out@ == head + text_files(results@.take(i as int), lang),
            t.0 == lang,
        decreases results.len() - i,
    {
        let ghost before = out@;
        push_text_file(&mut out, &results[i], t);
        assert(results@.take(i + 1).drop_last() =~= results@.take(i as int));
        assert(results@.take(i + 1).last() == results@[i as int]);
        assert(out@ =~= head + text_files(results@.take(i + 1), lang));
        i = i + 1;
    }
    assert(results@.take(results.len() as int) =~= results@);
    out
}

/// The plain-text export for a search mode (every mode uses the same layout).
pub fn results_to_text_for_mode(
    results: &[FileResult],
    stats: &SearchStats,
    cond: &SearchConditions,
    search_mode: SearchMode,
    lang: UiLanguage,
) -> (r: String)
    ensures
        r@ == results_text_spec(results@, *stats, *cond, lang),
{
    results_to_text(results, stats, cond, lang)
}

/// One file as the ast-grep console prints it: its path, then each match's
/// `line:col` and indented matched text (a blank indented line when empty).
pub open spec fn console_matches(ms: Seq<MatchItem>) -> Seq<char>
    decreases ms.len(),
{
    if ms.len() == 0 {
        Seq::empty()
    } else {
        let m = ms.last();
        console_matches(ms.drop_last()) + decimal(m.line_start as nat) + ":"@ + decimal(m.col_start as nat) + "\n"@
            + indented(lines(m.matched_text@))
            + (if m.matched_text@.len() == 0 { "  \n"@ } else { Seq::empty() })
    }
}

pub fn file_to_ast_grep_console(file: &FileResult) -> (r: String)
    ensures
        r@ == file.relative_path@ + "\n"@ + console_matches(file.matches@),
{
    let mut s = file.relative_path.clone();
    push_str(&mut s, "\n");
    let ghost head = s@;
    let mut i: usize = 0;
    assert(file.matches@.take(0) =~= Seq::<MatchItem>::empty());
    assert(head + Seq::<char>::empty() =~= head);
    while i < file.matches.len()
        invariant
            i <= file.matches.len(),
            s@ == head + console_matches(file.matches@.take(i as int)),
        decreases file.matches.len() - i,
    {
        let m = &file.matches[i];
        let ghost before = s@;
        push_decimal(&mut s, m.line_start as u64);
        push_str(&mut s, ":");
        push_decimal(&mut s, m.col_start as u64);
        push_str(&mut s, "\n");
        push_indented(&mut s, m.matched_text.as_str());
        let ghost mid = s@;
        if m.matched_text.as_str().is_empty() {
            push_str(&mut s, "  \n");
        }
        assert(s@ =~= mid + (if m.matched_text@.len() == 0 { "  \n"@ } else { Seq::<char>::empty() }));
        assert(s@ =~= before + decimal(m.line_start as nat) + ":"@ + decimal(m.col_start as nat) + "\n"@
            + indented(lines(m.matched_text@))
            + (if m.matched_text@.len() == 0 { "  \n"@ } else { Seq::<char>::empty() }));
        assert(file.matches@.take(i + 1).drop_last() =~= file.matches@.take(i as int));
        assert(file.matches@.take(i + 1).last() == file.matches@[i as int]);
        assert(s@ =~= head + console_matches(file.matches@.take(i + 1)));
        i = i + 1;
    }
    assert(file.matches@.take(file.matches.len() as int) =~= file.matches@);
    s
}

// ───────────────────────── Markdown ─────────────────────────

/// A Markdown table cell: `|` escaped, newlines as `<br>`.
pub open spec fn md_cell(s: Seq<char>) -> Seq<char> {
    replace_char(replace_char(s, '|', "\\|"@), '\n', "<br>"@)
}

/// A Markdown table cell holds no line break: every newline of the text is
/// written as `<br>`, so a table row stays on one line.
pub proof fn lemma_md_cell_one_line(s: Seq<char>)
    ensures
        !md_cell(s).contains('\n'),
{
    reveal_strlit("<br>");
    assert(!"<br>"@.contains('\n')) by {
        assert forall|k: int| 0 <= k < "<br>"@.len() implies "<br>"@[k] != '\n' by {}
    }
    crate::text::lemma_replace_char_removes(replace_char(s, '|', "\\|"@), '\n', "<br>"@);
}

fn md_cell_exec(s: &str) -> (r: String)
    ensures
        r@ == md_cell(s@),
        !r@.contains('\n'),
{
    proof { lemma_md_cell_one_line(s@); }
    let a = replace_char_string(s, '|', "\\|");
    replace_char_string(a.as_str(), '\n', "<br>")
}

pub open spec fn hint_text(m: MatchItem) -> Seq<char> {
    match m.recv_type_hint {
        Some(h) => h@,
        None => Seq::empty(),
    }
}

pub open spec fn md_row(path: Seq<char>, m: MatchItem, show_recv: bool) -> Seq<char> {
    "| `"@ + replace_char(path, '|', "\\|"@) + "` | "@ + decimal(m.line_start as nat) + " | "@ + decimal(m.col_start as nat)
        + " | "@ + md_cell(m.matched_text@) + " | "@ + md_cell(program_with_context_spec(m))
        + (if show_recv { " | "@ + md_cell(hint_text(m)) } else { Seq::empty() }) + " |\n"@
}

/// A Markdown table row of a match is exactly one line (for a path without
/// a line break): it ends in its only newline.
pub proof fn lemma_md_row_one_line(path: Seq<char>, m: MatchItem, show_recv: bool)
    requires
        !path.contains('\n'),
    ensures
        md_row(path, m, show_recv).last() == '\n',
        !md_row(path, m, show_recv).drop_last().contains('\n'),
{
    reveal_strlit("| `");
    reveal_strlit("` | ");
    reveal_strlit(" | ");
    reveal_strlit(" |\n");
    reveal_strlit(" |");
    reveal_strlit("\\|");
    assert(!"| `"@.contains('\n')) by {
        reveal_strlit("| `");
        assert forall|k: int| 0 <= k < "| `"@.len() implies #[trigger] "| `"@[k] != '\n' by {}
    }
    assert(!"` | "@.contains('\n')) by {
        reveal_strlit("` | ");
        assert forall|k: int| 0 <= k < "` | "@.len() implies #[trigger] "` | "@[k] != '\n' by {}
    }
    assert(!" | "@.contains('\n')) by {
        reveal_strlit(" | ");
        assert forall|k: int| 0 <= k < " | "@.len() implies #[trigger] " | "@[k] != '\n' by {}
    }
    assert(!" |"@.contains('\n')) by {
        reveal_strlit(" |");
        assert forall|k: int| 0 <= k < " |"@.len() implies #[trigger] " |"@[k] != '\n' by {}
    }
    assert(!"\\|"@.contains('\n')) by {
        reveal_strlit("\\|");
        assert forall|k: int| 0 <= k < "\\|"@.len() implies #[trigger] "\\|"@[k] != '\n' by {}
    }
    crate::text::lemma_replace_char_keeps_free(path, '|', "\\|"@, '\n');
    crate::text::lemma_decimal_one_line(m.line_start as nat);
    crate::text::lemma_decimal_one_line(m.col_start as nat);
    lemma_md_cell_one_line(m.matched_text@);
    lemma_md_cell_one_line(program_with_context_spec(m));
    lemma_md_cell_one_line(hint_text(m));
    let p1 = "| `"@ + replace_char(path, '|', "\\|"@);
    crate::text::lemma_concat_free("| `"@, replace_char(path, '|', "\\|"@), '\n');
    let p2 = p1 + "` | "@;
    crate::text::lemma_concat_free(p1, "` | "@, '\n');
    let p3 = p2 + decimal(m.line_start as nat);
    crate::text::lemma_concat_free(p2, decimal(m.line_start as nat), '\n');
    let p4 = p3 + " | "@;
    crate::text::lemma_concat_free(p3, " | "@, '\n');
    let p5 = p4 + decimal(m.col_start as nat);
    crate::text::lemma_concat_free(p4, decimal(m.col_start as nat), '\n');
    let p6 = p5 + " | "@;
    crate::text::lemma_concat_free(p5, " | "@, '\n');
    let p7 = p6 + md_cell(m.matched_text@);
    crate::text::lemma_concat_free(p6, md_cell(m.matched_text@), '\n');
    let p8 = p7 + " | "@;
    crate::text::lemma_concat_free(p7, " | "@, '\n');
    let p9 = p8 + md_cell(program_with_context_spec(m));
    crate::text::lemma_concat_free(p8, md_cell(program_with_context_spec(m)), '\n');
    let tail: Seq<char> = if show_recv { " | "@ + md_cell(hint_text(m)) } else { Seq::empty() };
    crate::text::lemma_concat_free(" | "@, md_cell(hint_text(m)), '\n');
    let p10 = p9 + tail;
    crate::text::lemma_concat_free(p9, tail, '\n');
    let p11 = p10 + " |"@;
    crate::text::lemma_concat_free(p10, " |"@, '\n');
    assert(" |\n"@ =~= " |"@.push('\n'));
    assert(md_row(path, m, show_recv) =~= p11.push('\n'));
    assert(p11.push('\n').drop_last() =~= p11);
}

pub open spec fn md_rows_of(path: Seq<char>, ms: Seq<MatchItem>, show_recv: bool) -> Seq<char>
    decreases ms.len(),
{
    if ms.len() == 0 { Seq::empty() } else { md_rows_of(path, ms.drop_last(), show_recv) + md_row(path, ms.last(), show_recv) }
}

pub open spec fn md_rows(fs: Seq<FileResult>, show_recv: bool) -> Seq<char>
    decreases fs.len(),
{
    if fs.len() == 0 { Seq::empty() } else { md_rows(fs.drop_last(), show_recv) + md_rows_of(fs.last().relative_path@, fs.last().matches@, show_recv) }
}

pub open spec fn md_stats_spec(lang: UiLanguage, st: SearchStats) -> Seq<char> {
    totals_text(lang, ("\n\n合計: **"@, "件** / **"@, "ファイル** / "@, "ms"@), ("\n\nTotal: **"@, "** matches / **"@, "** files / "@, "ms"@),
        "\n\n"@, st.total_matches as nat, st.total_files as nat, st.elapsed_ms as nat, st.hit_limit_reached)
}

/// The table header (with a `$RECV` column when the pattern uses it) and its separator line.
pub open spec fn md_table_head(lang: UiLanguage, show_recv: bool) -> Seq<char> {
    if show_recv {
        pick(lang, "| ファイル | 行 | 列 | マッチテキスト | 元コード（前後） |"@, "| File | Line | Col | Matched text | Source (context) |"@)
            + crate::i18n::metavar_cells(seq!["RECV"@]) + "\n"@ + md_table_sep_spec(6)
    } else {
        ts::export_md_table_header(lang) + md_table_sep_spec(5)
    }
}

/// Stats, table header and one row per match.
pub open spec fn md_table_spec(fs: Seq<FileResult>, st: SearchStats, c: SearchConditions, lang: UiLanguage) -> Seq<char> {
    let show_recv = contains(c.pattern@, "$RECV"@);
    md_stats_spec(lang, st) + md_table_head(lang, show_recv) + md_rows(fs, show_recv)
}

/// The Markdown export: heading, conditions, totals and the match table.
pub open spec fn results_markdown_spec(fs: Seq<FileResult>, st: SearchStats, c: SearchConditions, lang: UiLanguage) -> Seq<char> {
    "# "@ + ts::export_md_heading(lang) + "\n"@ + conditions_markdown_spec(lang, c) + md_table_spec(fs, st, c, lang)
}

fn push_md_row(s: &mut String, path: &str, m: &MatchItem, show_recv: bool)
    ensures
        final(s)@ == old(s)@ + md_row(path@, *m, show_recv),
{
    let matched_cell = md_cell_exec(m.matched_text.as_str());
    let p = m.program_with_context();
    let program_cell = md_cell_exec(p.as_str());
    let pe = replace_char_string(path, '|', "\\|");
    push_str(s, "| `");
    push_str(s, pe.as_str());
    push_str(s, "` | ");
    push_decimal(s, m.line_start as u64);
    push_str(s, " | ");
    push_decimal(s, m.col_start as u64);
    push_str(s, " | ");
    push_str(s, matched_cell.as_str());
    push_str(s, " | ");
    push_str(s, program_cell.as_str());
    let ghost before_hint = s@;
    if show_recv {
        let h = match &m.recv_type_hint {
            Some(h) => md_cell_exec(h.as_str()),
            None => md_cell_exec(""),
        };
        proof { reveal_strlit(""); }
        push_str(s, " | ");
        push_str(s, h.as_str());
    }
    assert(s@ =~= before_hint + (if show_recv { " | "@ + md_cell(hint_text(*m)) } else { Seq::<char>::empty() }));
    push_str(s, " |\n");
}

fn push_md_table(s: &mut String, results: &[FileResult], stats: &SearchStats, cond: &SearchConditions, t: Tr)
    ensures
        final(s)@ == old(s)@ + md_table_spec(results@, *stats, *cond, t.0),
{
    let ghost start = s@;
    let st = t.export_md_stats(stats.total_matches, stats.total_files, stats.elapsed_ms, stats.hit_limit_reached);
    push_str(s, st.as_str());
    let show_recv = crate::search::pattern_contains_dollar_recv(cond.pattern.as_str());
    if show_recv {
        let names: Vec<String> = vec!["RECV".to_string()];
        let h = t.export_md_table_header_with_metavars(names.as_slice());
        push_str(s, h.as_str());
        let sep = markdown_table_sep(6);
        push_str(s, sep.as_str());
        assert(crate::i18n::views_of(names@) =~= seq!["RECV"@]);
    } else {
        push_str(s, t.export_md_table_header());
        let sep = markdown_table_sep(5);
        push_str(s, sep.as_str());
    }
    let ghost head = s@;
    let mut i: usize = 0;
    assert(results@.take(0) =~= Seq::<FileResult>::empty());
    assert(head + Seq::<char>::empty() =~= head);
    while i < results.len()
        invariant
            i <= results.len(),
            s@ == head + md_rows(results@.take(i as int), show_recv),
        decreases results.len() - i,
    {
        let f = &results[i];
        let ghost before_file = s@;
        let mut k: usize = 0;
        assert(f.matches@.take(0) =~= Seq::<MatchItem>::empty());
        assert(before_file + Seq::<char>::empty() =~= before_file);
        while k < f.matches.len()
            invariant
                k <= f.matches.len(),
                s@ == before_file + md_rows_of(f.relative_path@, f.matches@.take(k as int), show_recv),
            decreases f.matches.len() - k,
        {
            let ghost before_row = s@;
            push_md_row(s, f.relative_path.as_str(), &f.matches[k], show_recv);
            assert(f.matches@.take(k + 1).drop_last() =~= f.matches@.take(k as int));
            assert(f.matches@.take(k + 1).last() == f.matches@[k as int]);
            assert(s@ =~= before_file + md_rows_of(f.relative_path@, f.matches@.take(k + 1), show_recv));
            k = k + 1;
        }
        assert(f.matches@.take(f.matches.len() as int) =~= f.matches@);
        assert(results@.take(i + 1).drop_last() =~= results@.take(i as int));
        assert(results@.take(i + 1).last() == results@[i as int]);
        assert(s@ =~= head + md_rows(results@.take(i + 1), show_recv));
        i = i + 1;
    }
    assert(results@.take(results.len() as int) =~= results@);
    assert(s@ =~= start + md_table_spec(results@, *stats, *cond, t.0));
}

/// The results as a Markdown document with a match table.
pub fn results_to_markdown(results: &[FileResult], stats: &SearchStats, cond: &SearchConditions, lang: UiLanguage) -> (r: String)
    ensures
        r@ == results_markdown_spec(results@, *stats, *cond, lang),
{
    let t = Tr(lang);
    let mut out = "# ".to_string();
    push_str(&mut out, t.export_md_heading());
    push_str(&mut out, "\n");
    let c = format_search_conditions_markdown(t, cond, lang);
    push_str(&mut out, c.as_str());
    push_md_table(&mut out, results, stats, cond, t);
    out
}


// ───────────────────────── HTML ─────────────────────────

/// `&`, `<`, `>` and `"` as HTML entities.
pub open spec fn html_escape(s: Seq<char>) -> Seq<char> {
    replace_char(replace_char(replace_char(replace_char(s, '&', "&amp;"@), '<', "&lt;"@), '>', "&gt;"@), '"', "&quot;"@)
}

pub fn html_escape_exec(s: &str) -> (r: String)
    ensures
        r@ == html_escape(s@),
{
    let a = replace_char_string(s, '&', "&amp;");
    let b = replace_char_string(a.as_str(), '<', "&lt;");
    let c = replace_char_string(b.as_str(), '>', "&gt;");
    replace_char_string(c.as_str(), '"', "&quot;")
}

/// Newlines as `<br>` followed by a newline.
pub open spec fn html_br(s: Seq<char>) -> Seq<char> {
    replace_char(s, '\n', "<br>\n"@)
}

/// One condition as a definition-list entry; the pattern is shown as code and
/// the numbers as they are.
pub open spec fn html_cond_row(i: int, label: Seq<char>, value: Seq<char>) -> Seq<char> {
    "<dt>"@ + html_escape(label) + "</dt><dd>"@
        + (if i == 1 {
            "<code>"@ + html_escape(value) + "</code>"@
        } else if i == 3 || i == 6 || i == 7 {
            value
        } else {
            html_escape(value)
        }) + "</dd>\n"@
}

pub open spec fn html_cond_rows(rows: Seq<(Seq<char>, Seq<char>)>) -> Seq<char>
    decreases rows.len(),
{
    if rows.len() == 0 {
        Seq::empty()
    } else {
        html_cond_rows(rows.drop_last()) + html_cond_row(rows.len() - 1, rows.last().0, rows.last().1)
    }
}

pub open spec fn html_row(path: Seq<char>, m: MatchItem, show_recv: bool) -> Seq<char> {
    "<tr>\n"@
        + "<td><code>"@ + html_escape(path) + "</code></td>\n"@
        + "<td>"@ + decimal(m.line_start as nat) + "</td>\n"@
        + "<td>"@ + decimal(m.col_start as nat) + "</td>\n"@
        + "<td><code>"@ + html_br(html_escape(m.matched_text@)) + "</code></td>\n"@
        + "<td><code>"@ + html_br(html_escape(program_with_context_spec(m))) + "</code></td>\n"@
        + (if show_recv { "<td><code>"@ + html_escape(hint_text(m)) + "</code></td>\n"@ } else { Seq::empty() })
        + "</tr>\n"@
}

pub open spec fn html_rows_of(path: Seq<char>, ms: Seq<MatchItem>, show_recv: bool) -> Seq<char>
    decreases ms.len(),
{
    if ms.len() == 0 { Seq::empty() } else { html_rows_of(path, ms.drop_last(), show_recv) + html_row(path, ms.last(), show_recv) }
}

pub open spec fn html_rows(fs: Seq<FileResult>, show_recv: bool) -> Seq<char>
    decreases fs.len(),
{
    if fs.len() == 0 { Seq::empty() } else { html_rows(fs.drop_last(), show_recv) + html_rows_of(fs.last().relative_path@, fs.last().matches@, show_recv) }
}

pub open spec fn html_stats_spec(lang: UiLanguage, st: SearchStats) -> Seq<char> {
    totals_text(lang, ("<p class=\"stats\">合計: <b>"@, "件</b> / <b>"@, "ファイル</b> / "@, "ms"@),
        ("<p class=\"stats\">Total: <b>"@, "</b> matches / <b>"@, "</b> files / "@, "ms"@),
        "</p>\n"@, st.total_matches as nat, st.total_files as nat, st.elapsed_ms as nat, st.hit_limit_reached)
}

pub open spec fn html_table_head(lang: UiLanguage, show_recv: bool) -> Seq<char> {
    "<table>\n<thead>\n<tr>\n"@
        + "<th>"@ + ts::export_html_th_file(lang) + "</th><th>"@ + ts::export_html_th_line(lang)
        + "</th><th>"@ + ts::export_html_th_col(lang) + "</th><th>"@ + ts::export_html_th_match(lang)
        + "</th><th>"@ + ts::export_html_th_source_context(lang) + "</th>"@
        + (if show_recv { "<th>$RECV</th>"@ } else { Seq::empty() })
        + "\n"@ + "</tr>\n</thead>\n<tbody>\n"@
}

/// Conditions, totals and the match table, as the inside of an HTML `<body>`.
pub open spec fn html_fragment_spec(fs: Seq<FileResult>, st: SearchStats, c: SearchConditions, lang: UiLanguage) -> Seq<char> {
    let show_recv = contains(c.pattern@, "$RECV"@);
    "<h2 class=\"cond\">"@ + ts::export_html_conditions_heading(lang) + "</h2>\n<dl class=\"conditions\">\n"@
        + html_cond_rows(condition_rows(lang, c)) + "</dl>\n"@ + html_stats_spec(lang, st)
        + html_table_head(lang, show_recv) + html_rows(fs, show_recv) + "</tbody>\n</table>\n"@
}

fn push_html_cond_rows(s: &mut String, rows: &Vec<(String, String)>)
    ensures
        final(s)@ == old(s)@ + html_cond_rows(row_views(rows@)),
{
    let ghost start = s@;
    let mut i: usize = 0;
    assert(row_views(rows@).take(0) =~= Seq::<(Seq<char>, Seq<char>)>::empty());
    assert(start + Seq::<char>::empty() =~= start);
    while i < rows.len()
        invariant
            i <= rows.len(),
            s@ == start + html_cond_rows(row_views(rows@).take(i as int)),
        decreases rows.len() - i,
    {
        let ghost before = s@;
        push_str(s, "<dt>");
        let l = html_escape_exec(rows[i].0.as_str());
        push_str(s, l.as_str());
        push_str(s, "</dt><dd>");
        let ghost mid = s@;
        if i == 1 {
            push_str(s, "<code>");
            let v = html_escape_exec(rows[i].1.as_str());
            push_str(s, v.as_str());
            push_str(s, "</code>");
        } else if i == 3 || i == 6 || i == 7 {
            push_str(s, rows[i].1.as_str());
        } else {
            let v = html_escape_exec(rows[i].1.as_str());
            push_str(s, v.as_str());
        }
        push_str(s, "</dd>\n");
        proof {
            let a = row_views(rows@).take(i + 1);
            assert(a.drop_last() =~= row_views(rows@).take(i as int));
            assert(a.last() == (rows@[i as int].0@, rows@[i as int].1@));
            assert(s@ =~= before + html_cond_row(i as int, rows@[i as int].0@, rows@[i as int].1@));
        }
        i = i + 1;
    }
    assert(row_views(rows@).take(rows.len() as int) =~= row_views(rows@));
}

#[verifier::rlimit(50)]
#[verifier::spinoff_prover]
fn push_html_row(s: &mut String, path: &str, m: &MatchItem, show_recv: bool)
    ensures
        final(s)@ == old(s)@ + html_row(path@, *m, show_recv),
{
    let ghost start = s@;
    let me = html_escape_exec(m.matched_text.as_str());
    let matched_html = replace_char_string(me.as_str(), '\n', "<br>\n");
    let p = m.program_with_context();
    let pe = html_escape_exec(p.as_str());
    let program_html = replace_char_string(pe.as_str(), '\n', "<br>\n");
    let path_e = html_escape_exec(path);
    push_str(s, "<tr>\n");
    push_str(s, "<td><code>");
    push_str(s, path_e.as_str());
    push_str(s, "</code></td>\n");
    let ghost s1 = s@;
    assert(s1 =~= start + ("<tr>\n"@ + "<td><code>"@ + html_escape(path@) + "</code></td>\n"@));
    push_str(s, "<td>");
    push_decimal(s, m.line_start as u64);
    push_str(s, "</td>\n");
    push_str(s, "<td>");
    push_decimal(s, m.col_start as u64);
    push_str(s, "</td>\n");
    let ghost s2 = s@;
    assert(s2 =~= s1 + ("<td>"@ + decimal(m.line_start as nat) + "</td>\n"@ + "<td>"@ + decimal(m.col_start as nat) + "</td>\n"@));
    push_str(s, "<td><code>");
    push_str(s, matched_html.as_str());
    push_str(s, "</code></td>\n");
    push_str(s, "<td><code>");
    push_str(s, program_html.as_str());
    push_str(s, "</code></td>\n");
    let ghost s3 = s@;
    assert(s3 =~= s2 + ("<td><code>"@ + html_br(html_escape(m.matched_text@)) + "</code></td>\n"@
        + "<td><code>"@ + html_br(html_escape(program_with_context_spec(*m))) + "</code></td>\n"@));
    if show_recv {
        let h: &str = match &m.recv_type_hint {
            Some(h) => h.as_str(),
            None => "",
        };
        proof { reveal_strlit(""); }
        assert(h@ == hint_text(*m));
        let he = html_escape_exec(h);
        push_str(s, "<td><code>");
        push_str(s, he.as_str());
        push_str(s, "</code></td>\n");
    }
    let ghost s4 = s@;
    assert(s4 =~= s3 + (if show_recv { "<td><code>"@ + html_escape(hint_text(*m)) + "</code></td>\n"@ } else { Seq::<char>::empty() }));
    push_str(s, "</tr>\n");
    assert(s@ =~= start + html_row(path@, *m, show_recv));
}

/// Conditions, totals and the table head.
pub open spec fn html_preamble_spec(st: SearchStats, c: SearchConditions, lang: UiLanguage) -> Seq<char> {
    "<h2 class=\"cond\">"@ + ts::export_html_conditions_heading(lang) + "</h2>\n<dl class=\"conditions\">\n"@
        + html_cond_rows(condition_rows(lang, c)) + "</dl>\n"@ + html_stats_spec(lang, st)
        + html_table_head(lang, contains(c.pattern@, "$RECV"@))
}

fn push_html_preamble(s: &mut String, stats: &SearchStats, cond: &SearchConditions, t: Tr)
    ensures
        final(s)@ == old(s)@ + html_preamble_spec(*stats, *cond, t.0),
{
    let ghost start = s@;
    let lang = t.0;
    push_str(s, "<h2 class=\"cond\">");
    push_str(s, t.export_html_conditions_heading());
    push_str(s, "</h2>\n<dl class=\"conditions\">\n");
    let rows = condition_rows_exec(t, cond);
    push_html_cond_rows(s, &rows);
    push_str(s, "</dl>\n");
    let st = t.export_html_stats(stats.total_matches, stats.total_files, stats.elapsed_ms, stats.hit_limit_reached);
    push_str(s, st.as_str());
    let show_recv = crate::search::pattern_contains_dollar_recv(cond.pattern.as_str());
    let ghost before_head = s@;
    push_html_table_head(s, t, show_recv);
    assert(s@ =~= start + html_preamble_spec(*stats, *cond, lang));
}

fn push_html_table_head(s: &mut String, t: Tr, show_recv: bool)
    ensures
        final(s)@ == old(s)@ + html_table_head(t.0, show_recv),
{
    let ghost before_head = s@;
    push_str(s, "<table>\n<thead>\n<tr>\n");
    push_str(s, "<th>");
    push_str(s, t.export_html_th_file());
    push_str(s, "</th><th>");
    push_str(s, t.export_html_th_line());
    push_str(s, "</th><th>");
    push_str(s, t.export_html_th_col());
    push_str(s, "</th><th>");
    push_str(s, t.export_html_th_match());
    push_str(s, "</th><th>");
    push_str(s, t.export_html_th_source_context());
    push_str(s, "</th>");
    let ghost before_recv = s@;
    if show_recv {
        push_str(s, "<th>$RECV</th>");
    }
    assert(s@ =~= before_recv + (if show_recv { "<th>$RECV</th>"@ } else { Seq::<char>::empty() }));
    push_str(s, "\n");
    push_str(s, "</tr>\n</thead>\n<tbody>\n");
    assert(s@ =~= before_head + html_table_head(t.0, show_recv));
}

fn push_html_file_rows(s: &mut String, f: &FileResult, show_recv: bool)
    ensures
        final(s)@ == old(s)@ + html_rows_of(f.relative_path@, f.matches@, show_recv),
{
    let ghost before_file = s@;
    let mut k: usize = 0;
    assert(f.matches@.take(0) =~= Seq::<MatchItem>::empty());
    assert(before_file + Seq::<char>::empty() =~= before_file);
    while k < f.matches.len()
        invariant
            k <= f.matches.len(),
            s@ == before_file + html_rows_of(f.relative_path@, f.matches@.take(k as int), show_recv),
        decreases f.matches.len() - k,
    {
        push_html_row(s, f.relative_path.as_str(), &f.matches[k], show_recv);
        assert(f.matches@.take(k + 1).drop_last() =~= f.matches@.take(k as int));
        assert(f.matches@.take(k + 1).last() == f.matches@[k as int]);
        assert(s@ =~= before_file + html_rows_of(f.relative_path@, f.matches@.take(k + 1), show_recv));
        k = k + 1;
    }
    assert(f.matches@.take(f.matches.len() as int) =~= f.matches@);
}

fn push_html_rows(s: &mut String, results: &[FileResult], show_recv: bool)
    ensures
        final(s)@ == old(s)@ + html_rows(results@, show_recv),
{
    let ghost head = s@;
    let mut i: usize = 0;
    assert(results@.take(0) =~= Seq::<FileResult>::empty());
    assert(head + Seq::<char>::empty() =~= head);
    while i < results.len()
        invariant
            i <= results.len(),
            s@ == head + html_rows(results@.take(i as int), show_recv),
        decreases results.len() - i,
    {
        push_html_file_rows(s, &results[i], show_recv);
        assert(results@.take(i + 1).drop_last() =~= results@.take(i as int));
        assert(results@.take(i + 1).last() == results@[i as int]);
        assert(s@ =~= head + html_rows(results@.take(i + 1), show_recv));
        i = i + 1;
    }
    assert(results@.take(results.len() as int) =~= results@);
}

fn push_html_fragment(s: &mut String, results: &[FileResult], stats: &SearchStats, cond: &SearchConditions, t: Tr)
    ensures
        final(s)@ == old(s)@ + html_fragment_spec(results@, *stats, *cond, t.0),
{
    let ghost start = s@;
    push_html_preamble(s, stats, cond, t);
    let show_recv = crate::search::pattern_contains_dollar_recv(cond.pattern.as_str());
    push_html_rows(s, results, show_recv);
    push_str(s, "</tbody>\n</table>\n");
    assert(s@ =~= start + html_fragment_spec(results@, *stats, *cond, t.0));
}

/// The style sheet of the results page.
pub open spec fn results_css() -> Seq<char> {
    "body { font-family: sans-serif; margin: 20px; }\n"@
        + "h1 { font-size: 1.4em; }\n"@
        + "h2.cond { font-size: 1.1em; margin: 1em 0 0.5em; }\n"@
        + "dl.conditions { display: grid; grid-template-columns: 200px 1fr; column-gap: 8px; row-gap: 0.35em; margin: 0 0 14px; align-items: start; }\n"@
        + "dl.conditions dt { font-weight: 600; margin: 0; padding: 0; }\n"@
        + "dl.conditions dd { margin: 0; word-break: break-word; }\n"@
        + ".stats { color: #555; font-size: 0.9em; margin-bottom: 12px; }\n"@
        + "table { border-collapse: collapse; width: 100%; }\n"@
        + "th { background: #333; color: #fff; padding: 6px 10px; text-align: left; }\n"@
        + "td { padding: 5px 10px; border-bottom: 1px solid #ddd; vertical-align: top; }\n"@
        + "tr:hover { background: #f5f5f5; }\n"@
        + "code { background: #eee; padding: 1px 4px; border-radius: 3px; font-size: 0.9em; }\n"@
}

/// The HTML results page.
pub open spec fn results_html_spec(fs: Seq<FileResult>, st: SearchStats, c: SearchConditions, lang: UiLanguage) -> Seq<char> {
    "<!DOCTYPE html>\n<html lang=\""@ + ts::export_html_lang(lang) + "\">\n<head>\n"@
        + "<meta charset=\"UTF-8\">\n"@ + "<title>"@ + ts::export_html_title(lang) + "</title>\n"@
        + "<style>\n"@ + results_css() + "</style>\n</head>\n<body>\n"@
        + "<h1>"@ + ts::export_html_title(lang) + "</h1>\n"@
        + html_fragment_spec(fs, st, c, lang) + "</body>\n</html>\n"@
}

pub fn results_to_html(results: &[FileResult], stats: &SearchStats, cond: &SearchConditions, lang: UiLanguage) -> (r: String)
    ensures
        r@ == results_html_spec(results@, *stats, *cond, lang),
{
    let t = Tr(lang);
    let mut out = "<!DOCTYPE html>\n<html lang=\"".to_string();
    push_str(&mut out, t.export_html_lang());
    push_str(&mut out, "\">\n<head>\n");
    push_str(&mut out, "<meta charset=\"UTF-8\">\n");
    push_str(&mut out, "<title>");
    push_str(&mut out, t.export_html_title());
    push_str(&mut out, "</title>\n");
    push_str(&mut out, "<style>\n");
    let ghost css_start = out@;
    push_str(&mut out, "body { font-family: sans-serif; margin: 20px; }\n");
    push_str(&mut out, "h1 { font-size: 1.4em; }\n");
    push_str(&mut out, "h2.cond { font-size: 1.1em; margin: 1em 0 0.5em; }\n");
    push_str(&mut out, "dl.conditions { display: grid; grid-template-columns: 200px 1fr; column-gap: 8px; row-gap: 0.35em; margin: 0 0 14px; align-items: start; }\n");
    push_str(&mut out, "dl.conditions dt { font-weight: 600; margin: 0; padding: 0; }\n");
    push_str(&mut out, "dl.conditions dd { margin: 0; word-break: break-word; }\n");
    push_str(&mut out, ".stats { color: #555; font-size: 0.9em; margin-bottom: 12px; }\n");
    push_str(&mut out, "table { border-collapse: collapse; width: 100%; }\n");
    push_str(&mut out, "th { background: #333; color: #fff; padding: 6px 10px; text-align: left; }\n");
    push_str(&mut out, "td { padding: 5px 10px; border-bottom: 1px solid #ddd; vertical-align: top; }\n");
    push_str(&mut out, "tr:hover { background: #f5f5f5; }\n");
    push_str(&mut out, "code { background: #eee; padding: 1px 4px; border-radius: 3px; font-size: 0.9em; }\n");
    assert(out@ =~= css_start + results_css());
    push_str(&mut out, "</style>\n</head>\n<body>\n");
    push_str(&mut out, "<h1>");
    push_str(&mut out, t.export_html_h1());
    push_str(&mut out, "</h1>\n");
    push_html_fragment(&mut out, results, stats, cond, t);
    push_str(&mut out, "</body>\n</html>\n");
    out
}


// ───────────────────────── batch reports ─────────────────────────

pub open spec fn batch_summary_spec(lang: UiLanguage, r: BatchReport) -> Seq<char> {
    let ms = r.total_elapsed_ms as nat;
    let m = sum_matches(r.runs@);
    let f = sum_files(r.runs@);
    let n = r.runs@.len();
    let failed = count_failed(r.runs@);
    pick(lang,
        "合計時間: "@ + decimal(ms) + " ms ／ 合計マッチ: "@ + decimal(m) + " ／ 合計ファイル: "@ + decimal(f)
            + " ／ ジョブ数: "@ + decimal(n) + " ／ 失敗: "@ + decimal(failed),
        "Total time: "@ + decimal(ms) + " ms / Matches: "@ + decimal(m) + " / Files: "@ + decimal(f)
            + " / Jobs: "@ + decimal(n) + " / Failed: "@ + decimal(failed))
}

/// The report's totals fit in `usize` (as the summary line needs).
pub open spec fn report_totals_fit(r: BatchReport) -> bool {
    sum_matches(r.runs@) <= usize::MAX && sum_files(r.runs@) <= usize::MAX
}

fn batch_summary(t: Tr, report: &BatchReport) -> (r: String)
    requires
        report_totals_fit(*report),
    ensures
        r@ == batch_summary_spec(t.0, *report),
{
    let m = report.total_matches();
    let f = report.total_files();
    let failed = report.failed_count();
    t.batch_report_summary(report.total_elapsed_ms, m, f, report.runs.len(), failed)
}

pub open spec fn error_text(run: BatchRunResult) -> Seq<char> {
    match run.error {
        Some(e) => e@,
        None => Seq::empty(),
    }
}

pub open spec fn text_runs(runs: Seq<BatchRunResult>, lang: UiLanguage) -> Seq<char>
    decreases runs.len(),
{
    if runs.len() == 0 {
        Seq::empty()
    } else {
        text_runs(runs.drop_last(), lang) + text_run(runs.last(), lang)
    }
}

/// The batch report as plain text: title and totals, then one section per job.
pub open spec fn batch_text_spec(r: BatchReport, lang: UiLanguage) -> Seq<char> {
    "# "@ + ts::batch_report_title(lang) + "\n"@ + batch_summary_spec(lang, r) + "\n\n"@ + text_runs(r.runs@, lang)
}

pub open spec fn text_run(run: BatchRunResult, lang: UiLanguage) -> Seq<char> {
    "\n\n=== "@ + run.label@ + " ===\n"@
        + (if run.error is Some {
            "ERROR: "@ + error_text(run) + "\n"@
        } else {
            results_text_spec(run.results@, run.stats, run.conditions, lang)
        })
}

fn push_text_run(out: &mut String, run: &BatchRunResult, lang: UiLanguage)
    ensures
        final(out)@ == old(out)@ + text_run(*run, lang),
{
    let ghost start = out@;
    push_str(out, "\n\n=== ");
    push_str(out, run.label.as_str());
    push_str(out, " ===\n");
    let ghost mid = out@;
    match &run.error {
        Some(e) => {
            push_str(out, "ERROR: ");
            push_str(out, e.as_str());
            push_str(out, "\n");
        },
        None => {
            let body = results_to_text_for_mode(run.results.as_slice(), &run.stats, &run.conditions, run.conditions.search_mode, lang);
            push_str(out, body.as_str());
        },
    }
    assert(out@ =~= start + text_run(*run, lang));
}

pub fn batch_report_to_text(report: &BatchReport, lang: UiLanguage) -> (r: String)
    requires
        report_totals_fit(*report),
    ensures
        r@ == batch_text_spec(*report, lang),
{
    let t = Tr(lang);
    let mut out = "# ".to_string();
    push_str(&mut out, t.batch_report_title());
    push_str(&mut out, "\n");
    let sm = batch_summary(t, report);
    push_str(&mut out, sm.as_str());
    push_str(&mut out, "\n\n");
    let ghost head = out@;
    let mut i: usize = 0;
    assert(report.runs@.take(0) =~= Seq::<BatchRunResult>::empty());
    assert(head + Seq::<char>::empty() =~= head);
    while i < report.runs.len()
        invariant
            i <= report.runs.len(),
            out@ == head + text_runs(report.runs@.take(i as int), lang),
        decreases report.runs.len() - i,
    {
        push_text_run(&mut out, &report.runs[i], lang);
        assert(report.runs@.take(i + 1).drop_last() =~= report.runs@.take(i as int));
        assert(report.runs@.take(i + 1).last() == report.runs@[i as int]);
        assert(out@ =~= head + text_runs(report.runs@.take(i + 1), lang));
        i = i + 1;
    }
    assert(report.runs@.take(report.runs.len() as int) =~= report.runs@);
    out
}

pub open spec fn md_runs(runs: Seq<BatchRunResult>, lang: UiLanguage) -> Seq<char>
    decreases runs.len(),
{
    if runs.len() == 0 {
        Seq::empty()
    } else {
        md_runs(runs.drop_last(), lang) + md_run(runs.last(), lang)
    }
}

/// The batch report as Markdown: title, totals, then one section per job.
pub open spec fn batch_markdown_spec(r: BatchReport, lang: UiLanguage) -> Seq<char> {
    "# "@ + ts::batch_report_title(lang) + "\n\n"@ + batch_summary_spec(lang, r) + "\n\n"@ + md_runs(r.runs@, lang)
}

pub open spec fn md_run(run: BatchRunResult, lang: UiLanguage) -> Seq<char> {
    "## "@ + run.label@ + "\n\n"@
        + (if run.error is Some {
            "**ERROR:** "@ + error_text(run) + "\n\n"@
        } else {
            conditions_markdown_spec(lang, run.conditions) + md_table_spec(run.results@, run.stats, run.conditions, lang) + "\n"@
        })
}

fn push_md_run(out: &mut String, run: &BatchRunResult, t: Tr)
    ensures
        final(out)@ == old(out)@ + md_run(*run, t.0),
{
    let ghost start = out@;
    push_str(out, "## ");
    push_str(out, run.label.as_str());
    push_str(out, "\n\n");
    match &run.error {
        Some(e) => {
            push_str(out, "**ERROR:** ");
            push_str(out, e.as_str());
            push_str(out, "\n\n");
        },
        None => {
            let c = format_search_conditions_markdown(t, &run.conditions, t.0);
            push_str(out, c.as_str());
            push_md_table(out, run.results.as_slice(), &run.stats, &run.conditions, t);
            push_str(out, "\n");
        },
    }
    assert(out@ =~= start + md_run(*run, t.0));
}

#[verifier::rlimit(40)]
pub fn batch_report_to_markdown(report: &BatchReport, lang: UiLanguage) -> (r: String)
    requires
        report_totals_fit(*report),
    ensures
        r@ == batch_markdown_spec(*report, lang),
{
    let t = Tr(lang);
    let mut out = "# ".to_string();
    push_str(&mut out, t.batch_report_title());
    push_str(&mut out, "\n\n");
    let sm = batch_summary(t, report);
    push_str(&mut out, sm.as_str());
    push_str(&mut out, "\n\n");
    let ghost head = out@;
    let mut i: usize = 0;
    assert(report.runs@.take(0) =~= Seq::<BatchRunResult>::empty());
    assert(head + Seq::<char>::empty() =~= head);
    while i < report.runs.len()
        invariant
            i <= report.runs.len(),
            out@ == head + md_runs(report.runs@.take(i as int), lang),
            t.0 == lang,
        decreases report.runs.len() - i,
    {
        push_md_run(&mut out, &report.runs[i], t);
        assert(report.runs@.take(i + 1).drop_last() =~= report.runs@.take(i as int));
        assert(report.runs@.take(i + 1).last() == report.runs@[i as int]);
        assert(out@ =~= head + md_runs(report.runs@.take(i + 1), lang));
        i = i + 1;
    }
    assert(report.runs@.take(report.runs.len() as int) =~= report.runs@);
    out
}

pub open spec fn html_runs(runs: Seq<BatchRunResult>, lang: UiLanguage) -> Seq<char>
    decreases runs.len(),
{
    if runs.len() == 0 {
        Seq::empty()
    } else {
        html_runs(runs.drop_last(), lang) + html_run(runs.last(), lang)
    }
}

pub open spec fn html_run(run: BatchRunResult, lang: UiLanguage) -> Seq<char> {
    "<h2 class=\"job\">"@ + html_escape(run.label@) + "</h2>\n"@
        + (if run.error is Some {
            "<p><strong>ERROR:</strong> "@ + html_escape(error_text(run)) + "</p>\n"@
        } else {
            html_fragment_spec(run.results@, run.stats, run.conditions, lang)
        })
}

fn push_html_run(out: &mut String, run: &BatchRunResult, t: Tr)
    ensures
        final(out)@ == old(out)@ + html_run(*run, t.0),
{
    let ghost start = out@;
    push_str(out, "<h2 class=\"job\">");
    let le = html_escape_exec(run.label.as_str());
    push_str(out, le.as_str());
    push_str(out, "</h2>\n");
    match &run.error {
        Some(e) => {
            push_str(out, "<p><strong>ERROR:</strong> ");
            let ee = html_escape_exec(e.as_str());
            push_str(out, ee.as_str());
            push_str(out, "</p>\n");
        },
        None => {
            push_html_fragment(out, run.results.as_slice(), &run.stats, &run.conditions, t);
        },
    }
    assert(out@ =~= start + html_run(*run, t.0));
}

/// The style sheet of the batch report page.
pub open spec fn batch_css() -> Seq<char> {
    "body { font-family: sans-serif; margin: 20px; }\n"@
        + "h1 { font-size: 1.4em; }\n"@
        + "h2.job { font-size: 1.15em; margin-top: 1.2em; border-bottom: 1px solid #ccc; }\n"@
        + "h2.cond { font-size: 1.1em; margin: 1em 0 0.5em; }\n"@
        + "dl.conditions { display: grid; grid-template-columns: 200px 1fr; column-gap: 8px; row-gap: 0.35em; margin: 0 0 14px; align-items: start; }\n"@
        + "dl.conditions dt { font-weight: 600; margin: 0; padding: 0; }\n"@
        + "dl.conditions dd { margin: 0; word-break: break-word; }\n"@
        + ".stats { color: #555; font-size: 0.9em; margin-bottom: 12px; }\n"@
        + "table { border-collapse: collapse; width: 100%; margin-bottom: 1em; }\n"@
        + "th { background: #333; color: #fff; padding: 6px 10px; text-align: left; }\n"@
        + "td { padding: 5px 10px; border-bottom: 1px solid #ddd; vertical-align: top; }\n"@
}

/// The batch report as an HTML page: title, totals, then one section per job.
pub open spec fn batch_html_spec(r: BatchReport, lang: UiLanguage) -> Seq<char> {
    "<!DOCTYPE html>\n<html lang=\""@ + ts::export_html_lang(lang) + "\">\n<head>\n<meta charset=\"UTF-8\">\n<title>"@
        + ts::batch_report_title(lang) + "</title>\n<style>\n"@ + batch_css() + "</style>\n</head>\n<body>\n"@
        + "<h1>"@ + ts::batch_report_title(lang) + "</h1>\n<p>"@ + html_escape(batch_summary_spec(lang, r)) + "</p>\n"@
        + html_runs(r.runs@, lang) + "</body>\n</html>\n"@
}

fn push_batch_html_head(out: &mut String, t: Tr, report: &BatchReport)
    requires
        report_totals_fit(*report),
    ensures
        final(out)@ == old(out)@ + "<!DOCTYPE html>\n<html lang=\""@ + ts::export_html_lang(t.0) + "\">\n<head>\n<meta charset=\"UTF-8\">\n<title>"@
            + ts::batch_report_title(t.0) + "</title>\n<style>\n"@ + batch_css() + "</style>\n</head>\n<body>\n"@
            + "<h1>"@ + ts::batch_report_title(t.0) + "</h1>\n<p>"@ + html_escape(batch_summary_spec(t.0, *report)) + "</p>\n"@,
{
    let ghost start = out@;
    push_str(out, "<!DOCTYPE html>\n<html lang=\"");
    push_str(out, t.export_html_lang());
    push_str(out, "\">\n<head>\n<meta charset=\"UTF-8\">\n<title>");
    push_str(out, t.batch_report_title());
    push_str(out, "</title>\n<style>\n");
    let ghost css_start = out@;
    push_str(out, "body { font-family: sans-serif; margin: 20px; }\n");
    push_str(out, "h1 { font-size: 1.4em; }\n");
    push_str(out, "h2.job { font-size: 1.15em; margin-top: 1.2em; border-bottom: 1px solid #ccc; }\n");
    push_str(out, "h2.cond { font-size: 1.1em; margin: 1em 0 0.5em; }\n");
    push_str(out, "dl.conditions { display: grid; grid-template-columns: 200px 1fr; column-gap: 8px; row-gap: 0.35em; margin: 0 0 14px; align-items: start; }\n");
    push_str(out, "dl.conditions dt { font-weight: 600; margin: 0; padding: 0; }\n");
    push_str(out, "dl.conditions dd { margin: 0; word-break: break-word; }\n");
    push_str(out, ".stats { color: #555; font-size: 0.9em; margin-bottom: 12px; }\n");
    push_str(out, "table { border-collapse: collapse; width: 100%; margin-bottom: 1em; }\n");
    push_str(out, "th { background: #333; color: #fff; padding: 6px 10px; text-align: left; }\n");
    push_str(out, "td { padding: 5px 10px; border-bottom: 1px solid #ddd; vertical-align: top; }\n");
    assert(out@ =~= css_start + batch_css());
    push_str(out, "</style>\n</head>\n<body>\n");
    push_str(out, "<h1>");
    push_str(out, t.batch_report_title());
    push_str(out, "</h1>\n<p>");
    let sm = batch_summary(t, report);
    let se = html_escape_exec(sm.as_str());
    push_str(out, se.as_str());
    push_str(out, "</p>\n");
}

#[verifier::rlimit(40)]
pub fn batch_report_to_html(report: &BatchReport, lang: UiLanguage) -> (r: String)
    requires
        report_totals_fit(*report),
    ensures
        r@ == batch_html_spec(*report, lang),
{
    let t = Tr(lang);
    let mut out = String::new();
    proof { reveal_strlit(""); }
    push_batch_html_head(&mut out, t, report);
    let ghost head = out@;
    let mut i: usize = 0;
    assert(report.runs@.take(0) =~= Seq::<BatchRunResult>::empty());
    assert(head + Seq::<char>::empty() =~= head);
    while i < report.runs.len()
        invariant
            i <= report.runs.len(),
            out@ == head + html_runs(report.runs@.take(i as int), lang),
            t.0 == lang,
        decreases report.runs.len() - i,
    {
        push_html_run(&mut out, &report.runs[i], t);
        assert(report.runs@.take(i + 1).drop_last() =~= report.runs@.take(i as int));
        assert(report.runs@.take(i + 1).last() == report.runs@[i as int]);
        assert(out@ =~= head + html_runs(report.runs@.take(i + 1), lang));
        i = i + 1;
    }
    assert(report.runs@.take(report.runs.len() as int) =~= report.runs@);
    push_str(&mut out, "</body>\n</html>\n");
    out
}

// ───────────────────────── workbook helpers ─────────────────────────

pub open spec fn sheet_char(c: char) -> char {
    if c == '[' || c == ']' || c == '*' || c == '?' || c == ':' || c == '/' || c == '\\' { '_' } else { c }
}

/// A worksheet name from a job label: the characters Excel forbids replaced
/// by `_`, at most 31 characters; `job_<index>` when that leaves nothing.
pub open spec fn sheet_name_spec(name: Seq<char>, index: usize) -> Seq<char> {
    let head = if name.len() > 31 { name.take(31) } else { name };
    if head.len() == 0 {
        "job_"@ + decimal(index as nat)
    } else {
        Seq::new(head.len(), |i: int| sheet_char(head[i]))
    }
}

pub fn sanitize_excel_sheet_name(name: &str, index: usize) -> (r: String)
    ensures
        r@ == sheet_name_spec(name@, index),
{
    let v = chars_of(name);
    let n: usize = if v.len() > 31 { 31 } else { v.len() };
    let ghost head = if name@.len() > 31 { name@.take(31) } else { name@ };
    assert(head =~= v@.take(n as int));
    if n == 0 {
        let mut s = "job_".to_string();
        let d = usize_string(index);
        push_str(&mut s, d.as_str());
        return s;
    }
    let mut s = String::new();
    let mut i: usize = 0;
    proof { reveal_strlit(""); }
    while i < n
        invariant
            i <= n <= v.len(),
            s@ =~= Seq::new(i as nat, |k: int| sheet_char(v@[k])),
        decreases n - i,
    {
        let c = v[i];
        let m = if c == '[' || c == ']' || c == '*' || c == '?' || c == ':' || c == '/' || c == '\\' { '_' } else { c };
        push_char(&mut s, m);
        i = i + 1;
    }
    assert(s@ =~= Seq::new(head.len(), |k: int| sheet_char(head[k])));
    s
}

// ───────────────────────── laws ─────────────────────────

proof fn lemma_replace_char_absent(s: Seq<char>, c: char, r: Seq<char>, d: char)
    requires
        !contains_char(r, d),
        d == c || !contains_char(s, d),
    ensures
        !contains_char(replace_char(s, c, r), d),
    decreases s.len(),
{
    if s.len() > 0 {
        let init = s.drop_last();
        assert(d == c || !contains_char(init, d)) by {
            if d != c && contains_char(init, d) {
                let i = choose|i: int| 0 <= i < init.len() && init[i] == d;
                assert(s[i] == d);
            }
        }
        lemma_replace_char_absent(init, c, r, d);
        let tail = if s.last() == c { r } else { seq![s.last()] };
        assert(!contains_char(tail, d)) by {
            if s.last() != c {
                assert(s[s.len() - 1] == s.last());
                if contains_char(tail, d) {
                    assert(tail[0] == d);
                }
            }
        }
        let whole = replace_char(init, c, r) + tail;
        assert forall|i: int| 0 <= i < whole.len() implies whole[i] != d by {
            if i < replace_char(init, c, r).len() {
                assert(whole[i] == replace_char(init, c, r)[i]);
            } else {
                assert(whole[i] == tail[i - replace_char(init, c, r).len()]);
            }
        }
    }
}

/// HTML-escaped text holds no `<`, `>` or `"`: it can stand in any element
/// or attribute value of the exported page.
pub proof fn lemma_html_escape_no_markup(s: Seq<char>)
    ensures
        !contains_char(html_escape(s), '<'),
        !contains_char(html_escape(s), '>'),
        !contains_char(html_escape(s), '"'),
{
    reveal_strlit("&amp;");
    reveal_strlit("&lt;");
    reveal_strlit("&gt;");
    reveal_strlit("&quot;");
    let a = replace_char(s, '&', "&amp;"@);
    let b = replace_char(a, '<', "&lt;"@);
    let c = replace_char(b, '>', "&gt;"@);
    assert(!contains_char("&lt;"@, '<'));
    assert(!contains_char("&gt;"@, '<'));
    assert(!contains_char("&gt;"@, '>'));
    assert(!contains_char("&quot;"@, '<'));
    assert(!contains_char("&quot;"@, '>'));
    assert(!contains_char("&quot;"@, '"'));
    lemma_replace_char_absent(a, '<', "&lt;"@, '<');
    lemma_replace_char_absent(b, '>', "&gt;"@, '<');
    lemma_replace_char_absent(c, '"', "&quot;"@, '<');
    lemma_replace_char_absent(b, '>', "&gt;"@, '>');
    lemma_replace_char_absent(c, '"', "&quot;"@, '>');
    lemma_replace_char_absent(c, '"', "&quot;"@, '"');
}

pub open spec fn pow10(k: nat) -> nat
    decreases k,
{
    if k == 0 { 1 } else { 10 * pow10((k - 1) as nat) }
}

proof fn lemma_decimal_len(n: nat, k: nat)
    requires
        k >= 1,
        n < pow10(k),
    ensures
        decimal(n).len() <= k,
    decreases k,
{
    if n >= 10 {
        assert(k >= 2) by {
            if k == 1 {
                assert(pow10(1) == 10 * pow10(0));
            }
        }
        let k1 = (k - 1) as nat;
        assert(pow10(k) == 10 * pow10(k1));
        assert(n / 10 < pow10(k1)) by (nonlinear_arith)
            requires
                n < 10 * pow10(k1),
        ;
        lemma_decimal_len(n / 10, k1);
    }
}

proof fn lemma_pow10_20()
    ensures
        pow10(20) == 100_000_000_000_000_000_000,
{
    reveal_with_fuel(pow10, 21);
}

/// A worksheet name has 1 to 31 characters, none of them one that Excel
/// forbids in sheet names (`[ ] * ? : / \`).
pub proof fn lemma_sheet_name_valid(name: Seq<char>, index: usize)
    ensures
        0 < sheet_name_spec(name, index).len() <= 31,
        forall|i: int| 0 <= i < sheet_name_spec(name, index).len() ==> {
            let c = #[trigger] sheet_name_spec(name, index)[i];
            !(c == '[' || c == ']' || c == '*' || c == '?' || c == ':' || c == '/' || c == '\\')
        },
{
    let head = if name.len() > 31 { name.take(31) } else { name };
    if head.len() == 0 {
        reveal_strlit("job_");
        lemma_pow10_20();
        lemma_decimal_len(index as nat, 20);
        lemma_decimal_digits(index as nat);
        let r = sheet_name_spec(name, index);
        assert forall|i: int| 0 <= i < r.len() implies {
            let c = #[trigger] r[i];
            !(c == '[' || c == ']' || c == '*' || c == '?' || c == ':' || c == '/' || c == '\\')
        } by {
            if i >= 4 {
                assert(r[i] == decimal(index as nat)[i - 4]);
            }
        }
    }
}

proof fn lemma_decimal_digits(n: nat)
    ensures
        decimal(n).len() > 0,
        forall|i: int| 0 <= i < decimal(n).len() ==> '0' <= #[trigger] decimal(n)[i] && decimal(n)[i] <= '9',
    decreases n,
{
    if n >= 10 {
        lemma_decimal_digits(n / 10);
    }
}

} // verus!
