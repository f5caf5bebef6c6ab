use ast_grep_gui::app_state::{count_display_lines, pattern_assist_resolve_lang, push_pattern_history, TableMetrics, TableRowRef};
use ast_grep_gui::batch::{BatchReport, BatchRunResult};
use ast_grep_gui::file_encoding::{FileEncoding, FileEncodingPreference};
use ast_grep_gui::highlight_layout::{col_highlight_for_line, compare_rows, expand_tabs, line_number_label, token_pieces_exec, SegmentKind};
use ast_grep_gui::i18n::UiLanguage;
use ast_grep_gui::lang::SupportedLanguage;
use ast_grep_gui::search::{FileResult, MatchItem, PlainTextSearchOptions, SearchConditions, SearchMode, SearchStats};
use ast_grep_gui::search_target::{RemoteTargetConfig, SearchTargetMode};
use ast_grep_gui::xlsx_layout::{batch_workbook, results_workbook, truncate_for_excel, CellStyle, CellValue};

fn item(line: usize, col: usize, line_end: usize, col_end: usize, text: &str) -> MatchItem {
    MatchItem {
        line_start: line,
        col_start: col,
        line_end,
        col_end,
        matched_text: text.to_string(),
        span_lines_text: String::new(),
        context_before: vec![],
        context_after: vec![],
        recv_type_hint: None,
    }
}

fn cond(pattern: &str) -> SearchConditions {
    SearchConditions {
        search_dir: "/src".to_string(),
        search_target_mode: SearchTargetMode::Directory,
        remote_target: RemoteTargetConfig::default(),
        pattern: pattern.to_string(),
        selected_lang: SupportedLanguage::Rust,
        context_lines: 2,
        file_filter: String::new(),
        file_encoding_preference: FileEncodingPreference::Auto,
        max_file_size_mb: 10,
        max_search_hits: 100,
        skip_dirs: String::new(),
        search_mode: SearchMode::AstGrep,
        plain_text_options: PlainTextSearchOptions::default(),
        cpp_include_dirs: String::new(),
        type_hints_enabled: true,
    }
}

#[test]
fn tabs_expand_to_stops() {
    let mut col = 0;
    assert_eq!(expand_tabs("a\tb", &mut col), "a   b");
    assert_eq!(col, 5);
    let mut col = 2;
    assert_eq!(expand_tabs("\t", &mut col), "  ");
    assert_eq!(col, 4);
}

#[test]
fn highlight_columns_per_line() {
    let ms = vec![item(2, 3, 2, 7, "x"), item(4, 5, 6, 2, "y")];
    assert_eq!(col_highlight_for_line(1, &ms), None);
    assert_eq!(col_highlight_for_line(2, &ms), Some((3, 7)));
    assert_eq!(col_highlight_for_line(4, &ms), Some((5, usize::MAX)));
    assert_eq!(col_highlight_for_line(5, &ms), Some((0, usize::MAX)));
    assert_eq!(col_highlight_for_line(6, &ms), Some((0, 2)));
}

#[test]
fn token_splits_around_highlight() {
    let p = token_pieces_exec("abcdef", 10, (12, 14));
    assert_eq!(p, vec![("ab", SegmentKind::MatchLine), ("cd", SegmentKind::MatchText), ("ef", SegmentKind::MatchLine)]);
    let p = token_pieces_exec("abc", 0, (5, 9));
    assert_eq!(p, vec![("abc", SegmentKind::MatchLine)]);
    let p = token_pieces_exec("éa", 0, (2, 3));
    assert_eq!(p, vec![("é", SegmentKind::MatchLine), ("a", SegmentKind::MatchText)]);
    let p = token_pieces_exec("éa", 0, (1, 3));
    assert!(p.is_empty());
}

#[test]
fn gutter_and_compare_rows() {
    assert_eq!(line_number_label(7), "   7│ ");
    let rows = compare_rows("a\nb\nc", "a\nB");
    assert_eq!(rows.len(), 3);
    assert_eq!(rows[0].gutter, "  1 │ ");
    assert!(!rows[0].changed);
    assert!(rows[1].changed);
    assert_eq!(rows[2].new_text, "");
    assert!(rows[2].changed);
}

#[test]
fn excel_cells_are_cut_at_char_boundaries() {
    let s = "é".repeat(20_000);
    let t = truncate_for_excel(&s);
    assert_eq!(t.len(), 32_000);
    assert_eq!(truncate_for_excel("short"), "short");
}

#[test]
fn results_workbook_layout() {
    let files = vec![FileResult {
        path: "/src/a.rs".to_string(),
        relative_path: "a.rs".to_string(),
        source_language: SupportedLanguage::Rust,
        text_encoding: FileEncoding::Utf8,
        matches: vec![item(3, 4, 3, 9, "x.y()")],
    }];
    let stats = SearchStats { total_matches: 1, total_files: 1, elapsed_ms: 5, scanned: 2, hit_limit_reached: false };
    let wb = results_workbook(&files, &stats, &cond("$RECV.y()"), UiLanguage::English);
    assert_eq!(wb.len(), 2);
    assert_eq!(wb[0].name, "Results");
    assert_eq!(wb[0].cells.len(), 12);
    assert!(matches!(&wb[0].cells[5].value, CellValue::Text(t) if t == "$RECV"));
    assert_eq!(wb[0].cells[5].style, CellStyle::Header);
    assert!(matches!(&wb[0].cells[7].value, CellValue::Number(3)));
    assert_eq!(wb[0].cells[7].row, 1);
    assert_eq!(wb[0].column_widths.len(), 6);
    assert_eq!(wb[1].column_widths, vec![(0, 28), (1, 72)]);
}

#[test]
fn batch_workbook_layout() {
    let run = |err: Option<&str>| BatchRunResult {
        job_id: 7,
        label: "jobs/x".to_string(),
        conditions: cond("foo"),
        results: vec![],
        stats: SearchStats::default(),
        error: err.map(|e| e.to_string()),
    };
    let report = BatchReport { total_elapsed_ms: 1, runs: vec![run(None), run(Some("boom"))] };
    let wb = batch_workbook(&report, UiLanguage::English);
    assert_eq!(wb.len(), 3);
    assert_eq!(wb[0].name, "00_jobs_x_7");
    assert_eq!(wb[1].name, "m0");
    assert_eq!(wb[2].name, "01_jobs_x_7");
    assert!(matches!(&wb[2].cells[0].value, CellValue::Text(t) if t == "ERROR: boom"));
}

#[test]
fn history_is_newest_first_without_repeats() {
    let mut h = vec!["b".to_string(), "a".to_string()];
    push_pattern_history(&mut h, "  a ");
    assert_eq!(h, vec!["a".to_string(), "b".to_string()]);
    push_pattern_history(&mut h, "   ");
    assert_eq!(h.len(), 2);
    for i in 0..40 {
        push_pattern_history(&mut h, &format!("p{i}"));
    }
    assert_eq!(h.len(), 30);
    assert_eq!(h[0], "p39");
}

#[test]
fn display_lines_and_table_metrics() {
    assert_eq!(count_display_lines(""), 1);
    assert_eq!(count_display_lines("a\nb\n"), 3);
    let mut t = TableMetrics::new();
    t.push_row(TableRowRef { file_idx: 0, match_idx: 0 }, 3);
    t.push_row(TableRowRef { file_idx: 0, match_idx: 1 }, 2);
    assert_eq!(t.prefix_units, vec![0, 3, 5]);
    assert_eq!(pattern_assist_resolve_lang(SupportedLanguage::Auto), SupportedLanguage::Rust);
}
