//! Export, pattern assist and preset texts.
use vstd::prelude::*;

use crate::i18n::{Tr, UiLanguage};
use crate::ui_text_specs as ts;

verus! {

impl Tr {
    pub fn pa_snippet_label(self) -> (r: &'static str)
        ensures
            r@ == ts::pa_snippet_label(self.0),
    {
        match self.0 {
            UiLanguage::Japanese => "コード片:",
            UiLanguage::English => "Snippet:",
        }
    }

    pub fn pa_snippet_hint(self) -> (r: &'static str)
        ensures
            r@ == ts::pa_snippet_hint(self.0),
    {
        match self.0 {
            UiLanguage::Japanese => "ここにコード片を貼り付けてください\n例: fn foo(x: i32) -> String { ... }",
            UiLanguage::English => "Paste a code snippet here\ne.g. fn foo(x: i32) -> String { ... }",
        }
    }

    pub fn pa_generate(self) -> (r: &'static str)
        ensures
            r@ == ts::pa_generate(self.0),
    {
        match self.0 {
            UiLanguage::Japanese => "🔍 パターン生成",
            UiLanguage::English => "🔍 Generate",
        }
    }

    pub fn pa_generate_tooltip(self) -> (r: &'static str)
        ensures
            r@ == ts::pa_generate_tooltip(self.0),
    {
        match self.0 {
            UiLanguage::Japanese => "入力したコード片に実際にマッチするパターン候補を列挙します",
            UiLanguage::English => "List patterns that match the snippet",
        }
    }

    pub fn pa_clear(self) -> (r: &'static str)
        ensures
            r@ == ts::pa_clear(self.0),
    {
        match self.0 {
            UiLanguage::Japanese => "クリア",
            UiLanguage::English => "Clear",
        }
    }

    pub fn pa_no_candidates(self) -> (r: &'static str)
        ensures
            r@ == ts::pa_no_candidates(self.0),
    {
        match self.0 {
            UiLanguage::Japanese => "パターン候補が見つかりませんでした（スニペットを確認してください）",
            UiLanguage::English => "No pattern candidates (check your snippet)",
        }
    }

    pub fn pa_col_pattern(self) -> (r: &'static str)
        ensures
            r@ == ts::pa_col_pattern(self.0),
    {
        match self.0 {
            UiLanguage::Japanese => "パターン",
            UiLanguage::English => "Pattern",
        }
    }

    pub fn pa_col_desc(self) -> (r: &'static str)
        ensures
            r@ == ts::pa_col_desc(self.0),
    {
        match self.0 {
            UiLanguage::Japanese => "説明",
            UiLanguage::English => "Description",
        }
    }

    pub fn pa_col_count(self) -> (r: &'static str)
        ensures
            r@ == ts::pa_col_count(self.0),
    {
        match self.0 {
            UiLanguage::Japanese => "マッチ数",
            UiLanguage::English => "Matches",
        }
    }

    pub fn pa_col_action(self) -> (r: &'static str)
        ensures
            r@ == ts::pa_col_action(self.0),
    {
        match self.0 {
            UiLanguage::Japanese => "操作",
            UiLanguage::English => "Action",
        }
    }

    pub fn pa_apply(self) -> (r: &'static str)
        ensures
            r@ == ts::pa_apply(self.0),
    {
        match self.0 {
            UiLanguage::Japanese => "使用",
            UiLanguage::English => "Apply",
        }
    }

    pub fn pa_apply_tooltip(self) -> (r: &'static str)
        ensures
            r@ == ts::pa_apply_tooltip(self.0),
    {
        match self.0 {
            UiLanguage::Japanese => "このパターンを検索欄に設定します",
            UiLanguage::English => "Set this pattern in the search field",
        }
    }

    pub fn pa_copy(self) -> (r: &'static str)
        ensures
            r@ == ts::pa_copy(self.0),
    {
        match self.0 {
            UiLanguage::Japanese => "コピー",
            UiLanguage::English => "Copy",
        }
    }

    pub fn pa_copy_tooltip(self) -> (r: &'static str)
        ensures
            r@ == ts::pa_copy_tooltip(self.0),
    {
        match self.0 {
            UiLanguage::Japanese => "クリップボードにコピーします",
            UiLanguage::English => "Copy to clipboard",
        }
    }

    pub fn pa_pat_hover(self) -> (r: &'static str)
        ensures
            r@ == ts::pa_pat_hover(self.0),
    {
        match self.0 {
            UiLanguage::Japanese => "クリックで選択できます",
            UiLanguage::English => "Click to select",
        }
    }

    pub fn code_select_file(self) -> (r: &'static str)
        ensures
            r@ == ts::code_select_file(self.0),
    {
        match self.0 {
            UiLanguage::Japanese => "← ファイルを選択してください",
            UiLanguage::English => "← Select a file",
        }
    }

    pub fn to_assist(self) -> (r: &'static str)
        ensures
            r@ == ts::to_assist(self.0),
    {
        match self.0 {
            UiLanguage::Japanese => "→パターン支援",
            UiLanguage::English => "→Pattern assist",
        }
    }

    pub fn to_assist_tooltip(self) -> (r: &'static str)
        ensures
            r@ == ts::to_assist_tooltip(self.0),
    {
        match self.0 {
            UiLanguage::Japanese => "このマッチテキストをパターン支援に送ります\n\
                 パターン支援ウィンドウが開き、コード片として自動入力されます",
            UiLanguage::English => "Send this match text to Pattern assist\n\
                 Opens the window and fills the snippet field",
        }
    }

    pub fn table_empty(self) -> (r: &'static str)
        ensures
            r@ == ts::table_empty(self.0),
    {
        match self.0 {
            UiLanguage::Japanese => "検索結果がありません",
            UiLanguage::English => "No results",
        }
    }

    pub fn table_col_file(self) -> (r: &'static str)
        ensures
            r@ == ts::table_col_file(self.0),
    {
        match self.0 {
            UiLanguage::Japanese => "ファイル",
            UiLanguage::English => "File",
        }
    }

    pub fn table_col_line(self) -> (r: &'static str)
        ensures
            r@ == ts::table_col_line(self.0),
    {
        match self.0 {
            UiLanguage::Japanese => "行",
            UiLanguage::English => "Line",
        }
    }

    pub fn table_col_col(self) -> (r: &'static str)
        ensures
            r@ == ts::table_col_col(self.0),
    {
        match self.0 {
            UiLanguage::Japanese => "列",
            UiLanguage::English => "Col",
        }
    }

    pub fn table_col_text(self) -> (r: &'static str)
        ensures
            r@ == ts::table_col_text(self.0),
    {
        match self.0 {
            UiLanguage::Japanese => "マッチしたテキスト",
            UiLanguage::English => "Matched text",
        }
    }

    /// 表: 該当行の全文＋前後コンテキスト（マッチ列とは別）
    pub fn table_col_source_context(self) -> (r: &'static str)
        ensures
            r@ == ts::table_col_source_context(self.0),
    {
        match self.0 {
            UiLanguage::Japanese => "元コード（前後）",
            UiLanguage::English => "Source (context)",
        }
    }

    pub fn table_col_action(self) -> (r: &'static str)
        ensures
            r@ == ts::table_col_action(self.0),
    {
        match self.0 {
            UiLanguage::Japanese => "操作",
            UiLanguage::English => "Action",
        }
    }

    /// 表: `NAME#arity` 列（`$$$NAME` のキャプチャ個数）で値が無いときのツールチップ
    pub fn table_type_hint_arity_empty_tooltip(self) -> (r: &'static str)
        ensures
            r@ == ts::table_type_hint_arity_empty_tooltip(self.0),
    {
        match self.0 {
            UiLanguage::Japanese => "複数ノードキャプチャの引数個数を取得できませんでした",
            UiLanguage::English => "Could not get captured node count for this multi metavar",
        }
    }

    /// 表: ダブルクリックで開くコードプレビューウィンドウのタイトル
    pub fn table_preview_window_title(self) -> (r: &'static str)
        ensures
            r@ == ts::table_preview_window_title(self.0),
    {
        match self.0 {
            UiLanguage::Japanese => "ファイルプレビュー",
            UiLanguage::English => "File preview",
        }
    }

    /// 表ビュー: 行をダブルクリックでプレビューできる旨
    pub fn table_double_click_hint(self) -> (r: &'static str)
        ensures
            r@ == ts::table_double_click_hint(self.0),
    {
        match self.0 {
            UiLanguage::Japanese => "行をダブルクリックすると、コードビューと同じ表示でファイル全文を開き、該当行へスクロールします",
            UiLanguage::English => "Double-click a row to open the full file with the same highlighting as the code view, scrolled to the match",
        }
    }

    pub fn file_list_heading(self) -> (r: &'static str)
        ensures
            r@ == ts::file_list_heading(self.0),
    {
        match self.0 {
            UiLanguage::Japanese => "ファイル一覧",
            UiLanguage::English => "Files",
        }
    }

    pub fn export_text_title(self) -> (r: &'static str)
        ensures
            r@ == ts::export_text_title(self.0),
    {
        match self.0 {
            UiLanguage::Japanese => "ast-grep 検索結果",
            UiLanguage::English => "ast-grep search results",
        }
    }

    pub fn export_md_heading(self) -> (r: &'static str)
        ensures
            r@ == ts::export_md_heading(self.0),
    {
        match self.0 {
            UiLanguage::Japanese => "ast-grep 検索結果",
            UiLanguage::English => "ast-grep search results",
        }
    }

    pub fn export_md_table_header(self) -> (r: &'static str)
        ensures
            r@ == ts::export_md_table_header(self.0),
    {
        match self.0 {
            UiLanguage::Japanese => "| ファイル | 行 | 列 | マッチテキスト | 元コード（前後） |\n",
            UiLanguage::English => "| File | Line | Col | Matched text | Source (context) |\n",
        }
    }

    pub fn export_html_lang(self) -> (r: &'static str)
        ensures
            r@ == ts::export_html_lang(self.0),
    {
        match self.0 {
            UiLanguage::Japanese => "ja",
            UiLanguage::English => "en",
        }
    }

    pub fn export_html_title(self) -> (r: &'static str)
        ensures
            r@ == ts::export_html_title(self.0),
    {
        match self.0 {
            UiLanguage::Japanese => "ast-grep 検索結果",
            UiLanguage::English => "ast-grep search results",
        }
    }

    pub fn export_html_th_file(self) -> (r: &'static str)
        ensures
            r@ == ts::export_html_th_file(self.0),
    {
        match self.0 {
            UiLanguage::Japanese => "ファイル",
            UiLanguage::English => "File",
        }
    }

    pub fn export_html_th_line(self) -> (r: &'static str)
        ensures
            r@ == ts::export_html_th_line(self.0),
    {
        match self.0 {
            UiLanguage::Japanese => "行",
            UiLanguage::English => "Line",
        }
    }

    pub fn export_html_th_col(self) -> (r: &'static str)
        ensures
            r@ == ts::export_html_th_col(self.0),
    {
        match self.0 {
            UiLanguage::Japanese => "列",
            UiLanguage::English => "Col",
        }
    }

    pub fn export_html_th_match(self) -> (r: &'static str)
        ensures
            r@ == ts::export_html_th_match(self.0),
    {
        match self.0 {
            UiLanguage::Japanese => "マッチテキスト",
            UiLanguage::English => "Match text",
        }
    }

    pub fn export_html_th_source_context(self) -> (r: &'static str)
        ensures
            r@ == ts::export_html_th_source_context(self.0),
    {
        match self.0 {
            UiLanguage::Japanese => "元コード（前後）",
            UiLanguage::English => "Source (context)",
        }
    }

    pub fn export_xlsx_sheet_results(self) -> (r: &'static str)
        ensures
            r@ == ts::export_xlsx_sheet_results(self.0),
    {
        match self.0 {
            UiLanguage::Japanese => "検索結果",
            UiLanguage::English => "Results",
        }
    }

    pub fn export_xlsx_sheet_summary(self) -> (r: &'static str)
        ensures
            r@ == ts::export_xlsx_sheet_summary(self.0),
    {
        match self.0 {
            UiLanguage::Japanese => "サマリー",
            UiLanguage::English => "Summary",
        }
    }

    pub fn export_xlsx_sheet_stats(self) -> (r: &'static str)
        ensures
            r@ == ts::export_xlsx_sheet_stats(self.0),
    {
        match self.0 {
            UiLanguage::Japanese => "統計",
            UiLanguage::English => "Stats",
        }
    }

    pub fn export_xlsx_col_file(self) -> (r: &'static str)
        ensures
            r@ == ts::export_xlsx_col_file(self.0),
    {
        match self.0 {
            UiLanguage::Japanese => "ファイル",
            UiLanguage::English => "File",
        }
    }

    pub fn export_xlsx_col_line(self) -> (r: &'static str)
        ensures
            r@ == ts::export_xlsx_col_line(self.0),
    {
        match self.0 {
            UiLanguage::Japanese => "行",
            UiLanguage::English => "Line",
        }
    }

    pub fn export_xlsx_col_col(self) -> (r: &'static str)
        ensures
            r@ == ts::export_xlsx_col_col(self.0),
    {
        match self.0 {
            UiLanguage::Japanese => "列",
            UiLanguage::English => "Col",
        }
    }

    pub fn export_xlsx_col_match(self) -> (r: &'static str)
        ensures
            r@ == ts::export_xlsx_col_match(self.0),
    {
        match self.0 {
            UiLanguage::Japanese => "マッチテキスト",
            UiLanguage::English => "Match text",
        }
    }

    pub fn export_xlsx_col_source_context(self) -> (r: &'static str)
        ensures
            r@ == ts::export_xlsx_col_source_context(self.0),
    {
        match self.0 {
            UiLanguage::Japanese => "元コード（前後）",
            UiLanguage::English => "Source (context)",
        }
    }

    pub fn export_xlsx_total_matches(self) -> (r: &'static str)
        ensures
            r@ == ts::export_xlsx_total_matches(self.0),
    {
        match self.0 {
            UiLanguage::Japanese => "総マッチ数",
            UiLanguage::English => "Total matches",
        }
    }

    pub fn export_xlsx_file_count(self) -> (r: &'static str)
        ensures
            r@ == ts::export_xlsx_file_count(self.0),
    {
        match self.0 {
            UiLanguage::Japanese => "対象ファイル数",
            UiLanguage::English => "Files",
        }
    }

    pub fn export_xlsx_elapsed(self) -> (r: &'static str)
        ensures
            r@ == ts::export_xlsx_elapsed(self.0),
    {
        match self.0 {
            UiLanguage::Japanese => "経過時間 (ms)",
            UiLanguage::English => "Elapsed (ms)",
        }
    }

    pub fn export_xlsx_hit_limit_note(self) -> (r: &'static str)
        ensures
            r@ == ts::export_xlsx_hit_limit_note(self.0),
    {
        match self.0 {
            UiLanguage::Japanese => "備考",
            UiLanguage::English => "Note",
        }
    }

    pub fn export_xlsx_hit_limit_truncated(self) -> (r: &'static str)
        ensures
            r@ == ts::export_xlsx_hit_limit_truncated(self.0),
    {
        match self.0 {
            UiLanguage::Japanese => "ヒット上限により打ち切り",
            UiLanguage::English => "Truncated at hit limit",
        }
    }

    pub fn export_conditions_title(self) -> (r: &'static str)
        ensures
            r@ == ts::export_conditions_title(self.0),
    {
        match self.0 {
            UiLanguage::Japanese => "検索条件",
            UiLanguage::English => "Search conditions",
        }
    }

    pub fn export_cond_root(self) -> (r: &'static str)
        ensures
            r@ == ts::export_cond_root(self.0),
    {
        match self.0 {
            UiLanguage::Japanese => "検索ルート",
            UiLanguage::English => "Root directory",
        }
    }

    pub fn export_cond_pattern(self) -> (r: &'static str)
        ensures
            r@ == ts::export_cond_pattern(self.0),
    {
        match self.0 {
            UiLanguage::Japanese => "パターン",
            UiLanguage::English => "Pattern",
        }
    }

    pub fn export_cond_lang(self) -> (r: &'static str)
        ensures
            r@ == ts::export_cond_lang(self.0),
    {
        match self.0 {
            UiLanguage::Japanese => "言語",
            UiLanguage::English => "Language",
        }
    }

    pub fn export_cond_context_lines(self) -> (r: &'static str)
        ensures
            r@ == ts::export_cond_context_lines(self.0),
    {
        match self.0 {
            UiLanguage::Japanese => "前後コンテキスト行数",
            UiLanguage::English => "Context lines",
        }
    }

    pub fn export_cond_file_filter(self) -> (r: &'static str)
        ensures
            r@ == ts::export_cond_file_filter(self.0),
    {
        match self.0 {
            UiLanguage::Japanese => "ファイルフィルタ",
            UiLanguage::English => "File filter",
        }
    }

    pub fn export_cond_file_filter_default(self) -> (r: &'static str)
        ensures
            r@ == ts::export_cond_file_filter_default(self.0),
    {
        match self.0 {
            UiLanguage::Japanese => "（空: 言語デフォルトの拡張子）",
            UiLanguage::English => "(empty: language default extensions)",
        }
    }

    pub fn export_cond_file_encoding(self) -> (r: &'static str)
        ensures
            r@ == ts::export_cond_file_encoding(self.0),
    {
        match self.0 {
            UiLanguage::Japanese => "ファイル文字コード",
            UiLanguage::English => "File encoding",
        }
    }

    pub fn export_cond_max_file_mb(self) -> (r: &'static str)
        ensures
            r@ == ts::export_cond_max_file_mb(self.0),
    {
        match self.0 {
            UiLanguage::Japanese => "最大ファイルサイズ (MB)",
            UiLanguage::English => "Max file size (MB)",
        }
    }

    pub fn export_cond_max_search_hits(self) -> (r: &'static str)
        ensures
            r@ == ts::export_cond_max_search_hits(self.0),
    {
        match self.0 {
            UiLanguage::Japanese => "ヒット上限（0=無制限）",
            UiLanguage::English => "Max hits (0=unlimited)",
        }
    }

    pub fn export_cond_skip_dirs(self) -> (r: &'static str)
        ensures
            r@ == ts::export_cond_skip_dirs(self.0),
    {
        match self.0 {
            UiLanguage::Japanese => "スキップディレクトリ",
            UiLanguage::English => "Skip directories",
        }
    }

    pub fn export_cond_search_mode(self) -> (r: &'static str)
        ensures
            r@ == ts::export_cond_search_mode(self.0),
    {
        match self.0 {
            UiLanguage::Japanese => "検索モード",
            UiLanguage::English => "Search mode",
        }
    }

    pub fn export_cond_plain_text_options(self) -> (r: &'static str)
        ensures
            r@ == ts::export_cond_plain_text_options(self.0),
    {
        match self.0 {
            UiLanguage::Japanese => "文字列検索のオプション",
            UiLanguage::English => "Text search options",
        }
    }

    pub fn export_plain_text_options_not_applicable(self) -> (r: &'static str)
        ensures
            r@ == ts::export_plain_text_options_not_applicable(self.0),
    {
        match self.0 {
            UiLanguage::Japanese => "（文字列モード以外では該当なし）",
            UiLanguage::English => "(n/a except in Text mode)",
        }
    }

    pub fn export_html_conditions_heading(self) -> (r: &'static str)
        ensures
            r@ == ts::export_html_conditions_heading(self.0),
    {
        match self.0 {
            UiLanguage::Japanese => "検索条件",
            UiLanguage::English => "Search conditions",
        }
    }

    pub fn preset_rust_fn(self) -> (r: &'static str)
        ensures
            r@ == ts::preset_rust_fn(self.0),
    {
        match self.0 {
            UiLanguage::Japanese => "関数定義",
            UiLanguage::English => "Function definition",
        }
    }

    pub fn preset_rust_fn_desc(self) -> (r: &'static str)
        ensures
            r@ == ts::preset_rust_fn_desc(self.0),
    {
        match self.0 {
            UiLanguage::Japanese => "すべての関数定義",
            UiLanguage::English => "All function definitions",
        }
    }

    pub fn preset_rust_trait_impl(self) -> (r: &'static str)
        ensures
            r@ == ts::preset_rust_trait_impl(self.0),
    {
        match self.0 {
            UiLanguage::Japanese => "トレイト実装",
            UiLanguage::English => "Trait implementation",
        }
    }

    pub fn preset_rust_trait_impl_desc(self) -> (r: &'static str)
        ensures
            r@ == ts::preset_rust_trait_impl_desc(self.0),
    {
        match self.0 {
            UiLanguage::Japanese => "トレイト実装",
            UiLanguage::English => "Trait impl blocks",
        }
    }

    pub fn preset_rust_unwrap(self) -> (r: &'static str)
        ensures
            r@ == ts::preset_rust_unwrap(self.0),
    {
        match self.0 {
            UiLanguage::Japanese => "unwrap呼び出し",
            UiLanguage::English => "unwrap() calls",
        }
    }

    pub fn preset_rust_unwrap_desc(self) -> (r: &'static str)
        ensures
            r@ == ts::preset_rust_unwrap_desc(self.0),
    {
        match self.0 {
            UiLanguage::Japanese => "unwrap()の呼び出し箇所",
            UiLanguage::English => "Calls to unwrap()",
        }
    }

    pub fn preset_rust_clone(self) -> (r: &'static str)
        ensures
            r@ == ts::preset_rust_clone(self.0),
    {
        match self.0 {
            UiLanguage::Japanese => "clone呼び出し",
            UiLanguage::English => "clone() calls",
        }
    }

    pub fn preset_rust_clone_desc(self) -> (r: &'static str)
        ensures
            r@ == ts::preset_rust_clone_desc(self.0),
    {
        match self.0 {
            UiLanguage::Japanese => "clone()の呼び出し箇所",
            UiLanguage::English => "Calls to clone()",
        }
    }

    pub fn preset_rust_panic(self) -> (r: &'static str)
        ensures
            r@ == ts::preset_rust_panic(self.0),
    {
        match self.0 {
            UiLanguage::Japanese => "panicマクロ",
            UiLanguage::English => "panic! macro",
        }
    }

    pub fn preset_rust_panic_desc(self) -> (r: &'static str)
        ensures
            r@ == ts::preset_rust_panic_desc(self.0),
    {
        match self.0 {
            UiLanguage::Japanese => "panic!マクロの使用箇所",
            UiLanguage::English => "Uses of panic!",
        }
    }

    pub fn preset_java_null(self) -> (r: &'static str)
        ensures
            r@ == ts::preset_java_null(self.0),
    {
        match self.0 {
            UiLanguage::Japanese => "null チェック",
            UiLanguage::English => "null check",
        }
    }

    pub fn preset_java_null_desc(self) -> (r: &'static str)
        ensures
            r@ == ts::preset_java_null_desc(self.0),
    {
        match self.0 {
            UiLanguage::Japanese => "nullとの比較",
            UiLanguage::English => "Comparison to null",
        }
    }

    pub fn preset_java_println(self) -> (r: &'static str)
        ensures
            r@ == ts::preset_java_println(self.0),
    {
        "System.out.println"
    }

    pub fn preset_java_println_desc(self) -> (r: &'static str)
        ensures
            r@ == ts::preset_java_println_desc(self.0),
    {
        match self.0 {
            UiLanguage::Japanese => "デバッグ出力",
            UiLanguage::English => "Debug output",
        }
    }

    pub fn preset_py_print(self) -> (r: &'static str)
        ensures
            r@ == ts::preset_py_print(self.0),
    {
        match self.0 {
            UiLanguage::Japanese => "print文",
            UiLanguage::English => "print()",
        }
    }

    pub fn preset_py_print_desc(self) -> (r: &'static str)
        ensures
            r@ == ts::preset_py_print_desc(self.0),
    {
        match self.0 {
            UiLanguage::Japanese => "print()の使用箇所",
            UiLanguage::English => "Calls to print()",
        }
    }

    pub fn preset_py_import(self) -> (r: &'static str)
        ensures
            r@ == ts::preset_py_import(self.0),
    {
        match self.0 {
            UiLanguage::Japanese => "import文",
            UiLanguage::English => "import",
        }
    }

    pub fn preset_py_import_desc(self) -> (r: &'static str)
        ensures
            r@ == ts::preset_py_import_desc(self.0),
    {
        match self.0 {
            UiLanguage::Japanese => "importの使用箇所",
            UiLanguage::English => "import statements",
        }
    }

    pub fn preset_js_console(self) -> (r: &'static str)
        ensures
            r@ == ts::preset_js_console(self.0),
    {
        "console.log"
    }

    pub fn preset_js_console_desc(self) -> (r: &'static str)
        ensures
            r@ == ts::preset_js_console_desc(self.0),
    {
        match self.0 {
            UiLanguage::Japanese => "console.log()の使用箇所",
            UiLanguage::English => "console.log() calls",
        }
    }

    pub fn preset_go_err(self) -> (r: &'static str)
        ensures
            r@ == ts::preset_go_err(self.0),
    {
        match self.0 {
            UiLanguage::Japanese => "エラーチェック",
            UiLanguage::English => "Error check",
        }
    }

    pub fn preset_go_err_desc(self) -> (r: &'static str)
        ensures
            r@ == ts::preset_go_err_desc(self.0),
    {
        match self.0 {
            UiLanguage::Japanese => "エラーチェック",
            UiLanguage::English => "if err != nil { ... }",
        }
    }

    pub fn preset_kotlin_println(self) -> (r: &'static str)
        ensures
            r@ == ts::preset_kotlin_println(self.0),
    {
        "println"
    }

    pub fn preset_kotlin_println_desc(self) -> (r: &'static str)
        ensures
            r@ == ts::preset_kotlin_println_desc(self.0),
    {
        match self.0 {
            UiLanguage::Japanese => "println()の使用箇所",
            UiLanguage::English => "println() calls",
        }
    }

    pub fn preset_kotlin_fun(self) -> (r: &'static str)
        ensures
            r@ == ts::preset_kotlin_fun(self.0),
    {
        match self.0 {
            UiLanguage::Japanese => "fun 定義",
            UiLanguage::English => "fun definition",
        }
    }

    pub fn preset_kotlin_fun_desc(self) -> (r: &'static str)
        ensures
            r@ == ts::preset_kotlin_fun_desc(self.0),
    {
        match self.0 {
            UiLanguage::Japanese => "トップレベルまたはメンバの関数定義",
            UiLanguage::English => "Top-level or member function",
        }
    }

    pub fn preset_scala_println(self) -> (r: &'static str)
        ensures
            r@ == ts::preset_scala_println(self.0),
    {
        "println"
    }

    pub fn preset_scala_println_desc(self) -> (r: &'static str)
        ensures
            r@ == ts::preset_scala_println_desc(self.0),
    {
        match self.0 {
            UiLanguage::Japanese => "println()の使用箇所",
            UiLanguage::English => "println() calls",
        }
    }

    pub fn preset_scala_def(self) -> (r: &'static str)
        ensures
            r@ == ts::preset_scala_def(self.0),
    {
        match self.0 {
            UiLanguage::Japanese => "def 定義",
            UiLanguage::English => "def definition",
        }
    }

    pub fn preset_scala_def_desc(self) -> (r: &'static str)
        ensures
            r@ == ts::preset_scala_def_desc(self.0),
    {
        match self.0 {
            UiLanguage::Japanese => "def で = 右辺を持つ定義",
            UiLanguage::English => "def with = body",
        }
    }

    pub fn preset_generic_any(self) -> (r: &'static str)
        ensures
            r@ == ts::preset_generic_any(self.0),
    {
        match self.0 {
            UiLanguage::Japanese => "任意のパターン",
            UiLanguage::English => "Any pattern",
        }
    }

    pub fn preset_generic_any_desc(self) -> (r: &'static str)
        ensures
            r@ == ts::preset_generic_any_desc(self.0),
    {
        match self.0 {
            UiLanguage::Japanese => "任意の式にマッチ",
            UiLanguage::English => "Match any expression",
        }
    }

}

} // verus!
