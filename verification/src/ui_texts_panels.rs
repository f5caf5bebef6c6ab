//! Result view, summary, batch and rewrite texts.
use vstd::prelude::*;

use crate::i18n::{Tr, UiLanguage};
use crate::ui_text_specs as ts;

verus! {

impl Tr {
    pub fn batch_load_config_tooltip(self) -> (r: &'static str)
        ensures
            r@ == ts::batch_load_config_tooltip(self.0),
    {
        match self.0 {
            UiLanguage::Japanese => "YAML ファイルからバッチジョブ一覧を読み込み、現在の一覧を置き換えます",
            UiLanguage::English => "Load batch jobs from a YAML file, replacing the current list",
        }
    }

    pub fn err_batch_save(self) -> (r: &'static str)
        ensures
            r@ == ts::err_batch_save(self.0),
    {
        match self.0 {
            UiLanguage::Japanese => "バッチ設定の保存に失敗:",
            UiLanguage::English => "Failed to save batch config:",
        }
    }

    pub fn err_batch_load(self) -> (r: &'static str)
        ensures
            r@ == ts::err_batch_load(self.0),
    {
        match self.0 {
            UiLanguage::Japanese => "バッチ設定の読み込みに失敗:",
            UiLanguage::English => "Failed to load batch config:",
        }
    }

    pub fn batch_jobs_empty_hint(self) -> (r: &'static str)
        ensures
            r@ == ts::batch_jobs_empty_hint(self.0),
    {
        match self.0 {
            UiLanguage::Japanese => "ジョブがありません。「現在設定を追加」で登録してください。",
            UiLanguage::English => "No jobs. Use “Add current” to register search jobs.",
        }
    }

    pub fn batch_col_label(self) -> (r: &'static str)
        ensures
            r@ == ts::batch_col_label(self.0),
    {
        match self.0 {
            UiLanguage::Japanese => "ラベル",
            UiLanguage::English => "Label",
        }
    }

    pub fn batch_col_pattern(self) -> (r: &'static str)
        ensures
            r@ == ts::batch_col_pattern(self.0),
    {
        match self.0 {
            UiLanguage::Japanese => "パターン",
            UiLanguage::English => "Pattern",
        }
    }

    pub fn batch_col_enabled(self) -> (r: &'static str)
        ensures
            r@ == ts::batch_col_enabled(self.0),
    {
        match self.0 {
            UiLanguage::Japanese => "有効",
            UiLanguage::English => "On",
        }
    }

    pub fn batch_col_actions(self) -> (r: &'static str)
        ensures
            r@ == ts::batch_col_actions(self.0),
    {
        match self.0 {
            UiLanguage::Japanese => "操作",
            UiLanguage::English => "Actions",
        }
    }

    pub fn batch_edit(self) -> (r: &'static str)
        ensures
            r@ == ts::batch_edit(self.0),
    {
        match self.0 {
            UiLanguage::Japanese => "編集",
            UiLanguage::English => "Edit",
        }
    }

    pub fn batch_remove(self) -> (r: &'static str)
        ensures
            r@ == ts::batch_remove(self.0),
    {
        match self.0 {
            UiLanguage::Japanese => "削除",
            UiLanguage::English => "Del",
        }
    }

    pub fn batch_move_up_tooltip(self) -> (r: &'static str)
        ensures
            r@ == ts::batch_move_up_tooltip(self.0),
    {
        match self.0 {
            UiLanguage::Japanese => "上へ",
            UiLanguage::English => "Move up",
        }
    }

    pub fn batch_move_down_tooltip(self) -> (r: &'static str)
        ensures
            r@ == ts::batch_move_down_tooltip(self.0),
    {
        match self.0 {
            UiLanguage::Japanese => "下へ",
            UiLanguage::English => "Move down",
        }
    }

    pub fn batch_edit_window_title(self) -> (r: &'static str)
        ensures
            r@ == ts::batch_edit_window_title(self.0),
    {
        match self.0 {
            UiLanguage::Japanese => "ジョブの編集",
            UiLanguage::English => "Edit job",
        }
    }

    pub fn batch_job_default_label_prefix(self) -> (r: &'static str)
        ensures
            r@ == ts::batch_job_default_label_prefix(self.0),
    {
        match self.0 {
            UiLanguage::Japanese => "ジョブ",
            UiLanguage::English => "Job",
        }
    }

    pub fn batch_no_runnable_jobs(self) -> (r: &'static str)
        ensures
            r@ == ts::batch_no_runnable_jobs(self.0),
    {
        match self.0 {
            UiLanguage::Japanese => "実行できるジョブがありません（有効かつパターンとディレクトリが必要です）",
            UiLanguage::English => "No runnable jobs (need enabled jobs with pattern and directory)",
        }
    }

    pub fn batch_report_title(self) -> (r: &'static str)
        ensures
            r@ == ts::batch_report_title(self.0),
    {
        match self.0 {
            UiLanguage::Japanese => "バッチ検索レポート",
            UiLanguage::English => "Batch search report",
        }
    }

    pub fn batch_report_empty(self) -> (r: &'static str)
        ensures
            r@ == ts::batch_report_empty(self.0),
    {
        match self.0 {
            UiLanguage::Japanese => "レポートがありません。バッチ実行を完了するとここに結果が表示されます。",
            UiLanguage::English => "No report yet. Run a batch search to see results here.",
        }
    }

    pub fn batch_report_error(self) -> (r: &'static str)
        ensures
            r@ == ts::batch_report_error(self.0),
    {
        match self.0 {
            UiLanguage::Japanese => "エラー",
            UiLanguage::English => "Error",
        }
    }

    pub fn batch_report_conditions(self) -> (r: &'static str)
        ensures
            r@ == ts::batch_report_conditions(self.0),
    {
        match self.0 {
            UiLanguage::Japanese => "検索条件",
            UiLanguage::English => "Search conditions",
        }
    }

    pub fn batch_report_matches(self) -> (r: &'static str)
        ensures
            r@ == ts::batch_report_matches(self.0),
    {
        match self.0 {
            UiLanguage::Japanese => "マッチ一覧",
            UiLanguage::English => "Matches",
        }
    }

    pub fn export_batch_json_tooltip(self) -> (r: &'static str)
        ensures
            r@ == ts::export_batch_json_tooltip(self.0),
    {
        match self.0 {
            UiLanguage::Japanese => "バッチレポートを JSON で保存",
            UiLanguage::English => "Save batch report as JSON",
        }
    }

    pub fn export_batch_md_tooltip(self) -> (r: &'static str)
        ensures
            r@ == ts::export_batch_md_tooltip(self.0),
    {
        match self.0 {
            UiLanguage::Japanese => "バッチレポートを Markdown で保存",
            UiLanguage::English => "Save batch report as Markdown",
        }
    }

    pub fn export_batch_html_tooltip(self) -> (r: &'static str)
        ensures
            r@ == ts::export_batch_html_tooltip(self.0),
    {
        match self.0 {
            UiLanguage::Japanese => "バッチレポートを HTML で保存",
            UiLanguage::English => "Save batch report as HTML",
        }
    }

    pub fn export_batch_xlsx_tooltip(self) -> (r: &'static str)
        ensures
            r@ == ts::export_batch_xlsx_tooltip(self.0),
    {
        match self.0 {
            UiLanguage::Japanese => "バッチレポートを Excel で保存（ジョブごとシート）",
            UiLanguage::English => "Save batch report as Excel (one sheet per job)",
        }
    }

    pub fn export_batch_txt_tooltip(self) -> (r: &'static str)
        ensures
            r@ == ts::export_batch_txt_tooltip(self.0),
    {
        match self.0 {
            UiLanguage::Japanese => "バッチレポートをテキストで保存",
            UiLanguage::English => "Save batch report as plain text",
        }
    }

    pub fn err_export_batch(self) -> (r: &'static str)
        ensures
            r@ == ts::err_export_batch(self.0),
    {
        match self.0 {
            UiLanguage::Japanese => "バッチエクスポート失敗:",
            UiLanguage::English => "Batch export failed:",
        }
    }

    pub fn copy_batch_report_tooltip(self) -> (r: &'static str)
        ensures
            r@ == ts::copy_batch_report_tooltip(self.0),
    {
        match self.0 {
            UiLanguage::Japanese => "バッチレポートをテキストとしてコピー",
            UiLanguage::English => "Copy batch report as text",
        }
    }

    pub fn advanced_settings(self) -> (r: &'static str)
        ensures
            r@ == ts::advanced_settings(self.0),
    {
        match self.0 {
            UiLanguage::Japanese => "⚙ 詳細設定",
            UiLanguage::English => "⚙ Advanced",
        }
    }

    pub fn file_encoding_label(self) -> (r: &'static str)
        ensures
            r@ == ts::file_encoding_label(self.0),
    {
        match self.0 {
            UiLanguage::Japanese => "ファイル文字コード:",
            UiLanguage::English => "File encoding:",
        }
    }

    pub fn file_encoding_tooltip(self) -> (r: &'static str)
        ensures
            r@ == ts::file_encoding_tooltip(self.0),
    {
        match self.0 {
            UiLanguage::Japanese => "テキストファイルをどの文字コードで読むかを指定します\n\
                 自動判定: UTF-8 / UTF-16 / Shift_JIS / EUC-JP / JIS / GBK / Big5 / EUC-KR / Latin1 系を推定します\n\
                 手動指定の既定候補: UTF-8 / UTF-16 LE / UTF-16 BE / Shift_JIS / EUC-JP / JIS / GBK / Big5 / EUC-KR / Latin1 系\n\
                 選択ファイルの判定結果も横に反映します",
            UiLanguage::English => "Choose how text files are decoded\n\
                 Auto detects UTF-8 / UTF-16 / Shift_JIS / EUC-JP / JIS / GBK / Big5 / EUC-KR / Latin1 families\n\
                 Default manual choices: UTF-8 / UTF-16 LE / UTF-16 BE / Shift_JIS / EUC-JP / JIS / GBK / Big5 / EUC-KR / Latin1 families\n\
                 Detected results are also reflected beside the selected file",
        }
    }

    pub fn max_file_size_label(self) -> (r: &'static str)
        ensures
            r@ == ts::max_file_size_label(self.0),
    {
        match self.0 {
            UiLanguage::Japanese => "最大ファイルサイズ (MB):",
            UiLanguage::English => "Max file size (MB):",
        }
    }

    pub fn max_file_size_tooltip(self) -> (r: &'static str)
        ensures
            r@ == ts::max_file_size_tooltip(self.0),
    {
        match self.0 {
            UiLanguage::Japanese => "このサイズを超えるファイルは検索対象から除外されます\n\
                 巨大なバイナリや自動生成ファイルのスキップに使えます",
            UiLanguage::English => "Skip files larger than this (binaries, generated files)",
        }
    }

    pub fn max_file_size_drag_tooltip(self) -> (r: &'static str)
        ensures
            r@ == ts::max_file_size_drag_tooltip(self.0),
    {
        match self.0 {
            UiLanguage::Japanese => "ドラッグまたは直接入力で変更できます（1〜500 MB）",
            UiLanguage::English => "1–500 MB",
        }
    }

    pub fn max_search_hits_label(self) -> (r: &'static str)
        ensures
            r@ == ts::max_search_hits_label(self.0),
    {
        match self.0 {
            UiLanguage::Japanese => "ヒット上限:",
            UiLanguage::English => "Max hits:",
        }
    }

    pub fn max_search_hits_tooltip(self) -> (r: &'static str)
        ensures
            r@ == ts::max_search_hits_tooltip(self.0),
    {
        match self.0 {
            UiLanguage::Japanese => "収集するマッチ件数の上限です。多すぎるとメモリを大量に使うため、上限で打ち切ります\n\
                 0 を指定すると無制限です",
            UiLanguage::English => "Maximum number of matches to collect (memory). Use 0 for unlimited",
        }
    }

    pub fn max_search_hits_drag_tooltip(self) -> (r: &'static str)
        ensures
            r@ == ts::max_search_hits_drag_tooltip(self.0),
    {
        match self.0 {
            UiLanguage::Japanese => "0 = 無制限、1 以上で件数上限（例: 100000）",
            UiLanguage::English => "0 = unlimited; 1+ caps collected hits",
        }
    }

    pub fn skip_dirs_label(self) -> (r: &'static str)
        ensures
            r@ == ts::skip_dirs_label(self.0),
    {
        match self.0 {
            UiLanguage::Japanese => "スキップディレクトリ:",
            UiLanguage::English => "Skip directories:",
        }
    }

    pub fn skip_dirs_tooltip(self) -> (r: &'static str)
        ensures
            r@ == ts::skip_dirs_tooltip(self.0),
    {
        match self.0 {
            UiLanguage::Japanese => "走査をスキップするディレクトリ名を ; 区切りで指定します\n\
                 ディレクトリ名が一致した場合、そのフォルダ配下を丸ごとスキップします\n\
                 ─────────────────────────\n\
                 例）.git;target;node_modules",
            UiLanguage::English => "Directory names to skip (semicolon-separated)\n\
                 e.g. .git;target;node_modules",
        }
    }

    pub fn skip_dirs_hint(self) -> (r: &'static str)
        ensures
            r@ == ts::skip_dirs_hint(self.0),
    {
        ".git;target;node_modules;…"
    }

    pub fn skip_dirs_hover(self) -> (r: &'static str)
        ensures
            r@ == ts::skip_dirs_hover(self.0),
    {
        match self.0 {
            UiLanguage::Japanese => "ディレクトリ名を ; 区切りで入力します\n\
                 フルパスではなくディレクトリ名のみで指定します",
            UiLanguage::English => "Names only (not full paths), separated by ;",
        }
    }

    pub fn footer_hint_ast(self) -> (r: &'static str)
        ensures
            r@ == ts::footer_hint_ast(self.0),
    {
        match self.0 {
            UiLanguage::Japanese => "$VAR=単一ノード  $$$ARGS=複数ノード  $_=無視  例: fn $NAME($$$ARGS)  $X.unwrap()  if ($COND) { $$$BODY }",
            UiLanguage::English => "$VAR=single node  $$$ARGS=multiple nodes  $_=ignore  e.g. fn $NAME($$$ARGS)  $X.unwrap()  if ($COND) { $$$BODY }",
        }
    }

    pub fn footer_hint_non_ast(self) -> (r: &'static str)
        ensures
            r@ == ts::footer_hint_non_ast(self.0),
    {
        match self.0 {
            UiLanguage::Japanese => "ファイルフィルタと詳細設定で対象を絞り込めます",
            UiLanguage::English => "Use file filter and advanced settings to narrow targets",
        }
    }

    pub fn terminal_input_hint(self) -> (r: &'static str)
        ensures
            r@ == ts::terminal_input_hint(self.0),
    {
        match self.0 {
            UiLanguage::Japanese => "コマンドを入力… (Enter: 実行 / Shift+Enter: 改行)",
            UiLanguage::English => "Enter a command... (Enter: run / Shift+Enter: newline)",
        }
    }

    pub fn status_idle(self) -> (r: &'static str)
        ensures
            r@ == ts::status_idle(self.0),
    {
        match self.0 {
            UiLanguage::Japanese => "待機中",
            UiLanguage::English => "Idle",
        }
    }

    pub fn export_excel(self) -> (r: &'static str)
        ensures
            r@ == ts::export_excel(self.0),
    {
        "Excel"
    }

    pub fn export_excel_tooltip(self) -> (r: &'static str)
        ensures
            r@ == ts::export_excel_tooltip(self.0),
    {
        match self.0 {
            UiLanguage::Japanese => "検索結果を Excel (.xlsx) ファイルに出力します\n\
                 ファイル名・行・列・マッチテキストを表形式で保存します",
            UiLanguage::English => "Export results to .xlsx\n\
                 Columns: file, line, column, match text",
        }
    }

    pub fn export_html(self) -> (r: &'static str)
        ensures
            r@ == ts::export_html(self.0),
    {
        "HTML"
    }

    pub fn export_html_tooltip(self) -> (r: &'static str)
        ensures
            r@ == ts::export_html_tooltip(self.0),
    {
        match self.0 {
            UiLanguage::Japanese => "検索結果を HTML テーブル形式で出力します",
            UiLanguage::English => "Export as HTML table",
        }
    }

    pub fn export_md(self) -> (r: &'static str)
        ensures
            r@ == ts::export_md(self.0),
    {
        "Markdown"
    }

    pub fn export_md_tooltip(self) -> (r: &'static str)
        ensures
            r@ == ts::export_md_tooltip(self.0),
    {
        match self.0 {
            UiLanguage::Japanese => "検索結果を Markdown テーブル形式で出力します",
            UiLanguage::English => "Export as Markdown table",
        }
    }

    pub fn export_json(self) -> (r: &'static str)
        ensures
            r@ == ts::export_json(self.0),
    {
        "JSON"
    }

    pub fn export_json_tooltip(self) -> (r: &'static str)
        ensures
            r@ == ts::export_json_tooltip(self.0),
    {
        match self.0 {
            UiLanguage::Japanese => "検索結果を JSON 形式で出力します",
            UiLanguage::English => "Export as JSON",
        }
    }

    pub fn export_txt(self) -> (r: &'static str)
        ensures
            r@ == ts::export_txt(self.0),
    {
        "TXT"
    }

    pub fn export_txt_tooltip(self) -> (r: &'static str)
        ensures
            r@ == ts::export_txt_tooltip(self.0),
    {
        match self.0 {
            UiLanguage::Japanese => "検索結果をプレーンテキストで出力します",
            UiLanguage::English => "Export as plain text",
        }
    }

    pub fn copy_results(self) -> (r: &'static str)
        ensures
            r@ == ts::copy_results(self.0),
    {
        match self.0 {
            UiLanguage::Japanese => "コピー",
            UiLanguage::English => "Copy",
        }
    }

    pub fn copy_results_tooltip(self) -> (r: &'static str)
        ensures
            r@ == ts::copy_results_tooltip(self.0),
    {
        match self.0 {
            UiLanguage::Japanese => "検索結果をクリップボードにコピーします",
            UiLanguage::English => "Copy results to clipboard",
        }
    }

    pub fn rewrite_template_label(self) -> (r: &'static str)
        ensures
            r@ == ts::rewrite_template_label(self.0),
    {
        match self.0 {
            UiLanguage::Japanese => "置換:",
            UiLanguage::English => "Rewrite:",
        }
    }

    pub fn rewrite_template_tooltip(self) -> (r: &'static str)
        ensures
            r@ == ts::rewrite_template_tooltip(self.0),
    {
        match self.0 {
            UiLanguage::Japanese => "ast-grep の --rewrite に相当する置換テンプレートです。\n\
                 検索パターンのメタ変数（$A など）を参照できます。",
            UiLanguage::English => "Replacement template (like ast-grep --rewrite).\n\
                 Meta-variables from the search pattern can be used.",
        }
    }

    pub fn rewrite_template_hint(self) -> (r: &'static str)
        ensures
            r@ == ts::rewrite_template_hint(self.0),
    {
        match self.0 {
            UiLanguage::Japanese => "例: new_name($A)",
            UiLanguage::English => "e.g. new_name($A)",
        }
    }

    pub fn rewrite_preview_btn(self) -> (r: &'static str)
        ensures
            r@ == ts::rewrite_preview_btn(self.0),
    {
        match self.0 {
            UiLanguage::Japanese => "置換プレビュー",
            UiLanguage::English => "Preview rewrite",
        }
    }

    pub fn rewrite_preview_tooltip(self) -> (r: &'static str)
        ensures
            r@ == ts::rewrite_preview_tooltip(self.0),
    {
        match self.0 {
            UiLanguage::Japanese => "ヒットした各ファイルに対し、置換後のソースを生成して差分を確認します（ディスクは変更しません）",
            UiLanguage::English => "Generate rewritten source per hit file and show a diff (does not write to disk)",
        }
    }

    pub fn rewrite_window_title(self) -> (r: &'static str)
        ensures
            r@ == ts::rewrite_window_title(self.0),
    {
        match self.0 {
            UiLanguage::Japanese => "置換プレビュー",
            UiLanguage::English => "Rewrite preview",
        }
    }

    pub fn rewrite_no_changes(self) -> (r: &'static str)
        ensures
            r@ == ts::rewrite_no_changes(self.0),
    {
        match self.0 {
            UiLanguage::Japanese => "置換の結果、検索ヒットしたファイルに変更はありませんでした（テンプレートが元と同じか、マッチと整合しません）。",
            UiLanguage::English => "No changes after rewrite (template may be identical or incompatible with matches).",
        }
    }

    pub fn rewrite_close(self) -> (r: &'static str)
        ensures
            r@ == ts::rewrite_close(self.0),
    {
        match self.0 {
            UiLanguage::Japanese => "閉じる",
            UiLanguage::English => "Close",
        }
    }

    pub fn rewrite_file_list_label(self) -> (r: &'static str)
        ensures
            r@ == ts::rewrite_file_list_label(self.0),
    {
        match self.0 {
            UiLanguage::Japanese => "ファイル:",
            UiLanguage::English => "Files:",
        }
    }

    pub fn rewrite_apply(self) -> (r: &'static str)
        ensures
            r@ == ts::rewrite_apply(self.0),
    {
        match self.0 {
            UiLanguage::Japanese => "ファイルに書き戻す",
            UiLanguage::English => "Apply to files",
        }
    }

    pub fn rewrite_apply_tooltip(self) -> (r: &'static str)
        ensures
            r@ == ts::rewrite_apply_tooltip(self.0),
    {
        match self.0 {
            UiLanguage::Japanese => "プレビュー内容を元の文字コードでディスクに保存し、その後検索を再実行します",
            UiLanguage::English => "Save preview using each file's encoding, then run search again",
        }
    }

    pub fn rewrite_status_applying(self) -> (r: &'static str)
        ensures
            r@ == ts::rewrite_status_applying(self.0),
    {
        match self.0 {
            UiLanguage::Japanese => "ファイルへ書き込み中…",
            UiLanguage::English => "Writing files…",
        }
    }

    pub fn rewrite_compare_hint(self) -> (r: &'static str)
        ensures
            r@ == ts::rewrite_compare_hint(self.0),
    {
        match self.0 {
            UiLanguage::Japanese => "unified diff 形式です。コンテキストは通常色、削除行（-）は赤系、追加行（+）は緑系で表示します。",
            UiLanguage::English => "Unified diff: context lines are neutral, removals (-) are reddish, additions (+) are greenish.",
        }
    }

    pub fn err_export_excel(self) -> (r: &'static str)
        ensures
            r@ == ts::err_export_excel(self.0),
    {
        match self.0 {
            UiLanguage::Japanese => "Excelエクスポートエラー:",
            UiLanguage::English => "Excel export error:",
        }
    }

    pub fn err_export_html(self) -> (r: &'static str)
        ensures
            r@ == ts::err_export_html(self.0),
    {
        match self.0 {
            UiLanguage::Japanese => "HTML書き出しエラー:",
            UiLanguage::English => "HTML export error:",
        }
    }

    pub fn err_export_md(self) -> (r: &'static str)
        ensures
            r@ == ts::err_export_md(self.0),
    {
        match self.0 {
            UiLanguage::Japanese => "Markdown書き出しエラー:",
            UiLanguage::English => "Markdown export error:",
        }
    }

    pub fn err_export_json(self) -> (r: &'static str)
        ensures
            r@ == ts::err_export_json(self.0),
    {
        match self.0 {
            UiLanguage::Japanese => "JSON書き出しエラー:",
            UiLanguage::English => "JSON export error:",
        }
    }

    pub fn err_export_txt(self) -> (r: &'static str)
        ensures
            r@ == ts::err_export_txt(self.0),
    {
        match self.0 {
            UiLanguage::Japanese => "テキスト書き出しエラー:",
            UiLanguage::English => "Text export error:",
        }
    }

    pub fn err_clipboard(self) -> (r: &'static str)
        ensures
            r@ == ts::err_clipboard(self.0),
    {
        match self.0 {
            UiLanguage::Japanese => "クリップボードコピーエラー:",
            UiLanguage::English => "Clipboard error:",
        }
    }

    pub fn file_filter_txt(self) -> (r: &'static str)
        ensures
            r@ == ts::file_filter_txt(self.0),
    {
        match self.0 {
            UiLanguage::Japanese => "テキスト",
            UiLanguage::English => "Text",
        }
    }

    pub fn help_window_title(self) -> (r: &'static str)
        ensures
            r@ == ts::help_window_title(self.0),
    {
        match self.0 {
            UiLanguage::Japanese => "パターンヘルプ",
            UiLanguage::English => "Pattern help",
        }
    }

    pub fn help_meta_heading(self) -> (r: &'static str)
        ensures
            r@ == ts::help_meta_heading(self.0),
    {
        match self.0 {
            UiLanguage::Japanese => "メタ変数の使い方",
            UiLanguage::English => "Meta-variables",
        }
    }

    pub fn help_meta_var_single(self) -> (r: &'static str)
        ensures
            r@ == ts::help_meta_var_single(self.0),
    {
        match self.0 {
            UiLanguage::Japanese => "任意の単一ノード（式・識別子・型など）にマッチ  例: $NAME  $EXPR  $TYPE",
            UiLanguage::English => "Matches a single node (expression, identifier, type, ...)  e.g. $NAME  $EXPR  $TYPE",
        }
    }

    pub fn help_meta_multi(self) -> (r: &'static str)
        ensures
            r@ == ts::help_meta_multi(self.0),
    {
        match self.0 {
            UiLanguage::Japanese => "0個以上の複数ノードにマッチ  例: $$$ARGS  $$$BODY  $$$ITEMS",
            UiLanguage::English => "Matches zero or more nodes  e.g. $$$ARGS  $$$BODY  $$$ITEMS",
        }
    }

    pub fn help_meta_ignore(self) -> (r: &'static str)
        ensures
            r@ == ts::help_meta_ignore(self.0),
    {
        match self.0 {
            UiLanguage::Japanese => "何にでもマッチするが、キャプチャしない  例: foo($_)  if ($_) { $$$BODY }",
            UiLanguage::English => "Matches anything without capturing  e.g. foo($_)  if ($_) { $$$BODY }",
        }
    }

    pub fn help_meta_same(self) -> (r: &'static str)
        ensures
            r@ == ts::help_meta_same(self.0),
    {
        match self.0 {
            UiLanguage::Japanese => "同じ変数名は同じノードにマッチ  例: $A == $A",
            UiLanguage::English => "Same name -> same node  e.g. $A == $A",
        }
    }

    pub fn help_meta_same_var_key(self) -> (r: &'static str)
        ensures
            r@ == ts::help_meta_same_var_key(self.0),
    {
        match self.0 {
            UiLanguage::Japanese => "$A (同じ変数名)",
            UiLanguage::English => "$A (same name)",
        }
    }

    pub fn help_presets_heading(self) -> (r: &'static str)
        ensures
            r@ == ts::help_presets_heading(self.0),
    {
        match self.0 {
            UiLanguage::Japanese => "プリセットパターン",
            UiLanguage::English => "Presets",
        }
    }

    pub fn help_examples_heading(self) -> (r: &'static str)
        ensures
            r@ == ts::help_examples_heading(self.0),
    {
        match self.0 {
            UiLanguage::Japanese => "使用例 (クリックで適用)",
            UiLanguage::English => "Examples (click to apply)",
        }
    }

    pub fn help_example_1_desc(self) -> (r: &'static str)
        ensures
            r@ == ts::help_example_1_desc(self.0),
    {
        match self.0 {
            UiLanguage::Japanese => "すべての関数定義を検索 (Rust)",
            UiLanguage::English => "All function definitions (Rust)",
        }
    }

    pub fn help_example_2_desc(self) -> (r: &'static str)
        ensures
            r@ == ts::help_example_2_desc(self.0),
    {
        match self.0 {
            UiLanguage::Japanese => "unwrap()の呼び出し箇所 (Rust)",
            UiLanguage::English => "unwrap() calls (Rust)",
        }
    }

    pub fn help_example_3_desc(self) -> (r: &'static str)
        ensures
            r@ == ts::help_example_3_desc(self.0),
    {
        match self.0 {
            UiLanguage::Japanese => "console.logの使用箇所 (JS/TS)",
            UiLanguage::English => "console.log (JS/TS)",
        }
    }

    pub fn help_popup_browser_blurb(self) -> (r: &'static str)
        ensures
            r@ == ts::help_popup_browser_blurb(self.0),
    {
        match self.0 {
            UiLanguage::Japanese => "下記は要点のみです。記法の詳細・言語別の注意・トラブルシューティングはブラウザの詳細ヘルプを参照してください。",
            UiLanguage::English => "Below is a short summary. Full syntax, per-language notes, and troubleshooting are in the detailed HTML help (opens in your browser).",
        }
    }

    pub fn help_open_browser_btn(self) -> (r: &'static str)
        ensures
            r@ == ts::help_open_browser_btn(self.0),
    {
        match self.0 {
            UiLanguage::Japanese => "詳細ヘルプをブラウザで開く",
            UiLanguage::English => "Open full help in browser",
        }
    }

    pub fn help_open_browser_tooltip(self) -> (r: &'static str)
        ensures
            r@ == ts::help_open_browser_tooltip(self.0),
    {
        match self.0 {
            UiLanguage::Japanese => "埋め込みの HTML ドキュメントを既定ブラウザで表示します",
            UiLanguage::English => "Shows the bundled HTML documentation in your default browser",
        }
    }

    pub fn help_err_write_temp(self) -> (r: &'static str)
        ensures
            r@ == ts::help_err_write_temp(self.0),
    {
        match self.0 {
            UiLanguage::Japanese => "ヘルプ一時ファイルの書き込みに失敗:",
            UiLanguage::English => "Failed to write help temp file:",
        }
    }

    pub fn help_err_open_browser(self) -> (r: &'static str)
        ensures
            r@ == ts::help_err_open_browser(self.0),
    {
        match self.0 {
            UiLanguage::Japanese => "ブラウザでヘルプを開けませんでした:",
            UiLanguage::English => "Could not open help in browser:",
        }
    }

    pub fn help_tips_heading(self) -> (r: &'static str)
        ensures
            r@ == ts::help_tips_heading(self.0),
    {
        match self.0 {
            UiLanguage::Japanese => "クイックヒント",
            UiLanguage::English => "Quick tips",
        }
    }

    pub fn help_tip_1(self) -> (r: &'static str)
        ensures
            r@ == ts::help_tip_1(self.0),
    {
        match self.0 {
            UiLanguage::Japanese => "同じ名前のメタ変数（例: $A, $A）は、同一のコード片にマッチする必要があります",
            UiLanguage::English => "Same meta-variable name (e.g. $A, $A) must match the same code",
        }
    }

    pub fn help_tip_2(self) -> (r: &'static str)
        ensures
            r@ == ts::help_tip_2(self.0),
    {
        match self.0 {
            UiLanguage::Japanese => "$$$ は「複数ノード」用。引数リストや文の並びに使います",
            UiLanguage::English => "$$$ matches zero or more nodes—use for arg lists or statement sequences",
        }
    }

    pub fn help_tip_3(self) -> (r: &'static str)
        ensures
            r@ == ts::help_tip_3(self.0),
    {
        match self.0 {
            UiLanguage::Japanese => "マッチしないときは、ツールバーの言語が対象ファイルの構文解析に合っているか確認してください",
            UiLanguage::English => "If nothing matches, check the toolbar language matches how files are parsed",
        }
    }

    pub fn pa_window_title(self) -> (r: &'static str)
        ensures
            r@ == ts::pa_window_title(self.0),
    {
        match self.0 {
            UiLanguage::Japanese => "パターン支援",
            UiLanguage::English => "Pattern assist",
        }
    }

    pub fn pa_intro(self) -> (r: &'static str)
        ensures
            r@ == ts::pa_intro(self.0),
    {
        match self.0 {
            UiLanguage::Japanese => "コード片を入力すると、マッチするパターン候補を列挙します。\n\
                 「使用」ボタンで検索欄に反映できます。",
            UiLanguage::English => "Enter a snippet to list matching patterns.\n\
                 Use \"Apply\" to copy a pattern to the search field.",
        }
    }

}

} // verus!
