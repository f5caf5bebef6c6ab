//! The content of each fixed UI text, by language.
use vstd::prelude::*;

use crate::i18n::{pick, UiLanguage};

verus! {

pub open spec fn window_title(lang: UiLanguage) -> Seq<char> {
    "ast-grep GUI"@
}

pub open spec fn directory_label(lang: UiLanguage) -> Seq<char> {
    pick(lang, "ディレクトリ:"@, "Directory:"@)
}

pub open spec fn directory_tooltip(lang: UiLanguage) -> Seq<char> {
    pick(lang, "ASTパターンで検索するフォルダを指定します"@, "Folder to search with AST patterns"@)
}

pub open spec fn directory_hint(lang: UiLanguage) -> Seq<char> {
    pick(lang, "検索対象のディレクトリ"@, "Directory to search"@)
}

pub open spec fn browse(lang: UiLanguage) -> Seq<char> {
    pick(lang, "参照..."@, "Browse..."@)
}

pub open spec fn ui_language_label(lang: UiLanguage) -> Seq<char> {
    pick(lang, "表示言語:"@, "UI language:"@)
}

pub open spec fn ui_language_tooltip(lang: UiLanguage) -> Seq<char> {
    pick(lang, "インターフェースの表示言語を選びます（設定は保存されます）"@, "Choose interface language (saved with settings)"@)
}

pub open spec fn mode_label(lang: UiLanguage) -> Seq<char> {
    pick(lang, "モード:"@, "Mode:"@)
}

pub open spec fn mode_tooltip(lang: UiLanguage) -> Seq<char> {
    pick(lang, "検索方法を選択します\n\
                 AST: ast-grep の AST パターン検索（マッチ範囲は本体・CLI と同じ）\n\
                 トークン: スペース区切りのトークンを順序通りに検索（空白の有無は問わない）\n\
                 文字列: 通常のテキスト検索（単純な部分一致）\n\
                 正規表現: 正規表現パターンで検索"@, "Search method\n\
                 AST: ast-grep AST patterns (match spans match the CLI)\n\
                 Token: search by space-separated tokens in order (whitespace-flexible)\n\
                 Text: plain substring search\n\
                 Regex: regular expression search"@)
}

pub open spec fn mode_ast(lang: UiLanguage) -> Seq<char> {
    pick(lang, "AST"@, "AST"@)
}

pub open spec fn mode_ast_tooltip(lang: UiLanguage) -> Seq<char> {
    pick(lang, "ast-grep のASTパターンで検索します\n\
                 $VAR・$$$ARGS などのメタ変数が使えます\n\
                 コードの構造を理解した検索が可能です\n\
                 マッチ範囲は ast-grep 本体・CLI と同じです"@, "Search with ast-grep AST patterns\n\
                 Meta-variables like $VAR, $$$ARGS\n\
                 Match spans match ast-grep / the CLI"@)
}

pub open spec fn mode_token(lang: UiLanguage) -> Seq<char> {
    pick(lang, "トークン"@, "Token"@)
}

pub open spec fn mode_token_tooltip(lang: UiLanguage) -> Seq<char> {
    pick(lang, "スペースで区切ったトークンを順序通りに検索します\n\
                 空白の有無は問いません\n\
                 例: `method ( int` は `method(int` にもマッチします\n\
                 ファイルフィルタ未指定時は全ファイルが対象です"@, "Search by space-separated tokens in order (whitespace-flexible)\n\
                 e.g. `method ( int` matches `method(int`\n\
                 Without a file filter, all files are searched"@)
}

pub open spec fn mode_plain(lang: UiLanguage) -> Seq<char> {
    pick(lang, "文字列"@, "Text"@)
}

pub open spec fn mode_plain_tooltip(lang: UiLanguage) -> Seq<char> {
    pick(lang, "入力した文字列を含む行を検索します\n\
                 ツールバーで「大文字小文字を区別しない」「単語単位」を選べます（正規表現の知識は不要）\n\
                 ファイルフィルタ未指定時は全ファイルを対象にします"@, "Search for the substring in each line\n\
                 Use the checkboxes for ignore case and whole word (no regex knowledge needed)\n\
                 Without a file filter, all files are searched"@)
}

pub open spec fn plain_text_ignore_case(lang: UiLanguage) -> Seq<char> {
    pick(lang, "大文字小文字を区別しない"@, "Ignore case"@)
}

pub open spec fn plain_text_ignore_case_tooltip(lang: UiLanguage) -> Seq<char> {
    pick(lang, "オンにすると、検索語と行内の表記が大文字・小文字違いでも一致します\n\
                 （例: foo と Foo）"@, "When enabled, matches ignore ASCII/Unicode case\n\
                 (e.g. foo matches Foo)"@)
}

pub open spec fn plain_text_whole_word(lang: UiLanguage) -> Seq<char> {
    pick(lang, "単語単位で一致"@, "Whole word"@)
}

pub open spec fn plain_text_whole_word_tooltip(lang: UiLanguage) -> Seq<char> {
    pick(lang, "検索語の前後が、空白（スペース・タブ・改行など）か行頭／行末で区切られているときだけヒットします。\n\
                 ─────────────────────────\n\
                 例: cat を探すとき\n\
                 • ヒットする … 「 cat 」のように前後が空白、または行の先頭／末尾の cat\n\
                 • ヒットしない … catch の cat、int* の int（* の直前は空白ではない）\n\
                 ─────────────────────────\n\
                 foo(int) の int のように、記号のすぐ内側にある語はヒットしません。コード全体を探すときは単語単位をオフにしてください。"@, "Matches only when the search text is delimited by whitespace (spaces, tabs, line breaks) or line start/end.\n\
                 ─────────────────────────\n\
                 Example: searching for cat\n\
                 • Matches … when surrounded by whitespace (e.g. “ cat ”)\n\
                 • Does not match … cat inside catch, or int before * in int* (no space before *)\n\
                 ─────────────────────────\n\
                 Tokens glued to punctuation such as foo(int) won’t match int. Turn off whole word to search more broadly."@)
}

pub open spec fn incremental_search_label(lang: UiLanguage) -> Seq<char> {
    pick(lang, "入力で即時検索"@, "Auto-search"@)
}

pub open spec fn incremental_search_tooltip(lang: UiLanguage) -> Seq<char> {
    pick(lang, "パターン入力後 0.5 秒で自動的に検索を開始します"@, "Automatically start search 0.5 s after typing stops"@)
}

pub open spec fn mode_regex(lang: UiLanguage) -> Seq<char> {
    pick(lang, "正規表現"@, "Regex"@)
}

pub open spec fn mode_regex_tooltip(lang: UiLanguage) -> Seq<char> {
    pick(lang, "正規表現パターンで検索します\n\
                 例) foo\\(.*\\)  \\berror\\b  ^import\n\
                 ファイルフィルタ未指定時は全ファイルを対象にします"@, "Search with a regex (Rust regex syntax)\n\
                 e.g. foo\\(.*\\)  \\berror\\b  ^import\n\
                 Without a file filter, all files are searched"@)
}

pub open spec fn search_lang_label(lang: UiLanguage) -> Seq<char> {
    pick(lang, "言語:"@, "Language:"@)
}

pub open spec fn search_lang_tooltip(lang: UiLanguage) -> Seq<char> {
    pick(lang, "検索対象のプログラミング言語を選択します\n\
                 自動: 拡張子から言語を判定し、混在プロジェクトではファイルごとに別言語で解析します\n\
                 手動: その言語の拡張子のみを対象にします"@, "Language for AST search\n\
                 Auto: detect language from each file extension (mixed projects supported)\n\
                 Manual: only extensions for that language are searched"@)
}

pub open spec fn ext_mapping_title(lang: UiLanguage) -> Seq<char> {
    pick(lang, "拡張子 → 解析言語（grep）"@, "Extension → parser (AST grep)"@)
}

pub open spec fn ext_mapping_file_filter_note(lang: UiLanguage) -> Seq<char> {
    pick(lang, "※ ファイル名フィルタを指定している場合、一覧以外の拡張子のファイルも対象になることがあります"@, "※ With a file name filter, files with other extensions may be searched too"@)
}

pub open spec fn ext_mapping_plain_regex(lang: UiLanguage) -> Seq<char> {
    pick(lang, "文字列／正規表現モードでは拡張子による言語分類は使いません（対象はファイル名フィルタ・詳細設定に従います）"@, "Text/Regex mode does not map extensions to a parser (files follow the name filter and skip rules)"@)
}

pub open spec fn all_files_note(lang: UiLanguage) -> Seq<char> {
    pick(lang, "（全ファイル対象）"@, "(all files)"@)
}

pub open spec fn all_files_tooltip(lang: UiLanguage) -> Seq<char> {
    pick(lang, "ファイルフィルタを設定することで対象を絞り込めます"@, "Use the file filter to narrow targets"@)
}

pub open spec fn context_lines_label(lang: UiLanguage) -> Seq<char> {
    pick(lang, "コンテキスト行数:"@, "Context lines:"@)
}

pub open spec fn context_lines_tooltip(lang: UiLanguage) -> Seq<char> {
    pick(lang, "マッチした行の前後に何行表示するかを指定します\n\
                 0 = マッチ行のみ\n\
                 2 = マッチ行の前後2行ずつ表示（デフォルト）\n\
                 エクスポート時の出力範囲にも影響します\n\
                 Shift+Page Up / Shift+Page Down で1ずつ増減（いつでも利用可）"@, "Lines of context before/after each match\n\
                 0 = match line only\n\
                 2 = two lines each side (default)\n\
                 Affects exports too\n\
                 Shift+Page Up / Shift+Page Down: ±1 (always available)"@)
}

pub open spec fn context_drag_tooltip(lang: UiLanguage) -> Seq<char> {
    pick(lang, "ドラッグまたは数値を直接入力して変更できます"@, "Drag or type a number"@)
}

pub open spec fn context_lines_decrease_tooltip(lang: UiLanguage) -> Seq<char> {
    pick(lang, "前後コンテキスト行を1つ減らす"@, "Decrease context lines by 1"@)
}

pub open spec fn context_lines_increase_tooltip(lang: UiLanguage) -> Seq<char> {
    pick(lang, "前後コンテキスト行を1つ増やす"@, "Increase context lines by 1"@)
}

pub open spec fn file_filter_label(lang: UiLanguage) -> Seq<char> {
    pick(lang, "ファイルフィルタ:"@, "File filter:"@)
}

pub open spec fn file_filter_tooltip(lang: UiLanguage) -> Seq<char> {
    pick(lang, "検索するファイル名を絞り込みます\n\
                 空のままだと「言語」設定の拡張子が使われます\n\
                 複数指定する場合は ; で区切ります"@, "Filter by file name pattern\n\
                 Empty = use language default extensions\n\
                 Multiple patterns: separate with ;"@)
}

pub open spec fn file_filter_hint(lang: UiLanguage) -> Seq<char> {
    pick(lang, "*.rs;*.toml  (空=言語デフォルト)"@, "*.rs;*.toml  (empty = language default)"@)
}

pub open spec fn file_filter_hover(lang: UiLanguage) -> Seq<char> {
    pick(lang, "ファイル名パターンを ; 区切りで指定します\n\
                 ─────────────────────────\n\
                 * … 任意の文字列にマッチ\n\
                 .  … ドット（エスケープ不要）\n\
                 正規表現も使えます\n\
                 ─────────────────────────\n\
                 例）*.rs;*.toml\n\
                 例）test_.*\\.java\n\
                 例）Main.java"@, "File name patterns separated by ;\n\
                 ─────────────────────────\n\
                 * … matches any substring\n\
                 .  … literal dot (no escape needed)\n\
                 Regex features allowed\n\
                 ─────────────────────────\n\
                 e.g. *.rs;*.toml\n\
                 e.g. test_.*\\.java\n\
                 e.g. Main.java"@)
}

pub open spec fn pattern_label_tooltip_ast(lang: UiLanguage) -> Seq<char> {
    pick(lang, "ASTパターンを入力します\n\
                 ─────────────────────────\n\
                 $VAR   … 任意の単一ノードにマッチ\n\
                 $$$VAR … 0個以上の複数ノードにマッチ\n\
                 $_     … 何にでもマッチ（キャプチャしない）\n\
                 ─────────────────────────\n\
                 例）fn $NAME($$$ARGS)\n\
                 例）$X.unwrap()\n\
                 Enter キーでも検索を開始できます\n\
                 「ℹ ヘルプ」でプリセット一覧を表示"@, "Enter an AST pattern\n\
                 ─────────────────────────\n\
                 $VAR   … single node\n\
                 $$$VAR … zero or more nodes\n\
                 $_     … match without capture\n\
                 ─────────────────────────\n\
                 e.g. fn $NAME($$$ARGS)\n\
                 Press Enter to search\n\
                 See Help for presets"@)
}

pub open spec fn pattern_label_tooltip_token(lang: UiLanguage) -> Seq<char> {
    pick(lang, "スペースで区切ったトークンを入力します\n\
                 ─────────────────────────\n\
                 各トークンはリテラル文字列として扱われます\n\
                 トークン間の空白は「0個以上の空白」としてマッチします\n\
                 ─────────────────────────\n\
                 例: method ( int i = 0 ) は method(int i=0) にもマッチ"@, "Enter tokens separated by spaces\n\
                 Each token is matched literally\n\
                 Whitespace between tokens matches zero or more spaces\n\
                 e.g. method ( int matches method(int"@)
}

pub open spec fn pattern_label_tooltip_plain(lang: UiLanguage) -> Seq<char> {
    pick(lang, "検索したい文字列をそのまま入力します\n\
                 大文字/小文字・単語単位はツールバーのチェックで指定できます\n\
                 例）TODO  println!  System.out.println"@, "Plain text to find (use toolbar for ignore case / whole word)\n\
                 e.g. TODO  println!  unwrap()"@)
}

pub open spec fn pattern_label_tooltip_regex(lang: UiLanguage) -> Seq<char> {
    pick(lang, "正規表現パターンを入力します（Rust の regex クレート構文）\n\
                 ─────────────────────────\n\
                 .     … 任意の1文字\n\
                 .*    … 任意の文字列\n\
                 \\b    … 単語境界\n\
                 [A-Z] … 文字クラス\n\
                 ─────────────────────────\n\
                 例）TODO:.*  \\bpanic!\\b  ^import\\s"@, "Regular expression (Rust regex syntax)\n\
                 .  *  \\b  character classes, etc."@)
}

pub open spec fn pattern_hint_ast(lang: UiLanguage) -> Seq<char> {
    pick(lang, "例: fn $NAME($$$ARGS)"@, "e.g. fn $NAME($$$ARGS)"@)
}

pub open spec fn pattern_hint_token(lang: UiLanguage) -> Seq<char> {
    pick(lang, "例: method ( int i = 0 )"@, "e.g. method ( int i = 0 )"@)
}

pub open spec fn pattern_hint_plain(lang: UiLanguage) -> Seq<char> {
    pick(lang, "例: TODO  println!  unwrap()"@, "e.g. TODO  println!  unwrap()"@)
}

pub open spec fn pattern_hint_regex(lang: UiLanguage) -> Seq<char> {
    pick(lang, "例: TODO:.*  \\bpanic!\\b"@, "e.g. TODO:.*  \\bpanic!\\b"@)
}

pub open spec fn pattern_colon(lang: UiLanguage) -> Seq<char> {
    pick(lang, "パターン:"@, "Pattern:"@)
}

pub open spec fn stop(lang: UiLanguage) -> Seq<char> {
    pick(lang, "停止"@, "Stop"@)
}

pub open spec fn stop_tooltip(lang: UiLanguage) -> Seq<char> {
    pick(lang, "検索を中断します"@, "Cancel search"@)
}

pub open spec fn search_btn(lang: UiLanguage) -> Seq<char> {
    pick(lang, "検索"@, "Search"@)
}

pub open spec fn search_tooltip_ast(lang: UiLanguage) -> Seq<char> {
    pick(lang, "ASTパターン検索を開始します（マッチ範囲は ast-grep 本体と同じ）"@, "Start AST search (same spans as ast-grep CLI)"@)
}

pub open spec fn search_tooltip_token(lang: UiLanguage) -> Seq<char> {
    pick(lang, "トークン検索を開始します（スペース区切りで空白柔軟マッチ）"@, "Start token search (space-separated, whitespace-flexible)"@)
}

pub open spec fn search_tooltip_plain(lang: UiLanguage) -> Seq<char> {
    pick(lang, "文字列検索を開始します（Enter キーでも可）"@, "Start text search (Enter also works)"@)
}

pub open spec fn search_tooltip_regex(lang: UiLanguage) -> Seq<char> {
    pick(lang, "正規表現検索を開始します（Enter キーでも可）"@, "Start regex search (Enter also works)"@)
}

pub open spec fn clear_results(lang: UiLanguage) -> Seq<char> {
    pick(lang, "クリア"@, "Clear"@)
}

pub open spec fn clear_results_tooltip(lang: UiLanguage) -> Seq<char> {
    pick(lang, "検索結果をすべて消去します"@, "Clear all results"@)
}

pub open spec fn help_btn(lang: UiLanguage) -> Seq<char> {
    pick(lang, "ℹ ヘルプ"@, "ℹ Help"@)
}

pub open spec fn help_btn_tooltip(lang: UiLanguage) -> Seq<char> {
    pick(lang, "パターンの書き方とプリセット一覧を表示します"@, "Pattern help and presets"@)
}

pub open spec fn pattern_assist_btn(lang: UiLanguage) -> Seq<char> {
    pick(lang, "✨ パターン支援"@, "✨ Pattern assist"@)
}

pub open spec fn pattern_assist_btn_tooltip(lang: UiLanguage) -> Seq<char> {
    pick(lang, "コード片を入力すると、マッチするパターン候補を自動生成します"@, "Generate pattern candidates from a code snippet"@)
}

pub open spec fn regex_visualizer_btn(lang: UiLanguage) -> Seq<char> {
    pick(lang, "🧩 Regex 補助"@, "🧩 Regex helper"@)
}

pub open spec fn regex_visualizer_btn_tooltip(lang: UiLanguage) -> Seq<char> {
    pick(lang, "正規表現の構造を見やすく分解し、コンパイル可否も確認できます"@, "Break down the regex structure and check whether it compiles"@)
}

pub open spec fn regex_visualizer_window_title(lang: UiLanguage) -> Seq<char> {
    pick(lang, "Regex visualiser"@, "Regex visualiser"@)
}

pub open spec fn regex_visualizer_intro(lang: UiLanguage) -> Seq<char> {
    pick(lang, "現在の正規表現をライブで分解表示します。量指定、分岐、グループ、文字クラスの位置が追いやすくなります。"@, "Live breakdown of the current regex so groups, alternations, character classes, and quantifiers are easier to follow."@)
}

pub open spec fn regex_visualizer_pattern_label(lang: UiLanguage) -> Seq<char> {
    pick(lang, "対象の正規表現:"@, "Regex pattern:"@)
}

pub open spec fn regex_visualizer_status_ok(lang: UiLanguage) -> Seq<char> {
    pick(lang, "コンパイル成功"@, "Compiles successfully"@)
}

pub open spec fn regex_visualizer_status_error(lang: UiLanguage) -> Seq<char> {
    pick(lang, "コンパイルエラー"@, "Compile error"@)
}

pub open spec fn regex_visualizer_empty(lang: UiLanguage) -> Seq<char> {
    pick(lang, "正規表現を入力すると、ここに分解結果が表示されます。"@, "Enter a regex pattern to see the breakdown here."@)
}

pub open spec fn regex_visualizer_automaton_heading(lang: UiLanguage) -> Seq<char> {
    pick(lang, "簡易オートマトン表示"@, "Simplified automaton view"@)
}

pub open spec fn regex_visualizer_test_label(lang: UiLanguage) -> Seq<char> {
    pick(lang, "テスト文字列:"@, "Test text:"@)
}

pub open spec fn regex_visualizer_test_hint(lang: UiLanguage) -> Seq<char> {
    pick(lang, "ここに文字列を入力すると、上の正規表現でマッチ箇所を試せます"@, "Type sample text here to try matches against the pattern above"@)
}

pub open spec fn regex_visualizer_test_matches_heading(lang: UiLanguage) -> Seq<char> {
    pick(lang, "マッチ結果"@, "Matches"@)
}

pub open spec fn regex_visualizer_test_no_matches(lang: UiLanguage) -> Seq<char> {
    pick(lang, "マッチなし"@, "No matches"@)
}

pub open spec fn regex_visualizer_test_match_truncated(lang: UiLanguage) -> Seq<char> {
    pick(lang, "（先頭のみ表示）"@, "(showing first matches only)"@)
}

pub open spec fn view_code(lang: UiLanguage) -> Seq<char> {
    pick(lang, "📄 コード"@, "📄 Code"@)
}

pub open spec fn view_code_tooltip(lang: UiLanguage) -> Seq<char> {
    pick(lang, "シンタックスハイライト付きコードビューで結果を表示します"@, "Syntax-highlighted code view"@)
}

pub open spec fn view_table(lang: UiLanguage) -> Seq<char> {
    pick(lang, "📊 表"@, "📊 Table"@)
}

pub open spec fn view_table_tooltip(lang: UiLanguage) -> Seq<char> {
    pick(lang, "ファイル・行・列・マッチ範囲の原文・該当行付近（前後コンテキスト）を一覧表示します"@, "Table: file, line, col, matched span, and surrounding source lines"@)
}

pub open spec fn view_batch_report(lang: UiLanguage) -> Seq<char> {
    pick(lang, "📑 バッチレポート"@, "📑 Batch report"@)
}

pub open spec fn view_batch_report_tooltip(lang: UiLanguage) -> Seq<char> {
    pick(lang, "複数パターンのバッチ検索結果をまとめて表示します"@, "Aggregated results from multi-pattern batch search"@)
}

pub open spec fn view_summary(lang: UiLanguage) -> Seq<char> {
    pick(lang, "📈 サマリー"@, "📈 Summary"@)
}

pub open spec fn view_summary_tooltip(lang: UiLanguage) -> Seq<char> {
    pick(lang, "受信側の型と、引数個数・各引数の型の組み合わせを集計します（パターンにメソッド用の単一メタがある場合はその列も表示）"@, "Count hits by receiver type, arity, and per-argument types (adds a method column if the pattern has a second single metavar)"@)
}

pub open spec fn summary_title(lang: UiLanguage) -> Seq<char> {
    pick(lang, "型バリエーションのサマリー"@, "Type variation summary"@)
}

pub open spec fn summary_empty_results(lang: UiLanguage) -> Seq<char> {
    pick(lang, "検索結果がありません。先に検索を実行してください。"@, "No search results. Run a search first."@)
}

pub open spec fn summary_no_match_rows(lang: UiLanguage) -> Seq<char> {
    pick(lang, "マッチ行がありません。"@, "No match rows."@)
}

pub open spec fn summary_pattern_ineligible(lang: UiLanguage) -> Seq<char> {
    pick(lang, "このサマリーには、パターンに単一メタ変数が1つ以上（受信側）必要です（例: $RECV、$RECV.Format($A)、$RECV.Format()）。"@, "This summary needs at least one single metavar for the receiver (e.g. $RECV, $RECV.Format($A), $RECV.Format())."@)
}

pub open spec fn summary_col_count(lang: UiLanguage) -> Seq<char> {
    pick(lang, "件数"@, "Count"@)
}

pub open spec fn summary_col_receiver(lang: UiLanguage) -> Seq<char> {
    pick(lang, "受信側"@, "Receiver"@)
}

pub open spec fn summary_col_method(lang: UiLanguage) -> Seq<char> {
    pick(lang, "メソッド側"@, "Method"@)
}

pub open spec fn summary_col_arity(lang: UiLanguage) -> Seq<char> {
    pick(lang, "引数数"@, "Arity"@)
}

pub open spec fn batch_jobs_header(lang: UiLanguage) -> Seq<char> {
    pick(lang, "バッチ検索ジョブ"@, "Batch search jobs"@)
}

pub open spec fn batch_add_job(lang: UiLanguage) -> Seq<char> {
    pick(lang, "＋ 現在設定を追加"@, "+ Add current"@)
}

pub open spec fn batch_add_job_tooltip(lang: UiLanguage) -> Seq<char> {
    pick(lang, "ツールバーのパターンと検索条件を 1 件として一覧に追加します"@, "Add current pattern and search settings as one job"@)
}

pub open spec fn batch_run_all(lang: UiLanguage) -> Seq<char> {
    pick(lang, "▶ バッチ実行"@, "▶ Run batch"@)
}

pub open spec fn batch_run_all_tooltip(lang: UiLanguage) -> Seq<char> {
    pick(lang, "有効なジョブを上から順に実行し、完了後にレポートを表示します"@, "Run enabled jobs in order, then show the report"@)
}

pub open spec fn batch_save_config(lang: UiLanguage) -> Seq<char> {
    pick(lang, "設定を保存"@, "Save jobs"@)
}

pub open spec fn batch_save_config_tooltip(lang: UiLanguage) -> Seq<char> {
    pick(lang, "バッチジョブ一覧を YAML ファイルに保存します（テキストエディタで編集しやすい形式です）"@, "Save the batch job list as a YAML file (easy to edit in a text editor)"@)
}

pub open spec fn batch_load_config(lang: UiLanguage) -> Seq<char> {
    pick(lang, "設定を読込"@, "Load jobs"@)
}

pub open spec fn batch_load_config_tooltip(lang: UiLanguage) -> Seq<char> {
    pick(lang, "YAML ファイルからバッチジョブ一覧を読み込み、現在の一覧を置き換えます"@, "Load batch jobs from a YAML file, replacing the current list"@)
}

pub open spec fn err_batch_save(lang: UiLanguage) -> Seq<char> {
    pick(lang, "バッチ設定の保存に失敗:"@, "Failed to save batch config:"@)
}

pub open spec fn err_batch_load(lang: UiLanguage) -> Seq<char> {
    pick(lang, "バッチ設定の読み込みに失敗:"@, "Failed to load batch config:"@)
}

pub open spec fn batch_jobs_empty_hint(lang: UiLanguage) -> Seq<char> {
    pick(lang, "ジョブがありません。「現在設定を追加」で登録してください。"@, "No jobs. Use “Add current” to register search jobs."@)
}

pub open spec fn batch_col_label(lang: UiLanguage) -> Seq<char> {
    pick(lang, "ラベル"@, "Label"@)
}

pub open spec fn batch_col_pattern(lang: UiLanguage) -> Seq<char> {
    pick(lang, "パターン"@, "Pattern"@)
}

pub open spec fn batch_col_enabled(lang: UiLanguage) -> Seq<char> {
    pick(lang, "有効"@, "On"@)
}

pub open spec fn batch_col_actions(lang: UiLanguage) -> Seq<char> {
    pick(lang, "操作"@, "Actions"@)
}

pub open spec fn batch_edit(lang: UiLanguage) -> Seq<char> {
    pick(lang, "編集"@, "Edit"@)
}

pub open spec fn batch_remove(lang: UiLanguage) -> Seq<char> {
    pick(lang, "削除"@, "Del"@)
}

pub open spec fn batch_move_up_tooltip(lang: UiLanguage) -> Seq<char> {
    pick(lang, "上へ"@, "Move up"@)
}

pub open spec fn batch_move_down_tooltip(lang: UiLanguage) -> Seq<char> {
    pick(lang, "下へ"@, "Move down"@)
}

pub open spec fn batch_edit_window_title(lang: UiLanguage) -> Seq<char> {
    pick(lang, "ジョブの編集"@, "Edit job"@)
}

pub open spec fn batch_job_default_label_prefix(lang: UiLanguage) -> Seq<char> {
    pick(lang, "ジョブ"@, "Job"@)
}

pub open spec fn batch_no_runnable_jobs(lang: UiLanguage) -> Seq<char> {
    pick(lang, "実行できるジョブがありません（有効かつパターンとディレクトリが必要です）"@, "No runnable jobs (need enabled jobs with pattern and directory)"@)
}

pub open spec fn batch_report_title(lang: UiLanguage) -> Seq<char> {
    pick(lang, "バッチ検索レポート"@, "Batch search report"@)
}

pub open spec fn batch_report_empty(lang: UiLanguage) -> Seq<char> {
    pick(lang, "レポートがありません。バッチ実行を完了するとここに結果が表示されます。"@, "No report yet. Run a batch search to see results here."@)
}

pub open spec fn batch_report_error(lang: UiLanguage) -> Seq<char> {
    pick(lang, "エラー"@, "Error"@)
}

pub open spec fn batch_report_conditions(lang: UiLanguage) -> Seq<char> {
    pick(lang, "検索条件"@, "Search conditions"@)
}

pub open spec fn batch_report_matches(lang: UiLanguage) -> Seq<char> {
    pick(lang, "マッチ一覧"@, "Matches"@)
}

pub open spec fn export_batch_json_tooltip(lang: UiLanguage) -> Seq<char> {
    pick(lang, "バッチレポートを JSON で保存"@, "Save batch report as JSON"@)
}

pub open spec fn export_batch_md_tooltip(lang: UiLanguage) -> Seq<char> {
    pick(lang, "バッチレポートを Markdown で保存"@, "Save batch report as Markdown"@)
}

pub open spec fn export_batch_html_tooltip(lang: UiLanguage) -> Seq<char> {
    pick(lang, "バッチレポートを HTML で保存"@, "Save batch report as HTML"@)
}

pub open spec fn export_batch_xlsx_tooltip(lang: UiLanguage) -> Seq<char> {
    pick(lang, "バッチレポートを Excel で保存（ジョブごとシート）"@, "Save batch report as Excel (one sheet per job)"@)
}

pub open spec fn export_batch_txt_tooltip(lang: UiLanguage) -> Seq<char> {
    pick(lang, "バッチレポートをテキストで保存"@, "Save batch report as plain text"@)
}

pub open spec fn err_export_batch(lang: UiLanguage) -> Seq<char> {
    pick(lang, "バッチエクスポート失敗:"@, "Batch export failed:"@)
}

pub open spec fn copy_batch_report_tooltip(lang: UiLanguage) -> Seq<char> {
    pick(lang, "バッチレポートをテキストとしてコピー"@, "Copy batch report as text"@)
}

pub open spec fn advanced_settings(lang: UiLanguage) -> Seq<char> {
    pick(lang, "⚙ 詳細設定"@, "⚙ Advanced"@)
}

pub open spec fn file_encoding_label(lang: UiLanguage) -> Seq<char> {
    pick(lang, "ファイル文字コード:"@, "File encoding:"@)
}

pub open spec fn file_encoding_tooltip(lang: UiLanguage) -> Seq<char> {
    pick(lang, "テキストファイルをどの文字コードで読むかを指定します\n\
                 自動判定: UTF-8 / UTF-16 / Shift_JIS / EUC-JP / JIS / GBK / Big5 / EUC-KR / Latin1 系を推定します\n\
                 手動指定の既定候補: UTF-8 / UTF-16 LE / UTF-16 BE / Shift_JIS / EUC-JP / JIS / GBK / Big5 / EUC-KR / Latin1 系\n\
                 選択ファイルの判定結果も横に反映します"@, "Choose how text files are decoded\n\
                 Auto detects UTF-8 / UTF-16 / Shift_JIS / EUC-JP / JIS / GBK / Big5 / EUC-KR / Latin1 families\n\
                 Default manual choices: UTF-8 / UTF-16 LE / UTF-16 BE / Shift_JIS / EUC-JP / JIS / GBK / Big5 / EUC-KR / Latin1 families\n\
                 Detected results are also reflected beside the selected file"@)
}

pub open spec fn max_file_size_label(lang: UiLanguage) -> Seq<char> {
    pick(lang, "最大ファイルサイズ (MB):"@, "Max file size (MB):"@)
}

pub open spec fn max_file_size_tooltip(lang: UiLanguage) -> Seq<char> {
    pick(lang, "このサイズを超えるファイルは検索対象から除外されます\n\
                 巨大なバイナリや自動生成ファイルのスキップに使えます"@, "Skip files larger than this (binaries, generated files)"@)
}

pub open spec fn max_file_size_drag_tooltip(lang: UiLanguage) -> Seq<char> {
    pick(lang, "ドラッグまたは直接入力で変更できます（1〜500 MB）"@, "1–500 MB"@)
}

pub open spec fn max_search_hits_label(lang: UiLanguage) -> Seq<char> {
    pick(lang, "ヒット上限:"@, "Max hits:"@)
}

pub open spec fn max_search_hits_tooltip(lang: UiLanguage) -> Seq<char> {
    pick(lang, "収集するマッチ件数の上限です。多すぎるとメモリを大量に使うため、上限で打ち切ります\n\
                 0 を指定すると無制限です"@, "Maximum number of matches to collect (memory). Use 0 for unlimited"@)
}

pub open spec fn max_search_hits_drag_tooltip(lang: UiLanguage) -> Seq<char> {
    pick(lang, "0 = 無制限、1 以上で件数上限（例: 100000）"@, "0 = unlimited; 1+ caps collected hits"@)
}

pub open spec fn skip_dirs_label(lang: UiLanguage) -> Seq<char> {
    pick(lang, "スキップディレクトリ:"@, "Skip directories:"@)
}

pub open spec fn skip_dirs_tooltip(lang: UiLanguage) -> Seq<char> {
    pick(lang, "走査をスキップするディレクトリ名を ; 区切りで指定します\n\
                 ディレクトリ名が一致した場合、そのフォルダ配下を丸ごとスキップします\n\
                 ─────────────────────────\n\
                 例）.git;target;node_modules"@, "Directory names to skip (semicolon-separated)\n\
                 e.g. .git;target;node_modules"@)
}

pub open spec fn skip_dirs_hint(lang: UiLanguage) -> Seq<char> {
    ".git;target;node_modules;…"@
}

pub open spec fn skip_dirs_hover(lang: UiLanguage) -> Seq<char> {
    pick(lang, "ディレクトリ名を ; 区切りで入力します\n\
                 フルパスではなくディレクトリ名のみで指定します"@, "Names only (not full paths), separated by ;"@)
}

pub open spec fn footer_hint_ast(lang: UiLanguage) -> Seq<char> {
    pick(lang, "$VAR=単一ノード  $$$ARGS=複数ノード  $_=無視  例: fn $NAME($$$ARGS)  $X.unwrap()  if ($COND) { $$$BODY }"@, "$VAR=single node  $$$ARGS=multiple nodes  $_=ignore  e.g. fn $NAME($$$ARGS)  $X.unwrap()  if ($COND) { $$$BODY }"@)
}

pub open spec fn footer_hint_non_ast(lang: UiLanguage) -> Seq<char> {
    pick(lang, "ファイルフィルタと詳細設定で対象を絞り込めます"@, "Use file filter and advanced settings to narrow targets"@)
}

pub open spec fn terminal_input_hint(lang: UiLanguage) -> Seq<char> {
    pick(lang, "コマンドを入力… (Enter: 実行 / Shift+Enter: 改行)"@, "Enter a command... (Enter: run / Shift+Enter: newline)"@)
}

pub open spec fn status_idle(lang: UiLanguage) -> Seq<char> {
    pick(lang, "待機中"@, "Idle"@)
}

pub open spec fn export_excel(lang: UiLanguage) -> Seq<char> {
    "Excel"@
}

pub open spec fn export_excel_tooltip(lang: UiLanguage) -> Seq<char> {
    pick(lang, "検索結果を Excel (.xlsx) ファイルに出力します\n\
                 ファイル名・行・列・マッチテキストを表形式で保存します"@, "Export results to .xlsx\n\
                 Columns: file, line, column, match text"@)
}

pub open spec fn export_html(lang: UiLanguage) -> Seq<char> {
    "HTML"@
}

pub open spec fn export_html_tooltip(lang: UiLanguage) -> Seq<char> {
    pick(lang, "検索結果を HTML テーブル形式で出力します"@, "Export as HTML table"@)
}

pub open spec fn export_md(lang: UiLanguage) -> Seq<char> {
    "Markdown"@
}

pub open spec fn export_md_tooltip(lang: UiLanguage) -> Seq<char> {
    pick(lang, "検索結果を Markdown テーブル形式で出力します"@, "Export as Markdown table"@)
}

pub open spec fn export_json(lang: UiLanguage) -> Seq<char> {
    "JSON"@
}

pub open spec fn export_json_tooltip(lang: UiLanguage) -> Seq<char> {
    pick(lang, "検索結果を JSON 形式で出力します"@, "Export as JSON"@)
}

pub open spec fn export_txt(lang: UiLanguage) -> Seq<char> {
    "TXT"@
}

pub open spec fn export_txt_tooltip(lang: UiLanguage) -> Seq<char> {
    pick(lang, "検索結果をプレーンテキストで出力します"@, "Export as plain text"@)
}

pub open spec fn copy_results(lang: UiLanguage) -> Seq<char> {
    pick(lang, "コピー"@, "Copy"@)
}

pub open spec fn copy_results_tooltip(lang: UiLanguage) -> Seq<char> {
    pick(lang, "検索結果をクリップボードにコピーします"@, "Copy results to clipboard"@)
}

pub open spec fn rewrite_template_label(lang: UiLanguage) -> Seq<char> {
    pick(lang, "置換:"@, "Rewrite:"@)
}

pub open spec fn rewrite_template_tooltip(lang: UiLanguage) -> Seq<char> {
    pick(lang, "ast-grep の --rewrite に相当する置換テンプレートです。\n\
                 検索パターンのメタ変数（$A など）を参照できます。"@, "Replacement template (like ast-grep --rewrite).\n\
                 Meta-variables from the search pattern can be used."@)
}

pub open spec fn rewrite_template_hint(lang: UiLanguage) -> Seq<char> {
    pick(lang, "例: new_name($A)"@, "e.g. new_name($A)"@)
}

pub open spec fn rewrite_preview_btn(lang: UiLanguage) -> Seq<char> {
    pick(lang, "置換プレビュー"@, "Preview rewrite"@)
}

pub open spec fn rewrite_preview_tooltip(lang: UiLanguage) -> Seq<char> {
    pick(lang, "ヒットした各ファイルに対し、置換後のソースを生成して差分を確認します（ディスクは変更しません）"@, "Generate rewritten source per hit file and show a diff (does not write to disk)"@)
}

pub open spec fn rewrite_window_title(lang: UiLanguage) -> Seq<char> {
    pick(lang, "置換プレビュー"@, "Rewrite preview"@)
}

pub open spec fn rewrite_no_changes(lang: UiLanguage) -> Seq<char> {
    pick(lang, "置換の結果、検索ヒットしたファイルに変更はありませんでした（テンプレートが元と同じか、マッチと整合しません）。"@, "No changes after rewrite (template may be identical or incompatible with matches)."@)
}

pub open spec fn rewrite_close(lang: UiLanguage) -> Seq<char> {
    pick(lang, "閉じる"@, "Close"@)
}

pub open spec fn rewrite_file_list_label(lang: UiLanguage) -> Seq<char> {
    pick(lang, "ファイル:"@, "Files:"@)
}

pub open spec fn rewrite_apply(lang: UiLanguage) -> Seq<char> {
    pick(lang, "ファイルに書き戻す"@, "Apply to files"@)
}

pub open spec fn rewrite_apply_tooltip(lang: UiLanguage) -> Seq<char> {
    pick(lang, "プレビュー内容を元の文字コードでディスクに保存し、その後検索を再実行します"@, "Save preview using each file's encoding, then run search again"@)
}

pub open spec fn rewrite_status_applying(lang: UiLanguage) -> Seq<char> {
    pick(lang, "ファイルへ書き込み中…"@, "Writing files…"@)
}

pub open spec fn rewrite_compare_hint(lang: UiLanguage) -> Seq<char> {
    pick(lang, "unified diff 形式です。コンテキストは通常色、削除行（-）は赤系、追加行（+）は緑系で表示します。"@, "Unified diff: context lines are neutral, removals (-) are reddish, additions (+) are greenish."@)
}

pub open spec fn err_export_excel(lang: UiLanguage) -> Seq<char> {
    pick(lang, "Excelエクスポートエラー:"@, "Excel export error:"@)
}

pub open spec fn err_export_html(lang: UiLanguage) -> Seq<char> {
    pick(lang, "HTML書き出しエラー:"@, "HTML export error:"@)
}

pub open spec fn err_export_md(lang: UiLanguage) -> Seq<char> {
    pick(lang, "Markdown書き出しエラー:"@, "Markdown export error:"@)
}

pub open spec fn err_export_json(lang: UiLanguage) -> Seq<char> {
    pick(lang, "JSON書き出しエラー:"@, "JSON export error:"@)
}

pub open spec fn err_export_txt(lang: UiLanguage) -> Seq<char> {
    pick(lang, "テキスト書き出しエラー:"@, "Text export error:"@)
}

pub open spec fn err_clipboard(lang: UiLanguage) -> Seq<char> {
    pick(lang, "クリップボードコピーエラー:"@, "Clipboard error:"@)
}

pub open spec fn file_filter_txt(lang: UiLanguage) -> Seq<char> {
    pick(lang, "テキスト"@, "Text"@)
}

pub open spec fn help_window_title(lang: UiLanguage) -> Seq<char> {
    pick(lang, "パターンヘルプ"@, "Pattern help"@)
}

pub open spec fn help_meta_heading(lang: UiLanguage) -> Seq<char> {
    pick(lang, "メタ変数の使い方"@, "Meta-variables"@)
}

pub open spec fn help_meta_var_single(lang: UiLanguage) -> Seq<char> {
    pick(lang, "任意の単一ノード（式・識別子・型など）にマッチ  例: $NAME  $EXPR  $TYPE"@, "Matches a single node (expression, identifier, type, ...)  e.g. $NAME  $EXPR  $TYPE"@)
}

pub open spec fn help_meta_multi(lang: UiLanguage) -> Seq<char> {
    pick(lang, "0個以上の複数ノードにマッチ  例: $$$ARGS  $$$BODY  $$$ITEMS"@, "Matches zero or more nodes  e.g. $$$ARGS  $$$BODY  $$$ITEMS"@)
}

pub open spec fn help_meta_ignore(lang: UiLanguage) -> Seq<char> {
    pick(lang, "何にでもマッチするが、キャプチャしない  例: foo($_)  if ($_) { $$$BODY }"@, "Matches anything without capturing  e.g. foo($_)  if ($_) { $$$BODY }"@)
}

pub open spec fn help_meta_same(lang: UiLanguage) -> Seq<char> {
    pick(lang, "同じ変数名は同じノードにマッチ  例: $A == $A"@, "Same name -> same node  e.g. $A == $A"@)
}

pub open spec fn help_meta_same_var_key(lang: UiLanguage) -> Seq<char> {
    pick(lang, "$A (同じ変数名)"@, "$A (same name)"@)
}

pub open spec fn help_presets_heading(lang: UiLanguage) -> Seq<char> {
    pick(lang, "プリセットパターン"@, "Presets"@)
}

pub open spec fn help_examples_heading(lang: UiLanguage) -> Seq<char> {
    pick(lang, "使用例 (クリックで適用)"@, "Examples (click to apply)"@)
}

pub open spec fn help_example_1_desc(lang: UiLanguage) -> Seq<char> {
    pick(lang, "すべての関数定義を検索 (Rust)"@, "All function definitions (Rust)"@)
}

pub open spec fn help_example_2_desc(lang: UiLanguage) -> Seq<char> {
    pick(lang, "unwrap()の呼び出し箇所 (Rust)"@, "unwrap() calls (Rust)"@)
}

pub open spec fn help_example_3_desc(lang: UiLanguage) -> Seq<char> {
    pick(lang, "console.logの使用箇所 (JS/TS)"@, "console.log (JS/TS)"@)
}

pub open spec fn help_popup_browser_blurb(lang: UiLanguage) -> Seq<char> {
    pick(lang, "下記は要点のみです。記法の詳細・言語別の注意・トラブルシューティングはブラウザの詳細ヘルプを参照してください。"@, "Below is a short summary. Full syntax, per-language notes, and troubleshooting are in the detailed HTML help (opens in your browser)."@)
}

pub open spec fn help_open_browser_btn(lang: UiLanguage) -> Seq<char> {
    pick(lang, "詳細ヘルプをブラウザで開く"@, "Open full help in browser"@)
}

pub open spec fn help_open_browser_tooltip(lang: UiLanguage) -> Seq<char> {
    pick(lang, "埋め込みの HTML ドキュメントを既定ブラウザで表示します"@, "Shows the bundled HTML documentation in your default browser"@)
}

pub open spec fn help_err_write_temp(lang: UiLanguage) -> Seq<char> {
    pick(lang, "ヘルプ一時ファイルの書き込みに失敗:"@, "Failed to write help temp file:"@)
}

pub open spec fn help_err_open_browser(lang: UiLanguage) -> Seq<char> {
    pick(lang, "ブラウザでヘルプを開けませんでした:"@, "Could not open help in browser:"@)
}

pub open spec fn help_tips_heading(lang: UiLanguage) -> Seq<char> {
    pick(lang, "クイックヒント"@, "Quick tips"@)
}

pub open spec fn help_tip_1(lang: UiLanguage) -> Seq<char> {
    pick(lang, "同じ名前のメタ変数（例: $A, $A）は、同一のコード片にマッチする必要があります"@, "Same meta-variable name (e.g. $A, $A) must match the same code"@)
}

pub open spec fn help_tip_2(lang: UiLanguage) -> Seq<char> {
    pick(lang, "$$$ は「複数ノード」用。引数リストや文の並びに使います"@, "$$$ matches zero or more nodes—use for arg lists or statement sequences"@)
}

pub open spec fn help_tip_3(lang: UiLanguage) -> Seq<char> {
    pick(lang, "マッチしないときは、ツールバーの言語が対象ファイルの構文解析に合っているか確認してください"@, "If nothing matches, check the toolbar language matches how files are parsed"@)
}

pub open spec fn pa_window_title(lang: UiLanguage) -> Seq<char> {
    pick(lang, "パターン支援"@, "Pattern assist"@)
}

pub open spec fn pa_intro(lang: UiLanguage) -> Seq<char> {
    pick(lang, "コード片を入力すると、マッチするパターン候補を列挙します。\n\
                 「使用」ボタンで検索欄に反映できます。"@, "Enter a snippet to list matching patterns.\n\
                 Use \"Apply\" to copy a pattern to the search field."@)
}

pub open spec fn pa_snippet_label(lang: UiLanguage) -> Seq<char> {
    pick(lang, "コード片:"@, "Snippet:"@)
}

pub open spec fn pa_snippet_hint(lang: UiLanguage) -> Seq<char> {
    pick(lang, "ここにコード片を貼り付けてください\n例: fn foo(x: i32) -> String { ... }"@, "Paste a code snippet here\ne.g. fn foo(x: i32) -> String { ... }"@)
}

pub open spec fn pa_generate(lang: UiLanguage) -> Seq<char> {
    pick(lang, "🔍 パターン生成"@, "🔍 Generate"@)
}

pub open spec fn pa_generate_tooltip(lang: UiLanguage) -> Seq<char> {
    pick(lang, "入力したコード片に実際にマッチするパターン候補を列挙します"@, "List patterns that match the snippet"@)
}

pub open spec fn pa_clear(lang: UiLanguage) -> Seq<char> {
    pick(lang, "クリア"@, "Clear"@)
}

pub open spec fn pa_no_candidates(lang: UiLanguage) -> Seq<char> {
    pick(lang, "パターン候補が見つかりませんでした（スニペットを確認してください）"@, "No pattern candidates (check your snippet)"@)
}

pub open spec fn pa_col_pattern(lang: UiLanguage) -> Seq<char> {
    pick(lang, "パターン"@, "Pattern"@)
}

pub open spec fn pa_col_desc(lang: UiLanguage) -> Seq<char> {
    pick(lang, "説明"@, "Description"@)
}

pub open spec fn pa_col_count(lang: UiLanguage) -> Seq<char> {
    pick(lang, "マッチ数"@, "Matches"@)
}

pub open spec fn pa_col_action(lang: UiLanguage) -> Seq<char> {
    pick(lang, "操作"@, "Action"@)
}

pub open spec fn pa_apply(lang: UiLanguage) -> Seq<char> {
    pick(lang, "使用"@, "Apply"@)
}

pub open spec fn pa_apply_tooltip(lang: UiLanguage) -> Seq<char> {
    pick(lang, "このパターンを検索欄に設定します"@, "Set this pattern in the search field"@)
}

pub open spec fn pa_copy(lang: UiLanguage) -> Seq<char> {
    pick(lang, "コピー"@, "Copy"@)
}

pub open spec fn pa_copy_tooltip(lang: UiLanguage) -> Seq<char> {
    pick(lang, "クリップボードにコピーします"@, "Copy to clipboard"@)
}

pub open spec fn pa_pat_hover(lang: UiLanguage) -> Seq<char> {
    pick(lang, "クリックで選択できます"@, "Click to select"@)
}

pub open spec fn code_select_file(lang: UiLanguage) -> Seq<char> {
    pick(lang, "← ファイルを選択してください"@, "← Select a file"@)
}

pub open spec fn to_assist(lang: UiLanguage) -> Seq<char> {
    pick(lang, "→パターン支援"@, "→Pattern assist"@)
}

pub open spec fn to_assist_tooltip(lang: UiLanguage) -> Seq<char> {
    pick(lang, "このマッチテキストをパターン支援に送ります\n\
                 パターン支援ウィンドウが開き、コード片として自動入力されます"@, "Send this match text to Pattern assist\n\
                 Opens the window and fills the snippet field"@)
}

pub open spec fn table_empty(lang: UiLanguage) -> Seq<char> {
    pick(lang, "検索結果がありません"@, "No results"@)
}

pub open spec fn table_col_file(lang: UiLanguage) -> Seq<char> {
    pick(lang, "ファイル"@, "File"@)
}

pub open spec fn table_col_line(lang: UiLanguage) -> Seq<char> {
    pick(lang, "行"@, "Line"@)
}

pub open spec fn table_col_col(lang: UiLanguage) -> Seq<char> {
    pick(lang, "列"@, "Col"@)
}

pub open spec fn table_col_text(lang: UiLanguage) -> Seq<char> {
    pick(lang, "マッチしたテキスト"@, "Matched text"@)
}

pub open spec fn table_col_source_context(lang: UiLanguage) -> Seq<char> {
    pick(lang, "元コード（前後）"@, "Source (context)"@)
}

pub open spec fn table_col_action(lang: UiLanguage) -> Seq<char> {
    pick(lang, "操作"@, "Action"@)
}

pub open spec fn table_type_hint_arity_empty_tooltip(lang: UiLanguage) -> Seq<char> {
    pick(lang, "複数ノードキャプチャの引数個数を取得できませんでした"@, "Could not get captured node count for this multi metavar"@)
}

pub open spec fn table_preview_window_title(lang: UiLanguage) -> Seq<char> {
    pick(lang, "ファイルプレビュー"@, "File preview"@)
}

pub open spec fn table_double_click_hint(lang: UiLanguage) -> Seq<char> {
    pick(lang, "行をダブルクリックすると、コードビューと同じ表示でファイル全文を開き、該当行へスクロールします"@, "Double-click a row to open the full file with the same highlighting as the code view, scrolled to the match"@)
}

pub open spec fn file_list_heading(lang: UiLanguage) -> Seq<char> {
    pick(lang, "ファイル一覧"@, "Files"@)
}

pub open spec fn export_text_title(lang: UiLanguage) -> Seq<char> {
    pick(lang, "ast-grep 検索結果"@, "ast-grep search results"@)
}

pub open spec fn export_md_heading(lang: UiLanguage) -> Seq<char> {
    pick(lang, "ast-grep 検索結果"@, "ast-grep search results"@)
}

pub open spec fn export_md_table_header(lang: UiLanguage) -> Seq<char> {
    pick(lang, "| ファイル | 行 | 列 | マッチテキスト | 元コード（前後） |\n"@, "| File | Line | Col | Matched text | Source (context) |\n"@)
}

pub open spec fn export_html_lang(lang: UiLanguage) -> Seq<char> {
    pick(lang, "ja"@, "en"@)
}

pub open spec fn export_html_title(lang: UiLanguage) -> Seq<char> {
    pick(lang, "ast-grep 検索結果"@, "ast-grep search results"@)
}

pub open spec fn export_html_th_file(lang: UiLanguage) -> Seq<char> {
    pick(lang, "ファイル"@, "File"@)
}

pub open spec fn export_html_th_line(lang: UiLanguage) -> Seq<char> {
    pick(lang, "行"@, "Line"@)
}

pub open spec fn export_html_th_col(lang: UiLanguage) -> Seq<char> {
    pick(lang, "列"@, "Col"@)
}

pub open spec fn export_html_th_match(lang: UiLanguage) -> Seq<char> {
    pick(lang, "マッチテキスト"@, "Match text"@)
}

pub open spec fn export_html_th_source_context(lang: UiLanguage) -> Seq<char> {
    pick(lang, "元コード（前後）"@, "Source (context)"@)
}

pub open spec fn export_xlsx_sheet_results(lang: UiLanguage) -> Seq<char> {
    pick(lang, "検索結果"@, "Results"@)
}

pub open spec fn export_xlsx_sheet_summary(lang: UiLanguage) -> Seq<char> {
    pick(lang, "サマリー"@, "Summary"@)
}

pub open spec fn export_xlsx_sheet_stats(lang: UiLanguage) -> Seq<char> {
    pick(lang, "統計"@, "Stats"@)
}

pub open spec fn export_xlsx_col_file(lang: UiLanguage) -> Seq<char> {
    pick(lang, "ファイル"@, "File"@)
}

pub open spec fn export_xlsx_col_line(lang: UiLanguage) -> Seq<char> {
    pick(lang, "行"@, "Line"@)
}

pub open spec fn export_xlsx_col_col(lang: UiLanguage) -> Seq<char> {
    pick(lang, "列"@, "Col"@)
}

pub open spec fn export_xlsx_col_match(lang: UiLanguage) -> Seq<char> {
    pick(lang, "マッチテキスト"@, "Match text"@)
}

pub open spec fn export_xlsx_col_source_context(lang: UiLanguage) -> Seq<char> {
    pick(lang, "元コード（前後）"@, "Source (context)"@)
}

pub open spec fn export_xlsx_total_matches(lang: UiLanguage) -> Seq<char> {
    pick(lang, "総マッチ数"@, "Total matches"@)
}

pub open spec fn export_xlsx_file_count(lang: UiLanguage) -> Seq<char> {
    pick(lang, "対象ファイル数"@, "Files"@)
}

pub open spec fn export_xlsx_elapsed(lang: UiLanguage) -> Seq<char> {
    pick(lang, "経過時間 (ms)"@, "Elapsed (ms)"@)
}

pub open spec fn export_xlsx_hit_limit_note(lang: UiLanguage) -> Seq<char> {
    pick(lang, "備考"@, "Note"@)
}

pub open spec fn export_xlsx_hit_limit_truncated(lang: UiLanguage) -> Seq<char> {
    pick(lang, "ヒット上限により打ち切り"@, "Truncated at hit limit"@)
}

pub open spec fn export_conditions_title(lang: UiLanguage) -> Seq<char> {
    pick(lang, "検索条件"@, "Search conditions"@)
}

pub open spec fn export_cond_root(lang: UiLanguage) -> Seq<char> {
    pick(lang, "検索ルート"@, "Root directory"@)
}

pub open spec fn export_cond_pattern(lang: UiLanguage) -> Seq<char> {
    pick(lang, "パターン"@, "Pattern"@)
}

pub open spec fn export_cond_lang(lang: UiLanguage) -> Seq<char> {
    pick(lang, "言語"@, "Language"@)
}

pub open spec fn export_cond_context_lines(lang: UiLanguage) -> Seq<char> {
    pick(lang, "前後コンテキスト行数"@, "Context lines"@)
}

pub open spec fn export_cond_file_filter(lang: UiLanguage) -> Seq<char> {
    pick(lang, "ファイルフィルタ"@, "File filter"@)
}

pub open spec fn export_cond_file_filter_default(lang: UiLanguage) -> Seq<char> {
    pick(lang, "（空: 言語デフォルトの拡張子）"@, "(empty: language default extensions)"@)
}

pub open spec fn export_cond_file_encoding(lang: UiLanguage) -> Seq<char> {
    pick(lang, "ファイル文字コード"@, "File encoding"@)
}

pub open spec fn export_cond_max_file_mb(lang: UiLanguage) -> Seq<char> {
    pick(lang, "最大ファイルサイズ (MB)"@, "Max file size (MB)"@)
}

pub open spec fn export_cond_max_search_hits(lang: UiLanguage) -> Seq<char> {
    pick(lang, "ヒット上限（0=無制限）"@, "Max hits (0=unlimited)"@)
}

pub open spec fn export_cond_skip_dirs(lang: UiLanguage) -> Seq<char> {
    pick(lang, "スキップディレクトリ"@, "Skip directories"@)
}

pub open spec fn export_cond_search_mode(lang: UiLanguage) -> Seq<char> {
    pick(lang, "検索モード"@, "Search mode"@)
}

pub open spec fn export_cond_plain_text_options(lang: UiLanguage) -> Seq<char> {
    pick(lang, "文字列検索のオプション"@, "Text search options"@)
}

pub open spec fn export_plain_text_options_not_applicable(lang: UiLanguage) -> Seq<char> {
    pick(lang, "（文字列モード以外では該当なし）"@, "(n/a except in Text mode)"@)
}

pub open spec fn export_html_conditions_heading(lang: UiLanguage) -> Seq<char> {
    pick(lang, "検索条件"@, "Search conditions"@)
}

pub open spec fn preset_rust_fn(lang: UiLanguage) -> Seq<char> {
    pick(lang, "関数定義"@, "Function definition"@)
}

pub open spec fn preset_rust_fn_desc(lang: UiLanguage) -> Seq<char> {
    pick(lang, "すべての関数定義"@, "All function definitions"@)
}

pub open spec fn preset_rust_trait_impl(lang: UiLanguage) -> Seq<char> {
    pick(lang, "トレイト実装"@, "Trait implementation"@)
}

pub open spec fn preset_rust_trait_impl_desc(lang: UiLanguage) -> Seq<char> {
    pick(lang, "トレイト実装"@, "Trait impl blocks"@)
}

pub open spec fn preset_rust_unwrap(lang: UiLanguage) -> Seq<char> {
    pick(lang, "unwrap呼び出し"@, "unwrap() calls"@)
}

pub open spec fn preset_rust_unwrap_desc(lang: UiLanguage) -> Seq<char> {
    pick(lang, "unwrap()の呼び出し箇所"@, "Calls to unwrap()"@)
}

pub open spec fn preset_rust_clone(lang: UiLanguage) -> Seq<char> {
    pick(lang, "clone呼び出し"@, "clone() calls"@)
}

pub open spec fn preset_rust_clone_desc(lang: UiLanguage) -> Seq<char> {
    pick(lang, "clone()の呼び出し箇所"@, "Calls to clone()"@)
}

pub open spec fn preset_rust_panic(lang: UiLanguage) -> Seq<char> {
    pick(lang, "panicマクロ"@, "panic! macro"@)
}

pub open spec fn preset_rust_panic_desc(lang: UiLanguage) -> Seq<char> {
    pick(lang, "panic!マクロの使用箇所"@, "Uses of panic!"@)
}

pub open spec fn preset_java_null(lang: UiLanguage) -> Seq<char> {
    pick(lang, "null チェック"@, "null check"@)
}

pub open spec fn preset_java_null_desc(lang: UiLanguage) -> Seq<char> {
    pick(lang, "nullとの比較"@, "Comparison to null"@)
}

pub open spec fn preset_java_println(lang: UiLanguage) -> Seq<char> {
    "System.out.println"@
}

pub open spec fn preset_java_println_desc(lang: UiLanguage) -> Seq<char> {
    pick(lang, "デバッグ出力"@, "Debug output"@)
}

pub open spec fn preset_py_print(lang: UiLanguage) -> Seq<char> {
    pick(lang, "print文"@, "print()"@)
}

pub open spec fn preset_py_print_desc(lang: UiLanguage) -> Seq<char> {
    pick(lang, "print()の使用箇所"@, "Calls to print()"@)
}

pub open spec fn preset_py_import(lang: UiLanguage) -> Seq<char> {
    pick(lang, "import文"@, "import"@)
}

pub open spec fn preset_py_import_desc(lang: UiLanguage) -> Seq<char> {
    pick(lang, "importの使用箇所"@, "import statements"@)
}

pub open spec fn preset_js_console(lang: UiLanguage) -> Seq<char> {
    "console.log"@
}

pub open spec fn preset_js_console_desc(lang: UiLanguage) -> Seq<char> {
    pick(lang, "console.log()の使用箇所"@, "console.log() calls"@)
}

pub open spec fn preset_go_err(lang: UiLanguage) -> Seq<char> {
    pick(lang, "エラーチェック"@, "Error check"@)
}

pub open spec fn preset_go_err_desc(lang: UiLanguage) -> Seq<char> {
    pick(lang, "エラーチェック"@, "if err != nil { ... }"@)
}

pub open spec fn preset_kotlin_println(lang: UiLanguage) -> Seq<char> {
    "println"@
}

pub open spec fn preset_kotlin_println_desc(lang: UiLanguage) -> Seq<char> {
    pick(lang, "println()の使用箇所"@, "println() calls"@)
}

pub open spec fn preset_kotlin_fun(lang: UiLanguage) -> Seq<char> {
    pick(lang, "fun 定義"@, "fun definition"@)
}

pub open spec fn preset_kotlin_fun_desc(lang: UiLanguage) -> Seq<char> {
    pick(lang, "トップレベルまたはメンバの関数定義"@, "Top-level or member function"@)
}

pub open spec fn preset_scala_println(lang: UiLanguage) -> Seq<char> {
    "println"@
}

pub open spec fn preset_scala_println_desc(lang: UiLanguage) -> Seq<char> {
    pick(lang, "println()の使用箇所"@, "println() calls"@)
}

pub open spec fn preset_scala_def(lang: UiLanguage) -> Seq<char> {
    pick(lang, "def 定義"@, "def definition"@)
}

pub open spec fn preset_scala_def_desc(lang: UiLanguage) -> Seq<char> {
    pick(lang, "def で = 右辺を持つ定義"@, "def with = body"@)
}

pub open spec fn preset_generic_any(lang: UiLanguage) -> Seq<char> {
    pick(lang, "任意のパターン"@, "Any pattern"@)
}

pub open spec fn preset_generic_any_desc(lang: UiLanguage) -> Seq<char> {
    pick(lang, "任意の式にマッチ"@, "Match any expression"@)
}

} // verus!
