//! Toolbar, search and help texts.
use vstd::prelude::*;

use crate::i18n::{Tr, UiLanguage};
use crate::ui_text_specs as ts;

verus! {

impl Tr {
    pub fn window_title(self) -> (r: &'static str)
        ensures
            r@ == ts::window_title(self.0),
    {
        "ast-grep GUI"
    }

    pub fn directory_label(self) -> (r: &'static str)
        ensures
            r@ == ts::directory_label(self.0),
    {
        match self.0 {
            UiLanguage::Japanese => "ディレクトリ:",
            UiLanguage::English => "Directory:",
        }
    }

    pub fn directory_tooltip(self) -> (r: &'static str)
        ensures
            r@ == ts::directory_tooltip(self.0),
    {
        match self.0 {
            UiLanguage::Japanese => "ASTパターンで検索するフォルダを指定します",
            UiLanguage::English => "Folder to search with AST patterns",
        }
    }

    pub fn directory_hint(self) -> (r: &'static str)
        ensures
            r@ == ts::directory_hint(self.0),
    {
        match self.0 {
            UiLanguage::Japanese => "検索対象のディレクトリ",
            UiLanguage::English => "Directory to search",
        }
    }

    pub fn browse(self) -> (r: &'static str)
        ensures
            r@ == ts::browse(self.0),
    {
        match self.0 {
            UiLanguage::Japanese => "参照...",
            UiLanguage::English => "Browse...",
        }
    }

    pub fn ui_language_label(self) -> (r: &'static str)
        ensures
            r@ == ts::ui_language_label(self.0),
    {
        match self.0 {
            UiLanguage::Japanese => "表示言語:",
            UiLanguage::English => "UI language:",
        }
    }

    pub fn ui_language_tooltip(self) -> (r: &'static str)
        ensures
            r@ == ts::ui_language_tooltip(self.0),
    {
        match self.0 {
            UiLanguage::Japanese => "インターフェースの表示言語を選びます（設定は保存されます）",
            UiLanguage::English => "Choose interface language (saved with settings)",
        }
    }

    pub fn mode_label(self) -> (r: &'static str)
        ensures
            r@ == ts::mode_label(self.0),
    {
        match self.0 {
            UiLanguage::Japanese => "モード:",
            UiLanguage::English => "Mode:",
        }
    }

    pub fn mode_tooltip(self) -> (r: &'static str)
        ensures
            r@ == ts::mode_tooltip(self.0),
    {
        match self.0 {
            UiLanguage::Japanese => "検索方法を選択します\n\
                 AST: ast-grep の AST パターン検索（マッチ範囲は本体・CLI と同じ）\n\
                 トークン: スペース区切りのトークンを順序通りに検索（空白の有無は問わない）\n\
                 文字列: 通常のテキスト検索（単純な部分一致）\n\
                 正規表現: 正規表現パターンで検索",
            UiLanguage::English => "Search method\n\
                 AST: ast-grep AST patterns (match spans match the CLI)\n\
                 Token: search by space-separated tokens in order (whitespace-flexible)\n\
                 Text: plain substring search\n\
                 Regex: regular expression search",
        }
    }

    pub fn mode_ast(self) -> (r: &'static str)
        ensures
            r@ == ts::mode_ast(self.0),
    {
        match self.0 {
            UiLanguage::Japanese => "AST",
            UiLanguage::English => "AST",
        }
    }

    pub fn mode_ast_tooltip(self) -> (r: &'static str)
        ensures
            r@ == ts::mode_ast_tooltip(self.0),
    {
        match self.0 {
            UiLanguage::Japanese => "ast-grep のASTパターンで検索します\n\
                 $VAR・$$$ARGS などのメタ変数が使えます\n\
                 コードの構造を理解した検索が可能です\n\
                 マッチ範囲は ast-grep 本体・CLI と同じです",
            UiLanguage::English => "Search with ast-grep AST patterns\n\
                 Meta-variables like $VAR, $$$ARGS\n\
                 Match spans match ast-grep / the CLI",
        }
    }

    pub fn mode_token(self) -> (r: &'static str)
        ensures
            r@ == ts::mode_token(self.0),
    {
        match self.0 {
            UiLanguage::Japanese => "トークン",
            UiLanguage::English => "Token",
        }
    }

    pub fn mode_token_tooltip(self) -> (r: &'static str)
        ensures
            r@ == ts::mode_token_tooltip(self.0),
    {
        match self.0 {
            UiLanguage::Japanese => "スペースで区切ったトークンを順序通りに検索します\n\
                 空白の有無は問いません\n\
                 例: `method ( int` は `method(int` にもマッチします\n\
                 ファイルフィルタ未指定時は全ファイルが対象です",
            UiLanguage::English => "Search by space-separated tokens in order (whitespace-flexible)\n\
                 e.g. `method ( int` matches `method(int`\n\
                 Without a file filter, all files are searched",
        }
    }

    pub fn mode_plain(self) -> (r: &'static str)
        ensures
            r@ == ts::mode_plain(self.0),
    {
        match self.0 {
            UiLanguage::Japanese => "文字列",
            UiLanguage::English => "Text",
        }
    }

    pub fn mode_plain_tooltip(self) -> (r: &'static str)
        ensures
            r@ == ts::mode_plain_tooltip(self.0),
    {
        match self.0 {
            UiLanguage::Japanese => "入力した文字列を含む行を検索します\n\
                 ツールバーで「大文字小文字を区別しない」「単語単位」を選べます（正規表現の知識は不要）\n\
                 ファイルフィルタ未指定時は全ファイルを対象にします",
            UiLanguage::English => "Search for the substring in each line\n\
                 Use the checkboxes for ignore case and whole word (no regex knowledge needed)\n\
                 Without a file filter, all files are searched",
        }
    }

    pub fn plain_text_ignore_case(self) -> (r: &'static str)
        ensures
            r@ == ts::plain_text_ignore_case(self.0),
    {
        match self.0 {
            UiLanguage::Japanese => "大文字小文字を区別しない",
            UiLanguage::English => "Ignore case",
        }
    }

    pub fn plain_text_ignore_case_tooltip(self) -> (r: &'static str)
        ensures
            r@ == ts::plain_text_ignore_case_tooltip(self.0),
    {
        match self.0 {
            UiLanguage::Japanese => "オンにすると、検索語と行内の表記が大文字・小文字違いでも一致します\n\
                 （例: foo と Foo）",
            UiLanguage::English => "When enabled, matches ignore ASCII/Unicode case\n\
                 (e.g. foo matches Foo)",
        }
    }

    pub fn plain_text_whole_word(self) -> (r: &'static str)
        ensures
            r@ == ts::plain_text_whole_word(self.0),
    {
        match self.0 {
            UiLanguage::Japanese => "単語単位で一致",
            UiLanguage::English => "Whole word",
        }
    }

    pub fn plain_text_whole_word_tooltip(self) -> (r: &'static str)
        ensures
            r@ == ts::plain_text_whole_word_tooltip(self.0),
    {
        match self.0 {
            UiLanguage::Japanese => "検索語の前後が、空白（スペース・タブ・改行など）か行頭／行末で区切られているときだけヒットします。\n\
                 ─────────────────────────\n\
                 例: cat を探すとき\n\
                 • ヒットする … 「 cat 」のように前後が空白、または行の先頭／末尾の cat\n\
                 • ヒットしない … catch の cat、int* の int（* の直前は空白ではない）\n\
                 ─────────────────────────\n\
                 foo(int) の int のように、記号のすぐ内側にある語はヒットしません。コード全体を探すときは単語単位をオフにしてください。",
            UiLanguage::English => "Matches only when the search text is delimited by whitespace (spaces, tabs, line breaks) or line start/end.\n\
                 ─────────────────────────\n\
                 Example: searching for cat\n\
                 • Matches … when surrounded by whitespace (e.g. “ cat ”)\n\
                 • Does not match … cat inside catch, or int before * in int* (no space before *)\n\
                 ─────────────────────────\n\
                 Tokens glued to punctuation such as foo(int) won’t match int. Turn off whole word to search more broadly.",
        }
    }

    pub fn incremental_search_label(self) -> (r: &'static str)
        ensures
            r@ == ts::incremental_search_label(self.0),
    {
        match self.0 {
            UiLanguage::Japanese => "入力で即時検索",
            UiLanguage::English => "Auto-search",
        }
    }

    pub fn incremental_search_tooltip(self) -> (r: &'static str)
        ensures
            r@ == ts::incremental_search_tooltip(self.0),
    {
        match self.0 {
            UiLanguage::Japanese => "パターン入力後 0.5 秒で自動的に検索を開始します",
            UiLanguage::English => "Automatically start search 0.5 s after typing stops",
        }
    }

    pub fn mode_regex(self) -> (r: &'static str)
        ensures
            r@ == ts::mode_regex(self.0),
    {
        match self.0 {
            UiLanguage::Japanese => "正規表現",
            UiLanguage::English => "Regex",
        }
    }

    pub fn mode_regex_tooltip(self) -> (r: &'static str)
        ensures
            r@ == ts::mode_regex_tooltip(self.0),
    {
        match self.0 {
            UiLanguage::Japanese => "正規表現パターンで検索します\n\
                 例) foo\\(.*\\)  \\berror\\b  ^import\n\
                 ファイルフィルタ未指定時は全ファイルを対象にします",
            UiLanguage::English => "Search with a regex (Rust regex syntax)\n\
                 e.g. foo\\(.*\\)  \\berror\\b  ^import\n\
                 Without a file filter, all files are searched",
        }
    }

    pub fn search_lang_label(self) -> (r: &'static str)
        ensures
            r@ == ts::search_lang_label(self.0),
    {
        match self.0 {
            UiLanguage::Japanese => "言語:",
            UiLanguage::English => "Language:",
        }
    }

    pub fn search_lang_tooltip(self) -> (r: &'static str)
        ensures
            r@ == ts::search_lang_tooltip(self.0),
    {
        match self.0 {
            UiLanguage::Japanese => "検索対象のプログラミング言語を選択します\n\
                 自動: 拡張子から言語を判定し、混在プロジェクトではファイルごとに別言語で解析します\n\
                 手動: その言語の拡張子のみを対象にします",
            UiLanguage::English => "Language for AST search\n\
                 Auto: detect language from each file extension (mixed projects supported)\n\
                 Manual: only extensions for that language are searched",
        }
    }

    /// AST モード: 拡張子と解析言語の対応表の見出し
    pub fn ext_mapping_title(self) -> (r: &'static str)
        ensures
            r@ == ts::ext_mapping_title(self.0),
    {
        match self.0 {
            UiLanguage::Japanese => "拡張子 → 解析言語（grep）",
            UiLanguage::English => "Extension → parser (AST grep)",
        }
    }

    pub fn ext_mapping_file_filter_note(self) -> (r: &'static str)
        ensures
            r@ == ts::ext_mapping_file_filter_note(self.0),
    {
        match self.0 {
            UiLanguage::Japanese => "※ ファイル名フィルタを指定している場合、一覧以外の拡張子のファイルも対象になることがあります",
            UiLanguage::English => "※ With a file name filter, files with other extensions may be searched too",
        }
    }

    pub fn ext_mapping_plain_regex(self) -> (r: &'static str)
        ensures
            r@ == ts::ext_mapping_plain_regex(self.0),
    {
        match self.0 {
            UiLanguage::Japanese => "文字列／正規表現モードでは拡張子による言語分類は使いません（対象はファイル名フィルタ・詳細設定に従います）",
            UiLanguage::English => "Text/Regex mode does not map extensions to a parser (files follow the name filter and skip rules)",
        }
    }

    pub fn all_files_note(self) -> (r: &'static str)
        ensures
            r@ == ts::all_files_note(self.0),
    {
        match self.0 {
            UiLanguage::Japanese => "（全ファイル対象）",
            UiLanguage::English => "(all files)",
        }
    }

    pub fn all_files_tooltip(self) -> (r: &'static str)
        ensures
            r@ == ts::all_files_tooltip(self.0),
    {
        match self.0 {
            UiLanguage::Japanese => "ファイルフィルタを設定することで対象を絞り込めます",
            UiLanguage::English => "Use the file filter to narrow targets",
        }
    }

    pub fn context_lines_label(self) -> (r: &'static str)
        ensures
            r@ == ts::context_lines_label(self.0),
    {
        match self.0 {
            UiLanguage::Japanese => "コンテキスト行数:",
            UiLanguage::English => "Context lines:",
        }
    }

    pub fn context_lines_tooltip(self) -> (r: &'static str)
        ensures
            r@ == ts::context_lines_tooltip(self.0),
    {
        match self.0 {
            UiLanguage::Japanese => "マッチした行の前後に何行表示するかを指定します\n\
                 0 = マッチ行のみ\n\
                 2 = マッチ行の前後2行ずつ表示（デフォルト）\n\
                 エクスポート時の出力範囲にも影響します\n\
                 Shift+Page Up / Shift+Page Down で1ずつ増減（いつでも利用可）",
            UiLanguage::English => "Lines of context before/after each match\n\
                 0 = match line only\n\
                 2 = two lines each side (default)\n\
                 Affects exports too\n\
                 Shift+Page Up / Shift+Page Down: ±1 (always available)",
        }
    }

    pub fn context_drag_tooltip(self) -> (r: &'static str)
        ensures
            r@ == ts::context_drag_tooltip(self.0),
    {
        match self.0 {
            UiLanguage::Japanese => "ドラッグまたは数値を直接入力して変更できます",
            UiLanguage::English => "Drag or type a number",
        }
    }

    pub fn context_lines_decrease_tooltip(self) -> (r: &'static str)
        ensures
            r@ == ts::context_lines_decrease_tooltip(self.0),
    {
        match self.0 {
            UiLanguage::Japanese => "前後コンテキスト行を1つ減らす",
            UiLanguage::English => "Decrease context lines by 1",
        }
    }

    pub fn context_lines_increase_tooltip(self) -> (r: &'static str)
        ensures
            r@ == ts::context_lines_increase_tooltip(self.0),
    {
        match self.0 {
            UiLanguage::Japanese => "前後コンテキスト行を1つ増やす",
            UiLanguage::English => "Increase context lines by 1",
        }
    }

    pub fn file_filter_label(self) -> (r: &'static str)
        ensures
            r@ == ts::file_filter_label(self.0),
    {
        match self.0 {
            UiLanguage::Japanese => "ファイルフィルタ:",
            UiLanguage::English => "File filter:",
        }
    }

    pub fn file_filter_tooltip(self) -> (r: &'static str)
        ensures
            r@ == ts::file_filter_tooltip(self.0),
    {
        match self.0 {
            UiLanguage::Japanese => "検索するファイル名を絞り込みます\n\
                 空のままだと「言語」設定の拡張子が使われます\n\
                 複数指定する場合は ; で区切ります",
            UiLanguage::English => "Filter by file name pattern\n\
                 Empty = use language default extensions\n\
                 Multiple patterns: separate with ;",
        }
    }

    pub fn file_filter_hint(self) -> (r: &'static str)
        ensures
            r@ == ts::file_filter_hint(self.0),
    {
        match self.0 {
            UiLanguage::Japanese => "*.rs;*.toml  (空=言語デフォルト)",
            UiLanguage::English => "*.rs;*.toml  (empty = language default)",
        }
    }

    pub fn file_filter_hover(self) -> (r: &'static str)
        ensures
            r@ == ts::file_filter_hover(self.0),
    {
        match self.0 {
            UiLanguage::Japanese => "ファイル名パターンを ; 区切りで指定します\n\
                 ─────────────────────────\n\
                 * … 任意の文字列にマッチ\n\
                 .  … ドット（エスケープ不要）\n\
                 正規表現も使えます\n\
                 ─────────────────────────\n\
                 例）*.rs;*.toml\n\
                 例）test_.*\\.java\n\
                 例）Main.java",
            UiLanguage::English => "File name patterns separated by ;\n\
                 ─────────────────────────\n\
                 * … matches any substring\n\
                 .  … literal dot (no escape needed)\n\
                 Regex features allowed\n\
                 ─────────────────────────\n\
                 e.g. *.rs;*.toml\n\
                 e.g. test_.*\\.java\n\
                 e.g. Main.java",
        }
    }

    pub fn pattern_label_tooltip_ast(self) -> (r: &'static str)
        ensures
            r@ == ts::pattern_label_tooltip_ast(self.0),
    {
        match self.0 {
            UiLanguage::Japanese => "ASTパターンを入力します\n\
                 ─────────────────────────\n\
                 $VAR   … 任意の単一ノードにマッチ\n\
                 $$$VAR … 0個以上の複数ノードにマッチ\n\
                 $_     … 何にでもマッチ（キャプチャしない）\n\
                 ─────────────────────────\n\
                 例）fn $NAME($$$ARGS)\n\
                 例）$X.unwrap()\n\
                 Enter キーでも検索を開始できます\n\
                 「ℹ ヘルプ」でプリセット一覧を表示",
            UiLanguage::English => "Enter an AST pattern\n\
                 ─────────────────────────\n\
                 $VAR   … single node\n\
                 $$$VAR … zero or more nodes\n\
                 $_     … match without capture\n\
                 ─────────────────────────\n\
                 e.g. fn $NAME($$$ARGS)\n\
                 Press Enter to search\n\
                 See Help for presets",
        }
    }

    pub fn pattern_label_tooltip_token(self) -> (r: &'static str)
        ensures
            r@ == ts::pattern_label_tooltip_token(self.0),
    {
        match self.0 {
            UiLanguage::Japanese => "スペースで区切ったトークンを入力します\n\
                 ─────────────────────────\n\
                 各トークンはリテラル文字列として扱われます\n\
                 トークン間の空白は「0個以上の空白」としてマッチします\n\
                 ─────────────────────────\n\
                 例: method ( int i = 0 ) は method(int i=0) にもマッチ",
            UiLanguage::English => "Enter tokens separated by spaces\n\
                 Each token is matched literally\n\
                 Whitespace between tokens matches zero or more spaces\n\
                 e.g. method ( int matches method(int",
        }
    }

    pub fn pattern_label_tooltip_plain(self) -> (r: &'static str)
        ensures
            r@ == ts::pattern_label_tooltip_plain(self.0),
    {
        match self.0 {
            UiLanguage::Japanese => "検索したい文字列をそのまま入力します\n\
                 大文字/小文字・単語単位はツールバーのチェックで指定できます\n\
                 例）TODO  println!  System.out.println",
            UiLanguage::English => "Plain text to find (use toolbar for ignore case / whole word)\n\
                 e.g. TODO  println!  unwrap()",
        }
    }

    pub fn pattern_label_tooltip_regex(self) -> (r: &'static str)
        ensures
            r@ == ts::pattern_label_tooltip_regex(self.0),
    {
        match self.0 {
            UiLanguage::Japanese => "正規表現パターンを入力します（Rust の regex クレート構文）\n\
                 ─────────────────────────\n\
                 .     … 任意の1文字\n\
                 .*    … 任意の文字列\n\
                 \\b    … 単語境界\n\
                 [A-Z] … 文字クラス\n\
                 ─────────────────────────\n\
                 例）TODO:.*  \\bpanic!\\b  ^import\\s",
            UiLanguage::English => "Regular expression (Rust regex syntax)\n\
                 .  *  \\b  character classes, etc.",
        }
    }

    pub fn pattern_hint_ast(self) -> (r: &'static str)
        ensures
            r@ == ts::pattern_hint_ast(self.0),
    {
        match self.0 {
            UiLanguage::Japanese => "例: fn $NAME($$$ARGS)",
            UiLanguage::English => "e.g. fn $NAME($$$ARGS)",
        }
    }

    pub fn pattern_hint_token(self) -> (r: &'static str)
        ensures
            r@ == ts::pattern_hint_token(self.0),
    {
        match self.0 {
            UiLanguage::Japanese => "例: method ( int i = 0 )",
            UiLanguage::English => "e.g. method ( int i = 0 )",
        }
    }

    pub fn pattern_hint_plain(self) -> (r: &'static str)
        ensures
            r@ == ts::pattern_hint_plain(self.0),
    {
        match self.0 {
            UiLanguage::Japanese => "例: TODO  println!  unwrap()",
            UiLanguage::English => "e.g. TODO  println!  unwrap()",
        }
    }

    pub fn pattern_hint_regex(self) -> (r: &'static str)
        ensures
            r@ == ts::pattern_hint_regex(self.0),
    {
        match self.0 {
            UiLanguage::Japanese => "例: TODO:.*  \\bpanic!\\b",
            UiLanguage::English => "e.g. TODO:.*  \\bpanic!\\b",
        }
    }

    pub fn pattern_colon(self) -> (r: &'static str)
        ensures
            r@ == ts::pattern_colon(self.0),
    {
        match self.0 {
            UiLanguage::Japanese => "パターン:",
            UiLanguage::English => "Pattern:",
        }
    }

    pub fn stop(self) -> (r: &'static str)
        ensures
            r@ == ts::stop(self.0),
    {
        match self.0 {
            UiLanguage::Japanese => "停止",
            UiLanguage::English => "Stop",
        }
    }

    pub fn stop_tooltip(self) -> (r: &'static str)
        ensures
            r@ == ts::stop_tooltip(self.0),
    {
        match self.0 {
            UiLanguage::Japanese => "検索を中断します",
            UiLanguage::English => "Cancel search",
        }
    }

    pub fn search_btn(self) -> (r: &'static str)
        ensures
            r@ == ts::search_btn(self.0),
    {
        match self.0 {
            UiLanguage::Japanese => "検索",
            UiLanguage::English => "Search",
        }
    }

    pub fn search_tooltip_ast(self) -> (r: &'static str)
        ensures
            r@ == ts::search_tooltip_ast(self.0),
    {
        match self.0 {
            UiLanguage::Japanese => "ASTパターン検索を開始します（マッチ範囲は ast-grep 本体と同じ）",
            UiLanguage::English => "Start AST search (same spans as ast-grep CLI)",
        }
    }

    pub fn search_tooltip_token(self) -> (r: &'static str)
        ensures
            r@ == ts::search_tooltip_token(self.0),
    {
        match self.0 {
            UiLanguage::Japanese => "トークン検索を開始します（スペース区切りで空白柔軟マッチ）",
            UiLanguage::English => "Start token search (space-separated, whitespace-flexible)",
        }
    }

    pub fn search_tooltip_plain(self) -> (r: &'static str)
        ensures
            r@ == ts::search_tooltip_plain(self.0),
    {
        match self.0 {
            UiLanguage::Japanese => "文字列検索を開始します（Enter キーでも可）",
            UiLanguage::English => "Start text search (Enter also works)",
        }
    }

    pub fn search_tooltip_regex(self) -> (r: &'static str)
        ensures
            r@ == ts::search_tooltip_regex(self.0),
    {
        match self.0 {
            UiLanguage::Japanese => "正規表現検索を開始します（Enter キーでも可）",
            UiLanguage::English => "Start regex search (Enter also works)",
        }
    }

    pub fn clear_results(self) -> (r: &'static str)
        ensures
            r@ == ts::clear_results(self.0),
    {
        match self.0 {
            UiLanguage::Japanese => "クリア",
            UiLanguage::English => "Clear",
        }
    }

    pub fn clear_results_tooltip(self) -> (r: &'static str)
        ensures
            r@ == ts::clear_results_tooltip(self.0),
    {
        match self.0 {
            UiLanguage::Japanese => "検索結果をすべて消去します",
            UiLanguage::English => "Clear all results",
        }
    }

    pub fn help_btn(self) -> (r: &'static str)
        ensures
            r@ == ts::help_btn(self.0),
    {
        match self.0 {
            UiLanguage::Japanese => "ℹ ヘルプ",
            UiLanguage::English => "ℹ Help",
        }
    }

    pub fn help_btn_tooltip(self) -> (r: &'static str)
        ensures
            r@ == ts::help_btn_tooltip(self.0),
    {
        match self.0 {
            UiLanguage::Japanese => "パターンの書き方とプリセット一覧を表示します",
            UiLanguage::English => "Pattern help and presets",
        }
    }

    pub fn pattern_assist_btn(self) -> (r: &'static str)
        ensures
            r@ == ts::pattern_assist_btn(self.0),
    {
        match self.0 {
            UiLanguage::Japanese => "✨ パターン支援",
            UiLanguage::English => "✨ Pattern assist",
        }
    }

    pub fn pattern_assist_btn_tooltip(self) -> (r: &'static str)
        ensures
            r@ == ts::pattern_assist_btn_tooltip(self.0),
    {
        match self.0 {
            UiLanguage::Japanese => "コード片を入力すると、マッチするパターン候補を自動生成します",
            UiLanguage::English => "Generate pattern candidates from a code snippet",
        }
    }

    pub fn regex_visualizer_btn(self) -> (r: &'static str)
        ensures
            r@ == ts::regex_visualizer_btn(self.0),
    {
        match self.0 {
            UiLanguage::Japanese => "🧩 Regex 補助",
            UiLanguage::English => "🧩 Regex helper",
        }
    }

    pub fn regex_visualizer_btn_tooltip(self) -> (r: &'static str)
        ensures
            r@ == ts::regex_visualizer_btn_tooltip(self.0),
    {
        match self.0 {
            UiLanguage::Japanese => "正規表現の構造を見やすく分解し、コンパイル可否も確認できます",
            UiLanguage::English => "Break down the regex structure and check whether it compiles",
        }
    }

    pub fn regex_visualizer_window_title(self) -> (r: &'static str)
        ensures
            r@ == ts::regex_visualizer_window_title(self.0),
    {
        match self.0 {
            UiLanguage::Japanese => "Regex visualiser",
            UiLanguage::English => "Regex visualiser",
        }
    }

    pub fn regex_visualizer_intro(self) -> (r: &'static str)
        ensures
            r@ == ts::regex_visualizer_intro(self.0),
    {
        match self.0 {
            UiLanguage::Japanese => "現在の正規表現をライブで分解表示します。量指定、分岐、グループ、文字クラスの位置が追いやすくなります。",
            UiLanguage::English => "Live breakdown of the current regex so groups, alternations, character classes, and quantifiers are easier to follow.",
        }
    }

    pub fn regex_visualizer_pattern_label(self) -> (r: &'static str)
        ensures
            r@ == ts::regex_visualizer_pattern_label(self.0),
    {
        match self.0 {
            UiLanguage::Japanese => "対象の正規表現:",
            UiLanguage::English => "Regex pattern:",
        }
    }

    pub fn regex_visualizer_status_ok(self) -> (r: &'static str)
        ensures
            r@ == ts::regex_visualizer_status_ok(self.0),
    {
        match self.0 {
            UiLanguage::Japanese => "コンパイル成功",
            UiLanguage::English => "Compiles successfully",
        }
    }

    pub fn regex_visualizer_status_error(self) -> (r: &'static str)
        ensures
            r@ == ts::regex_visualizer_status_error(self.0),
    {
        match self.0 {
            UiLanguage::Japanese => "コンパイルエラー",
            UiLanguage::English => "Compile error",
        }
    }

    pub fn regex_visualizer_empty(self) -> (r: &'static str)
        ensures
            r@ == ts::regex_visualizer_empty(self.0),
    {
        match self.0 {
            UiLanguage::Japanese => "正規表現を入力すると、ここに分解結果が表示されます。",
            UiLanguage::English => "Enter a regex pattern to see the breakdown here.",
        }
    }

    pub fn regex_visualizer_automaton_heading(self) -> (r: &'static str)
        ensures
            r@ == ts::regex_visualizer_automaton_heading(self.0),
    {
        match self.0 {
            UiLanguage::Japanese => "簡易オートマトン表示",
            UiLanguage::English => "Simplified automaton view",
        }
    }

    pub fn regex_visualizer_test_label(self) -> (r: &'static str)
        ensures
            r@ == ts::regex_visualizer_test_label(self.0),
    {
        match self.0 {
            UiLanguage::Japanese => "テスト文字列:",
            UiLanguage::English => "Test text:",
        }
    }

    pub fn regex_visualizer_test_hint(self) -> (r: &'static str)
        ensures
            r@ == ts::regex_visualizer_test_hint(self.0),
    {
        match self.0 {
            UiLanguage::Japanese => "ここに文字列を入力すると、上の正規表現でマッチ箇所を試せます",
            UiLanguage::English => "Type sample text here to try matches against the pattern above",
        }
    }

    pub fn regex_visualizer_test_matches_heading(self) -> (r: &'static str)
        ensures
            r@ == ts::regex_visualizer_test_matches_heading(self.0),
    {
        match self.0 {
            UiLanguage::Japanese => "マッチ結果",
            UiLanguage::English => "Matches",
        }
    }

    pub fn regex_visualizer_test_no_matches(self) -> (r: &'static str)
        ensures
            r@ == ts::regex_visualizer_test_no_matches(self.0),
    {
        match self.0 {
            UiLanguage::Japanese => "マッチなし",
            UiLanguage::English => "No matches",
        }
    }

    pub fn regex_visualizer_test_match_truncated(self) -> (r: &'static str)
        ensures
            r@ == ts::regex_visualizer_test_match_truncated(self.0),
    {
        match self.0 {
            UiLanguage::Japanese => "（先頭のみ表示）",
            UiLanguage::English => "(showing first matches only)",
        }
    }

    pub fn view_code(self) -> (r: &'static str)
        ensures
            r@ == ts::view_code(self.0),
    {
        match self.0 {
            UiLanguage::Japanese => "📄 コード",
            UiLanguage::English => "📄 Code",
        }
    }

    pub fn view_code_tooltip(self) -> (r: &'static str)
        ensures
            r@ == ts::view_code_tooltip(self.0),
    {
        match self.0 {
            UiLanguage::Japanese => "シンタックスハイライト付きコードビューで結果を表示します",
            UiLanguage::English => "Syntax-highlighted code view",
        }
    }

    pub fn view_table(self) -> (r: &'static str)
        ensures
            r@ == ts::view_table(self.0),
    {
        match self.0 {
            UiLanguage::Japanese => "📊 表",
            UiLanguage::English => "📊 Table",
        }
    }

    pub fn view_table_tooltip(self) -> (r: &'static str)
        ensures
            r@ == ts::view_table_tooltip(self.0),
    {
        match self.0 {
            UiLanguage::Japanese => "ファイル・行・列・マッチ範囲の原文・該当行付近（前後コンテキスト）を一覧表示します",
            UiLanguage::English => "Table: file, line, col, matched span, and surrounding source lines",
        }
    }

    pub fn view_batch_report(self) -> (r: &'static str)
        ensures
            r@ == ts::view_batch_report(self.0),
    {
        match self.0 {
            UiLanguage::Japanese => "📑 バッチレポート",
            UiLanguage::English => "📑 Batch report",
        }
    }

    pub fn view_batch_report_tooltip(self) -> (r: &'static str)
        ensures
            r@ == ts::view_batch_report_tooltip(self.0),
    {
        match self.0 {
            UiLanguage::Japanese => "複数パターンのバッチ検索結果をまとめて表示します",
            UiLanguage::English => "Aggregated results from multi-pattern batch search",
        }
    }

    pub fn view_summary(self) -> (r: &'static str)
        ensures
            r@ == ts::view_summary(self.0),
    {
        match self.0 {
            UiLanguage::Japanese => "📈 サマリー",
            UiLanguage::English => "📈 Summary",
        }
    }

    pub fn view_summary_tooltip(self) -> (r: &'static str)
        ensures
            r@ == ts::view_summary_tooltip(self.0),
    {
        match self.0 {
            UiLanguage::Japanese => "受信側の型と、引数個数・各引数の型の組み合わせを集計します（パターンにメソッド用の単一メタがある場合はその列も表示）",
            UiLanguage::English => "Count hits by receiver type, arity, and per-argument types (adds a method column if the pattern has a second single metavar)",
        }
    }

    pub fn summary_title(self) -> (r: &'static str)
        ensures
            r@ == ts::summary_title(self.0),
    {
        match self.0 {
            UiLanguage::Japanese => "型バリエーションのサマリー",
            UiLanguage::English => "Type variation summary",
        }
    }

    pub fn summary_empty_results(self) -> (r: &'static str)
        ensures
            r@ == ts::summary_empty_results(self.0),
    {
        match self.0 {
            UiLanguage::Japanese => "検索結果がありません。先に検索を実行してください。",
            UiLanguage::English => "No search results. Run a search first.",
        }
    }

    pub fn summary_no_match_rows(self) -> (r: &'static str)
        ensures
            r@ == ts::summary_no_match_rows(self.0),
    {
        match self.0 {
            UiLanguage::Japanese => "マッチ行がありません。",
            UiLanguage::English => "No match rows.",
        }
    }

    pub fn summary_pattern_ineligible(self) -> (r: &'static str)
        ensures
            r@ == ts::summary_pattern_ineligible(self.0),
    {
        match self.0 {
            UiLanguage::Japanese => "このサマリーには、パターンに単一メタ変数が1つ以上（受信側）必要です（例: $RECV、$RECV.Format($A)、$RECV.Format()）。",
            UiLanguage::English => "This summary needs at least one single metavar for the receiver (e.g. $RECV, $RECV.Format($A), $RECV.Format()).",
        }
    }

    pub fn summary_col_count(self) -> (r: &'static str)
        ensures
            r@ == ts::summary_col_count(self.0),
    {
        match self.0 {
            UiLanguage::Japanese => "件数",
            UiLanguage::English => "Count",
        }
    }

    pub fn summary_col_receiver(self) -> (r: &'static str)
        ensures
            r@ == ts::summary_col_receiver(self.0),
    {
        match self.0 {
            UiLanguage::Japanese => "受信側",
            UiLanguage::English => "Receiver",
        }
    }

    pub fn summary_col_method(self) -> (r: &'static str)
        ensures
            r@ == ts::summary_col_method(self.0),
    {
        match self.0 {
            UiLanguage::Japanese => "メソッド側",
            UiLanguage::English => "Method",
        }
    }

    pub fn summary_col_arity(self) -> (r: &'static str)
        ensures
            r@ == ts::summary_col_arity(self.0),
    {
        match self.0 {
            UiLanguage::Japanese => "引数数",
            UiLanguage::English => "Arity",
        }
    }

    pub fn batch_jobs_header(self) -> (r: &'static str)
        ensures
            r@ == ts::batch_jobs_header(self.0),
    {
        match self.0 {
            UiLanguage::Japanese => "バッチ検索ジョブ",
            UiLanguage::English => "Batch search jobs",
        }
    }

    pub fn batch_add_job(self) -> (r: &'static str)
        ensures
            r@ == ts::batch_add_job(self.0),
    {
        match self.0 {
            UiLanguage::Japanese => "＋ 現在設定を追加",
            UiLanguage::English => "+ Add current",
        }
    }

    pub fn batch_add_job_tooltip(self) -> (r: &'static str)
        ensures
            r@ == ts::batch_add_job_tooltip(self.0),
    {
        match self.0 {
            UiLanguage::Japanese => "ツールバーのパターンと検索条件を 1 件として一覧に追加します",
            UiLanguage::English => "Add current pattern and search settings as one job",
        }
    }

    pub fn batch_run_all(self) -> (r: &'static str)
        ensures
            r@ == ts::batch_run_all(self.0),
    {
        match self.0 {
            UiLanguage::Japanese => "▶ バッチ実行",
            UiLanguage::English => "▶ Run batch",
        }
    }

    pub fn batch_run_all_tooltip(self) -> (r: &'static str)
        ensures
            r@ == ts::batch_run_all_tooltip(self.0),
    {
        match self.0 {
            UiLanguage::Japanese => "有効なジョブを上から順に実行し、完了後にレポートを表示します",
            UiLanguage::English => "Run enabled jobs in order, then show the report",
        }
    }

    pub fn batch_save_config(self) -> (r: &'static str)
        ensures
            r@ == ts::batch_save_config(self.0),
    {
        match self.0 {
            UiLanguage::Japanese => "設定を保存",
            UiLanguage::English => "Save jobs",
        }
    }

    pub fn batch_save_config_tooltip(self) -> (r: &'static str)
        ensures
            r@ == ts::batch_save_config_tooltip(self.0),
    {
        match self.0 {
            UiLanguage::Japanese => "バッチジョブ一覧を YAML ファイルに保存します（テキストエディタで編集しやすい形式です）",
            UiLanguage::English => "Save the batch job list as a YAML file (easy to edit in a text editor)",
        }
    }

    pub fn batch_load_config(self) -> (r: &'static str)
        ensures
            r@ == ts::batch_load_config(self.0),
    {
        match self.0 {
            UiLanguage::Japanese => "設定を読込",
            UiLanguage::English => "Load jobs",
        }
    }

}

} // verus!
