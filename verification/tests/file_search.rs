use ast_grep_gui::file_search::{
    ast_file_matches, file_language, line_hits_exec, parse_file_filter, plain_text_matches, prepare_search,
    regex_escape, remaining_budget, search_file_text, should_report_progress, skip_dir_names, token_search_regex,
    wants_file, PreparedSearch,
};
use ast_grep_gui::i18n::UiLanguage;
use ast_grep_gui::lang::SupportedLanguage;
use ast_grep_gui::search::{PlainTextSearchOptions, SearchMode};

fn chars(s: &str) -> Vec<char> {
    s.chars().collect()
}

#[test]
fn line_hits_resume_after_each_occurrence() {
    assert_eq!(line_hits_exec(&chars("aaaa"), &chars("aa"), false), vec![(0, 2), (2, 4)]);
    assert_eq!(line_hits_exec(&chars("foo foobar foo"), &chars("foo"), true), vec![(0, 3), (11, 14)]);
    assert_eq!(line_hits_exec(&chars("xyz"), &chars("q"), false), vec![]);
}

#[test]
fn plain_search_reports_lines_and_byte_columns() {
    let src = "let é = foo;\nfoo(foo)\n";
    let (items, cut) = plain_text_matches(src, "foo", false, 1, None);
    assert!(!cut);
    assert_eq!(items.len(), 3);
    assert_eq!((items[0].line_start, items[0].col_start, items[0].col_end), (1, 9, 12));
    assert_eq!((items[1].line_start, items[1].col_start), (2, 0));
    assert_eq!((items[2].line_start, items[2].col_start), (2, 4));
    assert_eq!(items[1].matched_text, "foo");
    assert_eq!(items[1].context_before, vec!["let é = foo;".to_string()]);
    assert_eq!(items[0].context_after, vec!["foo(foo)".to_string()]);
}

#[test]
fn plain_search_budget_cuts_off() {
    let (items, cut) = plain_text_matches("a a a", "a", false, 0, Some(2));
    assert_eq!(items.len(), 2);
    assert!(cut);
    let (items, cut) = plain_text_matches("a a", "a", false, 0, Some(2));
    assert_eq!(items.len(), 2);
    assert!(!cut);
}

#[test]
fn whole_word_plain_search() {
    let (items, _) = plain_text_matches("cat concat cat\n", "cat", true, 0, None);
    assert_eq!(items.iter().map(|m| m.col_start).collect::<Vec<_>>(), vec![0, 11]);
}

#[test]
fn regex_escape_and_token_regex() {
    assert_eq!(regex_escape("a.b*(c)"), "a\\.b\\*\\(c\\)");
    assert_eq!(token_search_regex("  foo ( bar ").unwrap(), "foo\\s*\\(\\s*bar");
    assert_eq!(token_search_regex("   "), None);
}

#[test]
fn prepare_reports_errors() {
    let opts = PlainTextSearchOptions::default();
    assert_eq!(prepare_search("(", SearchMode::Regex, opts, UiLanguage::English).err().unwrap().starts_with("Regex error: "), true);
    assert_eq!(prepare_search("  ", SearchMode::TokenSearch, opts, UiLanguage::English).err().unwrap(), "パターンが空です");
    assert_eq!(prepare_search("", SearchMode::PlainText, opts, UiLanguage::English).err().unwrap(), "パターンが空です");
    assert!(matches!(prepare_search("$A", SearchMode::AstGrep, opts, UiLanguage::English), Ok(PreparedSearch::Ast(_))));
}

#[test]
fn regex_and_token_searches_span_lines() {
    let opts = PlainTextSearchOptions::default();
    let p = prepare_search("foo\\s+bar", SearchMode::Regex, opts, UiLanguage::English).ok().unwrap();
    let (items, _) = search_file_text(&p, "x\nfoo\n  bar y", SupportedLanguage::Rust, 0, None);
    assert_eq!(items.len(), 1);
    assert_eq!((items[0].line_start, items[0].col_start, items[0].line_end, items[0].col_end), (2, 0, 3, 5));
    assert_eq!(items[0].matched_text, "foo\n  bar");
    let t = prepare_search("a ( b", SearchMode::TokenSearch, opts, UiLanguage::English).ok().unwrap();
    let (items, _) = search_file_text(&t, "a(b) a (\n b)", SupportedLanguage::Rust, 0, None);
    assert_eq!(items.len(), 2);
}

#[test]
fn case_insensitive_plain_search() {
    let opts = PlainTextSearchOptions { case_insensitive: true, whole_word: false };
    let p = prepare_search("Foo", SearchMode::PlainText, opts, UiLanguage::English).ok().unwrap();
    let (items, _) = search_file_text(&p, "FOO foo\nfOo", SupportedLanguage::Rust, 0, None);
    assert_eq!(items.len(), 3);
    assert_eq!(items[1].matched_text, "foo");
    assert_eq!(items[2].line_start, 2);
}

#[test]
fn ast_search_in_rust() {
    let (items, cut) = ast_file_matches("fn main() {\n    let a = x.unwrap();\n}\n", "$E.unwrap()", SupportedLanguage::Rust, 0, None);
    assert!(!cut);
    assert_eq!(items.len(), 1);
    assert_eq!(items[0].line_start, 2);
    assert_eq!(items[0].col_start, 12);
    assert_eq!(items[0].matched_text, "x.unwrap()");
    let (none, _) = ast_file_matches("fn main() {}", "$A", SupportedLanguage::Auto, 0, None);
    assert!(none.is_empty());
}

#[test]
fn file_selection_helpers() {
    assert_eq!(skip_dir_names(" .git ; ;target"), vec![".git".to_string(), "target".to_string()]);
    let f = parse_file_filter("*.rs; test_*");
    assert!(wants_file("main.rs", Some("rs"), &f, true, &[]));
    assert!(!wants_file("main.go", Some("go"), &f, true, &[]));
    assert!(parse_file_filter("  ").is_none());
    assert!(wants_file("a.py", Some("py"), &None, true, &["py", "pyi"]));
    assert!(!wants_file("a.rs", Some("rs"), &None, true, &["py"]));
    assert!(wants_file("a.rs", None, &None, false, &[]));
    assert_eq!(file_language(SupportedLanguage::Auto, None, SearchMode::AstGrep), None);
    assert_eq!(file_language(SupportedLanguage::Auto, None, SearchMode::Regex), Some(SupportedLanguage::Rust));
    assert_eq!(file_language(SupportedLanguage::Go, None, SearchMode::AstGrep), Some(SupportedLanguage::Go));
    assert_eq!(remaining_budget(0, 5), None);
    assert_eq!(remaining_budget(10, 4), Some(6));
    assert_eq!(remaining_budget(10, 12), Some(0));
    assert!(should_report_progress(100));
    assert!(!should_report_progress(101));
}

#[test]
fn file_filter_drops_entries_that_do_not_compile() {
    let f = parse_file_filter("main(;*.rs");
    assert_eq!(f.as_ref().map(|v| v.len()), Some(1));
    assert!(wants_file("lib.rs", Some("rs"), &f, true, &[]));
    assert!(!wants_file("main(", None, &f, true, &[]));
    assert!(parse_file_filter("main(").is_none());
}
