use std::collections::HashSet;

use ast_grep_gui::ast_pattern::compile_strategies;
use ast_grep_gui::i18n::UiLanguage;
use ast_grep_gui::lang::SupportedLanguage;
use ast_grep_gui::pattern_assist::{build_probes, clip_ranges, generate_patterns, select_suggestions};

/// The probe patterns for a language (without the empty exact-match one), each once, in order.
fn probe_patterns_for_lang(lang: SupportedLanguage) -> Vec<String> {
    let mut out: Vec<String> = build_probes("", lang, UiLanguage::English)
        .into_iter()
        .map(|(p, _)| p)
        .filter(|p| !p.is_empty())
        .collect();
    let mut seen = HashSet::new();
    out.retain(|p| seen.insert(p.clone()));
    out
}

#[test]
fn all_fixed_languages_probe_patterns_compile() {
    let langs = [
        SupportedLanguage::Rust,
        SupportedLanguage::Java,
        SupportedLanguage::Python,
        SupportedLanguage::JavaScript,
        SupportedLanguage::TypeScript,
        SupportedLanguage::Go,
        SupportedLanguage::C,
        SupportedLanguage::Cpp,
        SupportedLanguage::CSharp,
        SupportedLanguage::Kotlin,
        SupportedLanguage::Scala,
    ];
    for lang in langs {
        let ast_lang = lang.ast_lang().expect("fixed language maps to SupportLang");
        let patterns = probe_patterns_for_lang(lang);
        assert!(!patterns.is_empty(), "no probe patterns collected for {lang:?}");
        for (i, pattern) in patterns.iter().enumerate() {
            let compiled = compile_strategies(pattern.as_str(), lang, &ast_lang);
            assert!(!compiled.is_empty(), "lang={lang:?} probe[{i}] compile_strategies empty: {pattern:?}");
        }
    }
}

#[test]
fn auto_mode_generic_probes_compile_with_rust_parser() {
    let lang_ui = SupportedLanguage::Auto;
    let lang_parse = SupportedLanguage::Rust;
    let ast_lang = lang_parse.ast_lang().expect("Rust maps to SupportLang");
    let patterns = probe_patterns_for_lang(lang_ui);
    assert!(!patterns.is_empty(), "Auto should yield generic probes");
    for (i, pattern) in patterns.iter().enumerate() {
        let compiled = compile_strategies(pattern.as_str(), lang_parse, &ast_lang);
        assert!(!compiled.is_empty(), "Auto/generic probe[{i}] compile_strategies empty: {pattern:?}");
    }
}

#[test]
fn probes_start_with_exact_match() {
    let probes = build_probes("foo()", SupportedLanguage::Rust, UiLanguage::English);
    assert_eq!(probes[0], ("foo()".to_string(), "Exact match".to_string()));
    assert_eq!(probes[1].0, "fn $NAME($$$ARGS)");
    let ja = build_probes("x", SupportedLanguage::Rust, UiLanguage::Japanese);
    assert_eq!(ja[0].1, "完全一致");
}

#[test]
fn typescript_and_cpp_extend_their_base_language() {
    let js = build_probes("", SupportedLanguage::JavaScript, UiLanguage::English);
    let ts = build_probes("", SupportedLanguage::TypeScript, UiLanguage::English);
    assert!(ts.len() > js.len());
    let c = build_probes("", SupportedLanguage::C, UiLanguage::English);
    let cpp = build_probes("", SupportedLanguage::Cpp, UiLanguage::English);
    assert!(cpp.len() > c.len());
    assert_eq!(cpp[1], c[1]);
}

#[test]
fn blank_snippet_has_no_suggestions() {
    assert!(generate_patterns("   \n ", SupportedLanguage::Rust, UiLanguage::English).is_empty());
}

#[test]
fn snippet_suggestions_are_distinct_and_in_range() {
    let snippet = "  fn add(a: i32) -> i32 { a + 1 }  ";
    let trimmed = snippet.trim();
    let s = generate_patterns(snippet, SupportedLanguage::Rust, UiLanguage::English);
    assert!(!s.is_empty());
    assert_eq!(s[0].pattern, trimmed);
    assert_eq!(s[0].description, "Exact match");
    let mut seen = HashSet::new();
    for sug in &s {
        assert!(seen.insert(sug.pattern.clone()), "duplicate {}", sug.pattern);
        assert_eq!(sug.match_count, sug.match_ranges.len());
        assert!(sug.match_count > 0);
        for &(a, b) in &sug.match_ranges {
            assert!(a < b && b <= trimmed.len());
        }
    }
    assert!(s.iter().any(|x| x.pattern == "fn $NAME($$$ARGS) -> $RET { $$$BODY }"));
}

#[test]
fn ranges_are_clipped_and_empty_ones_dropped() {
    assert_eq!(clip_ranges(&vec![(0, 3), (5, 9), (9, 12), (2, 2)], 8), vec![(0, 3), (5, 8)]);
}

#[test]
fn selection_keeps_first_of_each_pattern() {
    let probes = vec![
        ("a".to_string(), "first".to_string()),
        ("b".to_string(), "unmatched".to_string()),
        ("a".to_string(), "second".to_string()),
        ("c".to_string(), "empty".to_string()),
    ];
    let picks = vec![Some(vec![(0, 1)]), None, Some(vec![(1, 2)]), Some(vec![])];
    let s = select_suggestions(probes, picks);
    assert_eq!(s.len(), 1);
    assert_eq!(s[0].description, "first");
    assert_eq!(s[0].match_ranges, vec![(0, 1)]);
}
