use ast_grep_gui::ast_pattern::{compile_contextual_function_declarator, compile_strategies, looks_like_function_definition_pattern, looks_like_qualified_call_pattern};
use ast_grep_gui::lang::SupportedLanguage;
use ast_grep_language::{LanguageExt, SupportLang};

/// How many matches the first strategy with any match has in `source`.
fn matches_any(pattern: &str, lang: SupportedLanguage, source: &str) -> usize {
    let ast_lang = lang.ast_lang().expect("fixed language");
    let root = ast_lang.support_lang().ast_grep(source);
    for pat in compile_strategies(pattern, lang, &ast_lang) {
        let count = root.root().find_all(pat.pattern()).count();
        if count > 0 {
            return count;
        }
    }
    0
}

const CPP_DLG: &str = r#"
void CApModel00Dlg::OnPaint()
{
    if (IsIconic())
    {
        CPaintDC dc(this);
        SendMessage(WM_ICONERASEBKGND, (WPARAM) dc.GetSafeHdc(), 0);
        int cxIcon = GetSystemMetrics(SM_CXICON);
        dc.DrawIcon(x, y, m_hIcon);
    }
    else
    {
        CDialog::OnPaint();
    }
}
"#;

#[test]
fn looks_like_function_definition_basic() {
    assert!(looks_like_function_definition_pattern("void CApModel00Dlg::OnPaint() { $$$BODY }"));
    assert!(looks_like_function_definition_pattern("$RET $NAME() { $$$BODY }"));
    assert!(looks_like_function_definition_pattern("$RET $CLASS::$METHOD($$$ARGS) { $$$BODY }"));
    assert!(!looks_like_function_definition_pattern("if ($C) { $$$BODY }"));
    assert!(!looks_like_function_definition_pattern("while ($C) { $$$BODY }"));
    assert!(!looks_like_function_definition_pattern("$CLASS::$METHOD($$$ARGS)"));
    assert!(!looks_like_function_definition_pattern("class $N { $$$BODY }"));
    assert!(!looks_like_function_definition_pattern("$VAR"));
    assert!(!looks_like_function_definition_pattern("foo({})"));
}

#[test]
fn cpp_function_definition_patterns_match() {
    for pat in [
        "void CApModel00Dlg::OnPaint() { $$$BODY }",
        "$RET CApModel00Dlg::OnPaint() { $$$BODY }",
        "$RET $NAME() { $$$BODY }",
        "$RET $NAME($$$ARGS) { $$$BODY }",
        "$RET $CLASS::$METHOD($$$ARGS) { $$$BODY }",
    ] {
        assert!(matches_any(pat, SupportedLanguage::Cpp, CPP_DLG) >= 1, "no match for {pat:?}");
    }
}

#[test]
fn cpp_existing_patterns_still_match() {
    assert!(matches_any("$VAR", SupportedLanguage::Cpp, CPP_DLG) >= 1);
    assert!(matches_any("IsIconic()", SupportedLanguage::Cpp, CPP_DLG) >= 1);
    assert!(matches_any("$CLASS::$METHOD($$$ARGS)", SupportedLanguage::Cpp, CPP_DLG) >= 1);
}

#[test]
fn cpp_function_match_parent_is_definition_with_body() {
    let ast_lang = SupportedLanguage::Cpp.ast_lang().expect("fixed language");
    let root = SupportLang::Cpp.ast_grep(CPP_DLG);
    let pat = compile_contextual_function_declarator(
        "void CApModel00Dlg::OnPaint() { $$$BODY }",
        SupportedLanguage::Cpp,
        &ast_lang,
    )
    .expect("function_declarator pattern compiles");
    let m = root.root().find_all(pat.pattern()).next().expect("one match");
    let node = m.get_node();
    assert_eq!(node.kind(), "function_declarator");
    let parent = node.parent().expect("has parent");
    assert_eq!(parent.kind(), "function_definition");
    assert!(parent.text().contains("DrawIcon"), "body missing: {}", parent.text());
}

#[test]
fn c_function_definition_matches() {
    let src = "int add(int a, int b) {\n    return a + b;\n}\n";
    assert!(matches_any("$RET $NAME($$$ARGS) { $$$BODY }", SupportedLanguage::C, src) >= 1);
}

#[test]
fn function_declarator_strategy_is_c_cpp_only() {
    assert!(compile_contextual_function_declarator(
        "$RET $NAME($$$ARGS) { $$$BODY }",
        SupportedLanguage::Rust,
        &SupportedLanguage::Rust.ast_lang().expect("fixed language"),
    )
    .is_none());
    assert!(compile_contextual_function_declarator(
        "$RET $NAME($$$ARGS) { $$$BODY }",
        SupportedLanguage::Cpp,
        &SupportedLanguage::Cpp.ast_lang().expect("fixed language"),
    )
    .is_some());
}

#[test]
fn qualified_call_pattern_is_recognised() {
    assert!(looks_like_qualified_call_pattern("$CLASS::$METHOD($$$ARGS)"));
    assert!(!looks_like_qualified_call_pattern("foo($$$ARGS)"));
}

#[test]
fn auto_has_no_ast_language() {
    assert!(SupportedLanguage::Auto.to_support_lang().is_none());
    assert!(SupportedLanguage::Rust.to_support_lang().is_some());
}
