use ast_grep_gui::receiver_hint::{
    cpp_combine_type, cpp_default_binary_type, cpp_is_numeric_label, cpp_scan_defines, cpp_scan_include_directives,
    cpp_simplify_type_name, cpp_strip_one_pointer, humanize_tree_sitter_kind, is_cpp_identifier, java_simplify_type_name,
    ts_simplify_type_name, CppMacroDef, TypeHintProfile,
};

#[test]
fn humanize_string_literal_kind() {
    assert_eq!(humanize_tree_sitter_kind("string_literal"), "StringLiteral");
}

#[test]
fn humanize_keeps_case_of_rest_and_skips_empty_words() {
    assert_eq!(humanize_tree_sitter_kind("field__expression"), "FieldExpression");
    assert_eq!(humanize_tree_sitter_kind(""), "");
}

#[test]
fn cpp_scan_include_directives_handles_spaces_after_hash_and_bom() {
    let src = "\u{feff}#  include \"a.h\"\n# include <b.h>\n#include \"c.h\"\n#define X 1\nnot an include\n";
    let dirs = cpp_scan_include_directives(src);
    assert_eq!(dirs, vec!["a.h".to_string(), "b.h".to_string(), "c.h".to_string()]);
}

#[test]
fn cpp_simplify_type_name_strips_template_args() {
    assert_eq!(cpp_simplify_type_name("std::vector<int>"), "vector");
    assert_eq!(cpp_simplify_type_name("MyTemplate<int>"), "MyTemplate");
    assert_eq!(cpp_simplify_type_name("std::vector<int>::size_type"), "size_type");
    assert_eq!(cpp_simplify_type_name("CWinApp *"), "CWinApp");
    assert_eq!(cpp_simplify_type_name("const CWinApp *"), "CWinApp");
}

#[test]
fn cpp_scan_defines_cast_pattern() {
    let src = "#define M(x) ((CWinApp*)(x))\n";
    let defines = cpp_scan_defines(src);
    match defines.get("M") {
        Some(CppMacroDef::CastReturn(t)) => assert_eq!(t, "CWinApp *"),
        other => panic!("expected CastReturn, got {:?}", other),
    }
}

#[test]
fn cpp_scan_defines_deref_freefn_pattern() {
    let src = "#define theApp (*AfxGetApp())\n";
    let defines = cpp_scan_defines(src);
    match defines.get("theApp") {
        Some(CppMacroDef::DerefFreeFnCall(n)) => assert_eq!(n, "AfxGetApp"),
        other => panic!("expected DerefFreeFnCall, got {:?}", other),
    }
}

#[test]
fn cpp_scan_defines_ident_alias_pattern() {
    let src = "#define MYAPP theApp\n";
    let defines = cpp_scan_defines(src);
    match defines.get("MYAPP") {
        Some(CppMacroDef::IdentAlias(n)) => assert_eq!(n, "theApp"),
        other => panic!("expected IdentAlias, got {:?}", other),
    }
}

#[test]
fn cpp_scan_defines_line_continuation() {
    let src = "#define M(x) \\\n  ((CWinApp*)(x))\n";
    let defines = cpp_scan_defines(src);
    assert!(matches!(defines.get("M"), Some(CppMacroDef::CastReturn(_))));
}

#[test]
fn cpp_scan_defines_ignores_non_matching() {
    let src = "#define FOO 1 + 2\n#define BAR(x) f(x)\n#define EMPTY\n";
    let defines = cpp_scan_defines(src);
    assert!(!defines.contains_key("FOO"));
    assert!(!defines.contains_key("BAR"));
    assert!(!defines.contains_key("EMPTY"));
}

#[test]
fn cpp_type_helpers() {
    assert_eq!(cpp_combine_type("  int ", " * "), "int *");
    assert_eq!(cpp_combine_type("int", "  "), "int");
    assert_eq!(cpp_strip_one_pointer(" CWinApp * ").as_deref(), Some("CWinApp"));
    assert_eq!(cpp_strip_one_pointer("CWinApp"), None);
    assert!(is_cpp_identifier(" _abc1 "));
    assert!(!is_cpp_identifier("1abc"));
    assert!(!is_cpp_identifier("a-b"));
}

#[test]
fn java_and_ts_type_names_lose_packages_and_generics() {
    assert_eq!(java_simplify_type_name("java.util.List<String>"), "List");
    assert_eq!(ts_simplify_type_name(" ns.Foo "), "Foo");
    assert_eq!(ts_simplify_type_name("Bar"), "Bar");
}

#[test]
fn cpp_binary_types() {
    assert_eq!(cpp_default_binary_type("int", "int", "==").as_deref(), Some("bool"));
    assert_eq!(cpp_default_binary_type("float", "int", "*").as_deref(), Some("double"));
    assert_eq!(cpp_default_binary_type("IntegerLiteral", "long", "+").as_deref(), Some("int"));
    assert_eq!(cpp_default_binary_type("CString", "CString", "+"), None);
    assert!(cpp_is_numeric_label("DWORD"));
    assert!(!cpp_is_numeric_label("CString"));
}

#[test]
fn type_hint_profile_counts_and_converts_to_microseconds() {
    let mut p = TypeHintProfile::default();
    p.record_infer(2_500);
    p.record_infer(1_000);
    p.header_reads = 3;
    p.header_read_nanos = 999;
    let s = p.snapshot();
    assert_eq!(s.infer_calls, 2);
    assert_eq!(s.infer_total_us, 3);
    assert_eq!(s.header_reads, 3);
    assert_eq!(s.header_read_total_us, 0);
}

#[test]
fn type_hint_profile_wraps_like_atomics() {
    let mut p = TypeHintProfile::default();
    p.infer_nanos = u64::MAX;
    p.record_infer(2);
    assert_eq!(p.infer_nanos, 1);
}
