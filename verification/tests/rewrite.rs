use ast_grep_gui::ast_pattern::TextEdit;
use ast_grep_gui::file_encoding::FileEncoding;
use ast_grep_gui::lang::SupportedLanguage;
use ast_grep_gui::rewrite::{apply_edits, apply_rewrite_to_string, preview_for_file, rewrite_pass, PassOutcome};
use ast_grep_gui::search::FileResult;

#[test]
fn auto_lang_returns_none() {
    let result = apply_rewrite_to_string("print('hello')", "print($$$ARGS)", "logger.info($$$ARGS)", SupportedLanguage::Auto);
    assert_eq!(result, Ok(None));
}

#[test]
fn no_match_returns_none() {
    let result = apply_rewrite_to_string("x = 1", "print($$$ARGS)", "logger.info($$$ARGS)", SupportedLanguage::Python);
    assert_eq!(result, Ok(None));
}

#[test]
fn python_simple_replacement() {
    let source = "print(\"hello\")";
    let (after, count) = apply_rewrite_to_string(source, "print($$$ARGS)", "logger.info($$$ARGS)", SupportedLanguage::Python)
        .unwrap()
        .unwrap();
    assert!(count > 0);
    assert!(after.contains("logger.info"));
    assert!(!after.contains("print("));
}

#[test]
fn rust_unwrap_replacement() {
    let source = "fn main() { let x = foo.unwrap(); }";
    let (after, count) = apply_rewrite_to_string(source, "$E.unwrap()", "$E.expect(\"error\")", SupportedLanguage::Rust)
        .unwrap()
        .unwrap();
    assert!(count > 0);
    assert!(after.contains("expect("));
    assert!(!after.contains(".unwrap()"));
}

#[test]
fn rust_multiple_matches_counted() {
    let source = "fn main() {\n    let a = x.unwrap();\n    let b = y.unwrap();\n}";
    let (_, count) = apply_rewrite_to_string(source, "$E.unwrap()", "$E.expect(\"err\")", SupportedLanguage::Rust)
        .unwrap()
        .unwrap();
    assert!(count >= 2, "expected >= 2 replacements, got {count}");
}

#[test]
fn empty_pattern_returns_none() {
    let result = apply_rewrite_to_string("fn main() {}", "", "replaced", SupportedLanguage::Rust);
    assert_eq!(result, Ok(None));
}

#[test]
fn rewrite_to_same_text_is_no_change() {
    let result = apply_rewrite_to_string("fn main() { f(); }", "f()", "f()", SupportedLanguage::Rust);
    assert_eq!(result, Ok(None));
}

fn edit(position: usize, deleted_length: usize, text: &str) -> TextEdit {
    TextEdit { position, deleted_length, inserted_text: text.as_bytes().to_vec() }
}

#[test]
fn edits_apply_from_last_to_first() {
    let r = apply_edits(b"abcdef", &vec![edit(0, 1, "X"), edit(4, 2, "YZW")]).unwrap();
    assert_eq!(r, b"XbcdYZW".to_vec());
    assert!(apply_edits(b"abc", &vec![edit(2, 5, "")]).is_none());
    assert_eq!(apply_edits(b"abc", &vec![]).unwrap(), b"abc".to_vec());
}

#[test]
fn pass_outcomes() {
    assert!(matches!(rewrite_pass("abc", vec![]), PassOutcome::NoEdits));
    assert!(matches!(rewrite_pass("abc", vec![edit(1, 1, "b")]), PassOutcome::Unchanged));
    assert!(matches!(rewrite_pass("abc", vec![edit(9, 1, "")]), PassOutcome::Invalid));
    match rewrite_pass("abc", vec![edit(1, 1, "ZZ")]) {
        PassOutcome::Changed(s, n) => {
            assert_eq!(s, "aZZc");
            assert_eq!(n, 1);
        }
        _ => panic!("expected a change"),
    }
}

#[test]
fn preview_keeps_file_identity() {
    let fr = FileResult {
        path: "/p/a.py".to_string(),
        relative_path: "a.py".to_string(),
        source_language: SupportedLanguage::Python,
        text_encoding: FileEncoding::Utf8,
        matches: vec![],
    };
    let p = preview_for_file(fr, "print(1)".to_string(), "print($$$A)", "log($$$A)").unwrap().unwrap();
    assert_eq!(p.path, "/p/a.py");
    assert_eq!(p.relative_path, "a.py");
    assert_eq!(p.source_before, "print(1)");
    assert_eq!(p.source_after, "log(1)");
    assert_eq!(p.replacement_count, 1);
}

#[test]
fn empty_pattern_rewrites_nothing() {
    let result = apply_rewrite_to_string("fn main() {}", "", "replaced", SupportedLanguage::Rust);
    assert_eq!(result, Ok(None));
}
