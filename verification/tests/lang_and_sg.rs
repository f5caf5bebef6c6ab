use ast_grep_gui::lang::{file_extension, SupportedLanguage};
use ast_grep_gui::sg_command::{is_sg_command, parse_sg_run};

#[test]
fn extensions_map_to_languages() {
    assert_eq!(SupportedLanguage::from_extension(".RS"), Some(SupportedLanguage::Rust));
    assert_eq!(SupportedLanguage::from_extension("h"), Some(SupportedLanguage::Cpp));
    assert_eq!(SupportedLanguage::from_extension("c"), Some(SupportedLanguage::C));
    assert_eq!(SupportedLanguage::from_extension("hpp"), Some(SupportedLanguage::Cpp));
    assert_eq!(SupportedLanguage::from_extension("txt"), None);
}

#[test]
fn paths_map_by_extension() {
    assert_eq!(SupportedLanguage::from_path("src/main.rs"), Some(SupportedLanguage::Rust));
    assert_eq!(SupportedLanguage::from_path("a/b.tsx"), Some(SupportedLanguage::TypeScript));
    assert_eq!(SupportedLanguage::from_path("Makefile"), None);
    assert_eq!(SupportedLanguage::from_path(".gitignore"), None);
}

#[test]
fn cli_names_round_trip() {
    for &l in SupportedLanguage::all() {
        let name = l.to_cli_lang_str().unwrap();
        assert_eq!(SupportedLanguage::from_cli_str(name), Some(l));
    }
    assert_eq!(SupportedLanguage::Auto.to_cli_lang_str(), None);
    assert_eq!(SupportedLanguage::from_cli_str("KT"), Some(SupportedLanguage::Kotlin));
}

#[test]
fn sg_run_is_parsed() {
    let a = parse_sg_run("sg run -p 'foo($A)' -l rs -C 3 ./src").unwrap();
    assert_eq!(a.pattern, "foo($A)");
    assert_eq!(a.lang, SupportedLanguage::Rust);
    assert_eq!(a.context_before, 3);
    assert_eq!(a.context_after, 3);
    assert_eq!(a.search_dir, "./src");
}

#[test]
fn sg_run_errors() {
    assert_eq!(parse_sg_run("sg run -l rust").unwrap_err(), "-p / --pattern が指定されていません");
    assert_eq!(parse_sg_run("sg -p x -l cobol").unwrap_err(), "不明な言語: cobol");
    assert_eq!(parse_sg_run("-p x --bogus").unwrap_err(), "不明なオプション: --bogus");
    assert_eq!(parse_sg_run("-p \"x").unwrap_err(), "クォートが閉じられていません");
    assert_eq!(parse_sg_run("-p x -A y").unwrap_err(), "-A の値が数値ではありません");
}

#[test]
fn sg_commands_are_recognised() {
    assert!(is_sg_command("  sg run -p x"));
    assert!(is_sg_command("sg"));
    assert!(is_sg_command("--pattern x"));
    assert!(!is_sg_command("sgx"));
    assert!(!is_sg_command("foo"));
}

#[test]
fn upper_case_cli_names_map_to_their_language() {
    for l in SupportedLanguage::all().iter().copied() {
        if let Some(name) = l.to_cli_lang_str() {
            assert_eq!(SupportedLanguage::from_cli_str(&name.to_uppercase()), Some(l));
            assert_eq!(SupportedLanguage::from_cli_str(name), Some(l));
        }
    }
    assert_eq!(SupportedLanguage::from_cli_str("auto"), None);
    assert_eq!(SupportedLanguage::from_cli_str("RuSt"), Some(SupportedLanguage::Rust));
}

#[test]
fn extension_of_portable_paths() {
    assert_eq!(file_extension("src/main.rs").as_deref(), Some("rs"));
    assert_eq!(file_extension("a/b.tar.gz").as_deref(), Some("gz"));
    assert_eq!(file_extension("a/.bashrc"), None);
    assert_eq!(file_extension("a.d/noext"), None);
    assert_eq!(SupportedLanguage::from_path("lib/x.PY"), Some(SupportedLanguage::Python));
    assert_eq!(SupportedLanguage::from_path("a/.rs"), None);
}
