use ast_grep_gui::cli_config::{format_cli_command, lang_cli_arg, parse_output_format, parse_output_view, parse_output_views, shell_quote, BatchCommonOptions, BatchRunRequest};
use ast_grep_gui::cli_runner::{batch_request_from_args, is_batch_mode, parse_lang, require_jobs, BatchArgs};
use ast_grep_gui::export::{OutputFormat, OutputView, OutputViewSet};
use ast_grep_gui::i18n::UiLanguage;
use ast_grep_gui::lang::SupportedLanguage;

#[test]
fn parse_views_comma_separated() {
    let views = parse_output_views(&["code,summary".to_string()]).unwrap();
    assert!(views.contains(OutputView::Code));
    assert!(views.contains(OutputView::Summary));
    assert!(!views.contains(OutputView::Table));
}

#[test]
fn parse_views_defaults_to_table() {
    let views = parse_output_views(&[]).unwrap();
    assert!(views.contains(OutputView::Table));
}

#[test]
fn parse_views_rejects_unknown_name() {
    let e = parse_output_views(&["code, Chart".to_string()]).unwrap_err();
    assert_eq!(e, "unknown view: chart (expected code, table, or summary)");
    assert!(parse_output_view("graph").is_err());
    assert_eq!(parse_output_view(" TABLE ".trim()).unwrap(), OutputView::Table);
}

#[test]
fn parse_views_repeated_flags_and_blanks() {
    let v = parse_output_views(&["table,".to_string(), " summary ".to_string()]).unwrap();
    assert!(v.contains(OutputView::Table) && v.contains(OutputView::Summary) && !v.contains(OutputView::Code));
}

#[test]
fn view_arg_round_trips_through_parse() {
    let set = OutputViewSet { code: true, table: false, summary: true };
    let arg = set.to_cli_arg();
    assert_eq!(arg, "code,summary");
    assert_eq!(parse_output_views(&[arg]).unwrap(), set);
}

#[test]
fn format_names_round_trip() {
    for f in [OutputFormat::Json, OutputFormat::Text, OutputFormat::Markdown, OutputFormat::Html, OutputFormat::Xlsx] {
        assert_eq!(parse_output_format(f.cli_name()).unwrap(), f);
    }
    assert_eq!(parse_output_format("MD").unwrap(), OutputFormat::Markdown);
    assert_eq!(parse_output_format("excel").unwrap(), OutputFormat::Xlsx);
    assert_eq!(parse_output_format("pdf").unwrap_err(), "unknown format: pdf");
    assert!(OutputFormat::Xlsx.requires_output_file());
    assert!(!OutputFormat::Json.requires_output_file());
}

#[test]
fn language_args_round_trip() {
    for l in [SupportedLanguage::Auto, SupportedLanguage::Rust, SupportedLanguage::Cpp, SupportedLanguage::CSharp, SupportedLanguage::Scala] {
        let arg = lang_cli_arg(l).unwrap_or("auto");
        assert_eq!(parse_lang(arg).unwrap(), l);
    }
    assert_eq!(parse_lang("C++").unwrap(), SupportedLanguage::Cpp);
    assert_eq!(parse_lang("cobol").unwrap_err(), "unknown language: cobol");
}

#[test]
fn batch_mode_needs_exact_flag() {
    assert!(is_batch_mode(&["app".to_string(), "--batch".to_string()]));
    assert!(!is_batch_mode(&["app".to_string(), "--batched".to_string()]));
    assert!(!is_batch_mode(&[]));
}

fn args() -> BatchArgs {
    BatchArgs {
        batch: true,
        patterns: "p.txt".to_string(),
        dir: "/src".to_string(),
        lang: "auto".to_string(),
        view: vec!["table".to_string()],
        format: "json".to_string(),
        output: Some("out.json".to_string()),
        context: 2,
        filter: String::new(),
        skip_dirs: None,
        max_hits: None,
        max_file_size_mb: 10,
        include_dirs: String::new(),
        no_type_hints: false,
    }
}

#[test]
fn batch_request_from_valid_args() {
    let req = batch_request_from_args(args()).unwrap();
    assert_eq!(req.patterns_file, "p.txt");
    assert_eq!(req.common.search_dir, "/src");
    assert_eq!(req.common.selected_lang, SupportedLanguage::Auto);
    assert_eq!(req.common.max_search_hits, 100_000);
    assert_eq!(req.common.skip_dirs, ".git;.hg;.svn;target;node_modules;dist;build;.cache;.next;vendor;__pycache__;venv;.venv");
    assert_eq!(req.format, OutputFormat::Json);
    assert_eq!(req.output.as_deref(), Some("out.json"));
    assert!(req.common.type_hints_enabled);
    assert_eq!(req.ui_lang, UiLanguage::Japanese);
}

#[test]
fn batch_request_errors_in_order() {
    let mut a = args();
    a.batch = false;
    assert_eq!(batch_request_from_args(a).unwrap_err(), "--batch flag is required for CLI batch mode");
    let mut a = args();
    a.output = None;
    assert_eq!(batch_request_from_args(a).unwrap_err(), "--output is required for batch mode");
    let mut a = args();
    a.format = "csv".to_string();
    assert_eq!(batch_request_from_args(a).unwrap_err(), "unknown format: csv");
    let mut a = args();
    a.lang = "zig".to_string();
    assert_eq!(batch_request_from_args(a).unwrap_err(), "unknown language: zig");
    let mut a = args();
    a.view = vec!["pie".to_string()];
    a.lang = "zig".to_string();
    assert!(batch_request_from_args(a).unwrap_err().starts_with("unknown view: pie"));
}

#[test]
fn batch_request_keeps_explicit_options() {
    let mut a = args();
    a.max_hits = Some(5);
    a.skip_dirs = Some("x;y".to_string());
    a.no_type_hints = true;
    a.lang = "Rust".to_string();
    let req = batch_request_from_args(a).unwrap();
    assert_eq!(req.common.max_search_hits, 5);
    assert_eq!(req.common.skip_dirs, "x;y");
    assert!(!req.common.type_hints_enabled);
    assert_eq!(req.common.selected_lang, SupportedLanguage::Rust);
}

#[test]
fn empty_job_list_is_refused() {
    assert_eq!(require_jobs::<u8>(vec![]).unwrap_err(), "no patterns found in pattern file");
    assert_eq!(require_jobs(vec![1u8]).unwrap(), vec![1u8]);
}

#[test]
fn shell_quote_only_when_needed() {
    assert_eq!(shell_quote("plain"), "plain");
    assert_eq!(shell_quote("a b"), "\"a b\"");
    assert_eq!(shell_quote("say \"hi\""), "\"say \\\"hi\\\"\"");
}

#[test]
fn command_preview_lists_non_default_options() {
    let mut common = BatchCommonOptions::default();
    common.search_dir = "/my src".to_string();
    common.selected_lang = SupportedLanguage::Python;
    let req = BatchRunRequest {
        patterns_file: "p.txt".to_string(),
        common,
        views: OutputViewSet { code: true, table: true, summary: false },
        format: OutputFormat::Markdown,
        output: Some("out.md".to_string()),
        ui_lang: UiLanguage::English,
    };
    let cmd = format_cli_command(&req, "ast-grep-gui");
    assert_eq!(
        cmd,
        "ast-grep-gui --batch --patterns p.txt --dir \"/my src\" --lang python --view code,table --format markdown --output out.md"
    );
}
